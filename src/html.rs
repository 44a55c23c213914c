use scraper::{Html, Selector};
use vstd::prelude::*;

verus! {

/// The text content of an HTML document: its text nodes concatenated in the
/// order the parsed tree holds them.
pub uninterp spec fn document_text_of(html: Seq<char>) -> Seq<char>;

/// Whether a CSS selector parses (`Selector::parse` succeeds); this depends on
/// the selector text alone.
pub uninterp spec fn selector_parses(selector: Seq<char>) -> bool;

/// Whether a regular expression compiles (`Regex::new` succeeds); this depends
/// on the pattern text alone.
pub uninterp spec fn pattern_compiles(pattern: Seq<char>) -> bool;

/// How many elements of an HTML document match a CSS selector.
pub uninterp spec fn match_count_of(html: Seq<char>, selector: Seq<char>) -> nat;

/// For each element matching `selector`, in the order scraper's `select`
/// yields them, the value of its attribute `attr`, where present.
pub uninterp spec fn attribute_values_of(html: Seq<char>, selector: Seq<char>, attr: Seq<char>) -> Seq<
    Option<Seq<char>>,
>;

/// For each element matching `outer`, in the order scraper's `select` yields
/// them, the text of its first descendant matching `inner`, where there is one.
pub uninterp spec fn first_inner_texts_of(html: Seq<char>, outer: Seq<char>, inner: Seq<char>) -> Seq<
    Option<Seq<char>>,
>;

/// For each successive non-overlapping match of `pattern` in `text`, the text
/// of capture group `group`, where the group took part in the match.
pub uninterp spec fn regex_captures_of(pattern: Seq<char>, text: Seq<char>, group: nat) -> Seq<
    Option<Seq<char>>,
>;

/// The views of a list of optional strings.
pub open spec fn optional_texts(v: Seq<Option<String>>) -> Seq<Option<Seq<char>>> {
    v.map_values(|o: Option<String>| match o {
        Some(t) => Some(t@),
        None => None,
    })
}

/// Relies on scraper's Html::parse_document, Html::root_element and
/// ElementRef::text: the document's text, which depends on the markup alone.
#[verifier::external_body]
pub(crate) fn document_text(html: &str) -> (r: String)
    ensures
        r@ == document_text_of(html@),
{
    Html::parse_document(html).root_element().text().collect::<String>()
}

/// Relies on scraper's Selector::parse and Html::select: the number of
/// matching elements; `None` when the selector does not parse.
#[verifier::external_body]
pub(crate) fn match_count(html: &str, selector: &str) -> (r: Option<usize>)
    ensures
        r is Some <==> selector_parses(selector@),
        r matches Some(n) ==> n as nat == match_count_of(html@, selector@),
{
    let selector = Selector::parse(selector).ok()?;
    Some(Html::parse_document(html).select(&selector).count())
}

/// Relies on scraper's Selector::parse, Html::select and Element::attr: one
/// entry per matching element; `None` when the selector does not parse.
#[verifier::external_body]
pub(crate) fn attribute_values(html: &str, selector: &str, attr: &str) -> (r: Option<Vec<Option<String>>>)
    ensures
        r is Some <==> selector_parses(selector@),
        r matches Some(v) ==> optional_texts(v@) == attribute_values_of(html@, selector@, attr@),
{
    let selector = Selector::parse(selector).ok()?;
    let document = Html::parse_document(html);
    Some(document.select(&selector).map(|e| e.value().attr(attr).map(|a| a.to_string())).collect())
}

/// Relies on scraper's Selector::parse, Html::select, ElementRef::select and
/// ElementRef::text: one entry per element matching `outer`; `None` when a
/// selector does not parse.
#[verifier::external_body]
pub(crate) fn first_inner_texts(html: &str, outer: &str, inner: &str) -> (r: Option<Vec<Option<String>>>)
    ensures
        r is Some <==> (selector_parses(outer@) && selector_parses(inner@)),
        r matches Some(v) ==> optional_texts(v@) == first_inner_texts_of(html@, outer@, inner@),
{
    let outer = Selector::parse(outer).ok()?;
    let inner = Selector::parse(inner).ok()?;
    let document = Html::parse_document(html);
    Some(document.select(&outer).map(|e| e.select(&inner).next().map(|t| t.text().collect())).collect())
}

/// Relies on regex's Regex::new, Regex::captures_iter and Captures::get: one
/// entry per match, in order; `None` when the pattern does not compile.
#[verifier::external_body]
pub(crate) fn regex_captures(pattern: &str, text: &str, group: usize) -> (r: Option<Vec<Option<String>>>)
    ensures
        r is Some <==> pattern_compiles(pattern@),
        r matches Some(v) ==> optional_texts(v@) == regex_captures_of(pattern@, text@, group as nat),
{
    let re = regex::Regex::new(pattern).ok()?;
    Some(re.captures_iter(text).map(|c| c.get(group).map(|m| m.as_str().to_string())).collect())
}

} // verus!
