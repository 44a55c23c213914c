use crate::clock::{days_after, days_later};
use crate::fingerprint::fingerprint_of;
use crate::html::{
    attribute_values, attribute_values_of, document_text, document_text_of, first_inner_texts,
    first_inner_texts_of, match_count, match_count_of, optional_texts, pattern_compiles, regex_captures,
    regex_captures_of, selector_parses,
};
use crate::models::{Coupon, CouponSource};
use crate::text::{
    dash_spaces, dashed, decimal_digits, decimal_string, joined, lower_of, lowercase, parse_whole_number,
    str_contains, text_contains, whole_number,
};
use vstd::prelude::*;
use vstd::string::*;

verus! {

/// `c` is a fresh candidate observed at `now` with exactly these fields.
pub open spec fn offer_is(
    c: Coupon,
    name: Seq<char>,
    description: Seq<char>,
    discount: Option<u64>,
    code: Seq<char>,
    url: Seq<char>,
    source: Seq<char>,
    expiry: Option<i64>,
    now: i64,
) -> bool {
    &&& c.id is None
    &&& c.name@ == name
    &&& c.description@ == description
    &&& c.discount_percentage == discount
    &&& c.code@ == code
    &&& c.url@ == url
    &&& c.source@ == source
    &&& c.expiry == expiry
    &&& c.created_at == Some(now)
    &&& c.validated_at is None
    &&& !c.is_valid
    &&& !c.is_posted
    &&& c.hash@ == fingerprint_of(name, code, url)
}

/// The text of an optional value, or `default`.
pub open spec fn text_or(o: Option<Seq<char>>, default: Seq<char>) -> Seq<char> {
    match o {
        Some(t) => t,
        None => default,
    }
}

/// The `i`-th entry of `s`, or `None` past its end.
pub open spec fn entry(s: Seq<Option<Seq<char>>>, i: int) -> Option<Seq<char>> {
    if 0 <= i < s.len() { s[i] } else { None }
}

fn entry_text(v: &Vec<Option<String>>, i: usize, default: &str) -> (r: String)
    ensures
        r@ == text_or(entry(optional_texts(v@), i as int), default@),
{
    if i < v.len() {
        match &v[i] {
            Some(t) => t.clone(),
            None => String::from_str(default),
        }
    } else {
        String::from_str(default)
    }
}

/// The Cursor AI student plan offered at `url`.
pub fn cursor_student_offer(url: &str, now: i64) -> (c: Coupon)
    ensures
        offer_is(c, "Cursor AI Student Plan"@, "Free Pro features for verified students"@, Some(100),
            "STUDENT"@, url@, "Cursor AI"@, Some(days_later(now, 365)), now),
{
    Coupon::new_at(
        String::from_str("Cursor AI Student Plan"),
        String::from_str("Free Pro features for verified students"),
        Some(100),
        String::from_str("STUDENT"),
        String::from_str(url),
        String::from_str("Cursor AI"),
        Some(days_after(now, 365)),
        now,
    )
}

/// Selector of the student discount block on Cursor AI's student page.
pub const CURSOR_STUDENT_SELECTOR: &'static str = "div.student-discount";

/// Selector of a promotion block on Cursor AI's pricing page.
pub const CURSOR_PROMOTION_SELECTOR: &'static str = "div.promotion-code";

/// The student plan, if Cursor AI's student page at `url` shows the student
/// discount block.
pub fn extract_cursor_student_coupon(html: &str, url: &str, now: i64) -> (r: Option<Coupon>)
    ensures
        r is Some <==> (selector_parses(CURSOR_STUDENT_SELECTOR@) && match_count_of(html@, CURSOR_STUDENT_SELECTOR@) >= 1),
        r matches Some(c) ==> offer_is(c, "Cursor AI Student Plan"@, "Free Pro features for verified students"@,
            Some(100), "STUDENT"@, url@, "Cursor AI"@, Some(days_later(now, 365)), now),
{
    match match_count(html, CURSOR_STUDENT_SELECTOR) {
        Some(n) => if n >= 1 {
            Some(cursor_student_offer(url, now))
        } else {
            None
        },
        None => None,
    }
}

/// The discount a promotion announces: the whole number its text spells, or 10.
pub open spec fn promotion_percent(text: Seq<char>) -> u64 {
    match whole_number(text) {
        Some(p) => p,
        None => 10,
    }
}

/// The promotion candidate for a promotion block with the given code and
/// discount attributes (`PROMO` and `10` where absent).
pub open spec fn is_cursor_promotion(c: Coupon, code: Option<Seq<char>>, discount: Option<Seq<char>>, url: Seq<char>, now: i64) -> bool {
    let text = text_or(discount, "10"@);
    offer_is(c, "Cursor AI Promotion: "@ + text + "% Off"@, "Limited time promotion for Cursor AI Pro"@,
        Some(promotion_percent(text)), text_or(code, "PROMO"@), url, "Cursor AI"@, Some(days_later(now, 30)), now)
}

/// The promotion candidate for code `code` and discount text `discount`.
pub fn cursor_promo_offer(code: String, discount: String, url: &str, now: i64) -> (c: Coupon)
    ensures
        is_cursor_promotion(c, Some(code@), Some(discount@), url@, now),
{
    let percent = match parse_whole_number(discount.as_str()) {
        Some(p) => p,
        None => 10,
    };
    let mut name = joined("Cursor AI Promotion: ", discount.as_str());
    name.append("% Off");
    Coupon::new_at(
        name,
        String::from_str("Limited time promotion for Cursor AI Pro"),
        Some(percent),
        code,
        String::from_str(url),
        String::from_str("Cursor AI"),
        Some(days_after(now, 30)),
        now,
    )
}

/// One candidate per promotion block of Cursor AI's pricing page at `url`, in
/// page order; `None` when there is none.
pub fn extract_cursor_promo_coupons(html: &str, url: &str, now: i64) -> (r: Option<Vec<Coupon>>)
    ensures
        r is Some <==> (selector_parses(CURSOR_PROMOTION_SELECTOR@)
            && attribute_values_of(html@, CURSOR_PROMOTION_SELECTOR@, "data-code"@).len() > 0),
        r matches Some(v) ==> {
            let codes = attribute_values_of(html@, CURSOR_PROMOTION_SELECTOR@, "data-code"@);
            let discounts = attribute_values_of(html@, CURSOR_PROMOTION_SELECTOR@, "data-discount"@);
            &&& v.len() == codes.len()
            &&& v.len() > 0
            &&& forall|i: int| 0 <= i < v.len() ==> is_cursor_promotion(#[trigger] v@[i], codes[i], entry(discounts, i), url@, now)
        },
{
    let codes = match attribute_values(html, CURSOR_PROMOTION_SELECTOR, "data-code") {
        Some(v) => v,
        None => return None,
    };
    let discounts = match attribute_values(html, CURSOR_PROMOTION_SELECTOR, "data-discount") {
        Some(v) => v,
        None => return None,
    };
    let ghost code_texts = optional_texts(codes@);
    let ghost discount_texts = optional_texts(discounts@);
    let mut coupons: Vec<Coupon> = Vec::new();
    let mut i: usize = 0;
    while i < codes.len()
        invariant
            i <= codes@.len(),
            code_texts == optional_texts(codes@),
            discount_texts == optional_texts(discounts@),
            coupons@.len() == i,
            forall|k: int| 0 <= k < i ==> is_cursor_promotion(#[trigger] coupons@[k], code_texts[k], entry(discount_texts, k), url@, now),
        decreases codes@.len() - i,
    {
        let code = entry_text(&codes, i, "PROMO");
        let discount = entry_text(&discounts, i, "10");
        let c = cursor_promo_offer(code, discount, url, now);
        proof {
            assert(entry(code_texts, i as int) == code_texts[i as int]);
        }
        coupons.push(c);
        i = i + 1;
    }
    if coupons.len() == 0 {
        None
    } else {
        Some(coupons)
    }
}

/// Selector of an offer block on the GitHub Student Developer Pack page.
pub const GITHUB_OFFER_SELECTOR: &'static str = "div.d-flex.flex-wrap.gutter";

/// Whether a pack offer titled `title` concerns an AI tool: its title is not
/// empty and mentions `ai` in lowercase.
pub open spec fn is_ai_offer_title(title: Seq<char>) -> bool {
    title.len() > 0 && text_contains(lower_of(title), "ai"@)
}

/// `c` is the candidate for the pack offer titled `title` on the page at `url`.
pub open spec fn is_github_offer(c: Coupon, title: Seq<char>, description: Seq<char>, url: Seq<char>) -> bool {
    &&& c.id is None
    &&& c.name@ == "GitHub Student Pack: "@ + title
    &&& c.description@ == description
    &&& c.discount_percentage is None
    &&& c.code@ == "GITHUB-STUDENT"@
    &&& c.url@ == url + "#"@ + dashed(lower_of(title))
    &&& c.source@ == "GitHub"@
    &&& c.expiry is None
    &&& c.created_at is Some
    &&& c.validated_at is None
    &&& !c.is_valid
    &&& !c.is_posted
    &&& c.hash@ == fingerprint_of(c.name@, c.code@, c.url@)
}

/// The candidate for a pack offer, if it concerns an AI tool.
pub fn extract_github_offer(title: &str, description: &str, url: &str, now: i64) -> (r: Option<Coupon>)
    ensures
        r is Some <==> is_ai_offer_title(title@),
        r matches Some(c) ==> is_github_offer(c, title@, description@, url@) && c.created_at == Some(now),
{
    if title.unicode_len() == 0 {
        return None;
    }
    let lower = lowercase(title);
    if !str_contains(lower.as_str(), "ai") {
        return None;
    }
    let name = joined("GitHub Student Pack: ", title);
    let mut link = joined(url, "#");
    let anchor = dash_spaces(lower.as_str());
    link.append(anchor.as_str());
    Some(
        Coupon::new_at(
            name,
            String::from_str(description),
            None,
            String::from_str("GITHUB-STUDENT"),
            link,
            String::from_str("GitHub"),
            None,
            now,
        ),
    )
}

/// The pack offers that concern AI tools, with their descriptions, in page
/// order, from the first title and paragraph of each offer block.
pub open spec fn ai_offers(titles: Seq<Option<Seq<char>>>, descriptions: Seq<Option<Seq<char>>>) -> Seq<(Seq<char>, Seq<char>)>
    decreases titles.len(),
{
    if titles.len() == 0 {
        Seq::empty()
    } else {
        let i = titles.len() - 1;
        let title = text_or(titles[i], Seq::empty());
        ai_offers(titles.drop_last(), descriptions) + if is_ai_offer_title(title) {
            seq![(title, text_or(entry(descriptions, i), Seq::empty()))]
        } else {
            Seq::empty()
        }
    }
}

/// The AI-tool offers of the GitHub Student Developer Pack page at `url`.
pub fn extract_github_offers(html: &str, url: &str, now: i64) -> (r: Vec<Coupon>)
    ensures
        forall|k: int| 0 <= k < r.len() ==> (#[trigger] r@[k]).created_at == Some(now) && r@[k].source@ == "GitHub"@,
        forall|k: int| 0 <= k < r.len() ==> (#[trigger] r@[k]).url@.len() >= url@.len(),
        !(selector_parses(GITHUB_OFFER_SELECTOR@) && selector_parses("h3"@) && selector_parses("p"@)) ==> r.len() == 0,
        (selector_parses(GITHUB_OFFER_SELECTOR@) && selector_parses("h3"@) && selector_parses("p"@)) ==> {
            let offers = ai_offers(first_inner_texts_of(html@, GITHUB_OFFER_SELECTOR@, "h3"@),
                first_inner_texts_of(html@, GITHUB_OFFER_SELECTOR@, "p"@));
            &&& r.len() == offers.len()
            &&& forall|k: int| 0 <= k < r.len() ==> is_github_offer(#[trigger] r@[k], offers[k].0, offers[k].1, url@)
        },
{
    let titles = match first_inner_texts(html, GITHUB_OFFER_SELECTOR, "h3") {
        Some(v) => v,
        None => return Vec::new(),
    };
    let descriptions = match first_inner_texts(html, GITHUB_OFFER_SELECTOR, "p") {
        Some(v) => v,
        None => return Vec::new(),
    };
    let ghost title_texts = optional_texts(titles@);
    let ghost description_texts = optional_texts(descriptions@);
    let mut coupons: Vec<Coupon> = Vec::new();
    let mut i: usize = 0;
    while i < titles.len()
        invariant
            i <= titles@.len(),
            title_texts == optional_texts(titles@),
            description_texts == optional_texts(descriptions@),
            ai_offers(title_texts.subrange(0, i as int), description_texts).len() == coupons@.len(),
            forall|k: int| 0 <= k < coupons@.len() ==> {
                let o = ai_offers(title_texts.subrange(0, i as int), description_texts)[k];
                is_github_offer(#[trigger] coupons@[k], o.0, o.1, url@) && coupons@[k].created_at == Some(now)
            },
        decreases titles@.len() - i,
    {
        let title = entry_text(&titles, i, "");
        let description = entry_text(&descriptions, i, "");
        proof {
            reveal_strlit("");
            let p = title_texts.subrange(0, i as int + 1);
            assert(p.drop_last() =~= title_texts.subrange(0, i as int));
            assert(entry(title_texts, i as int) == title_texts[i as int]);
            assert(p[i as int] == title_texts[i as int]);
            assert(""@ =~= Seq::<char>::empty());
            assert(ai_offers(p, description_texts) == ai_offers(title_texts.subrange(0, i as int), description_texts) + if is_ai_offer_title(title@) {
                seq![(title@, description@)]
            } else {
                Seq::empty()
            });
        }
        let ghost before = coupons@;
        match extract_github_offer(title.as_str(), description.as_str(), url, now) {
            Some(c) => coupons.push(c),
            None => {},
        }
        proof {
            let now_offers = ai_offers(title_texts.subrange(0, i as int + 1), description_texts);
            let prev = ai_offers(title_texts.subrange(0, i as int), description_texts);
            assert forall|k: int| 0 <= k < coupons@.len() implies {
                let o = now_offers[k];
                is_github_offer(#[trigger] coupons@[k], o.0, o.1, url@) && coupons@[k].created_at == Some(now)
            } by {
                if k < before.len() {
                    assert(coupons@[k] == before[k]);
                    assert(now_offers[k] == prev[k]);
                }
            }
        }
        i = i + 1;
    }
    proof {
        assert(title_texts.subrange(0, title_texts.len() as int) =~= title_texts);
    }
    coupons
}

/// The Replit Teams for Education offer at `url`.
pub fn replit_education_offer(url: &str, now: i64) -> (c: Coupon)
    ensures
        offer_is(c, "Replit Teams for Education"@, "Special pricing for educational institutions"@, Some(50),
            "EDUCATION"@, url@, "Replit"@, None, now),
{
    Coupon::new_at(
        String::from_str("Replit Teams for Education"),
        String::from_str("Special pricing for educational institutions"),
        Some(50),
        String::from_str("EDUCATION"),
        String::from_str(url),
        String::from_str("Replit"),
        None,
        now,
    )
}

/// Selector of the education discount block on Replit's education page.
pub const REPLIT_EDUCATION_SELECTOR: &'static str = "div.education-discount";

/// The education offer, if Replit's page at `url` shows the discount block.
pub fn extract_replit_offer(html: &str, url: &str, now: i64) -> (r: Option<Coupon>)
    ensures
        r is Some <==> (selector_parses(REPLIT_EDUCATION_SELECTOR@) && match_count_of(html@, REPLIT_EDUCATION_SELECTOR@) >= 1),
        r matches Some(c) ==> offer_is(c, "Replit Teams for Education"@, "Special pricing for educational institutions"@,
            Some(50), "EDUCATION"@, url@, "Replit"@, None, now),
{
    match match_count(html, REPLIT_EDUCATION_SELECTOR) {
        Some(n) => if n >= 1 {
            Some(replit_education_offer(url, now))
        } else {
            None
        },
        None => None,
    }
}

/// The Warp student plan offered at `url`.
pub fn warp_student_offer(url: &str, now: i64) -> (c: Coupon)
    ensures
        offer_is(c, "Warp Terminal Student Plan"@, "Free Warp Premium subscription for verified students"@,
            Some(100), "AUTO-APPLIED"@, url@, "Warp"@, Some(days_later(now, 365)), now),
{
    Coupon::new_at(
        String::from_str("Warp Terminal Student Plan"),
        String::from_str("Free Warp Premium subscription for verified students"),
        Some(100),
        String::from_str("AUTO-APPLIED"),
        String::from_str(url),
        String::from_str("Warp"),
        Some(days_after(now, 365)),
        now,
    )
}

/// The Tabnine student plan offered at `url`.
pub fn tabnine_student_offer(url: &str, now: i64) -> (c: Coupon)
    ensures
        offer_is(c, "Tabnine Pro Student Plan"@, "Free Tabnine Pro for verified students"@, Some(100),
            "STUDENT"@, url@, "Tabnine"@, Some(days_later(now, 365)), now),
{
    Coupon::new_at(
        String::from_str("Tabnine Pro Student Plan"),
        String::from_str("Free Tabnine Pro for verified students"),
        Some(100),
        String::from_str("STUDENT"),
        String::from_str(url),
        String::from_str("Tabnine"),
        Some(days_after(now, 365)),
        now,
    )
}

/// Pattern of a promotion code in page text; group 1 is the code.
pub const CODE_PATTERN: &'static str = "(?i)code[:\\s]+([A-Z0-9-]+)";

/// Pattern of a discount in page text; group 1 is the percentage.
pub const DISCOUNT_PATTERN: &'static str = "(\\d+)%\\s+(?:off|discount)";

/// The texts of the entries that are present, in order.
pub open spec fn present(caps: Seq<Option<Seq<char>>>) -> Seq<Seq<char>>
    decreases caps.len(),
{
    if caps.len() == 0 {
        Seq::empty()
    } else {
        present(caps.drop_last()) + match caps.last() {
            Some(t) => seq![t],
            None => Seq::empty(),
        }
    }
}

/// The discount of a generic page: the first discount mention, or 10.
pub open spec fn generic_percent(discounts: Seq<Option<Seq<char>>>) -> u64 {
    match entry(discounts, 0) {
        Some(t) => promotion_percent(t),
        None => 10,
    }
}

/// The codes a generic page's text mentions, in order.
pub open spec fn generic_page_codes(html: Seq<char>) -> Seq<Seq<char>> {
    present(regex_captures_of(CODE_PATTERN@, document_text_of(html), 1))
}

/// The discount of a generic page: the first percentage its text mentions, or 10.
pub open spec fn generic_page_percent(html: Seq<char>) -> u64 {
    generic_percent(regex_captures_of(DISCOUNT_PATTERN@, document_text_of(html), 1))
}

/// What the generic collector takes from `pages` (page `i` fetched from
/// `urls[i]`): for each fetched page in turn, one (code, percent, url) entry per
/// code its text mentions.
pub open spec fn generic_plan(pages: Seq<Option<String>>, urls: Seq<String>) -> Seq<(Seq<char>, u64, Seq<char>)>
    decreases pages.len(),
{
    if pages.len() == 0 {
        Seq::empty()
    } else {
        let i = pages.len() - 1;
        generic_plan(pages.drop_last(), urls) + match pages[i] {
            Some(h) => if i < urls.len() {
                generic_page_codes(h@).map_values(|c: Seq<char>| (c, generic_page_percent(h@), urls[i]@))
            } else {
                Seq::empty()
            },
            None => Seq::empty(),
        }
    }
}

/// `c` is the generic candidate for code `code` with `percent` off.
pub open spec fn is_generic_offer(c: Coupon, code: Seq<char>, percent: u64, url: Seq<char>, now: i64) -> bool {
    let pct = decimal_digits(percent as nat);
    offer_is(c, "AI Tool Discount: "@ + pct + "% Off"@, "Use code "@ + code + " for "@ + pct + "% off"@,
        Some(percent), code, url, "Generic"@, Some(days_later(now, 30)), now)
}

fn generic_offer(code: &str, percent: u64, url: &str, now: i64) -> (c: Coupon)
    ensures
        is_generic_offer(c, code@, percent, url@, now),
{
    let pct = decimal_string(percent);
    let mut name = joined("AI Tool Discount: ", pct.as_str());
    name.append("% Off");
    let mut description = joined("Use code ", code);
    description.append(" for ");
    description.append(pct.as_str());
    description.append("% off");
    Coupon::new_at(
        name,
        description,
        Some(percent),
        String::from_str(code),
        String::from_str(url),
        String::from_str("Generic"),
        Some(days_after(now, 30)),
        now,
    )
}

/// One candidate per code found on a generic page, in order, all with the
/// page's discount (the first discount mentioned, else 10%).
pub fn generic_offers(codes: &Vec<Option<String>>, discounts: &Vec<Option<String>>, url: &str, now: i64) -> (r: Vec<Coupon>)
    ensures
        r.len() == present(optional_texts(codes@)).len(),
        forall|k: int| 0 <= k < r.len() ==> is_generic_offer(#[trigger] r@[k], present(optional_texts(codes@))[k],
            generic_percent(optional_texts(discounts@)), url@, now),
{
    let ghost code_texts = optional_texts(codes@);
    let ghost discount_texts = optional_texts(discounts@);
    let percent: u64 = if discounts.len() > 0 {
        match &discounts[0] {
            Some(t) => match parse_whole_number(t.as_str()) {
                Some(p) => p,
                None => 10,
            },
            None => 10,
        }
    } else {
        10
    };
    proof {
        assert(percent == generic_percent(discount_texts));
    }
    let mut coupons: Vec<Coupon> = Vec::new();
    let mut i: usize = 0;
    while i < codes.len()
        invariant
            i <= codes@.len(),
            code_texts == optional_texts(codes@),
            coupons@.len() == present(code_texts.subrange(0, i as int)).len(),
            forall|k: int| 0 <= k < coupons@.len() ==> is_generic_offer(#[trigger] coupons@[k],
                present(code_texts.subrange(0, i as int))[k], percent, url@, now),
        decreases codes@.len() - i,
    {
        proof {
            let p = code_texts.subrange(0, i as int + 1);
            assert(p.drop_last() =~= code_texts.subrange(0, i as int));
            assert(p.last() == code_texts[i as int]);
        }
        let ghost before = coupons@;
        match &codes[i] {
            Some(code) => {
                let c = generic_offer(code.as_str(), percent, url, now);
                coupons.push(c);
            },
            None => {},
        }
        proof {
            let now_codes = present(code_texts.subrange(0, i as int + 1));
            let prev = present(code_texts.subrange(0, i as int));
            assert forall|k: int| 0 <= k < coupons@.len() implies is_generic_offer(#[trigger] coupons@[k],
                now_codes[k], percent, url@, now) by {
                if k < before.len() {
                    assert(coupons@[k] == before[k]);
                    assert(now_codes[k] == prev[k]);
                }
            }
        }
        i = i + 1;
    }
    proof {
        assert(code_texts.subrange(0, code_texts.len() as int) =~= code_texts);
    }
    coupons
}

/// The candidates of a generic page at `url`: the codes its text mentions, in
/// order; `None` when there is none.
pub fn extract_generic_coupons(html: &str, url: &str, now: i64) -> (r: Option<Vec<Coupon>>)
    ensures
        r is Some <==> (pattern_compiles(CODE_PATTERN@) && pattern_compiles(DISCOUNT_PATTERN@)
            && generic_page_codes(html@).len() > 0),
        r matches Some(v) ==> {
            let text = document_text_of(html@);
            let codes = present(regex_captures_of(CODE_PATTERN@, text, 1));
            let percent = generic_percent(regex_captures_of(DISCOUNT_PATTERN@, text, 1));
            &&& v.len() > 0
            &&& v.len() == codes.len()
            &&& forall|k: int| 0 <= k < v.len() ==> is_generic_offer(#[trigger] v@[k], codes[k], percent, url@, now)
        },
{
    let text = document_text(html);
    let codes = match regex_captures(CODE_PATTERN, text.as_str(), 1) {
        Some(v) => v,
        None => return None,
    };
    let discounts = match regex_captures(DISCOUNT_PATTERN, text.as_str(), 1) {
        Some(v) => v,
        None => return None,
    };
    let coupons = generic_offers(&codes, &discounts, url, now);
    if coupons.len() == 0 {
        None
    } else {
        Some(coupons)
    }
}

/// Cursor AI's student programme page.
pub const CURSOR_STUDENT_URL: &'static str = "https://cursor.sh/student";

/// Cursor AI's pricing page.
pub const CURSOR_PRICING_URL: &'static str = "https://cursor.sh/pricing";

/// The GitHub Student Developer Pack page.
pub const GITHUB_PACK_URL: &'static str = "https://education.github.com/pack";

/// Replit's education page.
pub const REPLIT_EDUCATION_URL: &'static str = "https://replit.com/site/teams-for-education";

/// Warp's student page.
pub const WARP_STUDENT_URL: &'static str = "https://www.warp.dev/students";

/// Tabnine's student page.
pub const TABNINE_STUDENT_URL: &'static str = "https://www.tabnine.com/students";

/// The collectors of a batch, named by their source, in the order their
/// candidates are processed.
pub fn initialize_scrapers() -> (r: Vec<CouponSource>)
    ensures
        r@ == seq![
            CouponSource::CursorAI,
            CouponSource::GitHub,
            CouponSource::Replit,
            CouponSource::Warp,
            CouponSource::Tabnine,
            CouponSource::Generic,
        ],
{
    vec![
        CouponSource::CursorAI,
        CouponSource::GitHub,
        CouponSource::Replit,
        CouponSource::Warp,
        CouponSource::Tabnine,
        CouponSource::Generic,
    ]
}

/// Collector for Cursor AI: the student plan and pricing-page promotions.
pub struct CursorAIScraper;

impl CursorAIScraper {
    pub fn name(&self) -> (r: &'static str)
        ensures
            r@ == "Cursor AI"@,
    {
        "Cursor AI"
    }

    pub fn source(&self) -> (r: String)
        ensures
            r@ == CouponSource::CursorAI.label(),
    {
        CouponSource::CursorAI.to_string()
    }

    /// The candidates from the student page and then the pricing page, each
    /// given as its body where it was fetched with a success status. Nothing
    /// is taken from the pricing page unless the student page was fetched.
    pub fn collect(&self, student_page: Option<&str>, pricing_page: Option<&str>, now: i64) -> (r: Vec<Coupon>)
        ensures
            student_page is None ==> r@.len() == 0,
            student_page matches Some(student) ==> {
                let has_student = selector_parses(CURSOR_STUDENT_SELECTOR@)
                    && match_count_of(student@, CURSOR_STUDENT_SELECTOR@) >= 1;
                let first: int = if has_student { 1 } else { 0 };
                let codes = match pricing_page {
                    Some(p) => if selector_parses(CURSOR_PROMOTION_SELECTOR@) {
                        attribute_values_of(p@, CURSOR_PROMOTION_SELECTOR@, "data-code"@)
                    } else {
                        Seq::empty()
                    },
                    None => Seq::empty(),
                };
                let discounts = match pricing_page {
                    Some(p) => attribute_values_of(p@, CURSOR_PROMOTION_SELECTOR@, "data-discount"@),
                    None => Seq::empty(),
                };
                &&& r@.len() == first + codes.len()
                &&& has_student ==> offer_is(r@[0], "Cursor AI Student Plan"@,
                    "Free Pro features for verified students"@, Some(100), "STUDENT"@, CURSOR_STUDENT_URL@,
                    "Cursor AI"@, Some(days_later(now, 365)), now)
                &&& forall|k: int| first <= k < r.len() ==> is_cursor_promotion(#[trigger] r@[k], codes[k - first],
                    entry(discounts, k - first), CURSOR_PRICING_URL@, now)
            },
            forall|k: int| 0 <= k < r.len() ==> (#[trigger] r@[k]).source@ == "Cursor AI"@
                && (r@[k].url@ == CURSOR_STUDENT_URL@ || r@[k].url@ == CURSOR_PRICING_URL@),
    {
        let mut coupons: Vec<Coupon> = Vec::new();
        let student = match student_page {
            Some(html) => html,
            None => return coupons,
        };
        match extract_cursor_student_coupon(student, CURSOR_STUDENT_URL, now) {
            Some(c) => coupons.push(c),
            None => {},
        }
        match pricing_page {
            Some(html) => match extract_cursor_promo_coupons(html, CURSOR_PRICING_URL, now) {
                Some(mut promotions) => {
                    let ghost head = coupons@;
                    let ghost promos = promotions@;
                    proof {
                        assert forall|k: int| 0 <= k < promotions.len() implies (#[trigger] promotions@[k]).source@
                            == "Cursor AI"@ && promotions@[k].url@ == CURSOR_PRICING_URL@ by {
                            let codes = attribute_values_of(html@, CURSOR_PROMOTION_SELECTOR@, "data-code"@);
                            assert(k < codes.len());
                        }
                    }
                    coupons.append(&mut promotions);
                    proof {
                        let first: int = head.len() as int;
                        assert forall|k: int| first <= k < coupons.len() implies coupons@[k] == promos[k - first] by {}
                        if first == 1 {
                            assert(coupons@[0] == head[0]);
                        }
                    }
                },
                None => {},
            },
            None => {},
        }
        coupons
    }
}

/// Collector for the GitHub Student Developer Pack's AI-tool offers.
pub struct GitHubScraper;

impl GitHubScraper {
    pub fn name(&self) -> (r: &'static str)
        ensures
            r@ == "GitHub"@,
    {
        "GitHub"
    }

    pub fn source(&self) -> (r: String)
        ensures
            r@ == CouponSource::GitHub.label(),
    {
        CouponSource::GitHub.to_string()
    }

    /// The candidates from the pack page, given as its body where it was
    /// fetched with a success status.
    pub fn collect(&self, page: Option<&str>, now: i64) -> (r: Vec<Coupon>)
        ensures
            page is None ==> r@.len() == 0,
            page matches Some(h) ==> {
                (selector_parses(GITHUB_OFFER_SELECTOR@) && selector_parses("h3"@) && selector_parses("p"@)) ==> {
                    let offers = ai_offers(first_inner_texts_of(h@, GITHUB_OFFER_SELECTOR@, "h3"@),
                        first_inner_texts_of(h@, GITHUB_OFFER_SELECTOR@, "p"@));
                    &&& r.len() == offers.len()
                    &&& forall|k: int| 0 <= k < r.len() ==> is_github_offer(#[trigger] r@[k], offers[k].0, offers[k].1,
                        GITHUB_PACK_URL@)
                }
            },
            forall|k: int| 0 <= k < r.len() ==> (#[trigger] r@[k]).source@ == "GitHub"@
                && r@[k].code@ == "GITHUB-STUDENT"@,
    {
        match page {
            Some(html) => {
                let offers = extract_github_offers(html, GITHUB_PACK_URL, now);
                proof {
                    assert forall|k: int| 0 <= k < offers.len() implies (#[trigger] offers@[k]).code@
                        == "GITHUB-STUDENT"@ by {
                        let o = ai_offers(first_inner_texts_of(html@, GITHUB_OFFER_SELECTOR@, "h3"@),
                            first_inner_texts_of(html@, GITHUB_OFFER_SELECTOR@, "p"@))[k];
                        assert(is_github_offer(offers@[k], o.0, o.1, GITHUB_PACK_URL@));
                    }
                }
                offers
            },
            None => Vec::new(),
        }
    }
}

/// Collector for Replit's education offer.
pub struct ReplitScraper;

impl ReplitScraper {
    pub fn name(&self) -> (r: &'static str)
        ensures
            r@ == "Replit"@,
    {
        "Replit"
    }

    pub fn source(&self) -> (r: String)
        ensures
            r@ == CouponSource::Replit.label(),
    {
        CouponSource::Replit.to_string()
    }

    /// The candidate from the education page, given as its body where it was
    /// fetched with a success status.
    pub fn collect(&self, page: Option<&str>, now: i64) -> (r: Vec<Coupon>)
        ensures
            page is None ==> r@.len() == 0,
            page matches Some(h) ==> (r@.len() == 1 <==> (selector_parses(REPLIT_EDUCATION_SELECTOR@)
                && match_count_of(h@, REPLIT_EDUCATION_SELECTOR@) >= 1)),
            r@.len() <= 1,
            forall|k: int| 0 <= k < r.len() ==> offer_is(#[trigger] r@[k], "Replit Teams for Education"@,
                "Special pricing for educational institutions"@, Some(50), "EDUCATION"@, REPLIT_EDUCATION_URL@,
                "Replit"@, None, now),
    {
        let mut coupons: Vec<Coupon> = Vec::new();
        match page {
            Some(html) => match extract_replit_offer(html, REPLIT_EDUCATION_URL, now) {
                Some(c) => coupons.push(c),
                None => {},
            },
            None => {},
        }
        coupons
    }
}

/// Collector for Warp's student plan.
pub struct WarpScraper;

impl WarpScraper {
    pub fn name(&self) -> (r: &'static str)
        ensures
            r@ == "Warp"@,
    {
        "Warp"
    }

    pub fn source(&self) -> (r: String)
        ensures
            r@ == CouponSource::Warp.label(),
    {
        CouponSource::Warp.to_string()
    }

    /// The student plan, if the student page answered with a success status.
    pub fn collect(&self, page_ok: bool, now: i64) -> (r: Vec<Coupon>)
        ensures
            r@.len() == if page_ok { 1int } else { 0int },
            page_ok ==> offer_is(r@[0], "Warp Terminal Student Plan"@,
                "Free Warp Premium subscription for verified students"@, Some(100), "AUTO-APPLIED"@,
                WARP_STUDENT_URL@, "Warp"@, Some(days_later(now, 365)), now),
    {
        let mut coupons: Vec<Coupon> = Vec::new();
        if page_ok {
            coupons.push(warp_student_offer(WARP_STUDENT_URL, now));
        }
        coupons
    }
}

/// Collector for Tabnine's student plan.
pub struct TabnineScraper;

impl TabnineScraper {
    pub fn name(&self) -> (r: &'static str)
        ensures
            r@ == "Tabnine"@,
    {
        "Tabnine"
    }

    pub fn source(&self) -> (r: String)
        ensures
            r@ == CouponSource::Tabnine.label(),
    {
        CouponSource::Tabnine.to_string()
    }

    /// The student plan, if the student page answered with a success status.
    pub fn collect(&self, page_ok: bool, now: i64) -> (r: Vec<Coupon>)
        ensures
            r@.len() == if page_ok { 1int } else { 0int },
            page_ok ==> offer_is(r@[0], "Tabnine Pro Student Plan"@, "Free Tabnine Pro for verified students"@,
                Some(100), "STUDENT"@, TABNINE_STUDENT_URL@, "Tabnine"@, Some(days_later(now, 365)), now),
    {
        let mut coupons: Vec<Coupon> = Vec::new();
        if page_ok {
            coupons.push(tabnine_student_offer(TABNINE_STUDENT_URL, now));
        }
        coupons
    }
}

/// Collector for deal pages of AI tools, scanned for promotion codes.
pub struct GenericAIScraper {
    pub urls: Vec<String>,
}

impl GenericAIScraper {
    pub fn new(urls: Vec<String>) -> (r: Self)
        ensures
            r.urls == urls,
    {
        GenericAIScraper { urls }
    }

    /// The collector over the built-in deal pages.
    pub fn with_default_sources() -> (r: Self)
        ensures
            r.urls@.len() == 3,
            r.urls@[0]@ == "https://aidevtools.com/deals"@,
            r.urls@[1]@ == "https://llmdeals.net"@,
            r.urls@[2]@ == "https://devsoftwaredeals.com"@,
    {
        let urls = vec![
            String::from_str("https://aidevtools.com/deals"),
            String::from_str("https://llmdeals.net"),
            String::from_str("https://devsoftwaredeals.com"),
        ];
        GenericAIScraper::new(urls)
    }

    pub fn name(&self) -> (r: &'static str)
        ensures
            r@ == "Generic AI Tools"@,
    {
        "Generic AI Tools"
    }

    pub fn source(&self) -> (r: String)
        ensures
            r@ == CouponSource::Generic.label(),
    {
        CouponSource::Generic.to_string()
    }

    /// The candidates of every page, in the order of `urls`; `pages[i]` is the
    /// body of `urls[i]` where it was fetched with a success status. A page
    /// that failed contributes nothing and does not stop the others.
    pub fn collect(&self, pages: &Vec<Option<String>>, now: i64) -> (r: Vec<Coupon>)
        ensures
            !(pattern_compiles(CODE_PATTERN@) && pattern_compiles(DISCOUNT_PATTERN@)) ==> r@.len() == 0,
            (pattern_compiles(CODE_PATTERN@) && pattern_compiles(DISCOUNT_PATTERN@)) ==> {
                let plan = generic_plan(pages@.subrange(0, self.scanned(pages@.len())), self.urls@);
                &&& r@.len() == plan.len()
                &&& forall|k: int| 0 <= k < r.len() ==> is_generic_offer(#[trigger] r@[k], plan[k].0, plan[k].1, plan[k].2, now)
            },
            (forall|i: int| 0 <= i < pages.len() ==> #[trigger] pages@[i] is None) ==> r@.len() == 0,
            forall|k: int| 0 <= k < r.len() ==> (#[trigger] r@[k]).source@ == "Generic"@
                && exists|i: int| 0 <= i < self.urls.len() && r@[k].url@ == #[trigger] self.urls@[i]@,
    {
        let ghost compiled = pattern_compiles(CODE_PATTERN@) && pattern_compiles(DISCOUNT_PATTERN@);
        let mut coupons: Vec<Coupon> = Vec::new();
        let mut i: usize = 0;
        while i < self.urls.len() && i < pages.len()
            invariant
                i <= pages@.len(),
                i <= self.urls@.len(),
                compiled == (pattern_compiles(CODE_PATTERN@) && pattern_compiles(DISCOUNT_PATTERN@)),
                !compiled ==> coupons@.len() == 0,
                compiled ==> {
                    let plan = generic_plan(pages@.subrange(0, i as int), self.urls@);
                    &&& coupons@.len() == plan.len()
                    &&& forall|k: int| 0 <= k < coupons.len() ==> is_generic_offer(#[trigger] coupons@[k], plan[k].0,
                        plan[k].1, plan[k].2, now)
                },
                (forall|j: int| 0 <= j < pages.len() ==> #[trigger] pages@[j] is None) ==> coupons@.len() == 0,
                forall|k: int| 0 <= k < coupons.len() ==> (#[trigger] coupons@[k]).source@ == "Generic"@
                    && exists|j: int| 0 <= j < self.urls.len() && coupons@[k].url@ == #[trigger] self.urls@[j]@,
            decreases pages@.len() - i,
        {
            let ghost before = coupons@;
            proof {
                let p = pages@.subrange(0, i as int + 1);
                assert(p.drop_last() =~= pages@.subrange(0, i as int));
                assert(p[i as int] == pages@[i as int]);
            }
            match &pages[i] {
                Some(html) => match extract_generic_coupons(html.as_str(), self.urls[i].as_str(), now) {
                    Some(mut found) => {
                        let ghost got = found@;
                        proof {
                            assert forall|k: int| 0 <= k < found.len() implies (#[trigger] found@[k]).source@
                                == "Generic"@ && exists|j: int| 0 <= j < self.urls.len() && found@[k].url@
                                == #[trigger] self.urls@[j]@ by {
                                assert(found@[k].url@ == self.urls@[i as int]@);
                            }
                        }
                        coupons.append(&mut found);
                        proof {
                            if compiled {
                                let plan = generic_plan(pages@.subrange(0, i as int), self.urls@);
                                let plan2 = generic_plan(pages@.subrange(0, i as int + 1), self.urls@);
                                let added = generic_page_codes(html@).map_values(
                                    |c: Seq<char>| (c, generic_page_percent(html@), self.urls@[i as int]@),
                                );
                                assert(plan2 == plan + added);
                                assert forall|k: int| 0 <= k < coupons.len() implies is_generic_offer(
                                    #[trigger] coupons@[k], plan2[k].0, plan2[k].1, plan2[k].2, now) by {
                                    if k < before.len() {
                                        assert(coupons@[k] == before[k]);
                                        assert(plan2[k] == plan[k]);
                                    } else {
                                        assert(coupons@[k] == got[k - before.len()]);
                                        assert(plan2[k] == added[k - before.len()]);
                                    }
                                }
                            }
                        }
                    },
                    None => {
                        proof {
                            if compiled {
                                let plan = generic_plan(pages@.subrange(0, i as int), self.urls@);
                                let plan2 = generic_plan(pages@.subrange(0, i as int + 1), self.urls@);
                                assert(generic_page_codes(html@).len() == 0);
                                assert(plan2 =~= plan);
                            }
                        }
                    },
                },
                None => {
                    proof {
                        let plan = generic_plan(pages@.subrange(0, i as int), self.urls@);
                        let plan2 = generic_plan(pages@.subrange(0, i as int + 1), self.urls@);
                        assert(plan2 =~= plan);
                    }
                },
            }
            i = i + 1;
        }
        proof {
            assert(i as int == self.scanned(pages@.len()));
        }
        coupons
    }

    /// How many pages `collect` reads: one per URL, as far as pages are given.
    pub open spec fn scanned(&self, pages: nat) -> int {
        if self.urls@.len() < pages { self.urls@.len() as int } else { pages as int }
    }
}

} // verus!
