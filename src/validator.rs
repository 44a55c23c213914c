use crate::models::{Config, Coupon, CouponSource, ValidationResult};
use crate::text::{joined, str_contains, str_equal, text_contains};
use vstd::prelude::*;
use vstd::string::*;
use vstd::utf8::*;

verus! {

/// What the caller fetched for a validation: the HTTP status code, its display
/// text (such as `404 Not Found`) and the body, which is empty unless the
/// request asked for it.
#[derive(Debug, Clone)]
pub struct PageResponse {
    pub status: u16,
    pub status_text: String,
    pub body: String,
}

/// A page a strategy needs before it can decide.
#[derive(Debug, Clone)]
pub struct FetchRequest {
    pub url: String,
    /// Whether the decision reads the body, not only the status.
    pub read_body: bool,
}

/// The first step of validating a record: either the outcome, or a page the
/// caller must fetch and hand to `Validator::complete_validation`.
#[derive(Debug, Clone)]
pub enum ValidationStep {
    Done(ValidationResult),
    Fetch(FetchRequest),
}

/// HTTP statuses in the 2xx range count as success.
pub open spec fn is_success_status(status: u16) -> bool {
    200 <= status <= 299
}

/// Bytes accepted in a promotion code: ASCII letters, digits and `-`.
pub open spec fn code_byte_ok(b: u8) -> bool {
    (48 <= b <= 57) || (65 <= b <= 90) || (97 <= b <= 122) || b == 45
}

/// A promotion code of at least four bytes, all ASCII letters, digits or `-`.
pub open spec fn code_format_ok(code: Seq<char>) -> bool {
    let b = encode_utf8(code);
    b.len() >= 4 && forall|i: int| 0 <= i < b.len() ==> code_byte_ok(#[trigger] b[i])
}

/// A student-programme record: code `STUDENT` and a URL mentioning `/student`.
pub open spec fn is_student_offer(c: Coupon) -> bool {
    c.code@ == "STUDENT"@ && text_contains(c.url@, "/student"@)
}

/// Whether the strategy for `kind` fetches the record's URL before deciding,
/// and if so whether it reads the body. `None`: it decides from the record alone.
pub open spec fn fetch_plan(kind: CouponSource, c: Coupon) -> Option<bool> {
    match kind {
        CouponSource::CursorAI => if is_student_offer(c) { Some(false) } else { None },
        CouponSource::GitHub => Some(true),
        CouponSource::Replit => Some(false),
        CouponSource::Warp => Some(false),
        CouponSource::Tabnine => Some(false),
        CouponSource::Generic => Some(true),
    }
}

/// The verdict of a strategy that decides from the record alone (the code
/// format check for non-student Cursor AI offers).
pub open spec fn offline_verdict(c: Coupon) -> (bool, Seq<char>) {
    if code_format_ok(c.code@) {
        (true, "Coupon code format is valid"@)
    } else {
        (false, "Invalid coupon code format"@)
    }
}

/// The verdict of the strategy for `kind` on a fetched page.
pub open spec fn page_verdict(kind: CouponSource, c: Coupon, page: PageResponse) -> (bool, Seq<char>) {
    let ok = is_success_status(page.status);
    match kind {
        CouponSource::GitHub => if !ok {
            (false, "GitHub Education page returned status: "@ + page.status_text@)
        } else if text_contains(page.body@, c.name@) {
            (true, "Offer found on GitHub Education page"@)
        } else {
            (false, "Offer not found on GitHub Education page"@)
        },
        CouponSource::Generic => if !ok {
            (false, "Source page returned status: "@ + page.status_text@)
        } else if text_contains(page.body@, c.code@) {
            (true, "Coupon code found on source page"@)
        } else {
            (false, "Coupon code not found on source page"@)
        },
        CouponSource::Replit => if ok {
            (true, "Education program verified as active"@)
        } else {
            (false, "Education program page returned status: "@ + page.status_text@)
        },
        _ => if ok {
            (true, "Student program verified as active"@)
        } else {
            (false, "Student program page returned status: "@ + page.status_text@)
        },
    }
}

/// The message of the fail-open outcome for a source no strategy handles.
pub open spec fn unmatched_message(source: Seq<char>) -> Seq<char> {
    "no validator available for source "@ + source
}

/// `r` is the outcome (`valid`, `message`) stamped at `now`.
pub open spec fn verdict_is(r: ValidationResult, valid: bool, message: Seq<char>, now: i64) -> bool {
    &&& r.is_valid == valid
    &&& r.message matches Some(m) && m@ == message
    &&& r.validated_at == now
}

/// The first strategy in `strategies` that handles `source`.
pub open spec fn selected(strategies: Seq<CouponSource>, source: Seq<char>) -> Option<CouponSource>
    decreases strategies.len(),
{
    if strategies.len() == 0 {
        None
    } else if strategies[0].label() == source {
        Some(strategies[0])
    } else {
        selected(strategies.drop_first(), source)
    }
}

proof fn lemma_selected_skip(strategies: Seq<CouponSource>, source: Seq<char>, i: int)
    requires
        0 <= i < strategies.len(),
        strategies[i].label() != source,
    ensures
        selected(strategies.subrange(i, strategies.len() as int), source)
            == selected(strategies.subrange(i + 1, strategies.len() as int), source),
{
    let s = strategies.subrange(i, strategies.len() as int);
    assert(s.drop_first() =~= strategies.subrange(i + 1, strategies.len() as int));
}

/// The first step of a validation, in the mathematical model: a verdict
/// (validity and message), or a fetch that may or may not read the body.
pub enum StepPlan {
    Decided(bool, Seq<char>),
    Fetch(bool),
}

/// The first step `Validator::validate_coupon` takes for record `c` at `now`.
pub open spec fn first_step(strategies: Seq<CouponSource>, enabled: bool, c: Coupon, now: i64) -> StepPlan {
    if !enabled {
        StepPlan::Decided(true, "validation is disabled"@)
    } else if c.expired_at(now) {
        StepPlan::Decided(false, "expired"@)
    } else {
        match selected(strategies, c.source@) {
            None => StepPlan::Decided(true, unmatched_message(c.source@)),
            Some(k) => match fetch_plan(k, c) {
                None => StepPlan::Decided(offline_verdict(c).0, offline_verdict(c).1),
                Some(read_body) => StepPlan::Fetch(read_body),
            },
        }
    }
}

/// The verdict `Validator::complete_validation` gives for record `c` and page `page`.
pub open spec fn completion_verdict(strategies: Seq<CouponSource>, c: Coupon, page: PageResponse) -> (bool, Seq<char>) {
    match selected(strategies, c.source@) {
        None => (true, unmatched_message(c.source@)),
        Some(k) => if fetch_plan(k, c) is Some { page_verdict(k, c, page) } else { offline_verdict(c) },
    }
}

fn outcome(valid: bool, message: String, now: i64) -> (r: ValidationResult)
    ensures
        verdict_is(r, valid, message@, now),
{
    ValidationResult { is_valid: valid, message: Some(message), validated_at: now }
}

fn is_student_record(c: &Coupon) -> (r: bool)
    ensures
        r == is_student_offer(*c),
{
    str_equal(c.code.as_str(), "STUDENT") && str_contains(c.url.as_str(), "/student")
}

/// Whether a promotion code has an acceptable format.
pub fn code_format_valid(code: &str) -> (r: bool)
    ensures
        r == code_format_ok(code@),
{
    let b = code.as_bytes();
    if b.len() < 4 {
        return false;
    }
    let mut i: usize = 0;
    while i < b.len()
        invariant
            b@ == encode_utf8(code@),
            i <= b@.len(),
            forall|k: int| 0 <= k < i ==> code_byte_ok(#[trigger] b@[k]),
        decreases b@.len() - i,
    {
        let x = b[i];
        if !((48 <= x && x <= 57) || (65 <= x && x <= 90) || (97 <= x && x <= 122) || x == 45) {
            return false;
        }
        i = i + 1;
    }
    true
}

fn offline_outcome(c: &Coupon, now: i64) -> (r: ValidationResult)
    ensures
        verdict_is(r, offline_verdict(*c).0, offline_verdict(*c).1, now),
{
    if code_format_valid(c.code.as_str()) {
        outcome(true, String::from_str("Coupon code format is valid"), now)
    } else {
        outcome(false, String::from_str("Invalid coupon code format"), now)
    }
}

fn status_outcome(ok_message: &str, failure_prefix: &str, page: &PageResponse, now: i64) -> (r: ValidationResult)
    ensures
        is_success_status(page.status) ==> verdict_is(r, true, ok_message@, now),
        !is_success_status(page.status) ==> verdict_is(r, false, failure_prefix@ + page.status_text@, now),
{
    if 200 <= page.status && page.status <= 299 {
        outcome(true, String::from_str(ok_message), now)
    } else {
        outcome(false, joined(failure_prefix, page.status_text.as_str()), now)
    }
}

fn page_outcome(kind: CouponSource, c: &Coupon, page: &PageResponse, now: i64) -> (r: ValidationResult)
    ensures
        verdict_is(r, page_verdict(kind, *c, *page).0, page_verdict(kind, *c, *page).1, now),
{
    let ok = 200 <= page.status && page.status <= 299;
    match kind {
        CouponSource::GitHub => if !ok {
            outcome(false, joined("GitHub Education page returned status: ", page.status_text.as_str()), now)
        } else if str_contains(page.body.as_str(), c.name.as_str()) {
            outcome(true, String::from_str("Offer found on GitHub Education page"), now)
        } else {
            outcome(false, String::from_str("Offer not found on GitHub Education page"), now)
        },
        CouponSource::Generic => if !ok {
            outcome(false, joined("Source page returned status: ", page.status_text.as_str()), now)
        } else if str_contains(page.body.as_str(), c.code.as_str()) {
            outcome(true, String::from_str("Coupon code found on source page"), now)
        } else {
            outcome(false, String::from_str("Coupon code not found on source page"), now)
        },
        CouponSource::Replit => status_outcome(
            "Education program verified as active",
            "Education program page returned status: ",
            page,
            now,
        ),
        _ => status_outcome(
            "Student program verified as active",
            "Student program page returned status: ",
            page,
            now,
        ),
    }
}

/// The strategy for Cursor AI offers: student programme pages, else the code format.
pub struct CursorAIValidator;

impl CursorAIValidator {
    pub fn new() -> (r: Self) {
        CursorAIValidator
    }

    pub fn name(&self) -> (r: &'static str)
        ensures
            r@ == "Cursor AI Validator"@,
    {
        "Cursor AI Validator"
    }

    /// The source whose records this strategy decides.
    pub fn source(&self) -> (r: CouponSource)
        ensures
            r == CouponSource::CursorAI,
    {
        CouponSource::CursorAI
    }

    /// Whether records stored under `source` are this strategy's to decide.
    pub fn can_validate(&self, source: &str) -> (r: bool)
        ensures
            r == (source@ == CouponSource::CursorAI.label()),
    {
        str_equal(source, "Cursor AI")
    }
}

/// The strategy for GitHub Student Developer Pack offers: the offer name on the pack page.
pub struct GitHubValidator;

impl GitHubValidator {
    pub fn new() -> (r: Self) {
        GitHubValidator
    }

    pub fn name(&self) -> (r: &'static str)
        ensures
            r@ == "GitHub Validator"@,
    {
        "GitHub Validator"
    }

    /// The source whose records this strategy decides.
    pub fn source(&self) -> (r: CouponSource)
        ensures
            r == CouponSource::GitHub,
    {
        CouponSource::GitHub
    }

    /// Whether records stored under `source` are this strategy's to decide.
    pub fn can_validate(&self, source: &str) -> (r: bool)
        ensures
            r == (source@ == CouponSource::GitHub.label()),
    {
        str_equal(source, "GitHub")
    }
}

/// The strategy for Replit education offers: the programme page answers.
pub struct ReplitValidator;

impl ReplitValidator {
    pub fn new() -> (r: Self) {
        ReplitValidator
    }

    pub fn name(&self) -> (r: &'static str)
        ensures
            r@ == "Replit Validator"@,
    {
        "Replit Validator"
    }

    /// The source whose records this strategy decides.
    pub fn source(&self) -> (r: CouponSource)
        ensures
            r == CouponSource::Replit,
    {
        CouponSource::Replit
    }

    /// Whether records stored under `source` are this strategy's to decide.
    pub fn can_validate(&self, source: &str) -> (r: bool)
        ensures
            r == (source@ == CouponSource::Replit.label()),
    {
        str_equal(source, "Replit")
    }
}

/// The strategy for Warp student offers: the programme page answers.
pub struct WarpValidator;

impl WarpValidator {
    pub fn new() -> (r: Self) {
        WarpValidator
    }

    pub fn name(&self) -> (r: &'static str)
        ensures
            r@ == "Warp Validator"@,
    {
        "Warp Validator"
    }

    /// The source whose records this strategy decides.
    pub fn source(&self) -> (r: CouponSource)
        ensures
            r == CouponSource::Warp,
    {
        CouponSource::Warp
    }

    /// Whether records stored under `source` are this strategy's to decide.
    pub fn can_validate(&self, source: &str) -> (r: bool)
        ensures
            r == (source@ == CouponSource::Warp.label()),
    {
        str_equal(source, "Warp")
    }
}

/// The strategy for Tabnine student offers: the programme page answers.
pub struct TabnineValidator;

impl TabnineValidator {
    pub fn new() -> (r: Self) {
        TabnineValidator
    }

    pub fn name(&self) -> (r: &'static str)
        ensures
            r@ == "Tabnine Validator"@,
    {
        "Tabnine Validator"
    }

    /// The source whose records this strategy decides.
    pub fn source(&self) -> (r: CouponSource)
        ensures
            r == CouponSource::Tabnine,
    {
        CouponSource::Tabnine
    }

    /// Whether records stored under `source` are this strategy's to decide.
    pub fn can_validate(&self, source: &str) -> (r: bool)
        ensures
            r == (source@ == CouponSource::Tabnine.label()),
    {
        str_equal(source, "Tabnine")
    }
}

/// The strategy for offers of the generic sources: the code on the source page.
pub struct GenericValidator;

impl GenericValidator {
    pub fn new() -> (r: Self) {
        GenericValidator
    }

    pub fn name(&self) -> (r: &'static str)
        ensures
            r@ == "Generic Validator"@,
    {
        "Generic Validator"
    }

    /// The source whose records this strategy decides.
    pub fn source(&self) -> (r: CouponSource)
        ensures
            r == CouponSource::Generic,
    {
        CouponSource::Generic
    }

    /// Whether records stored under `source` are this strategy's to decide.
    pub fn can_validate(&self, source: &str) -> (r: bool)
        ensures
            r == (source@ == CouponSource::Generic.label()),
    {
        str_equal(source, "Generic")
    }
}

/// The ordered registry of validation strategies.
pub struct Validator {
    /// Strategies in registration order, each named by the source it handles.
    pub strategies: Vec<CouponSource>,
    /// When false every record is accepted without consulting a strategy.
    pub enabled: bool,
}

impl Validator {
    /// The registry with every built-in strategy, in the order Cursor AI,
    /// GitHub, Replit, Warp, Tabnine, Generic.
    pub fn new(config: &Config) -> (r: Validator)
        ensures
            r.strategies@ == seq![
                CouponSource::CursorAI,
                CouponSource::GitHub,
                CouponSource::Replit,
                CouponSource::Warp,
                CouponSource::Tabnine,
                CouponSource::Generic,
            ],
            r.enabled == config.validation.enable,
    {
        let strategies = vec![
            CouponSource::CursorAI,
            CouponSource::GitHub,
            CouponSource::Replit,
            CouponSource::Warp,
            CouponSource::Tabnine,
            CouponSource::Generic,
        ];
        Validator { strategies, enabled: config.validation.enable }
    }

    /// The first registered strategy that handles `source`.
    pub fn select_strategy(&self, source: &str) -> (r: Option<CouponSource>)
        ensures
            r == selected(self.strategies@, source@),
    {
        let n = self.strategies.len();
        let mut i: usize = 0;
        proof {
            assert(self.strategies@.subrange(0, n as int) =~= self.strategies@);
        }
        while i < n
            invariant
                n == self.strategies@.len(),
                i <= n,
                selected(self.strategies@, source@) == selected(self.strategies@.subrange(i as int, n as int), source@),
            decreases n - i,
        {
            let kind = self.strategies[i];
            let label = kind.to_string();
            if str_equal(label.as_str(), source) {
                proof {
                    let s = self.strategies@.subrange(i as int, n as int);
                    assert(s[0] == kind);
                }
                return Some(kind);
            }
            proof {
                lemma_selected_skip(self.strategies@, source@, i as int);
            }
            i = i + 1;
        }
        None
    }

    /// Starts validating `coupon` at `now`. With validation disabled the record
    /// is accepted. Otherwise an expired record is rejected with message
    /// `expired` before any strategy is consulted; a record whose source no
    /// strategy handles is accepted with a message naming the source; else the
    /// first strategy for the source decides, possibly after a fetch.
    pub fn validate_coupon(&self, coupon: &Coupon, now: i64) -> (r: ValidationStep)
        ensures
            !self.enabled ==> (r matches ValidationStep::Done(v) && v.is_valid && v.validated_at == now),
            self.enabled && coupon.expired_at(now) ==> (r matches ValidationStep::Done(v)
                && verdict_is(v, false, "expired"@, now)),
            self.enabled && !coupon.expired_at(now) && selected(self.strategies@, coupon.source@) is None
                ==> (r matches ValidationStep::Done(v) && verdict_is(v, true, unmatched_message(coupon.source@), now)),
            match first_step(self.strategies@, self.enabled, *coupon, now) {
                StepPlan::Decided(valid, message) => r matches ValidationStep::Done(v) && verdict_is(v, valid, message, now),
                StepPlan::Fetch(read_body) => r matches ValidationStep::Fetch(req) && req.url@ == coupon.url@
                    && req.read_body == read_body,
            },
    {
        if !self.enabled {
            return ValidationStep::Done(
                outcome(true, String::from_str("validation is disabled"), now),
            );
        }
        if coupon.is_expired_at(now) {
            return ValidationStep::Done(outcome(false, String::from_str("expired"), now));
        }
        match self.select_strategy(coupon.source.as_str()) {
            None => ValidationStep::Done(
                outcome(true, joined("no validator available for source ", coupon.source.as_str()), now),
            ),
            Some(kind) => match kind {
                CouponSource::CursorAI => if is_student_record(coupon) {
                    ValidationStep::Fetch(FetchRequest { url: coupon.url.clone(), read_body: false })
                } else {
                    ValidationStep::Done(offline_outcome(coupon, now))
                },
                CouponSource::GitHub => ValidationStep::Fetch(
                    FetchRequest { url: coupon.url.clone(), read_body: true },
                ),
                CouponSource::Generic => ValidationStep::Fetch(
                    FetchRequest { url: coupon.url.clone(), read_body: true },
                ),
                _ => ValidationStep::Fetch(FetchRequest { url: coupon.url.clone(), read_body: false }),
            },
        }
    }

    /// Finishes a validation that asked for a fetch, given the fetched page.
    /// The strategy is chosen again by the record's source; where it needs no
    /// page, or no strategy handles the source, the outcome is the one
    /// `validate_coupon` gives without a fetch.
    pub fn complete_validation(&self, coupon: &Coupon, page: &PageResponse, now: i64) -> (r: ValidationResult)
        ensures
            verdict_is(r, completion_verdict(self.strategies@, *coupon, *page).0,
                completion_verdict(self.strategies@, *coupon, *page).1, now),
    {
        match self.select_strategy(coupon.source.as_str()) {
            None => outcome(true, joined("no validator available for source ", coupon.source.as_str()), now),
            Some(kind) => {
                if kind == CouponSource::CursorAI && !is_student_record(coupon) {
                    offline_outcome(coupon, now)
                } else {
                    page_outcome(kind, coupon, page, now)
                }
            },
        }
    }
}

/// With the built-in registry and validation on, an unexpired record of the
/// generic source is checked by fetching its URL with the body, and a page
/// answered with a 2xx status makes it valid exactly when the body contains
/// its code.
pub proof fn lemma_generic_checks_code_on_page(v: Validator, c: Coupon, page: PageResponse, now: i64)
    requires
        v.strategies@ == seq![
            CouponSource::CursorAI,
            CouponSource::GitHub,
            CouponSource::Replit,
            CouponSource::Warp,
            CouponSource::Tabnine,
            CouponSource::Generic,
        ],
        v.enabled,
        !c.expired_at(now),
        c.source@ == CouponSource::Generic.label(),
        is_success_status(page.status),
    ensures
        first_step(v.strategies@, v.enabled, c, now) == StepPlan::Fetch(true),
        completion_verdict(v.strategies@, c, page).0 == text_contains(page.body@, c.code@),
{
    reveal_strlit("Cursor AI");
    reveal_strlit("GitHub");
    reveal_strlit("Replit");
    reveal_strlit("Warp");
    reveal_strlit("Tabnine");
    reveal_strlit("Generic");
    let s = v.strategies@;
    let s1 = s.drop_first();
    let s2 = s1.drop_first();
    let s3 = s2.drop_first();
    let s4 = s3.drop_first();
    let s5 = s4.drop_first();
    assert(s5 =~= seq![CouponSource::Generic]);
    assert(selected(s5, c.source@) == Some(CouponSource::Generic));
    assert("Tabnine"@[0] != "Generic"@[0]);
    assert("Warp"@[0] != "Generic"@[0]);
    assert("Replit"@[0] != "Generic"@[0]);
    assert("GitHub"@[2] != "Generic"@[2]);
    assert("Cursor AI"@[0] != "Generic"@[0]);
    assert(s4[0] == CouponSource::Tabnine);
    assert(selected(s4, c.source@) == Some(CouponSource::Generic));
    assert(s3[0] == CouponSource::Warp);
    assert(selected(s3, c.source@) == Some(CouponSource::Generic));
    assert(s2[0] == CouponSource::Replit);
    assert(selected(s2, c.source@) == Some(CouponSource::Generic));
    assert(s1[0] == CouponSource::GitHub);
    assert(selected(s1, c.source@) == Some(CouponSource::Generic));
    assert(s[0] == CouponSource::CursorAI);
    assert(selected(s, c.source@) == Some(CouponSource::Generic));
}

} // verus!
