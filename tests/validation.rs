use rin_kokonoe::models::{Config, Coupon};
use rin_kokonoe::validator::{
    code_format_valid, CursorAIValidator, GenericValidator, GitHubValidator, PageResponse, ReplitValidator,
    TabnineValidator, ValidationStep, Validator, WarpValidator,
};

const NOW: i64 = 1_700_000_000;

fn record(name: &str, code: &str, url: &str, source: &str, expiry: Option<i64>) -> Coupon {
    let mut c = Coupon::new_at(
        name.to_string(),
        "desc".to_string(),
        None,
        code.to_string(),
        url.to_string(),
        source.to_string(),
        expiry,
        NOW,
    );
    c.id = Some(1);
    c
}

fn done(step: ValidationStep) -> (bool, String) {
    match step {
        ValidationStep::Done(v) => {
            assert_eq!(v.validated_at, NOW);
            (v.is_valid, v.message.unwrap())
        }
        ValidationStep::Fetch(_) => panic!("expected a decision"),
    }
}

fn page(status: u16, status_text: &str, body: &str) -> PageResponse {
    PageResponse { status, status_text: status_text.to_string(), body: body.to_string() }
}

#[test]
fn expired_record_is_rejected_before_any_strategy() {
    let validator = Validator::new(&Config::default());
    for source in ["Generic", "GitHub", "Cursor AI", "Unknown"] {
        let c = record("A", "ABCD", "http://a.test", source, Some(NOW - 1));
        assert_eq!(done(validator.validate_coupon(&c, NOW)), (false, "expired".to_string()));
    }
}

#[test]
fn unmatched_source_is_accepted_with_source_named() {
    let validator = Validator::new(&Config::default());
    let c = record("A", "x", "http://a.test", "Codeium", None);
    assert_eq!(
        done(validator.validate_coupon(&c, NOW)),
        (true, "no validator available for source Codeium".to_string())
    );
    let empty = Validator { strategies: Vec::new(), enabled: true };
    let g = record("A", "x", "http://a.test", "Generic", Some(NOW + 10));
    assert_eq!(done(empty.validate_coupon(&g, NOW)), (true, "no validator available for source Generic".to_string()));
}

#[test]
fn disabled_validation_accepts_everything() {
    let mut config = Config::default();
    config.validation.enable = false;
    let validator = Validator::new(&config);
    let c = record("A", "x", "http://a.test", "Generic", Some(NOW - 100));
    let (valid, _) = done(validator.validate_coupon(&c, NOW));
    assert!(valid);
}

#[test]
fn expiry_at_now_is_not_expired() {
    let validator = Validator::new(&Config::default());
    let c = record("A", "ABCD", "http://a.test", "Cursor AI", Some(NOW));
    assert_eq!(done(validator.validate_coupon(&c, NOW)), (true, "Coupon code format is valid".to_string()));
}

#[test]
fn cursor_codes_are_checked_for_format() {
    let validator = Validator::new(&Config::default());
    let good = record("A", "SAVE-20", "https://cursor.sh/pricing", "Cursor AI", None);
    assert_eq!(done(validator.validate_coupon(&good, NOW)), (true, "Coupon code format is valid".to_string()));
    let short = record("A", "AB1", "https://cursor.sh/pricing", "Cursor AI", None);
    assert_eq!(done(validator.validate_coupon(&short, NOW)), (false, "Invalid coupon code format".to_string()));
    let odd = record("A", "SAVE_20", "https://cursor.sh/pricing", "Cursor AI", None);
    assert_eq!(done(validator.validate_coupon(&odd, NOW)), (false, "Invalid coupon code format".to_string()));
    assert!(code_format_valid("ABCD"));
    assert!(!code_format_valid("ABÇD"));
    assert!(!code_format_valid(""));
}

#[test]
fn cursor_student_offer_checks_the_page() {
    let validator = Validator::new(&Config::default());
    let c = record("Cursor AI Student Plan", "STUDENT", "https://cursor.sh/student", "Cursor AI", None);
    match validator.validate_coupon(&c, NOW) {
        ValidationStep::Fetch(req) => {
            assert_eq!(req.url, "https://cursor.sh/student");
            assert!(!req.read_body);
        }
        _ => panic!("expected a fetch"),
    }
    let ok = validator.complete_validation(&c, &page(200, "200 OK", ""), NOW);
    assert!(ok.is_valid);
    assert_eq!(ok.message.as_deref(), Some("Student program verified as active"));
    let gone = validator.complete_validation(&c, &page(404, "404 Not Found", ""), NOW);
    assert!(!gone.is_valid);
    assert_eq!(gone.message.as_deref(), Some("Student program page returned status: 404 Not Found"));
}

#[test]
fn github_offer_must_appear_on_page() {
    let validator = Validator::new(&Config::default());
    let c = record("GitHub Student Pack: Copilot AI", "GITHUB-STUDENT", "https://education.github.com/pack", "GitHub", None);
    match validator.validate_coupon(&c, NOW) {
        ValidationStep::Fetch(req) => assert!(req.read_body),
        _ => panic!("expected a fetch"),
    }
    let found = validator.complete_validation(&c, &page(200, "200 OK", "<h3>GitHub Student Pack: Copilot AI</h3>"), NOW);
    assert_eq!((found.is_valid, found.message.as_deref()), (true, Some("Offer found on GitHub Education page")));
    let missing = validator.complete_validation(&c, &page(200, "200 OK", "nothing"), NOW);
    assert_eq!((missing.is_valid, missing.message.as_deref()), (false, Some("Offer not found on GitHub Education page")));
    let down = validator.complete_validation(&c, &page(503, "503 Service Unavailable", ""), NOW);
    assert_eq!(down.message.as_deref(), Some("GitHub Education page returned status: 503 Service Unavailable"));
}

#[test]
fn generic_code_must_appear_on_page() {
    let validator = Validator::new(&Config::default());
    let c = record("X Pro", "ABC123", "http://x.test/offer", "Generic", None);
    let found = validator.complete_validation(&c, &page(200, "200 OK", "code: ABC123"), NOW);
    assert_eq!((found.is_valid, found.message.as_deref()), (true, Some("Coupon code found on source page")));
    let missing = validator.complete_validation(&c, &page(200, "200 OK", "code: ABC12"), NOW);
    assert_eq!((missing.is_valid, missing.message.as_deref()), (false, Some("Coupon code not found on source page")));
    let down = validator.complete_validation(&c, &page(500, "500 Internal Server Error", ""), NOW);
    assert_eq!(down.message.as_deref(), Some("Source page returned status: 500 Internal Server Error"));
    let redirect = validator.complete_validation(&c, &page(301, "301 Moved Permanently", "ABC123"), NOW);
    assert!(!redirect.is_valid);
}

#[test]
fn programme_pages_are_checked_by_status() {
    let validator = Validator::new(&Config::default());
    let replit = record("R", "EDUCATION", "https://replit.com/x", "Replit", None);
    assert_eq!(
        validator.complete_validation(&replit, &page(299, "299", ""), NOW).message.as_deref(),
        Some("Education program verified as active")
    );
    assert_eq!(
        validator.complete_validation(&replit, &page(404, "404 Not Found", ""), NOW).message.as_deref(),
        Some("Education program page returned status: 404 Not Found")
    );
    let warp = record("W", "AUTO-APPLIED", "https://www.warp.dev/students", "Warp", None);
    assert!(validator.complete_validation(&warp, &page(200, "200 OK", ""), NOW).is_valid);
    let tabnine = record("T", "STUDENT", "https://www.tabnine.com/students", "Tabnine", None);
    assert!(!validator.complete_validation(&tabnine, &page(199, "199", ""), NOW).is_valid);
}

#[test]
fn strategies_answer_for_their_source() {
    assert!(CursorAIValidator::new().can_validate("Cursor AI"));
    assert!(!CursorAIValidator::new().can_validate("cursor ai"));
    assert!(GitHubValidator::new().can_validate("GitHub"));
    assert!(ReplitValidator::new().can_validate("Replit"));
    assert!(WarpValidator::new().can_validate("Warp"));
    assert!(TabnineValidator::new().can_validate("Tabnine"));
    assert!(GenericValidator::new().can_validate("Generic"));
    assert!(!GenericValidator::new().can_validate("GitHub"));
    assert_eq!(GenericValidator::new().name(), "Generic Validator");
    assert_eq!(CursorAIValidator::new().name(), "Cursor AI Validator");
}
