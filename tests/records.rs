use rin_kokonoe::clock::{days_after, saturating_shift};
use rin_kokonoe::fingerprint::{fingerprint, hex_string};
use rin_kokonoe::models::{validate_config, Config, ConfigError, Coupon, CouponSource};
use rin_kokonoe::scheduler::SchedulePolicy;
use rin_kokonoe::text::{dash_spaces, decimal_string, joined, parse_whole_number, str_contains, str_equal};
use std::hash::{Hash, Hasher};

const NOW: i64 = 1_700_000_000;

#[test]
fn fingerprint_is_repeatable() {
    let a = fingerprint("X Pro", "ABC123", "http://x.test/offer");
    let b = fingerprint("X Pro", "ABC123", "http://x.test/offer");
    assert_eq!(a, b);
    assert!(!a.is_empty());
    assert!(a.chars().all(|c| c.is_ascii_hexdigit() && !c.is_ascii_uppercase()));
}

#[test]
fn fingerprint_changes_with_any_field() {
    let base = fingerprint("X Pro", "ABC123", "http://x.test/offer");
    assert_ne!(base, fingerprint("X Pro ", "ABC123", "http://x.test/offer"));
    assert_ne!(base, fingerprint("X Pro", "abc123", "http://x.test/offer"));
    assert_ne!(base, fingerprint("X Pro", "ABC123", "http://x.test/offer2"));
    assert_ne!(fingerprint("ab", "c", "u"), fingerprint("a", "bc", "u"));
}

#[test]
fn fingerprint_matches_std_hashing_of_the_three_fields() {
    let mut hasher = std::collections::hash_map::DefaultHasher::new();
    "X Pro".hash(&mut hasher);
    "ABC123".hash(&mut hasher);
    "http://x.test/offer".hash(&mut hasher);
    let expected = format!("{:x}", hasher.finish());
    assert_eq!(fingerprint("X Pro", "ABC123", "http://x.test/offer"), expected);
}

#[test]
fn hex_and_decimal_rendering() {
    assert_eq!(hex_string(0), "0");
    assert_eq!(hex_string(255), "ff");
    assert_eq!(hex_string(0x1a2b), "1a2b");
    assert_eq!(hex_string(u64::MAX), "ffffffffffffffff");
    assert_eq!(decimal_string(0), "0");
    assert_eq!(decimal_string(100), "100");
    assert_eq!(decimal_string(u64::MAX), "18446744073709551615");
}

#[test]
fn whole_numbers_parse_or_fail() {
    assert_eq!(parse_whole_number("42"), Some(42));
    assert_eq!(parse_whole_number("007"), Some(7));
    assert_eq!(parse_whole_number("18446744073709551615"), Some(u64::MAX));
    assert_eq!(parse_whole_number("18446744073709551616"), None);
    assert_eq!(parse_whole_number(""), None);
    assert_eq!(parse_whole_number("12.5"), None);
    assert_eq!(parse_whole_number("+5"), Some(5));
    assert_eq!(parse_whole_number("+"), None);
    assert_eq!(parse_whole_number("++5"), None);
    assert_eq!(parse_whole_number("-5"), None);
    assert_eq!(parse_whole_number("5+"), None);
}

#[test]
fn text_helpers() {
    assert!(str_contains("hello world", "lo w"));
    assert!(str_contains("abc", ""));
    assert!(!str_contains("ab", "abc"));
    assert!(str_contains("prix: 10€ réduction", "€ r"));
    assert!(str_equal("a", "a"));
    assert!(!str_equal("a", "b"));
    assert_eq!(joined("ab", "cd"), "abcd");
    assert_eq!(dash_spaces("copilot ai for students"), "copilot-ai-for-students");
    assert_eq!(dash_spaces(""), "");
}

#[test]
fn new_candidate_is_pending() {
    let c = Coupon::new_at(
        "X".to_string(),
        "d".to_string(),
        Some(10),
        "C0DE".to_string(),
        "http://x".to_string(),
        "Generic".to_string(),
        Some(NOW + 5),
        NOW,
    );
    assert_eq!(c.id, None);
    assert_eq!(c.created_at, Some(NOW));
    assert!(!c.is_valid && !c.is_posted);
    assert_eq!(c.validated_at, None);
    assert_eq!(c.hash, fingerprint("X", "C0DE", "http://x"));
    assert!(!c.is_expired_at(NOW));
    assert!(!c.is_expired_at(NOW + 5));
    assert!(c.is_expired_at(NOW + 6));
}

#[test]
fn expiry_is_judged_against_the_clock() {
    let past = Coupon::new("P".to_string(), "".to_string(), None, "C".to_string(), "u".to_string(), "Generic".to_string(), Some(1));
    assert!(past.is_expired());
    assert!(past.created_at.unwrap() > NOW);
    let far = Coupon::new("F".to_string(), "".to_string(), None, "C".to_string(), "u".to_string(), "Generic".to_string(), Some(i64::MAX));
    assert!(!far.is_expired());
    let before_epoch = Coupon::new("B".to_string(), "".to_string(), None, "C".to_string(), "u".to_string(), "Generic".to_string(), Some(-1));
    assert!(before_epoch.is_expired());
    assert!(before_epoch.created_at.unwrap() >= NOW);
    let none = Coupon::new("N".to_string(), "".to_string(), None, "C".to_string(), "u".to_string(), "Generic".to_string(), None);
    assert!(!none.is_expired());
}

#[test]
fn source_labels() {
    assert_eq!(CouponSource::CursorAI.to_string(), "Cursor AI");
    assert_eq!(CouponSource::GitHub.to_string(), "GitHub");
    assert_eq!(CouponSource::Replit.to_string(), "Replit");
    assert_eq!(CouponSource::Warp.to_string(), "Warp");
    assert_eq!(CouponSource::Tabnine.to_string(), "Tabnine");
    assert_eq!(CouponSource::Generic.to_string(), "Generic");
}

#[test]
fn default_configuration() {
    let c = Config::default();
    assert_eq!(c.discord.command_prefix, "!");
    assert_eq!(c.scraping.default_interval, 60);
    assert_eq!(c.scraping.user_agent, "RinKokonoe Coupon Bot/1.0");
    assert_eq!(c.api.port, 8080);
    assert!(c.validation.enable);
    assert_eq!(c.validation.timeout, 30);
    assert_eq!(c.proxy.rotate_after, 100);
}

#[test]
fn configuration_errors() {
    let mut c = Config::default();
    assert_eq!(validate_config(&c, false), Err(ConfigError::MissingNotificationChannel));
    assert_eq!(validate_config(&c, true), Ok(()));
    c.discord.webhook_url = Some("https://hook".to_string());
    assert_eq!(validate_config(&c, false), Ok(()));
    c.scraping.default_interval = 0;
    assert_eq!(validate_config(&c, false), Err(ConfigError::IntervalTooShort));
    c.scraping.default_interval = 1;
    c.api.port = 80;
    assert_eq!(validate_config(&c, true), Err(ConfigError::PortOutOfRange));
    c.api.enable = false;
    assert_eq!(validate_config(&c, true), Ok(()));
    c.api.enable = true;
    c.api.port = 1024;
    assert_eq!(validate_config(&c, true), Ok(()));
}

#[test]
fn time_arithmetic_clamps() {
    assert_eq!(days_after(NOW, 30), NOW + 30 * 86_400);
    assert_eq!(days_after(i64::MAX - 10, 1), i64::MAX);
    assert_eq!(days_after(i64::MIN + 10, -1), i64::MIN);
    assert_eq!(saturating_shift(5, -7), -2);
    assert_eq!(days_after(0, i64::MAX), i64::MAX);
    assert_eq!(days_after(0, i64::MIN), i64::MIN);
    assert_eq!(days_after(NOW, -1), NOW - 86_400);
}

#[test]
fn cleanup_runs_once_a_day() {
    let mut config = Config::default();
    config.scraping.default_interval = 15;
    let mut policy = SchedulePolicy::new(&config, NOW);
    assert_eq!(policy.scrape_interval_secs, 900);
    assert!(!policy.cleanup_due(NOW + 86_399));
    assert!(!policy.after_batch(NOW + 3_600));
    assert_eq!(policy.last_cleanup, NOW);
    assert_eq!(policy.last_scrape, None);
    policy.record_scrape(NOW + 10);
    assert_eq!(policy.last_scrape, Some(NOW + 10));
    assert!(policy.after_batch(NOW + 86_400));
    assert_eq!(policy.last_scrape, Some(NOW + 10));
    assert_eq!(policy.last_cleanup, NOW + 86_400);
    assert!(!policy.after_batch(NOW + 86_400 + 900));
    config.scraping.default_interval = u64::MAX;
    assert_eq!(SchedulePolicy::new(&config, NOW).scrape_interval_secs, u64::MAX);
    let late = SchedulePolicy { scrape_interval_secs: 60, last_cleanup: i64::MAX - 5, last_scrape: None };
    assert!(!late.cleanup_due(i64::MAX));
}
