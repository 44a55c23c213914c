use rin_kokonoe::fingerprint::fingerprint;
use rin_kokonoe::models::{Coupon, CouponSource};
use rin_kokonoe::notify::{
    choose_authentication, choose_route, discount_text, Authentication, embed_title, expiry_text, format_coupon_message, parse_channel_id, DeliveryError,
    DeliveryRoute,
};
use rin_kokonoe::scraper::{
    extract_cursor_promo_coupons, extract_cursor_student_coupon, extract_generic_coupons, extract_github_offer,
    extract_github_offers, extract_replit_offer, initialize_scrapers, CursorAIScraper, GenericAIScraper, GitHubScraper, ReplitScraper,
    TabnineScraper, WarpScraper,
};

const NOW: i64 = 1_700_000_000;
const DAY: i64 = 86_400;

#[test]
fn cursor_student_block_gives_student_plan() {
    let html = "<html><body><div class=\"student-discount\">Free for students</div></body></html>";
    let c = extract_cursor_student_coupon(html, "https://cursor.sh/student", NOW).unwrap();
    assert_eq!(c.name, "Cursor AI Student Plan");
    assert_eq!(c.code, "STUDENT");
    assert_eq!(c.discount_percentage, Some(100));
    assert_eq!(c.source, "Cursor AI");
    assert_eq!(c.expiry, Some(NOW + 365 * DAY));
    assert!(extract_cursor_student_coupon("<div class=\"other\"></div>", "u", NOW).is_none());
}

#[test]
fn cursor_promotions_read_their_attributes() {
    let html = "<div class=\"promotion-code\" data-code=\"SPRING\" data-discount=\"25\"></div>\
                <div class=\"promotion-code\"></div>";
    let v = extract_cursor_promo_coupons(html, "https://cursor.sh/pricing", NOW).unwrap();
    assert_eq!(v.len(), 2);
    assert_eq!(v[0].name, "Cursor AI Promotion: 25% Off");
    assert_eq!(v[0].code, "SPRING");
    assert_eq!(v[0].discount_percentage, Some(25));
    assert_eq!(v[0].expiry, Some(NOW + 30 * DAY));
    assert_eq!(v[1].name, "Cursor AI Promotion: 10% Off");
    assert_eq!(v[1].code, "PROMO");
    assert_eq!(v[1].discount_percentage, Some(10));
    assert!(extract_cursor_promo_coupons("<p>none</p>", "u", NOW).is_none());
}

#[test]
fn github_offers_keep_ai_tools_only() {
    let html = "<div class=\"d-flex flex-wrap gutter\"><h3>Copilot AI Pro</h3><p>AI pair programmer</p></div>\
                <div class=\"d-flex flex-wrap gutter\"><h3>Hosting</h3><p>Servers</p></div>\
                <div class=\"d-flex flex-wrap gutter\"><p>No title</p></div>";
    let v = extract_github_offers(html, "https://education.github.com/pack", NOW);
    assert_eq!(v.len(), 1);
    assert_eq!(v[0].name, "GitHub Student Pack: Copilot AI Pro");
    assert_eq!(v[0].description, "AI pair programmer");
    assert_eq!(v[0].url, "https://education.github.com/pack#copilot-ai-pro");
    assert_eq!(v[0].code, "GITHUB-STUDENT");
    assert_eq!(v[0].expiry, None);
    assert_eq!(v[0].hash, fingerprint(&v[0].name, &v[0].code, &v[0].url));
}

#[test]
fn github_title_is_lowercased_for_matching() {
    let c = extract_github_offer("TabNINE AIDE", "d", "https://p", NOW).unwrap();
    assert_eq!(c.url, "https://p#tabnine-aide");
    assert!(extract_github_offer("", "d", "https://p", NOW).is_none());
    assert!(extract_github_offer("Cloud Credits", "d", "https://p", NOW).is_none());
}

#[test]
fn replit_block_gives_education_offer() {
    let html = "<div class=\"education-discount\">50% off</div>";
    let c = extract_replit_offer(html, "https://replit.com/site/teams-for-education", NOW).unwrap();
    assert_eq!(c.name, "Replit Teams for Education");
    assert_eq!(c.discount_percentage, Some(50));
    assert_eq!(c.expiry, None);
    assert!(extract_replit_offer("<div></div>", "u", NOW).is_none());
}

#[test]
fn generic_page_codes_become_candidates() {
    let html = "<html><body><p>Save 30% off with code: SAVE30 today</p><p>Or use Code WELCOME-1 now</p></body></html>";
    let v = extract_generic_coupons(html, "https://llmdeals.net", NOW).unwrap();
    assert_eq!(v.len(), 2);
    assert_eq!(v[0].code, "SAVE30");
    assert_eq!(v[1].code, "WELCOME-1");
    assert_eq!(v[0].name, "AI Tool Discount: 30% Off");
    assert_eq!(v[0].description, "Use code SAVE30 for 30% off");
    assert_eq!(v[1].discount_percentage, Some(30));
    assert_eq!(v[0].source, "Generic");
    assert_eq!(v[0].url, "https://llmdeals.net");
    assert_eq!(v[0].expiry, Some(NOW + 30 * DAY));
}

#[test]
fn generic_page_without_discount_defaults_to_ten() {
    let v = extract_generic_coupons("<p>code: ABC</p>", "u", NOW).unwrap();
    assert_eq!(v[0].discount_percentage, Some(10));
    assert_eq!(v[0].name, "AI Tool Discount: 10% Off");
    assert!(extract_generic_coupons("<p>no offers here</p>", "u", NOW).is_none());
}

#[test]
fn collectors_follow_their_pages() {
    let cursor = CursorAIScraper;
    assert!(cursor.collect(None, Some("<div class=\"promotion-code\"></div>"), NOW).is_empty());
    let both = cursor.collect(
        Some("<div class=\"student-discount\"></div>"),
        Some("<div class=\"promotion-code\" data-code=\"X1\"></div>"),
        NOW,
    );
    assert_eq!(both.len(), 2);
    assert_eq!(both[0].url, "https://cursor.sh/student");
    assert_eq!(both[1].url, "https://cursor.sh/pricing");
    assert_eq!(cursor.name(), "Cursor AI");
    assert_eq!(cursor.source(), "Cursor AI");

    assert!(GitHubScraper.collect(None, NOW).is_empty());
    assert_eq!(ReplitScraper.collect(Some("<div class=\"education-discount\"></div>"), NOW).len(), 1);
    assert_eq!(WarpScraper.collect(true, NOW)[0].code, "AUTO-APPLIED");
    assert!(WarpScraper.collect(false, NOW).is_empty());
    assert_eq!(TabnineScraper.collect(true, NOW)[0].name, "Tabnine Pro Student Plan");

    let generic = GenericAIScraper::with_default_sources();
    assert_eq!(generic.urls.len(), 3);
    let pages = vec![None, Some("code: AAA".to_string()), Some("nothing".to_string())];
    let found = generic.collect(&pages, NOW);
    assert_eq!(found.len(), 1);
    assert_eq!(found[0].url, "https://llmdeals.net");
    let custom = GenericAIScraper::new(vec!["https://a".to_string()]);
    assert_eq!(custom.urls, vec!["https://a".to_string()]);
    assert_eq!(custom.source(), "Generic");
}

fn sample() -> Coupon {
    Coupon::new_at(
        "X Pro".to_string(),
        "d".to_string(),
        Some(20),
        "ABC123".to_string(),
        "http://x.test/offer".to_string(),
        "Generic".to_string(),
        None,
        NOW,
    )
}

#[test]
fn announcement_text() {
    let mut c = sample();
    assert_eq!(
        format_coupon_message(&c),
        "✅ **X Pro**\n> **Discount:** 20%\n> **Code:** ABC123\n> 🔗 [Apply Here](http://x.test/offer)\n"
    );
    c.discount_percentage = None;
    assert_eq!(format_coupon_message(&c), "✅ **X Pro**\n> **Code:** ABC123\n> 🔗 [Apply Here](http://x.test/offer)\n");
    assert_eq!(embed_title(&c), "✅ X Pro AI Coupon");
    assert_eq!(discount_text(100), "100%");
}

#[test]
fn expiry_field_counts_whole_days() {
    assert_eq!(expiry_text(NOW + 30 * DAY, NOW), "In 30 days");
    assert_eq!(expiry_text(NOW + DAY, NOW), "In 1 days");
    assert_eq!(expiry_text(NOW + DAY - 1, NOW), "Today");
    assert_eq!(expiry_text(NOW - 5 * DAY, NOW), "Today");
    assert_eq!(expiry_text(i64::MAX, i64::MIN), "In 213503982334601 days");
}

#[test]
fn delivery_route_prefers_webhook() {
    assert_eq!(choose_route(true, true, true), Ok(DeliveryRoute::Webhook));
    assert_eq!(choose_route(false, true, true), Ok(DeliveryRoute::Channel));
    assert_eq!(choose_route(false, true, false), Err(DeliveryError::ChannelNotSet));
    assert_eq!(choose_route(false, false, true), Err(DeliveryError::NoDeliveryMethod));
    assert_eq!(parse_channel_id("123456789012345678"), Some(123456789012345678));
    assert_eq!(parse_channel_id("abc"), None);
    assert_eq!(parse_channel_id("+42"), Some(42));
}

#[test]
fn generic_codes_come_from_text_not_markup() {
    let html = "<div data-note=\"code: HIDDEN1\"><p>Try code: SHOWN1 now</p></div>";
    let v = extract_generic_coupons(html, "u", NOW).unwrap();
    assert_eq!(v.len(), 1);
    assert_eq!(v[0].code, "SHOWN1");
}

#[test]
fn authentication_needs_token_or_webhook() {
    assert_eq!(choose_authentication(true, false), Ok(Authentication::BotToken));
    assert_eq!(choose_authentication(true, true), Ok(Authentication::BotToken));
    assert_eq!(choose_authentication(false, true), Ok(Authentication::WebhookOnly));
    assert_eq!(choose_authentication(false, false), Err(DeliveryError::NoDeliveryMethod));
}

#[test]
fn collectors_run_in_registration_order() {
    assert_eq!(
        initialize_scrapers(),
        vec![
            CouponSource::CursorAI,
            CouponSource::GitHub,
            CouponSource::Replit,
            CouponSource::Warp,
            CouponSource::Tabnine,
            CouponSource::Generic,
        ]
    );
}

#[test]
fn generic_collector_concatenates_pages_in_url_order() {
    let scraper = GenericAIScraper::new(vec!["https://a".to_string(), "https://b".to_string(), "https://c".to_string()]);
    let pages = vec![
        Some("<p>code: A1 and 15% off</p><p>code: A2 x</p>".to_string()),
        None,
        Some("<p>code: C1 x</p>".to_string()),
    ];
    let found = scraper.collect(&pages, NOW);
    let seen: Vec<(&str, &str, Option<u64>)> =
        found.iter().map(|c| (c.code.as_str(), c.url.as_str(), c.discount_percentage)).collect();
    assert_eq!(
        seen,
        vec![("A1", "https://a", Some(15)), ("A2", "https://a", Some(15)), ("C1", "https://c", Some(10))]
    );
}
