use rin_kokonoe::models::{Config, Coupon, ValidationResult};
use rin_kokonoe::pipeline::{collect_batch, Action, CandidateRun, Event, Finish, Stage};
use rin_kokonoe::store::select_expired;
use rin_kokonoe::validator::{PageResponse, ValidationStep, Validator};

const NOW: i64 = 1_700_000_000;
const DAY: i64 = 86_400;

/// A store kept in memory, answering the pipeline's actions.
struct MemoryStore {
    records: Vec<Coupon>,
    next_id: i64,
    notifications: Vec<Coupon>,
}

impl MemoryStore {
    fn new() -> Self {
        MemoryStore { records: Vec::new(), next_id: 1, notifications: Vec::new() }
    }

    fn find(&mut self, id: i64) -> Option<&mut Coupon> {
        self.records.iter_mut().find(|r| r.id == Some(id))
    }
}

/// Runs one candidate to its end; `page` answers the validator's fetch and
/// `deliver` tells whether announcements succeed. Returns how it finished and
/// the actions performed.
fn run_candidate(
    store: &mut MemoryStore,
    validator: &Validator,
    candidate: Coupon,
    page: &PageResponse,
    deliver: bool,
) -> (Finish, Vec<String>) {
    let (mut run, mut action) = CandidateRun::start(candidate);
    let mut performed = Vec::new();
    loop {
        let event = match &action {
            Action::CheckExists(fp) => {
                performed.push("check".to_string());
                Event::ExistenceChecked(store.records.iter().any(|r| &r.hash == fp))
            }
            Action::Insert(record) => {
                performed.push("insert".to_string());
                let mut stored = record.clone();
                stored.id = Some(store.next_id);
                store.records.push(stored);
                store.next_id += 1;
                Event::Inserted(store.next_id - 1)
            }
            Action::Validate(record) => {
                performed.push("validate".to_string());
                match validator.validate_coupon(record, NOW) {
                    ValidationStep::Done(v) => Event::Validated(v),
                    ValidationStep::Fetch(_) => Event::Validated(validator.complete_validation(record, page, NOW)),
                }
            }
            Action::UpdateValidation { id, is_valid, validated_at } => {
                performed.push("update".to_string());
                let r = store.find(*id).unwrap();
                r.is_valid = *is_valid;
                r.validated_at = Some(*validated_at);
                Event::StatusUpdated
            }
            Action::Notify(record) => {
                performed.push("notify".to_string());
                if deliver {
                    store.notifications.push(record.clone());
                    Event::Notified
                } else {
                    Event::Failed
                }
            }
            Action::MarkPosted(id) => {
                performed.push("mark".to_string());
                store.find(*id).unwrap().is_posted = true;
                Event::MarkedPosted
            }
            Action::Nothing => Event::Failed,
        };
        action = run.advance(event);
        if run.is_finished() {
            break;
        }
    }
    match run.stage {
        Stage::Finished(f) => (f, performed),
        _ => unreachable!(),
    }
}

fn offer_candidate() -> Coupon {
    Coupon::new_at(
        "X Pro".to_string(),
        "Pro plan".to_string(),
        Some(20),
        "ABC123".to_string(),
        "http://x.test/offer".to_string(),
        "Generic".to_string(),
        Some(NOW + 30 * DAY),
        NOW,
    )
}

fn page(status: u16, body: &str) -> PageResponse {
    PageResponse { status, status_text: format!("{} Status", status), body: body.to_string() }
}

#[test]
fn end_to_end_offer_is_posted_once() {
    let validator = Validator::new(&Config::default());
    let mut store = MemoryStore::new();
    let body = page(200, "<p>Use code ABC123 today</p>");
    let (finish, performed) = run_candidate(&mut store, &validator, offer_candidate(), &body, true);
    assert_eq!(finish, Finish::Posted);
    assert_eq!(performed, vec!["check", "insert", "validate", "update", "notify", "mark"]);
    assert_eq!(store.records.len(), 1);
    let record = &store.records[0];
    assert!(record.is_valid && record.is_posted);
    assert_eq!(record.validated_at, Some(NOW));
    assert_eq!(store.notifications.len(), 1);
    assert_eq!(store.notifications[0].id, Some(1));

    let before: Vec<(Option<i64>, bool, bool)> = store.records.iter().map(|r| (r.id, r.is_valid, r.is_posted)).collect();
    let (finish, performed) = run_candidate(&mut store, &validator, offer_candidate(), &body, true);
    assert_eq!(finish, Finish::DedupedOut);
    assert_eq!(performed, vec!["check"]);
    let after: Vec<(Option<i64>, bool, bool)> = store.records.iter().map(|r| (r.id, r.is_valid, r.is_posted)).collect();
    assert_eq!(before, after);
    assert_eq!(store.notifications.len(), 1);
}

#[test]
fn same_candidate_twice_is_stored_once() {
    let validator = Validator::new(&Config::default());
    let mut store = MemoryStore::new();
    let body = page(404, "");
    let (first, _) = run_candidate(&mut store, &validator, offer_candidate(), &body, true);
    assert_eq!(first, Finish::Invalid);
    let (second, performed) = run_candidate(&mut store, &validator, offer_candidate(), &body, true);
    assert_eq!(second, Finish::DedupedOut);
    assert_eq!(performed, vec!["check"]);
    assert_eq!(store.records.len(), 1);
    assert!(store.notifications.is_empty());
}

#[test]
fn failed_delivery_leaves_record_valid_and_unposted() {
    let validator = Validator::new(&Config::default());
    let mut store = MemoryStore::new();
    let body = page(200, "ABC123");
    let (finish, performed) = run_candidate(&mut store, &validator, offer_candidate(), &body, false);
    assert_eq!(finish, Finish::ValidUnposted);
    assert_eq!(performed, vec!["check", "insert", "validate", "update", "notify"]);
    assert!(store.records[0].is_valid);
    assert!(!store.records[0].is_posted);
    assert!(store.records[0].awaits_announcement(NOW));
}

#[test]
fn posted_flag_survives_later_passes() {
    let validator = Validator::new(&Config::default());
    let mut store = MemoryStore::new();
    let body = page(200, "ABC123");
    run_candidate(&mut store, &validator, offer_candidate(), &body, true);
    assert!(store.records[0].is_posted);
    let other = Coupon::new_at(
        "Y".to_string(),
        "".to_string(),
        None,
        "ZZZZ".to_string(),
        "http://y.test".to_string(),
        "Generic".to_string(),
        None,
        NOW,
    );
    run_candidate(&mut store, &validator, other, &page(500, ""), true);
    run_candidate(&mut store, &validator, offer_candidate(), &body, true);
    assert!(store.records[0].is_posted);
    assert!(store.records[0].is_valid);
    assert!(!store.records[1].is_posted);
}

#[test]
fn store_failure_skips_only_that_candidate() {
    let (mut run, action) = CandidateRun::start(offer_candidate());
    assert!(matches!(action, Action::CheckExists(_)));
    let next = run.advance(Event::Failed);
    assert!(matches!(next, Action::Nothing));
    assert_eq!(run.stage, Stage::Finished(Finish::Failed));
    let again = run.advance(Event::Notified);
    assert!(matches!(again, Action::Nothing));
    assert_eq!(run.stage, Stage::Finished(Finish::Failed));
}

#[test]
fn inserted_record_is_pending() {
    let mut candidate = offer_candidate();
    candidate.is_valid = true;
    candidate.is_posted = true;
    let (mut run, _) = CandidateRun::start(candidate);
    match run.advance(Event::ExistenceChecked(false)) {
        Action::Insert(record) => {
            assert!(!record.is_valid);
            assert!(!record.is_posted);
            assert_eq!(record.validated_at, None);
            assert_eq!(record.id, None);
            assert_eq!(record.code, "ABC123");
        }
        _ => panic!("expected an insert"),
    }
    match run.advance(Event::Inserted(7)) {
        Action::Validate(record) => assert_eq!(record.id, Some(7)),
        _ => panic!("expected a validation"),
    }
    let outcome = ValidationResult { is_valid: false, message: None, validated_at: NOW };
    match run.advance(Event::Validated(outcome)) {
        Action::UpdateValidation { id, is_valid, validated_at } => {
            assert_eq!((id, is_valid, validated_at), (7, false, NOW));
        }
        _ => panic!("expected a status update"),
    }
    assert!(matches!(run.advance(Event::StatusUpdated), Action::Nothing));
    assert_eq!(run.stage, Stage::Finished(Finish::Invalid));
}

fn named(name: &str) -> Coupon {
    Coupon::new_at(name.to_string(), "".to_string(), None, "CODE".to_string(), "u".to_string(), "Generic".to_string(), None, NOW)
}

#[test]
fn batch_keeps_candidates_around_failed_collector() {
    let results = vec![
        Ok(vec![named("a1"), named("a2")]),
        Err("connection refused".to_string()),
        Ok(vec![named("c1")]),
    ];
    let (candidates, failures) = collect_batch(results);
    let names: Vec<&str> = candidates.iter().map(|c| c.name.as_str()).collect();
    assert_eq!(names, vec!["a1", "a2", "c1"]);
    assert_eq!(failures, vec![1]);
}

#[test]
fn empty_batch_has_no_candidates() {
    let (candidates, failures) = collect_batch(Vec::new());
    assert!(candidates.is_empty());
    assert!(failures.is_empty());
    let (candidates, failures) = collect_batch(vec![Err("x".to_string()), Err("y".to_string())]);
    assert!(candidates.is_empty());
    assert_eq!(failures, vec![0, 1]);
}

#[test]
fn cleanup_removes_only_expired_records() {
    let mut past = named("past");
    past.id = Some(1);
    past.expiry = Some(NOW - 1);
    let mut later = named("later");
    later.id = Some(2);
    later.expiry = Some(NOW + 3600);
    let mut never = named("never");
    never.id = Some(3);
    never.expiry = None;
    let mut boundary = named("boundary");
    boundary.id = Some(4);
    boundary.expiry = Some(NOW);
    let records = vec![past, later, never, boundary];
    assert_eq!(select_expired(&records, NOW), vec![1]);
    assert!(select_expired(&Vec::new(), NOW).is_empty());
}
