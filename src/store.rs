use crate::models::{Coupon, ValidationResult};
use crate::pipeline::{announced, pending, stored, transition, Action, Event, Finish, Stage};
use vstd::prelude::*;

verus! {

/// The persistence store in the mathematical model: records by identity, and
/// the identity the next insert receives.
pub struct StoreModel {
    pub records: Map<i64, Coupon>,
    pub next_id: i64,
}

impl StoreModel {
    /// Whether a stored record carries fingerprint `fp`.
    pub open spec fn has_fingerprint(self, fp: Seq<char>) -> bool {
        exists|id: i64| self.records.contains_key(id) && #[trigger] self.records[id].hash@ == fp
    }

    /// Exactly one stored record carries fingerprint `fp`.
    pub open spec fn holds_once(self, fp: Seq<char>) -> bool {
        &&& self.has_fingerprint(fp)
        &&& forall|a: i64, b: i64|
            self.records.contains_key(a) && self.records.contains_key(b) && #[trigger] self.records[a].hash@ == fp
                && #[trigger] self.records[b].hash@ == fp ==> a == b
    }

    /// Identities are below `next_id` and fingerprints are unique.
    pub open spec fn well_formed(self) -> bool {
        &&& forall|id: i64| #[trigger] self.records.contains_key(id) ==> id < self.next_id
        &&& forall|a: i64, b: i64|
            self.records.contains_key(a) && self.records.contains_key(b)
                && #[trigger] self.records[a].hash@ == #[trigger] self.records[b].hash@ ==> a == b
    }

    /// Every posted record is valid and has been validated.
    pub open spec fn consistent(self) -> bool {
        forall|id: i64| #[trigger] self.records.contains_key(id) && self.records[id].is_posted
            ==> self.records[id].is_valid && self.records[id].validated_at is Some
    }
}

/// What the collaborators outside the store answer during one candidate run:
/// the validator's outcome (`None`: validation failed) and whether delivery
/// succeeds.
pub struct Collaborators {
    pub validation: Option<ValidationResult>,
    pub delivery_ok: bool,
}

/// The effect of action `a` on a store that does not fail, and the answer
/// reported back to the candidate.
pub open spec fn respond(s: StoreModel, a: Action, env: Collaborators) -> (StoreModel, Event) {
    match a {
        Action::CheckExists(fp) => (s, Event::ExistenceChecked(s.has_fingerprint(fp@))),
        Action::Insert(r) => if s.has_fingerprint(r.hash@) || s.next_id == i64::MAX {
            (s, Event::Failed)
        } else {
            (
                StoreModel {
                    records: s.records.insert(s.next_id, Coupon { id: Some(s.next_id), ..r }),
                    next_id: (s.next_id + 1) as i64,
                },
                Event::Inserted(s.next_id),
            )
        },
        Action::Validate(_) => match env.validation {
            Some(v) => (s, Event::Validated(v)),
            None => (s, Event::Failed),
        },
        Action::UpdateValidation { id, is_valid, validated_at } => if s.records.contains_key(id) {
            (
                StoreModel {
                    records: s.records.insert(
                        id,
                        Coupon { is_valid, validated_at: Some(validated_at), ..s.records[id] },
                    ),
                    ..s
                },
                Event::StatusUpdated,
            )
        } else {
            (s, Event::StatusUpdated)
        },
        Action::Notify(_) => (s, if env.delivery_ok { Event::Notified } else { Event::Failed }),
        Action::MarkPosted(id) => if s.records.contains_key(id) {
            (
                StoreModel {
                    records: s.records.insert(id, Coupon { is_posted: true, ..s.records[id] }),
                    ..s
                },
                Event::MarkedPosted,
            )
        } else {
            (s, Event::MarkedPosted)
        },
        Action::Nothing => (s, Event::Failed),
    }
}

/// Runs candidate `c` from `stage`, with `a` the action it asked for, for at
/// most `fuel` actions: the final store and the actions performed, in order.
pub open spec fn drive(s: StoreModel, c: Coupon, stage: Stage, a: Action, env: Collaborators, fuel: nat) -> (
    StoreModel,
    Seq<Action>,
)
    decreases fuel,
{
    if fuel == 0 || stage is Finished {
        (s, Seq::empty())
    } else {
        let (s2, e) = respond(s, a, env);
        let (stage2, a2) = transition(c, stage, e);
        let rest = drive(s2, c, stage2, a2, env, (fuel - 1) as nat);
        (rest.0, seq![a] + rest.1)
    }
}

/// One full pass of candidate `c` through the pipeline against store `s`
/// (a pass takes at most six actions).
pub open spec fn process(s: StoreModel, c: Coupon, env: Collaborators) -> (StoreModel, Seq<Action>) {
    drive(s, c, Stage::AwaitingExistence, Action::CheckExists(c.hash), env, 6)
}

proof fn lemma_respond_keeps(s: StoreModel, a: Action, env: Collaborators, fp: Seq<char>)
    requires
        s.well_formed(),
    ensures
        respond(s, a, env).0.well_formed(),
        s.has_fingerprint(fp) ==> respond(s, a, env).0.has_fingerprint(fp),
        forall|id: i64| #[trigger] s.records.contains_key(id) && s.records[id].is_posted
            ==> respond(s, a, env).0.records.contains_key(id) && respond(s, a, env).0.records[id].is_posted,
{
    let s2 = respond(s, a, env).0;
    if s.has_fingerprint(fp) {
        let id = choose|id: i64| s.records.contains_key(id) && #[trigger] s.records[id].hash@ == fp;
        assert(s2.records.contains_key(id) && s2.records[id].hash@ == fp);
    }
}

proof fn lemma_drive_keeps(
    s: StoreModel,
    c: Coupon,
    stage: Stage,
    a: Action,
    env: Collaborators,
    fuel: nat,
    fp: Seq<char>,
)
    requires
        s.well_formed(),
    ensures
        drive(s, c, stage, a, env, fuel).0.well_formed(),
        s.has_fingerprint(fp) ==> drive(s, c, stage, a, env, fuel).0.has_fingerprint(fp),
        forall|id: i64| #[trigger] s.records.contains_key(id) && s.records[id].is_posted
            ==> drive(s, c, stage, a, env, fuel).0.records.contains_key(id)
                && drive(s, c, stage, a, env, fuel).0.records[id].is_posted,
    decreases fuel,
{
    if fuel > 0 && !(stage is Finished) {
        let (s2, e) = respond(s, a, env);
        let (stage2, a2) = transition(c, stage, e);
        lemma_respond_keeps(s, a, env, fp);
        lemma_drive_keeps(s2, c, stage2, a2, env, (fuel - 1) as nat, fp);
    }
}

/// Past the insert: the stage waits for an answer about a stored record, and
/// the pending action stores nothing new.
pub open spec fn past_insert(stage: Stage, a: Action) -> bool {
    match stage {
        Stage::AwaitingExistence => false,
        Stage::AwaitingInsert => false,
        _ => !(a is Insert),
    }
}

proof fn lemma_drive_same_keys(s: StoreModel, c: Coupon, stage: Stage, a: Action, env: Collaborators, fuel: nat)
    requires
        past_insert(stage, a),
    ensures
        drive(s, c, stage, a, env, fuel).0.records.dom() == s.records.dom(),
    decreases fuel,
{
    if fuel > 0 && !(stage is Finished) {
        let (s2, e) = respond(s, a, env);
        let (stage2, a2) = transition(c, stage, e);
        assert(s2.records.dom() =~= s.records.dom());
        lemma_drive_same_keys(s2, c, stage2, a2, env, (fuel - 1) as nat);
    }
}

/// Dedup idempotence: after one pass of a candidate, the store holds exactly
/// one record with its fingerprint, whatever the validator and the notifier
/// answered; a second pass of the same candidate only asks whether the
/// fingerprint exists, then stops, leaving the store unchanged and announcing
/// nothing.
pub proof fn lemma_dedup_idempotent(s: StoreModel, c: Coupon, first: Collaborators, second: Collaborators)
    requires
        s.well_formed(),
        s.next_id < i64::MAX,
    ensures
        process(s, c, first).0.well_formed(),
        process(s, c, first).0.holds_once(c.hash@),
        s.has_fingerprint(c.hash@) ==> process(s, c, first).0 == s,
        !s.has_fingerprint(c.hash@) ==> !s.records.contains_key(s.next_id)
            && process(s, c, first).0.records.dom() == s.records.dom().insert(s.next_id),
        process(process(s, c, first).0, c, second) == (process(s, c, first).0, seq![Action::CheckExists(c.hash)]),
{
    let fp = c.hash@;
    let (s1a, e1) = respond(s, Action::CheckExists(c.hash), first);
    let (st1, a1) = transition(c, Stage::AwaitingExistence, e1);
    if s.has_fingerprint(fp) {
        assert(drive(s1a, c, st1, a1, first, 5) == (s, Seq::<Action>::empty()));
        assert(process(s, c, first).0 == s);
    } else {
        assert(a1 == Action::Insert(pending(c)));
        let (s2, e2) = respond(s1a, a1, first);
        assert(s2.records.contains_key(s.next_id) && s2.records[s.next_id].hash@ == fp);
        assert(s2.has_fingerprint(fp));
        lemma_respond_keeps(s1a, a1, first, fp);
        let (st2, a2) = transition(c, st1, e2);
        lemma_drive_keeps(s2, c, st2, a2, first, 4, fp);
        assert(s2.records.dom() =~= s.records.dom().insert(s.next_id));
        lemma_drive_same_keys(s2, c, st2, a2, first, 4);
        assert(s1a == s);
        assert(process(s, c, first).0 == drive(s1a, c, st1, a1, first, 5).0);
        assert(drive(s1a, c, st1, a1, first, 5).0 == drive(s2, c, st2, a2, first, 4).0);
    }
    let s1 = process(s, c, first).0;
    lemma_drive_keeps(s, c, Stage::AwaitingExistence, Action::CheckExists(c.hash), first, 6, fp);
    let (t1, f1) = respond(s1, Action::CheckExists(c.hash), second);
    assert(f1 == Event::ExistenceChecked(true));
    let (u1, b1) = transition(c, Stage::AwaitingExistence, f1);
    assert(u1 == Stage::Finished(Finish::DedupedOut));
    assert(drive(t1, c, u1, b1, second, 5) == (s1, Seq::<Action>::empty()));
    assert(process(s1, c, second).1 =~= seq![Action::CheckExists(c.hash)]);
}

/// Posted flags only move from false to true: in a pass of any candidate,
/// every record that was posted before is still stored and still posted.
pub proof fn lemma_posted_never_reverts(s: StoreModel, c: Coupon, env: Collaborators, id: i64)
    requires
        s.well_formed(),
        s.records.contains_key(id),
        s.records[id].is_posted,
    ensures
        process(s, c, env).0.records.contains_key(id),
        process(s, c, env).0.records[id].is_posted,
{
    lemma_drive_keeps(s, c, Stage::AwaitingExistence, Action::CheckExists(c.hash), env, 6, c.hash@);
}

/// How the action a candidate asked for fits its stage, and what the stage
/// needs of the record it has stored.
pub open spec fn coherent(s: StoreModel, c: Coupon, stage: Stage, a: Action) -> bool {
    match stage {
        Stage::AwaitingExistence => a == Action::CheckExists(c.hash),
        Stage::AwaitingInsert => a == Action::Insert(pending(c)),
        Stage::AwaitingValidation { id } => a == Action::Validate(stored(c, id))
            && (s.records.contains_key(id) ==> !s.records[id].is_posted),
        Stage::AwaitingStatusUpdate { id, is_valid, validated_at } => a == (Action::UpdateValidation {
            id,
            is_valid,
            validated_at,
        }) && (s.records.contains_key(id) ==> !s.records[id].is_posted),
        Stage::AwaitingNotification { id } => (exists|at: i64| a == Action::Notify(announced(c, id, at)))
            && (s.records.contains_key(id) ==> s.records[id].is_valid && s.records[id].validated_at is Some),
        Stage::AwaitingMarkPosted { id } => a == Action::MarkPosted(id)
            && (s.records.contains_key(id) ==> s.records[id].is_valid && s.records[id].validated_at is Some),
        Stage::Finished(_) => true,
    }
}

proof fn lemma_step_consistent(s: StoreModel, c: Coupon, stage: Stage, a: Action, env: Collaborators)
    requires
        s.well_formed(),
        s.consistent(),
        coherent(s, c, stage, a),
        !(stage is Finished),
    ensures
        respond(s, a, env).0.consistent(),
        coherent(
            respond(s, a, env).0,
            c,
            transition(c, stage, respond(s, a, env).1).0,
            transition(c, stage, respond(s, a, env).1).1,
        ),
{
    let (s2, e) = respond(s, a, env);
    let (stage2, a2) = transition(c, stage, e);
    assert forall|j: i64| #[trigger] s2.records.contains_key(j) && s2.records[j].is_posted implies
        s2.records[j].is_valid && s2.records[j].validated_at is Some by {
        if s.records.contains_key(j) && s2.records[j] == s.records[j] {
        } else {
            match a {
                Action::UpdateValidation { id, .. } => {
                    assert(j == id);
                },
                Action::MarkPosted(id) => {
                    assert(j == id);
                },
                Action::Insert(r) => {
                    assert(j == s.next_id);
                    assert(stage == Stage::AwaitingInsert);
                },
                _ => {},
            }
        }
    }
    match stage {
        Stage::AwaitingStatusUpdate { id, is_valid, validated_at } => {
            if e == Event::StatusUpdated && is_valid {
                assert(a2 == Action::Notify(announced(c, id, validated_at)));
            }
        },
        _ => {},
    }
}

proof fn lemma_drive_consistent(s: StoreModel, c: Coupon, stage: Stage, a: Action, env: Collaborators, fuel: nat)
    requires
        s.well_formed(),
        s.consistent(),
        coherent(s, c, stage, a),
    ensures
        drive(s, c, stage, a, env, fuel).0.consistent(),
    decreases fuel,
{
    if fuel > 0 && !(stage is Finished) {
        let (s2, e) = respond(s, a, env);
        let (stage2, a2) = transition(c, stage, e);
        lemma_respond_keeps(s, a, env, c.hash@);
        lemma_step_consistent(s, c, stage, a, env);
        lemma_drive_consistent(s2, c, stage2, a2, env, (fuel - 1) as nat);
    }
}

/// A pass of the pipeline never posts a record that is invalid or has not
/// been validated: if every posted record was valid and validated before, the
/// same holds after.
pub proof fn lemma_posted_implies_validated(s: StoreModel, c: Coupon, env: Collaborators)
    requires
        s.well_formed(),
        s.consistent(),
    ensures
        process(s, c, env).0.consistent(),
{
    lemma_drive_consistent(s, c, Stage::AwaitingExistence, Action::CheckExists(c.hash), env, 6);
}

/// The identities of the records whose expiry lies before `now`, in order;
/// these are the records the cleanup sweep deletes.
pub open spec fn expired_ids(records: Seq<Coupon>, now: i64) -> Seq<i64>
    decreases records.len(),
{
    if records.len() == 0 {
        Seq::empty()
    } else {
        let last = records.last();
        expired_ids(records.drop_last(), now) + if last.expired_at(now) && last.id is Some {
            seq![last.id.unwrap()]
        } else {
            Seq::empty()
        }
    }
}

/// Picks the stored records that the cleanup sweep removes at `now`: those
/// with an expiry strictly before `now`. Records without expiry are kept.
pub fn select_expired(records: &Vec<Coupon>, now: i64) -> (r: Vec<i64>)
    ensures
        r@ == expired_ids(records@, now),
{
    let mut ids: Vec<i64> = Vec::new();
    let mut i: usize = 0;
    while i < records.len()
        invariant
            i <= records@.len(),
            ids@ == expired_ids(records@.subrange(0, i as int), now),
        decreases records@.len() - i,
    {
        proof {
            let prefix = records@.subrange(0, i as int + 1);
            assert(prefix.drop_last() =~= records@.subrange(0, i as int));
        }
        let record = &records[i];
        if record.is_expired_at(now) {
            match record.id {
                Some(id) => ids.push(id),
                None => {},
            }
        }
        i = i + 1;
    }
    proof {
        assert(records@.subrange(0, records@.len() as int) =~= records@);
    }
    ids
}

/// The cleanup sweep keeps what has not expired: if no record with identity
/// `id` has an expiry before `now` (it expires later, or never), `id` is not
/// among the identities the sweep deletes.
pub proof fn lemma_cleanup_keeps_unexpired(records: Seq<Coupon>, now: i64, id: i64)
    requires
        forall|k: int| 0 <= k < records.len() && #[trigger] records[k].id == Some(id) ==> !records[k].expired_at(now),
    ensures
        !expired_ids(records, now).contains(id),
    decreases records.len(),
{
    if records.len() > 0 {
        lemma_cleanup_keeps_unexpired(records.drop_last(), now, id);
        let last = records.last();
        assert(records.drop_last().len() == records.len() - 1);
        assert forall|k: int| 0 <= k < records.drop_last().len() && #[trigger] records.drop_last()[k].id == Some(id)
            implies !records.drop_last()[k].expired_at(now) by {
            assert(records.drop_last()[k] == records[k]);
        }
        let tail: Seq<i64> = if last.expired_at(now) && last.id is Some { seq![last.id.unwrap()] } else { Seq::empty() };
        assert(expired_ids(records, now) == expired_ids(records.drop_last(), now) + tail);
        if expired_ids(records, now).contains(id) {
            let j = choose|j: int| 0 <= j < expired_ids(records, now).len() && expired_ids(records, now)[j] == id;
            if j >= expired_ids(records.drop_last(), now).len() {
                assert(records[records.len() - 1].id == Some(id));
            } else {
                assert(expired_ids(records.drop_last(), now)[j] == id);
            }
        }
    }
}

/// The cleanup sweep removes every stored record whose expiry lies before `now`.
pub proof fn lemma_cleanup_removes_expired(records: Seq<Coupon>, now: i64, k: int)
    requires
        0 <= k < records.len(),
        records[k].id is Some,
        records[k].expired_at(now),
    ensures
        expired_ids(records, now).contains(records[k].id.unwrap()),
    decreases records.len(),
{
    let id = records[k].id.unwrap();
    let prefix = expired_ids(records.drop_last(), now);
    if k == records.len() - 1 {
        assert(expired_ids(records, now) == prefix + seq![id]);
        assert(expired_ids(records, now)[prefix.len() as int] == id);
    } else {
        assert(records.drop_last()[k] == records[k]);
        lemma_cleanup_removes_expired(records.drop_last(), now, k);
        let j = choose|j: int| 0 <= j < prefix.len() && prefix[j] == id;
        let last = records.last();
        let tail: Seq<i64> = if last.expired_at(now) && last.id is Some { seq![last.id.unwrap()] } else { Seq::empty() };
        assert(expired_ids(records, now) == prefix + tail);
        assert(expired_ids(records, now)[j] == id);
    }
}

} // verus!
