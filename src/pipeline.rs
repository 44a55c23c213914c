use crate::models::{Coupon, ValidationResult};
use vstd::prelude::*;

verus! {

/// How a candidate's processing ended.
#[derive(Debug, Clone, Copy, PartialEq, Eq, Structural)]
pub enum Finish {
    /// Its fingerprint was already stored; nothing else was done.
    DedupedOut,
    /// Stored and judged invalid; not announced.
    Invalid,
    /// Stored, valid, announced and marked posted.
    Posted,
    /// Stored and valid, but the announcement failed; a later cycle may retry it.
    ValidUnposted,
    /// A store or validator call failed; the candidate was skipped.
    Failed,
}

/// Where a candidate stands: which answer it waits for, or how it ended.
#[derive(Debug, Clone, Copy, PartialEq, Eq, Structural)]
pub enum Stage {
    AwaitingExistence,
    AwaitingInsert,
    AwaitingValidation { id: i64 },
    AwaitingStatusUpdate { id: i64, is_valid: bool, validated_at: i64 },
    AwaitingNotification { id: i64 },
    AwaitingMarkPosted { id: i64 },
    Finished(Finish),
}

/// The answer to the last action, reported by whoever performed it.
#[derive(Debug, Clone)]
pub enum Event {
    /// Whether a record with the fingerprint is stored.
    ExistenceChecked(bool),
    /// The record was stored under this identity.
    Inserted(i64),
    /// The validator's outcome.
    Validated(ValidationResult),
    /// The validation status was written.
    StatusUpdated,
    /// The announcement was delivered.
    Notified,
    /// The posted flag was written.
    MarkedPosted,
    /// The requested call failed.
    Failed,
}

/// What the caller must do next for a candidate.
#[derive(Debug, Clone)]
pub enum Action {
    /// Ask the store whether a record with this fingerprint exists.
    CheckExists(String),
    /// Store this record and report its identity.
    Insert(Coupon),
    /// Validate this stored record.
    Validate(Coupon),
    /// Record the validation outcome of a stored record.
    UpdateValidation { id: i64, is_valid: bool, validated_at: i64 },
    /// Announce this validated record.
    Notify(Coupon),
    /// Set the posted flag of a stored record.
    MarkPosted(i64),
    /// Nothing: the candidate is finished.
    Nothing,
}

/// The record as first stored: pending validation, not posted.
pub open spec fn pending(c: Coupon) -> Coupon {
    Coupon { id: None, is_valid: false, is_posted: false, validated_at: None, ..c }
}

/// The stored record with its identity.
pub open spec fn stored(c: Coupon, id: i64) -> Coupon {
    Coupon { id: Some(id), ..pending(c) }
}

/// The stored record after a successful validation at `at`.
pub open spec fn announced(c: Coupon, id: i64, at: i64) -> Coupon {
    Coupon { id: Some(id), is_valid: true, validated_at: Some(at), ..pending(c) }
}

/// The transition of candidate `c` from `stage` on `event`: the next stage and
/// the action to perform. An answer that does not fit the stage finishes the
/// candidate as failed; a failed announcement leaves it valid and unposted.
pub open spec fn transition(c: Coupon, stage: Stage, event: Event) -> (Stage, Action) {
    let fail = (Stage::Finished(Finish::Failed), Action::Nothing);
    match stage {
        Stage::AwaitingExistence => match event {
            Event::ExistenceChecked(exists) => if exists {
                (Stage::Finished(Finish::DedupedOut), Action::Nothing)
            } else {
                (Stage::AwaitingInsert, Action::Insert(pending(c)))
            },
            _ => fail,
        },
        Stage::AwaitingInsert => match event {
            Event::Inserted(id) => (Stage::AwaitingValidation { id }, Action::Validate(stored(c, id))),
            _ => fail,
        },
        Stage::AwaitingValidation { id } => match event {
            Event::Validated(v) => (
                Stage::AwaitingStatusUpdate { id, is_valid: v.is_valid, validated_at: v.validated_at },
                Action::UpdateValidation { id, is_valid: v.is_valid, validated_at: v.validated_at },
            ),
            _ => fail,
        },
        Stage::AwaitingStatusUpdate { id, is_valid, validated_at } => match event {
            Event::StatusUpdated => if is_valid {
                (Stage::AwaitingNotification { id }, Action::Notify(announced(c, id, validated_at)))
            } else {
                (Stage::Finished(Finish::Invalid), Action::Nothing)
            },
            _ => fail,
        },
        Stage::AwaitingNotification { id } => match event {
            Event::Notified => (Stage::AwaitingMarkPosted { id }, Action::MarkPosted(id)),
            _ => (Stage::Finished(Finish::ValidUnposted), Action::Nothing),
        },
        Stage::AwaitingMarkPosted { id } => match event {
            Event::MarkedPosted => (Stage::Finished(Finish::Posted), Action::Nothing),
            _ => fail,
        },
        Stage::Finished(f) => (Stage::Finished(f), Action::Nothing),
    }
}

/// A copy of `c` with the given identity and validation state, not posted.
fn record_copy(c: &Coupon, id: Option<i64>, is_valid: bool, validated_at: Option<i64>) -> (r: Coupon)
    ensures
        r == (Coupon { id, is_valid, validated_at, is_posted: false, ..*c }),
{
    Coupon {
        id,
        name: c.name.clone(),
        description: c.description.clone(),
        discount_percentage: c.discount_percentage,
        code: c.code.clone(),
        url: c.url.clone(),
        source: c.source.clone(),
        expiry: c.expiry,
        created_at: c.created_at,
        validated_at,
        is_valid,
        is_posted: false,
        hash: c.hash.clone(),
    }
}

/// One candidate on its way through deduplication, storage, validation and
/// announcement.
pub struct CandidateRun {
    pub coupon: Coupon,
    pub stage: Stage,
}

impl CandidateRun {
    /// Starts processing a collected candidate: the first action asks the
    /// store whether its fingerprint is already known.
    pub fn start(coupon: Coupon) -> (r: (CandidateRun, Action))
        ensures
            r.0.coupon == coupon,
            r.0.stage == Stage::AwaitingExistence,
            r.1 == Action::CheckExists(coupon.hash),
    {
        let check = Action::CheckExists(coupon.hash.clone());
        (CandidateRun { coupon, stage: Stage::AwaitingExistence }, check)
    }

    /// Whether the candidate has reached a final stage.
    pub fn is_finished(&self) -> (r: bool)
        ensures
            r == (self.stage is Finished),
    {
        match self.stage {
            Stage::Finished(_) => true,
            _ => false,
        }
    }

    /// Takes the answer to the last action and returns the next action.
    pub fn advance(&mut self, event: Event) -> (a: Action)
        ensures
            final(self).coupon == old(self).coupon,
            (final(self).stage, a) == transition(old(self).coupon, old(self).stage, event),
    {
        let (stage, action) = match self.stage {
            Stage::AwaitingExistence => match event {
                Event::ExistenceChecked(exists) => if exists {
                    (Stage::Finished(Finish::DedupedOut), Action::Nothing)
                } else {
                    (Stage::AwaitingInsert, Action::Insert(record_copy(&self.coupon, None, false, None)))
                },
                _ => (Stage::Finished(Finish::Failed), Action::Nothing),
            },
            Stage::AwaitingInsert => match event {
                Event::Inserted(id) => (
                    Stage::AwaitingValidation { id },
                    Action::Validate(record_copy(&self.coupon, Some(id), false, None)),
                ),
                _ => (Stage::Finished(Finish::Failed), Action::Nothing),
            },
            Stage::AwaitingValidation { id } => match event {
                Event::Validated(v) => (
                    Stage::AwaitingStatusUpdate { id, is_valid: v.is_valid, validated_at: v.validated_at },
                    Action::UpdateValidation { id, is_valid: v.is_valid, validated_at: v.validated_at },
                ),
                _ => (Stage::Finished(Finish::Failed), Action::Nothing),
            },
            Stage::AwaitingStatusUpdate { id, is_valid, validated_at } => match event {
                Event::StatusUpdated => if is_valid {
                    (
                        Stage::AwaitingNotification { id },
                        Action::Notify(record_copy(&self.coupon, Some(id), true, Some(validated_at))),
                    )
                } else {
                    (Stage::Finished(Finish::Invalid), Action::Nothing)
                },
                _ => (Stage::Finished(Finish::Failed), Action::Nothing),
            },
            Stage::AwaitingNotification { id } => match event {
                Event::Notified => (Stage::AwaitingMarkPosted { id }, Action::MarkPosted(id)),
                _ => (Stage::Finished(Finish::ValidUnposted), Action::Nothing),
            },
            Stage::AwaitingMarkPosted { id } => match event {
                Event::MarkedPosted => (Stage::Finished(Finish::Posted), Action::Nothing),
                _ => (Stage::Finished(Finish::Failed), Action::Nothing),
            },
            Stage::Finished(f) => (Stage::Finished(f), Action::Nothing),
        };
        self.stage = stage;
        action
    }
}


/// The candidates of a batch: the results of every successful collector,
/// concatenated in collector order; failed collectors contribute nothing.
pub open spec fn batch_candidates(results: Seq<Result<Vec<Coupon>, String>>) -> Seq<Coupon>
    decreases results.len(),
{
    if results.len() == 0 {
        Seq::empty()
    } else {
        batch_candidates(results.drop_last()) + match results.last() {
            Ok(v) => v@,
            Err(_) => Seq::empty(),
        }
    }
}

/// The positions of the failed collectors, in order.
pub open spec fn failed_collectors(results: Seq<Result<Vec<Coupon>, String>>) -> Seq<usize>
    decreases results.len(),
{
    if results.len() == 0 {
        Seq::empty()
    } else {
        failed_collectors(results.drop_last()) + if results.last() is Err {
            seq![(results.len() - 1) as usize]
        } else {
            Seq::empty()
        }
    }
}

/// Gathers a batch from the collectors' results (one per collector, in
/// registration order). Returns the concatenated candidates and the positions
/// of the collectors that failed; a failure never stops the others.
pub fn collect_batch(results: Vec<Result<Vec<Coupon>, String>>) -> (r: (Vec<Coupon>, Vec<usize>))
    ensures
        r.0@ == batch_candidates(results@),
        r.1@ == failed_collectors(results@),
{
    let ghost all = results@;
    let n = results.len();
    let mut rest = results;
    let mut candidates: Vec<Coupon> = Vec::new();
    let mut failures: Vec<usize> = Vec::new();
    let mut i: usize = 0;
    while i < n
        invariant
            n == all.len(),
            i <= n,
            rest@ == all.subrange(i as int, n as int),
            candidates@ == batch_candidates(all.subrange(0, i as int)),
            failures@ == failed_collectors(all.subrange(0, i as int)),
        decreases n - i,
    {
        let result = rest.remove(0);
        proof {
            let prefix = all.subrange(0, i as int + 1);
            assert(prefix.drop_last() =~= all.subrange(0, i as int));
            assert(prefix.last() == all[i as int]);
        }
        match result {
            Ok(mut found) => {
                candidates.append(&mut found);
            },
            Err(_) => {
                failures.push(i);
            },
        }
        i = i + 1;
        proof {
            assert(rest@ =~= all.subrange(i as int, n as int));
        }
    }
    proof {
        assert(all.subrange(0, n as int) =~= all);
    }
    (candidates, failures)
}

/// Batch resilience: when a collector fails, the batch still holds every
/// candidate of the collectors before and after it, in order, and the failure
/// is reported by position.
pub proof fn lemma_batch_skips_only_failures(
    before: Seq<Result<Vec<Coupon>, String>>,
    error: String,
    after: Seq<Result<Vec<Coupon>, String>>,
)
    ensures
        batch_candidates(before + seq![Err(error)] + after)
            == batch_candidates(before) + batch_candidates(after),
        failed_collectors(before + seq![Err(error)] + after).contains(before.len() as usize),
    decreases after.len(),
{
    let whole = before + seq![Err(error)] + after;
    if after.len() == 0 {
        assert(whole.drop_last() =~= before);
        assert(after =~= Seq::<Result<Vec<Coupon>, String>>::empty());
        assert(batch_candidates(after) =~= Seq::<Coupon>::empty());
        assert(batch_candidates(whole) =~= batch_candidates(before));
        assert(failed_collectors(whole).last() == before.len() as usize);
    } else {
        lemma_batch_skips_only_failures(before, error, after.drop_last());
        assert(whole.drop_last() =~= before + seq![Err(error)] + after.drop_last());
        assert(whole.last() == after.last());
        assert(batch_candidates(whole) =~= batch_candidates(before) + batch_candidates(after));
        let f = failed_collectors(whole.drop_last());
        assert(f.contains(before.len() as usize));
        let k = choose|k: int| 0 <= k < f.len() && f[k] == before.len() as usize;
        assert(failed_collectors(whole)[k] == before.len() as usize);
    }
}

} // verus!
