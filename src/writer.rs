//! The atomic write of one version range: a first attempt, and on its failure
//! one retry with sanitized batches.
use vstd::prelude::*;

use crate::batches::{sanitized_from, EntityBatches};

verus! {

/// Why an atomic write did not commit, as the store reported it.
pub struct StorageError {
    pub message: String,
}

/// Which attempt a pending write is at.
#[derive(Debug, Clone, Copy, PartialEq, Eq, Structural)]
pub enum Attempt {
    /// The batches as built.
    Initial,
    /// The batches after the first attempt failed and they were sanitized.
    Sanitized,
}

/// Where an atomic write stands.
pub enum WritePhase {
    /// The batches are to be written, at this attempt.
    Pending(Attempt),
    /// An attempt committed.
    Committed,
    /// Both attempts failed; the error is the retry's.
    Failed(StorageError),
}

/// The phase that follows `p` when its attempt ends with `outcome`.
pub open spec fn next_phase(p: WritePhase, outcome: Result<(), StorageError>) -> WritePhase {
    match (p, outcome) {
        (WritePhase::Pending(_), Ok(())) => WritePhase::Committed,
        (WritePhase::Pending(Attempt::Initial), Err(_)) => WritePhase::Pending(Attempt::Sanitized),
        (WritePhase::Pending(Attempt::Sanitized), Err(e)) => WritePhase::Failed(e),
        _ => p,
    }
}

/// The atomic write of all entity batches of one version range.
pub struct AtomicWrite {
    /// What the next attempt writes.
    pub batches: EntityBatches,
    pub phase: WritePhase,
    /// The attempts that have ended so far.
    pub attempts: u8,
}

impl AtomicWrite {
    /// The attempt count matches the phase: none before the first attempt,
    /// one before the retry, one or two once done.
    pub open spec fn wf(&self) -> bool {
        match self.phase {
            WritePhase::Pending(Attempt::Initial) => self.attempts == 0,
            WritePhase::Pending(Attempt::Sanitized) => self.attempts == 1,
            _ => 1 <= self.attempts <= 2,
        }
    }

    /// A write of `batches`, before its first attempt.
    pub fn new(batches: EntityBatches) -> (w: AtomicWrite)
        ensures
            w.wf(),
            w.phase == WritePhase::Pending(Attempt::Initial),
            w.batches == batches,
    {
        AtomicWrite { batches, phase: WritePhase::Pending(Attempt::Initial), attempts: 0 }
    }

    /// Whether an attempt is still to be made.
    pub fn is_pending(&self) -> (r: bool)
        ensures
            r == self.phase is Pending,
    {
        match self.phase {
            WritePhase::Pending(_) => true,
            _ => false,
        }
    }

    /// Takes in how the current attempt ended. A failed first attempt
    /// sanitizes every batch for the retry; a failed retry is final.
    pub fn record_outcome(&mut self, outcome: Result<(), StorageError>)
        requires
            old(self).wf(),
            old(self).phase is Pending,
        ensures
            final(self).wf(),
            final(self).attempts == old(self).attempts + 1,
            final(self).phase == next_phase(old(self).phase, outcome),
            old(self).phase == WritePhase::Pending(Attempt::Initial) && outcome is Err ==> sanitized_from(
                old(self).batches,
                final(self).batches,
            ),
            !(old(self).phase == WritePhase::Pending(Attempt::Initial) && outcome is Err)
                ==> final(self).batches == old(self).batches,
    {
        let initial = match self.phase {
            WritePhase::Pending(Attempt::Initial) => true,
            _ => false,
        };
        self.attempts = self.attempts + 1;
        match outcome {
            Ok(()) => {
                self.phase = WritePhase::Committed;
            },
            Err(e) => {
                if initial {
                    self.batches = self.batches.sanitized();
                    self.phase = WritePhase::Pending(Attempt::Sanitized);
                } else {
                    self.phase = WritePhase::Failed(e);
                }
            },
        }
    }
}

/// The phase reached from `p` by feeding `outcomes` in order while an attempt
/// is pending, with the number of attempts that ended.
pub open spec fn run_attempts(p: WritePhase, outcomes: Seq<Result<(), StorageError>>) -> (
    WritePhase,
    nat,
)
    decreases outcomes.len(),
{
    if outcomes.len() == 0 || !(p is Pending) {
        (p, 0)
    } else {
        let (q, n) = run_attempts(next_phase(p, outcomes[0]), outcomes.drop_first());
        (q, n + 1)
    }
}

/// The retry bound: whatever the store answers, a write makes at most two
/// attempts, and once two have ended it is committed or failed; it fails only
/// when the sanitized retry failed too, with that retry's error.
pub proof fn lemma_at_most_one_retry(outcomes: Seq<Result<(), StorageError>>)
    ensures
        run_attempts(WritePhase::Pending(Attempt::Initial), outcomes).1 <= 2,
        outcomes.len() >= 2 ==> !(run_attempts(WritePhase::Pending(Attempt::Initial), outcomes).0 is Pending),
        run_attempts(WritePhase::Pending(Attempt::Initial), outcomes).0 matches WritePhase::Failed(e)
            ==> outcomes.len() >= 2 && outcomes[0] is Err && outcomes[1] == Err::<(), StorageError>(e),
{
    let p0 = WritePhase::Pending(Attempt::Initial);
    if outcomes.len() > 0 {
        let p1 = next_phase(p0, outcomes[0]);
        let rest = outcomes.drop_first();
        if rest.len() > 0 && p1 is Pending {
            let p2 = next_phase(p1, rest[0]);
            assert(!(p2 is Pending));
            assert(run_attempts(p2, rest.drop_first()) == (p2, 0nat));
            assert(run_attempts(p1, rest) == (p2, 1nat));
            assert(outcomes[1] == rest[0]);
        } else {
            assert(run_attempts(p1, rest) == (p1, 0nat));
        }
        assert(run_attempts(p0, outcomes).1 == run_attempts(p1, rest).1 + 1);
        assert(run_attempts(p0, outcomes).0 == run_attempts(p1, rest).0);
    }
}

} // verus!
