//! The retry budget of one processing unit.
//!
//! A unit tries to process its log, and tries again after each failure
//! until it succeeds or has used up its retries. [`Attempts`] keeps the
//! count and says after each attempt what follows; the unit makes the
//! attempts and does the waiting.

use vstd::prelude::*;

verus! {

/// Where a unit stands.
#[derive(Clone, Copy, Debug, PartialEq, Eq, Structural)]
pub enum Progress {
    /// An attempt is due; `failures` attempts have failed so far.
    Trying { failures: u32 },
    /// An attempt succeeded.
    Succeeded,
    /// The first attempt and every retry failed.
    Exhausted,
}

/// What follows an attempt.
#[derive(Clone, Copy, Debug, PartialEq, Eq, Structural)]
pub enum Verdict {
    /// The log is processed; nothing follows.
    Done,
    /// Wait `after` milliseconds, then try again.
    Retry { after: u64 },
    /// Report the log as failed; nothing follows.
    GiveUp,
}

/// The budget of one unit and how much of it is used.
#[derive(Clone, Copy, Debug, PartialEq, Eq, Structural)]
pub struct Attempts {
    /// How many times a failed attempt is repeated.
    pub retries: u32,
    /// Milliseconds to wait before each repetition.
    pub interval: u64,
    /// Where the unit stands.
    pub progress: Progress,
}

/// The budget before the first attempt.
pub open spec fn fresh(retries: u32, interval: u64) -> Attempts {
    Attempts { retries, interval, progress: Progress::Trying { failures: 0 } }
}

/// The budget after one more attempt and the verdict on it. A success ends
/// the unit. A failure is followed by a retry as long as fewer than
/// `retries` retries were granted, and ends the unit otherwise. Once the
/// unit has ended, nothing changes and the verdict is repeated.
pub open spec fn after_attempt(attempts: Attempts, succeeded: bool) -> (Attempts, Verdict) {
    match attempts.progress {
        Progress::Trying { failures } => {
            if succeeded {
                (Attempts { progress: Progress::Succeeded, ..attempts }, Verdict::Done)
            } else if failures < attempts.retries {
                (
                    Attempts {
                        progress: Progress::Trying { failures: (failures + 1) as u32 },
                        ..attempts
                    },
                    Verdict::Retry { after: attempts.interval },
                )
            } else {
                (Attempts { progress: Progress::Exhausted, ..attempts }, Verdict::GiveUp)
            }
        },
        Progress::Succeeded => (attempts, Verdict::Done),
        Progress::Exhausted => (attempts, Verdict::GiveUp),
    }
}

/// The budget after the attempts whose results `outcomes` lists, in order.
pub open spec fn after_attempts(attempts: Attempts, outcomes: Seq<bool>) -> Attempts
    decreases outcomes.len(),
{
    if outcomes.len() == 0 {
        attempts
    } else {
        after_attempt(after_attempts(attempts, outcomes.drop_last()), outcomes.last()).0
    }
}

/// The verdict on the attempt at position `i` of `outcomes`.
pub open spec fn verdict_at(attempts: Attempts, outcomes: Seq<bool>, i: int) -> Verdict
    recommends
        0 <= i < outcomes.len(),
{
    after_attempt(after_attempts(attempts, outcomes.take(i)), outcomes[i]).1
}

/// Whether every attempt of `outcomes` failed.
pub open spec fn all_failed(outcomes: Seq<bool>) -> bool {
    forall|j: int| 0 <= j < outcomes.len() ==> !#[trigger] outcomes[j]
}

impl Attempts {
    /// The budget of a unit that may retry `retries` times, `interval`
    /// milliseconds apart, before its first attempt.
    pub fn new(retries: u32, interval: u64) -> (attempts: Attempts)
        ensures
            attempts == fresh(retries, interval),
    {
        Attempts { retries, interval, progress: Progress::Trying { failures: 0 } }
    }

    /// Whether another attempt is due.
    pub fn is_trying(&self) -> (trying: bool)
        ensures
            trying == (self.progress is Trying),
    {
        match self.progress {
            Progress::Trying { .. } => true,
            _ => false,
        }
    }

    /// Records the result of one attempt and returns what follows it.
    pub fn record(&mut self, succeeded: bool) -> (verdict: Verdict)
        ensures
            (*final(self), verdict) == after_attempt(*old(self), succeeded),
    {
        match self.progress {
            Progress::Trying { failures } => {
                if succeeded {
                    self.progress = Progress::Succeeded;
                    Verdict::Done
                } else if failures < self.retries {
                    self.progress = Progress::Trying { failures: failures + 1 };
                    Verdict::Retry { after: self.interval }
                } else {
                    self.progress = Progress::Exhausted;
                    Verdict::GiveUp
                }
            },
            Progress::Succeeded => Verdict::Done,
            Progress::Exhausted => Verdict::GiveUp,
        }
    }
}

/// After `outcomes`, all of them failures and no more than the retries
/// allow, the unit is still trying and has counted each of them.
pub proof fn lemma_failures_counted(retries: u32, interval: u64, outcomes: Seq<bool>)
    requires
        all_failed(outcomes),
        outcomes.len() <= retries,
    ensures
        after_attempts(fresh(retries, interval), outcomes) == (Attempts {
            retries,
            interval,
            progress: Progress::Trying { failures: outcomes.len() as u32 },
        }),
    decreases outcomes.len(),
{
    if outcomes.len() > 0 {
        let before = outcomes.drop_last();
        assert forall|j: int| 0 <= j < before.len() implies !#[trigger] before[j] by {
            assert(before[j] == outcomes[j]);
        }
        lemma_failures_counted(retries, interval, before);
        assert(!outcomes[outcomes.len() - 1]);
    }
}

/// A unit that is still trying has only failed so far, and no more often
/// than its retries allow.
pub proof fn lemma_trying(retries: u32, interval: u64, outcomes: Seq<bool>)
    ensures
        after_attempts(fresh(retries, interval), outcomes).progress is Trying ==> all_failed(
            outcomes,
        ) && outcomes.len() <= retries,
        after_attempts(fresh(retries, interval), outcomes).retries == retries,
        after_attempts(fresh(retries, interval), outcomes).interval == interval,
    decreases outcomes.len(),
{
    if outcomes.len() > 0 {
        let before = outcomes.drop_last();
        lemma_trying(retries, interval, before);
        if after_attempts(fresh(retries, interval), outcomes).progress is Trying {
            lemma_failures_counted(retries, interval, before);
            assert forall|j: int| 0 <= j < outcomes.len() implies !#[trigger] outcomes[j] by {
                if j < before.len() {
                    assert(before[j] == outcomes[j]);
                }
            }
        }
    }
}

/// A log is attempted at most once more than it may be retried.
///
/// Whatever the results, a unit with `retries` retries that is asked for a
/// further attempt has made at most `retries` attempts before, all of them
/// failures: counting the one that is due, no more than `retries + 1`
/// attempts are ever made.
pub proof fn theorem_attempts_are_bounded(retries: u32, interval: u64, outcomes: Seq<bool>)
    requires
        after_attempts(fresh(retries, interval), outcomes).progress is Trying,
    ensures
        outcomes.len() + 1 <= retries + 1,
        all_failed(outcomes),
{
    lemma_trying(retries, interval, outcomes);
}

/// Every retry waits for the configured interval.
///
/// Whatever the results, a verdict that asks for a retry asks to wait
/// exactly `interval` milliseconds first, so that two attempts on one log
/// are never less than the interval apart.
pub proof fn theorem_retries_are_spaced(retries: u32, interval: u64, outcomes: Seq<bool>, i: int)
    requires
        0 <= i < outcomes.len(),
        verdict_at(fresh(retries, interval), outcomes, i) is Retry,
    ensures
        verdict_at(fresh(retries, interval), outcomes, i) == (Verdict::Retry { after: interval }),
{
    lemma_trying(retries, interval, outcomes.take(i));
}

/// A log that keeps failing is given up after the last retry.
///
/// While every attempt fails, each of the first `retries` failures is
/// answered by a retry after `interval` milliseconds, the failure of
/// attempt `retries + 1` by giving up, and every later report likewise:
/// nothing further is done for the log.
pub proof fn theorem_persistent_failure(retries: u32, interval: u64, outcomes: Seq<bool>, i: int)
    requires
        all_failed(outcomes),
        0 <= i < outcomes.len(),
    ensures
        verdict_at(fresh(retries, interval), outcomes, i) == (if i < retries {
            Verdict::Retry { after: interval }
        } else {
            Verdict::GiveUp
        }),
    decreases i,
{
    let before = outcomes.take(i);
    assert forall|j: int| 0 <= j < before.len() implies !#[trigger] before[j] by {
        assert(before[j] == outcomes[j]);
    }
    if i <= retries {
        lemma_failures_counted(retries, interval, before);
    } else {
        theorem_persistent_failure(retries, interval, outcomes, i - 1);
        assert(before.drop_last() == outcomes.take(i - 1));
        assert(before.last() == outcomes[i - 1]);
        lemma_trying(retries, interval, outcomes.take(i - 1));
    }
}

} // verus!
