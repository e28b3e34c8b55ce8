//! Bounded polling: the decisions of a loop that checks a condition, sleeps
//! between checks, and gives up after a fixed number of checks.
use vstd::prelude::*;

use crate::err::DError;

verus! {

/// What the polling loop does after a check.
#[derive(Debug, Clone, Copy, PartialEq, Eq)]
pub enum PollStep {
    /// Sleep this many milliseconds, then check again.
    Sleep(u64),
    /// Stop: `Ok` when the condition held, `Err(Timeout)` when the budget
    /// of checks is spent.
    Done(Result<(), DError>),
}

/// The state of a bounded poll: checks made so far, the most checks
/// allowed, and the pause between two checks.
#[derive(Debug, Clone, Copy, PartialEq, Eq)]
pub struct Poll {
    tries: usize,
    limit: usize,
    interval_ms: u64,
}

/// The step taken after a check that found the condition `ready`, when
/// `tries` checks have failed before it out of `limit`: success when the
/// condition holds, a sleep after every failed check within the budget,
/// and `Timeout` once `limit` checks have failed.
pub open spec fn poll_step(tries: usize, limit: usize, interval_ms: u64, ready: bool) -> PollStep {
    if tries >= limit {
        PollStep::Done(Err(DError::Timeout))
    } else if ready {
        PollStep::Done(Ok(()))
    } else {
        PollStep::Sleep(interval_ms)
    }
}

impl Poll {
    pub closed spec fn tries(self) -> usize {
        self.tries
    }

    pub closed spec fn limit(self) -> usize {
        self.limit
    }

    pub closed spec fn interval_ms(self) -> u64 {
        self.interval_ms
    }

    /// A poll allowing `limit` checks, `interval_ms` apart.
    pub fn new(limit: usize, interval_ms: u64) -> (r: Self)
        ensures
            r.tries() == 0,
            r.limit() == limit,
            r.interval_ms() == interval_ms,
    {
        Poll { tries: 0, limit, interval_ms }
    }

    /// Records one check whose outcome is `ready` and says what to do next.
    pub fn step(&mut self, ready: bool) -> (r: PollStep)
        ensures
            r == poll_step(old(self).tries(), old(self).limit(), old(self).interval_ms(), ready),
            final(self).limit() == old(self).limit(),
            final(self).interval_ms() == old(self).interval_ms(),
            final(self).tries() == if old(self).tries() < old(self).limit() && !ready {
                old(self).tries() + 1
            } else {
                old(self).tries() as int
            },
    {
        if self.tries >= self.limit {
            return PollStep::Done(Err(DError::Timeout));
        }
        if ready {
            return PollStep::Done(Ok(()));
        }
        self.tries = self.tries + 1;
        PollStep::Sleep(self.interval_ms)
    }

    /// Whether the budget of checks is spent: the loop must stop with
    /// `Timeout` without checking again.
    pub fn exhausted(&self) -> (r: bool)
        ensures
            r == (self.tries() >= self.limit()),
    {
        self.tries >= self.limit
    }
}

/// A condition that never holds runs a fresh poll of `limit` checks
/// through `limit` sleeps of its interval, one after each failed check,
/// and then `Timeout`: after `k` failed checks the poll has counted `k`,
/// each of the first `limit` failed checks sleeps, and once `limit` checks
/// have failed the poll is exhausted and gives `Timeout`.
pub proof fn lemma_never_ready_times_out(limit: usize, interval_ms: u64)
    ensures
        forall|k: usize|
            k < limit ==> #[trigger] poll_step(k, limit, interval_ms, false) == PollStep::Sleep(
                interval_ms,
            ),
        forall|ready: bool|
            #[trigger] poll_step(limit, limit, interval_ms, ready) == PollStep::Done(
                Err(DError::Timeout),
            ),
{
}

/// A check that finds the condition before the budget is spent ends the
/// poll with success.
pub proof fn lemma_ready_succeeds(tries: usize, limit: usize, interval_ms: u64)
    requires
        tries < limit,
    ensures
        poll_step(tries, limit, interval_ms, true) == PollStep::Done(Ok(())),
{
}

} // verus!
