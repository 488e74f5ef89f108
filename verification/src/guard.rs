//! The job state guard: the process-wide flag that admits at most one active
//! job, and the cancellation token that every long-running loop polls. Both
//! live in one structure so that acquiring the guard and resetting a stale
//! cancellation signal from the previous job form a single step.

use vstd::prelude::*;

verus! {

/// Shared coordination state for the one job a process may run at a time:
/// whether a job is active, and whether its cancellation has been requested.
/// Callers that share it across threads wrap it in their own lock; every
/// transition here is a single call, so the critical sections stay atomic.
#[derive(Debug)]
pub struct ConversionState {
    pub is_converting: bool,
    pub cancel_flag: bool,
}

/// Guard acquisition as a transition: fails and changes nothing while a job
/// is active; otherwise activates the guard and clears any stale cancellation
/// signal in the same step.
pub open spec fn spec_try_acquire(s: ConversionState) -> (ConversionState, bool) {
    if s.is_converting {
        (s, false)
    } else {
        (ConversionState { is_converting: true, cancel_flag: false }, true)
    }
}

/// Guard release as a transition: clears the active flag and nothing else;
/// releasing an inactive guard is harmless.
pub open spec fn spec_release(s: ConversionState) -> ConversionState {
    ConversionState { is_converting: false, ..s }
}

impl ConversionState {
    /// A fresh coordinator: no job active, no cancellation requested.
    pub fn new() -> (r: ConversionState)
        ensures
            !r.is_converting,
            !r.cancel_flag,
    {
        ConversionState { is_converting: false, cancel_flag: false }
    }

    /// Try to start a job: succeeds exactly when no job is active, and then
    /// marks the guard active and resets the cancellation token as one step.
    /// A failed attempt leaves the running job's state untouched.
    pub fn try_acquire(&mut self) -> (r: bool)
        ensures
            (*final(self), r) == spec_try_acquire(*old(self)),
            r == !old(self).is_converting,
    {
        if self.is_converting {
            false
        } else {
            self.is_converting = true;
            self.cancel_flag = false;
            true
        }
    }

    /// End the job, whatever its outcome. Idempotent, and safe on cleanup
    /// paths that never acquired the guard.
    pub fn release(&mut self)
        ensures
            *final(self) == spec_release(*old(self)),
            !final(self).is_converting,
    {
        self.is_converting = false;
    }

    /// Request cancellation of the running job. The token only ever flips
    /// towards cancelled; it is reset only by the next acquisition.
    pub fn request_cancel(&mut self)
        ensures
            final(self).cancel_flag,
            final(self).is_converting == old(self).is_converting,
    {
        self.cancel_flag = true;
    }

    /// Observe the cancellation token without blocking.
    pub fn is_cancel_requested(&self) -> (r: bool)
        ensures
            r == self.cancel_flag,
    {
        self.cancel_flag
    }
}

impl Default for ConversionState {
    /// Same fresh state as `new`.
    fn default() -> (r: ConversionState)
        ensures
            !r.is_converting,
            !r.cancel_flag,
    {
        ConversionState::new()
    }
}

/// Mutual exclusion of jobs: from an idle state one acquisition succeeds, a
/// second attempt while the first job is active is rejected and alters
/// nothing about that job's state, and once the job ends (its guard is
/// released, by any outcome) a subsequent acquisition succeeds again.
pub proof fn lemma_guard_mutual_exclusion(s: ConversionState)
    requires
        !s.is_converting,
    ensures
        ({
            let (active, ok1) = spec_try_acquire(s);
            let (after_second, ok2) = spec_try_acquire(active);
            let (reacquired, ok3) = spec_try_acquire(spec_release(active));
            ok1 && !ok2 && after_second == active && ok3
        }),
{
}

} // verus!
