//! Graceful shutdown coordination: a count of active handler threads plus a
//! shutdown-requested flag. Once shutdown is requested, the process is meant
//! to terminate at the exact moment the active count drains to zero — not
//! before. The surrounding runtime owns the actual process exit; this module
//! decides, for every counter transition, whether that moment has come.

use vstd::prelude::*;

verus! {

/// Shared shutdown state: how many handler threads are active, and whether a
/// shutdown has been requested. The surrounding runtime guards a value of
/// this type with a lock and calls the transition methods while holding it.
pub struct ShutdownState {
    /// Number of handler threads currently running. Never negative.
    pub threads_running: i64,
    /// True once a shutdown has been requested; never reset.
    pub shutting_down: bool,
}

impl ShutdownState {
    /// The state invariant: the active-thread count is never negative.
    pub open spec fn wf(self) -> bool {
        self.threads_running >= 0
    }

    /// True exactly when applying `diff` to the counter of `self` must
    /// terminate the process: shutdown was requested and the count drains to
    /// exactly zero.
    pub open spec fn terminates_on(self, diff: i64) -> bool {
        self.shutting_down && self.threads_running + diff == 0
    }

    /// A fresh state: no threads running, no shutdown requested.
    pub fn new() -> (r: ShutdownState)
        ensures
            r.threads_running == 0,
            !r.shutting_down,
            r.wf(),
    {
        ShutdownState { threads_running: 0, shutting_down: false }
    }

    /// Applies `diff` to the active-thread count (handlers pass `1` on entry
    /// and `-1` on exit) and reports whether the process must now terminate:
    /// exactly when shutdown was requested and the count has just reached
    /// zero. The caller raises the fatal exit signal when `true` is returned.
    pub fn modify_threads_running(&mut self, diff: i64) -> (terminate: bool)
        requires
            old(self).wf(),
            old(self).threads_running + diff >= 0,
            old(self).threads_running + diff <= i64::MAX,
        ensures
            final(self).threads_running == old(self).threads_running + diff,
            final(self).shutting_down == old(self).shutting_down,
            final(self).wf(),
            terminate == old(self).terminates_on(diff),
    {
        self.threads_running = self.threads_running + diff;
        self.shutting_down && self.threads_running == 0
    }

    /// Requests a shutdown. Idempotent: the flag only ever moves to `true`,
    /// and the thread count is untouched.
    pub fn request_shutdown(&mut self)
        ensures
            final(self).shutting_down,
            final(self).threads_running == old(self).threads_running,
    {
        self.shutting_down = true;
    }

    /// Whether a shutdown has been requested.
    pub fn is_shutting_down(&self) -> (r: bool)
        ensures
            r == self.shutting_down,
    {
        self.shutting_down
    }
}

/// Law: under a requested shutdown, a draining thread's exit (a `-1`
/// transition) terminates the process exactly when it is the last active
/// thread — the counter transitions to zero — and never while other threads
/// are still running. In particular, with several threads draining in any
/// order, only the final exit triggers termination.
pub proof fn lemma_termination_exactly_on_last_exit(s: ShutdownState)
    requires
        s.wf(),
        s.shutting_down,
        s.threads_running >= 1,
    ensures
        s.terminates_on(-1i64) <==> s.threads_running == 1,
{
}

/// Law: before a shutdown has been requested, no counter transition ever
/// terminates the process.
pub proof fn lemma_no_termination_while_running(s: ShutdownState, diff: i64)
    requires
        !s.shutting_down,
    ensures
        !s.terminates_on(diff),
{
}

} // verus!
