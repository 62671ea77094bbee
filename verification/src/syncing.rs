//! Waiting while the remote node is itself still catching up.

use vstd::prelude::*;

verus! {

/// What the remote node says of its own synchronization.
#[derive(Clone, Copy, Debug, PartialEq, Eq, Structural)]
pub enum SyncingStatus {
    Syncing,
    NotSyncing,
}

/// The clocks of the wait, in nanoseconds: when the status was last logged
/// (or the wait began), and when the status was last asked for.
#[derive(Clone, Copy, Debug, PartialEq, Eq, Structural)]
pub struct SyncingGuard {
    pub logged_at: u128,
    pub polled_at: u128,
}

/// What to do after the remote node has answered.
#[derive(Clone, Copy, Debug, PartialEq, Eq, Structural)]
pub enum GuardStep {
    /// The remote node is ready: go on.
    Ready,
    /// The remote node is still syncing: log the status where `log` says so,
    /// wait for `delay` nanoseconds, and ask again.
    Wait { delay: u128, log: bool },
}

/// The time from `since` to `now`, and nothing where `now` is the earlier.
pub open spec fn elapsed(since: u128, now: u128) -> u128 {
    if now >= since {
        (now - since) as u128
    } else {
        0
    }
}

/// What is left of `span` after `spent`, and nothing where more was spent.
pub open spec fn remainder(span: u128, spent: u128) -> u128 {
    if span >= spent {
        (span - spent) as u128
    } else {
        0
    }
}

/// Whether a status that arrives at `now` is logged: more than the log
/// frequency has passed since the last log.
pub open spec fn log_due(guard: SyncingGuard, now: u128, log_frequency: u128) -> bool {
    elapsed(guard.logged_at, now) > log_frequency
}

/// The guard and the step after a status arrived at `now`.
pub open spec fn observed(
    guard: SyncingGuard,
    status: SyncingStatus,
    now: u128,
    call_frequency: u128,
    log_frequency: u128,
) -> (SyncingGuard, GuardStep) {
    match status {
        SyncingStatus::NotSyncing => (guard, GuardStep::Ready),
        SyncingStatus::Syncing => (
            SyncingGuard {
                logged_at: if log_due(guard, now, log_frequency) {
                    now
                } else {
                    guard.logged_at
                },
                polled_at: guard.polled_at,
            },
            GuardStep::Wait {
                delay: remainder(call_frequency, elapsed(guard.polled_at, now)),
                log: log_due(guard, now, log_frequency),
            },
        ),
    }
}

/// The time from `since` to `now`, and nothing where `now` is the earlier.
pub fn time_since(since: u128, now: u128) -> (d: u128)
    ensures
        d == elapsed(since, now),
{
    now.saturating_sub(since)
}

/// What is left of `span` after `spent`, and nothing where more was spent.
pub fn time_left(span: u128, spent: u128) -> (d: u128)
    ensures
        d == remainder(span, spent),
{
    span.saturating_sub(spent)
}

impl SyncingGuard {
    /// A guard whose wait begins at `now`.
    pub fn start(now: u128) -> (guard: Self)
        ensures
            guard == (SyncingGuard { logged_at: now, polled_at: now }),
    {
        SyncingGuard { logged_at: now, polled_at: now }
    }

    /// Notes that the status is asked for again at `now`.
    pub fn polling(self, now: u128) -> (guard: Self)
        ensures
            guard == (SyncingGuard { logged_at: self.logged_at, polled_at: now }),
    {
        SyncingGuard { logged_at: self.logged_at, polled_at: now }
    }

    /// Takes the status that arrived at `now`. A node that is not syncing
    /// ends the wait. One that is syncing is asked again once the call
    /// frequency has passed since the last call, and its status is logged
    /// where more than the log frequency has passed since the last log.
    pub fn observe(
        &mut self,
        status: SyncingStatus,
        now: u128,
        call_frequency: u128,
        log_frequency: u128,
    ) -> (step: GuardStep)
        ensures
            (*final(self), step) == observed(*old(self), status, now, call_frequency, log_frequency),
    {
        match status {
            SyncingStatus::NotSyncing => GuardStep::Ready,
            SyncingStatus::Syncing => {
                let log = time_since(self.logged_at, now) > log_frequency;
                let delay = time_left(call_frequency, time_since(self.polled_at, now));
                if log {
                    self.logged_at = now;
                }
                GuardStep::Wait { delay, log }
            },
        }
    }
}

} // verus!
