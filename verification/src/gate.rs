//! The periodic gate: permits at most one transfer per configured interval.

use vstd::prelude::*;

use crate::submitter::{SubmissionError, TransactionReceipt};

verus! {

/// Default transfer interval in seconds (one day).
pub const TRANSFER_INTERVAL_SECONDS: u64 = 86400;

/// Durable record of when the last successful transfer happened, in seconds
/// since the epoch. The host shell loads it at startup and saves it after a
/// change; when no saved state exists, it defaults to zero, so the very first
/// check is always eligible to run.
#[derive(Clone, Copy, PartialEq, Eq, Structural)]
pub struct SubscriptionState {
    pub last_transfer_time: u64,
}

impl Default for SubscriptionState {
    fn default() -> (r: SubscriptionState)
        ensures
            r.last_transfer_time == 0,
    {
        SubscriptionState { last_transfer_time: 0 }
    }
}

/// Why a gated check produced no confirmed transfer.
#[derive(Debug)]
pub enum GateError {
    /// The interval has not elapsed; no submission was attempted. Not an
    /// error in the domain sense: simply "no action taken".
    NotDue,
    /// The interval had elapsed, a submission was attempted, and it failed;
    /// the underlying error is passed through unchanged.
    Submission(SubmissionError),
}

/// Tracks the last successful transfer and lets a submission go ahead only
/// when the configured interval has elapsed since then.
///
/// One check — evaluate eligibility, then maybe transfer — is split around
/// the submission attempt, which the host shell performs:
/// [`PeriodicGate::begin_check`] decides whether to attempt at all, and
/// [`PeriodicGate::complete_check`] settles the attempt's result, advancing
/// the stored timestamp only on success, so a failed attempt is retried by
/// the very next check.
#[derive(Clone, Copy, PartialEq, Eq, Structural)]
pub struct PeriodicGate {
    pub state: SubscriptionState,
    pub interval: u64,
}

impl PeriodicGate {
    /// The interval has elapsed: a transfer is due to fire at `now`.
    pub open spec fn due(self, now: u64) -> bool {
        now >= self.state.last_transfer_time + self.interval
    }

    /// The state after one full check at `now` whose submission — if a transfer
    /// was due and one was therefore attempted — succeeded iff `ok`.
    /// The timestamp advances exactly for a due, successful check.
    pub open spec fn after_check(self, now: u64, ok: bool) -> PeriodicGate {
        if self.due(now) && ok {
            PeriodicGate { state: SubscriptionState { last_transfer_time: now }, interval: self.interval }
        } else {
            self
        }
    }

    /// A fresh gate with no recorded transfer: due as soon as `interval`
    /// seconds have passed since the epoch.
    pub fn new(interval: u64) -> (r: PeriodicGate)
        ensures
            r.state.last_transfer_time == 0,
            r.interval == interval,
    {
        PeriodicGate { state: SubscriptionState { last_transfer_time: 0 }, interval }
    }

    /// A gate resumed from saved state, as loaded by the host shell.
    pub fn restore(state: SubscriptionState, interval: u64) -> (r: PeriodicGate)
        ensures
            r.state == state,
            r.interval == interval,
    {
        PeriodicGate { state, interval }
    }

    /// Decides whether the interval has elapsed at `now`; when it has not,
    /// the check ends as `GateError::NotDue` with nothing mutated.
    pub fn is_due(&self, now: u64) -> (r: bool)
        ensures
            r == self.due(now),
    {
        now >= self.state.last_transfer_time && now - self.state.last_transfer_time
            >= self.interval
    }

    /// Opens one check: `Ok` says the interval has elapsed and exactly one
    /// submission attempt should follow, to be settled by
    /// [`PeriodicGate::complete_check`]; `GateError::NotDue` ends the check
    /// with nothing attempted and nothing mutated.
    pub fn begin_check(&self, now: u64) -> (r: Result<(), GateError>)
        ensures
            self.due(now) ==> r == Ok::<(), GateError>(()),
            !self.due(now) ==> (r matches Err(e) && e is NotDue),
    {
        if self.is_due(now) {
            Ok(())
        } else {
            Err(GateError::NotDue)
        }
    }

    /// Settles one due check: maps the submission attempt's result into the
    /// gate's result, recording the time of a successful transfer and leaving
    /// the state untouched after a failed one.
    pub fn complete_check(&mut self, now: u64, submitted: Result<
        TransactionReceipt,
        SubmissionError,
    >) -> (r: Result<TransactionReceipt, GateError>)
        requires
            old(self).due(now),
        ensures
            *final(self) == old(self).after_check(now, submitted is Ok),
            submitted matches Ok(t) ==> r == Ok::<TransactionReceipt, GateError>(t),
            submitted matches Err(e) ==> (r matches Err(g) && g matches GateError::Submission(p)
                && p == e),
    {
        match submitted {
            Ok(t) => {
                self.state.last_transfer_time = now;
                Ok(t)
            },
            Err(e) => Err(GateError::Submission(e)),
        }
    }
}

/// Law: after a due check at `t` whose submission succeeded, any check
/// strictly inside the following interval — at `t + interval - 1`, say — is
/// not due, and completes without touching the stored timestamp, whatever its
/// submission would have returned.
pub proof fn lemma_early_second_check_not_due(g: PeriodicGate, t: u64, t2: u64, ok2: bool)
    requires
        g.due(t),
        t2 < t + g.interval,
    ensures
        g.after_check(t, true).state.last_transfer_time == t,
        !g.after_check(t, true).due(t2),
        g.after_check(t, true).after_check(t2, ok2) == g.after_check(t, true),
{
}

/// Law: after a due check at `t` whose submission succeeded, a check one full
/// interval later is due again, and its own success moves the stored
/// timestamp to `t + interval`.
pub proof fn lemma_due_again_after_interval(g: PeriodicGate, t: u64, t2: u64)
    requires
        g.due(t),
        t2 == t + g.interval,
    ensures
        g.after_check(t, true).due(t2),
        g.after_check(t, true).after_check(t2, true).state.last_transfer_time == t2,
{
}

/// Law: a check whose submission failed leaves `PeriodicGate` exactly as it was,
/// so a transfer that was due stays due at the same nominal trigger time.
pub proof fn lemma_failed_check_leaves_gate_due(g: PeriodicGate, t: u64)
    ensures
        g.after_check(t, false) == g,
        g.due(t) ==> g.after_check(t, false).due(t),
{
}

} // verus!
