//! The retry loop around a camera's sessions, as a step function: given how
//! the last session ended, what to do before the next one starts.

use crate::camera::session::RecordingSessionOutcome;
use crate::state::{after_disconnect, ServiceState};
use vstd::arithmetic::power2::{lemma2_to64, lemma_pow2_unfold, pow2};
use vstd::prelude::*;

verus! {

/// Consecutive failures at which the retry state starts over.
pub const FAILURE_CEILING: u32 = 5;

/// Seconds waited after the first failure of a run.
pub const INITIAL_BACKOFF_SECS: u64 = 1;

/// Seconds that a wait never exceeds.
pub const MAX_BACKOFF_SECS: u64 = 60;

/// What the supervisor does before it starts the next session.
#[derive(Debug, Clone, Copy, PartialEq, Eq, Structural)]
pub enum SupervisorAction {
    /// The session ended cleanly: start the next one at once.
    Relaunch,
    /// The session failed: wait this many seconds, then start the next one.
    RelaunchAfter { wait_secs: u64 },
    /// The session failed and the ceiling of consecutive failures was
    /// reached: the retry state has started over; start the next session at
    /// once.
    CeilingReset,
}

/// A wait doubled, but no longer than `MAX_BACKOFF_SECS`.
pub open spec fn doubled_capped(backoff_secs: nat) -> nat {
    if backoff_secs * 2 < MAX_BACKOFF_SECS {
        backoff_secs * 2
    } else {
        MAX_BACKOFF_SECS as nat
    }
}

/// The wait that is held after `failures` consecutive failures:
/// `2^failures` seconds, but no longer than `MAX_BACKOFF_SECS`.
pub open spec fn backoff_after(failures: nat) -> nat {
    if pow2(failures) < MAX_BACKOFF_SECS {
        pow2(failures)
    } else {
        MAX_BACKOFF_SECS as nat
    }
}

/// The retry state of one camera as the contracts see it.
pub struct RetryView {
    /// Failures since the last clean session or reset.
    pub consecutive_failures: nat,
    /// Seconds to wait after the next failure.
    pub backoff_secs: nat,
}

impl RetryView {
    /// The state at start, after a clean session and after a reset.
    pub open spec fn initial() -> RetryView {
        RetryView { consecutive_failures: 0, backoff_secs: INITIAL_BACKOFF_SECS as nat }
    }

    /// Whether one more failure reaches the ceiling.
    pub open spec fn at_ceiling(self) -> bool {
        self.consecutive_failures + 1 >= FAILURE_CEILING
    }

    /// The state after a session that failed (`failed`) or ended cleanly.
    pub open spec fn after(self, failed: bool) -> RetryView {
        if !failed || self.at_ceiling() {
            RetryView::initial()
        } else {
            RetryView {
                consecutive_failures: self.consecutive_failures + 1,
                backoff_secs: doubled_capped(self.backoff_secs),
            }
        }
    }

    /// What the supervisor does after such a session.
    pub open spec fn action(self, failed: bool) -> SupervisorAction {
        if !failed {
            SupervisorAction::Relaunch
        } else if self.at_ceiling() {
            SupervisorAction::CeilingReset
        } else {
            SupervisorAction::RelaunchAfter { wait_secs: self.backoff_secs as u64 }
        }
    }

    /// What holds of every state that a supervisor can be in: the ceiling is
    /// not reached, and the wait is the one that belongs to the count of
    /// failures.
    pub open spec fn valid(self) -> bool {
        &&& self.consecutive_failures < FAILURE_CEILING
        &&& self.backoff_secs == backoff_after(self.consecutive_failures)
    }

    /// The state after the sessions `failures`, oldest first, each `true` for
    /// a failed one.
    pub open spec fn after_all(self, failures: Seq<bool>) -> RetryView
        decreases failures.len(),
    {
        if failures.len() == 0 {
            self
        } else {
            self.after_all(failures.drop_last()).after(failures.last())
        }
    }
}

/// The connectivity count after the supervisor has seen a session's outcome:
/// a failure takes one off, never below zero.
pub open spec fn connected_after_outcome(connected: nat, failed: bool) -> nat {
    if failed {
        after_disconnect(connected)
    } else {
        connected
    }
}

/// A wait is between one second and `MAX_BACKOFF_SECS`, and doubling it
/// under the cap gives the wait of one more failure.
pub proof fn lemma_backoff_after(failures: nat)
    ensures
        INITIAL_BACKOFF_SECS <= backoff_after(failures) <= MAX_BACKOFF_SECS,
        backoff_after(0) == INITIAL_BACKOFF_SECS,
        backoff_after(failures + 1) == doubled_capped(backoff_after(failures)),
        backoff_after(failures) <= backoff_after(failures + 1),
{
    lemma2_to64();
    lemma_pow2_unfold(failures + 1);
    vstd::arithmetic::power2::lemma_pow2_pos(failures);
}

/// The step keeps a state valid.
pub proof fn lemma_step_keeps_valid(state: RetryView, failed: bool)
    requires
        state.valid(),
    ensures
        state.after(failed).valid(),
{
    lemma_backoff_after(state.consecutive_failures);
    lemma_backoff_after(0);
}

/// Whatever the sessions did, the state is valid: the wait is at least one
/// second and never more than `MAX_BACKOFF_SECS`.
pub proof fn lemma_backoff_bounded(failures: Seq<bool>)
    ensures
        RetryView::initial().after_all(failures).valid(),
        INITIAL_BACKOFF_SECS <= RetryView::initial().after_all(failures).backoff_secs
            <= MAX_BACKOFF_SECS,
    decreases failures.len(),
{
    lemma_backoff_after(0);
    if failures.len() > 0 {
        lemma_backoff_bounded(failures.drop_last());
        lemma_step_keeps_valid(RetryView::initial().after_all(failures.drop_last()), failures.last());
    }
    lemma_backoff_after(RetryView::initial().after_all(failures).consecutive_failures);
}

/// Within a run of failures the wait doubles and never shrinks: the `k`-th
/// failure in a row, below the ceiling, is answered with a wait of
/// `2^(k-1)` seconds, capped at `MAX_BACKOFF_SECS`, and leaves the wait of
/// the next one at twice that, under the same cap.
pub proof fn lemma_backoff_doubles(state: RetryView)
    requires
        state.valid(),
        !state.at_ceiling(),
    ensures
        state.action(true) == (SupervisorAction::RelaunchAfter {
            wait_secs: backoff_after(state.consecutive_failures) as u64,
        }),
        state.after(true).consecutive_failures == state.consecutive_failures + 1,
        state.after(true).backoff_secs == doubled_capped(state.backoff_secs),
        state.after(true).backoff_secs >= state.backoff_secs,
        state.after(true).backoff_secs <= MAX_BACKOFF_SECS,
{
    lemma_backoff_after(state.consecutive_failures);
}

/// The wait starts over at one second after a clean session, and after the
/// failure that reaches the ceiling.
pub proof fn lemma_backoff_resets(state: RetryView)
    ensures
        state.after(false) == RetryView::initial(),
        state.at_ceiling() ==> state.after(true) == RetryView::initial(),
        RetryView::initial().backoff_secs == INITIAL_BACKOFF_SECS,
        RetryView::initial().consecutive_failures == 0,
{
}

/// The retry state of one camera's supervisor.
#[derive(Debug)]
pub struct SupervisorRetryState {
    consecutive_failures: u32,
    backoff_secs: u64,
}

impl View for SupervisorRetryState {
    type V = RetryView;

    closed spec fn view(&self) -> RetryView {
        RetryView {
            consecutive_failures: self.consecutive_failures as nat,
            backoff_secs: self.backoff_secs as nat,
        }
    }
}

impl SupervisorRetryState {
    #[verifier::type_invariant]
    spec fn well_formed(self) -> bool {
        self@.valid()
    }

    /// The state before the first session.
    pub fn new() -> (state: SupervisorRetryState)
        ensures
            state@ == RetryView::initial(),
    {
        proof {
            lemma_backoff_after(0);
        }
        SupervisorRetryState { consecutive_failures: 0, backoff_secs: INITIAL_BACKOFF_SECS }
    }

    /// Failures since the last clean session or reset.
    pub fn consecutive_failures(&self) -> (n: u32)
        ensures
            n == self@.consecutive_failures,
            n < FAILURE_CEILING,
            self@.valid(),
    {
        proof {
            use_type_invariant(self);
        }
        self.consecutive_failures
    }

    /// Seconds to wait after the next failure.
    pub fn backoff_secs(&self) -> (secs: u64)
        ensures
            secs == self@.backoff_secs,
            INITIAL_BACKOFF_SECS <= secs <= MAX_BACKOFF_SECS,
            self@.valid(),
    {
        proof {
            use_type_invariant(self);
            lemma_backoff_after(self@.consecutive_failures);
        }
        self.backoff_secs
    }

    /// Takes in the outcome of a session.
    ///
    /// After a clean session the retry state starts over and the next
    /// session starts at once. After a failed one, one camera fewer counts as
    /// connected; the failure is counted, and either the ceiling is reached
    /// and the retry state starts over, or the supervisor is to wait the
    /// current backoff, which then doubles up to the cap.
    pub fn on_outcome(&mut self, outcome: &RecordingSessionOutcome, counters: &mut ServiceState) -> (action:
        SupervisorAction)
        ensures
            final(self)@ == old(self)@.after(outcome is Failed),
            action == old(self)@.action(outcome is Failed),
            final(self)@.valid(),
            INITIAL_BACKOFF_SECS <= final(self)@.backoff_secs <= MAX_BACKOFF_SECS,
            final(counters).total() == old(counters).total(),
            final(counters).connected() == connected_after_outcome(
                old(counters).connected(),
                outcome is Failed,
            ),
            final(counters).connected() <= final(counters).total(),
    {
        proof {
            use_type_invariant(&*self);
            use_type_invariant(&*counters);
            counters.lemma_bounded();
            lemma_step_keeps_valid(self@, outcome is Failed);
            lemma_backoff_after(self@.consecutive_failures);
            lemma_backoff_after(self@.after(outcome is Failed).consecutive_failures);
            lemma_backoff_after(0);
        }
        match outcome {
            RecordingSessionOutcome::Ended => {
                *self = SupervisorRetryState::new();
                SupervisorAction::Relaunch
            },
            RecordingSessionOutcome::Failed(_) => {
                counters.mark_disconnected();
                if self.consecutive_failures + 1 >= FAILURE_CEILING {
                    *self = SupervisorRetryState::new();
                    SupervisorAction::CeilingReset
                } else {
                    let wait_secs = self.backoff_secs;
                    let next = if wait_secs * 2 < MAX_BACKOFF_SECS {
                        wait_secs * 2
                    } else {
                        MAX_BACKOFF_SECS
                    };
                    *self = SupervisorRetryState {
                        consecutive_failures: self.consecutive_failures + 1,
                        backoff_secs: next,
                    };
                    SupervisorAction::RelaunchAfter { wait_secs }
                }
            },
        }
    }
}

} // verus!
