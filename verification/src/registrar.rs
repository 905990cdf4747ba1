//! The one-time command-registration loop as a state machine: the caller
//! performs one outside step at a time (wait for cancellation, or try to
//! publish, or sleep) and feeds the observed event back in. The machine
//! decides what happens next: stop on cancellation, stop on success, or
//! retry after an exponentially growing delay.

use vstd::prelude::*;

verus! {

/// Gate for the one-time registration trigger: only the first ready event
/// may start the registrar, later reconnects must not.
#[derive(Debug)]
pub struct Handler {
    pub first_ready: bool,
}

impl Handler {
    /// A fresh handler whose one-time trigger has not fired yet.
    pub fn default() -> (r: Self)
        ensures
            r.first_ready,
    {
        Handler { first_ready: true }
    }

    /// Claim the one-time trigger: returns whether this caller was first,
    /// and leaves the trigger spent either way.
    pub fn claim_first_ready(&mut self) -> (r: bool)
        ensures
            r == old(self).first_ready,
            !final (self).first_ready,
    {
        let was = self.first_ready;
        self.first_ready = false;
        was
    }
}

/// What the registration loop observed while running one step.
#[derive(Clone, Copy, Debug, PartialEq, Eq, Structural)]
pub enum RegistrarEvent {
    /// The cancellation signal fired.
    Cancelled,
    /// The publish call returned successfully.
    PublishSucceeded,
    /// The publish call failed.
    PublishFailed,
}

/// What the registration loop must do after a step.
#[derive(Clone, Copy, Debug, PartialEq, Eq, Structural)]
pub enum RegistrarAction {
    /// Log the cancellation notice and stop; no further attempt may run.
    LogCancelledAndStop,
    /// Log the success notice and stop; no further attempt may run.
    LogSuccessAndStop,
    /// Sleep this many milliseconds, then attempt to publish again.
    SleepAndRetry(u64),
}

/// The loop's state between steps.
#[derive(Clone, Copy, Debug, PartialEq, Eq, Structural)]
pub struct RegistrarState {
    /// Publish attempts that have failed so far.
    pub failures: u64,
    /// Whether the loop has stopped, for either reason.
    pub finished: bool,
    /// Whether the loop stopped because publishing succeeded (and logged
    /// success); a cancelled loop never sets this.
    pub succeeded: bool,
}

/// The retry delay after a number of failures: doubling from one second,
/// capped at one minute.
pub open spec fn backoff_delay(failures: int) -> int {
    if failures <= 0 {
        1000
    } else if failures == 1 {
        2000
    } else if failures == 2 {
        4000
    } else if failures == 3 {
        8000
    } else if failures == 4 {
        16000
    } else if failures == 5 {
        32000
    } else {
        60000
    }
}

/// The state the loop starts in.
pub open spec fn registrar_init() -> RegistrarState {
    RegistrarState { failures: 0, finished: false, succeeded: false }
}

/// One decision step of the loop.
pub open spec fn registrar_step_spec(s: RegistrarState, e: RegistrarEvent) -> (
    RegistrarState,
    RegistrarAction,
) {
    match e {
        RegistrarEvent::Cancelled => (
            RegistrarState { finished: true, succeeded: false, ..s },
            RegistrarAction::LogCancelledAndStop,
        ),
        RegistrarEvent::PublishSucceeded => (
            RegistrarState { finished: true, succeeded: true, ..s },
            RegistrarAction::LogSuccessAndStop,
        ),
        RegistrarEvent::PublishFailed => (
            RegistrarState {
                failures: if s.failures == u64::MAX {
                    u64::MAX
                } else {
                    (s.failures + 1) as u64
                },
                ..s
            },
            RegistrarAction::SleepAndRetry(backoff_delay(s.failures as int) as u64),
        ),
    }
}

/// The loop's starting state.
pub fn initial_registrar_state() -> (r: RegistrarState)
    ensures
        r == registrar_init(),
{
    RegistrarState { failures: 0, finished: false, succeeded: false }
}

/// Decide the loop's next state and action from what was just observed.
/// A finished loop takes no further step, so cancellation and success are
/// final: no attempt runs after either.
pub fn registrar_step(s: &RegistrarState, e: &RegistrarEvent) -> (r: (
    RegistrarState,
    RegistrarAction,
))
    requires
        !s.finished,
    ensures
        r == registrar_step_spec(*s, *e),
        *e == RegistrarEvent::Cancelled ==> r.0.finished && !r.0.succeeded,
        *e == RegistrarEvent::PublishSucceeded ==> r.0.finished && r.0.succeeded,
        *e == RegistrarEvent::PublishFailed ==> !r.0.finished && r.0.succeeded == s.succeeded
            && r.1 == RegistrarAction::SleepAndRetry(backoff_delay(s.failures as int) as u64),
{
    match e {
        RegistrarEvent::Cancelled => (
            RegistrarState { finished: true, succeeded: false, ..*s },
            RegistrarAction::LogCancelledAndStop,
        ),
        RegistrarEvent::PublishSucceeded => (
            RegistrarState { finished: true, succeeded: true, ..*s },
            RegistrarAction::LogSuccessAndStop,
        ),
        RegistrarEvent::PublishFailed => {
            let failures = if s.failures == u64::MAX {
                u64::MAX
            } else {
                s.failures + 1
            };
            (
                RegistrarState { failures, ..*s },
                RegistrarAction::SleepAndRetry(backoff_delay_ms(s.failures)),
            )
        },
    }
}

/// The retry delay in milliseconds after this many failed attempts.
pub fn backoff_delay_ms(failures: u64) -> (r: u64)
    ensures
        r == backoff_delay(failures as int),
{
    if failures == 0 {
        1000
    } else if failures == 1 {
        2000
    } else if failures == 2 {
        4000
    } else if failures == 3 {
        8000
    } else if failures == 4 {
        16000
    } else if failures == 5 {
        32000
    } else {
        60000
    }
}

/// The state after feeding a whole sequence of events to the loop,
/// stopping early once it is finished.
pub open spec fn registrar_run(s: RegistrarState, events: Seq<RegistrarEvent>) -> RegistrarState
    decreases events.len(),
{
    if events.len() == 0 || s.finished {
        s
    } else {
        registrar_run(registrar_step_spec(s, events[0]).0, events.drop_first())
    }
}

/// A finished loop stays as it is: no event changes it, so no attempt
/// follows success or cancellation.
pub proof fn lemma_registrar_finished_absorbs(s: RegistrarState, events: Seq<RegistrarEvent>)
    requires
        s.finished,
    ensures
        registrar_run(s, events) == s,
{
}

/// A publish that fails twice and then succeeds ends the loop in the
/// succeeded state; being finished, it issues no further attempts.
pub proof fn lemma_registrar_retries_until_success(s: RegistrarState, events: Seq<RegistrarEvent>)
    requires
        !s.finished,
        events =~= seq![
            RegistrarEvent::PublishFailed,
            RegistrarEvent::PublishFailed,
            RegistrarEvent::PublishSucceeded,
        ],
    ensures
        registrar_run(s, events).finished,
        registrar_run(s, events).succeeded,
{
    reveal_with_fuel(registrar_run, 4);
    assert(events.drop_first() =~= seq![
        RegistrarEvent::PublishFailed,
        RegistrarEvent::PublishSucceeded,
    ]);
    assert(events.drop_first().drop_first() =~= seq![RegistrarEvent::PublishSucceeded]);
    assert(events.drop_first().drop_first().drop_first() =~= Seq::<RegistrarEvent>::empty());
}

/// If cancellation fires before any publish success, the loop terminates
/// and never reaches the succeeded state, so no success is ever logged.
pub proof fn lemma_registrar_cancel_before_success(
    s: RegistrarState,
    events: Seq<RegistrarEvent>,
    i: int,
)
    requires
        !s.finished,
        !s.succeeded,
        0 <= i < events.len(),
        events[i] == RegistrarEvent::Cancelled,
        forall|j: int| 0 <= j < i ==> events[j] != RegistrarEvent::PublishSucceeded,
    ensures
        registrar_run(s, events).finished,
        !registrar_run(s, events).succeeded,
    decreases i,
{
    let (s1, _) = registrar_step_spec(s, events[0]);
    if events[0] == RegistrarEvent::Cancelled {
        lemma_registrar_finished_absorbs(s1, events.drop_first());
    } else {
        assert(events[0] == RegistrarEvent::PublishFailed);
        assert(events.drop_first()[i - 1] == events[i]);
        assert forall|j: int| 0 <= j < i - 1 implies events.drop_first()[j]
            != RegistrarEvent::PublishSucceeded by {
            assert(events.drop_first()[j] == events[j + 1]);
        }
        lemma_registrar_cancel_before_success(s1, events.drop_first(), i - 1);
    }
}

} // verus!
