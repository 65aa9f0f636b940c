//! The validation protocol around a backend call.
//!
//! With validation on, the backend's error queue is drained before the
//! call, and looked at once more right after it: a flag that is set then
//! belongs to the call, and the process stops. With validation off the call
//! is made and nothing else.

use vstd::prelude::*;

use crate::backend;

verus! {

/// The error flag that reports no pending error.
pub const NO_ERROR: u32 = 0;

/// Whether backend calls are validated.
#[derive(Debug, Clone, Copy, PartialEq, Eq, Structural)]
pub enum Validation {
    /// Every call is wrapped in the protocol (development builds).
    Checked,
    /// Calls pass through untouched (performance builds).
    Unchecked,
}

/// Where the protocol stands around one call.
#[derive(Debug, Clone, Copy, PartialEq, Eq, Structural)]
pub enum CheckPhase {
    /// Between two calls.
    Idle,
    /// Emptying the error queue before the call.
    Draining,
    /// The call is being made.
    Calling,
    /// Looking at the error queue after the call.
    Verifying,
    /// The call left an error flag, or the protocol was not kept.
    Aborted,
}

/// What the host reports to the protocol.
#[derive(Debug, Clone, Copy, PartialEq, Eq, Structural)]
pub enum CheckEvent {
    /// A call is about to be made.
    Begin,
    /// The backend's answer to a poll of its error queue.
    ErrorFlag(u32),
    /// The call has returned.
    Performed,
}

/// What the host has to do next.
#[derive(Debug, Clone, Copy, PartialEq, Eq, Structural)]
pub enum CheckAction {
    /// Poll the backend's error queue and report the flag.
    PollError,
    /// Make the call and report that it returned.
    Perform,
    /// The call is done.
    Finish,
    /// Stop the process: the call is at fault.
    Abort,
}

/// Whether draining goes on after the queue has answered `flag`: it does
/// until the queue reports no error.
pub open spec fn spec_clear_error(flag: u32) -> bool {
    flag != NO_ERROR
}

/// Whether a call that left `flag` in the queue passes: only a queue that
/// reports no error lets it.
pub open spec fn spec_check_error(flag: u32) -> bool {
    flag == NO_ERROR
}

/// Whether draining goes on after the queue has answered `flag`.
#[verifier::when_used_as_spec(spec_clear_error)]
pub fn clear_error(flag: u32) -> (again: bool)
    ensures
        again == spec_clear_error(flag),
{
    flag != backend::no_error()
}

/// Whether a call that left `flag` in the queue passes.
#[verifier::when_used_as_spec(spec_check_error)]
pub fn check_error(flag: u32) -> (passed: bool)
    ensures
        passed == spec_check_error(flag),
{
    flag == backend::no_error()
}

/// The validation protocol as a state machine.
#[derive(Debug, Clone, Copy, PartialEq, Eq, Structural)]
pub struct Validator {
    pub mode: Validation,
    pub phase: CheckPhase,
}

impl Validator {
    /// The same validator in another phase.
    pub open spec fn at(self, phase: CheckPhase) -> Validator {
        Validator { mode: self.mode, phase }
    }

    /// The protocol's reaction to `event`: the state it moves to and what
    /// the host has to do next.
    pub open spec fn next(self, event: CheckEvent) -> (Validator, CheckAction) {
        match (self.phase, event) {
            (CheckPhase::Idle, CheckEvent::Begin) => match self.mode {
                Validation::Checked => (self.at(CheckPhase::Draining), CheckAction::PollError),
                Validation::Unchecked => (self.at(CheckPhase::Calling), CheckAction::Perform),
            },
            (CheckPhase::Draining, CheckEvent::ErrorFlag(flag)) => if spec_clear_error(flag) {
                (self.at(CheckPhase::Draining), CheckAction::PollError)
            } else {
                (self.at(CheckPhase::Calling), CheckAction::Perform)
            },
            (CheckPhase::Calling, CheckEvent::Performed) => match self.mode {
                Validation::Checked => (self.at(CheckPhase::Verifying), CheckAction::PollError),
                Validation::Unchecked => (self.at(CheckPhase::Idle), CheckAction::Finish),
            },
            (CheckPhase::Verifying, CheckEvent::ErrorFlag(flag)) => if spec_check_error(flag) {
                (self.at(CheckPhase::Idle), CheckAction::Finish)
            } else {
                (self.at(CheckPhase::Aborted), CheckAction::Abort)
            },
            _ => (self.at(CheckPhase::Aborted), CheckAction::Abort),
        }
    }

    /// A validator between two calls.
    pub fn new(mode: Validation) -> (validator: Self)
        ensures
            validator == (Validator { mode, phase: CheckPhase::Idle }),
    {
        Validator { mode, phase: CheckPhase::Idle }
    }

    /// Takes `event` and says what the host has to do next.
    pub fn step(&mut self, event: CheckEvent) -> (action: CheckAction)
        ensures
            (*final(self), action) == old(self).next(event),
    {
        let (phase, action) = match (self.phase, event) {
            (CheckPhase::Idle, CheckEvent::Begin) => match self.mode {
                Validation::Checked => (CheckPhase::Draining, CheckAction::PollError),
                Validation::Unchecked => (CheckPhase::Calling, CheckAction::Perform),
            },
            (CheckPhase::Draining, CheckEvent::ErrorFlag(flag)) => if clear_error(flag) {
                (CheckPhase::Draining, CheckAction::PollError)
            } else {
                (CheckPhase::Calling, CheckAction::Perform)
            },
            (CheckPhase::Calling, CheckEvent::Performed) => match self.mode {
                Validation::Checked => (CheckPhase::Verifying, CheckAction::PollError),
                Validation::Unchecked => (CheckPhase::Idle, CheckAction::Finish),
            },
            (CheckPhase::Verifying, CheckEvent::ErrorFlag(flag)) => if check_error(flag) {
                (CheckPhase::Idle, CheckAction::Finish)
            } else {
                (CheckPhase::Aborted, CheckAction::Abort)
            },
            _ => (CheckPhase::Aborted, CheckAction::Abort),
        };
        self.phase = phase;
        action
    }
}

/// The protocol after the events `events`, taken in order: the state it is
/// in, and everything it has told the host to do.
pub open spec fn run(validator: Validator, events: Seq<CheckEvent>) -> (Validator, Seq<CheckAction>)
    decreases events.len(),
{
    if events.len() == 0 {
        (validator, Seq::empty())
    } else {
        let (before, actions) = run(validator, events.drop_last());
        let (after, action) = before.next(events.last());
        (after, actions.push(action))
    }
}

/// With validation off the backend's error queue is never polled, whatever
/// the host reports.
pub proof fn lemma_unchecked_never_polls(events: Seq<CheckEvent>)
    ensures
        ({
            let (end, actions) = run(
                Validator { mode: Validation::Unchecked, phase: CheckPhase::Idle },
                events,
            );
            &&& end.mode == Validation::Unchecked
            &&& end.phase != CheckPhase::Draining
            &&& end.phase != CheckPhase::Verifying
            &&& forall|i: int| 0 <= i < actions.len() ==> actions[i] != CheckAction::PollError
        }),
    decreases events.len(),
{
    if events.len() > 0 {
        lemma_unchecked_never_polls(events.drop_last());
    }
}

/// With validation off a call takes two steps: it is made at once, and it is
/// done when it returns.
pub proof fn lemma_unchecked_call()
    ensures
        run(
            Validator { mode: Validation::Unchecked, phase: CheckPhase::Idle },
            seq![CheckEvent::Begin, CheckEvent::Performed],
        ) == (
            Validator { mode: Validation::Unchecked, phase: CheckPhase::Idle },
            seq![CheckAction::Perform, CheckAction::Finish],
        ),
{
    let start = Validator { mode: Validation::Unchecked, phase: CheckPhase::Idle };
    let events = seq![CheckEvent::Begin, CheckEvent::Performed];
    let first = events.drop_last();
    let none = first.drop_last();
    assert(none.len() == 0);
    assert(run(start, none) == (start, Seq::<CheckAction>::empty()));
    assert(first.last() == CheckEvent::Begin);
    let (calling, called) = run(start, first);
    assert(called =~= seq![CheckAction::Perform]);
    assert(events.last() == CheckEvent::Performed);
    let (done, actions) = run(start, events);
    assert(actions =~= seq![CheckAction::Perform, CheckAction::Finish]);
}

/// With validation on, error flags that were pending before the call are
/// drained, however many there are, and never held against the call: after
/// `stale` flags and one empty answer the protocol asks for the call to be
/// made, having polled once for each of them.
pub proof fn lemma_stale_flags_are_drained(stale: Seq<u32>)
    requires
        forall|i: int| 0 <= i < stale.len() ==> stale[i] != NO_ERROR,
    ensures
        ({
            let start = Validator { mode: Validation::Checked, phase: CheckPhase::Idle };
            let drained = run(
                start,
                seq![CheckEvent::Begin] + stale.map_values(|flag: u32| CheckEvent::ErrorFlag(flag)),
            );
            let (calling, action) = drained.0.next(CheckEvent::ErrorFlag(NO_ERROR));
            &&& drained.0 == start.at(CheckPhase::Draining)
            &&& drained.1 == Seq::new(stale.len() + 1, |i: int| CheckAction::PollError)
            &&& calling == start.at(CheckPhase::Calling)
            &&& action == CheckAction::Perform
        }),
    decreases stale.len(),
{
    let start = Validator { mode: Validation::Checked, phase: CheckPhase::Idle };
    let events = seq![CheckEvent::Begin] + stale.map_values(
        |flag: u32| CheckEvent::ErrorFlag(flag),
    );
    if stale.len() == 0 {
        assert(events.drop_last().len() == 0);
        assert(run(start, events.drop_last()) == (start, Seq::<CheckAction>::empty()));
        assert(events.last() == CheckEvent::Begin);
        assert(run(start, events).1 =~= Seq::new(1, |i: int| CheckAction::PollError));
    } else {
        let fewer = stale.drop_last();
        lemma_stale_flags_are_drained(fewer);
        assert(events.drop_last() =~= seq![CheckEvent::Begin] + fewer.map_values(
            |flag: u32| CheckEvent::ErrorFlag(flag),
        ));
        assert(events.last() == CheckEvent::ErrorFlag(stale.last()));
        assert(run(start, events).1 =~= Seq::new(
            stale.len() + 1,
            |i: int| CheckAction::PollError,
        ));
    }
}

/// With validation on, the call is made only in answer to an empty error
/// queue, and it is done only when the queue is empty right after it; a
/// flag that is set after the call stops the process.
pub proof fn lemma_checked_call(validator: Validator, event: CheckEvent)
    requires
        validator.mode == Validation::Checked,
    ensures
        validator.next(event).1 == CheckAction::Perform <==> validator.phase
            == CheckPhase::Draining && event == CheckEvent::ErrorFlag(NO_ERROR),
        validator.next(event).1 == CheckAction::Finish <==> validator.phase
            == CheckPhase::Verifying && event == CheckEvent::ErrorFlag(NO_ERROR),
        validator.phase == CheckPhase::Verifying && event is ErrorFlag && event
            != CheckEvent::ErrorFlag(NO_ERROR) ==> validator.next(event).1 == CheckAction::Abort,
{
}

} // verus!
