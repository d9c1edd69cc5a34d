//! The caller-facing side of the bridge as a state machine.
//!
//! A bridge is running from launch until the first time it sees that its
//! worker is gone; from then on it is exited for good. While running it keeps
//! at most one command in flight. The caller-side program owns the channel
//! endpoints and the worker's join handle; it asks this state what to do
//! before it touches them and reports what came back.

use vstd::prelude::*;
use crate::error::DebuggerError;

verus! {

/// What a bridge knows about itself.
pub struct BridgeState {
    /// The worker's join handle has not been consumed yet.
    pub running: bool,
    /// A request has been sent whose response has not been taken.
    pub in_flight: bool,
}

/// What to do about a command the caller wants to issue.
#[derive(Clone, Copy, Debug, PartialEq, Eq, Structural)]
pub enum CommandPlan {
    /// Send the request, then wait for its response.
    Send,
    /// An earlier request still awaits its response: take that response
    /// first, then ask again.
    Wait,
    /// Fail with this error without touching any channel.
    Fail(DebuggerError),
}

/// What to do about a caller that wants the next event.
#[derive(Clone, Copy, Debug, PartialEq, Eq, Structural)]
pub enum EventPlan {
    /// Wait for the event channel or the exit signal, whichever comes first.
    Race,
    /// Fail with this error without suspending.
    Fail(DebuggerError),
}

/// How the wait for the next event ended.
#[derive(Debug, PartialEq, Eq)]
pub enum EventRace<E> {
    /// The event channel produced an event.
    Event(E),
    /// The event channel was closed.
    Closed,
    /// The exit signal fired.
    ExitFired,
}

/// What to do once the wait for the next event has ended.
#[derive(Debug, PartialEq, Eq)]
pub enum EventStep<E> {
    /// Hand this event to the caller.
    Deliver(E),
    /// Join the worker thread and report why it ended.
    JoinWorker,
}

/// One thing the caller-side program does with a bridge.
pub enum Call {
    /// It asks to issue a command.
    IssueCommand,
    /// It takes what the response channel produced.
    TakeResponse,
    /// It asks for the next event and an event arrives.
    ReceiveEvent,
    /// It asks for the next event and finds the worker gone.
    ObserveExit,
}

/// The plan for a command asked for in state `s`.
pub open spec fn command_plan(s: BridgeState) -> CommandPlan {
    if !s.running {
        CommandPlan::Fail(DebuggerError::TargetExited)
    } else if s.in_flight {
        CommandPlan::Wait
    } else {
        CommandPlan::Send
    }
}

/// The plan for a request for the next event in state `s`.
pub open spec fn event_plan(s: BridgeState) -> EventPlan {
    if s.running {
        EventPlan::Race
    } else {
        EventPlan::Fail(DebuggerError::TargetExited)
    }
}

/// What the caller of a command gets for what the response channel produced.
pub open spec fn command_result<R>(received: Option<R>) -> Result<R, DebuggerError> {
    match received {
        Some(response) => Ok(response),
        None => Err(DebuggerError::TargetExited),
    }
}

/// The step that follows the end of a wait for the next event.
pub open spec fn event_step<E>(outcome: EventRace<E>) -> EventStep<E> {
    match outcome {
        EventRace::Event(event) => EventStep::Deliver(event),
        EventRace::Closed => EventStep::JoinWorker,
        EventRace::ExitFired => EventStep::JoinWorker,
    }
}

/// The error a caller sees for the result with which the worker thread
/// ended: the worker's own error, or "target exited" after a clean end.
pub open spec fn terminal_error(result: Result<(), DebuggerError>) -> DebuggerError {
    match result {
        Err(cause) => cause,
        Ok(_) => DebuggerError::TargetExited,
    }
}

/// The state after `call` is made in state `s`.
pub open spec fn apply(s: BridgeState, call: Call) -> BridgeState {
    match call {
        Call::IssueCommand => BridgeState {
            running: s.running,
            in_flight: s.in_flight || command_plan(s) == CommandPlan::Send,
        },
        Call::TakeResponse => BridgeState { running: s.running, in_flight: false },
        Call::ReceiveEvent => s,
        Call::ObserveExit => BridgeState { running: false, in_flight: s.in_flight },
    }
}

/// The state reached from `s` after the calls are made in order.
pub open spec fn state_after(s: BridgeState, calls: Seq<Call>) -> BridgeState
    decreases calls.len(),
{
    if calls.len() == 0 {
        s
    } else {
        apply(state_after(s, calls.drop_last()), calls.last())
    }
}

/// How many requests the calls, made in order from state `s`, put on the
/// command channel.
pub open spec fn requests_sent(s: BridgeState, calls: Seq<Call>) -> nat
    decreases calls.len(),
{
    if calls.len() == 0 {
        0
    } else {
        let before = state_after(s, calls.drop_last());
        let sent = requests_sent(s, calls.drop_last());
        if calls.last() is IssueCommand && command_plan(before) == CommandPlan::Send {
            sent + 1
        } else {
            sent
        }
    }
}

/// How many of the calls, made in order from state `s`, took the response
/// channel's answer to a request in flight.
pub open spec fn responses_taken(s: BridgeState, calls: Seq<Call>) -> nat
    decreases calls.len(),
{
    if calls.len() == 0 {
        0
    } else {
        let before = state_after(s, calls.drop_last());
        let taken = responses_taken(s, calls.drop_last());
        if calls.last() is TakeResponse && before.in_flight {
            taken + 1
        } else {
            taken
        }
    }
}

/// The caller-facing bridge to a debugger engine that lives on its own
/// worker thread.
#[derive(Debug)]
pub struct WinDbg {
    worker_attached: bool,
    awaiting_response: bool,
}

impl View for WinDbg {
    type V = BridgeState;

    closed spec fn view(&self) -> BridgeState {
        BridgeState { running: self.worker_attached, in_flight: self.awaiting_response }
    }
}

impl WinDbg {
    /// Creates the bridge once the worker thread and its runtime have been
    /// asked for. The bridge is running at once, whether or not the worker
    /// has connected yet; it fails only if the thread or runtime could not
    /// be created.
    pub fn launch(runtime_started: bool) -> (launched: Result<WinDbg, DebuggerError>)
        ensures
            runtime_started ==> (launched matches Ok(bridge) && bridge@ == (BridgeState {
                running: true,
                in_flight: false,
            })),
            !runtime_started ==> (launched matches Err(cause) && cause == DebuggerError::Launch),
    {
        if runtime_started {
            Ok(WinDbg { worker_attached: true, awaiting_response: false })
        } else {
            Err(DebuggerError::Launch)
        }
    }

    /// Whether the bridge has seen its worker end.
    pub fn is_exited(&self) -> (exited: bool)
        ensures
            exited == !self@.running,
    {
        !self.worker_attached
    }

    /// Whether a request has been sent whose response has not been taken.
    pub fn has_command_in_flight(&self) -> (in_flight: bool)
        ensures
            in_flight == self@.in_flight,
    {
        self.awaiting_response
    }

    /// Decides what to do about a command the caller wants to issue, and
    /// records the request as in flight when the answer is to send it.
    pub fn handle_command(&mut self) -> (plan: CommandPlan)
        ensures
            plan == command_plan(old(self)@),
            final(self)@ == apply(old(self)@, Call::IssueCommand),
    {
        if !self.worker_attached {
            CommandPlan::Fail(DebuggerError::TargetExited)
        } else if self.awaiting_response {
            CommandPlan::Wait
        } else {
            self.awaiting_response = true;
            CommandPlan::Send
        }
    }

    /// Turns what the response channel produced into the command's result:
    /// the response, or "target exited" if the channel was closed. Either way
    /// no request is in flight afterwards. The worker is not joined here, so
    /// the bridge stays in the lifecycle state it was in.
    pub fn command_response<R>(&mut self, received: Option<R>) -> (result: Result<
        R,
        DebuggerError,
    >)
        ensures
            result == command_result(received),
            final(self)@ == apply(old(self)@, Call::TakeResponse),
    {
        self.awaiting_response = false;
        match received {
            Some(response) => Ok(response),
            None => Err(DebuggerError::TargetExited),
        }
    }

    /// Decides what to do about a caller that wants the next event: wait, or
    /// fail at once if the worker is already known to be gone.
    pub fn next_event(&self) -> (plan: EventPlan)
        ensures
            plan == event_plan(self@),
    {
        if self.worker_attached {
            EventPlan::Race
        } else {
            EventPlan::Fail(DebuggerError::TargetExited)
        }
    }

    /// Reports how the wait for the next event ended. An event is delivered
    /// and changes nothing; a closed channel or a fired exit signal consumes
    /// the worker's join handle, so the bridge is exited from here on.
    pub fn event_outcome<E>(&mut self, outcome: EventRace<E>) -> (step: EventStep<E>)
        requires
            old(self)@.running,
        ensures
            step == event_step(outcome),
            outcome is Event ==> final(self)@ == apply(old(self)@, Call::ReceiveEvent),
            !(outcome is Event) ==> final(self)@ == apply(old(self)@, Call::ObserveExit),
    {
        match outcome {
            EventRace::Event(event) => EventStep::Deliver(event),
            EventRace::Closed => {
                self.worker_attached = false;
                EventStep::JoinWorker
            },
            EventRace::ExitFired => {
                self.worker_attached = false;
                EventStep::JoinWorker
            },
        }
    }

    /// The error to report once the worker thread has been joined: the
    /// worker's own terminal error if it ended with one. A worker that ended
    /// cleanly, because the notification stream or the command channel ended,
    /// is reported as "target exited".
    pub fn worker_outcome(result: Result<(), DebuggerError>) -> (cause: DebuggerError)
        ensures
            cause == terminal_error(result),
    {
        match result {
            Err(cause) => cause,
            Ok(_) => DebuggerError::TargetExited,
        }
    }
}

} // verus!
