//! The worker loop as a state machine.
//!
//! The worker thread owns the engine handle. It connects, then repeats: pump
//! the engine's pending callbacks, wait a bounded time for either a native
//! notification or a command request, and handle whichever arrived. Each of
//! those operations blocks or suspends, so the thread performs them and
//! reports what happened as an [`Outcome`]; [`WorkerLoop::step`] answers with
//! the [`Action`] to perform next.

use vstd::prelude::*;
use crate::error::DebuggerError;

verus! {

/// How long one wait for a notification or a command may last, so that the
/// pump runs regularly even when both sources are idle.
pub const RACE_TIMEOUT_MILLIS: u64 = 50;

/// Capacity of the channel that carries translated events to the caller.
pub const EVENT_CAPACITY: usize = 10;

/// Capacity of the command-request channel and of the response channel.
pub const COMMAND_CAPACITY: usize = 1;

/// What the worker is waiting to hear about.
#[derive(Clone, Copy, Debug, PartialEq, Eq, Structural)]
pub enum Phase {
    /// The engine handle is being established.
    Connecting,
    /// Pending native callbacks are being pumped.
    Pumping,
    /// The bounded wait for a notification or a command is under way.
    Racing,
    /// A notification is being translated.
    Translating,
    /// A command is being dispatched to its handler.
    Dispatching,
    /// A translated event is being offered to the event channel.
    SendingEvent,
    /// A response is being offered to the response channel.
    SendingResponse,
    /// The loop has ended and the exit signal has been requested.
    Finished,
}

/// What happened to the operation the worker was asked to perform.
///
/// `N` is a native notification, `C` a command request, `E` a translated
/// event and `R` a command response. A failed engine call reports its native
/// status code.
#[derive(Debug, PartialEq, Eq)]
pub enum Outcome<N, C, E, R> {
    /// The connection attempt ended.
    Connected(Result<(), i32>),
    /// The callback pump ended.
    Pumped(Result<(), i32>),
    /// The notification stream won the wait; `None` is the end of the stream.
    Notification(Option<N>),
    /// The command channel won the wait; `None` means every sender is gone.
    Command(Option<C>),
    /// Neither source produced anything within the bound.
    TimedOut,
    /// Translation ended; `Ok(None)` is a notification with no
    /// backend-agnostic meaning.
    Translated(Result<Option<E>, i32>),
    /// Dispatch ended; `Ok(None)` is a command kind with no registered handler.
    Dispatched(Result<Option<R>, i32>),
    /// An event or response was offered to its channel; the flag says whether
    /// the channel took it.
    Sent(bool),
}

/// What the worker thread must do next.
#[derive(Debug, PartialEq, Eq)]
pub enum Action<N, C, E, R> {
    /// Pump all pending native callbacks.
    Pump,
    /// Wait for the next notification or command, whichever comes first, but
    /// no longer than the given number of milliseconds.
    Race { timeout_millis: u64 },
    /// Translate this notification.
    Translate(N),
    /// Dispatch this command.
    Dispatch(C),
    /// Offer this event to the event channel, dropping it if the channel is
    /// full or closed.
    SendEvent(E),
    /// Offer this response to the response channel, dropping it if the
    /// channel is full or closed.
    SendResponse(R),
    /// Fire the exit signal and end the thread with this result.
    Finish(Result<(), DebuggerError>),
}

/// The transition relation: the phase entered and the action requested when
/// `outcome` is reported in `phase`, or `None` when the worker in that phase
/// is not waiting for such an outcome.
pub open spec fn next<N, C, E, R>(phase: Phase, outcome: Outcome<N, C, E, R>) -> Option<
    (Phase, Action<N, C, E, R>),
> {
    match (phase, outcome) {
        (Phase::Connecting, Outcome::Connected(Ok(_))) => Some((Phase::Pumping, Action::Pump)),
        (Phase::Connecting, Outcome::Connected(Err(code))) => Some(
            (Phase::Finished, Action::Finish(Err(DebuggerError::Connection(code)))),
        ),
        (Phase::Pumping, Outcome::Pumped(Ok(_))) => Some(
            (Phase::Racing, Action::Race { timeout_millis: RACE_TIMEOUT_MILLIS }),
        ),
        (Phase::Pumping, Outcome::Pumped(Err(code))) => Some(
            (Phase::Finished, Action::Finish(Err(DebuggerError::Pump(code)))),
        ),
        (Phase::Racing, Outcome::Notification(Some(notification))) => Some(
            (Phase::Translating, Action::Translate(notification)),
        ),
        (Phase::Racing, Outcome::Notification(None)) => Some(
            (Phase::Finished, Action::Finish(Ok(()))),
        ),
        (Phase::Racing, Outcome::Command(Some(request))) => Some(
            (Phase::Dispatching, Action::Dispatch(request)),
        ),
        (Phase::Racing, Outcome::Command(None)) => Some((Phase::Finished, Action::Finish(Ok(())))),
        (Phase::Racing, Outcome::TimedOut) => Some((Phase::Pumping, Action::Pump)),
        (Phase::Translating, Outcome::Translated(Ok(Some(event)))) => Some(
            (Phase::SendingEvent, Action::SendEvent(event)),
        ),
        (Phase::Translating, Outcome::Translated(Ok(None))) => Some((Phase::Pumping, Action::Pump)),
        (Phase::Translating, Outcome::Translated(Err(code))) => Some(
            (Phase::Finished, Action::Finish(Err(DebuggerError::Translation(code)))),
        ),
        (Phase::Dispatching, Outcome::Dispatched(Ok(Some(response)))) => Some(
            (Phase::SendingResponse, Action::SendResponse(response)),
        ),
        (Phase::Dispatching, Outcome::Dispatched(Ok(None))) => Some((Phase::Pumping, Action::Pump)),
        (Phase::Dispatching, Outcome::Dispatched(Err(code))) => Some(
            (Phase::Finished, Action::Finish(Err(DebuggerError::Dispatch(code)))),
        ),
        (Phase::SendingEvent, Outcome::Sent(_)) => Some((Phase::Pumping, Action::Pump)),
        (Phase::SendingResponse, Outcome::Sent(_)) => Some((Phase::Pumping, Action::Pump)),
        _ => None,
    }
}

/// The phase after `outcome` is reported in `phase`; an outcome the worker is
/// not waiting for leaves the phase as it is.
pub open spec fn advance<N, C, E, R>(phase: Phase, outcome: Outcome<N, C, E, R>) -> Phase {
    match next(phase, outcome) {
        Some((entered, _)) => entered,
        None => phase,
    }
}

/// The phase reached from `phase` after the outcomes are reported in order.
pub open spec fn phase_after<N, C, E, R>(phase: Phase, outcomes: Seq<Outcome<N, C, E, R>>) -> Phase
    decreases outcomes.len(),
{
    if outcomes.len() == 0 {
        phase
    } else {
        advance(phase_after(phase, outcomes.drop_last()), outcomes.last())
    }
}

/// The action requested in answer to the last of the outcomes, if it was
/// awaited. Only meaningful for a non-empty sequence.
pub open spec fn last_action<N, C, E, R>(
    phase: Phase,
    outcomes: Seq<Outcome<N, C, E, R>>,
) -> Option<Action<N, C, E, R>> {
    match next(phase_after(phase, outcomes.drop_last()), outcomes.last()) {
        Some((_, action)) => Some(action),
        None => None,
    }
}

/// How many times the run from `phase` over the outcomes asked for the exit
/// signal to be fired.
pub open spec fn exit_signals<N, C, E, R>(phase: Phase, outcomes: Seq<Outcome<N, C, E, R>>) -> nat
    decreases outcomes.len(),
{
    if outcomes.len() == 0 {
        0
    } else {
        let before = exit_signals(phase, outcomes.drop_last());
        match last_action(phase, outcomes) {
            Some(Action::Finish(_)) => before + 1,
            _ => before,
        }
    }
}

/// The result with which the run from `phase` over the outcomes ended the
/// thread, if it ended it.
pub open spec fn thread_result<N, C, E, R>(
    phase: Phase,
    outcomes: Seq<Outcome<N, C, E, R>>,
) -> Option<Result<(), DebuggerError>>
    decreases outcomes.len(),
{
    if outcomes.len() == 0 {
        None
    } else {
        match thread_result(phase, outcomes.drop_last()) {
            Some(result) => Some(result),
            None => match last_action(phase, outcomes) {
                Some(Action::Finish(result)) => Some(result),
                _ => None,
            },
        }
    }
}

/// The events that the run from `phase` over the outcomes offered to the
/// event channel, in order.
pub open spec fn events_offered<N, C, E, R>(
    phase: Phase,
    outcomes: Seq<Outcome<N, C, E, R>>,
) -> Seq<E>
    decreases outcomes.len(),
{
    if outcomes.len() == 0 {
        Seq::empty()
    } else {
        let before = events_offered(phase, outcomes.drop_last());
        match last_action(phase, outcomes) {
            Some(Action::SendEvent(event)) => before.push(event),
            _ => before,
        }
    }
}

/// The responses that the run from `phase` over the outcomes offered to the
/// response channel, in order.
pub open spec fn responses_offered<N, C, E, R>(
    phase: Phase,
    outcomes: Seq<Outcome<N, C, E, R>>,
) -> Seq<R>
    decreases outcomes.len(),
{
    if outcomes.len() == 0 {
        Seq::empty()
    } else {
        let before = responses_offered(phase, outcomes.drop_last());
        match last_action(phase, outcomes) {
            Some(Action::SendResponse(response)) => before.push(response),
            _ => before,
        }
    }
}

/// The commands that the run from `phase` over the outcomes handed to the
/// dispatcher, in order.
pub open spec fn commands_dispatched<N, C, E, R>(
    phase: Phase,
    outcomes: Seq<Outcome<N, C, E, R>>,
) -> Seq<C>
    decreases outcomes.len(),
{
    if outcomes.len() == 0 {
        Seq::empty()
    } else {
        let before = commands_dispatched(phase, outcomes.drop_last());
        match last_action(phase, outcomes) {
            Some(Action::Dispatch(request)) => before.push(request),
            _ => before,
        }
    }
}

/// How many dispatches the run from `phase` over the outcomes saw end,
/// with a response, without one, or with a failure.
pub open spec fn dispatches_ended<N, C, E, R>(
    phase: Phase,
    outcomes: Seq<Outcome<N, C, E, R>>,
) -> nat
    decreases outcomes.len(),
{
    if outcomes.len() == 0 {
        0
    } else {
        let before = dispatches_ended(phase, outcomes.drop_last());
        if outcomes.last() is Dispatched && last_action(phase, outcomes) is Some {
            before + 1
        } else {
            before
        }
    }
}

/// The control state of one worker thread.
#[derive(Debug)]
pub struct WorkerLoop {
    phase: Phase,
}

impl WorkerLoop {
    /// The phase the worker is in.
    pub closed spec fn phase(&self) -> Phase {
        self.phase
    }

    /// A worker that has just been started and is connecting to the engine.
    pub fn start() -> (worker: WorkerLoop)
        ensures
            worker.phase() == Phase::Connecting,
    {
        WorkerLoop { phase: Phase::Connecting }
    }

    /// The phase the worker is in.
    pub fn current_phase(&self) -> (phase: Phase)
        ensures
            phase == self.phase(),
    {
        self.phase
    }

    /// Whether the loop has ended.
    pub fn is_finished(&self) -> (finished: bool)
        ensures
            finished == (self.phase() == Phase::Finished),
    {
        match self.phase {
            Phase::Finished => true,
            _ => false,
        }
    }

    /// Reports `outcome` and returns the action to perform next.
    ///
    /// Returns `None`, and leaves the worker as it was, when the worker is not
    /// waiting for such an outcome; in particular for every outcome once the
    /// loop has finished.
    pub fn step<N, C, E, R>(&mut self, outcome: Outcome<N, C, E, R>) -> (action: Option<
        Action<N, C, E, R>,
    >)
        ensures
            match next(old(self).phase(), outcome) {
                Some((entered, requested)) => action == Some(requested) && final(self).phase()
                    == entered,
                None => action is None && final(self).phase() == old(self).phase(),
            },
            final(self).phase() == advance(old(self).phase(), outcome),
            old(self).phase() == Phase::Finished ==> action is None,
    {
        let (entered, requested) = match (self.phase, outcome) {
            (Phase::Connecting, Outcome::Connected(Ok(_))) => (Phase::Pumping, Action::Pump),
            (Phase::Connecting, Outcome::Connected(Err(code))) => (
                Phase::Finished,
                Action::Finish(Err(DebuggerError::Connection(code))),
            ),
            (Phase::Pumping, Outcome::Pumped(Ok(_))) => (
                Phase::Racing,
                Action::Race { timeout_millis: RACE_TIMEOUT_MILLIS },
            ),
            (Phase::Pumping, Outcome::Pumped(Err(code))) => (
                Phase::Finished,
                Action::Finish(Err(DebuggerError::Pump(code))),
            ),
            (Phase::Racing, Outcome::Notification(Some(notification))) => (
                Phase::Translating,
                Action::Translate(notification),
            ),
            (Phase::Racing, Outcome::Notification(None)) => (
                Phase::Finished,
                Action::Finish(Ok(())),
            ),
            (Phase::Racing, Outcome::Command(Some(request))) => (
                Phase::Dispatching,
                Action::Dispatch(request),
            ),
            (Phase::Racing, Outcome::Command(None)) => (Phase::Finished, Action::Finish(Ok(()))),
            (Phase::Racing, Outcome::TimedOut) => (Phase::Pumping, Action::Pump),
            (Phase::Translating, Outcome::Translated(Ok(Some(event)))) => (
                Phase::SendingEvent,
                Action::SendEvent(event),
            ),
            (Phase::Translating, Outcome::Translated(Ok(None))) => (Phase::Pumping, Action::Pump),
            (Phase::Translating, Outcome::Translated(Err(code))) => (
                Phase::Finished,
                Action::Finish(Err(DebuggerError::Translation(code))),
            ),
            (Phase::Dispatching, Outcome::Dispatched(Ok(Some(response)))) => (
                Phase::SendingResponse,
                Action::SendResponse(response),
            ),
            (Phase::Dispatching, Outcome::Dispatched(Ok(None))) => (Phase::Pumping, Action::Pump),
            (Phase::Dispatching, Outcome::Dispatched(Err(code))) => (
                Phase::Finished,
                Action::Finish(Err(DebuggerError::Dispatch(code))),
            ),
            (Phase::SendingEvent, Outcome::Sent(_)) => (Phase::Pumping, Action::Pump),
            (Phase::SendingResponse, Outcome::Sent(_)) => (Phase::Pumping, Action::Pump),
            _ => {
                return None;
            },
        };
        self.phase = entered;
        Some(requested)
    }
}

} // verus!
