//! What holds of every run of the two state machines.

use vstd::prelude::*;
use crate::error::DebuggerError;
use crate::facade::{
    apply, command_plan, event_plan, requests_sent, responses_taken, state_after, terminal_error,
    BridgeState, Call, CommandPlan, EventPlan,
};
use crate::worker::{
    advance, commands_dispatched, dispatches_ended, events_offered, exit_signals, last_action,
    next, phase_after, responses_offered, thread_result, Action, Outcome, Phase,
};

verus! {

/// Reporting one more outcome extends a run by exactly one transition: the
/// phase advances by it, and what the run has asked for so far grows by the
/// action that answers it.
pub proof fn lemma_report_one_more<N, C, E, R>(
    phase: Phase,
    outcomes: Seq<Outcome<N, C, E, R>>,
    outcome: Outcome<N, C, E, R>,
)
    ensures
        ({
            let reached = phase_after(phase, outcomes);
            let longer = outcomes.push(outcome);
            let answer = last_action(phase, longer);
            &&& phase_after(phase, longer) == advance(reached, outcome)
            &&& answer == match next(reached, outcome) {
                Some((_, action)) => Some(action),
                None => None,
            }
            &&& exit_signals(phase, longer) == exit_signals(phase, outcomes) + (if answer
                matches Some(Action::Finish(_)) {
                1nat
            } else {
                0nat
            })
            &&& responses_offered(phase, longer) == match answer {
                Some(Action::SendResponse(response)) => responses_offered(phase, outcomes).push(
                    response,
                ),
                _ => responses_offered(phase, outcomes),
            }
            &&& events_offered(phase, longer) == match answer {
                Some(Action::SendEvent(event)) => events_offered(phase, outcomes).push(event),
                _ => events_offered(phase, outcomes),
            }
        }),
{
    let longer = outcomes.push(outcome);
    assert(longer.drop_last() =~= outcomes);
    assert(longer.last() == outcome);
}

/// The exit signal is asked for exactly once, at the transition into the
/// finished phase, whichever way the loop ends: a run asks for it once if
/// it starts unfinished and ends finished, and never otherwise. The thread
/// has a result exactly when the signal was asked for.
pub proof fn law_exit_signalled_once<N, C, E, R>(
    phase: Phase,
    outcomes: Seq<Outcome<N, C, E, R>>,
)
    ensures
        exit_signals(phase, outcomes) <= 1,
        exit_signals(phase, outcomes) == 1 <==> (phase != Phase::Finished && phase_after(
            phase,
            outcomes,
        ) == Phase::Finished),
        thread_result(phase, outcomes) is Some <==> exit_signals(phase, outcomes) == 1,
        phase == Phase::Finished ==> phase_after(phase, outcomes) == Phase::Finished,
    decreases outcomes.len(),
{
    if outcomes.len() > 0 {
        law_exit_signalled_once(phase, outcomes.drop_last());
    }
}

/// Once the loop has finished, nothing more comes out of it: it stays
/// finished, offers no event and no response, and does not ask for the exit
/// signal again.
pub proof fn law_finished_worker_is_silent<N, C, E, R>(outcomes: Seq<Outcome<N, C, E, R>>)
    ensures
        phase_after(Phase::Finished, outcomes) == Phase::Finished,
        exit_signals(Phase::Finished, outcomes) == 0,
        thread_result(Phase::Finished, outcomes) is None,
        events_offered(Phase::Finished, outcomes) == Seq::<E>::empty(),
        responses_offered(Phase::Finished, outcomes) == Seq::<R>::empty(),
    decreases outcomes.len(),
{
    if outcomes.len() > 0 {
        law_finished_worker_is_silent(outcomes.drop_last());
    }
}

/// If every translation in a run yields no event, the run offers nothing to
/// the event channel, so a caller waiting for the next event is never woken
/// by it.
pub proof fn law_untranslated_notifications_offer_no_event<N, C, E, R>(
    phase: Phase,
    outcomes: Seq<Outcome<N, C, E, R>>,
)
    requires
        forall|i: int|
            0 <= i < outcomes.len() ==> !(#[trigger] outcomes[i] matches Outcome::Translated(
                Ok(Some(_)),
            )),
    ensures
        events_offered(phase, outcomes) == Seq::<E>::empty(),
    decreases outcomes.len(),
{
    if outcomes.len() > 0 {
        let earlier = outcomes.drop_last();
        assert forall|i: int| 0 <= i < earlier.len() implies !(#[trigger] earlier[i]
            matches Outcome::Translated(Ok(Some(_)))) by {
            assert(earlier[i] == outcomes[i]);
        }
        law_untranslated_notifications_offer_no_event(phase, earlier);
        assert(!(outcomes[outcomes.len() - 1] matches Outcome::Translated(Ok(Some(_)))));
    }
}

/// A command of a kind with no registered handler produces no response and
/// does not end the loop: the worker goes back to pumping, and a later
/// command whose handler answers has its response offered as usual.
pub proof fn law_unregistered_command_is_skipped<N, C, E, R>(
    phase: Phase,
    outcomes: Seq<Outcome<N, C, E, R>>,
    request: C,
    response: R,
)
    requires
        phase_after(phase, outcomes) == Phase::Dispatching,
    ensures
        ({
            let skipped = outcomes.push(Outcome::Dispatched(Ok(None)));
            let answered = skipped.push(Outcome::Pumped(Ok(()))).push(
                Outcome::Command(Some(request)),
            ).push(Outcome::Dispatched(Ok(Some(response))));
            &&& phase_after(phase, skipped) == Phase::Pumping
            &&& last_action(phase, skipped) == Some(Action::<N, C, E, R>::Pump)
            &&& responses_offered(phase, skipped) == responses_offered(phase, outcomes)
            &&& exit_signals(phase, skipped) == exit_signals(phase, outcomes)
            &&& last_action(phase, answered) == Some(
                Action::<N, C, E, R>::SendResponse(response),
            )
            &&& responses_offered(phase, answered) == responses_offered(phase, outcomes).push(
                response,
            )
            &&& exit_signals(phase, answered) == exit_signals(phase, outcomes)
        }),
{
    let skipped = outcomes.push(Outcome::Dispatched(Ok(None)));
    let pumped = skipped.push(Outcome::Pumped(Ok(())));
    let asked = pumped.push(Outcome::Command(Some(request)));
    lemma_report_one_more(phase, outcomes, Outcome::Dispatched(Ok(None)));
    lemma_report_one_more(phase, skipped, Outcome::Pumped(Ok(())));
    lemma_report_one_more(phase, pumped, Outcome::Command(Some(request)));
    lemma_report_one_more(phase, asked, Outcome::Dispatched(Ok(Some(response))));
}

/// Dispatch is strictly serial: a command is handed to the dispatcher only
/// after the dispatch before it has ended, so at most one is under way, and
/// that one exactly while the worker is in the dispatching phase. No response
/// is offered but at the end of a dispatch, so responses leave in the order
/// in which their requests were dispatched.
pub proof fn law_dispatch_is_serial<N, C, E, R>(phase: Phase, outcomes: Seq<Outcome<N, C, E, R>>)
    requires
        phase != Phase::Dispatching,
    ensures
        commands_dispatched(phase, outcomes).len() == dispatches_ended(phase, outcomes) + (
        if phase_after(phase, outcomes) == Phase::Dispatching {
            1nat
        } else {
            0nat
        }),
        responses_offered(phase, outcomes).len() <= dispatches_ended(phase, outcomes),
    decreases outcomes.len(),
{
    if outcomes.len() > 0 {
        law_dispatch_is_serial(phase, outcomes.drop_last());
    }
}

/// A channel that refuses what it is offered does not end the loop: whether
/// or not the channel took the item, the worker goes back to pumping.
pub proof fn law_refused_offer_is_swallowed<N, C, E, R>(phase: Phase, taken: bool)
    requires
        phase == Phase::SendingEvent || phase == Phase::SendingResponse,
    ensures
        next(phase, Outcome::<N, C, E, R>::Sent(taken)) == Some(
            (Phase::Pumping, Action::<N, C, E, R>::Pump),
        ),
{
}

/// When a worker ends with an error, that error is one of the four
/// engine-side failures, and it is the very error that the caller who first
/// sees the worker gone is given. A worker that ends cleanly is reported as
/// "target exited".
pub proof fn law_caller_sees_worker_error<N, C, E, R>(
    phase: Phase,
    outcomes: Seq<Outcome<N, C, E, R>>,
)
    ensures
        thread_result(phase, outcomes) matches Some(Err(cause)) ==> cause.is_engine_failure()
            && terminal_error(Err(cause)) == cause,
        thread_result(phase, outcomes) matches Some(Ok(_)) ==> terminal_error(
            thread_result(phase, outcomes)->0,
        ) == DebuggerError::TargetExited,
    decreases outcomes.len(),
{
    if outcomes.len() > 0 {
        law_caller_sees_worker_error(phase, outcomes.drop_last());
    }
}

/// At most one command is in flight: from a state with none in flight, the
/// requests sent exceed the responses taken by one while a command is in
/// flight and by nothing otherwise.
pub proof fn law_one_command_in_flight(s: BridgeState, calls: Seq<Call>)
    requires
        !s.in_flight,
    ensures
        requests_sent(s, calls) == responses_taken(s, calls) + (if state_after(
            s,
            calls,
        ).in_flight {
            1nat
        } else {
            0nat
        }),
        requests_sent(s, calls) <= responses_taken(s, calls) + 1,
    decreases calls.len(),
{
    if calls.len() > 0 {
        law_one_command_in_flight(s, calls.drop_last());
    }
}

/// A command asked for while another is in flight is not sent: the caller
/// must wait, and the bridge is left as it was.
pub proof fn law_second_command_waits(s: BridgeState)
    requires
        s.running,
        s.in_flight,
    ensures
        command_plan(s) == CommandPlan::Wait,
        apply(s, Call::IssueCommand) == s,
        command_plan(apply(s, Call::TakeResponse)) == CommandPlan::Send,
{
}

/// Exit is permanent: whatever is done with an exited bridge, it stays
/// exited, sends no request, and answers both kinds of call with
/// "target exited".
pub proof fn law_exit_is_permanent(s: BridgeState, calls: Seq<Call>)
    requires
        !s.running,
    ensures
        !state_after(s, calls).running,
        requests_sent(s, calls) == 0,
        command_plan(state_after(s, calls)) == CommandPlan::Fail(DebuggerError::TargetExited),
        event_plan(state_after(s, calls)) == EventPlan::Fail(DebuggerError::TargetExited),
    decreases calls.len(),
{
    if calls.len() > 0 {
        law_exit_is_permanent(s, calls.drop_last());
    }
}

} // verus!
