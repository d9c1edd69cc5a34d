use windbg_bridge::error::DebuggerError;
use windbg_bridge::facade::{CommandPlan, EventPlan, EventRace, EventStep};
use windbg_bridge::WinDbg;
use windbg_bridge::worker::{Action, Outcome, WorkerLoop};

type Out = Outcome<u32, &'static str, String, String>;
type Act = Action<u32, &'static str, String, String>;

fn running() -> WinDbg {
    WinDbg::launch(true).expect("a started runtime gives a running bridge")
}

#[test]
fn launch_gives_a_running_bridge() {
    let bridge = running();
    assert!(!bridge.is_exited());
    assert!(!bridge.has_command_in_flight());
    assert_eq!(bridge.next_event(), EventPlan::Race);
}

#[test]
fn launch_fails_when_the_runtime_could_not_be_created() {
    assert_eq!(WinDbg::launch(false).err(), Some(DebuggerError::Launch));
}

#[test]
fn a_command_is_sent_and_its_response_returned() {
    let mut bridge = running();
    assert_eq!(bridge.handle_command(), CommandPlan::Send);
    assert!(bridge.has_command_in_flight());
    assert_eq!(bridge.command_response(Some("stepped")), Ok("stepped"));
    assert!(!bridge.has_command_in_flight());
    assert!(!bridge.is_exited());
}

#[test]
fn a_closed_response_channel_is_target_exited() {
    let mut bridge = running();
    assert_eq!(bridge.handle_command(), CommandPlan::Send);
    assert_eq!(bridge.command_response::<&str>(None), Err(DebuggerError::TargetExited));
    assert!(!bridge.has_command_in_flight());
    assert!(!bridge.is_exited());
    assert_eq!(bridge.next_event(), EventPlan::Race);
}

#[test]
fn an_event_is_delivered_and_changes_nothing() {
    let mut bridge = running();
    assert_eq!(bridge.handle_command(), CommandPlan::Send);
    assert_eq!(bridge.event_outcome(EventRace::Event(7u8)), EventStep::Deliver(7u8));
    assert!(!bridge.is_exited());
    assert!(bridge.has_command_in_flight());
}

#[test]
fn a_closed_event_channel_joins_the_worker() {
    let mut bridge = running();
    assert_eq!(bridge.event_outcome::<u8>(EventRace::Closed), EventStep::JoinWorker);
    assert!(bridge.is_exited());
}

#[test]
fn a_fired_exit_signal_joins_the_worker() {
    let mut bridge = running();
    assert_eq!(bridge.event_outcome::<u8>(EventRace::ExitFired), EventStep::JoinWorker);
    assert!(bridge.is_exited());
}

#[test]
fn the_worker_error_is_reported_as_it_is() {
    for cause in [
        DebuggerError::Connection(-1),
        DebuggerError::Pump(2),
        DebuggerError::Translation(3),
        DebuggerError::Dispatch(4),
        DebuggerError::TargetExited,
        DebuggerError::Launch,
    ] {
        assert_eq!(WinDbg::worker_outcome(Err(cause)), cause);
    }
}

#[test]
fn a_clean_worker_end_is_reported_as_target_exited() {
    assert_eq!(WinDbg::worker_outcome(Ok(())), DebuggerError::TargetExited);
}

#[test]
fn an_exited_bridge_fails_every_call_and_sends_nothing() {
    let mut bridge = running();
    bridge.event_outcome::<u8>(EventRace::ExitFired);
    for _ in 0..5 {
        assert_eq!(bridge.handle_command(), CommandPlan::Fail(DebuggerError::TargetExited));
        assert!(!bridge.has_command_in_flight());
        assert_eq!(bridge.next_event(), EventPlan::Fail(DebuggerError::TargetExited));
        assert_eq!(bridge.command_response::<u8>(None), Err(DebuggerError::TargetExited));
        assert!(bridge.is_exited());
    }
}

#[test]
fn requests_never_exceed_responses_by_more_than_one() {
    let mut bridge = running();
    let mut sent = 0u32;
    let mut taken = 0u32;
    for round in 0..20u32 {
        if bridge.handle_command() == CommandPlan::Send {
            sent += 1;
        }
        assert!(sent <= taken + 1);
        assert_eq!(bridge.has_command_in_flight(), sent == taken + 1);
        if round % 3 != 0 {
            if bridge.has_command_in_flight() {
                taken += 1;
            }
            assert_eq!(bridge.command_response(Some(round)), Ok(round));
        }
        assert!(sent <= taken + 1);
    }
    assert_eq!(sent, 13);
}

#[test]
fn native_code_is_kept_for_engine_failures_only() {
    assert_eq!(DebuggerError::Connection(5).native_code(), Some(5));
    assert_eq!(DebuggerError::Pump(-6).native_code(), Some(-6));
    assert_eq!(DebuggerError::Translation(7).native_code(), Some(7));
    assert_eq!(DebuggerError::Dispatch(8).native_code(), Some(8));
    assert_eq!(DebuggerError::Launch.native_code(), None);
    assert_eq!(DebuggerError::TargetExited.native_code(), None);
}

#[test]
fn a_disconnect_right_after_launch_fails_the_first_next_event() {
    let mut worker = WorkerLoop::start();
    assert_eq!(worker.step(Out::Connected(Ok(()))), Some(Act::Pump));
    assert_eq!(worker.step(Out::Pumped(Ok(()))), Some(Act::Race { timeout_millis: 50 }));
    let finish = worker.step(Out::Notification(None));
    let result = match finish {
        Some(Action::Finish(result)) => result,
        other => panic!("the worker did not finish: {:?}", other),
    };

    let mut bridge = running();
    assert_eq!(bridge.next_event(), EventPlan::Race);
    assert_eq!(bridge.event_outcome::<String>(EventRace::ExitFired), EventStep::JoinWorker);
    assert_eq!(WinDbg::worker_outcome(result), DebuggerError::TargetExited);
    assert_eq!(bridge.next_event(), EventPlan::Fail(DebuggerError::TargetExited));
}

#[test]
fn a_failed_connection_is_what_the_first_next_event_reports() {
    let mut worker = WorkerLoop::start();
    let result = match worker.step(Out::Connected(Err(-2147467259))) {
        Some(Action::Finish(result)) => result,
        other => panic!("the worker did not finish: {:?}", other),
    };
    let mut bridge = running();
    assert_eq!(bridge.next_event(), EventPlan::Race);
    assert_eq!(bridge.event_outcome::<String>(EventRace::Closed), EventStep::JoinWorker);
    assert_eq!(WinDbg::worker_outcome(result), DebuggerError::Connection(-2147467259));
    assert_eq!(bridge.next_event(), EventPlan::Fail(DebuggerError::TargetExited));
    assert_eq!(bridge.handle_command(), CommandPlan::Fail(DebuggerError::TargetExited));
}

#[test]
fn a_single_step_on_an_idle_stream_returns_the_handler_response() {
    let mut bridge = running();
    assert_eq!(bridge.handle_command(), CommandPlan::Send);

    let mut worker = WorkerLoop::start();
    let mut actions = vec![
        worker.step(Out::Connected(Ok(()))),
        worker.step(Out::Pumped(Ok(()))),
        worker.step(Out::TimedOut),
        worker.step(Out::Pumped(Ok(()))),
        worker.step(Out::Command(Some("single-step"))),
    ];
    assert_eq!(actions[4], Some(Act::Dispatch("single-step")));
    let response = match worker.step(Out::Dispatched(Ok(Some("stepped".to_string())))) {
        Some(Action::SendResponse(response)) => response,
        other => panic!("no response was offered: {:?}", other),
    };
    actions.push(worker.step(Out::Sent(true)));
    assert!(!actions.iter().any(|a| matches!(a, Some(Action::SendEvent(_)))));
    assert!(!worker.is_finished());

    assert_eq!(bridge.command_response(Some(response)), Ok("stepped".to_string()));
    assert!(!bridge.has_command_in_flight());
}

#[test]
fn a_second_command_waits_until_the_first_response_is_taken() {
    let mut bridge = running();
    assert_eq!(bridge.handle_command(), CommandPlan::Send);
    assert_eq!(bridge.handle_command(), CommandPlan::Wait);
    assert_eq!(bridge.handle_command(), CommandPlan::Wait);
    assert!(bridge.has_command_in_flight());
    assert_eq!(bridge.command_response(Some("first")), Ok("first"));
    assert_eq!(bridge.handle_command(), CommandPlan::Send);
    assert_eq!(bridge.command_response(Some("second")), Ok("second"));
    assert!(!bridge.has_command_in_flight());
}
