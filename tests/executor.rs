use rusty_workers_runtime::executor::{
    Command, Event, InstanceState, Phase, ScriptOutcome, ServiceCall, Step, SyncCall,
};
use rusty_workers_runtime::handle::fetch_outcome;
use rusty_workers_runtime::limits::{
    heap_limit_bytes, on_memory_limit_exceeded, record_time_limit, DoubleMleGuard, SAFE_AREA_SIZE,
};
use rusty_workers_runtime::types::{
    ExecutionError, GenericError, ResponseObject, TerminationReason, TimerControl,
};

fn ready_instance() -> InstanceState {
    let mut s = InstanceState::new();
    let out = s.step(Event::ScriptReturned(ScriptOutcome::Completed));
    assert!(matches!(out.command, Command::RunWorkerScript));
    assert_eq!(out.timer, vec![TimerControl::Start]);
    let out = s.step(Event::ScriptReturned(ScriptOutcome::Completed));
    assert!(matches!(out.command, Command::AwaitTask));
    assert!(s.accepts_task());
    s
}

fn dispatch(s: &mut InstanceState) {
    let out = s.step(Event::TaskArrived);
    assert!(matches!(out.command, Command::DispatchEvent));
    assert_eq!(out.timer, vec![TimerControl::Start]);
}

fn ok_response() -> ResponseObject {
    ResponseObject { status: 200, body: b"ok".to_vec() }
}

fn call(c: SyncCall) -> Event {
    Event::HostCall(ServiceCall::Sync(c))
}

#[test]
fn send_response_then_done_serves_twice() {
    let mut s = ready_instance();
    for _ in 0..2 {
        dispatch(&mut s);
        let out = s.step(call(SyncCall::SendFetchResponse(ok_response())));
        assert!(matches!(out.command, Command::ContinueScript));
        let r = fetch_outcome(true, out.response);
        assert_eq!(r, Ok(ok_response()));
        let out = s.step(call(SyncCall::Done));
        assert!(out.response.is_none());
        let out = s.step(Event::ScriptReturned(ScriptOutcome::Completed));
        assert!(out.response.is_none());
        assert!(matches!(out.command, Command::AwaitTask));
        assert_eq!(out.timer, vec![TimerControl::Stop, TimerControl::Reset]);
        assert!(out.publish_stats);
        assert!(s.accepts_task());
    }
}

#[test]
fn second_response_is_dropped() {
    let mut s = ready_instance();
    dispatch(&mut s);
    let out = s.step(call(SyncCall::SendFetchResponse(ok_response())));
    assert!(out.response.is_some());
    let out = s.step(call(SyncCall::SendFetchResponse(ResponseObject::with_status(404))));
    assert!(out.response.is_none());
}

#[test]
fn done_without_response_gives_500() {
    let mut s = ready_instance();
    dispatch(&mut s);
    let out = s.step(call(SyncCall::Done));
    assert!(out.response.is_none());
    let out = s.step(Event::ScriptReturned(ScriptOutcome::Completed));
    let r = fetch_outcome(true, out.response);
    assert_eq!(r, Ok(ResponseObject { status: 500, body: Vec::new() }));
    assert!(s.accepts_task());
}

#[test]
fn script_exception_keeps_instance() {
    let mut s = ready_instance();
    dispatch(&mut s);
    let out = s.step(Event::ScriptReturned(ScriptOutcome::Threw("boom".to_string())));
    let r = fetch_outcome(true, out.response);
    assert_eq!(r, Err(ExecutionError::ScriptThrowsException("boom".to_string())));
    assert!(!ExecutionError::ScriptThrowsException("boom".to_string()).terminates_worker());
    assert!(matches!(out.command, Command::AwaitTask));
    assert!(!s.has_ended());
    dispatch(&mut s);
    let out = s.step(call(SyncCall::SendFetchResponse(ok_response())));
    assert_eq!(fetch_outcome(true, out.response), Ok(ok_response()));
}

#[test]
fn memory_limit_scenario() {
    let limit = heap_limit_bytes(16).unwrap();
    assert_eq!(limit, 16 * 1024 * 1024);
    let mut guard = DoubleMleGuard::new();
    let mut reason = TerminationReason::Unknown;
    let mut s = ready_instance();
    dispatch(&mut s);
    let (new_limit, terminate) = on_memory_limit_exceeded(&mut guard, &mut reason, limit);
    assert!(terminate);
    assert_eq!(new_limit, limit + SAFE_AREA_SIZE);
    assert_eq!(reason, TerminationReason::MemoryLimit);
    let out = s.step(Event::ScriptReturned(ScriptOutcome::Terminated(reason)));
    assert_eq!(fetch_outcome(true, out.response), Err(ExecutionError::MemoryLimitExceeded));
    assert!(matches!(
        out.command,
        Command::Exit(Err(GenericError::Execution(ExecutionError::MemoryLimitExceeded)))
    ));
    assert!(s.has_ended());
    assert!(!s.accepts_task());
    let out = s.step(Event::TaskArrived);
    assert!(matches!(out.command, Command::Ignore));
    assert_eq!(fetch_outcome(false, None), Err(ExecutionError::NoSuchWorker));
}

#[test]
fn repeated_memory_trigger_extends_again() {
    let mut guard = DoubleMleGuard::new();
    let mut reason = TerminationReason::Unknown;
    let (first, t1) = on_memory_limit_exceeded(&mut guard, &mut reason, 1000);
    assert_eq!((first, t1), (1000 + 1048576, true));
    reason = TerminationReason::TimeLimit;
    let (second, t2) = on_memory_limit_exceeded(&mut guard, &mut reason, first);
    assert_eq!((second, t2), (1000 + 2 * 1048576, false));
    assert_eq!(reason, TerminationReason::TimeLimit);
    assert!(guard.triggered_mle);
}

#[test]
fn heap_limit_edges() {
    assert_eq!(heap_limit_bytes(0), Some(0));
    assert_eq!(heap_limit_bytes(1), Some(1048576));
    assert_eq!(heap_limit_bytes(u32::MAX), Some(u32::MAX as usize * 1048576));
}

#[test]
fn time_limit_is_fatal() {
    let mut reason = TerminationReason::Unknown;
    record_time_limit(&mut reason);
    assert_eq!(reason, TerminationReason::TimeLimit);
    let mut s = ready_instance();
    dispatch(&mut s);
    let out = s.step(Event::ScriptReturned(ScriptOutcome::Terminated(reason)));
    let r = fetch_outcome(true, out.response);
    assert_eq!(r, Err(ExecutionError::TimeLimitExceeded));
    assert!(ExecutionError::TimeLimitExceeded.terminates_worker());
    assert!(s.has_ended());
    assert_eq!(fetch_outcome(false, None), Err(ExecutionError::NoSuchWorker));
}

#[test]
fn unknown_termination_is_fatal() {
    let mut s = ready_instance();
    dispatch(&mut s);
    let out = s.step(Event::ScriptReturned(ScriptOutcome::Terminated(TerminationReason::Unknown)));
    assert_eq!(fetch_outcome(true, out.response), Err(ExecutionError::RuntimeThrowsException));
    assert!(s.has_ended());
}

#[test]
fn io_timeout_scenario() {
    let mut s = ready_instance();
    dispatch(&mut s);
    let out = s.step(Event::HostCall(ServiceCall::Async));
    assert!(matches!(out.command, Command::IssueIo));
    let out = s.step(Event::ScriptReturned(ScriptOutcome::Completed));
    assert!(matches!(out.command, Command::WaitIo));
    assert_eq!(out.timer, vec![TimerControl::Stop]);
    assert!(out.publish_stats);
    let out = s.step(Event::IoTimedOut);
    assert_eq!(fetch_outcome(true, out.response), Err(ExecutionError::IoTimeout));
    assert!(matches!(
        out.command,
        Command::Exit(Err(GenericError::Execution(ExecutionError::IoTimeout)))
    ));
    assert_eq!(s.phase, Phase::Retired);
    assert_eq!(fetch_outcome(false, None), Err(ExecutionError::NoSuchWorker));
}

#[test]
fn io_completion_resumes_script() {
    let mut s = ready_instance();
    dispatch(&mut s);
    s.step(Event::HostCall(ServiceCall::Async));
    s.step(Event::ScriptReturned(ScriptOutcome::Completed));
    let out = s.step(Event::IoCompleted);
    assert!(matches!(out.command, Command::InvokeCallback));
    assert_eq!(out.timer, vec![TimerControl::Start]);
    assert_eq!(s.phase, Phase::Running);
}

#[test]
fn async_call_while_loading_raises() {
    let mut s = InstanceState::new();
    let out = s.step(Event::HostCall(ServiceCall::Async));
    match out.command {
        Command::RaiseInScript(m) => assert_eq!(m, "io service not available"),
        other => panic!("unexpected command {:?}", other),
    }
    assert!(out.response.is_none());
    assert_eq!(s, InstanceState::new());
    s.step(Event::ScriptReturned(ScriptOutcome::Completed));
    let out = s.step(Event::HostCall(ServiceCall::Async));
    assert!(matches!(out.command, Command::RaiseInScript(_)));
    assert_eq!(s.phase, Phase::LoadingScript);
}

#[test]
fn host_calls_while_loading() {
    let mut s = InstanceState::new();
    let out = s.step(call(SyncCall::Log("booting".to_string())));
    match out.command {
        Command::Log(t) => assert_eq!(t, "booting"),
        other => panic!("unexpected command {:?}", other),
    }
    let out = s.step(call(SyncCall::SendFetchResponse(ok_response())));
    assert!(out.response.is_none());
    assert!(matches!(out.command, Command::ContinueScript));
    let out = s.step(call(SyncCall::Done));
    assert!(matches!(out.command, Command::ContinueScript));
    s.step(Event::ScriptReturned(ScriptOutcome::Completed));
    s.step(Event::ScriptReturned(ScriptOutcome::Completed));
    assert!(s.accepts_task());
    assert!(!s.done);
}

#[test]
fn engine_failure_while_loading_ends() {
    let mut s = InstanceState::new();
    let out = s.step(Event::EngineFailed("conversion".to_string()));
    assert!(matches!(out.command, Command::Exit(Err(GenericError::Other(_)))));
    assert!(s.has_ended());
}

#[test]
fn log_is_forwarded() {
    let mut s = ready_instance();
    dispatch(&mut s);
    let out = s.step(call(SyncCall::Log("hello".to_string())));
    match out.command {
        Command::Log(t) => assert_eq!(t, "hello"),
        other => panic!("unexpected command {:?}", other),
    }
    assert_eq!(s.phase, Phase::Running);
}

#[test]
fn init_failures() {
    let mut s = InstanceState::new();
    let out = s.step(Event::ScriptReturned(ScriptOutcome::Threw("syntax".to_string())));
    assert!(matches!(out.command, Command::Exit(Err(GenericError::ScriptInitException(ref m))) if m == "syntax"));
    assert!(s.has_ended());
    let mut s = InstanceState::new();
    s.step(Event::ScriptReturned(ScriptOutcome::Completed));
    let out = s.step(Event::ScriptReturned(ScriptOutcome::Terminated(TerminationReason::TimeLimit)));
    assert!(matches!(
        out.command,
        Command::Exit(Err(GenericError::Execution(ExecutionError::TimeLimitExceeded)))
    ));
}

#[test]
fn channel_close_ends_cleanly() {
    let mut s = ready_instance();
    let out = s.step(Event::TaskChannelClosed);
    assert!(matches!(out.command, Command::Exit(Ok(()))));
    assert_eq!(s.phase, Phase::Finished);
}

#[test]
fn engine_failure_drops_caller() {
    let mut s = ready_instance();
    dispatch(&mut s);
    let out = s.step(Event::EngineFailed("bad _dispatchEvent".to_string()));
    assert!(out.response.is_none());
    assert!(matches!(out.command, Command::Exit(Err(GenericError::Other(_)))));
    assert_eq!(fetch_outcome(true, None), Err(ExecutionError::RuntimeThrowsException));
}

#[test]
fn responses_follow_task_order() {
    let mut s = ready_instance();
    let mut answered: Vec<u32> = Vec::new();
    let mut task: u32 = 0;
    let events = |i: u32| -> Vec<Event> {
        if i % 2 == 0 {
            vec![Event::TaskArrived, call(SyncCall::Done), Event::ScriptReturned(ScriptOutcome::Completed)]
        } else {
            vec![
                Event::TaskArrived,
                call(SyncCall::SendFetchResponse(ok_response())),
                call(SyncCall::SendFetchResponse(ok_response())),
                Event::ScriptReturned(ScriptOutcome::Threw("x".to_string())),
            ]
        }
    };
    for i in 0..6 {
        for e in events(i) {
            if matches!(e, Event::TaskArrived) {
                task += 1;
            }
            let out: Step = s.step(e);
            if out.response.is_some() {
                answered.push(task);
            }
        }
    }
    assert_eq!(answered, vec![1, 2, 3, 4, 5, 6]);
}
