use vstd::prelude::*;

use crate::types::{
    error_for_termination, termination_error, ExecutionError, ExecutionResult, GenericError,
    GenericResult, ResponseObject, TerminationReason, TimerControl,
};

verus! {

/// Where the execution loop of one instance stands.
#[derive(Copy, Clone, Debug, PartialEq, Eq, Structural)]
pub enum Phase {
    /// The bootstrap library script is running.
    LoadingLibrary,
    /// The worker's own script is running.
    LoadingScript,
    /// Blocked on the task channel.
    AwaitingTask,
    /// Script code of the current task is running.
    Running,
    /// Blocked on the I/O waiter for the next completed call.
    AwaitingIo,
    /// The task channel closed; the loop ended cleanly.
    Finished,
    /// A fatal failure ended the loop; the instance is never reused.
    Retired,
}

/// How a re-entry into script code ended.
#[derive(Debug)]
pub enum ScriptOutcome {
    Completed,
    /// An ordinary exception, with its message.
    Threw(String),
    /// A forced termination, with the reason recorded for it.
    Terminated(TerminationReason),
}

/// A synchronous host call.
#[derive(Debug)]
pub enum SyncCall {
    Log(String),
    Done,
    SendFetchResponse(ResponseObject),
}

/// A call that a script makes through `_callService`.
#[derive(Debug)]
pub enum ServiceCall {
    Sync(SyncCall),
    /// An asynchronous call with a callback, to be handed to the I/O waiter.
    Async,
}

/// What happened outside the loop since its last step.
#[derive(Debug)]
pub enum Event {
    ScriptReturned(ScriptOutcome),
    TaskArrived,
    TaskChannelClosed,
    HostCall(ServiceCall),
    IoCompleted,
    IoTimedOut,
    /// The engine could not carry out the last command (a missing entry
    /// point, a value that could not be converted).
    EngineFailed(String),
}

/// What the driver of the loop does next.
#[derive(Debug)]
pub enum Command {
    RunWorkerScript,
    AwaitTask,
    /// Call `_dispatchEvent` with the event built from the task.
    DispatchEvent,
    WaitIo,
    /// Call the completed callback with its parsed result.
    InvokeCallback,
    /// Forward the text to diagnostics, then return to the script.
    Log(String),
    /// Return to the script from a host call.
    ContinueScript,
    /// Hand the asynchronous call to the I/O waiter, then return to the script.
    IssueIo,
    /// Throw an error with this message into the script.
    RaiseInScript(String),
    /// End the loop with this result.
    Exit(GenericResult<()>),
    /// The event has no meaning in this phase; nothing changed.
    Ignore,
}

/// The outcome of one step of the loop.
#[derive(Debug)]
pub struct Step {
    /// Signals for the time-budget actor, in order.
    pub timer: Vec<TimerControl>,
    /// The response to deliver to the waiting caller, if any.
    pub response: Option<ExecutionResult<ResponseObject>>,
    /// Whether heap statistics are published before the command.
    pub publish_stats: bool,
    pub command: Command,
}

/// The decisions of one instance's execution loop, apart from the engine.
#[derive(Copy, Clone, Debug, PartialEq, Eq, Structural)]
pub struct InstanceState {
    pub phase: Phase,
    /// The script declared the current task complete.
    pub done: bool,
    /// A caller is still waiting for the current task's response.
    pub response_pending: bool,
    /// An I/O waiter is active for the current task.
    pub io_active: bool,
}

/// The state in which the loop waits for the next task.
pub open spec fn ready_state() -> InstanceState {
    InstanceState { phase: Phase::AwaitingTask, done: false, response_pending: false, io_active: false }
}

/// The state of an instance whose loop has ended.
pub open spec fn ended_state(s: InstanceState, phase: Phase) -> InstanceState {
    InstanceState { phase, done: s.done, response_pending: false, io_active: s.io_active }
}

/// `r` is the response delivered when `res` is sent to the caller of `s`, if
/// one still waits.
pub open spec fn delivers(s: InstanceState, r: Option<ExecutionResult<ResponseObject>>, res: ExecutionResult<ResponseObject>) -> bool {
    if s.response_pending { r == Some(res) } else { r is None }
}

/// `r` is the default response with status 500, delivered if a caller waits.
pub open spec fn delivers_default(s: InstanceState, r: Option<ExecutionResult<ResponseObject>>) -> bool {
    if s.response_pending {
        r matches Some(Ok(resp)) && resp.status == 500 && resp.body@ == Seq::<u8>::empty()
    } else {
        r is None
    }
}

pub open spec fn quiet(out: Step) -> bool {
    out.timer@ == Seq::<TimerControl>::empty() && out.response is None && !out.publish_stats
}

/// One step of the loop: in state `s` the event `e` leads to state `s2`, with
/// the outputs `out`.
#[verifier::opaque]
pub open spec fn step_spec(s: InstanceState, e: Event, s2: InstanceState, out: Step) -> bool {
    match (s.phase, e) {
        (Phase::LoadingLibrary, Event::ScriptReturned(ScriptOutcome::Completed)) => {
            &&& s2 == InstanceState { phase: Phase::LoadingScript, ..s }
            &&& out.timer@ == seq![TimerControl::Start]
            &&& out.response is None && !out.publish_stats
            &&& out.command is RunWorkerScript
        },
        (Phase::LoadingScript, Event::ScriptReturned(ScriptOutcome::Completed)) => {
            &&& s2 == ready_state()
            &&& out.timer@ == seq![TimerControl::Stop, TimerControl::Reset]
            &&& out.response is None && out.publish_stats
            &&& out.command is AwaitTask
        },
        (Phase::LoadingLibrary, Event::ScriptReturned(ScriptOutcome::Threw(m)))
        | (Phase::LoadingScript, Event::ScriptReturned(ScriptOutcome::Threw(m))) => {
            &&& s2 == ended_state(s, Phase::Retired)
            &&& quiet(out)
            &&& out.command == Command::Exit(Err(GenericError::ScriptInitException(m)))
        },
        (Phase::LoadingLibrary, Event::ScriptReturned(ScriptOutcome::Terminated(reason)))
        | (Phase::LoadingScript, Event::ScriptReturned(ScriptOutcome::Terminated(reason))) => {
            &&& s2 == ended_state(s, Phase::Retired)
            &&& quiet(out)
            &&& out.command == Command::Exit(Err(GenericError::Execution(termination_error(reason))))
        },
        (Phase::AwaitingTask, Event::TaskArrived) => {
            &&& s2 == InstanceState { phase: Phase::Running, done: false, response_pending: true, io_active: true }
            &&& out.timer@ == seq![TimerControl::Start]
            &&& out.response is None && !out.publish_stats
            &&& out.command is DispatchEvent
        },
        (Phase::AwaitingTask, Event::TaskChannelClosed) => {
            &&& s2 == ended_state(s, Phase::Finished)
            &&& quiet(out)
            &&& out.command == Command::Exit(Ok(()))
        },
        (Phase::Running | Phase::LoadingLibrary | Phase::LoadingScript, Event::HostCall(ServiceCall::Sync(SyncCall::Log(text)))) => {
            &&& s2 == s
            &&& quiet(out)
            &&& out.command == Command::Log(text)
        },
        (Phase::Running | Phase::LoadingLibrary | Phase::LoadingScript, Event::HostCall(ServiceCall::Sync(SyncCall::Done))) => {
            &&& s2 == InstanceState { done: true, ..s }
            &&& quiet(out)
            &&& out.command is ContinueScript
        },
        (Phase::Running | Phase::LoadingLibrary | Phase::LoadingScript, Event::HostCall(ServiceCall::Sync(SyncCall::SendFetchResponse(resp)))) => {
            &&& s2 == InstanceState { response_pending: false, ..s }
            &&& out.timer@ == Seq::<TimerControl>::empty() && !out.publish_stats
            &&& delivers(s, out.response, Ok(resp))
            &&& out.command is ContinueScript
        },
        (Phase::Running | Phase::LoadingLibrary | Phase::LoadingScript, Event::HostCall(ServiceCall::Async)) => {
            &&& s2 == s
            &&& quiet(out)
            &&& if s.io_active {
                out.command is IssueIo
            } else {
                out.command matches Command::RaiseInScript(msg) && msg@ == io_unavailable_message()
            }
        },
        (Phase::Running, Event::ScriptReturned(ScriptOutcome::Completed)) => {
            if s.done {
                &&& s2 == ready_state()
                &&& out.timer@ == seq![TimerControl::Stop, TimerControl::Reset]
                &&& delivers_default(s, out.response)
                &&& out.publish_stats
                &&& out.command is AwaitTask
            } else {
                &&& s2 == InstanceState { phase: Phase::AwaitingIo, ..s }
                &&& out.timer@ == seq![TimerControl::Stop]
                &&& out.response is None && out.publish_stats
                &&& out.command is WaitIo
            }
        },
        (Phase::Running, Event::ScriptReturned(ScriptOutcome::Threw(m))) => {
            &&& s2 == ready_state()
            &&& out.timer@ == seq![TimerControl::Stop, TimerControl::Reset]
            &&& delivers(s, out.response, Err(ExecutionError::ScriptThrowsException(m)))
            &&& out.publish_stats
            &&& out.command is AwaitTask
        },
        (Phase::Running, Event::ScriptReturned(ScriptOutcome::Terminated(reason))) => {
            &&& s2 == ended_state(s, Phase::Retired)
            &&& out.timer@ == Seq::<TimerControl>::empty() && !out.publish_stats
            &&& delivers(s, out.response, Err(termination_error(reason)))
            &&& out.command == Command::Exit(Err(GenericError::Execution(termination_error(reason))))
        },
        (Phase::AwaitingIo, Event::IoCompleted) => {
            &&& s2 == InstanceState { phase: Phase::Running, ..s }
            &&& out.timer@ == seq![TimerControl::Start]
            &&& out.response is None && !out.publish_stats
            &&& out.command is InvokeCallback
        },
        (Phase::AwaitingIo, Event::IoTimedOut) => {
            &&& s2 == ended_state(s, Phase::Retired)
            &&& out.timer@ == Seq::<TimerControl>::empty() && !out.publish_stats
            &&& delivers(s, out.response, Err(ExecutionError::IoTimeout))
            &&& out.command == Command::Exit(Err(GenericError::Execution(ExecutionError::IoTimeout)))
        },
        (Phase::Running | Phase::LoadingLibrary | Phase::LoadingScript, Event::EngineFailed(m))
        | (Phase::AwaitingTask, Event::EngineFailed(m))
        | (Phase::AwaitingIo, Event::EngineFailed(m)) => {
            &&& s2 == ended_state(s, Phase::Retired)
            &&& quiet(out)
            &&& out.command == Command::Exit(Err(GenericError::Other(m)))
        },
        _ => {
            &&& s2 == s
            &&& quiet(out)
            &&& out.command is Ignore
        },
    }
}

pub open spec fn io_unavailable_message() -> Seq<char> {
    "io service not available"@
}

impl InstanceState {
    /// A fresh instance, about to run the bootstrap library script.
    pub fn new() -> (r: InstanceState)
        ensures
            r == (InstanceState { phase: Phase::LoadingLibrary, done: false, response_pending: false, io_active: false }),
    {
        InstanceState { phase: Phase::LoadingLibrary, done: false, response_pending: false, io_active: false }
    }

    /// Whether the loop takes a new task in this state.
    pub open spec fn spec_accepts_task(&self) -> bool {
        self.phase is AwaitingTask
    }

    #[verifier::when_used_as_spec(spec_accepts_task)]
    pub fn accepts_task(&self) -> (r: bool)
        ensures
            r == self.spec_accepts_task(),
    {
        match self.phase {
            Phase::AwaitingTask => true,
            _ => false,
        }
    }

    /// Whether the loop has ended, cleanly or not.
    pub open spec fn spec_has_ended(&self) -> bool {
        self.phase is Finished || self.phase is Retired
    }

    #[verifier::when_used_as_spec(spec_has_ended)]
    pub fn has_ended(&self) -> (r: bool)
        ensures
            r == self.spec_has_ended(),
    {
        match self.phase {
            Phase::Finished | Phase::Retired => true,
            _ => false,
        }
    }

    /// Hands `res` to the caller that waits for the current task, if one does.
    fn try_send_fetch_response(&mut self, res: ExecutionResult<ResponseObject>) -> (r: Option<ExecutionResult<ResponseObject>>)
        ensures
            delivers(*old(self), r, res),
            *final(self) == (InstanceState { response_pending: false, ..*old(self) }),
    {
        if self.response_pending {
            self.response_pending = false;
            Some(res)
        } else {
            None
        }
    }

    /// Leaves the current task and waits for the next one.
    fn enter_ready(&mut self)
        ensures
            *final(self) == ready_state(),
    {
        self.phase = Phase::AwaitingTask;
        self.done = false;
        self.response_pending = false;
        self.io_active = false;
    }

    /// Ends the loop in `phase`; a caller still waiting gets no response.
    fn end(&mut self, phase: Phase)
        ensures
            *final(self) == ended_state(*old(self), phase),
    {
        self.phase = phase;
        self.response_pending = false;
    }

    /// Takes the loop one step on `e`.
    pub fn step(&mut self, e: Event) -> (out: Step)
        ensures
            step_spec(*old(self), e, *final(self), out),
    {
        reveal(step_spec);
        let phase = self.phase;
        match (phase, e) {
            (Phase::LoadingLibrary, Event::ScriptReturned(ScriptOutcome::Completed)) => {
                self.phase = Phase::LoadingScript;
                Step { timer: one_signal(TimerControl::Start), response: None, publish_stats: false, command: Command::RunWorkerScript }
            },
            (Phase::LoadingScript, Event::ScriptReturned(ScriptOutcome::Completed)) => {
                self.enter_ready();
                Step {
                    timer: two_signals(TimerControl::Stop, TimerControl::Reset),
                    response: None,
                    publish_stats: true,
                    command: Command::AwaitTask,
                }
            },
            (Phase::LoadingLibrary, Event::ScriptReturned(ScriptOutcome::Threw(m)))
            | (Phase::LoadingScript, Event::ScriptReturned(ScriptOutcome::Threw(m))) => {
                self.end(Phase::Retired);
                quiet_step(Command::Exit(Err(GenericError::ScriptInitException(m))))
            },
            (Phase::LoadingLibrary, Event::ScriptReturned(ScriptOutcome::Terminated(reason)))
            | (Phase::LoadingScript, Event::ScriptReturned(ScriptOutcome::Terminated(reason))) => {
                self.end(Phase::Retired);
                quiet_step(Command::Exit(Err(GenericError::Execution(error_for_termination(reason)))))
            },
            (Phase::AwaitingTask, Event::TaskArrived) => {
                self.phase = Phase::Running;
                self.done = false;
                self.response_pending = true;
                self.io_active = true;
                Step { timer: one_signal(TimerControl::Start), response: None, publish_stats: false, command: Command::DispatchEvent }
            },
            (Phase::AwaitingTask, Event::TaskChannelClosed) => {
                self.end(Phase::Finished);
                quiet_step(Command::Exit(Ok(())))
            },
            (Phase::Running | Phase::LoadingLibrary | Phase::LoadingScript, Event::HostCall(ServiceCall::Sync(SyncCall::Log(text)))) => {
                quiet_step(Command::Log(text))
            },
            (Phase::Running | Phase::LoadingLibrary | Phase::LoadingScript, Event::HostCall(ServiceCall::Sync(SyncCall::Done))) => {
                self.done = true;
                quiet_step(Command::ContinueScript)
            },
            (Phase::Running | Phase::LoadingLibrary | Phase::LoadingScript, Event::HostCall(ServiceCall::Sync(SyncCall::SendFetchResponse(resp)))) => {
                let response = self.try_send_fetch_response(Ok(resp));
                Step { timer: Vec::new(), response, publish_stats: false, command: Command::ContinueScript }
            },
            (Phase::Running | Phase::LoadingLibrary | Phase::LoadingScript, Event::HostCall(ServiceCall::Async)) => {
                if self.io_active {
                    quiet_step(Command::IssueIo)
                } else {
                    proof {
                        reveal_strlit("io service not available");
                    }
                    quiet_step(Command::RaiseInScript(String::from_str("io service not available")))
                }
            },
            (Phase::Running, Event::ScriptReturned(ScriptOutcome::Completed)) => {
                if self.done {
                    let response = self.try_send_fetch_response(Ok(ResponseObject::with_status(500)));
                    self.enter_ready();
                    Step {
                        timer: two_signals(TimerControl::Stop, TimerControl::Reset),
                        response,
                        publish_stats: true,
                        command: Command::AwaitTask,
                    }
                } else {
                    self.phase = Phase::AwaitingIo;
                    Step { timer: one_signal(TimerControl::Stop), response: None, publish_stats: true, command: Command::WaitIo }
                }
            },
            (Phase::Running, Event::ScriptReturned(ScriptOutcome::Threw(m))) => {
                let response = self.try_send_fetch_response(Err(ExecutionError::ScriptThrowsException(m)));
                self.enter_ready();
                Step {
                    timer: two_signals(TimerControl::Stop, TimerControl::Reset),
                    response,
                    publish_stats: true,
                    command: Command::AwaitTask,
                }
            },
            (Phase::Running, Event::ScriptReturned(ScriptOutcome::Terminated(reason))) => {
                let response = self.try_send_fetch_response(Err(error_for_termination(reason)));
                self.end(Phase::Retired);
                Step {
                    timer: Vec::new(),
                    response,
                    publish_stats: false,
                    command: Command::Exit(Err(GenericError::Execution(error_for_termination(reason)))),
                }
            },
            (Phase::AwaitingIo, Event::IoCompleted) => {
                self.phase = Phase::Running;
                Step { timer: one_signal(TimerControl::Start), response: None, publish_stats: false, command: Command::InvokeCallback }
            },
            (Phase::AwaitingIo, Event::IoTimedOut) => {
                let response = self.try_send_fetch_response(Err(ExecutionError::IoTimeout));
                self.end(Phase::Retired);
                Step {
                    timer: Vec::new(),
                    response,
                    publish_stats: false,
                    command: Command::Exit(Err(GenericError::Execution(ExecutionError::IoTimeout))),
                }
            },
            (Phase::Running | Phase::LoadingLibrary | Phase::LoadingScript, Event::EngineFailed(m))
        | (Phase::AwaitingTask, Event::EngineFailed(m))
            | (Phase::AwaitingIo, Event::EngineFailed(m)) => {
                self.end(Phase::Retired);
                quiet_step(Command::Exit(Err(GenericError::Other(m))))
            },
            _ => quiet_step(Command::Ignore),
        }
    }
}

fn one_signal(a: TimerControl) -> (v: Vec<TimerControl>)
    ensures
        v@ == seq![a],
{
    let mut v = Vec::new();
    v.push(a);
    proof {
        assert(v@ =~= seq![a]);
    }
    v
}

fn two_signals(a: TimerControl, b: TimerControl) -> (v: Vec<TimerControl>)
    ensures
        v@ == seq![a, b],
{
    let mut v = Vec::new();
    v.push(a);
    v.push(b);
    proof {
        assert(v@ =~= seq![a, b]);
    }
    v
}

/// A step with no timer signal, no response and no statistics.
fn quiet_step(command: Command) -> (out: Step)
    ensures
        quiet(out),
        out.command == command,
{
    Step { timer: Vec::new(), response: None, publish_stats: false, command }
}

} // verus!
