use vstd::prelude::*;

use crate::executor::{
    delivers, io_unavailable_message, step_spec, Command, Event, InstanceState, Phase, ScriptOutcome, ServiceCall, Step,
    SyncCall,
};
use crate::handle::fetch_result;
use crate::limits::{memory_limit_step, DoubleMleGuard};
use crate::types::{
    ExecutionError, ExecutionResult, GenericError, ResponseObject, TerminationReason,
};

verus! {

/// The loop takes a new task on this step.
pub open spec fn accepts(s: InstanceState, e: Event) -> bool {
    s.phase is AwaitingTask && e is TaskArrived
}

/// How many tasks the loop took in its first `k` steps.
pub open spec fn accepted_count(states: Seq<InstanceState>, events: Seq<Event>, k: int) -> int
    decreases k,
{
    if k <= 0 {
        0
    } else {
        accepted_count(states, events, k - 1) + if accepts(states[k - 1], events[k - 1]) {
            1int
        } else {
            0int
        }
    }
}

/// `states`, `events` and `steps` form a run of the loop.
pub open spec fn is_run(states: Seq<InstanceState>, events: Seq<Event>, steps: Seq<Step>) -> bool {
    &&& states.len() == events.len() + 1
    &&& steps.len() == events.len()
    &&& forall|k: int| 0 <= k < events.len() ==> step_spec(states[k], events[k], states[k + 1], #[trigger] steps[k])
}

proof fn lemma_step_response_discipline(s: InstanceState, e: Event, s2: InstanceState, out: Step)
    requires
        step_spec(s, e, s2, out),
    ensures
        out.response is Some ==> s.response_pending && !s2.response_pending && !accepts(s, e),
        accepts(s, e) ==> s2.response_pending && out.response is None,
        s2.response_pending ==> s.response_pending || accepts(s, e),
{
    reveal(step_spec);
}

proof fn lemma_run_prefix(states: Seq<InstanceState>, events: Seq<Event>, steps: Seq<Step>, k: int)
    requires
        is_run(states, events, steps),
        !states[0].response_pending,
        0 <= k <= events.len(),
    ensures
        forall|i: int| 0 <= i < k && (#[trigger] steps[i]).response is Some ==>
            accepted_count(states, events, i) < accepted_count(states, events, k)
                + if states[k].response_pending { 0int } else { 1int },
        states[k].response_pending ==> accepted_count(states, events, k) >= 1,
        accepted_count(states, events, k) >= 0,
    decreases k,
{
    if k > 0 {
        lemma_run_prefix(states, events, steps, k - 1);
        let j = k - 1;
        assert(step_spec(states[j], events[j], states[j + 1], steps[j]));
        lemma_step_response_discipline(states[j], events[j], states[k], steps[j]);
        let a = accepted_count(states, events, j);
        assert(accepted_count(states, events, k) == a + if accepts(states[j], events[j]) { 1int } else { 0int });
        assert forall|i: int| 0 <= i < k && (#[trigger] steps[i]).response is Some implies
            accepted_count(states, events, i) < accepted_count(states, events, k)
                + if states[k].response_pending { 0int } else { 1int } by {
            if i < j {
            } else {
                assert(i == j);
            }
        }
    }
}

/// Responses leave the loop in the order in which it took the tasks: a
/// response always answers the task taken last, and between two responses
/// the loop takes a new task, so no task is answered twice and none after a
/// later one.
pub proof fn lemma_responses_follow_submission_order(
    states: Seq<InstanceState>,
    events: Seq<Event>,
    steps: Seq<Step>,
)
    requires
        is_run(states, events, steps),
        !states[0].response_pending,
    ensures
        forall|i: int, j: int|
            0 <= i < j < events.len() && (#[trigger] steps[i]).response is Some && (#[trigger] steps[j]).response is Some
                ==> accepted_count(states, events, i) < accepted_count(states, events, j),
        forall|i: int| 0 <= i < events.len() && (#[trigger] steps[i]).response is Some
            ==> accepted_count(states, events, i) >= 1,
{
    assert forall|i: int, j: int|
        0 <= i < j < events.len() && (#[trigger] steps[i]).response is Some && (#[trigger] steps[j]).response is Some
            implies accepted_count(states, events, i) < accepted_count(states, events, j) by {
        lemma_run_prefix(states, events, steps, j);
        assert(step_spec(states[j], events[j], states[j + 1], steps[j]));
        lemma_step_response_discipline(states[j], events[j], states[j + 1], steps[j]);
    }
    assert forall|i: int| 0 <= i < events.len() && (#[trigger] steps[i]).response is Some
        implies accepted_count(states, events, i) >= 1 by {
        lemma_run_prefix(states, events, steps, i);
        assert(step_spec(states[i], events[i], states[i + 1], steps[i]));
        lemma_step_response_discipline(states[i], events[i], states[i + 1], steps[i]);
    }
}

/// Once the loop has ended, no event changes its state: it takes no further
/// task, answers nothing and only ignores what it is given.
pub proof fn lemma_ended_loop_stays_ended(s: InstanceState, e: Event, s2: InstanceState, out: Step)
    requires
        s.has_ended(),
        step_spec(s, e, s2, out),
    ensures
        s2 == s,
        !s2.accepts_task(),
        out.response is None,
        out.command is Ignore,
{
    reveal(step_spec);
}

/// An asynchronous host call made while no I/O waiter is active (while the
/// scripts load, before any task) raises "io service not available" in the
/// script and changes nothing.
pub proof fn lemma_async_call_without_waiter_raises(s: InstanceState, s2: InstanceState, out: Step)
    requires
        s.phase is Running || s.phase is LoadingLibrary || s.phase is LoadingScript,
        !s.io_active,
        step_spec(s, Event::HostCall(ServiceCall::Async), s2, out),
    ensures
        s2 == s,
        out.response is None,
        out.command matches Command::RaiseInScript(msg) && msg@ == io_unavailable_message(),
{
    reveal(step_spec);
}

/// A task whose script declares itself done without having sent a response
/// is answered with status 500 once the script returns, and the loop then
/// waits for the next task.
pub proof fn lemma_done_without_response_answers_500(
    s: InstanceState,
    s1: InstanceState,
    out1: Step,
    s2: InstanceState,
    out2: Step,
)
    requires
        s.phase is Running,
        s.response_pending,
        step_spec(s, Event::HostCall(ServiceCall::Sync(SyncCall::Done)), s1, out1),
        step_spec(s1, Event::ScriptReturned(ScriptOutcome::Completed), s2, out2),
    ensures
        out1.response is None,
        out2.response matches Some(Ok(r)) && r.status == 500,
        s2.accepts_task(),
{
    reveal(step_spec);
}

/// An ordinary script exception is answered as `ScriptThrowsException` and
/// does not end the instance: the next task is taken and dispatched.
pub proof fn lemma_script_exception_keeps_instance(
    s: InstanceState,
    m: String,
    s1: InstanceState,
    out1: Step,
    s2: InstanceState,
    out2: Step,
)
    requires
        s.phase is Running,
        step_spec(s, Event::ScriptReturned(ScriptOutcome::Threw(m)), s1, out1),
        step_spec(s1, Event::TaskArrived, s2, out2),
    ensures
        delivers(s, out1.response, Err(ExecutionError::ScriptThrowsException(m))),
        !s1.has_ended(),
        s1.accepts_task(),
        s2.phase is Running,
        s2.response_pending,
        out2.command is DispatchEvent,
{
    reveal(step_spec);
}

/// The first time the heap reaches its ceiling, termination is requested for
/// `MemoryLimit`; when the script then stops, the waiting caller gets
/// `MemoryLimitExceeded`, the loop ends for good, and a later `fetch`, whose
/// task no longer reaches the loop, fails with `NoSuchWorker`.
pub proof fn lemma_memory_limit_is_fatal(
    guard: DoubleMleGuard,
    reason: TerminationReason,
    current: usize,
    guard2: DoubleMleGuard,
    reason2: TerminationReason,
    r: (usize, bool),
    s: InstanceState,
    s2: InstanceState,
    out: Step,
    later_reply: Option<ExecutionResult<ResponseObject>>,
)
    requires
        !guard.triggered_mle,
        memory_limit_step(guard, reason, current, guard2, reason2, r),
        s.phase is Running,
        step_spec(s, Event::ScriptReturned(ScriptOutcome::Terminated(reason2)), s2, out),
    ensures
        r.1,
        reason2 == TerminationReason::MemoryLimit,
        delivers(s, out.response, Err(ExecutionError::MemoryLimitExceeded)),
        ExecutionError::MemoryLimitExceeded.terminates_worker(),
        out.command == Command::Exit(Err(GenericError::Execution(ExecutionError::MemoryLimitExceeded))),
        s2.phase == Phase::Retired,
        !s2.accepts_task(),
        fetch_result(false, later_reply) == Err::<ResponseObject, ExecutionError>(ExecutionError::NoSuchWorker),
{
    reveal(step_spec);
}

/// A script stopped because the time budget ran out answers its caller with
/// `TimeLimitExceeded`, which is fatal, and the loop ends for good; a later
/// `fetch` fails with `NoSuchWorker`.
pub proof fn lemma_time_limit_is_fatal(
    s: InstanceState,
    s2: InstanceState,
    out: Step,
    later_reply: Option<ExecutionResult<ResponseObject>>,
)
    requires
        s.phase is Running,
        step_spec(s, Event::ScriptReturned(ScriptOutcome::Terminated(TerminationReason::TimeLimit)), s2, out),
    ensures
        delivers(s, out.response, Err(ExecutionError::TimeLimitExceeded)),
        ExecutionError::TimeLimitExceeded.terminates_worker(),
        out.command == Command::Exit(Err(GenericError::Execution(ExecutionError::TimeLimitExceeded))),
        s2.phase == Phase::Retired,
        !s2.accepts_task(),
        fetch_result(false, later_reply) == Err::<ResponseObject, ExecutionError>(ExecutionError::NoSuchWorker),
{
    reveal(step_spec);
}

/// When the I/O waiter reports that no call completed before the deadline,
/// the waiting caller gets `IoTimeout` and the instance is retired.
pub proof fn lemma_io_timeout_retires(
    s: InstanceState,
    s2: InstanceState,
    out: Step,
    later_reply: Option<ExecutionResult<ResponseObject>>,
)
    requires
        s.phase is AwaitingIo,
        step_spec(s, Event::IoTimedOut, s2, out),
    ensures
        delivers(s, out.response, Err(ExecutionError::IoTimeout)),
        out.command == Command::Exit(Err(GenericError::Execution(ExecutionError::IoTimeout))),
        s2.phase == Phase::Retired,
        !s2.accepts_task(),
        fetch_result(false, later_reply) == Err::<ResponseObject, ExecutionError>(ExecutionError::NoSuchWorker),
{
    reveal(step_spec);
}

} // verus!
