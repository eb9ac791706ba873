use vstd::prelude::*;

verus! {

/// A signal for the actor that accounts the wall and CPU time budget.
#[derive(Copy, Clone, Debug, PartialEq, Eq, Structural)]
pub enum TimerControl {
    Start,
    Stop,
    Reset,
}

/// Why the engine was forcibly stopped.
#[derive(Copy, Clone, Debug, PartialEq, Eq, Structural)]
pub enum TerminationReason {
    Unknown,
    TimeLimit,
    MemoryLimit,
}

/// The response that a worker script produces for one fetch task.
#[derive(Clone, Debug, PartialEq, Eq)]
pub struct ResponseObject {
    pub status: u16,
    pub body: Vec<u8>,
}

impl ResponseObject {
    /// A response with the given status and an empty body.
    pub fn with_status(status: u16) -> (r: ResponseObject)
        ensures
            r.status == status,
            r.body@ == Seq::<u8>::empty(),
    {
        ResponseObject { status, body: Vec::new() }
    }
}

/// The failures that a caller of a fetch task can observe.
#[derive(Clone, Debug, PartialEq, Eq)]
pub enum ExecutionError {
    /// The task was submitted to an instance that no longer runs.
    NoSuchWorker,
    /// The instance went away without answering the task.
    RuntimeThrowsException,
    /// The script threw an ordinary exception; the instance survives.
    ScriptThrowsException(String),
    /// No I/O completion arrived before the task's I/O deadline.
    IoTimeout,
    /// The script was stopped for exceeding its memory ceiling.
    MemoryLimitExceeded,
    /// The script was stopped for exceeding its time budget.
    TimeLimitExceeded,
}

pub type ExecutionResult<T> = Result<T, ExecutionError>;

impl ExecutionError {
    /// Whether this error retires the instance that raised it.
    pub open spec fn spec_terminates_worker(&self) -> bool {
        match self {
            ExecutionError::RuntimeThrowsException => true,
            ExecutionError::IoTimeout => true,
            ExecutionError::MemoryLimitExceeded => true,
            ExecutionError::TimeLimitExceeded => true,
            _ => false,
        }
    }

    #[verifier::when_used_as_spec(spec_terminates_worker)]
    pub fn terminates_worker(&self) -> (r: bool)
        ensures
            r == self.spec_terminates_worker(),
    {
        match self {
            ExecutionError::RuntimeThrowsException => true,
            ExecutionError::IoTimeout => true,
            ExecutionError::MemoryLimitExceeded => true,
            ExecutionError::TimeLimitExceeded => true,
            _ => false,
        }
    }
}

/// The failures that end an instance's execution loop.
#[derive(Clone, Debug, PartialEq, Eq)]
pub enum GenericError {
    /// The bootstrap library or the worker script failed while loading.
    ScriptInitException(String),
    /// A task failed in a way that retires the instance.
    Execution(ExecutionError),
    /// The engine could not perform a step that the host asked of it.
    Other(String),
}

pub type GenericResult<T> = Result<T, GenericError>;

/// The error that a forced termination for the given reason surfaces as.
pub open spec fn termination_error(reason: TerminationReason) -> ExecutionError {
    match reason {
        TerminationReason::TimeLimit => ExecutionError::TimeLimitExceeded,
        TerminationReason::MemoryLimit => ExecutionError::MemoryLimitExceeded,
        TerminationReason::Unknown => ExecutionError::RuntimeThrowsException,
    }
}

pub fn error_for_termination(reason: TerminationReason) -> (r: ExecutionError)
    ensures
        r == termination_error(reason),
        r.terminates_worker(),
{
    match reason {
        TerminationReason::TimeLimit => ExecutionError::TimeLimitExceeded,
        TerminationReason::MemoryLimit => ExecutionError::MemoryLimitExceeded,
        TerminationReason::Unknown => ExecutionError::RuntimeThrowsException,
    }
}

} // verus!
