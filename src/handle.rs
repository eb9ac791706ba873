use vstd::prelude::*;

use crate::types::{ExecutionError, ExecutionResult, ResponseObject};

verus! {

/// What a caller of `fetch` observes: `submitted` tells whether the task
/// channel took the task, `reply` what came back on the response channel
/// (`None` when its sender was dropped unanswered).
pub open spec fn fetch_result(
    submitted: bool,
    reply: Option<ExecutionResult<ResponseObject>>,
) -> ExecutionResult<ResponseObject> {
    if !submitted {
        Err(ExecutionError::NoSuchWorker)
    } else {
        match reply {
            Some(res) => res,
            None => Err(ExecutionError::RuntimeThrowsException),
        }
    }
}

/// Turns the two channel outcomes of one `fetch` into its result.
pub fn fetch_outcome(
    submitted: bool,
    reply: Option<ExecutionResult<ResponseObject>>,
) -> (r: ExecutionResult<ResponseObject>)
    ensures
        r == fetch_result(submitted, reply),
{
    if !submitted {
        return Err(ExecutionError::NoSuchWorker);
    }
    match reply {
        Some(res) => res,
        None => Err(ExecutionError::RuntimeThrowsException),
    }
}

} // verus!
