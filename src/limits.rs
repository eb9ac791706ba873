use vstd::prelude::*;

use crate::types::TerminationReason;

verus! {

/// Headroom granted past the ceiling so that the allocation which hit it can
/// finish before the termination request takes effect.
pub const SAFE_AREA_SIZE: usize = 1048576;

/// Bytes in one megabyte of the memory ceiling.
pub const BYTES_PER_MB: usize = 1048576;

/// Records whether the near-heap-limit callback has already fired.
#[derive(Copy, Clone, Debug, PartialEq, Eq, Structural)]
pub struct DoubleMleGuard {
    pub triggered_mle: bool,
}

impl DoubleMleGuard {
    pub fn new() -> (r: DoubleMleGuard)
        ensures
            !r.triggered_mle,
    {
        DoubleMleGuard { triggered_mle: false }
    }
}

/// The heap ceiling in bytes for a ceiling of `max_memory_mb` megabytes, when
/// it fits in a `usize`.
pub fn heap_limit_bytes(max_memory_mb: u32) -> (r: Option<usize>)
    ensures
        r is Some <==> max_memory_mb * BYTES_PER_MB <= usize::MAX,
        r matches Some(n) ==> n == max_memory_mb * BYTES_PER_MB,
{
    (max_memory_mb as usize).checked_mul(BYTES_PER_MB)
}

/// The contract of the near-heap-limit decision: from `guard` and `reason`
/// with ceiling `current`, it leaves `guard2` and `reason2` and returns `r`.
pub open spec fn memory_limit_step(
    guard: DoubleMleGuard,
    reason: TerminationReason,
    current: usize,
    guard2: DoubleMleGuard,
    reason2: TerminationReason,
    r: (usize, bool),
) -> bool {
    &&& r.0 == current + SAFE_AREA_SIZE
    &&& r.1 == !guard.triggered_mle
    &&& guard2.triggered_mle
    &&& reason2 == if guard.triggered_mle { reason } else { TerminationReason::MemoryLimit }
}

/// Decides what to do when the heap approaches `current_heap_limit`.
///
/// The first time, the guard is set, the termination reason becomes
/// `MemoryLimit` and termination is requested (the second component of the
/// result). A repeated trigger requests nothing new. Either way the ceiling is
/// raised by the safe area.
pub fn on_memory_limit_exceeded(
    guard: &mut DoubleMleGuard,
    reason: &mut TerminationReason,
    current_heap_limit: usize,
) -> (r: (usize, bool))
    requires
        current_heap_limit + SAFE_AREA_SIZE <= usize::MAX,
    ensures
        memory_limit_step(*old(guard), *old(reason), current_heap_limit, *final(guard), *final(reason), r),
{
    let first = !guard.triggered_mle;
    if first {
        guard.triggered_mle = true;
        *reason = TerminationReason::MemoryLimit;
    }
    (current_heap_limit + SAFE_AREA_SIZE, first)
}

/// Records that the time budget ran out; the caller then requests termination.
pub fn record_time_limit(reason: &mut TerminationReason)
    ensures
        *final(reason) == TerminationReason::TimeLimit,
{
    *reason = TerminationReason::TimeLimit;
}

} // verus!
