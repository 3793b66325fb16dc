use vstd::prelude::*;

verus! {

#[verifier::external_type_specification]
#[verifier::external_body]
pub struct ExInstant(std::time::Instant);

/// Relies on std::time::Instant::elapsed: the wall-clock time since the
/// instant was taken. Nothing is assumed of the clock's reading.
pub assume_specification[ std::time::Instant::elapsed ](start: &std::time::Instant)
    -> core::time::Duration;

/// Relies on core::time::Duration::as_secs: the whole-second part of the
/// duration. Nothing further is assumed of it.
pub assume_specification[ core::time::Duration::as_secs ](d: &core::time::Duration) -> u64;

/// Relies on core::time::Duration::subsec_nanos: the fractional part of the
/// duration in nanoseconds, which its documentation bounds below one billion.
pub assume_specification[ core::time::Duration::subsec_nanos ](d: &core::time::Duration) -> (r:
    u32)
    ensures
        r < 1000000000u32,
;

/// Whether an elapsed wall-clock time of `secs` whole seconds plus `nanos`
/// nanoseconds exceeds a budget of `timeout_secs` whole seconds.
pub open spec fn spec_exceeds(secs: u64, nanos: u32, timeout_secs: u64) -> bool {
    secs > timeout_secs || (secs == timeout_secs && nanos > 0)
}

/// Decides `spec_exceeds`: the wall-clock budget is exceeded exactly when the
/// elapsed time is strictly greater than the budget.
pub fn exceeds_budget(secs: u64, nanos: u32, timeout_secs: u64) -> (r: bool)
    ensures
        r == spec_exceeds(secs, nanos, timeout_secs),
{
    secs > timeout_secs || (secs == timeout_secs && nanos > 0)
}

/// Reads the elapsed wall-clock time since `start`, split into whole seconds
/// and the nanosecond remainder.
pub fn elapsed_parts(start: &std::time::Instant) -> (r: (u64, u32))
    ensures
        r.1 < 1000000000u32,
{
    let d = start.elapsed();
    (d.as_secs(), d.subsec_nanos())
}

} // verus!
