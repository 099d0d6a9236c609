use vstd::prelude::*;

verus! {

/// Whether the sizing pass consumes another state after scanning the one
/// carrying `step`. The pass scans states through `step_limit` inclusive and
/// stops as soon as the limit step itself has been scanned.
pub fn scan_goes_on(step: u64, step_limit: u64) -> (more: bool)
    ensures
        more == (step != step_limit),
{
    step != step_limit
}

/// Whether the rendering pass consumes another state after handling the one
/// carrying `step`. The pass stops only once a state's step exceeds
/// `step_limit`; a state is stored (and may flush) before this bound is
/// checked, so the states rendered are exactly those with steps
/// 1 through `step_limit + 1`.
pub fn trail_goes_on(step: u64, step_limit: u64) -> (more: bool)
    ensures
        more == (step <= step_limit),
{
    step <= step_limit
}

} // verus!
