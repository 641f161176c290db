//! Burn-window arithmetic of the burn executor.
//!
//! The executor orients the vehicle along the node, warps time to just
//! before the burn window, polls the time-to-apoapsis stream until the
//! window opens, then burns at full throttle for the planned duration
//! less a fixed early-cutoff margin.  The waiting, warping and sleeping
//! are I/O in the driver; the decisions they act on are computed here.
//! The burn is centred on the apoapsis epoch: it starts half the burn
//! duration early.

use vstd::prelude::*;
use crate::planner::BurnPlan;

verus! {

/// How far ahead of the burn start the time warp aims, milliseconds.
pub const WARP_LEAD_MS: i64 = 5_000;
/// How much earlier than the planned duration the engine is cut,
/// microseconds.  A fixed heuristic margin; the sequence does not
/// re-verify the resulting orbit.
pub const EARLY_CUTOFF_US: u64 = 500_000;

/// Half the burn duration, in milliseconds: the lead with which the
/// burn starts before the plan's epoch.
pub open spec fn half_burn_ms(burn_duration_us: int) -> int {
    burn_duration_us / 2000
}

/// The instant the burn must start, milliseconds: half the burn before
/// the epoch, so the burn is centred on it.
pub fn burn_start_ms(plan: &BurnPlan) -> (r: i64)
    requires
        0 <= plan.epoch_ms <= 2_000_000_000_000_000,
    ensures
        r == plan.epoch_ms - half_burn_ms(plan.burn_duration_us as int),
{
    let half: u64 = plan.burn_duration_us / 2000;
    plan.epoch_ms - (half as i64)
}

/// The instant the time warp aims at, milliseconds: a fixed lead before
/// the burn start, leaving time to settle out of warp.
pub fn warp_target_ms(plan: &BurnPlan) -> (r: i64)
    requires
        0 <= plan.epoch_ms <= 2_000_000_000_000_000,
    ensures
        r == plan.epoch_ms - half_burn_ms(plan.burn_duration_us as int) - WARP_LEAD_MS,
{
    burn_start_ms(plan) - WARP_LEAD_MS
}

/// The burn window has opened: the time to apoapsis has shrunk to half
/// the burn duration or less.  Polled against the time-to-apoapsis
/// stream; a failed reading leaves the executor waiting.
pub fn burn_window_open(time_to_apoapsis_ms: i64, burn_duration_us: u64) -> (r: bool)
    requires
        -1_000_000_000_000_000 <= time_to_apoapsis_ms <= 1_000_000_000_000_000,
    ensures
        r == (time_to_apoapsis_ms - half_burn_ms(burn_duration_us as int) <= 0),
{
    let half: u64 = burn_duration_us / 2000;
    time_to_apoapsis_ms - (half as i64) <= 0
}

/// How long the engine actually burns, microseconds: the planned
/// duration less the early-cutoff margin, never less than nothing.
pub fn burn_firing_us(burn_duration_us: u64) -> (r: u64)
    ensures
        r == if burn_duration_us >= EARLY_CUTOFF_US {
            burn_duration_us - EARLY_CUTOFF_US
        } else {
            0
        },
{
    if burn_duration_us >= EARLY_CUTOFF_US {
        burn_duration_us - EARLY_CUTOFF_US
    } else {
        0
    }
}

} // verus!
