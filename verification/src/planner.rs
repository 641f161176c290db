//! Circularization-burn planner.
//!
//! Computes, at apoapsis of the transfer orbit, the speed the vehicle has
//! (vis-viva), the speed a circular orbit there needs, the delta-v between
//! them, and from the rocket equation the duration of the burn that
//! supplies it.  The burn is centred on the apoapsis epoch.
//!
//! All arithmetic is exact fixed-point integer arithmetic: lengths in
//! meters, speeds in micrometers per second, masses in micrograms of a
//! kilogram (that is, micro-kilograms), forces in micronewtons, times in
//! milliseconds and microseconds.  Square roots are integer floor square
//! roots; the exponential of the rocket equation is a Horner evaluation of
//! its series in millionths, with its result pinned exactly by a
//! specification-level recurrence.

use vstd::prelude::*;
use vstd::arithmetic::div_mod::lemma_div_is_ordered;
use vstd::arithmetic::div_mod::lemma_div_is_ordered_by_denominator;
use vstd::arithmetic::div_mod::lemma_div_pos_is_pos;
use vstd::arithmetic::mul::lemma_mul_inequality;
use vstd::arithmetic::mul::lemma_mul_upper_bound;

verus! {

/// One, in the fixed-point scale of millionths.
pub const FIXED_ONE: u64 = 1_000_000;
/// Square of the micro scale: converts m²/s² to (µm/s)².
pub const MICRO_SQUARED: u64 = 1_000_000_000_000;
/// Standard gravity in the impulse-to-exhaust-velocity conversion,
/// micrometers per second per millisecond of specific impulse (9.82 m/s²).
pub const EXHAUST_PER_IMPULSE: u64 = 9820;

/// `r` is the floor of the square root of `n`.
pub open spec fn is_sqrt_floor(n: int, r: int) -> bool {
    &&& 0 <= r
    &&& r * r <= n
    &&& n < (r + 1) * (r + 1)
}

/// Floor square root by bisection.
fn isqrt_u128(n: u128) -> (r: u128)
    ensures
        is_sqrt_floor(n as int, r as int),
        r <= u64::MAX,
{
    let mut lo: u128 = 0;
    let mut hi: u128 = 18_446_744_073_709_551_616;  // 2^64, whose square exceeds any u128
    while lo + 1 < hi
        invariant
            (lo as int) * (lo as int) <= n as int,
            (hi as int) * (hi as int) > n as int,
            lo < hi,
            hi <= 18_446_744_073_709_551_616u128,
        decreases hi - lo,
    {
        let mid = lo + (hi - lo) / 2;
        proof {
            assert(lo < mid < hi);
            assert((mid as int) * (mid as int) <= 0xffffffffffffffff * 0xffffffffffffffff)
                by (nonlinear_arith)
                requires
                    0 <= mid as int <= 0xffffffffffffffff,
            ;
        }
        let sq = mid * mid;
        if sq <= n {
            lo = mid;
        } else {
            hi = mid;
        }
    }
    proof {
        assert(hi == lo + 1);
    }
    lo
}

/// Square of the speed at apoapsis of the transfer orbit, in (µm/s)²:
/// the vis-viva expression `mu * (2 / r_ap - 1 / a)` brought to one
/// integer fraction.
pub open spec fn transfer_speed_sq_uums(mu_m3s2: int, r_ap_m: int, a_m: int) -> int
    recommends
        0 < r_ap_m,
        0 < a_m,
{
    mu_m3s2 * (2 * a_m - r_ap_m) * (MICRO_SQUARED as int) / (r_ap_m * a_m)
}

/// Square of the speed of a circular orbit at the apoapsis radius, in
/// (µm/s)²: the vis-viva expression with the semi-major axis equal to
/// the radius.
pub open spec fn circular_speed_sq_uums(mu_m3s2: int, r_ap_m: int) -> int
    recommends
        0 < r_ap_m,
{
    mu_m3s2 * (MICRO_SQUARED as int) / r_ap_m
}

/// The two apoapsis speeds and the delta-v between them, µm/s.
#[derive(Clone, Copy, PartialEq, Eq, Structural, Debug)]
pub struct VisVivaSpeeds {
    /// Speed at apoapsis on the present transfer orbit.
    pub transfer_ums: u64,
    /// Speed a circular orbit at that radius requires.
    pub circular_ums: u64,
    /// What the burn must supply: circular minus transfer.  Zero or
    /// negative when the orbit is already circular or over-circularized.
    pub delta_v_ums: i64,
}

/// Solves the vis-viva equation at apoapsis: both speeds are the exact
/// floor square roots of their squared-speed fractions, and the delta-v
/// is exactly their difference.  `r_ap_m < 2 * a_m` holds on every
/// elliptical orbit, where the apoapsis radius stays below the orbit's
/// whole major axis.
pub fn vis_viva_speeds(mu_m3s2: u64, r_ap_m: u64, a_m: u64) -> (v: VisVivaSpeeds)
    requires
        0 < mu_m3s2 <= 10_000_000_000_000_000,
        0 < r_ap_m <= 1_000_000_000,
        0 < a_m <= 1_000_000_000,
        r_ap_m < 2 * a_m,
    ensures
        is_sqrt_floor(
            transfer_speed_sq_uums(mu_m3s2 as int, r_ap_m as int, a_m as int),
            v.transfer_ums as int,
        ),
        is_sqrt_floor(circular_speed_sq_uums(mu_m3s2 as int, r_ap_m as int), v.circular_ums as int),
        v.delta_v_ums == v.circular_ums - v.transfer_ums,
{
    let spread: u128 = 2 * (a_m as u128) - (r_ap_m as u128);
    proof {
        assert((mu_m3s2 as int) * (spread as int) <= 10_000_000_000_000_000 * 2_000_000_000)
            by (nonlinear_arith)
            requires
                0 <= mu_m3s2 as int <= 10_000_000_000_000_000,
                0 <= spread as int <= 2_000_000_000,
        ;
        assert((r_ap_m as int) * (a_m as int) <= 1_000_000_000_000_000_000 && 1 <= (r_ap_m as int)
            * (a_m as int)) by (nonlinear_arith)
            requires
                1 <= r_ap_m as int <= 1_000_000_000,
                1 <= a_m as int <= 1_000_000_000,
        ;
    }
    let numerator: u128 = (mu_m3s2 as u128) * spread * (MICRO_SQUARED as u128);
    let denominator: u128 = (r_ap_m as u128) * (a_m as u128);
    let transfer_sq: u128 = numerator / denominator;
    let circular_sq: u128 = (mu_m3s2 as u128) * (MICRO_SQUARED as u128) / (r_ap_m as u128);
    proof {
        lemma_div_is_ordered_by_denominator(numerator as int, 1, denominator as int);
    }
    let transfer = isqrt_u128(transfer_sq);
    let circular = isqrt_u128(circular_sq);
    proof {
        assert(transfer as int <= 4_500_000_000_000_000_000) by (nonlinear_arith)
            requires
                0 <= transfer as int,
                (transfer as int) * (transfer as int) <= 20_000_000_000_000_000_000_000_000_000_000_000_000int,
        ;
        assert(circular as int <= 100_000_000_000_000) by (nonlinear_arith)
            requires
                0 <= circular as int,
                (circular as int) * (circular as int) <= 10_000_000_000_000_000_000_000_000_000int,
        ;
    }
    VisVivaSpeeds {
        transfer_ums: transfer as u64,
        circular_ums: circular as u64,
        delta_v_ums: (circular as i64) - (transfer as i64),
    }
}

/// Horner recurrence for the exponential series in millionths, evaluated
/// from term `k` of seventeen: `E(k) = 1 + (x / k) * E(k + 1)`, all in the
/// fixed-point scale, so `E(1)` is the series
/// `1 + x + x²/2! + x³/3! + ...` truncated after sixteen terms.
pub open spec fn exp_fixed_rec(x: int, k: int) -> int
    recommends
        1 <= k,
    decreases 17 - k,
{
    if k >= 17 {
        FIXED_ONE as int
    } else {
        FIXED_ONE + x * exp_fixed_rec(x, k + 1) / (k * (FIXED_ONE as int))
    }
}

/// The fixed-point exponential: the whole Horner recurrence.
pub open spec fn exp_fixed(x: int) -> int {
    exp_fixed_rec(x, 1)
}

/// Range of the exponential recurrence on the supported domain: every
/// tail factor stays within [1, 3] and the whole series within [1, 4],
/// in the fixed-point scale.
pub proof fn lemma_exp_fixed_rec_bounds(x: int, k: int)
    requires
        0 <= x <= FIXED_ONE,
        1 <= k <= 17,
    ensures
        FIXED_ONE <= exp_fixed_rec(x, k),
        2 <= k ==> exp_fixed_rec(x, k) <= 3 * FIXED_ONE,
        exp_fixed_rec(x, k) <= 4 * FIXED_ONE,
    decreases 17 - k,
{
    if k < 17 {
        lemma_exp_fixed_rec_bounds(x, k + 1);
        let tail = exp_fixed_rec(x, k + 1);
        lemma_mul_upper_bound(x, 1_000_000int, tail, 3_000_000int);
        assert(x * tail >= 0) by (nonlinear_arith)
            requires
                x >= 0,
                tail >= 0,
        ;
        lemma_div_pos_is_pos(x * tail, k * 1_000_000);
        lemma_div_is_ordered(x * tail, 3_000_000_000_000int, k * 1_000_000);
        if k >= 2 {
            lemma_div_is_ordered_by_denominator(3_000_000_000_000int, 2_000_000, k * 1_000_000);
            assert(x * tail / (k * 1_000_000) <= 1_500_000);
            assert(exp_fixed_rec(x, k) == FIXED_ONE + x * tail / (k * 1_000_000));
        } else {
            assert(k == 1);
            assert(x * tail / (k * 1_000_000) <= 3_000_000);
            assert(exp_fixed_rec(x, k) == FIXED_ONE + x * tail / (k * 1_000_000));
        }
    }
}

/// The exponential dominates its first two terms: on the supported
/// domain `exp_fixed(x)` is at least one plus `x`, so a positive ratio
/// always leaves a strictly smaller final mass.
pub proof fn lemma_exp_fixed_at_least_one_plus_x(x: int)
    requires
        0 <= x <= FIXED_ONE,
    ensures
        exp_fixed(x) >= FIXED_ONE + x,
{
    lemma_exp_fixed_rec_bounds(x, 2);
    let tail = exp_fixed_rec(x, 2);
    lemma_mul_inequality(1_000_000int, tail, x);
    assert(x * tail == tail * x) by (nonlinear_arith);
    lemma_div_is_ordered(x * 1_000_000, x * tail, 1_000_000int);
    assert(x * 1_000_000 / 1_000_000 == x);
}

/// Evaluates the fixed-point exponential.
fn exp_fixed_approx(x: u64) -> (r: u64)
    requires
        x <= FIXED_ONE,
    ensures
        r as int == exp_fixed(x as int),
        FIXED_ONE <= r <= 4 * FIXED_ONE,
{
    let mut acc: u64 = FIXED_ONE;
    let mut k: u64 = 16;
    while k >= 1
        invariant
            x <= FIXED_ONE,
            k <= 16,
            acc as int == exp_fixed_rec(x as int, k as int + 1),
            FIXED_ONE <= acc,
            k >= 1 ==> acc <= 3 * FIXED_ONE,
            acc <= 4 * FIXED_ONE,
        decreases k,
    {
        proof {
            lemma_exp_fixed_rec_bounds(x as int, k as int);
            assert((x as int) * (acc as int) <= 1_000_000 * 3_000_000) by (nonlinear_arith)
                requires
                    0 <= x as int <= 1_000_000,
                    0 <= acc as int <= 3_000_000,
            ;
        }
        let term = (x * acc) / (k * FIXED_ONE);
        proof {
            lemma_div_pos_is_pos((x * acc) as int, (k * FIXED_ONE) as int);
            lemma_div_is_ordered(
                (x * acc) as int,
                3_000_000_000_000int,
                (k * FIXED_ONE) as int,
            );
            lemma_div_is_ordered_by_denominator(
                3_000_000_000_000int,
                1_000_000,
                (k * FIXED_ONE) as int,
            );
        }
        acc = FIXED_ONE + term;
        k = k - 1;
        proof {
            lemma_exp_fixed_rec_bounds(x as int, k as int + 1);
        }
    }
    acc
}

/// A planned circularization burn: computed once, then read by the
/// executor and never changed.
#[derive(Clone, Copy, PartialEq, Eq, Structural, Debug)]
pub struct BurnPlan {
    /// The apoapsis epoch the burn is centred on, milliseconds.
    pub epoch_ms: i64,
    /// The delta-v the burn supplies, prograde only, µm/s.
    pub delta_v_ums: i64,
    /// How long the engine burns at full throttle, microseconds.
    pub burn_duration_us: u64,
}

/// Effective exhaust velocity of the engine, µm/s: the specific impulse
/// times standard gravity.
pub open spec fn exhaust_velocity_ums(isp_ms: int) -> int {
    isp_ms * (EXHAUST_PER_IMPULSE as int)
}

/// The rocket-equation exponent `delta_v / exhaust_velocity` in
/// millionths, rounded up so any positive delta-v demands a positive
/// exponent.
pub open spec fn mass_ratio_fixed(delta_v_ums: int, isp_ms: int) -> int
    recommends
        0 < isp_ms,
{
    (delta_v_ums * (FIXED_ONE as int) + exhaust_velocity_ums(isp_ms) - 1) / exhaust_velocity_ums(
        isp_ms,
    )
}

/// Mass after the burn, micro-kilograms: the launch mass divided by the
/// exponential of the mass-ratio exponent.
pub open spec fn final_mass_ukg(m0_ukg: int, delta_v_ums: int, isp_ms: int) -> int {
    m0_ukg * (FIXED_ONE as int) / exp_fixed(mass_ratio_fixed(delta_v_ums, isp_ms))
}

/// Burn duration, microseconds: propellant spent divided by the mass
/// flow rate `thrust / exhaust_velocity`, rounded up so a burn that
/// spends any propellant never rounds to nothing.
pub open spec fn burn_duration_us_spec(
    m0_ukg: int,
    thrust_un: int,
    isp_ms: int,
    delta_v_ums: int,
) -> int
    recommends
        0 < thrust_un,
        0 < isp_ms,
{
    ((m0_ukg - final_mass_ukg(m0_ukg, delta_v_ums, isp_ms)) * exhaust_velocity_ums(isp_ms)
        + thrust_un - 1) / thrust_un
}

/// The planner accepts the burn: the delta-v is positive, the
/// mass-ratio exponent lies within the exponential's fixed-point domain
/// (delta-v at most one exhaust velocity), and the duration fits its
/// word.
pub open spec fn burn_plan_feasible(
    m0_ukg: int,
    thrust_un: int,
    isp_ms: int,
    delta_v_ums: int,
) -> bool {
    &&& delta_v_ums >= 1
    &&& mass_ratio_fixed(delta_v_ums, isp_ms) <= FIXED_ONE
    &&& burn_duration_us_spec(m0_ukg, thrust_un, isp_ms, delta_v_ums) <= u64::MAX
}

/// Plans the circularization burn from the rocket equation, scheduling
/// it on the coming apoapsis.  Returns nothing when the orbit needs no
/// burn (delta-v zero or negative) or the burn lies outside the
/// planner's fixed-point domain; a returned plan always has a strictly
/// positive duration.
pub fn plan_burn(
    m0_ukg: u64,
    thrust_un: u64,
    isp_ms: u64,
    delta_v_ums: i64,
    ut_ms: i64,
    tta_ms: i64,
) -> (r: Option<BurnPlan>)
    requires
        1 <= m0_ukg <= 1_000_000_000_000,
        1 <= thrust_un <= 1_000_000_000_000_000,
        1 <= isp_ms <= 100_000_000,
        -1_000_000_000_000 <= delta_v_ums <= 1_000_000_000_000,
        0 <= ut_ms <= 1_000_000_000_000_000,
        0 <= tta_ms <= 1_000_000_000_000,
    ensures
        (r is Some) <==> burn_plan_feasible(
            m0_ukg as int,
            thrust_un as int,
            isp_ms as int,
            delta_v_ums as int,
        ),
        r matches Some(plan) ==> {
            &&& plan.epoch_ms == ut_ms + tta_ms
            &&& plan.delta_v_ums == delta_v_ums
            &&& plan.burn_duration_us == burn_duration_us_spec(
                m0_ukg as int,
                thrust_un as int,
                isp_ms as int,
                delta_v_ums as int,
            )
            &&& plan.burn_duration_us >= 1
        },
{
    if delta_v_ums < 1 {
        return None;
    }
    let dv: u64 = delta_v_ums as u64;
    let exhaust: u64 = isp_ms * EXHAUST_PER_IMPULSE;
    let ratio: u64 = (dv * FIXED_ONE + (exhaust - 1)) / exhaust;
    proof {
        assert(ratio as int == mass_ratio_fixed(delta_v_ums as int, isp_ms as int));
        assert(ratio >= 1) by (nonlinear_arith)
            requires
                ratio as int == ((dv as int) * 1_000_000 + (exhaust as int) - 1) / (exhaust as int),
                dv as int >= 1,
                exhaust as int >= 1,
        ;
    }
    if ratio > FIXED_ONE {
        return None;
    }
    let grown: u64 = exp_fixed_approx(ratio);
    proof {
        lemma_exp_fixed_at_least_one_plus_x(ratio as int);
    }
    let m1: u64 = m0_ukg * FIXED_ONE / grown;
    proof {
        lemma_div_is_ordered_by_denominator(
            (m0_ukg as int) * 1_000_000,
            1_000_001,
            grown as int,
        );
        assert((m0_ukg as int) * 1_000_000 / 1_000_001 < m0_ukg as int) by (nonlinear_arith)
            requires
                1 <= m0_ukg as int,
        ;
    }
    let spent: u64 = m0_ukg - m1;
    proof {
        assert((spent as int) * (exhaust as int) <= 1_000_000_000_000
            * 982_000_000_000) by (nonlinear_arith)
            requires
                0 <= spent as int <= 1_000_000_000_000,
                0 <= exhaust as int <= 982_000_000_000,
        ;
    }
    let numerator: u128 = (spent as u128) * (exhaust as u128);
    let burn_wide: u128 = (numerator + (thrust_un as u128 - 1)) / (thrust_un as u128);
    proof {
        assert(numerator >= 1) by (nonlinear_arith)
            requires
                numerator as int == (spent as int) * (exhaust as int),
                spent as int >= 1,
                exhaust as int >= 1,
        ;
        assert(burn_wide >= 1) by (nonlinear_arith)
            requires
                burn_wide as int == ((numerator as int) + (thrust_un as int) - 1) / (
                thrust_un as int),
                numerator as int >= 1,
                thrust_un as int >= 1,
        ;
    }
    if burn_wide > 18_446_744_073_709_551_615 {
        return None;
    }
    Some(
        BurnPlan {
            epoch_ms: ut_ms + tta_ms,
            delta_v_ums: delta_v_ums,
            burn_duration_us: burn_wide as u64,
        },
    )
}

} // verus!
