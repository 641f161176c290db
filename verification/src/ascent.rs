//! Powered-ascent controller.
//!
//! A state machine over the per-tick telemetry snapshots.  It runs the
//! gravity-turn pitch program (pitch over linearly from vertical between
//! the turn-start and turn-end altitudes, with a half-degree hysteresis so
//! negligible corrections are not sent), fires the solid-booster
//! separation exactly once after the fuel reading has been seen positive
//! and then drops to zero, and reports the phase complete once the
//! apoapsis reaches nine tenths of the target altitude.
//!
//! Angles are carried in microdegrees, altitudes in millimeters, fuel in
//! thousandths of a unit, so every decision is exact integer arithmetic.

use vstd::prelude::*;
use vstd::arithmetic::div_mod::lemma_div_is_ordered;
use vstd::arithmetic::mul::lemma_mul_inequality;
use crate::telemetry::Reading;
use crate::telemetry::TelemetrySnapshot;

verus! {

/// Altitude at which the gravity turn begins, millimeters (250 m).
pub const TURN_START_ALT_MM: i64 = 250_000;
/// Altitude at which the gravity turn ends, millimeters (45 000 m).
pub const TURN_END_ALT_MM: i64 = 45_000_000;
/// Width of the gravity-turn altitude window, millimeters.
pub const TURN_SPAN_MM: i64 = 44_750_000;
/// A quarter turn, microdegrees: the full sweep of the pitch program.
pub const FULL_TURN_UDEG: i64 = 90_000_000;
/// Half a degree, microdegrees: corrections no larger than this are
/// suppressed to avoid flooding the command channel.
pub const PITCH_HYSTERESIS_UDEG: i64 = 500_000;
/// Target apoapsis altitude, millimeters (74 000 m).
pub const TARGET_APOAPSIS_MM: i64 = 74_000_000;
/// Apoapsis at which powered ascent hands over to fine tuning,
/// millimeters: nine tenths of the target apoapsis.
pub const ASCENT_EXIT_APOAPSIS_MM: i64 = 66_600_000;
/// Launch heading, microdegrees: due east.
pub const LAUNCH_HEADING_UDEG: i64 = 90_000_000;

/// The gravity-turn angle commanded at a given altitude, microdegrees:
/// the fraction of the turn window below the altitude, times a quarter
/// turn, clamped to [0, 90] degrees outside the window.
pub open spec fn turn_angle_udeg(alt_mm: int) -> int {
    if alt_mm <= TURN_START_ALT_MM {
        0
    } else if alt_mm >= TURN_END_ALT_MM {
        FULL_TURN_UDEG as int
    } else {
        FULL_TURN_UDEG * (alt_mm - TURN_START_ALT_MM) / (TURN_SPAN_MM as int)
    }
}

/// Computes the gravity-turn angle for an altitude.
pub fn turn_angle_at(alt_mm: i64) -> (angle_udeg: i64)
    ensures
        angle_udeg == turn_angle_udeg(alt_mm as int),
        0 <= angle_udeg <= FULL_TURN_UDEG,
{
    if alt_mm <= TURN_START_ALT_MM {
        0
    } else if alt_mm >= TURN_END_ALT_MM {
        FULL_TURN_UDEG
    } else {
        let off: i64 = alt_mm - TURN_START_ALT_MM;
        (FULL_TURN_UDEG * off) / TURN_SPAN_MM
    }
}

/// The pitch program in one statement: the commanded angle is always
/// within [0, 90] degrees, and inside the turn window it equals the
/// linear ramp over the window exactly.
pub proof fn lemma_turn_angle_program(alt_mm: int)
    ensures
        0 <= turn_angle_udeg(alt_mm) <= FULL_TURN_UDEG,
        TURN_START_ALT_MM <= alt_mm <= TURN_END_ALT_MM ==> turn_angle_udeg(alt_mm)
            == FULL_TURN_UDEG * (alt_mm - TURN_START_ALT_MM) / (TURN_SPAN_MM as int),
{
}

/// The pitch program never backs off while the vehicle climbs: the
/// commanded angle is monotone in altitude.
pub proof fn lemma_turn_angle_monotone(alt1_mm: int, alt2_mm: int)
    requires
        alt1_mm <= alt2_mm,
    ensures
        turn_angle_udeg(alt1_mm) <= turn_angle_udeg(alt2_mm),
{
    if TURN_START_ALT_MM < alt1_mm && alt2_mm < TURN_END_ALT_MM {
        lemma_mul_inequality(
            alt1_mm - TURN_START_ALT_MM,
            alt2_mm - TURN_START_ALT_MM,
            FULL_TURN_UDEG as int,
        );
        lemma_div_is_ordered(
            FULL_TURN_UDEG * (alt1_mm - TURN_START_ALT_MM),
            FULL_TURN_UDEG * (alt2_mm - TURN_START_ALT_MM),
            TURN_SPAN_MM as int,
        );
        assert((alt1_mm - TURN_START_ALT_MM) * (FULL_TURN_UDEG as int) == FULL_TURN_UDEG * (
        alt1_mm - TURN_START_ALT_MM)) by (nonlinear_arith);
        assert((alt2_mm - TURN_START_ALT_MM) * (FULL_TURN_UDEG as int) == FULL_TURN_UDEG * (
        alt2_mm - TURN_START_ALT_MM)) by (nonlinear_arith);
    } else {
        lemma_turn_angle_program(alt1_mm);
        lemma_turn_angle_program(alt2_mm);
    }
}

/// State the ascent controller carries from one tick to the next.
#[derive(Clone, Copy, PartialEq, Eq, Structural, Debug)]
pub struct AscentState {
    /// The last commanded gravity-turn angle, microdegrees.
    pub turn_angle_udeg: i64,
    /// Whether the booster-separation stage command has been issued.
    pub srb_separated: bool,
    /// Whether a resolved booster-fuel reading has ever been positive.
    /// The fuel stream can report an uninitialized zero before it
    /// stabilizes, so separation is debounced on this flag.
    pub srb_fuel_seen_positive: bool,
}

/// A pitch-and-heading attitude target for the autopilot, microdegrees.
#[derive(Clone, Copy, PartialEq, Eq, Structural, Debug)]
pub struct PitchHeadingCommand {
    /// Pitch above the horizon.
    pub pitch_udeg: i64,
    /// Compass heading.
    pub heading_udeg: i64,
}

/// Everything one ascent tick asks of the vehicle.
#[derive(Clone, Copy, PartialEq, Eq, Structural, Debug)]
pub struct AscentTickOutput {
    /// A new attitude target, when the pitch program moved by more than
    /// the hysteresis.
    pub pitch_command: Option<PitchHeadingCommand>,
    /// Fire the next stage to separate the boosters.
    pub stage_command: bool,
    /// Powered ascent is done; hand over to apoapsis fine tuning.
    pub ascent_complete: bool,
}

/// A new attitude command is due: the altitude resolved, it lies strictly
/// inside the turn window, and the freshly computed angle differs from the
/// last commanded one by more than the hysteresis.
pub open spec fn pitch_update_due(st: AscentState, snap: TelemetrySnapshot) -> bool {
    &&& snap.altitude_mm.is_resolved()
    &&& TURN_START_ALT_MM < snap.altitude_mm.value()
    &&& snap.altitude_mm.value() < TURN_END_ALT_MM
    &&& {
        let d = turn_angle_udeg(snap.altitude_mm.value() as int) - st.turn_angle_udeg;
        d > PITCH_HYSTERESIS_UDEG || d < -(PITCH_HYSTERESIS_UDEG as int)
    }
}

/// The attitude target commanded for a gravity-turn angle: pitch down
/// from vertical by the angle, heading due east.
pub open spec fn pitch_command_for(angle_udeg: int) -> PitchHeadingCommand {
    PitchHeadingCommand {
        pitch_udeg: (FULL_TURN_UDEG - angle_udeg) as i64,
        heading_udeg: LAUNCH_HEADING_UDEG,
    }
}

/// The attitude command a tick emits, if any.
pub open spec fn pitch_command_of(st: AscentState, snap: TelemetrySnapshot) -> Option<
    PitchHeadingCommand,
> {
    if pitch_update_due(st, snap) {
        Some(pitch_command_for(turn_angle_udeg(snap.altitude_mm.value() as int)))
    } else {
        None
    }
}

/// Booster separation is due: not yet separated, the fuel reading has
/// been seen positive on an earlier tick, and this tick it resolved to
/// zero or less.
pub open spec fn stage_due(st: AscentState, snap: TelemetrySnapshot) -> bool {
    &&& !st.srb_separated
    &&& st.srb_fuel_seen_positive
    &&& snap.srb_fuel_milli.is_resolved()
    &&& snap.srb_fuel_milli.value() <= 0
}

/// This tick's fuel reading resolved to a positive amount.
pub open spec fn fuel_seen_positive_now(snap: TelemetrySnapshot) -> bool {
    snap.srb_fuel_milli.is_resolved() && snap.srb_fuel_milli.value() > 0
}

/// This tick's apoapsis reading resolved at or above the ascent exit
/// threshold.
pub open spec fn ascent_complete_now(snap: TelemetrySnapshot) -> bool {
    snap.apoapsis_mm.is_resolved() && snap.apoapsis_mm.value() >= ASCENT_EXIT_APOAPSIS_MM
}

/// The controller state after one tick on a snapshot.
pub open spec fn ascent_next(st: AscentState, snap: TelemetrySnapshot) -> AscentState {
    AscentState {
        turn_angle_udeg: if pitch_update_due(st, snap) {
            turn_angle_udeg(snap.altitude_mm.value() as int) as i64
        } else {
            st.turn_angle_udeg
        },
        srb_separated: st.srb_separated || stage_due(st, snap),
        srb_fuel_seen_positive: st.srb_fuel_seen_positive || (!st.srb_separated
            && fuel_seen_positive_now(snap)),
    }
}

impl AscentState {
    /// The state is well formed: the remembered angle lies within the
    /// pitch program's range.
    pub open spec fn wf(self) -> bool {
        0 <= self.turn_angle_udeg <= FULL_TURN_UDEG
    }

    /// The state before launch as a specification value.
    pub open spec fn prelaunch_spec() -> AscentState {
        AscentState { turn_angle_udeg: 0, srb_separated: false, srb_fuel_seen_positive: false }
    }

    /// The state before launch: vertical, boosters attached, no fuel
    /// reading seen yet.
    pub fn prelaunch() -> (s: AscentState)
        ensures
            s == AscentState::prelaunch_spec(),
            s.wf(),
    {
        AscentState { turn_angle_udeg: 0, srb_separated: false, srb_fuel_seen_positive: false }
    }

    /// One tick of the ascent controller.  Each decision is gated on its
    /// own reading alone: a failed altitude skips only the pitch update, a
    /// failed fuel reading skips only the staging check, a failed apoapsis
    /// skips only the exit check.
    pub fn tick(&mut self, snap: &TelemetrySnapshot) -> (out: AscentTickOutput)
        requires
            old(self).wf(),
        ensures
            final(self).wf(),
            *final(self) == ascent_next(*old(self), *snap),
            out.pitch_command == pitch_command_of(*old(self), *snap),
            out.stage_command == stage_due(*old(self), *snap),
            out.ascent_complete == ascent_complete_now(*snap),
            (out.pitch_command matches Some(c) ==> 0 <= c.pitch_udeg <= FULL_TURN_UDEG
                && c.heading_udeg == LAUNCH_HEADING_UDEG),
    {
        let mut pitch_command: Option<PitchHeadingCommand> = None;
        match snap.altitude_mm {
            Reading::Resolved(alt_mm) => {
                if TURN_START_ALT_MM < alt_mm && alt_mm < TURN_END_ALT_MM {
                    let new_angle = turn_angle_at(alt_mm);
                    let d = new_angle - self.turn_angle_udeg;
                    if d > PITCH_HYSTERESIS_UDEG || d < -PITCH_HYSTERESIS_UDEG {
                        self.turn_angle_udeg = new_angle;
                        pitch_command = Some(
                            PitchHeadingCommand {
                                pitch_udeg: FULL_TURN_UDEG - new_angle,
                                heading_udeg: LAUNCH_HEADING_UDEG,
                            },
                        );
                    }
                }
            },
            Reading::StaleOrMissing => {},
        }
        let mut stage_command = false;
        if !self.srb_separated {
            match snap.srb_fuel_milli {
                Reading::Resolved(fuel_milli) => {
                    if !self.srb_fuel_seen_positive && fuel_milli > 0 {
                        self.srb_fuel_seen_positive = true;
                    }
                    if fuel_milli <= 0 && self.srb_fuel_seen_positive {
                        stage_command = true;
                        self.srb_separated = true;
                    }
                },
                Reading::StaleOrMissing => {},
            }
        }
        let mut ascent_complete = false;
        match snap.apoapsis_mm {
            Reading::Resolved(apo_mm) => {
                if apo_mm >= ASCENT_EXIT_APOAPSIS_MM {
                    ascent_complete = true;
                }
            },
            Reading::StaleOrMissing => {},
        }
        AscentTickOutput { pitch_command, stage_command, ascent_complete }
    }
}

/// The controller state after a whole run of ticks, first snapshot first.
pub open spec fn ascent_run(st: AscentState, snaps: Seq<TelemetrySnapshot>) -> AscentState
    decreases snaps.len(),
{
    if snaps.len() == 0 {
        st
    } else {
        ascent_run(ascent_next(st, snaps[0]), snaps.drop_first())
    }
}

/// How many stage commands a run of ticks issues.
pub open spec fn stage_command_count(st: AscentState, snaps: Seq<TelemetrySnapshot>) -> int
    decreases snaps.len(),
{
    if snaps.len() == 0 {
        0
    } else {
        (if stage_due(st, snaps[0]) {
            1int
        } else {
            0int
        }) + stage_command_count(ascent_next(st, snaps[0]), snaps.drop_first())
    }
}

/// Once the separation flag is set it never clears: the flag moves from
/// false to true at most once over any run.
pub proof fn lemma_separation_is_permanent(st: AscentState, snaps: Seq<TelemetrySnapshot>)
    requires
        st.srb_separated,
    ensures
        ascent_run(st, snaps).srb_separated,
    decreases snaps.len(),
{
    if snaps.len() > 0 {
        lemma_separation_is_permanent(ascent_next(st, snaps[0]), snaps.drop_first());
    }
}

/// Over any run of ticks the staging command fires at most once, and
/// never again once the boosters are separated.
pub proof fn lemma_staging_fires_at_most_once(st: AscentState, snaps: Seq<TelemetrySnapshot>)
    ensures
        0 <= stage_command_count(st, snaps) <= 1,
        st.srb_separated ==> stage_command_count(st, snaps) == 0,
    decreases snaps.len(),
{
    if snaps.len() > 0 {
        lemma_staging_fires_at_most_once(ascent_next(st, snaps[0]), snaps.drop_first());
    }
}

/// If a run starting with the debounce flag clear ends with it set, some
/// tick of the run saw a resolved positive fuel reading.
proof fn lemma_seen_positive_has_a_source(st: AscentState, snaps: Seq<TelemetrySnapshot>)
    requires
        !st.srb_fuel_seen_positive,
        ascent_run(st, snaps).srb_fuel_seen_positive,
    ensures
        exists|j: int| 0 <= j < snaps.len() && fuel_seen_positive_now(snaps[j]),
    decreases snaps.len(),
{
    let next = ascent_next(st, snaps[0]);
    if next.srb_fuel_seen_positive {
        assert(fuel_seen_positive_now(snaps[0]));
    } else {
        lemma_seen_positive_has_a_source(next, snaps.drop_first());
        let j = choose|j: int|
            0 <= j < snaps.drop_first().len() && fuel_seen_positive_now(snaps.drop_first()[j]);
        assert(snaps.drop_first()[j] == snaps[j + 1]);
        assert(fuel_seen_positive_now(snaps[j + 1]));
    }
}

/// Staging only ever fires after the debounce has done its work: if the
/// stage command fires on tick `i` of a run that began with the flag
/// clear, that tick's fuel reading resolved to zero or less, and some
/// strictly earlier tick's fuel reading resolved positive.
pub proof fn lemma_staging_needs_prior_positive_reading(
    st: AscentState,
    snaps: Seq<TelemetrySnapshot>,
    i: int,
)
    requires
        0 <= i < snaps.len(),
        !st.srb_fuel_seen_positive,
        stage_due(ascent_run(st, snaps.take(i)), snaps[i]),
    ensures
        snaps[i].srb_fuel_milli.is_resolved() && snaps[i].srb_fuel_milli.value() <= 0,
        exists|j: int| 0 <= j < i && fuel_seen_positive_now(snaps[j]),
{
    let pre = snaps.take(i);
    lemma_seen_positive_has_a_source(st, pre);
    let j = choose|j: int| 0 <= j < pre.len() && fuel_seen_positive_now(pre[j]);
    assert(pre[j] == snaps[j]);
    assert(fuel_seen_positive_now(snaps[j]));
}

/// The pitch decision reads nothing but the altitude slot: snapshots that
/// agree on it get the same pitch command, whatever the other readings
/// did this tick.
pub proof fn lemma_pitch_decision_independent(
    st: AscentState,
    s1: TelemetrySnapshot,
    s2: TelemetrySnapshot,
)
    requires
        s1.altitude_mm == s2.altitude_mm,
    ensures
        pitch_command_of(st, s1) == pitch_command_of(st, s2),
{
}

/// The staging decision reads nothing but the fuel slot.
pub proof fn lemma_stage_decision_independent(
    st: AscentState,
    s1: TelemetrySnapshot,
    s2: TelemetrySnapshot,
)
    requires
        s1.srb_fuel_milli == s2.srb_fuel_milli,
    ensures
        stage_due(st, s1) == stage_due(st, s2),
{
}

/// The ascent exit decision reads nothing but the apoapsis slot.
pub proof fn lemma_exit_decision_independent(s1: TelemetrySnapshot, s2: TelemetrySnapshot)
    requires
        s1.apoapsis_mm == s2.apoapsis_mm,
    ensures
        ascent_complete_now(s1) == ascent_complete_now(s2),
{
}

/// Re-entering the pitch program with an unchanged altitude emits no
/// second attitude command and leaves the remembered angle alone: the
/// hysteresis suppresses the repeat.
pub proof fn lemma_steady_altitude_emits_no_command(
    st: AscentState,
    s1: TelemetrySnapshot,
    s2: TelemetrySnapshot,
)
    requires
        s1.altitude_mm == s2.altitude_mm,
    ensures
        pitch_command_of(ascent_next(st, s1), s2) is None,
        ascent_next(ascent_next(st, s1), s2).turn_angle_udeg == ascent_next(
            st,
            s1,
        ).turn_angle_udeg,
{
}

} // verus!
