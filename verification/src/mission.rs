//! The guidance phases and the forward flow between them.
//!
//! The streamed part of the flight is a state machine: powered ascent,
//! then apoapsis fine tuning at reduced throttle, then an unpowered coast
//! out of the atmosphere, after which the circularization burn is planned.
//! Each tick maps the current phase and one telemetry snapshot to the next
//! phase and the commands to issue; control only ever moves forward.
//!
//! Throttle settings are carried in thousandths of full throttle, so the
//! commanded level is always within [0, 1] by construction.

use vstd::prelude::*;
use crate::ascent::AscentState;
use crate::ascent::AscentTickOutput;
use crate::ascent::PitchHeadingCommand;
use crate::ascent::TARGET_APOAPSIS_MM;
use crate::ascent::ascent_complete_now;
use crate::ascent::ascent_next;
use crate::ascent::pitch_command_of;
use crate::ascent::stage_due;
use crate::telemetry::Reading;
use crate::telemetry::TelemetrySnapshot;

verus! {

/// Full throttle, thousandths.
pub const THROTTLE_FULL_MILLI: u32 = 1000;
/// Reduced throttle held while fine tuning the apoapsis, thousandths.
pub const THROTTLE_FINE_TUNE_MILLI: u32 = 250;
/// Engines cut, thousandths.
pub const THROTTLE_CUT_MILLI: u32 = 0;
/// Altitude at which the atmosphere is considered left behind,
/// millimeters (70 500 m).
pub const ATMOSPHERE_EXIT_ALT_MM: i64 = 70_500_000;

/// Where the streamed part of the flight stands.
#[derive(Clone, Copy, PartialEq, Eq, Structural, Debug)]
pub enum MissionPhase {
    /// Powered ascent under the gravity-turn controller.
    Ascent(AscentState),
    /// Throttle reduced, waiting for the apoapsis to reach the target.
    FineTuning,
    /// Engines cut, coasting until the atmosphere is left behind.
    Coasting,
    /// Telemetry-driven flight is over; the burn can be planned.
    ReadyToPlan,
}

/// Everything one mission tick asks of the vehicle.
#[derive(Clone, Copy, PartialEq, Eq, Structural, Debug)]
pub struct MissionTickCommands {
    /// A new attitude target from the pitch program.
    pub pitch_command: Option<PitchHeadingCommand>,
    /// Fire the next stage to separate the boosters.
    pub stage_command: bool,
    /// A new throttle level, thousandths of full throttle.
    pub throttle_command: Option<u32>,
}

/// The apoapsis fine-tuning phase is done: the apoapsis reading resolved
/// at or above the target.  A failed reading leaves the phase in place
/// for another tick.
pub open spec fn apoapsis_target_reached(snap: TelemetrySnapshot) -> bool {
    snap.apoapsis_mm.is_resolved() && snap.apoapsis_mm.value() >= TARGET_APOAPSIS_MM
}

/// The coast phase is done: the altitude reading resolved at or above the
/// atmosphere-exit threshold.  All other readings and all failures are
/// ignored.
pub open spec fn atmosphere_left(snap: TelemetrySnapshot) -> bool {
    snap.altitude_mm.is_resolved() && snap.altitude_mm.value() >= ATMOSPHERE_EXIT_ALT_MM
}

/// The phase after one tick on a snapshot.
pub open spec fn phase_next(phase: MissionPhase, snap: TelemetrySnapshot) -> MissionPhase {
    match phase {
        MissionPhase::Ascent(st) => if ascent_complete_now(snap) {
            MissionPhase::FineTuning
        } else {
            MissionPhase::Ascent(ascent_next(st, snap))
        },
        MissionPhase::FineTuning => if apoapsis_target_reached(snap) {
            MissionPhase::Coasting
        } else {
            MissionPhase::FineTuning
        },
        MissionPhase::Coasting => if atmosphere_left(snap) {
            MissionPhase::ReadyToPlan
        } else {
            MissionPhase::Coasting
        },
        MissionPhase::ReadyToPlan => MissionPhase::ReadyToPlan,
    }
}

/// The commands one tick issues.  During ascent they are the ascent
/// controller's, plus the throttle cutback the moment the phase hands
/// over to fine tuning; leaving fine tuning cuts the engines; the coast
/// and later phases command nothing.
pub open spec fn phase_commands(phase: MissionPhase, snap: TelemetrySnapshot) -> MissionTickCommands {
    match phase {
        MissionPhase::Ascent(st) => MissionTickCommands {
            pitch_command: pitch_command_of(st, snap),
            stage_command: stage_due(st, snap),
            throttle_command: if ascent_complete_now(snap) {
                Some(THROTTLE_FINE_TUNE_MILLI)
            } else {
                None
            },
        },
        MissionPhase::FineTuning => MissionTickCommands {
            pitch_command: None,
            stage_command: false,
            throttle_command: if apoapsis_target_reached(snap) {
                Some(THROTTLE_CUT_MILLI)
            } else {
                None
            },
        },
        _ => MissionTickCommands {
            pitch_command: None,
            stage_command: false,
            throttle_command: None,
        },
    }
}

/// How far along the forward flow a phase stands.
pub open spec fn phase_rank(phase: MissionPhase) -> int {
    match phase {
        MissionPhase::Ascent(_) => 0,
        MissionPhase::FineTuning => 1,
        MissionPhase::Coasting => 2,
        MissionPhase::ReadyToPlan => 3,
    }
}

impl MissionPhase {
    /// The phase at launch.
    pub fn liftoff() -> (p: MissionPhase)
        ensures
            p == MissionPhase::Ascent(AscentState::prelaunch_spec()),
    {
        MissionPhase::Ascent(AscentState::prelaunch())
    }

    /// Every ascent state carried by a phase is well formed.
    pub open spec fn wf(self) -> bool {
        match self {
            MissionPhase::Ascent(st) => st.wf(),
            _ => true,
        }
    }

    /// One tick of the guidance loop: consume a snapshot, issue this
    /// tick's commands, move to the next phase.  Every decision is gated
    /// on its own reading; a failed reading skips that decision for the
    /// tick and the loop retries on the next snapshot.
    pub fn tick(&mut self, snap: &TelemetrySnapshot) -> (cmds: MissionTickCommands)
        requires
            old(self).wf(),
        ensures
            final(self).wf(),
            *final(self) == phase_next(*old(self), *snap),
            cmds == phase_commands(*old(self), *snap),
            cmds.throttle_command matches Some(t) ==> t <= THROTTLE_FULL_MILLI,
    {
        match self {
            MissionPhase::Ascent(st) => {
                let out: AscentTickOutput = st.tick(snap);
                if out.ascent_complete {
                    *self = MissionPhase::FineTuning;
                    MissionTickCommands {
                        pitch_command: out.pitch_command,
                        stage_command: out.stage_command,
                        throttle_command: Some(THROTTLE_FINE_TUNE_MILLI),
                    }
                } else {
                    MissionTickCommands {
                        pitch_command: out.pitch_command,
                        stage_command: out.stage_command,
                        throttle_command: None,
                    }
                }
            },
            MissionPhase::FineTuning => {
                let mut reached = false;
                match snap.apoapsis_mm {
                    Reading::Resolved(apo_mm) => {
                        if apo_mm >= TARGET_APOAPSIS_MM {
                            reached = true;
                        }
                    },
                    Reading::StaleOrMissing => {},
                }
                if reached {
                    *self = MissionPhase::Coasting;
                    MissionTickCommands {
                        pitch_command: None,
                        stage_command: false,
                        throttle_command: Some(THROTTLE_CUT_MILLI),
                    }
                } else {
                    MissionTickCommands {
                        pitch_command: None,
                        stage_command: false,
                        throttle_command: None,
                    }
                }
            },
            MissionPhase::Coasting => {
                let mut left = false;
                match snap.altitude_mm {
                    Reading::Resolved(alt_mm) => {
                        if alt_mm >= ATMOSPHERE_EXIT_ALT_MM {
                            left = true;
                        }
                    },
                    Reading::StaleOrMissing => {},
                }
                if left {
                    *self = MissionPhase::ReadyToPlan;
                }
                MissionTickCommands {
                    pitch_command: None,
                    stage_command: false,
                    throttle_command: None,
                }
            },
            MissionPhase::ReadyToPlan => MissionTickCommands {
                pitch_command: None,
                stage_command: false,
                throttle_command: None,
            },
        }
    }
}

/// The phase after a whole run of ticks, first snapshot first.
pub open spec fn phase_run(phase: MissionPhase, snaps: Seq<TelemetrySnapshot>) -> MissionPhase
    decreases snaps.len(),
{
    if snaps.len() == 0 {
        phase
    } else {
        phase_run(phase_next(phase, snaps[0]), snaps.drop_first())
    }
}

/// Control flows strictly forward: no tick ever moves a phase back.
pub proof fn lemma_single_tick_flows_forward(phase: MissionPhase, snap: TelemetrySnapshot)
    ensures
        phase_rank(phase_next(phase, snap)) >= phase_rank(phase),
{
}

/// Control flows strictly forward over whole runs as well.
pub proof fn lemma_phases_flow_forward(phase: MissionPhase, snaps: Seq<TelemetrySnapshot>)
    ensures
        phase_rank(phase_run(phase, snaps)) >= phase_rank(phase),
    decreases snaps.len(),
{
    if snaps.len() > 0 {
        lemma_phases_flow_forward(phase_next(phase, snaps[0]), snaps.drop_first());
    }
}

/// The fine-tuning exit decision reads nothing but the apoapsis slot:
/// snapshots that agree on it decide alike, whatever the other readings
/// did this tick.
pub proof fn lemma_fine_tuning_decision_independent(s1: TelemetrySnapshot, s2: TelemetrySnapshot)
    requires
        s1.apoapsis_mm == s2.apoapsis_mm,
    ensures
        apoapsis_target_reached(s1) == apoapsis_target_reached(s2),
{
}

/// The coast exit decision reads nothing but the altitude slot.
pub proof fn lemma_coast_decision_independent(s1: TelemetrySnapshot, s2: TelemetrySnapshot)
    requires
        s1.altitude_mm == s2.altitude_mm,
    ensures
        atmosphere_left(s1) == atmosphere_left(s2),
{
}

/// The tick on which the fine-tuning phase ends, counted from a run of
/// snapshots fed to it: the first one whose apoapsis reading resolved at
/// or above the target, if any.
pub open spec fn fine_tuning_exit_tick(snaps: Seq<TelemetrySnapshot>) -> Option<int>
    decreases snaps.len(),
{
    if snaps.len() == 0 {
        None
    } else if apoapsis_target_reached(snaps[0]) {
        Some(0int)
    } else {
        match fine_tuning_exit_tick(snaps.drop_first()) {
            Some(i) => Some(i + 1),
            None => None,
        }
    }
}

/// Fine tuning ends on the first tick whose resolved apoapsis reaches the
/// target, and not before: if tick `i` reaches the target and no earlier
/// tick did, the phase exits exactly on tick `i`.
pub proof fn lemma_fine_tuning_exits_on_first_reached(snaps: Seq<TelemetrySnapshot>, i: int)
    requires
        0 <= i < snaps.len(),
        apoapsis_target_reached(snaps[i]),
        forall|j: int| 0 <= j < i ==> !apoapsis_target_reached(snaps[j]),
    ensures
        fine_tuning_exit_tick(snaps) == Some(i),
    decreases i,
{
    if i > 0 {
        assert(snaps.drop_first().len() == snaps.len() - 1);
        assert(snaps.drop_first()[i - 1] == snaps[i]);
        assert(forall|j: int|
            0 <= j < i - 1 ==> snaps.drop_first()[j] == snaps[j + 1]
                && !apoapsis_target_reached(snaps[j + 1]));
        lemma_fine_tuning_exits_on_first_reached(snaps.drop_first(), i - 1);
    }
}

} // verus!
