use betterjeb::ascent::AscentState;
use betterjeb::ascent::turn_angle_at;
use betterjeb::ascent::FULL_TURN_UDEG;
use betterjeb::ascent::LAUNCH_HEADING_UDEG;
use betterjeb::mission::MissionPhase;
use betterjeb::mission::ATMOSPHERE_EXIT_ALT_MM;
use betterjeb::mission::THROTTLE_CUT_MILLI;
use betterjeb::mission::THROTTLE_FINE_TUNE_MILLI;
use betterjeb::telemetry::Reading;
use betterjeb::telemetry::TelemetrySnapshot;

fn snap(
    ut_ms: Reading,
    apoapsis_mm: Reading,
    altitude_mm: Reading,
    srb_fuel_milli: Reading,
) -> TelemetrySnapshot {
    TelemetrySnapshot { ut_ms, apoapsis_mm, altitude_mm, srb_fuel_milli }
}

fn quiet() -> TelemetrySnapshot {
    snap(
        Reading::StaleOrMissing,
        Reading::StaleOrMissing,
        Reading::StaleOrMissing,
        Reading::StaleOrMissing,
    )
}

fn with_altitude(alt_mm: i64) -> TelemetrySnapshot {
    let mut s = quiet();
    s.altitude_mm = Reading::Resolved(alt_mm);
    s
}

fn with_fuel(fuel_milli: i64) -> TelemetrySnapshot {
    let mut s = quiet();
    s.srb_fuel_milli = Reading::Resolved(fuel_milli);
    s
}

fn with_apoapsis(apo_mm: i64) -> TelemetrySnapshot {
    let mut s = quiet();
    s.apoapsis_mm = Reading::Resolved(apo_mm);
    s
}

#[test]
fn turn_angle_clamps_below_window() {
    assert_eq!(turn_angle_at(0), 0);
    assert_eq!(turn_angle_at(-5_000_000), 0);
    assert_eq!(turn_angle_at(250_000), 0);
}

#[test]
fn turn_angle_clamps_above_window() {
    assert_eq!(turn_angle_at(45_000_000), FULL_TURN_UDEG);
    assert_eq!(turn_angle_at(100_000_000), FULL_TURN_UDEG);
}

#[test]
fn turn_angle_midpoint_is_forty_five_degrees() {
    // Halfway through the window: 250 m + 44 750 m / 2 = 22 625 m.
    assert_eq!(turn_angle_at(22_625_000), 45_000_000);
}

#[test]
fn turn_angle_matches_linear_ramp() {
    // At 10 000 m the ramp gives 90 * 9750 / 44750 degrees.
    let exact = 90.0_f64 * 9_750.0 / 44_750.0;
    let got = turn_angle_at(10_000_000) as f64 / 1_000_000.0;
    assert!((got - exact).abs() < 1e-5);
}

#[test]
fn pitch_command_points_down_the_ramp() {
    let mut st = AscentState::prelaunch();
    let out = st.tick(&with_altitude(22_625_000));
    let cmd = out.pitch_command.expect("a pitch command at mid-window");
    assert_eq!(cmd.pitch_udeg, 45_000_000);
    assert_eq!(cmd.heading_udeg, LAUNCH_HEADING_UDEG);
    assert_eq!(st.turn_angle_udeg, 45_000_000);
}

#[test]
fn hysteresis_swallows_small_corrections() {
    let mut st = AscentState::prelaunch();
    let out = st.tick(&with_altitude(22_625_000));
    assert!(out.pitch_command.is_some());
    // 100 mm higher moves the ramp well under half a degree.
    let out = st.tick(&with_altitude(22_625_100));
    assert!(out.pitch_command.is_none());
    assert_eq!(st.turn_angle_udeg, 45_000_000);
}

#[test]
fn unchanged_altitude_never_repeats_a_command() {
    let mut st = AscentState::prelaunch();
    let first = st.tick(&with_altitude(30_000_000));
    assert!(first.pitch_command.is_some());
    let angle = st.turn_angle_udeg;
    let second = st.tick(&with_altitude(30_000_000));
    assert!(second.pitch_command.is_none());
    assert_eq!(st.turn_angle_udeg, angle);
}

#[test]
fn no_pitch_command_outside_the_window() {
    let mut st = AscentState::prelaunch();
    assert!(st.tick(&with_altitude(200_000)).pitch_command.is_none());
    assert!(st.tick(&with_altitude(46_000_000)).pitch_command.is_none());
}

#[test]
fn staging_debounces_the_initial_zero() {
    let mut st = AscentState::prelaunch();
    // The fuel stream opens on an uninitialized zero: no separation.
    let out = st.tick(&with_fuel(0));
    assert!(!out.stage_command);
    assert!(!st.srb_separated);
    // A failed reading changes nothing.
    let out = st.tick(&quiet());
    assert!(!out.stage_command);
    // The first positive reading arms the debounce.
    let out = st.tick(&with_fuel(5_000));
    assert!(!out.stage_command);
    assert!(st.srb_fuel_seen_positive);
    // Now an empty booster separates, exactly once.
    let out = st.tick(&with_fuel(0));
    assert!(out.stage_command);
    assert!(st.srb_separated);
    let out = st.tick(&with_fuel(0));
    assert!(!out.stage_command);
}

#[test]
fn staging_ignores_failed_fuel_readings() {
    let mut st = AscentState::prelaunch();
    st.tick(&with_fuel(5_000));
    let out = st.tick(&quiet());
    assert!(!out.stage_command);
    assert!(!st.srb_separated);
    let out = st.tick(&with_fuel(-1));
    assert!(out.stage_command);
}

#[test]
fn ascent_ends_at_nine_tenths_of_target() {
    let mut st = AscentState::prelaunch();
    assert!(!st.tick(&with_apoapsis(66_599_999)).ascent_complete);
    assert!(st.tick(&with_apoapsis(66_600_000)).ascent_complete);
}

#[test]
fn one_failed_reading_blocks_no_other_decision() {
    // Altitude and fuel resolve, apoapsis fails: the pitch and staging
    // decisions still run this tick.
    let mut st = AscentState::prelaunch();
    st.tick(&with_fuel(5_000));
    let s = snap(
        Reading::Resolved(1_000),
        Reading::StaleOrMissing,
        Reading::Resolved(22_625_000),
        Reading::Resolved(0),
    );
    let out = st.tick(&s);
    assert!(out.pitch_command.is_some());
    assert!(out.stage_command);
    assert!(!out.ascent_complete);
    // Apoapsis resolves alone: the exit decision still runs.
    let mut st2 = AscentState::prelaunch();
    let out2 = st2.tick(&with_apoapsis(70_000_000));
    assert!(out2.ascent_complete);
}

#[test]
fn fine_tuning_waits_for_the_target_exactly() {
    let mut phase = MissionPhase::FineTuning;
    let cmds = phase.tick(&with_apoapsis(73_999_999));
    assert_eq!(phase, MissionPhase::FineTuning);
    assert!(cmds.throttle_command.is_none());
    // A failed reading skips the tick rather than ending the phase.
    let cmds = phase.tick(&quiet());
    assert_eq!(phase, MissionPhase::FineTuning);
    assert!(cmds.throttle_command.is_none());
    // The first resolved reading at the target ends it and cuts thrust.
    let cmds = phase.tick(&with_apoapsis(74_000_000));
    assert_eq!(phase, MissionPhase::Coasting);
    assert_eq!(cmds.throttle_command, Some(THROTTLE_CUT_MILLI));
}

#[test]
fn coasting_waits_for_atmosphere_exit() {
    let mut phase = MissionPhase::Coasting;
    phase.tick(&with_altitude(ATMOSPHERE_EXIT_ALT_MM - 1));
    assert_eq!(phase, MissionPhase::Coasting);
    phase.tick(&with_apoapsis(80_000_000));
    assert_eq!(phase, MissionPhase::Coasting);
    phase.tick(&with_altitude(ATMOSPHERE_EXIT_ALT_MM));
    assert_eq!(phase, MissionPhase::ReadyToPlan);
}

#[test]
fn phases_flow_forward_through_the_whole_climb() {
    let mut phase = MissionPhase::liftoff();
    let cmds = phase.tick(&with_altitude(22_625_000));
    assert!(cmds.pitch_command.is_some());
    assert!(matches!(phase, MissionPhase::Ascent(_)));
    let cmds = phase.tick(&with_apoapsis(66_600_000));
    assert_eq!(phase, MissionPhase::FineTuning);
    assert_eq!(cmds.throttle_command, Some(THROTTLE_FINE_TUNE_MILLI));
    phase.tick(&with_apoapsis(74_000_000));
    assert_eq!(phase, MissionPhase::Coasting);
    phase.tick(&with_altitude(70_500_000));
    assert_eq!(phase, MissionPhase::ReadyToPlan);
    // Terminal: later snapshots change nothing.
    let cmds = phase.tick(&with_altitude(80_000_000));
    assert_eq!(phase, MissionPhase::ReadyToPlan);
    assert!(cmds.throttle_command.is_none());
}

#[test]
fn readings_report_resolution() {
    assert!(Reading::Resolved(-3).resolved());
    assert!(!Reading::StaleOrMissing.resolved());
}
