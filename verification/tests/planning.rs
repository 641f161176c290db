use betterjeb::executor::burn_firing_us;
use betterjeb::executor::burn_start_ms;
use betterjeb::executor::burn_window_open;
use betterjeb::executor::warp_target_ms;
use betterjeb::planner::plan_burn;
use betterjeb::planner::vis_viva_speeds;
use betterjeb::planner::BurnPlan;

#[test]
fn vis_viva_matches_the_real_equation() {
    // A transfer orbit out of the home body's atmosphere:
    // mu of the body, apoapsis radius 750 km, semi-major axis 700 km.
    let mu = 3_531_600_000_000_u64;
    let r_ap = 750_000_u64;
    let a = 700_000_u64;
    let v = vis_viva_speeds(mu, r_ap, a);

    let muf = 3.5316e12_f64;
    let v1 = (muf * (2.0 / 750_000.0 - 1.0 / 700_000.0)).sqrt();
    let v2 = (muf / 750_000.0).sqrt();
    let exact_dv = v2 - v1;

    let got_v1 = v.transfer_ums as f64 / 1e6;
    let got_v2 = v.circular_ums as f64 / 1e6;
    let got_dv = v.delta_v_ums as f64 / 1e6;
    assert!((got_v1 - v1).abs() / v1 < 1e-6);
    assert!((got_v2 - v2).abs() / v2 < 1e-6);
    assert!((got_dv - exact_dv).abs() / exact_dv.abs() < 1e-6);
}

#[test]
fn vis_viva_on_a_circular_orbit_needs_nothing() {
    // Semi-major axis equal to the apoapsis radius: both speeds agree
    // and the delta-v vanishes.
    let v = vis_viva_speeds(4, 1, 1);
    assert_eq!(v.transfer_ums, 2_000_000);
    assert_eq!(v.circular_ums, 2_000_000);
    assert_eq!(v.delta_v_ums, 0);
}

#[test]
fn burn_plan_matches_the_rocket_equation() {
    // A typical circularization: 10 000 kg, 50 kN, 300 s impulse, 300 m/s.
    let plan = plan_burn(
        10_000_000_000,
        50_000_000_000,
        300_000,
        300_000_000,
        600_000,
        120_000,
    )
    .expect("a feasible burn");

    let isp_eff = 300.0_f64 * 9.82;
    let m1 = 10_000.0_f64 / (300.0_f64 / isp_eff).exp();
    let flow = 50_000.0_f64 / isp_eff;
    let exact_burn_s = (10_000.0 - m1) / flow;

    assert!(plan.burn_duration_us >= 1);
    let got_burn_s = plan.burn_duration_us as f64 / 1e6;
    assert!(got_burn_s.is_finite() && got_burn_s > 0.0);
    assert!((got_burn_s - exact_burn_s).abs() / exact_burn_s < 1e-3);
    assert_eq!(plan.epoch_ms, 720_000);
    assert_eq!(plan.delta_v_ums, 300_000_000);
}

#[test]
fn burn_plan_declines_a_circular_orbit() {
    assert!(plan_burn(10_000_000_000, 50_000_000_000, 300_000, 0, 0, 0).is_none());
    assert!(plan_burn(10_000_000_000, 50_000_000_000, 300_000, -5_000_000, 0, 0).is_none());
}

#[test]
fn burn_plan_declines_a_ratio_beyond_its_domain() {
    // 3 000 m/s on a 300 s engine asks for more than one exhaust
    // velocity of delta-v: outside the planner's fixed-point domain.
    assert!(plan_burn(10_000_000_000, 50_000_000_000, 300_000, 3_000_000_000, 0, 0).is_none());
}

#[test]
fn tiny_positive_delta_v_still_burns() {
    // One mm/s of delta-v: the ceilings keep every stage positive.
    let plan = plan_burn(10_000_000_000, 50_000_000_000, 300_000, 1_000, 0, 0)
        .expect("a feasible burn");
    assert!(plan.burn_duration_us >= 1);
}

#[test]
fn burn_is_centred_on_the_epoch() {
    let plan = BurnPlan { epoch_ms: 600_000, delta_v_ums: 79_000_000, burn_duration_us: 2_000_000 };
    assert_eq!(burn_start_ms(&plan), 599_000);
    assert_eq!(warp_target_ms(&plan), 594_000);
}

#[test]
fn burn_window_opens_at_half_the_duration() {
    assert!(!burn_window_open(1_001, 2_000_000));
    assert!(burn_window_open(1_000, 2_000_000));
    assert!(burn_window_open(999, 2_000_000));
    assert!(burn_window_open(-50, 2_000_000));
}

#[test]
fn firing_time_keeps_the_early_cutoff() {
    assert_eq!(burn_firing_us(2_000_000), 1_500_000);
    assert_eq!(burn_firing_us(500_000), 0);
    assert_eq!(burn_firing_us(400_000), 0);
}
