use sandbox::schedule::schedule_tick;
use sandbox::schedule::Pass;
use sandbox::schedule::PassInvocation;
use sandbox::settings::AppSettings;

fn running(movement_steps: u32, dispersion_steps: u32) -> AppSettings {
    let mut s = AppSettings::new();
    s.movement_steps = movement_steps;
    s.dispersion_steps = dispersion_steps;
    s
}

fn first_disperse_dir(plan: &[PassInvocation]) -> Option<u32> {
    plan.iter().find(|inv| inv.pass == Pass::HorizontalEmpty).map(|inv| inv.dispersion_dir)
}

#[test]
fn paused_tick_is_colorize_only() {
    let mut s = AppSettings::new();
    s.is_paused = true;
    let plan = schedule_tick(9, &s);
    assert_eq!(plan.len(), 1);
    assert_eq!(plan[0].pass, Pass::Color);
    assert!(!plan[0].swap);
}

#[test]
fn movement_group_order() {
    let plan = schedule_tick(0, &running(1, 0));
    let kinds: Vec<Pass> = plan.iter().map(|inv| inv.pass).collect();
    assert_eq!(
        kinds,
        vec![
            Pass::FallEmpty,
            Pass::FallSwap,
            Pass::RiseEmpty,
            Pass::RiseSwap,
            Pass::SlideDownEmpty,
            Pass::SlideDownSwap,
            Pass::Color,
        ]
    );
}

#[test]
fn movement_steps_capped_at_three() {
    // Three iterations when asked for three, and no more when asked for
    // more: the schedule never holds a fourth movement group.
    let plan3 = schedule_tick(0, &running(3, 0));
    let falls3 = plan3.iter().filter(|inv| inv.pass == Pass::FallSwap).count();
    assert_eq!(falls3, 3);
    let plan9 = schedule_tick(0, &running(9, 0));
    let falls9 = plan9.iter().filter(|inv| inv.pass == Pass::FallSwap).count();
    assert_eq!(falls9, 3);
    let move_steps: Vec<u32> =
        plan3.iter().filter(|inv| inv.pass == Pass::FallSwap).map(|inv| inv.move_step).collect();
    assert_eq!(move_steps, vec![0, 1, 2]);
}

#[test]
fn dispersion_phases_surround_extra_movement() {
    // With 3 movement iterations and N dispersion sub-steps, the exact
    // tick order is: move(0), disperse phase, move(1), move(2), disperse
    // phase, colorize.
    let n = 2;
    let plan = schedule_tick(0, &running(3, n));
    let kinds: Vec<Pass> = plan.iter().map(|inv| inv.pass).collect();
    let mut want = vec![
        Pass::FallEmpty,
        Pass::FallSwap,
        Pass::RiseEmpty,
        Pass::RiseSwap,
        Pass::SlideDownEmpty,
        Pass::SlideDownSwap,
    ];
    for _ in 0..n {
        want.push(Pass::HorizontalEmpty);
        want.push(Pass::HorizontalSwap);
    }
    for step in 1..3 {
        let _ = step;
        want.push(Pass::FallEmpty);
        want.push(Pass::FallSwap);
        want.push(Pass::RiseEmpty);
        want.push(Pass::RiseSwap);
        want.push(Pass::SlideDownEmpty);
        want.push(Pass::SlideDownSwap);
    }
    for _ in 0..n {
        want.push(Pass::HorizontalEmpty);
        want.push(Pass::HorizontalSwap);
    }
    want.push(Pass::Color);
    assert_eq!(kinds, want);
}

#[test]
fn dispersion_sub_step_counters() {
    let plan = schedule_tick(0, &running(1, 3));
    let steps: Vec<u32> = plan
        .iter()
        .filter(|inv| inv.pass == Pass::HorizontalSwap)
        .map(|inv| inv.dispersion_step)
        .collect();
    assert_eq!(steps, vec![0, 1, 2, 0, 1, 2]);
}

#[test]
fn dispersion_direction_follows_tick_parity() {
    let s = running(3, 10);
    assert_eq!(first_disperse_dir(&schedule_tick(0, &s)), Some(1));
    assert_eq!(first_disperse_dir(&schedule_tick(1, &s)), Some(0));
    assert_eq!(first_disperse_dir(&schedule_tick(2, &s)), Some(1));
    assert_eq!(first_disperse_dir(&schedule_tick(3, &s)), Some(0));
}

#[test]
fn dispersion_direction_alternates_at_wraparound() {
    let s = running(3, 1);
    // u32::MAX is odd, its wrapped successor 0 is even: the flag still
    // flips.
    assert_eq!(first_disperse_dir(&schedule_tick(u32::MAX, &s)), Some(0));
    assert_eq!(first_disperse_dir(&schedule_tick(0, &s)), Some(1));
}

#[test]
fn second_phase_runs_opposite_direction() {
    let plan = schedule_tick(0, &running(3, 1));
    let dirs: Vec<u32> = plan
        .iter()
        .filter(|inv| inv.pass == Pass::HorizontalSwap)
        .map(|inv| inv.dispersion_dir)
        .collect();
    assert_eq!(dirs, vec![1, 0]);
    let plan_odd = schedule_tick(5, &running(3, 1));
    let dirs_odd: Vec<u32> = plan_odd
        .iter()
        .filter(|inv| inv.pass == Pass::HorizontalSwap)
        .map(|inv| inv.dispersion_dir)
        .collect();
    assert_eq!(dirs_odd, vec![0, 1]);
}

#[test]
fn movement_commits_and_colorize_does_not() {
    let plan = schedule_tick(0, &running(3, 4));
    for inv in &plan {
        match inv.pass {
            Pass::Color => assert!(!inv.swap),
            _ => assert!(inv.swap),
        }
    }
    // A tick always commits an even number of swaps, so the committed
    // front buffer ends the tick in the same slot it started in.
    let swaps = plan.iter().filter(|inv| inv.swap).count();
    assert_eq!(swaps % 2, 0);
}

#[test]
fn zero_dispersion_steps_schedule_no_lateral_passes() {
    let plan = schedule_tick(0, &running(2, 0));
    assert!(plan.iter().all(|inv| inv.pass != Pass::HorizontalEmpty));
    assert!(plan.iter().all(|inv| inv.pass != Pass::HorizontalSwap));
}
