use sandbox::idx;
use sandbox::is_inside_sim_canvas;
use sandbox::settings::AppSettings;
use sandbox::settings::INIT_DISPERSION_STEPS;
use sandbox::settings::INIT_MOVEMENT_STEPS;
use sandbox::settings::REDUCED_DISPERSION_STEPS;
use sandbox::GridPos;
use sandbox::KERNEL_SIZE;
use sandbox::NUM_WORK_GROUPS;
use sandbox::SIM_CANVAS_SIZE;

#[test]
fn default_settings() {
    let s = AppSettings::new();
    assert!(!s.is_paused);
    assert_eq!(s.movement_steps, INIT_MOVEMENT_STEPS);
    assert_eq!(s.dispersion_steps, INIT_DISPERSION_STEPS);
    assert!(!s.print_performance);
    assert_eq!(AppSettings::default(), s);
}

#[test]
fn settings_reduced_without_discrete_gpu() {
    let mut s = AppSettings::new();
    s.update_based_on_device_info_and_env(false, 8192);
    assert_eq!(s.dispersion_steps, REDUCED_DISPERSION_STEPS);
    assert_eq!(s.movement_steps, 1);
}

#[test]
fn settings_reduced_with_little_memory() {
    let mut s = AppSettings::new();
    s.update_based_on_device_info_and_env(true, 1536);
    assert_eq!(s.dispersion_steps, REDUCED_DISPERSION_STEPS);
    assert_eq!(s.movement_steps, 2);
}

#[test]
fn settings_kept_on_strong_device() {
    let mut s = AppSettings::new();
    s.update_based_on_device_info_and_env(true, 8192);
    assert_eq!(s.dispersion_steps, INIT_DISPERSION_STEPS);
    assert_eq!(s.movement_steps, INIT_MOVEMENT_STEPS);
}

#[test]
fn canvas_constants_cover_grid_exactly() {
    assert_eq!(SIM_CANVAS_SIZE % KERNEL_SIZE, 0);
    assert_eq!(NUM_WORK_GROUPS * KERNEL_SIZE, SIM_CANVAS_SIZE);
}

#[test]
fn inside_sim_canvas_bounds() {
    assert!(is_inside_sim_canvas(GridPos::new(0, 0)));
    assert!(is_inside_sim_canvas(GridPos::new(511, 511)));
    assert!(!is_inside_sim_canvas(GridPos::new(-1, 0)));
    assert!(!is_inside_sim_canvas(GridPos::new(0, 512)));
    assert!(!is_inside_sim_canvas(GridPos::new(512, 0)));
}

#[test]
fn idx_is_row_major() {
    assert_eq!(idx(GridPos::new(0, 0)), 0);
    assert_eq!(idx(GridPos::new(3, 2)), 2 * 512 + 3);
    assert_eq!(idx(GridPos::new(511, 511)), 512 * 512 - 1);
}

#[test]
fn grid_pos_constructor() {
    let p = GridPos::new(-4, 9);
    assert_eq!(p.x, -4);
    assert_eq!(p.y, 9);
}
