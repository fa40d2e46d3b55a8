use sandbox::ca_simulator::CASimulator;
use sandbox::ca_simulator::SimulationError;
use sandbox::matter_definition::default_matter_definitions;
use sandbox::matter_definition::MatterDefinitions;
use sandbox::matter_definition::MATTER_EMPTY;
use sandbox::matter_definition::MATTER_GAS;
use sandbox::matter_definition::MATTER_SAND;
use sandbox::matter_definition::MATTER_WATER;
use sandbox::settings::AppSettings;
use sandbox::GridPos;

fn sim64() -> CASimulator {
    CASimulator::new(&default_matter_definitions(), 64).unwrap()
}

fn running(movement_steps: u32, dispersion_steps: u32) -> AppSettings {
    let mut s = AppSettings::new();
    s.movement_steps = movement_steps;
    s.dispersion_steps = dispersion_steps;
    s
}

fn count_matter(sim: &CASimulator, matter: u32) -> usize {
    let size = sim.canvas_size() as i32;
    let mut n = 0;
    for y in 0..size {
        for x in 0..size {
            if sim.query_matter(GridPos::new(x, y)) == Some(matter) {
                n += 1;
            }
        }
    }
    n
}

#[test]
fn new_accepts_only_positive_tile_multiples() {
    let defs = default_matter_definitions();
    assert!(CASimulator::new(&defs, 32).is_ok());
    assert!(CASimulator::new(&defs, 64).is_ok());
    assert!(CASimulator::new(&defs, 512).is_ok());
    assert_eq!(
        CASimulator::new(&defs, 0).err(),
        Some(SimulationError::CanvasNotDivisibleByKernelSize { canvas_size: 0 })
    );
    assert_eq!(
        CASimulator::new(&defs, 65).err(),
        Some(SimulationError::CanvasNotDivisibleByKernelSize { canvas_size: 65 })
    );
    assert_eq!(
        CASimulator::new(&defs, 100).err(),
        Some(SimulationError::CanvasNotDivisibleByKernelSize { canvas_size: 100 })
    );
}

#[test]
fn setup_error_message_is_nonempty() {
    let e = SimulationError::CanvasNotDivisibleByKernelSize { canvas_size: 65 };
    assert!(!e.message().is_empty());
}

#[test]
fn new_simulation_is_all_empty() {
    let sim = sim64();
    assert_eq!(sim.canvas_size(), 64);
    assert_eq!(sim.sim_steps(), 0);
    for pos in [GridPos::new(0, 0), GridPos::new(63, 63), GridPos::new(31, 7)] {
        assert_eq!(sim.query_matter(pos), Some(MATTER_EMPTY));
    }
}

#[test]
fn parameter_tables_follow_registry() {
    let sim = sim64();
    // Empty, Powder, Liquid, Gas state codes for ids 0..3.
    assert_eq!(sim.matter_state_input[0], 0);
    assert_eq!(sim.matter_state_input[1], 1);
    assert_eq!(sim.matter_state_input[2], 2);
    assert_eq!(sim.matter_state_input[3], 5);
    assert_eq!(sim.matter_weight_input[1], 1.5f32.to_bits());
    assert_eq!(sim.matter_weight_input[2], 1.0f32.to_bits());
    assert_eq!(sim.matter_dispersion_input[2], 10);
    assert_eq!(sim.matter_dispersion_input[3], 5);
    assert_eq!(sim.matter_color_input[1], 0xc2b280ff);
    // Entries past the registry stay zero.
    assert_eq!(sim.matter_state_input[200], 0);
}

#[test]
fn update_matter_data_keeps_stale_entries() {
    let mut sim = sim64();
    let defs = default_matter_definitions();
    let smaller = MatterDefinitions {
        empty: 0,
        definitions: defs.definitions[0..2].to_vec(),
    };
    sim.update_matter_data(&smaller);
    // The first two entries are rebuilt, the rest keep their values.
    assert_eq!(sim.matter_state_input[1], 1);
    assert_eq!(sim.matter_state_input[2], 2);
    assert_eq!(sim.matter_dispersion_input[2], 10);
}

#[test]
fn query_outside_canvas_is_none() {
    let sim = sim64();
    assert_eq!(sim.query_matter(GridPos::new(-1, 0)), None);
    assert_eq!(sim.query_matter(GridPos::new(0, -1)), None);
    assert_eq!(sim.query_matter(GridPos::new(64, 0)), None);
    assert_eq!(sim.query_matter(GridPos::new(0, 64)), None);
    assert_eq!(sim.query_matter(GridPos::new(-5, 70)), None);
    assert_eq!(sim.query_matter(GridPos::new(i32::MIN, i32::MAX)), None);
}

#[test]
fn paint_point_then_query_returns_matter() {
    let mut sim = sim64();
    let p = GridPos::new(20, 20);
    sim.draw_matter(p, p, MATTER_SAND, 3, false);
    assert_eq!(sim.query_matter(p), Some(MATTER_SAND));
    // Within the disc.
    assert_eq!(sim.query_matter(GridPos::new(22, 20)), Some(MATTER_SAND));
    assert_eq!(sim.query_matter(GridPos::new(20, 17)), Some(MATTER_SAND));
    // Beyond the disc.
    assert_eq!(sim.query_matter(GridPos::new(24, 20)), Some(MATTER_EMPTY));
    assert_eq!(sim.query_matter(GridPos::new(23, 23)), Some(MATTER_EMPTY));
}

#[test]
fn square_brush_covers_corners() {
    let mut sim = sim64();
    let p = GridPos::new(40, 40);
    sim.draw_matter(p, p, MATTER_SAND, 1, true);
    // The corner of the square lies outside a radius-1 disc but inside
    // the square.
    assert_eq!(sim.query_matter(GridPos::new(41, 41)), Some(MATTER_SAND));
    assert_eq!(sim.query_matter(GridPos::new(39, 39)), Some(MATTER_SAND));
    assert_eq!(sim.query_matter(GridPos::new(42, 40)), Some(MATTER_EMPTY));
}

#[test]
fn paint_stroke_covers_path() {
    let mut sim = sim64();
    sim.draw_matter(GridPos::new(10, 10), GridPos::new(14, 10), MATTER_WATER, 0, false);
    for x in 10..=14 {
        assert_eq!(sim.query_matter(GridPos::new(x, 10)), Some(MATTER_WATER));
    }
    assert_eq!(sim.query_matter(GridPos::new(15, 10)), Some(MATTER_EMPTY));
    assert_eq!(sim.query_matter(GridPos::new(10, 11)), Some(MATTER_EMPTY));
}

#[test]
fn brush_follows_the_segment() {
    let mut sim = sim64();
    sim.draw_matter(GridPos::new(0, 0), GridPos::new(10, 5), MATTER_SAND, 1, false);
    // (6,3) lies exactly on the segment; (5,5) is more than two cells
    // away from it (though near the midpoint of the endpoints' bounding
    // box), so the oblique stroke must cover the former and not the
    // latter.
    assert_eq!(sim.query_matter(GridPos::new(6, 3)), Some(MATTER_SAND));
    assert_eq!(sim.query_matter(GridPos::new(5, 5)), Some(MATTER_EMPTY));
    // Just past the far endpoint.
    assert_eq!(sim.query_matter(GridPos::new(12, 6)), Some(MATTER_EMPTY));
}

#[test]
fn square_brush_follows_the_segment() {
    let mut sim = sim64();
    // A zero-width square brush paints exactly the cells the segment
    // passes through.
    sim.draw_matter(GridPos::new(20, 20), GridPos::new(24, 24), MATTER_SAND, 0, true);
    for k in 20..=24 {
        assert_eq!(sim.query_matter(GridPos::new(k, k)), Some(MATTER_SAND));
    }
    assert_eq!(sim.query_matter(GridPos::new(21, 22)), Some(MATTER_EMPTY));
    assert_eq!(sim.query_matter(GridPos::new(22, 21)), Some(MATTER_EMPTY));
    assert_eq!(sim.query_matter(GridPos::new(25, 25)), Some(MATTER_EMPTY));
}

#[test]
fn paint_outside_canvas_changes_nothing() {
    let mut sim = sim64();
    let p = GridPos::new(-10, -10);
    sim.draw_matter(p, p, MATTER_SAND, 2, false);
    assert_eq!(count_matter(&sim, MATTER_SAND), 0);
}

#[test]
fn paused_step_preserves_all_queries() {
    let mut sim = sim64();
    let center = GridPos::new(32, 32);
    sim.draw_matter(center, center, MATTER_SAND, 4, false);

    let size = sim.canvas_size() as i32;
    let mut before = Vec::new();
    for y in 0..size {
        for x in 0..size {
            before.push(sim.query_matter(GridPos::new(x, y)));
        }
    }

    let mut paused = AppSettings::new();
    paused.is_paused = true;
    sim.step(&paused, 123);
    sim.step(&paused, 456);

    let mut i = 0;
    for y in 0..size {
        for x in 0..size {
            assert_eq!(sim.query_matter(GridPos::new(x, y)), before[i]);
            i += 1;
        }
    }
    assert_eq!(sim.sim_steps(), 2);
}

#[test]
fn paused_step_still_refreshes_image() {
    let mut sim = sim64();
    let p = GridPos::new(10, 10);
    sim.draw_matter(p, p, MATTER_SAND, 0, false);
    let mut paused = AppSettings::new();
    paused.is_paused = true;
    sim.step(&paused, 1);
    // The painted cell's pixel carries the sand tint with opaque alpha.
    let idx = 10 * 64 + 10;
    let pixel = sim.color_image()[idx];
    assert_eq!(pixel & 0xFF, 0xFF);
    assert_eq!(pixel & 0xFFFF_FF00, sim.matter_in[idx] & 0xFFFF_FF00);
}

#[test]
fn sand_falls_one_row_per_movement_iteration() {
    let mut sim = sim64();
    let p = GridPos::new(5, 5);
    sim.draw_matter(p, p, MATTER_SAND, 0, false);
    sim.step(&running(1, 0), 0);
    assert_eq!(sim.query_matter(GridPos::new(5, 5)), Some(MATTER_EMPTY));
    assert_eq!(sim.query_matter(GridPos::new(5, 6)), Some(MATTER_SAND));

    sim.step(&running(3, 0), 0);
    assert_eq!(sim.query_matter(GridPos::new(5, 6)), Some(MATTER_EMPTY));
    assert_eq!(sim.query_matter(GridPos::new(5, 9)), Some(MATTER_SAND));
}

#[test]
fn gas_rises() {
    let mut sim = sim64();
    let p = GridPos::new(7, 50);
    sim.draw_matter(p, p, MATTER_GAS, 0, false);
    sim.step(&running(1, 0), 0);
    assert_eq!(sim.query_matter(GridPos::new(7, 50)), Some(MATTER_EMPTY));
    assert_eq!(sim.query_matter(GridPos::new(7, 49)), Some(MATTER_GAS));
}

#[test]
fn sand_sinks_through_water() {
    let mut sim = sim64();
    // Water resting on the canvas floor with sand directly above: the
    // heavier sand displaces the water upward.
    sim.draw_matter(GridPos::new(9, 63), GridPos::new(9, 63), MATTER_WATER, 0, false);
    sim.draw_matter(GridPos::new(9, 62), GridPos::new(9, 62), MATTER_SAND, 0, false);
    sim.step(&running(1, 0), 0);
    assert_eq!(sim.query_matter(GridPos::new(9, 63)), Some(MATTER_SAND));
    assert_eq!(sim.query_matter(GridPos::new(9, 62)), Some(MATTER_WATER));
}

#[test]
fn matter_is_conserved_across_ticks() {
    let mut sim = sim64();
    let center = GridPos::new(32, 40);
    sim.draw_matter(center, center, MATTER_SAND, 3, false);
    sim.draw_matter(GridPos::new(20, 60), GridPos::new(44, 60), MATTER_WATER, 2, false);
    let sand_before = count_matter(&sim, MATTER_SAND);
    let water_before = count_matter(&sim, MATTER_WATER);
    assert!(sand_before > 0 && water_before > 0);
    let s = running(3, 10);
    for seed in 0..5u32 {
        sim.step(&s, seed);
    }
    assert_eq!(count_matter(&sim, MATTER_SAND), sand_before);
    assert_eq!(count_matter(&sim, MATTER_WATER), water_before);
}

#[test]
fn image_follows_grid_after_unpaused_step() {
    let mut sim = sim64();
    sim.draw_matter(GridPos::new(12, 12), GridPos::new(12, 12), MATTER_SAND, 2, false);
    sim.step(&running(3, 4), 99);
    for (i, cell) in sim.matter_in.iter().enumerate() {
        assert_eq!(sim.color_image()[i], (cell & 0xFFFF_FF00) | 0xFF);
    }
}

#[test]
fn step_advances_tick_counter() {
    let mut sim = sim64();
    let s = running(1, 0);
    sim.step(&s, 11);
    sim.step(&s, 22);
    assert_eq!(sim.sim_steps(), 2);
    assert_eq!(sim.seed, 22);
}

#[test]
fn end_to_end_default_canvas_scenario() {
    // Canvas 512 with kernel tile 32, the built-in 4-matter registry.
    // Paint a radius-4 sand disc at the center and run one full tick:
    // the center may keep its sand or the sand may have fallen on, but
    // it can never hold water or gas, which the grid does not contain.
    let defs = default_matter_definitions();
    let mut sim = CASimulator::new(&defs, 512).unwrap();
    let center = GridPos::new(256, 256);
    sim.draw_matter(center, center, MATTER_SAND, 4, false);
    sim.step(&running(3, 10), 7);
    let got = sim.query_matter(center).unwrap();
    assert!(got == MATTER_SAND || got == MATTER_EMPTY);
    assert_ne!(got, MATTER_WATER);
    assert_ne!(got, MATTER_GAS);
}
