//! A falling-sand cellular-automata simulation engine.
//!
//! The engine keeps a double-buffered square grid of packed cells (matter id
//! plus color), a registry of matter definitions, and per-matter parameter
//! tables. Each tick it runs a fixed, ordered sequence of data-parallel
//! passes (fall, rise, slide, lateral dispersion, colorize) over the grid,
//! producing a new committed grid and an RGBA output image.

use vstd::prelude::*;

pub mod ca_simulator;
pub mod color;
pub mod draw;
pub mod matter_definition;
pub mod matter_reaction;
pub mod matter_state;
pub mod passes;
pub mod permutation;
pub mod schedule;
pub mod settings;

verus! {

/// Edge length of the square simulation canvas used by the fixed-size helpers.
pub const SIM_CANVAS_SIZE: u32 = 512;

/// Kernel tile size in x and y; a canvas edge must be a multiple of this.
pub const KERNEL_SIZE: u32 = 32;

/// Work groups per axis when dispatching a pass over the fixed-size canvas.
pub const NUM_WORK_GROUPS: u32 = SIM_CANVAS_SIZE / KERNEL_SIZE;

/// Capacity of the per-matter parameter tables; matter ids are 8-bit.
pub const MAX_NUM_MATTERS: u32 = 256;

/// A position on the simulation canvas, in grid coordinates.
#[derive(Clone, Copy, Debug, PartialEq, Eq, Structural)]
pub struct GridPos {
    pub x: i32,
    pub y: i32,
}

impl GridPos {
    pub fn new(x: i32, y: i32) -> (r: GridPos)
        ensures
            r.x == x,
            r.y == y,
    {
        GridPos { x, y }
    }
}

/// Holds when `pos` lies inside the fixed-size simulation canvas.
pub open spec fn spec_inside_sim_canvas(pos: GridPos) -> bool {
    0 <= pos.x < SIM_CANVAS_SIZE && 0 <= pos.y < SIM_CANVAS_SIZE
}

pub fn is_inside_sim_canvas(pos: GridPos) -> (r: bool)
    ensures
        r == spec_inside_sim_canvas(pos),
{
    pos.x >= 0 && pos.x < SIM_CANVAS_SIZE as i32 && pos.y >= 0 && pos.y < SIM_CANVAS_SIZE as i32
}

/// Index of `pos` in a row-major fixed-size grid buffer.
pub fn idx(pos: GridPos) -> (r: usize)
    requires
        spec_inside_sim_canvas(pos),
    ensures
        r == pos.y * SIM_CANVAS_SIZE + pos.x,
{
    (pos.y as usize) * (SIM_CANVAS_SIZE as usize) + (pos.x as usize)
}

} // verus!
