//! The data-parallel kernel passes.
//!
//! Each pass computes, for every grid cell in parallel, a new cell value
//! from the cell's own position, its neighbors' values in the committed
//! buffer, and the per-matter parameter tables. A pass never reads the
//! buffer it writes: every function here takes the committed grid by
//! reference and returns a freshly written one, which is the race-free
//! double-buffering discipline of the engine.
//!
//! Movement is resolved as disjoint pairwise exchanges. A cell moves only
//! when its destination does not itself move in the same pass, so each cell
//! of the new grid is either unchanged or takes the value of exactly one
//! neighbor, and no value is duplicated or lost.

use vstd::prelude::*;

use crate::color::spec_cell_matter;
use crate::matter_state::STATE_EMPTY;
use crate::matter_state::STATE_GAS;
use crate::matter_state::STATE_LIQUID;
use crate::matter_state::STATE_POWDER;
use crate::matter_state::STATE_SOLID_GRAVITY;

verus! {

/// The cell at column `x`, row `y` of a row-major grid with edge `size`.
pub open spec fn spec_cell_at(g: Seq<u32>, size: int, x: int, y: int) -> u32 {
    g[y * size + x]
}

/// The state-class code of a cell's matter, from the state table.
pub open spec fn spec_state_of(st: Seq<u32>, cell: u32) -> u32 {
    st[spec_cell_matter(cell) as int]
}

/// The weight bits of a cell's matter, from the weight table.
pub open spec fn spec_weight_of(wt: Seq<u32>, cell: u32) -> u32 {
    wt[spec_cell_matter(cell) as int]
}

/// The dispersion distance of a cell's matter, from the dispersion table.
pub open spec fn spec_dispersion_of(dp: Seq<u32>, cell: u32) -> u32 {
    dp[spec_cell_matter(cell) as int]
}

/// States whose matter is pulled down by gravity.
pub open spec fn spec_is_faller(state: u32) -> bool {
    state == STATE_POWDER || state == STATE_LIQUID || state == STATE_SOLID_GRAVITY
}

/// States a falling or sliding cell may displace: nothing, or fluids
/// lighter than the mover.
pub open spec fn spec_is_displaceable(state: u32) -> bool {
    state == STATE_EMPTY || state == STATE_LIQUID || state == STATE_GAS
}

/// The cell at `(x, y)` wants to fall: it is gravity-bound, the cell
/// directly below is displaceable, and it is heavier than that cell.
pub open spec fn spec_falls_from(g: Seq<u32>, st: Seq<u32>, wt: Seq<u32>, size: int, x: int, y: int) -> bool {
    &&& y + 1 < size
    &&& spec_is_faller(spec_state_of(st, spec_cell_at(g, size, x, y)))
    &&& spec_is_displaceable(spec_state_of(st, spec_cell_at(g, size, x, y + 1)))
    &&& spec_weight_of(wt, spec_cell_at(g, size, x, y)) > spec_weight_of(
        wt,
        spec_cell_at(g, size, x, y + 1),
    )
}

/// The cell at `(x, y)` falls this pass: it wants to fall and the cell
/// below does not itself fall, so the two exchange without conflicting
/// with any other exchange of the pass.
pub open spec fn spec_falls(g: Seq<u32>, st: Seq<u32>, wt: Seq<u32>, size: int, x: int, y: int) -> bool {
    spec_falls_from(g, st, wt, size, x, y) && !spec_falls_from(g, st, wt, size, x, y + 1)
}

/// The new value of cell `(x, y)` after one fall pass: the cell below if
/// this cell falls, the cell above if that one falls into this cell, the
/// old value otherwise.
pub open spec fn spec_fall_new_cell(g: Seq<u32>, st: Seq<u32>, wt: Seq<u32>, size: int, x: int, y: int) -> u32 {
    if spec_falls(g, st, wt, size, x, y) {
        spec_cell_at(g, size, x, y + 1)
    } else if y > 0 && spec_falls(g, st, wt, size, x, y - 1) {
        spec_cell_at(g, size, x, y - 1)
    } else {
        spec_cell_at(g, size, x, y)
    }
}

/// The grid after one fall pass.
pub open spec fn spec_fall(g: Seq<u32>, st: Seq<u32>, wt: Seq<u32>, size: int) -> Seq<u32> {
    Seq::new((size * size) as nat, |i: int| spec_fall_new_cell(g, st, wt, size, i % size, i / size))
}

/// The cell at `(x, y)` wants to rise: it is a gas and the cell directly
/// above is empty, or a liquid heavier than it.
pub open spec fn spec_rises_from(g: Seq<u32>, st: Seq<u32>, wt: Seq<u32>, size: int, x: int, y: int) -> bool {
    &&& y > 0
    &&& spec_state_of(st, spec_cell_at(g, size, x, y)) == STATE_GAS
    &&& {
        ||| spec_state_of(st, spec_cell_at(g, size, x, y - 1)) == STATE_EMPTY
        ||| (spec_state_of(st, spec_cell_at(g, size, x, y - 1)) == STATE_LIQUID && spec_weight_of(
            wt,
            spec_cell_at(g, size, x, y),
        ) < spec_weight_of(wt, spec_cell_at(g, size, x, y - 1)))
    }
}

/// The cell at `(x, y)` rises this pass: it wants to rise and the cell
/// above does not itself rise.
pub open spec fn spec_rises(g: Seq<u32>, st: Seq<u32>, wt: Seq<u32>, size: int, x: int, y: int) -> bool {
    spec_rises_from(g, st, wt, size, x, y) && !spec_rises_from(g, st, wt, size, x, y - 1)
}

/// The new value of cell `(x, y)` after one rise pass.
pub open spec fn spec_rise_new_cell(g: Seq<u32>, st: Seq<u32>, wt: Seq<u32>, size: int, x: int, y: int) -> u32 {
    if spec_rises(g, st, wt, size, x, y) {
        spec_cell_at(g, size, x, y - 1)
    } else if y + 1 < size && spec_rises(g, st, wt, size, x, y + 1) {
        spec_cell_at(g, size, x, y + 1)
    } else {
        spec_cell_at(g, size, x, y)
    }
}

/// The grid after one rise pass.
pub open spec fn spec_rise(g: Seq<u32>, st: Seq<u32>, wt: Seq<u32>, size: int) -> Seq<u32> {
    Seq::new((size * size) as nat, |i: int| spec_rise_new_cell(g, st, wt, size, i % size, i / size))
}

/// The sliding direction of a movement iteration: right on even iteration
/// indices, left on odd ones, so blocked powder drifts both ways across a
/// tick's iterations.
pub open spec fn spec_slide_dir(move_step: u32) -> int {
    if move_step % 2 == 0 {
        1
    } else {
        -1
    }
}

/// States that slide diagonally when they cannot fall straight down.
pub open spec fn spec_is_slider(state: u32) -> bool {
    state == STATE_POWDER || state == STATE_SOLID_GRAVITY
}

/// The cell at `(x, y)` slides diagonally this pass: it is a slider that
/// cannot fall straight down, and the diagonal cell one step toward `s`
/// and one row down is empty. Targets are empty and sliders are not, and
/// within one pass all slides share the direction `s`, so each empty
/// target has at most one slider claiming it.
pub open spec fn spec_slides_from(g: Seq<u32>, st: Seq<u32>, wt: Seq<u32>, size: int, s: int, x: int, y: int) -> bool {
    &&& y + 1 < size
    &&& spec_is_slider(spec_state_of(st, spec_cell_at(g, size, x, y)))
    &&& !spec_falls_from(g, st, wt, size, x, y)
    &&& 0 <= x + s < size
    &&& spec_state_of(st, spec_cell_at(g, size, x + s, y + 1)) == STATE_EMPTY
}

/// The new value of cell `(x, y)` after one slide pass in direction `s`.
pub open spec fn spec_slide_new_cell(g: Seq<u32>, st: Seq<u32>, wt: Seq<u32>, size: int, s: int, x: int, y: int) -> u32 {
    if spec_slides_from(g, st, wt, size, s, x, y) {
        spec_cell_at(g, size, x + s, y + 1)
    } else if y > 0 && 0 <= x - s < size && spec_slides_from(g, st, wt, size, s, x - s, y - 1) {
        spec_cell_at(g, size, x - s, y - 1)
    } else {
        spec_cell_at(g, size, x, y)
    }
}

/// The grid after one slide pass in direction `s`.
pub open spec fn spec_slide(g: Seq<u32>, st: Seq<u32>, wt: Seq<u32>, size: int, s: int) -> Seq<u32> {
    Seq::new(
        (size * size) as nat,
        |i: int| spec_slide_new_cell(g, st, wt, size, s, i % size, i / size),
    )
}

/// The lateral direction of a dispersion phase: the flag value 1 moves
/// matter toward higher x, any other value toward lower x.
pub open spec fn spec_disperse_dx(dir: u32) -> int {
    if dir == 1 {
        1
    } else {
        -1
    }
}

/// The cell at `(x, y)` disperses this sub-step: it is a liquid or gas
/// whose per-matter dispersion distance exceeds the current sub-step
/// counter, and the lateral neighbor toward `d` is empty. As with slides,
/// one fixed direction per pass keeps the exchanges disjoint.
pub open spec fn spec_disperses_from(g: Seq<u32>, st: Seq<u32>, dp: Seq<u32>, size: int, d: int, step: u32, x: int, y: int) -> bool {
    &&& (spec_state_of(st, spec_cell_at(g, size, x, y)) == STATE_LIQUID || spec_state_of(
        st,
        spec_cell_at(g, size, x, y),
    ) == STATE_GAS)
    &&& step < spec_dispersion_of(dp, spec_cell_at(g, size, x, y))
    &&& 0 <= x + d < size
    &&& spec_state_of(st, spec_cell_at(g, size, x + d, y)) == STATE_EMPTY
}

/// The new value of cell `(x, y)` after one dispersion sub-step toward `d`.
pub open spec fn spec_disperse_new_cell(g: Seq<u32>, st: Seq<u32>, dp: Seq<u32>, size: int, d: int, step: u32, x: int, y: int) -> u32 {
    if spec_disperses_from(g, st, dp, size, d, step, x, y) {
        spec_cell_at(g, size, x + d, y)
    } else if 0 <= x - d < size && spec_disperses_from(g, st, dp, size, d, step, x - d, y) {
        spec_cell_at(g, size, x - d, y)
    } else {
        spec_cell_at(g, size, x, y)
    }
}

/// The grid after one dispersion sub-step toward `d` at sub-step counter
/// `step`.
pub open spec fn spec_disperse_pass(g: Seq<u32>, st: Seq<u32>, dp: Seq<u32>, size: int, d: int, step: u32) -> Seq<u32> {
    Seq::new(
        (size * size) as nat,
        |i: int| spec_disperse_new_cell(g, st, dp, size, d, step, i % size, i / size),
    )
}

/// The visible RGBA pixel of a cell: its three stored color bytes over a
/// fully opaque alpha byte.
pub open spec fn spec_pixel(cell: u32) -> u32 {
    (cell & 0xFFFF_FF00) | 0xFF
}

/// The output image derived from a committed grid.
pub open spec fn spec_colorize(g: Seq<u32>) -> Seq<u32> {
    Seq::new(g.len(), |i: int| spec_pixel(g[i]))
}

/// Row-major index arithmetic: position and flat index convert both ways,
/// and the index stays well below the machine word range.
pub(crate) proof fn lemma_rowmajor_index(size: int, x: int, y: int)
    requires
        0 < size <= 16384,
        0 <= x < size,
        0 <= y < size,
    ensures
        0 <= y * size + x < size * size,
        size * size <= 0x1000_0000,
        (y * size + x) % size == x,
        (y * size + x) / size == y,
{
    assert(0 <= y * size + x < size * size) by (nonlinear_arith)
        requires
            0 < size,
            0 <= x < size,
            0 <= y < size,
    ;
    assert(size * size <= 0x1000_0000) by (nonlinear_arith)
        requires
            0 < size <= 16384,
    ;
    assert((y * size + x) % size == x && (y * size + x) / size == y) by (nonlinear_arith)
        requires
            0 < size,
            0 <= x < size,
            0 <= y < size,
    ;
}

/// One full row advances the row-major index by one row length.
pub(crate) proof fn lemma_row_advance(size: int, y: int)
    ensures
        (y + 1) * size == y * size + size,
{
    assert((y + 1) * size == y * size + size) by (nonlinear_arith);
}

/// A flat index decomposes into a column within range, a row within
/// range, and back.
pub(crate) proof fn lemma_flat_index(size: int, i: int)
    requires
        0 < size,
        0 <= i < size * size,
    ensures
        0 <= i % size < size,
        0 <= i / size < size,
        (i / size) * size + (i % size) == i,
{
    assert(0 <= i % size < size && 0 <= i / size < size && (i / size) * size + (i % size) == i)
        by (nonlinear_arith)
        requires
            0 < size,
            0 <= i < size * size,
    ;
}

/// Reads the cell at `(x, y)` of a row-major grid.
fn cell_at(grid: &Vec<u32>, size: u32, x: u32, y: u32) -> (r: u32)
    requires
        0 < size <= 16384,
        grid@.len() == size * size,
        x < size,
        y < size,
    ensures
        r == spec_cell_at(grid@, size as int, x as int, y as int),
{
    proof {
        lemma_rowmajor_index(size as int, x as int, y as int);
    }
    grid[(y as usize) * (size as usize) + (x as usize)]
}

/// Looks a cell's matter up in a 256-entry per-matter table.
fn table_of(table: &Vec<u32>, cell: u32) -> (r: u32)
    requires
        table@.len() == 256,
    ensures
        r == table@[spec_cell_matter(cell) as int],
{
    proof {
        crate::color::lemma_cell_matter_fits(cell);
    }
    table[(cell & 255) as usize]
}

/// Whether the cell at `(x, y)` wants to fall.
fn falls_from(grid: &Vec<u32>, st: &Vec<u32>, wt: &Vec<u32>, size: u32, x: u32, y: u32) -> (r:
    bool)
    requires
        0 < size <= 16384,
        grid@.len() == size * size,
        st@.len() == 256,
        wt@.len() == 256,
        x < size,
        y < size,
    ensures
        r == spec_falls_from(grid@, st@, wt@, size as int, x as int, y as int),
{
    if y + 1 >= size {
        return false;
    }
    let here = cell_at(grid, size, x, y);
    let below = cell_at(grid, size, x, y + 1);
    let s_here = table_of(st, here);
    let s_below = table_of(st, below);
    let faller = s_here == STATE_POWDER || s_here == STATE_LIQUID || s_here == STATE_SOLID_GRAVITY;
    let displaceable = s_below == STATE_EMPTY || s_below == STATE_LIQUID || s_below == STATE_GAS;
    faller && displaceable && table_of(wt, here) > table_of(wt, below)
}

/// The new value of cell `(x, y)` for the fall pass.
fn fall_new_cell(grid: &Vec<u32>, st: &Vec<u32>, wt: &Vec<u32>, size: u32, x: u32, y: u32) -> (r:
    u32)
    requires
        0 < size <= 16384,
        grid@.len() == size * size,
        st@.len() == 256,
        wt@.len() == 256,
        x < size,
        y < size,
    ensures
        r == spec_fall_new_cell(grid@, st@, wt@, size as int, x as int, y as int),
{
    let ff = falls_from(grid, st, wt, size, x, y);
    if ff && !falls_from(grid, st, wt, size, x, y + 1) {
        cell_at(grid, size, x, y + 1)
    } else if y > 0 && falls_from(grid, st, wt, size, x, y - 1) && !ff {
        cell_at(grid, size, x, y - 1)
    } else {
        cell_at(grid, size, x, y)
    }
}

/// Runs one fall pass: writes the moved grid into a fresh buffer.
pub fn fall_pass(grid: &Vec<u32>, st: &Vec<u32>, wt: &Vec<u32>, size: u32) -> (out: Vec<u32>)
    requires
        0 < size <= 16384,
        grid@.len() == size * size,
        st@.len() == 256,
        wt@.len() == 256,
    ensures
        out@ == spec_fall(grid@, st@, wt@, size as int),
{
    let mut out: Vec<u32> = Vec::new();
    let mut y: u32 = 0;
    while y < size
        invariant
            0 < size <= 16384,
            grid@.len() == size * size,
            st@.len() == 256,
            wt@.len() == 256,
            y <= size,
            out@.len() == y * size,
            forall|i: int|
                0 <= i < out@.len() ==> out@[i] == spec_fall(grid@, st@, wt@, size as int)[i],
        decreases size - y,
    {
        let mut x: u32 = 0;
        while x < size
            invariant
                0 < size <= 16384,
                grid@.len() == size * size,
                st@.len() == 256,
                wt@.len() == 256,
                y < size,
                x <= size,
                out@.len() == y * size + x,
                forall|i: int|
                    0 <= i < out@.len() ==> out@[i] == spec_fall(grid@, st@, wt@, size as int)[i],
            decreases size - x,
        {
            let c = fall_new_cell(grid, st, wt, size, x, y);
            proof {
                lemma_rowmajor_index(size as int, x as int, y as int);
            }
            out.push(c);
            x += 1;
        }
        proof {
            lemma_row_advance(size as int, y as int);
        }
        y += 1;
    }
    proof {
        assert(out@ =~= spec_fall(grid@, st@, wt@, size as int));
    }
    out
}

/// Whether the cell at `(x, y)` wants to rise.
fn rises_from(grid: &Vec<u32>, st: &Vec<u32>, wt: &Vec<u32>, size: u32, x: u32, y: u32) -> (r:
    bool)
    requires
        0 < size <= 16384,
        grid@.len() == size * size,
        st@.len() == 256,
        wt@.len() == 256,
        x < size,
        y < size,
    ensures
        r == spec_rises_from(grid@, st@, wt@, size as int, x as int, y as int),
{
    if y == 0 {
        return false;
    }
    let here = cell_at(grid, size, x, y);
    let above = cell_at(grid, size, x, y - 1);
    let s_above = table_of(st, above);
    table_of(st, here) == STATE_GAS && (s_above == STATE_EMPTY || (s_above == STATE_LIQUID
        && table_of(wt, here) < table_of(wt, above)))
}

/// The new value of cell `(x, y)` for the rise pass.
fn rise_new_cell(grid: &Vec<u32>, st: &Vec<u32>, wt: &Vec<u32>, size: u32, x: u32, y: u32) -> (r:
    u32)
    requires
        0 < size <= 16384,
        grid@.len() == size * size,
        st@.len() == 256,
        wt@.len() == 256,
        x < size,
        y < size,
    ensures
        r == spec_rise_new_cell(grid@, st@, wt@, size as int, x as int, y as int),
{
    let rf = rises_from(grid, st, wt, size, x, y);
    if rf && !rises_from(grid, st, wt, size, x, y - 1) {
        cell_at(grid, size, x, y - 1)
    } else if y + 1 < size && rises_from(grid, st, wt, size, x, y + 1) && !rf {
        cell_at(grid, size, x, y + 1)
    } else {
        cell_at(grid, size, x, y)
    }
}

/// Runs one rise pass.
pub fn rise_pass(grid: &Vec<u32>, st: &Vec<u32>, wt: &Vec<u32>, size: u32) -> (out: Vec<u32>)
    requires
        0 < size <= 16384,
        grid@.len() == size * size,
        st@.len() == 256,
        wt@.len() == 256,
    ensures
        out@ == spec_rise(grid@, st@, wt@, size as int),
{
    let mut out: Vec<u32> = Vec::new();
    let mut y: u32 = 0;
    while y < size
        invariant
            0 < size <= 16384,
            grid@.len() == size * size,
            st@.len() == 256,
            wt@.len() == 256,
            y <= size,
            out@.len() == y * size,
            forall|i: int|
                0 <= i < out@.len() ==> out@[i] == spec_rise(grid@, st@, wt@, size as int)[i],
        decreases size - y,
    {
        let mut x: u32 = 0;
        while x < size
            invariant
                0 < size <= 16384,
                grid@.len() == size * size,
                st@.len() == 256,
                wt@.len() == 256,
                y < size,
                x <= size,
                out@.len() == y * size + x,
                forall|i: int|
                    0 <= i < out@.len() ==> out@[i] == spec_rise(grid@, st@, wt@, size as int)[i],
            decreases size - x,
        {
            let c = rise_new_cell(grid, st, wt, size, x, y);
            proof {
                lemma_rowmajor_index(size as int, x as int, y as int);
            }
            out.push(c);
            x += 1;
        }
        proof {
            lemma_row_advance(size as int, y as int);
        }
        y += 1;
    }
    proof {
        assert(out@ =~= spec_rise(grid@, st@, wt@, size as int));
    }
    out
}

/// Whether the cell at `(x, y)` slides toward `dir` (`true` means +x).
fn slides_from(
    grid: &Vec<u32>,
    st: &Vec<u32>,
    wt: &Vec<u32>,
    size: u32,
    dir_pos: bool,
    x: u32,
    y: u32,
) -> (r: bool)
    requires
        0 < size <= 16384,
        grid@.len() == size * size,
        st@.len() == 256,
        wt@.len() == 256,
        x < size,
        y < size,
    ensures
        r == spec_slides_from(
            grid@,
            st@,
            wt@,
            size as int,
            if dir_pos {
                1int
            } else {
                -1int
            },
            x as int,
            y as int,
        ),
{
    if y + 1 >= size {
        return false;
    }
    let here = cell_at(grid, size, x, y);
    let s_here = table_of(st, here);
    let slider = s_here == STATE_POWDER || s_here == STATE_SOLID_GRAVITY;
    if !slider {
        return false;
    }
    if falls_from(grid, st, wt, size, x, y) {
        return false;
    }
    if dir_pos {
        if x + 1 >= size {
            return false;
        }
        let target = cell_at(grid, size, x + 1, y + 1);
        table_of(st, target) == STATE_EMPTY
    } else {
        if x == 0 {
            return false;
        }
        let target = cell_at(grid, size, x - 1, y + 1);
        table_of(st, target) == STATE_EMPTY
    }
}

/// The new value of cell `(x, y)` for the slide pass toward `dir_pos`.
fn slide_new_cell(
    grid: &Vec<u32>,
    st: &Vec<u32>,
    wt: &Vec<u32>,
    size: u32,
    dir_pos: bool,
    x: u32,
    y: u32,
) -> (r: u32)
    requires
        0 < size <= 16384,
        grid@.len() == size * size,
        st@.len() == 256,
        wt@.len() == 256,
        x < size,
        y < size,
    ensures
        r == spec_slide_new_cell(
            grid@,
            st@,
            wt@,
            size as int,
            if dir_pos {
                1int
            } else {
                -1int
            },
            x as int,
            y as int,
        ),
{
    if slides_from(grid, st, wt, size, dir_pos, x, y) {
        if dir_pos {
            cell_at(grid, size, x + 1, y + 1)
        } else {
            cell_at(grid, size, x - 1, y + 1)
        }
    } else {
        // The source that would slide into this cell sits one row up,
        // one step against the slide direction.
        let sx_ok = if dir_pos {
            x >= 1
        } else {
            x + 1 < size
        };
        if y > 0 && sx_ok {
            let sx = if dir_pos {
                x - 1
            } else {
                x + 1
            };
            if slides_from(grid, st, wt, size, dir_pos, sx, y - 1) {
                cell_at(grid, size, sx, y - 1)
            } else {
                cell_at(grid, size, x, y)
            }
        } else {
            cell_at(grid, size, x, y)
        }
    }
}

/// Runs one slide pass; `dir_pos` selects the diagonal's lateral direction.
pub fn slide_pass(grid: &Vec<u32>, st: &Vec<u32>, wt: &Vec<u32>, size: u32, dir_pos: bool) -> (out:
    Vec<u32>)
    requires
        0 < size <= 16384,
        grid@.len() == size * size,
        st@.len() == 256,
        wt@.len() == 256,
    ensures
        out@ == spec_slide(
            grid@,
            st@,
            wt@,
            size as int,
            if dir_pos {
                1int
            } else {
                -1int
            },
        ),
{
    let ghost s: int = if dir_pos {
        1int
    } else {
        -1int
    };
    let mut out: Vec<u32> = Vec::new();
    let mut y: u32 = 0;
    while y < size
        invariant
            0 < size <= 16384,
            grid@.len() == size * size,
            st@.len() == 256,
            wt@.len() == 256,
            s == if dir_pos {
                1int
            } else {
                -1int
            },
            y <= size,
            out@.len() == y * size,
            forall|i: int|
                0 <= i < out@.len() ==> out@[i] == spec_slide(grid@, st@, wt@, size as int, s)[i],
        decreases size - y,
    {
        let mut x: u32 = 0;
        while x < size
            invariant
                0 < size <= 16384,
                grid@.len() == size * size,
                st@.len() == 256,
                wt@.len() == 256,
                s == if dir_pos {
                    1int
                } else {
                    -1int
                },
                y < size,
                x <= size,
                out@.len() == y * size + x,
                forall|i: int|
                    0 <= i < out@.len() ==> out@[i] == spec_slide(
                        grid@,
                        st@,
                        wt@,
                        size as int,
                        s,
                    )[i],
            decreases size - x,
        {
            let c = slide_new_cell(grid, st, wt, size, dir_pos, x, y);
            proof {
                lemma_rowmajor_index(size as int, x as int, y as int);
            }
            out.push(c);
            x += 1;
        }
        proof {
            lemma_row_advance(size as int, y as int);
        }
        y += 1;
    }
    proof {
        assert(out@ =~= spec_slide(grid@, st@, wt@, size as int, s));
    }
    out
}

/// Whether the cell at `(x, y)` disperses toward `dir_pos` at sub-step
/// `step`.
fn disperses_from(
    grid: &Vec<u32>,
    st: &Vec<u32>,
    dp: &Vec<u32>,
    size: u32,
    dir_pos: bool,
    step: u32,
    x: u32,
    y: u32,
) -> (r: bool)
    requires
        0 < size <= 16384,
        grid@.len() == size * size,
        st@.len() == 256,
        dp@.len() == 256,
        x < size,
        y < size,
    ensures
        r == spec_disperses_from(
            grid@,
            st@,
            dp@,
            size as int,
            if dir_pos {
                1int
            } else {
                -1int
            },
            step,
            x as int,
            y as int,
        ),
{
    let here = cell_at(grid, size, x, y);
    let s_here = table_of(st, here);
    if !(s_here == STATE_LIQUID || s_here == STATE_GAS) {
        return false;
    }
    if step >= table_of(dp, here) {
        return false;
    }
    if dir_pos {
        if x + 1 >= size {
            return false;
        }
        table_of(st, cell_at(grid, size, x + 1, y)) == STATE_EMPTY
    } else {
        if x == 0 {
            return false;
        }
        table_of(st, cell_at(grid, size, x - 1, y)) == STATE_EMPTY
    }
}

/// The new value of cell `(x, y)` for one dispersion sub-step.
fn disperse_new_cell(
    grid: &Vec<u32>,
    st: &Vec<u32>,
    dp: &Vec<u32>,
    size: u32,
    dir_pos: bool,
    step: u32,
    x: u32,
    y: u32,
) -> (r: u32)
    requires
        0 < size <= 16384,
        grid@.len() == size * size,
        st@.len() == 256,
        dp@.len() == 256,
        x < size,
        y < size,
    ensures
        r == spec_disperse_new_cell(
            grid@,
            st@,
            dp@,
            size as int,
            if dir_pos {
                1int
            } else {
                -1int
            },
            step,
            x as int,
            y as int,
        ),
{
    if disperses_from(grid, st, dp, size, dir_pos, step, x, y) {
        if dir_pos {
            cell_at(grid, size, x + 1, y)
        } else {
            cell_at(grid, size, x - 1, y)
        }
    } else {
        let sx_ok = if dir_pos {
            x >= 1
        } else {
            x + 1 < size
        };
        if sx_ok {
            let sx = if dir_pos {
                x - 1
            } else {
                x + 1
            };
            if disperses_from(grid, st, dp, size, dir_pos, step, sx, y) {
                cell_at(grid, size, sx, y)
            } else {
                cell_at(grid, size, x, y)
            }
        } else {
            cell_at(grid, size, x, y)
        }
    }
}

/// Runs one dispersion sub-step toward `dir_pos` at sub-step counter
/// `step`.
pub fn disperse_pass(
    grid: &Vec<u32>,
    st: &Vec<u32>,
    dp: &Vec<u32>,
    size: u32,
    dir_pos: bool,
    step: u32,
) -> (out: Vec<u32>)
    requires
        0 < size <= 16384,
        grid@.len() == size * size,
        st@.len() == 256,
        dp@.len() == 256,
    ensures
        out@ == spec_disperse_pass(
            grid@,
            st@,
            dp@,
            size as int,
            if dir_pos {
                1int
            } else {
                -1int
            },
            step,
        ),
{
    let ghost d: int = if dir_pos {
        1int
    } else {
        -1int
    };
    let mut out: Vec<u32> = Vec::new();
    let mut y: u32 = 0;
    while y < size
        invariant
            0 < size <= 16384,
            grid@.len() == size * size,
            st@.len() == 256,
            dp@.len() == 256,
            d == if dir_pos {
                1int
            } else {
                -1int
            },
            y <= size,
            out@.len() == y * size,
            forall|i: int|
                0 <= i < out@.len() ==> out@[i] == spec_disperse_pass(
                    grid@,
                    st@,
                    dp@,
                    size as int,
                    d,
                    step,
                )[i],
        decreases size - y,
    {
        let mut x: u32 = 0;
        while x < size
            invariant
                0 < size <= 16384,
                grid@.len() == size * size,
                st@.len() == 256,
                dp@.len() == 256,
                d == if dir_pos {
                    1int
                } else {
                    -1int
                },
                y < size,
                x <= size,
                out@.len() == y * size + x,
                forall|i: int|
                    0 <= i < out@.len() ==> out@[i] == spec_disperse_pass(
                        grid@,
                        st@,
                        dp@,
                        size as int,
                        d,
                        step,
                    )[i],
            decreases size - x,
        {
            let c = disperse_new_cell(grid, st, dp, size, dir_pos, step, x, y);
            proof {
                lemma_rowmajor_index(size as int, x as int, y as int);
            }
            out.push(c);
            x += 1;
        }
        proof {
            lemma_row_advance(size as int, y as int);
        }
        y += 1;
    }
    proof {
        assert(out@ =~= spec_disperse_pass(grid@, st@, dp@, size as int, d, step));
    }
    out
}

/// Derives the visible RGBA image from a committed grid.
pub fn colorize_pass(grid: &Vec<u32>) -> (out: Vec<u32>)
    ensures
        out@ == spec_colorize(grid@),
{
    let mut out: Vec<u32> = Vec::new();
    let mut i: usize = 0;
    while i < grid.len()
        invariant
            i <= grid@.len(),
            out@.len() == i,
            forall|j: int| 0 <= j < i ==> out@[j] == spec_colorize(grid@)[j],
        decreases grid@.len() - i,
    {
        out.push((grid[i] & 0xFFFF_FF00) | 0xFF);
        i += 1;
    }
    proof {
        assert(out@ =~= spec_colorize(grid@));
    }
    out
}

/// A committed fall is a true pairwise exchange: when the cell at `(x, y)`
/// falls, the new grid holds the lower cell's value at `(x, y)` and the
/// falling cell's value at `(x, y + 1)`, so no cell value is duplicated or
/// lost by the move.
pub proof fn lemma_fall_exchanges(g: Seq<u32>, st: Seq<u32>, wt: Seq<u32>, size: int, x: int, y: int)
    requires
        0 < size <= 16384,
        g.len() == size * size,
        0 <= x < size,
        0 <= y < size,
        spec_falls(g, st, wt, size, x, y),
    ensures
        spec_fall(g, st, wt, size)[y * size + x] == spec_cell_at(g, size, x, y + 1),
        spec_fall(g, st, wt, size)[(y + 1) * size + x] == spec_cell_at(g, size, x, y),
{
    lemma_rowmajor_index(size, x, y);
    lemma_rowmajor_index(size, x, y + 1);
    assert(!spec_falls(g, st, wt, size, x, y + 1));
}

/// A committed rise is a true pairwise exchange between the riser and the
/// cell above it.
pub proof fn lemma_rise_exchanges(g: Seq<u32>, st: Seq<u32>, wt: Seq<u32>, size: int, x: int, y: int)
    requires
        0 < size <= 16384,
        g.len() == size * size,
        0 <= x < size,
        0 <= y < size,
        spec_rises(g, st, wt, size, x, y),
    ensures
        spec_rise(g, st, wt, size)[y * size + x] == spec_cell_at(g, size, x, y - 1),
        spec_rise(g, st, wt, size)[(y - 1) * size + x] == spec_cell_at(g, size, x, y),
{
    lemma_rowmajor_index(size, x, y);
    lemma_rowmajor_index(size, x, y - 1);
    assert(!spec_rises(g, st, wt, size, x, y - 1));
}

/// A committed slide is a true pairwise exchange between the slider and
/// its empty diagonal target.
pub proof fn lemma_slide_exchanges(
    g: Seq<u32>,
    st: Seq<u32>,
    wt: Seq<u32>,
    size: int,
    s: int,
    x: int,
    y: int,
)
    requires
        0 < size <= 16384,
        g.len() == size * size,
        s == 1 || s == -1,
        0 <= x < size,
        0 <= y < size,
        spec_slides_from(g, st, wt, size, s, x, y),
    ensures
        spec_slide(g, st, wt, size, s)[y * size + x] == spec_cell_at(g, size, x + s, y + 1),
        spec_slide(g, st, wt, size, s)[(y + 1) * size + (x + s)] == spec_cell_at(g, size, x, y),
{
    lemma_rowmajor_index(size, x, y);
    lemma_rowmajor_index(size, x + s, y + 1);
    assert(!spec_slides_from(g, st, wt, size, s, x + s, y + 1));
}

/// The fall pass conserves matter: it only exchanges cells pairwise, so
/// the new grid holds exactly the same cells as the old one.
pub proof fn lemma_fall_preserves_cells(g: Seq<u32>, st: Seq<u32>, wt: Seq<u32>, size: int)
    requires
        0 < size <= 16384,
        g.len() == size * size,
    ensures
        spec_fall(g, st, wt, size).to_multiset() == g.to_multiset(),
{
    let n = size * size;
    let out = spec_fall(g, st, wt, size);
    let sigma = |i: int|
        {
            let x = i % size;
            let y = i / size;
            if spec_falls(g, st, wt, size, x, y) {
                i + size
            } else if y > 0 && spec_falls(g, st, wt, size, x, y - 1) {
                i - size
            } else {
                i
            }
        };
    assert forall|i: int| 0 <= i < n implies 0 <= #[trigger] sigma(i) < n && sigma(sigma(i)) == i
        && out[i] == g[sigma(i)] by {
        let x = i % size;
        let y = i / size;
        lemma_flat_index(size, i);
        if spec_falls(g, st, wt, size, x, y) {
            lemma_rowmajor_index(size, x, y + 1);
            lemma_row_advance(size, y);
            assert(i + size == (y + 1) * size + x);
            assert(!spec_falls(g, st, wt, size, x, y + 1));
            assert(sigma(i + size) == i);
        } else if y > 0 && spec_falls(g, st, wt, size, x, y - 1) {
            lemma_rowmajor_index(size, x, y - 1);
            lemma_row_advance(size, y - 1);
            assert(i - size == (y - 1) * size + x);
            assert(sigma(i - size) == i);
        } else {
            assert(sigma(i) == i);
        }
    }
    crate::permutation::lemma_permutation_preserves_multiset(g, out, sigma, sigma);
}

/// The rise pass conserves matter.
pub proof fn lemma_rise_preserves_cells(g: Seq<u32>, st: Seq<u32>, wt: Seq<u32>, size: int)
    requires
        0 < size <= 16384,
        g.len() == size * size,
    ensures
        spec_rise(g, st, wt, size).to_multiset() == g.to_multiset(),
{
    let n = size * size;
    let out = spec_rise(g, st, wt, size);
    let sigma = |i: int|
        {
            let x = i % size;
            let y = i / size;
            if spec_rises(g, st, wt, size, x, y) {
                i - size
            } else if y + 1 < size && spec_rises(g, st, wt, size, x, y + 1) {
                i + size
            } else {
                i
            }
        };
    assert forall|i: int| 0 <= i < n implies 0 <= #[trigger] sigma(i) < n && sigma(sigma(i)) == i
        && out[i] == g[sigma(i)] by {
        let x = i % size;
        let y = i / size;
        lemma_flat_index(size, i);
        if spec_rises(g, st, wt, size, x, y) {
            lemma_rowmajor_index(size, x, y - 1);
            lemma_row_advance(size, y - 1);
            assert(i - size == (y - 1) * size + x);
            assert(!spec_rises(g, st, wt, size, x, y - 1));
            assert(sigma(i - size) == i);
        } else if y + 1 < size && spec_rises(g, st, wt, size, x, y + 1) {
            lemma_rowmajor_index(size, x, y + 1);
            lemma_row_advance(size, y);
            assert(i + size == (y + 1) * size + x);
            assert(sigma(i + size) == i);
        } else {
            assert(sigma(i) == i);
        }
    }
    crate::permutation::lemma_permutation_preserves_multiset(g, out, sigma, sigma);
}

/// The slide pass conserves matter.
pub proof fn lemma_slide_preserves_cells(
    g: Seq<u32>,
    st: Seq<u32>,
    wt: Seq<u32>,
    size: int,
    s: int,
)
    requires
        0 < size <= 16384,
        g.len() == size * size,
        s == 1 || s == -1,
    ensures
        spec_slide(g, st, wt, size, s).to_multiset() == g.to_multiset(),
{
    let n = size * size;
    let out = spec_slide(g, st, wt, size, s);
    let sigma = |i: int|
        {
            let x = i % size;
            let y = i / size;
            if spec_slides_from(g, st, wt, size, s, x, y) {
                i + size + s
            } else if y > 0 && 0 <= x - s < size && spec_slides_from(g, st, wt, size, s, x - s, y
                - 1) {
                i - size - s
            } else {
                i
            }
        };
    assert forall|i: int| 0 <= i < n implies 0 <= #[trigger] sigma(i) < n && sigma(sigma(i)) == i
        && out[i] == g[sigma(i)] by {
        let x = i % size;
        let y = i / size;
        lemma_flat_index(size, i);
        if spec_slides_from(g, st, wt, size, s, x, y) {
            lemma_rowmajor_index(size, x + s, y + 1);
            lemma_row_advance(size, y);
            assert(i + size + s == (y + 1) * size + (x + s));
            assert(spec_is_slider(spec_state_of(st, spec_cell_at(g, size, x, y))));
            assert(!spec_slides_from(g, st, wt, size, s, x + s, y + 1));
            assert(sigma(i + size + s) == i);
        } else if y > 0 && 0 <= x - s < size && spec_slides_from(g, st, wt, size, s, x - s, y
            - 1) {
            lemma_rowmajor_index(size, x - s, y - 1);
            lemma_row_advance(size, y - 1);
            assert(i - size - s == (y - 1) * size + (x - s));
            assert(sigma(i - size - s) == i);
        } else {
            assert(sigma(i) == i);
        }
    }
    crate::permutation::lemma_permutation_preserves_multiset(g, out, sigma, sigma);
}

/// The dispersion pass conserves matter.
pub proof fn lemma_disperse_preserves_cells(
    g: Seq<u32>,
    st: Seq<u32>,
    dp: Seq<u32>,
    size: int,
    d: int,
    step: u32,
)
    requires
        0 < size <= 16384,
        g.len() == size * size,
        d == 1 || d == -1,
    ensures
        spec_disperse_pass(g, st, dp, size, d, step).to_multiset() == g.to_multiset(),
{
    let n = size * size;
    let out = spec_disperse_pass(g, st, dp, size, d, step);
    let sigma = |i: int|
        {
            let x = i % size;
            let y = i / size;
            if spec_disperses_from(g, st, dp, size, d, step, x, y) {
                i + d
            } else if 0 <= x - d < size && spec_disperses_from(g, st, dp, size, d, step, x - d, y) {
                i - d
            } else {
                i
            }
        };
    assert forall|i: int| 0 <= i < n implies 0 <= #[trigger] sigma(i) < n && sigma(sigma(i)) == i
        && out[i] == g[sigma(i)] by {
        let x = i % size;
        let y = i / size;
        lemma_flat_index(size, i);
        if spec_disperses_from(g, st, dp, size, d, step, x, y) {
            lemma_rowmajor_index(size, x + d, y);
            assert(i + d == y * size + (x + d));
            assert(!spec_disperses_from(g, st, dp, size, d, step, x + d, y));
            assert(sigma(i + d) == i);
        } else if 0 <= x - d < size && spec_disperses_from(g, st, dp, size, d, step, x - d, y) {
            lemma_rowmajor_index(size, x - d, y);
            assert(i - d == y * size + (x - d));
            assert(sigma(i - d) == i);
        } else {
            assert(sigma(i) == i);
        }
    }
    crate::permutation::lemma_permutation_preserves_multiset(g, out, sigma, sigma);
}

/// A committed dispersion move is a true pairwise exchange between the
/// fluid and its empty lateral target.
pub proof fn lemma_disperse_exchanges(
    g: Seq<u32>,
    st: Seq<u32>,
    dp: Seq<u32>,
    size: int,
    d: int,
    step: u32,
    x: int,
    y: int,
)
    requires
        0 < size <= 16384,
        g.len() == size * size,
        d == 1 || d == -1,
        0 <= x < size,
        0 <= y < size,
        spec_disperses_from(g, st, dp, size, d, step, x, y),
    ensures
        spec_disperse_pass(g, st, dp, size, d, step)[y * size + x] == spec_cell_at(
            g,
            size,
            x + d,
            y,
        ),
        spec_disperse_pass(g, st, dp, size, d, step)[y * size + (x + d)] == spec_cell_at(
            g,
            size,
            x,
            y,
        ),
{
    lemma_rowmajor_index(size, x, y);
    lemma_rowmajor_index(size, x + d, y);
    assert(!spec_disperses_from(g, st, dp, size, d, step, x + d, y));
}

} // verus!
