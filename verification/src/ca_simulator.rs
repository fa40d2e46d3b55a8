//! The cellular-automata simulation engine: the scheduler and step
//! protocol over the double-buffered grid.
//!
//! The engine owns two same-size cell buffers, the per-matter parameter
//! tables, and the RGBA output image. Exactly one buffer is the committed
//! front at any time. Each `step` executes the tick's scheduled passes in
//! order: every committing pass reads the front buffer, writes the other
//! buffer, and swaps the two roles, so no pass ever reads the buffer it
//! writes. `draw_matter` injects a paint pass, `query_matter` reads one
//! cell back, and the colorize pass refreshes the image at the end of
//! every tick, paused or not.

use vstd::pervasive::VecAdditionalExecFns;
use vstd::prelude::*;

use crate::color::spec_cell_matter;
use crate::draw::paint_pass;
use crate::draw::spec_paint;
use crate::matter_definition::spec_definitions_valid;
use crate::matter_definition::MatterDefinitions;
use crate::matter_state::spec_state_code;
use crate::passes::colorize_pass;
use crate::passes::disperse_pass;
use crate::passes::fall_pass;
use crate::passes::lemma_rowmajor_index;
use crate::passes::rise_pass;
use crate::passes::slide_pass;
use crate::passes::spec_colorize;
use crate::passes::spec_disperse_dx;
use crate::passes::spec_disperse_pass;
use crate::passes::spec_fall;
use crate::passes::spec_rise;
use crate::passes::spec_slide;
use crate::passes::spec_slide_dir;
use crate::schedule::schedule_tick;
use crate::schedule::spec_schedule_tick;
use crate::schedule::spec_wrap_inc;
use crate::schedule::Pass;
use crate::schedule::PassInvocation;
use crate::settings::AppSettings;
use crate::GridPos;
use crate::KERNEL_SIZE;
use crate::MAX_NUM_MATTERS;

verus! {

/// A fatal setup error: no simulation is created.
#[derive(Debug, Clone, Copy, PartialEq, Eq, Structural)]
pub enum SimulationError {
    /// The canvas edge is zero or not an exact multiple of the kernel tile
    /// size, so the parallel dispatch could not cover every cell.
    CanvasNotDivisibleByKernelSize { canvas_size: u32 },
}

impl SimulationError {
    /// A short description of the error.
    pub fn message(&self) -> String {
        match self {
            SimulationError::CanvasNotDivisibleByKernelSize { .. } => {
                "canvas size must be a positive multiple of the kernel size".to_string()
            },
        }
    }
}

/// The state table rebuilt from a registry: entry `i` holds the state code
/// of definition `i`, entries past the registry keep their previous value.
pub open spec fn spec_state_table(defs: MatterDefinitions, prev: Seq<u32>) -> Seq<u32> {
    Seq::new(
        256,
        |i: int|
            if i < defs.definitions.len() {
                spec_state_code(defs.definitions[i].state)
            } else {
                prev[i]
            },
    )
}

/// The weight table rebuilt from a registry.
pub open spec fn spec_weight_table(defs: MatterDefinitions, prev: Seq<u32>) -> Seq<u32> {
    Seq::new(
        256,
        |i: int|
            if i < defs.definitions.len() {
                defs.definitions[i].weight
            } else {
                prev[i]
            },
    )
}

/// The dispersion table rebuilt from a registry.
pub open spec fn spec_dispersion_table(defs: MatterDefinitions, prev: Seq<u32>) -> Seq<u32> {
    Seq::new(
        256,
        |i: int|
            if i < defs.definitions.len() {
                defs.definitions[i].dispersion
            } else {
                prev[i]
            },
    )
}

/// The base-color table rebuilt from a registry.
pub open spec fn spec_color_table(defs: MatterDefinitions, prev: Seq<u32>) -> Seq<u32> {
    Seq::new(
        256,
        |i: int|
            if i < defs.definitions.len() {
                defs.definitions[i].color
            } else {
                prev[i]
            },
    )
}

/// An all-zero buffer of `n` cells: every cell is the zero word, matter id
/// 0 with no color.
pub open spec fn spec_zero_grid(n: int) -> Seq<u32> {
    Seq::new(n as nat, |i: int| 0u32)
}

/// What a query at `pos` answers on grid `g`: the matter id of the cell
/// when `pos` lies inside the canvas, nothing otherwise.
pub open spec fn spec_query(g: Seq<u32>, size: int, pos: GridPos) -> Option<u32> {
    if 0 <= pos.x < size && 0 <= pos.y < size {
        Some(spec_cell_matter(g[pos.y * size + pos.x]))
    } else {
        None
    }
}

/// The committed grid after one scheduled dispatch. The swap-commit passes
/// transform it; the empty-detection passes only write eligibility marks
/// into the other buffer, and the draw, query and colorize passes never
/// touch the committed cells.
pub open spec fn spec_apply_invocation_grid(
    g: Seq<u32>,
    inv: PassInvocation,
    st: Seq<u32>,
    wt: Seq<u32>,
    dp: Seq<u32>,
    size: int,
) -> Seq<u32> {
    match inv.pass {
        Pass::FallSwap => spec_fall(g, st, wt, size),
        Pass::RiseSwap => spec_rise(g, st, wt, size),
        Pass::SlideDownSwap => spec_slide(g, st, wt, size, spec_slide_dir(inv.move_step)),
        Pass::HorizontalSwap => spec_disperse_pass(
            g,
            st,
            dp,
            size,
            spec_disperse_dx(inv.dispersion_dir),
            inv.dispersion_step,
        ),
        _ => g,
    }
}

/// The committed grid and output image after running a dispatch sequence
/// in order. Only the colorize pass writes the image, from the grid
/// committed at that point.
pub open spec fn spec_run_schedule(
    g: Seq<u32>,
    img: Seq<u32>,
    plan: Seq<PassInvocation>,
    st: Seq<u32>,
    wt: Seq<u32>,
    dp: Seq<u32>,
    size: int,
) -> (Seq<u32>, Seq<u32>)
    decreases plan.len(),
{
    if plan.len() == 0 {
        (g, img)
    } else {
        let inv = plan[0];
        let g1 = spec_apply_invocation_grid(g, inv, st, wt, dp, size);
        let img1 = if inv.pass == Pass::Color {
            spec_colorize(g)
        } else {
            img
        };
        spec_run_schedule(g1, img1, plan.subrange(1, plan.len() as int), st, wt, dp, size)
    }
}

/// Running one more dispatch after a sequence applies that dispatch to the
/// sequence's result.
pub proof fn lemma_run_schedule_snoc(
    g: Seq<u32>,
    img: Seq<u32>,
    plan: Seq<PassInvocation>,
    inv: PassInvocation,
    st: Seq<u32>,
    wt: Seq<u32>,
    dp: Seq<u32>,
    size: int,
)
    ensures
        spec_run_schedule(g, img, plan.push(inv), st, wt, dp, size) == ({
            let r = spec_run_schedule(g, img, plan, st, wt, dp, size);
            (
                spec_apply_invocation_grid(r.0, inv, st, wt, dp, size),
                if inv.pass == Pass::Color {
                    spec_colorize(r.0)
                } else {
                    r.1
                },
            )
        }),
    decreases plan.len(),
{
    if plan.len() == 0 {
        let g1 = spec_apply_invocation_grid(g, inv, st, wt, dp, size);
        let img1 = if inv.pass == Pass::Color {
            spec_colorize(g)
        } else {
            img
        };
        assert(plan.push(inv)[0] == inv);
        assert(plan.push(inv).subrange(1, 1) =~= Seq::<PassInvocation>::empty());
        assert(spec_run_schedule(g1, img1, Seq::<PassInvocation>::empty(), st, wt, dp, size) == (
        g1,
        img1,
        ));
        assert(spec_run_schedule(g, img, plan.push(inv), st, wt, dp, size) == (g1, img1));
        assert(spec_run_schedule(g, img, plan, st, wt, dp, size) == (g, img));
    } else {
        let g1 = spec_apply_invocation_grid(g, plan[0], st, wt, dp, size);
        let img1 = if plan[0].pass == Pass::Color {
            spec_colorize(g)
        } else {
            img
        };
        let tail = plan.subrange(1, plan.len() as int);
        assert(plan.push(inv)[0] == plan[0]);
        assert(plan.push(inv).subrange(1, plan.push(inv).len() as int) =~= tail.push(inv));
        lemma_run_schedule_snoc(g1, img1, tail, inv, st, wt, dp, size);
        assert(spec_run_schedule(g, img, plan.push(inv), st, wt, dp, size) == spec_run_schedule(
            g1,
            img1,
            tail.push(inv),
            st,
            wt,
            dp,
            size,
        ));
        assert(spec_run_schedule(g, img, plan, st, wt, dp, size) == spec_run_schedule(
            g1,
            img1,
            tail,
            st,
            wt,
            dp,
            size,
        ));
    }
}

/// Running any dispatch plan conserves matter: every scheduled pass
/// either leaves the committed grid alone or permutes its cells pairwise,
/// so the grid after the plan holds exactly the cells it held before.
pub proof fn lemma_run_schedule_preserves_cells(
    g: Seq<u32>,
    img: Seq<u32>,
    plan: Seq<PassInvocation>,
    st: Seq<u32>,
    wt: Seq<u32>,
    dp: Seq<u32>,
    size: int,
)
    requires
        0 < size <= 16384,
        g.len() == size * size,
    ensures
        spec_run_schedule(g, img, plan, st, wt, dp, size).0.len() == g.len(),
        spec_run_schedule(g, img, plan, st, wt, dp, size).0.to_multiset() == g.to_multiset(),
    decreases plan.len(),
{
    if plan.len() > 0 {
        let inv = plan[0];
        let g1 = spec_apply_invocation_grid(g, inv, st, wt, dp, size);
        let img1 = if inv.pass == Pass::Color {
            spec_colorize(g)
        } else {
            img
        };
        match inv.pass {
            Pass::FallSwap => crate::passes::lemma_fall_preserves_cells(g, st, wt, size),
            Pass::RiseSwap => crate::passes::lemma_rise_preserves_cells(g, st, wt, size),
            Pass::SlideDownSwap => crate::passes::lemma_slide_preserves_cells(
                g,
                st,
                wt,
                size,
                spec_slide_dir(inv.move_step),
            ),
            Pass::HorizontalSwap => crate::passes::lemma_disperse_preserves_cells(
                g,
                st,
                dp,
                size,
                spec_disperse_dx(inv.dispersion_dir),
                inv.dispersion_step,
            ),
            _ => {},
        }
        lemma_run_schedule_preserves_cells(
            g1,
            img1,
            plan.subrange(1, plan.len() as int),
            st,
            wt,
            dp,
            size,
        );
    }
}

/// A tick introduces no new cell values: every cell of the committed grid
/// after running a dispatch plan already stood somewhere in the grid
/// before. A canvas holding only sand and empty cells can therefore never
/// answer a query with water or gas after a tick.
pub proof fn lemma_tick_introduces_no_new_matter(
    g: Seq<u32>,
    img: Seq<u32>,
    plan: Seq<PassInvocation>,
    st: Seq<u32>,
    wt: Seq<u32>,
    dp: Seq<u32>,
    size: int,
)
    requires
        0 < size <= 16384,
        g.len() == size * size,
    ensures
        forall|i: int|
            0 <= i < spec_run_schedule(g, img, plan, st, wt, dp, size).0.len() ==> g.contains(
                #[trigger] spec_run_schedule(g, img, plan, st, wt, dp, size).0[i],
            ),
{
    broadcast use vstd::seq_lib::group_to_multiset_ensures;

    lemma_run_schedule_preserves_cells(g, img, plan, st, wt, dp, size);
    let out = spec_run_schedule(g, img, plan, st, wt, dp, size).0;
    assert forall|i: int| 0 <= i < out.len() implies g.contains(#[trigger] out[i]) by {
        assert(out.contains(out[i]));
        assert(out.to_multiset().count(out[i]) > 0);
    }
}

/// A paused tick leaves the committed matter cells untouched: its schedule
/// is the single colorize pass, which only rewrites the output image from
/// the committed grid. Query answers before and after such a tick are
/// therefore identical at every position.
pub proof fn lemma_paused_tick_preserves_matter(
    g: Seq<u32>,
    img: Seq<u32>,
    sim_steps: u32,
    s: AppSettings,
    st: Seq<u32>,
    wt: Seq<u32>,
    dp: Seq<u32>,
    size: int,
)
    requires
        s.is_paused,
    ensures
        spec_run_schedule(g, img, spec_schedule_tick(sim_steps, s), st, wt, dp, size).0 == g,
        spec_run_schedule(g, img, spec_schedule_tick(sim_steps, s), st, wt, dp, size).1
            == spec_colorize(g),
{
    let plan = spec_schedule_tick(sim_steps, s);
    assert(plan.len() == 1);
    assert(plan[0].pass == Pass::Color);
    assert(spec_apply_invocation_grid(g, plan[0], st, wt, dp, size) == g);
    assert(plan.subrange(1, 1) =~= Seq::<PassInvocation>::empty());
    assert(spec_run_schedule(g, spec_colorize(g), Seq::<PassInvocation>::empty(), st, wt, dp, size)
        == (g, spec_colorize(g)));
    assert(spec_run_schedule(g, img, plan, st, wt, dp, size) == (g, spec_colorize(g)));
}

/// Regardless of pause state, every tick ends with the colorize pass, so
/// after any tick the output image is exactly the colorization of the
/// committed grid.
pub proof fn lemma_tick_image_follows_grid(
    g: Seq<u32>,
    img: Seq<u32>,
    sim_steps: u32,
    s: AppSettings,
    st: Seq<u32>,
    wt: Seq<u32>,
    dp: Seq<u32>,
    size: int,
)
    ensures
        ({
            let r = spec_run_schedule(g, img, spec_schedule_tick(sim_steps, s), st, wt, dp, size);
            r.1 == spec_colorize(r.0)
        }),
{
    let plan = spec_schedule_tick(sim_steps, s);
    let k = plan.len() - 1;
    assert(plan[k as int] == crate::schedule::spec_color_invocation());
    let a = plan.subrange(0, k as int);
    assert(plan =~= a.push(plan[k as int]));
    lemma_run_schedule_snoc(g, img, a, plan[k as int], st, wt, dp, size);
}

/// Painting a stroke that starts and ends at an in-canvas position `p`,
/// with any brush, then querying `p`, answers exactly the painted matter:
/// the brush footprint always covers the stroke's own start point.
pub proof fn lemma_paint_then_query(
    g: Seq<u32>,
    size: int,
    p: GridPos,
    radius: u32,
    is_square: bool,
    matter: u32,
    base_color: u32,
    seed: u32,
)
    requires
        0 < size <= 16384,
        g.len() == size * size,
        0 <= p.x < size,
        0 <= p.y < size,
        matter < 256,
    ensures
        spec_query(
            spec_paint(g, size, p, p, radius, is_square, matter, base_color, seed),
            size,
            p,
        ) == Some(matter),
{
    lemma_rowmajor_index(size, p.x as int, p.y as int);
    crate::draw::lemma_stroke_covers_start(p, p, radius, is_square);
    let painted = spec_paint(g, size, p, p, radius, is_square, matter, base_color, seed);
    let i = p.y * size + p.x;
    assert(painted[i] == crate::draw::spec_paint_cell(matter, base_color, seed, p.x as int, p.y as int));
    crate::color::lemma_encode_decode_roundtrip(
        matter as u8,
        [
            crate::draw::spec_varied_channel(
                ((base_color >> 24) & 255) as u8,
                crate::draw::spec_color_delta(
                    crate::draw::spec_noise(p.x as u32, p.y as u32, seed),
                ),
            ),
            crate::draw::spec_varied_channel(
                ((base_color >> 16) & 255) as u8,
                crate::draw::spec_color_delta(
                    crate::draw::spec_noise(p.x as u32, p.y as u32, seed),
                ),
            ),
            crate::draw::spec_varied_channel(
                ((base_color >> 8) & 255) as u8,
                crate::draw::spec_color_delta(
                    crate::draw::spec_noise(p.x as u32, p.y as u32, seed),
                ),
            ),
        ],
    );
}

/// A fresh all-zero buffer of `n` cells.
fn zero_vec(n: usize) -> (out: Vec<u32>)
    ensures
        out@ == spec_zero_grid(n as int),
{
    let mut out: Vec<u32> = Vec::new();
    let mut i: usize = 0;
    while i < n
        invariant
            i <= n,
            out@.len() == i,
            forall|j: int| 0 <= j < i ==> out@[j] == 0u32,
        decreases n - i,
    {
        out.push(0);
        i += 1;
    }
    proof {
        assert(out@ =~= spec_zero_grid(n as int));
    }
    out
}

/// A copy of a cell buffer.
fn copy_grid(g: &Vec<u32>) -> (out: Vec<u32>)
    ensures
        out@ == g@,
{
    let mut out: Vec<u32> = Vec::new();
    let mut i: usize = 0;
    while i < g.len()
        invariant
            i <= g@.len(),
            out@.len() == i,
            forall|j: int| 0 <= j < i ==> out@[j] == g@[j],
        decreases g@.len() - i,
    {
        out.push(g[i]);
        i += 1;
    }
    proof {
        assert(out@ =~= g@);
    }
    out
}

/// The cellular-automata simulation engine.
pub struct CASimulator {
    // Per-tick dispatch parameters
    pub seed: u32,
    pub sim_steps: u32,
    pub empty_matter: u32,
    pub size: u32,
    // Grid buffers and output image
    pub matter_in: Vec<u32>,
    pub matter_out: Vec<u32>,
    pub image: Vec<u32>,
    // Per-matter parameter tables
    pub matter_state_input: Vec<u32>,
    pub matter_weight_input: Vec<u32>,
    pub matter_dispersion_input: Vec<u32>,
    pub matter_color_input: Vec<u32>,
}

impl CASimulator {
    /// Well-formedness: the canvas edge is a positive multiple of the
    /// kernel size within the supported range, both cell buffers and the
    /// image cover the canvas, and each parameter table has one entry per
    /// possible matter id.
    pub open spec fn wf(&self) -> bool {
        &&& 0 < self.size <= 16384
        &&& self.size % KERNEL_SIZE == 0
        &&& self.matter_in@.len() == self.size * self.size
        &&& self.matter_out@.len() == self.size * self.size
        &&& self.image@.len() == self.size * self.size
        &&& self.matter_state_input@.len() == 256
        &&& self.matter_weight_input@.len() == 256
        &&& self.matter_dispersion_input@.len() == 256
        &&& self.matter_color_input@.len() == 256
    }

    /// The committed front grid.
    pub open spec fn spec_grid(&self) -> Seq<u32> {
        self.matter_in@
    }

    /// The visible output image.
    pub open spec fn spec_image(&self) -> Seq<u32> {
        self.image@
    }

    /// The tick counter.
    pub open spec fn spec_sim_steps(&self) -> u32 {
        self.sim_steps
    }

    /// The canvas edge length.
    pub open spec fn spec_size(&self) -> u32 {
        self.size
    }

    /// The state table view.
    pub open spec fn spec_state_input(&self) -> Seq<u32> {
        self.matter_state_input@
    }

    /// The weight table view.
    pub open spec fn spec_weight_input(&self) -> Seq<u32> {
        self.matter_weight_input@
    }

    /// The dispersion table view.
    pub open spec fn spec_dispersion_input(&self) -> Seq<u32> {
        self.matter_dispersion_input@
    }

    /// The base-color table view.
    pub open spec fn spec_color_input(&self) -> Seq<u32> {
        self.matter_color_input@
    }

    /// Creates a simulator over an all-zero grid for a validated registry.
    /// Succeeds exactly when the canvas edge is a positive multiple of the
    /// kernel tile size: the parallel dispatch relies on exact tile
    /// coverage, so any other size is a fatal setup error.
    pub fn new(defs: &MatterDefinitions, canvas_size: u32) -> (r: Result<
        CASimulator,
        SimulationError,
    >)
        requires
            spec_definitions_valid(*defs),
            defs.definitions.len() <= MAX_NUM_MATTERS,
            canvas_size <= 16384,
        ensures
            r is Ok <==> (canvas_size > 0 && canvas_size % KERNEL_SIZE == 0),
            match r {
                Ok(sim) => {
                    &&& sim.wf()
                    &&& sim.spec_size() == canvas_size
                    &&& sim.spec_sim_steps() == 0
                    &&& sim.seed == 0
                    &&& sim.spec_grid() == spec_zero_grid((canvas_size * canvas_size) as int)
                    &&& sim.matter_out@ == spec_zero_grid((canvas_size * canvas_size) as int)
                    &&& sim.spec_image() == spec_zero_grid((canvas_size * canvas_size) as int)
                    &&& sim.spec_state_input() == spec_state_table(*defs, spec_zero_grid(256))
                    &&& sim.spec_weight_input() == spec_weight_table(*defs, spec_zero_grid(256))
                    &&& sim.spec_dispersion_input() == spec_dispersion_table(
                        *defs,
                        spec_zero_grid(256),
                    )
                    &&& sim.spec_color_input() == spec_color_table(*defs, spec_zero_grid(256))
                    &&& sim.spec_empty_matter() == defs.empty
                },
                Err(SimulationError::CanvasNotDivisibleByKernelSize { canvas_size: c }) => c
                    == canvas_size,
            },
    {
        if canvas_size == 0 || canvas_size % KERNEL_SIZE != 0 {
            return Err(SimulationError::CanvasNotDivisibleByKernelSize { canvas_size });
        }
        proof {
            lemma_rowmajor_index(canvas_size as int, 0, (canvas_size - 1) as int);
        }
        let n: usize = (canvas_size as usize) * (canvas_size as usize);
        let mut sim = CASimulator {
            seed: 0,
            sim_steps: 0,
            empty_matter: defs.empty,
            size: canvas_size,
            matter_in: zero_vec(n),
            matter_out: zero_vec(n),
            image: zero_vec(n),
            matter_state_input: zero_vec(256),
            matter_weight_input: zero_vec(256),
            matter_dispersion_input: zero_vec(256),
            matter_color_input: zero_vec(256),
        };
        sim.update_matter_data(defs);
        Ok(sim)
    }

    /// The id the registry declares as empty matter.
    pub open spec fn spec_empty_matter(&self) -> u32 {
        self.empty_matter
    }

    /// Rebuilds the four per-matter parameter tables in place from a
    /// validated registry; table entries past the registry's length keep
    /// their previous value. Must not overlap with an in-flight `step`,
    /// which exclusive access through `&mut self` enforces.
    pub fn update_matter_data(&mut self, defs: &MatterDefinitions)
        requires
            old(self).wf(),
            spec_definitions_valid(*defs),
            defs.definitions.len() <= MAX_NUM_MATTERS,
        ensures
            final(self).wf(),
            final(self).size == old(self).size,
            final(self).sim_steps == old(self).sim_steps,
            final(self).seed == old(self).seed,
            final(self).matter_in@ == old(self).matter_in@,
            final(self).matter_out@ == old(self).matter_out@,
            final(self).image@ == old(self).image@,
            final(self).empty_matter == defs.empty,
            final(self).matter_state_input@ == spec_state_table(
                *defs,
                old(self).matter_state_input@,
            ),
            final(self).matter_weight_input@ == spec_weight_table(
                *defs,
                old(self).matter_weight_input@,
            ),
            final(self).matter_dispersion_input@ == spec_dispersion_table(
                *defs,
                old(self).matter_dispersion_input@,
            ),
            final(self).matter_color_input@ == spec_color_table(
                *defs,
                old(self).matter_color_input@,
            ),
    {
        let n = defs.definitions.len();
        let mut i: usize = 0;
        while i < n
            invariant
                n == defs.definitions.len(),
                n <= 256,
                i <= n,
                self.matter_state_input@.len() == 256,
                self.matter_weight_input@.len() == 256,
                self.matter_dispersion_input@.len() == 256,
                self.matter_color_input@.len() == 256,
                self.size == old(self).size,
                self.sim_steps == old(self).sim_steps,
                self.seed == old(self).seed,
                self.empty_matter == old(self).empty_matter,
                self.matter_in@ == old(self).matter_in@,
                self.matter_out@ == old(self).matter_out@,
                self.image@ == old(self).image@,
                0 < self.size <= 16384,
                self.size % KERNEL_SIZE == 0,
                self.matter_in@.len() == self.size * self.size,
                self.matter_out@.len() == self.size * self.size,
                self.image@.len() == self.size * self.size,
                forall|j: int|
                    0 <= j < i ==> self.matter_state_input@[j] == spec_state_code(
                        defs.definitions[j].state,
                    ) && self.matter_weight_input@[j] == defs.definitions[j].weight
                        && self.matter_dispersion_input@[j] == defs.definitions[j].dispersion
                        && self.matter_color_input@[j] == defs.definitions[j].color,
                forall|j: int|
                    i <= j < 256 ==> self.matter_state_input@[j]
                        == old(self).matter_state_input@[j] && self.matter_weight_input@[j]
                        == old(self).matter_weight_input@[j] && self.matter_dispersion_input@[j]
                        == old(self).matter_dispersion_input@[j] && self.matter_color_input@[j]
                        == old(self).matter_color_input@[j],
            decreases n - i,
        {
            let code = defs.definitions[i].state.code();
            let weight = defs.definitions[i].weight;
            let dispersion = defs.definitions[i].dispersion;
            let color = defs.definitions[i].color;
            self.matter_state_input.set(i, code);
            self.matter_weight_input.set(i, weight);
            self.matter_dispersion_input.set(i, dispersion);
            self.matter_color_input.set(i, color);
            i += 1;
        }
        self.empty_matter = defs.empty;
        proof {
            assert(self.matter_state_input@ =~= spec_state_table(
                *defs,
                old(self).matter_state_input@,
            ));
            assert(self.matter_weight_input@ =~= spec_weight_table(
                *defs,
                old(self).matter_weight_input@,
            ));
            assert(self.matter_dispersion_input@ =~= spec_dispersion_table(
                *defs,
                old(self).matter_dispersion_input@,
            ));
            assert(self.matter_color_input@ =~= spec_color_table(
                *defs,
                old(self).matter_color_input@,
            ));
        }
    }

    /// Executes one scheduled dispatch. A swap-commit pass writes the
    /// moved grid into the other buffer and swaps the buffer roles; an
    /// empty-detection pass recomputes its eligibility marks into the
    /// other buffer, leaving the committed cells as they are; the colorize
    /// pass rewrites the output image from the committed grid.
    fn apply_invocation(&mut self, inv: PassInvocation)
        requires
            old(self).wf(),
        ensures
            final(self).wf(),
            final(self).size == old(self).size,
            final(self).sim_steps == old(self).sim_steps,
            final(self).seed == old(self).seed,
            final(self).empty_matter == old(self).empty_matter,
            final(self).matter_state_input@ == old(self).matter_state_input@,
            final(self).matter_weight_input@ == old(self).matter_weight_input@,
            final(self).matter_dispersion_input@ == old(self).matter_dispersion_input@,
            final(self).matter_color_input@ == old(self).matter_color_input@,
            final(self).matter_in@ == spec_apply_invocation_grid(
                old(self).matter_in@,
                inv,
                old(self).matter_state_input@,
                old(self).matter_weight_input@,
                old(self).matter_dispersion_input@,
                old(self).size as int,
            ),
            final(self).image@ == if inv.pass == Pass::Color {
                spec_colorize(old(self).matter_in@)
            } else {
                old(self).image@
            },
    {
        match inv.pass {
            Pass::FallEmpty | Pass::RiseEmpty | Pass::SlideDownEmpty | Pass::HorizontalEmpty => {
                self.matter_out = copy_grid(&self.matter_in);
            },
            Pass::FallSwap => {
                let mut g = fall_pass(
                    &self.matter_in,
                    &self.matter_state_input,
                    &self.matter_weight_input,
                    self.size,
                );
                core::mem::swap(&mut self.matter_in, &mut g);
                self.matter_out = g;
            },
            Pass::RiseSwap => {
                let mut g = rise_pass(
                    &self.matter_in,
                    &self.matter_state_input,
                    &self.matter_weight_input,
                    self.size,
                );
                core::mem::swap(&mut self.matter_in, &mut g);
                self.matter_out = g;
            },
            Pass::SlideDownSwap => {
                let mut g = slide_pass(
                    &self.matter_in,
                    &self.matter_state_input,
                    &self.matter_weight_input,
                    self.size,
                    inv.move_step % 2 == 0,
                );
                core::mem::swap(&mut self.matter_in, &mut g);
                self.matter_out = g;
            },
            Pass::HorizontalSwap => {
                let mut g = disperse_pass(
                    &self.matter_in,
                    &self.matter_state_input,
                    &self.matter_dispersion_input,
                    self.size,
                    inv.dispersion_dir == 1,
                    inv.dispersion_step,
                );
                core::mem::swap(&mut self.matter_in, &mut g);
                self.matter_out = g;
            },
            Pass::Color => {
                self.image = colorize_pass(&self.matter_in);
            },
            Pass::DrawMatter | Pass::QueryMatter => {},
        }
    }

    /// Steps the simulation one tick with the given settings and
    /// pseudo-random seed: executes the tick's scheduled passes in their
    /// fixed order, then advances the tick counter. The committed grid and
    /// image change exactly as the schedule prescribes; in particular a
    /// paused tick leaves every committed matter id unchanged and only
    /// refreshes the image.
    pub fn step(&mut self, settings: &AppSettings, seed: u32)
        requires
            old(self).wf(),
            settings.dispersion_steps <= 0x1000_0000,
        ensures
            final(self).wf(),
            final(self).size == old(self).size,
            final(self).empty_matter == old(self).empty_matter,
            final(self).matter_state_input@ == old(self).matter_state_input@,
            final(self).matter_weight_input@ == old(self).matter_weight_input@,
            final(self).matter_dispersion_input@ == old(self).matter_dispersion_input@,
            final(self).matter_color_input@ == old(self).matter_color_input@,
            final(self).seed == seed,
            final(self).sim_steps == spec_wrap_inc(old(self).sim_steps),
            ({
                let r = spec_run_schedule(
                    old(self).matter_in@,
                    old(self).image@,
                    spec_schedule_tick(old(self).sim_steps, *settings),
                    old(self).matter_state_input@,
                    old(self).matter_weight_input@,
                    old(self).matter_dispersion_input@,
                    old(self).size as int,
                );
                final(self).matter_in@ == r.0 && final(self).image@ == r.1
            }),
            settings.is_paused ==> final(self).matter_in@ == old(self).matter_in@
                && final(self).image@ == spec_colorize(old(self).matter_in@),
            final(self).image@ == spec_colorize(final(self).matter_in@),
            final(self).matter_in@.to_multiset() == old(self).matter_in@.to_multiset(),
    {
        let ghost g0 = self.matter_in@;
        let ghost img0 = self.image@;
        let ghost st0 = self.matter_state_input@;
        let ghost wt0 = self.matter_weight_input@;
        let ghost dp0 = self.matter_dispersion_input@;
        let ghost size0 = self.size as int;
        let ghost t0 = self.sim_steps;
        let plan = schedule_tick(self.sim_steps, settings);
        let n = plan.len();
        let mut i: usize = 0;
        while i < n
            invariant
                self.wf(),
                n == plan@.len(),
                i <= n,
                plan@ == spec_schedule_tick(t0, *settings),
                self.size as int == size0,
                self.sim_steps == t0,
                self.seed == old(self).seed,
                self.empty_matter == old(self).empty_matter,
                self.matter_state_input@ == st0,
                self.matter_weight_input@ == wt0,
                self.matter_dispersion_input@ == dp0,
                self.matter_color_input@ == old(self).matter_color_input@,
                (self.matter_in@, self.image@) == spec_run_schedule(
                    g0,
                    img0,
                    plan@.subrange(0, i as int),
                    st0,
                    wt0,
                    dp0,
                    size0,
                ),
            decreases n - i,
        {
            let inv = plan[i];
            proof {
                assert(plan@.subrange(0, (i + 1) as int) =~= plan@.subrange(0, i as int).push(
                    plan@[i as int],
                ));
                lemma_run_schedule_snoc(
                    g0,
                    img0,
                    plan@.subrange(0, i as int),
                    plan@[i as int],
                    st0,
                    wt0,
                    dp0,
                    size0,
                );
            }
            self.apply_invocation(inv);
            i += 1;
        }
        proof {
            assert(plan@.subrange(0, n as int) =~= plan@);
            if settings.is_paused {
                lemma_paused_tick_preserves_matter(
                    g0,
                    img0,
                    t0,
                    *settings,
                    st0,
                    wt0,
                    dp0,
                    size0,
                );
            }
            lemma_tick_image_follows_grid(g0, img0, t0, *settings, st0, wt0, dp0, size0);
            lemma_run_schedule_preserves_cells(
                g0,
                img0,
                spec_schedule_tick(t0, *settings),
                st0,
                wt0,
                dp0,
                size0,
            );
        }
        self.seed = seed;
        self.sim_steps = if self.sim_steps == u32::MAX {
            0
        } else {
            self.sim_steps + 1
        };
    }

    /// Paints a brush stroke of `matter` from `start` to `end` into the
    /// committed grid, as a single injected draw pass: every cell within
    /// the brush footprint of the line segment between the two takes the
    /// matter with a seed-varied tint of its base color, every other cell
    /// keeps its value — a no-op outside the radius. The pass commits no
    /// buffer swap and leaves the image to the next colorize pass.
    ///
    /// The coordinate and radius bounds keep the covering test's squared
    /// terms within its 128-bit intermediates.
    pub fn draw_matter(
        &mut self,
        start: GridPos,
        end: GridPos,
        matter: u32,
        radius: u32,
        is_square: bool,
    )
        requires
            old(self).wf(),
            matter < 256,
            -1_000_000_000 <= start.x <= 1_000_000_000,
            -1_000_000_000 <= start.y <= 1_000_000_000,
            -1_000_000_000 <= end.x <= 1_000_000_000,
            -1_000_000_000 <= end.y <= 1_000_000_000,
            radius <= 1_000_000_000,
        ensures
            final(self).wf(),
            final(self).size == old(self).size,
            final(self).sim_steps == old(self).sim_steps,
            final(self).seed == old(self).seed,
            final(self).empty_matter == old(self).empty_matter,
            final(self).image@ == old(self).image@,
            final(self).matter_out@ == old(self).matter_out@,
            final(self).matter_state_input@ == old(self).matter_state_input@,
            final(self).matter_weight_input@ == old(self).matter_weight_input@,
            final(self).matter_dispersion_input@ == old(self).matter_dispersion_input@,
            final(self).matter_color_input@ == old(self).matter_color_input@,
            final(self).matter_in@ == spec_paint(
                old(self).matter_in@,
                old(self).size as int,
                start,
                end,
                radius,
                is_square,
                matter,
                old(self).matter_color_input@[matter as int],
                old(self).seed,
            ),
    {
        let base_color = self.matter_color_input[matter as usize];
        let g = paint_pass(
            &self.matter_in,
            self.size,
            start,
            end,
            radius,
            is_square,
            matter,
            base_color,
            self.seed,
        );
        self.matter_in = g;
    }

    /// Queries the matter id at `pos`. A position outside the canvas
    /// answers `None` at once, with no pass issued; a position inside
    /// answers the matter id stored in the committed cell.
    pub fn query_matter(&self, pos: GridPos) -> (r: Option<u32>)
        requires
            self.wf(),
        ensures
            r == spec_query(self.matter_in@, self.size as int, pos),
            r is Some ==> r.unwrap() < 256,
    {
        if pos.x >= 0 && pos.x < self.size as i32 && pos.y >= 0 && pos.y < self.size as i32 {
            proof {
                lemma_rowmajor_index(self.size as int, pos.x as int, pos.y as int);
                crate::color::lemma_cell_matter_fits(
                    self.matter_in@[pos.y * self.size + pos.x],
                );
            }
            let i: usize = (pos.y as usize) * (self.size as usize) + (pos.x as usize);
            Some(self.matter_in[i] & 255)
        } else {
            None
        }
    }

    /// The output image, one packed RGBA word per canvas cell, refreshed
    /// by the colorize pass at the end of every tick.
    pub fn color_image(&self) -> (r: &Vec<u32>)
        ensures
            r@ == self.image@,
    {
        &self.image
    }

    /// The canvas edge length.
    pub fn canvas_size(&self) -> (r: u32)
        ensures
            r == self.size,
    {
        self.size
    }

    /// The tick counter: incremented after every `step` call.
    pub fn sim_steps(&self) -> (r: u32)
        ensures
            r == self.sim_steps,
    {
        self.sim_steps
    }
}

} // verus!
