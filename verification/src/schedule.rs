//! The per-tick pass schedule.
//!
//! Each tick the engine issues a fixed, ordered sequence of passes: one
//! fall/rise/slide group per movement iteration (up to 3), two lateral
//! dispersion phases whose direction alternates with tick parity, and a
//! final colorize pass. Movement and dispersion passes come in
//! empty-detection/swap-commit pairs, and every such pass commits a buffer
//! swap; the colorize pass only refreshes the image and commits nothing.

use vstd::prelude::*;

use crate::settings::AppSettings;

verus! {

/// One logical kernel pass of the pipeline set.
#[derive(Debug, Clone, Copy, PartialEq, Eq, Structural)]
pub enum Pass {
    FallEmpty,
    FallSwap,
    RiseEmpty,
    RiseSwap,
    SlideDownEmpty,
    SlideDownSwap,
    HorizontalEmpty,
    HorizontalSwap,
    DrawMatter,
    QueryMatter,
    Color,
}

/// Whether a pass commits a double-buffer swap: the movement and dispersion
/// passes do, the draw, query and colorize passes do not.
pub open spec fn spec_pass_commits(p: Pass) -> bool {
    match p {
        Pass::FallEmpty => true,
        Pass::FallSwap => true,
        Pass::RiseEmpty => true,
        Pass::RiseSwap => true,
        Pass::SlideDownEmpty => true,
        Pass::SlideDownSwap => true,
        Pass::HorizontalEmpty => true,
        Pass::HorizontalSwap => true,
        Pass::DrawMatter => false,
        Pass::QueryMatter => false,
        Pass::Color => false,
    }
}

/// One scheduled dispatch: the pass and the per-dispatch parameters it
/// reads. `swap` records whether the dispatch commits a buffer swap.
#[derive(Debug, Clone, Copy, PartialEq, Eq, Structural)]
pub struct PassInvocation {
    pub pass: Pass,
    pub move_step: u32,
    pub dispersion_dir: u32,
    pub dispersion_step: u32,
    pub swap: bool,
}

/// A movement or dispersion invocation for `pass` at movement iteration
/// `move_step` and dispersion sub-step `dispersion_step`.
pub open spec fn spec_invocation(
    pass: Pass,
    move_step: u32,
    dispersion_dir: u32,
    dispersion_step: u32,
) -> PassInvocation {
    PassInvocation { pass, move_step, dispersion_dir, dispersion_step, swap: spec_pass_commits(pass) }
}

/// The six dispatches of one movement iteration: fall, rise and slide, each
/// as an empty-detection pass followed by a swap-commit pass.
pub open spec fn spec_move_once(step: u32) -> Seq<PassInvocation> {
    seq![
        spec_invocation(Pass::FallEmpty, step, 0, 0),
        spec_invocation(Pass::FallSwap, step, 0, 0),
        spec_invocation(Pass::RiseEmpty, step, 0, 0),
        spec_invocation(Pass::RiseSwap, step, 0, 0),
        spec_invocation(Pass::SlideDownEmpty, step, 0, 0),
        spec_invocation(Pass::SlideDownSwap, step, 0, 0),
    ]
}

/// The dispatches of one dispersion phase in direction `dir`: `n`
/// empty/swap pairs, the pair at sub-step `k` carrying `dispersion_step`
/// `k`.
pub open spec fn spec_disperse(move_step: u32, dir: u32, n: u32) -> Seq<PassInvocation> {
    Seq::new(
        (2 * n) as nat,
        |i: int|
            if i % 2 == 0 {
                spec_invocation(Pass::HorizontalEmpty, move_step, dir, (i / 2) as u32)
            } else {
                spec_invocation(Pass::HorizontalSwap, move_step, dir, (i / 2) as u32)
            },
    )
}

/// Direction flag of the first dispersion phase of tick `sim_steps`:
/// decided by tick parity, so it alternates across consecutive ticks.
pub open spec fn spec_first_dispersion_dir(sim_steps: u32) -> u32 {
    if sim_steps % 2 == 0 {
        1u32
    } else {
        0u32
    }
}

/// The colorize invocation that ends every tick.
pub open spec fn spec_color_invocation() -> PassInvocation {
    spec_invocation(Pass::Color, 0, 0, 0)
}

/// The full dispatch sequence of one tick.
///
/// When not paused: movement iteration 0, a dispersion phase whose
/// direction follows tick parity, movement iterations 1 and 2 when the
/// settings ask for them (capped at 3), a second dispersion phase in the
/// opposite direction, then colorize. When paused: colorize alone.
pub open spec fn spec_schedule_tick(sim_steps: u32, s: AppSettings) -> Seq<PassInvocation> {
    if s.is_paused {
        seq![spec_color_invocation()]
    } else {
        let dir0 = spec_first_dispersion_dir(sim_steps);
        let dir1 = (1 - dir0) as u32;
        spec_move_once(0) + spec_disperse(0, dir0, s.dispersion_steps) + (if s.movement_steps > 1 {
            spec_move_once(1)
        } else {
            Seq::empty()
        }) + (if s.movement_steps > 2 {
            spec_move_once(2)
        } else {
            Seq::empty()
        }) + spec_disperse(0, dir1, s.dispersion_steps) + seq![spec_color_invocation()]
    }
}

/// Builds one movement or dispersion invocation.
fn invocation(pass: Pass, move_step: u32, dispersion_dir: u32, dispersion_step: u32) -> (r:
    PassInvocation)
    ensures
        r == spec_invocation(pass, move_step, dispersion_dir, dispersion_step),
{
    let swap = match pass {
        Pass::FallEmpty => true,
        Pass::FallSwap => true,
        Pass::RiseEmpty => true,
        Pass::RiseSwap => true,
        Pass::SlideDownEmpty => true,
        Pass::SlideDownSwap => true,
        Pass::HorizontalEmpty => true,
        Pass::HorizontalSwap => true,
        Pass::DrawMatter => false,
        Pass::QueryMatter => false,
        Pass::Color => false,
    };
    PassInvocation { pass, move_step, dispersion_dir, dispersion_step, swap }
}

/// Appends the six dispatches of one movement iteration.
fn push_move_once(plan: &mut Vec<PassInvocation>, step: u32)
    ensures
        final(plan)@ == old(plan)@ + spec_move_once(step),
{
    plan.push(invocation(Pass::FallEmpty, step, 0, 0));
    plan.push(invocation(Pass::FallSwap, step, 0, 0));
    plan.push(invocation(Pass::RiseEmpty, step, 0, 0));
    plan.push(invocation(Pass::RiseSwap, step, 0, 0));
    plan.push(invocation(Pass::SlideDownEmpty, step, 0, 0));
    plan.push(invocation(Pass::SlideDownSwap, step, 0, 0));
    assert(plan@ =~= old(plan)@ + spec_move_once(step));
}

/// Appends the dispatches of one dispersion phase in direction `dir`.
fn push_disperse(plan: &mut Vec<PassInvocation>, dir: u32, n: u32)
    requires
        old(plan)@.len() + 2 * n <= usize::MAX,
    ensures
        final(plan)@ == old(plan)@ + spec_disperse(0, dir, n),
{
    let ghost base = plan@;
    let mut k: u32 = 0;
    while k < n
        invariant
            k <= n,
            base.len() + 2 * n <= usize::MAX,
            plan@.len() == base.len() + 2 * k,
            forall|j: int|
                0 <= j < 2 * k ==> plan@[base.len() + j] == spec_disperse(0, dir, n)[j],
            forall|j: int| 0 <= j < base.len() ==> plan@[j] == base[j],
        decreases n - k,
    {
        plan.push(invocation(Pass::HorizontalEmpty, 0, dir, k));
        plan.push(invocation(Pass::HorizontalSwap, 0, dir, k));
        k += 1;
    }
    assert(plan@ =~= base + spec_disperse(0, dir, n));
}

/// The ordered dispatch plan of one tick, as the engine will execute it:
/// exactly the sequence `spec_schedule_tick` describes. The bound on the
/// dispersion count keeps the plan's length within the address range.
pub fn schedule_tick(sim_steps: u32, settings: &AppSettings) -> (plan: Vec<PassInvocation>)
    requires
        settings.dispersion_steps <= 0x1000_0000,
    ensures
        plan@ == spec_schedule_tick(sim_steps, *settings),
{
    let mut plan: Vec<PassInvocation> = Vec::new();
    if settings.is_paused {
        plan.push(invocation(Pass::Color, 0, 0, 0));
        assert(plan@ =~= spec_schedule_tick(sim_steps, *settings));
        return plan;
    }
    let dir0: u32 = if sim_steps % 2 == 0 {
        1
    } else {
        0
    };
    let dir1: u32 = 1 - dir0;
    push_move_once(&mut plan, 0);
    push_disperse(&mut plan, dir0, settings.dispersion_steps);
    if settings.movement_steps > 1 {
        push_move_once(&mut plan, 1);
    }
    if settings.movement_steps > 2 {
        push_move_once(&mut plan, 2);
    }
    push_disperse(&mut plan, dir1, settings.dispersion_steps);
    plan.push(invocation(Pass::Color, 0, 0, 0));
    assert(plan@ =~= spec_schedule_tick(sim_steps, *settings));
    plan
}

/// The tick counter wraps around at the end of the counter's range; parity
/// still flips on every increment.
pub open spec fn spec_wrap_inc(x: u32) -> u32 {
    if x == u32::MAX {
        0u32
    } else {
        (x + 1) as u32
    }
}

/// Across two consecutive ticks, the direction flag handed to the first
/// dispersion phase differs: tick parity drives the flag, and parity flips
/// on every increment of the tick counter, including at wrap-around.
pub proof fn lemma_dispersion_direction_alternates(sim_steps: u32)
    ensures
        spec_first_dispersion_dir(sim_steps) != spec_first_dispersion_dir(
            spec_wrap_inc(sim_steps),
        ),
{
    if sim_steps == u32::MAX {
        assert(u32::MAX % 2 == 1);
    }
}

/// How many dispatches of a plan commit a buffer swap.
pub open spec fn spec_count_commits(plan: Seq<PassInvocation>) -> int
    decreases plan.len(),
{
    if plan.len() == 0 {
        0
    } else {
        (if plan[0].swap {
            1int
        } else {
            0int
        }) + spec_count_commits(plan.subrange(1, plan.len() as int))
    }
}

/// Commit counts add over concatenation.
proof fn lemma_count_commits_add(a: Seq<PassInvocation>, b: Seq<PassInvocation>)
    ensures
        spec_count_commits(a + b) == spec_count_commits(a) + spec_count_commits(b),
    decreases a.len(),
{
    if a.len() == 0 {
        assert(a + b =~= b);
    } else {
        assert((a + b)[0] == a[0]);
        assert((a + b).subrange(1, (a + b).len() as int) =~= a.subrange(1, a.len() as int) + b);
        lemma_count_commits_add(a.subrange(1, a.len() as int), b);
    }
}

/// A plan whose every dispatch commits has as many commits as dispatches.
proof fn lemma_count_commits_all(s: Seq<PassInvocation>)
    requires
        forall|i: int| 0 <= i < s.len() ==> (#[trigger] s[i]).swap,
    ensures
        spec_count_commits(s) == s.len(),
    decreases s.len(),
{
    if s.len() > 0 {
        lemma_count_commits_all(s.subrange(1, s.len() as int));
    }
}

/// Every tick commits an even number of buffer swaps: each movement and
/// dispersion pass comes as an empty/swap pair, both committing, so the
/// committed front buffer ends the tick in the same slot it started in.
pub proof fn lemma_tick_commits_evenly(sim_steps: u32, s: AppSettings)
    ensures
        spec_count_commits(spec_schedule_tick(sim_steps, s)) % 2 == 0,
{
    let color = seq![spec_color_invocation()];
    assert(spec_count_commits(color) == 0) by {
        assert(color.subrange(1, 1) =~= Seq::<PassInvocation>::empty());
    }
    if s.is_paused {
    } else {
        let dir0 = spec_first_dispersion_dir(sim_steps);
        let dir1 = (1 - dir0) as u32;
        let m0 = spec_move_once(0);
        let d0 = spec_disperse(0, dir0, s.dispersion_steps);
        let m1 = if s.movement_steps > 1 {
            spec_move_once(1)
        } else {
            Seq::<PassInvocation>::empty()
        };
        let m2 = if s.movement_steps > 2 {
            spec_move_once(2)
        } else {
            Seq::<PassInvocation>::empty()
        };
        let d1 = spec_disperse(0, dir1, s.dispersion_steps);
        lemma_count_commits_all(m0);
        lemma_count_commits_all(d0);
        lemma_count_commits_all(m1);
        lemma_count_commits_all(m2);
        lemma_count_commits_all(d1);
        lemma_count_commits_add(m0, d0);
        lemma_count_commits_add(m0 + d0, m1);
        lemma_count_commits_add(m0 + d0 + m1, m2);
        lemma_count_commits_add(m0 + d0 + m1 + m2, d1);
        lemma_count_commits_add(m0 + d0 + m1 + m2 + d1, color);
    }
}

/// In a non-paused tick with at least one dispersion sub-step, the first
/// dispersion dispatch of the schedule carries the parity-driven direction
/// flag.
pub proof fn lemma_first_disperse_in_schedule(sim_steps: u32, s: AppSettings)
    requires
        !s.is_paused,
        s.dispersion_steps > 0,
    ensures
        spec_schedule_tick(sim_steps, s)[6].pass == Pass::HorizontalEmpty,
        spec_schedule_tick(sim_steps, s)[6].dispersion_dir == spec_first_dispersion_dir(sim_steps),
{
    let plan = spec_schedule_tick(sim_steps, s);
    let dir0 = spec_first_dispersion_dir(sim_steps);
    assert(plan[6] == spec_disperse(0, dir0, s.dispersion_steps)[0]);
}

} // verus!
