//! The draw-matter pass: painting a brush stroke into the grid.
//!
//! A stroke runs from a start to an end position. A cell is covered when
//! it lies within the brush footprint of the line segment between the
//! two: within Euclidean distance `radius` of the segment for the round
//! brush, or touched by the axis-aligned square of half-width `radius`
//! centered on the cell for the square brush. Every covered cell takes
//! the requested matter, tinted with a position-seeded variation of the
//! matter's base color; all other cells keep their value, so the pass is
//! a no-op outside the radius.
//!
//! Both covering tests are exact and integer-valued: the round test
//! compares squared distances (to the nearer endpoint, or to the line via
//! the cross product, depending on where the point projects onto the
//! segment), and the square test checks interval overlap between segment
//! and square on the x axis, the y axis, and the segment's normal axis,
//! the three candidate separating axes of a segment and an axis-aligned
//! square.

use vstd::prelude::*;

use crate::color::spec_encode;
use crate::GridPos;

verus! {

/// Minimum.
pub open spec fn spec_min_int(a: int, b: int) -> int {
    if a < b {
        a
    } else {
        b
    }
}

/// Maximum.
pub open spec fn spec_max_int(a: int, b: int) -> int {
    if a < b {
        b
    } else {
        a
    }
}

/// Two-dimensional cross product: the signed area spanned by `(ax, ay)`
/// and `(vx, vy)`. Its sign tells which side of the first vector's line
/// the second points to.
pub open spec fn spec_cross(ax: int, ay: int, vx: int, vy: int) -> int {
    ax * vy - ay * vx
}

/// `(px, py)` lies within Euclidean distance `radius` of the segment from
/// `(ax, ay)` to `(bx, by)`. The projection parameter `t` (scaled by the
/// segment's squared length) decides which squared distance to compare:
/// to the start before the segment, to the end past it, and to the
/// segment's line in between, where the squared point-line distance is
/// the squared cross product over the squared length.
pub open spec fn spec_covered_round(
    px: int,
    py: int,
    ax: int,
    ay: int,
    bx: int,
    by: int,
    radius: u32,
) -> bool {
    let abx = bx - ax;
    let aby = by - ay;
    let apx = px - ax;
    let apy = py - ay;
    let bpx = px - bx;
    let bpy = py - by;
    let t = abx * apx + aby * apy;
    let len2 = abx * abx + aby * aby;
    if t <= 0 {
        apx * apx + apy * apy <= radius * radius
    } else if t >= len2 {
        bpx * bpx + bpy * bpy <= radius * radius
    } else {
        spec_cross(abx, aby, apx, apy) * spec_cross(abx, aby, apx, apy) <= (radius * radius) * len2
    }
}

/// The axis-aligned square of half-width `radius` centered at `(px, py)`
/// touches the segment from `(ax, ay)` to `(bx, by)`: the two overlap on
/// the x axis, on the y axis, and on the segment's normal axis — the
/// square's four corners do not all lie strictly on one side of the
/// segment's line. For a degenerate segment all corner cross products are
/// zero and the test reduces to the point-in-square check.
pub open spec fn spec_covered_square(
    px: int,
    py: int,
    ax: int,
    ay: int,
    bx: int,
    by: int,
    radius: u32,
) -> bool {
    let r = radius as int;
    let abx = bx - ax;
    let aby = by - ay;
    let c1 = spec_cross(abx, aby, px - r - ax, py - r - ay);
    let c2 = spec_cross(abx, aby, px + r - ax, py - r - ay);
    let c3 = spec_cross(abx, aby, px - r - ax, py + r - ay);
    let c4 = spec_cross(abx, aby, px + r - ax, py + r - ay);
    &&& spec_min_int(ax, bx) <= px + r
    &&& px - r <= spec_max_int(ax, bx)
    &&& spec_min_int(ay, by) <= py + r
    &&& py - r <= spec_max_int(ay, by)
    &&& !(c1 > 0 && c2 > 0 && c3 > 0 && c4 > 0)
    &&& !(c1 < 0 && c2 < 0 && c3 < 0 && c4 < 0)
}

/// Whether `(px, py)` is covered by the stroke's brush footprint along
/// the segment from `start` to `end`.
pub open spec fn spec_in_stroke(
    start: GridPos,
    end: GridPos,
    radius: u32,
    is_square: bool,
    px: int,
    py: int,
) -> bool {
    if is_square {
        spec_covered_square(
            px,
            py,
            start.x as int,
            start.y as int,
            end.x as int,
            end.y as int,
            radius,
        )
    } else {
        spec_covered_round(
            px,
            py,
            start.x as int,
            start.y as int,
            end.x as int,
            end.y as int,
            radius,
        )
    }
}

/// Position-seeded noise word for per-cell color variation: an xor-shift
/// mix of the cell position and the tick seed.
pub open spec fn spec_noise(x: u32, y: u32, seed: u32) -> u32 {
    let h0 = x ^ ((y << 16) | (y >> 16)) ^ seed;
    let h1 = h0 ^ (h0 << 13);
    let h2 = h1 ^ (h1 >> 17);
    h2 ^ (h2 << 5)
}

/// Signed channel offset derived from a noise word: a value in [-26, 25].
pub open spec fn spec_color_delta(noise: u32) -> int {
    (noise % 52) - 26
}

/// One color channel shifted by `delta` and clamped to the byte range.
pub open spec fn spec_varied_channel(c: u8, delta: int) -> u8 {
    let v = c + delta;
    if v < 0 {
        0u8
    } else if v > 255 {
        255u8
    } else {
        v as u8
    }
}

/// The packed cell written for a painted cell at `(x, y)`: the requested
/// matter id under the matter's base color, all three channels shifted by
/// the same position-seeded offset.
pub open spec fn spec_paint_cell(matter: u32, base_color: u32, seed: u32, x: int, y: int) -> u32 {
    let n = spec_noise(x as u32, y as u32, seed);
    let d = spec_color_delta(n);
    spec_encode(
        matter as u8,
        [
            spec_varied_channel(((base_color >> 24) & 255) as u8, d),
            spec_varied_channel(((base_color >> 16) & 255) as u8, d),
            spec_varied_channel(((base_color >> 8) & 255) as u8, d),
        ],
    )
}

/// The grid after painting a stroke: covered cells take the painted value
/// for their position, all others keep theirs.
pub open spec fn spec_paint(
    g: Seq<u32>,
    size: int,
    start: GridPos,
    end: GridPos,
    radius: u32,
    is_square: bool,
    matter: u32,
    base_color: u32,
    seed: u32,
) -> Seq<u32> {
    Seq::new(
        g.len(),
        |i: int|
            if spec_in_stroke(start, end, radius, is_square, i % size, i / size) {
                spec_paint_cell(matter, base_color, seed, i % size, i / size)
            } else {
                g[i]
            },
    )
}

/// A stroke's brush footprint always covers the stroke's own start point:
/// it is at distance zero from the segment, and the square around it
/// straddles the segment's line.
pub proof fn lemma_stroke_covers_start(start: GridPos, end: GridPos, radius: u32, is_square: bool)
    ensures
        spec_in_stroke(start, end, radius, is_square, start.x as int, start.y as int),
{
    let ax = start.x as int;
    let ay = start.y as int;
    let bx = end.x as int;
    let by = end.y as int;
    let abx = bx - ax;
    let aby = by - ay;
    let r = radius as int;
    if is_square {
        assert(spec_cross(abx, aby, -r, -r) + spec_cross(abx, aby, r, r) == 0 && spec_cross(
            abx,
            aby,
            r,
            -r,
        ) + spec_cross(abx, aby, -r, r) == 0) by (nonlinear_arith);
    } else {
        assert(abx * 0 + aby * 0 == 0);
        assert(radius * radius >= 0) by (nonlinear_arith);
    }
}

/// A product of bounded factors is bounded by the product of the bounds.
proof fn lemma_mul_bound(a: int, b: int, m: int, n: int)
    requires
        -m <= a <= m,
        -n <= b <= n,
    ensures
        -(m * n) <= a * b <= m * n,
{
    assert(-(m * n) <= a * b <= m * n) by (nonlinear_arith)
        requires
            -m <= a <= m,
            -n <= b <= n,
    ;
}

/// Dot product of two bounded vectors, in 128-bit arithmetic.
fn dot_i128(ux: i128, uy: i128, vx: i128, vy: i128) -> (r: i128)
    requires
        -2_100_000_000 <= ux <= 2_100_000_000,
        -2_100_000_000 <= uy <= 2_100_000_000,
        -2_100_000_000 <= vx <= 2_100_000_000,
        -2_100_000_000 <= vy <= 2_100_000_000,
    ensures
        r as int == (ux as int) * (vx as int) + (uy as int) * (vy as int),
        -8_820_000_000_000_000_000 <= r <= 8_820_000_000_000_000_000,
{
    proof {
        lemma_mul_bound(ux as int, vx as int, 2_100_000_000, 2_100_000_000);
        lemma_mul_bound(uy as int, vy as int, 2_100_000_000, 2_100_000_000);
    }
    ux * vx + uy * vy
}

/// Cross product of two bounded vectors, in 128-bit arithmetic.
fn cross_i128(ux: i128, uy: i128, vx: i128, vy: i128) -> (r: i128)
    requires
        -2_100_000_000 <= ux <= 2_100_000_000,
        -2_100_000_000 <= uy <= 2_100_000_000,
        -2_100_000_000 <= vx <= 2_100_000_000,
        -2_100_000_000 <= vy <= 2_100_000_000,
    ensures
        r as int == spec_cross(ux as int, uy as int, vx as int, vy as int),
        -8_820_000_000_000_000_000 <= r <= 8_820_000_000_000_000_000,
{
    proof {
        lemma_mul_bound(ux as int, vy as int, 2_100_000_000, 2_100_000_000);
        lemma_mul_bound(uy as int, vx as int, 2_100_000_000, 2_100_000_000);
    }
    ux * vy - uy * vx
}

/// Whether `(px, py)` is covered by the stroke's brush footprint. The
/// coordinate and radius bounds keep every squared term of the covering
/// tests within the 128-bit intermediates.
fn in_stroke(start: GridPos, end: GridPos, radius: u32, is_square: bool, px: u32, py: u32) -> (res:
    bool)
    requires
        -1_000_000_000 <= start.x <= 1_000_000_000,
        -1_000_000_000 <= start.y <= 1_000_000_000,
        -1_000_000_000 <= end.x <= 1_000_000_000,
        -1_000_000_000 <= end.y <= 1_000_000_000,
        radius <= 1_000_000_000,
        px <= 16384,
        py <= 16384,
    ensures
        res == spec_in_stroke(start, end, radius, is_square, px as int, py as int),
{
    let ax: i128 = start.x as i128;
    let ay: i128 = start.y as i128;
    let bx: i128 = end.x as i128;
    let by: i128 = end.y as i128;
    let pxl: i128 = px as i128;
    let pyl: i128 = py as i128;
    let r: i128 = radius as i128;
    let abx: i128 = bx - ax;
    let aby: i128 = by - ay;
    if is_square {
        let c1 = cross_i128(abx, aby, pxl - r - ax, pyl - r - ay);
        let c2 = cross_i128(abx, aby, pxl + r - ax, pyl - r - ay);
        let c3 = cross_i128(abx, aby, pxl - r - ax, pyl + r - ay);
        let c4 = cross_i128(abx, aby, pxl + r - ax, pyl + r - ay);
        let minx = if ax < bx {
            ax
        } else {
            bx
        };
        let maxx = if ax < bx {
            bx
        } else {
            ax
        };
        let miny = if ay < by {
            ay
        } else {
            by
        };
        let maxy = if ay < by {
            by
        } else {
            ay
        };
        minx <= pxl + r && pxl - r <= maxx && miny <= pyl + r && pyl - r <= maxy && !(c1 > 0 && c2
            > 0 && c3 > 0 && c4 > 0) && !(c1 < 0 && c2 < 0 && c3 < 0 && c4 < 0)
    } else {
        let apx: i128 = pxl - ax;
        let apy: i128 = pyl - ay;
        let t = dot_i128(abx, aby, apx, apy);
        proof {
            lemma_mul_bound(r as int, r as int, 1_000_000_000, 1_000_000_000);
        }
        let rr: i128 = r * r;
        if t <= 0 {
            let ap2 = dot_i128(apx, apy, apx, apy);
            ap2 <= rr
        } else {
            let len2 = dot_i128(abx, aby, abx, aby);
            if t >= len2 {
                let bpx: i128 = pxl - bx;
                let bpy: i128 = pyl - by;
                let bp2 = dot_i128(bpx, bpy, bpx, bpy);
                bp2 <= rr
            } else {
                let c = cross_i128(abx, aby, apx, apy);
                proof {
                    lemma_mul_bound(
                        c as int,
                        c as int,
                        8_820_000_000_000_000_000,
                        8_820_000_000_000_000_000,
                    );
                    lemma_mul_bound(
                        rr as int,
                        len2 as int,
                        1_000_000_000_000_000_000,
                        8_820_000_000_000_000_000,
                    );
                }
                c * c <= rr * len2
            }
        }
    }
}

/// Computes the noise word for a cell.
fn noise(x: u32, y: u32, seed: u32) -> (r: u32)
    ensures
        r == spec_noise(x, y, seed),
{
    let h0 = x ^ ((y << 16u32) | (y >> 16u32)) ^ seed;
    let h1 = h0 ^ (h0 << 13u32);
    let h2 = h1 ^ (h1 >> 17u32);
    h2 ^ (h2 << 5u32)
}

/// Shifts one channel by `delta` and clamps it to the byte range.
fn varied_channel(c: u8, delta: i32) -> (r: u8)
    requires
        -26 <= delta <= 25,
    ensures
        r == spec_varied_channel(c, delta as int),
{
    let v = c as i32 + delta;
    if v < 0 {
        0
    } else if v > 255 {
        255
    } else {
        v as u8
    }
}

/// Applies one noise-driven variation to the three channels of a packed
/// base color.
pub fn variated_color(base_color: u32, noise_word: u32) -> (r: [u8; 3])
    ensures
        r[0] == spec_varied_channel(((base_color >> 24) & 255) as u8, spec_color_delta(noise_word)),
        r[1] == spec_varied_channel(((base_color >> 16) & 255) as u8, spec_color_delta(noise_word)),
        r[2] == spec_varied_channel(((base_color >> 8) & 255) as u8, spec_color_delta(noise_word)),
{
    let m = noise_word % 52;
    assert(m < 52) by (bit_vector)
        requires
            m == noise_word % 52,
    ;
    let delta = m as i32 - 26;
    [
        varied_channel(((base_color >> 24) & 255) as u8, delta),
        varied_channel(((base_color >> 16) & 255) as u8, delta),
        varied_channel(((base_color >> 8) & 255) as u8, delta),
    ]
}

/// The painted cell value at `(x, y)`.
fn paint_cell(matter: u32, base_color: u32, seed: u32, x: u32, y: u32) -> (r: u32)
    ensures
        r == spec_paint_cell(matter, base_color, seed, x as int, y as int),
{
    let n = noise(x, y, seed);
    let c = variated_color(base_color, n);
    crate::color::encode(matter as u8, c)
}

/// Paints a stroke into a grid: returns the repainted grid, leaving the
/// argument buffer untouched.
pub fn paint_pass(
    grid: &Vec<u32>,
    size: u32,
    start: GridPos,
    end: GridPos,
    radius: u32,
    is_square: bool,
    matter: u32,
    base_color: u32,
    seed: u32,
) -> (out: Vec<u32>)
    requires
        0 < size <= 16384,
        grid@.len() == size * size,
        -1_000_000_000 <= start.x <= 1_000_000_000,
        -1_000_000_000 <= start.y <= 1_000_000_000,
        -1_000_000_000 <= end.x <= 1_000_000_000,
        -1_000_000_000 <= end.y <= 1_000_000_000,
        radius <= 1_000_000_000,
    ensures
        out@ == spec_paint(grid@, size as int, start, end, radius, is_square, matter, base_color, seed),
{
    let ghost target = spec_paint(
        grid@,
        size as int,
        start,
        end,
        radius,
        is_square,
        matter,
        base_color,
        seed,
    );
    let mut out: Vec<u32> = Vec::new();
    let mut y: u32 = 0;
    while y < size
        invariant
            0 < size <= 16384,
            grid@.len() == size * size,
            -1_000_000_000 <= start.x <= 1_000_000_000,
            -1_000_000_000 <= start.y <= 1_000_000_000,
            -1_000_000_000 <= end.x <= 1_000_000_000,
            -1_000_000_000 <= end.y <= 1_000_000_000,
            radius <= 1_000_000_000,
            target == spec_paint(
                grid@,
                size as int,
                start,
                end,
                radius,
                is_square,
                matter,
                base_color,
                seed,
            ),
            y <= size,
            out@.len() == y * size,
            forall|i: int| 0 <= i < out@.len() ==> out@[i] == target[i],
        decreases size - y,
    {
        let mut x: u32 = 0;
        while x < size
            invariant
                0 < size <= 16384,
                grid@.len() == size * size,
                -1_000_000_000 <= start.x <= 1_000_000_000,
                -1_000_000_000 <= start.y <= 1_000_000_000,
                -1_000_000_000 <= end.x <= 1_000_000_000,
                -1_000_000_000 <= end.y <= 1_000_000_000,
                radius <= 1_000_000_000,
                target == spec_paint(
                    grid@,
                    size as int,
                    start,
                    end,
                    radius,
                    is_square,
                    matter,
                    base_color,
                    seed,
                ),
                y < size,
                x <= size,
                out@.len() == y * size + x,
                forall|i: int| 0 <= i < out@.len() ==> out@[i] == target[i],
            decreases size - x,
        {
            proof {
                crate::passes::lemma_rowmajor_index(size as int, x as int, y as int);
            }
            let c: u32 = if in_stroke(start, end, radius, is_square, x, y) {
                paint_cell(matter, base_color, seed, x, y)
            } else {
                let i = (y as usize) * (size as usize) + (x as usize);
                grid[i]
            };
            out.push(c);
            x += 1;
        }
        proof {
            crate::passes::lemma_row_advance(size as int, y as int);
        }
        y += 1;
    }
    proof {
        assert(out@ =~= target);
    }
    out
}

} // verus!
