use vstd::prelude::*;
use crate::constants::{LHEIGHT, LWIDTH};

verus! {

/// (`x`, `y`) names a cell of a `w` by `h` buffer.
pub open spec fn in_bounds(x: i32, y: i32, w: usize, h: usize) -> bool {
    0 <= x < w && 0 <= y < h
}

/// Row-major index of cell (`x`, `y`) in a buffer `w` cells wide.
pub open spec fn cell(x: i32, y: i32, w: usize) -> int {
    y * w + x
}

/// Whether a sample of depth `depth` at (`x`, `y`) is nearer than what the
/// depth buffer `z` holds there (larger depths are nearer).
pub open spec fn wins(z: Seq<i32>, x: i32, y: i32, w: usize, h: usize, depth: i32) -> bool {
    in_bounds(x, y, w, h) && depth > z[cell(x, y, w)]
}

/// The depth buffer after offering it a sample of depth `depth` at (`x`, `y`).
pub open spec fn depth_plotted(z: Seq<i32>, x: i32, y: i32, w: usize, h: usize, depth: i32) -> Seq<
    i32,
> {
    if wins(z, x, y, w, h, depth) {
        z.update(cell(x, y, w), depth)
    } else {
        z
    }
}

/// Cell (`x`, `y`) of a `w` by `h` grid, when it is one, indexes a buffer of
/// `len` entries.
pub open spec fn cell_fits(len: nat, x: i32, y: i32, w: usize, h: usize) -> bool {
    in_bounds(x, y, w, h) ==> cell(x, y, w) < len
}

proof fn lemma_cell_nonneg(x: i32, y: i32, w: usize, h: usize)
    requires
        in_bounds(x, y, w, h),
    ensures
        0 <= y * w <= cell(x, y, w),
{
    let (xi, yi, wi) = (x as int, y as int, w as int);
    assert(0 <= yi * wi <= yi * wi + xi) by (nonlinear_arith)
        requires
            0 <= xi,
            0 <= yi,
            0 <= wi,
    ;
}

/// Depth test for the shadow pass: writes `depth` at (`x`, `y`) when the
/// cell lies in the `w` by `h` buffer and `depth` is nearer than its content.
pub fn plot_z(x: i32, y: i32, depth: i32, zbuf: &mut Vec<i32>, w: usize, h: usize)
    requires
        cell_fits(old(zbuf)@.len(), x, y, w, h),
    ensures
        final(zbuf)@ == depth_plotted(old(zbuf)@, x, y, w, h, depth),
{
    if x < 0 || y < 0 || (x as usize) >= w || (y as usize) >= h {
        return ;
    }
    let len = zbuf.len();
    proof {
        lemma_cell_nonneg(x, y, w, h);
        assert(cell(x, y, w) < len);
    }
    let idx = y as usize * w + x as usize;
    if depth > zbuf[idx] {
        zbuf.set(idx, depth);
    }
}

/// Depth-tested plot for the view pass: when the sample wins the depth test
/// both its depth and its colour `col` are stored; otherwise nothing changes.
pub fn plot_z_col(
    x: i32,
    y: i32,
    depth: i32,
    pict: &mut Vec<u32>,
    zbuf: &mut Vec<i32>,
    w: usize,
    h: usize,
    col: u32,
)
    requires
        cell_fits(old(zbuf)@.len(), x, y, w, h),
        cell_fits(old(pict)@.len(), x, y, w, h),
    ensures
        final(zbuf)@ == depth_plotted(old(zbuf)@, x, y, w, h, depth),
        final(pict)@ == if wins(old(zbuf)@, x, y, w, h, depth) {
            old(pict)@.update(cell(x, y, w), col)
        } else {
            old(pict)@
        },
{
    if x < 0 || y < 0 || (x as usize) >= w || (y as usize) >= h {
        return ;
    }
    let len = zbuf.len();
    proof {
        lemma_cell_nonneg(x, y, w, h);
        assert(cell(x, y, w) < len);
    }
    let idx = y as usize * w + x as usize;
    if depth > zbuf[idx] {
        zbuf.set(idx, depth);
        pict.set(idx, col);
    }
}

/// Plotting never moves a stored depth farther away, and leaves the
/// cell it hits holding the nearer of the old and the new depth.
pub proof fn lemma_plot_keeps_nearest(z: Seq<i32>, x: i32, y: i32, w: usize, h: usize, depth: i32)
    requires
        cell_fits(z.len(), x, y, w, h),
    ensures
        depth_plotted(z, x, y, w, h, depth).len() == z.len(),
        forall|k: int|
            0 <= k < z.len() ==> #[trigger] depth_plotted(z, x, y, w, h, depth)[k] >= z[k],
        in_bounds(x, y, w, h) ==> depth_plotted(z, x, y, w, h, depth)[cell(x, y, w)] == if depth
            > z[cell(x, y, w)] {
            depth
        } else {
            z[cell(x, y, w)]
        },
{
    if in_bounds(x, y, w, h) {
        lemma_cell_nonneg(x, y, w, h);
    }
}

/// Offering the same sample twice leaves the depth buffer as offering it once.
pub proof fn lemma_plot_idempotent(z: Seq<i32>, x: i32, y: i32, w: usize, h: usize, depth: i32)
    requires
        cell_fits(z.len(), x, y, w, h),
    ensures
        depth_plotted(depth_plotted(z, x, y, w, h, depth), x, y, w, h, depth) == depth_plotted(
            z,
            x,
            y,
            w,
            h,
            depth,
        ),
{
    if in_bounds(x, y, w, h) {
        lemma_cell_nonneg(x, y, w, h);
    }
}

/// The depth buffer does not depend on the order in which two samples are
/// plotted: each cell ends up with the nearest depth offered to it.
pub proof fn lemma_plot_commutes(
    z: Seq<i32>,
    w: usize,
    h: usize,
    x1: i32,
    y1: i32,
    d1: i32,
    x2: i32,
    y2: i32,
    d2: i32,
)
    requires
        cell_fits(z.len(), x1, y1, w, h),
        cell_fits(z.len(), x2, y2, w, h),
    ensures
        depth_plotted(depth_plotted(z, x1, y1, w, h, d1), x2, y2, w, h, d2) == depth_plotted(
            depth_plotted(z, x2, y2, w, h, d2),
            x1,
            y1,
            w,
            h,
            d1,
        ),
{
    if in_bounds(x1, y1, w, h) {
        lemma_cell_nonneg(x1, y1, w, h);
    }
    if in_bounds(x2, y2, w, h) {
        lemma_cell_nonneg(x2, y2, w, h);
    }
    let a = depth_plotted(depth_plotted(z, x1, y1, w, h, d1), x2, y2, w, h, d2);
    let b = depth_plotted(depth_plotted(z, x2, y2, w, h, d2), x1, y1, w, h, d1);
    assert(a =~= b);
}

/// Depth margin by which the shadow map must beat a point for it to be
/// shaded; it keeps surfaces from shadowing themselves.
pub const SHADOW_BIAS: i32 = 32;

/// Whether the shadow map `lb` records something nearer to the light than
/// depth `ld` (by more than the bias) at shadow-map cell (`lx`, `ly`).
pub open spec fn spec_occluded(lb: Seq<i32>, lx: i32, ly: i32, ld: i32) -> bool {
    in_bounds(lx, ly, LWIDTH as usize, LHEIGHT as usize) && lb[cell(lx, ly, LWIDTH as usize)] > ld
        + SHADOW_BIAS
}

/// Shadow test against the light's depth map.
pub fn occluded(lb: &Vec<i32>, lx: i32, ly: i32, ld: i32) -> (r: bool)
    requires
        in_bounds(lx, ly, LWIDTH as usize, LHEIGHT as usize) ==> cell(lx, ly, LWIDTH as usize)
            < lb@.len() && ld + SHADOW_BIAS <= i32::MAX,
    ensures
        r == spec_occluded(lb@, lx, ly, ld),
{
    let lw = LWIDTH as usize;
    let lh = LHEIGHT as usize;
    if lx >= 0 && ly >= 0 && (lx as usize) < lw && (ly as usize) < lh {
        let len = lb.len();
        proof {
            lemma_cell_nonneg(lx, ly, lw, lh);
            assert(cell(lx, ly, lw) < len);
        }
        let lidx = ly as usize * lw + lx as usize;
        lb[lidx] > ld + SHADOW_BIAS
    } else {
        false
    }
}

/// `c` mixed 3:1 with `b`.
pub open spec fn mix_3_1(c: int, b: int) -> int {
    (3 * c + b) / 4
}

/// `c` mixed 1:1 with `b`.
pub open spec fn mix_1_1(c: int, b: int) -> int {
    (c + b) / 2
}

/// `c` doubled (the doubling wraps at 2^32) mixed with `b`, over three.
pub open spec fn mix_2_1(c: u32, b: int) -> int {
    ((2 * c) % 0x1_0000_0000 + b) / 3
}

/// The channels after the colour-correction mode `mode` mixed the
/// brightness `bright` into them: 0 leaves them, 1 (fluorescent) favours
/// red, any other (filament) favours blue.
pub open spec fn tinted(r: u32, g: u32, b: u32, bright: u32, mode: i32) -> (int, int, int) {
    if mode == 0 {
        (r as int, g as int, b as int)
    } else if mode == 1 {
        (mix_3_1(r as int, bright as int), mix_2_1(g, bright as int), mix_1_1(b as int, bright as int))
    } else {
        (mix_1_1(r as int, bright as int), mix_2_1(g, bright as int), mix_3_1(b as int, bright as int))
    }
}

/// The mixing of `tinted` stays within `u32`.
pub open spec fn tint_fits(r: u32, g: u32, b: u32, bright: u32, mode: i32) -> bool {
    mode == 0 || (if mode == 1 {
        3 * r + bright <= u32::MAX && b + bright <= u32::MAX
    } else {
        r + bright <= u32::MAX && 3 * b + bright <= u32::MAX
    } && (2 * g) % 0x1_0000_0000 + bright <= u32::MAX)
}

/// A tinted channel scaled by `bright / 256` and capped at 255.
pub open spec fn lit(t: int, bright: u32) -> u32 {
    let v = (t * bright) / 256;
    if v > 255 {
        255
    } else {
        v as u32
    }
}

/// Tints the colour (`r`, `g`, `b`) by correction mode `mode` and scales it
/// by the brightness `bright` (256 would be full scale), capping each
/// channel at 255.
pub fn shade(r: u32, g: u32, b: u32, bright: u32, mode: i32) -> (c: (u32, u32, u32))
    requires
        tint_fits(r, g, b, bright, mode),
        tinted(r, g, b, bright, mode).0 * bright <= u32::MAX,
        tinted(r, g, b, bright, mode).1 * bright <= u32::MAX,
        tinted(r, g, b, bright, mode).2 * bright <= u32::MAX,
    ensures
        c == (
            lit(tinted(r, g, b, bright, mode).0, bright),
            lit(tinted(r, g, b, bright, mode).1, bright),
            lit(tinted(r, g, b, bright, mode).2, bright),
        ),
{
    let mut cr = r;
    let mut cg = g;
    let mut cb = b;
    if mode != 0 {
        proof {
            assert(g << 1u32 == (2 * g) % 0x1_0000_0000) by (bit_vector);
        }
        if mode == 1 {
            cr = ((cr * 3) + bright) >> 2;
            cg = ((cg << 1) + bright) / 3;
            cb = (cb + bright) >> 1;
        } else {
            cr = (cr + bright) >> 1;
            cg = ((cg << 1) + bright) / 3;
            cb = ((cb * 3) + bright) >> 2;
        }
        proof {
            lemma_shr_is_div();
        }
    }
    let sr = (cr * bright) >> 8;
    let sg = (cg * bright) >> 8;
    let sb = (cb * bright) >> 8;
    proof {
        lemma_shr8_is_div(sr, (cr * bright) as u32);
        lemma_shr8_is_div(sg, (cg * bright) as u32);
        lemma_shr8_is_div(sb, (cb * bright) as u32);
    }
    (
        if sr < 255 { sr } else { 255 },
        if sg < 255 { sg } else { 255 },
        if sb < 255 { sb } else { 255 },
    )
}

proof fn lemma_shr_is_div()
    ensures
        forall|x: u32| #[trigger] (x >> 2u32) == x / 4,
        forall|x: u32| #[trigger] (x >> 1u32) == x / 2,
{
    assert forall|x: u32| #[trigger] (x >> 2u32) == x / 4 by {
        assert(x >> 2u32 == x / 4) by (bit_vector);
    }
    assert forall|x: u32| #[trigger] (x >> 1u32) == x / 2 by {
        assert(x >> 1u32 == x / 2) by (bit_vector);
    }
}

proof fn lemma_shr8_is_div(s: u32, p: u32)
    requires
        s == p >> 8u32,
    ensures
        s == p / 256,
{
    assert(s == p / 256) by (bit_vector)
        requires
            s == p >> 8u32,
    ;
}

/// Each corrected channel depends only on the same input channel and the
/// brightness: changing the other two channels leaves it as it is.
pub proof fn lemma_shade_channels_independent(
    r: u32,
    g: u32,
    b: u32,
    r2: u32,
    g2: u32,
    b2: u32,
    bright: u32,
    mode: i32,
)
    ensures
        tinted(r, g, b, bright, mode).0 == tinted(r, g2, b2, bright, mode).0,
        tinted(r, g, b, bright, mode).1 == tinted(r2, g, b2, bright, mode).1,
        tinted(r, g, b, bright, mode).2 == tinted(r2, g2, b, bright, mode).2,
{
}

/// The three corrections on channels whose double fits in `u32`: mode 0
/// keeps the colour; fluorescent (1) takes red 3:1, green 2:1 and blue 1:1
/// toward the brightness; filament (any other) takes red 1:1, green 2:1 and
/// blue 3:1. The result is each tinted channel times `bright / 256`, capped
/// at 255.
pub proof fn lemma_shade_modes(r: u32, g: u32, b: u32, bright: u32, mode: i32)
    requires
        2 * g < 0x1_0000_0000,
    ensures
        mode == 0 ==> tinted(r, g, b, bright, mode) == (r as int, g as int, b as int),
        mode == 1 ==> tinted(r, g, b, bright, mode) == ((3 * r + bright) / 4, (2 * g + bright) / 3, (b
            + bright) / 2),
        mode != 0 && mode != 1 ==> tinted(r, g, b, bright, mode) == ((r + bright) / 2, (2 * g
            + bright) / 3, (3 * b + bright) / 4),
        forall|t: int|
            t >= 0 ==> (#[trigger] lit(t, bright) as int == if t * bright / 256 > 255 {
                255
            } else {
                t * bright / 256
            }) && lit(t, bright) <= 255,
{
    assert((2 * g) % 0x1_0000_0000 == 2 * g);
    assert forall|t: int| t >= 0 implies (#[trigger] lit(t, bright) as int == if t * bright / 256
        > 255 {
        255
    } else {
        t * bright / 256
    }) && lit(t, bright) <= 255 by {
        assert(t * bright >= 0) by (nonlinear_arith)
            requires
                t >= 0,
        ;
    }
}

} // verus!
