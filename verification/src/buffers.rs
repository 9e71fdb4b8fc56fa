use vstd::prelude::*;
use crate::color::{blue, green, pack_rgb, red, rgb, lemma_channels_are_bytes};
use crate::constants::{BHEIGHT, BWIDTH, HEIGHT, LHEIGHT, LWIDTH, WIDTH, ZDEPTH};

verus! {

/// Screen width and height as mathematical integers.
pub open spec fn screen_w() -> int {
    WIDTH as int
}

pub open spec fn screen_h() -> int {
    HEIGHT as int
}

/// Width and height of the 2x2-supersampled view buffer.
pub open spec fn view_w() -> int {
    BWIDTH as int
}

pub open spec fn view_h() -> int {
    BHEIGHT as int
}

/// Width and height of the shadow map.
pub open spec fn light_w() -> int {
    LWIDTH as int
}

pub open spec fn light_h() -> int {
    LHEIGHT as int
}

/// Average of four bytes, rounded down.
pub open spec fn avg4(a: u32, b: u32, c: u32, d: u32) -> int {
    (a + b + c + d) / 4
}

/// The colour whose every channel is the (floored) mean of that channel
/// over the four given colours.
pub open spec fn box_filter(c0: u32, c1: u32, c2: u32, c3: u32) -> u32 {
    rgb(
        avg4(red(c0), red(c1), red(c2), red(c3)),
        avg4(green(c0), green(c1), green(c2), green(c3)),
        avg4(blue(c0), blue(c1), blue(c2), blue(c3)),
    )
}

/// The screen pixel at (`sx`, `sy`) that the view buffer `pict` resolves to:
/// the box filter of the 2x2 block whose top-left corner is (`2 sx`, `2 sy`).
pub open spec fn resolved_pixel(pict: Seq<u32>, sx: int, sy: int) -> u32 {
    let row0 = 2 * sy * view_w();
    let row1 = (2 * sy + 1) * view_w();
    let px = 2 * sx;
    box_filter(pict[row0 + px], pict[row0 + px + 1], pict[row1 + px], pict[row1 + px + 1])
}

/// The screen, the supersampled view with its depth buffer, and the shadow map.
pub struct Framebuffers {
    /// Final image, `width * height` packed colours, row-major.
    pub screen: Vec<u32>,
    /// Supersampled view, `BWIDTH * BHEIGHT` packed colours.
    pub pict: Vec<u32>,
    /// Depth of each view sample; larger is nearer, 0 is empty.
    pub zbuf: Vec<i32>,
    /// Depth seen from the light, `LWIDTH * LHEIGHT` entries.
    pub light: Vec<i32>,
    pub width: usize,
    pub height: usize,
}

/// Sets every element of `v` to `x`.
fn fill<T: Copy>(v: &mut Vec<T>, x: T)
    ensures
        final(v)@ == Seq::new(old(v)@.len(), |i: int| x),
{
    let n = v.len();
    let mut i: usize = 0;
    while i < n
        invariant
            n == v@.len(),
            n == old(v)@.len(),
            i <= n,
            forall|k: int| 0 <= k < i ==> v@[k] == x,
        decreases n - i,
    {
        v.set(i, x);
        i = i + 1;
    }
    assert(v@ =~= Seq::new(old(v)@.len(), |k: int| x));
}

impl Framebuffers {
    /// Every buffer has the size of the image it holds.
    pub open spec fn wf(&self) -> bool {
        &&& self.width == screen_w()
        &&& self.height == screen_h()
        &&& self.screen@.len() == screen_w() * screen_h()
        &&& self.pict@.len() == view_w() * view_h()
        &&& self.zbuf@.len() == view_w() * view_h()
        &&& self.light@.len() == light_w() * light_h()
    }

    /// Buffers of the fixed window, view and shadow-map sizes, all zero.
    pub fn new() -> (fb: Self)
        ensures
            fb.wf(),
            forall|i: int| 0 <= i < fb.screen@.len() ==> fb.screen@[i] == 0,
            forall|i: int| 0 <= i < fb.pict@.len() ==> fb.pict@[i] == 0,
            forall|i: int| 0 <= i < fb.zbuf@.len() ==> fb.zbuf@[i] == 0,
            forall|i: int| 0 <= i < fb.light@.len() ==> fb.light@[i] == 0,
    {
        let width = WIDTH as usize;
        let height = HEIGHT as usize;
        let pict_w = if (BWIDTH as usize) < width { width } else { BWIDTH as usize };
        let pict_h = if (BHEIGHT as usize) < height { height } else { BHEIGHT as usize };
        let light_w = LWIDTH as usize;
        let light_h = LHEIGHT as usize;
        Framebuffers {
            screen: vec![0u32; width * height],
            pict: vec![0u32; pict_w * pict_h],
            zbuf: vec![0i32; pict_w * pict_h],
            light: vec![0i32; light_w * light_h],
            width,
            height,
        }
    }

    /// Fills the view with `rgb` and empties its depth buffer.
    pub fn clear_view(&mut self, rgb: u32)
        ensures
            final(self).pict@ == Seq::new(old(self).pict@.len(), |i: int| rgb),
            final(self).zbuf@ == Seq::new(old(self).zbuf@.len(), |i: int| 0i32),
            final(self).screen == old(self).screen,
            final(self).light == old(self).light,
            final(self).width == old(self).width,
            final(self).height == old(self).height,
            old(self).wf() ==> final(self).wf(),
    {
        fill(&mut self.pict, rgb);
        fill(&mut self.zbuf, 0);
    }

    /// Fills the screen with `rgb`.
    pub fn clear_screen(&mut self, rgb: u32)
        ensures
            final(self).screen@ == Seq::new(old(self).screen@.len(), |i: int| rgb),
            final(self).pict == old(self).pict,
            final(self).zbuf == old(self).zbuf,
            final(self).light == old(self).light,
            final(self).width == old(self).width,
            final(self).height == old(self).height,
            old(self).wf() ==> final(self).wf(),
    {
        fill(&mut self.screen, rgb);
    }

    /// Sets every depth of the view to `ZDEPTH`.
    pub fn clear_z(&mut self)
        ensures
            final(self).zbuf@ == Seq::new(old(self).zbuf@.len(), |i: int| ZDEPTH),
            final(self).screen == old(self).screen,
            final(self).pict == old(self).pict,
            final(self).light == old(self).light,
            final(self).width == old(self).width,
            final(self).height == old(self).height,
            old(self).wf() ==> final(self).wf(),
    {
        fill(&mut self.zbuf, ZDEPTH);
    }

    /// Empties the shadow map.
    pub fn clear_light(&mut self)
        ensures
            final(self).light@ == Seq::new(old(self).light@.len(), |i: int| 0i32),
            final(self).screen == old(self).screen,
            final(self).pict == old(self).pict,
            final(self).zbuf == old(self).zbuf,
            final(self).width == old(self).width,
            final(self).height == old(self).height,
            old(self).wf() ==> final(self).wf(),
    {
        fill(&mut self.light, 0);
    }

    /// Downsamples the 2x2-supersampled view onto the `width` by `height`
    /// screen: each screen pixel gets, channel by channel, the floored mean
    /// of its four samples. Screen entries past `width * height` are kept.
    pub fn resolve_2x2_to_screen(&mut self)
        requires
            2 * old(self).width <= view_w(),
            2 * old(self).height <= view_h(),
            old(self).pict@.len() >= view_w() * view_h(),
            old(self).screen@.len() >= old(self).width * old(self).height,
        ensures
            final(self).pict == old(self).pict,
            final(self).zbuf == old(self).zbuf,
            final(self).light == old(self).light,
            final(self).width == old(self).width,
            final(self).height == old(self).height,
            final(self).screen@.len() == old(self).screen@.len(),
            forall|sy: int, sx: int|
                0 <= sy < old(self).height && 0 <= sx < old(self).width ==> #[trigger] final(self).screen@[sy * old(self).width + sx] == resolved_pixel(old(self).pict@, sx, sy),
            forall|k: int|
                old(self).width * old(self).height <= k < old(self).screen@.len() ==> #[trigger] final(self).screen@[k] == old(self).screen@[k],
            old(self).wf() ==> final(self).wf(),
    {
        let pict_w = BWIDTH as usize;
        let width = self.width;
        let height = self.height;
        let len = self.screen.len();
        let mut sy: usize = 0;
        while sy < height
            invariant
                width == old(self).width,
                height == old(self).height,
                2 * width <= view_w(),
                2 * height <= view_h(),
                pict_w == view_w(),
                self.pict@.len() >= view_w() * view_h(),
                len == self.screen@.len(),
                len == old(self).screen@.len(),
                len >= width * height,
                sy <= height,
                self.width == width,
                self.height == height,
                self.pict == old(self).pict,
                self.zbuf == old(self).zbuf,
                self.light == old(self).light,
                forall|i: int, j: int|
                    0 <= i < sy && 0 <= j < width ==> #[trigger] self.screen@[i * width + j]
                        == resolved_pixel(self.pict@, j, i),
                forall|k: int|
                    sy * width <= k < len ==> #[trigger] self.screen@[k] == old(self).screen@[k],
            decreases height - sy,
        {
            let py = sy * 2;
            let row0 = py * pict_w;
            let row1 = (py + 1) * pict_w;
            let mut sx: usize = 0;
            while sx < width
                invariant
                    width == old(self).width,
                    height == old(self).height,
                    2 * width <= view_w(),
                    2 * height <= view_h(),
                    pict_w == view_w(),
                    self.pict@.len() >= view_w() * view_h(),
                    len == self.screen@.len(),
                    len == old(self).screen@.len(),
                    len >= width * height,
                    sy < height,
                    sx <= width,
                    py == 2 * sy,
                    row0 == 2 * sy * view_w(),
                    row1 == (2 * sy + 1) * view_w(),
                    self.width == width,
                    self.height == height,
                    self.pict == old(self).pict,
                    self.zbuf == old(self).zbuf,
                    self.light == old(self).light,
                    forall|i: int, j: int|
                        0 <= i < sy && 0 <= j < width ==> #[trigger] self.screen@[i * width + j]
                            == resolved_pixel(self.pict@, j, i),
                    forall|j: int|
                        0 <= j < sx ==> #[trigger] self.screen@[sy * width + j] == resolved_pixel(
                            self.pict@,
                            j,
                            sy as int,
                        ),
                    forall|k: int|
                        sy * width + sx <= k < len ==> #[trigger] self.screen@[k] == old(self).screen@[k],
                decreases width - sx,
            {
                let px = sx * 2;
                proof {
                    lemma_block_in_view(sy as int, sx as int);
                    lemma_grid(sy as int, sx as int, width as int, height as int);
                    assert(view_w() == 1600 && view_h() == 1200);
                    assert(view_w() * view_h() == 1_920_000);
                    assert(row1 + px + 1 < view_w() * view_h());
                    assert(row0 + px + 1 < view_w() * view_h());
                }
                let c0 = self.pict[row0 + px];
                let c1 = self.pict[row0 + px + 1];
                let c2 = self.pict[row1 + px];
                let c3 = self.pict[row1 + px + 1];
                proof {
                    lemma_channels_are_bytes(c0);
                    lemma_channels_are_bytes(c1);
                    lemma_channels_are_bytes(c2);
                    lemma_channels_are_bytes(c3);
                }
                let rs = ((c0 >> 16) & 0xFF) + ((c1 >> 16) & 0xFF) + ((c2 >> 16) & 0xFF) + ((c3
                    >> 16) & 0xFF);
                let gs = ((c0 >> 8) & 0xFF) + ((c1 >> 8) & 0xFF) + ((c2 >> 8) & 0xFF) + ((c3 >> 8)
                    & 0xFF);
                let bs = (c0 & 0xFF) + (c1 & 0xFF) + (c2 & 0xFF) + (c3 & 0xFF);
                proof {
                    lemma_shr2(rs);
                    lemma_shr2(gs);
                    lemma_shr2(bs);
                }
                let r = rs >> 2;
                let g = gs >> 2;
                let b = bs >> 2;
                let col = pack_rgb(r, g, b);
                assert(col == resolved_pixel(self.pict@, sx as int, sy as int));
                let idx = sy * width + sx;
                let ghost before = self.screen@;
                self.screen.set(idx, col);
                proof {
                    assert forall|i: int, j: int|
                        0 <= i < sy && 0 <= j < width implies #[trigger] self.screen@[i * width + j]
                        == resolved_pixel(self.pict@, j, i) by {
                        lemma_rows_ordered(i, j, sy as int, width as int);
                        assert(self.screen@[i * width + j] == before[i * width + j]);
                    }
                }
                sx = sx + 1;
            }
            proof {
                lemma_grid(sy as int, 0, width as int, height as int);
            }
            sy = sy + 1;
        }
        proof {
            assert(height * width == width * height) by (nonlinear_arith);
        }
    }
}

/// Cell (`j`, `i`) of a `w` by `h` grid has a row-major index below the
/// next row's start, and the rows end within `w * h`.
proof fn lemma_grid(i: int, j: int, w: int, h: int)
    requires
        0 <= i < h,
        0 <= j <= w,
    ensures
        0 <= i * w <= i * w + j <= (i + 1) * w <= h * w,
        (i + 1) * w == i * w + w,
{
    assert(0 <= i * w <= i * w + j <= (i + 1) * w <= h * w && (i + 1) * w == i * w + w)
        by (nonlinear_arith)
        requires
            0 <= i < h,
            0 <= j <= w,
    ;
}

/// Cells of earlier rows come before row `sy`.
proof fn lemma_rows_ordered(i: int, j: int, sy: int, w: int)
    requires
        0 <= i < sy,
        0 <= j < w,
    ensures
        i * w + j < sy * w,
{
    assert(i * w + j < sy * w) by (nonlinear_arith)
        requires
            0 <= i < sy,
            0 <= j < w,
    ;
}

/// The 2x2 block under screen pixel (`sx`, `sy`) lies inside the view buffer.
proof fn lemma_block_in_view(sy: int, sx: int)
    requires
        0 <= sy < screen_h(),
        0 <= sx < screen_w(),
    ensures
        0 <= 2 * sy * view_w() + 2 * sx,
        (2 * sy + 1) * view_w() + 2 * sx + 1 < view_w() * view_h(),
        2 * sy * view_w() + 2 * sx + 1 < (2 * sy + 1) * view_w(),
{
    assert(0 <= 2 * sy * 1600 + 2 * sx) by (nonlinear_arith)
        requires
            0 <= sy,
            0 <= sx,
    ;
    assert((2 * sy + 1) * 1600 + 2 * sx + 1 < 1600 * 1200) by (nonlinear_arith)
        requires
            0 <= sy < 600,
            0 <= sx < 800,
    ;
    assert(2 * sy * 1600 + 2 * sx + 1 < (2 * sy + 1) * 1600) by (nonlinear_arith)
        requires
            0 <= sx < 800,
    ;
}

/// A view cleared to one colour resolves to that colour (its low three
/// bytes) on every screen pixel.
pub proof fn lemma_resolve_uniform(c: u32, sx: int, sy: int)
    requires
        0 <= sy < screen_h(),
        0 <= sx < screen_w(),
    ensures
        resolved_pixel(Seq::new((view_w() * view_h()) as nat, |i: int| c), sx, sy) == c
            & 0xFF_FFFFu32,
{
    lemma_block_in_view(sy, sx);
    lemma_channels_are_bytes(c);
    let (r, g, b) = (red(c), green(c), blue(c));
    assert(avg4(r, r, r, r) == r);
    assert(avg4(g, g, g, g) == g);
    assert(avg4(b, b, b, b) == b);
    assert(((c >> 16u32) & 0xFFu32) * 0x10000 + ((c >> 8u32) & 0xFFu32) * 0x100 + (c & 0xFFu32)
        == c & 0xFF_FFFFu32) by (bit_vector);
}

/// The box filter works channel by channel: each channel of the result is
/// the floored mean of that channel of the four samples, lies between their
/// least and greatest value, and does not depend on the other channels.
pub proof fn lemma_box_filter_channels(c0: u32, c1: u32, c2: u32, c3: u32)
    ensures
        red(box_filter(c0, c1, c2, c3)) == (red(c0) + red(c1) + red(c2) + red(c3)) / 4,
        green(box_filter(c0, c1, c2, c3)) == (green(c0) + green(c1) + green(c2) + green(c3)) / 4,
        blue(box_filter(c0, c1, c2, c3)) == (blue(c0) + blue(c1) + blue(c2) + blue(c3)) / 4,
        box_filter(c0, c1, c2, c3) >> 24u32 == 0,
{
    lemma_channels_are_bytes(c0);
    lemma_channels_are_bytes(c1);
    lemma_channels_are_bytes(c2);
    lemma_channels_are_bytes(c3);
    let r = ((red(c0) + red(c1) + red(c2) + red(c3)) / 4) as u32;
    let g = ((green(c0) + green(c1) + green(c2) + green(c3)) / 4) as u32;
    let b = ((blue(c0) + blue(c1) + blue(c2) + blue(c3)) / 4) as u32;
    crate::color::lemma_pack(r, g, b);
    let c = rgb(r as int, g as int, b as int);
    assert(c >> 24u32 == 0) by (bit_vector)
        requires
            c == (r << 16u32) | (g << 8u32) | b,
            r <= 255,
            g <= 255,
            b <= 255,
    ;
}

/// A right shift by two is a division by four.
proof fn lemma_shr2(x: u32)
    ensures
        x >> 2u32 == x / 4,
{
    assert(x >> 2u32 == x / 4) by (bit_vector);
}

} // verus!
