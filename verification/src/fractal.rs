use vstd::prelude::*;
use rand::rngs::SmallRng;
use crate::color::{blue, green, red, lemma_channels_are_bytes};
use crate::constants::{fractal_color, spec_fractal_color, PALSIZE};
use crate::palette::{lemma_mask_is_mod, palsize, Palette};
use crate::rng::{gen_i32, gen_index, gen_ratio};
use vstd::arithmetic::power2::{pow2, lemma_pow2_pos, lemma_pow2_unfold};
use vstd::arithmetic::div_mod::lemma_div_denominator;

verus! {

/// How a symmetry mode moves the point. `Cycle` applies `turns` times the
/// cyclic map (x, y, z) -> (-y, z, x) and then negates all three
/// coordinates when `negate` holds; `QuarterTurn` maps (x, y) -> (-y, x);
/// `Flip` negates x, y, z where bit 2, 1, 0 of `mask` is set; `Fold` folds
/// the point into the xy half-plane and turns it into sector `sector` of three.
#[derive(Clone, Copy, PartialEq, Eq, Structural, Debug)]
pub enum SymOp {
    Cycle { turns: usize, negate: bool },
    QuarterTurn,
    Flip { mask: usize },
    Fold { sector: i32 },
}

/// What a symmetry mode decided for one iteration: the colouring rule
/// (`pmodi` 1 blends toward global colour number `coli`, one of the fractal
/// colours 4..=11; 0 blends toward the palette),
/// whether the palette index climbs (`palupflag`) and the move to apply.
#[derive(Clone, Copy, PartialEq, Eq, Structural, Debug)]
pub struct Symmetry {
    pub pmodi: u32,
    pub coli: usize,
    pub palupflag: bool,
    pub op: SymOp,
}

/// Global colour number of fold sector `sector`: `2 * sector + 4`, the
/// doubling wrapping in `i32` and a negative sum wrapping into `usize`.
pub open spec fn sector_color(sector: i32) -> usize {
    ((sector << 1i32) + 4) as usize
}

/// The decision of symmetry mode `x_mode` given the iteration's coin `duoi`,
/// the run's multiplier `smulti` and the mode's own draws `sector` (mode 1)
/// and `turn` (mode 6). Modes: 1 threefold fold, 2 quarter turn, 3 sixfold
/// turn, 4 repeated sixfold turn, 5 mirror flips, 6 turn and point
/// reflection, any other the point reflection alone.
pub open spec fn spec_symmetry(x_mode: i32, duoi: bool, smulti: usize, sector: i32, turn: bool) -> Symmetry {
    if x_mode == 1 {
        Symmetry { pmodi: 0, coli: sector_color(sector), palupflag: sector == 0, op: SymOp::Fold { sector } }
    } else if x_mode == 2 {
        Symmetry {
            pmodi: 0,
            coli: 0,
            palupflag: duoi,
            op: if duoi { SymOp::QuarterTurn } else { SymOp::Cycle { turns: 0, negate: false } },
        }
    } else if x_mode == 3 {
        Symmetry { pmodi: 0, coli: 0, palupflag: duoi, op: SymOp::Cycle { turns: if duoi { 1 } else { 0 }, negate: false } }
    } else if x_mode == 4 {
        let m: usize = if smulti > 6 { 0 } else { smulti };
        Symmetry { pmodi: 1, coli: (m + 4) as usize, palupflag: false, op: SymOp::Cycle { turns: m, negate: false } }
    } else if x_mode == 5 {
        let m = smulti as int % 8;
        Symmetry { pmodi: 1, coli: (m + 4) as usize, palupflag: false, op: SymOp::Flip { mask: m as usize } }
    } else if x_mode == 6 {
        Symmetry {
            pmodi: 0,
            coli: 0,
            palupflag: turn || duoi,
            op: SymOp::Cycle { turns: if turn { 1 } else { 0 }, negate: duoi },
        }
    } else {
        Symmetry { pmodi: 0, coli: 0, palupflag: duoi, op: SymOp::Cycle { turns: 0, negate: duoi } }
    }
}

/// The decision of symmetry mode `x_mode`, given the draws it needs.
pub fn symmetry_for(x_mode: i32, duoi: bool, smulti: usize, sector: i32, turn: bool) -> (s: Symmetry)
    requires
        x_mode == 1 ==> (sector << 1i32) + 4 <= i32::MAX,
    ensures
        s == spec_symmetry(x_mode, duoi, smulti, sector, turn),
{
    if x_mode == 1 {
        Symmetry { pmodi: 0, coli: ((sector << 1) + 4) as usize, palupflag: sector == 0, op: SymOp::Fold { sector } }
    } else if x_mode == 2 {
        Symmetry {
            pmodi: 0,
            coli: 0,
            palupflag: duoi,
            op: if duoi { SymOp::QuarterTurn } else { SymOp::Cycle { turns: 0, negate: false } },
        }
    } else if x_mode == 3 {
        Symmetry { pmodi: 0, coli: 0, palupflag: duoi, op: SymOp::Cycle { turns: if duoi { 1 } else { 0 }, negate: false } }
    } else if x_mode == 4 {
        let m: usize = if smulti > 6 { 0 } else { smulti };
        Symmetry { pmodi: 1, coli: m + 4, palupflag: false, op: SymOp::Cycle { turns: m, negate: false } }
    } else if x_mode == 5 {
        let m: usize = smulti & 0x07;
        proof {
            assert(smulti & 7usize == smulti % 8) by (bit_vector);
        }
        Symmetry { pmodi: 1, coli: m + 4, palupflag: false, op: SymOp::Flip { mask: m } }
    } else if x_mode == 6 {
        Symmetry {
            pmodi: 0,
            coli: 0,
            palupflag: turn || duoi,
            op: SymOp::Cycle { turns: if turn { 1 } else { 0 }, negate: duoi },
        }
    } else {
        Symmetry { pmodi: 0, coli: 0, palupflag: duoi, op: SymOp::Cycle { turns: 0, negate: duoi } }
    }
}

} // verus!

verus! {

/// The integer state of one fractal walker: its colour, its palette
/// indices, the run that fixes its symmetry coin, and the bit counter that
/// can replace that coin.
#[derive(Clone, Copy, PartialEq, Eq, Structural, Debug)]
pub struct FractalState {
    pub dcr: u8,
    pub dcg: u8,
    pub dcb: u8,
    /// Palette index of the point, in `0..=PALSIZE`.
    pub pali: usize,
    /// Palette index of the mirrored point.
    pub pali2: usize,
    /// Iterations left in the current run.
    pub repti: i32,
    pub maxrepti: i32,
    pub sduoi: bool,
    /// Multiplier of the current run, in `0..8` once a run has begun.
    pub smulti: usize,
    /// Bits left in `indxuse`; negative when the coin is random instead.
    pub indxn: i32,
    pub indxuse: usize,
    /// Counter whose successive values are spelled out bit by bit.
    pub indxs: usize,
    pub swapflag: bool,
    pub useswap: bool,
    pub last_pmodi: u32,
    pub last_coli: usize,
}

/// Number of bits of the counter that each refill spells out.
pub const INDEX_BITS: i32 = 24;

/// Half the sum of two bytes.
pub open spec fn halfway(a: int, b: int) -> int {
    (a + b) / 2
}

/// A quarter of the way from `b` to `a`, i.e. `(a + 3b) / 4`.
pub open spec fn three_quarters(a: int, b: int) -> int {
    (a + 3 * b) / 4
}

/// Entry of the fractal colour table that global colour number `coli`
/// names: global colours 4..=11 are entries 0..=7 (numbers wrap modulo 8).
pub open spec fn fractal_slot(coli: int) -> int {
    (coli + 4) % 8
}

/// The table entry of global colour number `coli`.
fn slot_of(coli: usize) -> (i: usize)
    ensures
        i as int == fractal_slot(coli as int),
        i < 8,
{
    proof {
        vstd::arithmetic::div_mod::lemma_add_mod_noop(coli as int, 4, 8);
    }
    (coli % 8 + 4) % 8
}

/// The walker colour `dc` after one blend: halfway toward global colour
/// `coli` (table entry `fractal_slot(coli)`) when `pmodi` is 1, otherwise three quarters of the way toward
/// the palette colour `pcolor`.
pub open spec fn blended(dc: (u8, u8, u8), pmodi: u32, coli: usize, pcolor: u32) -> (u8, u8, u8) {
    if pmodi == 1 {
        let c = spec_fractal_color(fractal_slot(coli as int));
        (
            halfway(dc.0 as int, c.0 as int) as u8,
            halfway(dc.1 as int, c.1 as int) as u8,
            halfway(dc.2 as int, c.2 as int) as u8,
        )
    } else {
        (
            three_quarters(dc.0 as int, red(pcolor) as int) as u8,
            three_quarters(dc.1 as int, green(pcolor) as int) as u8,
            three_quarters(dc.2 as int, blue(pcolor) as int) as u8,
        )
    }
}

/// The palette index moved a quarter of the way up toward `PALSIZE`.
pub open spec fn pali_climbed(pali: usize) -> int {
    pali + (palsize() - pali) / 4
}

/// The palette index moved a quarter of the way down toward 0.
pub open spec fn pali_decayed(pali: usize) -> int {
    pali - pali / 4
}

/// `x` reduced modulo 2^(bits of usize), as `wrapping_add` does.
pub open spec fn wrap_usize(x: int) -> usize {
    (x % (usize::MAX as int + 1)) as usize
}

/// The walker after the palette-index and colour updates that end an
/// iteration with symmetry decision `sym`; `palette` is the palette table.
pub open spec fn finished(s: FractalState, sym: Symmetry, palette: Seq<u32>) -> FractalState {
    let pali: usize = if sym.palupflag {
        pali_climbed(s.pali) as usize
    } else {
        pali_decayed(s.pali) as usize
    };
    let pali2: usize = if sym.palupflag {
        pali_decayed(pali) as usize
    } else {
        wrap_usize(s.pali2 + (palsize() - pali) / 4)
    };
    let c = blended((s.dcr, s.dcg, s.dcb), sym.pmodi, sym.coli, palette[pali as int % palsize()]);
    FractalState {
        dcr: c.0,
        dcg: c.1,
        dcb: c.2,
        pali,
        pali2,
        last_pmodi: sym.pmodi,
        last_coli: sym.coli,
        ..s
    }
}

/// One draw of the symmetry coin. With `indxn` negative the coin is the
/// caller's random `drawn`. Otherwise the coin is the low bit of `indxuse`
/// (inverted on every other draw when `useswap` holds), which is then
/// shifted out; when no bits are left, the counter `indxs` is advanced
/// and its new value supplies the next `INDEX_BITS` bits.
pub open spec fn duoi_step(s: FractalState, drawn: bool) -> (FractalState, bool) {
    if s.indxn < 0 {
        (s, drawn)
    } else {
        let s1 = if s.indxn == 0 {
            FractalState { indxs: (s.indxs + 1) as usize, indxuse: (s.indxs + 1) as usize, indxn: INDEX_BITS, ..s }
        } else {
            s
        };
        let bit = s1.indxuse % 2 == 1;
        let swapflag = if s1.useswap { !s1.swapflag } else { s1.swapflag };
        let duoi = if s1.useswap && swapflag { !bit } else { bit };
        (FractalState { swapflag, indxuse: s1.indxuse / 2, indxn: (s1.indxn - 1) as i32, ..s1 }, duoi)
    }
}

/// A fresh walker; `random_duoi` chooses a random symmetry coin over the bit counter.
pub open spec fn initial_state(maxrepti: i32, random_duoi: bool, useswap: bool) -> FractalState {
    FractalState {
        dcr: spec_fractal_color(0).0,
        dcg: spec_fractal_color(0).1,
        dcb: spec_fractal_color(0).2,
        pali: 0,
        pali2: 0,
        repti: -1i32,
        maxrepti,
        sduoi: false,
        smulti: 0,
        indxn: if random_duoi { -1i32 } else { 0i32 },
        indxuse: 0,
        indxs: 0,
        swapflag: false,
        useswap,
        last_pmodi: 0,
        last_coli: 0,
    }
}

/// The walker with a new run of `maxrepti` iterations begun.
pub open spec fn run_started(s: FractalState, maxrepti: i32, sduoi: bool, smulti: usize) -> FractalState {
    FractalState { repti: maxrepti, maxrepti, sduoi, smulti, ..s }
}

proof fn lemma_wrap_usize(x: int)
    requires
        0 <= x <= 2 * (usize::MAX as int),
    ensures
        wrap_usize(x) == if x > usize::MAX { x - (usize::MAX as int + 1) } else { x },
{
    let r = usize::MAX as int + 1;
    if x >= r {
        assert(x % r == x - r) by (nonlinear_arith)
            requires
                r <= x < 2 * r,
        ;
    } else {
        assert(x % r == x) by (nonlinear_arith)
            requires
                0 <= x < r,
        ;
    }
}

proof fn lemma_shifts_u32()
    ensures
        forall|x: u32| #[trigger] (x >> 1u32) == x / 2,
        forall|x: u32| #[trigger] (x >> 2u32) == x / 4,
        forall|x: u32| x <= 255 ==> #[trigger] (x & 0xFFu32) == x,
{
    assert forall|x: u32| #[trigger] (x >> 1u32) == x / 2 by {
        assert(x >> 1u32 == x / 2) by (bit_vector);
    }
    assert forall|x: u32| #[trigger] (x >> 2u32) == x / 4 by {
        assert(x >> 2u32 == x / 4) by (bit_vector);
    }
    assert forall|x: u32| x <= 255 implies #[trigger] (x & 0xFFu32) == x by {
        assert(x <= 255 ==> x & 0xFFu32 == x) by (bit_vector);
    }
}

proof fn lemma_shifts_usize()
    ensures
        forall|x: usize| #[trigger] (x >> 1usize) == x / 2,
        forall|x: usize| #[trigger] (x >> 2usize) == x / 4,
        forall|x: usize| #[trigger] (x & 1usize) == x % 2,
{
    assert forall|x: usize| #[trigger] (x >> 1usize) == x / 2 by {
        assert(x >> 1usize == x / 2) by (bit_vector);
    }
    assert forall|x: usize| #[trigger] (x >> 2usize) == x / 4 by {
        assert(x >> 2usize == x / 4) by (bit_vector);
    }
    assert forall|x: usize| #[trigger] (x & 1usize) == x % 2 by {
        assert(x & 1usize == x % 2) by (bit_vector);
    }
}

impl FractalState {
    /// The bounds a walker keeps from one iteration to the next: the palette
    /// index is below `PALSIZE`, runs are at most 127 iterations long (the
    /// run counter can still be decremented) and the run's multiplier is in `0..8`.
    pub open spec fn wf(&self) -> bool {
        &&& self.pali < PALSIZE
        &&& i32::MIN < self.repti <= 127
        &&& 0 <= self.maxrepti <= 127
        &&& self.smulti < 8
    }

    /// A fresh walker whose longest run is `maxrepti`; two coin flips of
    /// `rng` choose whether the symmetry coin is random and whether the
    /// bit counter's bits are inverted on alternate draws.
    pub fn new(rng: &mut SmallRng, maxrepti: i32) -> (s: Self)
        ensures
            s == initial_state(maxrepti, s.indxn == -1, s.useswap),
            0 <= maxrepti <= 127 ==> s.wf(),
    {
        let indxn: i32 = if gen_ratio(rng, 1, 2) { -1 } else { 0 };
        let useswap = gen_ratio(rng, 1, 2);
        let c = fractal_color(0);
        FractalState {
            dcr: c.0,
            dcg: c.1,
            dcb: c.2,
            pali: 0,
            pali2: 0,
            repti: -1,
            maxrepti,
            sduoi: false,
            smulti: 0,
            indxn,
            indxuse: 0,
            indxs: 0,
            swapflag: false,
            useswap,
            last_pmodi: 0,
            last_coli: 0,
        }
    }

    /// Counts down the current run; answers whether it is over, in which
    /// case the caller begins a new one.
    pub fn tick_run(&mut self) -> (expired: bool)
        requires
            old(self).repti > i32::MIN,
        ensures
            *final(self) == (FractalState { repti: (old(self).repti - 1) as i32, ..*old(self) }),
            expired == (final(self).repti <= 0),
    {
        self.repti = self.repti - 1;
        self.repti <= 0
    }

    /// Begins a run of `maxrepti` iterations; `rng` supplies the run's coin
    /// `sduoi` and its multiplier `smulti`, which lies in `0..8`.
    pub fn begin_run(&mut self, rng: &mut SmallRng, maxrepti: i32)
        ensures
            *final(self) == run_started(*old(self), maxrepti, final(self).sduoi, final(self).smulti),
            final(self).smulti < 8,
    {
        self.maxrepti = maxrepti;
        self.repti = maxrepti;
        self.sduoi = gen_ratio(rng, 1, 2);
        self.smulti = gen_index(rng, 0, 8);
    }

    /// Draws the iteration's symmetry coin; `drawn` is the caller's random
    /// coin, used only while `indxn` is negative.
    pub fn next_duoi(&mut self, drawn: bool) -> (duoi: bool)
        requires
            old(self).indxn == 0 ==> old(self).indxs < usize::MAX,
        ensures
            (*final(self), duoi) == duoi_step(*old(self), drawn),
    {
        if self.indxn < 0 {
            return drawn;
        }
        if self.indxn == 0 {
            self.indxs = self.indxs + 1;
            self.indxuse = self.indxs;
            self.indxn = INDEX_BITS;
        }
        proof {
            lemma_shifts_usize();
        }
        let duoi = if self.useswap {
            self.swapflag = !self.swapflag;
            if self.swapflag {
                (self.indxuse & 1) == 0
            } else {
                (self.indxuse & 1) != 0
            }
        } else {
            (self.indxuse & 1) != 0
        };
        self.indxuse = self.indxuse >> 1;
        self.indxn = self.indxn - 1;
        duoi
    }

    /// Makes the symmetry decision of mode `x_mode` for this iteration,
    /// drawing from `rng` what the mode needs: a sector in `0..3` for mode 1,
    /// a coin for mode 6.
    pub fn choose_symmetry(&self, rng: &mut SmallRng, x_mode: i32, duoi: bool) -> (s: Symmetry)
        ensures
            exists|sector: i32, turn: bool|
                0 <= sector < 3 && s == #[trigger] spec_symmetry(x_mode, duoi, self.smulti, sector, turn),
            x_mode != 1 && x_mode != 6 ==> *final(rng) == *old(rng),
    {
        let sector: i32 = if x_mode == 1 { gen_i32(rng, 0, 3) } else { 0 };
        proof {
            assert(0 <= sector < 3 ==> (sector << 1i32) + 4 <= i32::MAX) by (bit_vector);
        }
        let turn = if x_mode == 6 { gen_ratio(rng, 1, 2) } else { false };
        let s = symmetry_for(x_mode, duoi, self.smulti, sector, turn);
        assert(s == spec_symmetry(x_mode, duoi, self.smulti, sector, turn));
        s
    }

    /// Ends an iteration: moves the palette indices (up when `sym` raised
    /// the palette flag, down otherwise), blends the colour as `sym` says,
    /// and records `sym`'s colouring rule for the mirrored point.
    pub fn finish_step(&mut self, sym: &Symmetry, palette: &Palette)
        requires
            old(self).pali <= PALSIZE,
            palette.wf(),
        ensures
            *final(self) == finished(*old(self), *sym, palette.colors@),
            final(self).pali <= PALSIZE,
            old(self).pali < PALSIZE ==> final(self).pali < PALSIZE,
    {
        proof {
            lemma_shifts_usize();
        }
        if sym.palupflag {
            self.pali = self.pali.wrapping_add((PALSIZE - self.pali) >> 2);
            self.pali2 = self.pali.wrapping_sub(self.pali >> 2);
        } else {
            self.pali = self.pali.wrapping_sub(self.pali >> 2);
            let step = (PALSIZE - self.pali) >> 2;
            proof {
                lemma_wrap_usize(self.pali2 as int + step as int);
            }
            self.pali2 = self.pali2.wrapping_add(step);
        }
        proof {
            lemma_shifts_u32();
        }
        if sym.pmodi == 1 {
            let c = fractal_color(slot_of(sym.coli));
            self.dcr = ((self.dcr as u32 + c.0 as u32) >> 1) as u8;
            self.dcg = ((self.dcg as u32 + c.1 as u32) >> 1) as u8;
            self.dcb = ((self.dcb as u32 + c.2 as u32) >> 1) as u8;
        } else {
            let tcolor = palette.color_at(self.pali);
            proof {
                lemma_channels_are_bytes(tcolor);
            }
            let tr = (tcolor >> 16) & 0xFF;
            let tg = (tcolor >> 8) & 0xFF;
            let tb = tcolor & 0xFF;
            self.dcr = ((self.dcr as u32 + tr * 3) >> 2) as u8;
            self.dcg = ((self.dcg as u32 + tg * 3) >> 2) as u8;
            self.dcb = ((self.dcb as u32 + tb * 3) >> 2) as u8;
        }
        self.last_pmodi = sym.pmodi;
        self.last_coli = sym.coli;
    }
}

/// The colour of the mirrored point: the walker colour (`dcr`, `dcg`, `dcb`)
/// blended by colouring rule `pmodi` / `coli_idx` exactly as the walker's own
/// colour is, but reading the palette at the mirrored index `pali2`.
pub fn next_root_color(
    dcr: u8,
    dcg: u8,
    dcb: u8,
    pali2: usize,
    pmodi: u32,
    coli_idx: usize,
    palette: &Palette,
) -> (c: (u32, u32, u32))
    requires
        palette.wf(),
    ensures
        ({
            let b = blended((dcr, dcg, dcb), pmodi, coli_idx, palette.spec_color_at(pali2 as int));
            c == (b.0 as u32, b.1 as u32, b.2 as u32)
        }),
{
    proof {
        lemma_shifts_u32();
    }
    if pmodi == 1 {
        let c = fractal_color(slot_of(coli_idx));
        (
            ((dcr as u32 + c.0 as u32) >> 1) & 0xFF,
            ((dcg as u32 + c.1 as u32) >> 1) & 0xFF,
            ((dcb as u32 + c.2 as u32) >> 1) & 0xFF,
        )
    } else {
        let tcolor = palette.color_at(pali2);
        proof {
            lemma_channels_are_bytes(tcolor);
        }
        let tr = (tcolor >> 16) & 0xFF;
        let tg = (tcolor >> 8) & 0xFF;
        let tb = tcolor & 0xFF;
        (
            ((dcr as u32 + tr * 3) >> 2) & 0xFF,
            ((dcg as u32 + tg * 3) >> 2) & 0xFF,
            ((dcb as u32 + tb * 3) >> 2) & 0xFF,
        )
    }
}

/// The coins of `n` successive draws made without a random coin.
pub open spec fn duoi_run(s: FractalState, n: nat) -> Seq<bool>
    decreases n,
{
    if n == 0 {
        Seq::empty()
    } else {
        let (s1, d) = duoi_step(s, false);
        seq![d] + duoi_run(s1, (n - 1) as nat)
    }
}

/// Bit `k` of `u`.
pub open spec fn bit(u: int, k: nat) -> bool {
    (u / (pow2(k) as int)) % 2 == 1
}

/// Whether draw `k` after a refill is inverted: with `useswap`, every other
/// draw is, starting from the swap flag `swapflag` held at the refill.
pub open spec fn inverted(useswap: bool, swapflag: bool, k: nat) -> bool {
    useswap && (swapflag != (k % 2 == 0))
}

proof fn lemma_drain(t: FractalState, m: nat)
    requires
        t.indxn == m,
        m <= INDEX_BITS,
    ensures
        duoi_run(t, m).len() == m,
        forall|k: nat|
            k < m ==> #[trigger] duoi_run(t, m)[k as int] == (bit(t.indxuse as int, k) != inverted(
                t.useswap,
                t.swapflag,
                k,
            )),
    decreases m,
{
    if m > 0 {
        let (t1, d) = duoi_step(t, false);
        lemma_drain(t1, (m - 1) as nat);
        assert(duoi_run(t, m) == seq![d] + duoi_run(t1, (m - 1) as nat));
        assert(t1.indxuse == t.indxuse / 2);
        assert(t1.useswap == t.useswap);
        assert(t1.swapflag == (t.useswap != t.swapflag));
        assert(d == ((t.indxuse % 2 == 1) != (t.useswap && !t.swapflag)));
        assert forall|k: nat| k < m implies #[trigger] duoi_run(t, m)[k as int] == (bit(
            t.indxuse as int,
            k,
        ) != inverted(t.useswap, t.swapflag, k)) by {
            lemma_pow2_pos(k);
            if k == 0 {
                assert(pow2(0) == 1) by {
                    vstd::arithmetic::power2::lemma2_to64();
                }
                assert(duoi_run(t, m)[0] == d);
                assert(bit(t.indxuse as int, 0) == (t.indxuse % 2 == 1));
                assert(inverted(t.useswap, t.swapflag, 0) == (t.useswap && !t.swapflag));
            } else {
                let j = (k - 1) as nat;
                assert(duoi_run(t, m)[k as int] == duoi_run(t1, (m - 1) as nat)[j as int]);
                lemma_pow2_unfold(k);
                lemma_pow2_pos(j);
                lemma_div_denominator(t.indxuse as int, 2, pow2(j) as int);
                assert(bit(t1.indxuse as int, j) == bit(t.indxuse as int, k));
                assert(inverted(t1.useswap, t1.swapflag, j) == inverted(t.useswap, t.swapflag, k));
                assert(duoi_run(t1, (m - 1) as nat)[j as int] == (bit(t1.indxuse as int, j) != inverted(t1.useswap, t1.swapflag, j)));
            }
        }
    }
}

/// Unless the coin is random, each refill spells out the low `INDEX_BITS`
/// bits of the counter's new value, least significant first: draw `k` is
/// bit `k` of `indxs + 1`, inverted on alternate draws when `useswap` holds.
/// After those draws the counter is exhausted again.
pub proof fn lemma_refill_spells_counter(s: FractalState)
    requires
        s.indxn == 0,
        s.indxs < usize::MAX,
    ensures
        duoi_run(s, INDEX_BITS as nat).len() == INDEX_BITS,
        forall|k: nat|
            k < INDEX_BITS ==> #[trigger] duoi_run(s, INDEX_BITS as nat)[k as int] == (bit(
                s.indxs + 1,
                k,
            ) != inverted(s.useswap, s.swapflag, k)),
{
    let v = (s.indxs + 1) as usize;
    let t = FractalState { indxs: v, indxuse: v, indxn: INDEX_BITS, ..s };
    assert(duoi_step(s, false) == duoi_step(t, false));
    assert(duoi_run(s, INDEX_BITS as nat) == duoi_run(t, INDEX_BITS as nat));
    lemma_drain(t, INDEX_BITS as nat);
}

/// A whole iteration keeps the walker well-formed: counting the run down
/// (and beginning a new run of `maxrepti` iterations, with multiplier
/// `smulti`, when it is over), drawing the symmetry coin and finishing with
/// any decision `sym`. Each step's own precondition holds on the way, so
/// nothing overflows except the bit counter after `usize::MAX` refills.
pub proof fn lemma_iteration_keeps_wf(
    s: FractalState,
    maxrepti: i32,
    sduoi: bool,
    smulti: usize,
    drawn: bool,
    sym: Symmetry,
    palette: Seq<u32>,
)
    requires
        s.wf(),
        0 <= maxrepti <= 127,
        smulti < 8,
    ensures
        s.repti > i32::MIN,
        ({
            let t = FractalState { repti: (s.repti - 1) as i32, ..s };
            let u = if t.repti <= 0 {
                run_started(t, maxrepti, sduoi, smulti)
            } else {
                t
            };
            let v = duoi_step(u, drawn).0;
            &&& v.pali <= PALSIZE
            &&& finished(v, sym, palette).wf()
        }),
{
}

/// Whether a move changes the point at all.
pub open spec fn moves(op: SymOp) -> bool {
    match op {
        SymOp::Cycle { turns, negate } => turns != 0 || negate,
        SymOp::QuarterTurn => true,
        SymOp::Flip { mask } => mask != 0,
        SymOp::Fold { sector } => true,
    }
}

/// What each symmetry mode decides. In the modes that colour from the
/// palette by reflection or turning (0, 2, 3, 6 and any unknown mode) the
/// palette index climbs exactly when the point is moved, which is exactly
/// when the iteration's coin (or, in mode 6, the mode's own coin) says so.
/// The repeated-turn mode (4) turns at most six times and the mirror mode
/// (5) flips by the low three bits of the multiplier; both colour from the
/// fractal colours, the colour's table entry being the turn count or flip
/// mask, and never raise the palette flag. The fold mode (1) raises it for
/// sector 0 only.
pub proof fn lemma_symmetry_decisions(x_mode: i32, duoi: bool, smulti: usize, sector: i32, turn: bool)
    ensures
        ({
            let d = spec_symmetry(x_mode, duoi, smulti, sector, turn);
            &&& (x_mode != 1 && x_mode != 4 && x_mode != 5) ==> d.pmodi == 0 && d.coli == 0
                && d.palupflag == moves(d.op)
            &&& (x_mode != 1 && x_mode != 2 && x_mode != 3 && x_mode != 4 && x_mode != 5 && x_mode
                != 6) ==> (moves(d.op) == duoi && d.op == SymOp::Cycle { turns: 0, negate: duoi })
            &&& x_mode == 2 ==> moves(d.op) == duoi && (duoi ==> d.op == SymOp::QuarterTurn)
            &&& x_mode == 3 ==> d.palupflag == duoi && moves(d.op) == duoi && (duoi ==> d.op
                == SymOp::Cycle { turns: 1, negate: false })
            &&& x_mode == 6 ==> d.palupflag == (duoi || turn) && d.op == SymOp::Cycle {
                turns: if turn { 1 } else { 0 },
                negate: duoi,
            }
            &&& x_mode == 4 ==> d.pmodi == 1 && !d.palupflag && (d.op matches SymOp::Cycle {
                turns,
                negate,
            } && !negate && turns <= 6 && d.coli == turns + 4 && (smulti <= 6 ==> turns == smulti)
                && (smulti > 6 ==> turns == 0))
            &&& x_mode == 5 ==> d.pmodi == 1 && !d.palupflag && (d.op matches SymOp::Flip { mask }
                && mask < 8 && mask == smulti % 8 && d.coli == mask + 4)
            &&& x_mode == 1 ==> d.pmodi == 0 && d.palupflag == (sector == 0) && d.op
                == SymOp::Fold { sector }
        }),
{
}

/// With the palette colouring rule, the walker's new colour is, channel by
/// channel, three quarters of the way toward the palette entry at its *new*
/// index `pali` (whichever way the index moved); the mirrored index `pali2`
/// plays no part in it. With the fractal rule and global colour `coli` in
/// 4..=11, each channel goes halfway toward table colour `coli - 4`.
pub proof fn lemma_finish_colours(s: FractalState, sym: Symmetry, palette: Seq<u32>, other_pali2: usize)
    requires
        s.pali <= PALSIZE,
        palette.len() >= palsize(),
    ensures
        ({
            let f = finished(s, sym, palette);
            let pc = palette[f.pali as int % palsize()];
            &&& sym.pmodi != 1 ==> f.dcr == (s.dcr + 3 * red(pc)) / 4 && f.dcg == (s.dcg + 3 * green(
                pc,
            )) / 4 && f.dcb == (s.dcb + 3 * blue(pc)) / 4
            &&& (sym.pmodi == 1 && 4 <= sym.coli < 12) ==> f.dcr == (s.dcr + spec_fractal_color(
                sym.coli - 4,
            ).0) / 2 && f.dcg == (s.dcg + spec_fractal_color(sym.coli - 4).1) / 2 && f.dcb == (s.dcb
                + spec_fractal_color(sym.coli - 4).2) / 2
            &&& f.pali == finished(FractalState { pali2: other_pali2, ..s }, sym, palette).pali
            &&& (f.dcr, f.dcg, f.dcb) == {
                let g = finished(FractalState { pali2: other_pali2, ..s }, sym, palette);
                (g.dcr, g.dcg, g.dcb)
            }
        }),
{
    let f = finished(s, sym, palette);
    let pc = palette[f.pali as int % palsize()];
    lemma_channels_are_bytes(pc);
}

/// The palette index climbs a quarter of the way to `PALSIZE` when the flag
/// is raised and decays by a quarter otherwise; after a climb the mirrored
/// index sits a quarter below the new index.
pub proof fn lemma_finish_indices(s: FractalState, sym: Symmetry, palette: Seq<u32>)
    requires
        s.pali <= PALSIZE,
    ensures
        ({
            let f = finished(s, sym, palette);
            &&& sym.palupflag ==> s.pali <= f.pali <= PALSIZE && f.pali - s.pali == (PALSIZE
                - s.pali) / 4 && f.pali2 == f.pali - f.pali / 4
            &&& !sym.palupflag ==> f.pali <= s.pali && s.pali - f.pali == s.pali / 4
        }),
{
}

} // verus!
