use vstd::prelude::*;
use crate::constants::PALSIZE;

verus! {

/// Palette entries as a mathematical integer.
pub open spec fn palsize() -> int {
    PALSIZE as int
}

/// The palette phase that an accumulator value selects.
pub open spec fn phase(accum: u32) -> int {
    accum as int % palsize()
}

/// The accumulator after one step: three more, wrapping at 2^32.
pub open spec fn next_accum(accum: u32) -> u32 {
    ((accum as int + 3) % 0x1_0000_0000) as u32
}

/// A table of `PALSIZE` packed colours and the phase accumulator that
/// cycles through it.
pub struct Palette {
    pub colors: Vec<u32>,
    pub offset_accum: u32,
}

impl Palette {
    /// The table has at least `PALSIZE` entries (only the first `PALSIZE`
    /// are ever read).
    pub open spec fn wf(&self) -> bool {
        self.colors@.len() >= palsize()
    }

    /// The colour that index `idx` selects, wrapping around the table.
    pub open spec fn spec_color_at(&self, idx: int) -> u32 {
        self.colors@[idx % palsize()]
    }

    /// An all-black palette at phase 0.
    pub fn new() -> (p: Self)
        ensures
            p.wf(),
            p.colors@.len() == palsize(),
            p.offset_accum == 0,
            forall|i: int| 0 <= i < palsize() ==> p.colors@[i] == 0,
    {
        Palette { colors: vec![0u32; PALSIZE], offset_accum: 0 }
    }

    /// Advances the phase accumulator by three (wrapping) and returns the
    /// palette phase it now selects.
    pub fn offset(&mut self) -> (r: u32)
        ensures
            final(self).offset_accum == next_accum(old(self).offset_accum),
            r == phase(final(self).offset_accum),
            r < PALSIZE,
            final(self).colors == old(self).colors,
    {
        self.offset_accum = self.offset_accum.wrapping_add(3);
        let a = self.offset_accum;
        proof {
            assert(a & 8191u32 == a % 8192) by (bit_vector);
        }
        a & (PALSIZE as u32 - 1)
    }

    /// The colour at `idx`, wrapping the index around the table.
    pub fn color_at(&self, idx: usize) -> (c: u32)
        requires
            self.wf(),
        ensures
            c == self.spec_color_at(idx as int),
    {
        proof {
            lemma_mask_is_mod(idx);
        }
        self.colors[idx & (PALSIZE - 1)]
    }
}

/// Masking with `PALSIZE - 1` wraps an index around the palette.
pub proof fn lemma_mask_is_mod(idx: usize)
    ensures
        idx & 8191usize == idx as int % palsize(),
        idx & 8191usize < PALSIZE,
{
    assert(idx & 8191usize == idx % 8192 && idx & 8191usize < 8192) by (bit_vector);
}

/// Each call of `offset` moves the selected phase three entries further,
/// wrapping around the palette: the accumulator's wrap at 2^32 never
/// breaks the cycle, since `PALSIZE` divides 2^32.
pub proof fn lemma_offset_steps_by_three(accum: u32)
    ensures
        phase(next_accum(accum)) == (phase(accum) + 3) % palsize(),
{
    let a = accum as int;
    if a + 3 >= 0x1_0000_0000 {
        assert((a + 3 - 0x1_0000_0000) % 8192 == (a % 8192 + 3) % 8192) by (nonlinear_arith)
            requires
                0 <= a < 0x1_0000_0000,
        ;
    } else {
        assert((a + 3) % 8192 == (a % 8192 + 3) % 8192) by (nonlinear_arith)
            requires
                0 <= a,
        ;
    }
}

} // verus!
