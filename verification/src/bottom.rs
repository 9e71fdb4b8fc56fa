use vstd::prelude::*;
use rand::rngs::SmallRng;
use crate::constants::{bottom_color, spec_bottom_color};
use crate::rng::{gen_index, seeded};

verus! {

/// The colour and the random source of the walker that scatters points
/// over the bottom plane.
pub struct BottomState {
    pub bcr: u32,
    pub bcg: u32,
    pub bcb: u32,
    pub rng: SmallRng,
}

/// Channel `c` blended halfway toward corner channel `t`, kept to a byte.
pub open spec fn toward_corner(c: u32, t: u8) -> u32 {
    (((c + t) / 2) % 256) as u32
}

impl BottomState {
    /// A walker of corner-0 colour whose generator is seeded with `seed`.
    pub fn new(seed: u64) -> (s: Self)
        ensures
            s.bcr == spec_bottom_color(0).0,
            s.bcg == spec_bottom_color(0).1,
            s.bcb == spec_bottom_color(0).2,
    {
        let c = bottom_color(0);
        BottomState { bcr: c.0 as u32, bcg: c.1 as u32, bcb: c.2 as u32, rng: seeded(seed) }
    }

    /// Starts the walker afresh from `seed`.
    pub fn reseed(&mut self, seed: u64)
        ensures
            final(self).bcr == spec_bottom_color(0).0,
            final(self).bcg == spec_bottom_color(0).1,
            final(self).bcb == spec_bottom_color(0).2,
    {
        *self = Self::new(seed);
    }

    /// Picks the corner the walker jumps toward this step (some `bi` in
    /// `0..4`, drawn from the walker's generator) and blends the colour
    /// halfway toward that corner's colour.
    pub fn step_color(&mut self) -> (bi: usize)
        requires
            old(self).bcr + 0x90 <= u32::MAX,
            old(self).bcg + 0x90 <= u32::MAX,
            old(self).bcb + 0x90 <= u32::MAX,
        ensures
            bi < 4,
            final(self).bcr == toward_corner(old(self).bcr, spec_bottom_color(bi as int).0),
            final(self).bcg == toward_corner(old(self).bcg, spec_bottom_color(bi as int).1),
            final(self).bcb == toward_corner(old(self).bcb, spec_bottom_color(bi as int).2),
            old(self).bcr <= 255 && old(self).bcg <= 255 && old(self).bcb <= 255 ==> final(self).bcr <= 255 && final(self).bcg <= 255 && final(self).bcb <= 255,
            old(self).bcr == old(self).bcg && old(self).bcg == old(self).bcb ==> final(self).bcr
                == final(self).bcg && final(self).bcg == final(self).bcb,
    {
        let bi = gen_index(&mut self.rng, 0, 4);
        let tc = bottom_color(bi);
        proof {
            assert forall|x: u32| #[trigger] ((x >> 1u32) & 0xFFu32) == (x / 2) % 256 by {
                assert((x >> 1u32) & 0xFFu32 == (x / 2) % 256) by (bit_vector);
            }
        }
        self.bcr = ((self.bcr + tc.0 as u32) >> 1) & 0xFF;
        self.bcg = ((self.bcg + tc.1 as u32) >> 1) & 0xFF;
        self.bcb = ((self.bcb + tc.2 as u32) >> 1) & 0xFF;
        bi
    }
}

/// A byte-sized channel blended toward a corner lands halfway between the
/// two, rounded down: never past either of them.
pub proof fn lemma_toward_corner_halfway(c: u32, t: u8)
    requires
        c <= 255,
    ensures
        toward_corner(c, t) == (c + t) / 2,
        c <= t ==> c <= toward_corner(c, t) <= t,
        t <= c ==> t <= toward_corner(c, t) <= c,
{
}

} // verus!
