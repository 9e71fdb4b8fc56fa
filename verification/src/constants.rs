use vstd::prelude::*;

verus! {

/// Depth range of the z-buffers: depths lie in `0..ZDEPTH`.
pub const ZDEPTH: i32 = 16384;
/// Number of palette entries; a power of two so that indices wrap with a mask.
pub const PALSIZE: usize = 8192;

/// Window size in pixels.
pub const WIDTH: i32 = 800;
pub const HEIGHT: i32 = 600;
pub const MIDX: i32 = 400;
pub const MIDY: i32 = 300;
/// The view buffer is supersampled 2x2.
pub const BWIDTH: i32 = 1600;
pub const BHEIGHT: i32 = 1200;
pub const BMIDX: i32 = 800;
pub const BMIDY: i32 = 600;
/// Shadow (light) map size.
pub const LWIDTH: i32 = 4096;
pub const LHEIGHT: i32 = 4096;
pub const LMIDX: i32 = 2048;
pub const LMIDY: i32 = 2048;

/// Background colour (dark blue).
pub const BGCOLOR: u32 = 0x00103050;

/// Colours of the four corners of the bottom plane.
pub open spec fn spec_bottom_color(i: int) -> (u8, u8, u8) {
    if i % 2 == 0 {
        (0x90u8, 0x90u8, 0x90u8)
    } else {
        (0x70u8, 0x70u8, 0x70u8)
    }
}

/// Colour of corner `i` of the bottom plane.
pub fn bottom_color(i: usize) -> (c: (u8, u8, u8))
    requires
        i < 4,
    ensures
        c == spec_bottom_color(i as int),
{
    if i % 2 == 0 {
        (0x90, 0x90, 0x90)
    } else {
        (0x70, 0x70, 0x70)
    }
}

/// The eight fractal colours picked by the colouring symmetry modes; they are
/// the global colours 4..=11, so global colour `n` is entry `n - 4`.
pub open spec fn spec_fractal_color(i: int) -> (u8, u8, u8) {
    if i == 0 {
        (0xFFu8, 0x00u8, 0x50u8)
    } else if i == 1 {
        (0xFFu8, 0x80u8, 0x00u8)
    } else if i == 2 {
        (0xFFu8, 0xFFu8, 0x00u8)
    } else if i == 3 {
        (0x80u8, 0xC0u8, 0x00u8)
    } else if i == 4 {
        (0x00u8, 0xC0u8, 0x40u8)
    } else if i == 5 {
        (0x00u8, 0x80u8, 0xC0u8)
    } else if i == 6 {
        (0x00u8, 0x00u8, 0xFFu8)
    } else {
        (0x80u8, 0x00u8, 0xFFu8)
    }
}

/// Fractal colour number `i`.
pub fn fractal_color(i: usize) -> (c: (u8, u8, u8))
    requires
        i < 8,
    ensures
        c == spec_fractal_color(i as int),
{
    match i {
        0 => (0xFF, 0x00, 0x50),
        1 => (0xFF, 0x80, 0x00),
        2 => (0xFF, 0xFF, 0x00),
        3 => (0x80, 0xC0, 0x00),
        4 => (0x00, 0xC0, 0x40),
        5 => (0x00, 0x80, 0xC0),
        6 => (0x00, 0x00, 0xFF),
        _ => (0x80, 0x00, 0xFF),
    }
}

} // verus!
