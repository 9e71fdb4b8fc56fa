use vstd::prelude::*;

verus! {

/// Red byte of a packed `0x00RRGGBB` colour.
pub open spec fn red(c: u32) -> u32 {
    (c >> 16u32) & 0xFFu32
}

/// Green byte of a packed colour.
pub open spec fn green(c: u32) -> u32 {
    (c >> 8u32) & 0xFFu32
}

/// Blue byte of a packed colour.
pub open spec fn blue(c: u32) -> u32 {
    c & 0xFFu32
}

/// A byte-sized channel value.
pub open spec fn is_byte(v: int) -> bool {
    0 <= v <= 255
}

/// The packed colour with the given channels, `r * 2^16 + g * 2^8 + b`.
pub open spec fn rgb(r: int, g: int, b: int) -> u32 {
    (r * 0x10000 + g * 0x100 + b) as u32
}

/// Every channel of a packed colour is a byte.
pub proof fn lemma_channels_are_bytes(c: u32)
    ensures
        red(c) <= 255,
        green(c) <= 255,
        blue(c) <= 255,
{
    assert((c >> 16u32) & 0xFFu32 <= 255) by (bit_vector);
    assert((c >> 8u32) & 0xFFu32 <= 255) by (bit_vector);
    assert(c & 0xFFu32 <= 255) by (bit_vector);
}

/// Shifting and or-ing bytes together is the arithmetic packing, and the
/// channels of the packed colour are the bytes that went in.
pub proof fn lemma_pack(r: u32, g: u32, b: u32)
    requires
        r <= 255,
        g <= 255,
        b <= 255,
    ensures
        (r << 16u32) | (g << 8u32) | b == rgb(r as int, g as int, b as int),
        red(rgb(r as int, g as int, b as int)) == r,
        green(rgb(r as int, g as int, b as int)) == g,
        blue(rgb(r as int, g as int, b as int)) == b,
{
    assert((r << 16u32) | (g << 8u32) | b == r * 0x10000 + g * 0x100 + b) by (bit_vector)
        requires
            r <= 255,
            g <= 255,
            b <= 255,
    ;
    let c: u32 = ((r << 16u32) | (g << 8u32) | b);
    assert((c >> 16u32) & 0xFFu32 == r && (c >> 8u32) & 0xFFu32 == g && c & 0xFFu32 == b)
        by (bit_vector)
        requires
            c == (r << 16u32) | (g << 8u32) | b,
            r <= 255,
            g <= 255,
            b <= 255,
    ;
}

/// Packs three bytes into a `0x00RRGGBB` colour.
pub fn pack_rgb(r: u32, g: u32, b: u32) -> (c: u32)
    requires
        r <= 255,
        g <= 255,
        b <= 255,
    ensures
        c == rgb(r as int, g as int, b as int),
        red(c) == r,
        green(c) == g,
        blue(c) == b,
{
    proof {
        lemma_pack(r, g, b);
    }
    (r << 16) | (g << 8) | b
}

/// Splits a packed colour into its red, green and blue bytes.
pub fn unpack_rgb(c: u32) -> (ch: (u32, u32, u32))
    ensures
        ch == (red(c), green(c), blue(c)),
        ch.0 <= 255,
        ch.1 <= 255,
        ch.2 <= 255,
{
    proof {
        lemma_channels_are_bytes(c);
    }
    ((c >> 16) & 0xFF, (c >> 8) & 0xFF, c & 0xFF)
}

} // verus!
