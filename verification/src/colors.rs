use vstd::prelude::*;

verus! {

proof fn lemma_channels(color: u32)
    ensures
        ((color >> 24u32) & 0xFFu32) as u8 == (color as nat / 0x1000000) % 256,
        ((color >> 16u32) & 0xFFu32) as u8 == (color as nat / 0x10000) % 256,
        ((color >> 8u32) & 0xFFu32) as u8 == (color as nat / 0x100) % 256,
        (color & 0xFFu32) as u8 == color as nat % 256,
        ((color >> 24u32) & 0xFFu32) < 256,
        ((color >> 16u32) & 0xFFu32) < 256,
        ((color >> 8u32) & 0xFFu32) < 256,
        (color & 0xFFu32) < 256,
{
    assert(((color >> 24u32) & 0xFFu32) == (color / 0x1000000) % 256) by (bit_vector);
    assert(((color >> 16u32) & 0xFFu32) == (color / 0x10000) % 256) by (bit_vector);
    assert(((color >> 8u32) & 0xFFu32) == (color / 0x100) % 256) by (bit_vector);
    assert((color & 0xFFu32) == color % 256) by (bit_vector);
    assert(((color >> 24u32) & 0xFFu32) < 256) by (bit_vector);
    assert(((color >> 16u32) & 0xFFu32) < 256) by (bit_vector);
    assert(((color >> 8u32) & 0xFFu32) < 256) by (bit_vector);
    assert((color & 0xFFu32) < 256) by (bit_vector);
}

/// Splits a color held as `0xAARRGGBB` into `[r, g, b, a]`.
pub fn argb_to_rgba(argb: u32) -> (rgba: [u8; 4])
    ensures
        rgba[0] == (argb as nat / 0x10000) % 256,
        rgba[1] == (argb as nat / 0x100) % 256,
        rgba[2] == argb as nat % 256,
        rgba[3] == (argb as nat / 0x1000000) % 256,
{
    proof {
        lemma_channels(argb);
    }
    let a = ((argb >> 24u32) & 0xFFu32) as u8;
    let r = ((argb >> 16u32) & 0xFFu32) as u8;
    let g = ((argb >> 8u32) & 0xFFu32) as u8;
    let b = (argb & 0xFFu32) as u8;
    [r, g, b, a]
}

/// The native border color of an `[r, g, b, a]` color: `0x00BBGGRR`, without alpha.
pub fn border_rgba_to_native_color(rgba: [u8; 4]) -> (c: u32)
    ensures
        c == rgba[2] as nat * 0x10000 + rgba[1] as nat * 0x100 + rgba[0] as nat,
{
    let r = rgba[0] as u32;
    let g = rgba[1] as u32;
    let b = rgba[2] as u32;
    assert((b << 16u32) | (g << 8u32) | r == b * 0x10000 + g * 0x100 + r) by (bit_vector)
        requires
            r < 256,
            g < 256,
            b < 256,
    ;
    (b << 16u32) | (g << 8u32) | r
}

/// The three 16-bit channels of a `0xRRGGBB` color, each byte repeated in both halves.
pub fn trivertex_color(color: u32) -> (c: (u16, u16, u16))
    ensures
        c.0 == ((color as nat / 0x10000) % 256) * 257,
        c.1 == ((color as nat / 0x100) % 256) * 257,
        c.2 == (color as nat % 256) * 257,
{
    proof {
        lemma_channels(color);
    }
    let r = ((color >> 16u32) & 0xFFu32) as u16;
    let g = ((color >> 8u32) & 0xFFu32) as u16;
    let b = (color & 0xFFu32) as u16;
    assert((r << 8u16) | r == r * 257) by (bit_vector)
        requires
            r < 256,
    ;
    assert((g << 8u16) | g == g * 257) by (bit_vector)
        requires
            g < 256,
    ;
    assert((b << 8u16) | b == b * 257) by (bit_vector)
        requires
            b < 256,
    ;
    ((r << 8u16) | r, (g << 8u16) | g, (b << 8u16) | b)
}

/// The color the separation layer is painted with: the one it was given, or a default
/// blue where it was given none (zero).
pub fn separation_base_color(stored: u32) -> (c: u32)
    ensures
        c == (if stored != 0 {
            stored
        } else {
            0x2B78D6
        }),
{
    if stored != 0 {
        stored
    } else {
        0x2B78D6
    }
}

} // verus!
