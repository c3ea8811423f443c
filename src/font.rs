//! ROM built-in font sprites
use vstd::prelude::*;

verus! {

/// Number of rows of a font sprite
pub const FONT_SPRITE_ROWS: usize = 5;

/// Number of bytes of the whole font: 16 glyphs of `FONT_SPRITE_ROWS` rows each
pub const FONT_SIZE: usize = 80;

/// The glyphs of the hexadecimal digits `0` .. `F`, one after the other
///
/// Each byte is one row; its high four bits are the visible pixels.
pub open spec fn font_glyphs() -> Seq<u8> {
    seq![
        // 0
        0b11110000, 0b10010000, 0b10010000, 0b10010000, 0b11110000,
        // 1
        0b00100000, 0b01100000, 0b00100000, 0b00100000, 0b01110000,
        // 2
        0b11110000, 0b00010000, 0b11110000, 0b10000000, 0b11110000,
        // 3
        0b11110000, 0b00010000, 0b11110000, 0b00010000, 0b11110000,
        // 4
        0b10010000, 0b10010000, 0b11110000, 0b00010000, 0b00010000,
        // 5
        0b11110000, 0b10000000, 0b11110000, 0b00010000, 0b11110000,
        // 6
        0b11110000, 0b10000000, 0b11110000, 0b10010000, 0b11110000,
        // 7
        0b11110000, 0b00010000, 0b00100000, 0b01000000, 0b01000000,
        // 8
        0b11110000, 0b10010000, 0b11110000, 0b10010000, 0b11110000,
        // 9
        0b11110000, 0b10010000, 0b11110000, 0b00010000, 0b11110000,
        // A
        0b11110000, 0b10010000, 0b11110000, 0b10010000, 0b10010000,
        // B
        0b11100000, 0b10010000, 0b11100000, 0b10010000, 0b11100000,
        // C
        0b11110000, 0b10000000, 0b10000000, 0b10000000, 0b11110000,
        // D
        0b11100000, 0b10010000, 0b10010000, 0b10010000, 0b11100000,
        // E
        0b11110000, 0b10000000, 0b11110000, 0b10000000, 0b11110000,
        // F
        0b11110000, 0b10000000, 0b11110000, 0b10000000, 0b10000000,
    ]
}

/// The built-in font as bytes, glyph `k` starting at byte `k * FONT_SPRITE_ROWS`
pub fn font_as_bytes() -> (r: [u8; FONT_SIZE])
    ensures
        r@ == font_glyphs(),
{
    let font: [u8; FONT_SIZE] = [
        // 0
        0b11110000, 0b10010000, 0b10010000, 0b10010000, 0b11110000,
        // 1
        0b00100000, 0b01100000, 0b00100000, 0b00100000, 0b01110000,
        // 2
        0b11110000, 0b00010000, 0b11110000, 0b10000000, 0b11110000,
        // 3
        0b11110000, 0b00010000, 0b11110000, 0b00010000, 0b11110000,
        // 4
        0b10010000, 0b10010000, 0b11110000, 0b00010000, 0b00010000,
        // 5
        0b11110000, 0b10000000, 0b11110000, 0b00010000, 0b11110000,
        // 6
        0b11110000, 0b10000000, 0b11110000, 0b10010000, 0b11110000,
        // 7
        0b11110000, 0b00010000, 0b00100000, 0b01000000, 0b01000000,
        // 8
        0b11110000, 0b10010000, 0b11110000, 0b10010000, 0b11110000,
        // 9
        0b11110000, 0b10010000, 0b11110000, 0b00010000, 0b11110000,
        // A
        0b11110000, 0b10010000, 0b11110000, 0b10010000, 0b10010000,
        // B
        0b11100000, 0b10010000, 0b11100000, 0b10010000, 0b11100000,
        // C
        0b11110000, 0b10000000, 0b10000000, 0b10000000, 0b11110000,
        // D
        0b11100000, 0b10010000, 0b10010000, 0b10010000, 0b11100000,
        // E
        0b11110000, 0b10000000, 0b11110000, 0b10000000, 0b11110000,
        // F
        0b11110000, 0b10000000, 0b11110000, 0b10000000, 0b10000000,
    ];
    assert(font@ =~= font_glyphs());
    font
}

} // verus!
