//! The built-in bitmap font: sixteen glyphs for the hex digits 0 through F,
//! five bytes per glyph, each byte one 8-pixel-wide sprite row.

use vstd::prelude::*;

verus! {

/// Number of bytes in the glyph table: 16 glyphs of 5 rows each.
pub const FONT_SIZE: usize = 80;

/// Number of bytes per glyph.
pub const GLYPH_SIZE: usize = 5;

/// The glyph table, in glyph order: the five sprite rows of digit 0 first,
/// those of digit F last.
pub open spec fn font_seq() -> Seq<u8> {
    seq![
        0xF0u8, 0x90, 0x90, 0x90, 0xF0, // 0
        0x20, 0x60, 0x20, 0x20, 0x70, // 1
        0xF0, 0x10, 0xF0, 0x80, 0xF0, // 2
        0xF0, 0x10, 0xF0, 0x10, 0xF0, // 3
        0x90, 0x90, 0xF0, 0x10, 0x10, // 4
        0xF0, 0x80, 0xF0, 0x10, 0xF0, // 5
        0xF0, 0x80, 0xF0, 0x90, 0xF0, // 6
        0xF0, 0x10, 0x20, 0x40, 0x40, // 7
        0xF0, 0x90, 0xF0, 0x90, 0xF0, // 8
        0xF0, 0x90, 0xF0, 0x10, 0xF0, // 9
        0xF0, 0x90, 0xF0, 0x90, 0x90, // A
        0xE0, 0x90, 0xE0, 0x90, 0xE0, // B
        0xF0, 0x80, 0x80, 0x80, 0xF0, // C
        0xE0, 0x90, 0x90, 0x90, 0xE0, // D
        0xF0, 0x80, 0xF0, 0x80, 0xF0, // E
        0xF0, 0x80, 0xF0, 0x80, 0x80, // F
    ]
}

/// The glyph table as a byte vector, row for row equal to [`font_seq`].
pub fn font_bytes() -> (v: Vec<u8>)
    ensures
        v@ == font_seq(),
{
    let mut v: Vec<u8> = Vec::new();
    v.push(0xF0); v.push(0x90); v.push(0x90); v.push(0x90); v.push(0xF0); // 0
    v.push(0x20); v.push(0x60); v.push(0x20); v.push(0x20); v.push(0x70); // 1
    v.push(0xF0); v.push(0x10); v.push(0xF0); v.push(0x80); v.push(0xF0); // 2
    v.push(0xF0); v.push(0x10); v.push(0xF0); v.push(0x10); v.push(0xF0); // 3
    v.push(0x90); v.push(0x90); v.push(0xF0); v.push(0x10); v.push(0x10); // 4
    v.push(0xF0); v.push(0x80); v.push(0xF0); v.push(0x10); v.push(0xF0); // 5
    v.push(0xF0); v.push(0x80); v.push(0xF0); v.push(0x90); v.push(0xF0); // 6
    v.push(0xF0); v.push(0x10); v.push(0x20); v.push(0x40); v.push(0x40); // 7
    v.push(0xF0); v.push(0x90); v.push(0xF0); v.push(0x90); v.push(0xF0); // 8
    v.push(0xF0); v.push(0x90); v.push(0xF0); v.push(0x10); v.push(0xF0); // 9
    v.push(0xF0); v.push(0x90); v.push(0xF0); v.push(0x90); v.push(0x90); // A
    v.push(0xE0); v.push(0x90); v.push(0xE0); v.push(0x90); v.push(0xE0); // B
    v.push(0xF0); v.push(0x80); v.push(0x80); v.push(0x80); v.push(0xF0); // C
    v.push(0xE0); v.push(0x90); v.push(0x90); v.push(0x90); v.push(0xE0); // D
    v.push(0xF0); v.push(0x80); v.push(0xF0); v.push(0x80); v.push(0xF0); // E
    v.push(0xF0); v.push(0x80); v.push(0xF0); v.push(0x80); v.push(0x80); // F
    proof {
        assert(v@ =~= font_seq());
    }
    v
}

} // verus!
