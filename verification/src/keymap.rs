//! The mapping from a keyboard character to the 16-key matrix: the
//! left-hand block `1234` / `qwer` / `asdf` / `zxcv` covers the sixteen
//! keys in the conventional layout.  A presentation layer feeds the
//! characters of its key events through this table.

use vstd::prelude::*;

verus! {

/// The key index a keyboard character maps to, if any.
pub open spec fn spec_key_index(c: char) -> Option<u8> {
    match c {
        '1' => Some(0x1u8),
        '2' => Some(0x2u8),
        '3' => Some(0x3u8),
        '4' => Some(0xCu8),
        'q' => Some(0x4u8),
        'w' => Some(0x5u8),
        'e' => Some(0x6u8),
        'r' => Some(0xDu8),
        'a' => Some(0x7u8),
        's' => Some(0x8u8),
        'd' => Some(0x9u8),
        'f' => Some(0xEu8),
        'z' => Some(0xAu8),
        'x' => Some(0x0u8),
        'c' => Some(0xBu8),
        'v' => Some(0xFu8),
        _ => None,
    }
}

/// Maps one keyboard character to its key index; characters
/// outside the sixteen-key block are not mapped.  A mapped index is
/// always a valid key number.
pub fn key_index_for_char(c: char) -> (r: Option<u8>)
    ensures
        r == spec_key_index(c),
        r matches Some(k) ==> k < 16,
{
    match c {
        '1' => Some(0x1),
        '2' => Some(0x2),
        '3' => Some(0x3),
        '4' => Some(0xC),
        'q' => Some(0x4),
        'w' => Some(0x5),
        'e' => Some(0x6),
        'r' => Some(0xD),
        'a' => Some(0x7),
        's' => Some(0x8),
        'd' => Some(0x9),
        'f' => Some(0xE),
        'z' => Some(0xA),
        'x' => Some(0x0),
        'c' => Some(0xB),
        'v' => Some(0xF),
        _ => None,
    }
}

} // verus!
