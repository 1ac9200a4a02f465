//! The ROM model of a level editor for Super Mario Bros.: reading the level
//! and area tables out of an iNES image, decoding the graphics it holds, and
//! the edits that the editor applies to what it read.
use vstd::prelude::*;

pub mod area;
pub mod color;
pub mod editor;
pub mod graphics;
pub mod rom;
pub mod viewport;

verus! {

/// Converts a CPU address in the upper bank of the NES memory map into an
/// offset into the iNES file image (the 16-byte header included).
pub fn rom_addr(n: usize) -> (r: usize)
    requires
        n >= 32752,
    ensures
        r == n - 32752,
{
    n - 32752
}

} // verus!
