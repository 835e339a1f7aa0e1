//! The display: a fixed 240 by 320 surface, fed with sprites of packed
//! colours that are converted to native pixels.
use vstd::prelude::*;
use crate::color::{ColorTable, PackedColor, packed_to_native};

verus! {

/// Width of the display, in pixels.
pub const WIDTH: u16 = 240;

/// Height of the display, in pixels.
pub const HEIGHT: u16 = 320;

/// A rectangle of packed colours, row by row.
pub struct Sprite {
    pub width: u16,
    pub height: u16,
    pub data: Vec<PackedColor>,
}

/// The native pixels of `data`, one for each packed colour, in order.
pub open spec fn native_pixels(data: Seq<PackedColor>) -> Seq<u32> {
    data.map_values(|c: PackedColor| packed_to_native(c.0))
}

/// Converts every pixel of `sprite` through the colour table, giving the
/// buffer that the display surface is handed.
pub fn sprite_to_buffer(table: &ColorTable, sprite: &Sprite) -> (r: Vec<u32>)
    requires
        table.wf(),
    ensures
        r@ == native_pixels(sprite.data@),
{
    let mut r: Vec<u32> = Vec::new();
    let mut i: usize = 0;
    while i < sprite.data.len()
        invariant
            table.wf(),
            i <= sprite.data@.len(),
            r@ =~= native_pixels(sprite.data@.subrange(0, i as int)),
        decreases sprite.data@.len() - i,
    {
        r.push(table.lookup(sprite.data[i]));
        i = i + 1;
    }
    assert(sprite.data@.subrange(0, i as int) =~= sprite.data@);
    r
}

} // verus!
