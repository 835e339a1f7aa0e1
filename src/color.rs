//! Conversion from the 8-bit packed colours (3 bits red, 3 bits green,
//! 2 bits blue) that the application draws with to the 32-bit `0x00RRGGBB`
//! values that the display surface takes.
use vstd::prelude::*;

verus! {

/// A packed colour: bits 7..5 red, bits 4..2 green, bits 1..0 blue.
#[derive(Clone, Copy, Debug, PartialEq, Eq, Structural)]
pub struct PackedColor(pub u8);

/// The eight intensities that a 3-bit red field stands for.
pub open spec fn red_level(r: int) -> int {
    if r == 0 { 0x00 }
    else if r == 1 { 0x21 }
    else if r == 2 { 0x4a }
    else if r == 3 { 0x6b }
    else if r == 4 { 0x94 }
    else if r == 5 { 0xb5 }
    else if r == 6 { 0xde }
    else { 0xff }
}

/// The eight intensities that a 3-bit green field stands for.
pub open spec fn green_level(g: int) -> int {
    if g == 0 { 0x00 }
    else if g == 1 { 0x24 }
    else if g == 2 { 0x49 }
    else if g == 3 { 0x6d }
    else if g == 4 { 0x92 }
    else if g == 5 { 0xb6 }
    else if g == 6 { 0xdb }
    else { 0xff }
}

/// The four intensities that a 2-bit blue field stands for.
pub open spec fn blue_level(b: int) -> int {
    if b == 0 { 0x00 }
    else if b == 1 { 0x52 }
    else if b == 2 { 0xad }
    else { 0xff }
}

/// The native `0x00RRGGBB` value of a packed colour.
pub open spec fn packed_to_native(c: u8) -> u32 {
    (red_level(c as int / 32) * 0x10000 + green_level((c as int / 4) % 8) * 0x100 + blue_level(c as int % 4)) as u32
}

/// Each channel's intensity grows strictly with its bits, so the conversion
/// keeps the order of every channel.
pub proof fn channel_levels_increase(a: int, b: int)
    requires
        0 <= a < b,
    ensures
        b < 8 ==> red_level(a) < red_level(b),
        b < 8 ==> green_level(a) < green_level(b),
        b < 4 ==> blue_level(a) < blue_level(b),
{
}

fn red_of(r: u8) -> (v: u32)
    requires
        r < 8,
    ensures
        v == red_level(r as int),
{
    match r {
        0 => 0x00,
        1 => 0x21,
        2 => 0x4a,
        3 => 0x6b,
        4 => 0x94,
        5 => 0xb5,
        6 => 0xde,
        _ => 0xff,
    }
}

fn green_of(g: u8) -> (v: u32)
    requires
        g < 8,
    ensures
        v == green_level(g as int),
{
    match g {
        0 => 0x00,
        1 => 0x24,
        2 => 0x49,
        3 => 0x6d,
        4 => 0x92,
        5 => 0xb6,
        6 => 0xdb,
        _ => 0xff,
    }
}

fn blue_of(b: u8) -> (v: u32)
    requires
        b < 4,
    ensures
        v == blue_level(b as int),
{
    match b {
        0 => 0x00,
        1 => 0x52,
        2 => 0xad,
        _ => 0xff,
    }
}

/// Computes one entry of the conversion table from the three channels.
fn native_of(c: u8) -> (v: u32)
    ensures
        v == packed_to_native(c),
{
    let r = red_of(c / 32);
    let g = green_of((c / 4) % 8);
    let b = blue_of(c % 4);
    r * 0x10000 + g * 0x100 + b
}

/// The 256-entry table from packed to native colours, filled once and only
/// read afterwards.
pub struct ColorTable {
    entries: Vec<u32>,
}

impl View for ColorTable {
    type V = Seq<u32>;

    closed spec fn view(&self) -> Seq<u32> {
        self.entries@
    }
}

impl ColorTable {
    /// Entry `i` holds the native value of packed colour `i`.
    pub open spec fn wf(&self) -> bool {
        &&& self@.len() == 256
        &&& forall|i: int| 0 <= i < 256 ==> #[trigger] self@[i] == packed_to_native(i as u8)
    }

    /// Fills the table, one entry per packed colour.
    pub fn new() -> (t: ColorTable)
        ensures
            t.wf(),
    {
        let mut entries: Vec<u32> = Vec::new();
        let mut i: u16 = 0;
        while i < 256
            invariant
                i <= 256,
                entries@.len() == i,
                forall|j: int| 0 <= j < i ==> #[trigger] entries@[j] == packed_to_native(j as u8),
            decreases 256 - i,
        {
            entries.push(native_of(i as u8));
            i = i + 1;
        }
        ColorTable { entries }
    }

    /// The native colour of `c`, by direct indexing.
    pub fn lookup(&self, c: PackedColor) -> (v: u32)
        requires
            self.wf(),
        ensures
            v == packed_to_native(c.0),
    {
        self.entries[c.0 as usize]
    }
}

} // verus!
