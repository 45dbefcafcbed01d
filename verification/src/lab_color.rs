use vstd::prelude::*;

verus! {

/// A color in the Lab color space, stored in the byte encoding the vision
/// boundary expects: lightness stretched from `0..=100` onto `0..=255`, and
/// the two chroma axes shifted from `-128..=127` onto `0..=255`.
#[derive(Clone, Copy, Debug, PartialEq, Eq, Structural)]
pub struct LabColor {
    pub l: u8,
    pub a: u8,
    pub b: u8,
}

/// The lightness value the constructor keeps: inputs outside `0..=100` are
/// clamped, never rejected.
pub open spec fn clamped_lightness_spec(l: int) -> int {
    if l > 100 || l < 0 {
        100
    } else {
        l
    }
}

impl LabColor {
    /// A Lab color from its three channel values: `l` ranges over `0..=100`
    /// (dark to light), `a` over `-127..=127` (green to red) and `b` over
    /// `-127..=127` (blue to yellow).  An out-of-range lightness is clamped.
    pub fn new(l: i8, a: i8, b: i8) -> (r: LabColor)
        ensures
            r.l == clamped_lightness_spec(l as int) * 255 / 100,
            r.a == a + 128,
            r.b == b + 128,
    {
        let ll: i32 = if l > 100 || l < 0 {
            100
        } else {
            l as i32
        };
        LabColor { l: (ll * 255 / 100) as u8, a: (a as i32 + 128) as u8, b: (b as i32 + 128) as u8 }
    }
}

} // verus!
