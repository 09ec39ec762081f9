use vstd::prelude::*;

verus! {

/// The fixed-point unit: `ONE` thousandths make `1.0`.
pub const ONE: u32 = 1000;

/// One channel of `lerp`: `a + (b - a) * t`, with `t` in thousandths, rounded down.
pub open spec fn lerp_channel(a: u8, b: u8, t: int) -> int {
    (a * (1000 - t) + b * t) / 1000
}

/// One channel of `scale`: `c * f` with `f` in thousandths, rounded down and
/// saturated at 255.
pub open spec fn scale_channel(c: u8, f: int) -> int {
    let v = c * f / 1000;
    if v > 255 {
        255
    } else {
        v
    }
}

/// An RGB color with 8-bit channels.
#[derive(Clone, Copy, Debug, PartialEq, Eq, Structural)]
pub struct Color {
    pub r: u8,
    pub g: u8,
    pub b: u8,
}

impl Color {
    pub open spec fn spec_lerp(self, other: Color, t: int) -> Color {
        Color {
            r: lerp_channel(self.r, other.r, t) as u8,
            g: lerp_channel(self.g, other.g, t) as u8,
            b: lerp_channel(self.b, other.b, t) as u8,
        }
    }

    pub open spec fn spec_scale(self, f: int) -> Color {
        Color {
            r: scale_channel(self.r, f) as u8,
            g: scale_channel(self.g, f) as u8,
            b: scale_channel(self.b, f) as u8,
        }
    }

    pub fn new(r: u8, g: u8, b: u8) -> (c: Color)
        ensures
            c == (Color { r, g, b }),
    {
        Color { r, g, b }
    }

    pub fn black() -> (c: Color)
        ensures
            c == (Color { r: 0, g: 0, b: 0 }),
    {
        Color { r: 0, g: 0, b: 0 }
    }

    /// Linear interpolation towards `other` by `t` thousandths (`0` gives
    /// `self`, `ONE` gives `other`).
    pub fn lerp(&self, other: &Color, t: u32) -> (c: Color)
        requires
            t <= ONE,
        ensures
            c == self.spec_lerp(*other, t as int),
    {
        Color {
            r: lerp_u8(self.r, other.r, t),
            g: lerp_u8(self.g, other.g, t),
            b: lerp_u8(self.b, other.b, t),
        }
    }

    /// Every channel multiplied by `factor` thousandths, saturating at 255.
    pub fn scale(&self, factor: u32) -> (c: Color)
        ensures
            c == self.spec_scale(factor as int),
    {
        Color {
            r: scale_u8(self.r, factor),
            g: scale_u8(self.g, factor),
            b: scale_u8(self.b, factor),
        }
    }
}

fn lerp_u8(a: u8, b: u8, t: u32) -> (r: u8)
    requires
        t <= 1000,
    ensures
        r as int == lerp_channel(a, b, t as int),
{
    let a64 = a as u64;
    let b64 = b as u64;
    let t64 = t as u64;
    assert(a64 * (1000 - t64) <= 255 * (1000 - t64)) by (nonlinear_arith)
        requires
            a64 <= 255,
            t64 <= 1000,
    ;
    assert(b64 * t64 <= 255 * t64) by (nonlinear_arith)
        requires
            b64 <= 255,
    ;
    let v = (a64 * (1000 - t64) + b64 * t64) / 1000;
    v as u8
}

fn scale_u8(c: u8, f: u32) -> (r: u8)
    ensures
        r as int == scale_channel(c, f as int),
{
    let c64 = c as u64;
    let fw = f as u64;
    assert(c64 * fw <= 255 * 0xffff_ffff) by (nonlinear_arith)
        requires
            c64 <= 255,
            fw <= 0xffff_ffff,
    ;
    let v = c64 * fw / 1000;
    if v > 255 {
        255
    } else {
        v as u8
    }
}

/// Interpolating by `0` gives the first color and by `ONE` the second.
pub proof fn lemma_lerp_endpoints(a: Color, b: Color)
    ensures
        a.spec_lerp(b, 0) == a,
        a.spec_lerp(b, 1000) == b,
{
}

/// Scaling by any factor keeps every channel within `0..=255` before the
/// narrowing to `u8`, so the narrowing never wraps.
pub proof fn lemma_scale_in_range(c: u8, f: nat)
    ensures
        0 <= scale_channel(c, f as int) <= 255,
{
    assert(c * f >= 0) by (nonlinear_arith);
}

/// Scaling by `ONE` leaves a color unchanged; scaling by `0` makes it black.
pub proof fn lemma_scale_unit_and_zero(c: Color)
    ensures
        c.spec_scale(1000) == c,
        c.spec_scale(0) == (Color { r: 0, g: 0, b: 0 }),
{
}

} // verus!
