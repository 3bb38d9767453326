//! Colors, normalized to fixed-point RGBA.
//!
//! A color component is a fraction `v / UNIT_MAX` of full intensity, with
//! `v` a `u16`. Every `u16` is a valid component, so an [`Rgba`] value is
//! always normalized: out-of-range inputs are not representable. Byte
//! components (the classic 0..=255 encoding) convert exactly, because
//! `UNIT_MAX` is a multiple of 255: the byte `b` denotes the fraction
//! `b / 255`, which equals `(b * 257) / UNIT_MAX`.

use vstd::prelude::*;

verus! {

/// A component value denoting full intensity (the fraction 1).
pub const UNIT_MAX: u16 = 65535;

/// A normalized RGBA color. Each component is the fraction
/// `value / UNIT_MAX` of full intensity.
#[derive(Clone, Copy, Debug, PartialEq, Eq, Structural)]
pub struct Rgba {
    pub r: u16,
    pub g: u16,
    pub b: u16,
    pub a: u16,
}

/// The component denoting the same fraction as the byte `v`:
/// `v / 255 == (v * 257) / 65535`.
pub open spec fn unit_of_byte(v: u8) -> u16 {
    (v * 257) as u16
}

/// Exactness of byte conversion: the fixed-point component stands for
/// precisely the fraction `v / 255`, with no rounding at all
/// (cross-multiplied to avoid division).
pub proof fn lemma_byte_conversion_exact(v: u8)
    ensures
        255 * (unit_of_byte(v) as int) == 65535 * (v as int),
{
}

/// Converts a byte component to a fixed-point component, exactly.
pub fn byte_to_unit(v: u8) -> (r: u16)
    ensures
        r == unit_of_byte(v),
{
    (v as u16) * 257
}

/// Anything a drawing call accepts as a color.
pub trait Color: Sized {
    /// The normalized form this value denotes.
    spec fn norm_spec(self) -> Rgba;

    /// Normalizes this value to fixed-point RGBA.
    fn normalize(self) -> (r: Rgba)
        ensures
            r == self.norm_spec(),
    ;
}

/// Byte RGB; alpha is full.
impl Color for (u8, u8, u8) {
    open spec fn norm_spec(self) -> Rgba {
        Rgba {
            r: unit_of_byte(self.0),
            g: unit_of_byte(self.1),
            b: unit_of_byte(self.2),
            a: UNIT_MAX,
        }
    }

    fn normalize(self) -> (r: Rgba) {
        Rgba {
            r: byte_to_unit(self.0),
            g: byte_to_unit(self.1),
            b: byte_to_unit(self.2),
            a: UNIT_MAX,
        }
    }
}

/// Byte RGB with a fixed-point alpha.
impl Color for (u8, u8, u8, u16) {
    open spec fn norm_spec(self) -> Rgba {
        Rgba {
            r: unit_of_byte(self.0),
            g: unit_of_byte(self.1),
            b: unit_of_byte(self.2),
            a: self.3,
        }
    }

    fn normalize(self) -> (r: Rgba) {
        Rgba {
            r: byte_to_unit(self.0),
            g: byte_to_unit(self.1),
            b: byte_to_unit(self.2),
            a: self.3,
        }
    }
}

/// An already normalized color.
impl Color for Rgba {
    open spec fn norm_spec(self) -> Rgba {
        self
    }

    fn normalize(self) -> (r: Rgba) {
        self
    }
}

impl Rgba {
    /// Builds a color from fixed-point components.
    pub fn from_units(r: u16, g: u16, b: u16, a: u16) -> (c: Rgba)
        ensures
            c == (Rgba { r, g, b, a }),
    {
        Rgba { r, g, b, a }
    }

    /// Opaque black, the color presentation clears to.
    pub fn black() -> (c: Rgba)
        ensures
            c == (Rgba { r: 0, g: 0, b: 0, a: UNIT_MAX }),
    {
        Rgba { r: 0, g: 0, b: 0, a: UNIT_MAX }
    }

    /// Fully transparent black, the initial contents of a fresh surface.
    pub fn transparent() -> (c: Rgba)
        ensures
            c == (Rgba { r: 0, g: 0, b: 0, a: 0 }),
    {
        Rgba { r: 0, g: 0, b: 0, a: 0 }
    }
}

} // verus!
