//! 2D affine transforms: a rotation, a uniform scale and a translation.
//!
//! The components are fixed-point integers, so that a transform is plain
//! data this crate can reason about; the numeric interpretation is:
//! an angle is counter-clockwise in units of `1 / ANGLE_TURN` of a full
//! turn, a scale is a multiple of `1 / SCALE_ONE`, and a translation is in
//! the caller's coordinate units. The trigonometry a backend needs to apply
//! a transform is the backend's concern, not this crate's.

use vstd::prelude::*;

verus! {

/// Angle units in one full counter-clockwise turn.
pub const ANGLE_TURN: i64 = 1 << 32;

/// The fixed-point scale factor denoting 1.
pub const SCALE_ONE: i64 = 1 << 16;

/// An affine 2D transform. Immutable; copied by value into each command.
#[derive(Clone, Copy, Debug, PartialEq, Eq, Structural)]
pub struct Transform {
    /// Counter-clockwise rotation, in units of `1 / ANGLE_TURN` of a turn.
    pub rotation: i64,
    /// Uniform scale, in units of `1 / SCALE_ONE`.
    pub scale: i64,
    /// Translation along x, applied after rotation and scale.
    pub dx: i64,
    /// Translation along y, applied after rotation and scale.
    pub dy: i64,
}

impl Transform {
    /// The identity transform: no rotation, unit scale, no translation.
    pub fn identity() -> (t: Transform)
        ensures
            t == (Transform { rotation: 0, scale: SCALE_ONE, dx: 0, dy: 0 }),
    {
        Transform { rotation: 0, scale: SCALE_ONE, dx: 0, dy: 0 }
    }

    /// A pure rotation by `angle` units, counter-clockwise.
    pub fn from_rot(angle: i64) -> (t: Transform)
        ensures
            t == (Transform { rotation: angle, scale: SCALE_ONE, dx: 0, dy: 0 }),
    {
        Transform { rotation: angle, scale: SCALE_ONE, dx: 0, dy: 0 }
    }
}

} // verus!
