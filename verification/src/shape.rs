//! Shapes and the drawing-command stream.
//!
//! A [`DrawCmd`] is an immutable tagged value describing one drawing or
//! control operation. Ownership of a command transfers fully from the
//! producer through the channel to the consumer; nothing is shared.
//!
//! Shape geometry is plain numeric data in the caller's coordinate units,
//! with angles in the units of [`crate::transform::ANGLE_TURN`].

use vstd::prelude::*;
use crate::color::Rgba;
use crate::style::Style;
use crate::transform::Transform;

verus! {

/// A rectangle with a given position, width, and height.
#[derive(Clone, Copy, Debug, PartialEq, Eq, Structural)]
pub struct Rect {
    pub x: i64,
    pub y: i64,
    pub width: i64,
    pub height: i64,
}

/// A line between two given points.
#[derive(Clone, Copy, Debug, PartialEq, Eq, Structural)]
pub struct Line {
    pub x1: i64,
    pub y1: i64,
    pub x2: i64,
    pub y2: i64,
}

/// A circle with a given radius around a point.
#[derive(Clone, Copy, Debug, PartialEq, Eq, Structural)]
pub struct Circle {
    pub x: i64,
    pub y: i64,
    pub radius: i64,
}

/// An arc struck around a point with a given radius.
///
/// The arc goes counter-clockwise from `start_angle` to `end_angle`,
/// measured from the positive x-axis, in units of
/// `1 / ANGLE_TURN` of a full turn.
#[derive(Clone, Copy, Debug, PartialEq, Eq, Structural)]
pub struct Arc {
    pub x: i64,
    pub y: i64,
    pub radius: i64,
    pub start_angle: i64,
    pub end_angle: i64,
}

/// One drawing or control operation, sent from a producer to the consumer.
pub enum DrawCmd {
    Rect { rect: Rect, style: Style, transform: Transform },
    Line { line: Line, style: Style, transform: Transform },
    Circle { circle: Circle, style: Style, transform: Transform },
    Arc { arc: Arc, style: Style, transform: Transform },
    /// Clear the working surface to a color.
    Clear(Rgba),
    /// Replace the presentation fragment shader, lazily, at the next
    /// presentation that recompiles it.
    UsePostProcess(String),
    /// Ask the consumer to terminate its loop.
    Stop,
}

/// Anything that can be packed into a shape-drawing command.
pub trait ToDrawCmd: Sized {
    /// The command this shape makes under the given state.
    spec fn cmd_spec(self, transform: Transform, style: Style) -> DrawCmd;

    /// Packs this shape, a transform and a style into one command.
    fn with_state(self, transform: Transform, style: Style) -> (c: DrawCmd)
        ensures
            c == self.cmd_spec(transform, style),
    ;
}

impl ToDrawCmd for Rect {
    open spec fn cmd_spec(self, transform: Transform, style: Style) -> DrawCmd {
        DrawCmd::Rect { rect: self, style, transform }
    }

    fn with_state(self, transform: Transform, style: Style) -> (c: DrawCmd) {
        DrawCmd::Rect { rect: self, style, transform }
    }
}

impl ToDrawCmd for Line {
    open spec fn cmd_spec(self, transform: Transform, style: Style) -> DrawCmd {
        DrawCmd::Line { line: self, style, transform }
    }

    fn with_state(self, transform: Transform, style: Style) -> (c: DrawCmd) {
        DrawCmd::Line { line: self, style, transform }
    }
}

impl ToDrawCmd for Circle {
    open spec fn cmd_spec(self, transform: Transform, style: Style) -> DrawCmd {
        DrawCmd::Circle { circle: self, style, transform }
    }

    fn with_state(self, transform: Transform, style: Style) -> (c: DrawCmd) {
        DrawCmd::Circle { circle: self, style, transform }
    }
}

impl ToDrawCmd for Arc {
    open spec fn cmd_spec(self, transform: Transform, style: Style) -> DrawCmd {
        DrawCmd::Arc { arc: self, style, transform }
    }

    fn with_state(self, transform: Transform, style: Style) -> (c: DrawCmd) {
        DrawCmd::Arc { arc: self, style, transform }
    }
}

/// Builds a [`Rect`].
#[inline]
pub fn rect(x: i64, y: i64, width: i64, height: i64) -> (r: Rect)
    ensures
        r == (Rect { x, y, width, height }),
{
    Rect { x, y, width, height }
}

/// Builds a [`Line`].
#[inline]
pub fn line(x1: i64, y1: i64, x2: i64, y2: i64) -> (r: Line)
    ensures
        r == (Line { x1, y1, x2, y2 }),
{
    Line { x1, y1, x2, y2 }
}

/// Builds a [`Circle`].
#[inline]
pub fn circle(x: i64, y: i64, radius: i64) -> (r: Circle)
    ensures
        r == (Circle { x, y, radius }),
{
    Circle { x, y, radius }
}

/// Builds an [`Arc`].
#[inline]
pub fn arc(x: i64, y: i64, radius: i64, start_angle: i64, end_angle: i64) -> (r: Arc)
    ensures
        r == (Arc { x, y, radius, start_angle, end_angle }),
{
    Arc { x, y, radius, start_angle, end_angle }
}

} // verus!
