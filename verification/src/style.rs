//! Shape styling: filled or stroked, with a color.

use vstd::prelude::*;
use crate::color::Color;
use crate::color::Rgba;

verus! {

/// How a shape is painted. Immutable; copied by value into each command.
#[derive(Clone, Copy, Debug, PartialEq, Eq, Structural)]
pub enum Style {
    FillStyle { color: Rgba },
    StrokeStyle { color: Rgba },
}

impl Style {
    /// A fill style of the given color, normalized.
    #[inline]
    pub fn fill<C: Color>(color: C) -> (s: Style)
        ensures
            s == (Style::FillStyle { color: color.norm_spec() }),
    {
        Style::FillStyle { color: color.normalize() }
    }

    /// A stroke style of the given color, normalized.
    #[inline]
    pub fn stroke<C: Color>(color: C) -> (s: Style)
        ensures
            s == (Style::StrokeStyle { color: color.norm_spec() }),
    {
        Style::StrokeStyle { color: color.normalize() }
    }
}

} // verus!
