//! Lengths and rectangles of a node's layout.

use crate::single::Single;
use vstd::prelude::*;

verus! {

/// A length in a node's layout.
#[derive(Clone, Copy, Debug)]
pub enum Val {
    /// Left to the layout.
    Auto,
    /// A number of pixels.
    Px(Single),
    /// A share of the parent's length, in hundredths.
    Percent(Single),
    /// A share of the viewport's width, in hundredths.
    Vw(Single),
    /// A share of the viewport's height, in hundredths.
    Vh(Single),
    /// A share of the viewport's smaller side, in hundredths.
    VMin(Single),
    /// A share of the viewport's larger side, in hundredths.
    VMax(Single),
}

/// A length for each side of a rectangle.
#[derive(Clone, Copy, Debug)]
pub struct UiRect {
    pub left: Val,
    pub right: Val,
    pub top: Val,
    pub bottom: Val,
}

/// What the panels set of a node's layout: its width, its height and its
/// padding.
#[derive(Clone, Copy, Debug)]
pub struct Style {
    pub width: Val,
    pub height: Val,
    pub padding: UiRect,
}

} // verus!
