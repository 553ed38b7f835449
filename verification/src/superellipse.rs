//! The material of a superellipse.

use crate::color::LinearRgba;
use crate::math::Vec4;
use crate::single::Single;
use vstd::prelude::*;

verus! {

/// The number by which the shader of the superellipse is known.
pub const SUPERELLIPSE_SHADER_ID: u128 = 84071151984186645753;

/// A rectangle whose corners are rounded as a superellipse is, with a border
/// of one thickness all round.
///
/// The shader draws no corner below a least radius of its own: a smaller
/// radius shows as that one. The fields stand in the order in which the
/// shader reads them.
#[derive(Clone, Copy, Debug)]
pub struct SuperellipseUiMaterial {
    /// The colour of the panel.
    pub background_color: LinearRgba,
    /// The colour of the border.
    pub border_color: LinearRgba,
    /// The radius of each corner, in the order bottom right, top right,
    /// bottom left, top left.
    pub border_radius: Vec4,
    /// The thickness of the border.
    pub border_thickness: Single,
}

impl Default for SuperellipseUiMaterial {
    /// A white rectangle with square corners and no border.
    fn default() -> (r: SuperellipseUiMaterial)
        ensures
            r.background_color == LinearRgba::white(),
            r.border_color == LinearRgba::none(),
            r.border_radius == Vec4::splat(Single::zero()),
            r.border_thickness == Single::zero(),
    {
        SuperellipseUiMaterial {
            background_color: LinearRgba::white(),
            border_color: LinearRgba::none(),
            border_radius: Vec4::splat(Single::zero()),
            border_thickness: Single::zero(),
        }
    }
}

} // verus!
