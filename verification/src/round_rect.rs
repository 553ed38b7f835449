//! The material of a rounded rectangle.

use crate::color::LinearRgba;
use crate::math::Vec4;
use crate::padding::{can_sum_sides, is_padding, padding};
use crate::single::Single;
use crate::types::{RoundUiBorder, RoundUiOffset};
use crate::ui::UiRect;
use vstd::prelude::*;
use vstd::std_specs::convert::FromSpec;

verus! {

/// The number by which the shader of the rounded rectangle is known.
pub const ROUND_RECT_SHADER_ID: u128 = 66552904175742639684;

/// A rounded rectangle, with a border that each side's offset lays bare.
///
/// The fields stand in the order in which the shader reads them.
#[derive(Clone, Copy, Debug)]
pub struct RoundRectUiMaterial {
    /// The colour of the panel.
    pub background_color: LinearRgba,
    /// The colour of the border.
    pub border_color: LinearRgba,
    /// The radius of each corner, in the order bottom right, top right,
    /// bottom left, top left.
    pub border_radius: Vec4,
    /// The offset of each side, in the order top, left, bottom, right.
    pub offset: Vec4,
}

impl Default for RoundRectUiMaterial {
    /// A white rectangle with square corners and no border.
    fn default() -> (r: RoundRectUiMaterial)
        ensures
            r.background_color == LinearRgba::white(),
            r.border_color == LinearRgba::none(),
            r.border_radius == Vec4::splat(Single::zero()),
            r.offset == Vec4::splat(Single::zero()),
    {
        RoundRectUiMaterial {
            background_color: LinearRgba::white(),
            border_color: LinearRgba::none(),
            border_radius: Vec4::splat(Single::zero()),
            offset: Vec4::splat(Single::zero()),
        }
    }
}

impl RoundRectUiMaterial {
    /// The padding that keeps a node's content clear of the material's offset
    /// and corners. `sum` is called once for each side, with the side's
    /// offset and the greater radius of its two corners, and gives their sum.
    pub fn get_padding<F: Fn(Single, Single) -> Single>(&self, sum: F) -> (r: UiRect)
        requires
            can_sum_sides(
                sum,
                RoundUiOffset::from_spec(self.offset),
                RoundUiBorder::from_spec(self.border_radius),
            ),
        ensures
            is_padding(
                sum,
                RoundUiOffset::from_spec(self.offset),
                RoundUiBorder::from_spec(self.border_radius),
                r,
            ),
    {
        padding(RoundUiOffset::from(self.offset), RoundUiBorder::from(self.border_radius), sum)
    }
}

} // verus!
