//! The material of a rounded rectangle that knows its size on screen.

use crate::color::LinearRgba;
use crate::math::{Vec2, Vec4};
use crate::padding::{can_sum_sides, is_padding, padding};
use crate::single::Single;
use crate::types::{RoundUiBorder, RoundUiOffset};
use crate::ui::UiRect;
use vstd::prelude::*;
use vstd::std_specs::convert::FromSpec;

verus! {

/// The number by which the material's shader is known.
pub const SHADER_ID: u128 = 66552904175742639684;

/// A rounded rectangle of a given size, with a border that each side's
/// offset lays bare.
///
/// The fields stand in the order in which the shader reads them.
#[derive(Clone, Copy, Debug)]
pub struct RoundUiMaterial {
    /// The colour of the panel.
    pub background_color: LinearRgba,
    /// The colour of the border.
    pub border_color: LinearRgba,
    /// The radius of each corner, in the order bottom right, top right,
    /// bottom left, top left.
    pub border_radius: Vec4,
    /// The offset of each side, in the order top, left, bottom, right.
    pub offset: Vec4,
    /// The width and height of the panel on screen, in pixels.
    pub size: Vec2,
}

impl Default for RoundUiMaterial {
    /// A white rectangle of one pixel, with square corners and a white
    /// border that no offset lays bare.
    fn default() -> (r: RoundUiMaterial)
        ensures
            r.background_color == LinearRgba::white(),
            r.border_color == LinearRgba::white(),
            r.border_radius == Vec4::splat(Single::zero()),
            r.offset == Vec4::splat(Single::zero()),
            r.size == (Vec2 { x: Single::one(), y: Single::one() }),
    {
        RoundUiMaterial {
            background_color: LinearRgba::white(),
            border_color: LinearRgba::white(),
            border_radius: Vec4::splat(Single::zero()),
            size: Vec2::new(Single::one(), Single::one()),
            offset: Vec4::splat(Single::zero()),
        }
    }
}

impl RoundUiMaterial {
    /// The padding that keeps a node's content clear of the material's offset
    /// and corners. `sum` is called once for each side, with the side's
    /// offset and the greater radius of its two corners, and gives their sum.
    pub fn get_padding<F: Fn(Single, Single) -> Single>(&self, sum: F) -> (r: UiRect)
        requires
            can_sum_sides(
                sum,
                RoundUiOffset::from_spec(self.offset),
                RoundUiBorder::from_spec(self.border_radius),
            ),
        ensures
            is_padding(
                sum,
                RoundUiOffset::from_spec(self.offset),
                RoundUiBorder::from_spec(self.border_radius),
                r,
            ),
    {
        padding(RoundUiOffset::from(self.offset), RoundUiBorder::from(self.border_radius), sum)
    }
}

} // verus!
