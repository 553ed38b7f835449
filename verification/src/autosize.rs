//! The rules that keep a node and its material at one size.
//!
//! Each rule is applied to one node whenever what it reads of the node has
//! changed. A node whose material is not there is left as it is.

use crate::assets::RoundUiMaterial;
use crate::math::Vec2;
use crate::padding::{can_sum_sides, is_padding};
use crate::single::Single;
use crate::types::{RoundUiBorder, RoundUiOffset};
use crate::ui::{Style, Val};
use vstd::prelude::*;
use vstd::std_specs::convert::FromSpec;

verus! {

/// A node's size has changed: its material takes that size, and keeps
/// everything else. In the contract `*m` is the material as it is handed in.
pub fn update_material_size(material: Option<&mut RoundUiMaterial>, node_size: Vec2)
    ensures
        material matches Some(m) ==> *final(m) == (RoundUiMaterial { size: node_size, ..*m }),
{
    if let Some(material) = material {
        material.size = node_size;
    }
}

/// A node has another material: the node's padding becomes the padding that
/// keeps its content clear of the material's offset and corners, and its
/// width and height stay. `sum` is called once for each side, with the
/// side's offset and the greater radius of its two corners, and gives their
/// sum.
pub fn update_node_padding<F: Fn(Single, Single) -> Single>(
    style: &mut Style,
    material: Option<&RoundUiMaterial>,
    sum: F,
)
    requires
        material matches Some(m) ==> can_sum_sides(
            sum,
            RoundUiOffset::from_spec(m.offset),
            RoundUiBorder::from_spec(m.border_radius),
        ),
    ensures
        material is None ==> *final(style) == *old(style),
        material matches Some(m) ==> {
            &&& is_padding(
                sum,
                RoundUiOffset::from_spec(m.offset),
                RoundUiBorder::from_spec(m.border_radius),
                final(style).padding,
            )
            &&& final(style).width == old(style).width
            &&& final(style).height == old(style).height
        },
{
    if let Some(material) = material {
        style.padding = material.get_padding(sum);
    }
}

/// A node has another material: the node's width and height become those of
/// the material, in pixels, and its padding stays.
pub fn update_node_size(style: &mut Style, material: Option<&RoundUiMaterial>)
    ensures
        material is None ==> *final(style) == *old(style),
        material matches Some(m) ==> *final(style) == (Style {
            width: Val::Px(m.size.x),
            height: Val::Px(m.size.y),
            ..*old(style)
        }),
{
    if let Some(material) = material {
        style.width = Val::Px(material.size.x);
        style.height = Val::Px(material.size.y);
    }
}

} // verus!
