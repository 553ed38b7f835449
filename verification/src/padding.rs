//! The padding that keeps a panel's content clear of its offset and of its
//! rounded corners.

use crate::single::Single;
use crate::types::{RoundUiBorder, RoundUiOffset};
use crate::ui::{UiRect, Val};
use vstd::prelude::*;

verus! {

/// Whether `sum` may be called for each side of a panel with the given offset
/// and corners: with the side's offset and the greater radius of the two
/// corners that touch the side.
pub open spec fn can_sum_sides<F: Fn(Single, Single) -> Single>(
    sum: F,
    offset: RoundUiOffset,
    border: RoundUiBorder,
) -> bool {
    &&& call_requires(sum, (offset.left, border.top_left.max_spec(border.bottom_left)))
    &&& call_requires(sum, (offset.right, border.top_right.max_spec(border.bottom_right)))
    &&& call_requires(sum, (offset.top, border.top_left.max_spec(border.top_right)))
    &&& call_requires(sum, (offset.bottom, border.bottom_left.max_spec(border.bottom_right)))
}

/// Whether `side` is a number of pixels that `sum` may return for `offset`
/// and the greater of `first` and `second`.
pub open spec fn is_side_padding<F: Fn(Single, Single) -> Single>(
    sum: F,
    offset: Single,
    first: Single,
    second: Single,
    side: Val,
) -> bool {
    &&& side is Px
    &&& call_ensures(sum, (offset, first.max_spec(second)), side->Px_0)
}

/// Whether `padding` is the padding of a panel with the given offset and
/// corners where `sum` adds: on each side a number of pixels, the sum of
/// that side's offset and of the greater radius of the two corners that touch
/// the side.
pub open spec fn is_padding<F: Fn(Single, Single) -> Single>(
    sum: F,
    offset: RoundUiOffset,
    border: RoundUiBorder,
    padding: UiRect,
) -> bool {
    &&& is_side_padding(sum, offset.left, border.top_left, border.bottom_left, padding.left)
    &&& is_side_padding(sum, offset.right, border.top_right, border.bottom_right, padding.right)
    &&& is_side_padding(sum, offset.top, border.top_left, border.top_right, padding.top)
    &&& is_side_padding(
        sum,
        offset.bottom,
        border.bottom_left,
        border.bottom_right,
        padding.bottom,
    )
}

/// The padding of a panel with the given offset and corners. `sum` is called
/// once for each side, with the side's offset and the greater radius of its
/// two corners, and gives their sum.
pub fn padding<F: Fn(Single, Single) -> Single>(
    offset: RoundUiOffset,
    border: RoundUiBorder,
    sum: F,
) -> (r: UiRect)
    requires
        can_sum_sides(sum, offset, border),
    ensures
        is_padding(sum, offset, border, r),
{
    UiRect {
        left: Val::Px(sum(offset.left, border.top_left.max(border.bottom_left))),
        right: Val::Px(sum(offset.right, border.top_right.max(border.bottom_right))),
        top: Val::Px(sum(offset.top, border.top_left.max(border.top_right))),
        bottom: Val::Px(sum(offset.bottom, border.bottom_left.max(border.bottom_right))),
    }
}

} // verus!
