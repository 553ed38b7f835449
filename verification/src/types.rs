//! The offset of a panel's four sides and the radius of its four corners.

use crate::math::Vec4;
use crate::single::Single;
use crate::ui::{UiRect, Val};
use vstd::prelude::*;
use vstd::std_specs::cmp::PartialEqSpec;
use vstd::std_specs::convert::FromSpec;

verus! {

/// How far each side of a panel is moved inward, which shows as a border or a
/// shadow on that side.
///
/// As a vector the sides stand in the order top, left, bottom, right. Two
/// offsets are equal where they are equal numbers side by side.
#[derive(Clone, Copy, Debug)]
pub struct RoundUiOffset {
    pub top: Single,
    pub left: Single,
    pub bottom: Single,
    pub right: Single,
}

impl RoundUiOffset {
    /// The offset with `amount` on all four sides.
    pub fn all(amount: Single) -> (r: RoundUiOffset)
        ensures
            r == (RoundUiOffset {
                top: amount,
                left: amount,
                bottom: amount,
                right: amount,
            }),
    {
        RoundUiOffset {
            top: amount,
            left: amount,
            bottom: amount,
            right: amount,
        }
    }

    /// The offset with `amount` on the left side and zero on the others.
    pub fn left(amount: Single) -> (r: RoundUiOffset)
        ensures
            r == (RoundUiOffset {
                top: Single::zero(),
                left: amount,
                bottom: Single::zero(),
                right: Single::zero(),
            }),
    {
        RoundUiOffset {
            top: Single::zero(),
            left: amount,
            bottom: Single::zero(),
            right: Single::zero(),
        }
    }

    /// The offset with `amount` on the right side and zero on the others.
    pub fn right(amount: Single) -> (r: RoundUiOffset)
        ensures
            r == (RoundUiOffset {
                top: Single::zero(),
                left: Single::zero(),
                bottom: Single::zero(),
                right: amount,
            }),
    {
        RoundUiOffset {
            top: Single::zero(),
            left: Single::zero(),
            bottom: Single::zero(),
            right: amount,
        }
    }

    /// The offset with `amount` on the bottom side and zero on the others.
    pub fn bottom(amount: Single) -> (r: RoundUiOffset)
        ensures
            r == (RoundUiOffset {
                top: Single::zero(),
                left: Single::zero(),
                bottom: amount,
                right: Single::zero(),
            }),
    {
        RoundUiOffset {
            top: Single::zero(),
            left: Single::zero(),
            bottom: amount,
            right: Single::zero(),
        }
    }

    /// The offset with `amount` on the top side and zero on the others.
    pub fn top(amount: Single) -> (r: RoundUiOffset)
        ensures
            r == (RoundUiOffset {
                top: amount,
                left: Single::zero(),
                bottom: Single::zero(),
                right: Single::zero(),
            }),
    {
        RoundUiOffset {
            top: amount,
            left: Single::zero(),
            bottom: Single::zero(),
            right: Single::zero(),
        }
    }

    /// The offset with `amount` on the top and left sides and zero on the others.
    pub fn top_left(amount: Single) -> (r: RoundUiOffset)
        ensures
            r == (RoundUiOffset {
                top: amount,
                left: amount,
                bottom: Single::zero(),
                right: Single::zero(),
            }),
    {
        RoundUiOffset {
            top: amount,
            left: amount,
            bottom: Single::zero(),
            right: Single::zero(),
        }
    }

    /// The offset with `amount` on the top and right sides and zero on the others.
    pub fn top_right(amount: Single) -> (r: RoundUiOffset)
        ensures
            r == (RoundUiOffset {
                top: amount,
                left: Single::zero(),
                bottom: Single::zero(),
                right: amount,
            }),
    {
        RoundUiOffset {
            top: amount,
            left: Single::zero(),
            bottom: Single::zero(),
            right: amount,
        }
    }

    /// The offset with `amount` on the bottom and left sides and zero on the others.
    pub fn bottom_left(amount: Single) -> (r: RoundUiOffset)
        ensures
            r == (RoundUiOffset {
                top: Single::zero(),
                left: amount,
                bottom: amount,
                right: Single::zero(),
            }),
    {
        RoundUiOffset {
            top: Single::zero(),
            left: amount,
            bottom: amount,
            right: Single::zero(),
        }
    }

    /// The offset with `amount` on the bottom and right sides and zero on the others.
    pub fn bottom_right(amount: Single) -> (r: RoundUiOffset)
        ensures
            r == (RoundUiOffset {
                top: Single::zero(),
                left: Single::zero(),
                bottom: amount,
                right: amount,
            }),
    {
        RoundUiOffset {
            top: Single::zero(),
            left: Single::zero(),
            bottom: amount,
            right: amount,
        }
    }
}

impl Default for RoundUiOffset {
    /// The offset that is zero on all four sides.
    fn default() -> (r: RoundUiOffset)
        ensures
            r == (RoundUiOffset {
                top: Single::zero(),
                left: Single::zero(),
                bottom: Single::zero(),
                right: Single::zero(),
            }),
    {
        RoundUiOffset::all(Single::zero())
    }
}

impl PartialEq for RoundUiOffset {
    fn eq(&self, other: &RoundUiOffset) -> (r: bool) {
        self.top == other.top && self.left == other.left && self.bottom == other.bottom
            && self.right == other.right
    }
}

impl vstd::std_specs::cmp::PartialEqSpecImpl for RoundUiOffset {
    open spec fn obeys_eq_spec() -> bool {
        true
    }

    open spec fn eq_spec(&self, other: &RoundUiOffset) -> bool {
        &&& self.top.same_number(other.top)
        &&& self.left.same_number(other.left)
        &&& self.bottom.same_number(other.bottom)
        &&& self.right.same_number(other.right)
    }
}

impl From<RoundUiOffset> for Vec4 {
    /// The sides in the order top, left, bottom, right.
    fn from(val: RoundUiOffset) -> (v: Vec4) {
        Vec4::new(val.top, val.left, val.bottom, val.right)
    }
}

impl vstd::std_specs::convert::FromSpecImpl<RoundUiOffset> for Vec4 {
    open spec fn obeys_from_spec() -> bool {
        true
    }

    open spec fn from_spec(val: RoundUiOffset) -> Vec4 {
        Vec4 { x: val.top, y: val.left, z: val.bottom, w: val.right }
    }
}

impl From<Vec4> for RoundUiOffset {
    /// The components as top, left, bottom, right.
    fn from(val: Vec4) -> (r: RoundUiOffset) {
        RoundUiOffset { top: val.x, left: val.y, bottom: val.z, right: val.w }
    }
}

impl vstd::std_specs::convert::FromSpecImpl<Vec4> for RoundUiOffset {
    open spec fn obeys_from_spec() -> bool {
        true
    }

    open spec fn from_spec(val: Vec4) -> RoundUiOffset {
        RoundUiOffset { top: val.x, left: val.y, bottom: val.z, right: val.w }
    }
}

impl From<RoundUiOffset> for UiRect {
    /// Each side's offset as a number of pixels.
    fn from(val: RoundUiOffset) -> (r: UiRect) {
        UiRect {
            left: Val::Px(val.left),
            right: Val::Px(val.right),
            top: Val::Px(val.top),
            bottom: Val::Px(val.bottom),
        }
    }
}

impl vstd::std_specs::convert::FromSpecImpl<RoundUiOffset> for UiRect {
    open spec fn obeys_from_spec() -> bool {
        true
    }

    open spec fn from_spec(val: RoundUiOffset) -> UiRect {
        UiRect {
            left: Val::Px(val.left),
            right: Val::Px(val.right),
            top: Val::Px(val.top),
            bottom: Val::Px(val.bottom),
        }
    }
}

/// The radius of each corner of a panel.
///
/// As a vector the corners stand in the order bottom right, top right, bottom
/// left, top left. Two borders are equal where they are equal numbers corner
/// by corner.
#[derive(Clone, Copy, Debug)]
pub struct RoundUiBorder {
    pub top_left: Single,
    pub top_right: Single,
    pub bottom_left: Single,
    pub bottom_right: Single,
}

impl RoundUiBorder {
    /// The border with `radius` at all four corners.
    pub fn all(radius: Single) -> (r: RoundUiBorder)
        ensures
            r == (RoundUiBorder {
                top_left: radius,
                top_right: radius,
                bottom_left: radius,
                bottom_right: radius,
            }),
    {
        RoundUiBorder {
            top_left: radius,
            top_right: radius,
            bottom_left: radius,
            bottom_right: radius,
        }
    }

    /// The border with `radius` at the top left corner and zero at the others.
    pub fn top_left(radius: Single) -> (r: RoundUiBorder)
        ensures
            r == (RoundUiBorder {
                top_left: radius,
                top_right: Single::zero(),
                bottom_left: Single::zero(),
                bottom_right: Single::zero(),
            }),
    {
        RoundUiBorder {
            top_left: radius,
            top_right: Single::zero(),
            bottom_left: Single::zero(),
            bottom_right: Single::zero(),
        }
    }

    /// The border with `radius` at the top right corner and zero at the others.
    pub fn top_right(radius: Single) -> (r: RoundUiBorder)
        ensures
            r == (RoundUiBorder {
                top_left: Single::zero(),
                top_right: radius,
                bottom_left: Single::zero(),
                bottom_right: Single::zero(),
            }),
    {
        RoundUiBorder {
            top_left: Single::zero(),
            top_right: radius,
            bottom_left: Single::zero(),
            bottom_right: Single::zero(),
        }
    }

    /// The border with `radius` at the bottom left corner and zero at the others.
    pub fn bottom_left(radius: Single) -> (r: RoundUiBorder)
        ensures
            r == (RoundUiBorder {
                top_left: Single::zero(),
                top_right: Single::zero(),
                bottom_left: radius,
                bottom_right: Single::zero(),
            }),
    {
        RoundUiBorder {
            top_left: Single::zero(),
            top_right: Single::zero(),
            bottom_left: radius,
            bottom_right: Single::zero(),
        }
    }

    /// The border with `radius` at the bottom right corner and zero at the others.
    pub fn bottom_right(radius: Single) -> (r: RoundUiBorder)
        ensures
            r == (RoundUiBorder {
                top_left: Single::zero(),
                top_right: Single::zero(),
                bottom_left: Single::zero(),
                bottom_right: radius,
            }),
    {
        RoundUiBorder {
            top_left: Single::zero(),
            top_right: Single::zero(),
            bottom_left: Single::zero(),
            bottom_right: radius,
        }
    }

    /// The border with `radius` at the two top corners and zero at the others.
    pub fn top(radius: Single) -> (r: RoundUiBorder)
        ensures
            r == (RoundUiBorder {
                top_left: radius,
                top_right: radius,
                bottom_left: Single::zero(),
                bottom_right: Single::zero(),
            }),
    {
        RoundUiBorder {
            top_left: radius,
            top_right: radius,
            bottom_left: Single::zero(),
            bottom_right: Single::zero(),
        }
    }

    /// The border with `radius` at the two bottom corners and zero at the others.
    pub fn bottom(radius: Single) -> (r: RoundUiBorder)
        ensures
            r == (RoundUiBorder {
                top_left: Single::zero(),
                top_right: Single::zero(),
                bottom_left: radius,
                bottom_right: radius,
            }),
    {
        RoundUiBorder {
            top_left: Single::zero(),
            top_right: Single::zero(),
            bottom_left: radius,
            bottom_right: radius,
        }
    }

    /// The border with `radius` at the two left corners and zero at the others.
    pub fn left(radius: Single) -> (r: RoundUiBorder)
        ensures
            r == (RoundUiBorder {
                top_left: radius,
                top_right: Single::zero(),
                bottom_left: radius,
                bottom_right: Single::zero(),
            }),
    {
        RoundUiBorder {
            top_left: radius,
            top_right: Single::zero(),
            bottom_left: radius,
            bottom_right: Single::zero(),
        }
    }

    /// The border with `radius` at the two right corners and zero at the others.
    pub fn right(radius: Single) -> (r: RoundUiBorder)
        ensures
            r == (RoundUiBorder {
                top_left: Single::zero(),
                top_right: radius,
                bottom_left: Single::zero(),
                bottom_right: radius,
            }),
    {
        RoundUiBorder {
            top_left: Single::zero(),
            top_right: radius,
            bottom_left: Single::zero(),
            bottom_right: radius,
        }
    }
}

impl Default for RoundUiBorder {
    /// The border that is zero at all four corners.
    fn default() -> (r: RoundUiBorder)
        ensures
            r == (RoundUiBorder {
                top_left: Single::zero(),
                top_right: Single::zero(),
                bottom_left: Single::zero(),
                bottom_right: Single::zero(),
            }),
    {
        RoundUiBorder::all(Single::zero())
    }
}

impl PartialEq for RoundUiBorder {
    fn eq(&self, other: &RoundUiBorder) -> (r: bool) {
        self.top_left == other.top_left && self.top_right == other.top_right
            && self.bottom_left == other.bottom_left && self.bottom_right == other.bottom_right
    }
}

impl vstd::std_specs::cmp::PartialEqSpecImpl for RoundUiBorder {
    open spec fn obeys_eq_spec() -> bool {
        true
    }

    open spec fn eq_spec(&self, other: &RoundUiBorder) -> bool {
        &&& self.top_left.same_number(other.top_left)
        &&& self.top_right.same_number(other.top_right)
        &&& self.bottom_left.same_number(other.bottom_left)
        &&& self.bottom_right.same_number(other.bottom_right)
    }
}

impl From<RoundUiBorder> for Vec4 {
    /// The corners in the order bottom right, top right, bottom left, top
    /// left.
    fn from(val: RoundUiBorder) -> (v: Vec4) {
        Vec4::new(val.bottom_right, val.top_right, val.bottom_left, val.top_left)
    }
}

impl vstd::std_specs::convert::FromSpecImpl<RoundUiBorder> for Vec4 {
    open spec fn obeys_from_spec() -> bool {
        true
    }

    open spec fn from_spec(val: RoundUiBorder) -> Vec4 {
        Vec4 { x: val.bottom_right, y: val.top_right, z: val.bottom_left, w: val.top_left }
    }
}

impl From<Vec4> for RoundUiBorder {
    /// The components as bottom right, top right, bottom left, top left.
    fn from(val: Vec4) -> (r: RoundUiBorder) {
        RoundUiBorder {
            top_left: val.w,
            top_right: val.y,
            bottom_left: val.z,
            bottom_right: val.x,
        }
    }
}

impl vstd::std_specs::convert::FromSpecImpl<Vec4> for RoundUiBorder {
    open spec fn obeys_from_spec() -> bool {
        true
    }

    open spec fn from_spec(val: Vec4) -> RoundUiBorder {
        RoundUiBorder {
            top_left: val.w,
            top_right: val.y,
            bottom_left: val.z,
            bottom_right: val.x,
        }
    }
}

/// An offset made into a vector and back is the offset it was, pattern for
/// pattern; so the two are equal wherever the offset's sides are numbers.
pub proof fn lemma_offset_round_trip(offset: RoundUiOffset)
    ensures
        RoundUiOffset::from_spec(Vec4::from_spec(offset)) == offset,
        offset_is_numbers(offset) ==> RoundUiOffset::from_spec(Vec4::from_spec(offset)).eq_spec(
            &offset,
        ),
{
}

/// A vector made into an offset and back is the vector it was.
pub proof fn lemma_vector_offset_round_trip(vector: Vec4)
    ensures
        Vec4::from_spec(RoundUiOffset::from_spec(vector)) == vector,
{
}

/// A border made into a vector and back is the border it was, pattern for
/// pattern; so the two are equal wherever the border's corners are numbers.
pub proof fn lemma_border_round_trip(border: RoundUiBorder)
    ensures
        RoundUiBorder::from_spec(Vec4::from_spec(border)) == border,
        border_is_numbers(border) ==> RoundUiBorder::from_spec(Vec4::from_spec(border)).eq_spec(
            &border,
        ),
{
}

/// A vector made into a border and back is the vector it was.
pub proof fn lemma_vector_border_round_trip(vector: Vec4)
    ensures
        Vec4::from_spec(RoundUiBorder::from_spec(vector)) == vector,
{
}

/// Whether all four sides of an offset are numbers.
pub open spec fn offset_is_numbers(offset: RoundUiOffset) -> bool {
    &&& !offset.top.is_nan_spec()
    &&& !offset.left.is_nan_spec()
    &&& !offset.bottom.is_nan_spec()
    &&& !offset.right.is_nan_spec()
}

/// Whether all four corners of a border are numbers.
pub open spec fn border_is_numbers(border: RoundUiBorder) -> bool {
    &&& !border.top_left.is_nan_spec()
    &&& !border.top_right.is_nan_spec()
    &&& !border.bottom_left.is_nan_spec()
    &&& !border.bottom_right.is_nan_spec()
}

/// Equality of offsets goes side by side: two offsets are equal exactly where
/// each side of the one is the same number as that side of the other. So an
/// offset of four numbers equals itself, equality does not depend on the order
/// of the two, and two offsets that differ in the number on some side are not
/// equal.
pub proof fn lemma_offset_equality(a: RoundUiOffset, b: RoundUiOffset)
    ensures
        a.eq_spec(&b) == b.eq_spec(&a),
        a.eq_spec(&b) ==> offset_is_numbers(a) && offset_is_numbers(b),
        offset_is_numbers(a) ==> a.eq_spec(&a),
        offset_is_numbers(a) && offset_is_numbers(b) ==> (a.eq_spec(&b) <==> {
            &&& a.top.rank() == b.top.rank()
            &&& a.left.rank() == b.left.rank()
            &&& a.bottom.rank() == b.bottom.rank()
            &&& a.right.rank() == b.right.rank()
        }),
{
}

/// Equality of borders goes corner by corner: two borders are equal exactly
/// where each corner of the one is the same number as that corner of the
/// other. So a border of four numbers equals itself, equality does not depend
/// on the order of the two, and two borders that differ in the number at some
/// corner are not equal.
pub proof fn lemma_border_equality(a: RoundUiBorder, b: RoundUiBorder)
    ensures
        a.eq_spec(&b) == b.eq_spec(&a),
        a.eq_spec(&b) ==> border_is_numbers(a) && border_is_numbers(b),
        border_is_numbers(a) ==> a.eq_spec(&a),
        border_is_numbers(a) && border_is_numbers(b) ==> (a.eq_spec(&b) <==> {
            &&& a.top_left.rank() == b.top_left.rank()
            &&& a.top_right.rank() == b.top_right.rank()
            &&& a.bottom_left.rank() == b.bottom_left.rank()
            &&& a.bottom_right.rank() == b.bottom_right.rank()
        }),
{
}

} // verus!
