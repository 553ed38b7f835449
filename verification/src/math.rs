//! Vectors of two and of four numbers, as the panels' shaders read them.

use crate::single::Single;
use vstd::prelude::*;

verus! {

/// A vector of two numbers.
#[derive(Clone, Copy, Debug)]
pub struct Vec2 {
    pub x: Single,
    pub y: Single,
}

impl Vec2 {
    /// The vector with the given components.
    pub fn new(x: Single, y: Single) -> (v: Vec2)
        ensures
            v == (Vec2 { x, y }),
    {
        Vec2 { x, y }
    }
}

/// A vector of four numbers.
#[derive(Clone, Copy, Debug)]
pub struct Vec4 {
    pub x: Single,
    pub y: Single,
    pub z: Single,
    pub w: Single,
}

impl Vec4 {
    /// The vector with the given components.
    pub fn new(x: Single, y: Single, z: Single, w: Single) -> (v: Vec4)
        ensures
            v == (Vec4 { x, y, z, w }),
    {
        Vec4 { x, y, z, w }
    }

    /// The vector whose four components are all `v`.
    pub open spec fn splat_spec(v: Single) -> Vec4 {
        Vec4 { x: v, y: v, z: v, w: v }
    }

    /// The vector whose four components are all `v`.
    #[verifier::when_used_as_spec(splat_spec)]
    pub fn splat(v: Single) -> (r: Vec4)
        ensures
            r == Vec4::splat_spec(v),
    {
        Vec4 { x: v, y: v, z: v, w: v }
    }
}

} // verus!
