//! Colours of a panel.

use crate::single::Single;
use vstd::prelude::*;

verus! {

/// A colour by its red, green and blue parts, each linear in the light it
/// stands for, and its opacity.
#[derive(Clone, Copy, Debug)]
pub struct LinearRgba {
    pub red: Single,
    pub green: Single,
    pub blue: Single,
    pub alpha: Single,
}

impl LinearRgba {
    /// White, fully opaque: one in all four parts.
    pub open spec fn white_spec() -> LinearRgba {
        LinearRgba {
            red: Single::one(),
            green: Single::one(),
            blue: Single::one(),
            alpha: Single::one(),
        }
    }

    /// No colour, fully transparent: zero in all four parts.
    pub open spec fn none_spec() -> LinearRgba {
        LinearRgba {
            red: Single::zero(),
            green: Single::zero(),
            blue: Single::zero(),
            alpha: Single::zero(),
        }
    }

    /// White, fully opaque.
    #[verifier::when_used_as_spec(white_spec)]
    pub fn white() -> (r: LinearRgba)
        ensures
            r == LinearRgba::white_spec(),
    {
        LinearRgba {
            red: Single::one(),
            green: Single::one(),
            blue: Single::one(),
            alpha: Single::one(),
        }
    }

    /// No colour, fully transparent.
    #[verifier::when_used_as_spec(none_spec)]
    pub fn none() -> (r: LinearRgba)
        ensures
            r == LinearRgba::none_spec(),
    {
        LinearRgba {
            red: Single::zero(),
            green: Single::zero(),
            blue: Single::zero(),
            alpha: Single::zero(),
        }
    }
}

} // verus!
