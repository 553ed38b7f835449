//! Geometry of rounded panels for a user interface: the radius of each
//! corner, the inward offset of each side, and the padding that keeps a
//! panel's content clear of both.
//!
//! Every length is a [`single::Single`]: a single-precision number of
//! IEEE 754 held by its bit pattern, so that each value is moved and compared
//! exactly.

pub mod assets;
pub mod autosize;
pub mod color;
pub mod math;
pub mod padding;
pub mod prelude;
pub mod round_rect;
pub mod single;
pub mod superellipse;
pub mod types;
pub mod ui;
