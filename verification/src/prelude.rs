//! What most users of the panels need, in one place.

pub use crate::color::LinearRgba;
pub use crate::math::{Vec2, Vec4};
pub use crate::round_rect::{RoundRectUiMaterial, ROUND_RECT_SHADER_ID};
pub use crate::single::Single;
pub use crate::superellipse::{SuperellipseUiMaterial, SUPERELLIPSE_SHADER_ID};
pub use crate::types::{RoundUiBorder, RoundUiOffset};
pub use crate::ui::{Style, UiRect, Val};
