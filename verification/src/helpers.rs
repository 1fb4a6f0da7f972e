//! Helper generators for common pattern families.

pub mod html_pattern;
pub mod persian_pattern;
