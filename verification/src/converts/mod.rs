//! The conversions themselves.

pub mod image;
pub mod ndarray;
