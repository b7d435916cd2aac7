//! Conversions between 8-bit pixel buffers and strided n-dimensional arrays.
//!
//! A pixel buffer stores its samples interleaved, row after row. The array
//! side addresses the same samples through a shape and a stride per axis:
//! `[height, width]` for one channel, `[channels, height, width]` for three.
//! In the other direction an array of two axes is read as `[height, width]`
//! and one of three axes as `[height, width, channels]`.

pub mod array;
pub mod buffer;
pub mod converts;
pub mod layout;
pub mod raster;
pub mod strided;
pub mod toimage;
pub mod tondarray;

pub use toimage::IntoImage;
pub use tondarray::{IntoNdarray, MutNdarray, RefNdarray};
