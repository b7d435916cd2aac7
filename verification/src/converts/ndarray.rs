//! From arrays to images.

use crate::array::{array_data, array_into_raw_vec, array_shape, array_shape_vec, SampleArray};
use crate::buffer::{dynamic_samples, dynamic_shape, image_fits, luma8_from_raw, rgb8_from_raw};
use crate::layout::{image_shape, image_shape_of, supported_rank, ImageShape};
use crate::toimage::IntoImage;
use vstd::prelude::*;

verus! {

/// The array is read as `[height, width]` for one channel and as
/// `[height, width, channels]` for three: the channel axis comes last here.
impl IntoImage for SampleArray {
    type Output = image::DynamicImage;

    /// An array of two or three axes whose buffer holds the image that its
    /// first two axes describe.
    open spec fn has_image(&self) -> bool {
        match image_shape_of(array_shape(*self)) {
            Some(shape) => image_fits(
                shape.channels(),
                shape.width(),
                shape.height(),
                array_data(*self).len() as int,
            ),
            None => false,
        }
    }

    /// The image of one channel for two axes and of three channels for
    /// three, `shape[1]` wide and `shape[0]` high, over the array's buffer
    /// in storage order.
    fn into_image(self) -> (out: image::DynamicImage)
        ensures
            supported_rank(array_shape(self).len()),
            dynamic_shape(out) == image_shape_of(array_shape(self)),
            array_shape(self).len() == 2 ==> dynamic_shape(out) == Some(
                ImageShape::Luma {
                    width: array_shape(self)[1] as u32,
                    height: array_shape(self)[0] as u32,
                },
            ),
            array_shape(self).len() == 3 ==> dynamic_shape(out) == Some(
                ImageShape::Rgb {
                    width: array_shape(self)[1] as u32,
                    height: array_shape(self)[0] as u32,
                },
            ),
            dynamic_samples(out) == array_data(self),
    {
        let shape = array_shape_vec(&self);
        match image_shape(shape.as_slice()) {
            Ok(ImageShape::Luma { width, height }) => {
                let data = array_into_raw_vec(self);
                match luma8_from_raw(width, height, data) {
                    Some(out) => out,
                    None => vstd::pervasive::unreached(),
                }
            },
            Ok(ImageShape::Rgb { width, height }) => {
                let data = array_into_raw_vec(self);
                match rgb8_from_raw(width, height, data) {
                    Some(out) => out,
                    None => vstd::pervasive::unreached(),
                }
            },
            Err(_) => vstd::pervasive::unreached(),
        }
    }
}

} // verus!
