//! Pixel buffers: 8-bit images of one or three channels, kept in the
//! `image` crate's own buffer type.

use crate::layout::{ImageShape, SampleLayout};
use crate::raster::Raster;
use vstd::prelude::*;

verus! {

/// An image of one 8-bit channel, an `image::GrayImage`.
#[verifier::external_body]
pub struct GrayBuffer(pub image::GrayImage);

/// An image of three 8-bit channels, an `image::RgbImage`.
#[verifier::external_body]
pub struct RgbBuffer(pub image::RgbImage);

/// The samples of the image, as its container holds them.
pub uninterp spec fn gray_samples(img: GrayBuffer) -> Seq<u8>;

/// Width and height of the image, in pixels.
pub uninterp spec fn gray_dimensions(img: GrayBuffer) -> (u32, u32);

/// The samples of the image, as its container holds them.
pub uninterp spec fn rgb_samples(img: RgbBuffer) -> Seq<u8>;

/// Width and height of the image, in pixels.
pub uninterp spec fn rgb_dimensions(img: RgbBuffer) -> (u32, u32);

/// The packed row-major layout of an image of the given size.
pub open spec fn packed_layout(channels: u8, width: u32, height: u32) -> SampleLayout {
    SampleLayout {
        channels,
        channel_stride: 1,
        width,
        width_stride: channels as usize,
        height,
        height_stride: (channels * width) as usize,
    }
}

impl View for GrayBuffer {
    type V = Raster;

    open spec fn view(&self) -> Raster {
        Raster {
            layout: packed_layout(1, gray_dimensions(*self).0, gray_dimensions(*self).1),
            samples: gray_samples(*self),
        }
    }
}

impl View for RgbBuffer {
    type V = Raster;

    open spec fn view(&self) -> Raster {
        Raster {
            layout: packed_layout(3, rgb_dimensions(*self).0, rgb_dimensions(*self).1),
            samples: rgb_samples(*self),
        }
    }
}

/// `ImageBuffer::sample_layout` on a gray image: one channel, packed row
/// after row, for the image's own width and height. The buffer holds at
/// least `width * height` samples, which `image` checks whenever it makes a
/// buffer.
#[verifier::external_body]
pub(crate) fn gray_sample_layout(img: &GrayBuffer) -> (layout: SampleLayout)
    ensures
        layout == packed_layout(1, gray_dimensions(*img).0, gray_dimensions(*img).1),
        layout.is_packed(),
        layout.volume() <= gray_samples(*img).len(),
{
    let l = img.0.sample_layout();
    SampleLayout {
        channels: l.channels,
        channel_stride: l.channel_stride,
        width: l.width,
        width_stride: l.width_stride,
        height: l.height,
        height_stride: l.height_stride,
    }
}

/// `ImageBuffer::sample_layout` on an RGB image: three channels, packed row
/// after row, for the image's own width and height. The buffer holds at
/// least `3 * width * height` samples, which `image` checks whenever it
/// makes a buffer.
#[verifier::external_body]
pub(crate) fn rgb_sample_layout(img: &RgbBuffer) -> (layout: SampleLayout)
    ensures
        layout == packed_layout(3, rgb_dimensions(*img).0, rgb_dimensions(*img).1),
        layout.is_packed(),
        layout.volume() <= rgb_samples(*img).len(),
{
    let l = img.0.sample_layout();
    SampleLayout {
        channels: l.channels,
        channel_stride: l.channel_stride,
        width: l.width,
        width_stride: l.width_stride,
        height: l.height,
        height_stride: l.height_stride,
    }
}

/// `ImageBuffer::into_raw` on a gray image: the container with all samples.
/// A `Vec` never holds more than `isize::MAX` bytes.
#[verifier::external_body]
pub(crate) fn gray_into_raw(img: GrayBuffer) -> (data: Vec<u8>)
    ensures
        data@ == gray_samples(img),
        data@.len() <= isize::MAX,
{
    img.0.into_raw()
}

/// `ImageBuffer::into_raw` on an RGB image: the container with all samples.
/// A `Vec` never holds more than `isize::MAX` bytes.
#[verifier::external_body]
pub(crate) fn rgb_into_raw(img: RgbBuffer) -> (data: Vec<u8>)
    ensures
        data@ == rgb_samples(img),
        data@.len() <= isize::MAX,
{
    img.0.into_raw()
}

/// `Deref` of a gray image: all samples as a slice. A slice never spans
/// more than `isize::MAX` bytes.
#[verifier::external_body]
pub(crate) fn gray_as_slice<'a>(img: &'a GrayBuffer) -> (data: &'a [u8])
    ensures
        data@ == gray_samples(*img),
        data@.len() <= isize::MAX,
{
    &*img.0
}

/// `Deref` of an RGB image: all samples as a slice. A slice never spans
/// more than `isize::MAX` bytes.
#[verifier::external_body]
pub(crate) fn rgb_as_slice<'a>(img: &'a RgbBuffer) -> (data: &'a [u8])
    ensures
        data@ == rgb_samples(*img),
        data@.len() <= isize::MAX,
{
    &*img.0
}

/// `DerefMut` of a gray image: all samples as a slice to write through.
/// What the slice holds in the end is what the image holds; its width and
/// height stay, and so does the number of samples.
#[verifier::external_body]
pub(crate) fn gray_as_mut_slice<'a>(img: &'a mut GrayBuffer) -> (data: &'a mut [u8])
    ensures
        data@ == gray_samples(*old(img)),
        data@.len() <= isize::MAX,
        gray_samples(*final(img)) == final(data)@,
        final(data)@.len() == data@.len(),
        gray_dimensions(*final(img)) == gray_dimensions(*old(img)),
{
    &mut *img.0
}

/// `DerefMut` of an RGB image: all samples as a slice to write through.
/// What the slice holds in the end is what the image holds; its width and
/// height stay, and so does the number of samples.
#[verifier::external_body]
pub(crate) fn rgb_as_mut_slice<'a>(img: &'a mut RgbBuffer) -> (data: &'a mut [u8])
    ensures
        data@ == rgb_samples(*old(img)),
        data@.len() <= isize::MAX,
        rgb_samples(*final(img)) == final(data)@,
        final(data)@.len() == data@.len(),
        rgb_dimensions(*final(img)) == rgb_dimensions(*old(img)),
{
    &mut *img.0
}

#[verifier::external_type_specification]
#[verifier::external_body]
pub struct ExDynamicImage(image::DynamicImage);

/// The kind and size of the image where it is an 8-bit image of one or of
/// three channels, and `None` for every other kind.
pub uninterp spec fn dynamic_shape(img: image::DynamicImage) -> Option<ImageShape>;

/// The samples of the image as bytes, as its container holds them.
pub uninterp spec fn dynamic_samples(img: image::DynamicImage) -> Seq<u8>;

/// Whether a buffer of `len` samples holds an image of this size: the
/// samples of one row can be counted in a machine word, and the buffer has
/// room for all rows.
pub open spec fn image_fits(channels: int, width: u32, height: u32, len: int) -> bool {
    channels * width <= usize::MAX && channels * width * height <= len
}

/// `ImageBuffer::from_raw` for one 8-bit channel, as a `DynamicImage`.
///
/// `image` takes the buffer exactly where `width * height` samples fit in
/// it, and keeps the size and the buffer as given.
#[verifier::external_body]
pub(crate) fn luma8_from_raw(width: u32, height: u32, data: Vec<u8>) -> (made: Option<
    image::DynamicImage,
>)
    ensures
        made is Some <==> image_fits(1, width, height, data@.len() as int),
        made matches Some(img) ==> {
            &&& dynamic_shape(img) == Some(ImageShape::Luma { width, height })
            &&& dynamic_samples(img) == data@
        },
{
    image::GrayImage::from_raw(width, height, data).map(image::DynamicImage::ImageLuma8)
}

/// `ImageBuffer::from_raw` for three 8-bit channels, as a `DynamicImage`.
///
/// `image` takes the buffer exactly where `3 * width * height` samples fit
/// in it, and keeps the size and the buffer as given.
#[verifier::external_body]
pub(crate) fn rgb8_from_raw(width: u32, height: u32, data: Vec<u8>) -> (made: Option<
    image::DynamicImage,
>)
    ensures
        made is Some <==> image_fits(3, width, height, data@.len() as int),
        made matches Some(img) ==> {
            &&& dynamic_shape(img) == Some(ImageShape::Rgb { width, height })
            &&& dynamic_samples(img) == data@
        },
{
    image::RgbImage::from_raw(width, height, data).map(image::DynamicImage::ImageRgb8)
}

} // verus!
