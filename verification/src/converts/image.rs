//! From pixel buffers to arrays: owning, borrowing and borrowing to write.

use crate::array::{
    array_data, as_signed, signed_ints, strided_array, strided_view, strided_view_mut,
    SampleArray, SampleView, SampleViewMut, Strided,
};
use crate::buffer::{
    gray_as_mut_slice, gray_as_slice, gray_into_raw, gray_sample_layout, rgb_as_mut_slice,
    rgb_as_slice, rgb_into_raw, rgb_sample_layout, GrayBuffer, RgbBuffer,
};
use crate::layout::{
    array_layout, array_shape_of, array_strides_of, size_ints, supported_channels, SampleLayout,
};
use crate::strided::{lemma_packed_image_fits, strided_fits};
use crate::tondarray::{IntoNdarray, MutNdarray, RefNdarray};
use vstd::prelude::*;

verus! {

/// Strides that fit a signed word read the same signed and unsigned.
proof fn lemma_signed_strides(strides: Seq<usize>)
    requires
        forall|i: int| 0 <= i < strides.len() ==> #[trigger] size_ints(strides)[i] <= isize::MAX,
    ensures
        signed_ints(as_signed(strides)) == size_ints(strides),
{
    assert forall|i: int| 0 <= i < strides.len() implies signed_ints(as_signed(strides))[i]
        == size_ints(strides)[i] by {
        assert(size_ints(strides)[i] == strides[i] as int);
        assert(strides[i] as isize == strides[i]);
    }
    assert(signed_ints(as_signed(strides)) =~= size_ints(strides));
}

/// Makes the array that owns `data` and addresses it as `layout` says:
/// `[height, width]` for one channel, `[channels, height, width]` for
/// three, each axis with the stride of the image in that direction.
pub fn array_from_samples(layout: &SampleLayout, data: Vec<u8>) -> (out: SampleArray)
    requires
        supported_channels(layout.channels),
        strided_fits(array_shape_of(*layout), array_strides_of(*layout), data@.len() as int),
    ensures
        out@ == Strided::over(array_shape_of(*layout), array_strides_of(*layout), data@),
        array_data(out) == data@,
{
    match array_layout(layout) {
        Ok(array) => {
            proof {
                lemma_signed_strides(array.strides@);
            }
            match strided_array(&array.shape, &array.strides, data) {
                Some(out) => {
                    assert(out@.elements =~= Strided::over(
                        array_shape_of(*layout),
                        array_strides_of(*layout),
                        data@,
                    ).elements);
                    out
                },
                None => vstd::pervasive::unreached(),
            }
        },
        Err(_) => vstd::pervasive::unreached(),
    }
}

/// Makes the read-only view that addresses the borrowed `data` as `layout`
/// says, with the shape and strides of [`array_from_samples`].
pub fn view_of_samples<'a>(layout: &SampleLayout, data: &'a [u8]) -> (out: SampleView<'a>)
    requires
        supported_channels(layout.channels),
        strided_fits(array_shape_of(*layout), array_strides_of(*layout), data@.len() as int),
    ensures
        out@ == Strided::over(array_shape_of(*layout), array_strides_of(*layout), data@),
{
    match array_layout(layout) {
        Ok(array) => {
            proof {
                lemma_signed_strides(array.strides@);
            }
            match strided_view(&array.shape, &array.strides, data) {
                Some(out) => {
                    assert(out@.elements =~= Strided::over(
                        array_shape_of(*layout),
                        array_strides_of(*layout),
                        data@,
                    ).elements);
                    out
                },
                None => vstd::pervasive::unreached(),
            }
        },
        Err(_) => vstd::pervasive::unreached(),
    }
}

/// Makes the writable view that addresses the borrowed `data` as `layout`
/// says, with the shape and strides of [`array_from_samples`]. What is
/// written through the view is written to `data`, which keeps its length.
pub fn view_mut_of_samples<'a>(layout: &SampleLayout, data: &'a mut [u8]) -> (out: SampleViewMut<
    'a,
>)
    requires
        supported_channels(layout.channels),
        strided_fits(
            array_shape_of(*layout),
            array_strides_of(*layout),
            old(data)@.len() as int,
        ),
    ensures
        out@ == Strided::over(array_shape_of(*layout), array_strides_of(*layout), old(data)@),
        final(data)@.len() == old(data)@.len(),
{
    match array_layout(layout) {
        Ok(array) => {
            proof {
                lemma_signed_strides(array.strides@);
            }
            match strided_view_mut(&array.shape, &array.strides, data) {
                Some(out) => {
                    assert(out@.elements =~= Strided::over(
                        array_shape_of(*layout),
                        array_strides_of(*layout),
                        old(data)@,
                    ).elements);
                    out
                },
                None => vstd::pervasive::unreached(),
            }
        },
        Err(_) => vstd::pervasive::unreached(),
    }
}

impl IntoNdarray for GrayBuffer {
    type Output = SampleArray;

    open spec fn has_ndarray(&self) -> bool {
        self@.has_array()
    }

    /// The image as a `[height, width]` array that owns its samples.
    fn into_ndarray(self) -> (out: SampleArray)
        ensures
            self@.wf(),
            out@.shape == seq![self@.layout.height as int, self@.layout.width as int],
            out@.strides == seq![self@.layout.width as int, 1int],
            out@ == self@.as_array(),
            array_data(out) == self@.samples,
    {
        let layout = gray_sample_layout(&self);
        let data = gray_into_raw(self);
        proof {
            if self@.has_pixels() {
                lemma_packed_image_fits(layout, data@.len() as int);
            }
        }
        array_from_samples(&layout, data)
    }
}

impl IntoNdarray for RgbBuffer {
    type Output = SampleArray;

    open spec fn has_ndarray(&self) -> bool {
        self@.has_array()
    }

    /// The image as a `[3, height, width]` array that owns its samples.
    fn into_ndarray(self) -> (out: SampleArray)
        ensures
            self@.wf(),
            out@.shape == seq![3int, self@.layout.height as int, self@.layout.width as int],
            out@.strides == seq![1int, 3 * self@.layout.width, 3int],
            out@ == self@.as_array(),
            array_data(out) == self@.samples,
    {
        let layout = rgb_sample_layout(&self);
        let data = rgb_into_raw(self);
        proof {
            if self@.has_pixels() {
                lemma_packed_image_fits(layout, data@.len() as int);
            }
        }
        array_from_samples(&layout, data)
    }
}

impl<'a> RefNdarray for &'a GrayBuffer {
    type Output = SampleView<'a>;

    open spec fn has_ndarray(&self) -> bool {
        (**self)@.has_array()
    }

    /// The image as a read-only `[height, width]` view of its samples.
    fn ref_ndarray(self) -> (out: SampleView<'a>)
        ensures
            self@.wf(),
            out@.shape == seq![self@.layout.height as int, self@.layout.width as int],
            out@.strides == seq![self@.layout.width as int, 1int],
            out@ == self@.as_array(),
    {
        let layout = gray_sample_layout(self);
        let data = gray_as_slice(self);
        proof {
            if self@.has_pixels() {
                lemma_packed_image_fits(layout, data@.len() as int);
            }
        }
        view_of_samples(&layout, data)
    }
}

impl<'a> RefNdarray for &'a RgbBuffer {
    type Output = SampleView<'a>;

    open spec fn has_ndarray(&self) -> bool {
        (**self)@.has_array()
    }

    /// The image as a read-only `[3, height, width]` view of its samples.
    fn ref_ndarray(self) -> (out: SampleView<'a>)
        ensures
            self@.wf(),
            out@.shape == seq![3int, self@.layout.height as int, self@.layout.width as int],
            out@.strides == seq![1int, 3 * self@.layout.width, 3int],
            out@ == self@.as_array(),
    {
        let layout = rgb_sample_layout(self);
        let data = rgb_as_slice(self);
        proof {
            if self@.has_pixels() {
                lemma_packed_image_fits(layout, data@.len() as int);
            }
        }
        view_of_samples(&layout, data)
    }
}

impl<'a> MutNdarray for &'a mut GrayBuffer {
    type Output = SampleViewMut<'a>;

    open spec fn has_ndarray(&self) -> bool {
        (**self)@.has_array()
    }

    /// The image as a writable `[height, width]` view of its samples. The
    /// image keeps its size and the number of its samples.
    fn mut_ndarray(self) -> (out: SampleViewMut<'a>)
        ensures
            old(self)@.wf(),
            out@.shape == seq![old(self)@.layout.height as int, old(self)@.layout.width as int],
            out@.strides == seq![old(self)@.layout.width as int, 1int],
            out@ == old(self)@.as_array(),
            final(self)@.layout == old(self)@.layout,
            final(self)@.samples.len() == old(self)@.samples.len(),
    {
        let layout = gray_sample_layout(self);
        let data = gray_as_mut_slice(self);
        proof {
            if old(self)@.has_pixels() {
                lemma_packed_image_fits(layout, data@.len() as int);
            }
        }
        view_mut_of_samples(&layout, data)
    }
}

impl<'a> MutNdarray for &'a mut RgbBuffer {
    type Output = SampleViewMut<'a>;

    open spec fn has_ndarray(&self) -> bool {
        (**self)@.has_array()
    }

    /// The image as a writable `[3, height, width]` view of its samples.
    /// The image keeps its size and the number of its samples.
    fn mut_ndarray(self) -> (out: SampleViewMut<'a>)
        ensures
            old(self)@.wf(),
            out@.shape == seq![
                3int,
                old(self)@.layout.height as int,
                old(self)@.layout.width as int,
            ],
            out@.strides == seq![1int, 3 * old(self)@.layout.width, 3int],
            out@ == old(self)@.as_array(),
            final(self)@.layout == old(self)@.layout,
            final(self)@.samples.len() == old(self)@.samples.len(),
    {
        let layout = rgb_sample_layout(self);
        let data = rgb_as_mut_slice(self);
        proof {
            if old(self)@.has_pixels() {
                lemma_packed_image_fits(layout, data@.len() as int);
            }
        }
        view_mut_of_samples(&layout, data)
    }
}

} // verus!
