//! Strided arrays of 8-bit samples, kept in the `ndarray` crate's own
//! dynamic-dimensional array and view types.

use crate::layout::{index_in_shape, offset_of, size_ints};
use crate::strided::strided_fits;
use vstd::prelude::*;

verus! {

/// What an array or a view holds: the size of each axis, the stride of each
/// axis, and the element at each index inside the shape.
pub struct Strided {
    pub shape: Seq<int>,
    pub strides: Seq<int>,
    pub elements: Map<Seq<int>, u8>,
}

impl Strided {
    /// The array of this shape and these strides over `data`, its first
    /// element the first of `data`: the element at an index is found at the
    /// coordinates weighted by the strides.
    pub open spec fn over(shape: Seq<int>, strides: Seq<int>, data: Seq<u8>) -> Strided {
        Strided {
            shape,
            strides,
            elements: Map::new(
                |index: Seq<int>| index_in_shape(shape, index),
                |index: Seq<int>| data[offset_of(strides, index)],
            ),
        }
    }

    /// The element at `index`.
    pub open spec fn element(self, index: Seq<int>) -> u8 {
        self.elements[index]
    }

    /// The first `n` elements along the last axis, from the element at
    /// `row` with a last coordinate of zero on, added up.
    pub open spec fn row_sum(self, row: Seq<int>, n: int) -> int
        decreases n,
    {
        if n <= 0 {
            0
        } else {
            self.row_sum(row, n - 1) + self.element(row.push(n - 1))
        }
    }
}

/// Strides as mathematical integers.
pub open spec fn signed_ints(strides: Seq<isize>) -> Seq<int> {
    strides.map_values(|s: isize| s as int)
}

/// Strides as the array keeps them: the same words, read as signed.
pub open spec fn as_signed(strides: Seq<usize>) -> Seq<isize> {
    strides.map_values(|s: usize| s as isize)
}

/// An array that owns its samples, an `ndarray::ArrayD<u8>`.
#[verifier::external_body]
pub struct SampleArray(pub ndarray::ArrayD<u8>);

/// A read-only array over borrowed samples, an `ndarray::ArrayViewD<u8>`.
#[verifier::external_body]
pub struct SampleView<'a>(pub ndarray::ArrayViewD<'a, u8>);

/// A writable array over borrowed samples, an `ndarray::ArrayViewMutD<u8>`.
#[verifier::external_body]
pub struct SampleViewMut<'a>(pub ndarray::ArrayViewMutD<'a, u8>);

/// The size of each axis.
pub uninterp spec fn array_shape(a: SampleArray) -> Seq<usize>;

/// The stride of each axis, in elements.
pub uninterp spec fn array_strides(a: SampleArray) -> Seq<isize>;

/// The element at `index`.
pub uninterp spec fn array_at(a: SampleArray, index: Seq<int>) -> u8;

/// The buffer that the array owns, in storage order.
pub uninterp spec fn array_data(a: SampleArray) -> Seq<u8>;

/// The size of each axis.
pub uninterp spec fn view_shape(v: SampleView<'_>) -> Seq<usize>;

/// The stride of each axis, in elements.
pub uninterp spec fn view_strides(v: SampleView<'_>) -> Seq<isize>;

/// The element at `index`.
pub uninterp spec fn view_at(v: SampleView<'_>, index: Seq<int>) -> u8;

/// The size of each axis.
pub uninterp spec fn view_mut_shape(v: SampleViewMut<'_>) -> Seq<usize>;

/// The stride of each axis, in elements.
pub uninterp spec fn view_mut_strides(v: SampleViewMut<'_>) -> Seq<isize>;

/// The element at `index`, as it is when the view is made.
pub uninterp spec fn view_mut_at(v: SampleViewMut<'_>, index: Seq<int>) -> u8;

impl View for SampleArray {
    type V = Strided;

    open spec fn view(&self) -> Strided {
        Strided {
            shape: size_ints(array_shape(*self)),
            strides: signed_ints(array_strides(*self)),
            elements: Map::new(
                |index: Seq<int>| index_in_shape(size_ints(array_shape(*self)), index),
                |index: Seq<int>| array_at(*self, index),
            ),
        }
    }
}

impl<'a> View for SampleView<'a> {
    type V = Strided;

    open spec fn view(&self) -> Strided {
        Strided {
            shape: size_ints(view_shape(*self)),
            strides: signed_ints(view_strides(*self)),
            elements: Map::new(
                |index: Seq<int>| index_in_shape(size_ints(view_shape(*self)), index),
                |index: Seq<int>| view_at(*self, index),
            ),
        }
    }
}

impl<'a> View for SampleViewMut<'a> {
    type V = Strided;

    open spec fn view(&self) -> Strided {
        Strided {
            shape: size_ints(view_mut_shape(*self)),
            strides: signed_ints(view_mut_strides(*self)),
            elements: Map::new(
                |index: Seq<int>| index_in_shape(size_ints(view_mut_shape(*self)), index),
                |index: Seq<int>| view_mut_at(*self, index),
            ),
        }
    }
}

/// `ArrayD::from_shape_vec` with custom strides.
///
/// `ndarray` takes a shape and strides that meet [`strided_fits`] for the
/// length of `data`: it asks for equal axis counts, an element count and a
/// farthest offset within `isize::MAX`, the farthest offset inside the data
/// (at most its length where an axis is empty), and, going through the axes
/// of more than one element by growing stride, each stride above the spans
/// of the axes before it. With no stride negative the first element of the
/// array is the first of `data`, and the element at an index lies at the
/// coordinates weighted by the strides. Whenever an array is made it has
/// this shape and these strides, read as signed words, and owns `data`
/// unchanged.
#[verifier::external_body]
pub(crate) fn strided_array(shape: &Vec<usize>, strides: &Vec<usize>, data: Vec<u8>) -> (made:
    Option<SampleArray>)
    ensures
        strided_fits(size_ints(shape@), size_ints(strides@), data@.len() as int) ==> (made matches Some(a)
            && forall|index: Seq<int>|
            index_in_shape(size_ints(shape@), index) ==> #[trigger] array_at(a, index)
                == data@[offset_of(size_ints(strides@), index)]),
        made matches Some(a) ==> {
            &&& array_shape(a) == shape@
            &&& array_strides(a) == as_signed(strides@)
            &&& array_data(a) == data@
        },
{
    let dim = ndarray::ShapeBuilder::strides(ndarray::IxDyn(shape), ndarray::IxDyn(strides));
    ndarray::ArrayD::from_shape_vec(dim, data).ok().map(SampleArray)
}

/// `ArrayViewD::from_shape` with custom strides: accepts what
/// `ArrayD::from_shape_vec` accepts, see [`strided_array`], and gives a view
/// of this shape and these strides whose elements are those of `data`, the
/// first element the first of `data`.
#[verifier::external_body]
pub(crate) fn strided_view<'a>(shape: &Vec<usize>, strides: &Vec<usize>, data: &'a [u8]) -> (made:
    Option<SampleView<'a>>)
    ensures
        strided_fits(size_ints(shape@), size_ints(strides@), data@.len() as int) ==> (made matches Some(v)
            && forall|index: Seq<int>|
            index_in_shape(size_ints(shape@), index) ==> #[trigger] view_at(v, index)
                == data@[offset_of(size_ints(strides@), index)]),
        made matches Some(v) ==> {
            &&& view_shape(v) == shape@
            &&& view_strides(v) == as_signed(strides@)
        },
{
    let dim = ndarray::ShapeBuilder::strides(ndarray::IxDyn(shape), ndarray::IxDyn(strides));
    ndarray::ArrayViewD::from_shape(dim, data).ok().map(SampleView)
}

/// `ArrayViewMutD::from_shape` with custom strides: accepts what
/// `ArrayD::from_shape_vec` accepts, see [`strided_array`], and gives a view
/// of this shape and these strides whose elements are those of `data`, the
/// first element the first of `data`. Writing through the view changes
/// samples of `data`, never their number.
#[verifier::external_body]
pub(crate) fn strided_view_mut<'a>(
    shape: &Vec<usize>,
    strides: &Vec<usize>,
    data: &'a mut [u8],
) -> (made: Option<SampleViewMut<'a>>)
    ensures
        strided_fits(size_ints(shape@), size_ints(strides@), old(data)@.len() as int) ==> (made matches Some(v)
            && forall|index: Seq<int>|
            index_in_shape(size_ints(shape@), index) ==> #[trigger] view_mut_at(v, index)
                == old(data)@[offset_of(size_ints(strides@), index)]),
        made matches Some(v) ==> {
            &&& view_mut_shape(v) == shape@
            &&& view_mut_strides(v) == as_signed(strides@)
        },
        final(data)@.len() == old(data)@.len(),
{
    let dim = ndarray::ShapeBuilder::strides(ndarray::IxDyn(shape), ndarray::IxDyn(strides));
    ndarray::ArrayViewMutD::from_shape(dim, data).ok().map(SampleViewMut)
}

/// `ArrayBase::shape`: the size of each axis, copied out.
#[verifier::external_body]
pub(crate) fn array_shape_vec(a: &SampleArray) -> (shape: Vec<usize>)
    ensures
        shape@ == array_shape(*a),
{
    a.0.shape().to_owned()
}

/// `Array::into_raw_vec`: the buffer that the array owns, in storage order.
#[verifier::external_body]
pub(crate) fn array_into_raw_vec(a: SampleArray) -> (data: Vec<u8>)
    ensures
        data@ == array_data(a),
{
    a.0.into_raw_vec()
}

} // verus!
