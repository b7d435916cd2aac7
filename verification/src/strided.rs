//! When a shape and its strides address a buffer of a given length safely:
//! every element inside the buffer, no two elements at one place.

use crate::layout::{array_shape_of, array_strides_of, supported_channels, SampleLayout};
use vstd::prelude::*;

verus! {

/// The distance between the first and the last element along one axis.
pub open spec fn axis_span(size: int, stride: int) -> int {
    if size > 0 {
        (size - 1) * stride
    } else {
        0
    }
}

/// The distance between the first and the farthest element of the array: the
/// spans of all axes together.
pub open spec fn max_offset(shape: Seq<int>, strides: Seq<int>) -> int
    decreases shape.len(),
{
    if shape.len() == 0 || strides.len() == 0 {
        0
    } else {
        max_offset(shape.drop_last(), strides.drop_last()) + axis_span(
            shape.last(),
            strides.last(),
        )
    }
}

/// The product of the axis sizes that are not zero.
pub open spec fn nonzero_volume(shape: Seq<int>) -> int
    decreases shape.len(),
{
    if shape.len() == 0 {
        1
    } else {
        nonzero_volume(shape.drop_last()) * (if shape.last() == 0 {
            1
        } else {
            shape.last()
        })
    }
}

/// Whether the array has no element at all.
pub open spec fn has_empty_axis(shape: Seq<int>) -> bool {
    exists|i: int| 0 <= i < shape.len() && #[trigger] shape[i] == 0
}

/// The spans, taken together, of those among the first `upto` axes that are
/// not `axis`, hold more than one element and have a stride no larger than
/// that of `axis`.
pub open spec fn span_within(shape: Seq<int>, strides: Seq<int>, axis: int, upto: int) -> int
    decreases upto,
{
    if upto <= 0 {
        0
    } else {
        let j = upto - 1;
        span_within(shape, strides, axis, j) + (if j != axis && shape[j] >= 2 && strides[j]
            <= strides[axis] {
            (shape[j] - 1) * strides[j]
        } else {
            0
        })
    }
}

/// Whether every axis of more than one element steps farther than all axes
/// of no larger stride reach together, so that two different indices never
/// meet at one place.
pub open spec fn axes_disjoint(shape: Seq<int>, strides: Seq<int>) -> bool {
    forall|i: int|
        0 <= i < shape.len() && #[trigger] shape[i] >= 2 ==> strides[i] > span_within(
            shape,
            strides,
            i,
            shape.len() as int,
        )
}

/// Whether `shape` and `strides` describe an array inside a buffer of `len`
/// one-byte elements.
///
/// The axis counts agree, no stride is negative as a signed word, the
/// element count and the farthest offset fit a signed word, the farthest
/// offset lies inside the buffer (or at its end, where there is no element),
/// and no two indices share a place.
pub open spec fn strided_fits(shape: Seq<int>, strides: Seq<int>, len: int) -> bool {
    &&& shape.len() == strides.len()
    &&& forall|i: int| 0 <= i < shape.len() ==> 0 <= #[trigger] shape[i] <= usize::MAX
    &&& forall|i: int| 0 <= i < strides.len() ==> 0 <= #[trigger] strides[i] <= isize::MAX
    &&& nonzero_volume(shape) <= isize::MAX
    &&& max_offset(shape, strides) <= isize::MAX
    &&& if has_empty_axis(shape) {
        max_offset(shape, strides) <= len
    } else {
        max_offset(shape, strides) < len && axes_disjoint(shape, strides)
    }
}

proof fn lemma_two_axes(a: int, b: int, sa: int, sb: int)
    ensures
        max_offset(seq![a, b], seq![sa, sb]) == axis_span(a, sa) + axis_span(b, sb),
        nonzero_volume(seq![a, b]) == (if a == 0 { 1 } else { a }) * (if b == 0 { 1 } else { b }),
        forall|i: int| span_within(seq![a, b], seq![sa, sb], i, 2) == (if 0 != i && a >= 2 && sa
            <= seq![sa, sb][i] {
            (a - 1) * sa
        } else {
            0
        }) + (if 1 != i && b >= 2 && sb <= seq![sa, sb][i] {
            (b - 1) * sb
        } else {
            0
        }),
{
    let shape = seq![a, b];
    let strides = seq![sa, sb];
    assert(shape.drop_last() =~= seq![a]);
    assert(strides.drop_last() =~= seq![sa]);
    assert(seq![a].drop_last() =~= Seq::<int>::empty());
    assert(seq![sa].drop_last() =~= Seq::<int>::empty());
    reveal_with_fuel(max_offset, 3);
    reveal_with_fuel(nonzero_volume, 3);
    reveal_with_fuel(span_within, 3);
}

proof fn lemma_three_axes(a: int, b: int, c: int, sa: int, sb: int, sc: int)
    ensures
        max_offset(seq![a, b, c], seq![sa, sb, sc]) == axis_span(a, sa) + axis_span(b, sb)
            + axis_span(c, sc),
        nonzero_volume(seq![a, b, c]) == ((if a == 0 { 1 } else { a }) * (if b == 0 { 1 } else { b }))
            * (if c == 0 { 1 } else { c }),
        forall|i: int| span_within(seq![a, b, c], seq![sa, sb, sc], i, 3) == (if 0 != i && a >= 2
            && sa <= seq![sa, sb, sc][i] {
            (a - 1) * sa
        } else {
            0
        }) + (if 1 != i && b >= 2 && sb <= seq![sa, sb, sc][i] {
            (b - 1) * sb
        } else {
            0
        }) + (if 2 != i && c >= 2 && sc <= seq![sa, sb, sc][i] {
            (c - 1) * sc
        } else {
            0
        }),
{
    let shape = seq![a, b, c];
    let strides = seq![sa, sb, sc];
    assert(shape.drop_last() =~= seq![a, b]);
    assert(strides.drop_last() =~= seq![sa, sb]);
    lemma_two_axes(a, b, sa, sb);
    reveal_with_fuel(span_within, 4);
}

/// An image of at least one pixel whose samples lie packed, row after row,
/// in a buffer that holds them all can always be addressed as an array:
/// no sample lies outside the buffer and no two array indices name the same
/// sample.
pub proof fn lemma_packed_image_fits(layout: SampleLayout, len: int)
    requires
        supported_channels(layout.channels),
        layout.is_packed(),
        layout.width >= 1,
        layout.height >= 1,
        layout.volume() <= len <= isize::MAX,
    ensures
        strided_fits(array_shape_of(layout), array_strides_of(layout), len),
{
    let w = layout.width as int;
    let h = layout.height as int;
    let shape = array_shape_of(layout);
    let strides = array_strides_of(layout);
    if layout.channels == 1 {
        lemma_two_axes(h, w, w, 1);
        assert(1 * w * h == h * w) by (nonlinear_arith);
        assert((h - 1) * w + (w - 1) * 1 == h * w - 1) by (nonlinear_arith);
        assert(w <= h * w) by (nonlinear_arith)
            requires
                h >= 1,
                w >= 1,
        ;
        assert(!has_empty_axis(shape));
        assert(axes_disjoint(shape, strides));
    } else {
        lemma_three_axes(3, h, w, 1, 3 * w, 3);
        assert(3 * w * h == (3 * h) * w) by (nonlinear_arith);
        assert((3 - 1) * 1 + (h - 1) * (3 * w) + (w - 1) * 3 == (3 * h) * w - 1)
            by (nonlinear_arith);
        assert(3 * w <= (3 * h) * w) by (nonlinear_arith)
            requires
                h >= 1,
                w >= 1,
        ;
        assert(!has_empty_axis(shape));
        assert(axes_disjoint(shape, strides));
    }
}

} // verus!
