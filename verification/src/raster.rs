//! What a pixel buffer holds, and how its samples and the elements of its
//! array form correspond.

use crate::array::Strided;
use crate::layout::{
    array_shape_of, array_strides_of, index_in_shape, offset_of, supported_channels, SampleLayout,
};
use crate::strided::strided_fits;
use vstd::prelude::*;

verus! {

/// What a pixel buffer holds: where its samples lie, and the samples.
pub struct Raster {
    pub layout: SampleLayout,
    pub samples: Seq<u8>,
}

/// The array index that stands for sample `c` of the pixel at column `x`,
/// row `y`: `[y, x]` for one channel, `[c, y, x]` for more.
pub open spec fn array_index_of(layout: SampleLayout, c: int, x: int, y: int) -> Seq<int> {
    if layout.channels == 1 {
        seq![y, x]
    } else {
        seq![c, y, x]
    }
}

/// The array index of the first element of row `y` in channel `c`, without
/// its last coordinate.
pub open spec fn array_row_of(layout: SampleLayout, c: int, y: int) -> Seq<int> {
    if layout.channels == 1 {
        seq![y]
    } else {
        seq![c, y]
    }
}

impl Raster {
    /// Sample `c` of the pixel at column `x`, row `y`.
    pub open spec fn sample(self, c: int, x: int, y: int) -> u8 {
        self.samples[self.layout.index(c, x, y)]
    }

    /// Whether the samples lie packed, row after row, in a buffer that
    /// holds them all. Every pixel buffer is so.
    pub open spec fn wf(self) -> bool {
        &&& self.layout.is_packed()
        &&& self.layout.volume() <= self.samples.len()
    }

    /// Whether the image has at least one pixel.
    pub open spec fn has_pixels(self) -> bool {
        self.layout.width >= 1 && self.layout.height >= 1
    }

    /// The same samples addressed as an array.
    pub open spec fn as_array(self) -> Strided {
        Strided::over(array_shape_of(self.layout), array_strides_of(self.layout), self.samples)
    }

    /// Whether the samples can be addressed as an array: always where the
    /// image has a pixel; without one, where the array shape and strides
    /// still fit the buffer.
    pub open spec fn has_array(self) -> bool {
        self.has_pixels() || strided_fits(
            array_shape_of(self.layout),
            array_strides_of(self.layout),
            self.samples.len() as int,
        )
    }

    /// The samples of channel `c` in the first `n` pixels of row `y`, added
    /// up.
    pub open spec fn row_sum(self, c: int, y: int, n: int) -> int
        decreases n,
    {
        if n <= 0 {
            0
        } else {
            self.row_sum(c, y, n - 1) + self.sample(c, n - 1, y)
        }
    }
}

proof fn lemma_offset_of_two(s0: int, s1: int, i0: int, i1: int)
    ensures
        offset_of(seq![s0, s1], seq![i0, i1]) == i0 * s0 + i1 * s1,
{
    assert(seq![s0, s1].drop_last() =~= seq![s0]);
    assert(seq![i0, i1].drop_last() =~= seq![i0]);
    assert(seq![s0].drop_last() =~= Seq::<int>::empty());
    assert(seq![i0].drop_last() =~= Seq::<int>::empty());
    reveal_with_fuel(offset_of, 3);
}

proof fn lemma_offset_of_three(s0: int, s1: int, s2: int, i0: int, i1: int, i2: int)
    ensures
        offset_of(seq![s0, s1, s2], seq![i0, i1, i2]) == i0 * s0 + i1 * s1 + i2 * s2,
{
    assert(seq![s0, s1, s2].drop_last() =~= seq![s0, s1]);
    assert(seq![i0, i1, i2].drop_last() =~= seq![i0, i1]);
    lemma_offset_of_two(s0, s1, i0, i1);
}

/// Two numbers written as a digit below `m` and a multiple of `m` are equal
/// only if digit and multiple are.
proof fn lemma_digits(a1: int, b1: int, a2: int, b2: int, m: int)
    by (nonlinear_arith)
    requires
        0 <= a1 < m,
        0 <= a2 < m,
        a1 + m * b1 == a2 + m * b2,
    ensures
        a1 == a2,
        b1 == b2,
{
}

/// Each sample of an image is one element of its array form: the index
/// `[y, x]`, or `[c, y, x]`, lies inside the array's shape and leads to the
/// place in the buffer where the image keeps sample `c` of the pixel at
/// `(x, y)`.
pub proof fn lemma_element_is_sample(raster: Raster, c: int, x: int, y: int)
    requires
        supported_channels(raster.layout.channels),
        raster.layout.in_bounds(c, x, y),
    ensures
        index_in_shape(raster.as_array().shape, array_index_of(raster.layout, c, x, y)),
        offset_of(raster.as_array().strides, array_index_of(raster.layout, c, x, y))
            == raster.layout.index(c, x, y),
        raster.as_array().element(array_index_of(raster.layout, c, x, y)) == raster.sample(
            c,
            x,
            y,
        ),
{
    let l = raster.layout;
    if l.channels == 1 {
        lemma_offset_of_two(l.height_stride as int, l.width_stride as int, y, x);
    } else {
        lemma_offset_of_three(
            l.channel_stride as int,
            l.height_stride as int,
            l.width_stride as int,
            c,
            y,
            x,
        );
    }
}

/// In a packed image every sample has a place of its own among the first
/// `channels * width * height` of the buffer.
pub proof fn lemma_packed_samples_apart(
    layout: SampleLayout,
    c1: int,
    x1: int,
    y1: int,
    c2: int,
    x2: int,
    y2: int,
)
    requires
        layout.is_packed(),
        layout.in_bounds(c1, x1, y1),
        layout.in_bounds(c2, x2, y2),
    ensures
        0 <= layout.index(c1, x1, y1) < layout.volume(),
        layout.index(c1, x1, y1) == layout.index(c2, x2, y2) ==> c1 == c2 && x1 == x2 && y1 == y2,
{
    let ch = layout.channels as int;
    let w = layout.width as int;
    let h = layout.height as int;
    let a1 = c1 + ch * x1;
    let a2 = c2 + ch * x2;
    assert(0 <= a1 < ch * w && 0 <= a2 < ch * w) by (nonlinear_arith)
        requires
            0 <= c1 < ch,
            0 <= x1 < w,
            a1 == c1 + ch * x1,
            0 <= c2 < ch,
            0 <= x2 < w,
            a2 == c2 + ch * x2,
    ;
    assert(layout.index(c1, x1, y1) == a1 + (ch * w) * y1) by (nonlinear_arith)
        requires
            layout.index(c1, x1, y1) == c1 * 1 + x1 * ch + y1 * (ch * w),
            a1 == c1 + ch * x1,
    ;
    assert(layout.index(c2, x2, y2) == a2 + (ch * w) * y2) by (nonlinear_arith)
        requires
            layout.index(c2, x2, y2) == c2 * 1 + x2 * ch + y2 * (ch * w),
            a2 == c2 + ch * x2,
    ;
    assert(0 <= a1 + (ch * w) * y1 < ch * w * h) by (nonlinear_arith)
        requires
            0 <= a1 < ch * w,
            0 <= y1 < h,
    ;
    if layout.index(c1, x1, y1) == layout.index(c2, x2, y2) {
        lemma_digits(a1, y1, a2, y2, ch * w);
        lemma_digits(c1, x1, c2, x2, ch);
    }
}

/// Writing through the array form reaches the image: when `value` is
/// written where the index `[y, x]`, or `[c, y, x]`, points, the image holds
/// `value` as sample `c` of the pixel at `(x, y)` and every other sample is
/// what it was; the array holds `value` at that index and every other
/// element is what it was.
pub proof fn lemma_write_reaches_sample(raster: Raster, c: int, x: int, y: int, value: u8)
    requires
        supported_channels(raster.layout.channels),
        raster.layout.is_packed(),
        raster.layout.in_bounds(c, x, y),
        raster.layout.volume() <= raster.samples.len(),
    ensures
        ({
            let place = offset_of(
                raster.as_array().strides,
                array_index_of(raster.layout, c, x, y),
            );
            let written = Raster { samples: raster.samples.update(place, value), ..raster };
            &&& written.sample(c, x, y) == value
            &&& written.as_array().element(array_index_of(raster.layout, c, x, y)) == value
            &&& forall|c2: int, x2: int, y2: int|
                raster.layout.in_bounds(c2, x2, y2) && !(c2 == c && x2 == x && y2 == y) ==> {
                    &&& #[trigger] written.sample(c2, x2, y2) == raster.sample(c2, x2, y2)
                    &&& written.as_array().element(array_index_of(raster.layout, c2, x2, y2))
                        == raster.as_array().element(array_index_of(raster.layout, c2, x2, y2))
                }
        }),
{
    let layout = raster.layout;
    let place = offset_of(raster.as_array().strides, array_index_of(layout, c, x, y));
    let written = Raster { samples: raster.samples.update(place, value), ..raster };
    lemma_element_is_sample(raster, c, x, y);
    lemma_element_is_sample(written, c, x, y);
    lemma_packed_samples_apart(layout, c, x, y, c, x, y);
    assert forall|c2: int, x2: int, y2: int|
        layout.in_bounds(c2, x2, y2) && !(c2 == c && x2 == x && y2 == y) implies {
        &&& #[trigger] written.sample(c2, x2, y2) == raster.sample(c2, x2, y2)
        &&& written.as_array().element(array_index_of(layout, c2, x2, y2))
            == raster.as_array().element(array_index_of(layout, c2, x2, y2))
    } by {
        lemma_packed_samples_apart(layout, c2, x2, y2, c, x, y);
        lemma_element_is_sample(raster, c2, x2, y2);
        lemma_element_is_sample(written, c2, x2, y2);
    }
}

/// Adding up a row of the array form gives what adding up the same pixels
/// of the image gives: for channel `c` and row `y`, the first `n` elements
/// along the width axis are the samples `c` of the first `n` pixels of the
/// row.
pub proof fn lemma_row_sums_agree(raster: Raster, c: int, y: int, n: int)
    requires
        supported_channels(raster.layout.channels),
        0 <= c < raster.layout.channels,
        0 <= y < raster.layout.height,
        0 <= n <= raster.layout.width,
    ensures
        raster.as_array().row_sum(array_row_of(raster.layout, c, y), n) == raster.row_sum(c, y, n),
    decreases n,
{
    if n > 0 {
        lemma_row_sums_agree(raster, c, y, n - 1);
        lemma_element_is_sample(raster, c, n - 1, y);
        assert(array_row_of(raster.layout, c, y).push(n - 1) =~= array_index_of(
            raster.layout,
            c,
            n - 1,
            y,
        ));
    }
}

} // verus!
