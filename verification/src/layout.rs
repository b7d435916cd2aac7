//! Shapes and strides: how the samples of a pixel buffer are addressed as an
//! n-dimensional array, and back.

use vstd::prelude::*;

verus! {

/// A channel count or an array rank that no conversion handles.
#[derive(Clone, Copy, Debug, PartialEq, Eq, Structural)]
pub enum UnsupportedLayout {
    /// The pixel buffer has this many channels, which is neither 1 nor 3.
    Channels(u8),
    /// The array has this many axes, which is neither 2 nor 3.
    Rank(usize),
}

/// Where the samples of an image lie in its flat buffer.
///
/// Sample `c` of the pixel at column `x`, row `y` is found at
/// [`SampleLayout::index`].
#[derive(Clone, Copy, Debug, PartialEq, Eq, Structural)]
pub struct SampleLayout {
    /// Samples per pixel.
    pub channels: u8,
    /// Distance between two samples of one pixel.
    pub channel_stride: usize,
    /// Pixels per row.
    pub width: u32,
    /// Distance between two neighbours in a row.
    pub width_stride: usize,
    /// Number of rows.
    pub height: u32,
    /// Distance between two neighbours in a column.
    pub height_stride: usize,
}

impl SampleLayout {
    /// The place in the buffer of sample `c` of the pixel at `(x, y)`.
    pub open spec fn index(self, c: int, x: int, y: int) -> int {
        c * self.channel_stride + x * self.width_stride + y * self.height_stride
    }

    /// Whether `(c, x, y)` names a sample of the image.
    pub open spec fn in_bounds(self, c: int, x: int, y: int) -> bool {
        0 <= c < self.channels && 0 <= x < self.width && 0 <= y < self.height
    }

    /// The number of samples of the image.
    pub open spec fn volume(self) -> int {
        self.channels * self.width * self.height
    }

    /// Whether the samples are interleaved and the rows follow each other
    /// without gaps.
    pub open spec fn is_packed(self) -> bool {
        &&& self.channel_stride == 1
        &&& self.width_stride == self.channels
        &&& self.height_stride == self.channels * self.width
    }
}

/// The sizes of the axes of an array and, for each axis, the distance in the
/// buffer between two neighbours along it.
#[derive(Debug)]
pub struct ArrayLayout {
    /// One size per axis.
    pub shape: Vec<usize>,
    /// One stride per axis, in samples.
    pub strides: Vec<usize>,
}

/// The place in the buffer of the element at `index`, one coordinate per
/// axis: the coordinates weighted by the strides.
pub open spec fn offset_of(strides: Seq<int>, index: Seq<int>) -> int
    decreases strides.len(),
{
    if strides.len() == 0 || index.len() == 0 {
        0
    } else {
        offset_of(strides.drop_last(), index.drop_last()) + index.last() * strides.last()
    }
}

/// Whether `index` names an element of an array of this shape.
pub open spec fn index_in_shape(shape: Seq<int>, index: Seq<int>) -> bool {
    &&& index.len() == shape.len()
    &&& forall|i: int| 0 <= i < shape.len() ==> 0 <= #[trigger] index[i] < shape[i]
}

/// The array shape that stands for an image: rows then columns for one
/// channel, with the channel axis in front for three.
pub open spec fn array_shape_of(layout: SampleLayout) -> Seq<int> {
    if layout.channels == 1 {
        seq![layout.height as int, layout.width as int]
    } else {
        seq![layout.channels as int, layout.height as int, layout.width as int]
    }
}

/// The strides that go with [`array_shape_of`], axis by axis.
pub open spec fn array_strides_of(layout: SampleLayout) -> Seq<int> {
    if layout.channels == 1 {
        seq![layout.height_stride as int, layout.width_stride as int]
    } else {
        seq![
            layout.channel_stride as int,
            layout.height_stride as int,
            layout.width_stride as int,
        ]
    }
}

/// Whether a conversion to an array exists for this number of channels.
pub open spec fn supported_channels(channels: u8) -> bool {
    channels == 1 || channels == 3
}

/// Sizes or strides as mathematical integers.
pub open spec fn size_ints(sizes: Seq<usize>) -> Seq<int> {
    sizes.map_values(|d: usize| d as int)
}

/// Chooses the array shape and strides for an image by its channel count.
///
/// One channel gives `[height, width]`, three give
/// `[channels, height, width]`, each axis with the stride the image has in
/// that direction. Any other count is refused.
pub fn array_layout(layout: &SampleLayout) -> (result: Result<ArrayLayout, UnsupportedLayout>)
    ensures
        supported_channels(layout.channels) ==> result is Ok,
        !supported_channels(layout.channels) ==> result == Err::<ArrayLayout, UnsupportedLayout>(
            UnsupportedLayout::Channels(layout.channels),
        ),
        result matches Ok(array) ==> {
            &&& size_ints(array.shape@) == array_shape_of(*layout)
            &&& size_ints(array.strides@) == array_strides_of(*layout)
        },
{
    let mut shape: Vec<usize> = Vec::new();
    let mut strides: Vec<usize> = Vec::new();
    match layout.channels {
        1 => {
            shape.push(layout.height as usize);
            shape.push(layout.width as usize);
            strides.push(layout.height_stride);
            strides.push(layout.width_stride);
        },
        3 => {
            shape.push(layout.channels as usize);
            shape.push(layout.height as usize);
            shape.push(layout.width as usize);
            strides.push(layout.channel_stride);
            strides.push(layout.height_stride);
            strides.push(layout.width_stride);
        },
        _ => {
            return Err(UnsupportedLayout::Channels(layout.channels));
        },
    }
    let array = ArrayLayout { shape, strides };
    assert(size_ints(array.shape@) =~= array_shape_of(*layout));
    assert(size_ints(array.strides@) =~= array_strides_of(*layout));
    Ok(array)
}

/// The kind and size of the image that stands for an array.
#[derive(Clone, Copy, Debug, PartialEq, Eq, Structural)]
pub enum ImageShape {
    /// One channel per pixel.
    Luma { width: u32, height: u32 },
    /// Three channels per pixel.
    Rgb { width: u32, height: u32 },
}

impl ImageShape {
    /// Samples per pixel.
    pub open spec fn channels(self) -> int {
        match self {
            ImageShape::Luma { .. } => 1,
            ImageShape::Rgb { .. } => 3,
        }
    }

    /// Pixels per row.
    pub open spec fn width(self) -> u32 {
        match self {
            ImageShape::Luma { width, .. } => width,
            ImageShape::Rgb { width, .. } => width,
        }
    }

    /// Number of rows.
    pub open spec fn height(self) -> u32 {
        match self {
            ImageShape::Luma { height, .. } => height,
            ImageShape::Rgb { height, .. } => height,
        }
    }
}

/// Whether a conversion to an image exists for this number of axes.
pub open spec fn supported_rank(rank: nat) -> bool {
    rank == 2 || rank == 3
}

/// The image that stands for an array of this shape.
///
/// Two axes are `[height, width]` of one channel; three axes are
/// `[height, width, channels]` and give three channels whatever the last
/// axis holds. The channel axis comes last here, not first as in
/// [`array_shape_of`]. A size beyond 32 bits keeps its low 32 bits.
pub open spec fn image_shape_of(shape: Seq<usize>) -> Option<ImageShape> {
    if shape.len() == 2 {
        Some(ImageShape::Luma { width: shape[1] as u32, height: shape[0] as u32 })
    } else if shape.len() == 3 {
        Some(ImageShape::Rgb { width: shape[1] as u32, height: shape[0] as u32 })
    } else {
        None
    }
}

/// Chooses the kind and size of the image for an array by its rank.
pub fn image_shape(shape: &[usize]) -> (result: Result<ImageShape, UnsupportedLayout>)
    ensures
        supported_rank(shape@.len()) ==> result == Ok::<ImageShape, UnsupportedLayout>(
            image_shape_of(shape@).unwrap(),
        ),
        !supported_rank(shape@.len()) ==> result == Err::<ImageShape, UnsupportedLayout>(
            UnsupportedLayout::Rank(shape@.len() as usize),
        ),
{
    match shape.len() {
        2 => {
            let height = #[verifier::truncate] (shape[0] as u32);
            let width = #[verifier::truncate] (shape[1] as u32);
            Ok(ImageShape::Luma { width, height })
        },
        3 => {
            let height = #[verifier::truncate] (shape[0] as u32);
            let width = #[verifier::truncate] (shape[1] as u32);
            Ok(ImageShape::Rgb { width, height })
        },
        rank => Err(UnsupportedLayout::Rank(rank)),
    }
}

} // verus!
