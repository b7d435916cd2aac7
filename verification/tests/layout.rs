use nshare::layout::{array_layout, image_shape, ImageShape, SampleLayout, UnsupportedLayout};

fn packed(channels: u8, width: u32, height: u32) -> SampleLayout {
    SampleLayout {
        channels,
        channel_stride: 1,
        width,
        width_stride: channels as usize,
        height,
        height_stride: channels as usize * width as usize,
    }
}

#[test]
fn one_channel_gives_rows_then_columns() {
    let array = array_layout(&packed(1, 2, 4)).unwrap();
    assert_eq!(array.shape, vec![4, 2]);
    assert_eq!(array.strides, vec![2, 1]);
}

#[test]
fn three_channels_put_the_channel_axis_first() {
    let array = array_layout(&packed(3, 2, 4)).unwrap();
    assert_eq!(array.shape, vec![3, 4, 2]);
    assert_eq!(array.strides, vec![1, 6, 3]);
}

#[test]
fn strides_are_taken_from_the_layout_axis_by_axis() {
    let padded = SampleLayout {
        channels: 3,
        channel_stride: 2,
        width: 5,
        width_stride: 7,
        height: 4,
        height_stride: 40,
    };
    let array = array_layout(&padded).unwrap();
    assert_eq!(array.shape, vec![3, 4, 5]);
    assert_eq!(array.strides, vec![2, 40, 7]);
}

#[test]
fn an_image_without_pixels_still_has_a_layout() {
    let array = array_layout(&packed(1, 0, 0)).unwrap();
    assert_eq!(array.shape, vec![0, 0]);
    assert_eq!(array.strides, vec![0, 1]);
}

#[test]
fn other_channel_counts_are_refused() {
    for channels in [0u8, 2, 4, 5, 255] {
        assert_eq!(
            array_layout(&packed(channels, 2, 4)).unwrap_err(),
            UnsupportedLayout::Channels(channels)
        );
    }
}

#[test]
fn two_axes_are_height_and_width_of_one_channel() {
    assert_eq!(image_shape(&[4, 2]), Ok(ImageShape::Luma { width: 2, height: 4 }));
}

#[test]
fn three_axes_are_height_width_and_channels() {
    assert_eq!(image_shape(&[5, 7, 3]), Ok(ImageShape::Rgb { width: 7, height: 5 }));
}

#[test]
fn the_last_of_three_axes_does_not_change_the_kind() {
    assert_eq!(image_shape(&[5, 7, 1]), Ok(ImageShape::Rgb { width: 7, height: 5 }));
    assert_eq!(image_shape(&[5, 7, 9]), Ok(ImageShape::Rgb { width: 7, height: 5 }));
}

#[test]
fn other_ranks_are_refused() {
    assert_eq!(image_shape(&[]), Err(UnsupportedLayout::Rank(0)));
    assert_eq!(image_shape(&[6]), Err(UnsupportedLayout::Rank(1)));
    assert_eq!(image_shape(&[1, 2, 3, 4]), Err(UnsupportedLayout::Rank(4)));
}

#[test]
fn a_size_beyond_32_bits_keeps_its_low_bits() {
    let tall = (4_294_967_296u64 + 5) as usize;
    if tall as u64 == 4_294_967_301 {
        assert_eq!(image_shape(&[tall, 3]), Ok(ImageShape::Luma { width: 3, height: 5 }));
    }
}
