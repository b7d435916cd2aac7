use image::{GenericImageView, GrayImage, Rgb, RgbImage};
use ndarray::{ArrayD, IxDyn};
use nshare::array::SampleArray;
use nshare::buffer::{GrayBuffer, RgbBuffer};
use nshare::converts::image::{array_from_samples, view_mut_of_samples, view_of_samples};
use nshare::layout::SampleLayout;
use nshare::{IntoImage, IntoNdarray, MutNdarray, RefNdarray};

fn counting(len: usize) -> Vec<u8> {
    (0..len).map(|i| i as u8).collect()
}

#[test]
fn filled_luma_array_is_all_255() {
    let zeros = GrayBuffer(GrayImage::new(2, 4));
    let mut nd = zeros.into_ndarray().0;
    nd.fill(255);
    assert_eq!(nd.shape(), &[4, 2]);
    assert_eq!(nd.len(), 8);
    assert!(nd.iter().all(|&sample| sample == 255));
}

#[test]
fn luma_array_keeps_every_sample_in_place() {
    let image = GrayImage::from_raw(3, 2, counting(6)).unwrap();
    let nd = GrayBuffer(image.clone()).into_ndarray().0;
    assert_eq!(nd.shape(), &[2, 3]);
    assert_eq!(nd.strides(), &[3, 1]);
    for y in 0..2 {
        for x in 0..3 {
            assert_eq!(nd[[y, x]], image.get_pixel(x as u32, y as u32).0[0]);
        }
    }
    assert_eq!(nd.into_raw_vec(), counting(6));
}

#[test]
fn rgb_array_keeps_every_sample_in_place() {
    let image = RgbImage::from_raw(2, 2, counting(12)).unwrap();
    let nd = RgbBuffer(image.clone()).into_ndarray().0;
    assert_eq!(nd.shape(), &[3, 2, 2]);
    assert_eq!(nd.strides(), &[1, 6, 3]);
    for c in 0..3 {
        for y in 0..2 {
            for x in 0..2 {
                assert_eq!(nd[[c, y, x]], image.get_pixel(x as u32, y as u32).0[c]);
            }
        }
    }
    assert_eq!(nd[[2, 1, 0]], 8);
    assert_eq!(nd.into_raw_vec(), counting(12));
}

#[test]
fn all_three_conversions_agree_on_shape_and_strides() {
    let mut gray = GrayBuffer(GrayImage::new(5, 3));
    assert_eq!(gray.ref_ndarray().0.shape(), &[3, 5]);
    assert_eq!(gray.ref_ndarray().0.strides(), &[5, 1]);
    assert_eq!(gray.mut_ndarray().0.shape(), &[3, 5]);
    assert_eq!(gray.mut_ndarray().0.strides(), &[5, 1]);
    let owned = gray.into_ndarray().0;
    assert_eq!(owned.shape(), &[3, 5]);
    assert_eq!(owned.strides(), &[5, 1]);

    let mut rgb = RgbBuffer(RgbImage::new(5, 3));
    assert_eq!(rgb.ref_ndarray().0.shape(), &[3, 3, 5]);
    assert_eq!(rgb.ref_ndarray().0.strides(), &[1, 15, 3]);
    assert_eq!(rgb.mut_ndarray().0.shape(), &[3, 3, 5]);
    assert_eq!(rgb.mut_ndarray().0.strides(), &[1, 15, 3]);
    let owned = rgb.into_ndarray().0;
    assert_eq!(owned.shape(), &[3, 3, 5]);
    assert_eq!(owned.strides(), &[1, 15, 3]);
}

#[test]
fn a_write_through_the_view_lands_on_its_pixel_only() {
    let mut vals = RgbBuffer(RgbImage::from_raw(3, 2, counting(18)).unwrap());
    let before = vals.0.clone();
    {
        let mut view = vals.mut_ndarray().0;
        view[[1, 1, 2]] = 200;
    }
    for y in 0..2u32 {
        for x in 0..3u32 {
            for c in 0..3usize {
                let expected = if (c, y, x) == (1, 1, 2) {
                    200
                } else {
                    before.get_pixel(x, y).0[c]
                };
                assert_eq!(vals.0.get_pixel(x, y).0[c], expected);
            }
        }
    }
    assert_eq!(vals.0.dimensions(), (3, 2));
}

#[test]
fn a_write_through_the_luma_view_lands_on_its_pixel() {
    let mut vals = GrayBuffer(GrayImage::new(4, 3));
    vals.mut_ndarray().0[[2, 1]] = 9;
    assert_eq!(vals.0.get_pixel(1, 2).0, [9]);
    assert_eq!(vals.0.as_raw().iter().map(|&s| s as u32).sum::<u32>(), 9);
}

#[test]
fn row_sums_of_the_view_are_row_sums_of_the_image() {
    let image = RgbImage::from_raw(4, 3, (0..36).map(|i| (i * 7 % 61) as u8).collect()).unwrap();
    let buffer = RgbBuffer(image.clone());
    let view = buffer.ref_ndarray().0;
    for c in 0..3 {
        for y in 0..3 {
            let through_view: u32 = (0..4).map(|x| view[[c, y, x]] as u32).sum();
            let direct: u32 = (0..4).map(|x| image.get_pixel(x, y as u32).0[c] as u32).sum();
            assert_eq!(through_view, direct);
        }
    }
    assert_eq!((0..4).map(|x| view[[0, 0, x]] as u32).sum::<u32>(), 0 + 21 + 42 + 2);
}

#[test]
fn a_longer_buffer_is_kept_whole() {
    let image = GrayImage::from_raw(2, 2, counting(7)).unwrap();
    let nd = GrayBuffer(image).into_ndarray().0;
    assert_eq!(nd.shape(), &[2, 2]);
    assert_eq!(nd[[1, 1]], 3);
    assert_eq!(nd.into_raw_vec(), counting(7));
}

#[test]
fn narrow_and_flat_images_convert() {
    let column = RgbBuffer(RgbImage::from_raw(1, 5, counting(15)).unwrap());
    let nd = column.into_ndarray().0;
    assert_eq!(nd.shape(), &[3, 5, 1]);
    assert_eq!(nd.strides(), &[1, 3, 3]);
    assert_eq!(nd[[2, 4, 0]], 14);

    let row = RgbBuffer(RgbImage::from_raw(5, 1, counting(15)).unwrap());
    let nd = row.into_ndarray().0;
    assert_eq!(nd.shape(), &[3, 1, 5]);
    assert_eq!(nd.strides(), &[1, 15, 3]);
    assert_eq!(nd[[1, 0, 4]], 13);

    let pixel = GrayBuffer(GrayImage::from_raw(1, 1, vec![42]).unwrap());
    let nd = pixel.into_ndarray().0;
    assert_eq!(nd.shape(), &[1, 1]);
    assert_eq!(nd[[0, 0]], 42);
}

#[test]
fn a_luma_image_of_no_width_converts() {
    let mut empty = GrayBuffer(GrayImage::new(0, 3));
    assert_eq!(empty.ref_ndarray().0.shape(), &[3, 0]);
    assert_eq!(empty.mut_ndarray().0.shape(), &[3, 0]);
    let nd = empty.into_ndarray().0;
    assert_eq!(nd.shape(), &[3, 0]);
    assert_eq!(nd.len(), 0);

    let nothing = GrayBuffer(GrayImage::new(0, 0));
    assert_eq!(nothing.into_ndarray().0.shape(), &[0, 0]);
}

#[test]
fn a_padded_layout_is_addressed_by_its_own_strides() {
    let layout = SampleLayout {
        channels: 1,
        channel_stride: 1,
        width: 2,
        width_stride: 1,
        height: 2,
        height_stride: 4,
    };
    let owned = array_from_samples(&layout, counting(8)).0;
    assert_eq!(owned.shape(), &[2, 2]);
    assert_eq!(owned.strides(), &[4, 1]);
    assert_eq!(owned[[1, 1]], 5);

    let data = counting(8);
    let view = view_of_samples(&layout, &data).0;
    assert_eq!(view.strides(), &[4, 1]);
    assert_eq!(view[[1, 0]], 4);

    let mut data = counting(8);
    {
        let mut view = view_mut_of_samples(&layout, &mut data).0;
        assert_eq!(view.shape(), &[2, 2]);
        view[[1, 1]] = 77;
    }
    assert_eq!(data, vec![0, 1, 2, 3, 4, 77, 6, 7]);
}

#[test]
fn a_padded_three_channel_layout_is_addressed_by_its_own_strides() {
    let layout = SampleLayout {
        channels: 3,
        channel_stride: 1,
        width: 2,
        width_stride: 4,
        height: 2,
        height_stride: 10,
    };
    let owned = array_from_samples(&layout, counting(20)).0;
    assert_eq!(owned.shape(), &[3, 2, 2]);
    assert_eq!(owned.strides(), &[1, 10, 4]);
    assert_eq!(owned[[2, 1, 1]], 16);
}

#[test]
fn two_axes_become_a_luma_image() {
    let array = ArrayD::from_shape_vec(IxDyn(&[4, 2]), counting(8)).unwrap();
    let image = SampleArray(array).into_image();
    assert_eq!(image.dimensions(), (2, 4));
    let luma = image.as_luma8().unwrap();
    assert_eq!(luma.as_raw(), &counting(8));
    assert_eq!(luma.get_pixel(1, 2).0, [5]);
}

#[test]
fn three_axes_become_an_rgb_image_of_width_then_height() {
    let array = ArrayD::from_shape_vec(IxDyn(&[5, 7, 3]), counting(105)).unwrap();
    let image = SampleArray(array).into_image();
    assert_eq!(image.dimensions(), (7, 5));
    let rgb = image.as_rgb8().unwrap();
    assert_eq!(rgb.as_raw(), &counting(105));
    assert_eq!(rgb.get_pixel(2, 1), &Rgb([27, 28, 29]));
}

#[test]
fn the_image_takes_the_buffer_in_storage_order() {
    let source = RgbImage::from_raw(3, 2, counting(18)).unwrap();
    let array = RgbBuffer(source).into_ndarray();
    assert_eq!(array.0.shape(), &[3, 2, 3]);
    assert_eq!(array.0.strides(), &[1, 9, 3]);
    let image = array.into_image();
    assert!(matches!(image, image::DynamicImage::ImageRgb8(_)));
    assert_eq!(image.dimensions(), (2, 3));
    assert_eq!(image.as_bytes(), &counting(18)[..]);
}

#[test]
fn a_luma_image_comes_back_from_its_array() {
    let source = GrayImage::from_raw(3, 2, counting(6)).unwrap();
    let image = GrayBuffer(source.clone()).into_ndarray().into_image();
    assert_eq!(image.as_luma8(), Some(&source));
}
