use kirkkaus::brightness::{change_brightness, change_pixel_brightness, clamp};
use kirkkaus::downsample::downsample;
use kirkkaus::pixel::{PixelBuffer, Rgb};

fn uniform(width: usize, height: usize, p: Rgb) -> PixelBuffer {
    PixelBuffer::new(width, height, vec![p; width * height])
}

/// A buffer whose pixel at (row, col) holds the row in red and the column in green.
fn grid(width: usize, height: usize) -> PixelBuffer {
    let mut pixels = Vec::new();
    for row in 0..height {
        for col in 0..width {
            pixels.push(Rgb::new(row as u8, col as u8, 7));
        }
    }
    PixelBuffer::new(width, height, pixels)
}

#[test]
fn new_keeps_dimensions_and_pixels() {
    let pixels = vec![Rgb::new(1, 2, 3), Rgb::new(4, 5, 6)];
    let buf = PixelBuffer::new(2, 1, pixels.clone());
    assert_eq!(buf.width(), 2);
    assert_eq!(buf.height(), 1);
    assert_eq!(buf.pixels(), &pixels);
    assert!(!buf.is_empty());
    assert_eq!(buf.pixel(0, 1), Rgb::new(4, 5, 6));
}

#[test]
fn pixel_is_row_major() {
    let buf = grid(5, 4);
    for row in 0..4 {
        for col in 0..5 {
            assert_eq!(buf.pixel(row, col), buf.pixels()[row * 5 + col]);
            assert_eq!(buf.pixel(row, col), Rgb::new(row as u8, col as u8, 7));
        }
    }
}

#[test]
fn checked_accepts_matching_count() {
    let buf = PixelBuffer::checked(3, 2, vec![Rgb::gray(9); 6]);
    assert_eq!(buf, Some(uniform(3, 2, Rgb::gray(9))));
}

#[test]
fn checked_refuses_wrong_count() {
    assert_eq!(PixelBuffer::checked(3, 2, vec![Rgb::gray(9); 5]), None);
    assert_eq!(PixelBuffer::checked(3, 2, vec![Rgb::gray(9); 7]), None);
    assert_eq!(PixelBuffer::checked(0, 2, vec![Rgb::gray(9); 1]), None);
}

#[test]
fn checked_refuses_dimensions_too_large() {
    assert_eq!(PixelBuffer::checked(usize::MAX, 2, Vec::new()), None);
    assert_eq!(PixelBuffer::checked(usize::MAX, usize::MAX, vec![Rgb::gray(0); 1]), None);
}

#[test]
fn empty_buffers_are_empty() {
    assert!(PixelBuffer::new(0, 0, Vec::new()).is_empty());
    assert!(PixelBuffer::new(0, 5, Vec::new()).is_empty());
    assert!(PixelBuffer::new(5, 0, Vec::new()).is_empty());
}

#[test]
fn clone_is_equal() {
    let buf = grid(3, 3);
    assert_eq!(buf.clone(), buf);
}

#[test]
fn gray_sets_all_channels() {
    assert_eq!(Rgb::gray(17), Rgb::new(17, 17, 17));
    assert_eq!(Rgb::new(1, 2, 3), Rgb { r: 1, g: 2, b: 3 });
}

#[test]
fn downsample_divides_dimensions_rounding_down() {
    let out = downsample(&grid(25, 13), 10);
    assert_eq!(out.width(), 2);
    assert_eq!(out.height(), 1);
    assert_eq!(out.pixels().len(), 2);
    let out = downsample(&grid(9, 7), 2);
    assert_eq!((out.width(), out.height()), (4, 3));
    assert_eq!(out.pixels().len(), 12);
}

#[test]
fn downsample_takes_strided_cells() {
    let src = grid(25, 13);
    let out = downsample(&src, 4);
    assert_eq!((out.width(), out.height()), (6, 3));
    for row in 0..3 {
        for col in 0..6 {
            assert_eq!(out.pixel(row, col), src.pixel(row * 4, col * 4));
            assert_eq!(out.pixel(row, col), Rgb::new(4 * row as u8, 4 * col as u8, 7));
        }
    }
}

#[test]
fn downsample_keeps_top_left() {
    let src = grid(30, 20);
    for factor in 1..=20 {
        let out = downsample(&src, factor);
        assert_eq!(out.width(), 30 / factor);
        assert_eq!(out.height(), 20 / factor);
        assert_eq!(out.pixels()[0], src.pixels()[0]);
    }
}

#[test]
fn downsample_by_one_is_the_image() {
    let src = grid(6, 5);
    assert_eq!(downsample(&src, 1), src);
}

#[test]
fn downsample_beyond_a_dimension_is_empty() {
    let src = grid(30, 5);
    let out = downsample(&src, 6);
    assert_eq!((out.width(), out.height()), (5, 0));
    assert!(out.is_empty());
    assert!(out.pixels().is_empty());
    let out = downsample(&src, 31);
    assert_eq!((out.width(), out.height()), (0, 0));
    assert!(out.is_empty());
}

#[test]
fn downsample_of_empty_is_empty() {
    let out = downsample(&PixelBuffer::new(0, 0, Vec::new()), 3);
    assert!(out.is_empty());
    let out = downsample(&PixelBuffer::new(0, 9, Vec::new()), 3);
    assert_eq!((out.width(), out.height()), (0, 3));
    assert!(out.pixels().is_empty());
}

#[test]
fn clamp_saturates_at_both_ends() {
    assert_eq!(clamp(-1), 0);
    assert_eq!(clamp(0), 0);
    assert_eq!(clamp(1), 1);
    assert_eq!(clamp(128), 128);
    assert_eq!(clamp(254), 254);
    assert_eq!(clamp(255), 255);
    assert_eq!(clamp(256), 255);
    assert_eq!(clamp(i32::MAX), 255);
    assert_eq!(clamp(i32::MIN), 0);
}

#[test]
fn channel_is_clamped_sum() {
    for v in [0u8, 1, 100, 128, 254, 255] {
        for k in [-300i32, -255, -129, -1, 0, 1, 50, 127, 255, 300] {
            let expected = (v as i32 + k).clamp(0, 255) as u8;
            let q = change_pixel_brightness(Rgb::new(v, 0, 255), k);
            assert_eq!(q.r, expected);
            assert_eq!(q.g, k.clamp(0, 255) as u8);
            assert_eq!(q.b, (255 + k).clamp(0, 255) as u8);
        }
    }
}

#[test]
fn channels_do_not_affect_one_another() {
    assert_eq!(change_pixel_brightness(Rgb::new(10, 200, 250), 20), Rgb::new(30, 220, 255));
    assert_eq!(change_pixel_brightness(Rgb::new(10, 200, 250), -20), Rgb::new(0, 180, 230));
}

#[test]
fn extreme_offsets_saturate() {
    assert_eq!(change_pixel_brightness(Rgb::new(0, 128, 255), i32::MAX), Rgb::gray(255));
    assert_eq!(change_pixel_brightness(Rgb::new(0, 128, 255), i32::MIN), Rgb::gray(0));
    assert_eq!(change_pixel_brightness(Rgb::new(1, 128, 255), i32::MAX - 1), Rgb::gray(255));
}

#[test]
fn zero_offset_is_identity() {
    let src = grid(7, 3);
    assert_eq!(change_brightness(&src, 0), src);
    let empty = PixelBuffer::new(0, 4, Vec::new());
    assert_eq!(change_brightness(&empty, 0), empty);
}

#[test]
fn change_brightness_keeps_dimensions() {
    let out = change_brightness(&grid(7, 3), 40);
    assert_eq!((out.width(), out.height()), (7, 3));
    for row in 0..3 {
        for col in 0..7 {
            assert_eq!(out.pixel(row, col), Rgb::new(row as u8 + 40, col as u8 + 40, 47));
        }
    }
}

#[test]
fn round_trip_without_saturation() {
    let src = PixelBuffer::new(
        2,
        2,
        vec![Rgb::new(60, 100, 195), Rgb::new(61, 194, 128), Rgb::gray(100), Rgb::gray(195)],
    );
    assert_eq!(change_brightness(&change_brightness(&src, 60), -60), src);
    assert_eq!(change_brightness(&change_brightness(&src, -60), 60), src);
}

#[test]
fn round_trip_loses_saturated_channels() {
    let src = PixelBuffer::new(1, 2, vec![Rgb::new(10, 100, 250), Rgb::gray(128)]);
    let back = change_brightness(&change_brightness(&src, 20), -20);
    assert_eq!(back.pixels()[0], Rgb::new(10, 100, 235));
    assert_eq!(back.pixels()[1], Rgb::gray(128));
    assert_ne!(back, src);
    let back = change_brightness(&change_brightness(&src, -20), 20);
    assert_eq!(back.pixels()[0], Rgb::new(20, 100, 250));
}

#[test]
fn mid_gray_scenario() {
    let src = uniform(20, 10, Rgb::gray(128));
    let small = downsample(&src, 2);
    assert_eq!((small.width(), small.height()), (10, 5));
    assert_eq!(small.pixels().len(), 50);
    assert!(small.pixels().iter().all(|p| *p == Rgb::new(128, 128, 128)));
    let brighter = change_brightness(&small, 50);
    assert_eq!((brighter.width(), brighter.height()), (10, 5));
    assert!(brighter.pixels().iter().all(|p| *p == Rgb::new(178, 178, 178)));
    let brightest = change_brightness(&brighter, 200);
    assert!(brightest.pixels().iter().all(|p| *p == Rgb::new(255, 255, 255)));
    assert_eq!(change_pixel_brightness(Rgb::gray(178), 200), Rgb::gray(255));
}
