use std::io::Cursor;
use thermal_relay::error::PrintError;
use thermal_relay::imaging::{dither_gray, encode_bitmap, finish_bitmap, prepare_gray, process, target_height, ImageOptions};
use thermal_relay::raster::{is_two_level, GrayRaster};

fn png_of(img: image::DynamicImage) -> Vec<u8> {
    let mut out = Cursor::new(Vec::new());
    img.write_to(&mut out, image::ImageFormat::Png).unwrap();
    out.into_inner()
}

fn gray_png(w: u32, h: u32, luma: u8) -> Vec<u8> {
    png_of(image::DynamicImage::ImageLuma8(image::GrayImage::from_pixel(w, h, image::Luma([luma]))))
}

fn decode_gray(bytes: &[u8]) -> image::GrayImage {
    image::load_from_memory(bytes).unwrap().into_luma8()
}

#[test]
fn mid_gray_end_to_end() {
    let src = gray_png(320, 240, 128);
    let options = ImageOptions { brightness: 0, max_width: 160 };
    let out = process(&src, options).unwrap();
    let decoded = decode_gray(&out);
    assert_eq!(decoded.width(), 160);
    assert_eq!(decoded.height(), 120);
    let raw = decoded.into_raw();
    assert!(is_two_level(&raw));
    let black = raw.iter().filter(|&&p| p == 0).count();
    let share = black as f64 / raw.len() as f64;
    assert!(share > 0.4 && share < 0.6, "black share {share}");
    let gray = prepare_gray(&src, 160).unwrap();
    let dithered = dither_gray(gray, 0).unwrap();
    assert_eq!(dithered.data, raw);
}

#[test]
fn same_input_same_bitmap() {
    let src = png_of(image::DynamicImage::ImageLuma8(image::GrayImage::from_fn(50, 37, |x, y| {
        image::Luma([((x * 5 + y * 3) % 256) as u8])
    })));
    let options = ImageOptions { brightness: 12, max_width: 64 };
    let a = process(&src, options).unwrap();
    let b = process(&src, options).unwrap();
    assert_eq!(a, b);
}

#[test]
fn small_pictures_are_scaled_up() {
    let src = gray_png(40, 30, 200);
    let gray = prepare_gray(&src, 160).unwrap();
    assert_eq!((gray.width, gray.height), (160, 120));
    let out = process(&src, ImageOptions { brightness: 0, max_width: 160 }).unwrap();
    let decoded = decode_gray(&out);
    assert_eq!((decoded.width(), decoded.height()), (160, 120));
}

#[test]
fn every_output_pixel_is_black_or_white() {
    let src = png_of(image::DynamicImage::ImageLumaA8(image::GrayAlphaImage::from_fn(33, 21, |x, y| {
        image::LumaA([((x * 7 + y * 11) % 256) as u8, if x % 3 == 0 { 255 } else { (y * 12) as u8 }])
    })));
    let out = process(&src, ImageOptions { brightness: -20, max_width: 48 }).unwrap();
    let decoded = decode_gray(&out);
    assert_eq!(decoded.width(), 48);
    assert!(is_two_level(&decoded.into_raw()));
}

#[test]
fn transparent_picture_prints_white() {
    let src = png_of(image::DynamicImage::ImageLumaA8(image::GrayAlphaImage::from_pixel(16, 8, image::LumaA([0, 0]))));
    let gray = prepare_gray(&src, 16).unwrap();
    assert!(gray.data.iter().all(|&p| p == 255));
    let out = process(&src, ImageOptions { brightness: 0, max_width: 16 }).unwrap();
    assert!(decode_gray(&out).into_raw().iter().all(|&p| p == 255));
}

#[test]
fn opaque_picture_keeps_luma() {
    let src = png_of(image::DynamicImage::ImageLumaA8(image::GrayAlphaImage::from_pixel(16, 8, image::LumaA([90, 255]))));
    let gray = prepare_gray(&src, 16).unwrap();
    assert_eq!((gray.width, gray.height), (16, 8));
    assert!(gray.data.iter().all(|&p| p == 90));
}

#[test]
fn empty_or_corrupt_bytes_do_not_decode() {
    let options = ImageOptions { brightness: 0, max_width: 160 };
    assert_eq!(process(&[], options), Err(PrintError::Decode));
    assert_eq!(process(b"definitely not a picture", options), Err(PrintError::Decode));
    let mut truncated = gray_png(20, 20, 3);
    truncated.truncate(30);
    assert_eq!(prepare_gray(&truncated, 160).unwrap_err(), PrintError::Decode);
}

#[test]
fn target_height_rounds_to_nearest() {
    assert_eq!(target_height(320, 240, 160), 120);
    assert_eq!(target_height(300, 100, 160), 53);
    assert_eq!(target_height(3, 2, 4), 3);
    assert_eq!(target_height(1000, 1, 10), 1);
    assert_eq!(target_height(1, 0xffff_ffff, 2), 0xffff_ffff);
}

#[test]
fn brightness_saturates() {
    let gray = GrayRaster { width: 4, height: 2, data: vec![0, 30, 90, 128, 200, 220, 250, 255] };
    assert_eq!(dither_gray(gray.clone(), 255).unwrap().data, vec![255; 8]);
    assert_eq!(dither_gray(gray.clone(), 1000).unwrap().data, vec![255; 8]);
    assert_eq!(dither_gray(gray.clone(), -255).unwrap().data, vec![0; 8]);
    assert_eq!(dither_gray(gray, i32::MIN).unwrap().data, vec![0; 8]);
}

#[test]
fn brightness_shifts_the_threshold() {
    let gray = GrayRaster { width: 2, height: 1, data: vec![100, 100] };
    assert_eq!(dither_gray(gray.clone(), 0).unwrap().data[0], 0);
    assert_eq!(dither_gray(gray, 28).unwrap().data[0], 255);
}

#[test]
fn encoded_bitmap_round_trips() {
    let gray = GrayRaster { width: 3, height: 2, data: vec![0, 255, 0, 255, 0, 255] };
    let bytes = encode_bitmap(&gray).unwrap();
    assert_eq!(&bytes[..8], &[0x89, b'P', b'N', b'G', 0x0d, 0x0a, 0x1a, 0x0a]);
    let back = decode_gray(&bytes);
    assert_eq!((back.width(), back.height()), (3, 2));
    assert_eq!(back.into_raw(), gray.data);
    let finished = finish_bitmap(gray.clone(), 0).unwrap();
    assert_eq!(decode_gray(&finished).into_raw(), gray.data);
}

#[test]
fn half_transparent_black_prints_half_black() {
    let src = png_of(image::DynamicImage::ImageLumaA8(image::GrayAlphaImage::from_pixel(320, 240, image::LumaA([0, 128]))));
    let out = process(&src, ImageOptions { brightness: 0, max_width: 160 }).unwrap();
    let raw = decode_gray(&out).into_raw();
    assert_eq!(raw.len(), 160 * 120);
    let black = raw.iter().filter(|&&p| p == 0).count();
    let share = black as f64 / raw.len() as f64;
    assert!((share - 0.5).abs() <= 0.05, "black share {share}");
}

#[test]
fn one_column_is_too_small() {
    let src = gray_png(40, 30, 100);
    assert_eq!(process(&src, ImageOptions { brightness: 0, max_width: 1 }), Err(PrintError::TooSmall));
    let narrow = GrayRaster { width: 1, height: 3, data: vec![1, 2, 3] };
    assert_eq!(dither_gray(narrow.clone(), 0), Err(PrintError::TooSmall));
    assert_eq!(finish_bitmap(narrow, 0), Err(PrintError::TooSmall));
    let empty = GrayRaster { width: 4, height: 0, data: vec![] };
    assert_eq!(dither_gray(empty, 0), Err(PrintError::TooSmall));
}

#[test]
fn undecodable_bytes_win_over_width() {
    assert_eq!(process(&[1, 2, 3], ImageOptions { brightness: 0, max_width: 1 }), Err(PrintError::Decode));
}
