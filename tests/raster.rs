use thermal_relay::raster::{flatten, flatten_luma_alpha, is_two_level, GrayAlphaRaster};

#[test]
fn opaque_pixels_keep_their_luma() {
    let src = GrayAlphaRaster { width: 3, height: 1, data: vec![0, 255, 77, 255, 255, 255] };
    let out = flatten(&src);
    assert_eq!(out.width, 3);
    assert_eq!(out.height, 1);
    assert_eq!(out.data, vec![0, 77, 255]);
}

#[test]
fn transparent_pixels_become_white() {
    let src = GrayAlphaRaster { width: 2, height: 2, data: vec![0, 0, 77, 0, 200, 0, 255, 0] };
    let out = flatten(&src);
    assert_eq!(out.data, vec![255, 255, 255, 255]);
}

#[test]
fn partly_transparent_pixels_blend_towards_white() {
    assert_eq!(flatten_luma_alpha(10, 254), 11);
    assert_eq!(flatten_luma_alpha(10, 128), 133);
    assert_eq!(flatten_luma_alpha(10, 255), 10);
    assert_eq!(flatten_luma_alpha(0, 128), 127);
    assert_eq!(flatten_luma_alpha(0, 1), 254);
    assert_eq!(flatten_luma_alpha(255, 77), 255);
}

#[test]
fn flatten_of_empty_raster_is_empty() {
    let src = GrayAlphaRaster { width: 0, height: 5, data: vec![] };
    let out = flatten(&src);
    assert_eq!(out.width, 0);
    assert_eq!(out.height, 5);
    assert!(out.data.is_empty());
}

#[test]
fn two_level_check() {
    assert!(is_two_level(&vec![0, 255, 255, 0]));
    assert!(is_two_level(&vec![]));
    assert!(!is_two_level(&vec![0, 128, 255]));
}
