use clipsnap::imaging::{
    bgra_to_rgba, check_dimensions, clamp_region, create_thumbnail, decode_image, encode_png,
    normalize_alpha, prepare_screenshot, thumbnail_dimensions, CaptureError, EncodeError,
    THUMBNAIL_SIZE,
};
use clipsnap::model::Rectangle;

#[test]
fn test_bgra_to_rgba() {
    let bgra = vec![10, 20, 30, 255, 40, 50, 60, 255];
    let rgba = bgra_to_rgba(&bgra);
    assert_eq!(rgba, vec![30, 20, 10, 255, 60, 50, 40, 255]);
}

#[test]
fn test_encode_png() {
    let pixels = vec![
        255, 0, 0, 255, 255, 0, 0, 255, 255, 0, 0, 255, 255, 0, 0, 255,
    ];
    let png = encode_png(&pixels, 2, 2).unwrap();
    assert!(!png.is_empty());
    assert_eq!(&png[0..4], &[0x89, 0x50, 0x4E, 0x47]);
}

#[test]
fn test_create_thumbnail() {
    let pixels = vec![255u8; 10 * 10 * 4];
    let png = encode_png(&pixels, 10, 10).unwrap();
    let thumb = create_thumbnail(&png, 5).unwrap();
    assert!(!thumb.is_empty());
}

#[test]
fn bgra_drops_trailing_partial_pixel() {
    assert_eq!(bgra_to_rgba(&[1, 2, 3, 4, 5, 6]), vec![3, 2, 1, 4]);
    assert!(bgra_to_rgba(&[]).is_empty());
}

#[test]
fn normalize_alpha_sets_every_whole_pixel_opaque() {
    let mut px = vec![1, 2, 3, 0, 5, 6, 7, 8, 9, 10];
    normalize_alpha(&mut px);
    assert_eq!(px, vec![1, 2, 3, 255, 5, 6, 7, 255, 9, 10]);
}

#[test]
fn zero_width_capture_is_refused() {
    assert_eq!(check_dimensions(0, 40), Err(CaptureError::EmptyRegion));
    assert_eq!(check_dimensions(40, 0), Err(CaptureError::EmptyRegion));
    assert_eq!(check_dimensions(1, 1), Ok(()));
    assert_eq!(clamp_region(10, 20, 0, 40, 1920, 1080), Err(CaptureError::EmptyRegion));
}

#[test]
fn capture_origin_outside_screen_is_refused() {
    assert_eq!(clamp_region(-1, 0, 10, 10, 1920, 1080), Err(CaptureError::OutOfBoundsOrigin));
    assert_eq!(clamp_region(1920, 0, 10, 10, 1920, 1080), Err(CaptureError::OutOfBoundsOrigin));
    assert_eq!(clamp_region(0, 1080, 10, 10, 1920, 1080), Err(CaptureError::OutOfBoundsOrigin));
}

#[test]
fn capture_region_is_clamped_to_screen() {
    assert_eq!(
        clamp_region(1900, 1000, 100, 50, 1920, 1080),
        Ok(Rectangle { x: 1900, y: 1000, width: 20, height: 50 })
    );
    assert_eq!(
        clamp_region(1900, 1000, 100, 200, 1920, 1080),
        Ok(Rectangle { x: 1900, y: 1000, width: 20, height: 80 })
    );
    assert_eq!(
        clamp_region(5, 6, 7, 8, 1920, 1080),
        Ok(Rectangle { x: 5, y: 6, width: 7, height: 8 })
    );
}

#[test]
fn encode_refuses_wrong_buffer_length() {
    assert_eq!(encode_png(&[0u8; 15], 2, 2), Err(EncodeError::SizeMismatch));
    assert_eq!(encode_png(&[0u8; 17], 2, 2), Err(EncodeError::SizeMismatch));
}

#[test]
fn encode_refuses_empty_image() {
    assert_eq!(encode_png(&[], 0, 0), Err(EncodeError::CodecFailure));
}

#[test]
fn decode_refuses_garbage() {
    assert_eq!(decode_image(&[1, 2, 3, 4]).err(), Some(EncodeError::CodecFailure));
    assert_eq!(create_thumbnail(&[1, 2, 3, 4]
        , 10), Err(EncodeError::CodecFailure));
}

#[test]
fn encode_then_decode_keeps_size_and_pixels() {
    let (w, h) = (3u32, 2u32);
    let pixels: Vec<u8> = (0..(w * h * 4)).map(|i| (i * 7 % 251) as u8).collect();
    let png = encode_png(&pixels, w, h).unwrap();
    let back = decode_image(&png).unwrap();
    assert_eq!(back.width, w);
    assert_eq!(back.height, h);
    assert_eq!(back.pixels.len(), (w * h * 4) as usize);
    assert_eq!(back.pixels, pixels);
}

#[test]
fn thumbnail_of_wide_image_keeps_aspect() {
    assert_eq!(thumbnail_dimensions(1000, 500, 150), (150, 75));
    assert_eq!(thumbnail_dimensions(500, 1000, 150), (75, 150));
    assert_eq!(thumbnail_dimensions(10, 10, 5), (5, 5));
    assert_eq!(thumbnail_dimensions(1000, 3, 150), (150, 1));
    assert_eq!(thumbnail_dimensions(100, 50, 150), (150, 75));
    assert_eq!(thumbnail_dimensions(7, 3, 0), (1, 1));
    assert_eq!(thumbnail_dimensions(0, 3, 150), (0, 3));
    let pixels = vec![128u8; 1000 * 500 * 4];
    let png = encode_png(&pixels, 1000, 500).unwrap();
    let thumb = create_thumbnail(&png, 150).unwrap();
    let small = decode_image(&thumb).unwrap();
    assert_eq!((small.width, small.height), (150, 75));
}

#[test]
fn screenshot_is_reordered_encoded_and_thumbnailed() {
    let bgra = vec![10, 20, 30, 0, 40, 50, 60, 0];
    let shot = prepare_screenshot(&bgra, 2, 1).unwrap();
    assert_eq!(shot.rgba, vec![30, 20, 10, 0, 60, 50, 40, 0]);
    let back = decode_image(&shot.png).unwrap();
    assert_eq!(back.pixels, shot.rgba);
    let thumb = decode_image(&shot.thumbnail).unwrap();
    assert_eq!(thumb.width, THUMBNAIL_SIZE);
    assert_eq!(thumb.height, 75);
    assert_eq!(prepare_screenshot(&bgra, 3, 1).err(), Some(EncodeError::SizeMismatch));
}
