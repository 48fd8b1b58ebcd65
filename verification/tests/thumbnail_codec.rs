use image::{DynamicImage, ImageFormat, RgbImage};
use image_lib::codec::make_thumbnail_bytes;
use image_lib::plan::ThumbnailSpec;
use image_lib::ImageError;
use std::io::Cursor;

fn encoded(width: u32, height: u32, format: ImageFormat) -> Vec<u8> {
    let img = DynamicImage::ImageRgb8(RgbImage::new(width, height));
    let mut cursor = Cursor::new(Vec::new());
    img.write_to(&mut cursor, format).unwrap();
    cursor.into_inner()
}

#[test]
fn png_thumbnail_fits_box_and_preserves_aspect() {
    let bytes = encoded(300, 200, ImageFormat::Png);
    let thumb = make_thumbnail_bytes(&bytes, "png", &ThumbnailSpec::default()).unwrap();
    assert_eq!((thumb.width, thumb.height), (128, 85));
    let reread = image::load_from_memory(&thumb.bytes).unwrap();
    assert_eq!((reread.width(), reread.height()), (128, 85));
    assert_eq!(image::guess_format(&thumb.bytes).unwrap(), ImageFormat::Png);
}

#[test]
fn jpeg_thumbnail_fits_box() {
    let bytes = encoded(64, 32, ImageFormat::Jpeg);
    let thumb = make_thumbnail_bytes(&bytes, "jpg", &ThumbnailSpec::new(16, 16)).unwrap();
    assert_eq!((thumb.width, thumb.height), (16, 8));
    assert_eq!(image::guess_format(&thumb.bytes).unwrap(), ImageFormat::Jpeg);
}

#[test]
fn gif_thumbnail_keeps_the_gif_format() {
    let bytes = encoded(20, 20, ImageFormat::Gif);
    let thumb = make_thumbnail_bytes(&bytes, "gif", &ThumbnailSpec::new(10, 10)).unwrap();
    assert_eq!((thumb.width, thumb.height), (10, 10));
    assert_eq!(image::guess_format(&thumb.bytes).unwrap(), ImageFormat::Gif);
}

#[test]
fn small_sources_are_scaled_up_to_the_box() {
    let bytes = encoded(10, 6, ImageFormat::Png);
    let thumb = make_thumbnail_bytes(&bytes, "png", &ThumbnailSpec::default()).unwrap();
    assert_eq!((thumb.width, thumb.height), (128, 77));
}

#[test]
fn generation_is_deterministic_on_the_same_bytes() {
    let bytes = encoded(96, 48, ImageFormat::Png);
    let first = make_thumbnail_bytes(&bytes, "png", &ThumbnailSpec::default()).unwrap();
    let second = make_thumbnail_bytes(&bytes, "png", &ThumbnailSpec::default()).unwrap();
    assert_eq!((first.width, first.height), (second.width, second.height));
    assert_eq!(first.bytes, second.bytes);
}

#[test]
fn undecodable_bytes_fail_with_decode_failed() {
    let bytes = b"this is not an image at all".to_vec();
    let err = make_thumbnail_bytes(&bytes, "png", &ThumbnailSpec::default()).unwrap_err();
    assert!(matches!(err, ImageError::DecodeFailed(_)));
    assert!(err.message().starts_with("Image decode failed: "));
}

#[test]
fn unknown_target_extension_fails_as_unsupported() {
    let bytes = encoded(8, 8, ImageFormat::Png);
    let err = make_thumbnail_bytes(&bytes, "txt", &ThumbnailSpec::default()).unwrap_err();
    assert!(matches!(err, ImageError::UnsupportedExtension));
}

#[test]
fn encoder_refusal_fails_with_write_failed() {
    // The JPEG encoder refuses dimensions above 65535, so re-encoding a
    // wide PNG as a JPEG of the same size must surface a write failure.
    let bytes = encoded(70000, 1, ImageFormat::Png);
    let err = make_thumbnail_bytes(&bytes, "jpg", &ThumbnailSpec::new(70000, 1)).unwrap_err();
    assert!(matches!(err, ImageError::WriteFailed(_)));
    assert!(err.message().starts_with("Thumbnail write failed: "));
}
