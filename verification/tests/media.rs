use mx_xkcd_ng::failure::TransportError;
use mx_xkcd_ng::media::{copy_bytes, describe, measure, measure_jpeg, ImageInfo, Measured};
use std::io::Cursor;

/// A PNG of 3 by 2 pixels.
const PNG: [u8; 73] = [
    137, 80, 78, 71, 13, 10, 26, 10, 0, 0, 0, 13, 73, 72, 68, 82, 0, 0, 0, 3, 0, 0, 0, 2, 8, 2, 0, 0,
    0, 18, 22, 241, 77, 0, 0, 0, 16, 73, 68, 65, 84, 120, 156, 99, 16, 80, 48, 128, 32, 6, 56, 11, 0,
    21, 212, 2, 65, 52, 132, 109, 10, 0, 0, 0, 0, 73, 69, 78, 68, 174, 66, 96, 130,
];

fn jpeg(w: u32, h: u32) -> Vec<u8> {
    let picture = image::RgbImage::new(w, h);
    let mut out = Cursor::new(Vec::new());
    picture.write_to(&mut out, image::ImageFormat::Jpeg).unwrap();
    out.into_inner()
}

fn encoded(w: u32, h: u32, format: image::ImageFormat) -> Vec<u8> {
    let picture = image::RgbImage::new(w, h);
    let mut out = Cursor::new(Vec::new());
    picture.write_to(&mut out, format).unwrap();
    out.into_inner()
}

fn is_undecodable(m: &Measured) -> bool {
    match m {
        Measured::Undecodable(why) => !why.is_empty(),
        Measured::Size(_, _) => false,
    }
}

#[test]
fn a_png_is_measured() {
    assert_eq!(measure(&PNG.to_vec()), Measured::Size(3, 2));
}

#[test]
fn a_jpeg_is_measured_by_either_decoder() {
    let data = jpeg(5, 7);
    assert_eq!(measure(&data), Measured::Size(5, 7));
    assert_eq!(measure_jpeg(&data), Measured::Size(5, 7));
    assert_eq!(measure_jpeg(&jpeg(16, 9)), Measured::Size(16, 9));
}

#[test]
fn what_is_no_picture_does_not_decode() {
    assert!(is_undecodable(&measure(&Vec::new())));
    assert!(is_undecodable(&measure(&b"not a picture".to_vec())));
    assert!(is_undecodable(&measure(&PNG[..40].to_vec())));
    assert!(is_undecodable(&measure_jpeg(&Vec::new())));
    assert!(is_undecodable(&measure_jpeg(&PNG.to_vec())));
}

#[test]
fn the_same_bytes_measure_the_same() {
    let garbage = b"GIF89a?".to_vec();
    assert_eq!(measure(&garbage), measure(&garbage));
    assert_eq!(measure_jpeg(&garbage), measure_jpeg(&garbage));
}

#[test]
fn metadata_is_built_from_the_measure() {
    assert_eq!(
        describe("image/png", Measured::Size(3, 2), 73),
        Ok(ImageInfo { mimetype: "image/png".to_string(), h: 2, w: 3, size: 73 })
    );
    assert_eq!(
        describe("image/jpeg", Measured::Size(0, 0), 0),
        Ok(ImageInfo { mimetype: "image/jpeg".to_string(), h: 0, w: 0, size: 0 })
    );
    assert_eq!(
        describe("image/png", Measured::Undecodable("bad header".to_string()), 73),
        Err(TransportError { description: "bad header".to_string() })
    );
}

#[test]
fn metadata_can_be_duplicated() {
    let info = ImageInfo { mimetype: "image/png".to_string(), h: 2, w: 3, size: 73 };
    assert_eq!(info.duplicate(), info);
}

#[test]
fn bytes_are_copied() {
    assert_eq!(copy_bytes(&PNG.to_vec()), PNG.to_vec());
    assert_eq!(copy_bytes(&Vec::new()), Vec::<u8>::new());
}

#[test]
fn the_other_formats_are_measured_too() {
    assert_eq!(measure(&encoded(4, 3, image::ImageFormat::Gif)), Measured::Size(4, 3));
    assert_eq!(measure(&encoded(6, 2, image::ImageFormat::Bmp)), Measured::Size(6, 2));
    assert_eq!(measure(&encoded(2, 9, image::ImageFormat::Tiff)), Measured::Size(2, 9));
    assert_eq!(measure(&encoded(7, 7, image::ImageFormat::Pnm)), Measured::Size(7, 7));
    assert_eq!(measure(&encoded(5, 1, image::ImageFormat::WebP)), Measured::Size(5, 1));
    assert_eq!(measure(&encoded(3, 3, image::ImageFormat::Png)), Measured::Size(3, 3));
}

#[test]
fn a_format_that_is_guessed_but_not_decoded_is_an_error() {
    assert!(is_undecodable(&measure(&b"qoif\0\0\0\x01\0\0\0\x01\x03\0".to_vec())));
    assert!(is_undecodable(&measure(&b"GIF89a".to_vec())));
    assert!(is_undecodable(&measure_jpeg(&encoded(4, 3, image::ImageFormat::Gif))));
}

#[test]
fn measuring_agrees_with_the_decoder() {
    for data in [PNG.to_vec(), jpeg(5, 7), encoded(4, 3, image::ImageFormat::Gif), b"junk".to_vec()] {
        let expected = match image::load_from_memory(&data) {
            Ok(picture) => Measured::Size(picture.width(), picture.height()),
            Err(e) => Measured::Undecodable(e.to_string()),
        };
        assert_eq!(measure(&data), expected);
    }
}
