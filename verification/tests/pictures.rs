use uniclip::error::{ClipboardFault, UniClipError};
use uniclip::picture::{encode_as_png, read_png, ImageData};

fn unconvertible<T>() -> Result<T, UniClipError> {
    Err(UniClipError::ClipboardError(ClipboardFault::ConversionFailure))
}

#[test]
fn picture_survives_as_png() {
    let image = ImageData {
        width: 2,
        height: 1,
        bytes: vec![255, 0, 0, 255, 1, 2, 3, 128],
    };
    assert!(image.is_coherent());
    let png = encode_as_png(&image).unwrap();
    assert_eq!(png[..8], [0x89, b'P', b'N', b'G', 0x0d, 0x0a, 0x1a, 0x0a]);
    assert_eq!(read_png(&png), Ok(image));
}

#[test]
fn blank_picture_cannot_be_converted() {
    let no_bytes = ImageData { width: 1, height: 1, bytes: vec![] };
    let no_width = ImageData { width: 0, height: 1, bytes: vec![1] };
    let no_height = ImageData { width: 1, height: 0, bytes: vec![1] };
    for image in [no_bytes, no_width, no_height] {
        assert!(image.is_coherent());
        assert_eq!(encode_as_png(&image), unconvertible());
    }
}

#[test]
fn bytes_that_are_no_png_cannot_be_converted() {
    assert_eq!(read_png(&[]), unconvertible());
    assert_eq!(read_png(b"not a picture"), unconvertible());
}

#[test]
fn coherence_counts_four_bytes_for_each_pixel() {
    assert!(!ImageData { width: 2, height: 2, bytes: vec![0; 15] }.is_coherent());
    assert!(ImageData { width: 2, height: 2, bytes: vec![0; 16] }.is_coherent());
    assert!(!ImageData { width: 2, height: 2, bytes: vec![0; 17] }.is_coherent());
}

#[test]
fn picture_of_another_colour_type_has_four_bytes_for_each_pixel() {
    let mut png = Vec::new();
    let encoder = image::codecs::png::PngEncoder::new(&mut png);
    image::ImageEncoder::write_image(encoder, &[7, 9], 2, 1, image::ExtendedColorType::L8)
        .unwrap();
    assert_eq!(
        read_png(&png),
        Ok(ImageData { width: 2, height: 1, bytes: vec![7, 7, 7, 255, 9, 9, 9, 255] })
    );
}
