//! Pictures on the clipboard, and the PNG files in which they travel.
use vstd::prelude::*;

use crate::error::{ClipboardFault, ClipboardFaultView, ErrorView, UniClipError};

verus! {

/// A picture: four bytes (red, green, blue, alpha) for each pixel, row by row.
#[derive(Debug, PartialEq, Eq)]
pub struct ImageData {
    pub width: usize,
    pub height: usize,
    pub bytes: Vec<u8>,
}

/// The mathematical value of an [`ImageData`].
pub struct ImageView {
    pub width: usize,
    pub height: usize,
    pub bytes: Seq<u8>,
}

impl View for ImageData {
    type V = ImageView;

    open spec fn view(&self) -> ImageView {
        ImageView { width: self.width, height: self.height, bytes: self.bytes@ }
    }
}

impl ImageView {
    /// There is nothing in the picture.
    pub open spec fn blank(self) -> bool {
        self.bytes.len() == 0 || self.width == 0 || self.height == 0
    }

    /// The picture is blank, or holds four bytes for each pixel. A width or height beyond
    /// 32 bits counts by its low 32 bits.
    pub open spec fn coherent(self) -> bool {
        self.blank() || self.bytes.len() == (self.width as u32) * (self.height as u32) * 4
    }
}

/// `image::ImageError`.
#[verifier::external_type_specification]
#[verifier::external_body]
pub struct ExImageError(image::ImageError);

/// The PNG file that the `image` crate writes for RGBA pixels, or `None` where it cannot.
pub uninterp spec fn png_encoding(bytes: Seq<u8>, width: u32, height: u32) -> Option<Seq<u8>>;

/// The width, height and RGBA pixels that the `image` crate finds in a PNG file, or `None`
/// where it finds none.
pub uninterp spec fn png_decoding(png: Seq<u8>) -> Option<(u32, u32, Seq<u8>)>;

/// `PngEncoder::write_image` into a fresh buffer, with 8-bit RGBA pixels: the file is a
/// function of the pixels and the dimensions. It panics unless the buffer holds exactly
/// four bytes for each pixel. PNG is lossless: the file can be read back, and gives the same
/// dimensions and pixels.
#[verifier::external_body]
fn write_png(bytes: &[u8], width: u32, height: u32) -> (png: Result<Vec<u8>, image::ImageError>)
    requires
        bytes@.len() == width * height * 4,
    ensures
        match png {
            Ok(file) => png_encoding(bytes@, width, height) == Some(file@),
            Err(_) => png_encoding(bytes@, width, height) is None,
        },
        png matches Ok(file) ==> png_decoding(file@) == Some((width, height, bytes@)),
{
    let mut file = Vec::new();
    let encoder = image::codecs::png::PngEncoder::new(&mut file);
    image::ImageEncoder::write_image(
        encoder,
        bytes,
        width,
        height,
        image::ExtendedColorType::Rgba8,
    )?;
    Ok(file)
}

/// `PngDecoder::new`, its `dimensions`, and `DynamicImage::from_decoder` turned into raw
/// RGBA pixels: the dimensions and pixels are a function of the file. There are four bytes
/// for each pixel, and in an empty file there is no picture.
#[verifier::external_body]
fn load_png(data: &[u8]) -> (found: Result<(u32, u32, Vec<u8>), image::ImageError>)
    ensures
        match found {
            Ok((width, height, bytes)) => png_decoding(data@) == Some((width, height, bytes@)),
            Err(_) => png_decoding(data@) is None,
        },
        found matches Ok((width, height, bytes)) ==> bytes@.len() == width * height * 4,
        data@.len() == 0 ==> found is Err,
{
    let decoder = image::codecs::png::PngDecoder::new(std::io::Cursor::new(data))?;
    let (width, height) = image::ImageDecoder::dimensions(&decoder);
    let bytes = image::DynamicImage::from_decoder(decoder)?.into_rgba8().into_raw();
    Ok((width, height, bytes))
}

/// The error for contents that cannot be converted.
pub open spec fn conversion_failure() -> ErrorView {
    ErrorView::ClipboardError(ClipboardFaultView::ConversionFailure)
}

/// What a conversion gave, or the error for contents that cannot be converted.
pub fn converted<T>(outcome: Option<T>) -> (result: Result<T, UniClipError>)
    ensures
        match outcome {
            Some(value) => result == Ok::<T, UniClipError>(value),
            None => result is Err && result->Err_0@ == conversion_failure(),
        },
{
    match outcome {
        Some(value) => Ok(value),
        None => Err(UniClipError::ClipboardError(ClipboardFault::ConversionFailure)),
    }
}

/// What turning a picture into a PNG file gives.
pub open spec fn encoded(image: ImageView) -> Result<Seq<u8>, ErrorView> {
    if image.blank() {
        Err(conversion_failure())
    } else {
        match png_encoding(image.bytes, image.width as u32, image.height as u32) {
            Some(file) => Ok(file),
            None => Err(conversion_failure()),
        }
    }
}

/// What turning a PNG file into a picture gives.
pub open spec fn decoded(data: Seq<u8>) -> Result<ImageView, ErrorView> {
    match png_decoding(data) {
        Some((width, height, bytes)) => Ok(
            ImageView { width: width as usize, height: height as usize, bytes },
        ),
        None => Err(conversion_failure()),
    }
}

/// Turns a picture into a PNG file. That file turned back into a picture is the same picture:
/// nothing is lost. A width or height beyond 32 bits does not fit into a file.
pub fn encode_as_png(image: &ImageData) -> (png: Result<Vec<u8>, UniClipError>)
    requires
        image@.coherent(),
    ensures
        match png {
            Ok(file) => encoded(image@) == Ok::<Seq<u8>, ErrorView>(file@),
            Err(e) => encoded(image@) == Err::<Seq<u8>, ErrorView>(e@),
        },
        png matches Ok(file) ==> (image.width <= u32::MAX && image.height <= u32::MAX ==> decoded(
            file@,
        ) == Ok::<ImageView, ErrorView>(image@)),
{
    if image.bytes.len() == 0 || image.width == 0 || image.height == 0 {
        return converted(None);
    }
    let width: u32 = image.width as u32;
    let height: u32 = image.height as u32;
    match write_png(image.bytes.as_slice(), width, height) {
        Ok(file) => converted(Some(file)),
        Err(_) => converted(None),
    }
}

/// Turns a PNG file into a picture, which holds four bytes for each pixel. Whatever is no
/// such file cannot be converted; an empty file is none.
pub fn read_png(data: &[u8]) -> (image: Result<ImageData, UniClipError>)
    ensures
        match image {
            Ok(found) => decoded(data@) == Ok::<ImageView, ErrorView>(found@),
            Err(e) => decoded(data@) == Err::<ImageView, ErrorView>(e@) && e@
                == conversion_failure(),
        },
        image matches Ok(found) ==> found.bytes@.len() == found.width * found.height * 4,
        data@.len() == 0 ==> image is Err,
{
    match load_png(data) {
        Ok((width, height, bytes)) => converted(
            Some(ImageData { width: width as usize, height: height as usize, bytes }),
        ),
        Err(_) => converted(None),
    }
}

impl ImageData {
    /// Whether the picture is blank or holds four bytes for each pixel.
    pub fn is_coherent(&self) -> (coherent: bool)
        ensures
            coherent == self@.coherent(),
    {
        if self.bytes.len() == 0 || self.width == 0 || self.height == 0 {
            return true;
        }
        let width: u32 = self.width as u32;
        let height: u32 = self.height as u32;
        let pixels: u64 = mul_dimensions(width, height);
        self.bytes.len() as u128 == pixels as u128 * 4
    }
}

/// The number of pixels of a picture.
fn mul_dimensions(width: u32, height: u32) -> (pixels: u64)
    ensures
        pixels == width * height,
{
    assert(0 <= width * height <= 0xffff_ffff * 0xffff_ffff) by (nonlinear_arith)
        requires
            width <= 0xffff_ffff,
            height <= 0xffff_ffff,
    ;
    width as u64 * height as u64
}

/// A picture with pixels, four bytes for each, can be handed over, whatever its size.
pub proof fn pictures_are_coherent(image: ImageView)
    requires
        image.width <= u32::MAX,
        image.height <= u32::MAX,
        image.bytes.len() == image.width * image.height * 4,
    ensures
        image.coherent(),
        image.blank() <==> image.width == 0 || image.height == 0,
{
    assert(image.width * image.height > 0 <==> image.width > 0 && image.height > 0)
        by (nonlinear_arith);
}

/// Turning a picture into a file fails exactly where there is nothing in it or no file can
/// be written for all of its pixels, and always with the same error.
pub proof fn encoding_fails_only_where_it_must(image: ImageView)
    ensures
        ({
            let nothing = image.bytes.len() == 0 || image.width == 0 || image.height == 0;
            let file = png_encoding(image.bytes, image.width as u32, image.height as u32);
            match encoded(image) {
                Ok(png) => !nothing && file == Some(png),
                Err(e) => (nothing || file is None) && e == ErrorView::ClipboardError(
                    ClipboardFaultView::ConversionFailure,
                ),
            }
        }),
{
}

/// Turning a file into a picture fails exactly where no picture can be found in it, and
/// otherwise gives all that is found.
pub proof fn decoding_fails_only_where_it_must(data: Seq<u8>)
    ensures
        match decoded(data) {
            Ok(image) => png_decoding(data) matches Some(found) && found.0 == image.width
                && found.1 == image.height && found.2 == image.bytes,
            Err(e) => png_decoding(data) is None && e == ErrorView::ClipboardError(
                ClipboardFaultView::ConversionFailure,
            ),
        },
{
}

} // verus!
