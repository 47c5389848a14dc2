//! The image codec: any supported raster format in, PNG out.
//!
//! Reading and writing image files is done by the `image` crate; what it
//! computes is named here and not defined. What this module adds is the
//! check that a decoded picture is a well-formed raster.
//!
//! The JPEG decoder is built with its `platform_independent` feature,
//! which leaves out the vector code that rounds differently from the plain
//! code, so that a file decodes to the same pixels on every machine.

use vstd::prelude::*;
use crate::buffer::{PixelBuffer, Raster};
use crate::error::PipelineError;

verus! {

#[verifier::external_type_specification]
#[verifier::external_body]
pub struct ExImageError(image::ImageError);

/// Width, height and channel values of the picture that the `image` crate
/// reads from `bytes`, brought to eight bit RGBA, or `None` where it reads
/// none.
pub uninterp spec fn decoded_image(bytes: Seq<u8>) -> Option<(nat, nat, Seq<u8>)>;

/// The PNG file that the `image` crate writes for an eight bit RGBA
/// picture of the given width, height and channel values, or `None` where
/// it writes none.
pub uninterp spec fn png_encoding(width: nat, height: nat, data: Seq<u8>) -> Option<Seq<u8>>;

/// `image::load_from_memory`, followed by `DynamicImage::into_rgba8`.
///
/// Trusted: the call succeeds exactly where the crate's decoding is
/// defined and then returns it. Nothing is claimed of the dimensions or of
/// the number of channel values that come back.
#[verifier::external_body]
fn load_rgba(bytes: &[u8]) -> (result: Result<(u32, u32, Vec<u8>), image::ImageError>)
    ensures
        match result {
            Ok((width, height, data)) => decoded_image(bytes@) == Some(
                (width as nat, height as nat, data@),
            ),
            Err(_) => decoded_image(bytes@) is None,
        },
{
    let picture = image::load_from_memory(bytes)?.into_rgba8();
    Ok((picture.width(), picture.height(), picture.into_raw()))
}

/// `image::ImageEncoder::write_image` on `image::codecs::png::PngEncoder`,
/// with colour type `Rgba8`.
///
/// Trusted: the call succeeds exactly where the crate's PNG encoding is
/// defined and then returns it. The call panics when `data` does not hold
/// four values per pixel, which `requires` rules out.
#[verifier::external_body]
fn write_png(width: u32, height: u32, data: &[u8]) -> (result: Result<Vec<u8>, image::ImageError>)
    requires
        data@.len() == width * height * 4,
    ensures
        match result {
            Ok(bytes) => png_encoding(width as nat, height as nat, data@) == Some(bytes@),
            Err(_) => png_encoding(width as nat, height as nat, data@) is None,
        },
{
    let mut bytes = Vec::new();
    let encoder = image::codecs::png::PngEncoder::new(&mut bytes);
    image::ImageEncoder::write_image(encoder, data, width, height, image::ColorType::Rgba8)?;
    Ok(bytes)
}

/// The buffer that [`decode_image`] gives for `bytes`: the decoded picture
/// where there is one and it is a well-formed raster.
pub open spec fn image_of(bytes: Seq<u8>) -> Option<Raster> {
    match decoded_image(bytes) {
        Some((width, height, data)) => {
            let picture = Raster { width, height, data };
            if picture.well_formed() {
                Some(picture)
            } else {
                None
            }
        },
        None => None,
    }
}

/// The PNG file of a picture, where one can be written.
pub open spec fn png_of(picture: Raster) -> Option<Seq<u8>> {
    png_encoding(picture.width, picture.height, picture.data)
}

/// Decodes an image file of any supported format into RGBA pixels.
///
/// A picture without an alpha channel comes out fully opaque. A picture
/// with no pixels is refused like a corrupt file.
pub fn decode_image(bytes: &[u8]) -> (result: Result<PixelBuffer, PipelineError>)
    ensures
        match image_of(bytes@) {
            Some(picture) => result matches Ok(buf) && buf@ == picture,
            None => result == Err::<PixelBuffer, PipelineError>(PipelineError::ImageDecode),
        },
{
    match load_rgba(bytes) {
        Ok((width, height, data)) => match PixelBuffer::new(width, height, data) {
            Some(buf) => Ok(buf),
            None => Err(PipelineError::ImageDecode),
        },
        Err(_) => Err(PipelineError::ImageDecode),
    }
}

/// Writes a buffer as a PNG file.
pub fn encode_image(buf: &PixelBuffer) -> (result: Result<Vec<u8>, PipelineError>)
    ensures
        match png_of(buf@) {
            Some(bytes) => result matches Ok(out) && out@ == bytes,
            None => result == Err::<Vec<u8>, PipelineError>(PipelineError::ImageEncode),
        },
{
    match write_png(buf.width(), buf.height(), buf.data()) {
        Ok(bytes) => Ok(bytes),
        Err(_) => Err(PipelineError::ImageEncode),
    }
}

} // verus!
