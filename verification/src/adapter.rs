//! The boundary adapter that turns an in-memory decoded image into the
//! encoded byte buffer the engine's input path consumes.

use crate::error::{EasyOcrErr, EasyOcrResult};
use vstd::prelude::*;

verus! {

#[verifier::external_type_specification]
#[verifier::external_body]
pub struct ExDynamicImage(image::DynamicImage);

/// Whether the PNG codec encodes this image at all (it refuses, for
/// instance, an image with a zero dimension).
pub uninterp spec fn png_ok_of(img: image::DynamicImage) -> bool;

/// The PNG stream the codec encodes this image to. The codec is a pure,
/// pinned function of the image alone, so the stream is a value of the
/// image; its contents belong to the codec and are not spelled out here.
pub uninterp spec fn png_bytes_of(img: image::DynamicImage) -> Seq<u8>;

/// Relies on `image::DynamicImage::write_to` with `ImageFormat::Png`: it
/// encodes the image as a PNG stream into the writer, deterministically in
/// the image, and reports any codec failure as an error.
#[verifier::external_body]
fn encode_png_bytes(img: &image::DynamicImage) -> (r: Result<Vec<u8>, String>)
    ensures
        r is Ok == png_ok_of(*img),
        r matches Ok(b) ==> b@ == png_bytes_of(*img),
{
    let mut buf: Vec<u8> = Vec::new();
    match img.write_to(std::io::Cursor::new(&mut buf), image::ImageFormat::Png) {
        Ok(()) => Ok(buf),
        Err(e) => Err(e.to_string()),
    }
}

/// Encodes an in-memory decoded image into the fixed lossless raster format
/// (PNG) the engine reads: the result is exactly the image's PNG stream, and
/// it is `Ok` exactly when the codec accepts the image. A boundary adapter
/// only — no inference-relevant logic; a codec failure surfaces as the
/// resource error kind.
pub fn encode_image(img: &image::DynamicImage) -> (r: EasyOcrResult<Vec<u8>>)
    ensures
        r is Ok == png_ok_of(*img),
        r matches Ok(b) ==> b@ == png_bytes_of(*img),
        r matches Err(e) ==> e matches EasyOcrErr::IO(_),
{
    match encode_png_bytes(img) {
        Ok(b) => Ok(b),
        Err(m) => Err(EasyOcrErr::IO(m)),
    }
}

} // verus!
