//! Hand-off of a finished raster to the PNG encoder.
//!
//! The encoder is an outside collaborator: it takes the image dimensions, a
//! grayscale 8-bit layout, and a flat row-major buffer of exactly one byte
//! per pixel, and produces a compressed PNG byte stream.  The byte stream
//! itself is named, not restated, by [`png_gray_bytes`]; what is verified
//! here is the hand-off: only a well-formed raster with nonzero dimensions
//! reaches the encoder, with a buffer whose length matches the declared
//! parameters exactly.

use vstd::prelude::*;

use crate::raster::Raster;

verus! {

/// The PNG byte stream that encodes a `width` by `height` grayscale 8-bit
/// image with the given row-major samples.  The encoding is a function of
/// these arguments alone.
pub uninterp spec fn png_gray_bytes(width: u32, height: u32, samples: Seq<u8>) -> Seq<u8>;

#[verifier::external_type_specification]
#[verifier::external_body]
pub struct ExEncodingError(png::EncodingError);

/// Why a raster could not be encoded.
#[derive(Clone, Copy, Debug, PartialEq, Eq, Structural)]
pub enum EncodeError {
    /// The raster is zero pixels wide or high, which a PNG cannot carry.
    ZeroDimension,
    /// The encoder failed while writing the byte stream.
    Encoder,
}

/// Relies on png::Encoder and png::Writer: with a grayscale 8-bit layout,
/// nonzero dimensions and a buffer of exactly `width * height` bytes, the
/// encode succeeds — every remaining error path is an I/O failure of the
/// sink, and the in-memory sink cannot fail — and the output is the PNG
/// encoding of that buffer, a function of the dimensions and the samples
/// alone.
#[verifier::external_body]
fn png_encode_gray(width: u32, height: u32, samples: &Vec<u8>) -> (r: Result<
    Vec<u8>,
    png::EncodingError,
>)
    requires
        width > 0,
        height > 0,
        samples@.len() == width * height,
    ensures
        r is Ok,
        r matches Ok(bytes) ==> bytes@ == png_gray_bytes(width, height, samples@),
{
    let mut out: Vec<u8> = Vec::new();
    let mut encoder = png::Encoder::new(&mut out, width, height);
    encoder.set_color(png::ColorType::Grayscale);
    encoder.set_depth(png::BitDepth::Eight);
    let mut writer = match encoder.write_header() {
        Ok(writer) => writer,
        Err(e) => return Err(e),
    };
    if let Err(e) = writer.write_image_data(samples) {
        return Err(e);
    }
    if let Err(e) = writer.finish() {
        return Err(e);
    }
    Ok(out)
}

/// Encode a raster as a grayscale 8-bit PNG byte stream.
///
/// A raster with a zero dimension is rejected before the encoder sees it,
/// and exactly then is `ZeroDimension` returned; with nonzero dimensions the
/// encode succeeds and the result is the PNG encoding of the raster's
/// samples.
pub fn encode_grayscale(raster: &Raster) -> (r: Result<Vec<u8>, EncodeError>)
    requires
        raster.wf(),
    ensures
        (r == Result::<Vec<u8>, EncodeError>::Err(EncodeError::ZeroDimension)) <==> (raster.width
            == 0 || raster.height == 0),
        raster.width > 0 && raster.height > 0 ==> (r matches Ok(bytes) && bytes@
            == png_gray_bytes(raster.width, raster.height, raster@)),
{
    if raster.width == 0 || raster.height == 0 {
        return Err(EncodeError::ZeroDimension);
    }
    match png_encode_gray(raster.width, raster.height, raster.bytes()) {
        Ok(bytes) => Ok(bytes),
        Err(_) => Err(EncodeError::Encoder),
    }
}

} // verus!
