//! From encoded bytes to a grayscale image, and from an edge mask to encoded
//! bytes.

use vstd::prelude::*;
use crate::error::LeafError;
use crate::error::outcome;
use crate::grid::Grid;
use crate::gray::GrayscaleImage;
use crate::mask::EdgeMask;

verus! {

/// The error type of the `image` crate, carried from a call to the place
/// where it is turned into an error of this crate.
#[verifier::external_type_specification]
#[verifier::external_body]
pub struct ExImageError(image::ImageError);

/// What `image::io::Reader`, left to guess the format from the content, makes
/// of `bytes`, converted to 8-bit grayscale: the raster, or `None` where the
/// bytes are of no supported format or the decoder rejects them.
pub uninterp spec fn decoded(bytes: Seq<u8>) -> Option<Grid>;

/// The PNG file that the `image` crate writes for the 8-bit grayscale raster
/// of the given dimensions and samples, or `None` where its encoder refuses.
pub uninterp spec fn png_encoding(width: nat, height: nat, pixels: Seq<u8>) -> Option<Seq<u8>>;

/// Calls `image::io::Reader::with_guessed_format` and `decode` on the bytes,
/// then `DynamicImage::to_luma8`. Trusted: that the outcome is `decoded` of
/// the bytes, and that the buffer which `to_luma8` allocates holds exactly one
/// sample per cell.
#[verifier::external_body]
fn decode_luma8(blob: &[u8]) -> (r: Result<(u32, u32, Vec<u8>), image::ImageError>)
    ensures
        match r {
            Ok(parts) => parts.2@.len() == parts.0 * parts.1 && decoded(blob@) == Some(
                Grid { width: parts.0 as nat, height: parts.1 as nat, pixels: parts.2@ },
            ),
            Err(_) => decoded(blob@) is None,
        },
{
    let reader = image::io::Reader::new(std::io::Cursor::new(blob)).with_guessed_format()?;
    let gray = reader.decode()?.to_luma8();
    Ok((gray.width(), gray.height(), gray.into_raw()))
}

/// Calls `ImageBuffer::write_to` with the PNG format on the raster. Trusted:
/// that the outcome is `png_encoding` of the raster.
#[verifier::external_body]
fn write_png(width: u32, height: u32, pixels: &Vec<u8>) -> (r: Result<Vec<u8>, image::ImageError>)
    requires
        pixels@.len() == width * height,
    ensures
        match r {
            Ok(bytes) => png_encoding(width as nat, height as nat, pixels@) == Some(bytes@),
            Err(_) => png_encoding(width as nat, height as nat, pixels@) is None,
        },
{
    let mut bytes: Vec<u8> = Vec::new();
    let raster: image::ImageBuffer<image::Luma<u8>, &[u8]> =
        image::ImageBuffer::from_raw(width, height, pixels.as_slice()).unwrap();
    raster.write_to(&mut std::io::Cursor::new(&mut bytes), image::ImageOutputFormat::Png)?;
    Ok(bytes)
}

/// What decoding makes of `bytes`: the image, or the decode error.
pub open spec fn decode_result(bytes: Seq<u8>) -> Result<Grid, LeafError> {
    match decoded(bytes) {
        Some(g) => Ok(g),
        None => Err(LeafError::Decode),
    }
}

/// What encoding makes of a raster: the PNG file, or the encode error.
pub open spec fn encode_result(g: Grid) -> Result<Seq<u8>, LeafError> {
    match png_encoding(g.width, g.height, g.pixels) {
        Some(bytes) => Ok(bytes),
        None => Err(LeafError::Encode),
    }
}

/// Decodes an image of any supported format, recognized by its content, to
/// 8-bit grayscale. Fails with `Decode` where the bytes are of no supported
/// format, cut short or damaged.
pub fn decode(blob: &[u8]) -> (r: Result<GrayscaleImage, LeafError>)
    ensures
        match decode_result(blob@) {
            Ok(g) => r is Ok && r->Ok_0@ == g && g.wf(),
            Err(e) => r == Err::<GrayscaleImage, LeafError>(e),
        },
{
    match decode_luma8(blob) {
        Ok((width, height, pixels)) => Ok(GrayscaleImage::from_parts(width, height, pixels)),
        Err(_) => Err(LeafError::Decode),
    }
}

/// Encodes a mask as a PNG file. Fails with `Encode` where the encoder
/// refuses the raster.
pub fn encode(mask: &EdgeMask) -> (r: Result<Vec<u8>, LeafError>)
    ensures
        outcome(r) == encode_result(mask@),
{
    let image = mask.image();
    let width = image.width();
    let height = image.height();
    match write_png(width, height, image.pixels()) {
        Ok(bytes) => Ok(bytes),
        Err(_) => Err(LeafError::Encode),
    }
}

} // verus!
