//! Matrix codes of short texts, as PNG files.

use vstd::prelude::*;
use crate::error::LeafError;
use crate::error::outcome;

verus! {

/// The error type of the `qrcode_generator` crate, carried from a call to the
/// place where it is turned into an error of this crate.
#[verifier::external_type_specification]
#[verifier::external_body]
pub struct ExQRCodeError(qrcode_generator::QRCodeError);

/// How much of a code may be damaged and still be read, from the least
/// redundancy to the most.
#[derive(Debug, Clone, Copy, PartialEq, Eq, Structural)]
pub enum ErrorCorrection {
    Low,
    Medium,
    Quartile,
    High,
}

/// The side of a rendered code, in pixels.
pub const CODE_SIZE: usize = 1024;

/// The PNG file that `qrcode_generator::to_png_to_vec` renders for the text
/// at the given error-correction level on a square of `size` pixels a side,
/// or `None` where it gives an error: the text fits no code, or the square is
/// too small for it.
pub uninterp spec fn qr_png(text: Seq<char>, level: ErrorCorrection, size: nat) -> Option<Seq<u8>>;

/// Calls `qrcode_generator::to_png_to_vec`. Trusted: that the outcome is
/// `qr_png` of the arguments. The function answers a side that is too large
/// for its arithmetic with an error; below that it allocates a raster of
/// `size` by `size` bytes, so sides above 65535, whose raster is more than
/// can be expected of memory, are left out.
#[verifier::external_body]
fn to_png_to_vec(data: String, level: ErrorCorrection, size: usize) -> (r: Result<
    Vec<u8>,
    qrcode_generator::QRCodeError,
>)
    requires
        size <= 0xFFFF,
    ensures
        match r {
            Ok(bytes) => qr_png(data@, level, size as nat) == Some(bytes@),
            Err(_) => qr_png(data@, level, size as nat) is None,
        },
{
    let ecc = match level {
        ErrorCorrection::Low => qrcode_generator::QrCodeEcc::Low,
        ErrorCorrection::Medium => qrcode_generator::QrCodeEcc::Medium,
        ErrorCorrection::Quartile => qrcode_generator::QrCodeEcc::Quartile,
        ErrorCorrection::High => qrcode_generator::QrCodeEcc::High,
    };
    qrcode_generator::to_png_to_vec(data, ecc, size)
}

/// What rendering makes of a text: the PNG file of its code at the low
/// error-correction level on a square of `CODE_SIZE` pixels, or the encode
/// error.
pub open spec fn code_result(text: Seq<char>) -> Result<Seq<u8>, LeafError> {
    match qr_png(text, ErrorCorrection::Low, CODE_SIZE as nat) {
        Some(bytes) => Ok(bytes),
        None => Err(LeafError::Encode),
    }
}

/// Renders a text as a matrix code. Fails with `Encode` where the text fits
/// no code.
pub fn render_code(data: String) -> (r: Result<Vec<u8>, LeafError>)
    ensures
        outcome(r) == code_result(data@),
{
    match to_png_to_vec(data, ErrorCorrection::Low, CODE_SIZE) {
        Ok(bytes) => Ok(bytes),
        Err(_) => Err(LeafError::Encode),
    }
}

} // verus!
