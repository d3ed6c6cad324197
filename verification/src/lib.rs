//! Edge maps of raster images and matrix codes of short texts, as encoded
//! image bytes.
//!
//! An image is decoded to 8-bit grayscale, narrowed where it is wider than the
//! detector's budget, run through Canny edge detection, inverted, turned
//! upright by an orientation code and encoded again. Decoding, resampling,
//! detection and encoding are the work of the `image` and `imageproc` crates,
//! the matrix code that of `qrcode_generator`; what this crate decides around
//! them is stated in contracts and proved.

pub mod error;
pub mod grid;
pub mod gray;
pub mod laws;
pub mod mask;
pub mod codec;
pub mod resize;
pub mod detect;
pub mod qr;
pub mod leaf;

pub use crate::detect::ThresholdPair;
pub use crate::error::LeafError;
pub use crate::gray::GrayscaleImage;
pub use crate::leaf::Leaf;
pub use crate::mask::EdgeMask;
