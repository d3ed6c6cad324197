//! The two requests that a host makes: the edge map of an image, and the
//! matrix code of a text.

use vstd::prelude::*;
use crate::codec::decode;
use crate::codec::decode_result;
use crate::codec::encode;
use crate::codec::encode_result;
use crate::detect::detect_edges;
use crate::detect::detected;
use crate::detect::valid_thresholds;
use crate::detect::ThresholdPair;
use crate::error::outcome;
use crate::error::LeafError;
use crate::grid::Grid;
use crate::laws::law_oriented_dimensions;
use crate::mask::EdgeMask;
use crate::qr::code_result;
use crate::qr::render_code;
use crate::resize::downscale;
use crate::resize::downscaled;

verus! {

/// The mask as it is handed to the encoder: inverted, so that edges are dark
/// on light, and turned as the orientation code says.
pub open spec fn upright(mask: Grid, orientation: u8) -> Grid {
    mask.inverted().oriented(orientation)
}

/// What comes of a mask after detection: it is made upright and encoded.
pub open spec fn rendered(mask: Grid, orientation: u8) -> Result<Seq<u8>, LeafError> {
    encode_result(upright(mask, orientation))
}

/// The image as the detector gets it: decoded, and narrowed where it is
/// wider than the detector's budget.
pub open spec fn prepared(blob: Seq<u8>) -> Result<Grid, LeafError> {
    match decode_result(blob) {
        Err(e) => Err(e),
        Ok(image) => downscaled(image),
    }
}

/// The raster that a request for an edge map hands to the encoder, stage by
/// stage: the first stage that fails gives the error, and no later stage is
/// reached.
pub open spec fn edge_raster(blob: Seq<u8>, low: u16, high: u16, orientation: u8) -> Result<
    Grid,
    LeafError,
> {
    match decode_result(blob) {
        Err(e) => Err(e),
        Ok(image) => if !valid_thresholds(low, high) {
            Err(LeafError::InvalidParameter)
        } else {
            match downscaled(image) {
                Err(e) => Err(e),
                Ok(small) => match detected(small, low, high) {
                    Err(e) => Err(e),
                    Ok(mask) => Ok(upright(mask, orientation)),
                },
            }
        },
    }
}

/// What comes of a request for an edge map: the encoding of the raster that
/// the stages before the encoder make, or the error of the first stage that
/// fails.
pub open spec fn edge_result(blob: Seq<u8>, low: u16, high: u16, orientation: u8) -> Result<
    Seq<u8>,
    LeafError,
> {
    match edge_raster(blob, low, high, orientation) {
        Err(e) => Err(e),
        Ok(raster) => encode_result(raster),
    }
}

/// Whether `raster` has the dimensions of `image` as the orientation code
/// leaves them: exchanged for codes 5 to 8, kept for all others.
pub open spec fn turned_dimensions(raster: Grid, image: Grid, orientation: u8) -> bool {
    if 5 <= orientation <= 8 {
        raster.width == image.height && raster.height == image.width
    } else {
        raster.width == image.width && raster.height == image.height
    }
}

/// The entry points.
pub struct Leaf {}

impl Leaf {
    /// The matrix code of `data`, as a PNG file: low error correction, on a
    /// square of 1024 pixels a side. Fails with `Encode` where the text fits
    /// no code.
    pub fn get_qr(data: String) -> (r: Result<Vec<u8>, LeafError>)
        ensures
            outcome(r) == code_result(data@),
    {
        render_code(data)
    }

    /// The last stages of an edge map: the mask inverted, so that edges are
    /// dark on light, turned as `orientation` says, and encoded as a PNG file.
    pub fn render_edges(mask: EdgeMask, orientation: u8) -> (r: Result<Vec<u8>, LeafError>)
        ensures
            outcome(r) == rendered(mask@, orientation),
            upright(mask@, orientation).wf(),
            upright(mask@, orientation).binary(),
            turned_dimensions(upright(mask@, orientation), mask@, orientation),
    {
        let inverted = mask.invert();
        proof {
            law_oriented_dimensions(inverted@, orientation);
        }
        let turned = inverted.orient(orientation);
        encode(&turned)
    }

    /// The edge map of the image in `blob`, as a PNG file: the image decoded
    /// to grayscale, narrowed to at most 1080 columns, its edges found between
    /// the two thresholds, the mask inverted and turned as `orientation` says.
    ///
    /// Fails with `Decode` where the bytes are no image; else with
    /// `InvalidParameter` where `low_threshold` is above `high_threshold`;
    /// else with `Internal` where a stage cannot hold the image; else with
    /// `Encode` where the encoder refuses the result.
    ///
    /// Where it succeeds, the raster that was encoded has one sample per
    /// cell, each 0 or 255, and the dimensions of the narrowed image,
    /// exchanged where the orientation code turns by a quarter.
    pub fn get_edge(blob: &[u8], low_threshold: u16, high_threshold: u16, orientation: u8) -> (r:
        Result<Vec<u8>, LeafError>)
        ensures
            outcome(r) == edge_result(blob@, low_threshold, high_threshold, orientation),
            r is Ok ==> {
                let raster = edge_raster(blob@, low_threshold, high_threshold, orientation);
                &&& raster is Ok
                &&& prepared(blob@) is Ok
                &&& raster->Ok_0.wf()
                &&& raster->Ok_0.binary()
                &&& turned_dimensions(raster->Ok_0, prepared(blob@)->Ok_0, orientation)
            },
    {
        let image = match decode(blob) {
            Ok(image) => image,
            Err(e) => {
                return Err(e);
            },
        };
        let thresholds = match ThresholdPair::new(low_threshold, high_threshold) {
            Ok(thresholds) => thresholds,
            Err(e) => {
                return Err(e);
            },
        };
        let small = match downscale(image) {
            Ok(small) => small,
            Err(e) => {
                return Err(e);
            },
        };
        let mask = match detect_edges(small, thresholds) {
            Ok(mask) => mask,
            Err(e) => {
                return Err(e);
            },
        };
        Leaf::render_edges(mask, orientation)
    }
}

/// The same bytes, thresholds and orientation code give the same output, or
/// the same error, whenever they are asked for: two outcomes that both meet
/// the contract of `get_edge` for one request are equal.
pub proof fn law_same_request_same_output(
    blob: Seq<u8>,
    low: u16,
    high: u16,
    orientation: u8,
    first: Result<Vec<u8>, LeafError>,
    second: Result<Vec<u8>, LeafError>,
)
    requires
        outcome(first) == edge_result(blob, low, high, orientation),
        outcome(second) == edge_result(blob, low, high, orientation),
    ensures
        outcome(first) == outcome(second),
{
}

} // verus!
