//! Canny edge detection on a grayscale image, between two thresholds.

use vstd::prelude::*;
use crate::error::LeafError;
use crate::grid::Grid;
use crate::gray::GrayscaleImage;
use crate::mask::EdgeMask;

verus! {

/// The edge mask that `imageproc::edges::canny` computes for the raster of
/// the given dimensions and samples between the two thresholds, row by row.
/// The detector keeps no state and reads nothing but its arguments; it
/// computes in single precision, so the name stands for its result on the
/// machine that runs it.
pub uninterp spec fn canny_edges(
    width: nat,
    height: nat,
    pixels: Seq<u8>,
    low: u16,
    high: u16,
) -> Seq<u8>;

/// Calls `imageproc::edges::canny` on the raster, with the thresholds as
/// single-precision numbers of the same value. Trusted: that the result is
/// `canny_edges` of the arguments, that it has the dimensions of the input,
/// and that each of its samples is 0 or 255, as the function's documentation
/// says. The function panics where `low` exceeds `high`; where `low` is 0 its
/// search leaves the raster; it counts cells in 32 bits and columns and rows
/// in signed 32 bits, and subtracts 1 from both dimensions.
#[verifier::external_body]
fn canny(width: u32, height: u32, pixels: Vec<u8>, low: u16, high: u16) -> (r: Vec<u8>)
    requires
        pixels@.len() == width * height,
        1 <= width <= i32::MAX,
        1 <= height <= i32::MAX,
        width * height <= u32::MAX,
        1 <= low <= high,
    ensures
        r@ == canny_edges(width as nat, height as nat, pixels@, low, high),
        r@.len() == pixels@.len(),
        forall|i: int| 0 <= i < r@.len() ==> r@[i] == 0 || r@[i] == 255,
{
    let raster = image::GrayImage::from_raw(width, height, pixels).unwrap();
    imageproc::edges::canny(&raster, low.into(), high.into()).into_raw()
}

/// Whether the two thresholds are in order: the low one is at most the high
/// one.
pub open spec fn valid_thresholds(low: u16, high: u16) -> bool {
    low <= high
}

/// The two thresholds of the hysteresis step, in whole units of edge
/// strength: a cell at least `high` strong is an edge, one at least `low`
/// strong is an edge where it hangs together with one.
#[derive(Debug, Clone, Copy)]
pub struct ThresholdPair {
    low: u16,
    high: u16,
}

impl View for ThresholdPair {
    type V = (u16, u16);

    closed spec fn view(&self) -> (u16, u16) {
        (self.low, self.high)
    }
}

impl ThresholdPair {
    #[verifier::type_invariant]
    spec fn in_order(&self) -> bool {
        valid_thresholds(self.low, self.high)
    }

    /// The pair of the two thresholds. A pair with `low` above `high` is
    /// rejected with `InvalidParameter`; the two are never exchanged.
    pub fn new(low: u16, high: u16) -> (r: Result<ThresholdPair, LeafError>)
        ensures
            valid_thresholds(low, high) ==> r is Ok && r->Ok_0@ == (low, high),
            !valid_thresholds(low, high) ==> r == Err::<ThresholdPair, LeafError>(
                LeafError::InvalidParameter,
            ),
    {
        if low <= high {
            Ok(ThresholdPair { low, high })
        } else {
            Err(LeafError::InvalidParameter)
        }
    }

    /// The low threshold.
    pub fn low(&self) -> (r: u16)
        ensures
            r == self@.0,
            valid_thresholds(self@.0, self@.1),
    {
        proof {
            use_type_invariant(self);
        }
        self.low
    }

    /// The high threshold.
    pub fn high(&self) -> (r: u16)
        ensures
            r == self@.1,
            valid_thresholds(self@.0, self@.1),
    {
        proof {
            use_type_invariant(self);
        }
        self.high
    }
}

/// Whether the detector can index the raster: it has at least one column and
/// one row, neither count exceeds the signed 32-bit range, and the cells can
/// be counted in 32 bits.
pub open spec fn detectable(g: Grid) -> bool {
    &&& 1 <= g.width <= i32::MAX
    &&& 1 <= g.height <= i32::MAX
    &&& g.width * g.height <= u32::MAX
}

/// What becomes of the strong cells where the low threshold is 0. Every cell
/// is then at least `low` strong, so the cells all hang together: where one
/// cell is marked, all are edges; where none is, none is.
pub open spec fn flooded(strong: Grid) -> Grid {
    Grid::uniform(
        strong.width,
        strong.height,
        if strong.pixels.contains(255u8) {
            255u8
        } else {
            0u8
        },
    )
}

/// What detection makes of a raster: the edge mask of the same dimensions,
/// or the internal error where the detector cannot index the raster.
///
/// With a low threshold of at least 1 the mask is the detector's. With a low
/// threshold of 0 the detector is asked for the strong cells alone, those
/// that it marks between `high` and `high`, and the mask is `flooded` of
/// them; where `high` is 0 as well every cell is strong, and all are edges.
pub open spec fn detected(g: Grid, low: u16, high: u16) -> Result<Grid, LeafError> {
    if !detectable(g) {
        Err(LeafError::Internal)
    } else if low >= 1 {
        Ok(
            Grid {
                width: g.width,
                height: g.height,
                pixels: canny_edges(g.width, g.height, g.pixels, low, high),
            },
        )
    } else if high >= 1 {
        Ok(
            flooded(
                Grid {
                    width: g.width,
                    height: g.height,
                    pixels: canny_edges(g.width, g.height, g.pixels, high, high),
                },
            ),
        )
    } else {
        Ok(Grid::uniform(g.width, g.height, 255u8))
    }
}

/// Detection succeeds exactly on the rasters that the detector can index,
/// whatever the thresholds, and the mask has the dimensions of the raster.
pub proof fn law_detected_dimensions(g: Grid, low: u16, high: u16)
    ensures
        detected(g, low, high) is Ok <==> detectable(g),
        detected(g, low, high) is Ok ==> detected(g, low, high)->Ok_0.width == g.width && detected(
            g,
            low,
            high,
        )->Ok_0.height == g.height,
{
}

/// Whether the detector can index the image.
pub fn is_detectable(image: &GrayscaleImage) -> (r: bool)
    ensures
        r == detectable(image@),
        image@.wf(),
{
    let width = image.width();
    let height = image.height();
    if width < 1 || height < 1 || width > 0x7FFF_FFFF || height > 0x7FFF_FFFF {
        return false;
    }
    assert(width * height <= 0x7FFF_FFFF * 0x7FFF_FFFF) by (nonlinear_arith)
        requires
            0 <= width <= 0x7FFF_FFFF,
            0 <= height <= 0x7FFF_FFFF,
    ;
    let cells: u64 = width as u64 * height as u64;
    cells <= 0xFFFF_FFFF
}

/// Marks every cell of a mask where one is marked, and none where none is:
/// what hysteresis with a low threshold of 0 makes of the strong cells.
pub fn flood(strong: &EdgeMask) -> (r: EdgeMask)
    ensures
        r@ == flooded(strong@),
        r@.wf(),
        r@.binary(),
{
    let image = strong.image();
    let pixels = image.pixels();
    let cells: usize = pixels.len();
    let mut marked = false;
    let mut i: usize = 0;
    while i < cells && !marked
        invariant
            cells == pixels@.len(),
            i <= cells,
            marked ==> pixels@.contains(255u8),
            !marked ==> forall|k: int| 0 <= k < i ==> pixels@[k] != 255,
        decreases cells - i + (if marked { 0int } else { 1int }),
    {
        if pixels[i] == 255 {
            marked = true;
        } else {
            i += 1;
        }
    }
    EdgeMask::uniform(image, marked)
}

/// Finds the edges of an image. The mask has the dimensions of the image, 255
/// at edges and 0 elsewhere. Fails with `Internal` where the detector cannot
/// index the image.
pub fn detect_edges(image: GrayscaleImage, thresholds: ThresholdPair) -> (r: Result<
    EdgeMask,
    LeafError,
>)
    ensures
        match detected(image@, thresholds@.0, thresholds@.1) {
            Ok(g) => r is Ok && r->Ok_0@ == g && g.wf() && g.binary(),
            Err(e) => r == Err::<EdgeMask, LeafError>(e),
        },
        r is Ok ==> r->Ok_0@.width == image@.width && r->Ok_0@.height == image@.height,
{
    if !is_detectable(&image) {
        return Err(LeafError::Internal);
    }
    let width = image.width();
    let height = image.height();
    let low = thresholds.low();
    let high = thresholds.high();
    if low >= 1 {
        let edges = canny(width, height, image.into_pixels(), low, high);
        Ok(EdgeMask::from_binary(GrayscaleImage::from_parts(width, height, edges)))
    } else if high >= 1 {
        let edges = canny(width, height, image.into_pixels(), high, high);
        let strong = EdgeMask::from_binary(GrayscaleImage::from_parts(width, height, edges));
        Ok(flood(&strong))
    } else {
        Ok(EdgeMask::uniform(&image, true))
    }
}

} // verus!
