//! Narrowing an image to the width that the detector is given at most.

use vstd::prelude::*;
use vstd::arithmetic::div_mod::lemma_fundamental_div_mod;
use vstd::arithmetic::div_mod::lemma_mod_bound;
use crate::error::LeafError;
use crate::grid::Grid;
use crate::gray::GrayscaleImage;

verus! {

/// The widest image that goes to the detector as it is.
pub const MAX_WIDTH: u32 = 1080;

/// The samples that `image::imageops::resize` with the nearest-neighbor
/// filter gives for the raster of the given dimensions and samples, resized
/// to the new dimensions, row by row.
pub uninterp spec fn resized_nearest(
    width: nat,
    height: nat,
    pixels: Seq<u8>,
    new_width: nat,
    new_height: nat,
) -> Seq<u8>;

/// Calls `image::imageops::resize` with `FilterType::Nearest` on the raster.
/// Trusted: that the result has one sample per cell of the new dimensions and
/// is `resized_nearest` of the arguments. The function allocates an
/// intermediate raster of `width` by `new_height` cells of four channels and
/// panics where the number of its samples does not fit `usize`.
#[verifier::external_body]
fn resize_nearest(
    width: u32,
    height: u32,
    pixels: &Vec<u8>,
    new_width: u32,
    new_height: u32,
) -> (r: Vec<u8>)
    requires
        pixels@.len() == width * height,
        width >= 1,
        height >= 1,
        4 * width * new_height <= usize::MAX,
        new_width * new_height <= usize::MAX,
    ensures
        r@.len() == new_width * new_height,
        r@ == resized_nearest(
            width as nat,
            height as nat,
            pixels@,
            new_width as nat,
            new_height as nat,
        ),
{
    let raster: image::ImageBuffer<image::Luma<u8>, &[u8]> =
        image::ImageBuffer::from_raw(width, height, pixels.as_slice()).unwrap();
    image::imageops::resize(&raster, new_width, new_height, image::imageops::FilterType::Nearest)
        .into_raw()
}

/// The height that goes with `MAX_WIDTH` for an image wider than that. With
/// `ratio = width / 1080`, the new width `width / ratio` is 1080 and the new
/// height is `height / ratio`, which is `height * 1080 / width`, rounded
/// down, and 1 where that is 0.
pub open spec fn target_height(width: nat, height: nat) -> nat {
    let scaled = (height * 1080) / width;
    if scaled < 1 {
        1
    } else {
        scaled
    }
}

/// Whether the resampler can take the raster down to `MAX_WIDTH`: it has
/// cells to sample, and the intermediate raster fits.
pub open spec fn can_resample(g: Grid) -> bool {
    g.height >= 1 && 4 * g.width * target_height(g.width, g.height) <= usize::MAX
}

/// The raster as the detector gets it: unchanged where it is at most
/// `MAX_WIDTH` wide, else resampled to that width and the height that keeps
/// the proportions.
pub open spec fn downscaled(g: Grid) -> Result<Grid, LeafError> {
    if g.width <= MAX_WIDTH {
        Ok(g)
    } else if !can_resample(g) {
        Err(LeafError::Internal)
    } else {
        Ok(
            Grid {
                width: MAX_WIDTH as nat,
                height: target_height(g.width, g.height),
                pixels: resized_nearest(
                    g.width,
                    g.height,
                    g.pixels,
                    MAX_WIDTH as nat,
                    target_height(g.width, g.height),
                ),
            },
        )
    }
}

/// For an image wider than `MAX_WIDTH`, the new height is at most the old
/// one, and the cells of `width` columns by the new height are at most the
/// greater of `width` and `1080 * height`.
proof fn lemma_target_height(width: nat, height: nat)
    requires
        width > 1080,
        height >= 1,
    ensures
        1 <= target_height(width, height) <= height,
        width * target_height(width, height) <= width || width * target_height(width, height)
            <= 1080 * height,
{
    let a = (height * 1080) as int;
    let w = width as int;
    let q = a / w;
    lemma_fundamental_div_mod(a, w);
    lemma_mod_bound(a, w);
    assert(w * q <= a);
    assert(q <= height) by (nonlinear_arith)
        requires
            w * q <= height * 1080,
            w > 1080,
            height >= 1,
    ;
    assert(q >= 0) by (nonlinear_arith)
        requires
            a == w * q + a % w,
            a % w < w,
            a >= 0,
            w > 0,
    ;
}

/// A raster at most `MAX_WIDTH` wide stays as it is. A wider one, where it
/// can be resampled, comes out exactly `MAX_WIDTH` wide, at least one row
/// high and no higher than it was.
pub proof fn law_downscaled_dimensions(g: Grid)
    ensures
        g.width <= MAX_WIDTH ==> downscaled(g) == Ok::<Grid, LeafError>(g),
        g.width > MAX_WIDTH ==> (downscaled(g) is Ok <==> can_resample(g)),
        g.width > MAX_WIDTH && downscaled(g) is Ok ==> {
            &&& downscaled(g)->Ok_0.width == MAX_WIDTH
            &&& downscaled(g)->Ok_0.height == (if g.height * 1080 < g.width {
                1
            } else {
                (g.height * 1080) / g.width
            })
            &&& 1 <= downscaled(g)->Ok_0.height <= g.height
        },
{
    if g.width > MAX_WIDTH && g.height >= 1 {
        lemma_target_height(g.width, g.height);
        let a = (g.height * 1080) as int;
        let w = g.width as int;
        lemma_fundamental_div_mod(a, w);
        lemma_mod_bound(a, w);
        assert(a < w <==> a / w < 1) by (nonlinear_arith)
            requires
                a == w * (a / w) + a % w,
                0 <= a % w < w,
                a >= 0,
                w > 0,
        ;
    }
}

/// Narrows an image that is wider than `MAX_WIDTH` to that width, by
/// nearest-neighbor sampling and keeping the proportions; any other image
/// comes back as it is. Fails with `Internal` where a wider image has no
/// rows, or the resampler's intermediate raster would not fit in memory.
pub fn downscale(image: GrayscaleImage) -> (r: Result<GrayscaleImage, LeafError>)
    ensures
        match downscaled(image@) {
            Ok(g) => r is Ok && r->Ok_0@ == g && g.wf(),
            Err(e) => r == Err::<GrayscaleImage, LeafError>(e),
        },
        image@.width <= MAX_WIDTH ==> r is Ok && r->Ok_0@ == image@,
        image@.width > MAX_WIDTH && r is Ok ==> r->Ok_0@.width == MAX_WIDTH && r->Ok_0@.height
            == target_height(image@.width, image@.height),
{
    let width = image.width();
    let height = image.height();
    if width <= MAX_WIDTH {
        return Ok(image);
    }
    if height == 0 {
        return Err(LeafError::Internal);
    }
    proof {
        lemma_target_height(width as nat, height as nat);
    }
    let scaled: u64 = (height as u64 * 1080) / (width as u64);
    let new_height: u32 = if scaled < 1 {
        1
    } else {
        scaled as u32
    };
    assert(new_height == target_height(width as nat, height as nat));
    assert(4 * width * new_height == 4 * (width * new_height)) by (nonlinear_arith);
    let samples: u64 = 4 * (width as u64 * new_height as u64);
    if samples > usize::MAX as u64 {
        return Err(LeafError::Internal);
    }
    assert(MAX_WIDTH * new_height <= 4 * (width * new_height)) by (nonlinear_arith)
        requires
            width > MAX_WIDTH,
            new_height >= 0,
    ;
    let pixels = resize_nearest(width, height, image.pixels(), MAX_WIDTH, new_height);
    Ok(GrayscaleImage::from_parts(MAX_WIDTH, new_height, pixels))
}

} // verus!
