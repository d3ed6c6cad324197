//! Edge masks: rasters whose every sample is 0 or 255.

use vstd::prelude::*;
use crate::grid::Grid;
use crate::gray::GrayscaleImage;
use crate::laws::law_inverted_binary;
use crate::laws::law_oriented_binary;
use crate::laws::lemma_flipped_horizontal;

verus! {

/// A raster that marks cells with 255 and leaves the others 0.
#[derive(Debug)]
pub struct EdgeMask {
    image: GrayscaleImage,
}

impl View for EdgeMask {
    type V = Grid;

    closed spec fn view(&self) -> Grid {
        self.image@
    }
}

impl EdgeMask {
    #[verifier::type_invariant]
    spec fn two_valued(&self) -> bool {
        self.image@.binary()
    }

    /// The mask with the samples of `image`, where each of them is 0 or 255;
    /// `None` otherwise.
    pub fn from_image(image: GrayscaleImage) -> (r: Option<EdgeMask>)
        ensures
            image@.binary() ==> r is Some && r->0@ == image@,
            !image@.binary() ==> r is None,
    {
        let pixels = image.pixels();
        let n: usize = pixels.len();
        let mut i: usize = 0;
        while i < n
            invariant
                n == pixels@.len(),
                pixels@ == image@.pixels,
                i <= n,
                forall|k: int| 0 <= k < i ==> pixels@[k] == 0 || pixels@[k] == 255,
            decreases n - i,
        {
            if pixels[i] != 0 && pixels[i] != 255 {
                assert(!(image@.pixels[i as int] == 0 || image@.pixels[i as int] == 255));
                return None;
            }
            i += 1;
        }
        Some(EdgeMask { image })
    }

    /// The mask with the samples of `image`.
    pub(crate) fn from_binary(image: GrayscaleImage) -> (r: EdgeMask)
        requires
            image@.binary(),
        ensures
            r@ == image@,
    {
        EdgeMask { image }
    }

    /// The mask of the dimensions of `shape` with every cell marked, or with
    /// none.
    pub fn uniform(shape: &GrayscaleImage, marked: bool) -> (r: EdgeMask)
        ensures
            r@ == Grid::uniform(shape@.width, shape@.height, if marked { 255u8 } else { 0u8 }),
            r@.wf(),
            r@.binary(),
    {
        let width = shape.width();
        let height = shape.height();
        let cells: usize = shape.pixels().len();
        let value: u8 = if marked { 255 } else { 0 };
        let mut pixels: Vec<u8> = Vec::with_capacity(cells);
        let mut i: usize = 0;
        while i < cells
            invariant
                i <= cells,
                pixels@.len() == i,
                forall|k: int| 0 <= k < i ==> pixels@[k] == value,
            decreases cells - i,
        {
            pixels.push(value);
            i += 1;
        }
        assert(pixels@ =~= Grid::uniform(shape@.width, shape@.height, value).pixels);
        EdgeMask { image: GrayscaleImage::from_parts(width, height, pixels) }
    }

    /// The mask as an image.
    pub fn image(&self) -> (r: &GrayscaleImage)
        ensures
            r@ == self@,
            self@.wf(),
            self@.binary(),
    {
        proof {
            use_type_invariant(self);
        }
        let w = self.image.width();
        &self.image
    }

    /// The mask as an image, given up as a mask.
    pub fn into_image(self) -> (r: GrayscaleImage)
        ensures
            r@ == self@,
            self@.wf(),
            self@.binary(),
    {
        proof {
            use_type_invariant(&self);
        }
        let w = self.image.width();
        self.image
    }

    /// The mask with marked and unmarked cells exchanged: every sample `p`
    /// becomes `255 - p`.
    pub fn invert(self) -> (r: EdgeMask)
        ensures
            r@ == self@.inverted(),
            r@.wf(),
            r@.binary(),
    {
        proof {
            use_type_invariant(&self);
        }
        let image = self.image.invert();
        proof {
            law_inverted_binary(self.image@);
        }
        EdgeMask { image }
    }

    /// The mask turned upright. `code` says how: 2 mirrors the columns, 3
    /// turns by half a turn, 4 mirrors and then turns by half a turn, 5
    /// mirrors and then turns a quarter clockwise, 6 turns a quarter
    /// clockwise, 7 mirrors and then turns three quarters clockwise, 8 turns
    /// three quarters clockwise. Every other code leaves the mask as it is.
    pub fn orient(self, code: u8) -> (r: EdgeMask)
        ensures
            r@ == self@.oriented(code),
            r@.wf(),
            r@.binary(),
    {
        proof {
            use_type_invariant(&self);
        }
        let w = self.image.width();
        proof {
            law_oriented_binary(self.image@, code);
            lemma_flipped_horizontal(self.image@);
        }
        match code {
            2 => EdgeMask { image: self.image.flip_horizontal() },
            3 => EdgeMask { image: self.image.rotate180() },
            4 => EdgeMask { image: self.image.flip_horizontal().rotate180() },
            5 => EdgeMask { image: self.image.flip_horizontal().rotate90() },
            6 => EdgeMask { image: self.image.rotate90() },
            7 => EdgeMask { image: self.image.flip_horizontal().rotate270() },
            8 => EdgeMask { image: self.image.rotate270() },
            _ => self,
        }
    }
}

} // verus!
