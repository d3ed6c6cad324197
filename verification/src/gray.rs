//! Grayscale rasters in memory, and the transforms that move their samples.

use vstd::prelude::*;
use crate::grid::Grid;
use crate::grid::lemma_cell_index;
use crate::grid::lemma_from_fn;
use crate::grid::lemma_grid_ext;

verus! {

/// The four rearrangements of cells that the orientation codes are made of.
enum Turn {
    /// Columns mirrored.
    Mirror,
    /// Half a turn.
    Half,
    /// A quarter turn clockwise.
    Quarter,
    /// Three quarter turns clockwise.
    ThreeQuarters,
}

impl Turn {
    /// The width of what the turn makes of `g`.
    spec fn width(self, g: Grid) -> nat {
        match self {
            Turn::Mirror | Turn::Half => g.width,
            Turn::Quarter | Turn::ThreeQuarters => g.height,
        }
    }

    /// The height of what the turn makes of `g`.
    spec fn height(self, g: Grid) -> nat {
        match self {
            Turn::Mirror | Turn::Half => g.height,
            Turn::Quarter | Turn::ThreeQuarters => g.width,
        }
    }

    /// The cell of `g` whose sample the turn puts at `(x, y)`.
    spec fn source(self, g: Grid, x: int, y: int) -> (int, int) {
        match self {
            Turn::Mirror => (g.width - 1 - x, y),
            Turn::Half => (g.width - 1 - x, g.height - 1 - y),
            Turn::Quarter => (y, g.height - 1 - x),
            Turn::ThreeQuarters => (g.width - 1 - y, x),
        }
    }
}

/// An 8-bit single-channel image: `width * height` samples, row by row.
#[derive(Debug)]
pub struct GrayscaleImage {
    width: u32,
    height: u32,
    pixels: Vec<u8>,
}

impl View for GrayscaleImage {
    type V = Grid;

    closed spec fn view(&self) -> Grid {
        Grid { width: self.width as nat, height: self.height as nat, pixels: self.pixels@ }
    }
}

impl GrayscaleImage {
    #[verifier::type_invariant]
    spec fn one_sample_per_cell(&self) -> bool {
        self.pixels@.len() == self.width * self.height
    }

    /// The image of the given dimensions over the given samples, where there
    /// is one sample per cell; `None` otherwise.
    pub fn new(width: u32, height: u32, pixels: Vec<u8>) -> (r: Option<GrayscaleImage>)
        ensures
            pixels@.len() == width * height ==> r is Some && r->0@ == (Grid {
                width: width as nat,
                height: height as nat,
                pixels: pixels@,
            }),
            pixels@.len() != width * height ==> r is None,
    {
        assert(width * height <= 0xFFFF_FFFF * 0xFFFF_FFFF) by (nonlinear_arith)
            requires
                0 <= width <= 0xFFFF_FFFF,
                0 <= height <= 0xFFFF_FFFF,
        ;
        let cells: u64 = (width as u64) * (height as u64);
        if pixels.len() as u64 == cells {
            Some(GrayscaleImage { width, height, pixels })
        } else {
            None
        }
    }

    /// The image of the given dimensions over the given samples.
    pub(crate) fn from_parts(width: u32, height: u32, pixels: Vec<u8>) -> (r: GrayscaleImage)
        requires
            pixels@.len() == width * height,
        ensures
            r@ == (Grid { width: width as nat, height: height as nat, pixels: pixels@ }),
            r@.wf(),
    {
        GrayscaleImage { width, height, pixels }
    }

    /// The number of columns.
    pub fn width(&self) -> (w: u32)
        ensures
            w == self@.width,
            self@.wf(),
    {
        proof {
            use_type_invariant(self);
        }
        self.width
    }

    /// The number of rows.
    pub fn height(&self) -> (h: u32)
        ensures
            h == self@.height,
            self@.wf(),
    {
        proof {
            use_type_invariant(self);
        }
        self.height
    }

    /// The samples, row by row.
    pub fn pixels(&self) -> (p: &Vec<u8>)
        ensures
            p@ == self@.pixels,
            self@.wf(),
    {
        proof {
            use_type_invariant(self);
        }
        &self.pixels
    }

    /// The samples, row by row, without the dimensions.
    pub fn into_pixels(self) -> (p: Vec<u8>)
        ensures
            p@ == self@.pixels,
            self@.wf(),
    {
        proof {
            use_type_invariant(&self);
        }
        self.pixels
    }

    /// The sample in column `x` of row `y`, where the image has that cell.
    pub fn get(&self, x: u32, y: u32) -> (p: Option<u8>)
        ensures
            self@.contains(x as int, y as int) ==> p == Some(self@.at(x as int, y as int)),
            !self@.contains(x as int, y as int) ==> p is None,
    {
        proof {
            use_type_invariant(self);
        }
        // The samples are in memory, so their number fits `usize`.
        let cells: usize = self.pixels.len();
        if x < self.width && y < self.height {
            proof {
                lemma_cell_index(self.width as int, self.height as int, x as int, y as int);
            }
            let i: usize = (y as usize) * (self.width as usize) + (x as usize);
            Some(self.pixels[i])
        } else {
            None
        }
    }

    /// The image with every sample `p` replaced by `255 - p`.
    pub fn invert(&self) -> (r: GrayscaleImage)
        ensures
            r@ == self@.inverted(),
            r@.wf(),
    {
        proof {
            use_type_invariant(self);
        }
        let n: usize = self.pixels.len();
        let mut out: Vec<u8> = Vec::with_capacity(n);
        let mut i: usize = 0;
        while i < n
            invariant
                n == self.pixels@.len(),
                i <= n,
                out@.len() == i,
                forall|k: int| 0 <= k < i ==> out@[k] == (255 - self.pixels@[k]) as u8,
            decreases n - i,
        {
            out.push(255 - self.pixels[i]);
            i += 1;
        }
        assert(out@ =~= self@.inverted().pixels);
        GrayscaleImage { width: self.width, height: self.height, pixels: out }
    }

    /// The image whose cell `(x, y)` holds the sample that `turn` finds for it
    /// in `self`.
    fn turned(&self, turn: Turn) -> (r: GrayscaleImage)
        ensures
            r@.wf(),
            r@.width == turn.width(self@),
            r@.height == turn.height(self@),
            forall|x: int, y: int|
                r@.contains(x, y) ==> #[trigger] r@.at(x, y) == self@.at(
                    turn.source(self@, x, y).0,
                    turn.source(self@, x, y).1,
                ),
    {
        proof {
            use_type_invariant(self);
        }
        let w: usize = self.width as usize;
        let h: usize = self.height as usize;
        let n: usize = self.pixels.len();
        let (new_width, new_height) = match turn {
            Turn::Mirror | Turn::Half => (self.width, self.height),
            Turn::Quarter | Turn::ThreeQuarters => (self.height, self.width),
        };
        let nw: usize = new_width as usize;
        let nh: usize = new_height as usize;
        proof {
            assert(nw * nh == w * h) by (nonlinear_arith)
                requires
                    (nw == w && nh == h) || (nw == h && nh == w),
            ;
        }
        let mut out: Vec<u8> = Vec::with_capacity(n);
        let mut y: usize = 0;
        while y < nh
            invariant
                w == self.width,
                h == self.height,
                nw == turn.width(self@),
                nh == turn.height(self@),
                n == w * h,
                n == nw * nh,
                self.pixels@.len() == n,
                y <= nh,
                out@.len() == y * nw,
                forall|k: int|
                    0 <= k < out@.len() ==> #[trigger] out@[k] == self@.at(
                        turn.source(self@, k % (nw as int), k / (nw as int)).0,
                        turn.source(self@, k % (nw as int), k / (nw as int)).1,
                    ),
            decreases nh - y,
        {
            let mut x: usize = 0;
            while x < nw
                invariant
                    w == self.width,
                    h == self.height,
                    nw == turn.width(self@),
                    nh == turn.height(self@),
                    n == w * h,
                    n == nw * nh,
                    self.pixels@.len() == n,
                    y < nh,
                    x <= nw,
                    out@.len() == y * nw + x,
                    forall|k: int|
                        0 <= k < out@.len() ==> #[trigger] out@[k] == self@.at(
                            turn.source(self@, k % (nw as int), k / (nw as int)).0,
                            turn.source(self@, k % (nw as int), k / (nw as int)).1,
                        ),
                decreases nw - x,
            {
                let (sx, sy) = match turn {
                    Turn::Mirror => (w - 1 - x, y),
                    Turn::Half => (w - 1 - x, h - 1 - y),
                    Turn::Quarter => (y, h - 1 - x),
                    Turn::ThreeQuarters => (w - 1 - y, x),
                };
                proof {
                    lemma_cell_index(w as int, h as int, sx as int, sy as int);
                    lemma_cell_index(nw as int, nh as int, x as int, y as int);
                }
                out.push(self.pixels[sy * w + sx]);
                x += 1;
            }
            proof {
                assert(y * nw + nw == (y + 1) * nw) by (nonlinear_arith);
            }
            y += 1;
        }
        let r = GrayscaleImage { width: new_width, height: new_height, pixels: out };
        proof {
            assert(nh * nw == nw * nh) by (nonlinear_arith);
            assert forall|a: int, b: int| r@.contains(a, b) implies #[trigger] r@.at(a, b)
                == self@.at(turn.source(self@, a, b).0, turn.source(self@, a, b).1) by {
                lemma_cell_index(nw as int, nh as int, a, b);
                assert(r@.at(a, b) == out@[b * nw + a]);
            }
        }
        r
    }

    /// The image with its columns mirrored.
    pub fn flip_horizontal(&self) -> (r: GrayscaleImage)
        ensures
            r@ == self@.flipped_horizontal(),
            r@.wf(),
    {
        let r = self.turned(Turn::Mirror);
        proof {
            use_type_invariant(self);
            let g = self@;
            lemma_from_fn(g.width, g.height, |x: int, y: int| g.at(g.width - 1 - x, y));
            lemma_grid_ext(r@, g.flipped_horizontal());
        }
        r
    }

    /// The image turned by half a turn.
    pub fn rotate180(&self) -> (r: GrayscaleImage)
        ensures
            r@ == self@.rotated180(),
            r@.wf(),
    {
        let r = self.turned(Turn::Half);
        proof {
            use_type_invariant(self);
            let g = self@;
            lemma_from_fn(
                g.width,
                g.height,
                |x: int, y: int| g.at(g.width - 1 - x, g.height - 1 - y),
            );
            lemma_grid_ext(r@, g.rotated180());
        }
        r
    }

    /// The image turned clockwise by a quarter turn.
    pub fn rotate90(&self) -> (r: GrayscaleImage)
        ensures
            r@ == self@.rotated90(),
            r@.wf(),
    {
        let r = self.turned(Turn::Quarter);
        proof {
            use_type_invariant(self);
            let g = self@;
            lemma_from_fn(g.height, g.width, |x: int, y: int| g.at(y, g.height - 1 - x));
            lemma_grid_ext(r@, g.rotated90());
        }
        r
    }

    /// The image turned clockwise by three quarter turns.
    pub fn rotate270(&self) -> (r: GrayscaleImage)
        ensures
            r@ == self@.rotated270(),
            r@.wf(),
    {
        let r = self.turned(Turn::ThreeQuarters);
        proof {
            use_type_invariant(self);
            let g = self@;
            lemma_from_fn(g.height, g.width, |x: int, y: int| g.at(g.width - 1 - y, x));
            lemma_grid_ext(r@, g.rotated270());
        }
        r
    }
}

} // verus!
