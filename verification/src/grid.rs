//! The mathematical model of a raster: its dimensions and its samples, and
//! the transforms of the pipeline as functions on that model.

use vstd::prelude::*;
use vstd::arithmetic::div_mod::lemma_fundamental_div_mod_converse;
use vstd::arithmetic::div_mod::lemma_fundamental_div_mod;
use vstd::arithmetic::div_mod::lemma_mod_bound;

verus! {

/// A raster of 8-bit samples, stored row by row from the top left corner.
pub struct Grid {
    pub width: nat,
    pub height: nat,
    pub pixels: Seq<u8>,
}

impl Grid {
    /// There is exactly one sample per cell.
    pub open spec fn wf(self) -> bool {
        self.pixels.len() == self.width * self.height
    }

    /// Whether column `x` of row `y` is a cell of the raster.
    pub open spec fn contains(self, x: int, y: int) -> bool {
        0 <= x < self.width && 0 <= y < self.height
    }

    /// The sample in column `x` of row `y`.
    pub open spec fn at(self, x: int, y: int) -> u8 {
        self.pixels[y * self.width + x]
    }

    /// The raster of the given dimensions whose sample at `(x, y)` is `f(x, y)`.
    pub open spec fn from_fn(width: nat, height: nat, f: spec_fn(int, int) -> u8) -> Grid {
        Grid {
            width,
            height,
            pixels: Seq::new(width * height, |i: int| f(i % width as int, i / width as int)),
        }
    }

    /// The raster of the given dimensions whose every sample is `value`.
    pub open spec fn uniform(width: nat, height: nat, value: u8) -> Grid {
        Grid { width, height, pixels: Seq::new(width * height, |i: int| value) }
    }

    /// Every sample is 0 or 255.
    pub open spec fn binary(self) -> bool {
        forall|i: int| 0 <= i < self.pixels.len() ==> self.pixels[i] == 0 || self.pixels[i] == 255
    }

    /// Every sample `p` replaced by `255 - p`.
    pub open spec fn inverted(self) -> Grid {
        Grid {
            width: self.width,
            height: self.height,
            pixels: Seq::new(self.pixels.len(), |i: int| (255 - self.pixels[i]) as u8),
        }
    }

    /// The columns mirrored: the leftmost column becomes the rightmost.
    pub open spec fn flipped_horizontal(self) -> Grid {
        Grid::from_fn(self.width, self.height, |x: int, y: int| self.at(self.width - 1 - x, y))
    }

    /// Turned by half a turn.
    pub open spec fn rotated180(self) -> Grid {
        Grid::from_fn(
            self.width,
            self.height,
            |x: int, y: int| self.at(self.width - 1 - x, self.height - 1 - y),
        )
    }

    /// Turned clockwise by a quarter turn: the left column becomes the top row.
    pub open spec fn rotated90(self) -> Grid {
        Grid::from_fn(self.height, self.width, |x: int, y: int| self.at(y, self.height - 1 - x))
    }

    /// Turned clockwise by three quarter turns: the top row becomes the left
    /// column, read upwards.
    pub open spec fn rotated270(self) -> Grid {
        Grid::from_fn(self.height, self.width, |x: int, y: int| self.at(self.width - 1 - y, x))
    }

    /// The transform that an orientation code asks for. Codes other than 2 to 8
    /// leave the raster as it is.
    pub open spec fn oriented(self, code: u8) -> Grid {
        if code == 2 {
            self.flipped_horizontal()
        } else if code == 3 {
            self.rotated180()
        } else if code == 4 {
            self.flipped_horizontal().rotated180()
        } else if code == 5 {
            self.flipped_horizontal().rotated90()
        } else if code == 6 {
            self.rotated90()
        } else if code == 7 {
            self.flipped_horizontal().rotated270()
        } else if code == 8 {
            self.rotated270()
        } else {
            self
        }
    }
}

/// The cell `(x, y)` of a raster `width` wide lies at `y * width + x`, and
/// that place belongs to no other cell.
pub proof fn lemma_cell_index(width: int, height: int, x: int, y: int)
    requires
        0 <= x < width,
        0 <= y < height,
    ensures
        0 <= y * width <= y * width + x < width * height,
        (y * width + x) % width == x,
        (y * width + x) / width == y,
{
    lemma_fundamental_div_mod_converse(y * width + x, width, y, x);
    assert(y * width + x < width * height) by (nonlinear_arith)
        requires
            0 <= x < width,
            0 <= y < height,
    ;
    assert(0 <= y * width) by (nonlinear_arith)
        requires
            0 <= y,
            0 <= width,
    ;
}

/// A place `i` in a well-formed raster is the cell in column `i % width` of
/// row `i / width`.
pub proof fn lemma_index_cell(width: int, height: int, i: int)
    requires
        0 <= width,
        0 <= height,
        0 <= i < width * height,
    ensures
        width > 0,
        0 <= i % width < width,
        0 <= i / width < height,
        i == (i / width) * width + i % width,
{
    if width == 0 {
        assert(width * height == 0) by (nonlinear_arith)
            requires
                width == 0,
        ;
    }
    let w = width;
    lemma_fundamental_div_mod(i, w);
    lemma_mod_bound(i, w);
    let q = i / w;
    let r = i % w;
    assert(i == w * q + r);
    assert(q * w == w * q) by (nonlinear_arith);
    if q >= height {
        assert(w * q >= w * height) by (nonlinear_arith)
            requires
                q >= height,
                w > 0,
        ;
    }
    if q < 0 {
        assert(w * q <= -w) by (nonlinear_arith)
            requires
                q < 0,
                w > 0,
        ;
    }
}

/// `from_fn` makes a well-formed raster and puts `f(x, y)` at `(x, y)`.
pub proof fn lemma_from_fn(width: nat, height: nat, f: spec_fn(int, int) -> u8)
    ensures
        Grid::from_fn(width, height, f).wf(),
        Grid::from_fn(width, height, f).width == width,
        Grid::from_fn(width, height, f).height == height,
        forall|x: int, y: int|
            0 <= x < width && 0 <= y < height ==> #[trigger] Grid::from_fn(width, height, f).at(
                x,
                y,
            ) == f(x, y),
{
    let g = Grid::from_fn(width, height, f);
    assert forall|x: int, y: int| 0 <= x < width && 0 <= y < height implies #[trigger] g.at(x, y)
        == f(x, y) by {
        lemma_cell_index(width as int, height as int, x, y);
    }
}

/// Two well-formed rasters of the same dimensions that agree at every cell
/// are the same raster.
pub proof fn lemma_grid_ext(a: Grid, b: Grid)
    requires
        a.wf(),
        b.wf(),
        a.width == b.width,
        a.height == b.height,
        forall|x: int, y: int| a.contains(x, y) ==> a.at(x, y) == b.at(x, y),
    ensures
        a == b,
{
    assert forall|i: int| 0 <= i < a.pixels.len() implies a.pixels[i] == b.pixels[i] by {
        lemma_index_cell(a.width as int, a.height as int, i);
        let x = i % (a.width as int);
        let y = i / (a.width as int);
        assert(a.contains(x, y));
        assert(a.at(x, y) == b.at(x, y));
    }
    assert(a.pixels =~= b.pixels);
}

} // verus!
