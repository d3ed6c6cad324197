//! What holds of the transforms on every well-formed raster: how each one
//! moves the samples, which of them undo each other, and that none of them
//! takes a binary raster out of the binary ones.

use vstd::prelude::*;
use crate::grid::Grid;
use crate::grid::lemma_cell_index;
use crate::grid::lemma_index_cell;
use crate::grid::lemma_from_fn;
use crate::grid::lemma_grid_ext;

verus! {

/// Mirroring keeps the dimensions and puts at `(x, y)` the sample that stood
/// at `(width - 1 - x, y)`.
pub proof fn lemma_flipped_horizontal(g: Grid)
    requires
        g.wf(),
    ensures
        g.flipped_horizontal().wf(),
        g.flipped_horizontal().width == g.width,
        g.flipped_horizontal().height == g.height,
        forall|x: int, y: int|
            g.contains(x, y) ==> #[trigger] g.flipped_horizontal().at(x, y) == g.at(
                g.width - 1 - x,
                y,
            ),
{
    lemma_from_fn(g.width, g.height, |x: int, y: int| g.at(g.width - 1 - x, y));
}

/// Half a turn keeps the dimensions and puts at `(x, y)` the sample that
/// stood at `(width - 1 - x, height - 1 - y)`.
pub proof fn lemma_rotated180(g: Grid)
    requires
        g.wf(),
    ensures
        g.rotated180().wf(),
        g.rotated180().width == g.width,
        g.rotated180().height == g.height,
        forall|x: int, y: int|
            g.contains(x, y) ==> #[trigger] g.rotated180().at(x, y) == g.at(
                g.width - 1 - x,
                g.height - 1 - y,
            ),
{
    lemma_from_fn(g.width, g.height, |x: int, y: int| g.at(g.width - 1 - x, g.height - 1 - y));
}

/// A quarter turn clockwise swaps the dimensions and puts at `(x, y)` the
/// sample that stood at `(y, height - 1 - x)`.
pub proof fn lemma_rotated90(g: Grid)
    requires
        g.wf(),
    ensures
        g.rotated90().wf(),
        g.rotated90().width == g.height,
        g.rotated90().height == g.width,
        forall|x: int, y: int|
            0 <= x < g.height && 0 <= y < g.width ==> #[trigger] g.rotated90().at(x, y) == g.at(
                y,
                g.height - 1 - x,
            ),
{
    lemma_from_fn(g.height, g.width, |x: int, y: int| g.at(y, g.height - 1 - x));
}

/// Three quarter turns clockwise swap the dimensions and put at `(x, y)` the
/// sample that stood at `(width - 1 - y, x)`.
pub proof fn lemma_rotated270(g: Grid)
    requires
        g.wf(),
    ensures
        g.rotated270().wf(),
        g.rotated270().width == g.height,
        g.rotated270().height == g.width,
        forall|x: int, y: int|
            0 <= x < g.height && 0 <= y < g.width ==> #[trigger] g.rotated270().at(x, y) == g.at(
                g.width - 1 - y,
                x,
            ),
{
    lemma_from_fn(g.height, g.width, |x: int, y: int| g.at(g.width - 1 - y, x));
}

/// Mirroring twice gives the raster back.
pub proof fn law_flip_horizontal_twice(g: Grid)
    requires
        g.wf(),
    ensures
        g.oriented(2).oriented(2) == g,
{
    let f = g.flipped_horizontal();
    lemma_flipped_horizontal(g);
    lemma_flipped_horizontal(f);
    assert forall|x: int, y: int| g.contains(x, y) implies f.flipped_horizontal().at(x, y) == g.at(
        x,
        y,
    ) by {
        assert(f.contains(x, y));
        assert(g.contains(g.width - 1 - x, y));
        assert(f.at(g.width - 1 - x, y) == g.at(g.width - 1 - (g.width - 1 - x), y));
    }
    lemma_grid_ext(f.flipped_horizontal(), g);
}

/// Half a turn twice gives the raster back.
pub proof fn law_rotate180_twice(g: Grid)
    requires
        g.wf(),
    ensures
        g.oriented(3).oriented(3) == g,
{
    let f = g.rotated180();
    lemma_rotated180(g);
    lemma_rotated180(f);
    assert forall|x: int, y: int| g.contains(x, y) implies f.rotated180().at(x, y) == g.at(
        x,
        y,
    ) by {
        assert(f.contains(x, y));
        assert(g.contains(g.width - 1 - x, g.height - 1 - y));
        assert(f.at(g.width - 1 - x, g.height - 1 - y) == g.at(
            g.width - 1 - (g.width - 1 - x),
            g.height - 1 - (g.height - 1 - y),
        ));
    }
    lemma_grid_ext(f.rotated180(), g);
}

/// A quarter turn clockwise followed by three quarter turns clockwise gives
/// the raster back.
pub proof fn law_rotate90_then_rotate270(g: Grid)
    requires
        g.wf(),
    ensures
        g.oriented(6).oriented(8) == g,
{
    let f = g.rotated90();
    lemma_rotated90(g);
    lemma_rotated270(f);
    assert forall|x: int, y: int| g.contains(x, y) implies f.rotated270().at(x, y) == g.at(
        x,
        y,
    ) by {
        // f is height wide: its cell (height - 1 - y, x) came from (x, y).
        assert(f.contains(g.height - 1 - y, x));
        assert(f.at(f.width - 1 - y, x) == g.at(x, g.height - 1 - (g.height - 1 - y)));
    }
    lemma_grid_ext(f.rotated270(), g);
}

/// Three quarter turns clockwise followed by a quarter turn clockwise give
/// the raster back.
pub proof fn law_rotate270_then_rotate90(g: Grid)
    requires
        g.wf(),
    ensures
        g.oriented(8).oriented(6) == g,
{
    let f = g.rotated270();
    lemma_rotated270(g);
    lemma_rotated90(f);
    assert forall|x: int, y: int| g.contains(x, y) implies f.rotated90().at(x, y) == g.at(
        x,
        y,
    ) by {
        assert(f.contains(y, g.width - 1 - x));
        assert(f.at(y, f.height - 1 - x) == g.at(g.width - 1 - (g.width - 1 - x), y));
    }
    lemma_grid_ext(f.rotated90(), g);
}

/// Every code keeps the raster well-formed; codes 5 to 8 swap width and
/// height, all others keep them.
pub proof fn law_oriented_dimensions(g: Grid, code: u8)
    requires
        g.wf(),
    ensures
        g.oriented(code).wf(),
        5 <= code <= 8 ==> g.oriented(code).width == g.height && g.oriented(code).height
            == g.width,
        !(5 <= code <= 8) ==> g.oriented(code).width == g.width && g.oriented(code).height
            == g.height,
{
    let f = g.flipped_horizontal();
    lemma_flipped_horizontal(g);
    lemma_rotated180(g);
    lemma_rotated90(g);
    lemma_rotated270(g);
    lemma_rotated180(f);
    lemma_rotated90(f);
    lemma_rotated270(f);
}

/// Code 4, mirroring followed by half a turn, mirrors the rows: the top row
/// becomes the bottom row.
pub proof fn law_code4_mirrors_rows(g: Grid)
    requires
        g.wf(),
    ensures
        forall|x: int, y: int|
            g.contains(x, y) ==> #[trigger] g.oriented(4).at(x, y) == g.at(x, g.height - 1 - y),
{
    let f = g.flipped_horizontal();
    lemma_flipped_horizontal(g);
    lemma_rotated180(f);
    assert forall|x: int, y: int| g.contains(x, y) implies #[trigger] g.oriented(4).at(x, y)
        == g.at(x, g.height - 1 - y) by {
        assert(f.contains(x, y));
        assert(g.contains(g.width - 1 - x, g.height - 1 - y));
        assert(f.at(g.width - 1 - x, g.height - 1 - y) == g.at(
            g.width - 1 - (g.width - 1 - x),
            g.height - 1 - y,
        ));
    }
}

/// Code 5, mirroring followed by a quarter turn clockwise, reflects the
/// raster in the diagonal from bottom left to top right.
pub proof fn law_code5_reflects_in_antidiagonal(g: Grid)
    requires
        g.wf(),
    ensures
        forall|x: int, y: int|
            0 <= x < g.height && 0 <= y < g.width ==> #[trigger] g.oriented(5).at(x, y) == g.at(
                g.width - 1 - y,
                g.height - 1 - x,
            ),
{
    let f = g.flipped_horizontal();
    lemma_flipped_horizontal(g);
    lemma_rotated90(f);
    assert forall|x: int, y: int| 0 <= x < g.height && 0 <= y < g.width implies #[trigger] g.oriented(
        5,
    ).at(x, y) == g.at(g.width - 1 - y, g.height - 1 - x) by {
        assert(g.contains(y, g.height - 1 - x));
        assert(f.at(y, g.height - 1 - x) == g.at(g.width - 1 - y, g.height - 1 - x));
    }
}

/// Code 7, mirroring followed by three quarter turns clockwise, reflects the
/// raster in the diagonal from top left to bottom right.
pub proof fn law_code7_reflects_in_diagonal(g: Grid)
    requires
        g.wf(),
    ensures
        forall|x: int, y: int|
            0 <= x < g.height && 0 <= y < g.width ==> #[trigger] g.oriented(7).at(x, y) == g.at(
                y,
                x,
            ),
{
    let f = g.flipped_horizontal();
    lemma_flipped_horizontal(g);
    lemma_rotated270(f);
    assert forall|x: int, y: int| 0 <= x < g.height && 0 <= y < g.width implies #[trigger] g.oriented(
        7,
    ).at(x, y) == g.at(y, x) by {
        assert(g.contains(g.width - 1 - y, x));
        assert(f.at(g.width - 1 - y, x) == g.at(g.width - 1 - (g.width - 1 - y), x));
    }
}

/// The code that undoes `code`: a quarter turn is undone by three quarter
/// turns and the other way round, every other code by itself.
pub open spec fn undoing(code: u8) -> u8 {
    if code == 6 {
        8
    } else if code == 8 {
        6
    } else {
        code
    }
}

/// Every orientation code is undone by a code: turning by `code` and then by
/// `undoing(code)` gives the raster back.
pub proof fn law_oriented_undone(g: Grid, code: u8)
    requires
        g.wf(),
    ensures
        g.oriented(code).oriented(undoing(code)) == g,
{
    let r = g.oriented(code);
    law_oriented_dimensions(g, code);
    law_oriented_dimensions(r, undoing(code));
    if code == 2 {
        law_flip_horizontal_twice(g);
    } else if code == 3 {
        law_rotate180_twice(g);
    } else if code == 4 {
        law_code4_mirrors_rows(g);
        law_code4_mirrors_rows(r);
        assert forall|x: int, y: int| g.contains(x, y) implies r.oriented(4).at(x, y) == g.at(
            x,
            y,
        ) by {
            assert(r.contains(x, y));
            assert(g.contains(x, g.height - 1 - y));
            assert(r.at(x, g.height - 1 - y) == g.at(x, g.height - 1 - (g.height - 1 - y)));
        }
        lemma_grid_ext(r.oriented(4), g);
    } else if code == 5 {
        law_code5_reflects_in_antidiagonal(g);
        law_code5_reflects_in_antidiagonal(r);
        assert forall|x: int, y: int| g.contains(x, y) implies r.oriented(5).at(x, y) == g.at(
            x,
            y,
        ) by {
            // r is height wide and width high.
            assert(0 <= x < r.height && 0 <= y < r.width);
            assert(r.oriented(5).at(x, y) == r.at(r.width - 1 - y, r.height - 1 - x));
            assert(r.at(g.height - 1 - y, g.width - 1 - x) == g.at(
                g.width - 1 - (g.width - 1 - x),
                g.height - 1 - (g.height - 1 - y),
            ));
        }
        lemma_grid_ext(r.oriented(5), g);
    } else if code == 6 {
        law_rotate90_then_rotate270(g);
    } else if code == 7 {
        law_code7_reflects_in_diagonal(g);
        law_code7_reflects_in_diagonal(r);
        assert forall|x: int, y: int| g.contains(x, y) implies r.oriented(7).at(x, y) == g.at(
            x,
            y,
        ) by {
            assert(0 <= x < r.height && 0 <= y < r.width);
            assert(r.oriented(7).at(x, y) == r.at(y, x));
            assert(r.at(y, x) == g.at(x, y));
        }
        lemma_grid_ext(r.oriented(7), g);
    } else if code == 8 {
        law_rotate270_then_rotate90(g);
    }
}

/// A well-formed raster is binary exactly if the sample of every cell is 0
/// or 255.
pub proof fn lemma_binary_by_cells(g: Grid)
    requires
        g.wf(),
    ensures
        g.binary() <==> forall|x: int, y: int|
            g.contains(x, y) ==> #[trigger] g.at(x, y) == 0 || g.at(x, y) == 255,
{
    if g.binary() {
        assert forall|x: int, y: int| g.contains(x, y) implies #[trigger] g.at(x, y) == 0 || g.at(
            x,
            y,
        ) == 255 by {
            lemma_cell_index(g.width as int, g.height as int, x, y);
        }
    }
    if forall|x: int, y: int| g.contains(x, y) ==> #[trigger] g.at(x, y) == 0 || g.at(x, y) == 255 {
        assert forall|i: int| 0 <= i < g.pixels.len() implies g.pixels[i] == 0 || g.pixels[i]
            == 255 by {
            lemma_index_cell(g.width as int, g.height as int, i);
            let x = i % (g.width as int);
            let y = i / (g.width as int);
            assert(g.contains(x, y));
            assert(g.at(x, y) == g.pixels[i]);
        }
    }
}

/// Inverting keeps the dimensions, and a binary raster binary.
pub proof fn law_inverted_binary(g: Grid)
    requires
        g.wf(),
        g.binary(),
    ensures
        g.inverted().wf(),
        g.inverted().width == g.width,
        g.inverted().height == g.height,
        g.inverted().binary(),
{
}

/// Every orientation code takes a binary raster to a binary raster.
pub proof fn law_oriented_binary(g: Grid, code: u8)
    requires
        g.wf(),
        g.binary(),
    ensures
        g.oriented(code).wf(),
        g.oriented(code).binary(),
{
    law_oriented_dimensions(g, code);
    lemma_binary_by_cells(g);
    let f = g.flipped_horizontal();
    lemma_flipped_horizontal(g);
    assert(f.binary()) by {
        assert forall|x: int, y: int| f.contains(x, y) implies #[trigger] f.at(x, y) == 0 || f.at(
            x,
            y,
        ) == 255 by {
            assert(g.contains(g.width - 1 - x, y));
        }
        lemma_binary_by_cells(f);
    }
    let r = g.oriented(code);
    if code == 2 {
    } else if code == 3 {
        lemma_rotated180(g);
        assert forall|x: int, y: int| r.contains(x, y) implies #[trigger] r.at(x, y) == 0 || r.at(
            x,
            y,
        ) == 255 by {
            assert(g.contains(g.width - 1 - x, g.height - 1 - y));
        }
        lemma_binary_by_cells(r);
    } else if code == 4 {
        law_code4_mirrors_rows(g);
        assert forall|x: int, y: int| r.contains(x, y) implies #[trigger] r.at(x, y) == 0 || r.at(
            x,
            y,
        ) == 255 by {
            assert(g.contains(x, g.height - 1 - y));
        }
        lemma_binary_by_cells(r);
    } else if code == 5 {
        law_code5_reflects_in_antidiagonal(g);
        assert forall|x: int, y: int| r.contains(x, y) implies #[trigger] r.at(x, y) == 0 || r.at(
            x,
            y,
        ) == 255 by {
            assert(g.contains(g.width - 1 - y, g.height - 1 - x));
        }
        lemma_binary_by_cells(r);
    } else if code == 6 {
        lemma_rotated90(g);
        assert forall|x: int, y: int| r.contains(x, y) implies #[trigger] r.at(x, y) == 0 || r.at(
            x,
            y,
        ) == 255 by {
            assert(g.contains(y, g.height - 1 - x));
        }
        lemma_binary_by_cells(r);
    } else if code == 7 {
        law_code7_reflects_in_diagonal(g);
        assert forall|x: int, y: int| r.contains(x, y) implies #[trigger] r.at(x, y) == 0 || r.at(
            x,
            y,
        ) == 255 by {
            assert(g.contains(y, x));
        }
        lemma_binary_by_cells(r);
    } else if code == 8 {
        lemma_rotated270(g);
        assert forall|x: int, y: int| r.contains(x, y) implies #[trigger] r.at(x, y) == 0 || r.at(
            x,
            y,
        ) == 255 by {
            assert(g.contains(g.width - 1 - y, x));
        }
        lemma_binary_by_cells(r);
    }
}

} // verus!
