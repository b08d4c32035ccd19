use crate::model::position::Px;
use crate::model::tile::{Tile, TileLayer};
use crate::state::layer::views;
use crate::model::viewport::{
    end_tile_index, first_tile, first_tile_index, lemma_row_major, Viewport,
};
use vstd::prelude::*;

verus! {

/// The tile grid of a map: the visible viewport, the larger one whose
/// tiles are placed, and the layers drawn.
pub struct Grid {
    /// inner visible viewport
    pub vw: Viewport,
    /// outer viewport, used to fetch tiles
    pub vw_outer: Viewport,
    /// layers to draw
    pub layers: Vec<TileLayer>,
}

/// Whether two lists of layers hold the same values.
fn same_layers(a: &Vec<TileLayer>, b: &Vec<TileLayer>) -> (r: bool)
    ensures
        r == (views(a@) == views(b@)),
{
    if a.len() != b.len() {
        proof {
            assert(views(a@).len() != views(b@).len());
        }
        return false;
    }
    let mut i: usize = 0;
    while i < a.len()
        invariant
            a@.len() == b@.len(),
            i <= a@.len(),
            forall|k: int| 0 <= k < i ==> #[trigger] a@[k]@ == b@[k]@,
        decreases a@.len() - i,
    {
        if a[i].url != b[i].url || a[i].suffix != b[i].suffix || a[i].visible != b[i].visible {
            proof {
                assert(views(a@)[i as int] != views(b@)[i as int]);
            }
            return false;
        }
        i = i + 1;
    }
    proof {
        assert(views(a@) =~= views(b@));
    }
    true
}

impl Grid {
    /// A grid of the given viewports and layers.
    pub fn new(vw: Viewport, vw_outer: Viewport, layers: Vec<TileLayer>) -> (r: Grid)
        ensures
            r.vw == vw,
            r.vw_outer == vw_outer,
            r.layers@ == layers@,
    {
        Grid { vw, vw_outer, layers }
    }

    /// Takes new viewports and layers; returns whether the grid must be
    /// drawn again. The outer viewport is taken only along with a changed
    /// inner one.
    pub fn change(&mut self, vw: Viewport, vw_outer: Viewport, layers: Vec<TileLayer>) -> (r: bool)
        ensures
            old(self).vw != vw ==> final(self).vw == vw && final(self).vw_outer == vw_outer,
            old(self).vw == vw ==> final(self).vw == old(self).vw && final(self).vw_outer
                == old(self).vw_outer,
            views(final(self).layers@) == views(layers@),
            views(old(self).layers@) == views(layers@) ==> final(self).layers@
                == old(self).layers@,
            r == (old(self).vw != vw || views(old(self).layers@) != views(layers@)),
    {
        let mut changed = false;
        if self.vw != vw {
            self.vw = vw;
            self.vw_outer = vw_outer;
            changed = true;
        }
        if !same_layers(&self.layers, &layers) {
            self.layers = layers;
            changed = true;
        }
        changed
    }

    /// The tiles of `vw` grouped into rows, top to bottom, each row west to
    /// east.
    pub fn tile_rows(vw: &Viewport) -> (r: Vec<Vec<Tile>>)
        requires
            vw.wf(),
        ensures
            r@.len() == if vw.cols() > 0 { vw.rows() } else { 0 },
            forall|i: int|
                0 <= i < r@.len() ==> #[trigger] r@[i]@ == vw.tiles_spec().subrange(
                    i * vw.cols(),
                    (i + 1) * vw.cols(),
                ),
    {
        let x0 = first_tile_index(vw.nw.x, vw.z);
        let x1 = end_tile_index(vw.se.x, vw.z);
        let y0 = first_tile_index(vw.nw.y, vw.z);
        let y1 = end_tile_index(vw.se.y, vw.z);
        proof {
            vw.lemma_ranges();
        }
        let ghost cols = vw.cols();
        let ghost all = vw.tiles_spec();
        let mut rows: Vec<Vec<Tile>> = Vec::new();
        if x0 == x1 {
            return rows;
        }
        let mut y = y0;
        while y < y1
            invariant
                vw.wf(),
                x0 == vw.col_start(),
                x1 == vw.col_end(),
                y0 == vw.row_start(),
                y1 == vw.row_end(),
                cols == x1 - x0,
                cols > 0,
                all == vw.tiles_spec(),
                y0 <= y <= y1,
                rows@.len() == y - y0,
                forall|i: int|
                    0 <= i < rows@.len() ==> #[trigger] rows@[i]@ == all.subrange(
                        i * cols,
                        (i + 1) * cols,
                    ),
            decreases y1 - y,
        {
            let ghost i = (y - y0) as int;
            proof {
                assert((i + 1) * cols <= all.len()) by (nonlinear_arith)
                    requires
                        i + 1 <= vw.rows(),
                        all.len() == cols * vw.rows(),
                        cols > 0,
                ;
                assert(i * cols + cols == (i + 1) * cols) by (nonlinear_arith);
            }
            let mut row: Vec<Tile> = Vec::new();
            let mut x = x0;
            while x < x1
                invariant
                    vw.wf(),
                    x0 == vw.col_start(),
                    x1 == vw.col_end(),
                    y0 == vw.row_start(),
                    cols == x1 - x0,
                    all == vw.tiles_spec(),
                    y0 <= y < y1,
                    i == y - y0,
                    (i + 1) * cols <= all.len(),
                    i * cols + cols == (i + 1) * cols,
                    x0 <= x <= x1,
                    row@ == all.subrange(i * cols, i * cols + (x - x0)),
                decreases x1 - x,
            {
                proof {
                    lemma_row_major(i, (x - x0) as int, cols);
                }
                row.push(Tile { x, y, z: vw.z });
                x = x + 1;
                proof {
                    assert(row@ =~= all.subrange(i * cols, i * cols + (x - x0)));
                }
            }
            rows.push(row);
            y = y + 1;
        }
        rows
    }

    /// The pixel offset of the first tile of `vw_outer` from the northwest
    /// corner of `vw`.
    pub fn tile_offset(vw: &Viewport, vw_outer: &Viewport) -> (r: Px)
        requires
            vw.wf(),
            vw_outer.wf(),
            vw_outer.z == vw.z,
        ensures
            r.x == 256 * first_tile(vw_outer.nw.x as int, vw.z as nat) - vw.nw.x,
            r.y == 256 * first_tile(vw_outer.nw.y as int, vw.z as nat) - vw.nw.y,
    {
        proof {
            vw_outer.lemma_ranges();
        }
        let tile = Tile {
            x: first_tile_index(vw_outer.nw.x, vw.z),
            y: first_tile_index(vw_outer.nw.y, vw.z),
            z: vw.z,
        };
        vw.pixel_offset(&tile)
    }
}

} // verus!
