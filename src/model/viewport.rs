use super::position::{
    clamp, lemma_zoom_sizes, world_px, world_size, GeoPoint, Px, MAX_ZOOM, WORLD_SIZE,
};
use super::tile::Tile;
use vstd::arithmetic::div_mod::{lemma_div_is_ordered, lemma_fundamental_div_mod_converse};
use vstd::arithmetic::power2::pow2;
use vstd::prelude::*;

verus! {

/// Bound on the pixel coordinates that a viewport holds.
pub const COORD_LIMIT: i64 = 1099511627776;

/// `v` is a coordinate that a viewport may hold.
pub open spec fn in_limit(v: int) -> bool {
    -COORD_LIMIT <= v <= COORD_LIMIT
}

/// Index of the first tile, along one axis, of a box that starts at pixel
/// `v`; the range is clamped to the `2^z` tiles of the world.
pub open spec fn first_tile(v: int, z: nat) -> int {
    clamp(v / 256, 0, pow2(z) as int)
}

/// Index past the last tile, along one axis, of a box that ends at pixel
/// `v`, clamped as `first_tile` is.
pub open spec fn end_tile(v: int, z: nat) -> int {
    clamp(v / 256 + 1, 0, pow2(z) as int)
}

/// Row-major position: row `i`, column `j` of rows `cols` long.
pub proof fn lemma_row_major(i: int, j: int, cols: int)
    requires
        0 <= i,
        0 <= j < cols,
    ensures
        (i * cols + j) / cols == i,
        (i * cols + j) % cols == j,
{
    lemma_fundamental_div_mod_converse(i * cols + j, cols, i, j);
}

/// Computes `first_tile(v, z)`.
pub fn first_tile_index(v: i64, z: usize) -> (r: u32)
    requires
        z <= MAX_ZOOM,
    ensures
        r == first_tile(v as int, z as nat),
{
    let n = world_px(z) / 256;
    proof {
        lemma_zoom_sizes(z as nat);
        vstd::arithmetic::div_mod::lemma_div_by_multiple(pow2(z as nat) as int, 256);
    }
    if v < 0 {
        assert(v as int / 256 < 0);
        0
    } else {
        let t = v / 256;
        if t > n {
            n as u32
        } else {
            t as u32
        }
    }
}

/// Computes `end_tile(v, z)`.
pub fn end_tile_index(v: i64, z: usize) -> (r: u32)
    requires
        z <= MAX_ZOOM,
    ensures
        r == end_tile(v as int, z as nat),
{
    let n = world_px(z) / 256;
    proof {
        lemma_zoom_sizes(z as nat);
        vstd::arithmetic::div_mod::lemma_div_by_multiple(pow2(z as nat) as int, 256);
    }
    if v < 0 {
        assert(v as int / 256 < 0);
        0
    } else {
        let t = v / 256 + 1;
        if t > n {
            n as u32
        } else {
            t as u32
        }
    }
}

/// A box of world pixels at one zoom level: `nw` its northwest corner, `se`
/// its southeast corner.
#[derive(Clone, Copy, Debug, PartialEq, Eq, Structural)]
pub struct Viewport {
    pub nw: Px,
    pub se: Px,
    pub z: usize,
}

impl Viewport {
    /// The zoom is supported, the box is not inverted, and its corners are
    /// within `COORD_LIMIT`.
    pub open spec fn wf(&self) -> bool {
        &&& self.z <= MAX_ZOOM
        &&& self.nw.x <= self.se.x
        &&& self.nw.y <= self.se.y
        &&& in_limit(self.nw.x as int)
        &&& in_limit(self.nw.y as int)
        &&& in_limit(self.se.x as int)
        &&& in_limit(self.se.y as int)
    }

    pub open spec fn col_start(&self) -> int {
        first_tile(self.nw.x as int, self.z as nat)
    }

    pub open spec fn col_end(&self) -> int {
        end_tile(self.se.x as int, self.z as nat)
    }

    pub open spec fn row_start(&self) -> int {
        first_tile(self.nw.y as int, self.z as nat)
    }

    pub open spec fn row_end(&self) -> int {
        end_tile(self.se.y as int, self.z as nat)
    }

    /// Number of tile columns that the box meets.
    pub open spec fn cols(&self) -> int {
        self.col_end() - self.col_start()
    }

    /// Number of tile rows that the box meets.
    pub open spec fn rows(&self) -> int {
        self.row_end() - self.row_start()
    }

    /// The `k`-th tile that the box meets, in row-major order.
    pub open spec fn tile_at(&self, k: int) -> Tile {
        Tile {
            x: (self.col_start() + k % self.cols()) as u32,
            y: (self.row_start() + k / self.cols()) as u32,
            z: self.z,
        }
    }

    /// The tiles that the box meets, rows top to bottom, each row west to east.
    pub open spec fn tiles_spec(&self) -> Seq<Tile> {
        Seq::new((self.cols() * self.rows()) as nat, |k: int| self.tile_at(k))
    }

    /// The box of `size_px` pixels centred on `center`; see `new`.
    pub open spec fn centered(center: GeoPoint, size_px: (i32, i32), zoom: nat) -> Viewport {
        let c = center.px_spec(zoom);
        Viewport {
            nw: Px { x: (c.x - size_px.0 / 2) as i64, y: (c.y - size_px.1 / 2) as i64 },
            se: Px { x: (c.x + size_px.0 / 2) as i64, y: (c.y + size_px.1 / 2) as i64 },
            z: zoom as usize,
        }
    }

    /// The box of `size_px` pixels centred on `center` at zoom `zoom`, each
    /// half-size rounded down.
    pub fn new(center: &GeoPoint, size_px: (i32, i32), zoom: usize) -> (r: Viewport)
        requires
            center.wf(),
            zoom <= MAX_ZOOM,
            size_px.0 >= 0,
            size_px.1 >= 0,
        ensures
            r.wf(),
            r == Viewport::centered(*center, size_px, zoom as nat),
            -(i32::MAX as int) <= r.nw.x,
            -(i32::MAX as int) <= r.nw.y,
            r.se.x <= WORLD_SIZE + i32::MAX,
            r.se.y <= WORLD_SIZE + i32::MAX,
    {
        let (dx, dy) = ((size_px.0 / 2) as i64, (size_px.1 / 2) as i64);
        let px = center.px(zoom);
        proof {
            lemma_zoom_sizes(zoom as nat);
        }
        let nw = px.translate(&Px { x: -dx, y: -dy });
        let se = px.translate(&Px { x: dx, y: dy });
        Viewport { nw, se, z: zoom }
    }

    /// The box moved by `xy` pixels; see `translate`.
    pub open spec fn translated(&self, xy: Px) -> Viewport {
        Viewport {
            nw: Px { x: (self.nw.x + xy.x) as i64, y: (self.nw.y + xy.y) as i64 },
            se: Px { x: (self.se.x + xy.x) as i64, y: (self.se.y + xy.y) as i64 },
            z: self.z,
        }
    }

    /// The box moved by `xy` pixels.
    pub fn translate(&self, xy: &Px) -> (r: Viewport)
        requires
            self.wf(),
            in_limit(self.nw.x + xy.x),
            in_limit(self.nw.y + xy.y),
            in_limit(self.se.x + xy.x),
            in_limit(self.se.y + xy.y),
        ensures
            r.wf(),
            r == self.translated(*xy),
    {
        Viewport { nw: self.nw.translate(xy), se: self.se.translate(xy), z: self.z }
    }

    /// The geographic position of the middle of the box.
    pub fn center(&self) -> (r: GeoPoint)
        requires
            self.wf(),
        ensures
            r == self.nw.avg_spec(self.se).geo_spec(self.z as nat),
            r.wf(),
    {
        self.nw.avg(&self.se).geo(self.z)
    }

    /// The tiles of the world that the box meets, in row-major order.
    pub fn tiles(&self) -> (r: Vec<Tile>)
        requires
            self.wf(),
        ensures
            r@ == self.tiles_spec(),
    {
        let x0 = first_tile_index(self.nw.x, self.z);
        let x1 = end_tile_index(self.se.x, self.z);
        let y0 = first_tile_index(self.nw.y, self.z);
        let y1 = end_tile_index(self.se.y, self.z);
        proof {
            self.lemma_ranges();
        }
        let mut r: Vec<Tile> = Vec::new();
        let mut y = y0;
        while y < y1
            invariant
                self.wf(),
                x0 == self.col_start(),
                x1 == self.col_end(),
                y0 == self.row_start(),
                y1 == self.row_end(),
                x0 <= x1,
                y0 <= y <= y1,
                r@.len() == (y - y0) * self.cols(),
                forall|k: int| 0 <= k < r@.len() ==> #[trigger] r@[k] == self.tile_at(k),
            decreases y1 - y,
        {
            let mut x = x0;
            while x < x1
                invariant
                    self.wf(),
                    x0 == self.col_start(),
                    x1 == self.col_end(),
                    y0 == self.row_start(),
                    y0 <= y < y1,
                    x0 <= x <= x1,
                    r@.len() == (y - y0) * self.cols() + (x - x0),
                    forall|k: int| 0 <= k < r@.len() ==> #[trigger] r@[k] == self.tile_at(k),
                decreases x1 - x,
            {
                proof {
                    lemma_row_major((y - y0) as int, (x - x0) as int, self.cols());
                }
                r.push(Tile { x, y, z: self.z });
                x = x + 1;
            }
            proof {
                assert((y - y0) * self.cols() + self.cols() == (y + 1 - y0) * self.cols())
                    by (nonlinear_arith);
            }
            y = y + 1;
        }
        proof {
            assert((y1 - y0) * self.cols() == self.cols() * self.rows()) by (nonlinear_arith)
                requires
                    y1 - y0 == self.rows(),
            ;
            assert(r@ =~= self.tiles_spec());
        }
        r
    }

    /// Start and end of the tile ranges are in order and within the world.
    pub proof fn lemma_ranges(&self)
        requires
            self.wf(),
        ensures
            0 <= self.col_start() <= self.col_end() <= pow2(self.z as nat),
            0 <= self.row_start() <= self.row_end() <= pow2(self.z as nat),
            pow2(self.z as nat) <= 262144,
    {
        lemma_zoom_sizes(self.z as nat);
        lemma_div_is_ordered(self.nw.x as int, self.se.x as int, 256);
        lemma_div_is_ordered(self.nw.y as int, self.se.y as int, 256);
    }

    /// The pixel offset of `tile` from the northwest corner of the box.
    pub fn pixel_offset(&self, tile: &Tile) -> (r: Px)
        requires
            self.wf(),
        ensures
            r.x == tile.pixels_spec().x - self.nw.x,
            r.y == tile.pixels_spec().y - self.nw.y,
    {
        tile.pixels().distance(&self.pixels())
    }

    /// The northwest corner, in world pixels.
    pub fn pixels(&self) -> (r: Px)
        ensures
            r == self.nw,
    {
        self.nw
    }

    /// The northwest and southeast corners, in world pixels.
    pub fn pixel_bounds(&self) -> (r: (Px, Px))
        ensures
            r == (self.nw, self.se),
    {
        (self.nw, self.se)
    }

    /// The box between the corners `nw` and `se` at zoom `z`.
    pub fn from_pixel_bounds(nw: Px, se: Px, z: usize) -> (r: Viewport)
        requires
            (Viewport { nw, se, z }).wf(),
        ensures
            r == (Viewport { nw, se, z }),
    {
        Viewport { nw, se, z }
    }

    /// The box grown toward `offset`; see `resize_keep_min_bounds`.
    pub open spec fn resized(&self, offset: Px) -> Viewport {
        Viewport {
            nw: Px {
                x: if offset.x < 0 { (self.nw.x + offset.x) as i64 } else { self.nw.x },
                y: if offset.y < 0 { (self.nw.y + offset.y) as i64 } else { self.nw.y },
            },
            se: Px {
                x: if offset.x > 0 { (self.se.x + offset.x) as i64 } else { self.se.x },
                y: if offset.y > 0 { (self.se.y + offset.y) as i64 } else { self.se.y },
            },
            z: self.z,
        }
    }

    /// The box grown, on each side, by as much of `offset` as points away
    /// from it: each corner moves to the lesser (northwest) or greater
    /// (southeast) of itself and itself moved by `offset`.
    pub fn resize_keep_min_bounds(&self, offset: Px) -> (r: Viewport)
        requires
            self.wf(),
            in_limit(self.nw.x + offset.x),
            in_limit(self.nw.y + offset.y),
            in_limit(self.se.x + offset.x),
            in_limit(self.se.y + offset.y),
        ensures
            r.wf(),
            r == self.resized(offset),
    {
        let (mut nw, mut se) = self.pixel_bounds();
        nw.x = if offset.x < 0 { nw.x + offset.x } else { nw.x };
        nw.y = if offset.y < 0 { nw.y + offset.y } else { nw.y };
        se.x = if offset.x > 0 { se.x + offset.x } else { se.x };
        se.y = if offset.y > 0 { se.y + offset.y } else { se.y };
        Viewport::from_pixel_bounds(nw, se, self.z)
    }
}

/// Moving a viewport by no pixels leaves it as it was.
pub proof fn lemma_translate_zero(vw: Viewport)
    requires
        vw.wf(),
    ensures
        vw.translated(Px { x: 0, y: 0 }) == vw,
{
}

/// Growing a viewport toward any offset keeps all of its pixels: the new
/// box holds the old one.
pub proof fn lemma_resize_holds_original(vw: Viewport, offset: Px)
    requires
        vw.wf(),
        in_limit(vw.nw.x + offset.x),
        in_limit(vw.nw.y + offset.y),
        in_limit(vw.se.x + offset.x),
        in_limit(vw.se.y + offset.y),
    ensures
        vw.resized(offset).wf(),
        vw.resized(offset).z == vw.z,
        vw.resized(offset).nw.x <= vw.nw.x,
        vw.resized(offset).nw.y <= vw.nw.y,
        vw.resized(offset).se.x >= vw.se.x,
        vw.resized(offset).se.y >= vw.se.y,
{
}

} // verus!
