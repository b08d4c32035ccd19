use super::position::{Px, MAX_ZOOM};
use super::viewport::{Viewport, COORD_LIMIT};
use vstd::prelude::*;
use vstd::string::*;

verus! {

/// One raster tile: column `x`, row `y` at zoom `z`.
#[derive(Clone, Copy, Debug, PartialEq, Eq, Structural)]
pub struct Tile {
    pub x: u32,
    pub y: u32,
    pub z: usize,
}

impl Tile {
    /// The tile `n` columns to the east and `n` rows to the south. Indices
    /// are not wrapped or clamped to the world: keeping them on it is the
    /// caller's part.
    pub fn add(&self, n: i32) -> (r: Tile)
        requires
            0 <= self.x + n <= u32::MAX,
            0 <= self.y + n <= u32::MAX,
        ensures
            r.x == self.x + n,
            r.y == self.y + n,
            r.z == self.z,
    {
        Tile { x: (self.x as i64 + n as i64) as u32, y: (self.y as i64 + n as i64) as u32, z: self.z }
    }

    /// The world pixel of the northwest corner; see `pixels`.
    pub open spec fn pixels_spec(&self) -> Px {
        Px { x: (256 * self.x) as i64, y: (256 * self.y) as i64 }
    }

    /// The world pixel of the northwest corner of this tile, at its zoom.
    pub fn pixels(&self) -> (r: Px)
        ensures
            r == self.pixels_spec(),
            0 <= r.x < COORD_LIMIT,
            0 <= r.y < COORD_LIMIT,
    {
        Px { x: 256 * self.x as i64, y: 256 * self.y as i64 }
    }

    /// The pixel box that this tile covers.
    pub fn bbox(&self) -> (r: Viewport)
        requires
            self.x < u32::MAX,
            self.y < u32::MAX,
            self.z <= MAX_ZOOM,
        ensures
            r.wf(),
            r.nw == self.pixels_spec(),
            r.se == self.add_spec(1).pixels_spec(),
            r.z == self.z,
    {
        let nw = self.pixels();
        let se = self.add(1).pixels();
        Viewport { nw, se, z: self.z }
    }

    /// The tile `n` columns and rows away; see `add`.
    pub open spec fn add_spec(&self, n: int) -> Tile {
        Tile { x: (self.x + n) as u32, y: (self.y + n) as u32, z: self.z }
    }
}

/// Each tile, wherever it lies, spans 256 pixels from its own northwest
/// corner to that of the next tile along the diagonal, on both axes.
pub proof fn lemma_tile_extent(t: Tile)
    requires
        t.x < u32::MAX,
        t.y < u32::MAX,
    ensures
        t.add_spec(1).pixels_spec().x - t.pixels_spec().x == 256,
        t.add_spec(1).pixels_spec().y - t.pixels_spec().y == 256,
{
}

/// The character of decimal digit `d`.
pub open spec fn digit_char(d: nat) -> char {
    (48 + d) as char
}

/// The decimal notation of `n`, without leading zeros.
pub open spec fn decimal(n: nat) -> Seq<char>
    decreases n,
{
    if n < 10 {
        seq![digit_char(n)]
    } else {
        decimal(n / 10).push(digit_char(n % 10))
    }
}

fn digit_str(d: u64) -> (r: &'static str)
    requires
        d < 10,
    ensures
        r@ == seq![digit_char(d as nat)],
{
    match d {
        0 => {
            proof { reveal_strlit("0"); }
            "0"
        },
        1 => {
            proof { reveal_strlit("1"); }
            "1"
        },
        2 => {
            proof { reveal_strlit("2"); }
            "2"
        },
        3 => {
            proof { reveal_strlit("3"); }
            "3"
        },
        4 => {
            proof { reveal_strlit("4"); }
            "4"
        },
        5 => {
            proof { reveal_strlit("5"); }
            "5"
        },
        6 => {
            proof { reveal_strlit("6"); }
            "6"
        },
        7 => {
            proof { reveal_strlit("7"); }
            "7"
        },
        8 => {
            proof { reveal_strlit("8"); }
            "8"
        },
        _ => {
            proof { reveal_strlit("9"); }
            "9"
        },
    }
}

/// Appends the decimal notation of `n` to `s`.
fn push_decimal(s: &mut String, n: u64)
    ensures
        final(s)@ == old(s)@ + decimal(n as nat),
    decreases n,
{
    if n >= 10 {
        push_decimal(s, n / 10);
    }
    s.append(digit_str(n % 10));
    proof {
        assert(decimal(n as nat) == if n < 10 {
            seq![digit_char(n as nat)]
        } else {
            decimal((n / 10) as nat).push(digit_char((n % 10) as nat))
        });
        if n < 10 {
            assert(n % 10 == n);
        }
    }
}

/// A raster tile layer: where its tile images are found, and whether it
/// is shown.
#[derive(Clone, Debug)]
pub struct TileLayer {
    /// Tile url
    pub url: String,
    /// Tile url suffix eg. '.png?apikey=...'
    pub suffix: String,
    /// Controls whether layer is visible on map
    pub visible: bool,
}

/// A tile layer as plain values: url, suffix, visibility.
pub type LayerView = (Seq<char>, Seq<char>, bool);

impl View for TileLayer {
    type V = LayerView;

    open spec fn view(&self) -> LayerView {
        (self.url@, self.suffix@, self.visible)
    }
}

impl TileLayer {
    /// A visible layer with the given url and suffix.
    pub fn new(url: &str, suffix: &str) -> (r: TileLayer)
        ensures
            r@ == (url@, suffix@, true),
    {
        TileLayer { url: String::from_str(url), suffix: String::from_str(suffix), visible: true }
    }

    /// The same layer, held apart from this one.
    pub fn duplicate(&self) -> (r: TileLayer)
        ensures
            r@ == self@,
    {
        TileLayer { url: self.url.clone(), suffix: self.suffix.clone(), visible: self.visible }
    }

    /// The address of `tile`'s image: `{url}/{z}/{x}/{y}{suffix}`; see `tile_url`.
    pub open spec fn tile_url_spec(&self, tile: Tile) -> Seq<char> {
        self.url@ + seq!['/'] + decimal(tile.z as nat) + seq!['/'] + decimal(tile.x as nat) + seq![
            '/',
        ] + decimal(tile.y as nat) + self.suffix@
    }

    /// The address of `tile`'s image in this layer.
    pub fn tile_url(&self, tile: &Tile) -> (r: String)
        ensures
            r@ == self.tile_url_spec(*tile),
    {
        let mut s = self.url.clone();
        proof { reveal_strlit("/"); }
        s.append("/");
        push_decimal(&mut s, tile.z as u64);
        s.append("/");
        push_decimal(&mut s, tile.x as u64);
        s.append("/");
        push_decimal(&mut s, tile.y as u64);
        s.append(self.suffix.as_str());
        s
    }
}

} // verus!
