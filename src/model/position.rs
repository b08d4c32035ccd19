use vstd::arithmetic::power2::{lemma2_to64, lemma_pow2_strictly_increases, lemma_pow2_unfold, pow2};
use vstd::prelude::*;

verus! {

/// Deepest zoom level that the viewer supports.
pub const MAX_ZOOM: usize = 18;

/// Edge length of the world square at `MAX_ZOOM`, in pixels.
pub const WORLD_SIZE: i64 = 67108864;

/// Edge length of the world square at zoom `z`, in pixels.
pub open spec fn world_size(z: nat) -> int {
    256 * (pow2(z) as int)
}

/// Factor between a world-pixel coordinate at zoom `z` and one at `MAX_ZOOM`.
pub open spec fn zoom_scale(z: nat) -> int {
    pow2((MAX_ZOOM - z) as nat) as int
}

/// Integer division rounding toward zero, as Rust's `/` does.
pub open spec fn trunc_div(a: int, d: int) -> int {
    if a >= 0 {
        a / d
    } else {
        -((-a) / d)
    }
}

/// `v` clamped into `[lo, hi]`.
pub open spec fn clamp(v: int, lo: int, hi: int) -> int {
    if v < lo {
        lo
    } else if v > hi {
        hi
    } else {
        v
    }
}

/// Powers of two up to `2^18`, and the sizes derived from them.
pub proof fn lemma_zoom_sizes(z: nat)
    requires
        z <= MAX_ZOOM,
    ensures
        1 <= zoom_scale(z) <= 262144,
        256 <= world_size(z) <= WORLD_SIZE,
        world_size(z) * zoom_scale(z) == WORLD_SIZE,
{
    lemma2_to64();
    assert(pow2(z) * pow2((MAX_ZOOM - z) as nat) == pow2(18)) by {
        vstd::arithmetic::power2::lemma_pow2_adds(z, (MAX_ZOOM - z) as nat);
    }
    if z < 18 {
        lemma_pow2_strictly_increases(z, 18);
    }
    if ((MAX_ZOOM - z) as nat) < 18 {
        lemma_pow2_strictly_increases((MAX_ZOOM - z) as nat, 18);
    }
    assert(world_size(z) * zoom_scale(z) == 256 * (pow2(z) * pow2((MAX_ZOOM - z) as nat)))
        by (nonlinear_arith);
}

/// Computes `zoom_scale(z)`.
pub fn scale_for(z: usize) -> (r: i64)
    requires
        z <= MAX_ZOOM,
    ensures
        r == zoom_scale(z as nat),
        1 <= r <= 262144,
{
    let mut r: i64 = 1;
    let mut i: usize = z;
    proof {
        lemma2_to64();
    }
    while i < MAX_ZOOM
        invariant
            z <= i <= MAX_ZOOM,
            r == pow2((i - z) as nat),
        decreases MAX_ZOOM - i,
    {
        proof {
            lemma_pow2_unfold((i + 1 - z) as nat);
            lemma2_to64();
            if ((i - z) as nat) < 17 {
                lemma_pow2_strictly_increases((i - z) as nat, 17);
            }
        }
        r = r * 2;
        i = i + 1;
    }
    proof {
        lemma_zoom_sizes(z as nat);
    }
    r
}

/// A position in world pixels at one zoom level (tile size 256).
#[derive(Clone, Copy, Debug, PartialEq, Eq, Structural)]
pub struct Px {
    pub x: i64,
    pub y: i64,
}

impl Px {
    /// The point mirrored through the origin.
    pub fn neg(&self) -> (r: Px)
        requires
            self.x > i64::MIN,
            self.y > i64::MIN,
        ensures
            r.x == -self.x,
            r.y == -self.y,
    {
        Px { x: -self.x, y: -self.y }
    }

    /// The vector from `other` to `self`.
    pub fn distance(&self, other: &Px) -> (r: Px)
        requires
            i64::MIN <= self.x - other.x <= i64::MAX,
            i64::MIN <= self.y - other.y <= i64::MAX,
        ensures
            r.x == self.x - other.x,
            r.y == self.y - other.y,
    {
        Px { x: self.x - other.x, y: self.y - other.y }
    }

    /// Halves of both points added; see `avg`.
    pub open spec fn avg_spec(&self, other: Px) -> Px {
        Px {
            x: (trunc_div(self.x as int, 2) + trunc_div(other.x as int, 2)) as i64,
            y: (trunc_div(self.y as int, 2) + trunc_div(other.y as int, 2)) as i64,
        }
    }

    /// Halves of both points added, each half rounded toward zero.
    pub fn avg(&self, other: &Px) -> (r: Px)
        ensures
            r == self.avg_spec(*other),
    {
        Px { x: self.x / 2 + other.x / 2, y: self.y / 2 + other.y / 2 }
    }

    /// The point moved by `other`.
    pub fn translate(&self, other: &Px) -> (r: Px)
        requires
            i64::MIN <= self.x + other.x <= i64::MAX,
            i64::MIN <= self.y + other.y <= i64::MAX,
        ensures
            r.x == self.x + other.x,
            r.y == self.y + other.y,
    {
        Px { x: self.x + other.x, y: self.y + other.y }
    }

    /// Each coordinate replaced by `size` where it is positive, by `-size` elsewhere.
    pub fn normalize(&self, size: i64) -> (r: Px)
        requires
            size > i64::MIN,
        ensures
            r.x == if self.x > 0 { size as int } else { -size },
            r.y == if self.y > 0 { size as int } else { -size },
    {
        Px { x: if self.x > 0 { size } else { -size }, y: if self.y > 0 { size } else { -size } }
    }
}

/// The geographic position of world pixel `(x, y)` at zoom `z`; a pixel
/// beyond the edge of the world stands for the nearest point on that edge.
pub open spec fn geo_of(x: int, y: int, z: nat) -> GeoPoint {
    GeoPoint {
        x: (clamp(x, 0, world_size(z)) * zoom_scale(z)) as i64,
        y: (clamp(y, 0, world_size(z)) * zoom_scale(z)) as i64,
    }
}

/// Computes `geo_of(x, y, z)`.
pub fn geo_at(x: i128, y: i128, z: usize) -> (r: GeoPoint)
    requires
        z <= MAX_ZOOM,
    ensures
        r == geo_of(x as int, y as int, z as nat),
        r.wf(),
{
    let s = scale_for(z);
    let w = world_px(z);
    let cx: i64 = if x < 0 {
        0
    } else if x > w as i128 {
        w
    } else {
        x as i64
    };
    let cy: i64 = if y < 0 {
        0
    } else if y > w as i128 {
        w
    } else {
        y as i64
    };
    proof {
        lemma_zoom_sizes(z as nat);
        assert(0 <= cx * s <= WORLD_SIZE) by (nonlinear_arith)
            requires
                0 <= cx <= w,
                w * s == WORLD_SIZE,
                1 <= s,
        ;
        assert(0 <= cy * s <= WORLD_SIZE) by (nonlinear_arith)
            requires
                0 <= cy <= w,
                w * s == WORLD_SIZE,
                1 <= s,
        ;
    }
    GeoPoint { x: cx * s, y: cy * s }
}

impl Px {
    /// The geographic position of this pixel at zoom `z`; see `geo`.
    pub open spec fn geo_spec(&self, z: nat) -> GeoPoint {
        geo_of(self.x as int, self.y as int, z)
    }

    /// The geographic position of this pixel at zoom `z`. A pixel beyond the
    /// edge of the world stands for the nearest point on that edge.
    pub fn geo(&self, z: usize) -> (r: GeoPoint)
        requires
            z <= MAX_ZOOM,
        ensures
            r == self.geo_spec(z as nat),
            r.wf(),
    {
        geo_at(self.x as i128, self.y as i128, z)
    }
}

impl From<(i64, i64)> for Px {
    fn from(xy: (i64, i64)) -> Px {
        Px { x: xy.0, y: xy.1 }
    }
}

impl vstd::std_specs::convert::FromSpecImpl<(i64, i64)> for Px {
    open spec fn obeys_from_spec() -> bool {
        true
    }

    open spec fn from_spec(xy: (i64, i64)) -> Px {
        Px { x: xy.0, y: xy.1 }
    }
}

impl From<(i32, i32)> for Px {
    fn from(xy: (i32, i32)) -> Px {
        Px { x: xy.0 as i64, y: xy.1 as i64 }
    }
}

impl vstd::std_specs::convert::FromSpecImpl<(i32, i32)> for Px {
    open spec fn obeys_from_spec() -> bool {
        true
    }

    open spec fn from_spec(xy: (i32, i32)) -> Px {
        Px { x: xy.0 as i64, y: xy.1 as i64 }
    }
}

/// Edge length of the world square at zoom `z`, in pixels.
pub fn world_px(z: usize) -> (r: i64)
    requires
        z <= MAX_ZOOM,
    ensures
        r == world_size(z as nat),
        256 <= r <= WORLD_SIZE,
{
    let s = scale_for(z);
    proof {
        lemma_zoom_sizes(z as nat);
        vstd::arithmetic::div_mod::lemma_div_by_multiple(world_size(z as nat), s as int);
    }
    WORLD_SIZE / s
}

/// A geographic position, held as its Web-Mercator world-pixel coordinate
/// at `MAX_ZOOM`: `x` grows eastward from longitude -180, `y` southward
/// from the northern edge of the projection.
#[derive(Clone, Copy, Debug, PartialEq, Eq, Structural)]
pub struct GeoPoint {
    pub x: i64,
    pub y: i64,
}

impl GeoPoint {
    /// The point lies on the world square.
    pub open spec fn wf(&self) -> bool {
        0 <= self.x <= WORLD_SIZE && 0 <= self.y <= WORLD_SIZE
    }

    /// The world pixel of this point at zoom `z`; see `px`.
    pub open spec fn px_spec(&self, z: nat) -> Px {
        Px { x: (self.x as int / zoom_scale(z)) as i64, y: (self.y as int / zoom_scale(z)) as i64 }
    }

    /// The world pixel that holds this point at zoom `z`.
    pub fn px(&self, z: usize) -> (r: Px)
        requires
            self.wf(),
            z <= MAX_ZOOM,
        ensures
            r == self.px_spec(z as nat),
            0 <= r.x <= world_size(z as nat),
            0 <= r.y <= world_size(z as nat),
    {
        let s = scale_for(z);
        proof {
            lemma_zoom_sizes(z as nat);
            vstd::arithmetic::div_mod::lemma_div_is_ordered(self.x as int, WORLD_SIZE as int, s as int);
            vstd::arithmetic::div_mod::lemma_div_is_ordered(self.y as int, WORLD_SIZE as int, s as int);
            vstd::arithmetic::div_mod::lemma_div_by_multiple(world_size(z as nat), s as int);
        }
        Px { x: self.x / s, y: self.y / s }
    }
}

/// Taking a pixel of the world square to its geographic position and back
/// gives the same pixel, at every zoom level.
pub proof fn lemma_pixel_round_trip(p: Px, z: nat)
    requires
        z <= MAX_ZOOM,
        0 <= p.x <= world_size(z),
        0 <= p.y <= world_size(z),
    ensures
        p.geo_spec(z).px_spec(z) == p,
{
    lemma_zoom_sizes(z);
    let s = zoom_scale(z);
    assert(0 <= p.x * s <= WORLD_SIZE) by (nonlinear_arith)
        requires
            0 <= p.x <= world_size(z),
            world_size(z) * s == WORLD_SIZE,
            1 <= s,
    ;
    assert(0 <= p.y * s <= WORLD_SIZE) by (nonlinear_arith)
        requires
            0 <= p.y <= world_size(z),
            world_size(z) * s == WORLD_SIZE,
            1 <= s,
    ;
    vstd::arithmetic::div_mod::lemma_div_by_multiple(p.x as int, s);
    vstd::arithmetic::div_mod::lemma_div_by_multiple(p.y as int, s);
}

} // verus!
