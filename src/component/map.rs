use super::input::InputEvent;
use crate::model::position::{
    clamp, geo_at, geo_of, scale_for, zoom_scale, GeoPoint, Px, MAX_ZOOM, WORLD_SIZE,
};
use crate::model::tile::TileLayer;
use crate::model::viewport::Viewport;
use crate::state::layer::{self, views, with_visibility};
use vstd::prelude::*;

verus! {

/// Shallowest zoom level that the map shows.
pub const MIN_ZOOM: usize = 1;

/// Pixels by which the outer viewport reaches ahead of a pan.
pub const PREFETCH_MARGIN: i64 = 512;

/// Requests to the map.
#[derive(Clone, Copy, Debug, PartialEq, Eq, Structural)]
pub enum Msg {
    /// the map element now has this width and height
    Resize(i32, i32),
    /// centre on this pixel of the view, then go to this zoom
    Goto(Px, i8),
    /// go to this zoom, if it is supported
    Zoom(i8),
    /// a gesture notice from the input
    Input(Px, InputEvent),
}

/// `center` moved against a pan of `offset` pixels at zoom `z`, kept on
/// the world square.
pub open spec fn shifted(center: GeoPoint, offset: Px, z: nat) -> GeoPoint {
    GeoPoint {
        x: clamp(center.x - offset.x * zoom_scale(z), 0, WORLD_SIZE as int) as i64,
        y: clamp(center.y - offset.y * zoom_scale(z), 0, WORLD_SIZE as int) as i64,
    }
}

/// How far ahead of a pan of `offset` the outer viewport reaches: the
/// margin on each axis, in the direction that the view travels.
pub open spec fn lead(offset: Px) -> Px {
    Px {
        x: if offset.x < 0 { PREFETCH_MARGIN } else { (-PREFETCH_MARGIN) as i64 },
        y: if offset.y < 0 { PREFETCH_MARGIN } else { (-PREFETCH_MARGIN) as i64 },
    }
}

/// Computes `shifted(center, offset, z)`.
fn shift(center: &GeoPoint, offset: &Px, z: usize) -> (r: GeoPoint)
    requires
        center.wf(),
        z <= MAX_ZOOM,
    ensures
        r == shifted(*center, *offset, z as nat),
        r.wf(),
{
    let s = scale_for(z) as i128;
    proof {
        assert(-(i64::MAX as int + 1) * 262144 <= offset.x * s <= (i64::MAX as int) * 262144)
            by (nonlinear_arith)
            requires
                1 <= s <= 262144,
                i64::MIN <= offset.x <= i64::MAX,
        ;
        assert(-(i64::MAX as int + 1) * 262144 <= offset.y * s <= (i64::MAX as int) * 262144)
            by (nonlinear_arith)
            requires
                1 <= s <= 262144,
                i64::MIN <= offset.y <= i64::MAX,
        ;
    }
    let x = center.x as i128 - offset.x as i128 * s;
    let y = center.y as i128 - offset.y as i128 * s;
    let w = WORLD_SIZE as i128;
    GeoPoint {
        x: if x < 0 {
            0
        } else if x > w {
            WORLD_SIZE
        } else {
            x as i64
        },
        y: if y < 0 {
            0
        } else if y > w {
            WORLD_SIZE
        } else {
            y as i64
        },
    }
}

/// The view coordinator: where the map is centred, at which zoom, how
/// large its element is, the pan in progress, and its layers.
pub struct ViewCoordinator {
    pub center: GeoPoint,
    pub zoom: usize,
    /// element width in pixels
    pub width: i32,
    /// element height in pixels
    pub height: i32,
    /// if set to some, indicates a map move in progress
    pub movement: Option<Px>,
    pub layers: layer::State,
}

impl ViewCoordinator {
    /// The centre is on the world, the zoom supported, the size not negative.
    pub open spec fn wf(&self) -> bool {
        &&& self.center.wf()
        &&& MIN_ZOOM <= self.zoom <= MAX_ZOOM
        &&& self.width >= 0
        &&& self.height >= 0
    }

    /// The centre that the view shows now: the committed one, moved by the
    /// pan in progress.
    pub open spec fn view_center(&self) -> GeoPoint {
        match self.movement {
            Some(offset) => shifted(self.center, offset, self.zoom as nat),
            None => self.center,
        }
    }

    /// The viewport of the element around `center` at the current zoom.
    pub open spec fn viewport_at(&self, center: GeoPoint) -> Viewport {
        Viewport::centered(center, (self.width, self.height), self.zoom as nat)
    }

    /// The map with the pan in progress committed to its centre.
    pub open spec fn finished(&self) -> ViewCoordinator {
        ViewCoordinator { center: self.view_center(), movement: None, ..*self }
    }

    /// The map at zoom `z` if it is supported, else unchanged.
    pub open spec fn zoomed(&self, z: int) -> ViewCoordinator {
        if MIN_ZOOM <= z <= MAX_ZOOM {
            ViewCoordinator { zoom: z as usize, ..*self }
        } else {
            *self
        }
    }

    /// The map centred on pixel `px` of its current viewport.
    pub open spec fn centred_on(&self, px: Px) -> ViewCoordinator {
        let nw = self.viewport_at(self.center).nw;
        ViewCoordinator { center: geo_of(nw.x + px.x, nw.y + px.y, self.zoom as nat), ..*self }
    }

    /// The map after `msg`, and whether it must be drawn again.
    pub open spec fn update_spec(&self, msg: Msg) -> (ViewCoordinator, bool) {
        match msg {
            Msg::Resize(w, h) => {
                if w >= 0 && h >= 0 {
                    (ViewCoordinator { width: w, height: h, ..*self }, true)
                } else {
                    (*self, false)
                }
            },
            Msg::Goto(px, z) => (self.centred_on(px).zoomed(z as int), true),
            Msg::Zoom(z) => (self.zoomed(z as int), true),
            Msg::Input(pos, e) => match e {
                InputEvent::Click => (*self, true),
                InputEvent::DoubleClick => (
                    self.centred_on(pos).zoomed(self.zoom as int + 1),
                    true,
                ),
                InputEvent::MoveBegin => (self.finished(), true),
                InputEvent::Move => (ViewCoordinator { movement: Some(pos), ..*self }, true),
                InputEvent::MoveEnd => (self.finished(), true),
            },
        }
    }

    /// A map of 256 by 256 pixels centred on `center` at zoom `zoom`.
    pub fn new(center: GeoPoint, zoom: usize, layers: Vec<TileLayer>) -> (r: ViewCoordinator)
        requires
            center.wf(),
            MIN_ZOOM <= zoom <= MAX_ZOOM,
        ensures
            r.wf(),
            r.center == center,
            r.zoom == zoom,
            r.width == 256,
            r.height == 256,
            r.movement.is_none(),
            r.layers.layers@ == layers@,
    {
        ViewCoordinator { center, zoom, width: 256, height: 256, movement: None, layers: layer::State::new(layers) }
    }

    /// The viewport of the element, panned by `offset`.
    pub fn panned_viewport(&self, offset: &Px) -> (r: Viewport)
        requires
            self.wf(),
        ensures
            r.wf(),
            r == self.viewport_at(shifted(self.center, *offset, self.zoom as nat)),
            -(i32::MAX as int) <= r.nw.x,
            -(i32::MAX as int) <= r.nw.y,
            r.se.x <= WORLD_SIZE + i32::MAX,
            r.se.y <= WORLD_SIZE + i32::MAX,
    {
        let center = shift(&self.center, offset, self.zoom);
        Viewport::new(&center, (self.width, self.height), self.zoom)
    }

    /// Commits the pan in progress, if any, to the centre.
    pub fn finish_panning(&mut self)
        requires
            old(self).wf(),
        ensures
            final(self).wf(),
            *final(self) == old(self).finished(),
    {
        if let Some(offset) = self.movement.take() {
            self.center = shift(&self.center, &offset, self.zoom);
        }
    }

    /// The visible viewport, and the outer one whose tiles are placed: the
    /// same while nothing moves, else grown ahead of the pan.
    pub fn calc_viewports(&self) -> (r: (Viewport, Viewport))
        requires
            self.wf(),
        ensures
            r.0.wf(),
            r.1.wf(),
            r.0 == self.viewport_at(self.view_center()),
            r.1 == match self.movement {
                Some(offset) => r.0.resized(lead(offset)),
                None => r.0,
            },
    {
        match self.movement {
            Some(offset) => {
                let vw = self.panned_viewport(&offset);
                let ahead = Px {
                    x: if offset.x < 0 { PREFETCH_MARGIN } else { -PREFETCH_MARGIN },
                    y: if offset.y < 0 { PREFETCH_MARGIN } else { -PREFETCH_MARGIN },
                };
                (vw, vw.resize_keep_min_bounds(ahead))
            },
            None => {
                let vw = Viewport::new(&self.center, (self.width, self.height), self.zoom);
                (vw, vw)
            },
        }
    }

    /// The layers that are shown.
    pub fn visible_layers(&self) -> (r: Vec<TileLayer>)
        ensures
            views(r@) == with_visibility(self.layers@, true),
    {
        self.layers.layers_by_visibility(true)
    }

    fn centre_on(&mut self, px: &Px)
        requires
            old(self).wf(),
        ensures
            final(self).wf(),
            *final(self) == old(self).centred_on(*px),
    {
        let vw = Viewport::new(&self.center, (self.width, self.height), self.zoom);
        let nw = vw.pixels();
        self.center = geo_at(nw.x as i128 + px.x as i128, nw.y as i128 + px.y as i128, self.zoom);
    }

    fn zoom_to(&mut self, z: i8)
        requires
            old(self).wf(),
        ensures
            final(self).wf(),
            *final(self) == old(self).zoomed(z as int),
    {
        if z >= 1 && z <= 18 {
            self.zoom = z as usize;
        }
    }

    /// Handles one request; returns whether the map must be drawn again.
    pub fn update(&mut self, msg: Msg) -> (r: bool)
        requires
            old(self).wf(),
        ensures
            final(self).wf(),
            (*final(self), r) == old(self).update_spec(msg),
    {
        match msg {
            Msg::Resize(w, h) => {
                if w >= 0 && h >= 0 {
                    self.width = w;
                    self.height = h;
                    true
                } else {
                    false
                }
            },
            Msg::Goto(px, z) => {
                self.centre_on(&px);
                self.zoom_to(z);
                true
            },
            Msg::Zoom(z) => {
                self.zoom_to(z);
                true
            },
            Msg::Input(pos, e) => {
                match e {
                    InputEvent::Click => {},
                    InputEvent::DoubleClick => {
                        self.centre_on(&pos);
                        self.zoom_to(self.zoom as i8 + 1);
                    },
                    InputEvent::MoveBegin => {
                        self.finish_panning();
                    },
                    InputEvent::Move => {
                        self.movement = Some(pos);
                    },
                    InputEvent::MoveEnd => {
                        self.finish_panning();
                    },
                }
                true
            },
        }
    }
}

} // verus!
