use remap::component::input::{Input, InputEvent, Msg};
use remap::component::map::{Msg as MapMsg, ViewCoordinator};
use remap::model::position::{GeoPoint, Px};
use remap::model::tile::TileLayer;
use remap::state::panning;

fn geo_of(lon: f64, lat: f64) -> GeoPoint {
    let (x, y) = googleprojection::from_ll_to_pixel(&(lon, lat), 18).unwrap();
    GeoPoint { x: x as i64, y: y as i64 }
}

fn lonlat(g: GeoPoint) -> (f64, f64) {
    googleprojection::from_pixel_to_ll(&(g.x as f64, g.y as f64), 18).unwrap()
}

fn kinds(n: &[(Px, InputEvent)]) -> Vec<InputEvent> {
    n.iter().map(|(_, e)| *e).collect()
}

#[test]
fn input_click_and_begin() {
    let mut input = Input::new();
    let n = input.update(Msg::Click(4, 5));
    assert_eq!(n, vec![(Px { x: 4, y: 5 }, InputEvent::Click)]);
    let n = input.update(Msg::DoubleClick(6, 7));
    assert_eq!(n, vec![(Px { x: 6, y: 7 }, InputEvent::DoubleClick)]);
    // moves before a gesture are ignored
    assert!(input.update(Msg::Move(1, 1, 0)).is_empty());
    assert!(input.update(Msg::MoveRelease(0)).is_empty());
    let n = input.update(Msg::MoveBegin(100, 100, 0));
    assert_eq!(kinds(&n), vec![InputEvent::MoveBegin]);
    // a new gesture while one goes on ends the old one first
    let n = input.update(Msg::MoveBegin(50, 50, 5));
    assert_eq!(kinds(&n), vec![InputEvent::MoveEnd, InputEvent::MoveBegin]);
    let n = input.update(Msg::Move(60, 45, 15));
    assert_eq!(n, vec![(Px { x: 10, y: -5 }, InputEvent::Move)]);
}

#[test]
fn input_glides_after_release() {
    let mut input = Input::new();
    input.update(Msg::MoveBegin(0, 0, 0));
    input.update(Msg::Move(20, 0, 10));
    // 20 px in 10 ms: 2000 thousandths per ms; the release step keeps 0.92
    let n = input.update(Msg::MoveRelease(10));
    assert_eq!(n, vec![(Px { x: 21, y: 0 }, InputEvent::Move)]);
    assert!(input.wants_frame());
    assert!(input.panning.status == panning::Status::Free);
    let mut now = 10u64;
    let mut last = 21;
    let mut ended = false;
    for _ in 0..100 {
        now += 16;
        let n = input.update(Msg::Decelerate(now));
        assert_eq!(n[0].1, InputEvent::Move);
        assert!(n[0].0.x >= last);
        last = n[0].0.x;
        if n.len() == 2 {
            assert_eq!(n[1], (Px { x: 0, y: 0 }, InputEvent::MoveEnd));
            ended = true;
            break;
        }
    }
    assert!(ended);
    assert!(!input.wants_frame());
    assert!(input.update(Msg::Decelerate(now + 16)).is_empty());
}

#[test]
fn coordinator_zoom_and_resize() {
    let mut m = ViewCoordinator::new(geo_of(29.8, 62.6), 4, vec![TileLayer::new("https://t", ".png")]);
    assert!(m.update(MapMsg::Zoom(18)));
    assert_eq!(m.zoom, 18);
    m.update(MapMsg::Zoom(19));
    assert_eq!(m.zoom, 18);
    m.update(MapMsg::Zoom(0));
    assert_eq!(m.zoom, 18);
    m.update(MapMsg::Zoom(1));
    assert_eq!(m.zoom, 1);
    assert!(m.update(MapMsg::Resize(800, 600)));
    assert_eq!((m.width, m.height), (800, 600));
    assert!(!m.update(MapMsg::Resize(-1, 600)));
    assert_eq!((m.width, m.height), (800, 600));
    let (vw, outer) = m.calc_viewports();
    assert_eq!(vw, outer);
    assert_eq!(vw.se.x - vw.nw.x, 800);
    assert_eq!(m.visible_layers().len(), 1);
}

#[test]
fn coordinator_goto_and_double_click() {
    let c = GeoPoint { x: 1 << 25, y: 1 << 25 };
    let mut m = ViewCoordinator::new(c, 10, vec![]);
    // the element is 256 px; its pixel (128, 128) is the centre
    m.update(MapMsg::Goto(Px { x: 128, y: 128 }, 10));
    assert_eq!(m.center, c);
    // pixel (138, 128) is ten pixels east of the centre, 2^8 units each at zoom 10
    m.update(MapMsg::Input(Px { x: 138, y: 128 }, InputEvent::DoubleClick));
    assert_eq!(m.zoom, 11);
    assert_eq!(m.center, GeoPoint { x: (1 << 25) + 10 * 256, y: 1 << 25 });
}

#[test]
fn coordinator_pan_moves_against_drag() {
    let c = GeoPoint { x: 1 << 25, y: 1 << 25 };
    let mut m = ViewCoordinator::new(c, 10, vec![]);
    m.update(MapMsg::Input(Px { x: 0, y: 0 }, InputEvent::MoveBegin));
    m.update(MapMsg::Input(Px { x: 30, y: -20 }, InputEvent::Move));
    let (vw, outer) = m.calc_viewports();
    let still = ViewCoordinator::new(c, 10, vec![]).calc_viewports().0;
    assert_eq!(vw.nw, Px { x: still.nw.x - 30, y: still.nw.y + 20 });
    // the outer viewport reaches 512 px ahead, westward and southward
    assert_eq!(outer.nw, Px { x: vw.nw.x - 512, y: vw.nw.y });
    assert_eq!(outer.se, Px { x: vw.se.x, y: vw.se.y + 512 });
    m.update(MapMsg::Input(Px { x: 0, y: 0 }, InputEvent::MoveEnd));
    assert!(m.movement.is_none());
    assert_eq!(m.center, GeoPoint { x: (1 << 25) - 30 * 256, y: (1 << 25) + 20 * 256 });
    // the centre stays on the world
    m.update(MapMsg::Input(Px { x: i64::MIN, y: i64::MAX }, InputEvent::Move));
    m.update(MapMsg::Input(Px { x: 0, y: 0 }, InputEvent::MoveEnd));
    assert_eq!(m.center, GeoPoint { x: 1 << 26, y: 0 });
}

#[test]
fn end_to_end_pan_with_inertia() {
    let start = geo_of(29.8, 62.6);
    let mut m = ViewCoordinator::new(start, 13, vec![]);
    assert_eq!((m.width, m.height), (256, 256));
    let mut input = Input::new();
    let mut notices = Vec::new();
    notices.extend(input.update(Msg::MoveBegin(100, 100, 1000)));
    notices.extend(input.update(Msg::Move(110, 100, 1016)));
    notices.extend(input.update(Msg::MoveRelease(1016)));
    let mut speeds = vec![input.inertia.velocity.0.abs()];
    let mut now = 1016u64;
    while input.wants_frame() {
        now += 16;
        notices.extend(input.update(Msg::Decelerate(now)));
        speeds.push(input.inertia.velocity.0.abs());
        assert!(now < 1016 + 16 * 1000);
    }
    for w in speeds.windows(2) {
        assert!(w[1] < w[0]);
    }
    assert_eq!(*speeds.last().unwrap(), 0);
    for (pos, e) in notices {
        m.update(MapMsg::Input(pos, e));
    }
    assert!(m.movement.is_none());
    let (lon0, lat0) = lonlat(start);
    let (lon1, lat1) = lonlat(m.center);
    // dragging the content east moves the view west
    assert!(lon1 < lon0);
    assert!((lat1 - lat0).abs() < 1e-9);
}
