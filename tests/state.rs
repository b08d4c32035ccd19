use remap::model::position::Px;
use remap::model::tile::TileLayer;
use remap::state::{inertia, layer, movement, panning};

#[test]
fn inertia_decays_by_factor() {
    let mut s = inertia::State::begin((1000, -2000));
    assert!(s.status() == inertia::Status::InProgress);
    // no time passed: 92 hundredths kept
    assert_eq!(s.tick(0), (920, -1840));
    // half a second: 0.92 * 0.5 kept, rounded toward zero
    assert_eq!(s.tick(500_000), (423, -846));
    assert!(s.status() == inertia::Status::InProgress);
    // a tick longer than a second is taken as one second: all is lost
    assert_eq!(s.tick(5_000_000), (0, 0));
    assert!(s.status() == inertia::Status::Ended);
}

#[test]
fn inertia_stops_below_threshold() {
    let mut s = inertia::State::begin((540, 0));
    // 540 * 0.92 = 496.8 -> 496, below 500
    assert_eq!(s.tick(0), (0, 0));
    assert!(s.status() == inertia::Status::Ended);
    let mut z = inertia::State::begin((0, 0));
    assert_eq!(z.tick(16_000), (0, 0));
    assert!(z.status() == inertia::Status::Ended);
}

#[test]
fn inertia_terminates_with_zero_velocity() {
    for &(v, dt) in [((10_000i64, -3_000i64), 16_000u64), ((-7, 123_456), 0), ((i64::MAX, i64::MIN), 1)].iter() {
        let mut s = inertia::State::begin(v);
        let bound = (v.0 as i128).abs() + (v.1 as i128).abs() + 1;
        let mut prev = (v.0 as i128).abs() + (v.1 as i128).abs();
        let mut n: i128 = 0;
        while s.status() == inertia::Status::InProgress {
            let r = s.tick(dt);
            let m = (r.0 as i128).abs() + (r.1 as i128).abs();
            assert!(m < prev);
            prev = m;
            n += 1;
            assert!(n <= bound);
        }
        assert_eq!(s.velocity, (0, 0));
    }
}

#[test]
fn panning_offset_sign() {
    let mut p = panning::State::new();
    p.begin((0, 0), 100);
    p.set_position((10, -5), 110);
    assert_eq!(p.offset(), Px { x: 10, y: -5 });
}

#[test]
fn panning_velocity_and_phases() {
    let mut p = panning::State::new();
    assert!(p.status() == panning::Status::Idle);
    p.begin((100, 100), 1000);
    assert!(p.status() == panning::Status::Panning);
    assert_eq!(p.offset(), Px { x: 0, y: 0 });
    p.set_position((110, 95), 1010);
    // 10 px in 10 ms: 1000 thousandths per ms
    assert_eq!(p.velocity, (1000, -500));
    // a sample at the same instant counts as one millisecond
    p.set_position((113, 95), 1010);
    assert_eq!(p.velocity, (3000, 0));
    // the clock going back counts as one millisecond too
    p.set_position((112, 95), 900);
    assert_eq!(p.velocity, (-1000, 0));
    assert_eq!(p.release(), (-1000, 0));
    assert!(p.status() == panning::Status::Free);
    p.add_relative((2500, -1500));
    assert_eq!(p.offset(), Px { x: 14, y: -6 });
    assert_eq!(p.end(), Px { x: 14, y: -6 });
    assert!(p.status() == panning::Status::Idle);
}

#[test]
fn panning_offset_rounds_toward_zero() {
    let mut p = panning::State::new();
    p.begin((0, 0), 0);
    p.add_relative((-1999, 1999));
    assert_eq!(p.offset(), Px { x: -1, y: 1 });
}

#[test]
fn movement_sums_steps() {
    let mut m = movement::State::new();
    assert!(!m.is_moving());
    m.begin();
    assert!(m.is_moving());
    m.add_movement((3, -4));
    m.add_movement((10, 1));
    assert_eq!(m.end(), (13, -3));
    assert!(!m.is_moving());
}

#[test]
fn layers_visibility() {
    let mut s = layer::State::new(vec![
        TileLayer::new("https://a", ".png"),
        TileLayer::new("https://b", ".jpg"),
        TileLayer::new("https://c", ""),
    ]);
    s.set_visible(1, false);
    s.set_visible(7, false);
    let all = s.layers();
    assert_eq!(all.len(), 3);
    assert!(all[0].visible && !all[1].visible && all[2].visible);
    let shown = s.layers_by_visibility(true);
    assert_eq!(shown.len(), 2);
    assert_eq!(shown[0].url, "https://a");
    assert_eq!(shown[1].url, "https://c");
    let hidden = s.layers_by_visibility(false);
    assert_eq!(hidden.len(), 1);
    assert_eq!(hidden[0].suffix, ".jpg");
}

#[test]
fn status_defaults() {
    assert!(panning::Status::default() == panning::Status::Idle);
    assert!(movement::Status::default() == movement::Status::NotMoving);
    assert!(inertia::Status::default() == inertia::Status::InProgress);
}
