use remap::model::position::{GeoPoint, Px, WORLD_SIZE};
use remap::model::tile::{Tile, TileLayer};
use remap::model::viewport::Viewport;
use remap::component::grid::Grid;

/// World pixel of a longitude and latitude at zoom `z`.
fn px_of(lon: f64, lat: f64, z: usize) -> Px {
    let (x, y) = googleprojection::from_ll_to_pixel(&(lon, lat), z).unwrap_or((0.0, 0.0));
    Px { x: x as i64, y: y as i64 }
}

/// Longitude and latitude of a world pixel at zoom `z`.
fn lonlat_of(p: Px, z: usize) -> (f64, f64) {
    googleprojection::from_pixel_to_ll(&(p.x as f64, p.y as f64), z).unwrap_or((0.0, 0.0))
}

/// The viewport of a geographic box.
fn geo_box(lon_min: f64, lon_max: f64, lat_min: f64, lat_max: f64, z: usize) -> Viewport {
    Viewport::from_pixel_bounds(px_of(lon_min, lat_max, z), px_of(lon_max, lat_min, z), z)
}

#[test]
fn test_tiles_in_bb_1() {
    let tiles = geo_box(29.59, 29.98, 62.56, 62.65, 12).tiles();

    assert_eq!(tiles.len(), 18);
    assert_eq!(tiles[0].x, 2384);
    assert_eq!(tiles[0].y, 1126);
    assert_eq!(tiles[0].z, 12);
}

#[test]
fn test_tiles_in_bb_2() {
    let tiles = geo_box(-21.4326, 80.0, 24.88, 54.74, 4).tiles();

    assert_eq!(tiles.len(), 10);
    assert_eq!(tiles[0].x, 7);
    assert_eq!(tiles[0].y, 5);
    assert_eq!(tiles[1].x, 8);
    assert_eq!(tiles[1].y, 5);
    assert_eq!(tiles[2].x, 9);
    assert_eq!(tiles[2].y, 5);
    assert_eq!(tiles[3].x, 10);
    assert_eq!(tiles[3].y, 5);
    assert_eq!(tiles[4].x, 11);
    assert_eq!(tiles[4].y, 5);
    assert_eq!(tiles[5].x, 7);
    assert_eq!(tiles[5].y, 6);
    assert_eq!(tiles[6].x, 8);
    assert_eq!(tiles[6].y, 6);
    assert_eq!(tiles[7].x, 9);
    assert_eq!(tiles[7].y, 6);
    assert_eq!(tiles[8].x, 10);
    assert_eq!(tiles[8].y, 6);
    assert_eq!(tiles[9].x, 11);
    assert_eq!(tiles[9].y, 6);
}

#[test]
fn test_tiles_in_bb_3() {
    let tiles = geo_box(29.54, 30.18, 62.52, 62.65, 11).tiles();

    assert_eq!(tiles.len(), 8);
    assert_eq!(tiles[0].x, 1192);
    assert_eq!(tiles[0].y, 563);
    assert_eq!(tiles[7].x, 1195);
    assert_eq!(tiles[7].y, 564);
}

#[test]
fn test_tile_1() {
    let a = Tile { x: 100, y: 100, z: 8 };
    let (lon, lat) = lonlat_of(a.pixels(), a.z);

    assert_eq!(lon, -39.375);
    assert!((lat - 36.5978891330702) < 1e-10);
}

#[test]
fn test_tile_2() {
    let a = Tile { x: 999, y: 999, z: 12 };
    let (lon, lat) = lonlat_of(a.pixels(), a.z);

    assert_eq!(lon, -92.197265625);
    assert!((lat - 67.37369797436554) < 1e-10);
}

#[test]
fn px_arithmetic() {
    let a = Px { x: 7, y: -3 };
    let b = Px { x: -5, y: 10 };
    assert_eq!(a.neg(), Px { x: -7, y: 3 });
    assert_eq!(a.distance(&b), Px { x: 12, y: -13 });
    assert_eq!(a.translate(&b), Px { x: 2, y: 7 });
    // halves round toward zero: 7/2 + -5/2 = 3 + -2, -3/2 + 10/2 = -1 + 5
    assert_eq!(a.avg(&b), Px { x: 1, y: 4 });
    assert_eq!(a.normalize(512), Px { x: 512, y: -512 });
    assert_eq!(Px { x: 0, y: 1 }.normalize(4), Px { x: -4, y: 4 });
    assert_eq!(Px::from((3i64, 4i64)), Px { x: 3, y: 4 });
    assert_eq!(Px::from((-3i32, 4i32)), Px { x: -3, y: 4 });
}

#[test]
fn pixel_geo_round_trip() {
    for z in 1..=18usize {
        let w = 256i64 << z;
        for p in [Px { x: 0, y: 0 }, Px { x: 1, y: w - 1 }, Px { x: w / 3, y: w / 7 }, Px { x: w, y: w }] {
            assert_eq!(p.geo(z).px(z), p);
        }
    }
    // off the world: clamped to its edge
    let g = Px { x: -10, y: 1 << 40 }.geo(4);
    assert_eq!(g, GeoPoint { x: 0, y: WORLD_SIZE });
    assert_eq!(Px { x: 3, y: 5 }.geo(17), GeoPoint { x: 6, y: 10 });
    assert_eq!(GeoPoint { x: 1023, y: 1024 }.px(10), Px { x: 3, y: 4 });
}

#[test]
fn geo_round_trip_through_projection() {
    let lons = [-179.5, -45.25, 0.0, 29.8, 123.456];
    let lats = [-84.9, -33.3, 0.0, 62.6, 84.9];
    for z in [1usize, 8, 13, 18] {
        for &lon in lons.iter() {
            for &lat in lats.iter() {
                let (x, y) = googleprojection::from_ll_to_subpixel(&(lon, lat), z).unwrap();
                let (lon2, lat2) = googleprojection::from_pixel_to_ll(&(x, y), z).unwrap();
                assert!((lon - lon2).abs() < 1e-9);
                assert!((lat - lat2).abs() < 1e-9);
            }
        }
    }
}

#[test]
fn tile_add_pixels_bbox() {
    let t = Tile { x: 100, y: 200, z: 8 };
    assert_eq!(t.add(1), Tile { x: 101, y: 201, z: 8 });
    assert_eq!(t.add(-100), Tile { x: 0, y: 100, z: 8 });
    assert_eq!(t.pixels(), Px { x: 25600, y: 51200 });
    let b = t.bbox();
    assert_eq!(b.nw, Px { x: 25600, y: 51200 });
    assert_eq!(b.se, Px { x: 25856, y: 51456 });
    assert_eq!(b.z, 8);
}

#[test]
fn tile_width_constant_along_diagonal() {
    let mut t = Tile { x: 100, y: 100, z: 8 };
    let degrees = 360.0 / 256.0;
    for _ in 0..1000 {
        let b = t.bbox();
        assert_eq!(b.se.x - b.nw.x, 256);
        assert_eq!(b.se.y - b.nw.y, 256);
        let (west, _) = lonlat_of(t.pixels(), t.z);
        let (east, _) = lonlat_of(t.add(1).pixels(), t.z);
        assert!(((east - west) - degrees).abs() < 1e-9);
        t = t.add(1);
    }
}

#[test]
fn tile_url_format() {
    let layer = TileLayer::new("https://tiles.example/base", ".png?k=v");
    assert!(layer.visible);
    let url = layer.tile_url(&Tile { x: 2384, y: 1126, z: 12 });
    assert_eq!(url, "https://tiles.example/base/12/2384/1126.png?k=v");
    let url0 = layer.tile_url(&Tile { x: 0, y: 10, z: 1 });
    assert_eq!(url0, "https://tiles.example/base/1/0/10.png?k=v");
}

#[test]
fn viewport_from_center() {
    let c = GeoPoint { x: 1 << 25, y: 1 << 25 };
    let vw = Viewport::new(&c, (256, 101), 2);
    // the world at zoom 2 is 1024 pixels, its middle 512
    assert_eq!(vw.nw, Px { x: 384, y: 462 });
    assert_eq!(vw.se, Px { x: 640, y: 562 });
    assert_eq!(vw.z, 2);
    assert_eq!(vw.center(), c);
    assert_eq!(vw.pixels(), vw.nw);
    assert_eq!(vw.pixel_bounds(), (vw.nw, vw.se));
}

#[test]
fn viewport_translate() {
    let vw = geo_box(29.59, 29.98, 62.56, 62.65, 12);
    assert_eq!(vw.translate(&Px { x: 0, y: 0 }), vw);
    let moved = vw.translate(&Px { x: 30, y: -40 });
    assert_eq!(moved.nw, Px { x: vw.nw.x + 30, y: vw.nw.y - 40 });
    assert_eq!(moved.se, Px { x: vw.se.x + 30, y: vw.se.y - 40 });
}

#[test]
fn viewport_resize_grows_toward_offset() {
    let vw = Viewport::from_pixel_bounds(Px { x: 1000, y: 2000 }, Px { x: 1500, y: 2300 }, 10);
    let r = vw.resize_keep_min_bounds(Px { x: 512, y: -512 });
    assert_eq!(r.nw, Px { x: 1000, y: 1488 });
    assert_eq!(r.se, Px { x: 2012, y: 2300 });
    for off in [Px { x: -1, y: 1 }, Px { x: 700, y: 3 }, Px { x: -9, y: -9 }, Px { x: 0, y: 0 }] {
        let g = vw.resize_keep_min_bounds(off);
        assert!(g.nw.x <= vw.nw.x && g.nw.y <= vw.nw.y);
        assert!(g.se.x >= vw.se.x && g.se.y >= vw.se.y);
    }
}

#[test]
fn viewport_tiles_clamped_to_world() {
    // a box that reaches past the world's northwest corner at zoom 1
    let vw = Viewport::from_pixel_bounds(Px { x: -300, y: -10 }, Px { x: 300, y: 100 }, 1);
    let tiles = vw.tiles();
    assert_eq!(tiles, vec![Tile { x: 0, y: 0, z: 1 }, Tile { x: 1, y: 0, z: 1 }]);
    // entirely beyond the world: nothing
    let out = Viewport::from_pixel_bounds(Px { x: 600, y: 0 }, Px { x: 700, y: 10 }, 1);
    assert!(out.tiles().is_empty());
}

#[test]
fn viewport_pixel_offset() {
    let vw = Viewport::from_pixel_bounds(Px { x: 1000, y: 2000 }, Px { x: 1500, y: 2300 }, 10);
    let first = vw.tiles()[0];
    assert_eq!(first, Tile { x: 3, y: 7, z: 10 });
    assert_eq!(vw.pixel_offset(&first), Px { x: -232, y: -208 });
}

#[test]
fn grid_rows_and_offset() {
    let vw = geo_box(-21.4326, 80.0, 24.88, 54.74, 4);
    let rows = Grid::tile_rows(&vw);
    assert_eq!(rows.len(), 2);
    assert_eq!(rows[0].len(), 5);
    assert!(rows[0].iter().all(|t| t.y == 5));
    assert!(rows[1].iter().all(|t| t.y == 6));
    assert_eq!(rows.concat(), vw.tiles());
    let outer = vw.resize_keep_min_bounds(Px { x: -512, y: -512 });
    let off = Grid::tile_offset(&vw, &outer);
    let first = outer.tiles()[0];
    assert_eq!(off, vw.pixel_offset(&first));
    assert!(off.x <= 0 && off.y <= 0);
    let empty = Viewport::from_pixel_bounds(Px { x: 600, y: 0 }, Px { x: 700, y: 10 }, 1);
    assert!(Grid::tile_rows(&empty).is_empty());
}

#[test]
fn grid_change_redraws_only_on_change() {
    let a = Viewport::from_pixel_bounds(Px { x: 0, y: 0 }, Px { x: 300, y: 300 }, 3);
    let b = a.translate(&Px { x: 5, y: 0 });
    let outer = b.resize_keep_min_bounds(Px { x: 512, y: 0 });
    let layers = vec![TileLayer::new("https://a", ".png")];
    let mut g = Grid::new(a, a, layers.clone());
    assert!(!g.change(a, outer, vec![TileLayer::new("https://a", ".png")]));
    assert_eq!(g.vw_outer, a);
    assert!(g.change(b, outer, layers.clone()));
    assert_eq!(g.vw, b);
    assert_eq!(g.vw_outer, outer);
    let mut hidden = TileLayer::new("https://a", ".png");
    hidden.visible = false;
    assert!(g.change(b, a, vec![hidden]));
    assert_eq!(g.vw_outer, outer);
    assert!(!g.layers[0].visible);
}
