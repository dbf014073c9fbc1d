use terrain_display::display::{draw_window, terrain_map};
use terrain_display::geo::{GeographicRangeError, LatLon, Latitude, Longitude, Polygon};
use terrain_display::layer::{BackgroundLayer, Color, Layer, StockLayer, Surface, TestLayer, WorldLayer};
use terrain_display::map::LayeredMap;
use terrain_display::projection::{AxisScale, EquirectangularProjection, Point2D};

fn ll(latitude: i32, longitude: i32) -> LatLon {
    LatLon { latitude: Latitude(latitude), longitude: Longitude(longitude) }
}

fn pt(x: i64, y: i64) -> Point2D {
    Point2D { x, y }
}

fn vertices(surface: &Surface, i: usize) -> Vec<Point2D> {
    surface.primitives()[i].vertices.clone()
}

const BLUE: Color = Color { red: 0, green: 0, blue: 1000 };
const GREEN: Color = Color { red: 0, green: 500, blue: 0 };
const SKY: Color = Color { red: 0, green: 500, blue: 1000 };

#[test]
fn origin_projects_to_origin() {
    let p = EquirectangularProjection::new();
    assert_eq!(p.project_point(ll(0, 0)), pt(0, 0));
}

#[test]
fn ten_degrees_projects_to_ten_units() {
    let p = EquirectangularProjection::new();
    assert_eq!(p.project_point(ll(10_000_000, 10_000_000)), pt(10, 10));
    assert_eq!(p.project_point(ll(-10_000_000, 20_000_000)), pt(20, -10));
}

#[test]
fn fractional_degrees_round_down() {
    let p = EquirectangularProjection::new();
    assert_eq!(p.project_point(ll(10_500_000, -500_000)), pt(-1, 10));
}

#[test]
fn project_poly_keeps_count_and_order() {
    let p = EquirectangularProjection::new();
    let poly = Polygon::new(vec![ll(1_000_000, 2_000_000), ll(3_000_000, 4_000_000), ll(5_000_000, 6_000_000)]);
    let out = p.project_poly(&poly);
    assert_eq!(out.vertex_count(), 3);
    assert_eq!(out.points(), &[pt(2, 1), pt(4, 3), pt(6, 5)][..]);
}

#[test]
fn project_poly_is_deterministic() {
    let p = EquirectangularProjection::fit(300, 500);
    let poly = TestLayer::shape();
    let a = p.project_poly(&poly);
    let b = p.project_poly(&poly);
    assert_eq!(a.points(), b.points());
}

#[test]
fn degenerate_polygons_project() {
    let p = EquirectangularProjection::new();
    let empty: Polygon<LatLon> = Polygon::new(Vec::new());
    assert_eq!(p.project_poly(&empty).vertex_count(), 0);
    let single = Polygon::new(vec![ll(45_000_000, 90_000_000)]);
    let out = p.project_poly(&single);
    assert_eq!(out.vertex_count(), 1);
    assert_eq!(out.points()[0], pt(90, 45));
}

#[test]
fn fit_maps_world_corners_to_box_corners() {
    let p = EquirectangularProjection::fit(300, 500);
    assert_eq!(p.project_point(ll(-90_000_000, -180_000_000)), pt(0, 0));
    assert_eq!(p.project_point(ll(90_000_000, 180_000_000)), pt(300, 500));
    assert_eq!(p.project_point(ll(0, 0)), pt(150, 250));
}

#[test]
fn world_layer_fills_fitted_rect() {
    let mut surface = Surface::new();
    let p = EquirectangularProjection::fit(300, 500);
    WorldLayer::new().draw(&p, 0, 0, 300, 500, &mut surface);
    assert_eq!(surface.len(), 1);
    assert_eq!(surface.primitives()[0].color, SKY);
    let v = vertices(&surface, 0);
    assert_eq!(v, vec![pt(0, 0), pt(0, 500), pt(300, 500), pt(300, 0)]);
    for q in v {
        assert!(0 <= q.x && q.x <= 300 && 0 <= q.y && q.y <= 500);
    }
}

#[test]
fn world_layer_is_offset_by_rect_origin() {
    let mut surface = Surface::new();
    let p = EquirectangularProjection::fit(300, 500);
    WorldLayer::new().draw(&p, 20, 30, 300, 500, &mut surface);
    assert_eq!(vertices(&surface, 0), vec![pt(20, 30), pt(20, 530), pt(320, 530), pt(320, 30)]);
}

#[test]
fn test_layer_shape_under_fitted_projection() {
    let mut surface = Surface::new();
    let p = EquirectangularProjection::fit(360, 180);
    TestLayer.draw(&p, 0, 0, 360, 180, &mut surface);
    assert_eq!(surface.primitives()[0].color, BLUE);
    assert_eq!(vertices(&surface, 0), vec![pt(57, 127), pt(57, 137), pt(179, 141), pt(176, 130)]);
}

#[test]
fn background_layer_fills_rect() {
    let mut surface = Surface::new();
    BackgroundLayer.draw(&EquirectangularProjection::new(), 10, 20, 30, 40, &mut surface);
    assert_eq!(surface.primitives()[0].color, GREEN);
    assert_eq!(vertices(&surface, 0), vec![pt(10, 20), pt(10, 60), pt(40, 60), pt(40, 20)]);
}

#[test]
fn zero_sized_rect_is_tolerated() {
    let mut surface = Surface::new();
    BackgroundLayer.draw(&EquirectangularProjection::new(), 5, 5, 0, 0, &mut surface);
    assert_eq!(vertices(&surface, 0), vec![pt(5, 5), pt(5, 5), pt(5, 5), pt(5, 5)]);
}

#[test]
fn layers_have_no_bounds() {
    assert_eq!(BackgroundLayer.bounds(), None);
    assert_eq!(TestLayer.bounds(), None);
    assert_eq!(WorldLayer::new().bounds(), None);
    assert_eq!(StockLayer::World(WorldLayer::new()).bounds(), None);
}

#[test]
fn empty_map_draws_nothing() {
    let map: LayeredMap<StockLayer> = LayeredMap::new(EquirectangularProjection::new());
    let mut surface = Surface::new();
    map.draw(0, 0, 300, 500, &mut surface);
    assert_eq!(surface.len(), 0);
    assert_eq!(map.layer_count(), 0);
}

#[test]
fn map_draws_layers_in_registration_order() {
    let mut map = LayeredMap::new(EquirectangularProjection::new());
    map.add_layer(StockLayer::Test(TestLayer));
    map.add_layer(StockLayer::Background(BackgroundLayer));
    map.add_layer(StockLayer::World(WorldLayer::new()));
    assert_eq!(map.layer_count(), 3);
    let mut surface = Surface::new();
    map.draw(0, 0, 10, 10, &mut surface);
    let colors: Vec<Color> = surface.primitives().iter().map(|p| p.color).collect();
    assert_eq!(colors, vec![BLUE, GREEN, SKY]);
}

#[test]
fn first_added_layer_precedes_second() {
    let mut map = LayeredMap::new(EquirectangularProjection::new());
    map.add_layer(StockLayer::World(WorldLayer::new()));
    map.add_layer(StockLayer::Test(TestLayer));
    let mut surface = Surface::new();
    map.draw(0, 0, 300, 500, &mut surface);
    assert_eq!(surface.len(), 2);
    assert_eq!(surface.primitives()[0].color, SKY);
    assert_eq!(surface.primitives()[1].color, BLUE);
    assert_eq!(vertices(&surface, 0), vec![pt(-180, -90), pt(-180, 90), pt(180, 90), pt(180, -90)]);
}

#[test]
fn map_keeps_its_projection() {
    let p = EquirectangularProjection::fit(300, 500);
    let mut map = LayeredMap::new(p);
    map.add_layer(StockLayer::Test(TestLayer));
    assert_eq!(*map.projection(), p);
}

#[test]
fn terrain_window_frame() {
    let map = terrain_map();
    let mut surface = Surface::new();
    draw_window(&map, 100, 1000, 400, 600, &mut surface);
    assert_eq!(surface.len(), 3);
    assert_eq!(surface.primitives()[0].color, GREEN);
    assert_eq!(vertices(&surface, 0), vec![pt(100, 600), pt(100, 1000), pt(400, 1000), pt(400, 600)]);
    assert_eq!(surface.primitives()[1].color, SKY);
    assert_eq!(vertices(&surface, 1), vec![pt(-80, 510), pt(-80, 690), pt(280, 690), pt(280, 510)]);
    assert_eq!(surface.primitives()[2].color, BLUE);
    assert_eq!(vertices(&surface, 2), vec![pt(-23, 637), pt(-23, 647), pt(99, 651), pt(96, 640)]);
}

#[test]
fn latitude_range_is_checked() {
    assert_eq!(Latitude::new(90_000_000), Ok(Latitude(90_000_000)));
    assert_eq!(Latitude::new(-90_000_000), Ok(Latitude(-90_000_000)));
    assert_eq!(Latitude::new(90_000_001), Err(GeographicRangeError::LatitudeOutOfRange));
}

#[test]
fn longitude_range_is_checked() {
    assert_eq!(Longitude::new(180_000_000), Ok(Longitude(180_000_000)));
    assert_eq!(Longitude::new(-180_000_001), Err(GeographicRangeError::LongitudeOutOfRange));
}

#[test]
fn lat_lon_checks_latitude_first() {
    assert_eq!(LatLon::new(1, 2), Ok(ll(1, 2)));
    assert_eq!(LatLon::new(0, 180_000_001), Err(GeographicRangeError::LongitudeOutOfRange));
    assert_eq!(LatLon::new(-90_000_001, 200_000_000), Err(GeographicRangeError::LatitudeOutOfRange));
}

#[test]
fn axis_scale_bounds() {
    assert_eq!(AxisScale::new(1, 0, 1), Some(AxisScale { num: 1, offset: 0, den: 1 }));
    assert_eq!(AxisScale::new(1, 0, 0), None);
    assert_eq!(AxisScale::new(0x8000_0001, 0, 1), None);
    let s = AxisScale::new(3, 7, 2).unwrap();
    assert_eq!(s.apply_to(5), 11);
    assert_eq!(s.apply_to(-5), -4);
}
