use coord_picker::coordinate::CoordinateSystem;
use coord_picker::geom::Point;

#[test]
fn top_left_origin_is_identity() {
    let mut cs = CoordinateSystem::new(true);
    cs.update_canvas_height(600_000);
    assert_eq!(cs.to_system_coordinates(Point::new(10_000, 20_000)), Point::new(10_000, 20_000));
    assert_eq!(cs.from_system_coordinates(Point::new(10_000, 20_000)), Point::new(10_000, 20_000));
}

#[test]
fn bottom_left_origin_flips_y() {
    let mut cs = CoordinateSystem::new(true);
    cs.update_canvas_height(600_000);
    cs.set_origin_top_left(false);
    assert!(!cs.is_origin_top_left());
    assert_eq!(cs.to_system_coordinates(Point::new(10_000, 20_000)), Point::new(10_000, 580_000));
    assert_eq!(cs.from_system_coordinates(Point::new(10_000, 580_000)), Point::new(10_000, 20_000));
}

#[test]
fn conversion_round_trips_under_both_conventions() {
    let samples: [Point; 4] = [
        Point::new(0, 0),
        Point::new(10_000, 20_000),
        Point::new(799_999, 600_000),
        Point::new(123_456, -50_000),
    ];
    for origin_top_left in [true, false] {
        let mut cs = CoordinateSystem::new(origin_top_left);
        cs.update_canvas_height(600_000);
        for p in samples {
            assert_eq!(cs.from_system_coordinates(cs.to_system_coordinates(p)), p);
            assert_eq!(cs.to_system_coordinates(cs.from_system_coordinates(p)), p);
        }
    }
}

#[test]
fn default_height_tracks_updates() {
    let mut cs = CoordinateSystem::new(false);
    assert_eq!(cs.to_system_coordinates(Point::new(0, 80_000)), Point::new(0, 1_000_000));
    cs.update_canvas_height(844_000);
    assert_eq!(cs.to_system_coordinates(Point::new(0, 80_000)), Point::new(0, 764_000));
}
