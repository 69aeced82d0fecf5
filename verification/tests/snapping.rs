use coord_picker::app::{CoordinatePickerApp, ResolutionPreset};
use coord_picker::geom::Point;

/// A session showing an 800x600 canvas with a 20 pixel grid, snapping on.
fn session() -> CoordinatePickerApp {
    let mut app = CoordinatePickerApp::new();
    app.ui_state.selected_resolution = ResolutionPreset::Custom;
    app.ui_state.custom_width = 800_000;
    app.ui_state.custom_height = 600_000;
    app.update_canvas_resolution();
    app.grid.set_size(20_000);
    app.grid.set_snapping(true);
    app
}

#[test]
fn near_left_top_edge_snaps_to_zero() {
    let app = session();
    assert_eq!(app.apply_grid_snapping(Point::new(3_000, 3_000)), Point::new(0, 0));
}

#[test]
fn near_right_edge_snaps_to_width() {
    let app = session();
    assert_eq!(
        app.apply_grid_snapping(Point::new(795_000, 300_000)),
        Point::new(800_000, 300_000)
    );
}

#[test]
fn near_bottom_edge_snaps_to_height() {
    let app = session();
    assert_eq!(
        app.apply_grid_snapping(Point::new(300_000, 595_000)),
        Point::new(300_000, 600_000)
    );
}

#[test]
fn interior_points_snap_to_nearest_intersection() {
    let app = session();
    assert_eq!(app.apply_grid_snapping(Point::new(37_000, 41_000)), Point::new(40_000, 40_000));
    assert_eq!(app.apply_grid_snapping(Point::new(29_999, 50_001)), Point::new(20_000, 60_000));
    assert_eq!(app.apply_grid_snapping(Point::new(400_000, 300_000)), Point::new(400_000, 300_000));
}

#[test]
fn both_edges_snap_independently() {
    let app = session();
    assert_eq!(app.apply_grid_snapping(Point::new(3_000, 595_000)), Point::new(0, 600_000));
    assert_eq!(app.apply_grid_snapping(Point::new(795_000, 3_000)), Point::new(800_000, 0));
}

#[test]
fn snapping_disabled_passes_points_through() {
    let mut app = session();
    app.grid.set_snapping(false);
    assert_eq!(app.apply_grid_snapping(Point::new(37_123, 41_987)), Point::new(37_123, 41_987));
}

#[test]
fn grid_settings_round_trip() {
    let mut app = session();
    assert_eq!(app.grid.get_size(), 20_000);
    assert!(app.grid.is_snapping_enabled());
    app.grid.set_visible(false);
    assert!(!app.grid.is_visible());
    app.grid.set_size(45_000);
    assert_eq!(app.grid.get_size(), 45_000);
}
