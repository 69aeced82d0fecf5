use coord_picker::app::{CoordinatePickerApp, ResolutionPreset};
use coord_picker::geom::{Point, Rect};
use coord_picker::marker::{Marker, RgbColor};

fn view() -> Rect {
    Rect::new(Point::new(0, 0), Point::new(1_000_000, 1_000_000))
}

/// A session showing an 800x600 canvas, snapping off. At the default zoom of
/// a half the canvas occupies [300, 700] x [350, 650] on screen (pixels), so
/// canvas point (cx, cy) sits at screen (300 + cx / 2, 350 + cy / 2).
fn session() -> CoordinatePickerApp {
    let mut app = CoordinatePickerApp::new();
    app.ui_state.selected_resolution = ResolutionPreset::Custom;
    app.ui_state.custom_width = 800_000;
    app.ui_state.custom_height = 600_000;
    app.update_canvas_resolution();
    app.grid.set_snapping(false);
    app
}

fn screen_of(app: &CoordinatePickerApp, canvas_pos: Point) -> Point {
    app.canvas.canvas_to_screen_pos(canvas_pos, view())
}

#[test]
fn click_outside_canvas_bounds_places_no_marker() {
    let mut app = session();
    // Canvas-space (850, 300) lies right of the 800-wide canvas, so the
    // click falls outside the drawn rectangle.
    app.primary_click(Point::new(725_000, 500_000), view());
    assert_eq!(app.markers.len(), 0);
}

#[test]
fn click_on_boundary_places_marker_inclusively() {
    let mut app = session();
    // Screen (700, 500) maps to canvas-space (800, 300), exactly on the
    // right edge: the bound is inclusive.
    app.primary_click(Point::new(700_000, 500_000), view());
    assert_eq!(app.markers.len(), 1);
    assert_eq!(app.markers[0].position, Point::new(800_000, 300_000));
    assert_eq!(app.markers[0].system_position, Point::new(800_000, 300_000));
}

#[test]
fn snapped_click_cannot_leave_canvas() {
    let mut app = session();
    app.grid.set_size(20_000);
    app.grid.set_snapping(true);
    // Screen (699, 501) maps to canvas (798, 302), which snaps to (800, 300).
    app.primary_click(Point::new(699_000, 501_000), view());
    assert_eq!(app.markers.len(), 1);
    assert_eq!(app.markers[0].position, Point::new(800_000, 300_000));
}

#[test]
fn marker_takes_the_chosen_color() {
    let mut app = session();
    app.ui_state.marker_color = RgbColor::new(10, 20, 30);
    let at = screen_of(&app, Point::new(100_000, 100_000));
    app.primary_click(at, view());
    assert_eq!(app.markers[0].color, RgbColor::new(10, 20, 30));
}

#[test]
fn removal_by_proximity_hits_within_ten_pixels() {
    let mut app = session();
    let at = screen_of(&app, Point::new(100_000, 100_000));
    app.primary_click(at, view());
    assert_eq!(app.markers.len(), 1);
    // Distance sqrt(25 + 9) is below ten pixels: removed.
    app.remove_nearby_marker(Point::new(105_000, 103_000));
    assert_eq!(app.markers.len(), 0);
}

#[test]
fn removal_by_proximity_misses_beyond_ten_pixels() {
    let mut app = session();
    let at = screen_of(&app, Point::new(100_000, 100_000));
    app.primary_click(at, view());
    // Distance sqrt(400 + 400) is about 28 pixels: kept.
    app.remove_nearby_marker(Point::new(120_000, 120_000));
    assert_eq!(app.markers.len(), 1);
}

#[test]
fn removal_takes_first_marker_in_insertion_order() {
    let mut app = session();
    app.primary_click(screen_of(&app, Point::new(100_000, 100_000)), view());
    app.primary_click(screen_of(&app, Point::new(104_000, 100_000)), view());
    app.remove_nearby_marker(Point::new(102_000, 100_000));
    assert_eq!(app.markers.len(), 1);
    assert_eq!(app.markers[0].position, Point::new(104_000, 100_000));
}

#[test]
fn secondary_click_removes_through_the_transform() {
    let mut app = session();
    app.primary_click(screen_of(&app, Point::new(100_000, 100_000)), view());
    app.secondary_click(screen_of(&app, Point::new(105_000, 103_000)), view());
    assert_eq!(app.markers.len(), 0);
}

#[test]
fn secondary_click_outside_canvas_is_ignored() {
    let mut app = session();
    app.primary_click(screen_of(&app, Point::new(100_000, 100_000)), view());
    app.secondary_click(Point::new(100_000, 100_000), view());
    assert_eq!(app.markers.len(), 1);
}

#[test]
fn origin_toggle_recalculates_and_restores_exactly() {
    let mut app = session();
    assert!(app.ui_state.recalculate_markers);
    app.primary_click(screen_of(&app, Point::new(50_000, 50_000)), view());
    assert_eq!(app.markers[0].system_position, Point::new(50_000, 50_000));
    app.set_origin_top_left(false);
    assert_eq!(app.markers[0].position, Point::new(50_000, 50_000));
    assert_eq!(app.markers[0].system_position, Point::new(50_000, 550_000));
    app.set_origin_top_left(true);
    assert_eq!(app.markers[0].system_position, Point::new(50_000, 50_000));
}

#[test]
fn origin_toggle_without_recalculation_keeps_display_positions() {
    let mut app = session();
    app.ui_state.recalculate_markers = false;
    app.primary_click(screen_of(&app, Point::new(50_000, 50_000)), view());
    app.set_origin_top_left(false);
    assert!(!app.coordinate_system.is_origin_top_left());
    assert_eq!(app.markers[0].system_position, Point::new(50_000, 50_000));
}

#[test]
fn new_markers_follow_the_active_convention() {
    let mut app = session();
    app.set_origin_top_left(false);
    app.primary_click(screen_of(&app, Point::new(50_000, 50_000)), view());
    assert_eq!(app.markers[0].position, Point::new(50_000, 50_000));
    assert_eq!(app.markers[0].system_position, Point::new(50_000, 550_000));
}

#[test]
fn explicit_delete_by_index() {
    let mut app = session();
    app.primary_click(screen_of(&app, Point::new(100_000, 100_000)), view());
    app.primary_click(screen_of(&app, Point::new(200_000, 200_000)), view());
    app.primary_click(screen_of(&app, Point::new(300_000, 300_000)), view());
    app.remove_marker(1);
    assert_eq!(app.markers.len(), 2);
    assert_eq!(app.markers[0].position, Point::new(100_000, 100_000));
    assert_eq!(app.markers[1].position, Point::new(300_000, 300_000));
    // An out-of-range index is a no-op.
    app.remove_marker(5);
    assert_eq!(app.markers.len(), 2);
}

#[test]
fn clear_removes_everything() {
    let mut app = session();
    app.primary_click(screen_of(&app, Point::new(100_000, 100_000)), view());
    app.primary_click(screen_of(&app, Point::new(200_000, 200_000)), view());
    app.clear_markers();
    assert_eq!(app.markers.len(), 0);
}

#[test]
fn marker_new_stores_fields() {
    let m = Marker::new(
        Point::new(1_000, 2_000),
        Point::new(1_000, 598_000),
        RgbColor::new(1, 2, 3),
    );
    assert_eq!(m.position, Point::new(1_000, 2_000));
    assert_eq!(m.system_position, Point::new(1_000, 598_000));
    assert_eq!(m.color, RgbColor::new(1, 2, 3));
}
