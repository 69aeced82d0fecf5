use coord_picker::app::{
    CoordinatePickerApp, ResolutionPreset, marker_line, position_text, to_px,
};
use coord_picker::geom::{Point, Rect};
use coord_picker::marker::{Marker, RgbColor};
use coord_picker::text::i64_text;

fn view() -> Rect {
    Rect::new(Point::new(0, 0), Point::new(1_000_000, 1_000_000))
}

#[test]
fn decimal_text_concrete() {
    assert_eq!(i64_text(0), "0");
    assert_eq!(i64_text(7), "7");
    assert_eq!(i64_text(42), "42");
    assert_eq!(i64_text(1_234_567), "1234567");
    assert_eq!(i64_text(-7), "-7");
    assert_eq!(i64_text(-1080), "-1080");
}

#[test]
fn pixel_truncation_matches_casting() {
    assert_eq!(to_px(550_123), 550);
    assert_eq!(to_px(550_999), 550);
    assert_eq!(to_px(-1_500), -1);
    assert_eq!(to_px(-500), 0);
    assert_eq!(to_px(0), 0);
}

#[test]
fn position_text_concrete() {
    assert_eq!(position_text(Point::new(550_123, -1_500)), "(550, -1)");
    assert_eq!(position_text(Point::new(0, 600_000)), "(0, 600)");
}

#[test]
fn marker_line_is_one_indexed() {
    let m = Marker::new(
        Point::new(50_000, 50_000),
        Point::new(50_000, 550_000),
        RgbColor::new(0, 120, 255),
    );
    assert_eq!(marker_line(0, &m), "1. (50, 550)");
    assert_eq!(marker_line(11, &m), "12. (50, 550)");
}

#[test]
fn copy_all_joins_lines_with_newlines() {
    let mut app = CoordinatePickerApp::new();
    app.ui_state.selected_resolution = ResolutionPreset::Custom;
    app.ui_state.custom_width = 800_000;
    app.ui_state.custom_height = 600_000;
    app.update_canvas_resolution();
    app.grid.set_snapping(false);
    assert_eq!(app.all_marker_lines(), "");
    let first = app.canvas.canvas_to_screen_pos(Point::new(50_000, 50_000), view());
    let second = app.canvas.canvas_to_screen_pos(Point::new(200_000, 100_000), view());
    app.primary_click(first, view());
    app.primary_click(second, view());
    assert_eq!(app.all_marker_lines(), "1. (50, 50)\n2. (200, 100)");
}

#[test]
fn current_position_follows_hover() {
    let mut app = CoordinatePickerApp::new();
    app.ui_state.selected_resolution = ResolutionPreset::Custom;
    app.ui_state.custom_width = 800_000;
    app.ui_state.custom_height = 600_000;
    app.update_canvas_resolution();
    app.grid.set_size(20_000);
    app.grid.set_snapping(true);
    let at = app.canvas.canvas_to_screen_pos(Point::new(37_000, 41_000), view());
    app.hover_event(at, view());
    assert_eq!(app.ui_state.current_position, Point::new(40_000, 40_000));
    assert_eq!(app.ui_state.current_position_raw, Point::new(37_000, 41_000));
    assert_eq!(app.current_position_text(), "(40, 40)");
}

#[test]
fn hover_reports_display_coordinates() {
    let mut app = CoordinatePickerApp::new();
    app.ui_state.selected_resolution = ResolutionPreset::Custom;
    app.ui_state.custom_width = 800_000;
    app.ui_state.custom_height = 600_000;
    app.update_canvas_resolution();
    app.grid.set_snapping(false);
    app.set_origin_top_left(false);
    let at = app.canvas.canvas_to_screen_pos(Point::new(100_000, 100_000), view());
    app.hover_event(at, view());
    assert_eq!(app.ui_state.current_position, Point::new(100_000, 500_000));
}
