use coord_picker::canvas::{Canvas, ZOOM_DEFAULT, ZOOM_MAX, ZOOM_MIN};
use coord_picker::geom::{Point, Rect};

fn view() -> Rect {
    Rect::new(Point::new(0, 0), Point::new(1_000_000, 1_000_000))
}

#[test]
fn fresh_canvas_state() {
    let c = Canvas::new(800_000, 600_000);
    assert_eq!(c.get_size(), (800_000, 600_000));
    assert_eq!(c.get_width(), 800_000);
    assert_eq!(c.get_height(), 600_000);
    assert_eq!(c.get_offset(), Point::new(0, 0));
    assert_eq!(c.get_zoom(), ZOOM_DEFAULT);
    assert_eq!(c.zoom_percent(), 50);
}

#[test]
fn screen_rect_is_centered_and_scaled() {
    let c = Canvas::new(800_000, 600_000);
    let r = c.get_screen_rect(view());
    assert_eq!(r.min, Point::new(300_000, 350_000));
    assert_eq!(r.max, Point::new(700_000, 650_000));
}

#[test]
fn screen_rect_follows_pan() {
    let mut c = Canvas::new(800_000, 600_000);
    c.pan(Point::new(10_000, -20_000));
    let r = c.get_screen_rect(view());
    assert_eq!(r.min, Point::new(310_000, 330_000));
    assert_eq!(r.max, Point::new(710_000, 630_000));
}

#[test]
fn screen_to_canvas_concrete() {
    let c = Canvas::new(800_000, 600_000);
    assert_eq!(c.screen_to_canvas_pos(Point::new(300_000, 350_000), view()), Point::new(0, 0));
    assert_eq!(
        c.screen_to_canvas_pos(Point::new(500_000, 500_000), view()),
        Point::new(400_000, 300_000)
    );
    assert_eq!(
        c.screen_to_canvas_pos(Point::new(700_000, 650_000), view()),
        Point::new(800_000, 600_000)
    );
}

#[test]
fn canvas_to_screen_concrete() {
    let c = Canvas::new(800_000, 600_000);
    assert_eq!(c.canvas_to_screen_pos(Point::new(0, 0), view()), Point::new(300_000, 350_000));
    assert_eq!(
        c.canvas_to_screen_pos(Point::new(400_000, 300_000), view()),
        Point::new(500_000, 500_000)
    );
}

#[test]
fn transform_round_trip_at_default_zoom() {
    let c = Canvas::new(800_000, 600_000);
    let samples: [Point; 4] = [
        Point::new(123_456, 654_321),
        Point::new(0, 0),
        Point::new(999_999, 1),
        Point::new(300_001, 349_999),
    ];
    for p in samples {
        let back = c.canvas_to_screen_pos(c.screen_to_canvas_pos(p, view()), view());
        assert_eq!(back, p);
    }
}

#[test]
fn transform_round_trip_stays_within_rounding_bound() {
    let mut c = Canvas::new(800_000, 600_000);
    for _ in 0..20 {
        c.zoom_at(1_100, Point::new(480_000, 410_000), view());
    }
    let z: i64 = c.get_zoom();
    assert!(z > 1_000);
    let samples: [Point; 3] = [
        Point::new(123_456, 654_321),
        Point::new(777_777, 444_444),
        Point::new(1_000, 999_000),
    ];
    for p in samples {
        let back = c.canvas_to_screen_pos(c.screen_to_canvas_pos(p, view()), view());
        let dx: i64 = (back.x - p.x).abs();
        let dy: i64 = (back.y - p.y).abs();
        assert!(2_000 * dx <= z + 1_000);
        assert!(2_000 * dy <= z + 1_000);
    }
}

#[test]
fn zoom_stays_clamped_over_any_sequence() {
    let mut c = Canvas::new(800_000, 600_000);
    for _ in 0..100 {
        c.zoom_at(1_100, Point::new(480_000, 410_000), view());
        assert!(c.get_zoom() >= ZOOM_MIN && c.get_zoom() <= ZOOM_MAX);
    }
    assert_eq!(c.get_zoom(), ZOOM_MAX);
    for _ in 0..100 {
        c.zoom_at(909, Point::new(480_000, 410_000), view());
        assert!(c.get_zoom() >= ZOOM_MIN && c.get_zoom() <= ZOOM_MAX);
    }
    assert_eq!(c.get_zoom(), ZOOM_MIN);
}

#[test]
fn zoom_at_scales_and_keeps_pivot_to_first_order() {
    let mut c = Canvas::new(800_000, 600_000);
    let v = Rect::new(Point::new(0, 0), Point::new(800_000, 600_000));
    c.zoom_at(1_100, Point::new(500_000, 400_000), v);
    assert_eq!(c.get_zoom(), 550);
    // offset -= (pivot - center) * (new - old) / old = (100000,100000)*50/500
    assert_eq!(c.get_offset(), Point::new(-10_000, -10_000));
}

#[test]
fn zoom_out_uses_inverse_step() {
    let mut c = Canvas::new(800_000, 600_000);
    let v = Rect::new(Point::new(0, 0), Point::new(800_000, 600_000));
    c.zoom_at(909, Point::new(400_000, 300_000), v);
    // 500 * 909 / 1000 rounds to 455; the pivot sits at the centre, so the
    // offset is untouched.
    assert_eq!(c.get_zoom(), 455);
    assert_eq!(c.get_offset(), Point::new(0, 0));
}

#[test]
fn pan_accumulates() {
    let mut c = Canvas::new(800_000, 600_000);
    c.pan(Point::new(5_000, -3_000));
    c.pan(Point::new(5_000, -3_000));
    assert_eq!(c.get_offset(), Point::new(10_000, -6_000));
}

#[test]
fn set_size_keeps_view() {
    let mut c = Canvas::new(800_000, 600_000);
    c.pan(Point::new(7_000, 9_000));
    c.zoom_at(1_100, Point::new(480_000, 410_000), view());
    let offset = c.get_offset();
    let zoom: i64 = c.get_zoom();
    c.set_size(1_920_000, 1_080_000);
    assert_eq!(c.get_size(), (1_920_000, 1_080_000));
    assert_eq!(c.get_offset(), offset);
    assert_eq!(c.get_zoom(), zoom);
}

#[test]
fn reset_view_restores_defaults_from_any_state() {
    let mut c = Canvas::new(800_000, 600_000);
    c.pan(Point::new(123_000, -456_000));
    for _ in 0..13 {
        c.zoom_at(1_100, Point::new(77_000, 33_000), view());
    }
    c.reset_view();
    assert_eq!(c.get_offset(), Point::new(0, 0));
    assert_eq!(c.get_zoom(), 500);
    assert_eq!(c.get_size(), (800_000, 600_000));
}
