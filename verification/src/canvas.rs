//! The viewport transform: a logical canvas of a chosen resolution, a pan
//! offset and a zoom factor, and the exact mapping between screen space and
//! canvas space.

use vstd::prelude::*;
use vstd::arithmetic::div_mod::{lemma_div_is_ordered, lemma_div_pos_is_pos};
use crate::geom::{
    Point, Rect, SCALE, MAX_COORD, MAX_DIM, MAX_CANVAS_COORD, rdiv, clamp_spec, mag, div_round,
    clamp_i64, lemma_rdiv_error, lemma_rdiv_multiple,
};

verus! {

/// Smallest zoom factor, in thousandths (a tenth).
pub const ZOOM_MIN: i64 = 100;

/// Largest zoom factor, in thousandths (tenfold).
pub const ZOOM_MAX: i64 = 10_000;

/// The zoom a fresh or reset view shows, in thousandths (a half).
pub const ZOOM_DEFAULT: i64 = 500;

/// A quotient lies within `[-m, m]` whenever the dividend lies within
/// `[-m * b, m * b]`.
pub proof fn lemma_rdiv_in_bounds(a: int, b: int, m: int)
    requires
        b >= 1,
        m >= 0,
        -(m * b) <= a <= m * b,
    ensures
        -m <= rdiv(a, b) <= m,
{
    lemma_rdiv_multiple(m, b);
    let h = b / 2;
    if a >= 0 {
        lemma_div_pos_is_pos(a + h, b);
        lemma_div_is_ordered(a + h, m * b + h, b);
        assert((m * b + h) / b == m) by {
            lemma_rdiv_multiple(m, b);
        }
    } else {
        lemma_div_pos_is_pos(-a + h, b);
        lemma_div_is_ordered(-a + h, m * b + h, b);
        assert((m * b + h) / b == m) by {
            lemma_rdiv_multiple(m, b);
        }
    }
}

/// The logical drawing surface and its view transform: paper size, pan
/// offset, zoom. All in milli-pixels; zoom in thousandths.
#[derive(Clone, Copy, PartialEq, Eq, Structural, Debug)]
pub struct Canvas {
    pub width: i64,
    pub height: i64,
    pub offset: Point,
    pub zoom: i64,
}

impl Canvas {
    /// Dimensions positive and bounded, zoom clamped, offset on screen range.
    pub open spec fn wf(self) -> bool {
        &&& 0 < self.width <= MAX_DIM
        &&& 0 < self.height <= MAX_DIM
        &&& ZOOM_MIN <= self.zoom <= ZOOM_MAX
        &&& self.offset.in_range_spec()
    }

    /// Left edge, on screen, of the drawn canvas: the view centre shifted by
    /// the pan offset, minus half the scaled canvas width.
    pub open spec fn screen_min_x(self, view: Rect) -> int {
        view.center_x() + self.offset.x - rdiv(self.width * self.zoom, 2 * SCALE)
    }

    pub open spec fn screen_min_y(self, view: Rect) -> int {
        view.center_y() + self.offset.y - rdiv(self.height * self.zoom, 2 * SCALE)
    }

    pub open spec fn screen_max_x(self, view: Rect) -> int {
        view.center_x() + self.offset.x + rdiv(self.width * self.zoom, 2 * SCALE)
    }

    pub open spec fn screen_max_y(self, view: Rect) -> int {
        view.center_y() + self.offset.y + rdiv(self.height * self.zoom, 2 * SCALE)
    }

    /// Canvas-space coordinate of a screen x: the distance from the drawn
    /// canvas's left edge, unscaled by the zoom.
    pub open spec fn canvas_x_of_screen(self, sx: int, view: Rect) -> int {
        rdiv((sx - self.screen_min_x(view)) * SCALE, self.zoom as int)
    }

    pub open spec fn canvas_y_of_screen(self, sy: int, view: Rect) -> int {
        rdiv((sy - self.screen_min_y(view)) * SCALE, self.zoom as int)
    }

    /// Screen coordinate of a canvas-space x: the left edge plus the scaled
    /// distance.
    pub open spec fn screen_x_of_canvas(self, cx: int, view: Rect) -> int {
        self.screen_min_x(view) + rdiv(cx * self.zoom, SCALE as int)
    }

    pub open spec fn screen_y_of_canvas(self, cy: int, view: Rect) -> int {
        self.screen_min_y(view) + rdiv(cy * self.zoom, SCALE as int)
    }

    /// A fresh canvas of the given size, unpanned, at the default zoom.
    pub fn new(width: i64, height: i64) -> (c: Canvas)
        requires
            0 < width <= MAX_DIM,
            0 < height <= MAX_DIM,
        ensures
            c.width == width,
            c.height == height,
            c.offset.x == 0,
            c.offset.y == 0,
            c.zoom == ZOOM_DEFAULT,
            c.wf(),
    {
        Canvas { width, height, offset: Point { x: 0, y: 0 }, zoom: ZOOM_DEFAULT }
    }

    /// Replaces the paper size; pan and zoom are untouched.
    pub fn set_size(&mut self, width: i64, height: i64)
        requires
            old(self).wf(),
            0 < width <= MAX_DIM,
            0 < height <= MAX_DIM,
        ensures
            final(self).width == width,
            final(self).height == height,
            final(self).offset == old(self).offset,
            final(self).zoom == old(self).zoom,
            final(self).wf(),
    {
        self.width = width;
        self.height = height;
    }

    pub fn get_size(&self) -> (r: (i64, i64))
        ensures
            r.0 == self.width,
            r.1 == self.height,
    {
        (self.width, self.height)
    }

    pub fn get_width(&self) -> (w: i64)
        ensures
            w == self.width,
    {
        self.width
    }

    pub fn get_height(&self) -> (h: i64)
        ensures
            h == self.height,
    {
        self.height
    }

    /// Shifts the pan offset by `delta`. Panning is unbounded in intent; the
    /// stored offset saturates at the coordinate range.
    pub fn pan(&mut self, delta: Point)
        requires
            old(self).wf(),
            delta.in_range_spec(),
        ensures
            final(self).offset.x == clamp_spec(
                old(self).offset.x + delta.x,
                -MAX_COORD as int,
                MAX_COORD as int,
            ),
            final(self).offset.y == clamp_spec(
                old(self).offset.y + delta.y,
                -MAX_COORD as int,
                MAX_COORD as int,
            ),
            final(self).width == old(self).width,
            final(self).height == old(self).height,
            final(self).zoom == old(self).zoom,
            final(self).wf(),
    {
        let x = clamp_i64(self.offset.x + delta.x, -MAX_COORD, MAX_COORD);
        let y = clamp_i64(self.offset.y + delta.y, -MAX_COORD, MAX_COORD);
        self.offset = Point { x, y };
    }

    /// Rescales the zoom by `factor` (in thousandths), clamped to the zoom
    /// range, then shifts the offset so that the canvas point under `pos`
    /// stays under it, to first order: the offset moves back by the pivot's
    /// distance from the view centre times the relative zoom change.
    pub fn zoom_at(&mut self, factor: i64, pos: Point, view_rect: Rect)
        requires
            old(self).wf(),
            0 <= factor <= 1_000_000_000,
            pos.in_range_spec(),
            view_rect.wf(),
        ensures
            final(self).zoom == clamp_spec(
                rdiv(old(self).zoom * factor, SCALE as int),
                ZOOM_MIN as int,
                ZOOM_MAX as int,
            ),
            ZOOM_MIN <= final(self).zoom <= ZOOM_MAX,
            final(self).offset.x == clamp_spec(
                old(self).offset.x - rdiv(
                    (pos.x - view_rect.center_x()) * (final(self).zoom - old(self).zoom),
                    old(self).zoom as int,
                ),
                -MAX_COORD as int,
                MAX_COORD as int,
            ),
            final(self).offset.y == clamp_spec(
                old(self).offset.y - rdiv(
                    (pos.y - view_rect.center_y()) * (final(self).zoom - old(self).zoom),
                    old(self).zoom as int,
                ),
                -MAX_COORD as int,
                MAX_COORD as int,
            ),
            final(self).width == old(self).width,
            final(self).height == old(self).height,
            final(self).wf(),
    {
        let old_zoom = self.zoom;
        proof {
            assert(old_zoom * factor <= 10_000 * 1_000_000_000) by (nonlinear_arith)
                requires
                    0 < old_zoom <= 10_000,
                    0 <= factor <= 1_000_000_000,
            ;
            assert(old_zoom * factor >= 0) by (nonlinear_arith)
                requires
                    old_zoom >= 0,
                    factor >= 0,
            ;
        }
        let new_zoom = clamp_i64(div_round(old_zoom * factor, SCALE), ZOOM_MIN, ZOOM_MAX);
        self.zoom = new_zoom;

        let center = view_rect.center();
        proof {
            lemma_rdiv_in_bounds(
                view_rect.min.x + view_rect.max.x,
                2,
                MAX_COORD as int,
            );
            lemma_rdiv_in_bounds(
                view_rect.min.y + view_rect.max.y,
                2,
                MAX_COORD as int,
            );
        }
        let mox = pos.x - center.x;
        let moy = pos.y - center.y;
        let dz = new_zoom - old_zoom;
        proof {
            assert(mag(mox as int * dz) <= 3_000_000_000_000 * 10_000) by (nonlinear_arith)
                requires
                    -3_000_000_000_000 <= mox <= 3_000_000_000_000,
                    -10_000 <= dz <= 10_000,
            ;
            assert(mag(moy as int * dz) <= 3_000_000_000_000 * 10_000) by (nonlinear_arith)
                requires
                    -3_000_000_000_000 <= moy <= 3_000_000_000_000,
                    -10_000 <= dz <= 10_000,
            ;
            assert(3_000_000_000_000 * 10_000 <= 300_000_000_000_000 * old_zoom)
                by (nonlinear_arith)
                requires
                    old_zoom >= 100,
            ;
            lemma_rdiv_in_bounds(mox as int * dz, old_zoom as int, 300_000_000_000_000);
            lemma_rdiv_in_bounds(moy as int * dz, old_zoom as int, 300_000_000_000_000);
        }
        let sx = div_round(mox * dz, old_zoom);
        let sy = div_round(moy * dz, old_zoom);
        let x = clamp_i64(self.offset.x - sx, -MAX_COORD, MAX_COORD);
        let y = clamp_i64(self.offset.y - sy, -MAX_COORD, MAX_COORD);
        self.offset = Point { x, y };
    }

    /// Back to the unpanned view at the default zoom; the paper size stays.
    pub fn reset_view(&mut self)
        ensures
            final(self).offset.x == 0,
            final(self).offset.y == 0,
            final(self).zoom == ZOOM_DEFAULT,
            final(self).width == old(self).width,
            final(self).height == old(self).height,
            old(self).wf() ==> final(self).wf(),
    {
        self.offset = Point { x: 0, y: 0 };
        self.zoom = ZOOM_DEFAULT;
    }

    pub fn get_offset(&self) -> (o: Point)
        ensures
            o == self.offset,
    {
        self.offset
    }

    pub fn get_zoom(&self) -> (z: i64)
        ensures
            z == self.zoom,
    {
        self.zoom
    }

    /// The zoom as the whole percentage the header shows.
    pub fn zoom_percent(&self) -> (p: i64)
        requires
            self.wf(),
        ensures
            p == self.zoom / 10,
    {
        ((self.zoom as u64) / 10) as i64
    }

    /// The on-screen rectangle the canvas occupies: centred at the view
    /// centre shifted by the offset, extending half the scaled size each way.
    pub fn get_screen_rect(&self, view_rect: Rect) -> (r: Rect)
        requires
            self.wf(),
            view_rect.wf(),
        ensures
            r.min.x == self.screen_min_x(view_rect),
            r.min.y == self.screen_min_y(view_rect),
            r.max.x == self.screen_max_x(view_rect),
            r.max.y == self.screen_max_y(view_rect),
            r.min.x <= r.max.x,
            r.min.y <= r.max.y,
            mag(r.min.x as int) <= 3 * MAX_COORD,
            mag(r.min.y as int) <= 3 * MAX_COORD,
            mag(r.max.x as int) <= 3 * MAX_COORD,
            mag(r.max.y as int) <= 3 * MAX_COORD,
    {
        let center = view_rect.center();
        proof {
            lemma_rdiv_in_bounds(view_rect.min.x + view_rect.max.x, 2, MAX_COORD as int);
            lemma_rdiv_in_bounds(view_rect.min.y + view_rect.max.y, 2, MAX_COORD as int);
            assert(0 <= self.width * self.zoom <= 50_000_000 * (2 * SCALE)) by (nonlinear_arith)
                requires
                    0 < self.width <= MAX_DIM,
                    0 < self.zoom <= ZOOM_MAX,
            ;
            assert(0 <= self.height * self.zoom <= 50_000_000 * (2 * SCALE)) by (nonlinear_arith)
                requires
                    0 < self.height <= MAX_DIM,
                    0 < self.zoom <= ZOOM_MAX,
            ;
            lemma_rdiv_in_bounds(self.width * self.zoom, 2 * SCALE, 50_000_000);
            lemma_rdiv_in_bounds(self.height * self.zoom, 2 * SCALE, 50_000_000);
            lemma_div_pos_is_pos(self.width * self.zoom + SCALE, 2 * SCALE);
            lemma_div_pos_is_pos(self.height * self.zoom + SCALE, 2 * SCALE);
        }
        let half_w = div_round(self.width * self.zoom, 2 * SCALE);
        let half_h = div_round(self.height * self.zoom, 2 * SCALE);
        let cx = center.x + self.offset.x;
        let cy = center.y + self.offset.y;
        Rect {
            min: Point { x: cx - half_w, y: cy - half_h },
            max: Point { x: cx + half_w, y: cy + half_h },
        }
    }

    /// Inverse view transform: where a screen pixel lands in canvas space.
    pub fn screen_to_canvas_pos(&self, screen_pos: Point, view_rect: Rect) -> (r: Point)
        requires
            self.wf(),
            view_rect.wf(),
            screen_pos.in_range_spec(),
        ensures
            r.x == self.canvas_x_of_screen(screen_pos.x as int, view_rect),
            r.y == self.canvas_y_of_screen(screen_pos.y as int, view_rect),
            r.in_canvas_range_spec(),
    {
        let screen_rect = self.get_screen_rect(view_rect);
        let dx = screen_pos.x - screen_rect.min.x;
        let dy = screen_pos.y - screen_rect.min.y;
        proof {
            assert(mag(dx as int * SCALE) <= MAX_CANVAS_COORD * self.zoom) by (nonlinear_arith)
                requires
                    -4_000_000_000_000 <= dx <= 4_000_000_000_000,
                    100 <= self.zoom,
            ;
            assert(mag(dy as int * SCALE) <= MAX_CANVAS_COORD * self.zoom) by (nonlinear_arith)
                requires
                    -4_000_000_000_000 <= dy <= 4_000_000_000_000,
                    100 <= self.zoom,
            ;
            lemma_rdiv_in_bounds(dx as int * SCALE, self.zoom as int, MAX_CANVAS_COORD as int);
            lemma_rdiv_in_bounds(dy as int * SCALE, self.zoom as int, MAX_CANVAS_COORD as int);
        }
        let x = div_round(dx * SCALE, self.zoom);
        let y = div_round(dy * SCALE, self.zoom);
        Point { x, y }
    }

    /// Forward view transform: where a canvas-space point lands on screen.
    pub fn canvas_to_screen_pos(&self, canvas_pos: Point, view_rect: Rect) -> (r: Point)
        requires
            self.wf(),
            view_rect.wf(),
            canvas_pos.in_canvas_range_spec(),
        ensures
            r.x == self.screen_x_of_canvas(canvas_pos.x as int, view_rect),
            r.y == self.screen_y_of_canvas(canvas_pos.y as int, view_rect),
    {
        let screen_rect = self.get_screen_rect(view_rect);
        proof {
            assert(mag(canvas_pos.x as int * self.zoom) <= 1_000_000_000_000_000 * SCALE)
                by (nonlinear_arith)
                requires
                    -MAX_CANVAS_COORD <= canvas_pos.x <= MAX_CANVAS_COORD,
                    0 < self.zoom <= ZOOM_MAX,
            ;
            assert(mag(canvas_pos.y as int * self.zoom) <= 1_000_000_000_000_000 * SCALE)
                by (nonlinear_arith)
                requires
                    -MAX_CANVAS_COORD <= canvas_pos.y <= MAX_CANVAS_COORD,
                    0 < self.zoom <= ZOOM_MAX,
            ;
            lemma_rdiv_in_bounds(
                canvas_pos.x as int * self.zoom,
                SCALE as int,
                1_000_000_000_000_000,
            );
            lemma_rdiv_in_bounds(
                canvas_pos.y as int * self.zoom,
                SCALE as int,
                1_000_000_000_000_000,
            );
        }
        let x = screen_rect.min.x + div_round(canvas_pos.x * self.zoom, SCALE);
        let y = screen_rect.min.y + div_round(canvas_pos.y * self.zoom, SCALE);
        Point { x, y }
    }
}

/// One axis of the round trip: mapping a screen coordinate into canvas space
/// and back moves it by at most half a milli-pixel plus half the zoom's worth
/// of one milli-pixel.
proof fn lemma_axis_round_trip(minv: int, z: int, sx: int)
    requires
        z >= 1,
    ensures
        2 * SCALE * mag(minv + rdiv(rdiv((sx - minv) * SCALE, z) * z, SCALE as int) - sx)
            <= z + SCALE,
{
    let d = (sx - minv) * SCALE;
    let q = rdiv(d, z);
    let r = rdiv(q * z, SCALE as int);
    lemma_rdiv_error(d, z);
    lemma_rdiv_error(q * z, SCALE as int);
    let e = minv + r - sx;
    assert(SCALE * e == r * SCALE - d);
    assert(2 * (SCALE * e) == 2 * (r * (SCALE as int) - q * z) + 2 * (q * z - d));
    assert(-(z + SCALE) <= 2 * (SCALE * e) <= z + SCALE);
    let me = mag(e);
    assert(me == if e >= 0 { e } else { -e });
    assert(2 * SCALE * me <= z + SCALE) by (nonlinear_arith)
        requires
            -(z + SCALE) <= 2 * (SCALE * e),
            2 * (SCALE * e) <= z + SCALE,
            me == (if e >= 0 { e } else { -e }),
            SCALE == 1000,
    ;
}

/// Projecting a screen point into canvas space and back returns to within
/// half a pixel's worth of rounding: the displacement, in milli-pixels,
/// satisfies `2000 * |displacement| <= zoom + 1000`, so it is at most five
/// milli-pixels over the whole zoom range.
pub proof fn lemma_transform_round_trip(c: Canvas, view: Rect, sx: int, sy: int)
    requires
        c.wf(),
    ensures
        2 * SCALE * mag(
            c.screen_x_of_canvas(c.canvas_x_of_screen(sx, view), view) - sx,
        ) <= c.zoom + SCALE,
        2 * SCALE * mag(
            c.screen_y_of_canvas(c.canvas_y_of_screen(sy, view), view) - sy,
        ) <= c.zoom + SCALE,
{
    lemma_axis_round_trip(c.screen_min_x(view), c.zoom as int, sx);
    lemma_axis_round_trip(c.screen_min_y(view), c.zoom as int, sy);
}

} // verus!
