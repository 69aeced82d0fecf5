//! The session controller: it owns the canvas, grid, origin convention and
//! markers, and decides what every pointer event does. The windowing shell
//! reads input and draws; every decision and every coordinate computation
//! happens here.

use vstd::prelude::*;
use crate::canvas::{Canvas, ZOOM_MAX, ZOOM_MIN, lemma_rdiv_in_bounds};
use crate::coordinate::CoordinateSystem;
use crate::geom::{
    MAX_CANVAS_COORD, MAX_COORD, MAX_DIM, Point, Rect, SCALE, clamp_spec, in_canvas_range,
    lemma_rdiv_error, rdiv,
};
use crate::grid::Grid;
use crate::marker::{Marker, RgbColor};
use crate::text::{dec_rep, i64_text, int_text, push_decimal};
use vstd::string::StringExecFns;

verus! {

/// One scroll notch up rescales the zoom by 1.1; one notch down by the
/// nearest thousandth of 1/1.1. Both in thousandths.
pub const ZOOM_STEP_UP: i64 = 1_100;

pub const ZOOM_STEP_DOWN: i64 = 909;

/// A right click removes the first marker within ten pixels of the click's
/// canvas-space position; stored in milli-pixels.
pub const REMOVE_THRESHOLD: i64 = 10_000;

/// The choices of the resolution selector. All but `Custom` carry fixed
/// dimensions; `Custom`'s are the user-edited ones held by the session.
#[derive(Clone, Copy, PartialEq, Eq, Structural, Debug)]
pub enum ResolutionPreset {
    Hd,
    FullHd,
    FourK,
    Iphone,
    Ipad,
    Custom,
}

impl ResolutionPreset {
    /// Fixed width in milli-pixels; zero marks `Custom`, which has none.
    pub open spec fn fixed_width_spec(self) -> int {
        match self {
            ResolutionPreset::Hd => 1_280_000,
            ResolutionPreset::FullHd => 1_920_000,
            ResolutionPreset::FourK => 3_840_000,
            ResolutionPreset::Iphone => 390_000,
            ResolutionPreset::Ipad => 810_000,
            ResolutionPreset::Custom => 0,
        }
    }

    pub open spec fn fixed_height_spec(self) -> int {
        match self {
            ResolutionPreset::Hd => 720_000,
            ResolutionPreset::FullHd => 1_080_000,
            ResolutionPreset::FourK => 2_160_000,
            ResolutionPreset::Iphone => 844_000,
            ResolutionPreset::Ipad => 1_080_000,
            ResolutionPreset::Custom => 0,
        }
    }

    /// The preset's fixed dimensions, `None` for `Custom`.
    pub fn fixed_size(&self) -> (r: Option<(i64, i64)>)
        ensures
            *self is Custom <==> r is None,
            r matches Some(wh) ==> wh.0 == self.fixed_width_spec() && wh.1
                == self.fixed_height_spec(),
    {
        match *self {
            ResolutionPreset::Hd => Some((1_280_000, 720_000)),
            ResolutionPreset::FullHd => Some((1_920_000, 1_080_000)),
            ResolutionPreset::FourK => Some((3_840_000, 2_160_000)),
            ResolutionPreset::Iphone => Some((390_000, 844_000)),
            ResolutionPreset::Ipad => Some((810_000, 1_080_000)),
            ResolutionPreset::Custom => None,
        }
    }

    /// The label the selector shows for this preset.
    pub fn label(&self) -> (s: &'static str)
        ensures
            match *self {
                ResolutionPreset::Hd => s@ == "HD (1280x720)"@,
                ResolutionPreset::FullHd => s@ == "Full HD (1920x1080)"@,
                ResolutionPreset::FourK => s@ == "4K (3840x2160)"@,
                ResolutionPreset::Iphone => s@ == "iPhone (390x844)"@,
                ResolutionPreset::Ipad => s@ == "iPad (810x1080)"@,
                ResolutionPreset::Custom => s@ == "Custom"@,
            },
    {
        match *self {
            ResolutionPreset::Hd => "HD (1280x720)",
            ResolutionPreset::FullHd => "Full HD (1920x1080)",
            ResolutionPreset::FourK => "4K (3840x2160)",
            ResolutionPreset::Iphone => "iPhone (390x844)",
            ResolutionPreset::Ipad => "iPad (810x1080)",
            ResolutionPreset::Custom => "Custom",
        }
    }
}

/// Everything the settings panel edits, plus the live cursor readout.
/// Positions are display-system coordinates in milli-pixels.
#[derive(Clone, Copy, PartialEq, Eq, Structural, Debug)]
pub struct UiState {
    pub selected_resolution: ResolutionPreset,
    pub custom_width: i64,
    pub custom_height: i64,
    pub show_grid: bool,
    pub grid_size: i64,
    pub enable_snapping: bool,
    pub origin_top_left: bool,
    pub marker_color: RgbColor,
    pub current_position: Point,
    pub current_position_raw: Point,
    pub dark_mode: bool,
    pub recalculate_markers: bool,
}

/// A cursor readout component: a canvas-range value passed through the Y
/// flip, so at most the canvas range widened by one canvas height.
pub open spec fn in_display_range(v: int) -> bool {
    -(MAX_CANVAS_COORD + MAX_DIM) <= v <= MAX_CANVAS_COORD + MAX_DIM
}

impl UiState {
    pub open spec fn wf(self) -> bool {
        &&& 0 < self.custom_width <= MAX_DIM
        &&& 0 < self.custom_height <= MAX_DIM
        &&& 0 < self.grid_size <= MAX_DIM
        &&& in_display_range(self.current_position.x as int)
        &&& in_display_range(self.current_position.y as int)
        &&& in_display_range(self.current_position_raw.x as int)
        &&& in_display_range(self.current_position_raw.y as int)
    }

    /// The settings a fresh session starts with: a Full HD canvas, a 45
    /// pixel grid shown and snapped to, top-left origin, dark theme, marker
    /// recalculation on.
    pub open spec fn default_spec() -> UiState {
        UiState {
            selected_resolution: ResolutionPreset::FullHd,
            custom_width: 1_920_000,
            custom_height: 1_080_000,
            show_grid: true,
            grid_size: 45_000,
            enable_snapping: true,
            origin_top_left: true,
            marker_color: RgbColor { r: 0, g: 120, b: 255 },
            current_position: Point { x: 0, y: 0 },
            current_position_raw: Point { x: 0, y: 0 },
            dark_mode: true,
            recalculate_markers: true,
        }
    }
}

impl Default for UiState {
    fn default() -> (s: UiState)
        ensures
            s == UiState::default_spec(),
            s.wf(),
    {
        UiState {
            selected_resolution: ResolutionPreset::FullHd,
            custom_width: 1_920_000,
            custom_height: 1_080_000,
            show_grid: true,
            grid_size: 45_000,
            enable_snapping: true,
            origin_top_left: true,
            marker_color: RgbColor { r: 0, g: 120, b: 255 },
            current_position: Point { x: 0, y: 0 },
            current_position_raw: Point { x: 0, y: 0 },
            dark_mode: true,
            recalculate_markers: true,
        }
    }
}

/// Placed markers sit inside the canvas bounds of their creation, and their
/// display position inside the canvas range widened by one canvas height.
pub open spec fn marker_in_bounds(m: Marker) -> bool {
    &&& 0 <= m.position.x <= MAX_DIM
    &&& 0 <= m.position.y <= MAX_DIM
    &&& -MAX_DIM <= m.system_position.x <= MAX_DIM
    &&& -MAX_DIM <= m.system_position.y <= MAX_DIM
}

/// Nearest grid multiple with the edge override: a coordinate within half a
/// cell of an edge goes exactly to that edge, so corners and edges stay
/// reachable.
pub open spec fn snap_axis(v: int, g: int, limit: int) -> int {
    if 2 * v < g {
        0
    } else if 2 * v > 2 * limit - g {
        limit
    } else {
        rdiv(v, g) * g
    }
}

/// Squared-distance proximity test for marker removal, strict at the
/// threshold.
pub open spec fn near_at(m: Marker, x: int, y: int) -> bool {
    (m.position.x - x) * (m.position.x - x) + (m.position.y - y) * (m.position.y - y)
        < REMOVE_THRESHOLD * REMOVE_THRESHOLD
}

/// The whole picking session.
pub struct CoordinatePickerApp {
    pub canvas: Canvas,
    pub grid: Grid,
    pub coordinate_system: CoordinateSystem,
    pub markers: Vec<Marker>,
    pub ui_state: UiState,
}

impl CoordinatePickerApp {
    pub open spec fn wf(self) -> bool {
        &&& self.canvas.wf()
        &&& self.grid.wf()
        &&& self.coordinate_system.wf()
        &&& self.ui_state.wf()
        &&& forall|i: int|
            0 <= i < self.markers@.len() ==> marker_in_bounds(#[trigger] self.markers@[i])
    }

    /// Grid and origin settings agree between the components and the panel
    /// state, as the constructor establishes.
    pub open spec fn settings_applied(self) -> bool {
        &&& self.grid.size == self.ui_state.grid_size
        &&& self.grid.visible == self.ui_state.show_grid
        &&& self.grid.snapping == self.ui_state.enable_snapping
        &&& self.coordinate_system.origin_top_left == self.ui_state.origin_top_left
    }

    /// A fresh session: default settings applied to every component, a Full
    /// HD canvas, and no markers.
    pub fn new() -> (app: CoordinatePickerApp)
        ensures
            app.wf(),
            app.settings_applied(),
            app.ui_state == UiState::default_spec(),
            app.canvas.width == 1_920_000,
            app.canvas.height == 1_080_000,
            app.canvas.offset.x == 0,
            app.canvas.offset.y == 0,
            app.canvas.zoom == crate::canvas::ZOOM_DEFAULT,
            app.coordinate_system.origin_top_left,
            app.coordinate_system.canvas_height == 1_080_000,
            app.markers@.len() == 0,
    {
        let ui_state = UiState::default();
        let mut app = CoordinatePickerApp {
            canvas: Canvas::new(1_920_000, 1_080_000),
            grid: Grid::new(45_000, true),
            coordinate_system: CoordinateSystem::new(true),
            markers: Vec::new(),
            ui_state,
        };
        app.grid.set_size(app.ui_state.grid_size);
        app.grid.set_visible(app.ui_state.show_grid);
        app.grid.set_snapping(app.ui_state.enable_snapping);
        app.coordinate_system.set_origin_top_left(app.ui_state.origin_top_left);
        app.update_canvas_resolution();
        app
    }

    /// Applies the selected resolution: a fixed preset writes its dimensions
    /// into the canvas and into the editable custom fields; `Custom` applies
    /// the edited fields. Either way the origin convention's tracked height
    /// follows the new canvas height.
    pub fn update_canvas_resolution(&mut self)
        requires
            old(self).wf(),
        ensures
            final(self).wf(),
            final(self).canvas.offset == old(self).canvas.offset,
            final(self).canvas.zoom == old(self).canvas.zoom,
            final(self).grid == old(self).grid,
            final(self).markers == old(self).markers,
            final(self).coordinate_system.origin_top_left == old(
                self,
            ).coordinate_system.origin_top_left,
            final(self).ui_state.selected_resolution == old(self).ui_state.selected_resolution,
            final(self).ui_state.show_grid == old(self).ui_state.show_grid,
            final(self).ui_state.grid_size == old(self).ui_state.grid_size,
            final(self).ui_state.enable_snapping == old(self).ui_state.enable_snapping,
            final(self).ui_state.origin_top_left == old(self).ui_state.origin_top_left,
            final(self).ui_state.marker_color == old(self).ui_state.marker_color,
            final(self).ui_state.current_position == old(self).ui_state.current_position,
            final(self).ui_state.current_position_raw == old(self).ui_state.current_position_raw,
            final(self).ui_state.dark_mode == old(self).ui_state.dark_mode,
            final(self).ui_state.recalculate_markers == old(self).ui_state.recalculate_markers,
            old(self).ui_state.selected_resolution is Custom ==> {
                &&& final(self).canvas.width == old(self).ui_state.custom_width
                &&& final(self).canvas.height == old(self).ui_state.custom_height
                &&& final(self).ui_state.custom_width == old(self).ui_state.custom_width
                &&& final(self).ui_state.custom_height == old(self).ui_state.custom_height
                &&& final(self).coordinate_system.canvas_height == old(
                    self,
                ).ui_state.custom_height
            },
            !(old(self).ui_state.selected_resolution is Custom) ==> {
                &&& final(self).canvas.width == old(
                    self,
                ).ui_state.selected_resolution.fixed_width_spec()
                &&& final(self).canvas.height == old(
                    self,
                ).ui_state.selected_resolution.fixed_height_spec()
                &&& final(self).ui_state.custom_width == final(self).canvas.width
                &&& final(self).ui_state.custom_height == final(self).canvas.height
                &&& final(self).coordinate_system.canvas_height == final(self).canvas.height
            },
    {
        match self.ui_state.selected_resolution.fixed_size() {
            Some(size) => {
                let (width, height) = size;
                self.canvas.set_size(width, height);
                self.ui_state.custom_width = width;
                self.ui_state.custom_height = height;
                self.coordinate_system.update_canvas_height(height);
            },
            None => {
                let width = self.ui_state.custom_width;
                let height = self.ui_state.custom_height;
                self.canvas.set_size(width, height);
                self.coordinate_system.update_canvas_height(height);
            },
        }
    }

    /// Snaps a canvas-space point to the grid when snapping is on; with it
    /// off the point passes through unchanged. A snapped point always lands
    /// inside `[0, width] x [0, height]`.
    pub fn apply_grid_snapping(&self, pos: Point) -> (r: Point)
        requires
            self.wf(),
            pos.in_canvas_range_spec(),
        ensures
            self.grid.snapping ==> {
                &&& r.x == snap_axis(pos.x as int, self.grid.size as int, self.canvas.width as int)
                &&& r.y == snap_axis(
                    pos.y as int,
                    self.grid.size as int,
                    self.canvas.height as int,
                )
                &&& 0 <= r.x <= self.canvas.width
                &&& 0 <= r.y <= self.canvas.height
            },
            !self.grid.snapping ==> r == pos,
            r.in_canvas_range_spec(),
    {
        if self.grid.is_snapping_enabled() {
            let g = self.grid.get_size();
            let size = self.canvas.get_size();
            let x = snap_axis_exec(pos.x, g, size.0);
            let y = snap_axis_exec(pos.y, g, size.1);
            Point { x, y }
        } else {
            pos
        }
    }

    /// Canvas-space coordinates of a screen point, as the transform maps it.
    pub open spec fn canvas_pos_of_screen(self, p: Point, view: Rect) -> (int, int) {
        (
            self.canvas.canvas_x_of_screen(p.x as int, view),
            self.canvas.canvas_y_of_screen(p.y as int, view),
        )
    }

    /// The same point after grid snapping, when snapping is on.
    pub open spec fn snapped_pos_of_screen(self, p: Point, view: Rect) -> (int, int) {
        let c = self.canvas_pos_of_screen(p, view);
        if self.grid.snapping {
            (
                snap_axis(c.0, self.grid.size as int, self.canvas.width as int),
                snap_axis(c.1, self.grid.size as int, self.canvas.height as int),
            )
        } else {
            c
        }
    }

    /// The screen point lies on the drawn canvas rectangle, edges included.
    pub open spec fn border_contains(self, p: Point, view: Rect) -> bool {
        &&& self.canvas.screen_min_x(view) <= p.x <= self.canvas.screen_max_x(view)
        &&& self.canvas.screen_min_y(view) <= p.y <= self.canvas.screen_max_y(view)
    }

    /// A click places a marker exactly when it lands on the drawn canvas and
    /// its snapped canvas-space point lies in `[0, width] x [0, height]`,
    /// bounds included.
    pub open spec fn click_accepted(self, p: Point, view: Rect) -> bool {
        let s = self.snapped_pos_of_screen(p, view);
        &&& self.border_contains(p, view)
        &&& 0 <= s.0 <= self.canvas.width
        &&& 0 <= s.1 <= self.canvas.height
    }

    /// The marker an accepted click creates: the snapped point, its display
    /// position under the active convention, and the chosen colour.
    pub open spec fn placed_marker_spec(self, p: Point, view: Rect) -> Marker {
        let s = self.snapped_pos_of_screen(p, view);
        Marker {
            position: Point { x: s.0 as i64, y: s.1 as i64 },
            system_position: Point {
                x: s.0 as i64,
                y: self.coordinate_system.sys_y(s.1) as i64,
            },
            color: self.ui_state.marker_color,
        }
    }

    /// Everything of the panel state but the cursor readout agrees.
    pub open spec fn ui_settings_eq(a: UiState, b: UiState) -> bool {
        &&& a.selected_resolution == b.selected_resolution
        &&& a.custom_width == b.custom_width
        &&& a.custom_height == b.custom_height
        &&& a.show_grid == b.show_grid
        &&& a.grid_size == b.grid_size
        &&& a.enable_snapping == b.enable_snapping
        &&& a.origin_top_left == b.origin_top_left
        &&& a.marker_color == b.marker_color
        &&& a.dark_mode == b.dark_mode
        &&& a.recalculate_markers == b.recalculate_markers
    }

    /// Refreshes the cursor readout: the raw and the snapped canvas-space
    /// position of the pointer, both shown in the display system.
    pub fn hover_event(&mut self, mouse_pos: Point, view_rect: Rect)
        requires
            old(self).wf(),
            mouse_pos.in_range_spec(),
            view_rect.wf(),
        ensures
            final(self).wf(),
            final(self).canvas == old(self).canvas,
            final(self).grid == old(self).grid,
            final(self).coordinate_system == old(self).coordinate_system,
            final(self).markers == old(self).markers,
            Self::ui_settings_eq(final(self).ui_state, old(self).ui_state),
            final(self).ui_state.current_position.x == old(self).snapped_pos_of_screen(
                mouse_pos,
                view_rect,
            ).0,
            final(self).ui_state.current_position.y == old(self).coordinate_system.sys_y(
                old(self).snapped_pos_of_screen(mouse_pos, view_rect).1,
            ),
            final(self).ui_state.current_position_raw.x == old(self).canvas_pos_of_screen(
                mouse_pos,
                view_rect,
            ).0,
            final(self).ui_state.current_position_raw.y == old(self).coordinate_system.sys_y(
                old(self).canvas_pos_of_screen(mouse_pos, view_rect).1,
            ),
    {
        let canvas_pos = self.canvas.screen_to_canvas_pos(mouse_pos, view_rect);
        let snapped_pos = if self.grid.is_snapping_enabled() {
            self.apply_grid_snapping(canvas_pos)
        } else {
            canvas_pos
        };
        self.ui_state.current_position = self.coordinate_system.to_system_coordinates(
            snapped_pos,
        );
        self.ui_state.current_position_raw = self.coordinate_system.to_system_coordinates(
            canvas_pos,
        );
    }

    /// A primary click: places a marker at the snapped canvas point when the
    /// click is accepted, and does nothing at all otherwise.
    pub fn primary_click(&mut self, pos: Point, view_rect: Rect)
        requires
            old(self).wf(),
            pos.in_range_spec(),
            view_rect.wf(),
        ensures
            final(self).wf(),
            final(self).canvas == old(self).canvas,
            final(self).grid == old(self).grid,
            final(self).coordinate_system == old(self).coordinate_system,
            final(self).ui_state == old(self).ui_state,
            old(self).click_accepted(pos, view_rect) ==> final(self).markers@ == old(
                self,
            ).markers@.push(old(self).placed_marker_spec(pos, view_rect)),
            !old(self).click_accepted(pos, view_rect) ==> final(self).markers == old(
                self,
            ).markers,
    {
        let border_rect = self.canvas.get_screen_rect(view_rect);
        if border_rect.contains(pos) {
            let canvas_pos = self.canvas.screen_to_canvas_pos(pos, view_rect);
            let snapped_pos = if self.grid.is_snapping_enabled() {
                self.apply_grid_snapping(canvas_pos)
            } else {
                canvas_pos
            };
            let size = self.canvas.get_size();
            if snapped_pos.x >= 0 && snapped_pos.x <= size.0 && snapped_pos.y >= 0
                && snapped_pos.y <= size.1 {
                let system_pos = self.coordinate_system.to_system_coordinates(snapped_pos);
                let marker = Marker::new(snapped_pos, system_pos, self.ui_state.marker_color);
                self.markers.push(marker);
            }
        }
    }

    /// A secondary click inside the drawn canvas removes the first marker
    /// within the proximity threshold of the click's canvas-space position.
    pub fn secondary_click(&mut self, pos: Point, view_rect: Rect)
        requires
            old(self).wf(),
            pos.in_range_spec(),
            view_rect.wf(),
        ensures
            final(self).wf(),
            final(self).canvas == old(self).canvas,
            final(self).grid == old(self).grid,
            final(self).coordinate_system == old(self).coordinate_system,
            final(self).ui_state == old(self).ui_state,
            !old(self).border_contains(pos, view_rect) ==> final(self).markers == old(
                self,
            ).markers,
            old(self).border_contains(pos, view_rect) ==> removal_result(
                old(self).markers@,
                final(self).markers@,
                old(self).canvas_pos_of_screen(pos, view_rect).0,
                old(self).canvas_pos_of_screen(pos, view_rect).1,
            ),
    {
        let border_rect = self.canvas.get_screen_rect(view_rect);
        if border_rect.contains(pos) {
            let canvas_pos = self.canvas.screen_to_canvas_pos(pos, view_rect);
            self.remove_nearby_marker(canvas_pos);
        }
    }

    /// Removes the first marker, in insertion order, whose canvas position
    /// lies strictly within the proximity threshold of `position`; with no
    /// marker that near, nothing changes.
    pub fn remove_nearby_marker(&mut self, position: Point)
        requires
            old(self).wf(),
            position.in_canvas_range_spec(),
        ensures
            final(self).wf(),
            final(self).canvas == old(self).canvas,
            final(self).grid == old(self).grid,
            final(self).coordinate_system == old(self).coordinate_system,
            final(self).ui_state == old(self).ui_state,
            removal_result(
                old(self).markers@,
                final(self).markers@,
                position.x as int,
                position.y as int,
            ),
    {
        let mut idx: usize = 0;
        while idx < self.markers.len()
            invariant
                *self == *old(self),
                self.wf(),
                position.in_canvas_range_spec(),
                idx <= self.markers@.len(),
                forall|j: int|
                    0 <= j < idx ==> !near_at(
                        #[trigger] self.markers@[j],
                        position.x as int,
                        position.y as int,
                    ),
            decreases self.markers@.len() - idx,
        {
            let m = self.markers[idx];
            if near_marker(&m, position) {
                self.markers.remove(idx);
                proof {
                    assert forall|k: int|
                        0 <= k < self.markers@.len() implies marker_in_bounds(
                        #[trigger] self.markers@[k],
                    ) by {
                        if k >= idx {
                            assert(self.markers@[k] == old(self).markers@[k + 1]);
                        }
                    }
                }
                return ;
            }
            idx += 1;
        }
    }

    /// Deletes the marker at `index` from the side list; an out-of-range
    /// index does nothing.
    pub fn remove_marker(&mut self, index: usize)
        requires
            old(self).wf(),
        ensures
            final(self).wf(),
            final(self).canvas == old(self).canvas,
            final(self).grid == old(self).grid,
            final(self).coordinate_system == old(self).coordinate_system,
            final(self).ui_state == old(self).ui_state,
            index < old(self).markers@.len() ==> final(self).markers@ == old(
                self,
            ).markers@.remove(index as int),
            index >= old(self).markers@.len() ==> final(self).markers == old(self).markers,
    {
        if index < self.markers.len() {
            self.markers.remove(index);
            proof {
                assert forall|k: int|
                    0 <= k < self.markers@.len() implies marker_in_bounds(
                    #[trigger] self.markers@[k],
                ) by {
                    if k >= index {
                        assert(self.markers@[k] == old(self).markers@[k + 1]);
                    }
                }
            }
        }
    }

    /// Removes every marker.
    pub fn clear_markers(&mut self)
        requires
            old(self).wf(),
        ensures
            final(self).wf(),
            final(self).canvas == old(self).canvas,
            final(self).grid == old(self).grid,
            final(self).coordinate_system == old(self).coordinate_system,
            final(self).ui_state == old(self).ui_state,
            final(self).markers@.len() == 0,
    {
        self.markers.clear();
    }

    /// Shifts the view by a drag delta.
    pub fn pan_event(&mut self, delta: Point)
        requires
            old(self).wf(),
            delta.in_range_spec(),
        ensures
            final(self).wf(),
            final(self).grid == old(self).grid,
            final(self).coordinate_system == old(self).coordinate_system,
            final(self).markers == old(self).markers,
            final(self).ui_state == old(self).ui_state,
            final(self).canvas.width == old(self).canvas.width,
            final(self).canvas.height == old(self).canvas.height,
            final(self).canvas.zoom == old(self).canvas.zoom,
            final(self).canvas.offset.x == clamp_spec(
                old(self).canvas.offset.x + delta.x,
                -MAX_COORD as int,
                MAX_COORD as int,
            ),
            final(self).canvas.offset.y == clamp_spec(
                old(self).canvas.offset.y + delta.y,
                -MAX_COORD as int,
                MAX_COORD as int,
            ),
    {
        self.canvas.pan(delta);
    }

    /// One scroll notch over the canvas: zoom in or out by the fixed step,
    /// pivoted at the pointer.
    pub fn scroll_event(&mut self, scroll_up: bool, pos: Point, view_rect: Rect)
        requires
            old(self).wf(),
            pos.in_range_spec(),
            view_rect.wf(),
        ensures
            final(self).wf(),
            final(self).grid == old(self).grid,
            final(self).coordinate_system == old(self).coordinate_system,
            final(self).markers == old(self).markers,
            final(self).ui_state == old(self).ui_state,
            final(self).canvas.width == old(self).canvas.width,
            final(self).canvas.height == old(self).canvas.height,
            final(self).canvas.zoom == clamp_spec(
                rdiv(old(self).canvas.zoom * zoom_step(scroll_up), SCALE as int),
                ZOOM_MIN as int,
                ZOOM_MAX as int,
            ),
            ZOOM_MIN <= final(self).canvas.zoom <= ZOOM_MAX,
            final(self).canvas.offset.x == clamp_spec(
                old(self).canvas.offset.x - rdiv(
                    (pos.x - view_rect.center_x()) * (final(self).canvas.zoom - old(
                        self,
                    ).canvas.zoom),
                    old(self).canvas.zoom as int,
                ),
                -MAX_COORD as int,
                MAX_COORD as int,
            ),
            final(self).canvas.offset.y == clamp_spec(
                old(self).canvas.offset.y - rdiv(
                    (pos.y - view_rect.center_y()) * (final(self).canvas.zoom - old(
                        self,
                    ).canvas.zoom),
                    old(self).canvas.zoom as int,
                ),
                -MAX_COORD as int,
                MAX_COORD as int,
            ),
    {
        let factor = if scroll_up {
            ZOOM_STEP_UP
        } else {
            ZOOM_STEP_DOWN
        };
        self.canvas.zoom_at(factor, pos, view_rect);
    }

    /// Switches the origin convention. When it actually changes and marker
    /// recalculation is on, every marker's display position is recomputed
    /// from its canonical canvas position under the new convention.
    pub fn set_origin_top_left(&mut self, origin_top_left: bool)
        requires
            old(self).wf(),
        ensures
            final(self).wf(),
            final(self).canvas == old(self).canvas,
            final(self).grid == old(self).grid,
            final(self).coordinate_system.origin_top_left == origin_top_left,
            final(self).coordinate_system.canvas_height == old(
                self,
            ).coordinate_system.canvas_height,
            final(self).ui_state.origin_top_left == origin_top_left,
            final(self).ui_state.selected_resolution == old(self).ui_state.selected_resolution,
            final(self).ui_state.custom_width == old(self).ui_state.custom_width,
            final(self).ui_state.custom_height == old(self).ui_state.custom_height,
            final(self).ui_state.show_grid == old(self).ui_state.show_grid,
            final(self).ui_state.grid_size == old(self).ui_state.grid_size,
            final(self).ui_state.enable_snapping == old(self).ui_state.enable_snapping,
            final(self).ui_state.marker_color == old(self).ui_state.marker_color,
            final(self).ui_state.current_position == old(self).ui_state.current_position,
            final(self).ui_state.current_position_raw == old(
                self,
            ).ui_state.current_position_raw,
            final(self).ui_state.dark_mode == old(self).ui_state.dark_mode,
            final(self).ui_state.recalculate_markers == old(self).ui_state.recalculate_markers,
            (origin_top_left == old(self).coordinate_system.origin_top_left || !old(
                self,
            ).ui_state.recalculate_markers) ==> final(self).markers == old(self).markers,
            (origin_top_left != old(self).coordinate_system.origin_top_left && old(
                self,
            ).ui_state.recalculate_markers) ==> final(self).markers@ == recalculated(
                old(self).markers@,
                final(self).coordinate_system,
            ),
    {
        self.ui_state.origin_top_left = origin_top_left;
        let changed = self.coordinate_system.is_origin_top_left() != origin_top_left;
        self.coordinate_system.set_origin_top_left(origin_top_left);
        if changed && self.ui_state.recalculate_markers {
            let ghost cs = self.coordinate_system;
            let mut updated: Vec<Marker> = Vec::new();
            let mut i: usize = 0;
            while i < self.markers.len()
                invariant
                    self.wf(),
                    self.coordinate_system == cs,
                    i <= self.markers@.len(),
                    updated@ == recalculated(self.markers@.take(i as int), cs),
                decreases self.markers@.len() - i,
            {
                let m = self.markers[i];
                let sys = self.coordinate_system.to_system_coordinates(m.position);
                updated.push(Marker::new(m.position, sys, m.color));
                proof {
                    assert(self.markers@.take(i + 1).drop_last() =~= self.markers@.take(i as int));
                    assert(updated@ =~= recalculated(self.markers@.take(i + 1), cs));
                }
                i += 1;
            }
            proof {
                assert(self.markers@.take(self.markers@.len() as int) =~= self.markers@);
            }
            self.markers = updated;
        }
    }
}

/// What a right-click removal leaves behind: with no marker near the click
/// everything stays; otherwise exactly the first near marker, in insertion
/// order, is gone.
pub open spec fn removal_result(pre: Seq<Marker>, post: Seq<Marker>, x: int, y: int) -> bool {
    &&& (forall|j: int| 0 <= j < pre.len() ==> !near_at(#[trigger] pre[j], x, y)) ==> post == pre
    &&& (exists|j: int| 0 <= j < pre.len() && near_at(#[trigger] pre[j], x, y)) ==> (exists|i: int|
        {
            &&& 0 <= i < pre.len()
            &&& near_at(pre[i], x, y)
            &&& (forall|j: int| 0 <= j < i ==> !near_at(#[trigger] pre[j], x, y))
            &&& post == #[trigger] pre.remove(i)
        })
}

/// The zoom factor one scroll notch applies, in thousandths.
pub open spec fn zoom_step(scroll_up: bool) -> int {
    if scroll_up {
        ZOOM_STEP_UP as int
    } else {
        ZOOM_STEP_DOWN as int
    }
}

/// A marker's display position recomputed from its canonical canvas
/// position under the given convention.
pub open spec fn recalc_marker(cs: CoordinateSystem, m: Marker) -> Marker {
    Marker {
        position: m.position,
        system_position: Point { x: m.position.x, y: cs.sys_y(m.position.y as int) as i64 },
        color: m.color,
    }
}

/// Every marker's display position recomputed under `cs`.
pub open spec fn recalculated(s: Seq<Marker>, cs: CoordinateSystem) -> Seq<Marker> {
    s.map_values(|m: Marker| recalc_marker(cs, m))
}

/// Recomputing display positions from the canonical canvas positions makes
/// origin toggling lossless: toggling away and back leaves exactly the list
/// a single recomputation under the final convention gives, and a list
/// already consistent with that convention comes back unchanged.
pub proof fn lemma_origin_toggle_round_trip(
    s: Seq<Marker>,
    cs1: CoordinateSystem,
    cs2: CoordinateSystem,
)
    ensures
        recalculated(recalculated(s, cs2), cs1) == recalculated(s, cs1),
        (forall|i: int| 0 <= i < s.len() ==> #[trigger] s[i] == recalc_marker(cs1, s[i]))
            ==> recalculated(s, cs1) == s,
{
    assert(recalculated(recalculated(s, cs2), cs1) =~= recalculated(s, cs1));
    if forall|i: int| 0 <= i < s.len() ==> #[trigger] s[i] == recalc_marker(cs1, s[i]) {
        assert(recalculated(s, cs1) =~= s);
    }
}

/// Whole pixels of a milli-pixel value, truncated toward zero, as the
/// readouts and the clipboard text show coordinates.
pub open spec fn px_of(v: int) -> int {
    if v >= 0 {
        v / (SCALE as int)
    } else {
        -((-v) / (SCALE as int))
    }
}

/// The coordinate text of a point: `(x, y)` in whole pixels.
pub open spec fn point_text(p: Point) -> Seq<char> {
    seq!['('] + int_text(px_of(p.x as int)) + seq![','] + seq![' '] + int_text(px_of(p.y as int))
        + seq![')']
}

/// One line of the marker list and of the copied text: the 1-based index,
/// then the display position in whole pixels.
pub open spec fn marker_line_text(index: nat, m: Marker) -> Seq<char> {
    dec_rep(index + 1) + seq!['.'] + seq![' '] + point_text(m.system_position)
}

/// The whole copy-all payload: every marker's line, joined by newlines.
pub open spec fn lines_text(s: Seq<Marker>) -> Seq<char>
    decreases s.len(),
{
    if s.len() == 0 {
        Seq::empty()
    } else if s.len() == 1 {
        marker_line_text(0, s[0])
    } else {
        lines_text(s.drop_last()) + seq!['\n'] + marker_line_text(
            (s.len() - 1) as nat,
            s.last(),
        )
    }
}

/// Whole pixels of a milli-pixel value, truncated toward zero.
pub fn to_px(v: i64) -> (r: i64)
    requires
        v > i64::MIN,
    ensures
        r == px_of(v as int),
{
    if v >= 0 {
        ((v as u64) / 1000) as i64
    } else {
        -((((-v) as u64) / 1000) as i64)
    }
}

/// The `(x, y)` text of a point, in whole pixels.
pub fn position_text(p: Point) -> (s: String)
    requires
        p.x > i64::MIN,
        p.y > i64::MIN,
    ensures
        s@ == point_text(p),
{
    let mut s = String::new();
    s.append("(");
    let xs = i64_text(to_px(p.x));
    s.append(xs.as_str());
    s.append(", ");
    let ys = i64_text(to_px(p.y));
    s.append(ys.as_str());
    s.append(")");
    proof {
        reveal_strlit("(");
        reveal_strlit(", ");
        reveal_strlit(")");
        assert(s@ =~= point_text(p));
    }
    s
}

/// The list line and clipboard text of one marker, 1-indexed.
pub fn marker_line(index: usize, marker: &Marker) -> (s: String)
    requires
        index < usize::MAX,
        marker.system_position.x > i64::MIN,
        marker.system_position.y > i64::MIN,
    ensures
        s@ == marker_line_text(index as nat, *marker),
{
    let mut s = String::new();
    push_decimal(&mut s, (index as u64) + 1);
    s.append(". ");
    let pt = position_text(marker.system_position);
    s.append(pt.as_str());
    proof {
        reveal_strlit(". ");
        assert(s@ =~= marker_line_text(index as nat, *marker));
    }
    s
}

impl CoordinatePickerApp {
    /// The text the copy button beside the live readout hands over.
    pub fn current_position_text(&self) -> (s: String)
        requires
            self.wf(),
        ensures
            s@ == point_text(self.ui_state.current_position),
    {
        position_text(self.ui_state.current_position)
    }

    /// The copy-all payload: every marker's numbered line, newline-joined.
    pub fn all_marker_lines(&self) -> (s: String)
        requires
            self.wf(),
        ensures
            s@ == lines_text(self.markers@),
    {
        let mut s = String::new();
        let mut i: usize = 0;
        while i < self.markers.len()
            invariant
                self.wf(),
                i <= self.markers@.len(),
                s@ == lines_text(self.markers@.take(i as int)),
            decreases self.markers@.len() - i,
        {
            if i > 0 {
                s.append("\n");
                proof {
                    reveal_strlit("\n");
                }
            }
            let m = self.markers[i];
            let line = marker_line(i, &m);
            s.append(line.as_str());
            proof {
                assert(self.markers@.take(i + 1).drop_last() =~= self.markers@.take(i as int));
                assert(self.markers@.take(i + 1).last() == self.markers@[i as int]);
                assert(s@ =~= lines_text(self.markers@.take(i + 1)));
            }
            i += 1;
        }
        proof {
            assert(self.markers@.take(self.markers@.len() as int) =~= self.markers@);
        }
        s
    }
}

/// Whether a marker's canvas position lies strictly within the removal
/// threshold of `position`.
fn near_marker(m: &Marker, position: Point) -> (r: bool)
    requires
        marker_in_bounds(*m),
        position.in_canvas_range_spec(),
    ensures
        r == near_at(*m, position.x as int, position.y as int),
{
    let dx = m.position.x - position.x;
    let dy = m.position.y - position.y;
    if dx > -REMOVE_THRESHOLD && dx < REMOVE_THRESHOLD && dy > -REMOVE_THRESHOLD
        && dy < REMOVE_THRESHOLD {
        proof {
            assert(0 <= dx * dx < REMOVE_THRESHOLD * REMOVE_THRESHOLD) by (nonlinear_arith)
                requires
                    -REMOVE_THRESHOLD < dx < REMOVE_THRESHOLD,
            ;
            assert(0 <= dy * dy < REMOVE_THRESHOLD * REMOVE_THRESHOLD) by (nonlinear_arith)
                requires
                    -REMOVE_THRESHOLD < dy < REMOVE_THRESHOLD,
            ;
        }
        dx * dx + dy * dy < REMOVE_THRESHOLD * REMOVE_THRESHOLD
    } else {
        proof {
            assert(dx * dx + dy * dy >= REMOVE_THRESHOLD * REMOVE_THRESHOLD)
                by (nonlinear_arith)
                requires
                    dx <= -REMOVE_THRESHOLD || dx >= REMOVE_THRESHOLD || dy <= -REMOVE_THRESHOLD
                        || dy >= REMOVE_THRESHOLD,
                    REMOVE_THRESHOLD > 0,
            ;
        }
        false
    }
}

/// One axis of grid snapping.
fn snap_axis_exec(v: i64, g: i64, limit: i64) -> (r: i64)
    requires
        0 < g <= MAX_DIM,
        0 < limit <= MAX_DIM,
        in_canvas_range(v as int),
    ensures
        r == snap_axis(v as int, g as int, limit as int),
        0 <= r <= limit,
{
    if 2 * v < g {
        0
    } else if 2 * v > 2 * limit - g {
        limit
    } else {
        proof {
            assert(-(limit * g) <= v <= limit * g) by (nonlinear_arith)
                requires
                    0 <= v <= limit,
                    g >= 1,
            ;
            lemma_rdiv_in_bounds(v as int, g as int, limit as int);
            assert(-(limit * g) <= rdiv(v as int, g as int) * g <= limit * g)
                by (nonlinear_arith)
                requires
                    -limit <= rdiv(v as int, g as int) <= limit,
                    g >= 1,
            ;
            assert(limit * g <= MAX_DIM * MAX_DIM) by (nonlinear_arith)
                requires
                    0 < limit <= MAX_DIM,
                    0 < g <= MAX_DIM,
            ;
            lemma_rdiv_error(v as int, g as int);
        }
        let q = crate::geom::div_round(v, g);
        q * g
    }
}

} // verus!
