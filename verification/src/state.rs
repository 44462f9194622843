use vstd::prelude::*;

use crate::geometry::{clamp_spec, max_spec, min_spec, Point, Rect};

verus! {

/// Side of the square that a plain click (press and release without a drag) selects.
pub const DEFAULT_CLICK_SIZE: i32 = 32;

/// Distance in logical pixels that one arrow-key press moves or resizes the selection.
pub const KEYBOARD_STEP: i32 = 16;

/// One output (monitor) the selection can live on.
#[derive(Debug, Clone, Copy)]
pub struct OutputState {
    pub logical_rect: Rect,
}

/// Pointer-button state of the overlay.
#[derive(Debug, Clone, Copy, PartialEq, Eq, Structural)]
pub enum ButtonState {
    Up,
    Down { output_index: usize, last_point: Point, on_capture_button: bool, moving: bool },
}

/// What the overlay has to do after a button release.
#[derive(Debug, Clone, Copy, PartialEq, Eq, Structural)]
pub enum PointerUpOutcome {
    Ignored,
    Redraw,
    Confirm,
}

/// The interactive region picker: which output is selected, the selection rectangle in
/// that output's local coordinates, and the state of the pointer button.
#[derive(Debug, Clone)]
pub struct SelectionModel {
    outputs: Vec<OutputState>,
    selected_output: usize,
    local_rect: Rect,
    drag_anchor: Point,
    button: ButtonState,
    pub show_pointer: bool,
}

/// The abstract state of a [`SelectionModel`].
pub struct ModelView {
    /// Global logical rectangle of each output.
    pub outputs: Seq<Rect>,
    /// Index of the output that holds the selection.
    pub selected: int,
    /// The selection, in the selected output's local coordinates.
    pub rect: Rect,
    /// Reference point of the current drag.
    pub anchor: Point,
    pub button: ButtonState,
    pub show_pointer: bool,
}

/// The value fits in `i32`.
pub open spec fn fits_i32(v: int) -> bool {
    i32::MIN <= v <= i32::MAX
}

/// `v / d` rounded toward zero, as integer division does (`d > 0`).
pub open spec fn div_toward_zero(v: int, d: int) -> int {
    if v >= 0 {
        v / d
    } else {
        -((-v) / d)
    }
}

/// Outputs that a selection model can be built on: at least one, and no more than an
/// `isize` counts.
pub open spec fn outputs_ok(outputs: Seq<Rect>) -> bool {
    1 <= outputs.len() <= isize::MAX
}

pub open spec fn output_rects(outputs: Seq<OutputState>) -> Seq<Rect> {
    outputs.map_values(|o: OutputState| o.logical_rect)
}

/// `round(v * to / from)` with ties away from zero, as `f64::round` rounds, for a positive
/// `to`. Dividing by a zero `from` gives an infinity (a zero numerator gives NaN), which the
/// conversion to `i32` turns into `i32::MAX`, `i32::MIN` or `0`.
pub open spec fn scale_round(v: int, from: int, to: int) -> int {
    if from == 0 {
        if v > 0 {
            i32::MAX as int
        } else if v < 0 {
            i32::MIN as int
        } else {
            0
        }
    } else {
        let m = abs_int(v) * to;
        let d = abs_int(from);
        let rounded = (2 * m + d) / (2 * d);
        if (v >= 0) == (from > 0) {
            rounded
        } else {
            -rounded
        }
    }
}

pub open spec fn abs_int(v: int) -> int {
    if v >= 0 {
        v
    } else {
        -v
    }
}

/// Saturating conversion to `i32`, as a float-to-int `as` cast does.
pub open spec fn saturate_i32(v: int) -> int {
    clamp_spec(v, i32::MIN as int, i32::MAX as int)
}

/// Euclidean remainder, as `isize::rem_euclid` computes it for a positive modulus.
pub open spec fn rem_euclid(v: int, m: int) -> int {
    v % m
}

impl ModelView {
    /// The invariant of every selection model.
    pub open spec fn wf(self) -> bool {
        &&& outputs_ok(self.outputs)
        &&& 0 <= self.selected < self.outputs.len()
    }

    /// Output `i` has an extent that a selection can be kept inside of (at least one pixel
    /// each way).
    pub open spec fn bounds_valid(self, i: int) -> bool {
        self.outputs[i].width >= 1 && self.outputs[i].height >= 1
    }

    /// The global position of the selection fits in `i32`.
    pub open spec fn capture_fits(self) -> bool {
        let o = self.outputs[self.selected];
        fits_i32(o.x + self.rect.x) && fits_i32(o.y + self.rect.y)
    }

    /// A motion to `point` on output `index` needs no arithmetic beyond `i32`, and keeps
    /// the selection inside an output of valid extent.
    pub open spec fn motion_fits(self, index: int, point: Point) -> bool {
        match self.button {
            ButtonState::Up => true,
            ButtonState::Down { output_index, on_capture_button, moving, .. } => {
                ||| output_index != index
                ||| on_capture_button
                ||| {
                    &&& self.bounds_valid(self.selected)
                    &&& if moving {
                        &&& fits_i32(point.x - self.anchor.x)
                        &&& fits_i32(point.y - self.anchor.y)
                        &&& fits_i32(self.rect.x + (point.x - self.anchor.x))
                        &&& fits_i32(self.rect.y + (point.y - self.anchor.y))
                    } else {
                        Rect::corners_fit(self.anchor, point)
                    }
                }
            },
        }
    }

    /// A release at `point` on output `index` needs no arithmetic beyond `i32`, and a
    /// click square is kept inside an output of valid extent.
    pub open spec fn release_fits(self, index: int, point: Point, still_over_button: bool) -> bool {
        match self.button {
            ButtonState::Up => true,
            ButtonState::Down { output_index, on_capture_button, .. } => {
                ||| output_index != index
                ||| (on_capture_button && still_over_button)
                ||| !(self.rect.width <= 1 && self.rect.height <= 1)
                ||| {
                    &&& self.bounds_valid(self.selected)
                    &&& fits_i32(point.x - DEFAULT_CLICK_SIZE / 2)
                    &&& fits_i32(point.y - DEFAULT_CLICK_SIZE / 2)
                }
            },
        }
    }

    /// Shifting the selection by `(dx, dy)` stays in `i32` and the output has a valid extent.
    pub open spec fn nudge_fits(self, dx: int, dy: int) -> bool {
        &&& self.bounds_valid(self.selected)
        &&& fits_i32(self.rect.x + dx)
        &&& fits_i32(self.rect.y + dy)
    }

    /// Growing the selection by `(dw, dh)` stays in `i32` and the output has a valid extent.
    pub open spec fn resize_fits(self, dw: int, dh: int) -> bool {
        &&& self.bounds_valid(self.selected)
        &&& fits_i32(self.rect.width + dw)
        &&& fits_i32(self.rect.height + dh)
    }

    /// Cycling by `delta` stays in `isize`, and an output it moves to has a valid extent.
    pub open spec fn cycle_fits(self, delta: int) -> bool {
        &&& isize::MIN <= self.selected + delta <= isize::MAX
        &&& (self.outputs.len() > 1 && self.cycled_index(delta) != self.selected)
            ==> self.bounds_valid(self.cycled_index(delta))
    }

    /// Output `i` with its origin moved to `(0, 0)`.
    pub open spec fn local_bounds(self, i: int) -> Rect {
        Rect { x: 0, y: 0, width: self.outputs[i].width, height: self.outputs[i].height }
    }

    pub open spec fn selected_bounds(self) -> Rect {
        self.local_bounds(self.selected)
    }

    /// The selection lies inside the selected output.
    pub open spec fn selection_inside(self) -> bool {
        self.rect.within(self.selected_bounds())
    }

    pub open spec fn with_rect(self, rect: Rect) -> ModelView {
        ModelView { rect, ..self }
    }

    /// The state right after construction.
    pub open spec fn initial(outputs: Seq<Rect>, default_output: int, show_pointer: bool) -> ModelView {
        let o = outputs[default_output];
        let rect = Rect {
            x: div_toward_zero(o.width as int, 4) as i32,
            y: div_toward_zero(o.height as int, 4) as i32,
            width: max_spec(div_toward_zero(o.width as int, 2), 1) as i32,
            height: max_spec(div_toward_zero(o.height as int, 2), 1) as i32,
        };
        ModelView {
            outputs,
            selected: default_output,
            rect,
            anchor: Point { x: rect.x, y: rect.y },
            button: ButtonState::Up,
            show_pointer,
        }
    }

    /// Pressing the button: ignored unless it is up; otherwise the press output becomes
    /// the selected one and the selection collapses to the pressed pixel. The result is
    /// whether a selection drag started (the press was not on the capture button).
    pub open spec fn pointer_down(self, index: int, point: Point, over_button: bool) -> (ModelView, bool) {
        if self.button != ButtonState::Up {
            (self, false)
        } else {
            (
                ModelView {
                    selected: index,
                    anchor: point,
                    rect: Rect { x: point.x, y: point.y, width: 1, height: 1 },
                    button: ButtonState::Down {
                        output_index: index as usize,
                        last_point: point,
                        on_capture_button: over_button,
                        moving: false,
                    },
                    ..self
                },
                !over_button,
            )
        }
    }

    /// Pointer motion: only a drag on the pressed output has an effect. A drag that started
    /// on the capture button only records the point; in move mode the selection is shifted
    /// by the motion since the anchor; otherwise it spans anchor and point. The selection is
    /// kept inside the output. The result is whether the selection changed.
    pub open spec fn pointer_motion(self, index: int, point: Point) -> (ModelView, bool) {
        match self.button {
            ButtonState::Up => (self, false),
            ButtonState::Down { output_index, on_capture_button, moving, .. } => {
                if output_index != index {
                    (self, false)
                } else {
                    let button = ButtonState::Down {
                        output_index: index as usize,
                        last_point: point,
                        on_capture_button,
                        moving,
                    };
                    if on_capture_button {
                        (ModelView { button, ..self }, false)
                    } else if moving {
                        let moved = Rect {
                            x: (self.rect.x + (point.x - self.anchor.x)) as i32,
                            y: (self.rect.y + (point.y - self.anchor.y)) as i32,
                            ..self.rect
                        };
                        (
                            ModelView {
                                rect: moved.clamp_spec(self.selected_bounds()),
                                anchor: point,
                                button,
                                ..self
                            },
                            true,
                        )
                    } else {
                        let spanned = Rect::corners_spec(self.anchor, point);
                        (
                            ModelView {
                                rect: spanned.clamp_spec(self.selected_bounds()),
                                button,
                                ..self
                            },
                            true,
                        )
                    }
                }
            },
        }
    }

    /// The square a click at `point` selects, kept inside the selected output.
    pub open spec fn click_rect(self, point: Point) -> Rect {
        Rect {
            x: (point.x - DEFAULT_CLICK_SIZE / 2) as i32,
            y: (point.y - DEFAULT_CLICK_SIZE / 2) as i32,
            width: DEFAULT_CLICK_SIZE,
            height: DEFAULT_CLICK_SIZE,
        }.clamp_spec(self.selected_bounds())
    }

    /// Releasing the button: ignored unless it is down on the same output. A press and
    /// release both on the capture button confirm. Otherwise a selection of at most one
    /// pixel grows to the click square, and the overlay redraws.
    pub open spec fn pointer_up(self, index: int, point: Point, still_over_button: bool) -> (ModelView, PointerUpOutcome) {
        match self.button {
            ButtonState::Up => (self, PointerUpOutcome::Ignored),
            ButtonState::Down { output_index, on_capture_button, .. } => {
                if output_index != index {
                    (self, PointerUpOutcome::Ignored)
                } else {
                    let released = ModelView { button: ButtonState::Up, ..self };
                    if on_capture_button && still_over_button {
                        (released, PointerUpOutcome::Confirm)
                    } else if self.rect.width <= 1 && self.rect.height <= 1 {
                        (released.with_rect(self.click_rect(point)), PointerUpOutcome::Redraw)
                    } else {
                        (released, PointerUpOutcome::Redraw)
                    }
                }
            },
        }
    }

    /// Entering or leaving move mode during a drag; the anchor restarts at the last point.
    pub open spec fn set_move_mode(self, moving: bool) -> ModelView {
        match self.button {
            ButtonState::Up => self,
            ButtonState::Down { output_index, last_point, on_capture_button, .. } => ModelView {
                anchor: last_point,
                button: ButtonState::Down { output_index, last_point, on_capture_button, moving },
                ..self
            },
        }
    }

    pub open spec fn toggle_pointer(self) -> ModelView {
        ModelView { show_pointer: !self.show_pointer, ..self }
    }

    /// The selection shifted by `(dx, dy)` and kept inside the selected output.
    pub open spec fn nudge(self, dx: int, dy: int) -> ModelView {
        self.with_rect(
            Rect { x: (self.rect.x + dx) as i32, y: (self.rect.y + dy) as i32, ..self.rect }.clamp_spec(
                self.selected_bounds(),
            ),
        )
    }

    /// The selection grown by `(dw, dh)` (at least one pixel) and kept inside the output.
    pub open spec fn resize_by(self, dw: int, dh: int) -> ModelView {
        self.with_rect(
            Rect {
                width: max_spec(self.rect.width + dw, 1) as i32,
                height: max_spec(self.rect.height + dh, 1) as i32,
                ..self.rect
            }.clamp_spec(self.selected_bounds()),
        )
    }

    /// The output `delta` steps away, wrapping around.
    pub open spec fn cycled_index(self, delta: int) -> int {
        rem_euclid(self.selected + delta, self.outputs.len() as int)
    }

    /// Moving the selection to another output: its origin keeps the same position relative
    /// to the output's size (rounded), its extent is cut to the new output, and the result
    /// is kept inside the new output. With one output, or when the step lands on the same
    /// output, nothing changes.
    pub open spec fn cycle_output(self, delta: int) -> ModelView {
        let len = self.outputs.len() as int;
        if len <= 1 {
            self
        } else {
            let target = self.cycled_index(delta);
            if target == self.selected {
                self
            } else {
                let current = self.selected_bounds();
                let bounds = self.local_bounds(target);
                let rect = Rect {
                    x: saturate_i32(
                        scale_round(self.rect.x as int, current.width as int, bounds.width as int),
                    ) as i32,
                    y: saturate_i32(
                        scale_round(self.rect.y as int, current.height as int, bounds.height as int),
                    ) as i32,
                    width: min_spec(self.rect.width as int, bounds.width as int) as i32,
                    height: min_spec(self.rect.height as int, bounds.height as int) as i32,
                };
                ModelView { selected: target, rect: rect.clamp_spec(bounds), ..self }
            }
        }
    }

    /// The selection in global coordinates.
    pub open spec fn capture_region(self) -> Rect {
        let o = self.outputs[self.selected];
        Rect {
            x: (o.x + self.rect.x) as i32,
            y: (o.y + self.rect.y) as i32,
            width: self.rect.width,
            height: self.rect.height,
        }
    }

    /// A drag that did not start on the capture button is in progress.
    pub open spec fn dragging_selection(self) -> bool {
        self.button matches ButtonState::Down { on_capture_button: false, .. }
    }
}

/// `v * to / from` rounded half away from zero, saturated to `i32` (see [`scale_round`]).
fn scale_coord(v: i32, from: i32, to: i32) -> (r: i32)
    requires
        to >= 1,
    ensures
        r as int == saturate_i32(scale_round(v as int, from as int, to as int)),
{
    if from == 0 {
        return if v > 0 {
            i32::MAX
        } else if v < 0 {
            i32::MIN
        } else {
            0
        };
    }
    let magnitude: i128 = if v >= 0 {
        v as i128
    } else {
        -(v as i128)
    };
    let divisor: i128 = if from > 0 {
        from as i128
    } else {
        -(from as i128)
    };
    let to128 = to as i128;
    assert(0 <= 2 * magnitude * to128 <= 0x8_0000_0000_0000_0000) by (nonlinear_arith)
        requires
            0 <= magnitude <= 0x8000_0000,
            1 <= to128 <= 0x8000_0000,
    ;
    assert(2 * magnitude * to128 == 2 * (magnitude * to128)) by (nonlinear_arith);
    assert(magnitude == abs_int(v as int) && divisor == abs_int(from as int));
    let rounded: i128 = (2 * magnitude * to128 + divisor) / (2 * divisor);
    assert(rounded <= 0x8_0000_0000_0000_0000) by (nonlinear_arith)
        requires
            rounded == (2 * magnitude * to128 + divisor) / (2 * divisor),
            0 <= 2 * magnitude * to128 <= 0x8_0000_0000_0000_0000,
            1 <= divisor <= 0x8000_0000,
    ;
    let q: i128 = if (v >= 0) == (from > 0) {
        rounded
    } else {
        -rounded
    };
    if q > i32::MAX as i128 {
        i32::MAX
    } else if q < i32::MIN as i128 {
        i32::MIN
    } else {
        q as i32
    }
}

impl View for SelectionModel {
    type V = ModelView;

    closed spec fn view(&self) -> ModelView {
        ModelView {
            outputs: output_rects(self.outputs@),
            selected: self.selected_output as int,
            rect: self.local_rect,
            anchor: self.drag_anchor,
            button: self.button,
            show_pointer: self.show_pointer,
        }
    }
}

impl SelectionModel {
    pub open spec fn wf(&self) -> bool {
        self@.wf()
    }

    proof fn lemma_view(&self)
        ensures
            self@.outputs.len() == self.outputs@.len(),
            forall|i: int|
                0 <= i < self.outputs@.len() ==> #[trigger] self@.outputs[i]
                    == self.outputs@[i].logical_rect,
            self@.selected == self.selected_output as int,
            self@.rect == self.local_rect,
            self@.anchor == self.drag_anchor,
            self@.button == self.button,
            self@.show_pointer == self.show_pointer,
    {
    }

    /// A model on `outputs` whose selection is the centered half of `default_output`.
    pub fn new(outputs: Vec<OutputState>, default_output: usize, show_pointer: bool) -> (r: Self)
        requires
            default_output < outputs.len(),
            outputs@.len() <= isize::MAX,
        ensures
            r.wf(),
            r@ == ModelView::initial(output_rects(outputs@), default_output as int, show_pointer),
    {
        let output = outputs[default_output];
        let width = div_toward_zero_i32(output.logical_rect.width, 2).max(1);
        let height = div_toward_zero_i32(output.logical_rect.height, 2).max(1);
        let local_rect = Rect::new(
            div_toward_zero_i32(output.logical_rect.width, 4),
            div_toward_zero_i32(output.logical_rect.height, 4),
            width,
            height,
        );
        let r = SelectionModel {
            outputs,
            selected_output: default_output,
            local_rect,
            drag_anchor: Point::new(local_rect.x, local_rect.y),
            button: ButtonState::Up,
            show_pointer,
        };
        proof {
            r.lemma_view();
        }
        r
    }

    pub fn selected_output_index(&self) -> (r: usize)
        ensures
            r as int == self@.selected,
    {
        proof {
            self.lemma_view();
        }
        self.selected_output
    }

    /// The selection, when `output_index` is the selected output.
    pub fn selection_on_output(&self, output_index: usize) -> (r: Option<Rect>)
        ensures
            r == (if output_index as int == self@.selected {
                Some(self@.rect)
            } else {
                None
            }),
    {
        proof {
            self.lemma_view();
        }
        if output_index == self.selected_output {
            Some(self.local_rect)
        } else {
            None
        }
    }

    pub fn dragging_selection(&self) -> (r: bool)
        ensures
            r == self@.dragging_selection(),
    {
        proof {
            self.lemma_view();
        }
        match self.button {
            ButtonState::Down { on_capture_button: false, .. } => true,
            _ => false,
        }
    }

    /// Whether the pointer is drawn into the capture.
    pub fn pointer_shown(&self) -> (r: bool)
        ensures
            r == self@.show_pointer,
    {
        proof {
            self.lemma_view();
        }
        self.show_pointer
    }

    pub fn button_state(&self) -> (r: ButtonState)
        ensures
            r == self@.button,
    {
        proof {
            self.lemma_view();
        }
        self.button
    }

    fn output_global_bounds(&self, output_index: usize) -> (r: Rect)
        requires
            output_index < self.outputs@.len(),
        ensures
            r == self@.outputs[output_index as int],
    {
        proof {
            self.lemma_view();
        }
        self.outputs[output_index].logical_rect
    }

    fn local_bounds(&self, output_index: usize) -> (r: Rect)
        requires
            output_index < self.outputs@.len(),
        ensures
            r == self@.local_bounds(output_index as int),
            self@.bounds_valid(output_index as int) ==> r.valid_bounds(),
    {
        proof {
            self.lemma_view();
        }
        let output = self.output_global_bounds(output_index);
        Rect::new(0, 0, output.width, output.height)
    }

    /// Whether [`Self::capture_region`] can be computed within `i32`.
    pub fn capture_fits(&self) -> (r: bool)
        requires
            self.wf(),
        ensures
            r == self@.capture_fits(),
    {
        proof {
            self.lemma_view();
        }
        let o = self.outputs[self.selected_output].logical_rect;
        fits(o.x as i64 + self.local_rect.x as i64) && fits(o.y as i64 + self.local_rect.y as i64)
    }

    /// Whether [`Self::pointer_motion`] to `point` on output `output_index` stays in `i32`
    /// and keeps the selection inside an output of valid extent.
    pub fn motion_fits(&self, output_index: usize, point: Point) -> (r: bool)
        requires
            self.wf(),
        ensures
            r == self@.motion_fits(output_index as int, point),
    {
        proof {
            self.lemma_view();
        }
        match self.button {
            ButtonState::Up => true,
            ButtonState::Down { output_index: pressed, on_capture_button, moving, .. } => {
                if pressed != output_index || on_capture_button {
                    return true;
                }
                let o = self.outputs[self.selected_output].logical_rect;
                if !(o.width >= 1 && o.height >= 1) {
                    return false;
                }
                let (px, py) = (point.x as i64, point.y as i64);
                let (ax, ay) = (self.drag_anchor.x as i64, self.drag_anchor.y as i64);
                if moving {
                    fits(px - ax) && fits(py - ay) && fits(self.local_rect.x as i64 + (px - ax))
                        && fits(self.local_rect.y as i64 + (py - ay))
                } else {
                    let dx = if px >= ax { px - ax } else { ax - px };
                    let dy = if py >= ay { py - ay } else { ay - py };
                    dx + 1 <= i32::MAX as i64 && dy + 1 <= i32::MAX as i64
                }
            },
        }
    }

    /// Whether [`Self::pointer_up`] at `point` on output `output_index` stays in `i32` and
    /// keeps a click square inside an output of valid extent.
    pub fn release_fits(&self, output_index: usize, point: Point, still_over_capture_button: bool) -> (r: bool)
        requires
            self.wf(),
        ensures
            r == self@.release_fits(output_index as int, point, still_over_capture_button),
    {
        proof {
            self.lemma_view();
        }
        match self.button {
            ButtonState::Up => true,
            ButtonState::Down { output_index: pressed, on_capture_button, .. } => {
                if pressed != output_index || (on_capture_button && still_over_capture_button)
                    || !(self.local_rect.width <= 1 && self.local_rect.height <= 1) {
                    return true;
                }
                let o = self.outputs[self.selected_output].logical_rect;
                o.width >= 1 && o.height >= 1 && fits(point.x as i64 - (DEFAULT_CLICK_SIZE / 2) as i64)
                    && fits(point.y as i64 - (DEFAULT_CLICK_SIZE / 2) as i64)
            },
        }
    }

    /// Whether shifting the selection by `(dx, dy)` stays in `i32` on an output of valid
    /// extent.
    pub fn nudge_fits(&self, dx: i32, dy: i32) -> (r: bool)
        requires
            self.wf(),
        ensures
            r == self@.nudge_fits(dx as int, dy as int),
    {
        proof {
            self.lemma_view();
        }
        let o = self.outputs[self.selected_output].logical_rect;
        o.width >= 1 && o.height >= 1 && fits(self.local_rect.x as i64 + dx as i64) && fits(
            self.local_rect.y as i64 + dy as i64,
        )
    }

    /// Whether growing the selection by `(dw, dh)` stays in `i32` on an output of valid
    /// extent.
    pub fn resize_fits(&self, dw: i32, dh: i32) -> (r: bool)
        requires
            self.wf(),
        ensures
            r == self@.resize_fits(dw as int, dh as int),
    {
        proof {
            self.lemma_view();
        }
        let o = self.outputs[self.selected_output].logical_rect;
        o.width >= 1 && o.height >= 1 && fits(self.local_rect.width as i64 + dw as i64) && fits(
            self.local_rect.height as i64 + dh as i64,
        )
    }

    /// Whether [`Self::cycle_output`] by `delta` stays in `isize` and lands on an output of
    /// valid extent.
    pub fn cycle_fits(&self, delta: isize) -> (r: bool)
        requires
            self.wf(),
        ensures
            r == self@.cycle_fits(delta as int),
    {
        proof {
            self.lemma_view();
        }
        let len = self.outputs.len() as isize;
        let shifted = match (self.selected_output as isize).checked_add(delta) {
            Some(v) => v,
            None => {
                return false;
            },
        };
        if len <= 1 {
            return true;
        }
        let target = match shifted.checked_rem_euclid(len) {
            Some(i) => i as usize,
            None => {
                return true;
            },
        };
        if target == self.selected_output {
            return true;
        }
        let o = self.outputs[target].logical_rect;
        o.width >= 1 && o.height >= 1
    }

    /// The selection in global coordinates: the local rectangle moved by the origin of the
    /// selected output.
    pub fn capture_region(&self) -> (r: Rect)
        requires
            self.wf(),
            self@.capture_fits(),
        ensures
            r == self@.capture_region(),
    {
        proof {
            self.lemma_view();
        }
        let bounds = self.output_global_bounds(self.selected_output);
        Rect::new(
            bounds.x + self.local_rect.x,
            bounds.y + self.local_rect.y,
            self.local_rect.width,
            self.local_rect.height,
        )
    }

    pub fn toggle_pointer(&mut self)
        requires
            old(self).wf(),
        ensures
            final(self).wf(),
            final(self)@ == old(self)@.toggle_pointer(),
    {
        proof {
            self.lemma_view();
        }
        self.show_pointer = !self.show_pointer;
        proof {
            self.lemma_view();
        }
    }

    /// Press of the primary button at `point` on output `output_index`.
    pub fn pointer_down(&mut self, output_index: usize, point: Point, over_capture_button: bool) -> (r: bool)
        requires
            old(self).wf(),
            output_index < old(self)@.outputs.len(),
        ensures
            final(self).wf(),
            (final(self)@, r) == old(self)@.pointer_down(output_index as int, point, over_capture_button),
    {
        proof {
            self.lemma_view();
        }
        match self.button {
            ButtonState::Up => {},
            _ => {
                return false;
            },
        }
        self.selected_output = output_index;
        self.drag_anchor = point;
        self.local_rect = Rect::new(point.x, point.y, 1, 1);
        self.button = ButtonState::Down {
            output_index,
            last_point: point,
            on_capture_button: over_capture_button,
            moving: false,
        };
        proof {
            self.lemma_view();
        }
        !over_capture_button
    }

    /// Pointer motion to `point` on output `output_index`.
    pub fn pointer_motion(&mut self, output_index: usize, point: Point) -> (r: bool)
        requires
            old(self).wf(),
            old(self)@.motion_fits(output_index as int, point),
        ensures
            final(self).wf(),
            (final(self)@, r) == old(self)@.pointer_motion(output_index as int, point),
            r ==> final(self)@.selection_inside(),
    {
        proof {
            self.lemma_view();
        }
        let (pressed_output, on_capture_button, moving) = match self.button {
            ButtonState::Down { output_index: pressed_output, on_capture_button, moving, .. } => (
                pressed_output,
                on_capture_button,
                moving,
            ),
            ButtonState::Up => {
                return false;
            },
        };

        if pressed_output != output_index {
            return false;
        }

        if on_capture_button {
            self.button = ButtonState::Down {
                output_index,
                last_point: point,
                on_capture_button,
                moving,
            };
            proof {
                self.lemma_view();
            }
            return false;
        }

        let bounds = self.local_bounds(self.selected_output);
        if moving {
            let delta_x = point.x - self.drag_anchor.x;
            let delta_y = point.y - self.drag_anchor.y;
            self.local_rect = Rect::new(
                self.local_rect.x + delta_x,
                self.local_rect.y + delta_y,
                self.local_rect.width,
                self.local_rect.height,
            ).clamp_within(bounds);
            self.drag_anchor = point;
        } else {
            self.local_rect = Rect::from_corners(self.drag_anchor, point).clamp_within(bounds);
        }

        self.button = ButtonState::Down { output_index, last_point: point, on_capture_button, moving };
        proof {
            self.lemma_view();
        }
        true
    }

    /// Release of the primary button at `point` on output `output_index`;
    /// `still_over_capture_button` tells whether the release is over the capture button.
    pub fn pointer_up(&mut self, output_index: usize, point: Point, still_over_capture_button: bool) -> (r: PointerUpOutcome)
        requires
            old(self).wf(),
            old(self)@.release_fits(output_index as int, point, still_over_capture_button),
        ensures
            final(self).wf(),
            (final(self)@, r) == old(self)@.pointer_up(output_index as int, point, still_over_capture_button),
            r == PointerUpOutcome::Confirm <==> (old(self)@.button matches ButtonState::Down {
                output_index: pressed,
                on_capture_button: true,
                ..
            } && pressed == output_index && still_over_capture_button),
    {
        proof {
            self.lemma_view();
        }
        let (pressed_output, on_capture_button) = match self.button {
            ButtonState::Down { output_index: pressed_output, on_capture_button, .. } => (
                pressed_output,
                on_capture_button,
            ),
            ButtonState::Up => {
                return PointerUpOutcome::Ignored;
            },
        };

        if pressed_output != output_index {
            return PointerUpOutcome::Ignored;
        }

        self.button = ButtonState::Up;
        if on_capture_button && still_over_capture_button {
            proof {
                self.lemma_view();
            }
            return PointerUpOutcome::Confirm;
        }

        if self.local_rect.width <= 1 && self.local_rect.height <= 1 {
            let bounds = self.local_bounds(self.selected_output);
            self.local_rect = Rect::new(
                point.x - DEFAULT_CLICK_SIZE / 2,
                point.y - DEFAULT_CLICK_SIZE / 2,
                DEFAULT_CLICK_SIZE,
                DEFAULT_CLICK_SIZE,
            ).clamp_within(bounds);
        }
        proof {
            self.lemma_view();
        }
        PointerUpOutcome::Redraw
    }

    /// Switches move mode of the current drag; outside a drag nothing changes.
    pub fn set_move_mode(&mut self, moving: bool)
        requires
            old(self).wf(),
        ensures
            final(self).wf(),
            final(self)@ == old(self)@.set_move_mode(moving),
    {
        proof {
            self.lemma_view();
        }
        if let ButtonState::Down { output_index, last_point, on_capture_button, .. } = self.button {
            self.drag_anchor = last_point;
            self.button = ButtonState::Down { output_index, last_point, on_capture_button, moving };
        }
        proof {
            self.lemma_view();
        }
    }

    fn nudge(&mut self, dx: i32, dy: i32)
        requires
            old(self).wf(),
            old(self)@.nudge_fits(dx as int, dy as int),
        ensures
            final(self).wf(),
            final(self)@ == old(self)@.nudge(dx as int, dy as int),
            final(self)@.selection_inside(),
    {
        proof {
            self.lemma_view();
        }
        let bounds = self.local_bounds(self.selected_output);
        self.local_rect = Rect::new(
            self.local_rect.x + dx,
            self.local_rect.y + dy,
            self.local_rect.width,
            self.local_rect.height,
        ).clamp_within(bounds);
        proof {
            self.lemma_view();
        }
    }

    fn resize_by(&mut self, dw: i32, dh: i32)
        requires
            old(self).wf(),
            old(self)@.resize_fits(dw as int, dh as int),
        ensures
            final(self).wf(),
            final(self)@ == old(self)@.resize_by(dw as int, dh as int),
            final(self)@.selection_inside(),
    {
        proof {
            self.lemma_view();
        }
        let bounds = self.local_bounds(self.selected_output);
        self.local_rect = Rect::new(
            self.local_rect.x,
            self.local_rect.y,
            (self.local_rect.width + dw).max(1),
            (self.local_rect.height + dh).max(1),
        ).clamp_within(bounds);
        proof {
            self.lemma_view();
        }
    }

    pub fn move_left(&mut self)
        requires
            old(self).wf(),
            old(self)@.nudge_fits(-KEYBOARD_STEP as int, 0int),
        ensures
            final(self).wf(),
            final(self)@ == old(self)@.nudge(-KEYBOARD_STEP as int, 0int),
            final(self)@.selection_inside(),
    {
        self.nudge(-KEYBOARD_STEP, 0);
    }

    pub fn move_right(&mut self)
        requires
            old(self).wf(),
            old(self)@.nudge_fits(KEYBOARD_STEP as int, 0int),
        ensures
            final(self).wf(),
            final(self)@ == old(self)@.nudge(KEYBOARD_STEP as int, 0int),
            final(self)@.selection_inside(),
    {
        self.nudge(KEYBOARD_STEP, 0);
    }

    pub fn move_up(&mut self)
        requires
            old(self).wf(),
            old(self)@.nudge_fits(0int, -KEYBOARD_STEP as int),
        ensures
            final(self).wf(),
            final(self)@ == old(self)@.nudge(0int, -KEYBOARD_STEP as int),
            final(self)@.selection_inside(),
    {
        self.nudge(0, -KEYBOARD_STEP);
    }

    pub fn move_down(&mut self)
        requires
            old(self).wf(),
            old(self)@.nudge_fits(0int, KEYBOARD_STEP as int),
        ensures
            final(self).wf(),
            final(self)@ == old(self)@.nudge(0int, KEYBOARD_STEP as int),
            final(self)@.selection_inside(),
    {
        self.nudge(0, KEYBOARD_STEP);
    }

    pub fn resize_left(&mut self)
        requires
            old(self).wf(),
            old(self)@.resize_fits(-KEYBOARD_STEP as int, 0int),
        ensures
            final(self).wf(),
            final(self)@ == old(self)@.resize_by(-KEYBOARD_STEP as int, 0int),
            final(self)@.selection_inside(),
    {
        self.resize_by(-KEYBOARD_STEP, 0);
    }

    pub fn resize_right(&mut self)
        requires
            old(self).wf(),
            old(self)@.resize_fits(KEYBOARD_STEP as int, 0int),
        ensures
            final(self).wf(),
            final(self)@ == old(self)@.resize_by(KEYBOARD_STEP as int, 0int),
            final(self)@.selection_inside(),
    {
        self.resize_by(KEYBOARD_STEP, 0);
    }

    pub fn resize_up(&mut self)
        requires
            old(self).wf(),
            old(self)@.resize_fits(0int, -KEYBOARD_STEP as int),
        ensures
            final(self).wf(),
            final(self)@ == old(self)@.resize_by(0int, -KEYBOARD_STEP as int),
            final(self)@.selection_inside(),
    {
        self.resize_by(0, -KEYBOARD_STEP);
    }

    pub fn resize_down(&mut self)
        requires
            old(self).wf(),
            old(self)@.resize_fits(0int, KEYBOARD_STEP as int),
        ensures
            final(self).wf(),
            final(self)@ == old(self)@.resize_by(0int, KEYBOARD_STEP as int),
            final(self)@.selection_inside(),
    {
        self.resize_by(0, KEYBOARD_STEP);
    }

    /// Moves the selection `delta` outputs further, wrapping around; the origin keeps its
    /// position relative to the output size.
    pub fn cycle_output(&mut self, delta: isize)
        requires
            old(self).wf(),
            old(self)@.cycle_fits(delta as int),
        ensures
            final(self).wf(),
            final(self)@ == old(self)@.cycle_output(delta as int),
    {
        proof {
            self.lemma_view();
        }
        let len = self.outputs.len() as isize;
        if len <= 1 {
            return;
        }
        let shifted = self.selected_output as isize + delta;
        let new_index = match shifted.checked_rem_euclid(len) {
            Some(i) => i as usize,
            None => {
                return;
            },
        };
        if new_index == self.selected_output {
            return;
        }

        let current_bounds = self.local_bounds(self.selected_output);
        let target_bounds = self.local_bounds(new_index);
        let rect = Rect::new(
            scale_coord(self.local_rect.x, current_bounds.width, target_bounds.width),
            scale_coord(self.local_rect.y, current_bounds.height, target_bounds.height),
            self.local_rect.width.min(target_bounds.width),
            self.local_rect.height.min(target_bounds.height),
        );
        self.local_rect = rect.clamp_within(target_bounds);
        self.selected_output = new_index;
        proof {
            self.lemma_view();
        }
    }
}

fn fits(v: i64) -> (r: bool)
    ensures
        r == fits_i32(v as int),
{
    i32::MIN as i64 <= v && v <= i32::MAX as i64
}

/// `v / d` rounded toward zero.
fn div_toward_zero_i32(v: i32, d: i32) -> (r: i32)
    requires
        d >= 2,
    ensures
        r as int == div_toward_zero(v as int, d as int),
{
    if v >= 0 {
        v / d
    } else {
        let m: i64 = -(v as i64);
        let d64: i64 = d as i64;
        let q: i64 = m / d64;
        assert(q <= 0x4000_0000) by (nonlinear_arith)
            requires
                q == m / d64,
                1 <= m <= 0x8000_0000,
                d64 >= 2,
        {
            vstd::arithmetic::div_mod::lemma_div_is_ordered_by_denominator(m as int, 2, d64 as int);
        }
        assert(q >= 0) by (nonlinear_arith)
            requires
                q == m / d64,
                m >= 1,
                d64 >= 2,
        ;
        let r: i32 = -(q as i32);
        assert(r as int == -((-(v as int)) / (d as int)));
        r
    }
}

/// Toggling pointer visibility twice restores the state.
pub proof fn lemma_toggle_pointer_twice(v: ModelView)
    ensures
        v.toggle_pointer().toggle_pointer() == v,
{
}

/// With several outputs, cycling one output forward and then one back returns the
/// selection to the output it started on.
pub proof fn lemma_cycle_forward_back(v: ModelView)
    requires
        v.wf(),
        v.outputs.len() > 1,
    ensures
        v.cycle_output(1).cycle_output(-1).selected == v.selected,
{
    let n = v.outputs.len() as int;
    let s = v.selected;
    if s + 1 < n {
        vstd::arithmetic::div_mod::lemma_small_mod((s + 1) as nat, n as nat);
        vstd::arithmetic::div_mod::lemma_small_mod(s as nat, n as nat);
    } else {
        vstd::arithmetic::div_mod::lemma_mod_self_0(n);
        vstd::arithmetic::div_mod::lemma_mod_add_multiples_vanish(-1, n);
        vstd::arithmetic::div_mod::lemma_small_mod((n - 1) as nat, n as nat);
    }
}

/// A click (press and release at the same point of an output, away from the capture
/// button) selects the default square around the point, kept inside that output.
pub proof fn lemma_click_selects_square(v: ModelView, index: int, p: Point, still_over: bool)
    requires
        v.wf(),
        v.button == ButtonState::Up,
        0 <= index < v.outputs.len(),
    ensures
        ({
            let (pressed, started) = v.pointer_down(index, p, false);
            let (released, outcome) = pressed.pointer_up(index, p, still_over);
            &&& started
            &&& outcome == PointerUpOutcome::Redraw
            &&& released.button == ButtonState::Up
            &&& released.selected == index
            &&& released.rect == Rect {
                x: (p.x - DEFAULT_CLICK_SIZE / 2) as i32,
                y: (p.y - DEFAULT_CLICK_SIZE / 2) as i32,
                width: DEFAULT_CLICK_SIZE,
                height: DEFAULT_CLICK_SIZE,
            }.clamp_spec(v.local_bounds(index))
        }),
{
}

/// A drag from `a` to `b` on one output (away from the capture button, not in move mode)
/// selects the rectangle spanned by the two points, kept inside that output; releasing
/// keeps it unless it is a single pixel.
pub proof fn lemma_drag_selects_span(v: ModelView, index: int, a: Point, b: Point)
    requires
        v.wf(),
        v.button == ButtonState::Up,
        0 <= index < v.outputs.len(),
    ensures
        ({
            let (pressed, _) = v.pointer_down(index, a, false);
            let (dragged, changed) = pressed.pointer_motion(index, b);
            let (released, outcome) = dragged.pointer_up(index, b, false);
            let span = Rect::corners_spec(a, b).clamp_spec(v.local_bounds(index));
            &&& changed
            &&& dragged.rect == span
            &&& outcome == PointerUpOutcome::Redraw
            &&& (span.width > 1 || span.height > 1) ==> released.rect == span
        }),
{
}

/// While the selection lies inside its output, the capture region lies inside that
/// output's global rectangle.
pub proof fn lemma_capture_region_inside_output(v: ModelView)
    requires
        v.wf(),
        v.selection_inside(),
        v.capture_fits(),
    ensures
        v.capture_region().within(v.outputs[v.selected]),
{
}

/// In move mode the selection follows the pointer: a motion on the pressed output shifts
/// the selection by the motion since the previous point (kept inside the output) and
/// makes the new point the reference for the next motion.
pub proof fn lemma_move_mode_follows_pointer(v: ModelView, index: int, p: Point)
    requires
        v.button matches ButtonState::Down { output_index, on_capture_button, moving, .. }
            && output_index == index && !on_capture_button && moving,
    ensures
        ({
            let (w, changed) = v.pointer_motion(index, p);
            &&& changed
            &&& w.anchor == p
            &&& w.rect == (Rect {
                x: (v.rect.x + (p.x - v.anchor.x)) as i32,
                y: (v.rect.y + (p.y - v.anchor.y)) as i32,
                width: v.rect.width,
                height: v.rect.height,
            }).clamp_spec(v.selected_bounds())
            &&& w.selected == v.selected
            &&& w.outputs == v.outputs
            &&& w.button == (ButtonState::Down {
                output_index: index as usize,
                last_point: p,
                on_capture_button: false,
                moving: true,
            })
        }),
{
}

/// Two successive move-mode motions `a -> b -> c` shift the selection by `c - a` in all,
/// as one motion `a -> c` does, as long as the first shift keeps the selection inside the
/// output.
pub proof fn lemma_move_mode_motions_compose(v: ModelView, index: int, b: Point, c: Point)
    requires
        v.bounds_valid(v.selected),
        v.button matches ButtonState::Down { output_index, on_capture_button, moving, .. }
            && output_index == index && !on_capture_button && moving,
        v.rect.width >= 1,
        v.rect.height >= 1,
        fits_i32(v.rect.x + (b.x - v.anchor.x)),
        fits_i32(v.rect.y + (b.y - v.anchor.y)),
        fits_i32(v.rect.x + (c.x - v.anchor.x)),
        fits_i32(v.rect.y + (c.y - v.anchor.y)),
        (Rect {
            x: (v.rect.x + (b.x - v.anchor.x)) as i32,
            y: (v.rect.y + (b.y - v.anchor.y)) as i32,
            width: v.rect.width,
            height: v.rect.height,
        }).within(v.selected_bounds()),
    ensures
        ({
            let (w1, _) = v.pointer_motion(index, b);
            let (w2, _) = w1.pointer_motion(index, c);
            &&& w2.anchor == c
            &&& w2.rect == (Rect {
                x: (v.rect.x + (c.x - v.anchor.x)) as i32,
                y: (v.rect.y + (c.y - v.anchor.y)) as i32,
                width: v.rect.width,
                height: v.rect.height,
            }).clamp_spec(v.selected_bounds())
        }),
{
    let mid = Rect {
        x: (v.rect.x + (b.x - v.anchor.x)) as i32,
        y: (v.rect.y + (b.y - v.anchor.y)) as i32,
        width: v.rect.width,
        height: v.rect.height,
    };
    crate::geometry::lemma_clamp_keeps_contained(mid, v.selected_bounds());
}

/// `scale_round` is the nearest integer to `v * to / from`: twice the distance is at most
/// one step of `from`.
proof fn lemma_scale_round_nearest(v: int, from: int, to: int)
    requires
        from >= 1,
        to >= 1,
    ensures
        abs_int(2 * scale_round(v, from, to) * from - 2 * v * to) <= from,
{
    let m = abs_int(v) * to;
    let d = from;
    let q = (2 * m + d) / (2 * d);
    vstd::arithmetic::div_mod::lemma_fundamental_div_mod(2 * m + d, 2 * d);
    vstd::arithmetic::div_mod::lemma_mod_bound(2 * m + d, 2 * d);
    let r = (2 * m + d) % (2 * d);
    assert(2 * m + d == 2 * d * q + r);
    assert(2 * q * d == 2 * d * q) by (nonlinear_arith);
    if v >= 0 {
        assert(2 * v * to == 2 * m) by (nonlinear_arith)
            requires
                m == abs_int(v) * to,
                abs_int(v) == v,
        ;
        assert(scale_round(v, from, to) == q);
    } else {
        assert(2 * v * to == -2 * m) by (nonlinear_arith)
            requires
                m == abs_int(v) * to,
                abs_int(v) == -v,
        ;
        assert(scale_round(v, from, to) == -q);
        assert(2 * (-q) * d == -(2 * q * d)) by (nonlinear_arith);
    }
}

/// Cycling to another output keeps the selection's position relative to the output's
/// size: where the new origin was not pushed against an edge, it is the old origin scaled
/// by the ratio of the widths (horizontally) and of the heights (vertically), rounded to
/// the nearest pixel. The extent is cut to the new output.
pub proof fn lemma_cycle_keeps_relative_position(v: ModelView, delta: int)
    requires
        v.wf(),
        v.outputs.len() > 1,
        v.cycled_index(delta) != v.selected,
        v.bounds_valid(v.selected),
        v.bounds_valid(v.cycled_index(delta)),
        v.rect.width >= 1,
        v.rect.height >= 1,
    ensures
        ({
            let w = v.cycle_output(delta);
            let t = v.cycled_index(delta);
            let cw = v.outputs[v.selected].width as int;
            let ch = v.outputs[v.selected].height as int;
            let tw = v.outputs[t].width as int;
            let th = v.outputs[t].height as int;
            &&& w.selected == t
            &&& w.rect.width == min_spec(v.rect.width as int, tw)
            &&& w.rect.height == min_spec(v.rect.height as int, th)
            &&& (0 < w.rect.x && w.rect.x + w.rect.width < tw) ==> abs_int(
                2 * w.rect.x * cw - 2 * v.rect.x * tw,
            ) <= cw
            &&& (0 < w.rect.y && w.rect.y + w.rect.height < th) ==> abs_int(
                2 * w.rect.y * ch - 2 * v.rect.y * th,
            ) <= ch
        }),
{
    let t = v.cycled_index(delta);
    let cw = v.outputs[v.selected].width as int;
    let ch = v.outputs[v.selected].height as int;
    let tw = v.outputs[t].width as int;
    let th = v.outputs[t].height as int;
    lemma_scale_round_nearest(v.rect.x as int, cw, tw);
    lemma_scale_round_nearest(v.rect.y as int, ch, th);
}

} // verus!
