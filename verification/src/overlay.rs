use vstd::prelude::*;

use crate::capture::CaptureOutput;
use crate::config::{opt_string_view, KeyBinding, Keymap, Modifiers, KEY_SPACE};
use crate::geometry::{max_spec, Point, Rect, Size};
use crate::render::{
    capture_button_hit, capture_button_hit_spec, panel_location, panel_location_spec, PanelAssets,
    PixelSurface, PADDING,
};
use crate::state::{
    ButtonState, ModelView, OutputState, PointerUpOutcome, SelectionModel, KEYBOARD_STEP,
};
use crate::text::str_eq;

verus! {

/// What the region picker hands back when the user confirms.
#[derive(Debug, Clone, Copy, PartialEq, Eq, Structural)]
pub struct OverlayResult {
    /// The selection in global coordinates.
    pub region: Rect,
    pub show_pointer: bool,
    /// Whether the capture is also saved (confirm) or only copied (copy only).
    pub write_to_disk: bool,
}

/// The binding fires for `keysym` under `modifiers`.
pub open spec fn binding_fires(b: KeyBinding, keysym: u32, modifiers: Modifiers) -> bool {
    &&& b.key == keysym
    &&& b.ctrl == modifiers.ctrl
    &&& b.alt == modifiers.alt
    &&& b.shift == modifiers.shift
    &&& b.logo == modifiers.logo
}

/// Some binding of the list fires.
pub open spec fn any_fires(bindings: Seq<KeyBinding>, keysym: u32, modifiers: Modifiers) -> bool {
    exists|i: int| 0 <= i < bindings.len() && binding_fires(#[trigger] bindings[i], keysym, modifiers)
}

/// Whether any of the bindings fires for the key and modifiers.
pub fn matches_binding(bindings: &[KeyBinding], keysym: u32, modifiers: Modifiers) -> (r: bool)
    ensures
        r == any_fires(bindings@, keysym, modifiers),
{
    let mut i: usize = 0;
    while i < bindings.len()
        invariant
            i <= bindings@.len(),
            forall|k: int| 0 <= k < i ==> !binding_fires(#[trigger] bindings@[k], keysym, modifiers),
        decreases bindings@.len() - i,
    {
        if bindings[i].matches(keysym, modifiers) {
            return true;
        }
        i = i + 1;
    }
    false
}

/// The action a key press asks for.
#[derive(Debug, Clone, Copy, PartialEq, Eq, Structural)]
pub enum KeyCommand {
    Cancel,
    TogglePointer,
    CopyOnly,
    Confirm,
    MoveLeft,
    MoveRight,
    MoveUp,
    MoveDown,
    ResizeLeft,
    ResizeRight,
    ResizeUp,
    ResizeDown,
    NextOutput,
    PreviousOutput,
    StartMove,
    Nothing,
}

/// The first action, in this order, one of whose bindings fires: cancel, toggle pointer,
/// copy only, confirm (not for a key repeat while the button is held), move, resize,
/// next and previous output. An unbound space bar starts move mode.
pub open spec fn key_command(keymap: Keymap, keysym: u32, modifiers: Modifiers, repeat: bool, button_down: bool) -> KeyCommand {
    if any_fires(keymap.cancel@, keysym, modifiers) {
        KeyCommand::Cancel
    } else if any_fires(keymap.toggle_pointer@, keysym, modifiers) {
        KeyCommand::TogglePointer
    } else if any_fires(keymap.copy_only@, keysym, modifiers) {
        KeyCommand::CopyOnly
    } else if any_fires(keymap.confirm@, keysym, modifiers) && !(repeat && button_down) {
        KeyCommand::Confirm
    } else if any_fires(keymap.move_left@, keysym, modifiers) {
        KeyCommand::MoveLeft
    } else if any_fires(keymap.move_right@, keysym, modifiers) {
        KeyCommand::MoveRight
    } else if any_fires(keymap.move_up@, keysym, modifiers) {
        KeyCommand::MoveUp
    } else if any_fires(keymap.move_down@, keysym, modifiers) {
        KeyCommand::MoveDown
    } else if any_fires(keymap.resize_left@, keysym, modifiers) {
        KeyCommand::ResizeLeft
    } else if any_fires(keymap.resize_right@, keysym, modifiers) {
        KeyCommand::ResizeRight
    } else if any_fires(keymap.resize_up@, keysym, modifiers) {
        KeyCommand::ResizeUp
    } else if any_fires(keymap.resize_down@, keysym, modifiers) {
        KeyCommand::ResizeDown
    } else if any_fires(keymap.next_output@, keysym, modifiers) {
        KeyCommand::NextOutput
    } else if any_fires(keymap.previous_output@, keysym, modifiers) {
        KeyCommand::PreviousOutput
    } else if keysym == KEY_SPACE {
        KeyCommand::StartMove
    } else {
        KeyCommand::Nothing
    }
}

/// The result the picker hands back for the current selection.
pub open spec fn result_of(v: ModelView, write_to_disk: bool) -> OverlayResult {
    OverlayResult { region: v.capture_region(), show_pointer: v.show_pointer, write_to_disk }
}

/// The effect of a command: the new model, and `Some(exit value)` when the picker closes
/// (`Some(None)` cancels, `Some(Some(result))` captures).
pub open spec fn apply_command(v: ModelView, cmd: KeyCommand) -> (ModelView, Option<Option<OverlayResult>>) {
    let step = KEYBOARD_STEP as int;
    match cmd {
        KeyCommand::Cancel => (v, Some(None)),
        KeyCommand::TogglePointer => (v.toggle_pointer(), None),
        KeyCommand::CopyOnly => (v, Some(Some(result_of(v, false)))),
        KeyCommand::Confirm => (v, Some(Some(result_of(v, true)))),
        KeyCommand::MoveLeft => (v.nudge(-step, 0), None),
        KeyCommand::MoveRight => (v.nudge(step, 0), None),
        KeyCommand::MoveUp => (v.nudge(0, -step), None),
        KeyCommand::MoveDown => (v.nudge(0, step), None),
        KeyCommand::ResizeLeft => (v.resize_by(-step, 0), None),
        KeyCommand::ResizeRight => (v.resize_by(step, 0), None),
        KeyCommand::ResizeUp => (v.resize_by(0, -step), None),
        KeyCommand::ResizeDown => (v.resize_by(0, step), None),
        KeyCommand::NextOutput => (v.cycle_output(1), None),
        KeyCommand::PreviousOutput => (v.cycle_output(-1), None),
        KeyCommand::StartMove => (v.set_move_mode(true), None),
        KeyCommand::Nothing => (v, None),
    }
}

/// The command can be carried out without leaving `i32`/`isize` and on an output of
/// valid extent.
pub open spec fn command_fits(v: ModelView, cmd: KeyCommand) -> bool {
    let step = KEYBOARD_STEP as int;
    match cmd {
        KeyCommand::CopyOnly | KeyCommand::Confirm => v.capture_fits(),
        KeyCommand::MoveLeft => v.nudge_fits(-step, 0),
        KeyCommand::MoveRight => v.nudge_fits(step, 0),
        KeyCommand::MoveUp => v.nudge_fits(0, -step),
        KeyCommand::MoveDown => v.nudge_fits(0, step),
        KeyCommand::ResizeLeft => v.resize_fits(-step, 0),
        KeyCommand::ResizeRight => v.resize_fits(step, 0),
        KeyCommand::ResizeUp => v.resize_fits(0, -step),
        KeyCommand::ResizeDown => v.resize_fits(0, step),
        KeyCommand::NextOutput => v.cycle_fits(1),
        KeyCommand::PreviousOutput => v.cycle_fits(-1),
        _ => true,
    }
}

/// The command a key press asks for.
fn command_for(model: &SelectionModel, keymap: &Keymap, keysym: u32, modifiers: Modifiers, repeat: bool) -> (r: KeyCommand)
    ensures
        r == key_command(*keymap, keysym, modifiers, repeat, model@.button != ButtonState::Up),
{
    let button_down = match model.button_state() {
        ButtonState::Down { .. } => true,
        ButtonState::Up => false,
    };
    if matches_binding(keymap.cancel.as_slice(), keysym, modifiers) {
        KeyCommand::Cancel
    } else if matches_binding(keymap.toggle_pointer.as_slice(), keysym, modifiers) {
        KeyCommand::TogglePointer
    } else if matches_binding(keymap.copy_only.as_slice(), keysym, modifiers) {
        KeyCommand::CopyOnly
    } else if matches_binding(keymap.confirm.as_slice(), keysym, modifiers) && !(repeat
        && button_down) {
        KeyCommand::Confirm
    } else if matches_binding(keymap.move_left.as_slice(), keysym, modifiers) {
        KeyCommand::MoveLeft
    } else if matches_binding(keymap.move_right.as_slice(), keysym, modifiers) {
        KeyCommand::MoveRight
    } else if matches_binding(keymap.move_up.as_slice(), keysym, modifiers) {
        KeyCommand::MoveUp
    } else if matches_binding(keymap.move_down.as_slice(), keysym, modifiers) {
        KeyCommand::MoveDown
    } else if matches_binding(keymap.resize_left.as_slice(), keysym, modifiers) {
        KeyCommand::ResizeLeft
    } else if matches_binding(keymap.resize_right.as_slice(), keysym, modifiers) {
        KeyCommand::ResizeRight
    } else if matches_binding(keymap.resize_up.as_slice(), keysym, modifiers) {
        KeyCommand::ResizeUp
    } else if matches_binding(keymap.resize_down.as_slice(), keysym, modifiers) {
        KeyCommand::ResizeDown
    } else if matches_binding(keymap.next_output.as_slice(), keysym, modifiers) {
        KeyCommand::NextOutput
    } else if matches_binding(keymap.previous_output.as_slice(), keysym, modifiers) {
        KeyCommand::PreviousOutput
    } else if keysym == KEY_SPACE {
        KeyCommand::StartMove
    } else {
        KeyCommand::Nothing
    }
}

/// Whether [`handle_key_press`] can carry out the command the key press asks for without
/// leaving `i32`/`isize` and on an output of valid extent.
pub fn key_press_fits(model: &SelectionModel, keymap: &Keymap, keysym: u32, modifiers: Modifiers, repeat: bool) -> (r: bool)
    requires
        model.wf(),
    ensures
        r == command_fits(
            model@,
            key_command(*keymap, keysym, modifiers, repeat, model@.button != ButtonState::Up),
        ),
{
    let step = KEYBOARD_STEP;
    match command_for(model, keymap, keysym, modifiers, repeat) {
        KeyCommand::CopyOnly | KeyCommand::Confirm => model.capture_fits(),
        KeyCommand::MoveLeft => model.nudge_fits(-step, 0),
        KeyCommand::MoveRight => model.nudge_fits(step, 0),
        KeyCommand::MoveUp => model.nudge_fits(0, -step),
        KeyCommand::MoveDown => model.nudge_fits(0, step),
        KeyCommand::ResizeLeft => model.resize_fits(-step, 0),
        KeyCommand::ResizeRight => model.resize_fits(step, 0),
        KeyCommand::ResizeUp => model.resize_fits(0, -step),
        KeyCommand::ResizeDown => model.resize_fits(0, step),
        KeyCommand::NextOutput => model.cycle_fits(1),
        KeyCommand::PreviousOutput => model.cycle_fits(-1),
        _ => true,
    }
}

/// Handles a key press (or key repeat) in the region picker. Returns `Some(exit value)`
/// when the picker closes.
pub fn handle_key_press(
    model: &mut SelectionModel,
    keymap: &Keymap,
    keysym: u32,
    modifiers: Modifiers,
    repeat: bool,
) -> (r: Option<Option<OverlayResult>>)
    requires
        old(model).wf(),
        command_fits(
            old(model)@,
            key_command(*keymap, keysym, modifiers, repeat, old(model)@.button != ButtonState::Up),
        ),
    ensures
        final(model).wf(),
        (final(model)@, r) == apply_command(
            old(model)@,
            key_command(*keymap, keysym, modifiers, repeat, old(model)@.button != ButtonState::Up),
        ),
{
    match command_for(model, keymap, keysym, modifiers, repeat) {
        KeyCommand::Cancel => Some(None),
        KeyCommand::TogglePointer => {
            model.toggle_pointer();
            None
        },
        KeyCommand::CopyOnly => Some(
            Some(
                OverlayResult {
                    region: model.capture_region(),
                    show_pointer: model.pointer_shown(),
                    write_to_disk: false,
                },
            ),
        ),
        KeyCommand::Confirm => Some(
            Some(
                OverlayResult {
                    region: model.capture_region(),
                    show_pointer: model.pointer_shown(),
                    write_to_disk: true,
                },
            ),
        ),
        KeyCommand::MoveLeft => {
            model.move_left();
            None
        },
        KeyCommand::MoveRight => {
            model.move_right();
            None
        },
        KeyCommand::MoveUp => {
            model.move_up();
            None
        },
        KeyCommand::MoveDown => {
            model.move_down();
            None
        },
        KeyCommand::ResizeLeft => {
            model.resize_left();
            None
        },
        KeyCommand::ResizeRight => {
            model.resize_right();
            None
        },
        KeyCommand::ResizeUp => {
            model.resize_up();
            None
        },
        KeyCommand::ResizeDown => {
            model.resize_down();
            None
        },
        KeyCommand::NextOutput => {
            model.cycle_output(1);
            None
        },
        KeyCommand::PreviousOutput => {
            model.cycle_output(-1);
            None
        },
        KeyCommand::StartMove => {
            model.set_move_mode(true);
            None
        },
        KeyCommand::Nothing => None,
    }
}

/// Handles a key release: releasing the space bar leaves move mode.
pub fn handle_key_release(model: &mut SelectionModel, keysym: u32)
    requires
        old(model).wf(),
    ensures
        final(model).wf(),
        final(model)@ == (if keysym == KEY_SPACE {
            old(model)@.set_move_mode(false)
        } else {
            old(model)@
        }),
{
    if keysym == KEY_SPACE {
        model.set_move_mode(false);
    }
}

/// A surface size and panel that the panel placement works on without overflow.
pub open spec fn placement_ok(size: Size, panel: PixelSurface) -> bool {
    &&& i32::MIN <= size.width - panel.width <= i32::MAX
    &&& i32::MIN <= size.height - panel.height <= i32::MAX
    &&& i32::MIN <= size.height - panel.height - PADDING * 2 <= i32::MAX
}

/// Where the help panel sits on a surface of `size`.
pub open spec fn panel_rect_spec(size: Size, panel: PixelSurface) -> Rect {
    let p = panel_location_spec(size, Size { width: panel.width, height: panel.height });
    Rect { x: p.x, y: p.y, width: panel.width, height: panel.height }
}

pub fn panel_rect_for_overlay(size: Size, panel: &PixelSurface) -> (r: Rect)
    requires
        placement_ok(size, *panel),
    ensures
        r == panel_rect_spec(size, *panel),
{
    let point = panel_location(size, Size::new(panel.width, panel.height));
    Rect::new(point.x, point.y, panel.width, panel.height)
}

/// The panel on screen: the one offering to hide the pointer while it is shown.
pub open spec fn shown_panel(v: ModelView, panels: PanelAssets) -> PixelSurface {
    if v.show_pointer {
        panels.hide_pointer
    } else {
        panels.show_pointer
    }
}

fn current_panel<'a>(model: &SelectionModel, panels: &'a PanelAssets) -> (r: &'a PixelSurface)
    ensures
        *r == shown_panel(model@, *panels),
{
    if model.pointer_shown() {
        &panels.hide_pointer
    } else {
        &panels.show_pointer
    }
}

/// Handles a press of the primary button (or a touch) at `point` on overlay
/// `overlay_index` of size `size`; the press is on the capture button when it hits the
/// button of the panel shown there.
pub fn handle_pointer_down(
    model: &mut SelectionModel,
    overlay_index: usize,
    point: Point,
    size: Size,
    panels: &PanelAssets,
) -> (r: bool)
    requires
        old(model).wf(),
        overlay_index < old(model)@.outputs.len(),
        placement_ok(size, shown_panel(old(model)@, *panels)),
    ensures
        final(model).wf(),
        (final(model)@, r) == old(model)@.pointer_down(
            overlay_index as int,
            point,
            capture_button_hit_spec(panel_rect_spec(size, shown_panel(old(model)@, *panels)), point),
        ),
{
    let panel = current_panel(model, panels);
    let panel_rect = panel_rect_for_overlay(size, panel);
    let over_button = capture_button_hit(panel_rect, point);
    model.pointer_down(overlay_index, point, over_button)
}

/// Whether the release is on the capture button shown on an overlay of `size`.
pub open spec fn over_button_spec(v: ModelView, point: Point, size: Size, panels: PanelAssets) -> bool {
    capture_button_hit_spec(panel_rect_spec(size, shown_panel(v, panels)), point)
}

/// A release at `point` stays in `i32`, and the region it confirms (if any) too.
pub open spec fn pointer_up_fits_spec(v: ModelView, index: int, point: Point, over: bool) -> bool {
    &&& v.release_fits(index, point, over)
    &&& v.pointer_up(index, point, over).1 == PointerUpOutcome::Confirm ==> v.capture_fits()
}

/// Whether [`handle_pointer_up`] can handle a release at `point` on overlay
/// `overlay_index` of size `size` without leaving `i32`.
pub fn pointer_up_fits(
    model: &SelectionModel,
    overlay_index: usize,
    point: Point,
    size: Size,
    panels: &PanelAssets,
) -> (r: bool)
    requires
        model.wf(),
        placement_ok(size, shown_panel(model@, *panels)),
    ensures
        r == pointer_up_fits_spec(
            model@,
            overlay_index as int,
            point,
            over_button_spec(model@, point, size, *panels),
        ),
{
    let panel = current_panel(model, panels);
    let panel_rect = panel_rect_for_overlay(size, panel);
    let over_button = capture_button_hit(panel_rect, point);
    let confirms = match model.button_state() {
        ButtonState::Down { output_index, on_capture_button, .. } => output_index == overlay_index
            && on_capture_button && over_button,
        ButtonState::Up => false,
    };
    model.release_fits(overlay_index, point, over_button) && (!confirms || model.capture_fits())
}

/// Handles a release of the primary button at `point` on overlay `overlay_index`.
/// Returns the capture request when the release confirms.
pub fn handle_pointer_up(
    model: &mut SelectionModel,
    overlay_index: usize,
    point: Point,
    size: Size,
    panels: &PanelAssets,
) -> (r: Option<OverlayResult>)
    requires
        old(model).wf(),
        placement_ok(size, shown_panel(old(model)@, *panels)),
        pointer_up_fits_spec(
            old(model)@,
            overlay_index as int,
            point,
            over_button_spec(old(model)@, point, size, *panels),
        ),
    ensures
        final(model).wf(),
        ({
            let over = capture_button_hit_spec(
                panel_rect_spec(size, shown_panel(old(model)@, *panels)),
                point,
            );
            let (next, outcome) = old(model)@.pointer_up(overlay_index as int, point, over);
            &&& final(model)@ == next
            &&& r == (if outcome == PointerUpOutcome::Confirm {
                Some(result_of(next, true))
            } else {
                None
            })
        }),
{
    let panel = current_panel(model, panels);
    let panel_rect = panel_rect_for_overlay(size, panel);
    let over_button = capture_button_hit(panel_rect, point);
    match model.pointer_up(overlay_index, point, over_button) {
        PointerUpOutcome::Confirm => Some(
            OverlayResult {
                region: model.capture_region(),
                show_pointer: model.pointer_shown(),
                write_to_disk: true,
            },
        ),
        _ => None,
    }
}

/// The logical size of a surface after a configure event: each non-zero dimension of the
/// event replaces the current one.
pub fn configured_size(current: Size, new_width: u32, new_height: u32) -> (r: Size)
    ensures
        r.width == (if new_width == 0 {
            current.width
        } else {
            new_width as i32
        }),
        r.height == (if new_height == 0 {
            current.height
        } else {
            new_height as i32
        }),
{
    let width = if new_width == 0 {
        current.width
    } else {
        #[verifier::truncate]
        (new_width as i32)
    };
    let height = if new_height == 0 {
        current.height
    } else {
        #[verifier::truncate]
        (new_height as i32)
    };
    Size::new(width, height)
}

/// The index of the first of the first `m` current outputs whose name is `name`.
pub open spec fn first_named(known: Seq<Option<Seq<char>>>, name: Seq<char>, m: int) -> Option<int>
    decreases m,
{
    if m <= 0 {
        None
    } else {
        match first_named(known, name, m - 1) {
            Some(k) => Some(k),
            None => if known[m - 1] == Some(name) {
                Some(m - 1)
            } else {
                None
            },
        }
    }
}

/// For each of the first `n` captured outputs, in order, the pair of its index and the
/// index of the first current output with the same name; a captured output that no
/// current output names is skipped.
pub open spec fn matched_outputs(captured: Seq<CaptureOutput>, known: Seq<Option<Seq<char>>>, n: int) -> Seq<(int, int)>
    decreases n,
{
    if n <= 0 {
        Seq::empty()
    } else {
        let before = matched_outputs(captured, known, n - 1);
        match first_named(known, captured[n - 1].name@, known.len() as int) {
            Some(k) => before.push((n - 1, k)),
            None => before,
        }
    }
}

pub open spec fn opt_names_view(known: Seq<Option<String>>) -> Seq<Option<Seq<char>>> {
    known.map_values(|o: Option<String>| opt_string_view(o))
}

fn find_named(known: &[Option<String>], name: &str) -> (r: Option<usize>)
    ensures
        match r {
            Some(k) => first_named(opt_names_view(known@), name@, known@.len() as int) == Some(k as int),
            None => first_named(opt_names_view(known@), name@, known@.len() as int) is None,
        },
{
    let ghost views = opt_names_view(known@);
    let mut i: usize = 0;
    while i < known.len()
        invariant
            i <= known@.len(),
            views == opt_names_view(known@),
            first_named(views, name@, i as int) is None,
        decreases known@.len() - i,
    {
        let hit = match &known[i] {
            Some(n) => str_eq(n.as_str(), name),
            None => false,
        };
        assert(hit == (views[i as int] == Some(name@)));
        if hit {
            proof {
                lemma_first_named_stays(views, name@, i as int + 1, known@.len() as int);
            }
            return Some(i);
        }
        i = i + 1;
    }
    None
}

proof fn lemma_first_named_stays(known: Seq<Option<Seq<char>>>, name: Seq<char>, m: int, n: int)
    requires
        0 <= m <= n,
        first_named(known, name, m) is Some,
    ensures
        first_named(known, name, n) == first_named(known, name, m),
    decreases n - m,
{
    if m < n {
        lemma_first_named_stays(known, name, m, n - 1);
    }
}

/// Pairs each captured output with the current output that carries its name, in the
/// order of the capture; `None` when no captured output has a current counterpart.
pub fn match_outputs(captured: &[CaptureOutput], known: &[Option<String>]) -> (r: Option<Vec<(usize, usize)>>)
    ensures
        ({
            let m = matched_outputs(captured@, opt_names_view(known@), captured@.len() as int);
            match r {
                Some(pairs) => m.len() > 0 && pairs@.len() == m.len() && forall|j: int|
                    0 <= j < m.len() ==> (#[trigger] pairs@[j]).0 as int == m[j].0
                        && pairs@[j].1 as int == m[j].1,
                None => m.len() == 0,
            }
        }),
{
    let ghost views = opt_names_view(known@);
    let mut pairs: Vec<(usize, usize)> = Vec::new();
    let mut i: usize = 0;
    while i < captured.len()
        invariant
            i <= captured@.len(),
            views == opt_names_view(known@),
            ({
                let m = matched_outputs(captured@, views, i as int);
                pairs@.len() == m.len() && forall|j: int|
                    0 <= j < m.len() ==> (#[trigger] pairs@[j]).0 as int == m[j].0
                        && pairs@[j].1 as int == m[j].1
            }),
        decreases captured@.len() - i,
    {
        match find_named(known, captured[i].name.as_str()) {
            Some(k) => {
                pairs.push((i, k));
            },
            None => {},
        }
        i = i + 1;
    }
    if pairs.len() == 0 {
        None
    } else {
        Some(pairs)
    }
}

/// The outputs of the selection model for overlays of the given logical sizes: each one
/// is its own coordinate space, with the origin at its top-left corner.
pub fn overlay_model_outputs(sizes: &[Size]) -> (r: Vec<OutputState>)
    ensures
        r@.len() == sizes@.len(),
        forall|i: int|
            0 <= i < sizes@.len() ==> (#[trigger] r@[i]).logical_rect == (Rect {
                x: 0,
                y: 0,
                width: sizes@[i].width,
                height: sizes@[i].height,
            }),
{
    let mut r: Vec<OutputState> = Vec::new();
    let mut i: usize = 0;
    while i < sizes.len()
        invariant
            i <= sizes@.len(),
            r@.len() == i,
            forall|k: int|
                0 <= k < i ==> (#[trigger] r@[k]).logical_rect == (Rect {
                    x: 0,
                    y: 0,
                    width: sizes@[k].width,
                    height: sizes@[k].height,
                }),
        decreases sizes@.len() - i,
    {
        r.push(OutputState { logical_rect: Rect::new(0, 0, sizes[i].width, sizes[i].height) });
        i = i + 1;
    }
    r
}

/// Whether the `i`-th action of the picker fires, in the order it checks them: cancel,
/// toggle pointer, copy only, confirm (not on a key repeat while the button is held),
/// move left/right/up/down, resize left/right/up/down, next and previous output.
pub open spec fn action_fires(keymap: Keymap, keysym: u32, modifiers: Modifiers, repeat: bool, button_down: bool, i: int) -> bool {
    let fires = |b: Seq<KeyBinding>| any_fires(b, keysym, modifiers);
    if i == 0 {
        fires(keymap.cancel@)
    } else if i == 1 {
        fires(keymap.toggle_pointer@)
    } else if i == 2 {
        fires(keymap.copy_only@)
    } else if i == 3 {
        fires(keymap.confirm@) && !(repeat && button_down)
    } else if i == 4 {
        fires(keymap.move_left@)
    } else if i == 5 {
        fires(keymap.move_right@)
    } else if i == 6 {
        fires(keymap.move_up@)
    } else if i == 7 {
        fires(keymap.move_down@)
    } else if i == 8 {
        fires(keymap.resize_left@)
    } else if i == 9 {
        fires(keymap.resize_right@)
    } else if i == 10 {
        fires(keymap.resize_up@)
    } else if i == 11 {
        fires(keymap.resize_down@)
    } else if i == 12 {
        fires(keymap.next_output@)
    } else if i == 13 {
        fires(keymap.previous_output@)
    } else {
        false
    }
}

/// The `i`-th action fires and no action checked before it does.
pub open spec fn fires_first(keymap: Keymap, keysym: u32, modifiers: Modifiers, repeat: bool, button_down: bool, i: int) -> bool {
    &&& action_fires(keymap, keysym, modifiers, repeat, button_down, i)
    &&& forall|j: int| 0 <= j < i ==> !#[trigger] action_fires(keymap, keysym, modifiers, repeat, button_down, j)
}

/// The shift of the selection that the `i`-th action (a move) asks for.
pub open spec fn move_delta(i: int) -> (int, int) {
    let step = KEYBOARD_STEP as int;
    if i == 4 {
        (-step, 0)
    } else if i == 5 {
        (step, 0)
    } else if i == 6 {
        (0, -step)
    } else {
        (0, step)
    }
}

/// The growth of the selection that the `i`-th action (a resize) asks for.
pub open spec fn resize_delta(i: int) -> (int, int) {
    let step = KEYBOARD_STEP as int;
    if i == 8 {
        (-step, 0)
    } else if i == 9 {
        (step, 0)
    } else if i == 10 {
        (0, -step)
    } else {
        (0, step)
    }
}

/// A key press does what the first of its firing bindings is bound to: cancel closes the
/// picker with nothing; toggle flips pointer visibility; copy only and confirm close it
/// with the current region (saved only on confirm); the arrows move the selection one
/// step left, right, up or down, and the resize bindings grow or shrink it by one step
/// (each kept inside the output); the output bindings cycle forward and back.
pub proof fn lemma_key_press_does_its_action(
    v: ModelView,
    keymap: Keymap,
    keysym: u32,
    modifiers: Modifiers,
    repeat: bool,
    i: int,
)
    requires
        0 <= i < 14,
        fires_first(keymap, keysym, modifiers, repeat, v.button != ButtonState::Up, i),
    ensures
        ({
            let (w, exit) = apply_command(
                v,
                key_command(keymap, keysym, modifiers, repeat, v.button != ButtonState::Up),
            );
            let region = OverlayResult {
                region: v.capture_region(),
                show_pointer: v.show_pointer,
                write_to_disk: true,
            };
            &&& i == 0 ==> exit == Some(None::<OverlayResult>) && w == v
            &&& i == 1 ==> exit is None && w == (ModelView { show_pointer: !v.show_pointer, ..v })
            &&& i == 2 ==> exit == Some(Some(OverlayResult { write_to_disk: false, ..region }))
                && w == v
            &&& i == 3 ==> exit == Some(Some(region)) && w == v
            &&& 4 <= i <= 7 ==> exit is None && w == (ModelView {
                rect: (Rect {
                    x: (v.rect.x + move_delta(i).0) as i32,
                    y: (v.rect.y + move_delta(i).1) as i32,
                    ..v.rect
                }).clamp_spec(v.selected_bounds()),
                ..v
            })
            &&& 8 <= i <= 11 ==> exit is None && w == (ModelView {
                rect: (Rect {
                    width: max_spec(v.rect.width + resize_delta(i).0, 1) as i32,
                    height: max_spec(v.rect.height + resize_delta(i).1, 1) as i32,
                    ..v.rect
                }).clamp_spec(v.selected_bounds()),
                ..v
            })
            &&& i == 12 ==> exit is None && w == v.cycle_output(1)
            &&& i == 13 ==> exit is None && w == v.cycle_output(-1)
        }),
{
    let d = v.button != ButtonState::Up;
    let f = |j: int| action_fires(keymap, keysym, modifiers, repeat, d, j);
    assert(i > 0 ==> !f(0));
    assert(i > 1 ==> !f(1));
    assert(i > 2 ==> !f(2));
    assert(i > 3 ==> !f(3));
    assert(i > 4 ==> !f(4));
    assert(i > 5 ==> !f(5));
    assert(i > 6 ==> !f(6));
    assert(i > 7 ==> !f(7));
    assert(i > 8 ==> !f(8));
    assert(i > 9 ==> !f(9));
    assert(i > 10 ==> !f(10));
    assert(i > 11 ==> !f(11));
    assert(i > 12 ==> !f(12));
}

/// A press of the space bar that no binding claims starts move mode; any other key that
/// no binding claims changes nothing.
pub proof fn lemma_unbound_key(
    v: ModelView,
    keymap: Keymap,
    keysym: u32,
    modifiers: Modifiers,
    repeat: bool,
    button_down: bool,
)
    requires
        button_down == (v.button != ButtonState::Up),
        forall|j: int|
            0 <= j < 14 ==> !#[trigger] action_fires(
                keymap,
                keysym,
                modifiers,
                repeat,
                button_down,
                j,
            ),
    ensures
        ({
            let (w, exit) = apply_command(
                v,
                key_command(keymap, keysym, modifiers, repeat, v.button != ButtonState::Up),
            );
            &&& exit is None
            &&& w == (if keysym == KEY_SPACE {
                v.set_move_mode(true)
            } else {
                v
            })
        }),
{
    let d = v.button != ButtonState::Up;
    let f = |j: int| action_fires(keymap, keysym, modifiers, repeat, d, j);
    assert(!f(0) && !f(1) && !f(2) && !f(3) && !f(4) && !f(5) && !f(6));
    assert(!f(7) && !f(8) && !f(9) && !f(10) && !f(11) && !f(12) && !f(13));
}

} // verus!
