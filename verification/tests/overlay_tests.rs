use snappers::config::{Keymap, Modifiers, KEY_C, KEY_ESCAPE, KEY_LEFT, KEY_P, KEY_RETURN, KEY_SPACE, KEY_TAB};
use snappers::geometry::{Point, Rect, Size};
use snappers::overlay::{
    configured_size, handle_key_press, handle_key_release, handle_pointer_down,
    handle_pointer_up, key_press_fits, matches_binding, panel_rect_for_overlay, pointer_up_fits,
    OverlayResult,
};
use snappers::render::{PanelAssets, PixelSurface};
use snappers::state::{OutputState, SelectionModel};

fn outputs() -> Vec<OutputState> {
    vec![
        OutputState {
            logical_rect: Rect::new(0, 0, 1920, 1080),
        },
        OutputState {
            logical_rect: Rect::new(1920, 0, 2560, 1440),
        },
    ]
}

fn panels() -> PanelAssets {
    let panel = PixelSurface {
        width: 400,
        height: 48,
        data: vec![0; 400 * 48 * 4],
    };
    PanelAssets {
        show_pointer: panel.clone(),
        hide_pointer: panel,
    }
}

fn none() -> Modifiers {
    Modifiers::default()
}

#[test]
fn escape_cancels_and_return_confirms() {
    let keymap = Keymap::default();
    let mut model = SelectionModel::new(outputs(), 0, true);
    assert_eq!(
        handle_key_press(&mut model, &keymap, KEY_ESCAPE, none(), false),
        Some(None)
    );
    assert_eq!(
        handle_key_press(&mut model, &keymap, KEY_RETURN, none(), false),
        Some(Some(OverlayResult {
            region: Rect::new(480, 270, 960, 540),
            show_pointer: true,
            write_to_disk: true,
        }))
    );
    let ctrl = Modifiers {
        ctrl: true,
        ..none()
    };
    assert_eq!(
        handle_key_press(&mut model, &keymap, KEY_C, ctrl, false),
        Some(Some(OverlayResult {
            region: Rect::new(480, 270, 960, 540),
            show_pointer: true,
            write_to_disk: false,
        }))
    );
    // A plain c is not bound.
    assert_eq!(handle_key_press(&mut model, &keymap, KEY_C, none(), false), None);
}

#[test]
fn keys_move_toggle_and_cycle() {
    let keymap = Keymap::default();
    let mut model = SelectionModel::new(outputs(), 0, true);
    assert_eq!(handle_key_press(&mut model, &keymap, KEY_LEFT, none(), false), None);
    assert_eq!(model.capture_region(), Rect::new(464, 270, 960, 540));
    let shift = Modifiers {
        shift: true,
        ..none()
    };
    assert_eq!(handle_key_press(&mut model, &keymap, KEY_LEFT, shift, false), None);
    assert_eq!(model.capture_region(), Rect::new(464, 270, 944, 540));
    assert_eq!(handle_key_press(&mut model, &keymap, KEY_P, none(), false), None);
    assert!(!model.pointer_shown());
    assert_eq!(handle_key_press(&mut model, &keymap, KEY_TAB, none(), false), None);
    assert_eq!(model.selected_output_index(), 1);
    assert_eq!(handle_key_press(&mut model, &keymap, KEY_TAB, shift, false), None);
    assert_eq!(model.selected_output_index(), 0);
}

#[test]
fn unbound_space_starts_move_mode_until_released() {
    let mut keymap = Keymap::default();
    keymap.confirm = vec![keymap.confirm[0]];
    let mut model = SelectionModel::new(outputs(), 0, true);
    assert!(model.pointer_down(0, Point::new(500, 500), false));
    assert!(model.pointer_motion(0, Point::new(600, 550)));
    assert_eq!(model.capture_region(), Rect::new(500, 500, 101, 51));
    assert_eq!(handle_key_press(&mut model, &keymap, KEY_SPACE, none(), false), None);
    assert!(model.pointer_motion(0, Point::new(610, 570)));
    assert_eq!(model.capture_region(), Rect::new(510, 520, 101, 51));
    handle_key_release(&mut model, KEY_SPACE);
    assert!(model.pointer_motion(0, Point::new(620, 580)));
    assert_eq!(model.capture_region(), Rect::new(610, 570, 11, 11));
}

#[test]
fn held_button_ignores_repeated_confirm() {
    let keymap = Keymap::default();
    let mut model = SelectionModel::new(outputs(), 0, true);
    assert!(model.pointer_down(0, Point::new(10, 10), false));
    assert_eq!(handle_key_press(&mut model, &keymap, KEY_RETURN, none(), true), None);
    assert!(handle_key_press(&mut model, &keymap, KEY_RETURN, none(), false).is_some());
}

#[test]
fn clicking_the_capture_button_confirms() {
    let mut model = SelectionModel::new(outputs(), 0, true);
    let size = Size::new(1920, 1080);
    let panel = panel_rect_for_overlay(size, &panels().hide_pointer);
    assert_eq!(panel, Rect::new(760, 1016, 400, 48));
    let button = Point::new(panel.x + 8 + 14, panel.y + 24);
    // A press on the button needs no redraw.
    assert!(!handle_pointer_down(&mut model, 0, button, size, &panels()));
    assert_eq!(
        handle_pointer_up(&mut model, 0, button, size, &panels()),
        // The press itself placed a one-pixel selection under the button.
        Some(OverlayResult {
            region: Rect::new(782, 1040, 1, 1),
            show_pointer: true,
            write_to_disk: true,
        })
    );
}

#[test]
fn dragging_selects_without_confirming() {
    let mut model = SelectionModel::new(outputs(), 0, true);
    let size = Size::new(1920, 1080);
    assert!(handle_pointer_down(&mut model, 0, Point::new(100, 100), size, &panels()));
    assert!(model.pointer_motion(0, Point::new(300, 200)));
    assert_eq!(
        handle_pointer_up(&mut model, 0, Point::new(300, 200), size, &panels()),
        None
    );
    assert_eq!(model.capture_region(), Rect::new(100, 100, 201, 101));
}

#[test]
fn binding_lists_and_ranges() {
    let keymap = Keymap::default();
    assert!(matches_binding(&keymap.confirm, KEY_SPACE, none()));
    assert!(!matches_binding(&keymap.confirm, KEY_ESCAPE, none()));
    assert!(!matches_binding(&[], KEY_ESCAPE, none()));
}

#[test]
fn configure_keeps_zero_dimensions() {
    let current = Size::new(1920, 1080);
    assert_eq!(configured_size(current, 0, 0), current);
    assert_eq!(configured_size(current, 2560, 0), Size::new(2560, 1080));
    assert_eq!(configured_size(current, 0, 1440), Size::new(1920, 1440));
}

use snappers::capture::{CaptureOutput, RgbaImage};
use snappers::cli::CaptureOptions;
use snappers::overlay::{match_outputs, overlay_model_outputs};

fn captured(name: &str) -> CaptureOutput {
    let image = RgbaImage {
        width: 1,
        height: 1,
        data: vec![0, 0, 0, 255],
        has_alpha: true,
    };
    CaptureOutput {
        name: name.to_owned(),
        logical_rect: Rect::new(0, 0, 1, 1),
        screenshot_with_pointer: image.clone(),
        screenshot_without_pointer: image,
    }
}

#[test]
fn captured_outputs_are_matched_by_name() {
    let captures = vec![captured("DP-1"), captured("gone"), captured("eDP-1")];
    let known = vec![None, Some("eDP-1".to_owned()), Some("DP-1".to_owned()), Some("DP-1".to_owned())];
    assert_eq!(match_outputs(&captures, &known), Some(vec![(0, 2), (2, 1)]));
    assert_eq!(match_outputs(&captures, &[None]), None);
    assert_eq!(match_outputs(&[], &known), None);
}

#[test]
fn overlay_outputs_start_at_their_own_origin() {
    let outputs = overlay_model_outputs(&[Size::new(1920, 1080), Size::new(800, 600)]);
    assert_eq!(outputs.len(), 2);
    assert_eq!(outputs[1].logical_rect, Rect::new(0, 0, 800, 600));
}

#[test]
fn copy_only_never_saves() {
    let options = CaptureOptions {
        write_to_disk: true,
        show_pointer: true,
        path: None,
    };
    let mut result = OverlayResult {
        region: Rect::new(0, 0, 1, 1),
        show_pointer: true,
        write_to_disk: false,
    };
    assert!(!options.saves_selection(&result));
    result.write_to_disk = true;
    assert!(options.saves_selection(&result));
    let no_disk = CaptureOptions {
        write_to_disk: false,
        ..options
    };
    assert!(!no_disk.saves_selection(&result));
}

#[test]
fn model_on_an_empty_output_starts_with_one_pixel() {
    let model = SelectionModel::new(overlay_model_outputs(&[Size::new(0, 0)]), 0, false);
    assert_eq!(model.selection_on_output(0), Some(Rect::new(0, 0, 1, 1)));
    let model = SelectionModel::new(
        vec![OutputState {
            logical_rect: Rect::new(0, 0, -10, 7),
        }],
        0,
        false,
    );
    assert_eq!(model.selection_on_output(0), Some(Rect::new(-2, 1, 1, 3)));
}

#[test]
fn far_points_are_handled_where_no_arithmetic_leaves_i32() {
    let mut model = SelectionModel::new(outputs(), 0, true);
    let far = Point::new(i32::MIN, i32::MAX);
    // Nothing pressed: any motion is ignored.
    assert!(model.motion_fits(0, far));
    assert!(!model.pointer_motion(0, far));
    // A press anywhere is recorded as it is.
    assert!(model.pointer_down(0, far, false));
    assert_eq!(model.selection_on_output(0), Some(Rect::new(i32::MIN, i32::MAX, 1, 1)));
    // Spanning to the other end would overflow.
    assert!(!model.motion_fits(0, Point::new(i32::MAX, i32::MIN)));
    // Releasing there would place the click square below i32::MIN.
    assert!(!model.release_fits(0, far, false));
    assert!(model.release_fits(0, Point::new(1_000_000_000, 2_000_000_000), false));
    assert_eq!(
        model.pointer_up(0, Point::new(1_000_000_000, 2_000_000_000), false),
        snappers::state::PointerUpOutcome::Redraw
    );
    assert_eq!(model.capture_region(), Rect::new(1888, 1048, 32, 32));
}

#[test]
fn key_and_release_checks_follow_the_command() {
    let keymap = Keymap::default();
    let mut model = SelectionModel::new(
        vec![OutputState {
            logical_rect: Rect::new(i32::MAX - 5, 0, 50, 50),
        }],
        0,
        true,
    );
    // The region's global x would leave i32.
    assert!(!model.capture_fits());
    assert!(!key_press_fits(&model, &keymap, KEY_RETURN, none(), false));
    assert!(key_press_fits(&model, &keymap, KEY_LEFT, none(), false));
    assert!(key_press_fits(&model, &keymap, KEY_ESCAPE, none(), false));
    assert_eq!(handle_key_press(&mut model, &keymap, KEY_LEFT, none(), false), None);
    let size = Size::new(1920, 1080);
    assert!(pointer_up_fits(&model, 0, Point::new(5, 5), size, &panels()));
    let mut model = SelectionModel::new(outputs(), 0, true);
    let panel = panel_rect_for_overlay(size, &panels().hide_pointer);
    let button = Point::new(panel.x + 8 + 14, panel.y + 24);
    assert!(!handle_pointer_down(&mut model, 0, button, size, &panels()));
    assert!(pointer_up_fits(&model, 0, button, size, &panels()));
}

#[test]
fn cycling_onto_an_empty_output_is_refused_by_the_check() {
    let model = SelectionModel::new(
        vec![
            OutputState {
                logical_rect: Rect::new(0, 0, 100, 100),
            },
            OutputState {
                logical_rect: Rect::new(100, 0, 0, 100),
            },
        ],
        0,
        true,
    );
    assert!(!model.cycle_fits(1));
    assert!(model.nudge_fits(16, 0));
    assert!(model.resize_fits(0, -16));
}
