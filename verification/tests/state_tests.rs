use snappers::geometry::{Point, Rect};
use snappers::state::{ButtonState, OutputState, PointerUpOutcome, SelectionModel};

fn outputs() -> Vec<OutputState> {
    vec![
        OutputState {
            logical_rect: Rect::new(0, 0, 1920, 1080),
        },
        OutputState {
            logical_rect: Rect::new(1920, 0, 2560, 1440),
        },
    ]
}

#[test]
fn default_rect_is_centered() {
    let model = SelectionModel::new(outputs(), 0, true);
    assert_eq!(model.capture_region(), Rect::new(480, 270, 960, 540));
}

#[test]
fn click_expands_to_default_size() {
    let mut model = SelectionModel::new(outputs(), 0, true);
    assert!(model.pointer_down(0, Point::new(50, 50), false));
    assert_eq!(
        model.pointer_up(0, Point::new(50, 50), false),
        PointerUpOutcome::Redraw
    );
    assert_eq!(model.capture_region(), Rect::new(34, 34, 32, 32));
}

#[test]
fn cycles_outputs_preserving_relative_origin() {
    let mut model = SelectionModel::new(outputs(), 0, true);
    model.cycle_output(1);
    assert_eq!(model.selected_output_index(), 1);
    assert_eq!(model.capture_region(), Rect::new(2560, 360, 960, 540));
}

#[test]
fn resize_clamps_to_output() {
    let mut model = SelectionModel::new(outputs(), 0, true);
    for _ in 0..100 {
        model.resize_right();
    }
    assert!(model.capture_region().width <= 1920);
}

#[test]
fn capture_region_includes_global_output_origin() {
    let outputs = vec![OutputState {
        logical_rect: Rect::new(-1600, 200, 1600, 900),
    }];
    let model = SelectionModel::new(outputs, 0, true);
    assert_eq!(model.capture_region(), Rect::new(-1200, 425, 800, 450));
}

#[test]
fn click_near_corner_stays_inside_output() {
    let mut model = SelectionModel::new(outputs(), 0, true);
    assert!(model.pointer_down(0, Point::new(3, 1075), false));
    assert_eq!(model.pointer_up(0, Point::new(3, 1075), false), PointerUpOutcome::Redraw);
    assert_eq!(model.capture_region(), Rect::new(0, 1048, 32, 32));
}

#[test]
fn drag_spans_both_corners() {
    let mut model = SelectionModel::new(outputs(), 1, false);
    assert!(model.pointer_down(1, Point::new(300, 200), false));
    assert!(model.dragging_selection());
    assert!(model.pointer_motion(1, Point::new(100, 50)));
    assert_eq!(model.selection_on_output(1), Some(Rect::new(100, 50, 201, 151)));
    assert_eq!(model.selection_on_output(0), None);
    assert_eq!(model.pointer_up(1, Point::new(100, 50), false), PointerUpOutcome::Redraw);
    assert_eq!(model.capture_region(), Rect::new(2020, 50, 201, 151));
    assert_eq!(model.button_state(), ButtonState::Up);
}

#[test]
fn motion_on_other_output_is_ignored() {
    let mut model = SelectionModel::new(outputs(), 0, true);
    assert!(model.pointer_down(0, Point::new(10, 10), false));
    assert!(!model.pointer_motion(1, Point::new(500, 500)));
    assert_eq!(model.pointer_up(1, Point::new(500, 500), false), PointerUpOutcome::Ignored);
    assert_eq!(model.selection_on_output(0), Some(Rect::new(10, 10, 1, 1)));
}

#[test]
fn capture_button_press_and_release_confirms() {
    let mut model = SelectionModel::new(outputs(), 0, true);
    assert!(!model.pointer_down(0, Point::new(40, 40), true));
    assert!(!model.dragging_selection());
    assert!(!model.pointer_motion(0, Point::new(42, 41)));
    assert_eq!(model.pointer_up(0, Point::new(42, 41), true), PointerUpOutcome::Confirm);
}

#[test]
fn capture_button_press_released_elsewhere_selects_square() {
    let mut model = SelectionModel::new(outputs(), 0, true);
    assert!(!model.pointer_down(0, Point::new(40, 40), true));
    assert_eq!(model.pointer_up(0, Point::new(100, 100), false), PointerUpOutcome::Redraw);
    assert_eq!(model.capture_region(), Rect::new(84, 84, 32, 32));
}

#[test]
fn second_press_is_ignored_while_button_is_down() {
    let mut model = SelectionModel::new(outputs(), 0, true);
    assert!(model.pointer_down(0, Point::new(10, 10), false));
    assert!(!model.pointer_down(1, Point::new(20, 20), false));
    assert_eq!(model.selected_output_index(), 0);
}

#[test]
fn move_mode_shifts_selection() {
    let mut model = SelectionModel::new(outputs(), 0, true);
    assert!(model.pointer_down(0, Point::new(100, 100), false));
    assert!(model.pointer_motion(0, Point::new(200, 150)));
    model.set_move_mode(true);
    assert!(model.pointer_motion(0, Point::new(210, 170)));
    assert_eq!(model.selection_on_output(0), Some(Rect::new(110, 120, 101, 51)));
    model.set_move_mode(false);
    assert!(model.pointer_motion(0, Point::new(220, 180)));
    assert_eq!(model.selection_on_output(0), Some(Rect::new(210, 170, 11, 11)));
}

#[test]
fn keyboard_moves_and_resizes_by_step() {
    let mut model = SelectionModel::new(outputs(), 0, true);
    model.move_left();
    model.move_up();
    assert_eq!(model.capture_region(), Rect::new(464, 254, 960, 540));
    model.move_right();
    model.move_down();
    model.move_down();
    assert_eq!(model.capture_region(), Rect::new(480, 286, 960, 540));
    model.resize_left();
    model.resize_up();
    assert_eq!(model.capture_region(), Rect::new(480, 286, 944, 524));
    model.resize_down();
    model.resize_right();
    assert_eq!(model.capture_region(), Rect::new(480, 286, 960, 540));
}

#[test]
fn moving_stops_at_output_edge() {
    let mut model = SelectionModel::new(outputs(), 0, true);
    for _ in 0..100 {
        model.move_left();
        model.move_up();
    }
    assert_eq!(model.capture_region(), Rect::new(0, 0, 960, 540));
    for _ in 0..100 {
        model.resize_left();
    }
    assert_eq!(model.capture_region().width, 1);
}

#[test]
fn cycling_wraps_around_both_ways() {
    let mut model = SelectionModel::new(outputs(), 0, true);
    model.cycle_output(-1);
    assert_eq!(model.selected_output_index(), 1);
    model.cycle_output(1);
    assert_eq!(model.selected_output_index(), 0);
    assert_eq!(model.capture_region(), Rect::new(480, 270, 960, 540));
    model.cycle_output(2);
    assert_eq!(model.selected_output_index(), 0);
}

#[test]
fn cycling_with_one_output_changes_nothing() {
    let outputs = vec![OutputState {
        logical_rect: Rect::new(0, 0, 800, 600),
    }];
    let mut model = SelectionModel::new(outputs, 0, true);
    model.cycle_output(1);
    assert_eq!(model.capture_region(), Rect::new(200, 150, 400, 300));
}

#[test]
fn cycling_to_smaller_output_cuts_and_rounds() {
    let outputs = vec![
        OutputState {
            logical_rect: Rect::new(0, 0, 3, 3),
        },
        OutputState {
            logical_rect: Rect::new(3, 0, 2, 2),
        },
    ];
    let mut model = SelectionModel::new(outputs, 0, true);
    // Selection (0, 0, 1, 1) on the 3x3 output.
    assert_eq!(model.capture_region(), Rect::new(0, 0, 1, 1));
    model.move_right();
    model.move_down();
    assert_eq!(model.capture_region(), Rect::new(2, 2, 1, 1));
    model.cycle_output(1);
    // 2 * 2 / 3 = 1.33 rounds to 1.
    assert_eq!(model.capture_region(), Rect::new(4, 1, 1, 1));
}

#[test]
fn toggling_pointer_twice_restores_it() {
    let mut model = SelectionModel::new(outputs(), 0, false);
    model.toggle_pointer();
    assert!(model.pointer_shown());
    model.toggle_pointer();
    assert!(!model.pointer_shown());
}
