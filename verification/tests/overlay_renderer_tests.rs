use snappers::geometry::{Rect, Size};
use snappers::overlay_renderer::{
    border_rects, mask_rects, physical_extent, solid_instances, SolidColor,
};

#[test]
fn solid_instances_cover_masks_and_border() {
    let instances = solid_instances(Size::new(800, 600), Some(Rect::new(100, 120, 200, 160)));
    assert_eq!(instances.len(), 8);
    assert_eq!(instances[0].rect, Rect::new(0, 0, 800, 120));
}

#[test]
fn solid_instances_dim_whole_output_without_selection() {
    let instances = solid_instances(Size::new(800, 600), None);
    assert_eq!(instances.len(), 1);
    assert_eq!(instances[0].rect, Rect::new(0, 0, 800, 600));
}

#[test]
fn masks_surround_the_selection() {
    let sel = Rect::new(100, 120, 200, 160);
    assert_eq!(
        mask_rects(Size::new(800, 600), sel),
        [
            Rect::new(0, 0, 800, 120),
            Rect::new(0, 280, 800, 320),
            Rect::new(0, 120, 100, 160),
            Rect::new(300, 120, 500, 160),
        ]
    );
    assert_eq!(
        border_rects(sel),
        [
            Rect::new(99, 119, 202, 2),
            Rect::new(99, 279, 202, 2),
            Rect::new(99, 119, 2, 162),
            Rect::new(299, 119, 2, 162),
        ]
    );
    let instances = solid_instances(Size::new(800, 600), Some(sel));
    assert!(instances[..4].iter().all(|i| i.color == SolidColor::Dim));
    assert!(instances[4..].iter().all(|i| i.color == SolidColor::Border));
    assert_eq!(instances[7].rect, Rect::new(299, 119, 2, 162));
}

#[test]
fn masks_never_have_negative_extent() {
    let sel = Rect::new(-10, -20, 900, 700);
    let masks = mask_rects(Size::new(800, 600), sel);
    assert_eq!(masks[0].height, 0);
    assert_eq!(masks[1].height, 0);
    assert_eq!(masks[2].width, 0);
    assert_eq!(masks[3].width, 0);
}

#[test]
fn physical_extent_is_at_least_one_and_saturates() {
    assert_eq!(physical_extent(800, 2), 1600);
    assert_eq!(physical_extent(0, 0), 1);
    assert_eq!(physical_extent(-5, 3), 3);
    assert_eq!(physical_extent(i32::MAX, 2), i32::MAX as u32);
}

use snappers::overlay_renderer::{textured_instances, TexturedInstance};

#[test]
fn textured_quads_are_capture_then_panel() {
    let quads = textured_instances(Size::new(1920, 1080), Size::new(400, 48), false);
    assert_eq!(
        quads,
        [
            TexturedInstance {
                rect: Rect::new(0, 0, 1920, 1080),
                opacity_percent: 100,
            },
            TexturedInstance {
                rect: Rect::new(760, 1016, 400, 48),
                opacity_percent: 90,
            },
        ]
    );
    let dragging = textured_instances(Size::new(1920, 1080), Size::new(400, 48), true);
    assert_eq!(dragging[1].opacity_percent, 30);
}

use snappers::overlay_renderer::solid_instances_fit;

#[test]
fn layout_fits_unless_an_edge_leaves_i32() {
    let size = Size::new(800, 600);
    assert!(solid_instances_fit(size, None));
    assert!(solid_instances_fit(size, Some(Rect::new(100, 120, 200, 160))));
    assert!(solid_instances_fit(
        Size::new(i32::MAX, i32::MAX),
        Some(Rect::new(0, 0, 1 << 30, 1 << 30))
    ));
    assert!(!solid_instances_fit(size, Some(Rect::new(i32::MAX, 0, 1, 1))));
    assert!(!solid_instances_fit(size, Some(Rect::new(i32::MIN, 0, 1, 1))));
    assert!(!solid_instances_fit(size, Some(Rect::new(0, 0, i32::MAX - 1, 1))));
    let big = solid_instances(
        Size::new(i32::MAX, i32::MAX),
        Some(Rect::new(0, 0, 1 << 30, 1 << 30)),
    );
    assert_eq!(big[1].rect, Rect::new(0, 1 << 30, i32::MAX, i32::MAX - (1 << 30)));
}
