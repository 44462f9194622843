use snappers::capture::RgbaImage;
use snappers::geometry::{Point, Rect, Size};
use snappers::render::{
    capture_button_hit, panel_location, panel_size_for_text, PixelSurface, BORDER, PADDING,
    RADIUS, SELECTION_BORDER,
};

#[test]
fn corners_span_both_points_in_any_order() {
    let a = Point::new(10, 40);
    let b = Point::new(30, 20);
    assert_eq!(Rect::from_corners(a, b), Rect::new(10, 20, 21, 21));
    assert_eq!(Rect::from_corners(b, a), Rect::new(10, 20, 21, 21));
    assert_eq!(Rect::from_corners(a, a), Rect::new(10, 40, 1, 1));
}

#[test]
fn clamp_limits_extent_then_moves_inside() {
    let bounds = Rect::new(100, 50, 800, 600);
    assert_eq!(Rect::new(0, 0, 10, 10).clamp_within(bounds), Rect::new(100, 50, 10, 10));
    assert_eq!(
        Rect::new(850, 600, 100, 100).clamp_within(bounds),
        Rect::new(800, 550, 100, 100)
    );
    assert_eq!(
        Rect::new(0, 0, 5000, -3).clamp_within(bounds),
        Rect::new(100, 50, 800, 1)
    );
    let inside = Rect::new(200, 100, 40, 30);
    assert_eq!(inside.clamp_within(bounds), inside);
    let once = Rect::new(-7, 900, 9000, 2).clamp_within(bounds);
    assert_eq!(once.clamp_within(bounds), once);
}

#[test]
fn panel_is_centered_above_the_bottom_edge() {
    assert_eq!(
        panel_location(Size::new(1920, 1080), Size::new(400, 48)),
        Point::new(760, 1080 - 48 - 2 * PADDING)
    );
    assert_eq!(panel_location(Size::new(100, 20), Size::new(400, 48)), Point::new(0, 0));
}

#[test]
fn panel_size_wraps_the_text() {
    assert_eq!(
        panel_size_for_text(Size::new(300, 20)),
        Size::new(300 + PADDING * 3 + RADIUS * 2 - BORDER / 2, RADIUS * 2 + PADDING * 2)
    );
    assert_eq!(panel_size_for_text(Size::new(300, 50)), Size::new(354, 66));
    assert_eq!(SELECTION_BORDER, 2);
}

#[test]
fn capture_button_is_a_disc() {
    let panel = Rect::new(100, 200, 400, 48);
    // Center: (100 + 8 + 14, 200 + 24).
    assert!(capture_button_hit(panel, Point::new(122, 224)));
    assert!(capture_button_hit(panel, Point::new(136, 224)));
    assert!(!capture_button_hit(panel, Point::new(137, 224)));
    assert!(!capture_button_hit(panel, Point::new(133, 235)));
    assert!(!capture_button_hit(panel, Point::new(i32::MIN, i32::MAX)));
}

#[test]
fn pixels_become_premultiplied_bgra() {
    let image = RgbaImage {
        width: 2,
        height: 1,
        data: vec![255, 128, 0, 255, 200, 100, 50, 128],
        has_alpha: true,
    };
    let surface = PixelSurface::from_rgba_image(&image);
    assert_eq!(surface.width, 2);
    assert_eq!(surface.height, 1);
    assert_eq!(surface.data, vec![0, 128, 255, 255, 25, 50, 100, 128]);
}

#[test]
fn placement_and_button_accept_any_signs() {
    assert_eq!(panel_location(Size::new(-10, -10), Size::new(-30, 5)), Point::new(10, 0));
    assert_eq!(panel_location(Size::new(10, 100), Size::new(4, 20)), Point::new(3, 64));
    // A panel of negative height has its button center at y + height / 2, rounded
    // toward zero.
    let panel = Rect::new(0, 0, 100, -5);
    assert!(capture_button_hit(panel, Point::new(22, -2)));
    assert!(capture_button_hit(panel, Point::new(22, 12)));
    assert!(!capture_button_hit(panel, Point::new(22, 13)));
}

#[test]
fn premultiplied_surface_keeps_the_byte_count() {
    let image = RgbaImage {
        width: 3,
        height: 2,
        data: vec![7; 24],
        has_alpha: true,
    };
    let surface = PixelSurface::from_rgba_image(&image);
    assert_eq!(surface.data.len(), 24);
    assert_eq!(&surface.data[0..4], &[0, 0, 0, 7]);
}
