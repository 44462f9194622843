use vstd::prelude::*;

use crate::capture::RgbaImage;
use crate::geometry::{max_spec, Point, Rect, Size};

verus! {

/// Width of the white frame drawn around the selection.
pub const SELECTION_BORDER: i32 = 2;

/// Gap between the help panel and the edges of what surrounds it.
pub const PADDING: i32 = 8;

/// Radius of the capture button drawn on the help panel.
pub const RADIUS: i32 = 16;

/// Width of the help panel's frame.
pub const BORDER: i32 = 4;

/// A premultiplied BGRA pixel buffer (Cairo's `ARGB32` byte order on little-endian hosts).
#[derive(Debug, Clone)]
pub struct PixelSurface {
    pub width: i32,
    pub height: i32,
    pub data: Vec<u8>,
}

/// The two pre-rendered help panels: one offering to show the pointer, one to hide it.
#[derive(Debug, Clone)]
pub struct PanelAssets {
    pub show_pointer: PixelSurface,
    pub hide_pointer: PixelSurface,
}

/// `channel * alpha / 255`, rounded to nearest.
pub open spec fn premultiply(channel: u8, alpha: u8) -> u8 {
    ((channel as int * alpha as int + 127) / 255) as u8
}

/// Straight RGBA pixels converted to premultiplied BGRA, pixel by pixel.
pub open spec fn premultiplied_bgra(rgba: Seq<u8>) -> Seq<u8>
    decreases rgba.len(),
{
    if rgba.len() < 4 {
        Seq::empty()
    } else {
        let n = rgba.len() as int;
        let r = rgba[n - 4];
        let g = rgba[n - 3];
        let b = rgba[n - 2];
        let a = rgba[n - 1];
        premultiplied_bgra(rgba.subrange(0, n - 4)) + seq![
            premultiply(b, a),
            premultiply(g, a),
            premultiply(r, a),
            a,
        ]
    }
}

fn premultiply_channel(channel: u8, alpha: u8) -> (r: u8)
    ensures
        r == premultiply(channel, alpha),
{
    assert(channel as u32 * alpha as u32 <= 255 * 255) by (nonlinear_arith)
        requires
            channel <= 255,
            alpha <= 255,
    ;
    ((channel as u32 * alpha as u32 + 127) / 255) as u8
}

/// Converting whole pixels keeps the number of bytes.
proof fn lemma_premultiplied_len(rgba: Seq<u8>)
    requires
        rgba.len() % 4 == 0,
    ensures
        premultiplied_bgra(rgba).len() == rgba.len(),
    decreases rgba.len(),
{
    if rgba.len() >= 4 {
        lemma_premultiplied_len(rgba.subrange(0, rgba.len() - 4));
    }
}

impl PixelSurface {
    /// Converts an RGBA image to the premultiplied BGRA layout Cairo paints from.
    pub fn from_rgba_image(image: &RgbaImage) -> (r: Self)
        requires
            image.wf(),
        ensures
            r.width == image.width as i32,
            r.height == image.height as i32,
            r.data@ == premultiplied_bgra(image.data@),
            r.data@.len() == image.data@.len(),
    {
        let mut data: Vec<u8> = Vec::new();
        let len = image.data.len();
        let mut i: usize = 0;
        proof {
            vstd::arithmetic::div_mod::lemma_mod_multiples_basic(
                (image.width as int) * (image.height as int),
                4,
            );
            assert(4 * (image.width as int) * (image.height as int) == (image.width as int)
                * (image.height as int) * 4) by (nonlinear_arith);
            assert(image.data@.subrange(0, 0) =~= Seq::<u8>::empty());
        }
        while i < len
            invariant
                len == image.data@.len(),
                len % 4 == 0,
                i % 4 == 0,
                i <= len,
                data@ == premultiplied_bgra(image.data@.subrange(0, i as int)),
            decreases len - i,
        {
            let r = image.data[i];
            let g = image.data[i + 1];
            let b = image.data[i + 2];
            let a = image.data[i + 3];
            data.push(premultiply_channel(b, a));
            data.push(premultiply_channel(g, a));
            data.push(premultiply_channel(r, a));
            data.push(a);
            proof {
                let next = image.data@.subrange(0, i + 4);
                assert(next.subrange(0, i as int) =~= image.data@.subrange(0, i as int));
                assert(data@ =~= premultiplied_bgra(next));
            }
            i = i + 4;
        }
        proof {
            assert(image.data@.subrange(0, len as int) =~= image.data@);
            lemma_premultiplied_len(image.data@);
        }
        PixelSurface {
            width: #[verifier::truncate] (image.width as i32),
            height: #[verifier::truncate] (image.height as i32),
            data,
        }
    }
}

/// Where the help panel goes: centered horizontally, `2 * PADDING` above the bottom edge,
/// never left of or above the output's origin.
pub open spec fn panel_location_spec(output_size: Size, panel_size: Size) -> Point {
    Point {
        x: max_spec((output_size.width - panel_size.width) / 2, 0) as i32,
        y: max_spec(output_size.height - panel_size.height - PADDING * 2, 0) as i32,
    }
}

/// Top-left corner of the help panel on an output.
pub fn panel_location(output_size: Size, panel_size: Size) -> (r: Point)
    requires
        i32::MIN <= output_size.width - panel_size.width <= i32::MAX,
        i32::MIN <= output_size.height - panel_size.height <= i32::MAX,
        i32::MIN <= output_size.height - panel_size.height - PADDING * 2 <= i32::MAX,
    ensures
        r == panel_location_spec(output_size, panel_size),
{
    let dx = output_size.width - panel_size.width;
    let x = if dx >= 0 {
        dx / 2
    } else {
        0
    };
    let y = (output_size.height - panel_size.height - PADDING * 2).max(0);
    Point::new(x, y)
}

/// Half of `v`, rounded toward zero as integer division does.
pub open spec fn half_toward_zero(v: int) -> int {
    if v >= 0 {
        v / 2
    } else {
        -((-v) / 2)
    }
}

/// Center of the capture button of a panel placed at `panel_rect`.
pub open spec fn capture_button_center(panel_rect: Rect) -> (int, int) {
    (panel_rect.x + PADDING + (RADIUS - 2), panel_rect.y + half_toward_zero(panel_rect.height as int))
}

/// The point lies on the capture button: within `RADIUS - 2` of its center.
pub open spec fn capture_button_hit_spec(panel_rect: Rect, point: Point) -> bool {
    let (xc, yc) = capture_button_center(panel_rect);
    let dx = point.x - xc;
    let dy = point.y - yc;
    dx * dx + dy * dy <= (RADIUS - 2) * (RADIUS - 2)
}

/// Whether `point` is on the round capture button of the panel at `panel_rect`.
/// The distance is computed exactly, so far-away points never wrap around.
pub fn capture_button_hit(panel_rect: Rect, point: Point) -> (r: bool)
    ensures
        r == capture_button_hit_spec(panel_rect, point),
{
    let radius: i128 = (RADIUS - 2) as i128;
    let xc: i128 = panel_rect.x as i128 + PADDING as i128 + radius;
    let height: i128 = panel_rect.height as i128;
    let half: i128 = if height >= 0 {
        height / 2
    } else {
        -((-height) / 2)
    };
    let yc: i128 = panel_rect.y as i128 + half;
    let dx: i128 = point.x as i128 - xc;
    let dy: i128 = point.y as i128 - yc;
    assert(dx * dx <= 0x1_0000_0000_0000_0000_0000 && dy * dy <= 0x1_0000_0000_0000_0000_0000)
        by (nonlinear_arith)
        requires
            -0x4_0000_0000 <= dx <= 0x4_0000_0000,
            -0x4_0000_0000 <= dy <= 0x4_0000_0000,
    ;
    assert(dx * dx >= 0 && dy * dy >= 0) by (nonlinear_arith);
    dx * dx + dy * dy <= radius * radius
}

/// Size of a help panel around a text block of `text_size`: the capture button and
/// paddings to its left, paddings around, at least the button's height.
pub open spec fn panel_size_for_text_spec(text_size: Size) -> Size {
    Size {
        width: (text_size.width + PADDING + RADIUS * 2 + PADDING - BORDER / 2 + PADDING) as i32,
        height: (max_spec(text_size.height as int, RADIUS * 2) + PADDING * 2) as i32,
    }
}

/// The extent of a help panel whose laid-out text measures `text_size`.
pub fn panel_size_for_text(text_size: Size) -> (r: Size)
    requires
        text_size.width + PADDING + RADIUS * 2 + PADDING - BORDER / 2 + PADDING <= i32::MAX,
        text_size.height + PADDING * 2 <= i32::MAX,
    ensures
        r == panel_size_for_text_spec(text_size),
{
    let width = text_size.width + PADDING + RADIUS * 2 + PADDING - BORDER / 2 + PADDING;
    let height = text_size.height.max(RADIUS * 2) + PADDING * 2;
    Size::new(width, height)
}

} // verus!
