use vstd::prelude::*;

use crate::geometry::{max_spec, Point, Rect, Size};
use crate::render::{panel_location, panel_location_spec, SELECTION_BORDER};

verus! {

/// Which of the two flat colors a solid quad is painted with.
#[derive(Debug, Clone, Copy, PartialEq, Eq, Structural)]
pub enum SolidColor {
    /// Half-transparent black over the parts of the output outside the selection.
    Dim,
    /// Opaque white of the frame around the selection.
    Border,
}

/// A flat-colored rectangle the GPU overlay draws.
#[derive(Debug, Clone, Copy, PartialEq, Eq, Structural)]
pub struct SolidInstance {
    pub rect: Rect,
    pub color: SolidColor,
}

pub open spec fn fits_i32(v: int) -> bool {
    i32::MIN <= v <= i32::MAX
}

/// The sums and differences that the dimmed bands are built from fit in `i32`.
pub open spec fn mask_rects_fit(output_size: Size, selection: Rect) -> bool {
    &&& fits_i32(selection.y + selection.height)
    &&& fits_i32(output_size.height - selection.y)
    &&& fits_i32(output_size.height - selection.y - selection.height)
    &&& fits_i32(selection.x + selection.width)
    &&& fits_i32(output_size.width - selection.x)
    &&& fits_i32(output_size.width - selection.x - selection.width)
}

/// The sums and differences that the frame bars are built from fit in `i32`.
pub open spec fn border_rects_fit(selection: Rect) -> bool {
    let b = max_spec(SELECTION_BORDER as int, 1);
    let h = b / 2;
    &&& fits_i32(selection.x - h)
    &&& fits_i32(selection.y - h)
    &&& fits_i32(selection.width + b)
    &&& fits_i32(selection.height + b)
    &&& fits_i32(selection.y + selection.height)
    &&& fits_i32(selection.y + selection.height - h)
    &&& fits_i32(selection.x + selection.width)
    &&& fits_i32(selection.x + selection.width - h)
}

/// Extent in device pixels of a logical extent at an integer scale: both at least one,
/// the product saturating at `i32::MAX`.
pub open spec fn physical_extent_spec(logical_extent: i32, scale_factor: i32) -> u32 {
    let p = max_spec(logical_extent as int, 1) * max_spec(scale_factor as int, 1);
    (if p > i32::MAX {
        i32::MAX as int
    } else {
        p
    }) as u32
}

pub fn physical_extent(logical_extent: i32, scale_factor: i32) -> (r: u32)
    ensures
        r == physical_extent_spec(logical_extent, scale_factor),
{
    let a = logical_extent.max(1) as i64;
    let b = scale_factor.max(1) as i64;
    assert(1 <= a * b <= 0x4000_0000_0000_0000) by (nonlinear_arith)
        requires
            1 <= a <= 0x7fff_ffff,
            1 <= b <= 0x7fff_ffff,
    ;
    let p = a * b;
    if p > i32::MAX as i64 {
        i32::MAX as u32
    } else {
        p as u32
    }
}

/// The four dimmed bands around a selection: above, below, left and right of it
/// (negative extents become empty).
pub open spec fn mask_rects_spec(output_size: Size, selection: Rect) -> Seq<Rect> {
    seq![
        Rect { x: 0, y: 0, width: output_size.width, height: max_spec(selection.y as int, 0) as i32 },
        Rect {
            x: 0,
            y: (selection.y + selection.height) as i32,
            width: output_size.width,
            height: max_spec(output_size.height - selection.y - selection.height, 0) as i32,
        },
        Rect { x: 0, y: selection.y, width: max_spec(selection.x as int, 0) as i32, height: selection.height },
        Rect {
            x: (selection.x + selection.width) as i32,
            y: selection.y,
            width: max_spec(output_size.width - selection.x - selection.width, 0) as i32,
            height: selection.height,
        },
    ]
}

/// The four bars of the frame around a selection, centered on its edges:
/// top, bottom, left and right.
pub open spec fn border_rects_spec(selection: Rect) -> Seq<Rect> {
    let b = max_spec(SELECTION_BORDER as int, 1);
    let h = b / 2;
    seq![
        Rect { x: (selection.x - h) as i32, y: (selection.y - h) as i32, width: (selection.width + b) as i32, height: b as i32 },
        Rect {
            x: (selection.x - h) as i32,
            y: (selection.y + selection.height - h) as i32,
            width: (selection.width + b) as i32,
            height: b as i32,
        },
        Rect { x: (selection.x - h) as i32, y: (selection.y - h) as i32, width: b as i32, height: (selection.height + b) as i32 },
        Rect {
            x: (selection.x + selection.width - h) as i32,
            y: (selection.y - h) as i32,
            width: b as i32,
            height: (selection.height + b) as i32,
        },
    ]
}

pub fn mask_rects(output_size: Size, selection: Rect) -> (r: [Rect; 4])
    requires
        mask_rects_fit(output_size, selection),
    ensures
        r@ == mask_rects_spec(output_size, selection),
{
    let r = [
        Rect::new(0, 0, output_size.width, selection.y.max(0)),
        Rect::new(
            0,
            selection.y + selection.height,
            output_size.width,
            (output_size.height - selection.y - selection.height).max(0),
        ),
        Rect::new(0, selection.y, selection.x.max(0), selection.height),
        Rect::new(
            selection.x + selection.width,
            selection.y,
            (output_size.width - selection.x - selection.width).max(0),
            selection.height,
        ),
    ];
    assert(r@ =~= mask_rects_spec(output_size, selection));
    r
}

pub fn border_rects(selection: Rect) -> (r: [Rect; 4])
    requires
        border_rects_fit(selection),
    ensures
        r@ == border_rects_spec(selection),
{
    let border = SELECTION_BORDER.max(1);
    let r = [
        Rect::new(
            selection.x - border / 2,
            selection.y - border / 2,
            selection.width + border,
            border,
        ),
        Rect::new(
            selection.x - border / 2,
            selection.y + selection.height - border / 2,
            selection.width + border,
            border,
        ),
        Rect::new(
            selection.x - border / 2,
            selection.y - border / 2,
            border,
            selection.height + border,
        ),
        Rect::new(
            selection.x + selection.width - border / 2,
            selection.y - border / 2,
            border,
            selection.height + border,
        ),
    ];
    assert(r@ =~= border_rects_spec(selection));
    r
}

/// Whether [`solid_instances`] can lay out the quads of `selection` on an output of
/// `output_size` without leaving `i32`.
pub fn solid_instances_fit(output_size: Size, selection: Option<Rect>) -> (r: bool)
    ensures
        r == (selection matches Some(sel) ==> mask_rects_fit(output_size, sel) && border_rects_fit(sel)),
{
    match selection {
        None => true,
        Some(sel) => {
            let fits = |v: i64| -> (b: bool)
                ensures
                    b == fits_i32(v as int),
                { i32::MIN as i64 <= v && v <= i32::MAX as i64 };
            let (ox, oy) = (output_size.width as i64, output_size.height as i64);
            let (x, y, w, h) = (sel.x as i64, sel.y as i64, sel.width as i64, sel.height as i64);
            fits(y + h) && fits(oy - y) && fits(oy - y - h) && fits(x + w) && fits(ox - x) && fits(
                ox - x - w,
            ) && fits(x - 1) && fits(y - 1) && fits(w + 2) && fits(h + 2) && fits(y + h - 1) && fits(
                x + w - 1,
            )
        },
    }
}

/// The flat quads of one output: with a selection, the four dimmed bands followed by the
/// four frame bars; without one, a single band dimming the whole output.
pub open spec fn solid_instances_spec(output_size: Size, selection: Option<Rect>) -> Seq<SolidInstance> {
    match selection {
        Some(sel) => mask_rects_spec(output_size, sel).map_values(
            |r: Rect| SolidInstance { rect: r, color: SolidColor::Dim },
        ) + border_rects_spec(sel).map_values(
            |r: Rect| SolidInstance { rect: r, color: SolidColor::Border },
        ),
        None => seq![
            SolidInstance {
                rect: Rect { x: 0, y: 0, width: output_size.width, height: output_size.height },
                color: SolidColor::Dim,
            },
        ],
    }
}

pub fn solid_instances(output_size: Size, selection: Option<Rect>) -> (r: Vec<SolidInstance>)
    requires
        selection matches Some(sel) ==> mask_rects_fit(output_size, sel) && border_rects_fit(sel),
    ensures
        r@ == solid_instances_spec(output_size, selection),
{
    let mut instances: Vec<SolidInstance> = Vec::new();
    match selection {
        Some(selection) => {
            let dims = mask_rects(output_size, selection);
            let borders = border_rects(selection);
            let mut i: usize = 0;
            while i < 4
                invariant
                    i <= 4,
                    dims@ == mask_rects_spec(output_size, selection),
                    instances@ =~= dims@.subrange(0, i as int).map_values(
                        |r: Rect| SolidInstance { rect: r, color: SolidColor::Dim },
                    ),
                decreases 4 - i,
            {
                instances.push(SolidInstance { rect: dims[i], color: SolidColor::Dim });
                i = i + 1;
            }
            let ghost dimmed = instances@;
            let mut j: usize = 0;
            while j < 4
                invariant
                    j <= 4,
                    borders@ == border_rects_spec(selection),
                    instances@ =~= dimmed + borders@.subrange(0, j as int).map_values(
                        |r: Rect| SolidInstance { rect: r, color: SolidColor::Border },
                    ),
                decreases 4 - j,
            {
                instances.push(SolidInstance { rect: borders[j], color: SolidColor::Border });
                j = j + 1;
            }
            assert(dims@.subrange(0, 4) =~= dims@);
            assert(borders@.subrange(0, 4) =~= borders@);
        },
        None => {
            instances.push(
                SolidInstance {
                    rect: Rect::new(0, 0, output_size.width, output_size.height),
                    color: SolidColor::Dim,
                },
            );
        },
    }
    instances
}

/// A textured quad the GPU overlay draws: the captured screen or the help panel, painted
/// at `opacity_percent` percent opacity.
#[derive(Debug, Clone, Copy, PartialEq, Eq, Structural)]
pub struct TexturedInstance {
    pub rect: Rect,
    pub opacity_percent: u8,
}

/// Opacity of the help panel: faint while a selection is being dragged.
pub open spec fn panel_opacity_percent(dragging_selection: bool) -> u8 {
    if dragging_selection {
        30
    } else {
        90
    }
}

/// The textured quads of one output: the capture covering the whole output, opaque, then
/// the help panel at its place.
pub open spec fn textured_instances_spec(output_size: Size, panel: Size, dragging_selection: bool) -> Seq<TexturedInstance> {
    let p = panel_location_spec(output_size, panel);
    seq![
        TexturedInstance {
            rect: Rect { x: 0, y: 0, width: output_size.width, height: output_size.height },
            opacity_percent: 100,
        },
        TexturedInstance {
            rect: Rect { x: p.x, y: p.y, width: panel.width, height: panel.height },
            opacity_percent: panel_opacity_percent(dragging_selection),
        },
    ]
}

pub fn textured_instances(output_size: Size, panel: Size, dragging_selection: bool) -> (r: [TexturedInstance; 2])
    requires
        i32::MIN <= output_size.width - panel.width <= i32::MAX,
        i32::MIN <= output_size.height - panel.height <= i32::MAX,
        i32::MIN <= output_size.height - panel.height - crate::render::PADDING * 2 <= i32::MAX,
    ensures
        r@ == textured_instances_spec(output_size, panel, dragging_selection),
{
    let origin = panel_location(output_size, panel);
    let r = [
        TexturedInstance {
            rect: Rect::new(0, 0, output_size.width, output_size.height),
            opacity_percent: 100,
        },
        TexturedInstance {
            rect: Rect::new(origin.x, origin.y, panel.width, panel.height),
            opacity_percent: if dragging_selection {
                30
            } else {
                90
            },
        },
    ];
    assert(r@ =~= textured_instances_spec(output_size, panel, dragging_selection));
    r
}

/// The two rectangles have no pixel in common.
pub open spec fn no_common_pixel(a: Rect, b: Rect) -> bool {
    forall|p: Point| !(#[trigger] a.contains_point(p) && b.contains_point(p))
}

/// Only the frame is painted opaque: an output without the selection gets a single dimmed
/// quad over all of it; with the selection, the four dimmed quads come first and share no
/// pixel with the selection, together with it they cover every pixel of the output, and
/// only the four frame bars after them are painted with the frame color.
pub proof fn lemma_dim_outside_frame_on_selection(output_size: Size, selection: Option<Rect>)
    requires
        selection matches Some(sel) ==> mask_rects_fit(output_size, sel) && border_rects_fit(sel),
    ensures
        ({
            let q = solid_instances_spec(output_size, selection);
            match selection {
                None => q == seq![
                    SolidInstance {
                        rect: Rect { x: 0, y: 0, width: output_size.width, height: output_size.height },
                        color: SolidColor::Dim,
                    },
                ],
                Some(sel) => {
                    &&& q.len() == 8
                    &&& forall|i: int| 0 <= i < 8 ==> ((#[trigger] q[i]).color == SolidColor::Border <==> i >= 4)
                    &&& forall|i: int| 0 <= i < 4 ==> no_common_pixel(#[trigger] q[i].rect, sel)
                    &&& forall|p: Point|
                        (Rect { x: 0, y: 0, width: output_size.width, height: output_size.height }).contains_point(p)
                            && !sel.contains_point(p) ==> exists|i: int|
                            0 <= i < 4 && (#[trigger] q[i]).rect.contains_point(p)
                }
            }
        }),
{
    if let Some(sel) = selection {
        let q = solid_instances_spec(output_size, selection);
        let m = mask_rects_spec(output_size, sel);
        assert(q.len() == 8);
        assert forall|i: int| 0 <= i < 4 implies no_common_pixel(#[trigger] q[i].rect, sel) by {
            assert(q[i].rect == m[i]);
        }
        let out = Rect { x: 0, y: 0, width: output_size.width, height: output_size.height };
        assert forall|p: Point| out.contains_point(p) && !sel.contains_point(p) implies exists|i: int|
            0 <= i < 4 && (#[trigger] q[i]).rect.contains_point(p) by {
            if p.y < sel.y {
                assert(q[0].rect.contains_point(p));
            } else if p.y >= sel.y + sel.height {
                assert(q[1].rect.contains_point(p));
            } else if p.x < sel.x {
                assert(q[2].rect.contains_point(p));
            } else {
                assert(q[3].rect.contains_point(p));
            }
        }
    }
}

} // verus!
