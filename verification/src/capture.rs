use vstd::prelude::*;

use crate::geometry::Rect;
use crate::text::{concat_str, decimal_int, push_int, str_eq};

verus! {

/// An 8-bit RGBA image: `width * height` pixels, row by row, four bytes per pixel.
/// `has_alpha` tells whether the capture it came from carried an alpha channel; when it
/// did not, every alpha byte is 255 and the image is saved without one.
#[derive(Debug)]
pub struct RgbaImage {
    pub width: u32,
    pub height: u32,
    pub data: Vec<u8>,
    pub has_alpha: bool,
}

impl RgbaImage {
    /// The buffer holds exactly the pixels the dimensions announce.
    pub open spec fn wf(&self) -> bool {
        self.data@.len() == 4 * (self.width as int) * (self.height as int)
    }

    /// Two images are the same picture: same dimensions and same bytes.
    pub open spec fn same_picture(&self, other: &RgbaImage) -> bool {
        &&& self.width == other.width
        &&& self.height == other.height
        &&& self.data@ == other.data@
    }

    /// Same picture and same channel layout.
    pub open spec fn same_image(&self, other: &RgbaImage) -> bool {
        self.same_picture(other) && self.has_alpha == other.has_alpha
    }
}

impl Clone for RgbaImage {
    fn clone(&self) -> (r: Self)
        ensures
            r.same_image(self),
    {
        let data = self.data.clone();
        proof {
            assert(data@ =~= self.data@);
        }
        RgbaImage { width: self.width, height: self.height, data, has_alpha: self.has_alpha }
    }
}

/// One output as captured for the region picker: its name, its logical rectangle and a
/// capture with and without the pointer drawn.
#[derive(Debug, Clone)]
pub struct CaptureOutput {
    pub name: String,
    pub logical_rect: Rect,
    pub screenshot_with_pointer: RgbaImage,
    pub screenshot_without_pointer: RgbaImage,
}

/// All outputs captured at one moment.
#[derive(Debug, Clone)]
pub struct CaptureSnapshot {
    pub outputs: Vec<CaptureOutput>,
}

/// Why the capture could not go on.
#[derive(Debug, Clone, PartialEq, Eq)]
pub enum CaptureError {
    /// The compositor exposes no output.
    NoOutputs,
    /// No output changed when the pointer was toggled.
    NoOutputChanged,
    /// Several outputs changed when the pointer was toggled; their names in order.
    SeveralOutputsChanged(Vec<String>),
    /// The image could not be encoded as PNG.
    Encode,
}

/// The abstract value of a [`CaptureError`].
pub enum CaptureErrorView {
    NoOutputs,
    NoOutputChanged,
    SeveralOutputsChanged(Seq<Seq<char>>),
    Encode,
}

impl View for CaptureError {
    type V = CaptureErrorView;

    open spec fn view(&self) -> CaptureErrorView {
        match self {
            CaptureError::NoOutputs => CaptureErrorView::NoOutputs,
            CaptureError::NoOutputChanged => CaptureErrorView::NoOutputChanged,
            CaptureError::SeveralOutputsChanged(names) => CaptureErrorView::SeveralOutputsChanged(
                names@.map_values(|n: String| n@),
            ),
            CaptureError::Encode => CaptureErrorView::Encode,
        }
    }
}

/// The strings joined, `sep` between neighbours.
pub open spec fn join_spec(parts: Seq<Seq<char>>, sep: Seq<char>) -> Seq<char>
    decreases parts.len(),
{
    if parts.len() == 0 {
        Seq::empty()
    } else if parts.len() == 1 {
        parts[0]
    } else {
        join_spec(parts.drop_last(), sep) + sep + parts.last()
    }
}

fn join(parts: &Vec<String>, sep: &str) -> (r: String)
    ensures
        r@ == join_spec(parts@.map_values(|n: String| n@), sep@),
{
    let ghost views = parts@.map_values(|n: String| n@);
    let mut r = String::new();
    let mut i: usize = 0;
    while i < parts.len()
        invariant
            i <= parts@.len(),
            views == parts@.map_values(|n: String| n@),
            r@ == join_spec(views.subrange(0, i as int), sep@),
        decreases parts@.len() - i,
    {
        proof {
            assert(views.subrange(0, i + 1).drop_last() =~= views.subrange(0, i as int));
        }
        if i == 0 {
            r.append(parts[i].as_str());
            proof {
                assert(r@ =~= join_spec(views.subrange(0, 1), sep@));
            }
        } else {
            r.append(sep);
            r.append(parts[i].as_str());
        }
        i = i + 1;
    }
    proof {
        assert(views.subrange(0, parts@.len() as int) =~= views);
    }
    r
}

impl CaptureError {
    /// The text of the error.
    pub fn message(&self) -> (s: String)
        ensures
            s@ == (match self@ {
                CaptureErrorView::NoOutputs => "no outputs are available for capture"@,
                CaptureErrorView::NoOutputChanged =>
                    "could not determine which monitor contains the pointer because all output captures were identical; pass `--output` explicitly"@,
                CaptureErrorView::SeveralOutputsChanged(names) =>
                    "could not determine which monitor contains the pointer because multiple outputs changed when toggling the cursor: "@
                    + join_spec(names, ", "@) + "; pass `--output` explicitly"@,
                CaptureErrorView::Encode => "failed to encode screenshot as png"@,
            }),
    {
        match self {
            CaptureError::NoOutputs => String::from_str("no outputs are available for capture"),
            CaptureError::NoOutputChanged => String::from_str(
                "could not determine which monitor contains the pointer because all output captures were identical; pass `--output` explicitly",
            ),
            CaptureError::SeveralOutputsChanged(names) => {
                let joined = join(names, ", ");
                let mut s = concat_str(
                    "could not determine which monitor contains the pointer because multiple outputs changed when toggling the cursor: ",
                    joined.as_str(),
                );
                s.append("; pass `--output` explicitly");
                s
            },
            CaptureError::Encode => String::from_str("failed to encode screenshot as png"),
        }
    }
}

/// Whether two captures differ: other dimensions or other bytes.
pub fn images_differ(with_pointer: &RgbaImage, without_pointer: &RgbaImage) -> (r: bool)
    ensures
        r == !with_pointer.same_picture(without_pointer),
{
    if with_pointer.width != without_pointer.width || with_pointer.height != without_pointer.height {
        return true;
    }
    let a = &with_pointer.data;
    let b = &without_pointer.data;
    if a.len() != b.len() {
        return true;
    }
    let mut i: usize = 0;
    while i < a.len()
        invariant
            a@ == with_pointer.data@,
            b@ == without_pointer.data@,
            with_pointer.width == without_pointer.width,
            with_pointer.height == without_pointer.height,
            a@.len() == b@.len(),
            i <= a@.len(),
            forall|k: int| 0 <= k < i ==> a@[k] == b@[k],
        decreases a@.len() - i,
    {
        if a[i] != b[i] {
            proof {
                assert(a@[i as int] != b@[i as int]);
                assert(a@ != b@);
            }
            return true;
        }
        i = i + 1;
    }
    proof {
        assert(a@ =~= b@);
    }
    false
}

/// Toggling the pointer changed the output's picture: the pointer is on it.
pub open spec fn output_changed(o: CaptureOutput) -> bool {
    !o.screenshot_with_pointer.same_picture(&o.screenshot_without_pointer)
}

pub fn output_changed_when_pointer_toggled(output: &CaptureOutput) -> (r: bool)
    ensures
        r == output_changed(*output),
{
    images_differ(&output.screenshot_with_pointer, &output.screenshot_without_pointer)
}

/// Indices, in order, of the first `n` outputs whose picture changed with the pointer.
pub open spec fn changed_indices(outputs: Seq<CaptureOutput>, n: int) -> Seq<int>
    decreases n,
{
    if n <= 0 {
        Seq::empty()
    } else {
        let prefix = changed_indices(outputs, n - 1);
        if output_changed(outputs[n - 1]) {
            prefix.push(n - 1)
        } else {
            prefix
        }
    }
}

proof fn lemma_changed_indices_bounded(outputs: Seq<CaptureOutput>, n: int)
    requires
        0 <= n <= outputs.len(),
    ensures
        forall|k: int| 0 <= k < changed_indices(outputs, n).len() ==> 0 <= #[trigger] changed_indices(outputs, n)[k] < n,
    decreases n,
{
    if n > 0 {
        lemma_changed_indices_bounded(outputs, n - 1);
        let prefix = changed_indices(outputs, n - 1);
        let all = changed_indices(outputs, n);
        assert forall|k: int| 0 <= k < all.len() implies 0 <= #[trigger] all[k] < n by {
            if k < prefix.len() {
                assert(all[k] == prefix[k]);
            }
        }
    }
}

/// The output under the pointer: the only one whose picture changed when the pointer was
/// toggled. No change, or a change on several outputs, leaves the question open.
pub fn detect_output_under_pointer(outputs: &[CaptureOutput]) -> (r: Result<&CaptureOutput, CaptureError>)
    ensures
        ({
            let changed = changed_indices(outputs@, outputs@.len() as int);
            match r {
                Ok(o) => changed.len() == 1 && *o == outputs@[changed[0]],
                Err(e) => {
                    &&& changed.len() != 1
                    &&& changed.len() == 0 ==> e@ == CaptureErrorView::NoOutputChanged
                    &&& changed.len() > 1 ==> e@ == CaptureErrorView::SeveralOutputsChanged(
                        changed.map_values(|i: int| outputs@[i].name@),
                    )
                },
            }
        }),
{
    let mut found: Vec<usize> = Vec::new();
    let mut i: usize = 0;
    while i < outputs.len()
        invariant
            i <= outputs@.len(),
            found@.len() == changed_indices(outputs@, i as int).len(),
            forall|k: int| 0 <= k < found@.len() ==> #[trigger] found@[k] as int == changed_indices(outputs@, i as int)[k],
        decreases outputs@.len() - i,
    {
        if output_changed_when_pointer_toggled(&outputs[i]) {
            found.push(i);
        }
        i = i + 1;
    }
    let ghost changed = changed_indices(outputs@, outputs@.len() as int);
    proof {
        lemma_changed_indices_bounded(outputs@, outputs@.len() as int);
    }
    if found.len() == 1 {
        Ok(&outputs[found[0]])
    } else if found.len() == 0 {
        Err(CaptureError::NoOutputChanged)
    } else {
        let mut names: Vec<String> = Vec::new();
        let mut j: usize = 0;
        while j < found.len()
            invariant
                j <= found@.len(),
                found@.len() == changed.len(),
                changed == changed_indices(outputs@, outputs@.len() as int),
                forall|k: int| 0 <= k < changed.len() ==> 0 <= #[trigger] changed[k] < outputs@.len(),
                forall|k: int| 0 <= k < found@.len() ==> #[trigger] found@[k] as int == changed[k],
                names@.map_values(|n: String| n@) =~= changed.subrange(0, j as int).map_values(
                    |i: int| outputs@[i].name@,
                ),
            decreases found@.len() - j,
        {
            let ghost before = names@.map_values(|n: String| n@);
            let name = outputs[found[j]].name.clone();
            assert(name@ == outputs@[changed[j as int]].name@);
            names.push(name);
            proof {
                assert(names@.map_values(|n: String| n@) =~= before.push(outputs@[changed[j as int]].name@));
                assert(names@.map_values(|n: String| n@) =~= changed.subrange(0, j + 1).map_values(
                    |i: int| outputs@[i].name@,
                ));
            }
            j = j + 1;
        }
        proof {
            assert(changed.subrange(0, found@.len() as int) =~= changed);
        }
        Err(CaptureError::SeveralOutputsChanged(names))
    }
}

/// The capture of the output with or without the pointer, as requested.
pub fn screenshot_variant(output: &CaptureOutput, show_pointer: bool) -> (r: RgbaImage)
    ensures
        r.same_image(
            &(if show_pointer {
                output.screenshot_with_pointer
            } else {
                output.screenshot_without_pointer
            }),
        ),
{
    if show_pointer {
        output.screenshot_with_pointer.clone()
    } else {
        output.screenshot_without_pointer.clone()
    }
}

impl CaptureSnapshot {
    /// A snapshot of the captured outputs; an error when there are none.
    pub fn from_outputs(outputs: Vec<CaptureOutput>) -> (r: Result<CaptureSnapshot, CaptureError>)
        ensures
            match r {
                Ok(s) => outputs@.len() > 0 && s.outputs@ == outputs@,
                Err(e) => outputs@.len() == 0 && e@ == CaptureErrorView::NoOutputs,
            },
    {
        if outputs.len() == 0 {
            Err(CaptureError::NoOutputs)
        } else {
            Ok(CaptureSnapshot { outputs })
        }
    }
}

/// The PNG file that the `image` crate writes for an RGBA8 buffer, when it writes one.
pub uninterp spec fn png_of_rgba(width: u32, height: u32, data: Seq<u8>) -> Option<Seq<u8>>;

/// The PNG file that the `image` crate writes for the RGB8 buffer holding the color
/// channels of an RGBA8 buffer, when it writes one.
pub uninterp spec fn png_of_rgb(width: u32, height: u32, data: Seq<u8>) -> Option<Seq<u8>>;

/// PNG encoding by the `image` crate of the RGBA8 buffer
/// (`ImageBuffer::from_raw`, then `DynamicImage::write_to` with `ImageFormat::Png`):
/// the bytes are those that the name stands for, and `None` comes exactly when the
/// crate refuses. A buffer longer than the pixels makes the PNG encoder panic, so it is
/// not admitted.
#[verifier::external_body]
fn encode_rgba_png(width: u32, height: u32, data: &[u8]) -> (r: Option<Vec<u8>>)
    requires
        data@.len() <= 4 * (width as int) * (height as int),
    ensures
        match r {
            Some(bytes) => png_of_rgba(width, height, data@) == Some(bytes@),
            None => png_of_rgba(width, height, data@) is None,
        },
{
    let buffer = match image::RgbaImage::from_raw(width, height, data.to_vec()) {
        Some(b) => b,
        None => return None,
    };
    let mut bytes: Vec<u8> = Vec::new();
    match image::DynamicImage::ImageRgba8(buffer).write_to(
        &mut std::io::Cursor::new(&mut bytes),
        image::ImageFormat::Png,
    ) {
        Ok(()) => Some(bytes),
        Err(_) => None,
    }
}

/// PNG encoding by the `image` crate of the color channels of the RGBA8 buffer
/// (`ImageBuffer::from_raw`, `DynamicImage::to_rgb8`, then `write_to` with
/// `ImageFormat::Png`): the bytes are those that the name stands for, and `None` comes
/// exactly when the crate refuses.
#[verifier::external_body]
fn encode_rgb_png(width: u32, height: u32, data: &[u8]) -> (r: Option<Vec<u8>>)
    ensures
        match r {
            Some(bytes) => png_of_rgb(width, height, data@) == Some(bytes@),
            None => png_of_rgb(width, height, data@) is None,
        },
{
    let buffer = match image::RgbaImage::from_raw(width, height, data.to_vec()) {
        Some(b) => b,
        None => return None,
    };
    let rgb = image::DynamicImage::ImageRgba8(buffer).to_rgb8();
    let mut bytes: Vec<u8> = Vec::new();
    match image::DynamicImage::ImageRgb8(rgb).write_to(
        &mut std::io::Cursor::new(&mut bytes),
        image::ImageFormat::Png,
    ) {
        Ok(()) => Some(bytes),
        Err(_) => None,
    }
}

/// The PNG file of an image: with an alpha channel when the capture had one. An image
/// with an alpha channel whose buffer holds more bytes than its pixels has none.
pub open spec fn png_of(image: RgbaImage) -> Option<Seq<u8>> {
    if image.has_alpha {
        if image.data@.len() > 4 * (image.width as int) * (image.height as int) {
            None
        } else {
            png_of_rgba(image.width, image.height, image.data@)
        }
    } else {
        png_of_rgb(image.width, image.height, image.data@)
    }
}

/// Encodes a capture as PNG.
pub fn encode_png(image: &RgbaImage) -> (r: Result<Vec<u8>, CaptureError>)
    ensures
        match r {
            Ok(bytes) => png_of(*image) == Some(bytes@),
            Err(e) => png_of(*image) is None && e@ == CaptureErrorView::Encode,
        },
{
    let encoded = if image.has_alpha {
        let (w, h) = (image.width as u128, image.height as u128);
        assert(w * h <= 0xffff_ffff_ffff_ffff_ffff_ffff) by (nonlinear_arith)
            requires
                w <= 0xffff_ffff,
                h <= 0xffff_ffff,
        ;
        assert(4 * (w * h) == 4 * (image.width as int) * (image.height as int)) by (nonlinear_arith)
            requires
                w == image.width,
                h == image.height,
        ;
        if image.data.len() as u128 > 4 * (w * h) {
            return Err(CaptureError::Encode);
        }
        encode_rgba_png(image.width, image.height, image.data.as_slice())
    } else {
        encode_rgb_png(image.width, image.height, image.data.as_slice())
    };
    match encoded {
        Some(bytes) => Ok(bytes),
        None => Err(CaptureError::Encode),
    }
}

/// An output as the capture backend lists it: its name, and its logical position and size.
#[derive(Debug, Clone, PartialEq, Eq)]
pub struct OutputGeometry {
    pub name: String,
    pub x: i32,
    pub y: i32,
    pub width: u32,
    pub height: u32,
}

impl OutputGeometry {
    /// The output's logical rectangle, each extent converted to `i32` as `as` does.
    pub fn logical_rect(&self) -> (r: Rect)
        ensures
            r == (Rect {
                x: self.x,
                y: self.y,
                width: self.width as i32,
                height: self.height as i32,
            }),
    {
        Rect {
            x: self.x,
            y: self.y,
            width: #[verifier::truncate] (self.width as i32),
            height: #[verifier::truncate] (self.height as i32),
        }
    }
}

/// `name @ (x, y) widthxheight`.
pub open spec fn describe_output(o: OutputGeometry) -> Seq<char> {
    o.name@ + " @ ("@ + decimal_int(o.x as int) + ", "@ + decimal_int(o.y as int) + ") "@
        + decimal_int(o.width as int) + "x"@ + decimal_int(o.height as int)
}

pub open spec fn output_descriptions(outputs: Seq<OutputGeometry>) -> Seq<Seq<char>> {
    outputs.map_values(|o: OutputGeometry| describe_output(o))
}

fn describe_one(o: &OutputGeometry) -> (r: String)
    ensures
        r@ == describe_output(*o),
{
    let mut s = concat_str(o.name.as_str(), " @ (");
    push_int(&mut s, o.x as i64);
    s.append(", ");
    push_int(&mut s, o.y as i64);
    s.append(") ");
    push_int(&mut s, o.width as i64);
    s.append("x");
    push_int(&mut s, o.height as i64);
    s
}

/// The outputs described one by one, separated by `, `.
pub fn describe_outputs(outputs: &[OutputGeometry]) -> (r: String)
    ensures
        r@ == join_spec(output_descriptions(outputs@), ", "@),
{
    let ghost views = output_descriptions(outputs@);
    let mut r = String::new();
    let mut i: usize = 0;
    while i < outputs.len()
        invariant
            i <= outputs@.len(),
            views == output_descriptions(outputs@),
            r@ == join_spec(views.subrange(0, i as int), ", "@),
        decreases outputs@.len() - i,
    {
        proof {
            assert(views.subrange(0, i + 1).drop_last() =~= views.subrange(0, i as int));
        }
        let d = describe_one(&outputs[i]);
        if i == 0 {
            r.append(d.as_str());
            proof {
                assert(r@ =~= join_spec(views.subrange(0, 1), ", "@));
            }
        } else {
            r.append(", ");
            r.append(d.as_str());
        }
        i = i + 1;
    }
    proof {
        assert(views.subrange(0, outputs@.len() as int) =~= views);
    }
    r
}

/// The index of the first output called `name`, if any.
pub fn output_named(outputs: &[OutputGeometry], name: &str) -> (r: Option<usize>)
    ensures
        match r {
            Some(i) => i < outputs@.len() && outputs@[i as int].name@ == name@ && forall|k: int|
                0 <= k < i ==> #[trigger] outputs@[k].name@ != name@,
            None => forall|k: int| 0 <= k < outputs@.len() ==> #[trigger] outputs@[k].name@ != name@,
        },
{
    let mut i: usize = 0;
    while i < outputs.len()
        invariant
            i <= outputs@.len(),
            forall|k: int| 0 <= k < i ==> #[trigger] outputs@[k].name@ != name@,
        decreases outputs@.len() - i,
    {
        if str_eq(outputs[i].name.as_str(), name) {
            return Some(i);
        }
        i = i + 1;
    }
    None
}

/// The message for an output name that no output carries.
pub fn unknown_output_message(name: &str) -> (r: String)
    ensures
        r@ == "unknown output `"@ + name@ + "`"@,
{
    let mut s = concat_str("unknown output `", name);
    s.append("`");
    s
}

/// The message given when the output under the pointer could not be found, listing the
/// known outputs.
pub fn pointer_output_message(outputs: &[OutputGeometry]) -> (r: String)
    ensures
        r@ == "failed to determine the current monitor from the pointer; pass `--output` explicitly. Known outputs: "@
            + join_spec(output_descriptions(outputs@), ", "@),
{
    let described = describe_outputs(outputs);
    concat_str(
        "failed to determine the current monitor from the pointer; pass `--output` explicitly. Known outputs: ",
        described.as_str(),
    )
}

} // verus!
