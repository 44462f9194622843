use vstd::prelude::*;

use crate::capture::{encode_png, png_of, CaptureError, CaptureErrorView, RgbaImage};

verus! {

/// What became of a capture: where it was saved (the bytes of the path), and whether the
/// clipboard holds it.
#[derive(Debug, Clone)]
pub struct PersistOutcome {
    pub saved_path: Option<Vec<u8>>,
    pub copied_to_clipboard: bool,
}

/// Why persisting a capture failed: encoding, or an error of the clipboard or the file
/// system as the caller reports it.
#[derive(Debug)]
pub enum PersistError<E> {
    Capture(CaptureError),
    Sink(E),
}

/// The text of the notification sent after a capture.
pub fn notification_body(outcome: &PersistOutcome) -> (r: &'static str)
    ensures
        r@ == (match (outcome.saved_path is Some, outcome.copied_to_clipboard) {
            (true, true) => "Saved the screenshot and copied it to the clipboard."@,
            (true, false) => "Saved the screenshot, but copying it to the clipboard failed."@,
            (false, true) => "You can paste the image from the clipboard."@,
            (false, false) => "Clipboard copy failed."@,
        }),
{
    match (outcome.saved_path.is_some(), outcome.copied_to_clipboard) {
        (true, true) => "Saved the screenshot and copied it to the clipboard.",
        (true, false) => "Saved the screenshot, but copying it to the clipboard failed.",
        (false, true) => "You can paste the image from the clipboard.",
        (false, false) => "Clipboard copy failed.",
    }
}

/// The result of persisting a capture, given what the clipboard copy returned and, when
/// a save was requested, what writing the file returned. A failed save is an error; a
/// failed copy is an error only when no file was saved.
pub open spec fn persist_result<E>(clip: Result<(), E>, saved: Option<Result<(), E>>, path: Option<Vec<u8>>) -> Result<PersistOutcome, E> {
    match saved {
        Some(Err(e)) => Err(e),
        Some(Ok(())) => Ok(PersistOutcome { saved_path: path, copied_to_clipboard: clip is Ok }),
        None => match clip {
            Err(e) => Err(e),
            Ok(()) => Ok(PersistOutcome { saved_path: None, copied_to_clipboard: true }),
        },
    }
}

/// `r` is what persisting `png` returns for some outcome of the clipboard copy (which
/// is always tried, with the PNG bytes) and, when saving is requested and a path is
/// given, of writing the PNG bytes to that path.
pub open spec fn persisted_from<E, C, S>(
    png: Seq<u8>,
    path: Option<Vec<u8>>,
    write_to_disk: bool,
    copy_to_clipboard: C,
    save: S,
    r: Result<PersistOutcome, E>,
) -> bool where C: FnOnce(&[u8]) -> Result<(), E>, S: FnOnce(&[u8], &[u8]) -> Result<(), E> {
    exists|b: &[u8], clip: Result<(), E>|
        {
            &&& b@ == png
            &&& #[trigger] copy_to_clipboard.ensures((b,), clip)
            &&& if write_to_disk && path is Some {
                exists|b2: &[u8], p: &[u8], saved: Result<(), E>|
                    {
                        &&& b2@ == png
                        &&& p@ == path->0@
                        &&& #[trigger] save.ensures((b2, p), saved)
                        &&& r == persist_result(clip, Some(saved), path)
                    }
            } else {
                r == persist_result(clip, None, path)
            }
        }
}

/// Copies the PNG to the clipboard, then saves it to `path` when `write_to_disk` is set.
/// A clipboard failure is reported only when no file was saved.
pub fn persist_png<E, C, S>(
    png: Vec<u8>,
    path: Option<Vec<u8>>,
    write_to_disk: bool,
    copy_to_clipboard: C,
    save: S,
) -> (r: Result<PersistOutcome, E>) where
    C: FnOnce(&[u8]) -> Result<(), E>,
    S: FnOnce(&[u8], &[u8]) -> Result<(), E>,

    requires
        forall|b: &[u8]| #[trigger] copy_to_clipboard.requires((b,)),
        forall|b: &[u8], p: &[u8]| #[trigger] save.requires((b, p)),
    ensures
        persisted_from(png@, path, write_to_disk, copy_to_clipboard, save, r),
{
    let ghost path_copy = path;
    let bytes = png.as_slice();
    let clipboard_result = copy_to_clipboard(bytes);
    let ghost clip = clipboard_result;
    let saved_path = if write_to_disk {
        match path {
            Some(p) => {
                let target = p.as_slice();
                let saved = save(bytes, target);
                match saved {
                    Ok(()) => Some(p),
                    Err(e) => {
                        proof {
                            assert(Err::<PersistOutcome, E>(e) == persist_result(clip, Some(saved), path_copy));
                        }
                        return Err(e);
                    },
                }
            },
            None => None,
        }
    } else {
        None
    };
    let copied_to_clipboard = clipboard_result.is_ok();
    match clipboard_result {
        Err(e) => {
            if saved_path.is_none() {
                return Err(e);
            }
        },
        Ok(()) => {},
    }
    Ok(PersistOutcome { saved_path, copied_to_clipboard })
}

/// Encodes the capture as PNG, then persists it as [`persist_png`] does.
pub fn persist_capture<E, C, S>(
    image: &RgbaImage,
    path: Option<Vec<u8>>,
    write_to_disk: bool,
    copy_to_clipboard: C,
    save: S,
) -> (r: Result<PersistOutcome, PersistError<E>>) where
    C: FnOnce(&[u8]) -> Result<(), E>,
    S: FnOnce(&[u8], &[u8]) -> Result<(), E>,

    requires
        forall|b: &[u8]| #[trigger] copy_to_clipboard.requires((b,)),
        forall|b: &[u8], p: &[u8]| #[trigger] save.requires((b, p)),
    ensures
        match png_of(*image) {
            None => r matches Err(PersistError::Capture(e)) && e@ == CaptureErrorView::Encode,
            Some(bytes) => match r {
                Ok(o) => persisted_from(bytes, path, write_to_disk, copy_to_clipboard, save, Ok::<PersistOutcome, E>(o)),
                Err(PersistError::Sink(e)) => persisted_from(bytes, path, write_to_disk, copy_to_clipboard, save, Err::<PersistOutcome, E>(e)),
                Err(PersistError::Capture(_)) => false,
            },
        },
{
    let png = match encode_png(image) {
        Ok(png) => png,
        Err(e) => {
            return Err(PersistError::Capture(e));
        },
    };
    match persist_png(png, path, write_to_disk, copy_to_clipboard, save) {
        Ok(o) => Ok(o),
        Err(e) => Err(PersistError::Sink(e)),
    }
}

/// A requested save that fails is always reported. Once the file is saved, a failed
/// clipboard copy is only recorded in the outcome; with no file saved, it is the error.
pub proof fn lemma_clipboard_failure_fatal_only_without_file<E>(
    clip: Result<(), E>,
    saved: Option<Result<(), E>>,
    path: Option<Vec<u8>>,
)
    ensures
        saved matches Some(Err(e)) ==> persist_result(clip, saved, path) == Err::<PersistOutcome, E>(e),
        saved matches Some(Ok(())) ==> persist_result(clip, saved, path) matches Ok(o)
            && o.copied_to_clipboard == clip is Ok && o.saved_path == path,
        saved is None ==> (persist_result(clip, saved, path) is Err <==> clip is Err),
{
}

} // verus!
