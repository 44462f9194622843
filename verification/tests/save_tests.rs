use std::cell::RefCell;

use snappers::capture::RgbaImage;
use snappers::save::{notification_body, persist_capture, persist_png, PersistError, PersistOutcome};

/// Stands in for the file system: records what was written and where, or fails like a
/// write into a directory does.
fn recording_save<'a>(
    written: &'a RefCell<Vec<(Vec<u8>, Vec<u8>)>>,
    fail: bool,
) -> impl FnOnce(&[u8], &[u8]) -> Result<(), String> + 'a {
    move |bytes: &[u8], path: &[u8]| {
        if fail {
            return Err(format!(
                "failed to write {}: Is a directory",
                String::from_utf8_lossy(path)
            ));
        }
        written.borrow_mut().push((path.to_vec(), bytes.to_vec()));
        Ok(())
    }
}

fn save_png(_: &[u8], path: &[u8]) -> Result<(), String> {
    Err(format!("unexpected write to {}", String::from_utf8_lossy(path)))
}

#[test]
fn clipboard_failure_is_non_fatal_when_file_is_saved() {
    let written = RefCell::new(Vec::new());
    let path = b"/tmp/snappers-saved.png".to_vec();
    let outcome = persist_png(
        vec![1, 2, 3],
        Some(path.clone()),
        true,
        |_: &[u8]| Err::<(), String>("clipboard unavailable".to_string()),
        recording_save(&written, false),
    )
    .expect("save should succeed");

    assert_eq!(outcome.saved_path.as_deref(), Some(path.as_slice()));
    assert!(!outcome.copied_to_clipboard);
    assert_eq!(*written.borrow(), vec![(path, vec![1, 2, 3])]);
}

#[test]
fn clipboard_failure_is_fatal_without_saved_file() {
    let err = persist_png(
        vec![1, 2, 3],
        None,
        false,
        |_: &[u8]| Err::<(), String>("clipboard unavailable".to_string()),
        save_png,
    )
    .expect_err("copy-only clipboard failure should bubble up");

    assert!(err.contains("clipboard unavailable"));
}

#[test]
fn requested_save_failure_still_errors() {
    let written = RefCell::new(Vec::new());
    let err = persist_png(
        vec![1, 2, 3],
        Some(b"/tmp/snappers-dir".to_vec()),
        true,
        |_: &[u8]| Ok::<(), String>(()),
        recording_save(&written, true),
    )
    .expect_err("writing into a directory should fail");

    assert!(err.contains("failed to write"));
}

#[test]
fn notification_body_reflects_outcome() {
    assert_eq!(
        notification_body(&PersistOutcome {
            saved_path: Some(b"/tmp/example.png".to_vec()),
            copied_to_clipboard: true,
        }),
        "Saved the screenshot and copied it to the clipboard."
    );
    assert_eq!(
        notification_body(&PersistOutcome {
            saved_path: Some(b"/tmp/example.png".to_vec()),
            copied_to_clipboard: false,
        }),
        "Saved the screenshot, but copying it to the clipboard failed."
    );
    assert_eq!(
        notification_body(&PersistOutcome {
            saved_path: None,
            copied_to_clipboard: true,
        }),
        "You can paste the image from the clipboard."
    );
    assert_eq!(
        notification_body(&PersistOutcome {
            saved_path: None,
            copied_to_clipboard: false,
        }),
        "Clipboard copy failed."
    );
}

#[test]
fn copy_only_skips_saving_even_with_path() {
    let saved = RefCell::new(false);
    let outcome = persist_png(
        vec![9],
        Some(b"/nonexistent/never.png".to_vec()),
        false,
        |_: &[u8]| Ok::<(), String>(()),
        |_: &[u8], _: &[u8]| {
            *saved.borrow_mut() = true;
            Ok(())
        },
    )
    .expect("copy succeeds");
    assert!(!*saved.borrow());
    assert_eq!(outcome.saved_path, None);
    assert!(outcome.copied_to_clipboard);
}

#[test]
fn clipboard_receives_the_png_bytes() {
    let copied = RefCell::new(Vec::new());
    let written = RefCell::new((Vec::new(), Vec::new()));
    let outcome = persist_png(
        vec![7, 8, 9],
        Some(b"out\xff.png".to_vec()),
        true,
        |bytes: &[u8]| {
            *copied.borrow_mut() = bytes.to_vec();
            Ok::<(), String>(())
        },
        |bytes: &[u8], path: &[u8]| {
            *written.borrow_mut() = (bytes.to_vec(), path.to_vec());
            Ok(())
        },
    )
    .expect("persist succeeds");
    assert_eq!(*copied.borrow(), vec![7, 8, 9]);
    assert_eq!(written.borrow().0, vec![7, 8, 9]);
    // The path reaches the file system byte for byte, even where it is not UTF-8.
    assert_eq!(written.borrow().1, b"out\xff.png".to_vec());
    assert_eq!(outcome.saved_path.as_deref(), Some(&b"out\xff.png"[..]));
    assert!(outcome.copied_to_clipboard);
}

#[test]
fn persist_capture_encodes_png() {
    let image = RgbaImage {
        width: 1,
        height: 1,
        data: vec![255, 0, 0, 255],
        has_alpha: true,
    };
    let copied = RefCell::new(Vec::new());
    let outcome = persist_capture(
        &image,
        None,
        true,
        |bytes: &[u8]| {
            *copied.borrow_mut() = bytes.to_vec();
            Ok::<(), String>(())
        },
        |_: &[u8], _: &[u8]| Ok(()),
    )
    .unwrap_or_else(|_| panic!("persist succeeds"));
    assert_eq!(outcome.saved_path, None);
    let png = copied.borrow();
    assert_eq!(&png[..8], &[0x89, b'P', b'N', b'G', 0x0d, 0x0a, 0x1a, 0x0a]);
    // The IHDR color type byte: 6 is RGBA.
    assert_eq!(png[25], 6);
}

#[test]
fn persist_capture_without_alpha_writes_rgb_png() {
    let image = RgbaImage {
        width: 1,
        height: 1,
        data: vec![0, 255, 0, 255],
        has_alpha: false,
    };
    let copied = RefCell::new(Vec::new());
    persist_capture(
        &image,
        None,
        false,
        |bytes: &[u8]| {
            *copied.borrow_mut() = bytes.to_vec();
            Ok::<(), String>(())
        },
        |_: &[u8], _: &[u8]| Ok(()),
    )
    .unwrap_or_else(|_| panic!("persist succeeds"));
    // The IHDR color type byte: 2 is RGB.
    assert_eq!(copied.borrow()[25], 2);
}

#[test]
fn persist_capture_rejects_short_buffer() {
    let image = RgbaImage {
        width: 2,
        height: 2,
        data: vec![0, 0, 0, 255],
        has_alpha: true,
    };
    let result = persist_capture(
        &image,
        None,
        false,
        |_: &[u8]| Ok::<(), String>(()),
        |_: &[u8], _: &[u8]| Ok(()),
    );
    match result {
        Err(PersistError::Capture(e)) => {
            assert_eq!(e.message(), "failed to encode screenshot as png")
        }
        _ => panic!("encoding should fail"),
    }
}
