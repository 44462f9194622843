use snappers::capture::{
    detect_output_under_pointer, encode_png, images_differ, output_changed_when_pointer_toggled,
    screenshot_variant, CaptureError, CaptureOutput, CaptureSnapshot, RgbaImage,
};
use snappers::geometry::Rect;

fn image(color: [u8; 4]) -> RgbaImage {
    let mut data = Vec::new();
    for _ in 0..4 {
        data.extend_from_slice(&color);
    }
    RgbaImage {
        width: 2,
        height: 2,
        data,
        has_alpha: true,
    }
}

fn output(name: &str, with_pointer: RgbaImage, without_pointer: RgbaImage) -> CaptureOutput {
    CaptureOutput {
        name: name.to_owned(),
        logical_rect: Rect::new(0, 0, 100, 100),
        screenshot_with_pointer: with_pointer,
        screenshot_without_pointer: without_pointer,
    }
}

#[test]
fn detects_single_output_under_pointer() {
    let unchanged = image([10, 20, 30, 255]);
    let outputs = vec![
        output("HDMI-A-1", unchanged.clone(), unchanged),
        output("DP-1", image([255, 0, 0, 255]), image([0, 0, 0, 255])),
    ];

    let selected = detect_output_under_pointer(&outputs).expect("pointer output");

    assert_eq!(selected.name, "DP-1");
}

#[test]
fn errors_when_no_output_differs() {
    let unchanged = image([10, 20, 30, 255]);
    let outputs = vec![output("HDMI-A-1", unchanged.clone(), unchanged)];

    let err = detect_output_under_pointer(&outputs).expect_err("no output should match");

    assert!(err.message().contains("pass `--output` explicitly"));
}

#[test]
fn errors_when_multiple_outputs_differ() {
    let outputs = vec![
        output("HDMI-A-1", image([255, 0, 0, 255]), image([0, 0, 0, 255])),
        output("DP-1", image([0, 255, 0, 255]), image([0, 0, 0, 255])),
    ];

    let err = detect_output_under_pointer(&outputs).expect_err("ambiguous pointer output");
    let message = err.message();

    assert!(message.contains("HDMI-A-1"));
    assert!(message.contains("DP-1"));
    assert!(message.contains("pass `--output` explicitly"));
}

#[test]
fn screenshot_variant_uses_requested_pointer_visibility() {
    let output = output("DP-1", image([255, 0, 0, 255]), image([0, 255, 0, 255]));

    assert_eq!(screenshot_variant(&output, true).data[0..4], [255, 0, 0, 255]);
    assert_eq!(screenshot_variant(&output, false).data[0..4], [0, 255, 0, 255]);
}

#[test]
fn several_changed_outputs_are_named_in_order() {
    let outputs = vec![
        output("A", image([1, 0, 0, 255]), image([0, 0, 0, 255])),
        output("B", image([0, 0, 0, 255]), image([0, 0, 0, 255])),
        output("C", image([2, 0, 0, 255]), image([0, 0, 0, 255])),
    ];
    let err = detect_output_under_pointer(&outputs).unwrap_err();
    assert_eq!(
        err,
        CaptureError::SeveralOutputsChanged(vec!["A".to_owned(), "C".to_owned()])
    );
    assert_eq!(
        err.message(),
        "could not determine which monitor contains the pointer because multiple outputs \
         changed when toggling the cursor: A, C; pass `--output` explicitly"
    );
}

#[test]
fn no_changed_output_error_message() {
    assert_eq!(
        CaptureError::NoOutputChanged.message(),
        "could not determine which monitor contains the pointer because all output captures \
         were identical; pass `--output` explicitly"
    );
    assert_eq!(
        CaptureError::NoOutputs.message(),
        "no outputs are available for capture"
    );
    assert_eq!(
        CaptureError::Encode.message(),
        "failed to encode screenshot as png"
    );
}

#[test]
fn images_differ_on_size_or_bytes() {
    let a = image([1, 2, 3, 255]);
    assert!(!images_differ(&a, &a.clone()));
    assert!(images_differ(&a, &image([1, 2, 4, 255])));
    let wide = RgbaImage {
        width: 4,
        height: 1,
        data: a.data.clone(),
        has_alpha: true,
    };
    assert!(images_differ(&a, &wide));
    assert!(output_changed_when_pointer_toggled(&output("X", a.clone(), wide)));
    assert!(!output_changed_when_pointer_toggled(&output("Y", a.clone(), a)));
}

#[test]
fn snapshot_needs_an_output() {
    assert_eq!(
        CaptureSnapshot::from_outputs(Vec::new()).unwrap_err(),
        CaptureError::NoOutputs
    );
    let snap = CaptureSnapshot::from_outputs(vec![output(
        "DP-1",
        image([0, 0, 0, 255]),
        image([0, 0, 0, 255]),
    )])
    .unwrap();
    assert_eq!(snap.outputs.len(), 1);
}

#[test]
fn encodes_png_with_and_without_alpha() {
    let with_alpha = image([10, 20, 30, 128]);
    let png = encode_png(&with_alpha).expect("png");
    assert_eq!(&png[0..8], &[0x89, b'P', b'N', b'G', 0x0d, 0x0a, 0x1a, 0x0a]);
    // IHDR color type byte: 6 = RGBA, 2 = RGB.
    assert_eq!(png[25], 6);
    let opaque = RgbaImage {
        has_alpha: false,
        ..image([10, 20, 30, 255])
    };
    let png = encode_png(&opaque).expect("png");
    assert_eq!(png[25], 2);
    assert_ne!(png, with_alpha.data);
}

#[test]
fn encoding_a_short_buffer_fails() {
    let broken = RgbaImage {
        width: 3,
        height: 3,
        data: vec![0; 4],
        has_alpha: true,
    };
    assert_eq!(encode_png(&broken).unwrap_err(), CaptureError::Encode);
}

use snappers::capture::{
    describe_outputs, output_named, pointer_output_message, unknown_output_message,
    OutputGeometry,
};

fn geometry(name: &str, x: i32, y: i32, width: u32, height: u32) -> OutputGeometry {
    OutputGeometry {
        name: name.to_owned(),
        x,
        y,
        width,
        height,
    }
}

#[test]
fn outputs_are_described_in_order() {
    let outputs = vec![
        geometry("eDP-1", 0, 0, 1920, 1080),
        geometry("DP-1", -2560, -120, 2560, 1440),
    ];
    assert_eq!(
        describe_outputs(&outputs),
        "eDP-1 @ (0, 0) 1920x1080, DP-1 @ (-2560, -120) 2560x1440"
    );
    assert_eq!(describe_outputs(&[]), "");
    assert_eq!(
        describe_outputs(&[geometry("X", i32::MIN, i32::MAX, u32::MAX, 7)]),
        "X @ (-2147483648, 2147483647) 4294967295x7"
    );
    assert_eq!(
        pointer_output_message(&outputs[..1]),
        "failed to determine the current monitor from the pointer; pass `--output` explicitly. \
         Known outputs: eDP-1 @ (0, 0) 1920x1080"
    );
}

#[test]
fn outputs_are_found_by_exact_name() {
    let outputs = vec![
        geometry("DP-1", 0, 0, 10, 10),
        geometry("DP-2", 10, 0, 10, 10),
        geometry("DP-1", 20, 0, 10, 10),
    ];
    assert_eq!(output_named(&outputs, "DP-1"), Some(0));
    assert_eq!(output_named(&outputs, "DP-2"), Some(1));
    assert_eq!(output_named(&outputs, "dp-2"), None);
    assert_eq!(unknown_output_message("HDMI-A-1"), "unknown output `HDMI-A-1`");
    assert_eq!(outputs[1].logical_rect(), Rect::new(10, 0, 10, 10));
}

#[test]
fn over_long_alpha_buffer_is_refused() {
    let mut long = image([1, 2, 3, 4]);
    long.data.extend_from_slice(&[9, 9, 9, 9]);
    assert_eq!(encode_png(&long).unwrap_err(), CaptureError::Encode);
    let opaque = RgbaImage {
        has_alpha: false,
        ..long
    };
    assert!(encode_png(&opaque).is_ok());
}
