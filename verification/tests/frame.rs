use cu::frame::{
    encode_png, frames_equal, png_result, scaled_dimension, validate_captured_frame,
    CaptureLimits, CapturedFrame,
};
use cu::protocol::{ErrorCode, Viewport};

fn frame(width: u32, height: u32, pixels: Vec<u8>) -> CapturedFrame {
    CapturedFrame { pixels, width, height, target: "mock".to_owned() }
}

#[test]
fn frames_keep_their_size_without_limits() {
    assert_eq!(
        CaptureLimits::default().fit(256, 144),
        Viewport { width: 256, height: 144 }
    );
}

#[test]
fn one_limit_keeps_the_aspect_ratio() {
    let limits = CaptureLimits { max_width: Some(160), max_height: None };

    assert_eq!(limits.fit(256, 144), Viewport { width: 160, height: 90 });
}

#[test]
fn the_tighter_limit_decides() {
    let limits = CaptureLimits { max_width: Some(1000), max_height: Some(300) };
    assert_eq!(limits.fit(1920, 1080), Viewport { width: 533, height: 300 });
    assert_eq!(limits.fit(100, 100), Viewport { width: 100, height: 100 });
    let narrow = CaptureLimits { max_width: Some(1), max_height: None };
    assert_eq!(narrow.fit(10_000, 3), Viewport { width: 1, height: 1 });
}

#[test]
fn scaled_dimensions_round_down_and_never_vanish() {
    assert_eq!(scaled_dimension(144, 160, 256), 90);
    assert_eq!(scaled_dimension(1, 1, 1_000), 1);
    assert_eq!(scaled_dimension(3, 1, 2), 1);
}

#[test]
fn capture_limits_are_positive() {
    assert!(CaptureLimits::default().validate().is_ok());
    for limits in [
        CaptureLimits { max_width: Some(0), max_height: None },
        CaptureLimits { max_width: None, max_height: Some(0) },
    ] {
        let error = limits.validate().unwrap_err();
        assert_eq!(error.code, ErrorCode::InvalidAction);
        assert_eq!(error.message, "capture limits must be greater than zero");
    }
}

#[test]
fn frames_have_three_bytes_per_pixel() {
    assert!(validate_captured_frame(&frame(2, 1, vec![0; 6])).is_ok());
    for bad in [frame(2, 1, vec![0; 5]), frame(0, 1, Vec::new()), frame(2, 1, vec![0; 7])] {
        let error = validate_captured_frame(&bad).unwrap_err();
        assert_eq!(error.code, ErrorCode::CaptureFailed);
        assert_eq!(
            error.message,
            "captured RGB frame has invalid dimensions or byte length"
        );
    }
}

#[test]
fn frames_are_equal_by_size_and_pixels() {
    let first = frame(2, 1, vec![1; 6]);
    let mut renamed = frame(2, 1, vec![1; 6]);
    assert!(frames_equal(&first, &renamed));
    assert!(!frames_equal(&first, &frame(1, 2, vec![1; 6])));
    renamed.pixels[5] = 2;
    assert!(!frames_equal(&first, &renamed));
}

#[test]
fn encoded_frames_decode_to_the_same_pixels() {
    let pixels: Vec<u8> = (0..18).map(|n| n * 13).collect();
    let png = encode_png(&frame(3, 2, pixels.clone())).unwrap();
    let decoded = image::load_from_memory(&png).unwrap().into_rgb8();
    assert_eq!(decoded.dimensions(), (3, 2));
    assert_eq!(decoded.into_raw(), pixels);
}

#[test]
fn encoding_failures_are_capture_failures() {
    let missing = png_result(None).unwrap_err();
    assert_eq!(missing.code, ErrorCode::CaptureFailed);
    assert_eq!(
        missing.message,
        "captured RGB frame cannot be represented as an image"
    );
    let failed = png_result(Some(Err("full".to_owned()))).unwrap_err();
    assert_eq!(failed.message, "failed to encode screenshot as PNG: full");
    assert_eq!(png_result(Some(Ok(vec![1, 2]))).unwrap(), [1, 2]);
}
