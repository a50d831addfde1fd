use cu::protocol::{
    ActRequest, Action, ErrorCode, MouseButton, Point, PolledWaitRequest, Rect, SettlePolicy,
    Viewport, WaitRequest, MAX_DRAG_POINTS, MAX_KEYS, MAX_TEXT_BYTES, MIN_WAIT_POLL_MS,
};
use cu::validate::{
    rect_is_fully_covered, validate_act_request, validate_action, validate_point,
    validate_polled_wait_request, validate_rect, validate_settle_policy, validate_text,
    validate_wait_request,
};

fn viewport() -> Viewport {
    Viewport { width: 100, height: 100 }
}

fn rect(x: u32, y: u32, width: u32, height: u32) -> Rect {
    Rect { x, y, width, height }
}

#[test]
fn rejects_out_of_bounds_click() {
    let error = validate_action(
        &Action::Click {
            x: 100,
            y: 50,
            button: MouseButton::Left,
            duration_ms: 0,
            keys: Vec::new(),
        },
        viewport(),
    )
    .unwrap_err();

    assert_eq!(error.code, ErrorCode::OutOfBounds);
}

#[test]
fn rejects_oversized_key_chords_and_drag_paths() {
    let keys = vec!["A".to_owned(); MAX_KEYS + 1];
    assert_eq!(
        validate_action(&Action::Keypress { keys }, viewport()).unwrap_err().code,
        ErrorCode::InvalidAction
    );

    let path = vec![Point { x: 1, y: 1 }; MAX_DRAG_POINTS + 1];
    assert_eq!(
        validate_action(
            &Action::Drag { path, hold_ms: 0, duration_ms: None, keys: Vec::new() },
            viewport(),
        )
        .unwrap_err()
        .code,
        ErrorCode::InvalidAction
    );
}

#[test]
fn validates_wait_bounds_timing_and_nonempty_mask() {
    let viewport = Viewport { width: 100, height: 80 };
    let mut request = PolledWaitRequest {
        last_frame_id: "f_latest".to_owned(),
        rect: Some(rect(10, 10, 20, 20)),
        exclude: Vec::new(),
        timeout_ms: 1_000,
        poll_ms: 250,
        settle: SettlePolicy::default(),
    };
    assert!(validate_polled_wait_request(&request, viewport).is_ok());

    request.poll_ms = MIN_WAIT_POLL_MS - 1;
    assert_eq!(
        validate_polled_wait_request(&request, viewport).unwrap_err().code,
        ErrorCode::InvalidAction
    );
    request.poll_ms = 250;
    request.rect = Some(rect(90, 10, 20, 20));
    assert_eq!(
        validate_polled_wait_request(&request, viewport).unwrap_err().code,
        ErrorCode::OutOfBounds
    );
    request.rect = Some(rect(10, 10, 20, 20));
    request.exclude = vec![rect(10, 10, 20, 20)];
    assert!(validate_polled_wait_request(&request, viewport)
        .unwrap_err()
        .message
        .contains("entire watched rectangle"));
}

#[test]
fn points_lie_inside_the_viewport() {
    assert!(validate_point(Point { x: 0, y: 99 }, viewport()).is_ok());
    for (x, y) in [(-1, 0), (0, -1), (100, 0), (0, 100), (i32::MAX, 0)] {
        let error = validate_point(Point { x, y }, viewport()).unwrap_err();
        assert_eq!(error.code, ErrorCode::OutOfBounds, "{x},{y}");
    }
}

#[test]
fn rectangles_lie_inside_the_viewport() {
    assert!(validate_rect(rect(0, 0, 100, 100), viewport(), "rect").is_ok());
    let empty = validate_rect(rect(0, 0, 0, 1), viewport(), "rect").unwrap_err();
    assert_eq!(empty.code, ErrorCode::OutOfBounds);
    assert_eq!(empty.message, "rect (0, 0, 0, 1) is outside 100x100");
    let wide = validate_rect(rect(1, 0, 100, 1), viewport(), "rect").unwrap_err();
    assert_eq!(wide.code, ErrorCode::OutOfBounds);
    let huge = validate_rect(rect(u32::MAX, 0, u32::MAX, 1), viewport(), "rect").unwrap_err();
    assert_eq!(huge.code, ErrorCode::OutOfBounds);
}

#[test]
fn text_is_measured_in_bytes() {
    assert!(validate_text(&"a".repeat(MAX_TEXT_BYTES)).is_ok());
    assert!(validate_text(&"a".repeat(MAX_TEXT_BYTES + 1)).is_err());
    assert!(validate_text(&"é".repeat(MAX_TEXT_BYTES / 2)).is_ok());
    assert!(validate_text(&"é".repeat(MAX_TEXT_BYTES / 2 + 1)).is_err());
    assert!(validate_text("").is_ok());
    assert_eq!(
        validate_text("a\0").unwrap_err().message,
        "text must not contain NUL bytes"
    );
}

#[test]
fn settle_times_are_bounded() {
    let policy = |quiet_ms, timeout_ms| SettlePolicy { quiet_ms, timeout_ms };
    assert!(validate_settle_policy(SettlePolicy::default()).is_ok());
    assert!(validate_settle_policy(policy(500, 400)).is_err());
    assert_eq!(
        validate_settle_policy(policy(0, u64::MAX)).unwrap_err().code,
        ErrorCode::InvalidAction
    );
}

#[test]
fn batches_hold_between_one_and_sixteen_actions() {
    let request = |count: usize, frame: &str| ActRequest {
        expected_frame_id: frame.to_owned(),
        actions: (0..count)
            .map(|_| Action::Move { x: 1, y: 1, keys: Vec::new() })
            .collect(),
        settle: SettlePolicy::default(),
    };
    assert!(validate_act_request(&request(1, "f_1"), viewport()).is_ok());
    assert!(validate_act_request(&request(16, "f_1"), viewport()).is_ok());
    for bad in [request(0, "f_1"), request(17, "f_1"), request(1, "")] {
        assert_eq!(
            validate_act_request(&bad, viewport()).unwrap_err().code,
            ErrorCode::InvalidAction
        );
    }
    let mut outside = request(2, "f_1");
    outside.actions.push(Action::Move { x: 200, y: 1, keys: Vec::new() });
    assert_eq!(
        validate_act_request(&outside, viewport()).unwrap_err().code,
        ErrorCode::OutOfBounds
    );
}

#[test]
fn waits_name_their_rectangles_and_times() {
    let request = || WaitRequest {
        last_frame_id: "f_1".to_owned(),
        include_rects: vec![rect(0, 0, 10, 10)],
        exclude_rects: Vec::new(),
        timeout_ms: 1_000,
        quiet_ms: 100,
    };
    assert!(validate_wait_request(&request(), viewport()).is_ok());

    let refused = |request: WaitRequest| validate_wait_request(&request, viewport()).unwrap_err();
    let mut none = request();
    none.include_rects.clear();
    assert_eq!(
        refused(none).message,
        "include_rects must contain between 1 and 8 rectangles"
    );
    let mut many = request();
    many.exclude_rects = vec![rect(0, 0, 1, 1); 9];
    assert_eq!(
        refused(many).message,
        "exclude_rects exceeds the limit of 8 rectangles"
    );
    let mut outside = request();
    outside.include_rects.push(rect(95, 0, 10, 10));
    assert_eq!(refused(outside).code, ErrorCode::OutOfBounds);
    let mut long = request();
    long.timeout_ms = 3_600_001;
    assert_eq!(refused(long).code, ErrorCode::InvalidAction);
    let mut unnamed = request();
    unnamed.last_frame_id.clear();
    assert_eq!(refused(unnamed).message, "last_frame_id must not be empty");
}

#[test]
fn coverage_needs_every_pixel() {
    let watched = rect(10, 10, 20, 20);
    assert!(rect_is_fully_covered(watched, &[rect(0, 0, 100, 100)]));
    assert!(rect_is_fully_covered(
        watched,
        &[rect(10, 10, 10, 20), rect(20, 10, 10, 20)]
    ));
    assert!(rect_is_fully_covered(
        watched,
        &[rect(10, 10, 20, 7), rect(10, 17, 12, 13), rect(22, 17, 8, 13)]
    ));
    assert!(!rect_is_fully_covered(
        watched,
        &[rect(10, 10, 20, 7), rect(10, 17, 12, 13), rect(23, 17, 7, 13)]
    ));
    assert!(!rect_is_fully_covered(watched, &[rect(10, 10, 20, 19)]));
    assert!(!rect_is_fully_covered(watched, &[]));
}
