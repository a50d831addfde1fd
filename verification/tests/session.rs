use cu::instance::InstanceName;
use cu::protocol::{Action, CuError, ErrorCode, SettlePolicy};
use cu::session::{
    default_connect_name, wait_error_invalidates_frame, Connection, ConnectionTarget,
    McpActRequest, McpSessionState, MAX_MCP_CACHED_ACTIONS,
};

fn request(frame: u64, text: &str) -> McpActRequest {
    McpActRequest {
        frame,
        actions: vec![Action::Type { text: text.to_owned() }],
        settle: SettlePolicy::default(),
    }
}

#[test]
fn connect_defaults_and_parses_explicit_selectors_and_literal_names() {
    for name in [default_connect_name(), "@default".to_owned()] {
        assert!(matches!(ConnectionTarget::parse(&name), Ok(ConnectionTarget::Default)));
    }
    let private = ConnectionTarget::parse("@private").unwrap();
    assert!(matches!(private, ConnectionTarget::Private));
    assert!(private.is_private());
    for expected in [
        "work".to_owned(),
        "default".to_owned(),
        "private".to_owned(),
        "x11-99.A_1".to_owned(),
        "a".repeat(64),
    ] {
        let Ok(ConnectionTarget::Named(InstanceName { name })) =
            ConnectionTarget::parse(&expected)
        else {
            panic!("expected named target")
        };
        assert_eq!(name, expected);
    }
}

#[test]
fn connection_target_rejects_invalid_names_and_unknown_selectors() {
    for name in [
        "",
        " ",
        ".",
        "..",
        "../escape",
        "has/slash",
        "空",
        "@unknown",
        "@DEFAULT",
        &"a".repeat(65),
    ] {
        assert!(ConnectionTarget::parse(name).is_err(), "accepted {name}");
    }
}

#[test]
fn action_requires_a_current_mcp_frame() {
    let mut state = McpSessionState::new();

    let error = state.prepare_action("request-1", &request(1, "hello"));

    assert_eq!(error.unwrap_err().code, ErrorCode::StaleFrame);
    assert!(state.completed_actions.is_empty());
}

#[test]
fn observation_and_action_results_form_a_compact_sequence() {
    let mut state = McpSessionState::new();
    let first = state.bind_observation("internal-frame-1".to_owned()).unwrap();
    state.commit(first.clone());

    let protocol = state
        .prepare_action("request-1", &request(first.frame, "hello"))
        .unwrap();
    assert_eq!(first.frame, 1);
    assert_eq!(protocol.expected_frame_id, "internal-frame-1");

    let second = state
        .bind_action_observation("request-1", "internal-frame-2".to_owned())
        .unwrap();
    state.commit(second.clone());
    let next = state
        .prepare_action("request-2", &request(second.frame, "world"))
        .unwrap();

    assert_eq!(second.frame, 2);
    assert_eq!(next.expected_frame_id, "internal-frame-2");
}

#[test]
fn stale_wait_errors_do_not_invalidate_the_session_frame() {
    assert!(!wait_error_invalidates_frame(ErrorCode::StaleFrame));
    assert!(!wait_error_invalidates_frame(ErrorCode::Busy));
    assert!(!wait_error_invalidates_frame(ErrorCode::InvalidAction));
    assert!(wait_error_invalidates_frame(ErrorCode::ViewportChanged));
    assert!(wait_error_invalidates_frame(ErrorCode::CaptureFailed));
}

#[test]
fn changed_wait_advances_the_frame_only_if_its_baseline_is_current() {
    let mut state = McpSessionState::new();
    let baseline = state.bind_observation("internal-frame-1".to_owned()).unwrap();
    state.commit(baseline.clone());

    let changed = state
        .bind_wait_observation(&baseline, "internal-frame-2".to_owned())
        .unwrap();
    state.commit(changed.clone());

    assert_eq!(changed.frame, 2);
    assert_eq!(state.current, Some(changed));
    assert_eq!(
        state
            .bind_wait_observation(&baseline, "internal-frame-3".to_owned())
            .unwrap_err()
            .code,
        ErrorCode::StaleFrame
    );
}

#[test]
fn exact_retry_reuses_its_original_input_and_output_frames() {
    let mut state = McpSessionState::new();
    let first = state.bind_observation("internal-frame-1".to_owned()).unwrap();
    state.commit(first.clone());
    let public_request = request(first.frame, "hello");
    let original = state.prepare_action("request-1", &public_request).unwrap();
    let second = state
        .bind_action_observation("request-1", "internal-frame-2".to_owned())
        .unwrap();
    state.commit(second.clone());

    assert!(state.is_retry("request-1"));
    let replay = state.prepare_action("request-1", &public_request).unwrap();
    let replayed_result = state
        .bind_action_observation("request-1", "internal-frame-2".to_owned())
        .unwrap();

    assert_eq!(replay, original);
    assert_eq!(replayed_result, second);
    assert_eq!(state.latest_frame, 2);
}

#[test]
fn request_id_reuse_with_different_input_is_rejected() {
    let mut state = McpSessionState::new();
    let first = state.bind_observation("internal-frame-1".to_owned()).unwrap();
    state.commit(first.clone());
    state
        .prepare_action("request-1", &request(first.frame, "hello"))
        .unwrap();

    let error = state
        .prepare_action("request-1", &request(first.frame, "different"))
        .unwrap_err();

    assert_eq!(error.code, ErrorCode::ProtocolError);
}

#[test]
fn replayed_old_result_does_not_replace_a_newer_current_frame() {
    let mut state = McpSessionState::new();
    let first = state.bind_observation("internal-frame-1".to_owned()).unwrap();
    state.commit(first.clone());
    state
        .prepare_action("request-1", &request(first.frame, "first"))
        .unwrap();
    let second = state
        .bind_action_observation("request-1", "internal-frame-2".to_owned())
        .unwrap();
    state.commit(second.clone());
    let third = state.bind_observation("internal-frame-3".to_owned()).unwrap();
    state.commit(third.clone());

    state.commit(second);

    assert_eq!(state.current, Some(third));
}

#[test]
fn uncertain_errors_clear_grounding_but_validation_errors_preserve_it() {
    let mut state = McpSessionState::new();
    let first = state.bind_observation("internal-frame-1".to_owned()).unwrap();
    state.commit(first.clone());

    state.apply_error(&CuError::new(ErrorCode::OutOfBounds, "outside frame"));
    assert_eq!(state.current, Some(first.clone()));

    state.apply_error(&CuError::new(
        ErrorCode::InputFailed,
        "input may have changed",
    ));
    assert!(state.current.is_none());
}

#[test]
fn action_request_memo_is_bounded() {
    let mut state = McpSessionState::new();
    let first = state.bind_observation("internal-frame-1".to_owned()).unwrap();
    state.commit(first.clone());

    for index in 0..=MAX_MCP_CACHED_ACTIONS {
        state
            .prepare_action(
                &format!("request-{index}"),
                &request(first.frame, &index.to_string()),
            )
            .unwrap();
    }

    assert_eq!(state.completed_actions.len(), MAX_MCP_CACHED_ACTIONS);
    assert!(!state.is_retry("request-0"));
    assert!(state.is_retry(&format!("request-{MAX_MCP_CACHED_ACTIONS}")));
}

#[test]
fn frames_of_the_past_cannot_be_named() {
    let mut state = McpSessionState::new();
    for id in ["f1", "f2"] {
        let binding = state.bind_observation(id.to_owned()).unwrap();
        state.commit(binding);
    }
    assert_eq!(state.resolve_frame(2).unwrap().internal_id, "f2");
    assert_eq!(state.resolve_frame(1).unwrap_err().code, ErrorCode::StaleFrame);
    assert_eq!(state.resolve_frame(3).unwrap_err().code, ErrorCode::StaleFrame);
    let current = state.resolve_frame(2).unwrap();
    assert!(state.ensure_current(&current).is_ok());
    state.clear_if_current(&current);
    assert!(state.ensure_current(&current).is_err());
}

#[test]
fn a_new_connection_knows_nothing_of_the_last_one() {
    let mut state = McpSessionState::new();
    let connection = |generation: &str| Connection {
        socket: "/run/cu.sock".to_owned(),
        target: ConnectionTarget::Default,
        generation: generation.to_owned(),
    };
    assert!(state.disconnect().is_none());
    state.connect(connection("one"));
    let first = state.bind_observation("f1".to_owned()).unwrap();
    state.commit(first.clone());
    state.prepare_action("request-1", &request(1, "a")).unwrap();

    assert_eq!(state.disconnect().unwrap().generation, "one");
    assert!(state.current.is_none() && state.completed_actions.is_empty());
    state.connect(connection("two"));
    let next = state.bind_observation("f2".to_owned()).unwrap();
    assert_eq!(next.frame, 2);
}
