use cu::instance::InstanceName;
use cu::protocol::{
    ActOutcome, ActStatus, CoordinateSpace, CuError, ErrorCode, Observation, Rect,
};
use cu::replies::{
    action_request_id, cancelled_connect_result, cancelled_result, connection_error, image_result,
    lost_response, missing_observation, not_connected_result, stale_frame_result,
    structured_error, unexpected_response, CallId, ImageContent, McpActOutcome, McpObservation,
    McpWaitOutcome, McpWaitStatus, ToolReply,
};
use cu::session::ConnectionTarget;

fn observation(frame_id: &str) -> Observation {
    Observation {
        frame_id: frame_id.to_owned(),
        target: "test:screen".to_owned(),
        width: 100,
        height: 80,
        coordinate_space: CoordinateSpace::FramePixels,
        settled: true,
        image_path: "/run/frames/frame.png".to_owned(),
    }
}

fn problem(reply: ToolReply) -> (String, String) {
    match reply {
        ToolReply::Problem(problem) => (problem.code, problem.message),
        other => panic!("expected a problem, got {other:?}"),
    }
}

#[test]
fn successful_observation_returns_matching_structured_data_and_png() {
    let shown = McpObservation::from_protocol(&observation("f_test_1"), 1);
    assert_eq!(
        shown,
        McpObservation { frame: 1, width: 100, height: 80, settled: true }
    );
    let reply = image_result(ImageContent::Observation(shown), Ok(vec![1, 2, 3]));
    assert_eq!(
        reply,
        ToolReply::Image {
            content: ImageContent::Observation(shown),
            image: "AQID".to_owned(),
        }
    );
}

#[test]
fn images_are_in_base_64() {
    let content = || {
        ImageContent::Observation(McpObservation {
            frame: 1,
            width: 1,
            height: 1,
            settled: false,
        })
    };
    for (bytes, text) in [
        (vec![], ""),
        (vec![0xff], "/w=="),
        (vec![0xfb, 0xef], "++8="),
        (vec![0x00, 0x10, 0x83, 0x10], "ABCDEA=="),
    ] {
        let ToolReply::Image { image, .. } = image_result(content(), Ok(bytes)) else {
            panic!("expected an image");
        };
        assert_eq!(image, text);
    }
}

#[test]
fn changed_wait_returns_compact_metadata_and_native_png() {
    let outcome = McpWaitOutcome {
        status: McpWaitStatus::Changed,
        elapsed_ms: 32_784,
        frame: 2,
        settled: true,
        activity_bbox: Some(Rect { x: 120, y: 240, width: 600, height: 310 }),
    };
    let reply = image_result(ImageContent::Wait(outcome), Ok(vec![1, 2, 3]));
    assert_eq!(
        reply,
        ToolReply::Image { content: ImageContent::Wait(outcome), image: "AQID".to_owned() }
    );
}

#[test]
fn unavailable_image_error_omits_the_private_path() {
    let shown = McpObservation { frame: 1, width: 1, height: 1, settled: true };
    let reply = image_result(
        ImageContent::Observation(shown),
        Err("No such file or directory (os error 2)".to_owned()),
    );
    let (code, message) = problem(reply);
    assert_eq!(code, "image_unavailable");
    assert!(!message.contains("/run/frames"));
}

#[test]
fn successful_action_omits_the_nested_image_path_and_returns_png() {
    let outcome = ActOutcome {
        status: ActStatus::Complete,
        executed: 1,
        action_error: None,
        image_expired: false,
        observation: Some(observation("f_test_2")),
    };
    let projected = McpObservation::from_protocol(outcome.observation.as_ref().unwrap(), 2);
    let shown = McpActOutcome::from_protocol(outcome, Some(projected));
    assert_eq!(shown.status, ActStatus::Complete);
    assert_eq!(shown.executed, 1);
    assert_eq!(shown.observation.unwrap().frame, 2);
    assert_eq!(shown.message, None);
    assert!(matches!(
        image_result(ImageContent::Act(shown), Ok(vec![1, 2, 3])),
        ToolReply::Image { .. }
    ));
}

#[test]
fn partial_action_returns_a_required_integer_error_count() {
    let outcome = ActOutcome {
        status: ActStatus::Partial,
        executed: 1,
        action_error: Some(
            CuError::new(ErrorCode::InputFailed, "failed after the first action").with_executed(1),
        ),
        image_expired: false,
        observation: Some(observation("f_test_partial")),
    };
    let projected = McpObservation::from_protocol(outcome.observation.as_ref().unwrap(), 3);
    let shown = McpActOutcome::from_protocol(outcome, Some(projected));
    assert_eq!(shown.status, ActStatus::Partial);
    assert_eq!(shown.executed, 1);
    let error = shown.action_error.as_ref().unwrap();
    assert_eq!(error.code, ErrorCode::InputFailed);
    assert_eq!(error.executed, 1);
    assert_eq!(shown.observation.unwrap().frame, 3);
    let message = shown.message.unwrap();
    assert!(message.contains("Inspect the returned observation"));
    assert!(message.contains("do not repeat"));
}

#[test]
fn expired_cached_action_is_a_non_error_without_an_image() {
    let shown = McpActOutcome::from_protocol(
        ActOutcome {
            status: ActStatus::Complete,
            executed: 1,
            action_error: None,
            image_expired: true,
            observation: None,
        },
        None,
    );
    assert_eq!(shown.status, ActStatus::Complete);
    assert_eq!(shown.executed, 1);
    assert!(shown.image_expired);
    assert!(shown.observation.is_none());
    let message = shown.message.unwrap();
    assert!(message.contains("computer_observe"));
    assert!(message.contains("do not repeat"));
}

#[test]
fn numeric_and_string_request_ids_have_distinct_daemon_keys() {
    let nil = "00000000-0000-0000-0000-000000000000";
    let numeric = action_request_id("session", nil, &CallId::Number(7));
    let string = action_request_id("session", nil, &CallId::Text("7".to_owned()));

    assert_ne!(numeric, string);
    assert!(numeric.ends_with(":n:7"));
    assert!(string.ends_with(":s:7"));
    assert!(action_request_id("session", nil, &CallId::Number(i64::MIN))
        .ends_with(":n:-9223372036854775808"));
}

#[test]
fn stale_frame_error_does_not_expose_internal_ids() {
    let ToolReply::Failure(error) = stale_frame_result("call computer_observe") else {
        panic!("expected a failure");
    };
    assert!(!error.message.contains("internal-frame"));
    assert!(!error.message.contains("f_"));
    assert_eq!(error.code, ErrorCode::StaleFrame);
}

#[test]
fn missing_daemon_returns_a_start_command_to_the_agent() {
    let detail = cu::instance::connection_error("/run/missing.sock", true, "");
    let (code, message) = problem(connection_error(&ConnectionTarget::Default, &detail));
    assert_eq!(code, "daemon_unavailable");
    assert!(message.contains("start it separately, then retry"));
    assert!(message.contains("`cu daemon`"));
    assert!(message.contains("`cu daemon --help`"));

    let named = ConnectionTarget::Named(InstanceName::parse("work").unwrap());
    let (code, _) = problem(connection_error(&named, &detail));
    assert_eq!(code, "daemon_unavailable");
    let (code, message) = problem(connection_error(&ConnectionTarget::Private, "gone"));
    assert_eq!(code, "daemon_unavailable");
    assert!(!message.contains("cu daemon"));
}

#[test]
fn lost_responses_to_actions_leave_the_outcome_unknown() {
    let (code, message) = problem(lost_response(&ConnectionTarget::Default, true, "reset"));
    assert_eq!(code, "daemon_unavailable");
    assert!(message.contains(
        "action outcome is unknown; call computer_observe and inspect the desktop before issuing \
         more actions: reset"
    ));
    let (code, message) = problem(lost_response(&ConnectionTarget::Default, false, "reset"));
    assert_eq!(code, "daemon_unavailable");
    assert!(message.contains("reset") && !message.contains("outcome is unknown"));
}

#[test]
fn the_remaining_answers_have_their_codes() {
    assert_eq!(problem(not_connected_result()).0, "not_connected");
    assert_ne!(problem(unexpected_response("act")).0, "");
    let ToolReply::Problem(missing) = missing_observation(3) else {
        panic!("expected a problem");
    };
    assert_eq!(missing.executed, Some(3));
    for reply in [cancelled_result(), cancelled_connect_result()] {
        assert!(!matches!(reply, ToolReply::Image { .. }));
    }
    let ToolReply::Failure(error) =
        structured_error(CuError::new(ErrorCode::StaleFrame, "moved on"))
    else {
        panic!("expected a failure");
    };
    assert!(error.message.starts_with("moved on"));
}
