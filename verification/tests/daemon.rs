use cu::daemon::{
    check_response_line, frame_message, join_error, prepare_socket, removes_socket, route,
    wait_response, watch_client, ClientRead, Routed, SocketStep, WaitSlot,
};
use cu::protocol::{
    CuError, DaemonRequest, DaemonResponse, ErrorCode, RequestEnvelope, ResponseResult,
    WaitOutcome, WaitRequest,
};

#[test]
fn second_concurrent_wait_returns_busy() {
    let mut slot = WaitSlot::new();
    assert!(slot.acquire().is_ok());
    let error = slot.acquire().unwrap_err();
    assert_eq!(error.code, ErrorCode::Busy);
    slot.release();
    assert!(slot.acquire().is_ok());
}

#[test]
fn socket_owner_does_not_unlink_a_replacement_path() {
    assert!(removes_socket((1, 7), Some((1, 7))));
    assert!(!removes_socket((1, 7), Some((1, 8))));
    assert!(!removes_socket((1, 7), Some((2, 7))));
    assert!(!removes_socket((1, 7), None));
}

#[test]
fn a_second_owner_cannot_unlink_a_live_socket() {
    assert_eq!(
        prepare_socket("/run/cu.sock", true, true).unwrap_err(),
        "another daemon is already listening at /run/cu.sock"
    );
    assert_eq!(prepare_socket("/run/cu.sock", true, false), Ok(SocketStep::RemoveStale));
    assert_eq!(prepare_socket("/run/cu.sock", false, false), Ok(SocketStep::Bind));
}

#[test]
fn waits_are_served_beside_the_engine() {
    let envelope = |request| RequestEnvelope { request_id: "r".to_owned(), request };
    let wait = WaitRequest {
        last_frame_id: "f".to_owned(),
        include_rects: Vec::new(),
        exclude_rects: Vec::new(),
        timeout_ms: 1,
        quiet_ms: 1,
    };
    assert!(matches!(
        route(envelope(DaemonRequest::Wait(wait))),
        Routed::Wait { request_id, request } if request_id == "r" && request.last_frame_id == "f"
    ));
    assert!(matches!(
        route(envelope(DaemonRequest::Profile)),
        Routed::Engine(RequestEnvelope { request: DaemonRequest::Profile, .. })
    ));
}

#[test]
fn clients_of_a_wait_stay_silent() {
    assert!(watch_client(ClientRead::Closed).is_ok());
    assert_eq!(
        watch_client(ClientRead::Data).unwrap_err(),
        "client sent data after its wait request"
    );
    assert_eq!(
        watch_client(ClientRead::Failed("reset".to_owned())).unwrap_err(),
        "failed while watching wait client: reset"
    );
}

#[test]
fn wait_answers_keep_their_identifier() {
    let response = wait_response("r".to_owned(), Ok(WaitOutcome::Timeout { elapsed_ms: 3 }));
    assert_eq!(response.request_id, "r");
    assert_eq!(
        response.result,
        ResponseResult::Success(DaemonResponse::Wait(WaitOutcome::Timeout { elapsed_ms: 3 }))
    );
    let error = CuError::new(ErrorCode::StaleFrame, "old");
    let response = wait_response("r".to_owned(), Err(error.clone()));
    assert_eq!(response.result, ResponseResult::Error(error));
    assert_eq!(join_error("oops").message, "engine task panicked: oops");
}

#[test]
fn messages_are_lines() {
    assert_eq!(frame_message(b"{}".to_vec()), b"{}\n");
    assert!(check_response_line("{}").is_ok());
    assert_eq!(
        check_response_line("").unwrap_err(),
        "daemon closed the connection without a response"
    );
}
