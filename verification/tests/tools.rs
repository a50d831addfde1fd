use cu::protocol::{
    ActOutcome, ActStatus, Action, CoordinateSpace, CuError, DaemonResponse, ErrorCode,
    Observation, Rect, ResponseResult, SettlePolicy, WaitOutcome,
};
use cu::replies::{ImageContent, McpWaitStatus, ToolReply};
use cu::session::{Connection, ConnectionTarget, FrameBinding, McpActRequest, McpSessionState};
use cu::tools::{profile_response, target_socket, McpWaitRequest, PendingImage, ToolStep};
use cu::waits::{AsyncWaits, PendingWait, SignalResult};

fn observation(frame_id: &str) -> Observation {
    Observation {
        frame_id: frame_id.to_owned(),
        target: "test:screen".to_owned(),
        width: 100,
        height: 80,
        coordinate_space: CoordinateSpace::FramePixels,
        settled: true,
        image_path: format!("/run/frames/{frame_id}.png"),
    }
}

fn pending(step: ToolStep) -> PendingImage {
    match step {
        ToolStep::ReadImage(pending) => pending,
        ToolStep::Reply(reply) => panic!("expected an image, got {reply:?}"),
    }
}

fn connection() -> Connection {
    Connection {
        socket: "/run/cu.sock".to_owned(),
        target: ConnectionTarget::Default,
        generation: "g".to_owned(),
    }
}

fn observed() -> (McpSessionState, FrameBinding) {
    let mut state = McpSessionState::new();
    state.connect(connection());
    let response = ResponseResult::Success(DaemonResponse::Observe(observation("f1")));
    let image = pending(state.observe_response(Ok(response), false));
    assert_eq!(image.path, "/run/frames/f1.png");
    let reply = state.show_image(image, Ok(vec![1, 2, 3]), false);
    assert!(matches!(reply, ToolReply::Image { .. }));
    let current = state.current.clone().unwrap();
    (state, current)
}

fn act(frame: u64) -> McpActRequest {
    McpActRequest {
        frame,
        actions: vec![Action::Type { text: "a".to_owned() }],
        settle: SettlePolicy::default(),
    }
}

fn acted(frame_id: &str) -> ResponseResult {
    ResponseResult::Success(DaemonResponse::Act(ActOutcome {
        status: ActStatus::Complete,
        executed: 1,
        action_error: None,
        image_expired: false,
        observation: Some(observation(frame_id)),
    }))
}

fn wait(frame: u64) -> McpWaitRequest {
    McpWaitRequest {
        frame,
        include_rects: vec![Rect { x: 0, y: 0, width: 10, height: 10 }],
        exclude_rects: Vec::new(),
        timeout_ms: 1_000,
        quiet_ms: 100,
        async_mode: false,
    }
}

fn changed(frame_id: &str) -> WaitOutcome {
    WaitOutcome::Changed {
        elapsed_ms: 12,
        activity_bbox: Rect { x: 1, y: 2, width: 3, height: 4 },
        observation: observation(frame_id),
    }
}

#[test]
fn calls_need_a_connection() {
    let state = McpSessionState::new();
    let Err(ToolReply::Problem(problem)) = state.connected() else {
        panic!("expected a problem");
    };
    assert_eq!(problem.code, "not_connected");
}

#[test]
fn frames_are_current_once_their_image_was_read() {
    let (mut state, current) = observed();
    assert_eq!(current.frame, 1);

    let response = ResponseResult::Success(DaemonResponse::Observe(observation("f2")));
    let image = pending(state.observe_response(Ok(response), false));
    let reply = state.show_image(image, Err("gone".to_owned()), false);
    assert!(matches!(reply, ToolReply::Problem(problem) if problem.code == "image_unavailable"));
    assert!(state.current.is_none());
}

#[test]
fn cancelled_observations_leave_no_frame() {
    let (mut state, _) = observed();
    let response = ResponseResult::Success(DaemonResponse::Observe(observation("f2")));
    assert!(matches!(state.observe_response(Ok(response), true), ToolStep::Reply(_)));
    assert!(state.current.is_none());
}

#[test]
fn actions_move_on_to_the_next_frame() {
    let (mut state, current) = observed();
    let protocol = state.begin_act("r1", &act(current.frame)).unwrap();
    assert_eq!(protocol.expected_frame_id, "f1");
    let image = pending(state.act_response("r1", Ok(acted("f2")), false));
    let (reply, superseding) = state.show_act(image, Ok(vec![0]), false, false);
    let ToolReply::Image { content: ImageContent::Act(outcome), .. } = reply else {
        panic!("expected an action's image");
    };
    assert_eq!(outcome.observation.unwrap().frame, 2);
    assert_eq!(superseding.as_deref(), Some("f2"));

    let image = pending(state.act_response("r1", Ok(acted("f2")), false));
    let (_, superseding) = state.show_act(image, Ok(vec![0]), false, true);
    assert_eq!(superseding, None);
    assert_eq!(state.latest_frame, 2);
}

#[test]
fn actions_on_old_frames_are_refused_without_a_request() {
    let (mut state, _) = observed();
    let Err(ToolReply::Failure(error)) = state.begin_act("r1", &act(7)) else {
        panic!("expected a failure");
    };
    assert_eq!(error.code, ErrorCode::StaleFrame);
}

#[test]
fn failed_actions_say_what_to_do_next() {
    let (mut state, current) = observed();
    state.begin_act("r1", &act(current.frame)).unwrap();
    let stale = ResponseResult::Error(CuError::new(ErrorCode::StaleFrame, "f_internal"));
    let ToolStep::Reply(ToolReply::Failure(error)) = state.act_response("r1", Ok(stale), false)
    else {
        panic!("expected a failure");
    };
    assert!(error.message.contains("computer_observe") && !error.message.contains("f_internal"));
    assert!(state.current.is_none());

    let (mut state, current) = observed();
    state.begin_act("r1", &act(current.frame)).unwrap();
    let other = ResponseResult::Success(DaemonResponse::Status(None));
    assert!(matches!(
        state.act_response("r1", Ok(other), false),
        ToolStep::Reply(ToolReply::Problem(_))
    ));
    assert!(state.current.is_none());
}

#[test]
fn timed_out_wait_preserves_its_frame_without_an_image() {
    let (mut state, current) = observed();
    let (baseline, protocol) = state.begin_wait(&wait(current.frame)).unwrap();
    assert_eq!(protocol.last_frame_id, "f1");
    let outcome = WaitOutcome::Timeout { elapsed_ms: 30_012 };
    let response = ResponseResult::Success(DaemonResponse::Wait(outcome));
    let ToolStep::Reply(ToolReply::Plain(ImageContent::Wait(shown))) =
        state.wait_response(&baseline, Ok(response), false)
    else {
        panic!("expected a wait without an image");
    };
    assert_eq!(shown.status, McpWaitStatus::Timeout);
    assert_eq!(shown.elapsed_ms, 30_012);
    assert_eq!(shown.frame, 1);
    assert_eq!(state.current, Some(current));
}

#[test]
fn changed_waits_show_the_next_frame() {
    let (mut state, current) = observed();
    let (baseline, _) = state.begin_wait(&wait(current.frame)).unwrap();
    let response = ResponseResult::Success(DaemonResponse::Wait(changed("f2")));
    let image = pending(state.wait_response(&baseline, Ok(response), false));
    let reply = state.show_wait(&baseline, image, Ok(vec![9]), false);
    let ToolReply::Image { content: ImageContent::Wait(shown), .. } = reply else {
        panic!("expected a wait's image");
    };
    assert_eq!(shown.status, McpWaitStatus::Changed);
    assert_eq!(shown.frame, 2);
    assert_eq!(state.current.unwrap().internal_id, "f2");
}

#[test]
fn waits_that_were_overtaken_change_nothing() {
    let (mut state, current) = observed();
    let (baseline, _) = state.begin_wait(&wait(current.frame)).unwrap();
    let response = ResponseResult::Success(DaemonResponse::Observe(observation("f5")));
    let image = pending(state.observe_response(Ok(response), false));
    state.show_image(image, Ok(vec![1]), false);
    let newer = state.current.clone();
    assert!(matches!(state.finish_wait(&baseline, changed("f2")), ToolStep::Reply(_)));
    assert_eq!(state.current, newer);
}

#[test]
fn async_waits_need_their_frame_and_an_open_session() {
    let (state, current) = observed();
    let control = AsyncWaits::new();
    assert!(state.check_async_wait(&control, &current, false).is_ok());
    assert!(state.check_async_wait(&control, &current, true).is_err());
    let other = FrameBinding { frame: 9, internal_id: "f9".to_owned() };
    assert!(state.check_async_wait(&control, &other, false).is_err());
}

fn waiting() -> AsyncWaits {
    let mut waits = AsyncWaits::new();
    waits
        .start(PendingWait {
            generation: "w".to_owned(),
            baseline: "f1".to_owned(),
            started_at: 1_000_000,
            path: "/run/w.json".to_owned(),
            staging_path: "/run/.w.json.tmp".to_owned(),
        })
        .unwrap();
    waits
}

#[test]
fn connecting_starts_from_nothing() {
    let (mut state, _) = observed();
    let mut waits = waiting();
    assert!(state.begin_connect(&mut waits, "has/slash", false, 0).is_err());
    assert!(state.begin_connect(&mut waits, "work", true, 0).is_err());
    assert!(state.current.is_some() && state.connection.is_some());
    assert!(waits.pending.is_some());

    let begun = state.begin_connect(&mut waits, "work", false, 9_000_000);
    let (target, ended, terminal) = begun.unwrap();
    assert!(matches!(target, ConnectionTarget::Named(_)));
    assert_eq!(ended.unwrap().generation, "g");
    assert!(state.current.is_none() && state.connection.is_none());
    assert!(waits.pending.is_none());
    let terminal = terminal.unwrap();
    assert_eq!(terminal.wait.generation, "w");
    assert!(matches!(terminal.result, SignalResult::Cancelled { elapsed_ms: 8, .. }));

    let reply = state.end_connect(connection(), Ok(Some("guide".to_owned())), false);
    assert_eq!(reply, ToolReply::Connected { profile: "guide".to_owned() });
    assert!(state.connected().is_ok());

    let (_, _, terminal) = state.begin_connect(&mut waits, "@default", false, 0).unwrap();
    assert!(terminal.is_none());
    let reply = state.end_connect(connection(), Err("refused".to_owned()), false);
    assert!(matches!(reply, ToolReply::Problem(_)));
    assert!(state.connection.is_none());
}

#[test]
fn observing_cancels_the_background_wait() {
    let (state, _) = observed();
    let mut waits = waiting();
    assert!(McpSessionState::new().begin_observe(&mut waits, false, 0).is_err());
    assert!(state.begin_observe(&mut waits, true, 0).is_err());
    assert!(waits.pending.is_some());

    let (found, terminal) = state.begin_observe(&mut waits, false, 3_000_000).unwrap();
    assert_eq!(found.generation, "g");
    assert!(matches!(
        terminal.unwrap().result,
        SignalResult::Cancelled { elapsed_ms: 2, .. }
    ));
    assert!(waits.pending.is_none());
}

#[test]
fn targets_have_the_sockets_of_their_instances() {
    let runtime = "/run/user/1/computer-use";
    let socket = |name: &str| target_socket(&ConnectionTarget::parse(name).unwrap(), runtime);
    assert_eq!(socket("@default").unwrap(), format!("{runtime}/cu.sock"));
    assert_eq!(socket("work").unwrap(), format!("{runtime}/instances/work/cu.sock"));
    assert_eq!(socket("@private"), None);
}

#[test]
fn profiles_come_from_profile_responses() {
    let profile = |response| profile_response(ResponseResult::Success(response));
    assert_eq!(
        profile(DaemonResponse::Profile(Some("guide".to_owned()))),
        Ok(Some("guide".to_owned()))
    );
    assert!(profile(DaemonResponse::Status(None)).is_err());
    let error = ResponseResult::Error(CuError::new(ErrorCode::Internal, "broken"));
    assert!(profile_response(error).unwrap_err().contains("broken"));
}
