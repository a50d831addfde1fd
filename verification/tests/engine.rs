use std::collections::{BTreeMap, VecDeque};

use cu::engine::{
    accept_wait_sample, cancelled_error, operate, Desktop, Engine, EngineEvent, EngineOp,
    StoreStage, MAX_CACHED_ACTIONS,
};
use cu::frame::CapturedFrame;
use cu::protocol::{
    ActOutcome, ActRequest, ActStatus, Action, CuError, DaemonRequest, DaemonResponse, ErrorCode,
    MouseButton, Observation, ObserveRequest, Rect, RequestEnvelope, ResponseEnvelope,
    ResponseResult, SettlePolicy, Viewport, WaitOutcome, WaitRequest, MAX_ACTION_TIME_MS,
};
use cu::wait::{WaitPublication, WaitStep, WaitTracker};
use cu::watch::{pixel_offset, WatchMask};

const MS: u64 = 1_000_000;

struct MockDesktop {
    captures: VecDeque<CapturedFrame>,
    executed: Vec<Action>,
}

impl Desktop for MockDesktop {
    fn capture(&mut self) -> Result<CapturedFrame, CuError> {
        self.captures
            .pop_front()
            .ok_or_else(|| CuError::new(ErrorCode::CaptureFailed, "mock capture queue is empty"))
    }

    fn validate(&self, action: &Action) -> Result<(), CuError> {
        if matches!(
            action,
            Action::Keypress { keys } if keys.iter().any(|key| key == "UNSUPPORTED")
        ) {
            return Err(CuError::new(ErrorCode::UnsupportedInput, "mock unsupported key"));
        }
        Ok(())
    }

    fn execute(&mut self, action: &Action, _viewport: Viewport) -> Result<(), CuError> {
        if matches!(action, Action::Type { text } if text == "FAIL") {
            return Err(CuError::new(ErrorCode::InputFailed, "mock input failed"));
        }
        self.executed.push(action.clone());
        Ok(())
    }
}

/// An engine with a desktop, a clock and a store in memory.
struct Session {
    engine: Engine,
    desktop: MockDesktop,
    now: u64,
    images: BTreeMap<String, Vec<u8>>,
    evict_fault: Option<String>,
    store_fault: Option<(StoreStage, String)>,
    slept: Vec<u64>,
}

fn session_with_max(captures: Vec<CapturedFrame>, max_frames: usize) -> Session {
    Session {
        engine: Engine::new("/run/frames", max_frames).unwrap(),
        desktop: MockDesktop {
            captures: captures.into(),
            executed: Vec::new(),
        },
        now: 1_000 * MS,
        images: BTreeMap::new(),
        evict_fault: None,
        store_fault: None,
        slept: Vec::new(),
    }
}

fn session(captures: Vec<CapturedFrame>) -> Session {
    session_with_max(captures, 8)
}

enum Ended {
    Reply(ResponseEnvelope),
    Wait(Result<WaitOutcome, CuError>),
}

impl Session {
    fn run(&mut self, first: EngineOp) -> Ended {
        let mut op = first;
        loop {
            let event = match op {
                EngineOp::Reply { response } => return Ended::Reply(response),
                EngineOp::WaitDone { result } => return Ended::Wait(result),
                EngineOp::Sleep { ms } => {
                    self.slept.push(ms);
                    self.now += ms * MS;
                    EngineEvent::Slept
                }
                EngineOp::Evict { path } => {
                    let fault = self.evict_fault.clone();
                    if fault.is_none() {
                        self.images.remove(&path);
                    }
                    EngineEvent::Evicted { fault }
                }
                EngineOp::Store { temporary, path, png } => {
                    assert_ne!(temporary, path);
                    let fault = self.store_fault.clone();
                    if fault.is_none() {
                        self.images.insert(path, png);
                    }
                    EngineEvent::Stored { fault }
                }
                EngineOp::Probe { path } => EngineEvent::Probed {
                    present: self.images.contains_key(&path),
                },
                other => operate(&mut self.desktop, &other).unwrap(),
            };
            assert!(self.engine.is_awaiting(&event));
            op = self.engine.advance(event, self.now);
        }
    }

    fn handle(&mut self, envelope: RequestEnvelope) -> ResponseEnvelope {
        assert!(self.engine.is_idle());
        let op = self.engine.handle(envelope, self.now);
        match self.run(op) {
            Ended::Reply(response) => response,
            Ended::Wait(_) => panic!("expected a reply"),
        }
    }

    fn publish_wait(
        &mut self,
        tracker: &WaitTracker,
        publication: WaitPublication,
        cancelled: bool,
    ) -> Result<WaitOutcome, CuError> {
        let op = self.engine.publish_wait(tracker, publication, cancelled);
        match self.run(op) {
            Ended::Wait(result) => result,
            Ended::Reply(_) => panic!("expected the end of a wait"),
        }
    }

    fn observe(&mut self) -> Observation {
        let response = self.handle(RequestEnvelope {
            request_id: "observe-1".to_owned(),
            request: DaemonRequest::Observe(ObserveRequest::default()),
        });
        let ResponseResult::Success(DaemonResponse::Observe(observation)) = response.result else {
            panic!("expected observation");
        };
        observation
    }

    fn act(&mut self, request_id: &str, frame_id: &str, actions: Vec<Action>) -> ResponseResult {
        self.handle(RequestEnvelope {
            request_id: request_id.to_owned(),
            request: DaemonRequest::Act(ActRequest {
                expected_frame_id: frame_id.to_owned(),
                actions,
                settle: SettlePolicy::default(),
            }),
        })
        .result
    }
}

fn act_outcome(result: ResponseResult) -> ActOutcome {
    let ResponseResult::Success(DaemonResponse::Act(outcome)) = result else {
        panic!("expected action outcome");
    };
    outcome
}

fn error(result: ResponseResult) -> CuError {
    let ResponseResult::Error(error) = result else {
        panic!("expected error");
    };
    error
}

fn typed(text: &str) -> Action {
    Action::Type {
        text: text.to_owned(),
    }
}

fn click(x: i32, y: i32, duration_ms: u64) -> Action {
    Action::Click {
        x,
        y,
        button: MouseButton::Left,
        duration_ms,
        keys: Vec::new(),
    }
}

fn filled(value: u8, width: u32, height: u32, target: &str) -> CapturedFrame {
    CapturedFrame {
        pixels: vec![value; (width * height * 3) as usize],
        width,
        height,
        target: target.to_owned(),
    }
}

fn frame(value: u8) -> CapturedFrame {
    filled(value, 100, 80, "mock:screen")
}

fn small_frame(value: u8) -> CapturedFrame {
    filled(value, 8, 6, "mock:small")
}

fn resized_frame(value: u8) -> CapturedFrame {
    filled(value, 9, 6, "mock:small")
}

fn with_pixel(frame: &CapturedFrame, x: u32, y: u32, value: u8) -> CapturedFrame {
    let mut changed = frame.clone();
    let offset = pixel_offset(&changed, x, y);
    changed.pixels[offset..offset + 3].fill(value);
    changed
}

fn wait_request(frame_id: String) -> WaitRequest {
    WaitRequest {
        last_frame_id: frame_id,
        include_rects: vec![
            Rect { x: 2, y: 2, width: 4, height: 3 },
            Rect { x: 6, y: 0, width: 2, height: 2 },
        ],
        exclude_rects: vec![Rect { x: 3, y: 3, width: 1, height: 1 }],
        timeout_ms: 1_000,
        quiet_ms: 100,
    }
}

#[test]
fn profile_is_returned_without_capturing_the_desktop() {
    let mut session = session(Vec::new());
    session.engine = session
        .engine
        .with_profile(Some("# Desktop\n\nSuper+Left tiles left.".to_owned()));

    let response = session.handle(RequestEnvelope {
        request_id: "profile-1".to_owned(),
        request: DaemonRequest::Profile,
    });

    assert_eq!(
        response.result,
        ResponseResult::Success(DaemonResponse::Profile(Some(
            "# Desktop\n\nSuper+Left tiles left.".to_owned()
        )))
    );
    assert!(session.engine.latest().is_none());
}

#[test]
fn wait_timeout_publishes_nothing_and_preserves_the_baseline() {
    let baseline = small_frame(1);
    let mut session = session(vec![baseline.clone(), baseline.clone()]);
    let observed = session.observe();
    let start = session.now;
    let mut tracker = session
        .engine
        .begin_wait(&wait_request(observed.frame_id.clone()), start)
        .unwrap();
    assert!(matches!(
        tracker.observe_sample(baseline.clone(), start + 500 * MS),
        Ok(WaitStep::Pending)
    ));
    let Ok(WaitStep::TimedOut(outcome)) = tracker.observe_sample(baseline, start + 1_000 * MS)
    else {
        panic!("expected unchanged timeout");
    };

    assert_eq!(outcome, WaitOutcome::Timeout { elapsed_ms: 1_000 });
    assert_eq!(session.engine.latest().unwrap().frame_id, observed.frame_id);
    assert_eq!(session.images.len(), 1);
}

#[test]
fn change_on_the_total_deadline_returns_an_unsettled_frame() {
    let baseline = small_frame(1);
    let mut session = session(vec![baseline.clone(), baseline.clone()]);
    let observed = session.observe();
    let start = session.now;
    let mut request = wait_request(observed.frame_id);
    request.timeout_ms = 500;
    let mut tracker = session.engine.begin_wait(&request, start).unwrap();

    let Ok(WaitStep::Publish(publication)) =
        tracker.observe_sample(with_pixel(&baseline, 2, 2, 2), start + 500 * MS)
    else {
        panic!("a terminal sample change must not be reported as a timeout");
    };
    assert!(!publication.settled);
    assert_eq!(publication.elapsed_ms, 500);
    assert_eq!(
        publication.activity_bbox,
        Rect { x: 2, y: 2, width: 1, height: 1 }
    );
}

#[test]
fn wait_uses_multiple_includes_and_reports_accumulated_activity_bounds() {
    let baseline = small_frame(1);
    let mut session = session(vec![baseline.clone(), baseline.clone()]);
    let observed = session.observe();
    let start = session.now;
    let mut tracker = session
        .engine
        .begin_wait(&wait_request(observed.frame_id.clone()), start)
        .unwrap();

    assert!(matches!(
        tracker.observe_sample(with_pixel(&baseline, 0, 0, 2), start + 100 * MS),
        Ok(WaitStep::Pending)
    ));
    assert!(matches!(
        tracker.observe_sample(with_pixel(&baseline, 3, 3, 2), start + 200 * MS),
        Ok(WaitStep::Pending)
    ));
    let changed = with_pixel(&baseline, 2, 2, 2);
    assert!(matches!(
        tracker.observe_sample(changed.clone(), start + 300 * MS),
        Ok(WaitStep::Pending)
    ));
    let changed_elsewhere = with_pixel(&baseline, 6, 0, 2);
    assert!(matches!(
        tracker.observe_sample(changed_elsewhere.clone(), start + 350 * MS),
        Ok(WaitStep::Pending)
    ));
    let Ok(WaitStep::Publish(publication)) =
        tracker.observe_sample(changed_elsewhere, start + 450 * MS)
    else {
        panic!("expected settled change");
    };
    let outcome = session.publish_wait(&tracker, publication, false).unwrap();

    let WaitOutcome::Changed { elapsed_ms, activity_bbox, observation } = outcome else {
        panic!("expected changed outcome");
    };
    assert_eq!(elapsed_ms, 450);
    assert_eq!(activity_bbox, Rect { x: 2, y: 0, width: 5, height: 3 });
    assert!(observation.settled);
}

#[test]
fn wait_requires_one_contiguous_quiet_period() {
    let baseline = small_frame(1);
    let mut session = session(vec![baseline.clone(), baseline.clone()]);
    let observed = session.observe();
    let start = session.now;
    let mut request = wait_request(observed.frame_id);
    request.quiet_ms = 200;
    let mut tracker = session.engine.begin_wait(&request, start).unwrap();
    let first = with_pixel(&baseline, 2, 2, 2);

    assert!(matches!(
        tracker.observe_sample(first, start + 100 * MS),
        Ok(WaitStep::Pending)
    ));
    let second = with_pixel(&baseline, 2, 2, 3);
    assert!(matches!(
        tracker.observe_sample(second.clone(), start + 250 * MS),
        Ok(WaitStep::Pending)
    ));
    assert!(matches!(
        tracker.observe_sample(second.clone(), start + 449 * MS),
        Ok(WaitStep::Pending)
    ));
    let Ok(WaitStep::Publish(publication)) = tracker.observe_sample(second, start + 450 * MS)
    else {
        panic!("expected publication after contiguous quiet");
    };
    assert!(publication.settled);
    assert_eq!(publication.elapsed_ms, 450);
}

#[test]
fn wait_rejects_a_fully_excluded_watch_mask() {
    let baseline = small_frame(1);
    let mut session = session(vec![baseline.clone(), baseline]);
    let observed = session.observe();
    let mut request = wait_request(observed.frame_id);
    request.exclude_rects = request.include_rects.clone();

    let error = session
        .engine
        .begin_wait(&request, session.now)
        .err()
        .expect("a fully excluded mask must fail");
    assert_eq!(error.code, ErrorCode::InvalidAction);
    assert!(error.message.contains("entire included region"));
}

#[test]
fn wait_latches_transient_activity_and_flicker_can_publish_unsettled() {
    let baseline = small_frame(1);
    let mut session = session(vec![baseline.clone(), baseline.clone()]);
    let observed = session.observe();
    let start = session.now;
    let mut request = wait_request(observed.frame_id.clone());
    request.timeout_ms = 500;
    let mut tracker = session.engine.begin_wait(&request, start).unwrap();
    let first = with_pixel(&baseline, 2, 2, 2);
    assert!(matches!(
        tracker.observe_sample(first, start + 100 * MS),
        Ok(WaitStep::Pending)
    ));
    assert!(matches!(
        tracker.observe_sample(baseline.clone(), start + 150 * MS),
        Ok(WaitStep::Pending)
    ));

    let second = with_pixel(&baseline, 2, 2, 3);
    assert!(matches!(
        tracker.observe_sample(second.clone(), start + 200 * MS),
        Ok(WaitStep::Pending)
    ));
    let third = with_pixel(&baseline, 2, 2, 4);
    assert!(matches!(
        tracker.observe_sample(third, start + 350 * MS),
        Ok(WaitStep::Pending)
    ));
    let Ok(WaitStep::Publish(WaitPublication { settled, .. })) =
        tracker.observe_sample(second, start + 500 * MS)
    else {
        panic!("expected deadline publication");
    };
    assert!(!settled);
}

#[test]
fn wait_rejects_stale_baselines_before_capture_and_after_supersession() {
    let baseline = small_frame(1);
    let newer = small_frame(2);
    let mut session = session(vec![baseline.clone(), baseline, newer.clone(), newer]);
    let observed = session.observe();
    let start = session.now;
    let error = session
        .engine
        .begin_wait(&wait_request("f_old".to_owned()), start)
        .err()
        .expect("stale begin must fail");
    assert_eq!(error.code, ErrorCode::StaleFrame);

    let tracker = session
        .engine
        .begin_wait(&wait_request(observed.frame_id), start)
        .ok()
        .unwrap();
    let _ = session.observe();
    let error = session.engine.capture_wait_sample(&tracker, false).unwrap_err();
    assert_eq!(error.code, ErrorCode::StaleFrame);
}

#[test]
fn viewport_change_is_an_error_with_expected_and_actual_dimensions() {
    let baseline = small_frame(1);
    let mut session = session(vec![baseline.clone(), baseline]);
    let observed = session.observe();
    let start = session.now;
    let mut tracker = session
        .engine
        .begin_wait(&wait_request(observed.frame_id.clone()), start)
        .ok()
        .unwrap();
    let error = tracker
        .observe_sample(resized_frame(1), start + 100 * MS)
        .err()
        .expect("viewport change must fail");
    assert_eq!(error.code, ErrorCode::ViewportChanged);
    assert_eq!(error.expected_viewport, Some(Viewport { width: 8, height: 6 }));
    assert_eq!(error.actual_viewport, Some(Viewport { width: 9, height: 6 }));
    assert_eq!(session.engine.latest().unwrap().frame_id, observed.frame_id);
}

#[test]
fn wait_publication_checks_cancellation() {
    let baseline = small_frame(1);
    let mut session = session(vec![baseline.clone(), baseline.clone()]);
    let observed = session.observe();
    let start = session.now;
    let mut tracker = session
        .engine
        .begin_wait(&wait_request(observed.frame_id.clone()), start)
        .ok()
        .unwrap();
    let changed = with_pixel(&baseline, 2, 2, 2);
    assert!(matches!(
        tracker.observe_sample(changed.clone(), start + 100 * MS),
        Ok(WaitStep::Pending)
    ));
    let Ok(WaitStep::Publish(publication)) = tracker.observe_sample(changed, start + 200 * MS)
    else {
        panic!("expected changed publication");
    };
    let error = session.publish_wait(&tracker, publication, true).unwrap_err();

    assert_eq!(error.code, ErrorCode::Cancelled);
    assert_eq!(session.engine.latest().unwrap().frame_id, observed.frame_id);
}

#[test]
fn repeated_changed_waits_respect_frame_retention() {
    let baseline = small_frame(0);
    let mut session = session_with_max(vec![baseline.clone(), baseline], 2);
    let mut observed = session.observe();

    for value in 1..=3 {
        let start = session.now;
        let mut tracker = session
            .engine
            .begin_wait(&wait_request(observed.frame_id), start)
            .ok()
            .unwrap();
        let changed = small_frame(value);
        assert!(matches!(
            tracker.observe_sample(changed.clone(), start + 100 * MS),
            Ok(WaitStep::Pending)
        ));
        let Ok(WaitStep::Publish(publication)) = tracker.observe_sample(changed, start + 200 * MS)
        else {
            panic!("expected changed publication");
        };
        let WaitOutcome::Changed { observation, .. } =
            session.publish_wait(&tracker, publication, false).unwrap()
        else {
            panic!("expected changed outcome");
        };
        observed = observation;
    }

    assert_eq!(session.images.len(), 2);
}

#[test]
fn action_is_grounded_in_latest_frame_and_returns_a_new_frame() {
    let mut session = session(vec![frame(1), frame(1), frame(2), frame(2)]);
    let observation = session.observe();

    let outcome = act_outcome(session.act("act-1", &observation.frame_id, vec![click(20, 30, 0)]));

    assert_eq!(outcome.status, ActStatus::Complete);
    assert_eq!(outcome.executed, 1);
    assert_ne!(outcome.observation.unwrap().frame_id, observation.frame_id);
    assert_eq!(session.desktop.executed.len(), 1);
}

#[test]
fn duplicate_action_request_is_not_executed_twice() {
    let mut session = session(vec![frame(1), frame(1), frame(2), frame(2)]);
    let observation = session.observe();
    let request = RequestEnvelope {
        request_id: "same-id".to_owned(),
        request: DaemonRequest::Act(ActRequest {
            expected_frame_id: observation.frame_id,
            actions: vec![typed("hello")],
            settle: SettlePolicy::default(),
        }),
    };

    let first = session.handle(request.clone());
    let second = session.handle(request);

    assert_eq!(first, second);
    assert_eq!(session.desktop.executed.len(), 1);
}

#[test]
fn stale_frame_is_rejected_before_input() {
    let mut session = session(vec![frame(1), frame(1)]);
    let _ = session.observe();

    let error = error(session.act("act-stale", "f_old", vec![typed("must not run")]));

    assert_eq!(error.code, ErrorCode::StaleFrame);
    assert!(session.desktop.executed.is_empty());
}

#[test]
fn backend_validates_the_entire_batch_before_input() {
    let mut session = session(vec![frame(1), frame(1)]);
    let observation = session.observe();

    let error = error(session.act(
        "act-unsupported",
        &observation.frame_id,
        vec![
            click(20, 30, 0),
            Action::Keypress {
                keys: vec!["UNSUPPORTED".to_owned()],
            },
        ],
    ));

    assert_eq!(error.code, ErrorCode::UnsupportedInput);
    assert!(session.desktop.executed.is_empty());
}

#[test]
fn invalid_action_time_rejects_the_whole_batch_before_input() {
    let mut session = session(vec![frame(1), frame(1)]);
    let observation = session.observe();
    let error = error(session.act(
        "invalid-action-time",
        &observation.frame_id,
        vec![
            typed("must not run"),
            click(20, 30, MAX_ACTION_TIME_MS + 1),
        ],
    ));
    assert_eq!(error.code, ErrorCode::InvalidAction);
    assert!(session.desktop.executed.is_empty());
}

#[test]
fn frame_ids_are_unique_across_engine_sessions() {
    let mut first = session(vec![frame(1), frame(1)]);
    let mut second = session(vec![frame(1), frame(1)]);

    assert_ne!(first.observe().frame_id, second.observe().frame_id);
}

#[test]
fn retention_keeps_only_the_newest_frames() {
    let mut session = session_with_max(
        vec![frame(1), frame(1), frame(2), frame(2), frame(3), frame(3)],
        2,
    );

    let first = session.observe();
    let second = session.observe();
    let third = session.observe();

    assert!(!session.images.contains_key(&first.image_path));
    assert!(session.images.contains_key(&second.image_path));
    assert!(session.images.contains_key(&third.image_path));
}

#[test]
fn externally_removed_frame_does_not_stall_retention() {
    let mut session = session_with_max(
        vec![
            frame(1),
            frame(1),
            frame(2),
            frame(2),
            frame(3),
            frame(3),
            frame(4),
            frame(4),
        ],
        2,
    );
    let first = session.observe();
    let _ = session.observe();
    session.images.remove(&first.image_path);

    let third = session.observe();
    let fourth = session.observe();

    assert!(session.images.contains_key(&third.image_path));
    assert!(session.images.contains_key(&fourth.image_path));
}

#[test]
fn retention_failure_prevents_input() {
    let mut session = session_with_max(vec![frame(1), frame(1), frame(2), frame(2)], 2);
    let _ = session.observe();
    let latest = session.observe();
    session.evict_fault = Some("is a directory".to_owned());

    let error = error(session.act(
        "act-no-capacity",
        &latest.frame_id,
        vec![typed("must not run")],
    ));

    assert_eq!(error.code, ErrorCode::Internal);
    assert_eq!(error.message, "failed to evict retained frame: is a directory");
    assert!(session.desktop.executed.is_empty());
}

#[test]
fn post_action_publish_failure_reports_executed_count_without_a_path() {
    let mut session = session_with_max(vec![frame(1), frame(1), frame(2), frame(2)], 2);
    let observation = session.observe();
    session.store_fault = Some((StoreStage::Create, "file exists".to_owned()));

    let error = error(session.act(
        "act-publish-fails",
        &observation.frame_id,
        vec![typed("already ran")],
    ));

    assert_eq!(error.code, ErrorCode::Indeterminate);
    assert_eq!(error.executed, Some(1));
    assert!(!error.message.contains("/run/frames"));
    assert_eq!(session.desktop.executed.len(), 1);
}

#[test]
fn cached_action_becomes_a_non_repeating_tombstone_after_image_eviction() {
    let mut session = session_with_max(
        vec![
            frame(1),
            frame(1),
            frame(2),
            frame(2),
            frame(3),
            frame(3),
            frame(4),
            frame(4),
        ],
        2,
    );
    let observation = session.observe();
    let first = session.act("cached-act", &observation.frame_id, vec![typed("once")]);
    let _ = session.observe();
    let _ = session.observe();

    let replay = session.act("cached-act", &observation.frame_id, vec![typed("once")]);

    assert!(act_outcome(first).observation.is_some());
    let replay = act_outcome(replay);
    assert_eq!(replay.status, ActStatus::Complete);
    assert_eq!(replay.executed, 1);
    assert!(replay.image_expired);
    assert!(replay.observation.is_none());
    assert_eq!(session.desktop.executed.len(), 1);
}

#[test]
fn an_image_that_disappeared_expires_its_replayed_result() {
    let mut session = session(vec![frame(1), frame(1), frame(2), frame(2)]);
    let observation = session.observe();
    let first = act_outcome(session.act("gone", &observation.frame_id, vec![typed("once")]));
    session.images.remove(&first.observation.unwrap().image_path);

    let replay = act_outcome(session.act("gone", &observation.frame_id, vec![typed("once")]));

    assert!(replay.image_expired);
    assert!(replay.observation.is_none());
}

#[test]
fn reused_identifiers_are_refused_without_input() {
    let mut session = session(vec![frame(1), frame(1), frame(2), frame(2)]);
    let observation = session.observe();
    let _ = session.act("same", &observation.frame_id, vec![typed("one")]);

    let error = error(session.act("same", &observation.frame_id, vec![typed("two")]));

    assert_eq!(error.code, ErrorCode::ProtocolError);
    assert_eq!(error.message, "request_id was reused with a different request");
    assert_eq!(session.desktop.executed.len(), 1);
}

#[test]
fn partial_batches_count_what_executed_and_show_the_state_after() {
    let mut session = session(vec![frame(1), frame(1), frame(2), frame(2)]);
    let observation = session.observe();

    let outcome = act_outcome(session.act(
        "partial",
        &observation.frame_id,
        vec![typed("one"), typed("FAIL"), typed("three")],
    ));

    assert_eq!(outcome.status, ActStatus::Partial);
    assert_eq!(outcome.executed, 1);
    let failure = outcome.action_error.unwrap();
    assert_eq!(failure.code, ErrorCode::InputFailed);
    assert_eq!(failure.executed, Some(1));
    assert!(outcome.observation.is_some());
    assert_eq!(session.desktop.executed.len(), 1);
}

#[test]
fn a_first_action_that_fails_is_an_error_without_a_frame() {
    let mut session = session(vec![frame(1), frame(1)]);
    let observation = session.observe();

    let error = error(session.act("first", &observation.frame_id, vec![typed("FAIL")]));

    assert_eq!(error.code, ErrorCode::InputFailed);
    assert!(session.desktop.executed.is_empty());
}

#[test]
fn a_capture_that_fails_after_input_is_indeterminate() {
    let mut session = session(vec![frame(1), frame(1)]);
    let observation = session.observe();

    let error = error(session.act("blind", &observation.frame_id, vec![typed("ran")]));

    assert_eq!(error.code, ErrorCode::Indeterminate);
    assert_eq!(error.executed, Some(1));
    assert_eq!(
        error.message,
        "all 1 actions executed, but the resulting frame could not be captured: \
         capture_failed: mock capture queue is empty"
    );
}

#[test]
fn settling_ends_with_two_equal_captures_or_with_its_time() {
    let mut equal = session(vec![frame(1), frame(2), frame(2)]);
    let observation = equal.observe();
    assert!(observation.settled);
    assert_eq!(equal.slept, vec![150, 150]);
    assert_eq!(observation.width, 100);
    assert_eq!(observation.height, 80);
    assert_eq!(observation.target, "mock:screen");

    let mut changing = session((0..20).map(frame).collect());
    let observation = changing.observe();
    assert!(!observation.settled);
    assert_eq!(changing.slept.iter().sum::<u64>(), 1_500);
}

#[test]
fn published_images_decode_to_the_captured_pixels() {
    let captured = with_pixel(&small_frame(7), 3, 2, 200);
    let mut session = session(vec![captured.clone(), captured.clone()]);
    let observation = session.observe();

    let png = &session.images[&observation.image_path];
    assert!(png.starts_with(b"\x89PNG\r\n\x1a\n"));
    let decoded = image::load_from_memory(png).unwrap().into_rgb8();
    assert_eq!((decoded.width(), decoded.height()), (8, 6));
    assert_eq!(decoded.into_raw(), captured.pixels);
}

#[test]
fn engines_retain_at_least_two_frames() {
    let error = Engine::new("/run/frames", 1).err().unwrap();
    assert_eq!(error.code, ErrorCode::Internal);
    assert_eq!(error.message, "max_frames must be at least 2");
    assert!(Engine::new("/run/frames", 2).is_ok());
}

#[test]
fn requests_need_a_frame_before_they_act_or_wait() {
    let mut session = session(Vec::new());
    let failure = error(session.act("early", "f_none", vec![typed("no")]));
    assert_eq!(failure.code, ErrorCode::StaleFrame);
    assert_eq!(failure.message, "observe the target before the first action");

    let refused = session
        .engine
        .begin_wait(&wait_request("f_none".to_owned()), session.now)
        .err()
        .unwrap();
    assert_eq!(
        refused.message,
        "observe the target before waiting for screen changes"
    );
}

#[test]
fn status_tells_the_latest_frame_and_waits_need_their_own_path() {
    let mut session = session(vec![frame(1), frame(1)]);
    let status = |session: &mut Session| {
        session
            .handle(RequestEnvelope {
                request_id: "status".to_owned(),
                request: DaemonRequest::Status,
            })
            .result
    };
    assert_eq!(
        status(&mut session),
        ResponseResult::Success(DaemonResponse::Status(None))
    );
    let observation = session.observe();
    let ResponseResult::Success(DaemonResponse::Status(Some(found))) = status(&mut session) else {
        panic!("expected a status");
    };
    assert_eq!(found.frame_id, observation.frame_id);
    assert_eq!((found.width, found.height), (100, 80));

    let waited = session.handle(RequestEnvelope {
        request_id: "wait".to_owned(),
        request: DaemonRequest::Wait(wait_request(observation.frame_id)),
    });
    assert_eq!(error(waited.result).code, ErrorCode::ProtocolError);
}

#[test]
fn the_oldest_action_result_leaves_a_full_cache() {
    let mut captures = vec![frame(0), frame(0)];
    for value in 0..=MAX_CACHED_ACTIONS as u8 {
        captures.push(frame(value));
        captures.push(frame(value));
    }
    let mut session = session(captures);
    let first_frame = session.observe().frame_id;
    let mut latest = first_frame.clone();
    for n in 0..=MAX_CACHED_ACTIONS {
        let outcome = act_outcome(session.act(&format!("id-{n}"), &latest, vec![typed("x")]));
        latest = outcome.observation.unwrap().frame_id;
    }
    assert_eq!(session.desktop.executed.len(), MAX_CACHED_ACTIONS + 1);
    assert_eq!(session.engine.completed.len(), MAX_CACHED_ACTIONS);

    let forgotten = error(session.act("id-0", &first_frame, vec![typed("x")]));
    assert_eq!(forgotten.code, ErrorCode::StaleFrame);
    assert_eq!(session.desktop.executed.len(), MAX_CACHED_ACTIONS + 1);
}

#[test]
fn frame_identifiers_and_paths_follow_the_revision() {
    let mut session = session(vec![frame(1), frame(1), frame(2), frame(2)]);
    let first = session.observe();
    let second = session.observe();
    assert!(first.frame_id.starts_with("f_"));
    assert!(first.frame_id.ends_with("_0000000000000001"));
    assert!(second.frame_id.ends_with("_0000000000000002"));
    assert_eq!(first.image_path, format!("/run/frames/{}.png", first.frame_id));
}

#[test]
fn wait_samples_are_refused_when_cancelled_or_malformed() {
    assert_eq!(
        accept_wait_sample(Ok(small_frame(1)), true).unwrap_err(),
        cancelled_error()
    );
    let mut broken = small_frame(1);
    broken.pixels.pop();
    assert_eq!(
        accept_wait_sample(Ok(broken), false).unwrap_err().code,
        ErrorCode::CaptureFailed
    );
    assert_eq!(
        accept_wait_sample(Ok(small_frame(3)), false).unwrap().pixels,
        small_frame(3).pixels
    );
}

#[test]
fn waits_sleep_for_the_poll_interval_or_what_is_left() {
    let baseline = small_frame(1);
    let mut session = session(vec![baseline.clone(), baseline]);
    let observed = session.observe();
    let start = session.now;
    let tracker = session
        .engine
        .begin_wait(&wait_request(observed.frame_id), start)
        .ok()
        .unwrap();
    assert_eq!(tracker.next_delay(start), 500 * MS);
    assert_eq!(tracker.next_delay(start + 700 * MS), 300 * MS);
    assert_eq!(tracker.next_delay(start + 1_000 * MS), 0);
    assert_eq!(tracker.next_delay(start + 5_000 * MS), 0);
}

#[test]
fn a_reading_before_the_start_is_further_from_the_deadline() {
    let tracker = WaitTracker::new(
        "f_1".to_owned(),
        small_frame(1),
        WatchMask { spans: Vec::new() },
        1_000 * MS,
        100,
        100,
    );
    assert_eq!(tracker.next_delay(0), 500 * MS);
    assert_eq!(tracker.next_delay(700 * MS), 400 * MS);
    assert_eq!(tracker.next_delay(1_000 * MS), 100 * MS);
    assert_eq!(tracker.next_delay(1_099 * MS), MS);
    assert_eq!(tracker.next_delay(1_100 * MS), 0);
}

#[test]
fn pixels_outside_the_watched_regions_are_ignored() {
    let baseline = small_frame(1);
    let mut session = session(vec![baseline.clone(), baseline.clone()]);
    let observed = session.observe();
    let start = session.now;
    let request = wait_request(observed.frame_id);
    let mut quiet = session.engine.begin_wait(&request, start).unwrap();
    let mut noisy = session.engine.begin_wait(&request, start).unwrap();
    noisy.baseline = with_pixel(&baseline, 0, 5, 77);
    let changed = with_pixel(&baseline, 2, 2, 9);
    for (sample, at) in [(&baseline, 500), (&changed, 600), (&changed, 700)] {
        let other = with_pixel(sample, 3, 3, at as u8);
        let first = quiet.observe_sample(sample.clone(), start + at * MS);
        let second = noisy.observe_sample(other, start + at * MS);
        match (first, second) {
            (Ok(WaitStep::Pending), Ok(WaitStep::Pending)) => assert!(at < 700),
            (Ok(WaitStep::Publish(first)), Ok(WaitStep::Publish(second))) => {
                assert_eq!(at, 700);
                assert!(first.settled && second.settled);
                assert_eq!(first.activity_bbox, second.activity_bbox);
                assert_eq!(first.elapsed_ms, second.elapsed_ms);
            }
            _ => panic!("the waits differ"),
        }
    }
}

#[test]
fn every_new_frame_has_a_new_identifier() {
    let mut session = session(vec![frame(1), frame(1), frame(1), frame(1), frame(2), frame(2)]);
    let first = session.observe().frame_id;
    let second = session.observe().frame_id;
    let third = session.observe().frame_id;
    assert!(first.ends_with("_0000000000000001"));
    assert!(second.ends_with("_0000000000000002"));
    assert!(third.ends_with("_0000000000000003"));
    assert_eq!(first[..35], third[..35]);
}
