use cu::protocol::{CuError, DaemonResponse, ErrorCode, Rect, ResponseResult, WaitOutcome};
use cu::waits::{started_message, AsyncWaits, PendingWait, SignalResult, Terminal};

const MS: u64 = 1_000_000;

fn wait(generation: &str, baseline: &str) -> PendingWait {
    PendingWait {
        generation: generation.to_owned(),
        baseline: baseline.to_owned(),
        started_at: 100 * MS,
        path: format!("/run/{generation}.json"),
        staging_path: format!("/run/.{generation}.json.tmp"),
    }
}

fn started(generation: &str, baseline: &str) -> AsyncWaits {
    let mut waits = AsyncWaits::new();
    waits.start(wait(generation, baseline)).unwrap();
    waits
}

fn status(terminal: &Terminal) -> &'static str {
    match terminal.result {
        SignalResult::Changed { .. } => "changed",
        SignalResult::Timeout { .. } => "timeout",
        SignalResult::Error { .. } => "error",
        SignalResult::Cancelled { .. } => "cancelled",
    }
}

fn timeout(elapsed_ms: u64) -> SignalResult {
    SignalResult::Timeout { elapsed_ms }
}

#[test]
fn completion_before_cancellation_preserves_the_only_terminal_result() {
    let mut waits = started("g1", "baseline");
    let published = waits.finish("g1", timeout(42)).unwrap();
    assert_eq!(status(&published), "timeout");
    assert_eq!(published.wait.path, "/run/g1.json");
    assert!(waits.cancel(143 * MS).is_none());
    assert!(waits.lose_worker("g1", 143 * MS).is_none());
    assert!(waits.stop(144 * MS).is_none());
    assert!(waits.pending.is_none());
}

#[test]
fn cancellation_before_completion_stays_visible_and_is_not_overwritten() {
    let mut waits = started("g1", "baseline");
    let published = waits.cancel(120 * MS).unwrap();
    let SignalResult::Cancelled { elapsed_ms, message } = &published.result else {
        panic!("expected a cancelled wait");
    };
    assert_eq!(*elapsed_ms, 20);
    assert!(message.contains("computer_observe"));
    assert!(waits.finish("g1", timeout(20)).is_none());
    assert!(waits.pending.is_none());
}

#[test]
fn old_worker_completion_and_drop_cannot_finish_a_new_generation() {
    let mut waits = started("g1", "baseline");
    assert_eq!(status(&waits.cancel(101 * MS).unwrap()), "cancelled");
    waits.start(wait("g2", "baseline")).unwrap();
    assert!(waits.finish("g1", timeout(1)).is_none());
    assert!(waits.lose_worker("g1", 101 * MS).is_none());
    assert_eq!(waits.pending.as_ref().unwrap().generation, "g2");
    let published = waits.finish("g2", timeout(45)).unwrap();
    assert!(matches!(published.result, SignalResult::Timeout { elapsed_ms: 45 }));
    assert!(waits.pending.is_none());
}

#[test]
fn shutdown_and_drop_publish_cancellation_even_while_the_frame_mutex_is_held() {
    let mut waits = started("g1", "baseline");
    assert_eq!(status(&waits.stop(102 * MS).unwrap()), "cancelled");
    assert!(waits.closed && waits.pending.is_none());
    assert!(waits.finish("g1", timeout(3)).is_none());
    assert_eq!(waits.check_start().unwrap_err().code, ErrorCode::Cancelled);
    assert!(waits.start(wait("g2", "baseline")).is_err());
}

#[test]
fn panicking_worker_publishes_an_error_and_releases_the_pending_slot() {
    let mut waits = started("g1", "baseline");
    let failed = waits.lose_worker("g1", 105 * MS).unwrap();
    let SignalResult::Error { elapsed_ms, code, .. } = &failed.result else {
        panic!("expected an error");
    };
    assert_eq!((*elapsed_ms, code.as_str()), (5, "internal"));
    assert!(waits.pending.is_none());

    waits.start(wait("g2", "baseline")).unwrap();
    assert_eq!(status(&waits.finish("g2", timeout(0)).unwrap()), "timeout");
}

#[test]
fn post_act_cancellation_requires_a_different_committed_frame() {
    let mut waits = started("g1", "same-frame");
    assert!(waits.cancel_if_superseded("same-frame", 101 * MS).is_none());
    assert!(waits.pending.is_some());
    let published = waits.cancel_if_superseded("new-frame", 101 * MS).unwrap();
    assert_eq!(status(&published), "cancelled");
    assert!(waits.pending.is_none());
}

#[test]
fn one_asynchronous_wait_is_active_at_a_time() {
    let mut waits = started("g1", "baseline");
    let error = waits.start(wait("g2", "baseline")).unwrap_err();
    assert_eq!(error.code, ErrorCode::Busy);
    assert_eq!(error.message, "an asynchronous wait is already active");
    assert_eq!(waits.pending.unwrap().generation, "g1");
    assert!(started_message().contains("signal_path"));
}

#[test]
fn responses_become_terminal_results() {
    let changed = WaitOutcome::Changed {
        elapsed_ms: 5,
        activity_bbox: Rect { x: 1, y: 2, width: 3, height: 4 },
        observation: cu::protocol::Observation {
            frame_id: "f2".to_owned(),
            target: "t".to_owned(),
            width: 10,
            height: 10,
            coordinate_space: cu::protocol::CoordinateSpace::FramePixels,
            settled: true,
            image_path: "/x".to_owned(),
        },
    };
    let answer = |outcome| Ok(ResponseResult::Success(DaemonResponse::Wait(outcome)));
    let (result, invalidates) = SignalResult::from_response(answer(changed), 9);
    let SignalResult::Changed { elapsed_ms, activity_bbox, settled, message } = result else {
        panic!("expected a change");
    };
    assert_eq!((elapsed_ms, activity_bbox.width, settled), (5, 3, true));
    assert!(message.contains("computer_observe"));
    assert!(invalidates);

    let outcome = WaitOutcome::Timeout { elapsed_ms: 6 };
    let (result, invalidates) = SignalResult::from_response(answer(outcome), 9);
    assert!(matches!(result, SignalResult::Timeout { elapsed_ms: 6 }));
    assert!(!invalidates);

    let (result, _) = SignalResult::from_response(Err("disconnected".to_owned()), 7);
    let SignalResult::Error { elapsed_ms, code, message } = result else {
        panic!("expected an error");
    };
    assert_eq!((elapsed_ms, code.as_str()), (7, "daemon_unavailable"));
    assert_eq!(message, "disconnected; call computer_observe before continuing");

    let error = ResponseResult::Error(CuError::new(ErrorCode::CaptureFailed, "no frame"));
    let (result, _) = SignalResult::from_response(Ok(error), 8);
    assert!(matches!(result, SignalResult::Error { code, .. } if code == "capture_failed"));

    let other = ResponseResult::Success(DaemonResponse::Status(None));
    let (result, _) = SignalResult::from_response(Ok(other), 8);
    assert!(matches!(result, SignalResult::Error { code, .. } if code == "internal"));
}
