//! What a session answers at the end of a whole run, told by the events of that run.
use vstd::prelude::*;

use crate::engine::{
    cached_under, ActRunView, CachedView, EngineView, EventView, JobView, OpView, PurposeView,
    ReservedView, StoreStage,
};
use crate::engine_laws::{orderly, served};
use crate::frame::{rgb_png, FrameView};
use crate::protocol::{
    ActOutcomeView, ActRequestView, CuErrorView, DaemonRequestView, DaemonResponseView,
    FrameStatusView, ObservationView, ObserveRequest, ResponseEnvelopeView, ResponseResultView,
    SettlePolicy, WaitOutcomeView, WaitRequestView,
};
use crate::store::{frame_name, frame_path};
use crate::wait::PublicationView;
use crate::wait_laws::{in_rects, watching_is_lying_in_rectangles};

verus! {

/// The frames that a series of events captured, in order.
pub open spec fn captured_frames(events: Seq<(EventView, u64)>) -> Seq<FrameView>
    decreases events.len(),
{
    if events.len() == 0 {
        Seq::empty()
    } else {
        let earlier = captured_frames(events.drop_last());
        match events.last().0 {
            EventView::Captured { result: Ok(frame) } => earlier.push(frame),
            _ => earlier,
        }
    }
}

/// The time of the last capture of a series of events.
pub open spec fn capture_time(events: Seq<(EventView, u64)>) -> u64
    decreases events.len(),
{
    if events.len() == 0 {
        0
    } else if events.last().0 is Captured {
        events.last().1
    } else {
        capture_time(events.drop_last())
    }
}

/// The time of the last action of a series of events, or of its request where there is none.
pub open spec fn input_time(events: Seq<(EventView, u64)>, requested: u64) -> u64
    decreases events.len(),
{
    if events.len() == 0 {
        requested
    } else if events.last().0 is Performed {
        events.last().1
    } else {
        input_time(events.drop_last(), requested)
    }
}

/// The failure of the last action of a series of events, if it failed.
pub open spec fn input_failure(events: Seq<(EventView, u64)>) -> Option<CuErrorView>
    decreases events.len(),
{
    if events.len() == 0 {
        None
    } else {
        match events.last().0 {
            EventView::Performed { refused } => refused,
            _ => input_failure(events.drop_last()),
        }
    }
}

/// Whether the last two frames of a series have the same dimensions and the same bytes.
pub open spec fn ends_alike(frames: Seq<FrameView>) -> bool {
    frames.len() >= 2 && {
        let last = frames[frames.len() - 1];
        let before = frames[frames.len() - 2];
        last.width == before.width && last.height == before.height && last.pixels == before.pixels
    }
}

/// Whether the captures of a run are enough to show the last one: there are two of them, and they
/// are alike or the time of the policy is up.
pub open spec fn captured_enough(
    policy: SettlePolicy,
    requested: u64,
    events: Seq<(EventView, u64)>,
) -> bool {
    let frames = captured_frames(events);
    frames.len() >= 2 && (ends_alike(frames) || capture_time(events) >= input_time(
        events,
        requested,
    ) + policy.timeout_ms * 1_000_000)
}

/// Whether an observation tells of the last frame that was captured.
pub open spec fn tells_of_last(
    engine: EngineView,
    observation: ObservationView,
    events: Seq<(EventView, u64)>,
) -> bool {
    let frames = captured_frames(events);
    &&& frames.len() >= 2
    &&& observation.width == frames.last().width
    &&& observation.height == frames.last().height
    &&& observation.target == frames.last().target
    &&& observation.settled == ends_alike(frames)
    &&& observation.frame_id == frame_name(engine.session, engine.revision)
    &&& observation.image_path == frame_path(engine.directory, observation.frame_id)
}

/// Whether an observation tells of the last frame that was captured, and that frame is now the
/// latest one, with its image the newest one that is retained.
pub open spec fn published_last(
    engine: EngineView,
    observation: ObservationView,
    events: Seq<(EventView, u64)>,
) -> bool {
    &&& tells_of_last(engine, observation, events)
    &&& engine.latest == Some((observation, captured_frames(events).last()))
    &&& engine.retained.len() > 0
    &&& engine.retained.last() == observation.image_path
}

/// Whether a frame has three bytes for each pixel and the encoder makes an image of it.
pub open spec fn can_be_stored(frame: FrameView) -> bool {
    &&& frame.width > 0
    &&& frame.height > 0
    &&& frame.pixels.len() == frame.width * frame.height * 3
    &&& rgb_png(frame.width, frame.height, frame.pixels) is Ok
}

/// Whether the request and the failure of a batch are those of its run.
spec fn batch_of(
    act: ActRunView,
    policy: SettlePolicy,
    request_id: Seq<char>,
    events: Seq<(EventView, u64)>,
) -> bool {
    act.request.settle == policy && act.request_id == request_id && act.failure == input_failure(
        events,
    )
}

/// Whether a purpose is to answer a request.
spec fn purpose_of(
    purpose: PurposeView,
    policy: SettlePolicy,
    request_id: Seq<char>,
    batch: bool,
    events: Seq<(EventView, u64)>,
) -> bool {
    match purpose {
        PurposeView::Observe { request_id: own } => own == request_id && !batch,
        PurposeView::Act { act } => batch_of(act, policy, request_id, events) && batch,
        _ => false,
    }
}

/// Whether the answer to an observation or a batch tells of its run.
pub open spec fn answers_for(
    engine: EngineView,
    response: ResponseEnvelopeView,
    request_id: Seq<char>,
    batch: bool,
    events: Seq<(EventView, u64)>,
) -> bool {
    &&& response.request_id == request_id
    &&& match response.result {
        ResponseResultView::Success(DaemonResponseView::Observe(observation)) => !batch
            && published_last(engine, observation, events),
        ResponseResultView::Success(DaemonResponseView::Act(outcome)) => {
            &&& batch
            &&& outcome.observation matches Some(observation) && published_last(
                engine,
                observation,
                events,
            )
            &&& !outcome.image_expired
            &&& outcome.action_error == (match input_failure(events) {
                Some(error) => Some(CuErrorView { executed: Some(outcome.executed), ..error }),
                None => None,
            })
            &&& outcome.status is Partial <==> input_failure(events) is Some
        },
        ResponseResultView::Success(_) => false,
        ResponseResultView::Error(error) => events.len() > 0 && match events.last().0 {
            EventView::Checked { refused } => refused == Some(error),
            EventView::Performed { refused } => refused == Some(error),
            EventView::Evicted { fault } => (fault is None ==> !batch && !can_be_stored(
                captured_frames(events).last(),
            )) && (fault is Some ==> error.code is Internal),
            EventView::Captured { result } => {
                &&& match result {
                    Ok(frame) => !can_be_stored(frame) && captured_frames(events).len() >= 2,
                    Err(fault) => !batch ==> error == fault,
                }
                &&& batch ==> error.code is Indeterminate && error.executed is Some
            },
            EventView::Stored { fault } => fault is Some && if batch {
                error.code is Indeterminate && error.executed is Some
            } else {
                error.code is Internal
            },
            _ => false,
        },
    }
}

/// Where the capture of a request can be after a series of events.
spec fn capture_at(
    now: (EngineView, OpView),
    policy: SettlePolicy,
    request_id: Seq<char>,
    batch: bool,
    requested: u64,
    events: Seq<(EventView, u64)>,
) -> bool {
    let (engine, op) = now;
    let frames = captured_frames(events);
    &&& 0 < engine.max_frames
    &&& engine.retained.len() <= engine.max_frames
    &&& engine.job is Reserving ==> engine.retained.len() == engine.max_frames
    &&& engine.job is Storing || batch && (engine.job is Performing || engine.job is Settling)
        ==> engine.retained.len() < engine.max_frames
    &&& match engine.job {
        JobView::Checking { act, .. } => batch && batch_of(act, policy, request_id, events)
            && frames.len() == 0 && act.failure is None && op is CheckAction,
        JobView::Reserving { reserved: ReservedView::Input { act } } => batch && batch_of(
            act,
            policy,
            request_id,
            events,
        ) && frames.len() == 0 && act.failure is None && op is Evict,
        JobView::Performing { act } => batch && batch_of(act, policy, request_id, events)
            && frames.len() == 0 && act.failure is None && op is Perform,
        JobView::Settling { purpose, run } => {
            &&& purpose_of(purpose, policy, request_id, batch, events)
            &&& run.policy == policy
            &&& run.started_at == input_time(events, requested)
            &&& run.previous == (if frames.len() == 0 {
                None
            } else {
                Some(frames.last())
            })
            &&& !captured_enough(policy, requested, events)
            &&& op == (if events.len() > 0 && events.last().0 is Captured {
                OpView::Sleep { ms: policy.quiet_ms }
            } else {
                OpView::Capture
            })
        },
        JobView::Reserving {
            reserved: ReservedView::Observation { request_id: own, frame, settled },
        } => own == request_id && !batch && captured_enough(policy, requested, events) && frame
            == frames.last() && settled == ends_alike(frames) && op is Evict,
        JobView::Storing { purpose, observation, frame } => {
            &&& purpose_of(purpose, policy, request_id, batch, events)
            &&& captured_enough(policy, requested, events)
            &&& frame == frames.last()
            &&& tells_of_last(engine, observation, events)
            &&& op matches OpView::Store { path, png, .. } && path == observation.image_path
                && rgb_png(frame.width, frame.height, frame.pixels) == Ok::<Seq<u8>, Seq<char>>(png)
        },
        JobView::Idle => op matches OpView::Reply { response } && answers_for(
            engine,
            response,
            request_id,
            batch,
            events,
        ),
        _ => false,
    }
}

#[verifier::rlimit(60)]
#[verifier::spinoff_prover]
proof fn captures_stay_on_course(
    start: (EngineView, OpView),
    policy: SettlePolicy,
    request_id: Seq<char>,
    batch: bool,
    requested: u64,
    events: Seq<(EventView, u64)>,
)
    requires
        capture_at(start, policy, request_id, batch, requested, Seq::empty()),
        start.0.job is Checking || start.0.job is Settling,
        orderly(start, events),
    ensures
        capture_at(served(start, events), policy, request_id, batch, requested, events),
    decreases events.len(),
{
    if events.len() == 0 {
        assert(events =~= Seq::empty());
    } else {
        let earlier = events.drop_last();
        captures_stay_on_course(start, policy, request_id, batch, requested, earlier);
        let before = served(start, earlier);
        let last = events.last();
        if let EventView::Captured { result: Ok(frame) } = last.0 {
            let frames = captured_frames(events);
            assert(frames == captured_frames(earlier).push(frame));
            if captured_frames(earlier).len() > 0 {
                assert(frames[frames.len() - 2] == captured_frames(earlier).last());
            }
        } else {
            assert(captured_frames(events) == captured_frames(earlier));
        }
    }
}

/// Whether a run of a request is where its events lead: while it captures, the desktop is captured
/// and then left alone for the quiet period, until two captures are enough; the image that is
/// stored is that of the last capture, and the answer tells of it. Actions are executed before any
/// capture, and only while there is room for one more image.
pub open spec fn run_told(
    now: (EngineView, OpView),
    policy: SettlePolicy,
    request_id: Seq<char>,
    batch: bool,
    requested: u64,
    events: Seq<(EventView, u64)>,
) -> bool {
    let frames = captured_frames(events);
    match now.1 {
        OpView::Capture => !captured_enough(policy, requested, events) && !(events.len() > 0
            && events.last().0 is Captured),
        OpView::Sleep { ms } => ms == policy.quiet_ms && !captured_enough(
            policy,
            requested,
            events,
        ) && events.last().0 is Captured,
        OpView::Store { path, png, .. } => {
            &&& captured_enough(policy, requested, events)
            &&& path == frame_path(now.0.directory, frame_name(now.0.session, now.0.revision))
            &&& rgb_png(frames.last().width, frames.last().height, frames.last().pixels) == Ok::<
                Seq<u8>,
                Seq<char>,
            >(png)
        },
        OpView::Reply { response } => answers_for(now.0, response, request_id, batch, events),
        OpView::CheckAction { .. } => batch && frames.len() == 0,
        OpView::Perform { .. } => batch && frames.len() == 0 && now.0.retained.len()
            < now.0.max_frames,
        OpView::Evict { .. } => true,
        _ => false,
    }
}

/// An observation captures until two captures in a row are alike or its time is up, a quiet period
/// apart, stores the image of the last capture, and answers with what that capture showed; it is
/// the latest frame from then on. A failed capture is answered as it is.
pub proof fn observations_show_their_last_capture(
    engine: EngineView,
    request_id: Seq<char>,
    request: ObserveRequest,
    requested: u64,
    events: Seq<(EventView, u64)>,
)
    requires
        engine.well_formed(),
        engine.idle(),
        cached_under(engine.completed, request_id) is None,
        1 <= request.settle.quiet_ms <= 5_000,
        request.settle.quiet_ms <= request.settle.timeout_ms <= 30_000,
        orderly(
            engine.handles(request_id, DaemonRequestView::Observe(request), requested),
            events,
        ),
    ensures
        run_told(
            served(
                engine.handles(request_id, DaemonRequestView::Observe(request), requested),
                events,
            ),
            request.settle,
            request_id,
            false,
            requested,
            events,
        ),
{
    let start = engine.handles(request_id, DaemonRequestView::Observe(request), requested);
    captures_stay_on_course(start, request.settle, request_id, false, requested, events);
}

/// A batch shows what the desktop was captured to show after its last action, as an observation
/// does, and reports the failure of that action, where it failed, with the number of actions
/// before it. A refused or failed first action is answered as it is.
pub proof fn batches_show_their_last_capture(
    engine: EngineView,
    request_id: Seq<char>,
    request: ActRequestView,
    requested: u64,
    events: Seq<(EventView, u64)>,
)
    requires
        engine.well_formed(),
        engine.idle(),
        cached_under(engine.completed, request_id) is None,
        engine.refuses_act(request) is None,
        orderly(engine.handles(request_id, DaemonRequestView::Act(request), requested), events),
    ensures
        run_told(
            served(engine.handles(request_id, DaemonRequestView::Act(request), requested), events),
            request.settle,
            request_id,
            true,
            requested,
            events,
        ),
{
    let start = engine.handles(request_id, DaemonRequestView::Act(request), requested);
    captures_stay_on_course(start, request.settle, request_id, true, requested, events);
}

/// The backend is asked about every action of a batch, one after the other, before the first is
/// executed.
pub proof fn approval_is_asked_for_every_action(
    engine: EngineView,
    request_id: Seq<char>,
    request: ActRequestView,
    requested: u64,
    events: Seq<(EventView, u64)>,
)
    requires
        engine.well_formed(),
        engine.idle(),
        cached_under(engine.completed, request_id) is None,
        engine.refuses_act(request) is None,
        events.len() < request.actions.len(),
        forall|i: int|
            0 <= i < events.len() ==> (#[trigger] events[i]).0 == (EventView::Checked {
                refused: None,
            }),
    ensures
        orderly(engine.handles(request_id, DaemonRequestView::Act(request), requested), events),
        served(engine.handles(request_id, DaemonRequestView::Act(request), requested), events).1
            == (OpView::CheckAction { action: request.actions[events.len() as int] }),
        served(
            engine.handles(request_id, DaemonRequestView::Act(request), requested),
            events,
        ).0.job matches JobView::Checking { act, next } && next == events.len() && act.request
            == request,
    decreases events.len(),
{
    if events.len() > 0 {
        let earlier = events.drop_last();
        assert forall|i: int| 0 <= i < earlier.len() implies (#[trigger] earlier[i]).0
            == (EventView::Checked { refused: None }) by {
            assert(earlier[i] == events[i]);
        }
        approval_is_asked_for_every_action(engine, request_id, request, requested, earlier);
        assert(events.last() == events[events.len() - 1]);
    }
}

/// A batch is begun exactly where the frame that it names is the latest one and its parts are
/// accepted; every other one is answered at once with a failure, which is kept for retries.
pub proof fn batches_begin_on_the_latest_frame(
    engine: EngineView,
    request_id: Seq<char>,
    request: ActRequestView,
    now: u64,
)
    requires
        engine.idle(),
        cached_under(engine.completed, request_id) is None,
    ensures
        ({
            let (after, op) = engine.handles(request_id, DaemonRequestView::Act(request), now);
            let accepted = engine.latest matches Some((observation, frame)) && observation.frame_id
                == request.expected_frame_id && crate::validate::act_failure(
                request,
                crate::protocol::Viewport { width: frame.width, height: frame.height },
            ) is None;
            if accepted {
                op == (OpView::CheckAction { action: request.actions[0] }) && after.completed
                    == engine.completed
            } else {
                op matches OpView::Reply { response } && response.request_id == request_id
                    && response.result is Error && cached_under(after.completed, request_id)
                    == Some(
                    CachedView { request_id, request: DaemonRequestView::Act(request), response },
                )
            }
        }),
{
}

/// A retry is answered with what the first answer was. Where that showed a frame whose image is no
/// longer retained, or is found to be gone, the answer says so and shows no frame; all else stays.
pub proof fn retries_are_answered_alike(
    engine: EngineView,
    request_id: Seq<char>,
    request: DaemonRequestView,
    first: ResponseEnvelopeView,
    now: u64,
    present: bool,
)
    requires
        engine.idle(),
        cached_under(engine.completed, request_id) == Some(
            CachedView { request_id, request, response: first },
        ),
    ensures
        ({
            let (asked, op) = engine.handles(request_id, request, now);
            let shown = first.result matches ResponseResultView::Success(
                DaemonResponseView::Act(outcome),
            ) && outcome.observation is Some;
            let outcome = (first.result->Success_0)->Act_0;
            let kept = engine.retained.contains(outcome.observation->0.image_path);
            let gone = ResponseEnvelopeView {
                request_id: first.request_id,
                result: ResponseResultView::Success(
                    DaemonResponseView::Act(
                        ActOutcomeView {
                            status: outcome.status,
                            executed: outcome.executed,
                            action_error: outcome.action_error,
                            image_expired: true,
                            observation: None,
                        },
                    ),
                ),
            };
            if !shown {
                op == (OpView::Reply { response: first }) && asked == engine
            } else if !kept {
                op == (OpView::Reply { response: gone }) && asked == engine
            } else {
                op == (OpView::Probe { path: outcome.observation->0.image_path })
                    && asked.advances(EventView::Probed { present }, now) == (
                    engine,
                    OpView::Reply {
                        response: if present {
                            first
                        } else {
                            gone
                        },
                    },
                )
            }
        }),
{
}

/// The status of a session is that of its latest frame, and its profile is the one that it was
/// given; asking for either changes nothing. A wait is not asked for here.
pub proof fn sessions_tell_their_state(engine: EngineView, request_id: Seq<char>, now: u64)
    requires
        engine.idle(),
        cached_under(engine.completed, request_id) is None,
    ensures
        engine.handles(request_id, DaemonRequestView::Profile, now) == (
            engine,
            OpView::Reply {
                response: ResponseEnvelopeView {
                    request_id,
                    result: ResponseResultView::Success(
                        DaemonResponseView::Profile(engine.profile),
                    ),
                },
            },
        ),
        engine.handles(request_id, DaemonRequestView::Status, now).0 == engine,
        engine.handles(request_id, DaemonRequestView::Status, now).1 matches OpView::Reply {
            response,
        } && response.request_id == request_id && (response.result
            matches ResponseResultView::Success(DaemonResponseView::Status(status)) && status == (
        match engine.latest {
            Some((shown, _)) => Some(
                FrameStatusView {
                    frame_id: shown.frame_id,
                    width: shown.width,
                    height: shown.height,
                },
            ),
            None => None,
        })),
        forall|request: WaitRequestView|
            (#[trigger] engine.handles(request_id, DaemonRequestView::Wait(request), now)).0
                == engine && (engine.handles(
                request_id,
                DaemonRequestView::Wait(request),
                now,
            ).1 matches OpView::Reply { response } && (response.result
                matches ResponseResultView::Error(error) && error.code is ProtocolError)),
{
}

/// A wait's changed sample is published as the latest frame exactly where the wait's baseline
/// still is that frame and the wait was not cancelled: the answer then tells the sample's
/// dimensions and the wait's own report, and the image that was stored is the sample's.
pub proof fn waits_publish_their_sample(
    engine: EngineView,
    baseline_id: Seq<char>,
    publication: PublicationView,
    cancelled_now: bool,
    png: Seq<u8>,
    now: u64,
)
    requires
        engine.well_formed(),
        engine.idle(),
        publication.frame.valid(),
    ensures
        ({
            let (asked, op) = engine.publishes_wait(
                baseline_id,
                publication,
                cancelled_now,
                Ok(png),
            );
            let latest = engine.latest matches Some((observation, _)) && observation.frame_id
                == baseline_id;
            let full = engine.retained.len() == engine.max_frames;
            let (storing, store) = if full {
                asked.advances(EventView::Evicted { fault: None }, now)
            } else {
                (asked, op)
            };
            let (stored, done) = storing.advances(EventView::Stored { fault: None }, now);
            if !latest {
                asked == engine && (op matches OpView::WaitDone { result: Err(error) } && error.code
                    is StaleFrame)
            } else if cancelled_now {
                asked == engine && (op matches OpView::WaitDone { result: Err(error) } && error.code
                    is Cancelled)
            } else {
                &&& full ==> op == (OpView::Evict { path: engine.retained[0] })
                &&& store matches OpView::Store { path, png: bytes, .. } && bytes == png && path
                    == frame_path(engine.directory, storing.job->Storing_observation.frame_id)
                &&& done matches OpView::WaitDone { result: Ok(WaitOutcomeView::Changed {
                    elapsed_ms,
                    activity_bbox,
                    observation,
                }) } && elapsed_ms == publication.elapsed_ms && activity_bbox
                    == publication.activity_bbox && observation.settled == publication.settled
                    && observation.width == publication.frame.width && observation.height
                    == publication.frame.height && observation.target == publication.frame.target
                    && observation.image_path == frame_path(engine.directory, observation.frame_id)
                    && stored.latest == Some((observation, publication.frame))
                &&& stored.idle()
            }
        }),
{
}

/// A wait is begun exactly where the frame that it names is the latest one, its parts are
/// accepted, and some pixel of that frame lies in an included region and in no excluded one.
pub proof fn waits_begin_on_the_latest_frame(engine: EngineView, request: WaitRequestView)
    ensures
        engine.refuses_wait(request) is None <==> (engine.latest matches Some((observation, frame))
            && observation.frame_id == request.last_frame_id && crate::validate::wait_failure(
            request,
            crate::protocol::Viewport { width: frame.width, height: frame.height },
        ) is None && exists|x: int, y: int|
            0 <= y < frame.height && #[trigger] in_rects(request.include_rects, x, y) && !in_rects(
                request.exclude_rects,
                x,
                y,
            )),
        engine.refuses_wait(request) matches Some(error) ==> (error.code is StaleFrame <==> !(
        engine.latest matches Some((observation, _)) && observation.frame_id
            == request.last_frame_id)),
{
    if let Some((_, frame)) = engine.latest {
        assert forall|x: int, y: int|
            crate::watch::watched(request.include_rects, request.exclude_rects, x, y) <==> (
            #[trigger] in_rects(request.include_rects, x, y) && !in_rects(
                request.exclude_rects,
                x,
                y,
            )) by {
            watching_is_lying_in_rectangles(request.include_rects, request.exclude_rects, x, y);
        }
        assert forall|x: int, y: int|
            #[trigger] crate::watch::watched(request.include_rects, request.exclude_rects, x, y)
                implies in_rects(request.include_rects, x, y) && !in_rects(
            request.exclude_rects,
            x,
            y,
        ) by {
            watching_is_lying_in_rectangles(request.include_rects, request.exclude_rects, x, y);
        }
        crate::validate_laws::waits_are_accepted_by_their_parts(request, frame.viewport());
    }
}

/// An observation whose settling policy is not accepted is answered at once as an invalid action,
/// and changes nothing.
pub proof fn unaccepted_policies_are_refused(
    engine: EngineView,
    request_id: Seq<char>,
    request: ObserveRequest,
    now: u64,
)
    requires
        engine.idle(),
        cached_under(engine.completed, request_id) is None,
        !(1 <= request.settle.quiet_ms <= 5_000 && request.settle.quiet_ms
            <= request.settle.timeout_ms <= 30_000),
    ensures
        engine.handles(request_id, DaemonRequestView::Observe(request), now).0 == engine,
        engine.handles(request_id, DaemonRequestView::Observe(request), now).1
            matches OpView::Reply { response } && response.request_id == request_id && (
        response.result matches ResponseResultView::Error(error) && error.code is InvalidAction),
{
}

/// A wait whose sample cannot be published says why, and the latest frame stays: the encoder's own
/// failure, a failed removal or a failed store. A sample that is no whole frame is not encoded.
pub proof fn unpublished_samples_keep_the_latest_frame(
    engine: EngineView,
    baseline_id: Seq<char>,
    publication: PublicationView,
    cancelled_now: bool,
    error: CuErrorView,
    png: Seq<u8>,
    detail: Seq<char>,
    stage: StoreStage,
    now: u64,
)
    requires
        engine.well_formed(),
        engine.idle(),
        engine.latest matches Some((observation, _)) && observation.frame_id == baseline_id,
    ensures
        publication.frame.valid() ==> engine.publishes_wait(
            baseline_id,
            publication,
            cancelled_now,
            Err(error),
        ) == (engine, OpView::WaitDone { result: Err(error) }),
        !publication.frame.valid() ==> engine.publishes_wait(
            baseline_id,
            publication,
            cancelled_now,
            Ok(png),
        ).0 == engine && (engine.publishes_wait(
            baseline_id,
            publication,
            cancelled_now,
            Ok(png),
        ).1 matches OpView::WaitDone { result: Err(told) } && told.code is CaptureFailed),
        publication.frame.valid() && !cancelled_now ==> {
            let (asked, op) = engine.publishes_wait(baseline_id, publication, false, Ok(png));
            if op is Evict {
                let (after, done) = asked.advances(EventView::Evicted { fault: Some(detail) }, now);
                &&& after == engine
                &&& done matches OpView::WaitDone { result: Err(told) } && told.code is Internal
            } else {
                let (after, done) = asked.advances(
                    EventView::Stored { fault: Some((stage, detail)) },
                    now,
                );
                &&& after.latest == engine.latest
                &&& after.retained == engine.retained
                &&& after.idle()
                &&& done matches OpView::WaitDone { result: Err(told) } && told.code is Internal
            }
        },
{
}

} // verus!
