//! What holds of a session over several operations: grounding, order, counting and retries.
use vstd::prelude::*;

use crate::engine::{
    cache_with, cached_under, ActRunView, CachedView, EngineView, EventView, JobView, OpView,
    PurposeView, ReservedView, SettleView, MAX_CACHED_ACTIONS,
};
use crate::frame::FrameView;
use crate::protocol::{
    ActRequestView, CuErrorView, DaemonRequestView, DaemonResponseView, ResponseResultView,
};
use crate::store::frame_name;
use crate::text::{all_hex, hex_digits, numerals_are_distinct, numerals_are_hex};
use crate::validate::act_failure;
use crate::wait::PublicationView;

verus! {

/// The state and the operation after a series of events, each with its time.
pub open spec fn served(start: (EngineView, OpView), events: Seq<(EventView, u64)>) -> (
    EngineView,
    OpView,
)
    decreases events.len(),
{
    if events.len() == 0 {
        start
    } else {
        let last = events.last();
        served(start, events.drop_last()).0.advances(last.0, last.1)
    }
}

/// Whether each event is the end of the operation that was awaited when it came.
pub open spec fn orderly(start: (EngineView, OpView), events: Seq<(EventView, u64)>) -> bool
    decreases events.len(),
{
    events.len() == 0 || (orderly(start, events.drop_last()) && served(
        start,
        events.drop_last(),
    ).0.awaits(events.last().0))
}

/// How many actions were executed according to a series of events.
pub open spec fn successes(events: Seq<(EventView, u64)>) -> nat
    decreases events.len(),
{
    if events.len() == 0 {
        0
    } else {
        successes(events.drop_last()) + if events.last().0 == (EventView::Performed {
            refused: None,
        }) {
            1nat
        } else {
            0
        }
    }
}

/// Whether the first `count` events are the backend's approvals.
pub open spec fn approved(events: Seq<(EventView, u64)>, count: nat) -> bool {
    events.len() >= count && forall|i: int|
        0 <= i < count ==> (#[trigger] events[i]).0 == (EventView::Checked { refused: None })
}

/// Where a batch can be after a series of events.
spec fn batch_at(
    engine: EngineView,
    op: OpView,
    request: ActRequestView,
    viewport: crate::protocol::Viewport,
    request_id: Seq<char>,
    events: Seq<(EventView, u64)>,
) -> bool {
    let count = request.actions.len();
    let same = |act: ActRunView|
        act.request == request && act.viewport == viewport && act.request_id == request_id;
    match engine.job {
        JobView::Checking { act, next } => same(act) && act.fresh() && next == events.len() && next
            < count && approved(events, next as nat) && successes(events) == 0 && op is CheckAction,
        JobView::Reserving { reserved: ReservedView::Input { act } } => same(act) && act.fresh()
            && approved(events, count) && successes(events) == 0 && op is Evict,
        JobView::Performing { act } => same(act) && act.running() && approved(events, count)
            && successes(events) == act.executed && op == (OpView::Perform {
            action: request.actions[act.executed as int],
            viewport,
        }),
        JobView::Settling { purpose: PurposeView::Act { act }, .. } => same(act) && act.stopped()
            && approved(events, count) && successes(events) == act.executed && (op is Capture || op
            is Sleep),
        JobView::Storing { purpose: PurposeView::Act { act }, .. } => same(act) && act.stopped()
            && approved(events, count) && successes(events) == act.executed && op is Store,
        JobView::Idle => batch_answered(engine, op, request, request_id, events),
        _ => false,
    }
}

/// Whether an operation is the answer to a batch, tells how many actions executed, and is kept
/// for retries.
pub open spec fn batch_answered(
    engine: EngineView,
    op: OpView,
    request: ActRequestView,
    request_id: Seq<char>,
    events: Seq<(EventView, u64)>,
) -> bool {
    match op {
        OpView::Reply { response } => {
            &&& response.request_id == request_id
            &&& cached_under(engine.completed, request_id) == Some(
                CachedView { request_id, request: DaemonRequestView::Act(request), response },
            )
            &&& match response.result {
                ResponseResultView::Success(DaemonResponseView::Act(outcome)) => {
                    &&& outcome.executed == successes(events)
                    &&& outcome.status is Complete <==> successes(events) == request.actions.len()
                    &&& outcome.action_error is Some <==> outcome.status is Partial
                    &&& outcome.observation is Some
                    &&& approved(events, request.actions.len())
                },
                ResponseResultView::Error(error) => successes(events) > 0 ==> error.code
                    is Indeterminate && error.executed == Some(successes(events) as usize),
                _ => false,
            }
        },
        _ => false,
    }
}

#[verifier::rlimit(60)]
#[verifier::spinoff_prover]
proof fn batch_stays_on_course(
    engine: EngineView,
    request_id: Seq<char>,
    request: ActRequestView,
    events: Seq<(EventView, u64)>,
)
    requires
        engine.well_formed(),
        engine.idle(),
        cached_under(engine.completed, request_id) is None,
        engine.refuses_act(request) is None,
        orderly(engine.begins_batch(request_id, request), events),
    ensures
        ({
            let start = engine.begins_batch(request_id, request);
            let now = served(start, events);
            engine.latest is Some && batch_at(
                now.0,
                now.1,
                request,
                (engine.latest->0).1.viewport(),
                request_id,
                events,
            )
        }),
    decreases events.len(),
{
    let start = engine.begins_batch(request_id, request);
    if events.len() > 0 {
        let earlier = events.drop_last();
        batch_stays_on_course(engine, request_id, request, earlier);
        assert forall|count: nat| approved(earlier, count) implies #[trigger] approved(
            events,
            count,
        ) by {
            assert forall|i: int| 0 <= i < count implies (#[trigger] events[i]).0
                == (EventView::Checked { refused: None }) by {
                assert(events[i] == earlier[i]);
            }
        }
        let before = served(start, earlier);
        if let JobView::Checking { act, next } = before.0.job {
            assert(approved(earlier, next as nat));
            if events.last().0 == (EventView::Checked { refused: None }) {
                assert(approved(events, (next + 1) as nat)) by {
                    assert forall|i: int| 0 <= i < next + 1 implies (#[trigger] events[i]).0
                        == (EventView::Checked { refused: None }) by {
                        if i < next {
                            assert(events[i] == earlier[i]);
                        }
                    }
                }
            }
        }
    }
}

/// A batch that was accepted is under way: nothing is cached under its identifier and the
/// session's latest frame is the one that it names.
pub open spec fn accepted_batch(
    engine: EngineView,
    request_id: Seq<char>,
    request: ActRequestView,
) -> bool {
    &&& engine.well_formed()
    &&& engine.idle()
    &&& cached_under(engine.completed, request_id) is None
    &&& engine.refuses_act(request) is None
}

/// No action is executed before the backend approved every action of its batch, and actions are
/// executed in the order of the batch: the next one is the first that did not execute yet.
pub proof fn input_follows_approval_in_order(
    engine: EngineView,
    request_id: Seq<char>,
    request: ActRequestView,
    events: Seq<(EventView, u64)>,
)
    requires
        accepted_batch(engine, request_id, request),
        orderly(engine.begins_batch(request_id, request), events),
        served(engine.begins_batch(request_id, request), events).1 is Perform,
    ensures
        approved(events, request.actions.len()),
        successes(events) < request.actions.len(),
        engine.latest matches Some((_, frame)) && served(
            engine.begins_batch(request_id, request),
            events,
        ).1 == (OpView::Perform {
            action: request.actions[successes(events) as int],
            viewport: frame.viewport(),
        }),
{
    batch_stays_on_course(engine, request_id, request, events);
}

/// The answer to a batch reports exactly the actions that executed: as complete where all did,
/// as partial after a failure, and as indeterminate where the resulting frame was lost. It is
/// kept under the identifier of the request.
pub proof fn answers_count_what_executed(
    engine: EngineView,
    request_id: Seq<char>,
    request: ActRequestView,
    events: Seq<(EventView, u64)>,
)
    requires
        accepted_batch(engine, request_id, request),
        orderly(engine.begins_batch(request_id, request), events),
        served(engine.begins_batch(request_id, request), events).0.idle(),
    ensures
        ({
            let end = served(engine.begins_batch(request_id, request), events);
            batch_answered(end.0, end.1, request, request_id, events)
        }),
{
    batch_stays_on_course(engine, request_id, request, events);
}

/// An action request without a current frame, or with one that is not the latest, is answered
/// at once by a stale-frame failure; no operation is performed for it.
pub proof fn stale_frames_are_refused_before_input(
    engine: EngineView,
    request_id: Seq<char>,
    request: ActRequestView,
    now: u64,
)
    requires
        engine.idle(),
        cached_under(engine.completed, request_id) is None,
        engine.latest matches Some((observation, _)) ==> observation.frame_id
            != request.expected_frame_id,
    ensures
        engine.handles(request_id, DaemonRequestView::Act(request), now).1 matches OpView::Reply {
            response,
        } && (response.result matches ResponseResultView::Error(error) && error.code is StaleFrame),
        engine.handles(request_id, DaemonRequestView::Act(request), now).0.idle(),
        engine.handles(request_id, DaemonRequestView::Act(request), now).0.latest == engine.latest,
{
}

/// A batch that breaks a limit of the protocol is answered at once; no operation is performed
/// for it.
pub proof fn invalid_batches_are_refused_before_input(
    engine: EngineView,
    request_id: Seq<char>,
    request: ActRequestView,
    now: u64,
)
    requires
        engine.idle(),
        cached_under(engine.completed, request_id) is None,
        engine.latest matches Some((observation, frame)) && observation.frame_id
            == request.expected_frame_id && act_failure(request, frame.viewport()) is Some,
    ensures
        engine.latest matches Some((_, frame)) && engine.handles(
            request_id,
            DaemonRequestView::Act(request),
            now,
        ).1 == crate::engine::failed_answer(
            request_id,
            act_failure(request, frame.viewport())->0,
        ),
{
}

/// A retry of a cached batch never executes anything: whatever is found of its image, the only
/// operation is to look for it, the answer follows, and the session stays as it was.
pub proof fn retries_execute_nothing(
    engine: EngineView,
    request_id: Seq<char>,
    request: ActRequestView,
    now: u64,
    events: Seq<(EventView, u64)>,
)
    requires
        engine.idle(),
        cached_under(engine.completed, request_id) matches Some(cached) && cached.request
            == DaemonRequestView::Act(request),
        orderly(engine.handles(request_id, DaemonRequestView::Act(request), now), events),
    ensures
        ({
            let end = served(
                engine.handles(request_id, DaemonRequestView::Act(request), now),
                events,
            );
            &&& end.1 is Probe || end.1 is Reply
            &&& end.0.at(JobView::Idle) == engine
            &&& end.1 is Reply ==> end.0 == engine
        }),
    decreases events.len(),
{
    let start = engine.handles(request_id, DaemonRequestView::Act(request), now);
    if events.len() > 0 {
        retries_execute_nothing(engine, request_id, request, now, events.drop_last());
        let before = served(start, events.drop_last());
        retries_wait_for_their_image(engine, request_id, request, now, events.drop_last());
    }
}

proof fn retries_wait_for_their_image(
    engine: EngineView,
    request_id: Seq<char>,
    request: ActRequestView,
    now: u64,
    events: Seq<(EventView, u64)>,
)
    requires
        engine.idle(),
        cached_under(engine.completed, request_id) matches Some(cached) && cached.request
            == DaemonRequestView::Act(request),
        orderly(engine.handles(request_id, DaemonRequestView::Act(request), now), events),
    ensures
        ({
            let end = served(
                engine.handles(request_id, DaemonRequestView::Act(request), now),
                events,
            );
            end.0.job is Idle || end.0.job is Replaying
        }),
    decreases events.len(),
{
    if events.len() > 0 {
        retries_wait_for_their_image(engine, request_id, request, now, events.drop_last());
    }
}

/// An identifier that was used for another request is refused, and nothing is executed.
pub proof fn reused_identifiers_are_refused(
    engine: EngineView,
    request_id: Seq<char>,
    request: DaemonRequestView,
    now: u64,
)
    requires
        engine.idle(),
        cached_under(engine.completed, request_id) matches Some(cached) && cached.request
            != request,
    ensures
        engine.handles(request_id, request, now).0 == engine,
        engine.handles(request_id, request, now).1 matches OpView::Reply { response } && (
        response.result matches ResponseResultView::Error(error) && error.code is ProtocolError),
{
}

/// Frames of one session under different revisions, and frames of different sessions, have
/// different identifiers.
pub proof fn frame_identifiers_are_distinct(
    session: Seq<char>,
    revision: u64,
    other_session: Seq<char>,
    other_revision: u64,
)
    requires
        all_hex(session, 32),
        all_hex(other_session, 32),
        frame_name(session, revision) == frame_name(other_session, other_revision),
    ensures
        session == other_session,
        revision == other_revision,
{
    let name = frame_name(session, revision);
    let other = frame_name(other_session, other_revision);
    reveal_strlit("f_");
    reveal_strlit("_");
    numerals_are_hex(revision as nat, 16);
    numerals_are_hex(other_revision as nat, 16);
    assert(session =~= name.subrange(2, 34));
    assert(other_session =~= other.subrange(2, 34));
    assert(hex_digits(revision as nat, 16) =~= name.subrange(35, 51));
    assert(hex_digits(other_revision as nat, 16) =~= other.subrange(35, 51));
    assert(vstd::arithmetic::power::pow(16, 16) == 0x1_0000_0000_0000_0000) by {
        reveal_with_fuel(vstd::arithmetic::power::pow, 17);
    }
    numerals_are_distinct(revision as nat, other_revision as nat, 16);
}

/// Whether an identifier is that of a session's frame with a revision below a bound.
pub open spec fn numbered_below(session: Seq<char>, id: Seq<char>, bound: int) -> bool {
    exists|revision: u64| id == #[trigger] frame_name(session, revision) && revision < bound
}

/// Whether the latest frame has a revision that was given out, and an older one than a frame that
/// is about to be stored.
pub open spec fn numbered_in_order(engine: EngineView) -> bool {
    engine.latest matches Some((observation, _)) ==> numbered_below(
        engine.session,
        observation.frame_id,
        if engine.job is Storing {
            engine.revision as int
        } else {
            engine.revision + 1
        },
    )
}

/// Until the counter of revisions is used up, the latest frame changes only when a frame was stored,
/// and then to a frame with a greater revision than every one before it: a new frame never has the
/// identifier of the one that it follows.
pub proof fn new_frames_have_new_identifiers(engine: EngineView, event: EventView, now: u64)
    requires
        engine.well_formed(),
        engine.awaits(event),
        numbered_in_order(engine),
        engine.revision < u64::MAX,
    ensures
        ({
            let (after, _) = engine.advances(event, now);
            &&& numbered_in_order(after)
            &&& after.session == engine.session
            &&& engine.revision <= after.revision <= engine.revision + 1
            &&& after.latest == engine.latest || event == (EventView::Stored { fault: None })
            &&& event == (EventView::Stored { fault: None }) ==> {
                &&& after.latest matches Some((shown, _)) && shown.frame_id == frame_name(
                    engine.session,
                    engine.revision,
                ) && (engine.latest matches Some((before, _)) ==> shown.frame_id != before.frame_id)
            }
        }),
{
    let id = frame_name(engine.session, engine.revision);
    assert(numbered_below(engine.session, id, engine.revision + 1));
    if let Some((before, _)) = engine.latest {
        let bound = if engine.job is Storing {
            engine.revision as int
        } else {
            engine.revision + 1
        };
        let revision = choose|revision: u64|
            before.frame_id == #[trigger] frame_name(engine.session, revision) && revision < bound;
        assert(before.frame_id == frame_name(engine.session, revision));
        assert(numbered_below(engine.session, before.frame_id, engine.revision + 1));
        assert(numbered_below(engine.session, before.frame_id, engine.revision + 2));
        if engine.job is Storing && before.frame_id == id {
            frame_identifiers_are_distinct(
                engine.session,
                revision,
                engine.session,
                engine.revision,
            );
        }
    }
}

/// A request changes neither the latest frame nor the counter of revisions.
pub proof fn requests_keep_frames_numbered(
    engine: EngineView,
    request_id: Seq<char>,
    request: DaemonRequestView,
    now: u64,
)
    requires
        engine.well_formed(),
        engine.idle(),
        numbered_in_order(engine),
    ensures
        ({
            let (after, _) = engine.handles(request_id, request, now);
            &&& numbered_in_order(after)
            &&& after.latest == engine.latest
            &&& after.session == engine.session
            &&& after.revision == engine.revision
        }),
{
}

/// A wait's publication changes the latest frame only once it was stored, under the next revision
/// until the counter is used up.
pub proof fn waits_keep_frames_numbered(
    engine: EngineView,
    baseline_id: Seq<char>,
    publication: PublicationView,
    cancelled_now: bool,
    encoded: Result<Seq<u8>, CuErrorView>,
)
    requires
        engine.well_formed(),
        engine.idle(),
        numbered_in_order(engine),
        engine.revision < u64::MAX,
    ensures
        ({
            let (after, _) = engine.publishes_wait(
                baseline_id,
                publication,
                cancelled_now,
                encoded,
            );
            &&& numbered_in_order(after)
            &&& after.latest == engine.latest
            &&& after.session == engine.session
            &&& engine.revision <= after.revision <= engine.revision + 1
        }),
{
    if let Some((before, _)) = engine.latest {
        let revision = choose|revision: u64|
            before.frame_id == #[trigger] frame_name(engine.session, revision) && revision
                < engine.revision + 1;
        assert(before.frame_id == frame_name(engine.session, revision));
        assert(numbered_below(engine.session, before.frame_id, engine.revision + 2));
    }
}

/// Whether the image of the latest frame is the newest one that is retained.
pub open spec fn shows_newest(engine: EngineView) -> bool {
    engine.latest matches Some((observation, _)) ==> engine.retained.len() > 0
        && engine.retained.last() == observation.image_path
}

/// Images leave the store one at a time, the oldest first, and only to make room: a removal is asked
/// for where the store is full, names the oldest image, and keeps all others. A new image joins as
/// the newest one, so that the image of the latest frame is always retained.
pub proof fn retention_drops_only_the_oldest(engine: EngineView, event: EventView, now: u64)
    requires
        engine.well_formed(),
        engine.awaits(event),
        shows_newest(engine),
    ensures
        ({
            let (after, op) = engine.advances(event, now);
            &&& shows_newest(after)
            &&& after.retained == engine.retained || event == (EventView::Evicted { fault: None })
                && after.retained == engine.retained.drop_first() || event == (EventView::Stored {
                fault: None,
            }) && after.retained == engine.retained.push(
                engine.job->Storing_observation.image_path,
            )
            &&& op matches OpView::Evict { path } ==> after.retained.len() == after.max_frames
                && path == after.retained[0]
        }),
{
}

/// Asking the engine for something removes no image; a removal that it needs names the oldest one.
pub proof fn requests_keep_every_image(
    engine: EngineView,
    request_id: Seq<char>,
    request: DaemonRequestView,
    now: u64,
)
    requires
        engine.well_formed(),
        engine.idle(),
        shows_newest(engine),
    ensures
        ({
            let (after, op) = engine.handles(request_id, request, now);
            &&& after.retained == engine.retained
            &&& shows_newest(after)
            &&& !(op is Evict)
        }),
{
}

/// Whether a capture shows what the one before it showed.
pub open spec fn stood_still(run: SettleView, frame: FrameView) -> bool {
    run.previous matches Some(previous) && frame.viewport() == previous.viewport() && frame.pixels
        == previous.pixels
}

/// A frame is shown as settled exactly where it equals the capture before it, which was made one
/// quiet period earlier, and as unsettled only once the policy's time is up; there are always two
/// captures.
pub proof fn settled_frames_stood_still(
    engine: EngineView,
    purpose: PurposeView,
    run: SettleView,
    frame: FrameView,
    now: u64,
)
    requires
        engine.well_formed(),
        engine.job == (JobView::Settling { purpose, run }),
    ensures
        ({
            let (after, op) = engine.advances(EventView::Captured { result: Ok(frame) }, now);
            let in_time = now < run.deadline();
            &&& run.previous is None || (!stood_still(run, frame) && in_time) ==> op
                == (OpView::Sleep { ms: run.policy.quiet_ms }) && after.job == (
            JobView::Settling { purpose, run: SettleView { previous: Some(frame), ..run } })
            &&& after.job matches JobView::Storing { observation, .. } ==> observation.settled
                == stood_still(run, frame) && (observation.settled || !in_time)
            &&& after.job matches JobView::Reserving {
                reserved: ReservedView::Observation { settled, .. },
            } ==> settled == stood_still(run, frame) && (settled || !in_time)
        }),
{
}

/// The cache after further results.
pub open spec fn cache_after(cache: Seq<CachedView>, entries: Seq<CachedView>) -> Seq<CachedView>
    decreases entries.len(),
{
    if entries.len() == 0 {
        cache
    } else {
        cache_with(cache_after(cache, entries.drop_last()), entries.last())
    }
}

proof fn cached_at(cache: Seq<CachedView>, place: int)
    requires
        0 <= place < cache.len(),
        forall|i: int|
            place < i < cache.len() ==> (#[trigger] cache[i]).request_id != cache[place].request_id,
    ensures
        cached_under(cache, cache[place].request_id) == Some(cache[place]),
    decreases cache.len(),
{
    if place < cache.len() - 1 {
        assert(cache.last() == cache[cache.len() - 1]);
        assert(cache.drop_last()[place] == cache[place]);
        cached_at(cache.drop_last(), place);
    }
}

proof fn results_move_up(cache: Seq<CachedView>, entries: Seq<CachedView>)
    requires
        0 < cache.len() <= MAX_CACHED_ACTIONS,
        entries.len() < MAX_CACHED_ACTIONS,
    ensures
        ({
            let after = cache_after(cache, entries);
            let place = after.len() - 1 - entries.len();
            &&& 0 <= place < after.len() <= MAX_CACHED_ACTIONS
            &&& after[place] == cache.last()
            &&& forall|i: int|
                place < i < after.len() ==> #[trigger] after[i] == entries[i - place - 1]
        }),
    decreases entries.len(),
{
    if entries.len() > 0 {
        let earlier = entries.drop_last();
        results_move_up(cache, earlier);
        let before = cache_after(cache, earlier);
        let after = cache_after(cache, entries);
        let place = after.len() - 1 - entries.len();
        let dropped: int = if before.len() + 1 > MAX_CACHED_ACTIONS {
            1
        } else {
            0
        };
        assert forall|i: int| 0 <= i < after.len() - 1 implies #[trigger] after[i] == before[i
            + dropped] by {}
        assert forall|i: int| place < i < after.len() implies #[trigger] after[i] == entries[i
            - place - 1] by {
            if i < after.len() - 1 {
                assert(after[i] == before[i + dropped]);
            }
        }
    }
}

/// The result of a batch is found under its identifier for as long as fewer batches were
/// answered after it than the cache holds.
pub proof fn cached_results_outlive_later_batches(cache: Seq<CachedView>, entries: Seq<CachedView>)
    requires
        0 < cache.len() <= 64,
        entries.len() < 64,
        forall|i: int|
            0 <= i < entries.len() ==> (#[trigger] entries[i]).request_id
                != cache.last().request_id,
    ensures
        cached_under(cache_after(cache, entries), cache.last().request_id) == Some(cache.last()),
{
    results_move_up(cache, entries);
    let after = cache_after(cache, entries);
    cached_at(after, after.len() - 1 - entries.len());
}

} // verus!
