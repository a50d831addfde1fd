//! What a session's tools do to its frames, requests and connection, and what they reply.
use vstd::prelude::*;

use crate::engine::sample_of;
use crate::frame::FrameView;
use crate::instance::is_instance_name;
use crate::protocol::{
    ActOutcomeView, ActRequestView, CuErrorView, DaemonResponseView, ErrorCode, ObservationView,
    ResponseResultView, WaitOutcomeView,
};
use crate::replies::{
    action_key, base64_char, base64_text, calls_have_distinct_keys, lost_answer, recoverable,
    unavailable_message, CallIdView, ContentView, ReplyView,
};
use crate::session::{
    memo_place, memo_place_is_first, target_of, wait_invalidates, BindingView, ConnectionView,
    McpActView, MemoView, SessionView, TargetView,
};
use crate::tools::{wait_request_of, McpWaitRequest, PendingView, ToolStepView};

verus! {

/// Whether a request was made under an identifier.
pub open spec fn was_requested(session: SessionView, request_id: Seq<char>) -> bool {
    exists|i: int|
        0 <= i < session.completed.len() && (#[trigger] session.completed[i]).request_id
            == request_id
}

/// A new request acts on the frame that the session shows, under the daemon's own name for it, and
/// with the actions and the settling that were asked for; it is the newest one that is remembered.
/// It is refused where it names no frame, or another one than the current, and then changes
/// nothing.
pub proof fn new_requests_act_on_the_current_frame(
    session: SessionView,
    request_id: Seq<char>,
    request: McpActView,
)
    requires
        session.valid(),
        !was_requested(session, request_id),
    ensures
        ({
            let (after, result) = session.prepares(request_id, request);
            &&& result is Ok <==> request.frame > 0 && (session.current matches Some(current)
                && current.frame == request.frame)
            &&& match result {
                Ok(protocol) => {
                    &&& session.current matches Some(current) && protocol.expected_frame_id
                        == current.internal_id
                    &&& protocol.actions == request.actions
                    &&& protocol.settle == request.settle
                    &&& after.completed.len() > 0
                    &&& after.completed.last() == (MemoView {
                        request_id,
                        request,
                        protocol_request: protocol,
                        result_frame: None,
                    })
                    &&& after.current == session.current
                    &&& after.latest_frame == session.latest_frame
                    &&& after.connection == session.connection
                },
                Err(error) => after == session && (if request.frame == 0 {
                    error.code is InvalidAction
                } else {
                    error.code is StaleFrame
                }),
            }
        }),
{
    memo_place_is_first(session.completed, request_id, 0);
    if let Some(place) = memo_place(session.completed, request_id, 0) {
        assert(session.completed[place].request_id == request_id);
    }
}

/// A repeated request is answered with what was asked of the daemon the first time, whatever frame
/// is current now; the same identifier with another request is a protocol error. Neither changes
/// the session.
pub proof fn repeated_requests_ask_the_same(
    session: SessionView,
    place: int,
    request: McpActView,
)
    requires
        session.valid(),
        0 <= place < session.completed.len(),
    ensures
        ({
            let memo = session.completed[place];
            let (after, result) = session.prepares(memo.request_id, request);
            &&& after == session
            &&& memo.request == request ==> result == Ok::<ActRequestView, CuErrorView>(
                memo.protocol_request,
            )
            &&& memo.request != request ==> (result matches Err(error) && error.code
                is ProtocolError)
        }),
{
    let request_id = session.completed[place].request_id;
    memo_place_is_first(session.completed, request_id, 0);
    if let Some(found) = memo_place(session.completed, request_id, 0) {
        if found != place {
            assert(session.completed[found].request_id == session.completed[place].request_id);
        }
    }
}

/// A frame gets the number after the last one, until the numbers are used up. The frame of a
/// request's result keeps the number that it got first, and a different frame for the same request
/// is a protocol error. A wait's frame gets a number only while the frame that it waited on is
/// current.
pub proof fn frames_get_the_next_number(
    session: SessionView,
    place: int,
    baseline: BindingView,
    internal_id: Seq<char>,
)
    requires
        session.valid(),
        0 <= place < session.completed.len(),
    ensures
        session.latest_frame < u64::MAX ==> (session.binds(internal_id).1 matches Ok(binding)
            && binding.frame == session.latest_frame + 1 && binding.internal_id == internal_id
            && session.binds(internal_id).0.latest_frame == binding.frame && session.binds(
            internal_id,
        ).0.current == session.current),
        session.latest_frame == u64::MAX ==> session.binds(internal_id).1 is Err && session.binds(
            internal_id,
        ).0 == session,
        ({
            let memo = session.completed[place];
            let (after, result) = session.binds_action(memo.request_id, internal_id);
            match memo.result_frame {
                Some(binding) => after == session && (if binding.internal_id == internal_id {
                    result == Ok::<BindingView, CuErrorView>(binding)
                } else {
                    result matches Err(error) && error.code is ProtocolError
                }),
                None => session.latest_frame < u64::MAX ==> (result matches Ok(binding)
                    && binding.frame == session.latest_frame + 1 && binding.internal_id
                    == internal_id && after.latest_frame == binding.frame
                    && after.completed[place].result_frame == Some(binding) && after.current
                    == session.current),
            }
        }),
        session.binds_wait(baseline, internal_id).1 is Ok <==> session.current == Some(baseline)
            && session.latest_frame < u64::MAX,
        session.binds_wait(baseline, internal_id).1 matches Ok(binding) ==> binding.frame
            == session.latest_frame + 1 && binding.internal_id == internal_id,
        session.current != Some(baseline) ==> session.binds_wait(baseline, internal_id).0 == session,
{
    let request_id = session.completed[place].request_id;
    memo_place_is_first(session.completed, request_id, 0);
    if let Some(found) = memo_place(session.completed, request_id, 0) {
        if found != place {
            assert(session.completed[found].request_id == session.completed[place].request_id);
        }
    }
}

/// A failure that says that nothing was done keeps the current frame; every other one forgets it.
/// A failed wait also keeps it where the wait was superseded or refused as one too many. Nothing
/// else of the session changes.
pub proof fn failures_forget_the_frame(session: SessionView, code: ErrorCode)
    ensures
        ({
            let after = session.after_error(code);
            let harmless = code is InvalidAction || code is OutOfBounds || code is UnsupportedInput
                || code is ProtocolError;
            &&& after.current == (if harmless {
                session.current
            } else {
                None
            })
            &&& after.latest_frame == session.latest_frame
            &&& after.completed == session.completed
            &&& after.connection == session.connection
            &&& wait_invalidates(code) <==> !(harmless || code is StaleFrame || code is Busy)
        }),
{
}

/// A shown frame becomes current exactly where it bears the latest number; forgetting one that is
/// not current changes nothing.
pub proof fn only_the_newest_frame_becomes_current(session: SessionView, binding: BindingView)
    ensures
        session.committed(binding).current == (if binding.frame == session.latest_frame {
            Some(binding)
        } else {
            session.current
        }),
        session.committed(binding).latest_frame == session.latest_frame,
        session.committed(binding).completed == session.completed,
        session.committed(binding).connection == session.connection,
        session.cleared_if(binding).current == (if session.current == Some(binding) {
            None
        } else {
            session.current
        }),
        session.cleared_if(binding).latest_frame == session.latest_frame,
        session.cleared_if(binding).completed == session.completed,
        session.cleared_if(binding).connection == session.connection,
{
}

/// A connection is named by one of two fixed words or by an instance's name.
pub proof fn connections_are_named(name: Seq<char>)
    ensures
        target_of(name) == Ok::<TargetView, Seq<char>>(TargetView::Default) <==> name
            == "@default"@,
        target_of(name) == Ok::<TargetView, Seq<char>>(TargetView::Private) <==> name
            == "@private"@,
        target_of(name) == Ok::<TargetView, Seq<char>>(TargetView::Named(name)) <==> {
            &&& 1 <= name.len() <= 64
            &&& name != "."@
            &&& name != ".."@
            &&& forall|i: int|
                0 <= i < name.len() ==> ('a' <= (#[trigger] name[i]) <= 'z' || 'A' <= name[i]
                    <= 'Z' || '0' <= name[i] <= '9' || name[i] == '.' || name[i] == '_' || name[i]
                    == '-')
        },
        target_of(name) is Ok <==> name == "@default"@ || name == "@private"@ || is_instance_name(
            name,
        ),
{
    reveal_strlit("@default");
    reveal_strlit("@private");
    assert("@default"@[0] == '@');
    assert("@private"@[0] == '@');
    assert("@default"@[1] == 'd');
    assert("@private"@[1] == 'p');
    if is_instance_name(name) {
        assert(crate::instance::is_name_char(name[0]));
        assert forall|i: int| 0 <= i < name.len() implies ('a' <= (#[trigger] name[i]) <= 'z' || 'A'
            <= name[i] <= 'Z' || '0' <= name[i] <= '9' || name[i] == '.' || name[i] == '_'
            || name[i] == '-') by {
            assert(crate::instance::is_name_char(name[i]));
        }
    }
}

/// An observation is shown with the next frame number and its own dimensions; the image that is
/// read is the daemon's. Any other answer, a failure and a cancellation show nothing and forget
/// the frame.
pub proof fn observations_are_shown(
    session: SessionView,
    observation: ObservationView,
    error: CuErrorView,
)
    requires
        session.valid(),
        session.latest_frame < u64::MAX,
    ensures
        ({
            let response = Ok(
                ResponseResultView::Success(DaemonResponseView::Observe(observation)),
            );
            let (after, step) = session.observe_response(response, false);
            &&& step matches ToolStepView::ReadImage(pending) && {
                &&& pending.path == observation.image_path
                &&& pending.binding.frame == session.latest_frame + 1
                &&& pending.binding.internal_id == observation.frame_id
                &&& pending.content matches ContentView::Observation(shown) && shown.frame
                    == session.latest_frame + 1 && shown.width == observation.width && shown.height
                    == observation.height && shown.settled == observation.settled
            }
            &&& after.latest_frame == session.latest_frame + 1
            &&& after.current == session.current
            &&& session.observe_response(response, true).0.current is None
            &&& session.observe_response(response, true).1 matches ToolStepView::Reply(
                ReplyView::Problem(problem),
            ) && problem.code == "cancelled"@
        }),
        ({
            let (after, step) = session.observe_response(
                Ok(ResponseResultView::Error(error)),
                false,
            );
            &&& after.current is None
            &&& step matches ToolStepView::Reply(ReplyView::Failure(told)) && told.code
                == error.code && told.executed == error.executed
        }),
{
}

/// The result of an action is shown with the frame number of its request, and tells the status,
/// the count and the failure that the daemon told. Without its image it is told without a frame,
/// and the session forgets its own.
pub proof fn action_results_are_shown(
    session: SessionView,
    place: int,
    outcome: ActOutcomeView,
    observation: ObservationView,
)
    requires
        session.valid(),
        0 <= place < session.completed.len(),
        session.completed[place].result_frame is None,
        session.latest_frame < u64::MAX,
    ensures
        ({
            let request_id = session.completed[place].request_id;
            let shown = ActOutcomeView {
                image_expired: false,
                observation: Some(observation),
                ..outcome
            };
            let (after, step) = session.act_response(
                request_id,
                Ok(ResponseResultView::Success(DaemonResponseView::Act(shown))),
                false,
            );
            &&& step matches ToolStepView::ReadImage(pending) && {
                &&& pending.path == observation.image_path
                &&& pending.binding.frame == session.latest_frame + 1
                &&& pending.binding.internal_id == observation.frame_id
                &&& pending.content matches ContentView::Act(told) && told.status == outcome.status
                    && told.executed == outcome.executed && !told.image_expired && (
                told.observation matches Some(frame) && frame.frame == session.latest_frame + 1
                    && frame.width == observation.width && frame.height == observation.height
                    && frame.settled == observation.settled) && (told.action_error is Some <==>
                outcome.action_error is Some) && (told.action_error matches Some(failed)
                    ==> failed.code == outcome.action_error->0.code && failed.message
                    == outcome.action_error->0.message && failed.executed == outcome.executed) && (
                told.message is Some <==> outcome.status is Partial)
            }
            &&& after.completed[place].result_frame matches Some(binding) && binding.frame
                == session.latest_frame + 1
        }),
        ({
            let gone = ActOutcomeView { image_expired: true, ..outcome };
            let (after, step) = session.act_response(
                session.completed[place].request_id,
                Ok(ResponseResultView::Success(DaemonResponseView::Act(gone))),
                false,
            );
            &&& after.current is None
            &&& step matches ToolStepView::Reply(ReplyView::Plain(ContentView::Act(told)))
                && told.executed == outcome.executed && told.status == outcome.status
                && told.image_expired && told.observation is None && told.message is Some
        }),
{
    frames_get_the_next_number(
        session,
        place,
        BindingView { frame: 0, internal_id: Seq::empty() },
        observation.frame_id,
    );
}

/// A failed action keeps or forgets the frame as its failure says, and is told as it is but for the
/// advice; one that was superseded elsewhere is told as stale. An answer that was lost or cancelled
/// forgets the frame.
pub proof fn failed_actions_are_told(
    session: SessionView,
    request_id: Seq<char>,
    error: CuErrorView,
    lost: ReplyView,
    response: ResponseResultView,
)
    ensures
        ({
            let (after, step) = session.act_response(
                request_id,
                Ok(ResponseResultView::Error(error)),
                false,
            );
            &&& after == session.after_error(error.code)
            &&& step matches ToolStepView::Reply(ReplyView::Failure(told)) && told.code
                == error.code && (!(error.code is StaleFrame) ==> told.executed == error.executed
                && error.message.is_prefix_of(told.message))
        }),
        session.act_response(request_id, Err(lost), false).0.current is None,
        session.act_response(request_id, Err(lost), false).1 == ToolStepView::Reply(lost),
        session.act_response(request_id, Ok(response), true).0.current is None,
        session.act_response(request_id, Ok(response), true).1 matches ToolStepView::Reply(
            ReplyView::Problem(problem),
        ) && problem.code == "cancelled"@,
{
    let told = recoverable(error);
    assert(told.message.subrange(0, error.message.len() as int) =~= error.message);
}

/// A wait that ran out of time tells so with the frame that it waited on, and one that saw a
/// change shows the changed frame under the next number; both tell the time that passed, and only
/// the second where the activity was.
pub proof fn wait_results_are_shown(
    session: SessionView,
    baseline: BindingView,
    passed: u64,
    activity: crate::protocol::Rect,
    observation: ObservationView,
)
    requires
        session.valid(),
        session.current == Some(baseline),
        session.latest_frame < u64::MAX,
    ensures
        ({
            let (after, step) = session.wait_response(
                baseline,
                Ok(
                    ResponseResultView::Success(
                        DaemonResponseView::Wait(WaitOutcomeView::Timeout { elapsed_ms: passed }),
                    ),
                ),
                false,
            );
            &&& after == session
            &&& step matches ToolStepView::Reply(ReplyView::Plain(ContentView::Wait(told)))
                && told.status is Timeout && told.elapsed_ms == passed && told.frame
                == baseline.frame && told.settled && told.activity_bbox is None
        }),
        ({
            let (after, step) = session.wait_response(
                baseline,
                Ok(
                    ResponseResultView::Success(
                        DaemonResponseView::Wait(
                            WaitOutcomeView::Changed {
                                elapsed_ms: passed,
                                activity_bbox: activity,
                                observation,
                            },
                        ),
                    ),
                ),
                false,
            );
            &&& after.latest_frame == session.latest_frame + 1
            &&& step matches ToolStepView::ReadImage(pending) && {
                &&& pending.path == observation.image_path
                &&& pending.binding.frame == session.latest_frame + 1
                &&& pending.binding.internal_id == observation.frame_id
                &&& pending.content matches ContentView::Wait(told) && told.status is Changed
                    && told.elapsed_ms == passed && told.frame == session.latest_frame + 1
                    && told.settled == observation.settled && told.activity_bbox == Some(activity)
            }
        }),
{
}

/// A failed wait forgets the frame that it waited on unless its failure keeps it, and forgets no
/// other; it is told as it is but for the advice.
pub proof fn failed_waits_are_told(
    session: SessionView,
    baseline: BindingView,
    error: CuErrorView,
    lost: ReplyView,
)
    ensures
        ({
            let (after, step) = session.wait_response(
                baseline,
                Ok(ResponseResultView::Error(error)),
                false,
            );
            let keeps = error.code is StaleFrame || error.code is Busy || error.code
                is InvalidAction || error.code is OutOfBounds || error.code is UnsupportedInput
                || error.code is ProtocolError;
            &&& after.current == (if session.current == Some(baseline) && !keeps {
                None
            } else {
                session.current
            })
            &&& after.latest_frame == session.latest_frame
            &&& step matches ToolStepView::Reply(ReplyView::Failure(told)) && told.code
                == error.code
        }),
        session.wait_response(baseline, Err(lost), false) == (
            session.cleared_if(baseline),
            ToolStepView::Reply(lost),
        ),
{
}

/// An image that was read is shown and makes its frame current where it is the newest one; one that
/// cannot be read, and a cancelled call, forget the frame, and a wait forgets only its own.
pub proof fn images_make_their_frame_current(
    session: SessionView,
    baseline: BindingView,
    pending: PendingView,
    bytes: Seq<u8>,
    detail: Seq<char>,
)
    ensures
        session.shows_image(pending, Ok(bytes), false).0 == session.committed(pending.binding),
        session.shows_image(pending, Ok(bytes), false).1 matches ReplyView::Image { content, .. }
            && content == pending.content,
        session.shows_wait(baseline, pending, Ok(bytes), false).0 == session.committed(
            pending.binding,
        ),
        session.shows_wait(baseline, pending, Ok(bytes), false).1 matches ReplyView::Image {
            content,
            ..
        } && content == pending.content,
        session.shows_image(pending, Err(detail), false).0.current is None,
        session.shows_image(pending, Err(detail), false).1 matches ReplyView::Problem(problem)
            && problem.code == "image_unavailable"@ && (pending.content matches ContentView::Act(
            outcome,
        ) ==> problem.executed == Some(outcome.executed) && problem.action_error
            == outcome.action_error),
        session.shows_wait(baseline, pending, Err(detail), false).0 == session.cleared_if(baseline),
        session.shows_image(pending, Ok(bytes), true).0.current is None,
        session.shows_wait(baseline, pending, Ok(bytes), true).0 == session.cleared_if(baseline),
        session.shows_image(pending, Ok(bytes), true).1 matches ReplyView::Problem(problem)
            && problem.code == "cancelled"@,
        session.shows_wait(baseline, pending, Ok(bytes), true).1 matches ReplyView::Problem(
            problem,
        ) && problem.code == "cancelled"@,
{
}

/// A wait is asked of the daemon on the frame that the call names, with the regions and the times
/// of the call.
pub proof fn waits_are_asked_on_the_named_frame(request: McpWaitRequest, baseline: BindingView)
    ensures
        ({
            let asked = wait_request_of(request, baseline);
            &&& asked.last_frame_id == baseline.internal_id
            &&& asked.include_rects == request.include_rects@
            &&& asked.exclude_rects == request.exclude_rects@
            &&& asked.timeout_ms == request.timeout_ms
            &&& asked.quiet_ms == request.quiet_ms
        }),
{
}

/// A wait in the background is superseded by the frame of an action exactly where the action was
/// not a retry and its frame was shown.
pub proof fn shown_actions_supersede_waits(session: SessionView, retry: bool, shown: bool)
    ensures
        session.superseding(retry, shown) is Some <==> !retry && shown && session.current is Some,
        session.superseding(retry, shown) matches Some(id) ==> (session.current matches Some(
            current,
        ) && id == current.internal_id),
{
}

/// A connection that was made is told with its profile and is the session's from then on; one that
/// failed is told as an unavailable daemon, and one that was cancelled as that. Before it is made,
/// what the session knew is forgotten but for the number of its last frame.
pub proof fn connections_are_told(
    session: SessionView,
    name: Seq<char>,
    connection: ConnectionView,
    profile: Option<Seq<char>>,
    detail: Seq<char>,
)
    ensures
        session.begins_connect(name, true).0 == session,
        session.begins_connect(name, true).1 is Err,
        session.begins_connect(name, false).1 is Ok <==> target_of(name) is Ok,
        target_of(name) matches Ok(target) ==> session.begins_connect(name, false) == (
            SessionView {
                connection: None,
                latest_frame: session.latest_frame,
                current: None,
                completed: Seq::empty(),
            },
            Ok::<TargetView, ReplyView>(target),
        ),
        target_of(name) is Err ==> session.begins_connect(name, false).0 == session,
        session.ends_connect(connection, Ok(profile), false).0 == (SessionView {
            connection: Some(connection),
            ..session
        }),
        session.ends_connect(connection, Ok(profile), false).1 matches ReplyView::Connected {
            profile: told,
        } && (profile matches Some(text) ==> told == text) && (profile is None ==> told.len() == 0),
        session.ends_connect(connection, Err(detail), false).0 == session,
        session.ends_connect(connection, Err(detail), false).1 matches ReplyView::Problem(problem)
            && problem.code == "daemon_unavailable"@,
        session.ends_connect(connection, Ok(profile), true).0 == session,
        session.ends_connect(connection, Ok(profile), true).1 matches ReplyView::Problem(problem)
            && problem.code == "cancelled"@,
{
}

/// Advice is added to a failure exactly where it leaves the desktop unknown, its picture out of
/// date, or a wait in the way; nothing but the message changes.
pub proof fn failures_keep_their_facts(error: CuErrorView)
    ensures
        ({
            let told = recoverable(error);
            let advised = error.code is Indeterminate || error.code is InputFailed || error.code
                is PartialExecution || error.code is CaptureFailed || error.code is ViewportChanged
                || error.code is Cancelled || error.code is Busy;
            &&& told.code == error.code
            &&& told.executed == error.executed
            &&& told.expected_viewport == error.expected_viewport
            &&& told.actual_viewport == error.actual_viewport
            &&& error.message.is_prefix_of(told.message)
            &&& told.message.len() > error.message.len() <==> advised
            &&& !advised ==> told == error
        }),
{
    let told = recoverable(error);
    reveal_strlit("; ");
    assert(told.message.subrange(0, error.message.len() as int) =~= error.message);
}

/// The value of a character of base 64, by its place in the alphabet.
pub open spec fn sextet(c: char) -> int {
    if 'A' <= c <= 'Z' {
        c as int - 'A' as int
    } else if 'a' <= c <= 'z' {
        c as int - 'a' as int + 26
    } else if '0' <= c <= '9' {
        c as int - '0' as int + 52
    } else if c == '+' {
        62
    } else {
        63
    }
}

proof fn characters_have_their_value(bits: nat)
    requires
        bits < 64,
    ensures
        sextet(base64_char(bits)) == bits,
        base64_char(bits) != '=',
{
}

proof fn groups_read_back(first: nat, second: nat, third: nat)
    requires
        first < 256,
        second < 256,
        third < 256,
    ensures
        first / 4 < 64,
        (first % 4) * 16 + second / 16 < 64,
        (second % 16) * 4 + third / 64 < 64,
        third % 64 < 64,
        first == first / 4 * 4 + ((first % 4) * 16 + second / 16) / 16,
        second == ((first % 4) * 16 + second / 16) % 16 * 16 + ((second % 16) * 4 + third / 64) / 4,
        third == ((second % 16) * 4 + third / 64) % 4 * 64 + third % 64,
{
}

proof fn texts_are_filled_up(bytes: Seq<u8>)
    requires
        bytes.len() > 0,
    ensures
        ({
            let text = base64_text(bytes);
            &&& text.len() == (bytes.len() + 2) / 3 * 4
            &&& text.last() == '=' <==> bytes.len() % 3 != 0
            &&& text[text.len() - 2] == '=' <==> bytes.len() % 3 == 1
        }),
    decreases bytes.len(),
{
    let text = base64_text(bytes);
    if bytes.len() > 3 {
        let rest = bytes.skip(3);
        let tail = base64_text(rest);
        texts_are_filled_up(rest);
        assert(text.len() == 4 + tail.len());
        assert(text.last() == tail.last());
        assert(text[text.len() - 2] == tail[tail.len() - 2]);
    } else {
        let second: nat = if bytes.len() > 1 {
            bytes[1] as nat
        } else {
            0
        };
        let third: nat = if bytes.len() > 2 {
            bytes[2] as nat
        } else {
            0
        };
        groups_read_back(bytes[0] as nat, second, third);
        characters_have_their_value((second % 16) * 4 + third / 64);
        characters_have_their_value(third % 64);
    }
}

/// Whether a byte is made of the values of its characters.
pub open spec fn reads_back(text: Seq<char>, bytes: Seq<u8>, i: int) -> bool {
    let at = i / 3 * 4;
    &&& 0 <= at && at + 3 < text.len()
    &&& i % 3 == 0 ==> bytes[i] == sextet(text[at]) * 4 + sextet(text[at + 1]) / 16
    &&& i % 3 == 1 ==> bytes[i] == sextet(text[at + 1]) % 16 * 16 + sextet(text[at + 2]) / 4
    &&& i % 3 == 2 ==> bytes[i] == sextet(text[at + 2]) % 4 * 64 + sextet(text[at + 3])
}

proof fn bytes_read_back(bytes: Seq<u8>, i: int)
    requires
        0 <= i < bytes.len(),
    ensures
        reads_back(base64_text(bytes), bytes, i),
    decreases bytes.len(),
{
    let text = base64_text(bytes);
    texts_are_filled_up(bytes);
    if i >= 3 {
        let rest = bytes.skip(3);
        let tail = base64_text(rest);
        bytes_read_back(rest, i - 3);
        texts_are_filled_up(rest);
        assert(text.len() == 4 + tail.len());
        assert(rest[i - 3] == bytes[i]);
        let at = (i - 3) / 3 * 4;
        assert(i / 3 * 4 == at + 4);
        assert(text[at + 4] == tail[at]);
        assert(text[at + 5] == tail[at + 1]);
        assert(text[at + 6] == tail[at + 2]);
        assert(text[at + 7] == tail[at + 3]);
    } else {
        let second: nat = if bytes.len() > 1 {
            bytes[1] as nat
        } else {
            0
        };
        let third: nat = if bytes.len() > 2 {
            bytes[2] as nat
        } else {
            0
        };
        let first = bytes[0] as nat;
        groups_read_back(first, second, third);
        characters_have_their_value(first / 4);
        characters_have_their_value((first % 4) * 16 + second / 16);
        characters_have_their_value((second % 16) * 4 + third / 64);
        characters_have_their_value(third % 64);
        assert(text[0] == base64_char(first / 4));
        assert(text[1] == base64_char((first % 4) * 16 + second / 16));
        assert(bytes.len() > 1 ==> text[2] == base64_char((second % 16) * 4 + third / 64));
        assert(bytes.len() > 2 ==> text[3] == base64_char(third % 64));
    }
}

/// An image can be read back from its text: there are four characters for each three bytes or part
/// of them, each byte is made of the values of its characters, and the end is filled up with
/// equals signs.
pub proof fn images_read_back_from_their_text(bytes: Seq<u8>)
    ensures
        ({
            let text = base64_text(bytes);
            &&& text.len() == (bytes.len() + 2) / 3 * 4
            &&& forall|i: int| 0 <= i < bytes.len() ==> #[trigger] reads_back(text, bytes, i)
            &&& bytes.len() > 0 ==> (text.last() == '=' <==> bytes.len() % 3 != 0)
            &&& bytes.len() > 0 ==> (text[text.len() - 2] == '=' <==> bytes.len() % 3 == 1)
        }),
{
    if bytes.len() > 0 {
        texts_are_filled_up(bytes);
    }
    assert forall|i: int| 0 <= i < bytes.len() implies #[trigger] reads_back(
        base64_text(bytes),
        bytes,
        i,
    ) by {
        bytes_read_back(bytes, i);
    }
}

/// An action that is refused before it reaches the daemon keeps or forgets the frame as its failure
/// says, and is told as it is but for the advice; one that is not goes on as it was prepared.
pub proof fn refused_actions_are_told(
    session: SessionView,
    request_id: Seq<char>,
    request: McpActView,
)
    ensures
        ({
            let (prepared, protocol) = session.prepares(request_id, request);
            let (after, begun) = session.begins_act(request_id, request);
            match protocol {
                Ok(protocol) => after == prepared && begun == Ok::<ActRequestView, ReplyView>(
                    protocol,
                ),
                Err(error) => after == prepared.after_error(error.code) && (begun matches Err(
                    ReplyView::Failure(told),
                ) && told.code == error.code && error.message.is_prefix_of(told.message)),
            }
        }),
{
    if let Err(error) = session.prepares(request_id, request).1 {
        failures_keep_their_facts(error);
    }
}

/// What went wrong stands in what is told of an unavailable daemon, and for an action it is told
/// that its outcome is unknown.
pub proof fn lost_answers_tell_why(target: TargetView, detail: Seq<char>)
    ensures
        !(target is Private) ==> detail.is_suffix_of(unavailable_message(target, detail)),
        target matches TargetView::Named(name) ==> exists|from: int|
            0 <= from && from + name.len() <= unavailable_message(target, detail).len()
                && #[trigger] unavailable_message(target, detail).subrange(
                from,
                from + name.len(),
            ) == name,
        detail.is_suffix_of(lost_answer(true, detail)),
        lost_answer(true, detail).len() > detail.len(),
        lost_answer(false, detail) == detail,
{
    let message = unavailable_message(target, detail);
    let lost = lost_answer(true, detail);
    reveal_strlit(
        "action outcome is unknown; call computer_observe and inspect the desktop before issuing more actions: ",
    );
    assert(lost.subrange(lost.len() - detail.len(), lost.len() as int) =~= detail);
    if !(target is Private) {
        assert(message.subrange(message.len() - detail.len(), message.len() as int) =~= detail);
    }
    if let TargetView::Named(name) = target {
        let from = "named instance "@.len() as int;
        assert(message.subrange(from, from + name.len()) =~= name);
    }
}

/// A capture for a wait is taken exactly where it succeeded, has three bytes for each pixel, and
/// the wait was not cancelled; a failed capture is told as it is.
pub proof fn samples_are_whole_frames(
    captured: Result<FrameView, CuErrorView>,
    cancelled_now: bool,
)
    ensures
        ({
            let sample = sample_of(captured, cancelled_now);
            &&& sample is Ok <==> !cancelled_now && (captured matches Ok(frame) && frame.width > 0
                && frame.height > 0 && frame.pixels.len() == frame.width * frame.height * 3)
            &&& sample is Ok ==> sample == captured
            &&& captured is Err ==> sample == captured
            &&& (captured matches Ok(frame) && sample is Err) ==> (sample matches Err(error) && (
            error.code is CaptureFailed || error.code is Cancelled && cancelled_now))
        }),
{
}

/// Calls of different sessions, connections or identifiers have different keys.
pub proof fn calls_of_different_sessions_have_different_keys(
    session: Seq<char>,
    generation: Seq<char>,
    id: CallIdView,
    other_session: Seq<char>,
    other_generation: Seq<char>,
    other_id: CallIdView,
)
    requires
        session.len() == other_session.len(),
        generation.len() == other_generation.len(),
        action_key(session, generation, id) == action_key(
            other_session,
            other_generation,
            other_id,
        ),
    ensures
        session == other_session,
        generation == other_generation,
        id == other_id,
{
    let key = action_key(session, generation, id);
    let start = "mcp:"@.len() as int;
    let middle = start + session.len() + ":"@.len();
    assert(session =~= key.subrange(start, start + session.len()));
    assert(other_session =~= key.subrange(start, start + session.len()));
    assert(generation =~= key.subrange(middle, middle + generation.len()));
    assert(other_generation =~= key.subrange(middle, middle + generation.len()));
    if id != other_id {
        calls_have_distinct_keys(session, generation, id, other_id);
    }
}

} // verus!
