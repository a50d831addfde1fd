//! What a wait in the background leaves behind, when, and where.
use vstd::prelude::*;

use crate::protocol::{
    CuErrorView, DaemonResponseView, ErrorCode, ObservationView, Rect, ResponseResultView,
    WaitOutcomeView,
};
use crate::signal::{
    directory_fault, SignalEventView, SignalPurpose, SignalStep, SignalView,
};
use crate::waits::{signal_of, ControlView, PendingWaitView, SignalResultView, TerminalView};

verus! {

/// A finished wait leaves behind what the daemon told: that time ran out, or that there was
/// activity, where, and whether it settled, with the time that the daemon counted. Only the
/// activity makes the frame out of date.
pub proof fn finished_waits_leave_their_outcome(
    counted: u64,
    passed: u64,
    activity: Rect,
    observation: ObservationView,
)
    ensures
        signal_of(
            Ok(
                ResponseResultView::Success(
                    DaemonResponseView::Wait(WaitOutcomeView::Timeout { elapsed_ms: counted }),
                ),
            ),
            passed,
        ) == (SignalResultView::Timeout { elapsed_ms: counted }, false),
        signal_of(
            Ok(
                ResponseResultView::Success(
                    DaemonResponseView::Wait(
                        WaitOutcomeView::Changed {
                            elapsed_ms: counted,
                            activity_bbox: activity,
                            observation,
                        },
                    ),
                ),
            ),
            passed,
        ) matches (
            SignalResultView::Changed { elapsed_ms, activity_bbox, settled, .. },
            outdated,
        ) && elapsed_ms == counted && activity_bbox == activity && settled == observation.settled
            && outdated,
{
}

/// A failed wait leaves behind a failure of its own name with the time that passed, and one that
/// was superseded or cancelled leaves behind that. The frame stays usable exactly after a failure
/// that says that nothing was done, or that another wait is in the way.
pub proof fn failed_waits_leave_their_failure(error: CuErrorView, passed: u64, detail: Seq<char>)
    ensures
        ({
            let (result, outdated) = signal_of(Ok(ResponseResultView::Error(error)), passed);
            if error.code is StaleFrame || error.code is Cancelled {
                outdated && (result matches SignalResultView::Cancelled { elapsed_ms, .. }
                    && elapsed_ms == passed)
            } else {
                &&& outdated <==> !(error.code is InvalidAction || error.code is OutOfBounds
                    || error.code is UnsupportedInput || error.code is ProtocolError || error.code
                    is Busy)
                &&& result matches SignalResultView::Error { elapsed_ms, code, message }
                    && elapsed_ms == passed && error.message.is_prefix_of(message) && code == (
                match error.code {
                    ErrorCode::TargetGone => "target_gone"@,
                    ErrorCode::LeaseConflict => "lease_conflict"@,
                    ErrorCode::InvalidAction => "invalid_action"@,
                    ErrorCode::OutOfBounds => "out_of_bounds"@,
                    ErrorCode::UnsupportedInput => "unsupported_input"@,
                    ErrorCode::CaptureFailed => "capture_failed"@,
                    ErrorCode::InputFailed => "input_failed"@,
                    ErrorCode::PartialExecution => "partial_execution"@,
                    ErrorCode::Indeterminate => "indeterminate"@,
                    ErrorCode::Timeout => "timeout"@,
                    ErrorCode::Busy => "busy"@,
                    ErrorCode::ViewportChanged => "viewport_changed"@,
                    ErrorCode::ProtocolError => "protocol_error"@,
                    ErrorCode::Internal => "internal"@,
                    _ => code,
                })
            }
        }),
        signal_of(Err(detail), passed) matches (
            SignalResultView::Error { elapsed_ms, code, message },
            outdated,
        ) && elapsed_ms == passed && code == "daemon_unavailable"@ && detail.is_prefix_of(message)
            && outdated,
{
    crate::session_laws::failures_keep_their_facts(error);
    let (result, _) = signal_of(Err::<ResponseResultView, Seq<char>>(detail), passed);
    if let SignalResultView::Error { message, .. } = result {
        assert(message.subrange(0, detail.len() as int) =~= detail);
    }
}

/// A wait can be started exactly where none is pending and the session is open. A pending wait
/// ends by being cancelled, by a newer frame than its own, by its own worker's result or loss
/// while the session is open, or by the end of the session; whatever ends it is left behind with
/// the wait's own paths, and a cancelled wait tells the whole milliseconds since it started.
pub proof fn pending_waits_end_as_they_are_told(
    control: ControlView,
    wait: PendingWaitView,
    generation: Seq<char>,
    current: Seq<char>,
    result: SignalResultView,
    now: u64,
)
    requires
        control.pending == Some(wait),
    ensures
        control.refuses() is Some,
        control.closed ==> control.refuses()->0.code is Cancelled,
        !control.closed ==> control.refuses()->0.code is Busy,
        ({
            let (after, ended) = control.cancels(now);
            &&& after == (ControlView { pending: None, ..control })
            &&& ended matches Some(terminal) && terminal.wait == wait && (terminal.result
                matches SignalResultView::Cancelled { elapsed_ms, .. } && (now >= wait.started_at
                ==> elapsed_ms * 1_000_000 <= now - wait.started_at < (elapsed_ms + 1) * 1_000_000)
                && (now < wait.started_at ==> elapsed_ms == 0))
        }),
        wait.baseline == current ==> control.supersedes(current, now) == (
            control,
            None::<TerminalView>,
        ),
        wait.baseline != current ==> control.supersedes(current, now) == control.cancels(now),
        control.finishes(generation, result) == (if wait.generation == generation && !control.closed {
            (
                ControlView { pending: None, ..control },
                Some(TerminalView { wait, result }),
            )
        } else {
            (control, None)
        }),
        ({
            let (after, ended) = control.loses_worker(generation, now);
            if wait.generation == generation && !control.closed {
                after == (ControlView { pending: None, ..control }) && (ended matches Some(terminal)
                    && terminal.wait == wait && (terminal.result matches SignalResultView::Error {
                    code,
                    ..
                } && code == "internal"@))
            } else {
                after == control && ended is None
            }
        }),
        !control.closed ==> control.stops(now).0 == (ControlView { closed: true, pending: None })
            && control.stops(now).1 == control.cancels(now).1,
{
}

/// Without a pending wait there is nothing to end, and one can be started in an open session.
pub proof fn idle_controls_end_nothing(
    control: ControlView,
    generation: Seq<char>,
    current: Seq<char>,
    result: SignalResultView,
    now: u64,
)
    requires
        control.pending is None,
    ensures
        control.refuses() is None <==> !control.closed,
        control.closed ==> control.refuses()->0.code is Cancelled,
        control.cancels(now) == (control, None::<TerminalView>),
        control.supersedes(current, now) == (control, None::<TerminalView>),
        control.finishes(generation, result) == (control, None::<TerminalView>),
        control.loses_worker(generation, now) == (control, None::<TerminalView>),
        control.stops(now).0 == (ControlView { closed: true, pending: None }),
        control.stops(now).1 is None,
{
}

/// A directory for results is used exactly where it is a real one, belongs to the user, and nobody
/// else can reach it.
pub proof fn result_directories_are_private(facts: crate::store::FileFacts, euid: u32)
    ensures
        directory_fault(facts, euid) is None <==> facts.is_dir && !facts.is_symlink && facts.uid
            == euid && facts.mode % 64 == 0,
        directory_fault(facts, euid) matches Some(error) ==> error.code is Internal,
{
    let mode = facts.mode;
    assert(mode & 0o077 == mode % 64) by (bit_vector);
}

/// The place for a result is prepared in one order: each directory is created and looked at, the
/// session's own is remembered when it is new, and all of them are looked at again before a file
/// is created, written and renamed, or the directory removed. Each look has to find a private
/// directory, the last one the one that was remembered; a result of another session is refused.
pub proof fn results_are_published_step_by_step(
    store: SignalView,
    purpose: SignalPurpose,
    step: SignalStep,
    event: SignalEventView,
    euid: u32,
)
    requires
        store.expects(step, event),
    ensures
        event is Failed ==> (store.next(purpose, step, event, euid) matches Err(error) && error.code
            is Internal),
        event matches SignalEventView::Found(facts) ==> if !(facts.is_dir && !facts.is_symlink
            && facts.uid == euid && facts.mode % 64 == 0) {
            store.next(purpose, step, event, euid) is Err
        } else if step is VerifySession {
            if store.identity != Some((facts.dev, facts.ino)) {
                store.next(purpose, step, event, euid) is Err
            } else {
                match purpose {
                    SignalPurpose::Prepare => store.next(purpose, step, event, euid) == Ok::<
                        SignalStep,
                        CuErrorView,
                    >(SignalStep::OpenStaging),
                    SignalPurpose::Publish { own } => if own {
                        store.next(purpose, step, event, euid) == Ok::<SignalStep, CuErrorView>(
                            SignalStep::Write,
                        )
                    } else {
                        store.next(purpose, step, event, euid) is Err
                    },
                    SignalPurpose::Cleanup => store.next(purpose, step, event, euid) == Ok::<
                        SignalStep,
                        CuErrorView,
                    >(SignalStep::RemoveSession),
                }
            }
        } else {
            store.next(purpose, step, event, euid) == Ok::<SignalStep, CuErrorView>(
                match step {
                    SignalStep::CheckRuntime => SignalStep::CreateWaits,
                    SignalStep::CheckWaits => if store.identity is None {
                        SignalStep::CreateSession
                    } else {
                        SignalStep::VerifyRuntime
                    },
                    SignalStep::ClaimSession => SignalStep::VerifyRuntime,
                    SignalStep::VerifyRuntime => SignalStep::VerifyWaits,
                    _ => SignalStep::VerifySession,
                },
            )
        },
        event is Done || event is Exists || event is NotEmpty ==> store.next(
            purpose,
            step,
            event,
            euid,
        ) == Ok::<SignalStep, CuErrorView>(
            match step {
                SignalStep::CreateRuntime => SignalStep::CheckRuntime,
                SignalStep::CreateWaits => SignalStep::CheckWaits,
                SignalStep::CreateSession => SignalStep::ClaimSession,
                SignalStep::Write => SignalStep::Rename,
                _ => SignalStep::Done,
            },
        ),
        event matches SignalEventView::Found(facts) ==> (store.after(step, event, euid).identity
            != store.identity ==> step is ClaimSession && store.after(step, event, euid).identity
            == Some((facts.dev, facts.ino))),
        step is ClaimSession ==> (event matches SignalEventView::Found(facts) ==> (facts.is_dir
            && !facts.is_symlink && facts.uid == euid && facts.mode % 64 == 0 ==> store.after(
            step,
            event,
            euid,
        ).identity == Some((facts.dev, facts.ino)))),
        store.after(step, event, euid).closed == store.closed,
        store.after(step, event, euid).session_dir == store.session_dir,
{
    if let SignalEventView::Found(facts) = event {
        result_directories_are_private(facts, euid);
    }
}

/// A closed store begins nothing, and one that created nothing has nothing to clean up; everything
/// else begins by looking at the directories, which are created first only for a new result.
pub proof fn closed_stores_begin_nothing(store: SignalView, own: bool)
    ensures
        store.closed ==> store.first_step(SignalPurpose::Prepare) is Done && store.first_step(
            SignalPurpose::Publish { own },
        ) is Done && store.first_step(SignalPurpose::Cleanup) is Done,
        !store.closed ==> store.first_step(SignalPurpose::Prepare) is CreateRuntime
            && store.first_step(SignalPurpose::Publish { own }) is VerifyRuntime,
        !store.closed && store.identity is None ==> store.first_step(SignalPurpose::Cleanup)
            is Done,
        !store.closed && store.identity is Some ==> store.first_step(SignalPurpose::Cleanup)
            is VerifyRuntime,
{
}

} // verus!
