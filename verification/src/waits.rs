//! Background waits of an MCP session: at most one at a time, and one terminal result for each.
//!
//! Times are readings of one monotonic clock, in nanoseconds.
use vstd::prelude::*;

use crate::protocol::{
    code_name, failure, serde_variant_name, CuError, CuErrorView, DaemonResponse,
    DaemonResponseView, ErrorCode, Rect, ResponseResult, ResponseResultView, WaitOutcome,
    WaitOutcomeView,
};
use crate::replies::{recoverable, with_recovery};
use crate::session::{wait_error_invalidates_frame, wait_invalidates};
use crate::text::same_text;
use crate::validate::refusal;
use crate::wait::{elapsed_millis, elapsed_nanos, NANOS_PER_MILLI};

verus! {

/// The terminal result of a background wait.
#[derive(Debug, PartialEq, Eq)]
#[allow(inconsistent_fields)]
pub enum SignalResult {
    Changed { elapsed_ms: u64, activity_bbox: Rect, settled: bool, message: String },
    Timeout { elapsed_ms: u64 },
    Error { elapsed_ms: u64, code: String, message: String },
    Cancelled { elapsed_ms: u64, message: String },
}

/// A terminal result with its texts as sequences.
#[allow(inconsistent_fields)]
pub enum SignalResultView {
    Changed { elapsed_ms: u64, activity_bbox: Rect, settled: bool, message: Seq<char> },
    Timeout { elapsed_ms: u64 },
    Error { elapsed_ms: u64, code: Seq<char>, message: Seq<char> },
    Cancelled { elapsed_ms: u64, message: Seq<char> },
}

impl View for SignalResult {
    type V = SignalResultView;

    open spec fn view(&self) -> SignalResultView {
        match *self {
            SignalResult::Changed { elapsed_ms, activity_bbox, settled, message } =>
                SignalResultView::Changed { elapsed_ms, activity_bbox, settled, message: message@ },
            SignalResult::Timeout { elapsed_ms } => SignalResultView::Timeout { elapsed_ms },
            SignalResult::Error { elapsed_ms, code, message } => SignalResultView::Error {
                elapsed_ms,
                code: code@,
                message: message@,
            },
            SignalResult::Cancelled { elapsed_ms, message } => SignalResultView::Cancelled {
                elapsed_ms,
                message: message@,
            },
        }
    }
}

/// The result of a wait that was cancelled.
pub open spec fn cancelled_signal(elapsed_ms: u64) -> SignalResultView {
    SignalResultView::Cancelled {
        elapsed_ms,
        message: "The wait was cancelled or superseded; call computer_observe for a current screenshot before continuing."@,
    }
}

fn new_cancelled(elapsed_ms: u64) -> (result: SignalResult)
    ensures
        result@ == cancelled_signal(elapsed_ms),
{
    SignalResult::Cancelled {
        elapsed_ms,
        message: "The wait was cancelled or superseded; call computer_observe for a current screenshot before continuing.".to_owned(),
    }
}

/// What a daemon's response to a background wait, or the diagnostic of a lost one, ends it with;
/// and whether the wait's frame is no longer usable.
pub open spec fn signal_of(
    response: Result<ResponseResultView, Seq<char>>,
    elapsed_ms: u64,
) -> (SignalResultView, bool) {
    match response {
        Ok(ResponseResultView::Success(DaemonResponseView::Wait(outcome))) => match outcome {
            WaitOutcomeView::Timeout { elapsed_ms } => (
                SignalResultView::Timeout { elapsed_ms },
                false,
            ),
            WaitOutcomeView::Changed { elapsed_ms, activity_bbox, observation } => (
                SignalResultView::Changed {
                    elapsed_ms,
                    activity_bbox,
                    settled: observation.settled,
                    message: "Monitored activity was detected; call computer_observe to inspect the current desktop before continuing."@,
                },
                true,
            ),
        },
        Ok(ResponseResultView::Error(error)) => if error.code == ErrorCode::StaleFrame
            || error.code == ErrorCode::Cancelled {
            (cancelled_signal(elapsed_ms), true)
        } else {
            (
                SignalResultView::Error {
                    elapsed_ms,
                    code: code_name(error.code),
                    message: recoverable(error).message,
                },
                wait_invalidates(error.code),
            )
        },
        Ok(_) => (
            SignalResultView::Error {
                elapsed_ms,
                code: "internal"@,
                message: "daemon returned the wrong wait response; call computer_observe before continuing"@,
            },
            true,
        ),
        Err(detail) => (
            SignalResultView::Error {
                elapsed_ms,
                code: "daemon_unavailable"@,
                message: detail + "; call computer_observe before continuing"@,
            },
            true,
        ),
    }
}

/// The view of a response or a diagnostic.
pub open spec fn answered(response: Result<ResponseResult, String>) -> Result<
    ResponseResultView,
    Seq<char>,
> {
    match response {
        Ok(result) => Ok(result@),
        Err(detail) => Err(detail@),
    }
}

impl SignalResult {
    /// What a daemon's response to a background wait ends it with, and whether the wait's frame is
    /// no longer usable.
    pub fn from_response(response: Result<ResponseResult, String>, elapsed_ms: u64) -> (result: (
        SignalResult,
        bool,
    ))
        ensures
            ((result.0)@, result.1) == signal_of(answered(response), elapsed_ms),
    {
        match response {
            Ok(ResponseResult::Success(DaemonResponse::Wait(outcome))) => match outcome {
                WaitOutcome::Timeout { elapsed_ms } => (
                    SignalResult::Timeout { elapsed_ms },
                    false,
                ),
                WaitOutcome::Changed { elapsed_ms, activity_bbox, observation } => (
                    SignalResult::Changed {
                        elapsed_ms,
                        activity_bbox,
                        settled: observation.settled,
                        message: "Monitored activity was detected; call computer_observe to inspect the current desktop before continuing.".to_owned(),
                    },
                    true,
                ),
            },
            Ok(ResponseResult::Error(error)) => {
                if error.code == ErrorCode::StaleFrame || error.code == ErrorCode::Cancelled {
                    return (new_cancelled(elapsed_ms), true);
                }
                let invalidates = wait_error_invalidates_frame(error.code);
                let error = with_recovery(error);
                (
                    SignalResult::Error {
                        elapsed_ms,
                        code: serde_variant_name(error.code).to_owned(),
                        message: error.message,
                    },
                    invalidates,
                )
            },
            Ok(_) => (
                SignalResult::Error {
                    elapsed_ms,
                    code: "internal".to_owned(),
                    message: "daemon returned the wrong wait response; call computer_observe before continuing".to_owned(),
                },
                true,
            ),
            Err(detail) => {
                let mut message = detail;
                message.append("; call computer_observe before continuing");
                (
                    SignalResult::Error {
                        elapsed_ms,
                        code: "daemon_unavailable".to_owned(),
                        message,
                    },
                    true,
                )
            },
        }
    }
}

/// A background wait that has no result yet.
#[derive(Debug)]
pub struct PendingWait {
    /// A text that no other wait has.
    pub generation: String,
    /// The daemon's identifier of the wait's frame.
    pub baseline: String,
    pub started_at: u64,
    /// Where the result will be.
    pub path: String,
    /// Where the result is written before it is published.
    pub staging_path: String,
}

/// A pending wait with its texts as sequences.
pub struct PendingWaitView {
    pub generation: Seq<char>,
    pub baseline: Seq<char>,
    pub started_at: u64,
    pub path: Seq<char>,
    pub staging_path: Seq<char>,
}

impl View for PendingWait {
    type V = PendingWaitView;

    open spec fn view(&self) -> PendingWaitView {
        PendingWaitView {
            generation: self.generation@,
            baseline: self.baseline@,
            started_at: self.started_at,
            path: self.path@,
            staging_path: self.staging_path@,
        }
    }
}

/// A terminal result that is to be published for a wait.
#[derive(Debug)]
pub struct Terminal {
    pub wait: PendingWait,
    pub result: SignalResult,
}

/// A publication with its texts as sequences.
pub struct TerminalView {
    pub wait: PendingWaitView,
    pub result: SignalResultView,
}

impl View for Terminal {
    type V = TerminalView;

    open spec fn view(&self) -> TerminalView {
        TerminalView { wait: self.wait@, result: self.result@ }
    }
}

/// The view of an optional publication.
pub open spec fn terminal_view(terminal: Option<Terminal>) -> Option<TerminalView> {
    match terminal {
        Some(terminal) => Some(terminal@),
        None => None,
    }
}

/// The control of a session's background waits.
#[derive(Debug)]
pub struct AsyncWaits {
    pub closed: bool,
    pub pending: Option<PendingWait>,
}

/// A control with its texts as sequences.
pub struct ControlView {
    pub closed: bool,
    pub pending: Option<PendingWaitView>,
}

impl View for AsyncWaits {
    type V = ControlView;

    open spec fn view(&self) -> ControlView {
        ControlView {
            closed: self.closed,
            pending: match self.pending {
                Some(wait) => Some(wait@),
                None => None,
            },
        }
    }
}

/// Whole milliseconds from one time to another.
pub open spec fn elapsed_ms(start: u64, now: u64) -> u64 {
    elapsed_nanos(start, now) / NANOS_PER_MILLI
}

impl ControlView {
    /// Why no wait can start, if none can.
    pub open spec fn refuses(self) -> Option<CuErrorView> {
        if self.closed {
            Some(failure(ErrorCode::Cancelled, "MCP session is closing"@))
        } else if self.pending is Some {
            Some(failure(ErrorCode::Busy, "an asynchronous wait is already active"@))
        } else {
            None
        }
    }

    /// The control without a pending wait.
    pub open spec fn freed(self) -> ControlView {
        ControlView { pending: None, ..self }
    }

    /// What ending the pending wait with a result does.
    pub open spec fn ends(self, result: SignalResultView) -> (ControlView, Option<TerminalView>) {
        match self.pending {
            None => (self, None),
            Some(wait) => (self.freed(), Some(TerminalView { wait, result })),
        }
    }

    /// What cancelling the pending wait does.
    pub open spec fn cancels(self, now: u64) -> (ControlView, Option<TerminalView>) {
        match self.pending {
            None => (self, None),
            Some(wait) => self.ends(cancelled_signal(elapsed_ms(wait.started_at, now))),
        }
    }

    /// Whether a worker's wait is the pending one of an open control.
    pub open spec fn serves(self, generation: Seq<char>) -> bool {
        !self.closed && self.pending is Some && self.pending->0.generation == generation
    }

    /// What a worker's result does: it counts only where its wait is still pending.
    pub open spec fn finishes(self, generation: Seq<char>, result: SignalResultView) -> (
        ControlView,
        Option<TerminalView>,
    ) {
        if self.serves(generation) {
            self.ends(result)
        } else {
            (self, None)
        }
    }

    /// What a worker that stopped without a result does.
    pub open spec fn loses_worker(self, generation: Seq<char>, now: u64) -> (
        ControlView,
        Option<TerminalView>,
    ) {
        if self.serves(generation) {
            self.ends(
                SignalResultView::Error {
                    elapsed_ms: elapsed_ms(self.pending->0.started_at, now),
                    code: "internal"@,
                    message: "asynchronous wait worker stopped unexpectedly; call computer_observe before starting another wait"@,
                },
            )
        } else {
            (self, None)
        }
    }

    /// What a new current frame does: a wait for another one is cancelled.
    pub open spec fn supersedes(self, current: Seq<char>, now: u64) -> (
        ControlView,
        Option<TerminalView>,
    ) {
        if self.pending is Some && self.pending->0.baseline != current {
            self.cancels(now)
        } else {
            (self, None)
        }
    }

    /// What closing the control does.
    pub open spec fn stops(self, now: u64) -> (ControlView, Option<TerminalView>) {
        if self.closed {
            (self, None)
        } else {
            ControlView { closed: true, ..self }.cancels(now)
        }
    }
}

impl AsyncWaits {
    /// An open control.
    pub fn new() -> (control: Self)
        ensures
            control@ == (ControlView { closed: false, pending: None }),
    {
        AsyncWaits { closed: false, pending: None }
    }

    /// Refuse a wait where none can start.
    pub fn check_start(&self) -> (result: Result<(), CuError>)
        ensures
            refusal(result) == self@.refuses(),
    {
        if self.closed {
            return Err(CuError::new(ErrorCode::Cancelled, "MCP session is closing"));
        }
        if self.pending.is_some() {
            return Err(CuError::new(ErrorCode::Busy, "an asynchronous wait is already active"));
        }
        Ok(())
    }

    /// Register a wait, where one can start.
    pub fn start(&mut self, wait: PendingWait) -> (result: Result<(), CuError>)
        ensures
            refusal(result) == old(self)@.refuses(),
            final(self)@ == (if old(self)@.refuses() is None {
                ControlView { pending: Some(wait@), ..old(self)@ }
            } else {
                old(self)@
            }),
    {
        match self.check_start() {
            Ok(()) => {
                self.pending = Some(wait);
                Ok(())
            },
            Err(error) => Err(error),
        }
    }

    /// Cancel the pending wait: the result to publish.
    pub fn cancel(&mut self, now: u64) -> (terminal: Option<Terminal>)
        ensures
            (final(self)@, terminal_view(terminal)) == old(self)@.cancels(now),
    {
        match self.pending.take() {
            None => None,
            Some(wait) => {
                let result = new_cancelled(elapsed_millis(wait.started_at, now));
                Some(Terminal { wait, result })
            },
        }
    }

    /// Cancel the pending wait if its frame is not the current one.
    pub fn cancel_if_superseded(&mut self, current: &str, now: u64) -> (terminal: Option<Terminal>)
        ensures
            (final(self)@, terminal_view(terminal)) == old(self)@.supersedes(current@, now),
    {
        let other = match &self.pending {
            Some(wait) => !same_text(&wait.baseline, current),
            None => false,
        };
        if other {
            self.cancel(now)
        } else {
            None
        }
    }

    fn is_serving(&self, generation: &str) -> (serving: bool)
        ensures
            serving == self@.serves(generation@),
    {
        if self.closed {
            return false;
        }
        match &self.pending {
            Some(wait) => same_text(&wait.generation, generation),
            None => false,
        }
    }

    /// Take a worker's result: the result to publish.
    pub fn finish(&mut self, generation: &str, result: SignalResult) -> (terminal: Option<Terminal>)
        ensures
            (final(self)@, terminal_view(terminal)) == old(self)@.finishes(
                generation@,
                result@,
            ),
    {
        if !self.is_serving(generation) {
            return None;
        }
        match self.pending.take() {
            None => None,
            Some(wait) => Some(Terminal { wait, result }),
        }
    }

    /// Note that a worker stopped: the result to publish, if it had none.
    pub fn lose_worker(&mut self, generation: &str, now: u64) -> (terminal: Option<Terminal>)
        ensures
            (final(self)@, terminal_view(terminal)) == old(self)@.loses_worker(generation@, now),
    {
        if !self.is_serving(generation) {
            return None;
        }
        match self.pending.take() {
            None => None,
            Some(wait) => {
                let result = SignalResult::Error {
                    elapsed_ms: elapsed_millis(wait.started_at, now),
                    code: "internal".to_owned(),
                    message: "asynchronous wait worker stopped unexpectedly; call computer_observe before starting another wait".to_owned(),
                };
                Some(Terminal { wait, result })
            },
        }
    }

    /// Close the control: the result to publish.
    pub fn stop(&mut self, now: u64) -> (terminal: Option<Terminal>)
        ensures
            (final(self)@, terminal_view(terminal)) == old(self)@.stops(now),
    {
        if self.closed {
            return None;
        }
        self.closed = true;
        self.cancel(now)
    }
}

/// What an agent is told of a background wait that was started.
pub fn started_message() -> (message: &'static str)
    ensures
        message@
            == "Use a monitor to notify when signal_path appears, then read its JSON result."@,
{
    "Use a monitor to notify when signal_path appears, then read its JSON result."
}

/// What happens to the control of background waits once a wait was registered.
pub enum ControlEvent {
    Cancel { now: u64 },
    Superseded { current: Seq<char>, now: u64 },
    Finished { generation: Seq<char>, result: SignalResultView },
    WorkerLost { generation: Seq<char>, now: u64 },
    Stopped { now: u64 },
}

impl ControlView {
    /// What an event does.
    pub open spec fn takes(self, event: ControlEvent) -> (ControlView, Option<TerminalView>) {
        match event {
            ControlEvent::Cancel { now } => self.cancels(now),
            ControlEvent::Superseded { current, now } => self.supersedes(current, now),
            ControlEvent::Finished { generation, result } => self.finishes(generation, result),
            ControlEvent::WorkerLost { generation, now } => self.loses_worker(generation, now),
            ControlEvent::Stopped { now } => self.stops(now),
        }
    }

    /// The control after a series of events.
    pub open spec fn after(self, events: Seq<ControlEvent>) -> ControlView
        decreases events.len(),
    {
        if events.len() == 0 {
            self
        } else {
            self.after(events.drop_last()).takes(events.last()).0
        }
    }

    /// How many results a series of events publishes.
    pub open spec fn published(self, events: Seq<ControlEvent>) -> nat
        decreases events.len(),
    {
        if events.len() == 0 {
            0
        } else {
            self.published(events.drop_last()) + if self.after(events.drop_last()).takes(
                events.last(),
            ).1 is Some {
                1nat
            } else {
                0
            }
        }
    }
}

/// A wait that was registered gets at most one terminal result, whatever happens in whatever order;
/// it has one exactly where it is no longer pending.
pub proof fn waits_end_once(control: ControlView, events: Seq<ControlEvent>)
    requires
        control.pending is Some,
    ensures
        control.published(events) == (if control.after(events).pending is Some {
            0nat
        } else {
            1
        }),
        control.after(events).pending is Some ==> control.after(events).pending == control.pending,
    decreases events.len(),
{
    if events.len() > 0 {
        waits_end_once(control, events.drop_last());
    }
}

/// The worker of an earlier wait can neither end a later one nor publish anything.
pub proof fn old_workers_change_nothing(
    control: ControlView,
    generation: Seq<char>,
    result: SignalResultView,
    now: u64,
)
    requires
        control.pending is Some ==> control.pending->0.generation != generation,
    ensures
        control.finishes(generation, result) == (control, None::<TerminalView>),
        control.loses_worker(generation, now) == (control, None::<TerminalView>),
{
}

/// A session that closes publishes the cancellation of its pending wait, and nothing afterwards.
pub proof fn closing_cancels_the_pending_wait(control: ControlView, now: u64, event: ControlEvent)
    requires
        !control.closed,
    ensures
        ({
            let (closed, terminal) = control.stops(now);
            &&& closed.closed && closed.pending is None
            &&& terminal is Some <==> control.pending is Some
            &&& terminal is Some ==> terminal->0.result is Cancelled
            &&& closed.takes(event).1 is None
            &&& closed.refuses() is Some
        }),
{
}

} // verus!
