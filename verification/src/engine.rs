//! The single-owner session engine: frames, actions, their cache and their publication.
//!
//! The engine performs no input or output. It answers a request, or names the operation that has
//! to be performed next; the operation's end is handed back and leads to the next one. One
//! request is served at a time. Times are readings of one monotonic clock, in nanoseconds.
use vstd::prelude::*;

use crate::frame::{
    bytes_view, encode_png, encoded_frame, frames_equal, invalid_frame, rgb_png,
    validate_captured_frame, CapturedFrame, FrameView,
};
use crate::protocol::{
    error_view, failure, same_request, text_view, ActOutcome, ActOutcomeView, ActRequest,
    ActRequestView, ActStatus, Action, ActionView, CoordinateSpace, CuError, CuErrorView,
    DaemonRequest, DaemonRequestView, DaemonResponse, DaemonResponseView, ErrorCode, FrameStatus,
    FrameStatusView, Observation, ObservationView, Rect, RequestEnvelope, ResponseEnvelope,
    ResponseEnvelopeView, ResponseResult, ResponseResultView, SettlePolicy, Viewport, WaitOutcome,
    WaitOutcomeView, WaitRequest, WaitRequestView,
};
use crate::store::{
    frame_id, frame_name, frame_path, internal, internal_error, joined_error, published_path,
    temporary_path, unpublished_path, MIN_RETAINED_FRAMES,
};
use crate::text::{all_hex, decimal, push_decimal, same_text};
use crate::validate::{
    act_failure, refusal, settle_failure, validate_act_request, validate_settle_policy,
    validate_wait_request, wait_failure,
};
use crate::wait::{
    wait_begun, PublicationView, WaitPublication, WaitTracker, NANOS_PER_MILLI,
};
use crate::watch::WatchMask;

verus! {

/// Most action results that are kept for retries.
pub const MAX_CACHED_ACTIONS: usize = 64;

/// A screen that can be captured and that takes input.
pub trait Desktop {
    /// Capture the target as a dense RGB frame.
    fn capture(&mut self) -> Result<CapturedFrame, CuError>;

    /// Validate backend-specific action support before a batch starts.
    fn validate(&self, action: &Action) -> Result<(), CuError>;

    /// Inject one validated input action into the target.
    fn execute(&mut self, action: &Action, viewport: Viewport) -> Result<(), CuError>;
}

/// The latest observation with the frame that it shows.
pub struct PublishedFrame {
    pub observation: Observation,
    pub frame: CapturedFrame,
}

/// The result of one action request, kept for its retries.
pub struct CachedAction {
    pub request_id: String,
    pub request: DaemonRequest,
    pub response: ResponseEnvelope,
}

/// A cached result with its texts as sequences.
pub struct CachedView {
    pub request_id: Seq<char>,
    pub request: DaemonRequestView,
    pub response: ResponseEnvelopeView,
}

impl View for CachedAction {
    type V = CachedView;

    open spec fn view(&self) -> CachedView {
        CachedView {
            request_id: self.request_id@,
            request: self.request@,
            response: self.response@,
        }
    }
}

/// The views of the cached results.
pub open spec fn cached_views(cache: Seq<CachedAction>) -> Seq<CachedView> {
    Seq::new(cache.len(), |i: int| cache[i]@)
}

/// One action batch under way.
pub struct ActRun {
    pub request_id: String,
    pub request: ActRequest,
    pub viewport: Viewport,
    /// Number of leading actions that executed.
    pub executed: usize,
    /// The failure that stopped the batch after at least one action.
    pub failure: Option<CuError>,
}

/// An action batch with its texts as sequences.
pub struct ActRunView {
    pub request_id: Seq<char>,
    pub request: ActRequestView,
    pub viewport: Viewport,
    pub executed: usize,
    pub failure: Option<CuErrorView>,
}

impl View for ActRun {
    type V = ActRunView;

    open spec fn view(&self) -> ActRunView {
        ActRunView {
            request_id: self.request_id@,
            request: self.request@,
            viewport: self.viewport,
            executed: self.executed,
            failure: error_view(self.failure),
        }
    }
}

/// A capture that waits for the screen to stay unchanged.
pub struct SettleRun {
    pub policy: SettlePolicy,
    pub started_at: u64,
    pub previous: Option<CapturedFrame>,
}

/// A settling capture with its frame as sequences.
pub struct SettleView {
    pub policy: SettlePolicy,
    pub started_at: u64,
    pub previous: Option<FrameView>,
}

impl SettleView {
    /// The time from which a frame that still changes is shown as it is.
    pub open spec fn deadline(self) -> int {
        self.started_at + self.policy.timeout_ms * NANOS_PER_MILLI
    }
}

impl View for SettleRun {
    type V = SettleView;

    open spec fn view(&self) -> SettleView {
        SettleView {
            policy: self.policy,
            started_at: self.started_at,
            previous: match self.previous {
                Some(frame) => Some(frame@),
                None => None,
            },
        }
    }
}

/// What a frame is published for.
pub enum Purpose {
    Observe { request_id: String },
    Act { act: ActRun },
    Wait { elapsed_ms: u64, activity_bbox: Rect },
}

/// A purpose with its texts as sequences.
pub enum PurposeView {
    Observe { request_id: Seq<char> },
    Act { act: ActRunView },
    Wait { elapsed_ms: u64, activity_bbox: Rect },
}

impl View for Purpose {
    type V = PurposeView;

    open spec fn view(&self) -> PurposeView {
        match *self {
            Purpose::Observe { request_id } => PurposeView::Observe { request_id: request_id@ },
            Purpose::Act { act } => PurposeView::Act { act: act@ },
            Purpose::Wait { elapsed_ms, activity_bbox } => PurposeView::Wait {
                elapsed_ms,
                activity_bbox,
            },
        }
    }
}

/// What room in the frame store is made for.
pub enum Reserved {
    /// The first action of a batch.
    Input { act: ActRun },
    /// A captured frame that is not encoded yet.
    Observation { request_id: String, frame: CapturedFrame, settled: bool },
    /// An encoded frame of a wait.
    Change {
        frame: CapturedFrame,
        settled: bool,
        png: Vec<u8>,
        elapsed_ms: u64,
        activity_bbox: Rect,
    },
}

/// What room is made for, with texts and bytes as sequences.
pub enum ReservedView {
    Input { act: ActRunView },
    Observation { request_id: Seq<char>, frame: FrameView, settled: bool },
    Change {
        frame: FrameView,
        settled: bool,
        png: Seq<u8>,
        elapsed_ms: u64,
        activity_bbox: Rect,
    },
}

impl View for Reserved {
    type V = ReservedView;

    open spec fn view(&self) -> ReservedView {
        match *self {
            Reserved::Input { act } => ReservedView::Input { act: act@ },
            Reserved::Observation { request_id, frame, settled } => ReservedView::Observation {
                request_id: request_id@,
                frame: frame@,
                settled,
            },
            Reserved::Change { frame, settled, png, elapsed_ms, activity_bbox } =>
                ReservedView::Change {
                    frame: frame@,
                    settled,
                    png: png@,
                    elapsed_ms,
                    activity_bbox,
                },
        }
    }
}

/// The request under way and the operation whose end it awaits.
pub enum Job {
    Idle,
    /// Awaits whether a replayed result's image is still there.
    Replaying { response: ResponseEnvelope },
    /// Awaits the backend's judgement of action `next`.
    Checking { act: ActRun, next: usize },
    /// Awaits the removal of the oldest retained frame.
    Reserving { reserved: Reserved },
    /// Awaits the end of action `executed`.
    Performing { act: ActRun },
    /// Awaits a capture, or the end of the pause before it.
    Settling { purpose: Purpose, run: SettleRun },
    /// Awaits the publication of a frame's image.
    Storing { purpose: Purpose, observation: Observation, frame: CapturedFrame },
}

/// A job with its texts as sequences.
pub enum JobView {
    Idle,
    Replaying { response: ResponseEnvelopeView },
    Checking { act: ActRunView, next: usize },
    Reserving { reserved: ReservedView },
    Performing { act: ActRunView },
    Settling { purpose: PurposeView, run: SettleView },
    Storing { purpose: PurposeView, observation: ObservationView, frame: FrameView },
}

impl View for Job {
    type V = JobView;

    open spec fn view(&self) -> JobView {
        match *self {
            Job::Idle => JobView::Idle,
            Job::Replaying { response } => JobView::Replaying { response: response@ },
            Job::Checking { act, next } => JobView::Checking { act: act@, next },
            Job::Reserving { reserved } => JobView::Reserving { reserved: reserved@ },
            Job::Performing { act } => JobView::Performing { act: act@ },
            Job::Settling { purpose, run } => JobView::Settling { purpose: purpose@, run: run@ },
            Job::Storing { purpose, observation, frame } => JobView::Storing {
                purpose: purpose@,
                observation: observation@,
                frame: frame@,
            },
        }
    }
}

/// The operation that the engine needs next, or its answer.
pub enum EngineOp {
    /// Capture the desktop.
    Capture,
    /// Pause for the given milliseconds.
    Sleep { ms: u64 },
    /// Ask the backend whether it can execute the action.
    CheckAction { action: Action },
    /// Execute the action on a frame of the given dimensions.
    Perform { action: Action, viewport: Viewport },
    /// Remove a retained image; one that is gone already counts as removed.
    Evict { path: String },
    /// Write an image under a temporary path and publish it by renaming.
    Store { temporary: String, path: String, png: Vec<u8> },
    /// Tell whether a retained image is still there.
    Probe { path: String },
    /// The answer to a request.
    Reply { response: ResponseEnvelope },
    /// The end of a wait's publication.
    WaitDone { result: Result<WaitOutcome, CuError> },
}

/// An operation with its texts and bytes as sequences.
pub enum OpView {
    Capture,
    Sleep { ms: u64 },
    CheckAction { action: ActionView },
    Perform { action: ActionView, viewport: Viewport },
    Evict { path: Seq<char> },
    Store { temporary: Seq<char>, path: Seq<char>, png: Seq<u8> },
    Probe { path: Seq<char> },
    Reply { response: ResponseEnvelopeView },
    WaitDone { result: Result<WaitOutcomeView, CuErrorView> },
}

impl View for EngineOp {
    type V = OpView;

    open spec fn view(&self) -> OpView {
        match *self {
            EngineOp::Capture => OpView::Capture,
            EngineOp::Sleep { ms } => OpView::Sleep { ms },
            EngineOp::CheckAction { action } => OpView::CheckAction { action: action@ },
            EngineOp::Perform { action, viewport } => OpView::Perform { action: action@, viewport },
            EngineOp::Evict { path } => OpView::Evict { path: path@ },
            EngineOp::Store { temporary, path, png } => OpView::Store {
                temporary: temporary@,
                path: path@,
                png: png@,
            },
            EngineOp::Probe { path } => OpView::Probe { path: path@ },
            EngineOp::Reply { response } => OpView::Reply { response: response@ },
            EngineOp::WaitDone { result } => OpView::WaitDone {
                result: match result {
                    Ok(outcome) => Ok(outcome@),
                    Err(error) => Err(error@),
                },
            },
        }
    }
}

/// The part of publishing an image that failed.
#[derive(Debug, Clone, Copy, PartialEq, Eq, Structural)]
pub enum StoreStage {
    Create,
    Write,
    Publish,
}

/// How an operation ended.
#[allow(inconsistent_fields)]
pub enum EngineEvent {
    Captured { result: Result<CapturedFrame, CuError> },
    Slept,
    Checked { result: Result<(), CuError> },
    Performed { result: Result<(), CuError> },
    /// The operating system's diagnostic where the removal failed.
    Evicted { fault: Option<String> },
    /// The failed part and the operating system's diagnostic where the publication failed.
    Stored { fault: Option<(StoreStage, String)> },
    Probed { present: bool },
}

/// An operation's end with its texts as sequences.
#[allow(inconsistent_fields)]
pub enum EventView {
    Captured { result: Result<FrameView, CuErrorView> },
    Slept,
    Checked { refused: Option<CuErrorView> },
    Performed { refused: Option<CuErrorView> },
    Evicted { fault: Option<Seq<char>> },
    Stored { fault: Option<(StoreStage, Seq<char>)> },
    Probed { present: bool },
}

impl View for EngineEvent {
    type V = EventView;

    open spec fn view(&self) -> EventView {
        match *self {
            EngineEvent::Captured { result } => EventView::Captured {
                result: match result {
                    Ok(frame) => Ok(frame@),
                    Err(error) => Err(error@),
                },
            },
            EngineEvent::Slept => EventView::Slept,
            EngineEvent::Checked { result } => EventView::Checked { refused: refusal(result) },
            EngineEvent::Performed { result } => EventView::Performed { refused: refusal(result) },
            EngineEvent::Evicted { fault } => EventView::Evicted { fault: text_view(fault) },
            EngineEvent::Stored { fault } => EventView::Stored {
                fault: match fault {
                    Some((stage, detail)) => Some((stage, detail@)),
                    None => None,
                },
            },
            EngineEvent::Probed { present } => EventView::Probed { present },
        }
    }
}

/// A single-owner computer-use session.
pub struct Engine {
    pub profile: Option<String>,
    /// Thirty-two hexadecimal digits that no other session has.
    pub session: String,
    /// Number of the last frame that was to be published.
    pub revision: u64,
    pub latest: Option<PublishedFrame>,
    /// Action results, oldest first.
    pub completed: Vec<CachedAction>,
    /// Directory of the retained images.
    pub directory: String,
    /// Paths of the retained images, oldest first.
    pub retained: Vec<String>,
    pub max_frames: usize,
    pub job: Job,
}

/// A session with its texts, frames and lists as sequences.
pub struct EngineView {
    pub profile: Option<Seq<char>>,
    pub session: Seq<char>,
    pub revision: u64,
    pub latest: Option<(ObservationView, FrameView)>,
    pub completed: Seq<CachedView>,
    pub directory: Seq<char>,
    pub retained: Seq<Seq<char>>,
    pub max_frames: usize,
    pub job: JobView,
}

/// The view of a published frame.
pub open spec fn published_view(latest: Option<PublishedFrame>) -> Option<
    (ObservationView, FrameView),
> {
    match latest {
        Some(latest) => Some((latest.observation@, latest.frame@)),
        None => None,
    }
}

impl View for Engine {
    type V = EngineView;

    open spec fn view(&self) -> EngineView {
        EngineView {
            profile: text_view(self.profile),
            session: self.session@,
            revision: self.revision,
            latest: published_view(self.latest),
            completed: cached_views(self.completed@),
            directory: self.directory@,
            retained: crate::protocol::texts(self.retained@),
            max_frames: self.max_frames,
            job: self.job@,
        }
    }
}

/// An answer under the identifier of its request.
pub open spec fn answer(request_id: Seq<char>, result: ResponseResultView) -> OpView {
    OpView::Reply { response: ResponseEnvelopeView { request_id, result } }
}

/// A failure as the answer to a request.
pub open spec fn failed_answer(request_id: Seq<char>, error: CuErrorView) -> OpView {
    answer(request_id, ResponseResultView::Error(error))
}

/// The cached result under an identifier.
pub open spec fn cached_under(cache: Seq<CachedView>, request_id: Seq<char>) -> Option<CachedView>
    decreases cache.len(),
{
    if cache.len() == 0 {
        None
    } else if cache.last().request_id == request_id {
        Some(cache.last())
    } else {
        cached_under(cache.drop_last(), request_id)
    }
}

/// The cache with one more result; the oldest one leaves a full cache.
pub open spec fn cache_with(cache: Seq<CachedView>, entry: CachedView) -> Seq<CachedView> {
    let longer = cache.push(entry);
    if longer.len() > MAX_CACHED_ACTIONS {
        longer.drop_first()
    } else {
        longer
    }
}

/// A replayed result whose image is gone.
pub open spec fn expired(response: ResponseEnvelopeView) -> ResponseEnvelopeView {
    match response.result {
        ResponseResultView::Success(DaemonResponseView::Act(outcome)) => ResponseEnvelopeView {
            result: ResponseResultView::Success(
                DaemonResponseView::Act(
                    ActOutcomeView { image_expired: true, observation: None, ..outcome },
                ),
            ),
            ..response
        },
        _ => response,
    }
}

/// The image of a replayed result.
pub open spec fn replayed_image(response: ResponseEnvelopeView) -> Option<Seq<char>> {
    match response.result {
        ResponseResultView::Success(
            DaemonResponseView::Act(ActOutcomeView { observation: Some(observation), .. }),
        ) => Some(observation.image_path),
        _ => None,
    }
}

/// The failure of a request that names a frame other than the latest.
pub open spec fn stale(expected: Seq<char>, actual: Seq<char>) -> CuErrorView {
    failure(
        ErrorCode::StaleFrame,
        "expected "@ + expected + ", but the latest frame is "@ + actual,
    )
}

/// The failure of a batch whose outcome cannot be shown, since the frame after it could not be
/// captured or published.
pub open spec fn lost_frame(act: ActRunView, captured: bool, error: CuErrorView) -> CuErrorView {
    let count = decimal(act.executed as nat);
    failure(
        ErrorCode::Indeterminate,
        match act.failure {
            Some(stopped) => count + " actions executed; action failed with "@ + stopped.text()
                + (if captured {
                "; post-failure frame could not be published: "@
            } else {
                "; post-failure capture also failed with "@
            }) + error.text(),
            None => "all "@ + count + " actions executed, but the resulting frame could not be "@
                + (if captured {
                "published: "@
            } else {
                "captured: "@
            }) + error.text(),
        },
    ).after(act.executed)
}

/// The result of a batch whose resulting frame was published.
pub open spec fn batch_outcome(act: ActRunView, observation: ObservationView) -> ActOutcomeView {
    ActOutcomeView {
        status: if act.failure is Some {
            ActStatus::Partial
        } else {
            ActStatus::Complete
        },
        executed: act.executed,
        action_error: match act.failure {
            Some(stopped) => Some(stopped.after(act.executed)),
            None => None,
        },
        image_expired: false,
        observation: Some(observation),
    }
}

/// The failure of publishing an image.
pub open spec fn store_failure(stage: StoreStage, detail: Seq<char>) -> CuErrorView {
    match stage {
        StoreStage::Create => internal("failed to create captured PNG: "@ + detail),
        StoreStage::Write => internal("failed to write captured PNG: "@ + detail),
        StoreStage::Publish => internal("failed to publish captured PNG: "@ + detail),
    }
}

/// The observation of a frame under an identifier.
pub open spec fn observed(
    id: Seq<char>,
    directory: Seq<char>,
    frame: FrameView,
    settled: bool,
) -> ObservationView {
    ObservationView {
        frame_id: id,
        target: frame.target,
        width: frame.width,
        height: frame.height,
        coordinate_space: CoordinateSpace::FramePixels,
        settled,
        image_path: frame_path(directory, id),
    }
}

/// Whether an identifier is that of a frame of a session.
pub open spec fn named_in(session: Seq<char>, id: Seq<char>) -> bool {
    exists|revision: u64| id == #[trigger] frame_name(session, revision)
}

impl ActRunView {
    /// Whether the batch is non-empty and no action of it executed yet.
    pub open spec fn fresh(self) -> bool {
        0 < self.request.actions.len() <= 16 && self.executed == 0 && self.failure is None
    }

    /// Whether the batch may execute its next action.
    pub open spec fn running(self) -> bool {
        self.executed < self.request.actions.len() <= 16 && self.failure is None
    }

    /// Whether the batch has come to its end: every action executed, or a failure stopped it
    /// after at least one.
    pub open spec fn stopped(self) -> bool {
        self.request.actions.len() <= 16 && if self.failure is Some {
            0 < self.executed < self.request.actions.len()
        } else {
            self.executed == self.request.actions.len()
        }
    }
}

impl EngineView {
    /// Whether the identifiers of the cached results are distinct.
    pub open spec fn distinct_results(self) -> bool {
        forall|i: int, j: int|
            0 <= i < j < self.completed.len() ==> self.completed[i].request_id
                != self.completed[j].request_id
    }

    /// Whether the request under way is one that the engine can be at.
    pub open spec fn job_ok(self) -> bool {
        match self.job {
            JobView::Idle => true,
            JobView::Replaying { .. } => true,
            JobView::Checking { act, next } => act.fresh() && next < act.request.actions.len()
                && settle_failure(act.request.settle) is None && cached_under(
                self.completed,
                act.request_id,
            ) is None,
            JobView::Reserving { reserved } => self.retained.len() == self.max_frames
                && match reserved {
                ReservedView::Input { act } => act.fresh() && settle_failure(act.request.settle)
                    is None && cached_under(self.completed, act.request_id) is None,
                ReservedView::Observation { .. } => true,
                ReservedView::Change { frame, .. } => frame.valid(),
            },
            JobView::Performing { act } => act.running() && settle_failure(act.request.settle)
                is None && cached_under(self.completed, act.request_id) is None
                && self.retained.len() < self.max_frames,
            JobView::Settling { purpose, run } => settle_failure(run.policy) is None
                && match purpose {
                PurposeView::Observe { .. } => true,
                PurposeView::Act { act } => act.stopped() && cached_under(
                    self.completed,
                    act.request_id,
                ) is None && self.retained.len() < self.max_frames,
                PurposeView::Wait { .. } => false,
            },
            JobView::Storing { purpose, observation, frame } => {
                &&& frame.valid()
                &&& observation.width == frame.width
                &&& observation.height == frame.height
                &&& observation.frame_id == frame_name(self.session, self.revision)
                &&& self.retained.len() < self.max_frames
                &&& purpose matches PurposeView::Act { act } ==> act.stopped() && cached_under(
                    self.completed,
                    act.request_id,
                ) is None
            },
        }
    }

    /// The invariant of a session: it retains at most `max_frames` images and keeps at most 64
    /// results under distinct identifiers, its latest frame is one that can be compared and has an
    /// identifier of the session, and the request under way is at a possible place.
    pub open spec fn well_formed(self) -> bool {
        self.sound() && self.job_ok()
    }

    /// The part of the invariant that does not speak of the request under way.
    pub open spec fn sound(self) -> bool {
        &&& all_hex(self.session, 32)
        &&& self.max_frames >= MIN_RETAINED_FRAMES
        &&& self.retained.len() <= self.max_frames
        &&& self.completed.len() <= MAX_CACHED_ACTIONS
        &&& self.distinct_results()
        &&& self.latest matches Some((observation, frame)) ==> {
            &&& frame.valid()
            &&& observation.width == frame.width
            &&& observation.height == frame.height
            &&& named_in(self.session, observation.frame_id)
        }
    }

    /// Whether no request is under way.
    pub open spec fn idle(self) -> bool {
        self.job is Idle
    }

    /// The session at another job.
    pub open spec fn at(self, job: JobView) -> EngineView {
        EngineView { job, ..self }
    }

    /// The session at rest, with its last operation.
    pub open spec fn ends(self, op: OpView) -> (EngineView, OpView) {
        (self.at(JobView::Idle), op)
    }

    /// A batch is over: its result is cached and answered.
    pub open spec fn ends_batch(
        self,
        act: ActRunView,
        result: Result<ActOutcomeView, CuErrorView>,
    ) -> (EngineView, OpView) {
        let response = ResponseEnvelopeView {
            request_id: act.request_id,
            result: match result {
                Ok(outcome) => ResponseResultView::Success(DaemonResponseView::Act(outcome)),
                Err(error) => ResponseResultView::Error(error),
            },
        };
        let entry = CachedView {
            request_id: act.request_id,
            request: DaemonRequestView::Act(act.request),
            response,
        };
        EngineView { completed: cache_with(self.completed, entry), ..self }.ends(
            OpView::Reply { response },
        )
    }

    /// The frame for a purpose could not be captured, or could not be published.
    pub open spec fn loses_frame(self, purpose: PurposeView, captured: bool, error: CuErrorView) -> (
        EngineView,
        OpView,
    ) {
        match purpose {
            PurposeView::Observe { request_id } => self.ends(failed_answer(request_id, error)),
            PurposeView::Act { act } => self.ends_batch(act, Err(lost_frame(act, captured, error))),
            PurposeView::Wait { .. } => self.ends(OpView::WaitDone { result: Err(error) }),
        }
    }

    /// A frame was published for a purpose.
    pub open spec fn delivers(self, purpose: PurposeView, observation: ObservationView) -> (
        EngineView,
        OpView,
    ) {
        match purpose {
            PurposeView::Observe { request_id } => self.ends(
                answer(
                    request_id,
                    ResponseResultView::Success(DaemonResponseView::Observe(observation)),
                ),
            ),
            PurposeView::Act { act } => self.ends_batch(act, Ok(batch_outcome(act, observation))),
            PurposeView::Wait { elapsed_ms, activity_bbox } => self.ends(
                OpView::WaitDone {
                    result: Ok(
                        WaitOutcomeView::Changed { elapsed_ms, activity_bbox, observation },
                    ),
                },
            ),
        }
    }

    /// An encoded frame gets the next identifier and is to be stored.
    pub open spec fn stores(
        self,
        purpose: PurposeView,
        frame: FrameView,
        settled: bool,
        png: Seq<u8>,
    ) -> (EngineView, OpView) {
        let revision = self.revision.wrapping_add(1);
        let numbered = EngineView { revision, ..self };
        let id = frame_name(self.session, revision);
        if self.retained.len() >= self.max_frames {
            numbered.loses_frame(
                purpose,
                true,
                internal("frame capacity was not reserved before publication"@),
            )
        } else {
            let observation = observed(id, self.directory, frame, settled);
            (
                numbered.at(JobView::Storing { purpose, observation, frame }),
                OpView::Store {
                    temporary: temporary_path(self.directory, id),
                    path: frame_path(self.directory, id),
                    png,
                },
            )
        }
    }

    /// A frame was encoded and is to be stored, or could not be encoded.
    pub open spec fn publishes_encoded(
        self,
        purpose: PurposeView,
        frame: FrameView,
        settled: bool,
        encoded: Result<Seq<u8>, CuErrorView>,
    ) -> (EngineView, OpView) {
        match encoded {
            Ok(png) => self.stores(purpose, frame, settled, png),
            Err(error) => self.loses_frame(purpose, true, error),
        }
    }

    /// A captured frame is encoded, given what the encoder returned for it, and is to be stored.
    pub open spec fn publishes(
        self,
        purpose: PurposeView,
        frame: FrameView,
        settled: bool,
        png: Result<Seq<u8>, Seq<char>>,
    ) -> (EngineView, OpView) {
        if !frame.valid() {
            self.loses_frame(purpose, true, invalid_frame())
        } else {
            self.publishes_encoded(purpose, frame, settled, encoded_frame(frame, png))
        }
    }

    /// The next action of a batch is to be executed.
    pub open spec fn performs(self, act: ActRunView) -> (EngineView, OpView) {
        (
            self.at(JobView::Performing { act }),
            OpView::Perform {
                action: act.request.actions[act.executed as int],
                viewport: act.viewport,
            },
        )
    }

    /// There is room in the store for what it was made for.
    pub open spec fn proceeds(self, reserved: ReservedView) -> (EngineView, OpView) {
        match reserved {
            ReservedView::Input { act } => self.performs(act),
            ReservedView::Observation { request_id, frame, settled } => self.publishes(
                PurposeView::Observe { request_id },
                frame,
                settled,
                rgb_png(frame.width, frame.height, frame.pixels),
            ),
            ReservedView::Change { frame, settled, png, elapsed_ms, activity_bbox } => self.stores(
                PurposeView::Wait { elapsed_ms, activity_bbox },
                frame,
                settled,
                png,
            ),
        }
    }

    /// Room in the store is made where there is none: the oldest image goes first.
    pub open spec fn reserves(self, reserved: ReservedView) -> (EngineView, OpView) {
        if self.retained.len() >= self.max_frames {
            (
                self.at(JobView::Reserving { reserved }),
                OpView::Evict { path: self.retained[0] },
            )
        } else {
            self.proceeds(reserved)
        }
    }

    /// A removal that room is made by has failed.
    pub open spec fn loses_room(self, reserved: ReservedView, detail: Seq<char>) -> (
        EngineView,
        OpView,
    ) {
        let error = internal("failed to evict retained frame: "@ + detail);
        match reserved {
            ReservedView::Input { act } => self.ends_batch(act, Err(error)),
            ReservedView::Observation { request_id, .. } => self.ends(
                failed_answer(request_id, error),
            ),
            ReservedView::Change { .. } => self.ends(OpView::WaitDone { result: Err(error) }),
        }
    }

    /// The capture after a batch or for an observation begins.
    pub open spec fn settles(self, purpose: PurposeView, policy: SettlePolicy, now: u64) -> (
        EngineView,
        OpView,
    ) {
        (
            self.at(
                JobView::Settling {
                    purpose,
                    run: SettleView { policy, started_at: now, previous: None },
                },
            ),
            OpView::Capture,
        )
    }

    /// A frame was captured while the screen settles: it ends the capture where it equals the one
    /// before it or the time is up.
    pub open spec fn captures(
        self,
        purpose: PurposeView,
        run: SettleView,
        frame: FrameView,
        now: u64,
    ) -> (EngineView, OpView) {
        let again = (
            self.at(
                JobView::Settling {
                    purpose,
                    run: SettleView { previous: Some(frame), ..run },
                },
            ),
            OpView::Sleep { ms: run.policy.quiet_ms },
        );
        match run.previous {
            None => again,
            Some(previous) => {
                let same = frame.viewport() == previous.viewport() && frame.pixels
                    == previous.pixels;
                if same || run.deadline() <= now {
                    self.shows(purpose, frame, same)
                } else {
                    again
                }
            },
        }
    }

    /// The capture for a purpose is over.
    pub open spec fn shows(self, purpose: PurposeView, frame: FrameView, settled: bool) -> (
        EngineView,
        OpView,
    ) {
        match purpose {
            PurposeView::Observe { request_id } => self.reserves(
                ReservedView::Observation { request_id, frame, settled },
            ),
            _ => self.publishes(
                purpose,
                frame,
                settled,
                rgb_png(frame.width, frame.height, frame.pixels),
            ),
        }
    }

    /// Why an action request is refused before anything is done, if it is.
    pub open spec fn refuses_act(self, request: ActRequestView) -> Option<CuErrorView> {
        match self.latest {
            None => Some(
                failure(
                    ErrorCode::StaleFrame,
                    "observe the target before the first action"@,
                ),
            ),
            Some((observation, frame)) => if request.expected_frame_id != observation.frame_id {
                Some(stale(request.expected_frame_id, observation.frame_id))
            } else {
                act_failure(request, frame.viewport())
            },
        }
    }

    /// A batch begins, or is refused.
    pub open spec fn begins_batch(self, request_id: Seq<char>, request: ActRequestView) -> (
        EngineView,
        OpView,
    ) {
        let act = ActRunView {
            request_id,
            request,
            viewport: match self.latest {
                Some((_, frame)) => frame.viewport(),
                None => Viewport { width: 0, height: 0 },
            },
            executed: 0,
            failure: None,
        };
        match self.refuses_act(request) {
            Some(error) => self.ends_batch(act, Err(error)),
            None => (
                self.at(JobView::Checking { act, next: 0 }),
                OpView::CheckAction { action: request.actions[0] },
            ),
        }
    }

    /// The metadata of the latest frame.
    pub open spec fn status(self) -> Option<FrameStatusView> {
        match self.latest {
            Some((observation, _)) => Some(
                FrameStatusView {
                    frame_id: observation.frame_id,
                    width: observation.width,
                    height: observation.height,
                },
            ),
            None => None,
        }
    }

    /// A cached result is answered again.
    pub open spec fn replays(self, response: ResponseEnvelopeView) -> (EngineView, OpView) {
        match replayed_image(response) {
            None => self.ends(OpView::Reply { response }),
            Some(path) => if self.retained.contains(path) {
                (self.at(JobView::Replaying { response }), OpView::Probe { path })
            } else {
                self.ends(OpView::Reply { response: expired(response) })
            },
        }
    }

    /// What a request leads to.
    pub open spec fn handles(self, request_id: Seq<char>, request: DaemonRequestView, now: u64) -> (
        EngineView,
        OpView,
    ) {
        match cached_under(self.completed, request_id) {
            Some(cached) => if cached.request == request {
                self.replays(cached.response)
            } else {
                self.ends(
                    failed_answer(
                        request_id,
                        failure(
                            ErrorCode::ProtocolError,
                            "request_id was reused with a different request"@,
                        ),
                    ),
                )
            },
            None => match request {
                DaemonRequestView::Profile => self.ends(
                    answer(
                        request_id,
                        ResponseResultView::Success(DaemonResponseView::Profile(self.profile)),
                    ),
                ),
                DaemonRequestView::Status => self.ends(
                    answer(
                        request_id,
                        ResponseResultView::Success(DaemonResponseView::Status(self.status())),
                    ),
                ),
                DaemonRequestView::Observe(request) => match settle_failure(request.settle) {
                    Some(error) => self.ends(failed_answer(request_id, error)),
                    None => self.settles(
                        PurposeView::Observe { request_id },
                        request.settle,
                        now,
                    ),
                },
                DaemonRequestView::Act(request) => self.begins_batch(request_id, request),
                DaemonRequestView::Wait(_) => self.ends(
                    failed_answer(
                        request_id,
                        failure(
                            ErrorCode::ProtocolError,
                            "wait requests require the daemon's cooperative wait path"@,
                        ),
                    ),
                ),
            },
        }
    }

    /// Whether an event can be the end of the operation that is awaited.
    pub open spec fn awaits(self, event: EventView) -> bool {
        match self.job {
            JobView::Idle => false,
            JobView::Replaying { .. } => event is Probed,
            JobView::Checking { .. } => event is Checked,
            JobView::Reserving { .. } => event is Evicted,
            JobView::Performing { .. } => event is Performed,
            JobView::Settling { .. } => event is Captured || event is Slept,
            JobView::Storing { .. } => event is Stored,
        }
    }

    /// What the end of an operation leads to.
    pub open spec fn advances(self, event: EventView, now: u64) -> (EngineView, OpView) {
        match (self.job, event) {
            (JobView::Replaying { response }, EventView::Probed { present }) => self.ends(
                OpView::Reply {
                    response: if present {
                        response
                    } else {
                        expired(response)
                    },
                },
            ),
            (JobView::Checking { act, next }, EventView::Checked { refused }) => match refused {
                Some(error) => self.ends_batch(act, Err(error)),
                None => if next + 1 < act.request.actions.len() {
                    (
                        self.at(JobView::Checking { act, next: (next + 1) as usize }),
                        OpView::CheckAction { action: act.request.actions[next + 1] },
                    )
                } else {
                    self.reserves(ReservedView::Input { act })
                },
            },
            (JobView::Reserving { reserved }, EventView::Evicted { fault }) => match fault {
                Some(detail) => self.loses_room(reserved, detail),
                None => EngineView { retained: self.retained.drop_first(), ..self }.reserves(
                    reserved,
                ),
            },
            (JobView::Performing { act }, EventView::Performed { refused }) => match refused {
                Some(error) => if act.executed == 0 {
                    self.ends_batch(act, Err(error))
                } else {
                    let stopped = ActRunView { failure: Some(error), ..act };
                    self.settles(PurposeView::Act { act: stopped }, act.request.settle, now)
                },
                None => {
                    let further = ActRunView { executed: (act.executed + 1) as usize, ..act };
                    if further.executed < act.request.actions.len() {
                        self.performs(further)
                    } else {
                        self.settles(PurposeView::Act { act: further }, act.request.settle, now)
                    }
                },
            },
            (JobView::Settling { .. }, EventView::Slept) => (self, OpView::Capture),
            (JobView::Settling { purpose, run }, EventView::Captured { result }) => match result {
                Ok(frame) => self.captures(purpose, run, frame, now),
                Err(error) => self.loses_frame(purpose, false, error),
            },
            (JobView::Storing { purpose, observation, frame }, EventView::Stored { fault }) =>
                match fault {
                    Some((stage, detail)) => self.loses_frame(
                        purpose,
                        true,
                        store_failure(stage, detail),
                    ),
                    None => EngineView {
                        retained: self.retained.push(observation.image_path),
                        latest: Some((observation, frame)),
                        ..self
                    }.delivers(purpose, observation),
                },
            _ => (self, OpView::Capture),
        }
    }
}

proof fn absent_results(cache: Seq<CachedView>, request_id: Seq<char>)
    ensures
        cached_under(cache, request_id) is None <==> forall|i: int|
            0 <= i < cache.len() ==> (#[trigger] cache[i]).request_id != request_id,
    decreases cache.len(),
{
    if cache.len() > 0 {
        let shorter = cache.drop_last();
        let last = cache.len() - 1;
        absent_results(shorter, request_id);
        assert(cache.last() == cache[last]);
        assert forall|i: int| 0 <= i < shorter.len() implies #[trigger] cache[i] == shorter[i] by {
        }
        assert forall|i: int| 0 <= i < shorter.len() implies #[trigger] shorter[i] == cache[i] by {
        }
    }
}

/// Calls `uuid::Uuid::new_v4` and formats the value without hyphens.
///
/// Trusted: the text is 32 hexadecimal digits. Which ones is left to chance.
#[verifier::external_body]
fn new_session_id() -> (id: String)
    ensures
        all_hex(id@, 32),
{
    uuid::Uuid::new_v4().simple().to_string()
}

/// Whether a purpose fits the session: a batch has come to its end and is not cached yet.
pub open spec fn purpose_ok(engine: EngineView, purpose: PurposeView) -> bool {
    purpose matches PurposeView::Act { act } ==> act.stopped() && cached_under(
        engine.completed,
        act.request_id,
    ) is None
}

impl Engine {
    /// Create a single-owner session that retains at most `max_frames` images in `frame_dir`.
    pub fn new(frame_dir: &str, max_frames: usize) -> (result: Result<Self, CuError>)
        ensures
            max_frames < MIN_RETAINED_FRAMES ==> (result matches Err(error) && error@ == internal(
                "max_frames must be at least 2"@,
            )),
            max_frames >= MIN_RETAINED_FRAMES ==> (result matches Ok(engine) && {
                &&& engine@.well_formed()
                &&& engine@ == (EngineView {
                    profile: None,
                    session: engine@.session,
                    revision: 0,
                    latest: None,
                    completed: Seq::empty(),
                    directory: frame_dir@,
                    retained: Seq::empty(),
                    max_frames,
                    job: JobView::Idle,
                })
            }),
    {
        if max_frames < MIN_RETAINED_FRAMES {
            return Err(internal_error("max_frames must be at least 2"));
        }
        let engine = Engine {
            profile: None,
            session: new_session_id(),
            revision: 0,
            latest: None,
            completed: Vec::new(),
            directory: frame_dir.to_owned(),
            retained: Vec::new(),
            max_frames,
            job: Job::Idle,
        };
        assert(engine@.completed =~= Seq::empty());
        assert(engine@.retained =~= Seq::empty());
        Ok(engine)
    }

    /// Attach trusted desktop-operating instructions to this session.
    pub fn with_profile(self, profile: Option<String>) -> (engine: Self)
        ensures
            engine@ == (EngineView { profile: text_view(profile), ..self@ }),
    {
        let mut engine = self;
        engine.profile = profile;
        engine
    }

    /// The latest observation.
    pub fn latest(&self) -> (latest: Option<&Observation>)
        ensures
            match (latest, self@.latest) {
                (Some(observation), Some((view, _))) => observation@ == view,
                (None, None) => true,
                _ => false,
            },
    {
        match &self.latest {
            Some(latest) => Some(&latest.observation),
            None => None,
        }
    }

    /// Whether no request is under way.
    pub fn is_idle(&self) -> (idle: bool)
        ensures
            idle == self@.idle(),
    {
        match &self.job {
            Job::Idle => true,
            _ => false,
        }
    }

    /// Whether an event can be the end of the operation that is awaited.
    pub fn is_awaiting(&self, event: &EngineEvent) -> (awaited: bool)
        ensures
            awaited == self@.awaits(event@),
    {
        match (&self.job, event) {
            (Job::Replaying { .. }, EngineEvent::Probed { .. }) => true,
            (Job::Checking { .. }, EngineEvent::Checked { .. }) => true,
            (Job::Reserving { .. }, EngineEvent::Evicted { .. }) => true,
            (Job::Performing { .. }, EngineEvent::Performed { .. }) => true,
            (Job::Settling { .. }, EngineEvent::Captured { .. }) => true,
            (Job::Settling { .. }, EngineEvent::Slept) => true,
            (Job::Storing { .. }, EngineEvent::Stored { .. }) => true,
            _ => false,
        }
    }

    /// The index of the cached result under an identifier.
    fn find_cached(&self, request_id: &str) -> (found: Option<usize>)
        ensures
            match found {
                Some(i) => i < self.completed.len() && cached_under(
                    self@.completed,
                    request_id@,
                ) == Some(self.completed[i as int]@),
                None => cached_under(self@.completed, request_id@) is None,
            },
    {
        let ghost views = self@.completed;
        let mut n: usize = self.completed.len();
        assert(views.take(n as int) =~= views);
        while n > 0
            invariant
                n <= self.completed.len(),
                views == self@.completed,
                cached_under(views, request_id@) == cached_under(views.take(n as int), request_id@),
            decreases n,
        {
            assert(views.take(n as int).last() == self.completed[n - 1]@);
            assert(views.take(n as int).drop_last() =~= views.take(n - 1));
            if same_text(&self.completed[n - 1].request_id, request_id) {
                return Some(n - 1);
            }
            n -= 1;
        }
        None
    }

    /// Whether an image is among the retained ones.
    fn retains(&self, path: &str) -> (found: bool)
        ensures
            found == self@.retained.contains(path@),
    {
        let mut n: usize = 0;
        while n < self.retained.len()
            invariant
                n <= self.retained.len(),
                forall|i: int| 0 <= i < n ==> (#[trigger] self@.retained[i]) != path@,
            decreases self.retained.len() - n,
        {
            assert(self@.retained[n as int] == self.retained[n as int]@);
            if same_text(&self.retained[n], path) {
                return true;
            }
            n += 1;
        }
        false
    }

    /// Keep a result for retries; the oldest one leaves a full cache.
    fn cache_action(&mut self, request_id: &str, request: ActRequest, response: ResponseEnvelope)
        requires
            old(self)@.sound(),
            cached_under(old(self)@.completed, request_id@) is None,
        ensures
            final(self)@ == (EngineView {
                completed: cache_with(
                    old(self)@.completed,
                    CachedView {
                        request_id: request_id@,
                        request: DaemonRequestView::Act(request@),
                        response: response@,
                    },
                ),
                ..old(self)@
            }),
            final(self)@.sound(),
    {
        proof {
            absent_results(self@.completed, request_id@);
        }
        let ghost before = self@;
        let entry = CachedAction {
            request_id: request_id.to_owned(),
            request: DaemonRequest::Act(request),
            response,
        };
        let ghost view = entry@;
        self.completed.push(entry);
        assert(self@.completed =~= before.completed.push(view));
        if self.completed.len() > MAX_CACHED_ACTIONS {
            let ghost longer = self@.completed;
            self.completed.remove(0);
            assert(self@.completed =~= longer.drop_first());
        }
    }

    /// Answer a batch and keep its result for retries.
    fn end_batch(&mut self, act: ActRun, result: Result<ActOutcome, CuError>) -> (op: EngineOp)
        requires
            old(self)@.sound(),
            cached_under(old(self)@.completed, act.request_id@) is None,
        ensures
            (final(self)@, op@) == old(self)@.ends_batch(
                act@,
                match result {
                    Ok(outcome) => Ok(outcome@),
                    Err(error) => Err(error@),
                },
            ),
            final(self)@.well_formed(),
    {
        let response = ResponseEnvelope {
            request_id: act.request_id.clone(),
            result: match result {
                Ok(outcome) => ResponseResult::Success(DaemonResponse::Act(outcome)),
                Err(error) => ResponseResult::Error(error),
            },
        };
        let copy = response.clone();
        self.cache_action(&act.request_id, act.request, copy);
        self.job = Job::Idle;
        EngineOp::Reply { response }
    }

    fn fail_request(&mut self, request_id: String, error: CuError) -> (op: EngineOp)
        requires
            old(self)@.sound(),
        ensures
            (final(self)@, op@) == old(self)@.ends(failed_answer(request_id@, error@)),
            final(self)@.well_formed(),
    {
        self.job = Job::Idle;
        EngineOp::Reply {
            response: ResponseEnvelope { request_id, result: ResponseResult::Error(error) },
        }
    }

    fn answer_request(&mut self, request_id: String, response: DaemonResponse) -> (op: EngineOp)
        requires
            old(self)@.sound(),
        ensures
            (final(self)@, op@) == old(self)@.ends(
                answer(request_id@, ResponseResultView::Success(response@)),
            ),
            final(self)@.well_formed(),
    {
        self.job = Job::Idle;
        EngineOp::Reply {
            response: ResponseEnvelope { request_id, result: ResponseResult::Success(response) },
        }
    }

    fn end_wait(&mut self, result: Result<WaitOutcome, CuError>) -> (op: EngineOp)
        requires
            old(self)@.sound(),
        ensures
            (final(self)@, op@) == old(self)@.ends(
                OpView::WaitDone {
                    result: match result {
                        Ok(outcome) => Ok(outcome@),
                        Err(error) => Err(error@),
                    },
                },
            ),
            final(self)@.well_formed(),
    {
        self.job = Job::Idle;
        EngineOp::WaitDone { result }
    }

    /// The frame for a purpose could not be captured, or could not be published.
    fn lose_frame(&mut self, purpose: Purpose, captured: bool, error: CuError) -> (op: EngineOp)
        requires
            old(self)@.sound(),
            purpose_ok(old(self)@, purpose@),
        ensures
            (final(self)@, op@) == old(self)@.loses_frame(purpose@, captured, error@),
            final(self)@.well_formed(),
    {
        match purpose {
            Purpose::Observe { request_id } => self.fail_request(request_id, error),
            Purpose::Wait { .. } => self.end_wait(Err(error)),
            Purpose::Act { act } => {
                let lost = lost_frame_error(&act, captured, &error);
                self.end_batch(act, Err(lost))
            },
        }
    }

    /// A frame was published for a purpose.
    fn deliver(&mut self, purpose: Purpose, observation: Observation) -> (op: EngineOp)
        requires
            old(self)@.sound(),
            purpose_ok(old(self)@, purpose@),
        ensures
            (final(self)@, op@) == old(self)@.delivers(purpose@, observation@),
            final(self)@.well_formed(),
    {
        match purpose {
            Purpose::Observe { request_id } => self.answer_request(
                request_id,
                DaemonResponse::Observe(observation),
            ),
            Purpose::Wait { elapsed_ms, activity_bbox } => self.end_wait(
                Ok(WaitOutcome::Changed { elapsed_ms, activity_bbox, observation }),
            ),
            Purpose::Act { act } => {
                let outcome = ActOutcome {
                    status: if act.failure.is_some() {
                        ActStatus::Partial
                    } else {
                        ActStatus::Complete
                    },
                    executed: act.executed,
                    action_error: match &act.failure {
                        Some(error) => Some(error.clone().with_executed(act.executed)),
                        None => None,
                    },
                    image_expired: false,
                    observation: Some(observation),
                };
                self.end_batch(act, Ok(outcome))
            },
        }
    }

    /// Give an encoded frame the next identifier and ask for its storage.
    fn persist_encoded_frame(
        &mut self,
        purpose: Purpose,
        frame: CapturedFrame,
        settled: bool,
        png: Vec<u8>,
    ) -> (op: EngineOp)
        requires
            old(self)@.sound(),
            purpose_ok(old(self)@, purpose@),
            frame@.valid(),
        ensures
            (final(self)@, op@) == old(self)@.stores(purpose@, frame@, settled, png@),
            final(self)@.well_formed(),
    {
        self.revision = self.revision.wrapping_add(1);
        let id = frame_id(&self.session, self.revision);
        if self.retained.len() >= self.max_frames {
            let error = internal_error("frame capacity was not reserved before publication");
            return self.lose_frame(purpose, true, error);
        }
        let path = published_path(&self.directory, &id);
        let temporary = unpublished_path(&self.directory, &id);
        let observation = Observation {
            frame_id: id,
            target: frame.target.clone(),
            width: frame.width,
            height: frame.height,
            coordinate_space: CoordinateSpace::FramePixels,
            settled,
            image_path: path.clone(),
        };
        self.job = Job::Storing { purpose, observation, frame };
        EngineOp::Store { temporary, path, png }
    }

    /// Ask for the storage of a frame, given what encoding it returned.
    pub fn publish_encoded(
        &mut self,
        purpose: Purpose,
        frame: CapturedFrame,
        settled: bool,
        encoded: Result<Vec<u8>, CuError>,
    ) -> (op: EngineOp)
        requires
            old(self)@.sound(),
            purpose_ok(old(self)@, purpose@),
            frame@.valid(),
        ensures
            (final(self)@, op@) == old(self)@.publishes_encoded(
                purpose@,
                frame@,
                settled,
                bytes_view(encoded),
            ),
            final(self)@.well_formed(),
    {
        match encoded {
            Ok(png) => self.persist_encoded_frame(purpose, frame, settled, png),
            Err(error) => self.lose_frame(purpose, true, error),
        }
    }

    /// Encode a captured frame and ask for its storage.
    fn persist_frame(&mut self, purpose: Purpose, frame: CapturedFrame, settled: bool) -> (op:
        EngineOp)
        requires
            old(self)@.sound(),
            purpose_ok(old(self)@, purpose@),
        ensures
            (final(self)@, op@) == old(self)@.publishes(
                purpose@,
                frame@,
                settled,
                rgb_png(frame.width, frame.height, frame.pixels@),
            ),
            final(self)@.well_formed(),
    {
        match validate_captured_frame(&frame) {
            Ok(()) => {},
            Err(error) => {
                return self.lose_frame(purpose, true, error);
            },
        }
        let encoded = encode_png(&frame);
        self.publish_encoded(purpose, frame, settled, encoded)
    }

    /// Ask for the execution of a batch's next action.
    fn perform(&mut self, act: ActRun) -> (op: EngineOp)
        requires
            old(self)@.sound(),
            old(self)@.retained.len() < old(self)@.max_frames,
            act@.running(),
            settle_failure(act.request.settle) is None,
            cached_under(old(self)@.completed, act.request_id@) is None,
        ensures
            (final(self)@, op@) == old(self)@.performs(act@),
            final(self)@.well_formed(),
    {
        let action = act.request.actions[act.executed].clone();
        let viewport = act.viewport;
        self.job = Job::Performing { act };
        EngineOp::Perform { action, viewport }
    }

    /// Make room in the store where there is none, and go on.
    fn reserve_one(&mut self, reserved: Reserved) -> (op: EngineOp)
        requires
            old(self)@.sound(),
            match reserved@ {
                ReservedView::Input { act } => act.fresh() && settle_failure(act.request.settle)
                    is None && cached_under(old(self)@.completed, act.request_id) is None,
                ReservedView::Observation { .. } => true,
                ReservedView::Change { frame, .. } => frame.valid(),
            },
        ensures
            (final(self)@, op@) == old(self)@.reserves(reserved@),
            final(self)@.well_formed(),
    {
        if self.retained.len() >= self.max_frames {
            let path = self.retained[0].clone();
            assert(self@.retained[0] == path@);
            self.job = Job::Reserving { reserved };
            return EngineOp::Evict { path };
        }
        match reserved {
            Reserved::Input { act } => self.perform(act),
            Reserved::Observation { request_id, frame, settled } => self.persist_frame(
                Purpose::Observe { request_id },
                frame,
                settled,
            ),
            Reserved::Change { frame, settled, png, elapsed_ms, activity_bbox } =>
                self.persist_encoded_frame(
                    Purpose::Wait { elapsed_ms, activity_bbox },
                    frame,
                    settled,
                    png,
                ),
        }
    }

    /// A removal that room is made by has failed.
    fn lose_room(&mut self, reserved: Reserved, detail: String) -> (op: EngineOp)
        requires
            old(self)@.sound(),
            reserved@ matches ReservedView::Input { act } ==> cached_under(
                old(self)@.completed,
                act.request_id,
            ) is None,
        ensures
            (final(self)@, op@) == old(self)@.loses_room(reserved@, detail@),
            final(self)@.well_formed(),
    {
        let error = joined_error(
            ErrorCode::Internal,
            "failed to evict retained frame: ",
            &detail,
        );
        match reserved {
            Reserved::Input { act } => self.end_batch(act, Err(error)),
            Reserved::Observation { request_id, .. } => self.fail_request(request_id, error),
            Reserved::Change { .. } => self.end_wait(Err(error)),
        }
    }

    /// Begin the capture after a batch or for an observation.
    fn settle(&mut self, purpose: Purpose, policy: SettlePolicy, now: u64) -> (op: EngineOp)
        requires
            old(self)@.sound(),
            settle_failure(policy) is None,
            purpose_ok(old(self)@, purpose@),
            purpose !is Wait,
            purpose is Act ==> old(self)@.retained.len() < old(self)@.max_frames,
        ensures
            (final(self)@, op@) == old(self)@.settles(purpose@, policy, now),
            final(self)@.well_formed(),
    {
        self.job =
        Job::Settling { purpose, run: SettleRun { policy, started_at: now, previous: None } };
        EngineOp::Capture
    }

    /// Take a frame that was captured while the screen settles.
    fn capture_settled(
        &mut self,
        purpose: Purpose,
        run: SettleRun,
        frame: CapturedFrame,
        now: u64,
    ) -> (op: EngineOp)
        requires
            old(self)@.sound(),
            settle_failure(run.policy) is None,
            purpose_ok(old(self)@, purpose@),
            purpose !is Wait,
            purpose is Act ==> old(self)@.retained.len() < old(self)@.max_frames,
        ensures
            (final(self)@, op@) == old(self)@.captures(purpose@, run@, frame@, now),
            final(self)@.well_formed(),
    {
        let quiet_ms: u64 = run.policy.quiet_ms;
        let done = match &run.previous {
            None => None,
            Some(previous) => {
                let same = frames_equal(&frame, previous);
                let deadline: u128 = run.started_at as u128 + run.policy.timeout_ms as u128
                    * NANOS_PER_MILLI as u128;
                if same || deadline <= now as u128 {
                    Some(same)
                } else {
                    None
                }
            },
        };
        match done {
            Some(settled) => match purpose {
                Purpose::Observe { request_id } => self.reserve_one(
                    Reserved::Observation { request_id, frame, settled },
                ),
                other => self.persist_frame(other, frame, settled),
            },
            None => {
                self.job =
                Job::Settling {
                    purpose,
                    run: SettleRun {
                        policy: run.policy,
                        started_at: run.started_at,
                        previous: Some(frame),
                    },
                };
                EngineOp::Sleep { ms: quiet_ms }
            },
        }
    }
}

fn lost_frame_error(act: &ActRun, captured: bool, error: &CuError) -> (lost: CuError)
    ensures
        lost@ == lost_frame(act@, captured, error@),
{
    let mut message = String::new();
    match &act.failure {
        Some(stopped) => {
            push_decimal(&mut message, act.executed as u64);
            message.append(" actions executed; action failed with ");
            message.append(&stopped.to_text());
            if captured {
                message.append("; post-failure frame could not be published: ");
            } else {
                message.append("; post-failure capture also failed with ");
            }
        },
        None => {
            message.append("all ");
            push_decimal(&mut message, act.executed as u64);
            message.append(" actions executed, but the resulting frame could not be ");
            if captured {
                message.append("published: ");
            } else {
                message.append("captured: ");
            }
        },
    }
    message.append(&error.to_text());
    assert(message@ =~= lost_frame(act@, captured, error@).message);
    CuError::new(ErrorCode::Indeterminate, &message).with_executed(act.executed)
}

impl Engine {
    /// Why an action request is refused before anything is done.
    fn check_act(&self, request: &ActRequest) -> (result: Result<Viewport, CuError>)
        requires
            self@.sound(),
        ensures
            match result {
                Ok(viewport) => self@.refuses_act(request@) is None && (self@.latest matches Some(
                    (_, frame),
                ) && viewport == frame.viewport()),
                Err(error) => self@.refuses_act(request@) == Some(error@),
            },
    {
        match &self.latest {
            None => Err(
                CuError::new(ErrorCode::StaleFrame, "observe the target before the first action"),
            ),
            Some(latest) => {
                match ensure_latest(&request.expected_frame_id, &latest.observation.frame_id) {
                    Ok(()) => {},
                    Err(error) => {
                        return Err(error);
                    },
                }
                let viewport = latest.observation.viewport();
                match validate_act_request(request, viewport) {
                    Ok(()) => Ok(viewport),
                    Err(error) => Err(error),
                }
            },
        }
    }

    /// Begin a batch, or refuse it.
    fn act(&mut self, request_id: String, request: ActRequest) -> (op: EngineOp)
        requires
            old(self)@.sound(),
            cached_under(old(self)@.completed, request_id@) is None,
        ensures
            (final(self)@, op@) == old(self)@.begins_batch(request_id@, request@),
            final(self)@.well_formed(),
    {
        let checked = self.check_act(&request);
        match checked {
            Err(error) => {
                let viewport = match &self.latest {
                    Some(latest) => latest.observation.viewport(),
                    None => Viewport { width: 0, height: 0 },
                };
                let act = ActRun { request_id, request, viewport, executed: 0, failure: None };
                self.end_batch(act, Err(error))
            },
            Ok(viewport) => {
                let action = request.actions[0].clone();
                let act = ActRun { request_id, request, viewport, executed: 0, failure: None };
                self.job = Job::Checking { act, next: 0 };
                EngineOp::CheckAction { action }
            },
        }
    }

    /// Answer a cached result again.
    fn replay(&mut self, response: ResponseEnvelope) -> (op: EngineOp)
        requires
            old(self)@.sound(),
        ensures
            (final(self)@, op@) == old(self)@.replays(response@),
            final(self)@.well_formed(),
    {
        let image = replay_image(&response);
        match image {
            None => {
                self.job = Job::Idle;
                EngineOp::Reply { response }
            },
            Some(path) => {
                if self.retains(&path) {
                    self.job = Job::Replaying { response };
                    EngineOp::Probe { path }
                } else {
                    self.job = Job::Idle;
                    EngineOp::Reply { response: expire(response) }
                }
            },
        }
    }

    /// Take a request and return its answer or the first operation that it needs.
    pub fn handle(&mut self, envelope: RequestEnvelope, now: u64) -> (op: EngineOp)
        requires
            old(self)@.well_formed(),
            old(self)@.idle(),
        ensures
            (final(self)@, op@) == old(self)@.handles(
                envelope.request_id@,
                envelope.request@,
                now,
            ),
            final(self)@.well_formed(),
    {
        let RequestEnvelope { request_id, request } = envelope;
        let found = self.find_cached(&request_id);
        if let Some(i) = found {
            if same_request(&self.completed[i].request, &request) {
                let response = self.completed[i].response.clone();
                return self.replay(response);
            }
            let error = CuError::new(
                ErrorCode::ProtocolError,
                "request_id was reused with a different request",
            );
            return self.fail_request(request_id, error);
        }
        match request {
            DaemonRequest::Profile => {
                let profile = match &self.profile {
                    Some(profile) => Some(profile.clone()),
                    None => None,
                };
                self.answer_request(request_id, DaemonResponse::Profile(profile))
            },
            DaemonRequest::Status => {
                let status = match &self.latest {
                    Some(latest) => Some(
                        FrameStatus {
                            frame_id: latest.observation.frame_id.clone(),
                            width: latest.observation.width,
                            height: latest.observation.height,
                        },
                    ),
                    None => None,
                };
                self.answer_request(request_id, DaemonResponse::Status(status))
            },
            DaemonRequest::Observe(request) => {
                match validate_settle_policy(request.settle) {
                    Ok(()) => self.settle(Purpose::Observe { request_id }, request.settle, now),
                    Err(error) => self.fail_request(request_id, error),
                }
            },
            DaemonRequest::Act(request) => self.act(request_id, request),
            DaemonRequest::Wait(_) => {
                let error = CuError::new(
                    ErrorCode::ProtocolError,
                    "wait requests require the daemon's cooperative wait path",
                );
                self.fail_request(request_id, error)
            },
        }
    }

    /// Take the end of an operation and return the answer or the next operation.
    pub fn advance(&mut self, event: EngineEvent, now: u64) -> (op: EngineOp)
        requires
            old(self)@.well_formed(),
            old(self)@.awaits(event@),
        ensures
            (final(self)@, op@) == old(self)@.advances(event@, now),
            final(self)@.well_formed(),
    {
        let mut job = Job::Idle;
        std::mem::swap(&mut job, &mut self.job);
        match job {
            Job::Replaying { response } => match event {
                EngineEvent::Probed { present } => EngineOp::Reply {
                    response: if present {
                        response
                    } else {
                        expire(response)
                    },
                },
                _ => EngineOp::Capture,
            },
            Job::Checking { act, next } => match event {
                EngineEvent::Checked { result } => match result {
                    Err(error) => self.end_batch(act, Err(error)),
                    Ok(()) => {
                        if next + 1 < act.request.actions.len() {
                            let action = act.request.actions[next + 1].clone();
                            self.job = Job::Checking { act, next: next + 1 };
                            EngineOp::CheckAction { action }
                        } else {
                            self.reserve_one(Reserved::Input { act })
                        }
                    },
                },
                _ => EngineOp::Capture,
            },
            Job::Reserving { reserved } => match event {
                EngineEvent::Evicted { fault } => match fault {
                    Some(detail) => self.lose_room(reserved, detail),
                    None => {
                        let ghost before = self@.retained;
                        self.retained.remove(0);
                        assert(self@.retained =~= before.drop_first());
                        self.reserve_one(reserved)
                    },
                },
                _ => EngineOp::Capture,
            },
            Job::Performing { act } => match event {
                EngineEvent::Performed { result } => match result {
                    Err(error) => {
                        if act.executed == 0 {
                            self.end_batch(act, Err(error))
                        } else {
                            let mut stopped = act;
                            stopped.failure = Some(error);
                            let policy = stopped.request.settle;
                            self.settle(Purpose::Act { act: stopped }, policy, now)
                        }
                    },
                    Ok(()) => {
                        let mut further = act;
                        further.executed = further.executed + 1;
                        if further.executed < further.request.actions.len() {
                            self.perform(further)
                        } else {
                            let policy = further.request.settle;
                            self.settle(Purpose::Act { act: further }, policy, now)
                        }
                    },
                },
                _ => EngineOp::Capture,
            },
            Job::Settling { purpose, run } => match event {
                EngineEvent::Slept => {
                    self.job = Job::Settling { purpose, run };
                    EngineOp::Capture
                },
                EngineEvent::Captured { result } => match result {
                    Ok(frame) => self.capture_settled(purpose, run, frame, now),
                    Err(error) => self.lose_frame(purpose, false, error),
                },
                _ => EngineOp::Capture,
            },
            Job::Storing { purpose, observation, frame } => match event {
                EngineEvent::Stored { fault } => match fault {
                    Some((stage, detail)) => {
                        let error = store_error(stage, &detail);
                        self.lose_frame(purpose, true, error)
                    },
                    None => {
                        let ghost before = self@.retained;
                        self.retained.push(observation.image_path.clone());
                        assert(self@.retained =~= before.push(observation@.image_path));
                        self.latest = Some(PublishedFrame { observation: observation.clone(), frame });
                        self.deliver(purpose, observation)
                    },
                },
                _ => EngineOp::Capture,
            },
            Job::Idle => EngineOp::Capture,
        }
    }
}

fn store_error(stage: StoreStage, detail: &str) -> (error: CuError)
    ensures
        error@ == store_failure(stage, detail@),
{
    let prefix = match stage {
        StoreStage::Create => "failed to create captured PNG: ",
        StoreStage::Write => "failed to write captured PNG: ",
        StoreStage::Publish => "failed to publish captured PNG: ",
    };
    joined_error(ErrorCode::Internal, prefix, detail)
}

fn replay_image(response: &ResponseEnvelope) -> (image: Option<String>)
    ensures
        text_view(image) == replayed_image(response@),
{
    match &response.result {
        ResponseResult::Success(DaemonResponse::Act(outcome)) => match &outcome.observation {
            Some(observation) => Some(observation.image_path.clone()),
            None => None,
        },
        _ => None,
    }
}

fn expire(response: ResponseEnvelope) -> (result: ResponseEnvelope)
    ensures
        result@ == expired(response@),
{
    let ResponseEnvelope { request_id, result } = response;
    match result {
        ResponseResult::Success(DaemonResponse::Act(outcome)) => ResponseEnvelope {
            request_id,
            result: ResponseResult::Success(
                DaemonResponse::Act(
                    ActOutcome {
                        status: outcome.status,
                        executed: outcome.executed,
                        action_error: outcome.action_error,
                        image_expired: true,
                        observation: None,
                    },
                ),
            ),
        },
        other => ResponseEnvelope { request_id, result: other },
    }
}

/// Refuse a request that names a frame other than the latest.
pub fn ensure_latest(expected: &str, actual: &str) -> (result: Result<(), CuError>)
    ensures
        expected@ == actual@ ==> result is Ok,
        expected@ != actual@ ==> (result matches Err(error) && error@ == stale(expected@, actual@)),
{
    if same_text(expected, actual) {
        Ok(())
    } else {
        let mut message = "expected ".to_owned();
        message.append(expected);
        message.append(", but the latest frame is ");
        message.append(actual);
        Err(CuError::new(ErrorCode::StaleFrame, &message))
    }
}

/// The failure of a wait whose client went away.
pub open spec fn cancelled() -> CuErrorView {
    failure(ErrorCode::Cancelled, "screen-change wait was cancelled"@)
}

/// The failure of a wait whose client went away.
pub fn cancelled_error() -> (error: CuError)
    ensures
        error@ == cancelled(),
{
    CuError::new(ErrorCode::Cancelled, "screen-change wait was cancelled")
}

/// The failure of a wait that has no baseline any more.
pub open spec fn baseline_gone() -> CuErrorView {
    failure(ErrorCode::StaleFrame, "the wait baseline is unavailable"@)
}

impl EngineView {
    /// Why a wait is refused, if it is.
    pub open spec fn refuses_wait(self, request: WaitRequestView) -> Option<CuErrorView> {
        match self.latest {
            None => Some(
                failure(
                    ErrorCode::StaleFrame,
                    "observe the target before waiting for screen changes"@,
                ),
            ),
            Some((observation, frame)) => if request.last_frame_id != observation.frame_id {
                Some(stale(request.last_frame_id, observation.frame_id))
            } else if wait_failure(request, frame.viewport()) is Some {
                wait_failure(request, frame.viewport())
            } else if crate::watch::nothing_watched(
                frame.viewport(),
                request.include_rects,
                request.exclude_rects,
            ) {
                Some(
                    failure(
                        ErrorCode::InvalidAction,
                        "exclude_rects cover the entire included region"@,
                    ),
                )
            } else {
                None
            },
        }
    }

    /// Why a wait may not go on: it was superseded, or its baseline is gone.
    pub open spec fn supersedes(self, baseline_id: Seq<char>) -> Option<CuErrorView> {
        match self.latest {
            None => Some(baseline_gone()),
            Some((observation, _)) => if baseline_id == observation.frame_id {
                None
            } else {
                Some(stale(baseline_id, observation.frame_id))
            },
        }
    }

    /// What publishing a wait's changed sample leads to, given what encoding the sample returned.
    pub open spec fn publishes_wait(
        self,
        baseline_id: Seq<char>,
        publication: PublicationView,
        cancelled_now: bool,
        encoded: Result<Seq<u8>, CuErrorView>,
    ) -> (EngineView, OpView) {
        if self.supersedes(baseline_id) is Some {
            self.ends(OpView::WaitDone { result: Err(self.supersedes(baseline_id)->0) })
        } else if !publication.frame.valid() {
            self.ends(OpView::WaitDone { result: Err(invalid_frame()) })
        } else {
            match encoded {
                Err(error) => self.ends(OpView::WaitDone { result: Err(error) }),
                Ok(png) => if cancelled_now {
                    self.ends(OpView::WaitDone { result: Err(cancelled()) })
                } else {
                    self.reserves(
                        ReservedView::Change {
                            frame: publication.frame,
                            settled: publication.settled,
                            png,
                            elapsed_ms: publication.elapsed_ms,
                            activity_bbox: publication.activity_bbox,
                        },
                    )
                },
            }
        }
    }
}

impl Engine {
    /// Validate and initialize a cooperative wait against the latest frame.
    pub fn begin_wait(&self, request: &WaitRequest, now: u64) -> (result: Result<
        WaitTracker,
        CuError,
    >)
        requires
            self@.well_formed(),
        ensures
            match result {
                Err(error) => self@.refuses_wait(request@) == Some(error@),
                Ok(tracker) => {
                    &&& self@.refuses_wait(request@) is None
                    &&& tracker@.well_formed()
                    &&& tracker@.phase is Watching
                    &&& tracker@.started_at == now
                    &&& tracker@.timeout == request.timeout_ms * NANOS_PER_MILLI
                    &&& tracker@.poll_interval == 500_000_000
                    &&& tracker@.quiet == request.quiet_ms * NANOS_PER_MILLI
                    &&& tracker@.baseline_id == request@.last_frame_id
                    &&& Some(tracker@.baseline) == (match self@.latest {
                        Some((_, frame)) => Some(frame),
                        None => None,
                    })
                    &&& crate::watch::masks(
                        tracker@.spans,
                        tracker@.baseline.viewport(),
                        request@.include_rects,
                        request@.exclude_rects,
                    )
                    &&& tracker@ == wait_begun(
                        request@.last_frame_id,
                        tracker@.baseline,
                        tracker@.spans,
                        now,
                        request.timeout_ms,
                        request.quiet_ms,
                    )
                },
            },
    {
        match &self.latest {
            None => Err(
                CuError::new(
                    ErrorCode::StaleFrame,
                    "observe the target before waiting for screen changes",
                ),
            ),
            Some(latest) => {
                match ensure_latest(&request.last_frame_id, &latest.observation.frame_id) {
                    Ok(()) => {},
                    Err(error) => {
                        return Err(error);
                    },
                }
                let viewport = latest.observation.viewport();
                match validate_wait_request(request, viewport) {
                    Ok(()) => {},
                    Err(error) => {
                        return Err(error);
                    },
                }
                proof {
                    crate::validate::accepted_rects_fit(
                        request.include_rects@,
                        viewport,
                        "include rectangle"@,
                    );
                    crate::validate::accepted_rects_fit(
                        request.exclude_rects@,
                        viewport,
                        "exclude rectangle"@,
                    );
                }
                let mask = WatchMask::new(
                    viewport,
                    request.include_rects.as_slice(),
                    request.exclude_rects.as_slice(),
                );
                proof {
                    crate::watch::mask_lies_within(
                        mask.spans@,
                        viewport,
                        request.include_rects@,
                        request.exclude_rects@,
                    );
                }
                if mask.spans.len() == 0 {
                    return Err(
                        CuError::new(
                            ErrorCode::InvalidAction,
                            "exclude_rects cover the entire included region",
                        ),
                    );
                }
                Ok(
                    WaitTracker::new(
                        latest.observation.frame_id.clone(),
                        latest.frame.clone(),
                        mask,
                        now,
                        request.timeout_ms,
                        request.quiet_ms,
                    ),
                )
            },
        }
    }

    /// Whether a wait's baseline is still the latest frame.
    fn check_baseline(&self, baseline_id: &str) -> (result: Result<(), CuError>)
        ensures
            refusal(result) == self@.supersedes(baseline_id@),
    {
        match &self.latest {
            None => Err(CuError::new(ErrorCode::StaleFrame, "the wait baseline is unavailable")),
            Some(latest) => ensure_latest(baseline_id, &latest.observation.frame_id),
        }
    }

    /// Whether a wait may take its next sample; if so, the desktop is to be captured for it.
    pub fn capture_wait_sample(&self, tracker: &WaitTracker, cancelled_now: bool) -> (result:
        Result<(), CuError>)
        ensures
            refusal(result) == (if cancelled_now {
                Some(cancelled())
            } else {
                self@.supersedes(tracker@.baseline_id)
            }),
    {
        if cancelled_now {
            return Err(cancelled_error());
        }
        self.check_baseline(&tracker.baseline_id)
    }

    /// Encode a wait's changed sample after rechecking its freshness, for its publication.
    pub fn encode_wait(&self, tracker: &WaitTracker, publication: &WaitPublication) -> (result: Result<
        Vec<u8>,
        CuError,
    >)
        ensures
            bytes_view(result) == (if self@.supersedes(tracker@.baseline_id) is Some {
                Err(self@.supersedes(tracker@.baseline_id)->0)
            } else if !publication@.frame.valid() {
                Err(invalid_frame())
            } else {
                encoded_frame(
                    publication@.frame,
                    rgb_png(
                        publication@.frame.width,
                        publication@.frame.height,
                        publication@.frame.pixels,
                    ),
                )
            }),
    {
        match self.check_baseline(&tracker.baseline_id) {
            Ok(()) => {},
            Err(error) => {
                return Err(error);
            },
        }
        match validate_captured_frame(&publication.frame) {
            Ok(()) => {},
            Err(error) => {
                return Err(error);
            },
        }
        encode_png(&publication.frame)
    }

    /// Publish a wait's changed sample after rechecking freshness and cancellation: return the
    /// first operation that this needs, or the wait's failure.
    pub fn publish_wait(
        &mut self,
        tracker: &WaitTracker,
        publication: WaitPublication,
        cancelled_now: bool,
    ) -> (op: EngineOp)
        requires
            old(self)@.well_formed(),
            old(self)@.idle(),
        ensures
            (final(self)@, op@) == old(self)@.publishes_wait(
                tracker@.baseline_id,
                publication@,
                cancelled_now,
                encoded_frame(
                    publication@.frame,
                    rgb_png(
                        publication@.frame.width,
                        publication@.frame.height,
                        publication@.frame.pixels,
                    ),
                ),
            ),
            final(self)@.well_formed(),
    {
        match self.encode_wait(tracker, &publication) {
            Err(error) => self.end_wait(Err(error)),
            Ok(png) => self.publish_encoded_wait(publication, cancelled_now, Ok(png)),
        }
    }

    /// Publish a wait's valid and current sample, given what encoding it returned.
    pub fn publish_encoded_wait(
        &mut self,
        publication: WaitPublication,
        cancelled_now: bool,
        encoded: Result<Vec<u8>, CuError>,
    ) -> (op: EngineOp)
        requires
            old(self)@.well_formed(),
            old(self)@.idle(),
            publication@.frame.valid(),
        ensures
            (final(self)@, op@) == (match bytes_view(encoded) {
                Err(error) => old(self)@.ends(OpView::WaitDone { result: Err(error) }),
                Ok(png) => if cancelled_now {
                    old(self)@.ends(OpView::WaitDone { result: Err(cancelled()) })
                } else {
                    old(self)@.reserves(
                        ReservedView::Change {
                            frame: publication@.frame,
                            settled: publication@.settled,
                            png,
                            elapsed_ms: publication@.elapsed_ms,
                            activity_bbox: publication@.activity_bbox,
                        },
                    )
                },
            }),
            final(self)@.well_formed(),
    {
        match encoded {
            Err(error) => self.end_wait(Err(error)),
            Ok(png) => {
                if cancelled_now {
                    return self.end_wait(Err(cancelled_error()));
                }
                let WaitPublication { frame, settled, elapsed_ms, activity_bbox } = publication;
                self.reserve_one(
                    Reserved::Change { frame, settled, png, elapsed_ms, activity_bbox },
                )
            },
        }
    }
}

/// What a wait's capture leads to: the sample, or the failure that ends the wait.
pub open spec fn sample_of(
    captured: Result<FrameView, CuErrorView>,
    cancelled_now: bool,
) -> Result<FrameView, CuErrorView> {
    match captured {
        Err(error) => Err(error),
        Ok(frame) => if !frame.valid() {
            Err(invalid_frame())
        } else if cancelled_now {
            Err(cancelled())
        } else {
            Ok(frame)
        },
    }
}

/// The view of a capture's result.
pub open spec fn capture_view(result: Result<CapturedFrame, CuError>) -> Result<
    FrameView,
    CuErrorView,
> {
    match result {
        Ok(frame) => Ok(frame@),
        Err(error) => Err(error@),
    }
}

/// Take the capture that a wait asked for.
pub fn accept_wait_sample(
    captured: Result<CapturedFrame, CuError>,
    cancelled_now: bool,
) -> (result: Result<CapturedFrame, CuError>)
    ensures
        capture_view(result) == sample_of(capture_view(captured), cancelled_now),
{
    match captured {
        Err(error) => Err(error),
        Ok(frame) => {
            match validate_captured_frame(&frame) {
                Ok(()) => {},
                Err(error) => {
                    return Err(error);
                },
            }
            if cancelled_now {
                return Err(cancelled_error());
            }
            Ok(frame)
        },
    }
}

/// Perform on a desktop an operation that needs nothing else; nothing for the other operations.
///
/// The event tells what one call of the desktop's own method answered, on the action and the
/// viewport that the operation names. Checking an action leaves the desktop as it was.
pub fn operate<D: Desktop>(desktop: &mut D, op: &EngineOp) -> (event: Option<EngineEvent>)
    ensures
        match op@ {
            OpView::Capture => {
                &&& event matches Some(EngineEvent::Captured { result })
                &&& exists|driven: &mut D|
                    #![trigger call_ensures(D::capture, (driven,), result)]
                    *driven == *old(desktop) && *final(driven) == *final(desktop) && call_ensures(
                        D::capture,
                        (driven,),
                        result,
                    )
            },
            OpView::CheckAction { .. } => {
                &&& event matches Some(EngineEvent::Checked { result })
                &&& op matches EngineOp::CheckAction { action }
                &&& call_ensures(D::validate, (&*old(desktop), action), result)
                &&& *final(desktop) == *old(desktop)
            },
            OpView::Perform { .. } => {
                &&& event matches Some(EngineEvent::Performed { result })
                &&& op matches EngineOp::Perform { action, viewport }
                &&& exists|driven: &mut D|
                    #![trigger call_ensures(D::execute, (driven, action, *viewport), result)]
                    *driven == *old(desktop) && *final(driven) == *final(desktop) && call_ensures(
                        D::execute,
                        (driven, action, *viewport),
                        result,
                    )
            },
            _ => event is None && *final(desktop) == *old(desktop),
        },
{
    match op {
        EngineOp::Capture => Some(EngineEvent::Captured { result: desktop.capture() }),
        EngineOp::CheckAction { action } => Some(
            EngineEvent::Checked { result: desktop.validate(action) },
        ),
        EngineOp::Perform { action, viewport } => Some(
            EngineEvent::Performed { result: desktop.execute(action, *viewport) },
        ),
        _ => None,
    }
}

} // verus!
