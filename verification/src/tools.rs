//! The four tools of an MCP session: what each call does to the session and answers.
use vstd::prelude::*;

use crate::instance::{instance_paths, named_instance_dir};
use crate::protocol::{
    copy_rects, text_view, ActOutcome, ActRequest, ActRequestView, DaemonResponse,
    DaemonResponseView, ErrorCode, Observation, Rect, ResponseResult, ResponseResultView,
    WaitOutcome, WaitOutcomeView, WaitRequest, WaitRequestView,
};
use crate::replies::{
    cancelled_connect_reply, cancelled_connect_result, cancelled_reply, cancelled_result,
    connection_error, image_reply, image_result, image_view, missing_observation,
    missing_observation_reply, not_connected_reply, not_connected_result, problem, projected,
    projected_outcome, recoverable, stale_frame_result, structured_error, unavailable_message,
    unexpected_reply, unexpected_response, ContentView, ImageContent, McpActOutcome,
    McpObservation, McpWaitOutcome, McpWaitStatus, ReplyView, ToolReply,
};
use crate::session::{
    connection_view, target_of, wait_error_invalidates_frame, wait_invalidates, BindingView,
    Connection, ConnectionTarget, ConnectionView, FrameBinding, McpActRequest, McpActView,
    McpSessionState, SessionView, TargetView,
};
use crate::store::join_path;
use crate::waits::{terminal_view, AsyncWaits, Terminal};

verus! {

/// An answer that waits for an image: the frame's number, the image's path, and what is shown
/// with it.
#[derive(Debug)]
pub struct PendingImage {
    pub binding: FrameBinding,
    pub path: String,
    pub content: ImageContent,
}

/// A waiting answer with its texts as sequences.
pub struct PendingView {
    pub binding: BindingView,
    pub path: Seq<char>,
    pub content: ContentView,
}

impl View for PendingImage {
    type V = PendingView;

    open spec fn view(&self) -> PendingView {
        PendingView {
            binding: self.binding@,
            path: self.path@,
            content: self.content@,
        }
    }
}

/// What a daemon's response leads to.
#[derive(Debug)]
pub enum ToolStep {
    Reply(ToolReply),
    ReadImage(PendingImage),
}

/// What a response leads to, with texts as sequences.
pub enum ToolStepView {
    Reply(ReplyView),
    ReadImage(PendingView),
}

impl View for ToolStep {
    type V = ToolStepView;

    open spec fn view(&self) -> ToolStepView {
        match *self {
            ToolStep::Reply(reply) => ToolStepView::Reply(reply@),
            ToolStep::ReadImage(pending) => ToolStepView::ReadImage(pending@),
        }
    }
}

/// A daemon's response, or the answer where there was none.
pub open spec fn response_view(response: Result<ResponseResult, ToolReply>) -> Result<
    ResponseResultView,
    ReplyView,
> {
    match response {
        Ok(result) => Ok(result@),
        Err(reply) => Err(reply@),
    }
}

impl SessionView {
    /// Have no current frame, and answer.
    pub open spec fn fails(self, reply: ReplyView) -> (SessionView, ToolStepView) {
        (self.cleared(), ToolStepView::Reply(reply))
    }

    /// What the response to an observation leads to.
    pub open spec fn observe_response(
        self,
        response: Result<ResponseResultView, ReplyView>,
        cancelled: bool,
    ) -> (SessionView, ToolStepView) {
        match response {
            Err(reply) => self.fails(reply),
            Ok(result) => if cancelled {
                self.fails(cancelled_reply())
            } else {
                match result {
                    ResponseResultView::Error(error) => self.fails(
                        ReplyView::Failure(recoverable(error)),
                    ),
                    ResponseResultView::Success(DaemonResponseView::Observe(observation)) => {
                        match self.binds(observation.frame_id) {
                            (bound, Err(error)) => bound.fails(
                                ReplyView::Failure(recoverable(error)),
                            ),
                            (bound, Ok(binding)) => (
                                bound,
                                ToolStepView::ReadImage(
                                    PendingView {
                                        binding,
                                        path: observation.image_path,
                                        content: ContentView::Observation(
                                            projected(observation, binding.frame),
                                        ),
                                    },
                                ),
                            ),
                        }
                    },
                    _ => self.fails(unexpected_reply("observe"@)),
                }
            },
        }
    }

    /// The answer of a call that shows a frame, and the session after it: the frame is the current
    /// one only where its image could be read and the call was not cancelled.
    pub open spec fn shows_image(
        self,
        pending: PendingView,
        image: Result<Seq<u8>, Seq<char>>,
        cancelled: bool,
    ) -> (SessionView, ReplyView) {
        if cancelled {
            (self.cleared(), cancelled_reply())
        } else if image is Err {
            (self.cleared(), image_reply(pending.content, image))
        } else {
            (self.committed(pending.binding), image_reply(pending.content, image))
        }
    }

    /// What beginning an action request leads to.
    pub open spec fn begins_act(self, request_id: Seq<char>, request: McpActView) -> (
        SessionView,
        Result<ActRequestView, ReplyView>,
    ) {
        match self.prepares(request_id, request) {
            (prepared, Ok(protocol)) => (prepared, Ok(protocol)),
            (prepared, Err(error)) => (
                prepared.after_error(error.code),
                Err(ReplyView::Failure(recoverable(error))),
            ),
        }
    }

    /// What the response to an action request leads to.
    pub open spec fn act_response(
        self,
        request_id: Seq<char>,
        response: Result<ResponseResultView, ReplyView>,
        cancelled: bool,
    ) -> (SessionView, ToolStepView) {
        match response {
            Err(reply) => self.fails(reply),
            Ok(result) => if cancelled {
                self.fails(cancelled_reply())
            } else {
                match result {
                    ResponseResultView::Error(error) => (
                        self.after_error(error.code),
                        ToolStepView::Reply(
                            if error.code == ErrorCode::StaleFrame {
                                stale_reply(
                                    "the desktop was superseded outside this MCP session; call computer_observe"@,
                                )
                            } else {
                                ReplyView::Failure(recoverable(error))
                            },
                        ),
                    ),
                    ResponseResultView::Success(DaemonResponseView::Act(outcome)) => {
                        if outcome.image_expired {
                            self.fails(
                                ReplyView::Plain(
                                    ContentView::Act(projected_outcome(outcome, None)),
                                ),
                            )
                        } else {
                            match outcome.observation {
                                None => self.fails(missing_observation_reply(outcome.executed)),
                                Some(observation) => match self.binds_action(
                                    request_id,
                                    observation.frame_id,
                                ) {
                                    (bound, Err(error)) => bound.fails(
                                        ReplyView::Failure(recoverable(error)),
                                    ),
                                    (bound, Ok(binding)) => (
                                        bound,
                                        ToolStepView::ReadImage(
                                            PendingView {
                                                binding,
                                                path: observation.image_path,
                                                content: ContentView::Act(
                                                    projected_outcome(
                                                        outcome,
                                                        Some(
                                                            projected(observation, binding.frame),
                                                        ),
                                                    ),
                                                ),
                                            },
                                        ),
                                    ),
                                },
                            }
                        }
                    },
                    _ => self.fails(unexpected_reply("act"@)),
                }
            },
        }
    }

    /// The frame whose waits a shown action result ends: a new current frame, unless the result
    /// was that of a retry.
    pub open spec fn superseding(self, retry: bool, committed: bool) -> Option<Seq<char>> {
        if retry || !committed {
            None
        } else {
            match self.current {
                Some(current) => Some(current.internal_id),
                None => None,
            }
        }
    }

    /// What the response to a wait leads to.
    pub open spec fn wait_response(
        self,
        baseline: BindingView,
        response: Result<ResponseResultView, ReplyView>,
        cancelled: bool,
    ) -> (SessionView, ToolStepView) {
        let forgotten = self.cleared_if(baseline);
        match response {
            Err(reply) => (forgotten, ToolStepView::Reply(reply)),
            Ok(result) => if cancelled {
                (forgotten, ToolStepView::Reply(cancelled_reply()))
            } else {
                match result {
                    ResponseResultView::Error(error) => (
                        if wait_invalidates(error.code) {
                            forgotten
                        } else {
                            self
                        },
                        ToolStepView::Reply(
                            if error.code == ErrorCode::StaleFrame {
                                stale_reply(
                                    "the desktop was superseded while waiting; call computer_observe"@,
                                )
                            } else {
                                ReplyView::Failure(recoverable(error))
                            },
                        ),
                    ),
                    ResponseResultView::Success(DaemonResponseView::Wait(outcome)) => {
                        self.finishes_wait(baseline, outcome)
                    },
                    _ => (forgotten, ToolStepView::Reply(unexpected_reply("wait"@))),
                }
            },
        }
    }

    /// What the result of a wait leads to. An unchanged timeout keeps the frame and shows no image.
    pub open spec fn finishes_wait(self, baseline: BindingView, outcome: WaitOutcomeView) -> (
        SessionView,
        ToolStepView,
    ) {
        match outcome {
            WaitOutcomeView::Timeout { elapsed_ms } => match self.supersedes(baseline) {
                Some(error) => (
                    self,
                    ToolStepView::Reply(ReplyView::Failure(recoverable(error))),
                ),
                None => (
                    self,
                    ToolStepView::Reply(
                        ReplyView::Plain(
                            ContentView::Wait(
                                McpWaitOutcome {
                                    status: McpWaitStatus::Timeout,
                                    elapsed_ms,
                                    frame: baseline.frame,
                                    settled: true,
                                    activity_bbox: None,
                                },
                            ),
                        ),
                    ),
                ),
            },
            WaitOutcomeView::Changed { elapsed_ms, activity_bbox, observation } => {
                match self.binds_wait(baseline, observation.frame_id) {
                    (bound, Err(error)) => (
                        bound,
                        ToolStepView::Reply(ReplyView::Failure(recoverable(error))),
                    ),
                    (bound, Ok(binding)) => (
                        bound,
                        ToolStepView::ReadImage(
                            PendingView {
                                binding,
                                path: observation.image_path,
                                content: ContentView::Wait(
                                    McpWaitOutcome {
                                        status: McpWaitStatus::Changed,
                                        elapsed_ms,
                                        frame: binding.frame,
                                        settled: observation.settled,
                                        activity_bbox: Some(activity_bbox),
                                    },
                                ),
                            },
                        ),
                    ),
                }
            },
        }
    }

    /// The answer of a changed wait, and the session after it.
    pub open spec fn shows_wait(
        self,
        baseline: BindingView,
        pending: PendingView,
        image: Result<Seq<u8>, Seq<char>>,
        cancelled: bool,
    ) -> (SessionView, ReplyView) {
        if cancelled {
            (self.cleared_if(baseline), cancelled_reply())
        } else if image is Err {
            (self.cleared_if(baseline), image_reply(pending.content, image))
        } else {
            (self.committed(pending.binding), image_reply(pending.content, image))
        }
    }

    /// What a connection attempt does at its start: nothing where the name is invalid or the call
    /// was cancelled; else the session is disconnected.
    pub open spec fn begins_connect(self, name: Seq<char>, cancelled: bool) -> (
        SessionView,
        Result<TargetView, ReplyView>,
    ) {
        match target_of(name) {
            Err(message) => (self, Err(ReplyView::Text(message))),
            Ok(target) => if cancelled {
                (self, Err(cancelled_connect_reply()))
            } else {
                (self.disconnected(), Ok(target))
            },
        }
    }

    /// How a connection attempt ends.
    pub open spec fn ends_connect(
        self,
        connection: ConnectionView,
        result: Result<Option<Seq<char>>, Seq<char>>,
        cancelled: bool,
    ) -> (SessionView, ReplyView) {
        match result {
            Ok(profile) if !cancelled => (
                SessionView { connection: Some(connection), ..self },
                ReplyView::Connected {
                    profile: match profile {
                        Some(profile) => profile,
                        None => Seq::empty(),
                    },
                },
            ),
            Err(detail) if !cancelled => (
                self,
                ReplyView::Problem(
                    problem(
                        "daemon_unavailable"@,
                        unavailable_message(connection.target, detail),
                    ),
                ),
            ),
            _ => (self, cancelled_connect_reply()),
        }
    }
}

/// The answer to a call whose frame was superseded.
pub open spec fn stale_reply(message: Seq<char>) -> ReplyView {
    ReplyView::Failure(crate::protocol::failure(ErrorCode::StaleFrame, message))
}

/// A wait request of an agent.
#[derive(Debug)]
pub struct McpWaitRequest {
    /// Session-local frame number from the latest observation or changed wait.
    pub frame: u64,
    /// Between 1 and 8 rectangles whose union is watched.
    pub include_rects: Vec<Rect>,
    /// Up to 8 rectangles removed from the included region.
    pub exclude_rects: Vec<Rect>,
    /// Total budget in milliseconds for detection and post-change settling.
    pub timeout_ms: u64,
    /// Required continuous stability after activity, in milliseconds.
    pub quiet_ms: u64,
    /// Whether the wait goes on in the background.
    pub async_mode: bool,
}

/// The request for the daemon that an agent's wait stands for.
pub open spec fn wait_request_of(request: McpWaitRequest, baseline: BindingView) -> WaitRequestView {
    WaitRequestView {
        last_frame_id: baseline.internal_id,
        include_rects: request.include_rects@,
        exclude_rects: request.exclude_rects@,
        timeout_ms: request.timeout_ms,
        quiet_ms: request.quiet_ms,
    }
}

impl McpSessionState {
    /// The session's connection.
    pub fn connected(&self) -> (result: Result<Connection, ToolReply>)
        ensures
            match self@.connection {
                Some(connection) => result matches Ok(found) && found@ == connection,
                None => result matches Err(reply) && reply@ == not_connected_reply(),
            },
    {
        match &self.connection {
            Some(connection) => Ok(connection.clone()),
            None => Err(not_connected_result()),
        }
    }

    fn fail(&mut self, reply: ToolReply) -> (step: ToolStep)
        requires
            old(self)@.valid(),
        ensures
            (final(self)@, step@) == old(self)@.fails(reply@),
            final(self)@.valid(),
    {
        self.clear();
        ToolStep::Reply(reply)
    }

    /// Begin an observation: the connection to observe through and the result of the background
    /// wait that it cancels, or the answer. A call that is refused or was cancelled leaves the wait.
    pub fn begin_observe(&self, waits: &mut AsyncWaits, cancelled: bool, now: u64) -> (result: Result<
        (Connection, Option<Terminal>),
        ToolReply,
    >)
        ensures
            match (self@.connection, result) {
                (Some(connection), Ok((found, terminal))) => {
                    &&& !cancelled
                    &&& found@ == connection
                    &&& (final(waits)@, terminal_view(terminal)) == old(waits)@.cancels(now)
                },
                (Some(_), Err(reply)) => cancelled && reply@ == cancelled_reply() && final(waits)@
                    == old(waits)@,
                (None, Err(reply)) => reply@ == not_connected_reply() && final(waits)@
                    == old(waits)@,
                (None, Ok(_)) => false,
            },
    {
        match self.connected() {
            Err(reply) => Err(reply),
            Ok(connection) => {
                if cancelled {
                    return Err(cancelled_result());
                }
                let terminal = waits.cancel(now);
                Ok((connection, terminal))
            },
        }
    }

    /// Take the response to an observation.
    pub fn observe_response(
        &mut self,
        response: Result<ResponseResult, ToolReply>,
        cancelled: bool,
    ) -> (step: ToolStep)
        requires
            old(self)@.valid(),
        ensures
            (final(self)@, step@) == old(self)@.observe_response(
                response_view(response),
                cancelled,
            ),
            final(self)@.valid(),
            step matches ToolStep::ReadImage(pending) ==> pending@.binding.frame > 0,
    {
        let result = match response {
            Ok(result) => result,
            Err(reply) => {
                return self.fail(reply);
            },
        };
        if cancelled {
            return self.fail(cancelled_result());
        }
        match result {
            ResponseResult::Error(error) => self.fail(structured_error(error)),
            ResponseResult::Success(DaemonResponse::Observe(observation)) => {
                let binding = match self.bind_observation(observation.frame_id.clone()) {
                    Ok(binding) => binding,
                    Err(error) => {
                        return self.fail(structured_error(error));
                    },
                };
                let content = ImageContent::Observation(
                    McpObservation::from_protocol(&observation, binding.frame),
                );
                ToolStep::ReadImage(
                    PendingImage { binding, path: observation.image_path, content },
                )
            },
            _ => self.fail(unexpected_response("observe")),
        }
    }

    /// Answer a call that shows a frame, once its image was read or could not be.
    pub fn show_image(
        &mut self,
        pending: PendingImage,
        image: Result<Vec<u8>, String>,
        cancelled: bool,
    ) -> (reply: ToolReply)
        requires
            old(self)@.valid(),
            pending@.binding.frame > 0,
        ensures
            (final(self)@, reply@) == old(self)@.shows_image(
                pending@,
                image_view(image),
                cancelled,
            ),
            final(self)@.valid(),
    {
        if cancelled {
            self.clear();
            return cancelled_result();
        }
        if image.is_err() {
            self.clear();
        } else {
            self.commit(pending.binding);
        }
        image_result(pending.content, image)
    }

    /// Begin an action request: the request for the daemon, or the answer.
    pub fn begin_act(&mut self, request_id: &str, request: &McpActRequest) -> (result: Result<
        ActRequest,
        ToolReply,
    >)
        requires
            old(self)@.valid(),
        ensures
            ({
                let (after, begun) = old(self)@.begins_act(request_id@, request@);
                final(self)@ == after && match result {
                    Ok(protocol) => begun == Ok::<ActRequestView, ReplyView>(protocol@),
                    Err(reply) => begun == Err::<ActRequestView, ReplyView>(reply@),
                }
            }),
            final(self)@.valid(),
    {
        match self.prepare_action(request_id, request) {
            Ok(protocol) => Ok(protocol),
            Err(error) => {
                self.apply_error(&error);
                Err(structured_error(error))
            },
        }
    }

    /// Take the response to an action request.
    pub fn act_response(
        &mut self,
        request_id: &str,
        response: Result<ResponseResult, ToolReply>,
        cancelled: bool,
    ) -> (step: ToolStep)
        requires
            old(self)@.valid(),
        ensures
            (final(self)@, step@) == old(self)@.act_response(
                request_id@,
                response_view(response),
                cancelled,
            ),
            final(self)@.valid(),
            step matches ToolStep::ReadImage(pending) ==> pending@.binding.frame > 0,
    {
        let result = match response {
            Ok(result) => result,
            Err(reply) => {
                return self.fail(reply);
            },
        };
        if cancelled {
            return self.fail(cancelled_result());
        }
        match result {
            ResponseResult::Error(error) => {
                self.apply_error(&error);
                ToolStep::Reply(
                    if error.code == ErrorCode::StaleFrame {
                        stale_frame_result(
                            "the desktop was superseded outside this MCP session; call computer_observe",
                        )
                    } else {
                        structured_error(error)
                    },
                )
            },
            ResponseResult::Success(DaemonResponse::Act(outcome)) => {
                if outcome.image_expired {
                    return self.fail(
                        ToolReply::Plain(
                            ImageContent::Act(McpActOutcome::from_protocol(outcome, None)),
                        ),
                    );
                }
                self.act_outcome(request_id, outcome)
            },
            _ => self.fail(unexpected_response("act")),
        }
    }

    fn act_outcome(&mut self, request_id: &str, outcome: ActOutcome) -> (step: ToolStep)
        requires
            old(self)@.valid(),
            !outcome@.image_expired,
        ensures
            (final(self)@, step@) == old(self)@.act_response(
                request_id@,
                Ok(ResponseResultView::Success(DaemonResponseView::Act(outcome@))),
                false,
            ),
            final(self)@.valid(),
            step matches ToolStep::ReadImage(pending) ==> pending@.binding.frame > 0,
    {
        let (shown, path, id) = match &outcome.observation {
            None => {
                return self.fail(missing_observation(outcome.executed));
            },
            Some(observation) => (
                McpObservation::from_protocol(observation, 0),
                observation.image_path.clone(),
                observation.frame_id.clone(),
            ),
        };
        let ghost before = self@;
        let binding = match self.bind_action_observation(request_id, id) {
            Ok(binding) => binding,
            Err(error) => {
                return self.fail(structured_error(error));
            },
        };
        proof {
            bound_frames_are_positive(before, request_id@, id@);
        }
        let shown = McpObservation { frame: binding.frame, ..shown };
        ToolStep::ReadImage(
            PendingImage {
                binding,
                path,
                content: ImageContent::Act(McpActOutcome::from_protocol(outcome, Some(shown))),
            },
        )
    }

    /// Answer an action request, once its image was read or could not be. The second part is the
    /// frame whose appearance ends waits for other frames.
    pub fn show_act(
        &mut self,
        pending: PendingImage,
        image: Result<Vec<u8>, String>,
        cancelled: bool,
        retry: bool,
    ) -> (answer: (ToolReply, Option<String>))
        requires
            old(self)@.valid(),
            pending@.binding.frame > 0,
        ensures
            (final(self)@, (answer.0)@) == old(self)@.shows_image(
                pending@,
                image_view(image),
                cancelled,
            ),
            text_view(answer.1) == final(self)@.superseding(retry, !cancelled && image is Ok),
            final(self)@.valid(),
    {
        let committed = !cancelled && image.is_ok();
        let reply = self.show_image(pending, image, cancelled);
        if retry || !committed {
            return (reply, None);
        }
        match &self.current {
            Some(current) => (reply, Some(current.internal_id.clone())),
            None => (reply, None),
        }
    }

    /// Begin a wait: its frame and the request for the daemon, or the answer.
    pub fn begin_wait(&self, request: &McpWaitRequest) -> (result: Result<
        (FrameBinding, WaitRequest),
        ToolReply,
    >)
        ensures
            match self@.frame_named(request.frame) {
                Ok(baseline) => result matches Ok((binding, protocol)) && binding@ == baseline
                    && protocol@ == wait_request_of(*request, baseline),
                Err(error) => result matches Err(reply) && reply@ == ReplyView::Failure(
                    recoverable(error),
                ),
            },
    {
        match self.resolve_frame(request.frame) {
            Ok(binding) => {
                let protocol = WaitRequest {
                    last_frame_id: binding.internal_id.clone(),
                    include_rects: copy_rects(&request.include_rects),
                    exclude_rects: copy_rects(&request.exclude_rects),
                    timeout_ms: request.timeout_ms,
                    quiet_ms: request.quiet_ms,
                };
                Ok((binding, protocol))
            },
            Err(error) => Err(structured_error(error)),
        }
    }

    /// Take the response to a wait.
    pub fn wait_response(
        &mut self,
        baseline: &FrameBinding,
        response: Result<ResponseResult, ToolReply>,
        cancelled: bool,
    ) -> (step: ToolStep)
        requires
            old(self)@.valid(),
        ensures
            (final(self)@, step@) == old(self)@.wait_response(
                baseline@,
                response_view(response),
                cancelled,
            ),
            final(self)@.valid(),
            step matches ToolStep::ReadImage(pending) ==> pending@.binding.frame > 0,
    {
        let result = match response {
            Ok(result) => result,
            Err(reply) => {
                self.clear_if_current(baseline);
                return ToolStep::Reply(reply);
            },
        };
        if cancelled {
            self.clear_if_current(baseline);
            return ToolStep::Reply(cancelled_result());
        }
        match result {
            ResponseResult::Error(error) => {
                if wait_error_invalidates_frame(error.code) {
                    self.clear_if_current(baseline);
                }
                ToolStep::Reply(
                    if error.code == ErrorCode::StaleFrame {
                        stale_frame_result(
                            "the desktop was superseded while waiting; call computer_observe",
                        )
                    } else {
                        structured_error(error)
                    },
                )
            },
            ResponseResult::Success(DaemonResponse::Wait(outcome)) => self.finish_wait(
                baseline,
                outcome,
            ),
            _ => {
                self.clear_if_current(baseline);
                ToolStep::Reply(unexpected_response("wait"))
            },
        }
    }

    /// Take the result of a wait.
    pub fn finish_wait(&mut self, baseline: &FrameBinding, outcome: WaitOutcome) -> (step: ToolStep)
        requires
            old(self)@.valid(),
        ensures
            (final(self)@, step@) == old(self)@.finishes_wait(baseline@, outcome@),
            final(self)@.valid(),
            step matches ToolStep::ReadImage(pending) ==> pending@.binding.frame > 0,
    {
        match outcome {
            WaitOutcome::Timeout { elapsed_ms } => match self.ensure_current(baseline) {
                Err(error) => ToolStep::Reply(structured_error(error)),
                Ok(()) => ToolStep::Reply(
                    ToolReply::Plain(
                        ImageContent::Wait(
                            McpWaitOutcome {
                                status: McpWaitStatus::Timeout,
                                elapsed_ms,
                                frame: baseline.frame,
                                settled: true,
                                activity_bbox: None,
                            },
                        ),
                    ),
                ),
            },
            WaitOutcome::Changed { elapsed_ms, activity_bbox, observation } => {
                let Observation { frame_id, image_path, settled, .. } = observation;
                let binding = match self.bind_wait_observation(baseline, frame_id) {
                    Ok(binding) => binding,
                    Err(error) => {
                        return ToolStep::Reply(structured_error(error));
                    },
                };
                let content = ImageContent::Wait(
                    McpWaitOutcome {
                        status: McpWaitStatus::Changed,
                        elapsed_ms,
                        frame: binding.frame,
                        settled,
                        activity_bbox: Some(activity_bbox),
                    },
                );
                ToolStep::ReadImage(PendingImage { binding, path: image_path, content })
            },
        }
    }

    /// Refuse a background wait that cannot start: the call was cancelled, its frame was superseded,
    /// or the control lets none through.
    pub fn check_async_wait(&self, control: &AsyncWaits, baseline: &FrameBinding, cancelled: bool) -> (
    result: Result<(), ToolReply>)
        ensures
            match result {
                Ok(()) => !cancelled && self@.supersedes(baseline@) is None && control@.refuses()
                    is None,
                Err(reply) => if cancelled {
                    reply@ == cancelled_reply()
                } else if self@.supersedes(baseline@) is Some {
                    reply@ == ReplyView::Failure(recoverable(self@.supersedes(baseline@)->0))
                } else {
                    control@.refuses() is Some && reply@ == ReplyView::Failure(
                        recoverable(control@.refuses()->0),
                    )
                },
            },
    {
        if cancelled {
            return Err(cancelled_result());
        }
        match self.ensure_current(baseline) {
            Ok(()) => {},
            Err(error) => {
                return Err(structured_error(error));
            },
        }
        match control.check_start() {
            Ok(()) => Ok(()),
            Err(error) => Err(structured_error(error)),
        }
    }

    /// Answer a changed wait, once its image was read or could not be.
    pub fn show_wait(
        &mut self,
        baseline: &FrameBinding,
        pending: PendingImage,
        image: Result<Vec<u8>, String>,
        cancelled: bool,
    ) -> (reply: ToolReply)
        requires
            old(self)@.valid(),
            pending@.binding.frame > 0,
        ensures
            (final(self)@, reply@) == old(self)@.shows_wait(
                baseline@,
                pending@,
                image_view(image),
                cancelled,
            ),
            final(self)@.valid(),
    {
        if cancelled {
            self.clear_if_current(baseline);
            return cancelled_result();
        }
        if image.is_err() {
            self.clear_if_current(baseline);
        } else {
            self.commit(pending.binding);
        }
        image_result(pending.content, image)
    }

    /// Begin a connection attempt: the target, the connection that ended and the result of the
    /// background wait that the attempt cancels, or the answer. An invalid name and a call that was
    /// cancelled leave everything as it was.
    pub fn begin_connect(
        &mut self,
        waits: &mut AsyncWaits,
        name: &str,
        cancelled: bool,
        now: u64,
    ) -> (result: Result<
        (ConnectionTarget, Option<Connection>, Option<Terminal>),
        ToolReply,
    >)
        requires
            old(self)@.valid(),
        ensures
            ({
                let (after, begun) = old(self)@.begins_connect(name@, cancelled);
                final(self)@ == after && match result {
                    Ok((target, ended, terminal)) => {
                        &&& begun == Ok::<TargetView, ReplyView>(target@)
                        &&& connection_view(ended) == old(self)@.connection
                        &&& (final(waits)@, terminal_view(terminal)) == old(waits)@.cancels(now)
                    },
                    Err(reply) => begun == Err::<TargetView, ReplyView>(reply@) && final(self)@
                        == old(self)@ && final(waits)@ == old(waits)@,
                }
            }),
            final(self)@.valid(),
    {
        match ConnectionTarget::parse(name) {
            Err(message) => Err(ToolReply::Text(message)),
            Ok(target) => {
                if cancelled {
                    return Err(cancelled_connect_result());
                }
                let ended = self.disconnect();
                let terminal = waits.cancel(now);
                Ok((target, ended, terminal))
            },
        }
    }

    /// End a connection attempt.
    pub fn end_connect(
        &mut self,
        connection: Connection,
        result: Result<Option<String>, String>,
        cancelled: bool,
    ) -> (reply: ToolReply)
        requires
            old(self)@.valid(),
        ensures
            (final(self)@, reply@) == old(self)@.ends_connect(
                connection@,
                match result {
                    Ok(profile) => Ok(text_view(profile)),
                    Err(detail) => Err(detail@),
                },
                cancelled,
            ),
            final(self)@.valid(),
    {
        if cancelled {
            return cancelled_connect_result();
        }
        match result {
            Ok(profile) => {
                self.connect(connection);
                ToolReply::Connected {
                    profile: match profile {
                        Some(profile) => profile,
                        None => {
                            let none = String::new();
                            assert(none@ =~= Seq::empty());
                            none
                        },
                    },
                }
            },
            Err(detail) => connection_error(&connection.target, &detail),
        }
    }
}

proof fn bound_frames_are_positive(session: SessionView, request_id: Seq<char>, id: Seq<char>)
    requires
        session.valid(),
    ensures
        session.binds_action(request_id, id).1 matches Ok(binding) ==> binding.frame > 0,
{
    crate::session::memo_place_is_first(session.completed, request_id, 0);
}

/// The socket of a target that a daemon serves; none for the private desktop.
pub fn target_socket(target: &ConnectionTarget, runtime: &str) -> (socket: Option<String>)
    ensures
        text_view(socket) == (match target@ {
            TargetView::Default => Some(instance_paths(runtime@, None).socket),
            TargetView::Named(name) => Some(instance_paths(runtime@, Some(name)).socket),
            TargetView::Private => None,
        }),
{
    match target {
        ConnectionTarget::Default => Some(
            join_path(&named_instance_dir(runtime, None), "cu.sock"),
        ),
        ConnectionTarget::Named(name) => Some(
            join_path(&named_instance_dir(runtime, Some(name)), "cu.sock"),
        ),
        ConnectionTarget::Private => None,
    }
}

/// The profile that a daemon answers with.
pub fn profile_response(result: ResponseResult) -> (profile: Result<Option<String>, String>)
    ensures
        match result@ {
            ResponseResultView::Success(DaemonResponseView::Profile(found)) => profile matches Ok(
                text,
            ) && text_view(text) == found,
            ResponseResultView::Error(error) => profile matches Err(message) && message@
                == error.text(),
            _ => profile matches Err(message) && message@
                == "daemon returned the wrong response to profile request"@,
        },
{
    match result {
        ResponseResult::Success(DaemonResponse::Profile(profile)) => Ok(profile),
        ResponseResult::Error(error) => Err(error.to_text()),
        _ => Err("daemon returned the wrong response to profile request".to_owned()),
    }
}

/// A connection attempt under an invalid name, or one that is cancelled before it starts, changes
/// nothing. Any other one leaves a session without a connection unless it succeeds, and without a
/// frame that can be named in any case.
pub proof fn connections_start_from_nothing(
    session: SessionView,
    name: Seq<char>,
    cancelled_before: bool,
    connection: ConnectionView,
    result: Result<Option<Seq<char>>, Seq<char>>,
    cancelled_after: bool,
    frame: u64,
)
    ensures
        ({
            let (begun, target) = session.begins_connect(name, cancelled_before);
            let (ended, reply) = begun.ends_connect(connection, result, cancelled_after);
            &&& target is Err ==> begun == session
            &&& target is Ok ==> {
                &&& begun.connection is None
                &&& ended.connection is Some <==> result is Ok && !cancelled_after
                &&& ended.connection is Some <==> reply is Connected
                &&& ended.frame_named(frame) is Err
                &&& ended.completed.len() == 0
                &&& ended.latest_frame == session.latest_frame
            }
        }),
{
}

/// The frame that an observation shows is the current one afterwards, under a number that no frame
/// had before; a call that shows no frame leaves none.
pub proof fn shown_frames_are_current(
    session: SessionView,
    response: Result<ResponseResultView, ReplyView>,
    cancelled_before: bool,
    image: Result<Seq<u8>, Seq<char>>,
    cancelled_after: bool,
)
    requires
        session.valid(),
    ensures
        match session.observe_response(response, cancelled_before) {
            (after, ToolStepView::Reply(_)) => after.current is None,
            (bound, ToolStepView::ReadImage(pending)) => {
                let (after, reply) = bound.shows_image(pending, image, cancelled_after);
                &&& pending.binding.frame > session.latest_frame
                &&& reply is Image ==> after.frame_named(pending.binding.frame) == Ok::<
                    BindingView,
                    crate::protocol::CuErrorView,
                >(pending.binding)
                &&& !(reply is Image) ==> after.current is None
            },
        },
{
}

/// A wait that ends unchanged answers without an image and leaves the session as it was, so that
/// it can be asked again with the same frame.
pub proof fn unchanged_waits_keep_the_frame(
    session: SessionView,
    baseline: BindingView,
    elapsed_ms: u64,
)
    requires
        session.current == Some(baseline),
        baseline.frame > 0,
    ensures
        ({
            let (after, step) = session.finishes_wait(
                baseline,
                WaitOutcomeView::Timeout { elapsed_ms },
            );
            &&& after == session
            &&& step matches ToolStepView::Reply(ReplyView::Plain(_))
            &&& after.frame_named(baseline.frame) == Ok::<
                BindingView,
                crate::protocol::CuErrorView,
            >(baseline)
        }),
{
}

/// A wait whose frame was superseded while it was served changes nothing in the session, whatever
/// its result is.
pub proof fn superseded_waits_change_nothing(
    session: SessionView,
    baseline: BindingView,
    response: Result<ResponseResultView, ReplyView>,
    cancelled: bool,
)
    requires
        session.current != Some(baseline),
    ensures
        session.wait_response(baseline, response, cancelled).0 == session,
        session.wait_response(baseline, response, cancelled).1 is Reply,
{
}

} // verus!
