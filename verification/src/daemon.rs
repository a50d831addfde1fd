//! Decisions of the daemon: its socket, the routing of requests, and the one wait at a time.
use vstd::prelude::*;

use crate::engine::{accept_wait_sample, capture_view, sample_of};
use crate::frame::CapturedFrame;
use crate::protocol::{
    error_response, failure, response_from_result, CuError, CuErrorView, DaemonRequest,
    DaemonResponse, DaemonResponseView, ErrorCode, RequestEnvelope, ResponseEnvelope,
    ResponseEnvelopeView, ResponseResultView, WaitOutcome, WaitRequest,
};
use crate::wait::{step_view, StepView, WaitStep, WaitTracker};

verus! {

/// What is done with a socket's path before a daemon binds it.
#[derive(Debug, Clone, Copy, PartialEq, Eq, Structural)]
pub enum SocketStep {
    /// Nothing is there.
    Bind,
    /// Remove a socket that nobody listens at.
    RemoveStale,
}

/// What is done with a socket's path, unless a daemon listens there.
pub open spec fn socket_step(exists: bool, answers: bool) -> Option<SocketStep> {
    if !exists {
        Some(SocketStep::Bind)
    } else if answers {
        None
    } else {
        Some(SocketStep::RemoveStale)
    }
}

/// A socket that somebody listens at is never removed, nor bound over; one that nobody listens at is
/// removed, and a free path is bound at once.
pub proof fn live_sockets_stay(exists: bool, answers: bool)
    ensures
        exists && answers <==> socket_step(exists, answers) is None,
        socket_step(exists, answers) == Some(SocketStep::RemoveStale) <==> exists && !answers,
        socket_step(exists, answers) == Some(SocketStep::Bind) <==> !exists,
{
}

/// What is done with a socket's path: a live daemon's socket stays.
pub fn prepare_socket(path: &str, exists: bool, answers: bool) -> (result: Result<
    SocketStep,
    String,
>)
    ensures
        match result {
            Ok(SocketStep::Bind) => !exists,
            Ok(SocketStep::RemoveStale) => exists && !answers,
            Err(message) => exists && answers && message@
                == "another daemon is already listening at "@ + path@,
        },
        result matches Ok(step) ==> socket_step(exists, answers) == Some(step),
        result is Err <==> socket_step(exists, answers) is None,
{
    if !exists {
        return Ok(SocketStep::Bind);
    }
    if answers {
        let mut message = "another daemon is already listening at ".to_owned();
        message.append(path);
        return Err(message);
    }
    Ok(SocketStep::RemoveStale)
}

/// Whether a daemon that stops removes what is at its socket's path: only its own socket, known by
/// its device and its inode.
pub fn removes_socket(bound: (u64, u64), found: Option<(u64, u64)>) -> (removes: bool)
    ensures
        removes == (found == Some(bound)),
{
    match found {
        Some(found) => found.0 == bound.0 && found.1 == bound.1,
        None => false,
    }
}

/// Who serves a request.
pub enum Routed {
    /// The engine, at once.
    Engine(RequestEnvelope),
    /// The wait that shares the engine with other requests.
    Wait { request_id: String, request: WaitRequest },
}

/// Who serves a request.
pub fn route(envelope: RequestEnvelope) -> (routed: Routed)
    ensures
        match routed {
            Routed::Engine(same) => same == envelope && !(envelope.request is Wait),
            Routed::Wait { request_id, request } => envelope.request_id == request_id
                && envelope.request == DaemonRequest::Wait(request),
        },
{
    let RequestEnvelope { request_id, request } = envelope;
    match request {
        DaemonRequest::Wait(request) => Routed::Wait { request_id, request },
        request => Routed::Engine(RequestEnvelope { request_id, request }),
    }
}

/// The place of the one wait that a daemon serves at a time.
#[derive(Debug, Clone, Copy, PartialEq, Eq, Structural)]
pub struct WaitSlot {
    pub taken: bool,
}

/// The failure of a wait while another one is served.
pub open spec fn busy() -> CuErrorView {
    failure(ErrorCode::Busy, "another screen-change wait is already active"@)
}

impl WaitSlot {
    /// The place once a wait asked for it, and why that wait was refused, if it was.
    pub open spec fn asked(self) -> (WaitSlot, Option<CuErrorView>) {
        (
            WaitSlot { taken: true },
            if self.taken {
                Some(busy())
            } else {
                None
            },
        )
    }

    /// The place once its wait is over.
    pub open spec fn left(self) -> WaitSlot {
        WaitSlot { taken: false }
    }

    /// A free place.
    pub fn new() -> (slot: Self)
        ensures
            !slot.taken,
    {
        WaitSlot { taken: false }
    }

    /// Take the place, or refuse where it is taken.
    pub fn acquire(&mut self) -> (result: Result<(), CuError>)
        ensures
            final(self).taken,
            result is Ok <==> !old(self).taken,
            result matches Err(error) ==> error@ == busy(),
            (*final(self), crate::validate::refusal(result)) == old(self).asked(),
    {
        if self.taken {
            return Err(
                CuError::new(ErrorCode::Busy, "another screen-change wait is already active"),
            );
        }
        self.taken = true;
        Ok(())
    }

    /// Free the place.
    pub fn release(&mut self)
        ensures
            !final(self).taken,
            *final(self) == old(self).left(),
    {
        self.taken = false;
    }
}

/// What the client of a wait did while it was served.
pub enum ClientRead {
    /// It closed the connection.
    Closed,
    /// It sent something.
    Data,
    /// The operating system's diagnostic.
    Failed(String),
}

/// How the service of a wait's client ends. Whatever the client did, the wait is cancelled.
pub fn watch_client(read: ClientRead) -> (result: Result<(), String>)
    ensures
        match read {
            ClientRead::Closed => result is Ok,
            ClientRead::Data => result matches Err(message) && message@
                == "client sent data after its wait request"@,
            ClientRead::Failed(detail) => result matches Err(message) && message@
                == "failed while watching wait client: "@ + detail@,
        },
{
    match read {
        ClientRead::Closed => Ok(()),
        ClientRead::Data => Err("client sent data after its wait request".to_owned()),
        ClientRead::Failed(detail) => {
            let mut message = "failed while watching wait client: ".to_owned();
            message.append(&detail);
            Err(message)
        },
    }
}

/// Take the capture that a wait asked for and evaluate it.
pub fn take_sample(
    tracker: &mut WaitTracker,
    captured: Result<CapturedFrame, CuError>,
    cancelled_now: bool,
    now: u64,
) -> (result: Result<WaitStep, CuError>)
    requires
        old(tracker)@.well_formed(),
    ensures
        ({
            let (after, step) = match sample_of(capture_view(captured), cancelled_now) {
                Ok(frame) => old(tracker)@.sampled(frame, now),
                Err(error) => (old(tracker)@, Err::<StepView, CuErrorView>(error)),
            };
            final(tracker)@ == after && step_view(result) == step
        }),
        final(tracker)@.well_formed(),
{
    match accept_wait_sample(captured, cancelled_now) {
        Err(error) => Err(error),
        Ok(frame) => tracker.observe_sample(frame, now),
    }
}

/// The answer to a wait.
pub fn wait_response(request_id: String, result: Result<WaitOutcome, CuError>) -> (response:
    ResponseEnvelope)
    ensures
        response@ == (ResponseEnvelopeView {
            request_id: request_id@,
            result: match result {
                Ok(outcome) => ResponseResultView::Success(DaemonResponseView::Wait(outcome@)),
                Err(error) => ResponseResultView::Error(error@),
            },
        }),
{
    match result {
        Ok(outcome) => response_from_result(request_id, Ok(DaemonResponse::Wait(outcome))),
        Err(error) => error_response(request_id, error),
    }
}

/// The failure of an engine task that stopped unexpectedly.
pub fn join_error(detail: &str) -> (error: CuError)
    ensures
        error@ == failure(ErrorCode::Internal, "engine task panicked: "@ + detail@),
{
    crate::store::joined_error(ErrorCode::Internal, "engine task panicked: ", detail)
}

/// A message as it goes over a socket: one line.
pub fn frame_message(encoded: Vec<u8>) -> (line: Vec<u8>)
    ensures
        line@ == encoded@.push(10),
{
    let mut line = encoded;
    line.push(10);
    line
}

/// Refuse a connection that was closed before a response came.
pub fn check_response_line(line: &str) -> (result: Result<(), String>)
    ensures
        line@.len() > 0 ==> result is Ok,
        line@.len() == 0 ==> (result matches Err(message) && message@
            == "daemon closed the connection without a response"@),
{
    if line.is_empty() {
        return Err("daemon closed the connection without a response".to_owned());
    }
    Ok(())
}

/// A daemon serves one wait at a time: the first one that asks gets the place, every other one is
/// busy until the place is left, and the next one gets it again.
pub proof fn one_wait_is_served_at_a_time(slot: WaitSlot)
    requires
        !slot.taken,
    ensures
        slot.asked().1 is None,
        slot.asked().0.asked().1 matches Some(error) && error.code is Busy,
        slot.asked().0.asked().0.asked().1 matches Some(error) && error.code is Busy,
        slot.asked().0.asked().0.left().asked().1 is None,
        slot.asked().0.left() == slot,
{
}

} // verus!
