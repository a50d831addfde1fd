//! The state of one MCP session: its connection, its numbered frames and its action requests.
use vstd::prelude::*;

use crate::instance::{invalid_name, is_instance_name, InstanceName};
use crate::protocol::{
    action_views, copy_actions, failure, same_actions, ActRequest, ActRequestView, Action,
    ActionView, CuError, CuErrorView, ErrorCode, SettlePolicy,
};
use crate::text::same_text;
use crate::validate::refusal;

verus! {

/// Most action requests that a session remembers.
pub const MAX_MCP_CACHED_ACTIONS: usize = 64;

/// The desktop that a session connects to.
#[derive(Debug)]
pub enum ConnectionTarget {
    /// The daemon without a name.
    Default,
    /// The session's own offscreen desktop.
    Private,
    Named(InstanceName),
}

/// A target with its name as a sequence.
pub enum TargetView {
    Default,
    Private,
    Named(Seq<char>),
}

impl View for ConnectionTarget {
    type V = TargetView;

    open spec fn view(&self) -> TargetView {
        match *self {
            ConnectionTarget::Default => TargetView::Default,
            ConnectionTarget::Private => TargetView::Private,
            ConnectionTarget::Named(name) => TargetView::Named(name@),
        }
    }
}

impl Clone for ConnectionTarget {
    fn clone(&self) -> (copy: Self)
        ensures
            copy@ == self@,
    {
        match self {
            ConnectionTarget::Default => ConnectionTarget::Default,
            ConnectionTarget::Private => ConnectionTarget::Private,
            ConnectionTarget::Named(name) => ConnectionTarget::Named(name.clone()),
        }
    }
}

/// The target that a name selects, or why it selects none.
pub open spec fn target_of(name: Seq<char>) -> Result<TargetView, Seq<char>> {
    if name == "@default"@ {
        Ok(TargetView::Default)
    } else if name == "@private"@ {
        Ok(TargetView::Private)
    } else if is_instance_name(name) {
        Ok(TargetView::Named(name))
    } else {
        Err(
            "invalid name: use @default, @private, or an existing instance name; "@
                + invalid_name(),
        )
    }
}

/// The name that is used where none is given.
pub fn default_connect_name() -> (name: String)
    ensures
        name@ == "@default"@,
        target_of(name@) == Ok::<TargetView, Seq<char>>(TargetView::Default),
{
    "@default".to_owned()
}

impl ConnectionTarget {
    /// The target that a name selects.
    pub fn parse(name: &str) -> (result: Result<Self, String>)
        ensures
            match result {
                Ok(target) => target_of(name@) == Ok::<TargetView, Seq<char>>(target@),
                Err(message) => target_of(name@) == Err::<TargetView, Seq<char>>(message@),
            },
    {
        if same_text(name, "@default") {
            return Ok(ConnectionTarget::Default);
        }
        if same_text(name, "@private") {
            return Ok(ConnectionTarget::Private);
        }
        match InstanceName::parse(name) {
            Ok(name) => Ok(ConnectionTarget::Named(name)),
            Err(error) => {
                let mut message =
                    "invalid name: use @default, @private, or an existing instance name; ".to_owned();
                message.append(&error);
                Err(message)
            },
        }
    }

    /// Whether the target is the session's own desktop.
    pub fn is_private(&self) -> (private: bool)
        ensures
            private == (self@ is Private),
    {
        match self {
            ConnectionTarget::Private => true,
            _ => false,
        }
    }
}

/// A connection of a session.
#[derive(Debug)]
pub struct Connection {
    pub socket: String,
    pub target: ConnectionTarget,
    /// A text that no other connection has.
    pub generation: String,
}

/// A connection with its texts as sequences.
pub struct ConnectionView {
    pub socket: Seq<char>,
    pub target: TargetView,
    pub generation: Seq<char>,
}

impl View for Connection {
    type V = ConnectionView;

    open spec fn view(&self) -> ConnectionView {
        ConnectionView {
            socket: self.socket@,
            target: self.target@,
            generation: self.generation@,
        }
    }
}

impl Clone for Connection {
    fn clone(&self) -> (copy: Self)
        ensures
            copy@ == self@,
    {
        Connection {
            socket: self.socket.clone(),
            target: self.target.clone(),
            generation: self.generation.clone(),
        }
    }
}

/// The number that a session gave a daemon's frame.
#[derive(Debug, PartialEq, Eq)]
pub struct FrameBinding {
    pub frame: u64,
    pub internal_id: String,
}

/// A binding with its text as a sequence.
pub struct BindingView {
    pub frame: u64,
    pub internal_id: Seq<char>,
}

impl View for FrameBinding {
    type V = BindingView;

    open spec fn view(&self) -> BindingView {
        BindingView { frame: self.frame, internal_id: self.internal_id@ }
    }
}

impl Clone for FrameBinding {
    fn clone(&self) -> (copy: Self)
        ensures
            copy@ == self@,
    {
        FrameBinding { frame: self.frame, internal_id: self.internal_id.clone() }
    }
}

/// The view of an optional binding.
pub open spec fn binding_view(binding: Option<FrameBinding>) -> Option<BindingView> {
    match binding {
        Some(binding) => Some(binding@),
        None => None,
    }
}

/// The view of a binding or a failure.
pub open spec fn binding_result(result: Result<FrameBinding, CuError>) -> Result<
    BindingView,
    CuErrorView,
> {
    match result {
        Ok(binding) => Ok(binding@),
        Err(error) => Err(error@),
    }
}

fn same_binding(first: &FrameBinding, second: &FrameBinding) -> (same: bool)
    ensures
        same == (first@ == second@),
{
    first.frame == second.frame && same_text(&first.internal_id, &second.internal_id)
}

/// An action request of an agent: it names a frame by its number.
#[derive(Debug)]
pub struct McpActRequest {
    /// Session-local frame number from the latest observe or action result.
    pub frame: u64,
    /// Between 1 and 16 sequential actions.
    pub actions: Vec<Action>,
    /// Settling policy applied before capturing the post-action screenshot.
    pub settle: SettlePolicy,
}

/// An agent's action request with its actions as sequences.
pub struct McpActView {
    pub frame: u64,
    pub actions: Seq<ActionView>,
    pub settle: SettlePolicy,
}

impl View for McpActRequest {
    type V = McpActView;

    open spec fn view(&self) -> McpActView {
        McpActView {
            frame: self.frame,
            actions: action_views(self.actions@),
            settle: self.settle,
        }
    }
}

impl Clone for McpActRequest {
    fn clone(&self) -> (copy: Self)
        ensures
            copy@ == self@,
    {
        McpActRequest {
            frame: self.frame,
            actions: copy_actions(&self.actions),
            settle: self.settle,
        }
    }
}

fn same_act(first: &McpActRequest, second: &McpActRequest) -> (same: bool)
    ensures
        same == (first@ == second@),
{
    first.frame == second.frame && first.settle == second.settle && same_actions(
        &first.actions,
        &second.actions,
    )
}

/// An action request that a session remembers, with the frame that it led to.
#[derive(Debug)]
pub struct CachedMcpAction {
    pub request_id: String,
    pub request: McpActRequest,
    pub protocol_request: ActRequest,
    pub result_frame: Option<FrameBinding>,
}

/// A remembered request with its texts as sequences.
pub struct MemoView {
    pub request_id: Seq<char>,
    pub request: McpActView,
    pub protocol_request: ActRequestView,
    pub result_frame: Option<BindingView>,
}

impl View for CachedMcpAction {
    type V = MemoView;

    open spec fn view(&self) -> MemoView {
        MemoView {
            request_id: self.request_id@,
            request: self.request@,
            protocol_request: self.protocol_request@,
            result_frame: binding_view(self.result_frame),
        }
    }
}

/// The views of the remembered requests.
pub open spec fn memo_views(memos: Seq<CachedMcpAction>) -> Seq<MemoView> {
    Seq::new(memos.len(), |i: int| memos[i]@)
}

/// The state of a session.
#[derive(Debug)]
pub struct McpSessionState {
    pub connection: Option<Connection>,
    /// Number of the last frame that was bound.
    pub latest_frame: u64,
    /// The frame that the next action or wait may name.
    pub current: Option<FrameBinding>,
    /// Action requests, oldest first.
    pub completed_actions: Vec<CachedMcpAction>,
}

/// A session's state with its texts and lists as sequences.
pub struct SessionView {
    pub connection: Option<ConnectionView>,
    pub latest_frame: u64,
    pub current: Option<BindingView>,
    pub completed: Seq<MemoView>,
}

/// The view of an optional connection.
pub open spec fn connection_view(connection: Option<Connection>) -> Option<ConnectionView> {
    match connection {
        Some(connection) => Some(connection@),
        None => None,
    }
}

impl View for McpSessionState {
    type V = SessionView;

    open spec fn view(&self) -> SessionView {
        SessionView {
            connection: connection_view(self.connection),
            latest_frame: self.latest_frame,
            current: binding_view(self.current),
            completed: memo_views(self.completed_actions@),
        }
    }
}

/// The place of a remembered request.
pub open spec fn memo_place(memos: Seq<MemoView>, request_id: Seq<char>, from: int) -> Option<int>
    decreases memos.len() - from,
{
    if from < 0 || from >= memos.len() {
        None
    } else if memos[from].request_id == request_id {
        Some(from)
    } else {
        memo_place(memos, request_id, from + 1)
    }
}

pub(crate) proof fn memo_place_is_first(memos: Seq<MemoView>, request_id: Seq<char>, from: int)
    requires
        0 <= from,
    ensures
        match memo_place(memos, request_id, from) {
            Some(place) => from <= place < memos.len() && memos[place].request_id == request_id,
            None => forall|i: int|
                from <= i < memos.len() ==> (#[trigger] memos[i]).request_id != request_id,
        },
    decreases memos.len() - from,
{
    if from < memos.len() && memos[from].request_id != request_id {
        memo_place_is_first(memos, request_id, from + 1);
    }
}

/// The list with one more request; the oldest one leaves a full list.
pub open spec fn memos_with(memos: Seq<MemoView>, memo: MemoView) -> Seq<MemoView> {
    let longer = memos.push(memo);
    if longer.len() > MAX_MCP_CACHED_ACTIONS {
        longer.drop_first()
    } else {
        longer
    }
}

/// The failure of a call that names no usable frame.
pub open spec fn stale_session(message: Seq<char>) -> CuErrorView {
    failure(ErrorCode::StaleFrame, message)
}

/// The failure of a wait whose frame is no longer the current one.
pub open spec fn superseded() -> CuErrorView {
    stale_session(
        "the wait frame was superseded; use the latest returned observation or observe again"@,
    )
}

impl SessionView {
    /// The invariant of a session: it remembers at most 64 requests under distinct identifiers,
    /// and every frame that it knows has a number that was given out.
    pub open spec fn valid(self) -> bool {
        &&& self.completed.len() <= MAX_MCP_CACHED_ACTIONS
        &&& forall|i: int, j: int|
            0 <= i < j < self.completed.len() ==> (#[trigger] self.completed[i]).request_id != (
            #[trigger] self.completed[j]).request_id
        &&& self.current matches Some(binding) ==> 0 < binding.frame <= self.latest_frame
        &&& forall|i: int|
            0 <= i < self.completed.len() ==> ((
            #[trigger] self.completed[i]).result_frame matches Some(binding) ==> 0 < binding.frame
                <= self.latest_frame)
    }

    /// The session once it was disconnected: numbers go on, everything else is forgotten.
    pub open spec fn disconnected(self) -> SessionView {
        SessionView {
            connection: None,
            current: None,
            completed: Seq::empty(),
            ..self
        }
    }

    /// The frame that a number stands for, or why it stands for none.
    pub open spec fn frame_named(self, frame: u64) -> Result<BindingView, CuErrorView> {
        if frame == 0 {
            Err(failure(ErrorCode::InvalidAction, "frame must be a positive integer"@))
        } else {
            match self.current {
                None => Err(
                    stale_session(
                        "no current screenshot in this MCP session; call computer_observe"@,
                    ),
                ),
                Some(current) => if frame != current.frame {
                    Err(
                        stale_session(
                            "the supplied frame is no longer current; call computer_observe"@,
                        ),
                    )
                } else {
                    Ok(current)
                },
            }
        }
    }

    /// What preparing an action request does to the session, and the request for the daemon.
    pub open spec fn prepares(self, request_id: Seq<char>, request: McpActView) -> (
        SessionView,
        Result<ActRequestView, CuErrorView>,
    ) {
        match memo_place(self.completed, request_id, 0) {
            Some(place) => if self.completed[place].request == request {
                (self, Ok(self.completed[place].protocol_request))
            } else {
                (
                    self,
                    Err(
                        failure(
                            ErrorCode::ProtocolError,
                            "request_id was reused with a different request"@,
                        ),
                    ),
                )
            },
            None => match self.frame_named(request.frame) {
                Err(error) => (self, Err(error)),
                Ok(current) => {
                    let protocol_request = ActRequestView {
                        expected_frame_id: current.internal_id,
                        actions: request.actions,
                        settle: request.settle,
                    };
                    let memo = MemoView {
                        request_id,
                        request,
                        protocol_request,
                        result_frame: None,
                    };
                    (
                        SessionView { completed: memos_with(self.completed, memo), ..self },
                        Ok(protocol_request),
                    )
                },
            },
        }
    }

    /// What giving a frame the next number does.
    pub open spec fn binds(self, internal_id: Seq<char>) -> (SessionView, Result<
        BindingView,
        CuErrorView,
    >) {
        if self.latest_frame == u64::MAX {
            (self, Err(failure(ErrorCode::Internal, "MCP frame sequence was exhausted"@)))
        } else {
            let frame = (self.latest_frame + 1) as u64;
            (
                SessionView { latest_frame: frame, ..self },
                Ok(BindingView { frame, internal_id }),
            )
        }
    }

    /// What giving the frame of an action's result a number does: a retry gets the number that the
    /// first result got.
    pub open spec fn binds_action(self, request_id: Seq<char>, internal_id: Seq<char>) -> (
        SessionView,
        Result<BindingView, CuErrorView>,
    ) {
        match memo_place(self.completed, request_id, 0) {
            Some(place) => match self.completed[place].result_frame {
                Some(binding) => if binding.internal_id == internal_id {
                    (self, Ok(binding))
                } else {
                    (
                        self,
                        Err(
                            failure(
                                ErrorCode::ProtocolError,
                                "a cached action returned a different observation"@,
                            ),
                        ),
                    )
                },
                None => match self.binds(internal_id) {
                    (bound, Ok(binding)) => (
                        SessionView {
                            completed: bound.completed.update(
                                place,
                                MemoView {
                                    result_frame: Some(binding),
                                    ..bound.completed[place]
                                },
                            ),
                            ..bound
                        },
                        Ok(binding),
                    ),
                    (bound, Err(error)) => (bound, Err(error)),
                },
            },
            None => match self.binds(internal_id) {
                (bound, Ok(_)) => (
                    bound,
                    Err(failure(ErrorCode::Internal, "action request was not tracked"@)),
                ),
                (bound, Err(error)) => (bound, Err(error)),
            },
        }
    }

    /// Why a wait's frame cannot be used any more, if it cannot.
    pub open spec fn supersedes(self, expected: BindingView) -> Option<CuErrorView> {
        if self.current == Some(expected) {
            None
        } else {
            Some(superseded())
        }
    }

    /// What giving the frame of a changed wait a number does.
    pub open spec fn binds_wait(self, baseline: BindingView, internal_id: Seq<char>) -> (
        SessionView,
        Result<BindingView, CuErrorView>,
    ) {
        match self.supersedes(baseline) {
            Some(error) => (self, Err(error)),
            None => self.binds(internal_id),
        }
    }

    /// The session once a frame was returned: it is the current one if it is the newest.
    pub open spec fn committed(self, binding: BindingView) -> SessionView {
        if binding.frame == self.latest_frame {
            SessionView { current: Some(binding), ..self }
        } else {
            self
        }
    }

    /// The session without a current frame.
    pub open spec fn cleared(self) -> SessionView {
        SessionView { current: None, ..self }
    }

    /// The session without a current frame, if that was the given one.
    pub open spec fn cleared_if(self, expected: BindingView) -> SessionView {
        if self.current == Some(expected) {
            self.cleared()
        } else {
            self
        }
    }

    /// The session after a failure: one that tells that nothing was done keeps the current frame.
    pub open spec fn after_error(self, code: ErrorCode) -> SessionView {
        if leaves_desktop_alone(code) {
            self
        } else {
            self.cleared()
        }
    }
}

/// Whether a failure tells that nothing was done to the desktop.
pub open spec fn leaves_desktop_alone(code: ErrorCode) -> bool {
    code == ErrorCode::InvalidAction || code == ErrorCode::OutOfBounds || code
        == ErrorCode::UnsupportedInput || code == ErrorCode::ProtocolError
}

/// Whether a wait's failure makes its frame unusable.
pub open spec fn wait_invalidates(code: ErrorCode) -> bool {
    !(code == ErrorCode::StaleFrame || code == ErrorCode::Busy || leaves_desktop_alone(code))
}

/// Whether a wait's failure makes its frame unusable.
pub fn wait_error_invalidates_frame(code: ErrorCode) -> (invalidates: bool)
    ensures
        invalidates == wait_invalidates(code),
{
    match code {
        ErrorCode::StaleFrame => false,
        ErrorCode::Busy => false,
        ErrorCode::InvalidAction => false,
        ErrorCode::OutOfBounds => false,
        ErrorCode::UnsupportedInput => false,
        ErrorCode::ProtocolError => false,
        _ => true,
    }
}

/// The view of a request for the daemon or a failure.
pub open spec fn act_result(result: Result<ActRequest, CuError>) -> Result<
    ActRequestView,
    CuErrorView,
> {
    match result {
        Ok(request) => Ok(request@),
        Err(error) => Err(error@),
    }
}

impl McpSessionState {
    /// A session that is not connected.
    pub fn new() -> (state: Self)
        ensures
            state@ == (SessionView {
                connection: None,
                latest_frame: 0,
                current: None,
                completed: Seq::empty(),
            }),
            state@.valid(),
    {
        let state = McpSessionState {
            connection: None,
            latest_frame: 0,
            current: None,
            completed_actions: Vec::new(),
        };
        assert(state@.completed =~= Seq::empty());
        state
    }

    /// End the connection and forget its frames and requests. The connection that ended is
    /// returned.
    pub fn disconnect(&mut self) -> (ended: Option<Connection>)
        requires
            old(self)@.valid(),
        ensures
            connection_view(ended) == old(self)@.connection,
            final(self)@ == old(self)@.disconnected(),
            final(self)@.valid(),
    {
        self.current = None;
        self.completed_actions = Vec::new();
        let ended = self.connection.take();
        assert(self@.completed =~= Seq::empty());
        ended
    }

    /// Note a connection.
    pub fn connect(&mut self, connection: Connection)
        requires
            old(self)@.valid(),
        ensures
            final(self)@ == (SessionView { connection: Some(connection@), ..old(self)@ }),
            final(self)@.valid(),
    {
        self.connection = Some(connection);
    }

    /// The frame that a number stands for.
    pub fn resolve_frame(&self, frame: u64) -> (result: Result<FrameBinding, CuError>)
        ensures
            binding_result(result) == self@.frame_named(frame),
    {
        if frame == 0 {
            return Err(CuError::new(ErrorCode::InvalidAction, "frame must be a positive integer"));
        }
        match &self.current {
            None => Err(
                CuError::new(
                    ErrorCode::StaleFrame,
                    "no current screenshot in this MCP session; call computer_observe",
                ),
            ),
            Some(current) => {
                if frame != current.frame {
                    return Err(
                        CuError::new(
                            ErrorCode::StaleFrame,
                            "the supplied frame is no longer current; call computer_observe",
                        ),
                    );
                }
                Ok(current.clone())
            },
        }
    }

    fn find_action(&self, request_id: &str) -> (place: Option<usize>)
        ensures
            match place {
                Some(place) => memo_place(self@.completed, request_id@, 0) == Some(place as int)
                    && place < self.completed_actions.len(),
                None => memo_place(self@.completed, request_id@, 0) is None,
            },
    {
        let mut n: usize = 0;
        while n < self.completed_actions.len()
            invariant
                n <= self.completed_actions.len(),
                memo_place(self@.completed, request_id@, 0) == memo_place(
                    self@.completed,
                    request_id@,
                    n as int,
                ),
            decreases self.completed_actions.len() - n,
        {
            assert(self@.completed[n as int] == self.completed_actions[n as int]@);
            if same_text(&self.completed_actions[n].request_id, request_id) {
                return Some(n);
            }
            n += 1;
        }
        None
    }

    /// Whether a request is a retry of one that the session remembers.
    pub fn is_retry(&self, request_id: &str) -> (retry: bool)
        ensures
            retry == (memo_place(self@.completed, request_id@, 0) is Some),
    {
        self.find_action(request_id).is_some()
    }

    /// The request for the daemon that an agent's request stands for. A retry stands for the same
    /// one as the first time.
    pub fn prepare_action(&mut self, request_id: &str, request: &McpActRequest) -> (result: Result<
        ActRequest,
        CuError,
    >)
        requires
            old(self)@.valid(),
        ensures
            (final(self)@, act_result(result)) == old(self)@.prepares(request_id@, request@),
            final(self)@.valid(),
    {
        if let Some(place) = self.find_action(request_id) {
            assert(self@.completed[place as int] == self.completed_actions[place as int]@);
            let cached = &self.completed_actions[place];
            if same_act(&cached.request, request) {
                return Ok(cached.protocol_request.clone());
            }
            return Err(
                CuError::new(
                    ErrorCode::ProtocolError,
                    "request_id was reused with a different request",
                ),
            );
        }
        let current = match self.resolve_frame(request.frame) {
            Ok(current) => current,
            Err(error) => {
                return Err(error);
            },
        };
        proof {
            memo_place_is_first(self@.completed, request_id@, 0);
        }
        let protocol_request = ActRequest {
            expected_frame_id: current.internal_id,
            actions: copy_actions(&request.actions),
            settle: request.settle,
        };
        let ghost before = self@;
        let memo = CachedMcpAction {
            request_id: request_id.to_owned(),
            request: request.clone(),
            protocol_request: protocol_request.clone(),
            result_frame: None,
        };
        let ghost view = memo@;
        self.completed_actions.push(memo);
        assert(self@.completed =~= before.completed.push(view));
        if self.completed_actions.len() > MAX_MCP_CACHED_ACTIONS {
            let ghost longer = self@.completed;
            self.completed_actions.remove(0);
            assert(self@.completed =~= longer.drop_first());
        }
        Ok(protocol_request)
    }

    /// Give a frame the next number.
    pub fn bind_observation(&mut self, internal_id: String) -> (result: Result<
        FrameBinding,
        CuError,
    >)
        requires
            old(self)@.valid(),
        ensures
            (final(self)@, binding_result(result)) == old(self)@.binds(internal_id@),
            final(self)@.valid(),
    {
        if self.latest_frame == u64::MAX {
            return Err(CuError::new(ErrorCode::Internal, "MCP frame sequence was exhausted"));
        }
        self.latest_frame = self.latest_frame + 1;
        Ok(FrameBinding { frame: self.latest_frame, internal_id })
    }

    /// Give the frame of an action's result a number.
    pub fn bind_action_observation(&mut self, request_id: &str, internal_id: String) -> (result:
        Result<FrameBinding, CuError>)
        requires
            old(self)@.valid(),
        ensures
            (final(self)@, binding_result(result)) == old(self)@.binds_action(
                request_id@,
                internal_id@,
            ),
            final(self)@.valid(),
    {
        let place = self.find_action(request_id);
        if let Some(place) = place {
            assert(self@.completed[place as int] == self.completed_actions[place as int]@);
            if let Some(binding) = &self.completed_actions[place].result_frame {
                if same_text(&binding.internal_id, &internal_id) {
                    return Ok(binding.clone());
                }
                return Err(
                    CuError::new(
                        ErrorCode::ProtocolError,
                        "a cached action returned a different observation",
                    ),
                );
            }
        }
        let binding = match self.bind_observation(internal_id) {
            Ok(binding) => binding,
            Err(error) => {
                return Err(error);
            },
        };
        match place {
            Some(place) => {
                let ghost bound = self@;
                let old_memo = self.completed_actions.remove(place);
                let ghost removed = old_memo@;
                let memo = CachedMcpAction {
                    request_id: old_memo.request_id,
                    request: old_memo.request,
                    protocol_request: old_memo.protocol_request,
                    result_frame: Some(binding.clone()),
                };
                let ghost view = memo@;
                self.completed_actions.insert(place, memo);
                assert(self@.completed =~= bound.completed.update(place as int, view));
                Ok(binding)
            },
            None => Err(CuError::new(ErrorCode::Internal, "action request was not tracked")),
        }
    }

    /// Give the frame of a changed wait a number, if the wait's frame is still the current one.
    pub fn bind_wait_observation(&mut self, baseline: &FrameBinding, internal_id: String) -> (result:
        Result<FrameBinding, CuError>)
        requires
            old(self)@.valid(),
        ensures
            (final(self)@, binding_result(result)) == old(self)@.binds_wait(
                baseline@,
                internal_id@,
            ),
            final(self)@.valid(),
    {
        match self.ensure_current(baseline) {
            Ok(()) => {},
            Err(error) => {
                return Err(error);
            },
        }
        self.bind_observation(internal_id)
    }

    fn is_current(&self, expected: &FrameBinding) -> (current: bool)
        ensures
            current == (self@.current == Some(expected@)),
    {
        match &self.current {
            Some(current) => same_binding(current, expected),
            None => false,
        }
    }

    /// Refuse a wait whose frame is no longer the current one.
    pub fn ensure_current(&self, expected: &FrameBinding) -> (result: Result<(), CuError>)
        ensures
            refusal(result) == self@.supersedes(expected@),
    {
        if self.is_current(expected) {
            return Ok(());
        }
        Err(
            CuError::new(
                ErrorCode::StaleFrame,
                "the wait frame was superseded; use the latest returned observation or observe again",
            ),
        )
    }

    /// Make a returned frame the current one, if it is the newest.
    pub fn commit(&mut self, binding: FrameBinding)
        requires
            old(self)@.valid(),
            binding@.frame > 0,
        ensures
            final(self)@ == old(self)@.committed(binding@),
            final(self)@.valid(),
    {
        if binding.frame == self.latest_frame {
            self.current = Some(binding);
        }
    }

    /// Have no current frame.
    pub fn clear(&mut self)
        requires
            old(self)@.valid(),
        ensures
            final(self)@ == old(self)@.cleared(),
            final(self)@.valid(),
    {
        self.current = None;
    }

    /// Have no current frame, if it is the given one.
    pub fn clear_if_current(&mut self, expected: &FrameBinding)
        requires
            old(self)@.valid(),
        ensures
            final(self)@ == old(self)@.cleared_if(expected@),
            final(self)@.valid(),
    {
        if self.is_current(expected) {
            self.current = None;
        }
    }

    /// Have no current frame after a failure that may have changed the desktop.
    pub fn apply_error(&mut self, error: &CuError)
        requires
            old(self)@.valid(),
        ensures
            final(self)@ == old(self)@.after_error(error@.code),
            final(self)@.valid(),
    {
        match error.code {
            ErrorCode::InvalidAction => {},
            ErrorCode::OutOfBounds => {},
            ErrorCode::UnsupportedInput => {},
            ErrorCode::ProtocolError => {},
            _ => {
                self.current = None;
            },
        }
    }
}

/// Frame numbers start at one and grow by one with each frame that is bound, whatever it is bound
/// for, and a session that is disconnected goes on counting.
pub proof fn frame_numbers_only_grow(
    session: SessionView,
    request_id: Seq<char>,
    internal_id: Seq<char>,
)
    requires
        session.valid(),
    ensures
        session.binds(internal_id).1 matches Ok(binding) ==> binding.frame == session.latest_frame
            + 1 && session.binds(internal_id).0.latest_frame == binding.frame,
        session.binds(internal_id).0.latest_frame >= session.latest_frame,
        session.binds_action(request_id, internal_id).0.latest_frame >= session.latest_frame,
        session.disconnected().latest_frame == session.latest_frame,
{
}

/// A frame of an earlier connection can be named by no number.
pub proof fn disconnected_sessions_know_no_frame(session: SessionView, frame: u64)
    ensures
        session.disconnected().frame_named(frame) is Err,
        session.disconnected().connection is None,
{
}

/// The retry of a request stands for the same request to the daemon, changes nothing, and its
/// result keeps the number that the first result got.
pub proof fn retries_keep_their_frames(
    session: SessionView,
    request_id: Seq<char>,
    request: McpActView,
    internal_id: Seq<char>,
)
    requires
        session.valid(),
        session.prepares(request_id, request).1 is Ok,
    ensures
        ({
            let (prepared, protocol) = session.prepares(request_id, request);
            &&& prepared.prepares(request_id, request) == (prepared, protocol)
            &&& ({
                let (bound, first) = prepared.binds_action(request_id, internal_id);
                first is Ok ==> {
                    &&& bound.prepares(request_id, request) == (bound, protocol)
                    &&& bound.binds_action(request_id, internal_id) == (bound, first)
                }
            })
        }),
{
    let (prepared, protocol) = session.prepares(request_id, request);
    memo_place_is_first(session.completed, request_id, 0);
    if memo_place(session.completed, request_id, 0) is None {
        let last = prepared.completed.len() - 1;
        assert forall|i: int| 0 <= i < last implies (
        #[trigger] prepared.completed[i]).request_id != request_id by {
            if session.completed.len() + 1 > MAX_MCP_CACHED_ACTIONS {
                assert(prepared.completed[i] == session.completed[i + 1]);
            } else {
                assert(prepared.completed[i] == session.completed[i]);
            }
        }
        assert(prepared.completed[last].request_id == request_id);
        memo_place_at(prepared.completed, request_id, 0, last);
    }
    let place = memo_place(prepared.completed, request_id, 0)->0;
    memo_place_is_first(prepared.completed, request_id, 0);
    let (bound, first) = prepared.binds_action(request_id, internal_id);
    if first is Ok {
        assert forall|i: int| 0 <= i < place implies (
        #[trigger] bound.completed[i]).request_id != request_id by {
            memo_place_skips(prepared.completed, request_id, 0, i);
            assert(bound.completed[i] == prepared.completed[i]);
        }
        memo_place_at(bound.completed, request_id, 0, place);
    }
}

proof fn memo_place_at(memos: Seq<MemoView>, request_id: Seq<char>, from: int, place: int)
    requires
        0 <= from <= place < memos.len(),
        memos[place].request_id == request_id,
        forall|i: int| from <= i < place ==> (#[trigger] memos[i]).request_id != request_id,
    ensures
        memo_place(memos, request_id, from) == Some(place),
    decreases place - from,
{
    if from < place {
        assert(memos[from].request_id != request_id);
        memo_place_at(memos, request_id, from + 1, place);
    }
}

proof fn memo_place_skips(memos: Seq<MemoView>, request_id: Seq<char>, from: int, i: int)
    requires
        0 <= from <= i,
        memo_place(memos, request_id, from) matches Some(place) && i < place,
    ensures
        memos[i].request_id != request_id,
    decreases i - from,
{
    if from < i {
        memo_place_skips(memos, request_id, from + 1, i);
    }
}

/// An identifier that is used again for another request is refused, and the session is as before.
pub proof fn reused_request_identifiers_are_refused(
    session: SessionView,
    request_id: Seq<char>,
    first: McpActView,
    second: McpActView,
)
    requires
        session.valid(),
        session.prepares(request_id, first).1 is Ok,
        first != second,
    ensures
        ({
            let prepared = session.prepares(request_id, first).0;
            prepared.prepares(request_id, second) == (
                prepared,
                Err::<ActRequestView, CuErrorView>(
                    failure(
                        ErrorCode::ProtocolError,
                        "request_id was reused with a different request"@,
                    ),
                ),
            )
        }),
{
    let prepared = session.prepares(request_id, first).0;
    memo_place_is_first(session.completed, request_id, 0);
    if memo_place(session.completed, request_id, 0) is None {
        let last = prepared.completed.len() - 1;
        assert forall|i: int| 0 <= i < last implies (
        #[trigger] prepared.completed[i]).request_id != request_id by {
            if session.completed.len() + 1 > MAX_MCP_CACHED_ACTIONS {
                assert(prepared.completed[i] == session.completed[i + 1]);
            } else {
                assert(prepared.completed[i] == session.completed[i]);
            }
        }
        assert(prepared.completed[last].request_id == request_id);
        memo_place_at(prepared.completed, request_id, 0, last);
    }
}

/// The list after further requests.
pub open spec fn memos_after(memos: Seq<MemoView>, later: Seq<MemoView>) -> Seq<MemoView>
    decreases later.len(),
{
    if later.len() == 0 {
        memos
    } else {
        memos_with(memos_after(memos, later.drop_last()), later.last())
    }
}

/// A request is remembered for as long as fewer new ones were made than a session remembers.
pub proof fn remembered_requests_outlive_new_ones(memos: Seq<MemoView>, later: Seq<MemoView>)
    requires
        0 < memos.len() <= 64,
        forall|i: int|
            0 <= i < memos.len() - 1 ==> (#[trigger] memos[i]).request_id
                != memos.last().request_id,
        later.len() < 64,
    ensures
        ({
            let after = memos_after(memos, later);
            let place = after.len() - 1 - later.len();
            &&& 0 <= place < after.len() <= 64
            &&& after[place] == memos.last()
            &&& memo_place(after, memos.last().request_id, 0) == Some(place)
        }),
{
    memos_move_up(memos, later);
    let after = memos_after(memos, later);
    memo_place_at(after, memos.last().request_id, 0, after.len() - 1 - later.len());
}

proof fn memos_move_up(memos: Seq<MemoView>, later: Seq<MemoView>)
    requires
        0 < memos.len() <= MAX_MCP_CACHED_ACTIONS,
        forall|i: int|
            0 <= i < memos.len() - 1 ==> (#[trigger] memos[i]).request_id
                != memos.last().request_id,
        later.len() < MAX_MCP_CACHED_ACTIONS,
    ensures
        ({
            let after = memos_after(memos, later);
            let place = after.len() - 1 - later.len();
            &&& 0 <= place < after.len() <= MAX_MCP_CACHED_ACTIONS
            &&& after[place] == memos.last()
            &&& forall|i: int|
                0 <= i < place ==> (#[trigger] after[i]).request_id != memos.last().request_id
        }),
    decreases later.len(),
{
    if later.len() > 0 {
        memos_move_up(memos, later.drop_last());
        let before = memos_after(memos, later.drop_last());
        let after = memos_after(memos, later);
        let dropped: int = if before.len() + 1 > MAX_MCP_CACHED_ACTIONS {
            1
        } else {
            0
        };
        assert forall|i: int| 0 <= i < after.len() - 1 implies #[trigger] after[i] == before[i
            + dropped] by {}
    }
}

/// A result that is returned once more never takes the place of a newer current frame.
pub proof fn replayed_results_do_not_replace_newer_frames(session: SessionView, replayed: BindingView)
    requires
        session.valid(),
        session.current is Some,
        replayed.frame < session.current->0.frame,
    ensures
        session.committed(replayed) == session,
{
}

/// A request that names a frame is accepted only where that frame is the current one.
pub proof fn only_the_current_frame_can_be_named(session: SessionView, frame: u64)
    ensures
        session.frame_named(frame) is Ok <==> frame > 0 && session.current is Some
            && session.current->0.frame == frame,
{
}

} // verus!
