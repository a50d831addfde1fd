//! What the tools of an MCP session answer: projected results, problems, and images as text.
use vstd::prelude::*;

use crate::protocol::{
    failure, text_view, ActOutcome, ActOutcomeView, ActStatus, CuError, CuErrorView, ErrorCode,
    Observation, ObservationView, Rect,
};
use crate::session::{ConnectionTarget, TargetView};
use crate::text::{
    decimal, push_decimal, push_signed_decimal, signed_decimal, signed_decimals_are_distinct,
};

verus! {

/// What a caller should do after a failure of a category.
pub open spec fn recovery_hint(code: ErrorCode) -> Option<Seq<char>> {
    match code {
        ErrorCode::Indeterminate | ErrorCode::InputFailed | ErrorCode::PartialExecution => Some(
            "call computer_observe and inspect the desktop before issuing more actions; do not repeat completed actions"@,
        ),
        ErrorCode::CaptureFailed | ErrorCode::ViewportChanged | ErrorCode::Cancelled => Some(
            "call computer_observe before continuing"@,
        ),
        ErrorCode::Busy => Some("wait for the active wait to finish before starting another"@),
        _ => None,
    }
}

/// A failure with what to do after it.
pub open spec fn recoverable(error: CuErrorView) -> CuErrorView {
    match recovery_hint(error.code) {
        Some(hint) => CuErrorView { message: error.message + "; "@ + hint, ..error },
        None => error,
    }
}

/// A failure with what to do after it.
pub fn with_recovery(error: CuError) -> (result: CuError)
    ensures
        result@ == recoverable(error@),
{
    let hint = match error.code {
        ErrorCode::Indeterminate | ErrorCode::InputFailed | ErrorCode::PartialExecution =>
            "call computer_observe and inspect the desktop before issuing more actions; do not repeat completed actions",
        ErrorCode::CaptureFailed | ErrorCode::ViewportChanged | ErrorCode::Cancelled =>
            "call computer_observe before continuing",
        ErrorCode::Busy => "wait for the active wait to finish before starting another",
        _ => {
            return error;
        },
    };
    let mut result = error;
    let mut message = result.message.clone();
    message.append("; ");
    message.append(hint);
    result.message = message;
    result
}

/// What an agent sees of an observation: its number, not its identifier or its path.
#[derive(Debug, Clone, Copy, PartialEq, Eq, Structural)]
pub struct McpObservation {
    /// Session-local frame number required by the next act or wait call.
    pub frame: u64,
    /// PNG width and exclusive upper bound for action x coordinates.
    pub width: u32,
    /// PNG height and exclusive upper bound for action y coordinates.
    pub height: u32,
    /// Whether the screen stayed unchanged for `quiet_ms`; an unsettled frame remains usable.
    pub settled: bool,
}

/// What an agent sees of an observation.
pub open spec fn projected(observation: ObservationView, frame: u64) -> McpObservation {
    McpObservation {
        frame,
        width: observation.width,
        height: observation.height,
        settled: observation.settled,
    }
}

impl McpObservation {
    /// What an agent sees of an observation.
    pub fn from_protocol(observation: &Observation, frame: u64) -> (result: Self)
        ensures
            result == projected(observation@, frame),
    {
        McpObservation {
            frame,
            width: observation.width,
            height: observation.height,
            settled: observation.settled,
        }
    }
}

/// What an agent sees of the failure that stopped a batch.
#[derive(Debug, PartialEq, Eq)]
pub struct McpActionError {
    pub code: ErrorCode,
    pub message: String,
    /// Number of leading actions that executed before this failure.
    pub executed: usize,
}

/// A batch's failure with its text as a sequence.
pub struct ActionErrorView {
    pub code: ErrorCode,
    pub message: Seq<char>,
    pub executed: usize,
}

impl View for McpActionError {
    type V = ActionErrorView;

    open spec fn view(&self) -> ActionErrorView {
        ActionErrorView { code: self.code, message: self.message@, executed: self.executed }
    }
}

impl McpActionError {
    /// What an agent sees of the failure that stopped a batch after some actions.
    pub fn from_protocol(error: CuError, executed: usize) -> (result: Self)
        ensures
            result@ == (ActionErrorView {
                code: error@.code,
                message: error@.message,
                executed,
            }),
    {
        McpActionError { code: error.code, message: error.message, executed }
    }
}

/// What an agent sees of an action result.
#[derive(Debug, PartialEq, Eq)]
pub struct McpActOutcome {
    pub status: ActStatus,
    /// Number of leading actions that executed successfully.
    pub executed: usize,
    /// Failure that stopped a partial batch.
    pub action_error: Option<McpActionError>,
    /// Whether the cached result's screenshot has expired.
    pub image_expired: bool,
    /// Fresh frame, absent only when `image_expired` is true.
    pub observation: Option<McpObservation>,
    /// Guidance specific to this result.
    pub message: Option<String>,
}

/// An agent's action result with its texts as sequences.
pub struct McpOutcomeView {
    pub status: ActStatus,
    pub executed: usize,
    pub action_error: Option<ActionErrorView>,
    pub image_expired: bool,
    pub observation: Option<McpObservation>,
    pub message: Option<Seq<char>>,
}

/// The view of an optional batch failure.
pub open spec fn action_error_view(error: Option<McpActionError>) -> Option<ActionErrorView> {
    match error {
        Some(error) => Some(error@),
        None => None,
    }
}

impl View for McpActOutcome {
    type V = McpOutcomeView;

    open spec fn view(&self) -> McpOutcomeView {
        McpOutcomeView {
            status: self.status,
            executed: self.executed,
            action_error: action_error_view(self.action_error),
            image_expired: self.image_expired,
            observation: self.observation,
            message: text_view(self.message),
        }
    }
}

/// The guidance for an action result: for one that was returned once more without its screenshot,
/// and for one that stopped early.
pub open spec fn outcome_guidance(status: ActStatus, image_expired: bool) -> Option<Seq<char>> {
    if image_expired {
        Some(
            "This is a cached action result; the action was not repeated. Call computer_observe for a current screenshot before continuing; do not repeat completed actions."@,
        )
    } else if status == ActStatus::Partial {
        Some(
            "Inspect the returned observation before continuing; do not repeat completed actions."@,
        )
    } else {
        None
    }
}

/// What an agent sees of an action result.
pub open spec fn projected_outcome(
    outcome: ActOutcomeView,
    observation: Option<McpObservation>,
) -> McpOutcomeView {
    McpOutcomeView {
        status: outcome.status,
        executed: outcome.executed,
        action_error: match outcome.action_error {
            Some(error) => Some(
                ActionErrorView {
                    code: error.code,
                    message: error.message,
                    executed: outcome.executed,
                },
            ),
            None => None,
        },
        image_expired: outcome.image_expired,
        observation,
        message: outcome_guidance(outcome.status, outcome.image_expired),
    }
}

impl McpActOutcome {
    /// What an agent sees of an action result.
    pub fn from_protocol(outcome: ActOutcome, observation: Option<McpObservation>) -> (result: Self)
        ensures
            result@ == projected_outcome(outcome@, observation),
    {
        let message = if outcome.image_expired {
            Some(
                "This is a cached action result; the action was not repeated. Call computer_observe for a current screenshot before continuing; do not repeat completed actions.".to_owned(),
            )
        } else if outcome.status == ActStatus::Partial {
            Some(
                "Inspect the returned observation before continuing; do not repeat completed actions.".to_owned(),
            )
        } else {
            None
        };
        let executed: usize = outcome.executed;
        McpActOutcome {
            status: outcome.status,
            executed,
            action_error: match outcome.action_error {
                Some(error) => Some(McpActionError::from_protocol(error, executed)),
                None => None,
            },
            image_expired: outcome.image_expired,
            observation,
            message,
        }
    }
}

/// How a wait ended.
#[derive(Debug, Clone, Copy, PartialEq, Eq, Structural)]
pub enum McpWaitStatus {
    Changed,
    Timeout,
}

/// What an agent sees of a wait's result.
#[derive(Debug, Clone, Copy, PartialEq, Eq, Structural)]
pub struct McpWaitOutcome {
    pub status: McpWaitStatus,
    pub elapsed_ms: u64,
    /// Current session-local frame: unchanged on timeout and new after activity.
    pub frame: u64,
    /// Whether the terminal frame satisfied `quiet_ms`; always true on an unchanged timeout.
    pub settled: bool,
    /// Bounding box covering monitored activity since the first change.
    pub activity_bbox: Option<Rect>,
}

/// A problem that is answered with a category and a message.
#[derive(Debug, PartialEq, Eq)]
pub struct ToolProblem {
    pub code: String,
    pub message: String,
    pub executed: Option<usize>,
    pub action_error: Option<McpActionError>,
}

/// A problem with its texts as sequences.
pub struct ProblemView {
    pub code: Seq<char>,
    pub message: Seq<char>,
    pub executed: Option<usize>,
    pub action_error: Option<ActionErrorView>,
}

impl View for ToolProblem {
    type V = ProblemView;

    open spec fn view(&self) -> ProblemView {
        ProblemView {
            code: self.code@,
            message: self.message@,
            executed: self.executed,
            action_error: action_error_view(self.action_error),
        }
    }
}

/// A problem without a count of actions.
pub open spec fn problem(code: Seq<char>, message: Seq<char>) -> ProblemView {
    ProblemView { code, message, executed: None, action_error: None }
}

fn new_problem(code: &str, message: String) -> (result: ToolProblem)
    ensures
        result@ == problem(code@, message@),
{
    ToolProblem { code: code.to_owned(), message, executed: None, action_error: None }
}

/// What is shown together with an image.
#[derive(Debug, PartialEq, Eq)]
pub enum ImageContent {
    Observation(McpObservation),
    Act(McpActOutcome),
    Wait(McpWaitOutcome),
}

/// What is shown with an image, with texts as sequences.
pub enum ContentView {
    Observation(McpObservation),
    Act(McpOutcomeView),
    Wait(McpWaitOutcome),
}

impl View for ImageContent {
    type V = ContentView;

    open spec fn view(&self) -> ContentView {
        match *self {
            ImageContent::Observation(observation) => ContentView::Observation(observation),
            ImageContent::Act(outcome) => ContentView::Act(outcome@),
            ImageContent::Wait(outcome) => ContentView::Wait(outcome),
        }
    }
}

/// The answer of a tool.
#[derive(Debug, PartialEq, Eq)]
pub enum ToolReply {
    /// A failure as plain text.
    Text(String),
    Problem(ToolProblem),
    /// A failure with its category and its details.
    Failure(CuError),
    Connected { profile: String },
    /// A result without an image.
    Plain(ImageContent),
    /// A result with an image in base 64.
    Image { content: ImageContent, image: String },
    /// A wait that goes on in the background, and the file that its result will be in.
    Started { signal_path: String },
}

/// A tool's answer with its texts as sequences.
pub enum ReplyView {
    Text(Seq<char>),
    Problem(ProblemView),
    Failure(CuErrorView),
    Connected { profile: Seq<char> },
    Plain(ContentView),
    Image { content: ContentView, image: Seq<char> },
    Started { signal_path: Seq<char> },
}

impl View for ToolReply {
    type V = ReplyView;

    open spec fn view(&self) -> ReplyView {
        match *self {
            ToolReply::Text(text) => ReplyView::Text(text@),
            ToolReply::Problem(problem) => ReplyView::Problem(problem@),
            ToolReply::Failure(error) => ReplyView::Failure(error@),
            ToolReply::Connected { profile } => ReplyView::Connected { profile: profile@ },
            ToolReply::Plain(content) => ReplyView::Plain(content@),
            ToolReply::Image { content, image } => ReplyView::Image {
                content: content@,
                image: image@,
            },
            ToolReply::Started { signal_path } => ReplyView::Started { signal_path: signal_path@ },
        }
    }
}

/// The answer to a call that was cancelled.
pub open spec fn cancelled_reply() -> ReplyView {
    ReplyView::Problem(
        problem(
            "cancelled"@,
            "the computer operation was cancelled; call computer_observe and inspect the desktop before continuing"@,
        ),
    )
}

/// The answer to a call that was cancelled.
pub fn cancelled_result() -> (reply: ToolReply)
    ensures
        reply@ == cancelled_reply(),
{
    ToolReply::Problem(
        new_problem(
            "cancelled",
            "the computer operation was cancelled; call computer_observe and inspect the desktop before continuing".to_owned(),
        ),
    )
}

/// The answer to a connection attempt that was cancelled.
pub open spec fn cancelled_connect_reply() -> ReplyView {
    ReplyView::Problem(
        problem(
            "cancelled"@,
            "the connection attempt was cancelled; call computer_connect before continuing"@,
        ),
    )
}

/// The answer to a connection attempt that was cancelled.
pub fn cancelled_connect_result() -> (reply: ToolReply)
    ensures
        reply@ == cancelled_connect_reply(),
{
    ToolReply::Problem(
        new_problem(
            "cancelled",
            "the connection attempt was cancelled; call computer_connect before continuing".to_owned(),
        ),
    )
}

/// The answer to a call without a connection.
pub open spec fn not_connected_reply() -> ReplyView {
    ReplyView::Problem(
        problem(
            "not_connected"@,
            "call computer_connect before using the desktop; omit name for @default, or set name to @private or an existing instance name"@,
        ),
    )
}

/// The answer to a call without a connection.
pub fn not_connected_result() -> (reply: ToolReply)
    ensures
        reply@ == not_connected_reply(),
{
    ToolReply::Problem(
        new_problem(
            "not_connected",
            "call computer_connect before using the desktop; omit name for @default, or set name to @private or an existing instance name".to_owned(),
        ),
    )
}

/// The answer to a call whose response was that to another kind of request.
pub open spec fn unexpected_reply(operation: Seq<char>) -> ReplyView {
    ReplyView::Problem(
        problem(
            "internal"@,
            "daemon returned the wrong response to computer_"@ + operation
                + "; call computer_observe and inspect the desktop before continuing"@,
        ),
    )
}

/// The answer to a call whose response was that to another kind of request.
pub fn unexpected_response(operation: &str) -> (reply: ToolReply)
    ensures
        reply@ == unexpected_reply(operation@),
{
    let mut message = "daemon returned the wrong response to computer_".to_owned();
    message.append(operation);
    message.append("; call computer_observe and inspect the desktop before continuing");
    ToolReply::Problem(new_problem("internal", message))
}

/// The answer to an action result that shows no frame.
pub open spec fn missing_observation_reply(executed: usize) -> ReplyView {
    ReplyView::Problem(
        ProblemView {
            executed: Some(executed),
            ..problem(
                "internal"@,
                "action result omitted its observation; call computer_observe and inspect the desktop before continuing; do not repeat completed actions"@,
            )
        },
    )
}

/// The answer to an action result that shows no frame.
pub fn missing_observation(executed: usize) -> (reply: ToolReply)
    ensures
        reply@ == missing_observation_reply(executed),
{
    ToolReply::Problem(
        ToolProblem {
            code: "internal".to_owned(),
            message: "action result omitted its observation; call computer_observe and inspect the desktop before continuing; do not repeat completed actions".to_owned(),
            executed: Some(executed),
            action_error: None,
        },
    )
}

/// The message of a desktop that cannot be reached.
pub open spec fn unavailable_message(target: TargetView, detail: Seq<char>) -> Seq<char> {
    match target {
        TargetView::Private => "private desktop unavailable: "@ + detail
            + "; call computer_connect with name @private to retry"@,
        TargetView::Default => "default daemon unavailable: "@ + detail,
        TargetView::Named(name) => "named instance "@ + name + " unavailable: "@ + detail,
    }
}

/// The answer where a desktop cannot be reached.
pub fn connection_error(target: &ConnectionTarget, detail: &str) -> (reply: ToolReply)
    ensures
        reply@ == ReplyView::Problem(
            problem("daemon_unavailable"@, unavailable_message(target@, detail@)),
        ),
{
    let message = match target {
        ConnectionTarget::Private => {
            let mut message = "private desktop unavailable: ".to_owned();
            message.append(detail);
            message.append("; call computer_connect with name @private to retry");
            message
        },
        ConnectionTarget::Default => {
            let mut message = "default daemon unavailable: ".to_owned();
            message.append(detail);
            message
        },
        ConnectionTarget::Named(name) => {
            let mut message = "named instance ".to_owned();
            message.append(&name.name);
            message.append(" unavailable: ");
            message.append(detail);
            message
        },
    };
    ToolReply::Problem(new_problem("daemon_unavailable", message))
}

/// What a lost answer of a daemon tells: after an action its outcome is unknown.
pub open spec fn lost_answer(is_action: bool, detail: Seq<char>) -> Seq<char> {
    if is_action {
        "action outcome is unknown; call computer_observe and inspect the desktop before issuing more actions: "@
            + detail
    } else {
        detail
    }
}

/// The answer where a daemon's answer was lost.
pub fn lost_response(target: &ConnectionTarget, is_action: bool, detail: &str) -> (reply: ToolReply)
    ensures
        reply@ == ReplyView::Problem(
            problem(
                "daemon_unavailable"@,
                unavailable_message(target@, lost_answer(is_action, detail@)),
            ),
        ),
{
    if is_action {
        let mut message =
            "action outcome is unknown; call computer_observe and inspect the desktop before issuing more actions: ".to_owned();
        message.append(detail);
        connection_error(target, &message)
    } else {
        connection_error(target, detail)
    }
}

/// The answer to a failed call.
pub fn structured_error(error: CuError) -> (reply: ToolReply)
    ensures
        reply@ == ReplyView::Failure(recoverable(error@)),
{
    ToolReply::Failure(with_recovery(error))
}

/// The answer to a call whose frame was superseded.
pub fn stale_frame_result(message: &str) -> (reply: ToolReply)
    ensures
        reply@ == ReplyView::Failure(failure(ErrorCode::StaleFrame, message@)),
{
    structured_error(CuError::new(ErrorCode::StaleFrame, message))
}

/// The character of a group of six bits.
pub open spec fn base64_char(bits: nat) -> char {
    if bits < 26 {
        (65 + bits) as char
    } else if bits < 52 {
        (71 + bits) as char
    } else if bits < 62 {
        (bits - 4) as char
    } else if bits == 62 {
        '+'
    } else {
        '/'
    }
}

/// Bytes in base 64 with padding: four characters for each three bytes.
pub open spec fn base64_text(bytes: Seq<u8>) -> Seq<char>
    decreases bytes.len(),
{
    if bytes.len() == 0 {
        Seq::empty()
    } else {
        let first = bytes[0] as nat;
        let second = if bytes.len() > 1 {
            bytes[1] as nat
        } else {
            0
        };
        let third = if bytes.len() > 2 {
            bytes[2] as nat
        } else {
            0
        };
        let group = seq![
            base64_char(first / 4),
            base64_char((first % 4) * 16 + second / 16),
            if bytes.len() > 1 {
                base64_char((second % 16) * 4 + third / 64)
            } else {
                '='
            },
            if bytes.len() > 2 {
                base64_char(third % 64)
            } else {
                '='
            },
        ];
        if bytes.len() <= 3 {
            group
        } else {
            group + base64_text(bytes.skip(3))
        }
    }
}

/// Calls `base64::engine::general_purpose::STANDARD.encode`.
///
/// Trusted: the result is the bytes in base 64 with the standard alphabet and with padding.
#[verifier::external_body]
fn encode_base64(bytes: &Vec<u8>) -> (text: String)
    ensures
        text@ == base64_text(bytes@),
{
    base64::Engine::encode(&base64::engine::general_purpose::STANDARD, bytes)
}

/// What is answered where an image cannot be read.
pub open spec fn unreadable_image(content: ContentView, detail: Seq<char>) -> ProblemView {
    match content {
        ContentView::Act(outcome) => ProblemView {
            code: "image_unavailable"@,
            message: "failed to read the post-action PNG: "@ + detail + "; "@ + decimal(
                outcome.executed as nat,
            )
                + " actions are recorded as executed. Call computer_observe and inspect the desktop before continuing; do not repeat completed actions"@,
            executed: Some(outcome.executed),
            action_error: outcome.action_error,
        },
        _ => problem(
            "image_unavailable"@,
            "failed to read captured PNG: "@ + detail
                + "; call computer_observe and inspect the desktop before continuing"@,
        ),
    }
}

/// What is read of an image: its bytes, or the operating system's diagnostic.
pub open spec fn image_view(image: Result<Vec<u8>, String>) -> Result<Seq<u8>, Seq<char>> {
    match image {
        Ok(bytes) => Ok(bytes@),
        Err(detail) => Err(detail@),
    }
}

/// The answer that shows an image, given what was read of it.
pub open spec fn image_reply(content: ContentView, image: Result<Seq<u8>, Seq<char>>) -> ReplyView {
    match image {
        Ok(bytes) => ReplyView::Image { content, image: base64_text(bytes) },
        Err(detail) => ReplyView::Problem(unreadable_image(content, detail)),
    }
}

/// The answer that shows an image, given what was read of it.
pub fn image_result(content: ImageContent, image: Result<Vec<u8>, String>) -> (reply: ToolReply)
    ensures
        reply@ == image_reply(content@, image_view(image)),
{
    match image {
        Ok(bytes) => ToolReply::Image { image: encode_base64(&bytes), content },
        Err(detail) => match content {
            ImageContent::Act(outcome) => {
                let mut message = "failed to read the post-action PNG: ".to_owned();
                message.append(&detail);
                message.append("; ");
                push_decimal(&mut message, outcome.executed as u64);
                message.append(
                    " actions are recorded as executed. Call computer_observe and inspect the desktop before continuing; do not repeat completed actions",
                );
                ToolReply::Problem(
                    ToolProblem {
                        code: "image_unavailable".to_owned(),
                        message,
                        executed: Some(outcome.executed),
                        action_error: outcome.action_error,
                    },
                )
            },
            _ => {
                let mut message = "failed to read captured PNG: ".to_owned();
                message.append(&detail);
                message.append(
                    "; call computer_observe and inspect the desktop before continuing",
                );
                ToolReply::Problem(new_problem("image_unavailable", message))
            },
        },
    }
}

/// The identifier of an agent's call.
#[derive(Debug)]
pub enum CallId {
    Number(i64),
    Text(String),
}

/// A call's identifier with its text as a sequence.
pub enum CallIdView {
    Number(int),
    Text(Seq<char>),
}

impl View for CallId {
    type V = CallIdView;

    open spec fn view(&self) -> CallIdView {
        match *self {
            CallId::Number(value) => CallIdView::Number(value as int),
            CallId::Text(value) => CallIdView::Text(value@),
        }
    }
}

/// A call's identifier with its kind.
pub open spec fn typed_id(id: CallIdView) -> Seq<char> {
    match id {
        CallIdView::Number(value) => "n:"@ + signed_decimal(value),
        CallIdView::Text(value) => "s:"@ + value,
    }
}

/// The identifier that a daemon knows an agent's action request by.
pub open spec fn action_key(session: Seq<char>, generation: Seq<char>, id: CallIdView) -> Seq<char> {
    "mcp:"@ + session + ":"@ + generation + ":"@ + typed_id(id)
}

/// The identifier that a daemon knows an agent's action request by.
pub fn action_request_id(session_id: &str, generation: &str, id: &CallId) -> (key: String)
    ensures
        key@ == action_key(session_id@, generation@, id@),
{
    let mut key = "mcp:".to_owned();
    key.append(session_id);
    key.append(":");
    key.append(generation);
    key.append(":");
    match id {
        CallId::Number(value) => {
            key.append("n:");
            push_signed_decimal(&mut key, *value);
        },
        CallId::Text(value) => {
            key.append("s:");
            key.append(value);
        },
    }
    assert(key@ =~= action_key(session_id@, generation@, id@));
    key
}

/// Within a connection, different call identifiers stand for different requests to the daemon; a
/// number and a text never stand for the same one.
pub proof fn calls_have_distinct_keys(
    session: Seq<char>,
    generation: Seq<char>,
    first: CallIdView,
    second: CallIdView,
)
    requires
        first != second,
    ensures
        action_key(session, generation, first) != action_key(session, generation, second),
{
    reveal_strlit("n:");
    reveal_strlit("s:");
    let prefix = "mcp:"@ + session + ":"@ + generation + ":"@;
    let a = action_key(session, generation, first);
    let b = action_key(session, generation, second);
    let n = prefix.len() as int;
    assert(a.skip(n) =~= typed_id(first));
    assert(b.skip(n) =~= typed_id(second));
    if a == b {
        let x = typed_id(first);
        let y = typed_id(second);
        assert(x == y);
        match (first, second) {
            (CallIdView::Number(i), CallIdView::Number(j)) => {
                assert(x.skip(2) =~= signed_decimal(i));
                assert(y.skip(2) =~= signed_decimal(j));
                signed_decimals_are_distinct(i, j);
            },
            (CallIdView::Text(s), CallIdView::Text(t)) => {
                assert(x.skip(2) =~= s);
                assert(y.skip(2) =~= t);
            },
            (CallIdView::Number(_), CallIdView::Text(_)) => {
                assert(x[0] == 'n' && y[0] == 's');
            },
            (CallIdView::Text(_), CallIdView::Number(_)) => {
                assert(x[0] == 's' && y[0] == 'n');
            },
        }
    }
}

} // verus!
