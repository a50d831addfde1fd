//! Requests, results and errors exchanged with a desktop daemon.
//!
//! Each type that owns text or a list has a view that replaces them by sequences,
//! so that two values are interchangeable exactly when their views are equal.
use vstd::prelude::*;

verus! {

/// Most actions in one batch.
pub const MAX_ACTIONS: usize = 16;

/// Most key names in one chord or modifier list.
pub const MAX_KEYS: usize = 16;

/// Most points of one drag path.
pub const MAX_DRAG_POINTS: usize = 256;

/// Most bytes of typed text.
pub const MAX_TEXT_BYTES: usize = 65_536;

/// Longest hold or movement time of one pointer action, in milliseconds.
pub const MAX_ACTION_TIME_MS: u64 = 10_000;

/// Most included regions of one wait.
pub const MAX_WAIT_INCLUDE_RECTS: usize = 8;

/// Most excluded regions of one wait.
pub const MAX_WAIT_EXCLUDE_RECTS: usize = 8;

/// Total budget of a wait that names none, in milliseconds.
pub const DEFAULT_WAIT_TIMEOUT_MS: u64 = 3_600_000;

/// Longest total budget of a wait, in milliseconds.
pub const MAX_WAIT_TIMEOUT_MS: u64 = 3_600_000;

/// Quiet period of a wait that names none, in milliseconds.
pub const DEFAULT_WAIT_QUIET_MS: u64 = 2_000;

/// Longest quiet period of a wait, in milliseconds.
pub const MAX_WAIT_QUIET_MS: u64 = 60_000;

/// Most excluded rectangles of one polled wait.
pub const MAX_EXCLUDE_RECTS: usize = 16;

/// Shortest poll interval of a polled wait, in milliseconds.
pub const MIN_WAIT_POLL_MS: u64 = 100;

/// Longest poll interval of a polled wait, in milliseconds.
pub const MAX_WAIT_POLL_MS: u64 = 5_000;

/// Longest detection time of a polled wait, in milliseconds.
pub const MAX_POLLED_WAIT_TIMEOUT_MS: u64 = 30_000;

/// Mouse button used by a click action.
#[derive(Debug, Clone, Copy, PartialEq, Eq, Structural)]
pub enum MouseButton {
    Left,
    Right,
    Wheel,
    Back,
    Forward,
}

/// One pixel coordinate in the returned screenshot.
#[derive(Debug, Clone, Copy, PartialEq, Eq, Structural)]
pub struct Point {
    /// Horizontal pixel offset from the left edge; must be less than the frame width.
    pub x: i32,
    /// Vertical pixel offset from the top edge; must be less than the frame height.
    pub y: i32,
}

/// Axis-aligned rectangle in screenshot pixels.
#[derive(Debug, Clone, Copy, PartialEq, Eq, Structural)]
pub struct Rect {
    /// Horizontal offset of the left edge.
    pub x: u32,
    /// Vertical offset of the top edge.
    pub y: u32,
    /// Positive rectangle width.
    pub width: u32,
    /// Positive rectangle height.
    pub height: u32,
}

impl Rect {
    /// Whether the pixel `(x, y)` lies in the rectangle.
    pub open spec fn covers(self, x: int, y: int) -> bool {
        &&& self.x <= x < self.x + self.width
        &&& self.y <= y < self.y + self.height
    }

    /// Whether the rectangle is non-empty and lies in the viewport.
    pub open spec fn fits(self, viewport: Viewport) -> bool {
        &&& 0 < self.width
        &&& 0 < self.height
        &&& self.x + self.width <= viewport.width
        &&& self.y + self.height <= viewport.height
    }
}

/// Whether some rectangle of the list covers the pixel `(x, y)`.
pub open spec fn some_rect_covers(rects: Seq<Rect>, x: int, y: int) -> bool {
    exists|i: int| 0 <= i < rects.len() && #[trigger] rects[i].covers(x, y)
}

/// One input operation grounded in the latest returned screenshot.
#[allow(inconsistent_fields)]
#[derive(Debug, PartialEq, Eq)]
pub enum Action {
    /// Move the pointer to a screenshot pixel.
    Move {
        x: i32,
        y: i32,
        /// Keys held during the move, normally modifiers such as `CTRL` or `SHIFT`.
        keys: Vec<String>,
    },
    /// Move to a screenshot pixel and click one mouse button.
    Click {
        x: i32,
        y: i32,
        button: MouseButton,
        /// Time for which the button stays down, in milliseconds.
        duration_ms: u64,
        keys: Vec<String>,
    },
    /// Move to a screenshot pixel and double-click the left mouse button.
    DoubleClick { x: i32, y: i32, keys: Vec<String> },
    /// Hold the left mouse button while following a path of screenshot pixels.
    Drag {
        /// Ordered pointer path containing between 2 and 256 frame-pixel points.
        path: Vec<Point>,
        /// Time for which the button is held before the pointer moves, in milliseconds.
        hold_ms: u64,
        /// Time of the whole movement, in milliseconds; default pacing when omitted.
        duration_ms: Option<u64>,
        keys: Vec<String>,
    },
    /// Move to a screenshot pixel and scroll. Positive x scrolls right and positive y scrolls down.
    Scroll { x: i32, y: i32, scroll_x: i32, scroll_y: i32, keys: Vec<String> },
    /// Type Unicode text using the backend's text-input path.
    Type {
        /// UTF-8 text of at most 65536 bytes; NUL bytes are rejected.
        text: String,
    },
    /// Press all listed keys in order as one chord, then release them in reverse order.
    Keypress { keys: Vec<String> },
}

/// An action with its key names and text as sequences.
#[allow(inconsistent_fields)]
pub enum ActionView {
    Move { x: i32, y: i32, keys: Seq<Seq<char>> },
    Click { x: i32, y: i32, button: MouseButton, duration_ms: u64, keys: Seq<Seq<char>> },
    DoubleClick { x: i32, y: i32, keys: Seq<Seq<char>> },
    Drag { path: Seq<Point>, hold_ms: u64, duration_ms: Option<u64>, keys: Seq<Seq<char>> },
    Scroll { x: i32, y: i32, scroll_x: i32, scroll_y: i32, keys: Seq<Seq<char>> },
    Type { text: Seq<char> },
    Keypress { keys: Seq<Seq<char>> },
}

/// The texts of a list of strings.
pub open spec fn texts(strings: Seq<String>) -> Seq<Seq<char>> {
    Seq::new(strings.len(), |i: int| strings[i]@)
}

impl View for Action {
    type V = ActionView;

    open spec fn view(&self) -> ActionView {
        match *self {
            Action::Move { x, y, keys } => ActionView::Move { x, y, keys: texts(keys@) },
            Action::Click { x, y, button, duration_ms, keys } => ActionView::Click {
                x,
                y,
                button,
                duration_ms,
                keys: texts(keys@),
            },
            Action::DoubleClick { x, y, keys } => ActionView::DoubleClick {
                x,
                y,
                keys: texts(keys@),
            },
            Action::Drag { path, hold_ms, duration_ms, keys } => ActionView::Drag {
                path: path@,
                hold_ms,
                duration_ms,
                keys: texts(keys@),
            },
            Action::Scroll { x, y, scroll_x, scroll_y, keys } => ActionView::Scroll {
                x,
                y,
                scroll_x,
                scroll_y,
                keys: texts(keys@),
            },
            Action::Type { text } => ActionView::Type { text: text@ },
            Action::Keypress { keys } => ActionView::Keypress { keys: texts(keys@) },
        }
    }
}

/// The views of a list of actions.
pub open spec fn action_views(actions: Seq<Action>) -> Seq<ActionView> {
    Seq::new(actions.len(), |i: int| actions[i]@)
}

/// Copy a list of strings.
pub fn copy_texts(strings: &Vec<String>) -> (copy: Vec<String>)
    ensures
        texts(copy@) == texts(strings@),
{
    let copy = strings.clone();
    assert(texts(copy@) =~= texts(strings@));
    copy
}

/// Copy a list of points.
fn copy_points(points: &Vec<Point>) -> (copy: Vec<Point>)
    ensures
        copy@ == points@,
{
    let copy = points.clone();
    assert(copy@ =~= points@);
    copy
}

/// Copy a list of rectangles.
pub fn copy_rects(rects: &Vec<Rect>) -> (copy: Vec<Rect>)
    ensures
        copy@ == rects@,
{
    let copy = rects.clone();
    assert(copy@ =~= rects@);
    copy
}

impl Clone for Action {
    fn clone(&self) -> (copy: Self)
        ensures
            copy@ == self@,
    {
        match self {
            Action::Move { x, y, keys } => Action::Move { x: *x, y: *y, keys: copy_texts(keys) },
            Action::Click { x, y, button, duration_ms, keys } => Action::Click {
                x: *x,
                y: *y,
                button: *button,
                duration_ms: *duration_ms,
                keys: copy_texts(keys),
            },
            Action::DoubleClick { x, y, keys } => Action::DoubleClick {
                x: *x,
                y: *y,
                keys: copy_texts(keys),
            },
            Action::Drag { path, hold_ms, duration_ms, keys } => Action::Drag {
                path: copy_points(path),
                hold_ms: *hold_ms,
                duration_ms: *duration_ms,
                keys: copy_texts(keys),
            },
            Action::Scroll { x, y, scroll_x, scroll_y, keys } => Action::Scroll {
                x: *x,
                y: *y,
                scroll_x: *scroll_x,
                scroll_y: *scroll_y,
                keys: copy_texts(keys),
            },
            Action::Type { text } => Action::Type { text: text.clone() },
            Action::Keypress { keys } => Action::Keypress { keys: copy_texts(keys) },
        }
    }
}

/// Copy a batch of actions.
pub fn copy_actions(actions: &Vec<Action>) -> (copy: Vec<Action>)
    ensures
        action_views(copy@) == action_views(actions@),
{
    let copy = actions.clone();
    assert(action_views(copy@) =~= action_views(actions@));
    copy
}

/// Whether two lists hold the same texts.
pub fn same_texts(first: &Vec<String>, second: &Vec<String>) -> (same: bool)
    ensures
        same == (texts(first@) == texts(second@)),
{
    if first.len() != second.len() {
        assert(texts(first@).len() != texts(second@).len());
        return false;
    }
    let mut i: usize = 0;
    while i < first.len()
        invariant
            i <= first.len(),
            first.len() == second.len(),
            forall|j: int| 0 <= j < i ==> first[j]@ == second[j]@,
        decreases first.len() - i,
    {
        if first[i] != second[i] {
            assert(texts(first@)[i as int] != texts(second@)[i as int]);
            return false;
        }
        i += 1;
    }
    assert(texts(first@) =~= texts(second@));
    true
}

fn same_points(first: &Vec<Point>, second: &Vec<Point>) -> (same: bool)
    ensures
        same == (first@ == second@),
{
    if first.len() != second.len() {
        return false;
    }
    let mut i: usize = 0;
    while i < first.len()
        invariant
            i <= first.len(),
            first.len() == second.len(),
            forall|j: int| 0 <= j < i ==> first[j] == second[j],
        decreases first.len() - i,
    {
        if first[i] != second[i] {
            return false;
        }
        i += 1;
    }
    assert(first@ =~= second@);
    true
}

fn same_rects(first: &Vec<Rect>, second: &Vec<Rect>) -> (same: bool)
    ensures
        same == (first@ == second@),
{
    if first.len() != second.len() {
        return false;
    }
    let mut i: usize = 0;
    while i < first.len()
        invariant
            i <= first.len(),
            first.len() == second.len(),
            forall|j: int| 0 <= j < i ==> first[j] == second[j],
        decreases first.len() - i,
    {
        if first[i] != second[i] {
            return false;
        }
        i += 1;
    }
    assert(first@ =~= second@);
    true
}

/// Whether two actions are equal.
pub fn same_action(first: &Action, second: &Action) -> (same: bool)
    ensures
        same == (first@ == second@),
{
    match (first, second) {
        (Action::Move { x, y, keys }, Action::Move { x: x2, y: y2, keys: keys2 }) => *x == *x2
            && *y == *y2 && same_texts(keys, keys2),
        (
            Action::Click { x, y, button, duration_ms, keys },
            Action::Click { x: x2, y: y2, button: button2, duration_ms: duration2, keys: keys2 },
        ) => *x == *x2 && *y == *y2 && *button == *button2 && *duration_ms == *duration2
            && same_texts(keys, keys2),
        (
            Action::DoubleClick { x, y, keys },
            Action::DoubleClick { x: x2, y: y2, keys: keys2 },
        ) => *x == *x2 && *y == *y2 && same_texts(keys, keys2),
        (
            Action::Drag { path, hold_ms, duration_ms, keys },
            Action::Drag { path: path2, hold_ms: hold2, duration_ms: duration2, keys: keys2 },
        ) => same_points(path, path2) && *hold_ms == *hold2 && *duration_ms == *duration2
            && same_texts(keys, keys2),
        (
            Action::Scroll { x, y, scroll_x, scroll_y, keys },
            Action::Scroll { x: x2, y: y2, scroll_x: sx2, scroll_y: sy2, keys: keys2 },
        ) => *x == *x2 && *y == *y2 && *scroll_x == *sx2 && *scroll_y == *sy2
            && same_texts(keys, keys2),
        (Action::Type { text }, Action::Type { text: text2 }) => *text == *text2,
        (Action::Keypress { keys }, Action::Keypress { keys: keys2 }) => same_texts(keys, keys2),
        _ => false,
    }
}

/// Whether two batches hold the same actions.
pub fn same_actions(first: &Vec<Action>, second: &Vec<Action>) -> (same: bool)
    ensures
        same == (action_views(first@) == action_views(second@)),
{
    if first.len() != second.len() {
        assert(action_views(first@).len() != action_views(second@).len());
        return false;
    }
    let mut i: usize = 0;
    while i < first.len()
        invariant
            i <= first.len(),
            first.len() == second.len(),
            forall|j: int| 0 <= j < i ==> first[j]@ == second[j]@,
        decreases first.len() - i,
    {
        if !same_action(&first[i], &second[i]) {
            assert(action_views(first@)[i as int] != action_views(second@)[i as int]);
            return false;
        }
        i += 1;
    }
    assert(action_views(first@) =~= action_views(second@));
    true
}

/// Button of a click that names none.
pub fn default_mouse_button() -> (button: MouseButton)
    ensures
        button == MouseButton::Left,
{
    MouseButton::Left
}

/// Visual settling policy applied before an observation is returned.
#[derive(Debug, Clone, Copy, PartialEq, Eq, Structural)]
pub struct SettlePolicy {
    /// Required unchanged-screen interval in milliseconds, from 1 through 5000.
    pub quiet_ms: u64,
    /// Overall wait limit in milliseconds, at least `quiet_ms` and at most 30000.
    pub timeout_ms: u64,
}

/// Quiet interval of a settling policy that names none.
pub fn default_quiet_ms() -> (quiet_ms: u64)
    ensures
        quiet_ms == 150,
{
    150
}

/// Overall limit of a settling policy that names none.
pub fn default_timeout_ms() -> (timeout_ms: u64)
    ensures
        timeout_ms == 1_500,
{
    1_500
}

impl Default for SettlePolicy {
    fn default() -> (policy: Self)
        ensures
            policy == (SettlePolicy { quiet_ms: 150, timeout_ms: 1_500 }),
    {
        SettlePolicy { quiet_ms: default_quiet_ms(), timeout_ms: default_timeout_ms() }
    }
}

/// Request a fresh screenshot after waiting for the target to settle.
#[derive(Debug, Clone, Copy, PartialEq, Eq, Structural)]
pub struct ObserveRequest {
    pub settle: SettlePolicy,
}

impl Default for ObserveRequest {
    fn default() -> (request: Self)
        ensures
            request.settle == (SettlePolicy { quiet_ms: 150, timeout_ms: 1_500 }),
    {
        ObserveRequest { settle: SettlePolicy::default() }
    }
}

/// Execute a bounded batch of input actions against one observed frame.
#[derive(Debug, PartialEq, Eq)]
pub struct ActRequest {
    /// Opaque frame identifier of the latest observe or act result.
    pub expected_frame_id: String,
    /// Between 1 and 16 sequential actions.
    pub actions: Vec<Action>,
    /// Settling policy applied before capturing the post-action screenshot.
    pub settle: SettlePolicy,
}

/// An action request with its text and actions as sequences.
pub struct ActRequestView {
    pub expected_frame_id: Seq<char>,
    pub actions: Seq<ActionView>,
    pub settle: SettlePolicy,
}

impl View for ActRequest {
    type V = ActRequestView;

    open spec fn view(&self) -> ActRequestView {
        ActRequestView {
            expected_frame_id: self.expected_frame_id@,
            actions: action_views(self.actions@),
            settle: self.settle,
        }
    }
}

impl Clone for ActRequest {
    fn clone(&self) -> (copy: Self)
        ensures
            copy@ == self@,
    {
        ActRequest {
            expected_frame_id: self.expected_frame_id.clone(),
            actions: copy_actions(&self.actions),
            settle: self.settle,
        }
    }
}

/// Wait for exact pixel changes relative to the latest published frame.
#[derive(Debug, PartialEq, Eq)]
pub struct WaitRequest {
    /// Opaque latest frame identifier. A newer published frame makes this request stale.
    pub last_frame_id: String,
    /// Between 1 and 8 rectangles whose union is watched.
    pub include_rects: Vec<Rect>,
    /// Up to 8 rectangles removed from the included region.
    pub exclude_rects: Vec<Rect>,
    /// Total budget for detection and settling, from 1 through 3600000 ms.
    pub timeout_ms: u64,
    /// Required continuous stability after activity, from 1 through 60000 ms.
    pub quiet_ms: u64,
}

/// A wait request with its text and rectangles as sequences.
pub struct WaitRequestView {
    pub last_frame_id: Seq<char>,
    pub include_rects: Seq<Rect>,
    pub exclude_rects: Seq<Rect>,
    pub timeout_ms: u64,
    pub quiet_ms: u64,
}

impl View for WaitRequest {
    type V = WaitRequestView;

    open spec fn view(&self) -> WaitRequestView {
        WaitRequestView {
            last_frame_id: self.last_frame_id@,
            include_rects: self.include_rects@,
            exclude_rects: self.exclude_rects@,
            timeout_ms: self.timeout_ms,
            quiet_ms: self.quiet_ms,
        }
    }
}

impl Clone for WaitRequest {
    fn clone(&self) -> (copy: Self)
        ensures
            copy@ == self@,
    {
        WaitRequest {
            last_frame_id: self.last_frame_id.clone(),
            include_rects: copy_rects(&self.include_rects),
            exclude_rects: copy_rects(&self.exclude_rects),
            timeout_ms: self.timeout_ms,
            quiet_ms: self.quiet_ms,
        }
    }
}

/// Total budget of a wait that names none.
pub fn default_wait_timeout_ms() -> (timeout_ms: u64)
    ensures
        timeout_ms == 3_600_000,
{
    DEFAULT_WAIT_TIMEOUT_MS
}

/// Quiet period of a wait that names none.
pub fn default_wait_quiet_ms() -> (quiet_ms: u64)
    ensures
        quiet_ms == 2_000,
{
    DEFAULT_WAIT_QUIET_MS
}

/// Wait for a change in one watched rectangle, polled at an interval that the caller picks.
#[derive(Debug, PartialEq, Eq)]
pub struct PolledWaitRequest {
    /// Opaque latest frame identifier. A newer published frame makes this request stale.
    pub last_frame_id: String,
    /// Watched frame-pixel rectangle; the whole baseline frame when omitted.
    pub rect: Option<Rect>,
    /// Frame-pixel rectangles ignored during change and settling comparisons.
    pub exclude: Vec<Rect>,
    /// Maximum time to detect the first change, from 1 through 30000 ms.
    pub timeout_ms: u64,
    /// Delay after each unchanged capture, from 100 through 5000 ms.
    pub poll_ms: u64,
    /// Quiet period and grace limit after the first detected change.
    pub settle: SettlePolicy,
}

/// Poll interval of a polled wait that names none.
pub fn default_wait_poll_ms() -> (poll_ms: u64)
    ensures
        poll_ms == 500,
{
    500
}

/// Metadata for the latest published frame, returned without capturing.
#[derive(Debug, PartialEq, Eq)]
pub struct FrameStatus {
    pub frame_id: String,
    pub width: u32,
    pub height: u32,
}

/// Frame metadata with its text as a sequence.
pub struct FrameStatusView {
    pub frame_id: Seq<char>,
    pub width: u32,
    pub height: u32,
}

impl View for FrameStatus {
    type V = FrameStatusView;

    open spec fn view(&self) -> FrameStatusView {
        FrameStatusView { frame_id: self.frame_id@, width: self.width, height: self.height }
    }
}

impl Clone for FrameStatus {
    fn clone(&self) -> (copy: Self)
        ensures
            copy@ == self@,
    {
        FrameStatus { frame_id: self.frame_id.clone(), width: self.width, height: self.height }
    }
}

/// Pixel dimensions of a returned screenshot.
#[derive(Debug, Clone, Copy, PartialEq, Eq, Structural)]
pub struct Viewport {
    pub width: u32,
    pub height: u32,
}

/// Coordinate system used by action positions.
#[derive(Debug, Clone, Copy, PartialEq, Eq, Structural)]
pub enum CoordinateSpace {
    /// Integer pixels in the returned screenshot, with origin at its top-left corner.
    FramePixels,
}

/// A frame-grounded desktop observation returned as structured data alongside a PNG image.
#[derive(Debug, PartialEq, Eq)]
pub struct Observation {
    /// Opaque frame identifier required by the next action.
    pub frame_id: String,
    /// Backend-defined identifier for the captured desktop target.
    pub target: String,
    /// PNG width and exclusive upper bound for action x coordinates.
    pub width: u32,
    /// PNG height and exclusive upper bound for action y coordinates.
    pub height: u32,
    /// Coordinate system used by all action points.
    pub coordinate_space: CoordinateSpace,
    /// Whether the screen stayed unchanged for `quiet_ms`; an unsettled frame remains usable.
    pub settled: bool,
    /// Owner-only local path backing the returned PNG image content.
    pub image_path: String,
}

/// An observation with its text as sequences.
pub struct ObservationView {
    pub frame_id: Seq<char>,
    pub target: Seq<char>,
    pub width: u32,
    pub height: u32,
    pub coordinate_space: CoordinateSpace,
    pub settled: bool,
    pub image_path: Seq<char>,
}

impl View for Observation {
    type V = ObservationView;

    open spec fn view(&self) -> ObservationView {
        ObservationView {
            frame_id: self.frame_id@,
            target: self.target@,
            width: self.width,
            height: self.height,
            coordinate_space: self.coordinate_space,
            settled: self.settled,
            image_path: self.image_path@,
        }
    }
}

impl Clone for Observation {
    fn clone(&self) -> (copy: Self)
        ensures
            copy@ == self@,
    {
        Observation {
            frame_id: self.frame_id.clone(),
            target: self.target.clone(),
            width: self.width,
            height: self.height,
            coordinate_space: self.coordinate_space,
            settled: self.settled,
            image_path: self.image_path.clone(),
        }
    }
}

impl Observation {
    /// The dimensions of the observed frame.
    pub fn viewport(&self) -> (viewport: Viewport)
        ensures
            viewport == (Viewport { width: self.width, height: self.height }),
    {
        Viewport { width: self.width, height: self.height }
    }
}

/// Result of one bounded screen-change wait.
#[derive(Debug, PartialEq, Eq)]
pub enum WaitOutcome {
    /// No watched pixel changed within the budget.
    Timeout { elapsed_ms: u64 },
    /// A watched pixel changed and the fresh frame was published.
    Changed { elapsed_ms: u64, activity_bbox: Rect, observation: Observation },
}

/// A wait result with its text as sequences.
pub enum WaitOutcomeView {
    Timeout { elapsed_ms: u64 },
    Changed { elapsed_ms: u64, activity_bbox: Rect, observation: ObservationView },
}

impl View for WaitOutcome {
    type V = WaitOutcomeView;

    open spec fn view(&self) -> WaitOutcomeView {
        match *self {
            WaitOutcome::Timeout { elapsed_ms } => WaitOutcomeView::Timeout { elapsed_ms },
            WaitOutcome::Changed { elapsed_ms, activity_bbox, observation } =>
                WaitOutcomeView::Changed { elapsed_ms, activity_bbox, observation: observation@ },
        }
    }
}

impl Clone for WaitOutcome {
    fn clone(&self) -> (copy: Self)
        ensures
            copy@ == self@,
    {
        match self {
            WaitOutcome::Timeout { elapsed_ms } => WaitOutcome::Timeout { elapsed_ms: *elapsed_ms },
            WaitOutcome::Changed { elapsed_ms, activity_bbox, observation } =>
                WaitOutcome::Changed {
                    elapsed_ms: *elapsed_ms,
                    activity_bbox: *activity_bbox,
                    observation: observation.clone(),
                },
        }
    }
}

/// One request to a daemon.
#[derive(Debug, PartialEq, Eq)]
pub enum DaemonRequest {
    Profile,
    Status,
    Observe(ObserveRequest),
    Act(ActRequest),
    Wait(WaitRequest),
}

/// A daemon request with its text and lists as sequences.
pub enum DaemonRequestView {
    Profile,
    Status,
    Observe(ObserveRequest),
    Act(ActRequestView),
    Wait(WaitRequestView),
}

impl View for DaemonRequest {
    type V = DaemonRequestView;

    open spec fn view(&self) -> DaemonRequestView {
        match *self {
            DaemonRequest::Profile => DaemonRequestView::Profile,
            DaemonRequest::Status => DaemonRequestView::Status,
            DaemonRequest::Observe(request) => DaemonRequestView::Observe(request),
            DaemonRequest::Act(request) => DaemonRequestView::Act(request@),
            DaemonRequest::Wait(request) => DaemonRequestView::Wait(request@),
        }
    }
}

impl Clone for DaemonRequest {
    fn clone(&self) -> (copy: Self)
        ensures
            copy@ == self@,
    {
        match self {
            DaemonRequest::Profile => DaemonRequest::Profile,
            DaemonRequest::Status => DaemonRequest::Status,
            DaemonRequest::Observe(request) => DaemonRequest::Observe(*request),
            DaemonRequest::Act(request) => DaemonRequest::Act(request.clone()),
            DaemonRequest::Wait(request) => DaemonRequest::Wait(request.clone()),
        }
    }
}

/// Whether two daemon requests are equal.
pub fn same_request(first: &DaemonRequest, second: &DaemonRequest) -> (same: bool)
    ensures
        same == (first@ == second@),
{
    match (first, second) {
        (DaemonRequest::Profile, DaemonRequest::Profile) => true,
        (DaemonRequest::Status, DaemonRequest::Status) => true,
        (DaemonRequest::Observe(a), DaemonRequest::Observe(b)) => *a == *b,
        (DaemonRequest::Act(a), DaemonRequest::Act(b)) => a.expected_frame_id
            == b.expected_frame_id && same_actions(&a.actions, &b.actions) && a.settle == b.settle,
        (DaemonRequest::Wait(a), DaemonRequest::Wait(b)) => a.last_frame_id == b.last_frame_id
            && same_rects(&a.include_rects, &b.include_rects) && same_rects(
            &a.exclude_rects,
            &b.exclude_rects,
        ) && a.timeout_ms == b.timeout_ms && a.quiet_ms == b.quiet_ms,
        _ => false,
    }
}

/// A daemon request with the identifier under which its answer is cached.
#[derive(Debug, PartialEq, Eq)]
pub struct RequestEnvelope {
    pub request_id: String,
    pub request: DaemonRequest,
}

impl Clone for RequestEnvelope {
    fn clone(&self) -> (copy: Self)
        ensures
            copy.request_id@ == self.request_id@,
            copy.request@ == self.request@,
    {
        RequestEnvelope { request_id: self.request_id.clone(), request: self.request.clone() }
    }
}

/// Whether every requested action executed or execution stopped after a prefix.
#[derive(Debug, Clone, Copy, PartialEq, Eq, Structural)]
pub enum ActStatus {
    /// Every action executed and the returned observation is the resulting state.
    Complete,
    /// Only `executed` leading actions ran; inspect `action_error` and the returned observation.
    Partial,
}

/// Stable machine-readable category for a daemon or action failure.
#[derive(Debug, Clone, Copy, PartialEq, Eq, Structural)]
pub enum ErrorCode {
    StaleFrame,
    TargetGone,
    LeaseConflict,
    InvalidAction,
    OutOfBounds,
    UnsupportedInput,
    CaptureFailed,
    InputFailed,
    PartialExecution,
    Indeterminate,
    Timeout,
    Busy,
    Cancelled,
    ViewportChanged,
    ProtocolError,
    Internal,
}

/// The name of an error category in messages and serialised results.
pub open spec fn code_name(code: ErrorCode) -> Seq<char> {
    match code {
        ErrorCode::StaleFrame => "stale_frame"@,
        ErrorCode::TargetGone => "target_gone"@,
        ErrorCode::LeaseConflict => "lease_conflict"@,
        ErrorCode::InvalidAction => "invalid_action"@,
        ErrorCode::OutOfBounds => "out_of_bounds"@,
        ErrorCode::UnsupportedInput => "unsupported_input"@,
        ErrorCode::CaptureFailed => "capture_failed"@,
        ErrorCode::InputFailed => "input_failed"@,
        ErrorCode::PartialExecution => "partial_execution"@,
        ErrorCode::Indeterminate => "indeterminate"@,
        ErrorCode::Timeout => "timeout"@,
        ErrorCode::Busy => "busy"@,
        ErrorCode::Cancelled => "cancelled"@,
        ErrorCode::ViewportChanged => "viewport_changed"@,
        ErrorCode::ProtocolError => "protocol_error"@,
        ErrorCode::Internal => "internal"@,
    }
}

/// The name of an error category.
pub fn serde_variant_name(code: ErrorCode) -> (name: &'static str)
    ensures
        name@ == code_name(code),
{
    match code {
        ErrorCode::StaleFrame => "stale_frame",
        ErrorCode::TargetGone => "target_gone",
        ErrorCode::LeaseConflict => "lease_conflict",
        ErrorCode::InvalidAction => "invalid_action",
        ErrorCode::OutOfBounds => "out_of_bounds",
        ErrorCode::UnsupportedInput => "unsupported_input",
        ErrorCode::CaptureFailed => "capture_failed",
        ErrorCode::InputFailed => "input_failed",
        ErrorCode::PartialExecution => "partial_execution",
        ErrorCode::Indeterminate => "indeterminate",
        ErrorCode::Timeout => "timeout",
        ErrorCode::Busy => "busy",
        ErrorCode::Cancelled => "cancelled",
        ErrorCode::ViewportChanged => "viewport_changed",
        ErrorCode::ProtocolError => "protocol_error",
        ErrorCode::Internal => "internal",
    }
}

/// Structured computer-use failure.
#[derive(Debug, PartialEq, Eq)]
pub struct CuError {
    /// Stable error category. Observe again after `stale_frame`.
    pub code: ErrorCode,
    /// Human-readable diagnostic and recovery context.
    pub message: String,
    /// Number of leading actions known to have executed, when applicable.
    pub executed: Option<usize>,
    /// Dimensions of a wait's baseline, when the desktop has other ones now.
    pub expected_viewport: Option<Viewport>,
    /// Dimensions of the desktop, when they differ from a wait's baseline.
    pub actual_viewport: Option<Viewport>,
}

/// A failure with its message as a sequence.
pub struct CuErrorView {
    pub code: ErrorCode,
    pub message: Seq<char>,
    pub executed: Option<usize>,
    pub expected_viewport: Option<Viewport>,
    pub actual_viewport: Option<Viewport>,
}

impl View for CuError {
    type V = CuErrorView;

    open spec fn view(&self) -> CuErrorView {
        CuErrorView {
            code: self.code,
            message: self.message@,
            executed: self.executed,
            expected_viewport: self.expected_viewport,
            actual_viewport: self.actual_viewport,
        }
    }
}

impl Clone for CuError {
    fn clone(&self) -> (copy: Self)
        ensures
            copy@ == self@,
    {
        CuError {
            code: self.code,
            message: self.message.clone(),
            executed: self.executed,
            expected_viewport: self.expected_viewport,
            actual_viewport: self.actual_viewport,
        }
    }
}

/// A failure of which only the category and the message are known.
pub open spec fn failure(code: ErrorCode, message: Seq<char>) -> CuErrorView {
    CuErrorView {
        code,
        message,
        executed: None,
        expected_viewport: None,
        actual_viewport: None,
    }
}

impl CuErrorView {
    /// The failure with a count of executed actions.
    pub open spec fn after(self, executed: usize) -> CuErrorView {
        CuErrorView { executed: Some(executed), ..self }
    }

    /// The failure as one line of text.
    pub open spec fn text(self) -> Seq<char> {
        code_name(self.code) + ": "@ + self.message
    }
}

impl CuError {
    /// A failure of one category with a diagnostic.
    pub fn new(code: ErrorCode, message: &str) -> (error: Self)
        ensures
            error@ == failure(code, message@),
    {
        CuError {
            code,
            message: message.to_owned(),
            executed: None,
            expected_viewport: None,
            actual_viewport: None,
        }
    }

    /// Record how many leading actions executed before the failure.
    pub fn with_executed(self, executed: usize) -> (error: Self)
        ensures
            error@ == self@.after(executed),
    {
        let mut error = self;
        error.executed = Some(executed);
        error
    }

    /// Record the dimensions that a wait expected and those that it met.
    pub fn with_viewports(self, expected: Viewport, actual: Viewport) -> (error: Self)
        ensures
            error@ == (CuErrorView {
                expected_viewport: Some(expected),
                actual_viewport: Some(actual),
                ..self@
            }),
    {
        let mut error = self;
        error.expected_viewport = Some(expected);
        error.actual_viewport = Some(actual);
        error
    }

    /// The failure as one line of text: category, colon, message.
    pub fn to_text(&self) -> (text: String)
        ensures
            text@ == self@.text(),
    {
        let mut text = serde_variant_name(self.code).to_owned();
        text.append(": ");
        text.append(&self.message);
        text
    }
}

/// Structured result of an action batch.
#[derive(Debug, PartialEq, Eq)]
pub struct ActOutcome {
    /// Complete or partial execution status.
    pub status: ActStatus,
    /// Number of leading actions that executed successfully.
    pub executed: usize,
    /// Failure that stopped a partial batch; absent when status is `ok`.
    pub action_error: Option<CuError>,
    /// Whether a cached replay outlived its retained screenshot.
    pub image_expired: bool,
    /// Fresh post-action or post-failure frame, absent only after its cached image expires.
    pub observation: Option<Observation>,
}

/// An action result with its text as sequences.
pub struct ActOutcomeView {
    pub status: ActStatus,
    pub executed: usize,
    pub action_error: Option<CuErrorView>,
    pub image_expired: bool,
    pub observation: Option<ObservationView>,
}

/// The view of an optional failure.
pub open spec fn error_view(error: Option<CuError>) -> Option<CuErrorView> {
    match error {
        Some(error) => Some(error@),
        None => None,
    }
}

/// The view of an optional observation.
pub open spec fn observation_view(observation: Option<Observation>) -> Option<ObservationView> {
    match observation {
        Some(observation) => Some(observation@),
        None => None,
    }
}

/// The view of an optional text.
pub open spec fn text_view(text: Option<String>) -> Option<Seq<char>> {
    match text {
        Some(text) => Some(text@),
        None => None,
    }
}

impl View for ActOutcome {
    type V = ActOutcomeView;

    open spec fn view(&self) -> ActOutcomeView {
        ActOutcomeView {
            status: self.status,
            executed: self.executed,
            action_error: error_view(self.action_error),
            image_expired: self.image_expired,
            observation: observation_view(self.observation),
        }
    }
}

impl Clone for ActOutcome {
    fn clone(&self) -> (copy: Self)
        ensures
            copy@ == self@,
    {
        ActOutcome {
            status: self.status,
            executed: self.executed,
            action_error: match &self.action_error {
                Some(error) => Some(error.clone()),
                None => None,
            },
            image_expired: self.image_expired,
            observation: match &self.observation {
                Some(observation) => Some(observation.clone()),
                None => None,
            },
        }
    }
}

/// Successful answer of a daemon.
#[derive(Debug, PartialEq, Eq)]
pub enum DaemonResponse {
    Profile(Option<String>),
    Status(Option<FrameStatus>),
    Observe(Observation),
    Act(ActOutcome),
    Wait(WaitOutcome),
}

/// A daemon answer with its text as sequences.
pub enum DaemonResponseView {
    Profile(Option<Seq<char>>),
    Status(Option<FrameStatusView>),
    Observe(ObservationView),
    Act(ActOutcomeView),
    Wait(WaitOutcomeView),
}

impl View for DaemonResponse {
    type V = DaemonResponseView;

    open spec fn view(&self) -> DaemonResponseView {
        match *self {
            DaemonResponse::Profile(profile) => DaemonResponseView::Profile(text_view(profile)),
            DaemonResponse::Status(status) => DaemonResponseView::Status(
                match status {
                    Some(status) => Some(status@),
                    None => None,
                },
            ),
            DaemonResponse::Observe(observation) => DaemonResponseView::Observe(observation@),
            DaemonResponse::Act(outcome) => DaemonResponseView::Act(outcome@),
            DaemonResponse::Wait(outcome) => DaemonResponseView::Wait(outcome@),
        }
    }
}

impl Clone for DaemonResponse {
    fn clone(&self) -> (copy: Self)
        ensures
            copy@ == self@,
    {
        match self {
            DaemonResponse::Profile(profile) => DaemonResponse::Profile(
                match profile {
                    Some(profile) => Some(profile.clone()),
                    None => None,
                },
            ),
            DaemonResponse::Status(status) => DaemonResponse::Status(
                match status {
                    Some(status) => Some(status.clone()),
                    None => None,
                },
            ),
            DaemonResponse::Observe(observation) => DaemonResponse::Observe(observation.clone()),
            DaemonResponse::Act(outcome) => DaemonResponse::Act(outcome.clone()),
            DaemonResponse::Wait(outcome) => DaemonResponse::Wait(outcome.clone()),
        }
    }
}

/// Answer or failure of a daemon.
#[derive(Debug, PartialEq, Eq)]
pub enum ResponseResult {
    Success(DaemonResponse),
    Error(CuError),
}

/// An answer or failure with its text as sequences.
pub enum ResponseResultView {
    Success(DaemonResponseView),
    Error(CuErrorView),
}

impl View for ResponseResult {
    type V = ResponseResultView;

    open spec fn view(&self) -> ResponseResultView {
        match *self {
            ResponseResult::Success(response) => ResponseResultView::Success(response@),
            ResponseResult::Error(error) => ResponseResultView::Error(error@),
        }
    }
}

impl Clone for ResponseResult {
    fn clone(&self) -> (copy: Self)
        ensures
            copy@ == self@,
    {
        match self {
            ResponseResult::Success(response) => ResponseResult::Success(response.clone()),
            ResponseResult::Error(error) => ResponseResult::Error(error.clone()),
        }
    }
}

/// Daemon result under the identifier of its request.
#[derive(Debug, PartialEq, Eq)]
pub struct ResponseEnvelope {
    pub request_id: String,
    pub result: ResponseResult,
}

/// A daemon result with its text as sequences.
pub struct ResponseEnvelopeView {
    pub request_id: Seq<char>,
    pub result: ResponseResultView,
}

impl View for ResponseEnvelope {
    type V = ResponseEnvelopeView;

    open spec fn view(&self) -> ResponseEnvelopeView {
        ResponseEnvelopeView { request_id: self.request_id@, result: self.result@ }
    }
}

impl Clone for ResponseEnvelope {
    fn clone(&self) -> (copy: Self)
        ensures
            copy@ == self@,
    {
        ResponseEnvelope { request_id: self.request_id.clone(), result: self.result.clone() }
    }
}

/// Wrap a result for its request.
pub fn response_from_result(
    request_id: String,
    result: Result<DaemonResponse, CuError>,
) -> (response: ResponseEnvelope)
    ensures
        response.request_id == request_id,
        match result {
            Ok(value) => response.result == ResponseResult::Success(value),
            Err(error) => response.result == ResponseResult::Error(error),
        },
{
    ResponseEnvelope {
        request_id,
        result: match result {
            Ok(response) => ResponseResult::Success(response),
            Err(error) => ResponseResult::Error(error),
        },
    }
}

/// Wrap a failure for its request.
pub fn error_response(request_id: String, error: CuError) -> (response: ResponseEnvelope)
    ensures
        response.request_id == request_id,
        response.result == ResponseResult::Error(error),
{
    ResponseEnvelope { request_id, result: ResponseResult::Error(error) }
}

} // verus!
