//! The protocol's limits on requests: which ones are refused, and with which failure.
use vstd::prelude::*;
use vstd::utf8::encode_utf8;

use crate::intervals::{edges_fit, intervals_cover, merged_intervals, ordered_ends, separated};
use crate::protocol::{
    action_views, failure, some_rect_covers, texts, ActRequest, ActRequestView, Action, ActionView,
    CuError, CuErrorView, ErrorCode, Point, PolledWaitRequest, Rect, SettlePolicy, Viewport,
    WaitRequest, WaitRequestView, MAX_ACTIONS, MAX_ACTION_TIME_MS, MAX_DRAG_POINTS,
    MAX_EXCLUDE_RECTS, MAX_KEYS, MAX_POLLED_WAIT_TIMEOUT_MS, MAX_TEXT_BYTES,
    MAX_WAIT_EXCLUDE_RECTS, MAX_WAIT_INCLUDE_RECTS, MAX_WAIT_POLL_MS, MAX_WAIT_QUIET_MS,
    MAX_WAIT_TIMEOUT_MS, MIN_WAIT_POLL_MS,
};
use crate::text::{decimal, push_decimal, push_signed_decimal, signed_decimal};

verus! {

/// The view of a check's result: nothing, or the failure.
pub open spec fn refusal(result: Result<(), CuError>) -> Option<CuErrorView> {
    match result {
        Ok(()) => None,
        Err(error) => Some(error@),
    }
}

/// The first failure of two checks made in turn.
pub open spec fn first_failure(
    first: Option<CuErrorView>,
    second: Option<CuErrorView>,
) -> Option<CuErrorView> {
    if first is Some {
        first
    } else {
        second
    }
}

/// A failure of a request that is invalid in itself.
pub open spec fn invalid(message: Seq<char>) -> Option<CuErrorView> {
    Some(failure(ErrorCode::InvalidAction, message))
}

fn refuse(message: &str) -> (result: Result<(), CuError>)
    ensures
        refusal(result) == invalid(message@),
{
    Err(CuError::new(ErrorCode::InvalidAction, message))
}

/// Whether a point is a pixel of the viewport.
pub open spec fn point_in(point: Point, viewport: Viewport) -> bool {
    0 <= point.x < viewport.width && 0 <= point.y < viewport.height
}

/// The refusal of a point outside the viewport.
pub open spec fn point_failure(point: Point, viewport: Viewport) -> Option<CuErrorView> {
    if point_in(point, viewport) {
        None
    } else {
        Some(
            failure(
                ErrorCode::OutOfBounds,
                "point ("@ + signed_decimal(point.x as int) + ", "@ + signed_decimal(point.y as int)
                    + ") is outside "@ + decimal(viewport.width as nat) + "x"@ + decimal(
                    viewport.height as nat,
                ),
            ),
        )
    }
}

/// Refuse a point that is no pixel of the viewport.
pub fn validate_point(point: Point, viewport: Viewport) -> (result: Result<(), CuError>)
    ensures
        refusal(result) == point_failure(point, viewport),
{
    if point.x >= 0 && point.y >= 0 && (point.x as u32) < viewport.width && (point.y as u32)
        < viewport.height {
        return Ok(());
    }
    let mut message = "point (".to_owned();
    push_signed_decimal(&mut message, point.x as i64);
    message.append(", ");
    push_signed_decimal(&mut message, point.y as i64);
    message.append(") is outside ");
    push_decimal(&mut message, viewport.width as u64);
    message.append("x");
    push_decimal(&mut message, viewport.height as u64);
    Err(CuError::new(ErrorCode::OutOfBounds, &message))
}

/// The refusal of a rectangle that is empty or leaves the viewport.
pub open spec fn rect_failure(rect: Rect, viewport: Viewport, name: Seq<char>) -> Option<
    CuErrorView,
> {
    if rect.fits(viewport) {
        None
    } else {
        Some(
            failure(
                ErrorCode::OutOfBounds,
                name + " ("@ + decimal(rect.x as nat) + ", "@ + decimal(rect.y as nat) + ", "@
                    + decimal(rect.width as nat) + ", "@ + decimal(rect.height as nat)
                    + ") is outside "@ + decimal(viewport.width as nat) + "x"@ + decimal(
                    viewport.height as nat,
                ),
            ),
        )
    }
}

/// Refuse a rectangle that is empty or leaves the viewport.
pub fn validate_rect(rect: Rect, viewport: Viewport, name: &str) -> (result: Result<(), CuError>)
    ensures
        refusal(result) == rect_failure(rect, viewport, name@),
{
    let right_fits = match rect.x.checked_add(rect.width) {
        Some(right) => right <= viewport.width,
        None => false,
    };
    let bottom_fits = match rect.y.checked_add(rect.height) {
        Some(bottom) => bottom <= viewport.height,
        None => false,
    };
    if rect.width == 0 || rect.height == 0 || !right_fits || !bottom_fits {
        let mut message = name.to_owned();
        message.append(" (");
        push_decimal(&mut message, rect.x as u64);
        message.append(", ");
        push_decimal(&mut message, rect.y as u64);
        message.append(", ");
        push_decimal(&mut message, rect.width as u64);
        message.append(", ");
        push_decimal(&mut message, rect.height as u64);
        message.append(") is outside ");
        push_decimal(&mut message, viewport.width as u64);
        message.append("x");
        push_decimal(&mut message, viewport.height as u64);
        return Err(CuError::new(ErrorCode::OutOfBounds, &message));
    }
    Ok(())
}

/// The refusal of the first rectangle of a list that is empty or leaves the viewport.
pub open spec fn rects_failure(rects: Seq<Rect>, viewport: Viewport, name: Seq<char>) -> Option<
    CuErrorView,
>
    decreases rects.len(),
{
    if rects.len() == 0 {
        None
    } else {
        first_failure(
            rects_failure(rects.drop_last(), viewport, name),
            rect_failure(rects.last(), viewport, name),
        )
    }
}

/// A list is accepted exactly when every rectangle of it fits the viewport.
pub proof fn accepted_rects_fit(rects: Seq<Rect>, viewport: Viewport, name: Seq<char>)
    ensures
        rects_failure(rects, viewport, name) is None <==> forall|i: int|
            0 <= i < rects.len() ==> (#[trigger] rects[i]).fits(viewport),
    decreases rects.len(),
{
    if rects.len() > 0 {
        let shorter = rects.drop_last();
        accepted_rects_fit(shorter, viewport, name);
        if rects_failure(rects, viewport, name) is None {
            assert forall|i: int| 0 <= i < rects.len() implies (#[trigger] rects[i]).fits(
                viewport,
            ) by {
                if i < shorter.len() {
                    assert(rects[i] == shorter[i]);
                }
            }
        }
        if forall|i: int| 0 <= i < rects.len() ==> (#[trigger] rects[i]).fits(viewport) {
            assert forall|i: int| 0 <= i < shorter.len() implies (#[trigger] shorter[i]).fits(
                viewport,
            ) by {
                assert(rects[i] == shorter[i]);
            }
            assert(rects[rects.len() - 1].fits(viewport));
        }
    }
}

proof fn rects_failure_of_prefix(rects: Seq<Rect>, n: int, viewport: Viewport, name: Seq<char>)
    requires
        0 <= n <= rects.len(),
        rects_failure(rects.take(n), viewport, name) is Some,
    ensures
        rects_failure(rects, viewport, name) == rects_failure(rects.take(n), viewport, name),
    decreases rects.len() - n,
{
    if n == rects.len() {
        assert(rects.take(n) =~= rects);
    } else {
        assert(rects.take(n + 1).drop_last() =~= rects.take(n));
        rects_failure_of_prefix(rects, n + 1, viewport, name);
    }
}

fn validate_rects(rects: &Vec<Rect>, viewport: Viewport, name: &str) -> (result: Result<
    (),
    CuError,
>)
    ensures
        refusal(result) == rects_failure(rects@, viewport, name@),
{
    let mut n: usize = 0;
    while n < rects.len()
        invariant
            n <= rects.len(),
            rects_failure(rects@.take(n as int), viewport, name@) is None,
        decreases rects.len() - n,
    {
        let checked = validate_rect(rects[n], viewport, name);
        proof {
            assert(rects@.take(n + 1).drop_last() =~= rects@.take(n as int));
            assert(rects@.take(n + 1).last() == rects@[n as int]);
        }
        if checked.is_err() {
            proof {
                rects_failure_of_prefix(rects@, n + 1, viewport, name@);
            }
            return checked;
        }
        n += 1;
    }
    assert(rects@.take(n as int) =~= rects@);
    Ok(())
}

/// The refusal of a settling policy outside the protocol's limits.
pub open spec fn settle_failure(policy: SettlePolicy) -> Option<CuErrorView> {
    if !(1 <= policy.quiet_ms <= 5_000) {
        invalid("quiet_ms must be between 1 and 5000"@)
    } else if !(policy.quiet_ms <= policy.timeout_ms <= 30_000) {
        invalid("timeout_ms must be at least quiet_ms and no more than 30000"@)
    } else {
        None
    }
}

/// Validate the quiet period and overall timeout used for visual settling.
pub fn validate_settle_policy(policy: SettlePolicy) -> (result: Result<(), CuError>)
    ensures
        refusal(result) == settle_failure(policy),
{
    if policy.quiet_ms == 0 || policy.quiet_ms > 5_000 {
        return refuse("quiet_ms must be between 1 and 5000");
    }
    if policy.timeout_ms < policy.quiet_ms || policy.timeout_ms > 30_000 {
        return refuse("timeout_ms must be at least quiet_ms and no more than 30000");
    }
    Ok(())
}

/// Whether some name of a key list is empty.
pub open spec fn has_empty_name(keys: Seq<Seq<char>>) -> bool {
    exists|i: int| 0 <= i < keys.len() && (#[trigger] keys[i]).len() == 0
}

/// The refusal of a list of held keys.
pub open spec fn modifier_keys_failure(keys: Seq<Seq<char>>) -> Option<CuErrorView> {
    if has_empty_name(keys) {
        invalid("keys must not contain empty names"@)
    } else if keys.len() > MAX_KEYS {
        invalid("keys exceeds the limit of 16"@)
    } else {
        None
    }
}

/// The refusal of a key chord.
pub open spec fn keys_failure(keys: Seq<Seq<char>>) -> Option<CuErrorView> {
    if keys.len() == 0 {
        invalid("keys must not be empty"@)
    } else {
        modifier_keys_failure(keys)
    }
}

/// Refuse a list of held keys that is too long or holds an empty name.
pub fn validate_modifier_keys(keys: &Vec<String>) -> (result: Result<(), CuError>)
    ensures
        refusal(result) == modifier_keys_failure(texts(keys@)),
{
    let mut n: usize = 0;
    while n < keys.len()
        invariant
            n <= keys.len(),
            forall|i: int| 0 <= i < n ==> (#[trigger] texts(keys@)[i]).len() > 0,
        decreases keys.len() - n,
    {
        assert(texts(keys@)[n as int] == keys@[n as int]@);
        if keys[n].as_str().is_empty() {
            return refuse("keys must not contain empty names");
        }
        n += 1;
    }
    if keys.len() > MAX_KEYS {
        return refuse("keys exceeds the limit of 16");
    }
    Ok(())
}

/// Refuse a key chord that is empty, too long or holds an empty name.
pub fn validate_keys(keys: &Vec<String>) -> (result: Result<(), CuError>)
    ensures
        refusal(result) == keys_failure(texts(keys@)),
{
    if keys.len() == 0 {
        return refuse("keys must not be empty");
    }
    validate_modifier_keys(keys)
}

/// The refusal of the first point of a path that is no pixel of the viewport.
pub open spec fn points_failure(points: Seq<Point>, viewport: Viewport) -> Option<CuErrorView>
    decreases points.len(),
{
    if points.len() == 0 {
        None
    } else {
        first_failure(
            points_failure(points.drop_last(), viewport),
            point_failure(points.last(), viewport),
        )
    }
}

proof fn points_failure_of_prefix(points: Seq<Point>, n: int, viewport: Viewport)
    requires
        0 <= n <= points.len(),
        points_failure(points.take(n), viewport) is Some,
    ensures
        points_failure(points, viewport) == points_failure(points.take(n), viewport),
    decreases points.len() - n,
{
    if n == points.len() {
        assert(points.take(n) =~= points);
    } else {
        assert(points.take(n + 1).drop_last() =~= points.take(n));
        points_failure_of_prefix(points, n + 1, viewport);
    }
}

fn validate_points(points: &Vec<Point>, viewport: Viewport) -> (result: Result<(), CuError>)
    ensures
        refusal(result) == points_failure(points@, viewport),
{
    let mut n: usize = 0;
    while n < points.len()
        invariant
            n <= points.len(),
            points_failure(points@.take(n as int), viewport) is None,
        decreases points.len() - n,
    {
        let checked = validate_point(points[n], viewport);
        proof {
            assert(points@.take(n + 1).drop_last() =~= points@.take(n as int));
            assert(points@.take(n + 1).last() == points@[n as int]);
        }
        if checked.is_err() {
            proof {
                points_failure_of_prefix(points@, n + 1, viewport);
            }
            return checked;
        }
        n += 1;
    }
    assert(points@.take(n as int) =~= points@);
    Ok(())
}

/// The refusal of a pointer time that is too long.
pub open spec fn time_failure(time_ms: u64, message: Seq<char>) -> Option<CuErrorView> {
    if time_ms > MAX_ACTION_TIME_MS {
        invalid(message)
    } else {
        None
    }
}

fn validate_time(time_ms: u64, message: &str) -> (result: Result<(), CuError>)
    ensures
        refusal(result) == time_failure(time_ms, message@),
{
    if time_ms > MAX_ACTION_TIME_MS {
        return refuse(message);
    }
    Ok(())
}

/// The refusal of a pointer action at one point.
pub open spec fn pointer_failure(
    x: i32,
    y: i32,
    keys: Seq<Seq<char>>,
    viewport: Viewport,
) -> Option<CuErrorView> {
    first_failure(point_failure(Point { x, y }, viewport), modifier_keys_failure(keys))
}

fn validate_pointer(x: i32, y: i32, keys: &Vec<String>, viewport: Viewport) -> (result: Result<
    (),
    CuError,
>)
    ensures
        refusal(result) == pointer_failure(x, y, texts(keys@), viewport),
{
    let placed = validate_point(Point { x, y }, viewport);
    if placed.is_err() {
        return placed;
    }
    validate_modifier_keys(keys)
}

/// The refusal of text to type.
pub open spec fn text_failure(text: Seq<char>) -> Option<CuErrorView> {
    if text.contains('\0') {
        invalid("text must not contain NUL bytes"@)
    } else if encode_utf8(text).len() > MAX_TEXT_BYTES {
        invalid("text exceeds the 65536-byte limit"@)
    } else {
        None
    }
}

/// The failure with which an action is refused, if it is.
pub open spec fn action_failure(action: ActionView, viewport: Viewport) -> Option<CuErrorView> {
    match action {
        ActionView::Move { x, y, keys } => pointer_failure(x, y, keys, viewport),
        ActionView::Click { x, y, duration_ms, keys, .. } => first_failure(
            pointer_failure(x, y, keys, viewport),
            time_failure(duration_ms, "duration_ms must be no more than 10000"@),
        ),
        ActionView::DoubleClick { x, y, keys } => pointer_failure(x, y, keys, viewport),
        ActionView::Scroll { x, y, keys, .. } => pointer_failure(x, y, keys, viewport),
        ActionView::Drag { path, hold_ms, duration_ms, keys } => if path.len() < 2 {
            invalid("drag path must contain at least two points"@)
        } else if path.len() > MAX_DRAG_POINTS {
            invalid("drag path exceeds the limit of 256 points"@)
        } else {
            first_failure(
                first_failure(points_failure(path, viewport), modifier_keys_failure(keys)),
                first_failure(
                    time_failure(hold_ms, "hold_ms must be no more than 10000"@),
                    match duration_ms {
                        Some(duration_ms) => time_failure(
                            duration_ms,
                            "duration_ms must be no more than 10000"@,
                        ),
                        None => None,
                    },
                ),
            )
        },
        ActionView::Type { text } => text_failure(text),
        ActionView::Keypress { keys } => keys_failure(keys),
    }
}

fn holds_nul(text: &str) -> (found: bool)
    ensures
        found == text@.contains('\0'),
{
    let mut found: bool = false;
    for c in it: text.chars()
        invariant
            it.seq() == text@,
            found == exists|i: int| 0 <= i < it.index() && #[trigger] it.seq()[i] == '\0',
    {
        if c == '\0' {
            found = true;
        }
    }
    found
}

/// Refuse text that holds a NUL or is too long.
pub fn validate_text(text: &str) -> (result: Result<(), CuError>)
    ensures
        refusal(result) == text_failure(text@),
{
    if holds_nul(text) {
        return refuse("text must not contain NUL bytes");
    }
    if text.as_bytes().len() > MAX_TEXT_BYTES {
        return refuse("text exceeds the 65536-byte limit");
    }
    Ok(())
}

/// Validate one action against the current frame coordinate space.
pub fn validate_action(action: &Action, viewport: Viewport) -> (result: Result<(), CuError>)
    ensures
        refusal(result) == action_failure(action@, viewport),
{
    match action {
        Action::Move { x, y, keys } => validate_pointer(*x, *y, keys, viewport),
        Action::DoubleClick { x, y, keys } => validate_pointer(*x, *y, keys, viewport),
        Action::Scroll { x, y, keys, .. } => validate_pointer(*x, *y, keys, viewport),
        Action::Click { x, y, duration_ms, keys, .. } => {
            let placed = validate_pointer(*x, *y, keys, viewport);
            if placed.is_err() {
                return placed;
            }
            validate_time(*duration_ms, "duration_ms must be no more than 10000")
        },
        Action::Drag { path, hold_ms, duration_ms, keys } => {
            if path.len() < 2 {
                return refuse("drag path must contain at least two points");
            }
            if path.len() > MAX_DRAG_POINTS {
                return refuse("drag path exceeds the limit of 256 points");
            }
            let placed = validate_points(path, viewport);
            if placed.is_err() {
                return placed;
            }
            let held = validate_modifier_keys(keys);
            if held.is_err() {
                return held;
            }
            let waited = validate_time(*hold_ms, "hold_ms must be no more than 10000");
            if waited.is_err() {
                return waited;
            }
            match duration_ms {
                Some(duration_ms) => validate_time(
                    *duration_ms,
                    "duration_ms must be no more than 10000",
                ),
                None => Ok(()),
            }
        },
        Action::Type { text } => validate_text(text),
        Action::Keypress { keys } => validate_keys(keys),
    }
}

/// The refusal of the first action of a batch that is refused.
pub open spec fn actions_failure(actions: Seq<ActionView>, viewport: Viewport) -> Option<
    CuErrorView,
>
    decreases actions.len(),
{
    if actions.len() == 0 {
        None
    } else {
        first_failure(
            actions_failure(actions.drop_last(), viewport),
            action_failure(actions.last(), viewport),
        )
    }
}

/// A batch is accepted exactly when every action of it is.
#[verifier::spinoff_prover]
pub proof fn accepted_batches_hold_accepted_actions(actions: Seq<ActionView>, viewport: Viewport)
    ensures
        actions_failure(actions, viewport) is None <==> forall|i: int|
            0 <= i < actions.len() ==> action_failure(#[trigger] actions[i], viewport) is None,
    decreases actions.len(),
{
    if actions.len() > 0 {
        let shorter = actions.drop_last();
        let last = actions.len() - 1;
        accepted_batches_hold_accepted_actions(shorter, viewport);
        assert(actions.last() == actions[last]);
        assert forall|i: int| 0 <= i < shorter.len() implies #[trigger] actions[i] == shorter[i] by {
        }
        assert forall|i: int| 0 <= i < shorter.len() implies #[trigger] shorter[i] == actions[i] by {
        }
    }
}

proof fn actions_failure_of_prefix(actions: Seq<ActionView>, n: int, viewport: Viewport)
    requires
        0 <= n <= actions.len(),
        actions_failure(actions.take(n), viewport) is Some,
    ensures
        actions_failure(actions, viewport) == actions_failure(actions.take(n), viewport),
    decreases actions.len() - n,
{
    if n == actions.len() {
        assert(actions.take(n) =~= actions);
    } else {
        assert(actions.take(n + 1).drop_last() =~= actions.take(n));
        actions_failure_of_prefix(actions, n + 1, viewport);
    }
}

/// The failure with which an action request is refused, if it is.
pub open spec fn act_failure(request: ActRequestView, viewport: Viewport) -> Option<CuErrorView> {
    if request.expected_frame_id.len() == 0 {
        invalid("expected_frame_id must not be empty"@)
    } else if request.actions.len() == 0 {
        invalid("actions must not be empty"@)
    } else if request.actions.len() > MAX_ACTIONS {
        invalid("actions exceeds the limit of 16"@)
    } else {
        first_failure(settle_failure(request.settle), actions_failure(request.actions, viewport))
    }
}

/// Validate an action batch against the observed viewport and protocol limits.
pub fn validate_act_request(request: &ActRequest, viewport: Viewport) -> (result: Result<
    (),
    CuError,
>)
    ensures
        refusal(result) == act_failure(request@, viewport),
{
    if request.expected_frame_id.as_str().is_empty() {
        return refuse("expected_frame_id must not be empty");
    }
    if request.actions.len() == 0 {
        return refuse("actions must not be empty");
    }
    if request.actions.len() > MAX_ACTIONS {
        return refuse("actions exceeds the limit of 16");
    }
    let settled = validate_settle_policy(request.settle);
    if settled.is_err() {
        return settled;
    }
    let ghost views = action_views(request.actions@);
    let mut n: usize = 0;
    while n < request.actions.len()
        invariant
            n <= request.actions.len(),
            views == action_views(request.actions@),
            request@.expected_frame_id.len() > 0,
            0 < views.len() <= MAX_ACTIONS,
            settle_failure(request.settle) is None,
            actions_failure(views.take(n as int), viewport) is None,
        decreases request.actions.len() - n,
    {
        let checked = validate_action(&request.actions[n], viewport);
        proof {
            assert(views.take(n + 1).drop_last() =~= views.take(n as int));
            assert(views.take(n + 1).last() == request.actions@[n as int]@);
        }
        if checked.is_err() {
            proof {
                actions_failure_of_prefix(views, n + 1, viewport);
            }
            return checked;
        }
        n += 1;
    }
    assert(views.take(n as int) =~= views);
    Ok(())
}

/// The failure with which a wait is refused for its baseline's viewport, if it is.
pub open spec fn wait_failure(request: WaitRequestView, viewport: Viewport) -> Option<CuErrorView> {
    if request.last_frame_id.len() == 0 {
        invalid("last_frame_id must not be empty"@)
    } else if !(1 <= request.timeout_ms <= MAX_WAIT_TIMEOUT_MS) {
        invalid("timeout_ms must be between 1 and 3600000"@)
    } else if !(1 <= request.quiet_ms <= MAX_WAIT_QUIET_MS) {
        invalid("quiet_ms must be between 1 and 60000"@)
    } else if !(1 <= request.include_rects.len() <= MAX_WAIT_INCLUDE_RECTS) {
        invalid("include_rects must contain between 1 and 8 rectangles"@)
    } else if request.exclude_rects.len() > MAX_WAIT_EXCLUDE_RECTS {
        invalid("exclude_rects exceeds the limit of 8 rectangles"@)
    } else {
        first_failure(
            rects_failure(request.include_rects, viewport, "include rectangle"@),
            rects_failure(request.exclude_rects, viewport, "exclude rectangle"@),
        )
    }
}

/// Validate a screen-change wait against its baseline viewport.
pub fn validate_wait_request(request: &WaitRequest, viewport: Viewport) -> (result: Result<
    (),
    CuError,
>)
    ensures
        refusal(result) == wait_failure(request@, viewport),
{
    if request.last_frame_id.as_str().is_empty() {
        return refuse("last_frame_id must not be empty");
    }
    if request.timeout_ms == 0 || request.timeout_ms > MAX_WAIT_TIMEOUT_MS {
        return refuse("timeout_ms must be between 1 and 3600000");
    }
    if request.quiet_ms == 0 || request.quiet_ms > MAX_WAIT_QUIET_MS {
        return refuse("quiet_ms must be between 1 and 60000");
    }
    if request.include_rects.len() == 0 || request.include_rects.len() > MAX_WAIT_INCLUDE_RECTS {
        return refuse("include_rects must contain between 1 and 8 rectangles");
    }
    if request.exclude_rects.len() > MAX_WAIT_EXCLUDE_RECTS {
        return refuse("exclude_rects exceeds the limit of 8 rectangles");
    }
    let included = validate_rects(&request.include_rects, viewport, "include rectangle");
    if included.is_err() {
        return included;
    }
    validate_rects(&request.exclude_rects, viewport, "exclude rectangle")
}

/// Whether the rectangles cover every pixel of the watched one.
pub open spec fn fully_covered(watched: Rect, excluded: Seq<Rect>) -> bool {
    forall|x: int, y: int| watched.covers(x, y) ==> some_rect_covers(excluded, x, y)
}

/// Whether the rectangles cover row `y` of the watched one.
pub open spec fn row_covered(watched: Rect, excluded: Seq<Rect>, y: int) -> bool {
    forall|x: int|
        watched.x <= x < watched.x + watched.width ==> some_rect_covers(excluded, x, y)
}

/// Whether the rectangles cover row `y` of the watched rectangle.
fn covers_row(watched: Rect, excluded: &[Rect], y: u32) -> (covered: bool)
    requires
        watched.width > 0,
        watched.x + watched.width <= u32::MAX,
        edges_fit(excluded@),
    ensures
        covered == row_covered(watched, excluded@, y as int),
{
    let merged = merged_intervals(excluded, y);
    let right: u32 = watched.x + watched.width;
    let mut n: usize = 0;
    while n < merged.len()
        invariant
            n <= merged.len(),
            right == watched.x + watched.width,
            watched.width > 0,
            separated(merged@),
            ordered_ends(merged@),
            forall|x: int|
                intervals_cover(merged@, x) <==> some_rect_covers(excluded@, x, y as int),
            forall|i: int|
                0 <= i < n ==> !((#[trigger] merged[i]).0 <= watched.x && right <= merged[i].1),
        decreases merged.len() - n,
    {
        if merged[n].0 <= watched.x && right <= merged[n].1 {
            assert forall|x: int| watched.x <= x < right implies some_rect_covers(
                excluded@,
                x,
                y as int,
            ) by {
                assert(merged@[n as int].0 <= x < merged@[n as int].1);
                assert(intervals_cover(merged@, x));
            }
            return true;
        }
        n += 1;
    }
    proof {
        if row_covered(watched, excluded@, y as int) {
            assert(intervals_cover(merged@, watched.x as int));
            let i = choose|i: int|
                0 <= i < merged.len() && (#[trigger] merged@[i]).0 <= watched.x < merged@[i].1;
            assert(merged@[i] == merged[i]);
            let end = merged@[i].1 as int;
            assert(intervals_cover(merged@, end));
            let j = choose|j: int|
                0 <= j < merged.len() && (#[trigger] merged@[j]).0 <= end < merged@[j].1;
            assert(merged@[j].0 <= merged@[j].1);
            assert(false);
        }
    }
    false
}

/// Whether a rectangle begins or ends between row `low` and row `high`.
spec fn edge_between(rects: Seq<Rect>, low: int, high: int) -> bool {
    exists|i: int|
        0 <= i < rects.len() && (low < (#[trigger] rects[i]).y <= high || low < rects[i].y
            + rects[i].height <= high)
}

proof fn rows_agree_between_edges(watched: Rect, excluded: Seq<Rect>, low: int, high: int)
    requires
        low <= high,
        !edge_between(excluded, low, high),
        row_covered(watched, excluded, low),
    ensures
        row_covered(watched, excluded, high),
{
    assert forall|x: int|
        watched.x <= x < watched.x + watched.width implies some_rect_covers(excluded, x, high) by {
        assert(some_rect_covers(excluded, x, low));
        let i = choose|i: int| 0 <= i < excluded.len() && #[trigger] excluded[i].covers(x, low);
        assert(excluded[i].covers(x, high));
    }
}

/// Rows of the watched rectangle at which the coverage of its pixels can change.
spec fn checked_rows(watched: Rect, excluded: Seq<Rect>, n: int) -> spec_fn(int) -> bool {
    |y: int|
        y == watched.y || exists|i: int|
            0 <= i < n && i < excluded.len() && (y == (#[trigger] excluded[i]).y || y
                == excluded[i].y + excluded[i].height)
}

proof fn checked_rows_suffice(watched: Rect, excluded: Seq<Rect>, y: int)
    requires
        watched.y <= y < watched.y + watched.height,
        forall|row: int|
            watched.y <= row < watched.y + watched.height && #[trigger] checked_rows(
                watched,
                excluded,
                excluded.len() as int,
            )(row) ==> row_covered(watched, excluded, row),
    ensures
        row_covered(watched, excluded, y),
    decreases y - watched.y,
{
    let checked = checked_rows(watched, excluded, excluded.len() as int);
    if checked(y) {
    } else {
        checked_rows_suffice(watched, excluded, y - 1);
        assert(!edge_between(excluded, y - 1, y)) by {
            if edge_between(excluded, y - 1, y) {
                let i = choose|i: int|
                    0 <= i < excluded.len() && (y - 1 < (#[trigger] excluded[i]).y <= y || y - 1
                        < excluded[i].y + excluded[i].height <= y);
                assert(checked(y));
            }
        }
        rows_agree_between_edges(watched, excluded, y - 1, y);
    }
}

/// Whether the excluded rectangles leave no pixel of the watched one.
///
/// The answer for a watched rectangle without width depends on its height alone.
pub fn rect_is_fully_covered(watched: Rect, excluded: &[Rect]) -> (covered: bool)
    requires
        watched.x + watched.width <= u32::MAX,
        watched.y + watched.height <= u32::MAX,
        edges_fit(excluded@),
    ensures
        watched.width > 0 ==> covered == fully_covered(watched, excluded@),
        watched.width == 0 ==> covered == (watched.height == 0),
{
    if watched.height == 0 {
        return true;
    }
    if watched.width == 0 {
        return false;
    }
    let bottom: u32 = watched.y + watched.height;
    if !covers_row(watched, excluded, watched.y) {
        proof {
            uncovered_row(watched, excluded@, watched.y as int);
        }
        return false;
    }
    let mut n: usize = 0;
    while n < excluded.len()
        invariant
            n <= excluded.len(),
            watched.width > 0,
            watched.height > 0,
            watched.x + watched.width <= u32::MAX,
            bottom == watched.y + watched.height,
            edges_fit(excluded@),
            forall|row: int|
                watched.y <= row < bottom && #[trigger] checked_rows(
                    watched,
                    excluded@,
                    n as int,
                )(row) ==> row_covered(watched, excluded@, row),
        decreases excluded.len() - n,
    {
        let rect = excluded[n];
        assert(excluded@[n as int] == rect);
        let end: u32 = rect.y + rect.height;
        if watched.y <= rect.y && rect.y < bottom && !covers_row(watched, excluded, rect.y) {
            proof {
                uncovered_row(watched, excluded@, rect.y as int);
            }
            return false;
        }
        if watched.y <= end && end < bottom && !covers_row(watched, excluded, end) {
            proof {
                uncovered_row(watched, excluded@, end as int);
            }
            return false;
        }
        assert forall|row: int|
            watched.y <= row < bottom && #[trigger] checked_rows(
                watched,
                excluded@,
                n + 1,
            )(row) implies row_covered(watched, excluded@, row) by {
            if !checked_rows(watched, excluded@, n as int)(row) {
                let i = choose|i: int|
                    0 <= i < n + 1 && i < excluded.len() && (row == (#[trigger] excluded@[i]).y
                        || row == excluded@[i].y + excluded@[i].height);
                assert(i == n);
            }
        }
        n += 1;
    }
    assert forall|x: int, y: int| watched.covers(x, y) implies some_rect_covers(
        excluded@,
        x,
        y,
    ) by {
        checked_rows_suffice(watched, excluded@, y);
    }
    true
}

proof fn uncovered_row(watched: Rect, excluded: Seq<Rect>, y: int)
    requires
        watched.y <= y < watched.y + watched.height,
        !row_covered(watched, excluded, y),
    ensures
        !fully_covered(watched, excluded),
{
    let x = choose|x: int|
        watched.x <= x < watched.x + watched.width && !some_rect_covers(excluded, x, y);
    assert(watched.covers(x, y));
}

/// The rectangle that a polled wait watches.
pub open spec fn polled_rect(rect: Option<Rect>, viewport: Viewport) -> Rect {
    match rect {
        Some(rect) => rect,
        None => Rect { x: 0, y: 0, width: viewport.width, height: viewport.height },
    }
}

/// The failure with which a polled wait is refused for its baseline's viewport, if it is.
pub open spec fn polled_wait_failure(request: PolledWaitRequest, viewport: Viewport) -> Option<
    CuErrorView,
> {
    let watched = polled_rect(request.rect, viewport);
    if request.last_frame_id@.len() == 0 {
        invalid("last_frame_id must not be empty"@)
    } else if !(1 <= request.timeout_ms <= MAX_POLLED_WAIT_TIMEOUT_MS) {
        invalid("timeout_ms must be between 1 and 30000"@)
    } else if !(MIN_WAIT_POLL_MS <= request.poll_ms <= MAX_WAIT_POLL_MS) {
        invalid("poll_ms must be between 100 and 5000"@)
    } else if settle_failure(request.settle) is Some {
        settle_failure(request.settle)
    } else if request.exclude@.len() > MAX_EXCLUDE_RECTS {
        invalid("exclude exceeds the limit of 16 rectangles"@)
    } else if rect_failure(watched, viewport, "rect"@) is Some {
        rect_failure(watched, viewport, "rect"@)
    } else if rects_failure(request.exclude@, viewport, "exclude rectangle"@) is Some {
        rects_failure(request.exclude@, viewport, "exclude rectangle"@)
    } else if fully_covered(watched, request.exclude@) {
        invalid("exclude rectangles cover the entire watched rectangle"@)
    } else {
        None
    }
}

/// Validate a polled wait on one rectangle against its baseline viewport.
pub fn validate_polled_wait_request(request: &PolledWaitRequest, viewport: Viewport) -> (result:
    Result<(), CuError>)
    ensures
        refusal(result) == polled_wait_failure(*request, viewport),
{
    if request.last_frame_id.as_str().is_empty() {
        return refuse("last_frame_id must not be empty");
    }
    if request.timeout_ms == 0 || request.timeout_ms > MAX_POLLED_WAIT_TIMEOUT_MS {
        return refuse("timeout_ms must be between 1 and 30000");
    }
    if request.poll_ms < MIN_WAIT_POLL_MS || request.poll_ms > MAX_WAIT_POLL_MS {
        return refuse("poll_ms must be between 100 and 5000");
    }
    let settled = validate_settle_policy(request.settle);
    if settled.is_err() {
        return settled;
    }
    if request.exclude.len() > MAX_EXCLUDE_RECTS {
        return refuse("exclude exceeds the limit of 16 rectangles");
    }
    let watched = match request.rect {
        Some(rect) => rect,
        None => Rect { x: 0, y: 0, width: viewport.width, height: viewport.height },
    };
    let placed = validate_rect(watched, viewport, "rect");
    if placed.is_err() {
        return placed;
    }
    let excluded = validate_rects(&request.exclude, viewport, "exclude rectangle");
    if excluded.is_err() {
        return excluded;
    }
    proof {
        accepted_rects_fit(request.exclude@, viewport, "exclude rectangle"@);
    }
    if rect_is_fully_covered(watched, request.exclude.as_slice()) {
        return refuse("exclude rectangles cover the entire watched rectangle");
    }
    Ok(())
}

} // verus!
