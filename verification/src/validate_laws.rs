//! Which requests are accepted, told by their parts alone.
use vstd::prelude::*;
use vstd::utf8::encode_utf8;

use crate::protocol::{
    some_rect_covers, ActRequestView, ActionView, Point, PolledWaitRequest, Rect, SettlePolicy,
    Viewport, WaitRequestView,
};
use crate::validate::{
    accepted_batches_hold_accepted_actions, accepted_rects_fit, act_failure, action_failure,
    actions_failure, fully_covered, keys_failure, modifier_keys_failure, point_failure,
    points_failure, polled_rect, polled_wait_failure, rect_failure, rects_failure, settle_failure,
    text_failure, wait_failure,
};
use crate::wait_laws::{in_rects, rects_hold_what_they_cover};

verus! {

/// Whether coordinates are those of a pixel of a frame.
pub open spec fn is_pixel(x: i32, y: i32, viewport: Viewport) -> bool {
    x >= 0 && y >= 0 && x < viewport.width && y < viewport.height
}

/// Whether a list of keys holds at most sixteen names, and none that is empty.
pub open spec fn are_names(keys: Seq<Seq<char>>) -> bool {
    keys.len() <= 16 && forall|i: int| 0 <= i < keys.len() ==> (#[trigger] keys[i]).len() > 0
}

/// Whether an action is one that a frame of some dimensions allows.
pub open spec fn is_allowed(action: ActionView, viewport: Viewport) -> bool {
    match action {
        ActionView::Move { x, y, keys } => is_pixel(x, y, viewport) && are_names(keys),
        ActionView::Click { x, y, duration_ms, keys, .. } => is_pixel(x, y, viewport) && are_names(
            keys,
        ) && duration_ms <= 10_000,
        ActionView::DoubleClick { x, y, keys } => is_pixel(x, y, viewport) && are_names(keys),
        ActionView::Scroll { x, y, keys, .. } => is_pixel(x, y, viewport) && are_names(keys),
        ActionView::Drag { path, hold_ms, duration_ms, keys } => {
            &&& 2 <= path.len() <= 256
            &&& forall|i: int|
                0 <= i < path.len() ==> is_pixel((#[trigger] path[i]).x, path[i].y, viewport)
            &&& are_names(keys)
            &&& hold_ms <= 10_000
            &&& duration_ms matches Some(duration_ms) ==> duration_ms <= 10_000
        },
        ActionView::Type { text } => encode_utf8(text).len() <= 65_536 && forall|i: int|
            0 <= i < text.len() ==> #[trigger] text[i] != '\0',
        ActionView::Keypress { keys } => keys.len() > 0 && are_names(keys),
    }
}

proof fn accepted_points_are_pixels(points: Seq<Point>, viewport: Viewport)
    ensures
        points_failure(points, viewport) is None <==> forall|i: int|
            0 <= i < points.len() ==> is_pixel((#[trigger] points[i]).x, points[i].y, viewport),
        points_failure(points, viewport) matches Some(error) ==> error.code is OutOfBounds,
    decreases points.len(),
{
    if points.len() > 0 {
        let shorter = points.drop_last();
        let last = points.len() - 1;
        accepted_points_are_pixels(shorter, viewport);
        assert(points.last() == points[last]);
        if points_failure(points, viewport) is None {
            assert forall|i: int| 0 <= i < points.len() implies is_pixel(
                (#[trigger] points[i]).x,
                points[i].y,
                viewport,
            ) by {
                if i < last {
                    assert(points[i] == shorter[i]);
                }
            }
        }
        if forall|i: int|
            0 <= i < points.len() ==> is_pixel((#[trigger] points[i]).x, points[i].y, viewport) {
            assert forall|i: int| 0 <= i < shorter.len() implies is_pixel(
                (#[trigger] shorter[i]).x,
                shorter[i].y,
                viewport,
            ) by {
                assert(shorter[i] == points[i]);
            }
            assert(is_pixel(points[last].x, points[last].y, viewport));
        }
    }
}

/// An action is accepted exactly where its points are pixels of the frame, its keys are at most
/// sixteen names, its times are at most ten seconds, a path has from 2 to 256 points, and text
/// holds no NUL and at most 65536 bytes. A point outside the frame is reported as out of bounds,
/// and everything else as an invalid action.
pub proof fn actions_are_accepted_by_their_parts(action: ActionView, viewport: Viewport)
    ensures
        action_failure(action, viewport) is None <==> is_allowed(action, viewport),
        action_failure(action, viewport) matches Some(error) ==> error.code is OutOfBounds
            || error.code is InvalidAction,
        action matches ActionView::Move { x, y, .. } ==> (!is_pixel(x, y, viewport) <==> (
        action_failure(action, viewport) matches Some(error) && error.code is OutOfBounds)),
        action matches ActionView::Click { x, y, .. } ==> (!is_pixel(x, y, viewport) <==> (
        action_failure(action, viewport) matches Some(error) && error.code is OutOfBounds)),
        action matches ActionView::DoubleClick { x, y, .. } ==> (!is_pixel(x, y, viewport) <==> (
        action_failure(action, viewport) matches Some(error) && error.code is OutOfBounds)),
        action matches ActionView::Scroll { x, y, .. } ==> (!is_pixel(x, y, viewport) <==> (
        action_failure(action, viewport) matches Some(error) && error.code is OutOfBounds)),
        action matches ActionView::Drag { path, .. } ==> 2 <= path.len() <= 256 ==> ((exists|i: int|
            0 <= i < path.len() && !is_pixel((#[trigger] path[i]).x, path[i].y, viewport)) <==> (
        action_failure(action, viewport) matches Some(error) && error.code is OutOfBounds)),
        action is Type || action is Keypress ==> !(action_failure(action, viewport) matches Some(
            error,
        ) && error.code is OutOfBounds),
{
    if let ActionView::Drag { path, .. } = action {
        accepted_points_are_pixels(path, viewport);
    }
    if let ActionView::Type { text } = action {
        if text.contains('\0') {
            let i = choose|i: int| 0 <= i < text.len() && text[i] == '\0';
            assert(text[i] == '\0');
        }
    }
}

/// The refusal of a batch's actions is that of the first action that is not accepted.
pub proof fn batches_are_refused_for_their_first_fault(
    actions: Seq<ActionView>,
    viewport: Viewport,
    place: int,
)
    requires
        0 <= place < actions.len(),
        !is_allowed(actions[place], viewport),
        forall|i: int| 0 <= i < place ==> is_allowed(#[trigger] actions[i], viewport),
    ensures
        actions_failure(actions, viewport) == action_failure(actions[place], viewport),
        actions_failure(actions, viewport) is Some,
    decreases actions.len(),
{
    let shorter = actions.drop_last();
    let last = actions.len() - 1;
    actions_are_accepted_by_their_parts(actions[place], viewport);
    assert(actions.last() == actions[last]);
    if place < last {
        assert(shorter[place] == actions[place]);
        assert forall|i: int| 0 <= i < place implies is_allowed(#[trigger] shorter[i], viewport) by {
            assert(shorter[i] == actions[i]);
        }
        batches_are_refused_for_their_first_fault(shorter, viewport, place);
    } else {
        accepted_batches_hold_accepted_actions(shorter, viewport);
        assert forall|i: int| 0 <= i < shorter.len() implies action_failure(
            #[trigger] shorter[i],
            viewport,
        ) is None by {
            assert(shorter[i] == actions[i]);
            actions_are_accepted_by_their_parts(actions[i], viewport);
        }
    }
}

/// A settling policy is accepted exactly where it is quiet for one millisecond up to five seconds,
/// and its timeout is at least that long and at most thirty seconds.
pub proof fn settling_is_accepted_by_its_times(policy: SettlePolicy)
    ensures
        settle_failure(policy) is None <==> 1 <= policy.quiet_ms <= 5_000 && policy.quiet_ms
            <= policy.timeout_ms <= 30_000,
        settle_failure(policy) matches Some(error) ==> error.code is InvalidAction,
{
}

/// An action request is accepted exactly where it names a frame, holds one to sixteen actions that
/// the frame allows, and its settling policy is accepted.
pub proof fn batches_are_accepted_by_their_parts(request: ActRequestView, viewport: Viewport)
    ensures
        act_failure(request, viewport) is None <==> {
            &&& request.expected_frame_id.len() > 0
            &&& 1 <= request.actions.len() <= 16
            &&& 1 <= request.settle.quiet_ms <= 5_000
            &&& request.settle.quiet_ms <= request.settle.timeout_ms <= 30_000
            &&& forall|i: int|
                0 <= i < request.actions.len() ==> is_allowed(
                    #[trigger] request.actions[i],
                    viewport,
                )
        },
{
    accepted_batches_hold_accepted_actions(request.actions, viewport);
    assert forall|i: int| 0 <= i < request.actions.len() implies (action_failure(
        #[trigger] request.actions[i],
        viewport,
    ) is None <==> is_allowed(request.actions[i], viewport)) by {
        actions_are_accepted_by_their_parts(request.actions[i], viewport);
    }
}

/// Whether a rectangle has pixels, and all of them are pixels of a frame.
pub open spec fn is_region(rect: Rect, viewport: Viewport) -> bool {
    rect.width >= 1 && rect.height >= 1 && rect.x + rect.width <= viewport.width && rect.y
        + rect.height <= viewport.height
}

/// A wait is accepted for a frame exactly where it names a frame, lasts from one millisecond to
/// one hour, is quiet for one millisecond up to one minute, and watches one to eight regions of
/// the frame without up to eight others. A region outside the frame is reported as out of bounds.
pub proof fn waits_are_accepted_by_their_parts(request: WaitRequestView, viewport: Viewport)
    ensures
        wait_failure(request, viewport) is None <==> {
            &&& request.last_frame_id.len() > 0
            &&& 1 <= request.timeout_ms <= 3_600_000
            &&& 1 <= request.quiet_ms <= 60_000
            &&& 1 <= request.include_rects.len() <= 8
            &&& request.exclude_rects.len() <= 8
            &&& forall|i: int|
                0 <= i < request.include_rects.len() ==> is_region(
                    #[trigger] request.include_rects[i],
                    viewport,
                )
            &&& forall|i: int|
                0 <= i < request.exclude_rects.len() ==> is_region(
                    #[trigger] request.exclude_rects[i],
                    viewport,
                )
        },
        wait_failure(request, viewport) matches Some(error) ==> (if request.last_frame_id.len() > 0
            && 1 <= request.timeout_ms <= 3_600_000 && 1 <= request.quiet_ms <= 60_000 && 1
            <= request.include_rects.len() <= 8 && request.exclude_rects.len() <= 8 {
            error.code is OutOfBounds
        } else {
            error.code is InvalidAction
        }),
{
    accepted_rects_fit(request.include_rects, viewport, "include rectangle"@);
    accepted_rects_fit(request.exclude_rects, viewport, "exclude rectangle"@);
    refused_rects_are_out_of_bounds(request.include_rects, viewport, "include rectangle"@);
    refused_rects_are_out_of_bounds(request.exclude_rects, viewport, "exclude rectangle"@);
    assert forall|i: int| 0 <= i < request.include_rects.len() implies (is_region(
        #[trigger] request.include_rects[i],
        viewport,
    ) <==> request.include_rects[i].fits(viewport)) by {}
    assert forall|i: int| 0 <= i < request.exclude_rects.len() implies (is_region(
        #[trigger] request.exclude_rects[i],
        viewport,
    ) <==> request.exclude_rects[i].fits(viewport)) by {}
}

proof fn refused_rects_are_out_of_bounds(rects: Seq<Rect>, viewport: Viewport, name: Seq<char>)
    ensures
        rects_failure(rects, viewport, name) matches Some(error) ==> error.code is OutOfBounds,
    decreases rects.len(),
{
    if rects.len() > 0 {
        refused_rects_are_out_of_bounds(rects.drop_last(), viewport, name);
    }
}

/// A point is accepted where it is a pixel of the frame, a rectangle where it has pixels and all
/// of them are pixels of the frame; what is outside is out of bounds. Held keys are accepted where
/// they are at most sixteen names, a chord where it is one to sixteen, and text where it has no
/// NUL and at most 65536 bytes; what is not is an invalid action.
pub proof fn parts_are_accepted_alone(
    point: Point,
    rect: Rect,
    keys: Seq<Seq<char>>,
    text: Seq<char>,
    viewport: Viewport,
    name: Seq<char>,
)
    ensures
        point_failure(point, viewport) is None <==> is_pixel(point.x, point.y, viewport),
        point_failure(point, viewport) matches Some(error) ==> error.code is OutOfBounds,
        rect_failure(rect, viewport, name) is None <==> is_region(rect, viewport),
        rect_failure(rect, viewport, name) matches Some(error) ==> error.code is OutOfBounds,
        modifier_keys_failure(keys) is None <==> are_names(keys),
        modifier_keys_failure(keys) matches Some(error) ==> error.code is InvalidAction,
        keys_failure(keys) is None <==> are_names(keys) && keys.len() > 0,
        keys_failure(keys) matches Some(error) ==> error.code is InvalidAction,
        text_failure(text) is None <==> encode_utf8(text).len() <= 65_536 && forall|i: int|
            0 <= i < text.len() ==> #[trigger] text[i] != '\0',
        text_failure(text) matches Some(error) ==> error.code is InvalidAction,
{
    if text.contains('\0') {
        let i = choose|i: int| 0 <= i < text.len() && text[i] == '\0';
        assert(text[i] == '\0');
    }
}

/// A rectangle is covered exactly where each of its pixels lies in one of the others.
pub proof fn covered_rectangles_have_no_pixel_left(watched: Rect, excluded: Seq<Rect>)
    ensures
        fully_covered(watched, excluded) <==> forall|x: int, y: int|
            #![trigger in_rects(excluded, x, y)]
            watched.x <= x < watched.x + watched.width && watched.y <= y < watched.y
                + watched.height ==> in_rects(excluded, x, y),
{
    assert forall|x: int, y: int| #[trigger]
        some_rect_covers(excluded, x, y) == in_rects(excluded, x, y) by {
        rects_hold_what_they_cover(excluded, x, y);
    }
    if fully_covered(watched, excluded) {
        assert forall|x: int, y: int|
            #![trigger in_rects(excluded, x, y)]
            watched.x <= x < watched.x + watched.width && watched.y <= y < watched.y
                + watched.height implies in_rects(excluded, x, y) by {
            assert(watched.covers(x, y));
            assert(some_rect_covers(excluded, x, y));
        }
    }
}

/// A polled wait is accepted for a frame exactly where it names a frame, lasts up to thirty
/// seconds, is polled every 100 to 5000 milliseconds, settles as an observation may, and watches
/// one region of the frame, or all of it, without up to sixteen others that leave some pixel of
/// it.
pub proof fn polled_waits_are_accepted_by_their_parts(
    request: PolledWaitRequest,
    viewport: Viewport,
)
    ensures
        ({
            let watched = match request.rect {
                Some(rect) => rect,
                None => Rect { x: 0, y: 0, width: viewport.width, height: viewport.height },
            };
            polled_wait_failure(request, viewport) is None <==> {
                &&& request.last_frame_id@.len() > 0
                &&& 1 <= request.timeout_ms <= 30_000
                &&& 100 <= request.poll_ms <= 5_000
                &&& 1 <= request.settle.quiet_ms <= 5_000
                &&& request.settle.quiet_ms <= request.settle.timeout_ms <= 30_000
                &&& request.exclude@.len() <= 16
                &&& is_region(watched, viewport)
                &&& forall|i: int|
                    0 <= i < request.exclude@.len() ==> is_region(
                        #[trigger] request.exclude@[i],
                        viewport,
                    )
                &&& exists|x: int, y: int|
                    #![trigger in_rects(request.exclude@, x, y)]
                    watched.x <= x < watched.x + watched.width && watched.y <= y < watched.y
                        + watched.height && !in_rects(request.exclude@, x, y)
            }
        }),
{
    accepted_rects_fit(request.exclude@, viewport, "exclude rectangle"@);
    let watched = polled_rect(request.rect, viewport);
    covered_rectangles_have_no_pixel_left(watched, request.exclude@);
    assert forall|i: int| 0 <= i < request.exclude@.len() implies (is_region(
        #[trigger] request.exclude@[i],
        viewport,
    ) <==> request.exclude@[i].fits(viewport)) by {}
}

/// A batch without a frame, without actions, with too many of them, or with a settling policy that
/// is not accepted is an invalid action; every other one is refused as its first action that is
/// not allowed.
pub proof fn batches_are_refused_in_order(request: ActRequestView, viewport: Viewport, place: int)
    ensures
        ({
            let framed = request.expected_frame_id.len() > 0 && 1 <= request.actions.len() <= 16 && 1
                <= request.settle.quiet_ms <= 5_000 && request.settle.quiet_ms
                <= request.settle.timeout_ms <= 30_000;
            &&& !framed ==> (act_failure(request, viewport) matches Some(error) && error.code
                is InvalidAction)
            &&& framed && 0 <= place < request.actions.len() && !is_allowed(
                request.actions[place],
                viewport,
            ) && (forall|i: int|
                0 <= i < place ==> is_allowed(#[trigger] request.actions[i], viewport))
                ==> act_failure(request, viewport) == action_failure(
                request.actions[place],
                viewport,
            )
        }),
{
    if 0 <= place < request.actions.len() && !is_allowed(request.actions[place], viewport) && (
    forall|i: int| 0 <= i < place ==> is_allowed(#[trigger] request.actions[i], viewport)) {
        batches_are_refused_for_their_first_fault(request.actions, viewport, place);
    }
}

/// A list of regions is refused as its first one that is not one of the frame.
pub proof fn regions_are_refused_for_their_first_fault(
    rects: Seq<Rect>,
    viewport: Viewport,
    name: Seq<char>,
    place: int,
)
    requires
        0 <= place < rects.len(),
        !is_region(rects[place], viewport),
        forall|i: int| 0 <= i < place ==> is_region(#[trigger] rects[i], viewport),
    ensures
        rects_failure(rects, viewport, name) == rect_failure(rects[place], viewport, name),
    decreases rects.len(),
{
    let shorter = rects.drop_last();
    let last = rects.len() - 1;
    assert(rects.last() == rects[last]);
    if place < last {
        assert(shorter[place] == rects[place]);
        assert forall|i: int| 0 <= i < place implies is_region(#[trigger] shorter[i], viewport) by {
            assert(shorter[i] == rects[i]);
        }
        regions_are_refused_for_their_first_fault(shorter, viewport, name, place);
    } else {
        accepted_rects_fit(shorter, viewport, name);
        assert forall|i: int| 0 <= i < shorter.len() implies (#[trigger] shorter[i]).fits(
            viewport,
        ) by {
            assert(shorter[i] == rects[i]);
            assert(is_region(rects[i], viewport));
        }
    }
}

} // verus!
