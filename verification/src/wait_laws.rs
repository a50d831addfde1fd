//! What a wait reports of a whole series of samples: when it ends, how, and where the activity was.
use vstd::prelude::*;

use crate::frame::FrameView;
use crate::protocol::{some_rect_covers, Rect, Viewport, WaitOutcomeView};
use crate::wait::{
    after_samples, after_samples_keeps_the_wait, same_size_samples, unions_are_smallest_covers,
    wait_begun,
    PhaseView, StepView, TrackerView,
};
use crate::watch::{
    bounds_changes, changed_bounds, changes_have_bounds, column_changed, mask_covers, masks,
    pixel_changed, row_changed, same_watched, some_pixel_changed, watched, PixelSpan,
};

verus! {

/// Whether one of the three bytes of the pixel `(x, y)` differs between two frames.
pub open spec fn bytes_differ(first: FrameView, second: FrameView, x: int, y: int) -> bool {
    let at = (y * first.width + x) * 3;
    let other = (y * second.width + x) * 3;
    first.pixels[at] != second.pixels[other] || first.pixels[at + 1] != second.pixels[other + 1]
        || first.pixels[at + 2] != second.pixels[other + 2]
}

/// Whether the pixel `(x, y)` lies in one of the spans.
pub open spec fn in_spans(spans: Seq<PixelSpan>, x: int, y: int) -> bool {
    exists|i: int|
        0 <= i < spans.len() && (#[trigger] spans[i]).y == y && spans[i].left <= x < spans[i].right
}

/// The frame that a sample is seen after: the sample before it, or the baseline for the first one.
pub open spec fn frame_before(
    tracker: TrackerView,
    samples: Seq<(FrameView, u64)>,
    i: int,
) -> FrameView {
    if i == 0 {
        tracker.baseline
    } else {
        samples[i - 1].0
    }
}

/// Whether the pixel `(x, y)` is watched and sample `i` shows it otherwise than the frame before.
pub open spec fn active_at(
    tracker: TrackerView,
    samples: Seq<(FrameView, u64)>,
    i: int,
    x: int,
    y: int,
) -> bool {
    in_spans(tracker.spans, x, y) && bytes_differ(
        frame_before(tracker, samples, i),
        samples[i].0,
        x,
        y,
    )
}

/// Whether sample `i` shows some watched pixel otherwise than the frame before.
pub open spec fn stirs(tracker: TrackerView, samples: Seq<(FrameView, u64)>, i: int) -> bool {
    exists|x: int, y: int| active_at(tracker, samples, i, x, y)
}

/// Whether a rectangle covers every watched pixel that one of the first samples changed, and each
/// of its edges meets such a pixel.
pub open spec fn bounds_activity(
    tracker: TrackerView,
    samples: Seq<(FrameView, u64)>,
    count: int,
    bounds: Rect,
) -> bool {
    &&& forall|i: int, x: int, y: int|
        0 <= i < count && #[trigger] active_at(tracker, samples, i, x, y) ==> bounds.x <= x
            < bounds.x + bounds.width && bounds.y <= y < bounds.y + bounds.height
    &&& meets_column(tracker, samples, count, bounds.x as int)
    &&& meets_column(tracker, samples, count, bounds.x + bounds.width - 1)
    &&& meets_row(tracker, samples, count, bounds.y as int)
    &&& meets_row(tracker, samples, count, bounds.y + bounds.height - 1)
}

/// Whether one of the first samples changed a watched pixel of column `x`.
pub open spec fn meets_column(
    tracker: TrackerView,
    samples: Seq<(FrameView, u64)>,
    count: int,
    x: int,
) -> bool {
    exists|i: int, y: int| 0 <= i < count && #[trigger] active_at(tracker, samples, i, x, y)
}

/// Whether one of the first samples changed a watched pixel of row `y`.
pub open spec fn meets_row(
    tracker: TrackerView,
    samples: Seq<(FrameView, u64)>,
    count: int,
    y: int,
) -> bool {
    exists|i: int, x: int| 0 <= i < count && #[trigger] active_at(tracker, samples, i, x, y)
}

/// Whether sample `last` is the last of the first samples that changed a watched pixel.
pub open spec fn last_stir(
    tracker: TrackerView,
    samples: Seq<(FrameView, u64)>,
    count: int,
    last: int,
) -> bool {
    &&& 0 <= last < count
    &&& stirs(tracker, samples, last)
    &&& forall|i: int| last < i < count ==> !#[trigger] stirs(tracker, samples, i)
}

/// What a wait answers to sample `i` of a series.
pub open spec fn answer_at(tracker: TrackerView, samples: Seq<(FrameView, u64)>, i: int) -> Result<
    StepView,
    crate::protocol::CuErrorView,
> {
    after_samples(tracker, samples.take(i)).sampled(samples[i].0, samples[i].1).1
}

/// Whether a wait goes on after each of the first samples of a series.
pub open spec fn pending_before(
    tracker: TrackerView,
    samples: Seq<(FrameView, u64)>,
    count: int,
) -> bool {
    forall|i: int| 0 <= i < count ==> #[trigger] answer_at(tracker, samples, i) == Ok::<
        StepView,
        crate::protocol::CuErrorView,
    >(StepView::Pending)
}

/// Whether a phase is what the first samples of a series lead to.
spec fn phase_tells(
    tracker: TrackerView,
    samples: Seq<(FrameView, u64)>,
    count: int,
    phase: PhaseView,
) -> bool {
    let latest = frame_before(tracker, samples, count);
    match phase {
        PhaseView::Watching => {
            &&& forall|i: int| 0 <= i < count ==> !#[trigger] stirs(tracker, samples, i)
            &&& same_watched(tracker.baseline, latest, tracker.spans)
        },
        PhaseView::Settling { previous, unchanged_since, activity_bbox } => {
            &&& exists|last: int| #[trigger]
                last_stir(tracker, samples, count, last) && unchanged_since == samples[last].1
            &&& same_watched(previous, latest, tracker.spans)
            &&& previous.viewport() == tracker.baseline.viewport()
            &&& activity_bbox.fits(tracker.baseline.viewport())
            &&& bounds_activity(tracker, samples, count, activity_bbox)
        },
    }
}

proof fn pixel_changes_are_activity(
    tracker: TrackerView,
    samples: Seq<(FrameView, u64)>,
    i: int,
    previous: FrameView,
)
    requires
        0 <= i < samples.len(),
        same_watched(previous, frame_before(tracker, samples, i), tracker.spans),
    ensures
        forall|x: int, y: int| #[trigger]
            pixel_changed(previous, samples[i].0, tracker.spans, x, y) <==> active_at(
                tracker,
                samples,
                i,
                x,
                y,
            ),
        some_pixel_changed(previous, samples[i].0, tracker.spans) <==> stirs(tracker, samples, i),
{
    assert forall|x: int, y: int| #[trigger]
        pixel_changed(previous, samples[i].0, tracker.spans, x, y) <==> active_at(
            tracker,
            samples,
            i,
            x,
            y,
        ) by {
        spans_hold_what_masks_cover(tracker.spans, x, y);
        if mask_covers(tracker.spans, x, y) {
            assert(previous.pixel(x, y) == frame_before(tracker, samples, i).pixel(x, y));
        }
    }
    if some_pixel_changed(previous, samples[i].0, tracker.spans) {
        let (x, y) = choose|x: int, y: int|
            pixel_changed(previous, samples[i].0, tracker.spans, x, y);
        assert(active_at(tracker, samples, i, x, y));
    }
    if stirs(tracker, samples, i) {
        let (x, y) = choose|x: int, y: int| active_at(tracker, samples, i, x, y);
        assert(pixel_changed(previous, samples[i].0, tracker.spans, x, y));
    }
}

proof fn spans_hold_what_masks_cover(spans: Seq<PixelSpan>, x: int, y: int)
    ensures
        mask_covers(spans, x, y) <==> in_spans(spans, x, y),
{
    if mask_covers(spans, x, y) {
        let i = choose|i: int| 0 <= i < spans.len() && #[trigger] spans[i].covers(x, y);
        assert(spans[i].y == y);
    }
    if in_spans(spans, x, y) {
        let i = choose|i: int|
            0 <= i < spans.len() && (#[trigger] spans[i]).y == y && spans[i].left <= x
                < spans[i].right;
        assert(spans[i].covers(x, y));
    }
}

proof fn quiet_samples_look_alike(
    tracker: TrackerView,
    samples: Seq<(FrameView, u64)>,
    i: int,
    previous: FrameView,
)
    requires
        0 <= i < samples.len(),
        same_watched(previous, frame_before(tracker, samples, i), tracker.spans),
        !stirs(tracker, samples, i),
    ensures
        same_watched(previous, samples[i].0, tracker.spans),
{
    pixel_changes_are_activity(tracker, samples, i, previous);
    assert forall|x: int, y: int| #[trigger] mask_covers(tracker.spans, x, y) implies previous.pixel(
        x,
        y,
    ) == samples[i].0.pixel(x, y) by {
        assert(!pixel_changed(previous, samples[i].0, tracker.spans, x, y));
    }
}

proof fn earlier_activity_stays(
    tracker: TrackerView,
    samples: Seq<(FrameView, u64)>,
    count: int,
    bounds: Rect,
)
    requires
        0 <= count,
        bounds_activity(tracker, samples, count, bounds),
        !stirs(tracker, samples, count),
    ensures
        bounds_activity(tracker, samples, count + 1, bounds),
{
    assert forall|x: int| meets_column(tracker, samples, count, x) implies meets_column(
        tracker,
        samples,
        count + 1,
        x,
    ) by {
        let (i, y) = choose|i: int, y: int|
            0 <= i < count && #[trigger] active_at(tracker, samples, i, x, y);
        assert(active_at(tracker, samples, i, x, y));
    }
    assert forall|y: int| meets_row(tracker, samples, count, y) implies meets_row(
        tracker,
        samples,
        count + 1,
        y,
    ) by {
        let (i, x) = choose|i: int, x: int|
            0 <= i < count && #[trigger] active_at(tracker, samples, i, x, y);
        assert(active_at(tracker, samples, i, x, y));
    }
}

proof fn new_activity_has_bounds(
    tracker: TrackerView,
    samples: Seq<(FrameView, u64)>,
    count: int,
    previous: FrameView,
    bounds: Rect,
)
    requires
        0 <= count < samples.len(),
        same_watched(previous, frame_before(tracker, samples, count), tracker.spans),
        bounds_changes(previous, samples[count].0, tracker.spans, bounds),
    ensures
        forall|x: int, y: int| #[trigger]
            active_at(tracker, samples, count, x, y) ==> bounds.covers(x, y),
        meets_column(tracker, samples, count + 1, bounds.x as int),
        meets_column(tracker, samples, count + 1, bounds.x + bounds.width - 1),
        meets_row(tracker, samples, count + 1, bounds.y as int),
        meets_row(tracker, samples, count + 1, bounds.y + bounds.height - 1),
{
    let frame = samples[count].0;
    pixel_changes_are_activity(tracker, samples, count, previous);
    assert forall|x: int, y: int| #[trigger]
        active_at(tracker, samples, count, x, y) implies bounds.covers(x, y) by {
        assert(pixel_changed(previous, frame, tracker.spans, x, y));
    }
    assert forall|x: int| column_changed(previous, frame, tracker.spans, x) implies meets_column(
        tracker,
        samples,
        count + 1,
        x,
    ) by {
        let y = choose|y: int| pixel_changed(previous, frame, tracker.spans, x, y);
        assert(active_at(tracker, samples, count, x, y));
    }
    assert forall|y: int| row_changed(previous, frame, tracker.spans, y) implies meets_row(
        tracker,
        samples,
        count + 1,
        y,
    ) by {
        let x = choose|x: int| pixel_changed(previous, frame, tracker.spans, x, y);
        assert(active_at(tracker, samples, count, x, y));
    }
}

proof fn joined_activity_has_bounds(
    tracker: TrackerView,
    samples: Seq<(FrameView, u64)>,
    count: int,
    previous: FrameView,
    activity: Rect,
    bounds: Rect,
)
    requires
        0 <= count < samples.len(),
        same_watched(previous, frame_before(tracker, samples, count), tracker.spans),
        bounds_changes(previous, samples[count].0, tracker.spans, bounds),
        bounds_activity(tracker, samples, count, activity),
        activity.fits(tracker.baseline.viewport()),
        bounds.fits(tracker.baseline.viewport()),
    ensures
        bounds_activity(tracker, samples, count + 1, crate::wait::union_of(activity, bounds)),
{
    new_activity_has_bounds(tracker, samples, count, previous, bounds);
    unions_are_smallest_covers(activity, bounds, bounds, tracker.baseline.viewport());
    let joined = crate::wait::union_of(activity, bounds);
    assert forall|i: int, x: int, y: int|
        0 <= i < count + 1 && #[trigger] active_at(tracker, samples, i, x, y) implies joined.x <= x
        < joined.x + joined.width && joined.y <= y < joined.y + joined.height by {
        if i == count {
            assert(bounds.covers(x, y));
        } else {
            assert(activity.covers(x, y));
        }
        assert(joined.covers(x, y));
    }
    assert forall|x: int| meets_column(tracker, samples, count, x) implies meets_column(
        tracker,
        samples,
        count + 1,
        x,
    ) by {
        let (i, y) = choose|i: int, y: int|
            0 <= i < count && #[trigger] active_at(tracker, samples, i, x, y);
        assert(active_at(tracker, samples, i, x, y));
    }
    assert forall|y: int| meets_row(tracker, samples, count, y) implies meets_row(
        tracker,
        samples,
        count + 1,
        y,
    ) by {
        let (i, x) = choose|i: int, x: int|
            0 <= i < count && #[trigger] active_at(tracker, samples, i, x, y);
        assert(active_at(tracker, samples, i, x, y));
    }
}

/// What the state after `count` samples knows of them, and what the next sample then means.
proof fn phases_tell_the_samples(
    tracker: TrackerView,
    samples: Seq<(FrameView, u64)>,
    count: int,
)
    requires
        tracker.well_formed(),
        tracker.phase is Watching,
        same_size_samples(tracker, samples),
        0 <= count <= samples.len(),
        pending_before(tracker, samples, count),
    ensures
        phase_tells(
            tracker,
            samples,
            count,
            after_samples(tracker, samples.take(count)).phase,
        ),
        after_samples(tracker, samples.take(count)) == tracker.in_phase(
            after_samples(tracker, samples.take(count)).phase,
        ),
    decreases count,
{
    after_samples_keeps_the_wait(tracker, samples.take(count));
    if count > 0 {
        let n = count - 1;
        phases_tell_the_samples(tracker, samples, n);
        let before = after_samples(tracker, samples.take(n));
        let after = after_samples(tracker, samples.take(count));
        let frame = samples[n].0;
        assert(samples.take(count).drop_last() =~= samples.take(n));
        assert(samples.take(count).last() == samples[n]);
        assert(answer_at(tracker, samples, n) == Ok::<StepView, crate::protocol::CuErrorView>(
            StepView::Pending,
        ));
        let viewport = tracker.baseline.viewport();
        match before.phase {
            PhaseView::Watching => {
                pixel_changes_are_activity(tracker, samples, n, tracker.baseline);
                changes_have_bounds(tracker.baseline, frame, tracker.spans, viewport);
                if stirs(tracker, samples, n) {
                    let bounds = changed_bounds(tracker.baseline, frame, tracker.spans)->0;
                    new_activity_has_bounds(tracker, samples, n, tracker.baseline, bounds);
                    assert(last_stir(tracker, samples, count, n));
                    assert forall|i: int, x: int, y: int|
                        0 <= i < count && #[trigger] active_at(
                            tracker,
                            samples,
                            i,
                            x,
                            y,
                        ) implies bounds.covers(x, y) by {
                        if i < n {
                            assert(stirs(tracker, samples, i));
                        }
                    }
                } else {
                    quiet_samples_look_alike(tracker, samples, n, tracker.baseline);
                }
            },
            PhaseView::Settling { previous, unchanged_since, activity_bbox } => {
                pixel_changes_are_activity(tracker, samples, n, previous);
                changes_have_bounds(previous, frame, tracker.spans, viewport);
                let last = choose|last: int| #[trigger]
                    last_stir(tracker, samples, n, last) && unchanged_since == samples[last].1;
                if stirs(tracker, samples, n) {
                    let bounds = changed_bounds(previous, frame, tracker.spans)->0;
                    joined_activity_has_bounds(
                        tracker,
                        samples,
                        n,
                        previous,
                        activity_bbox,
                        bounds,
                    );
                    unions_are_smallest_covers(activity_bbox, bounds, bounds, viewport);
                    assert(last_stir(tracker, samples, count, n));
                } else {
                    quiet_samples_look_alike(tracker, samples, n, previous);
                    earlier_activity_stays(tracker, samples, n, activity_bbox);
                    assert(last_stir(tracker, samples, count, last));
                }
            },
        }
    }
}

/// What a wait answers to each sample of a series follows from the frames and the times alone, for
/// as long as it goes on. Without a change of a watched pixel it times out at its deadline. The
/// first change ends it only at the deadline, unsettled. After that it publishes a settled frame
/// once no watched pixel changed for the quiet period, an unsettled one at the deadline, and goes
/// on otherwise. What is published is the last sample, with the smallest rectangle around every
/// watched pixel that changed from the baseline to the first sample or from one sample to the
/// next.
pub proof fn waits_answer_for_all_their_samples(
    tracker: TrackerView,
    samples: Seq<(FrameView, u64)>,
    n: int,
    step: StepView,
)
    requires
        tracker.well_formed(),
        tracker.phase is Watching,
        same_size_samples(tracker, samples),
        0 <= n < samples.len(),
        pending_before(tracker, samples, n),
        answer_at(tracker, samples, n) == Ok::<StepView, crate::protocol::CuErrorView>(step),
    ensures
        ({
            let now = samples[n].1;
            let due = now >= tracker.started_at + tracker.timeout;
            let elapsed: int = if now > tracker.started_at {
                (now - tracker.started_at) / 1_000_000
            } else {
                0
            };
            &&& (forall|i: int| 0 <= i <= n ==> !#[trigger] stirs(tracker, samples, i)) ==> step == (
            if due {
                StepView::TimedOut(WaitOutcomeView::Timeout { elapsed_ms: elapsed as u64 })
            } else {
                StepView::Pending
            })
            &&& stirs(tracker, samples, n) && (forall|i: int|
                0 <= i < n ==> !#[trigger] stirs(tracker, samples, i)) ==> (step is Publish <==> due)
                && (step is Pending <==> !due) && (step matches StepView::Publish(publication)
                ==> !publication.settled)
            &&& forall|last: int|
                (#[trigger] last_stir(tracker, samples, n + 1, last) && exists|i: int|
                    0 <= i < n && #[trigger] stirs(tracker, samples, i)) ==> {
                    let quiet = now - samples[last].1 >= tracker.quiet || tracker.quiet == 0;
                    &&& step is Publish <==> quiet || due
                    &&& step is Pending <==> !quiet && !due
                    &&& step matches StepView::Publish(publication) ==> publication.settled == quiet
                }
            &&& step matches StepView::Publish(publication) ==> {
                &&& publication.frame == samples[n].0
                &&& publication.elapsed_ms == elapsed
                &&& bounds_activity(tracker, samples, n + 1, publication.activity_bbox)
            }
        }),
{
    phases_tell_the_samples(tracker, samples, n);
    let before = after_samples(tracker, samples.take(n));
    let frame = samples[n].0;
    let viewport = tracker.baseline.viewport();
    match before.phase {
        PhaseView::Watching => {
            pixel_changes_are_activity(tracker, samples, n, tracker.baseline);
            changes_have_bounds(tracker.baseline, frame, tracker.spans, viewport);
            if stirs(tracker, samples, n) {
                let bounds = changed_bounds(tracker.baseline, frame, tracker.spans)->0;
                new_activity_has_bounds(tracker, samples, n, tracker.baseline, bounds);
                assert forall|i: int, x: int, y: int|
                    0 <= i < n + 1 && #[trigger] active_at(
                        tracker,
                        samples,
                        i,
                        x,
                        y,
                    ) implies bounds.covers(x, y) by {
                    if i < n {
                        assert(stirs(tracker, samples, i));
                    }
                }
            }
        },
        PhaseView::Settling { previous, unchanged_since, activity_bbox } => {
            pixel_changes_are_activity(tracker, samples, n, previous);
            changes_have_bounds(previous, frame, tracker.spans, viewport);
            let last = choose|last: int| #[trigger]
                last_stir(tracker, samples, n, last) && unchanged_since == samples[last].1;
            if stirs(tracker, samples, n) {
                let bounds = changed_bounds(previous, frame, tracker.spans)->0;
                joined_activity_has_bounds(tracker, samples, n, previous, activity_bbox, bounds);
            } else {
                earlier_activity_stays(tracker, samples, n, activity_bbox);
                assert(last_stir(tracker, samples, n + 1, last));
            }
            assert forall|other: int| #[trigger]
                last_stir(tracker, samples, n + 1, other) implies other == (if stirs(
                tracker,
                samples,
                n,
            ) {
                n
            } else {
                last
            }) by {
                assert(stirs(tracker, samples, other));
                assert(stirs(tracker, samples, last));
            }
            assert(stirs(tracker, samples, last));
        },
    }
}

/// The pixels that a mask of spans holds, and those that rectangles and exclusions describe, are
/// told by their coordinates: a pixel is watched where it lies between the edges of some included
/// rectangle and of no excluded one.
pub proof fn watched_pixels_are_included_and_not_excluded(
    included: Seq<Rect>,
    excluded: Seq<Rect>,
    spans: Seq<PixelSpan>,
    x: int,
    y: int,
)
    ensures
        mask_covers(spans, x, y) <==> in_spans(spans, x, y),
        watched(included, excluded, x, y) <==> in_rects(included, x, y) && !in_rects(
            excluded,
            x,
            y,
        ),
{
    spans_hold_what_masks_cover(spans, x, y);
    rects_hold_what_they_cover(included, x, y);
    rects_hold_what_they_cover(excluded, x, y);
}

/// Whether the pixel `(x, y)` lies between the edges of one of the rectangles.
pub open spec fn in_rects(rects: Seq<Rect>, x: int, y: int) -> bool {
    exists|i: int|
        0 <= i < rects.len() && (#[trigger] rects[i]).x <= x && x - rects[i].x < rects[i].width
            && rects[i].y <= y && y - rects[i].y < rects[i].height
}

pub(crate) proof fn watching_is_lying_in_rectangles(
    included: Seq<Rect>,
    excluded: Seq<Rect>,
    x: int,
    y: int,
)
    ensures
        watched(included, excluded, x, y) <==> in_rects(included, x, y) && !in_rects(
            excluded,
            x,
            y,
        ),
{
    rects_hold_what_they_cover(included, x, y);
    rects_hold_what_they_cover(excluded, x, y);
}

pub(crate) proof fn rects_hold_what_they_cover(rects: Seq<Rect>, x: int, y: int)
    ensures
        some_rect_covers(rects, x, y) <==> in_rects(rects, x, y),
{
    if some_rect_covers(rects, x, y) {
        let i = choose|i: int| 0 <= i < rects.len() && #[trigger] rects[i].covers(x, y);
        assert(rects[i].x <= x);
    }
    if in_rects(rects, x, y) {
        let i = choose|i: int|
            0 <= i < rects.len() && (#[trigger] rects[i]).x <= x && x - rects[i].x < rects[i].width
                && rects[i].y <= y && y - rects[i].y < rects[i].height;
        assert(rects[i].covers(x, y));
    }
}

/// A sample of other dimensions than the baseline's ends a wait with both dimensions in its
/// failure, and a sample of the same dimensions never fails.
pub proof fn resized_desktops_end_waits(tracker: TrackerView, frame: FrameView, now: u64)
    ensures
        tracker.sampled(frame, now).1 is Err <==> frame.width != tracker.baseline.width
            || frame.height != tracker.baseline.height,
        tracker.sampled(frame, now).1 matches Err(error) ==> {
            &&& error.code is ViewportChanged
            &&& error.expected_viewport == Some(
                Viewport { width: tracker.baseline.width, height: tracker.baseline.height },
            )
            &&& error.actual_viewport == Some(
                Viewport { width: frame.width, height: frame.height },
            )
            &&& tracker.sampled(frame, now).0 == tracker
        },
{
}

/// A wait watches its baseline from the time it begins, for as many milliseconds as it was given,
/// samples the desktop every half second, and counts activity as settled after its quiet period.
pub proof fn waits_begin_watching(
    baseline_id: Seq<char>,
    baseline: FrameView,
    spans: Seq<PixelSpan>,
    now: u64,
    timeout_ms: u64,
    quiet_ms: u64,
)
    requires
        timeout_ms * 1_000_000 <= u64::MAX,
        quiet_ms * 1_000_000 <= u64::MAX,
    ensures
        ({
            let tracker = wait_begun(baseline_id, baseline, spans, now, timeout_ms, quiet_ms);
            &&& tracker.phase is Watching
            &&& tracker.baseline_id == baseline_id
            &&& tracker.baseline == baseline
            &&& tracker.spans == spans
            &&& tracker.started_at == now
            &&& tracker.timeout == timeout_ms * 1_000_000
            &&& tracker.quiet == quiet_ms * 1_000_000
            &&& tracker.poll_interval == 500 * 1_000_000
        }),
{
}

/// A wait never sleeps beyond its deadline nor longer than its interval, and sleeps for less than
/// its interval only up to the deadline: it always has one more look when its time is up.
pub proof fn waits_wake_at_their_deadline(tracker: TrackerView, now: u64)
    requires
        tracker.poll_interval > 0,
    ensures
        ({
            let delay = tracker.delay(now);
            let deadline = tracker.started_at + tracker.timeout;
            &&& 0 <= delay <= tracker.poll_interval
            &&& delay == 0 <==> now >= deadline
            &&& now < deadline ==> now + delay <= deadline
            &&& 0 < delay < tracker.poll_interval ==> now + delay == deadline
        }),
{
}

/// The mask of regions of a frame holds exactly the pixels that lie in an included rectangle and
/// in no excluded one, each of them once, in rows from the top and from left to right.
pub proof fn masks_hold_the_watched_pixels(
    spans: Seq<PixelSpan>,
    viewport: Viewport,
    included: Seq<Rect>,
    excluded: Seq<Rect>,
    x: int,
    y: int,
)
    requires
        masks(spans, viewport, included, excluded),
        forall|i: int|
            0 <= i < included.len() ==> (#[trigger] included[i]).y + included[i].height
                <= viewport.height,
    ensures
        in_spans(spans, x, y) <==> in_rects(included, x, y) && !in_rects(excluded, x, y),
        forall|i: int| 0 <= i < spans.len() ==> (#[trigger] spans[i]).left < spans[i].right,
        forall|i: int, j: int|
            0 <= i < j < spans.len() ==> spans[i].y < spans[j].y || (spans[i].y == spans[j].y
                && spans[i].right < spans[j].left),
{
    watched_pixels_are_included_and_not_excluded(included, excluded, spans, x, y);
    if in_rects(included, x, y) {
        let i = choose|i: int|
            0 <= i < included.len() && (#[trigger] included[i]).x <= x && x - included[i].x
                < included[i].width && included[i].y <= y && y - included[i].y
                < included[i].height;
        assert(0 <= y < viewport.height);
    }
    assert(mask_covers(spans, x, y) <==> 0 <= y < viewport.height && watched(
        included,
        excluded,
        x,
        y,
    ));
}

} // verus!
