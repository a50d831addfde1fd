//! One bounded screen-change wait: detection, settling and the deadline.
//!
//! Times are readings of one monotonic clock, in nanoseconds.
use vstd::prelude::*;

use crate::frame::{CapturedFrame, FrameView};
use crate::protocol::{
    failure, CuError, CuErrorView, ErrorCode, Rect, Viewport, WaitOutcome, WaitOutcomeView,
};
use crate::text::{decimal, push_decimal};
use crate::watch::{
    changed_bounds, changes_depend_on_watched_pixels, changes_have_bounds, compare_masked,
    pixel_changed, same_watched, some_pixel_changed, spans_within, PixelSpan, WatchMask,
};

verus! {

/// Nanoseconds of one millisecond.
pub const NANOS_PER_MILLI: u64 = 1_000_000;

/// Time between two samples of a wait, in milliseconds.
pub const WAIT_POLL_INTERVAL_MS: u64 = 500;

/// State for one bounded wait. The daemon owns sleeping and hands in one capture at a time, so
/// that other clients can use the engine between polls.
pub struct WaitTracker {
    pub baseline_id: String,
    pub baseline: CapturedFrame,
    pub mask: WatchMask,
    pub started_at: u64,
    /// Total budget, in nanoseconds.
    pub timeout: u64,
    /// Time between two samples, in nanoseconds.
    pub poll_interval: u64,
    /// Required stability after a change, in nanoseconds.
    pub quiet: u64,
    pub phase: WaitPhase,
}

/// Whether a wait still looks for the first change or settles after one.
pub enum WaitPhase {
    Watching,
    Settling { previous: CapturedFrame, unchanged_since: u64, activity_bbox: Rect },
}

/// A wait with its frames and its text as sequences.
pub struct TrackerView {
    pub baseline_id: Seq<char>,
    pub baseline: FrameView,
    pub spans: Seq<PixelSpan>,
    pub started_at: u64,
    pub timeout: u64,
    pub poll_interval: u64,
    pub quiet: u64,
    pub phase: PhaseView,
}

/// A phase with its frame as sequences.
pub enum PhaseView {
    Watching,
    Settling { previous: FrameView, unchanged_since: u64, activity_bbox: Rect },
}

impl View for WaitPhase {
    type V = PhaseView;

    open spec fn view(&self) -> PhaseView {
        match *self {
            WaitPhase::Watching => PhaseView::Watching,
            WaitPhase::Settling { previous, unchanged_since, activity_bbox } =>
                PhaseView::Settling { previous: previous@, unchanged_since, activity_bbox },
        }
    }
}

impl View for WaitTracker {
    type V = TrackerView;

    open spec fn view(&self) -> TrackerView {
        TrackerView {
            baseline_id: self.baseline_id@,
            baseline: self.baseline@,
            spans: self.mask.spans@,
            started_at: self.started_at,
            timeout: self.timeout,
            poll_interval: self.poll_interval,
            quiet: self.quiet,
            phase: self.phase@,
        }
    }
}

/// Result of evaluating one captured wait sample.
pub enum WaitStep {
    Pending,
    TimedOut(WaitOutcome),
    Publish(WaitPublication),
}

/// A changed sample ready for the engine's final freshness and cancellation checks.
pub struct WaitPublication {
    pub frame: CapturedFrame,
    pub settled: bool,
    pub elapsed_ms: u64,
    pub activity_bbox: Rect,
}

/// A sample's result with its frame as sequences.
pub enum StepView {
    Pending,
    TimedOut(WaitOutcomeView),
    Publish(PublicationView),
}

/// A publication with its frame as sequences.
pub struct PublicationView {
    pub frame: FrameView,
    pub settled: bool,
    pub elapsed_ms: u64,
    pub activity_bbox: Rect,
}

impl View for WaitPublication {
    type V = PublicationView;

    open spec fn view(&self) -> PublicationView {
        PublicationView {
            frame: self.frame@,
            settled: self.settled,
            elapsed_ms: self.elapsed_ms,
            activity_bbox: self.activity_bbox,
        }
    }
}

impl View for WaitStep {
    type V = StepView;

    open spec fn view(&self) -> StepView {
        match *self {
            WaitStep::Pending => StepView::Pending,
            WaitStep::TimedOut(outcome) => StepView::TimedOut(outcome@),
            WaitStep::Publish(publication) => StepView::Publish(publication@),
        }
    }
}

/// The view of a sample's result or failure.
pub open spec fn step_view(result: Result<WaitStep, CuError>) -> Result<StepView, CuErrorView> {
    match result {
        Ok(step) => Ok(step@),
        Err(error) => Err(error@),
    }
}

/// The time from `start` to `now`, or zero where `now` is the earlier one.
pub open spec fn elapsed_nanos(start: u64, now: u64) -> u64 {
    if now > start {
        (now - start) as u64
    } else {
        0
    }
}

/// The whole milliseconds from `start` to `now`.
pub fn elapsed_millis(start: u64, now: u64) -> (elapsed_ms: u64)
    ensures
        elapsed_ms == elapsed_nanos(start, now) / NANOS_PER_MILLI,
{
    now.saturating_sub(start) / NANOS_PER_MILLI
}

/// The smallest rectangle that covers two rectangles.
pub open spec fn union_of(first: Rect, second: Rect) -> Rect {
    let left = if first.x <= second.x { first.x } else { second.x };
    let top = if first.y <= second.y { first.y } else { second.y };
    let right = if first.x + first.width >= second.x + second.width {
        first.x + first.width
    } else {
        second.x + second.width
    };
    let bottom = if first.y + first.height >= second.y + second.height {
        first.y + first.height
    } else {
        second.y + second.height
    };
    Rect { x: left, y: top, width: (right - left) as u32, height: (bottom - top) as u32 }
}

/// The smallest rectangle that covers two rectangles.
pub fn union_rects(first: Rect, second: Rect) -> (rect: Rect)
    requires
        first.x + first.width <= u32::MAX,
        first.y + first.height <= u32::MAX,
        second.x + second.width <= u32::MAX,
        second.y + second.height <= u32::MAX,
    ensures
        rect == union_of(first, second),
{
    let left: u32 = if first.x <= second.x { first.x } else { second.x };
    let top: u32 = if first.y <= second.y { first.y } else { second.y };
    let first_right: u32 = first.x + first.width;
    let second_right: u32 = second.x + second.width;
    let right: u32 = if first_right >= second_right { first_right } else { second_right };
    let first_bottom: u32 = first.y + first.height;
    let second_bottom: u32 = second.y + second.height;
    let bottom: u32 = if first_bottom >= second_bottom { first_bottom } else { second_bottom };
    Rect { x: left, y: top, width: right - left, height: bottom - top }
}

/// The failure of a sample whose dimensions differ from the baseline's.
pub open spec fn viewport_changed(expected: Viewport, actual: Viewport) -> CuErrorView {
    CuErrorView {
        expected_viewport: Some(expected),
        actual_viewport: Some(actual),
        ..failure(
            ErrorCode::ViewportChanged,
            "wait baseline is "@ + decimal(expected.width as nat) + "x"@ + decimal(
                expected.height as nat,
            ) + ", but the desktop is now "@ + decimal(actual.width as nat) + "x"@ + decimal(
                actual.height as nat,
            ) + "; observe again"@,
        )
    }
}

/// Refuse a sample whose dimensions differ from the baseline's.
pub fn ensure_wait_viewport(baseline: &CapturedFrame, current: &CapturedFrame) -> (result: Result<
    (),
    CuError,
>)
    ensures
        baseline@.viewport() == current@.viewport() ==> result is Ok,
        baseline@.viewport() != current@.viewport() ==> (result matches Err(error) && error@
            == viewport_changed(baseline@.viewport(), current@.viewport())),
{
    if baseline.width == current.width && baseline.height == current.height {
        return Ok(());
    }
    let expected = Viewport { width: baseline.width, height: baseline.height };
    let actual = Viewport { width: current.width, height: current.height };
    let mut message = "wait baseline is ".to_owned();
    push_decimal(&mut message, expected.width as u64);
    message.append("x");
    push_decimal(&mut message, expected.height as u64);
    message.append(", but the desktop is now ");
    push_decimal(&mut message, actual.width as u64);
    message.append("x");
    push_decimal(&mut message, actual.height as u64);
    message.append("; observe again");
    Err(CuError::new(ErrorCode::ViewportChanged, &message).with_viewports(expected, actual))
}

impl TrackerView {
    /// Whether every frame is valid and of the baseline's size, the watched pixels lie in it,
    /// and so does the activity seen so far.
    pub open spec fn well_formed(self) -> bool {
        &&& self.baseline.valid()
        &&& spans_within(self.spans, self.baseline.width, self.baseline.height)
        &&& match self.phase {
            PhaseView::Watching => true,
            PhaseView::Settling { previous, activity_bbox, .. } => {
                &&& previous.valid()
                &&& previous.viewport() == self.baseline.viewport()
                &&& activity_bbox.fits(self.baseline.viewport())
            },
        }
    }

    /// The time at which the total budget is used up.
    pub open spec fn deadline(self) -> int {
        self.started_at + self.timeout
    }

    /// Whether the total budget is used up.
    pub open spec fn due(self, now: u64) -> bool {
        self.deadline() <= now
    }

    /// The time to sleep before the next sample.
    pub open spec fn delay(self, now: u64) -> int {
        if self.deadline() <= now {
            0
        } else if self.deadline() - now < self.poll_interval {
            self.deadline() - now
        } else {
            self.poll_interval as int
        }
    }

    /// Whole milliseconds since the wait began.
    pub open spec fn elapsed_ms(self, now: u64) -> u64 {
        elapsed_nanos(self.started_at, now) / NANOS_PER_MILLI
    }

    /// The same wait in another phase.
    pub open spec fn in_phase(self, phase: PhaseView) -> TrackerView {
        TrackerView { phase, ..self }
    }

    /// The publication of a sample.
    pub open spec fn publication(
        self,
        frame: FrameView,
        now: u64,
        settled: bool,
        activity_bbox: Rect,
    ) -> StepView {
        StepView::Publish(
            PublicationView { frame, settled, elapsed_ms: self.elapsed_ms(now), activity_bbox },
        )
    }

    /// The next phase after a sample of the baseline's size.
    pub open spec fn next_phase(self, frame: FrameView, now: u64) -> PhaseView {
        match self.phase {
            PhaseView::Watching => match changed_bounds(self.baseline, frame, self.spans) {
                Some(activity_bbox) if !self.due(now) => PhaseView::Settling {
                    previous: frame,
                    unchanged_since: now,
                    activity_bbox,
                },
                _ => PhaseView::Watching,
            },
            PhaseView::Settling { previous, unchanged_since, activity_bbox } => match changed_bounds(
                previous,
                frame,
                self.spans,
            ) {
                Some(changed) => PhaseView::Settling {
                    previous: frame,
                    unchanged_since: now,
                    activity_bbox: union_of(activity_bbox, changed),
                },
                None => self.phase,
            },
        }
    }

    /// What a sample of the baseline's size leads to.
    pub open spec fn next_step(self, frame: FrameView, now: u64) -> StepView {
        match (self.phase, self.next_phase(frame, now)) {
            (PhaseView::Watching, _) => match changed_bounds(self.baseline, frame, self.spans) {
                Some(activity_bbox) => if self.due(now) {
                    self.publication(frame, now, false, activity_bbox)
                } else {
                    StepView::Pending
                },
                None => if self.due(now) {
                    StepView::TimedOut(WaitOutcomeView::Timeout { elapsed_ms: self.elapsed_ms(now) })
                } else {
                    StepView::Pending
                },
            },
            (_, PhaseView::Settling { unchanged_since, activity_bbox, .. }) => if elapsed_nanos(
                unchanged_since,
                now,
            ) >= self.quiet {
                self.publication(frame, now, true, activity_bbox)
            } else if self.due(now) {
                self.publication(frame, now, false, activity_bbox)
            } else {
                StepView::Pending
            },
            _ => StepView::Pending,
        }
    }

    /// The state after a sample and what the sample leads to.
    pub open spec fn sampled(self, frame: FrameView, now: u64) -> (
        TrackerView,
        Result<StepView, CuErrorView>,
    ) {
        if frame.viewport() != self.baseline.viewport() {
            (self, Err(viewport_changed(self.baseline.viewport(), frame.viewport())))
        } else {
            (self.in_phase(self.next_phase(frame, now)), Ok(self.next_step(frame, now)))
        }
    }
}

/// A wait that looks for its first change.
pub open spec fn wait_begun(
    baseline_id: Seq<char>,
    baseline: FrameView,
    spans: Seq<PixelSpan>,
    now: u64,
    timeout_ms: u64,
    quiet_ms: u64,
) -> TrackerView {
    TrackerView {
        baseline_id,
        baseline,
        spans,
        started_at: now,
        timeout: (timeout_ms * NANOS_PER_MILLI) as u64,
        poll_interval: 500_000_000,
        quiet: (quiet_ms * NANOS_PER_MILLI) as u64,
        phase: PhaseView::Watching,
    }
}

impl WaitTracker {
    /// A wait that looks for its first change.
    pub fn new(
        baseline_id: String,
        baseline: CapturedFrame,
        mask: WatchMask,
        now: u64,
        timeout_ms: u64,
        quiet_ms: u64,
    ) -> (tracker: Self)
        requires
            timeout_ms * NANOS_PER_MILLI <= u64::MAX,
            quiet_ms * NANOS_PER_MILLI <= u64::MAX,
        ensures
            tracker@ == (TrackerView {
                baseline_id: baseline_id@,
                baseline: baseline@,
                spans: mask.spans@,
                started_at: now,
                timeout: (timeout_ms * NANOS_PER_MILLI) as u64,
                poll_interval: 500_000_000,
                quiet: (quiet_ms * NANOS_PER_MILLI) as u64,
                phase: PhaseView::Watching,
            }),
            tracker@ == wait_begun(
                baseline_id@,
                baseline@,
                mask.spans@,
                now,
                timeout_ms,
                quiet_ms,
            ),
    {
        WaitTracker {
            baseline_id,
            baseline,
            mask,
            started_at: now,
            timeout: timeout_ms * NANOS_PER_MILLI,
            poll_interval: WAIT_POLL_INTERVAL_MS * NANOS_PER_MILLI,
            quiet: quiet_ms * NANOS_PER_MILLI,
            phase: WaitPhase::Watching,
        }
    }

    fn is_due(&self, now: u64) -> (due: bool)
        ensures
            due == self@.due(now),
    {
        self.started_at as u128 + self.timeout as u128 <= now as u128
    }

    /// Time to sleep before the next sample: the poll interval, or the time to the deadline where
    /// that is shorter.
    pub fn next_delay(&self, now: u64) -> (delay: u64)
        ensures
            delay == if self@.deadline() <= now {
                0
            } else if self@.deadline() - now < self.poll_interval {
                self@.deadline() - now
            } else {
                self.poll_interval as int
            },
            delay == self@.delay(now),
    {
        if self.is_due(now) {
            return 0;
        }
        let remaining: u128 = self.started_at as u128 + self.timeout as u128 - now as u128;
        if remaining < self.poll_interval as u128 {
            remaining as u64
        } else {
            self.poll_interval
        }
    }

    /// The result of a wait that saw no change.
    pub fn timed_out_outcome(&self, now: u64) -> (outcome: WaitOutcome)
        ensures
            outcome@ == (WaitOutcomeView::Timeout { elapsed_ms: self@.elapsed_ms(now) }),
    {
        WaitOutcome::Timeout { elapsed_ms: elapsed_millis(self.started_at, now) }
    }

    /// Evaluate one capture against the watched pixels.
    pub fn observe_sample(&mut self, frame: CapturedFrame, now: u64) -> (result: Result<
        WaitStep,
        CuError,
    >)
        requires
            old(self)@.well_formed(),
            frame@.viewport() == old(self)@.baseline.viewport() ==> frame@.valid(),
        ensures
            final(self)@ == old(self)@.sampled(frame@, now).0,
            step_view(result) == old(self)@.sampled(frame@, now).1,
            final(self)@.well_formed(),
    {
        match ensure_wait_viewport(&self.baseline, &frame) {
            Ok(()) => {},
            Err(error) => {
                return Err(error);
            },
        }
        let elapsed_ms: u64 = elapsed_millis(self.started_at, now);
        let due: bool = self.is_due(now);
        let (changed, since, activity_bbox) = match &self.phase {
            WaitPhase::Watching => {
                match compare_masked(&self.baseline, &frame, &self.mask) {
                    None => {
                        return if due {
                            Ok(WaitStep::TimedOut(self.timed_out_outcome(now)))
                        } else {
                            Ok(WaitStep::Pending)
                        };
                    },
                    Some(activity_bbox) => {
                        if due {
                            return Ok(
                                WaitStep::Publish(
                                    WaitPublication {
                                        frame,
                                        settled: false,
                                        elapsed_ms,
                                        activity_bbox,
                                    },
                                ),
                            );
                        }
                        self.phase =
                        WaitPhase::Settling {
                            previous: frame,
                            unchanged_since: now,
                            activity_bbox,
                        };
                        return Ok(WaitStep::Pending);
                    },
                }
            },
            WaitPhase::Settling { previous, unchanged_since, activity_bbox } => {
                match compare_masked(previous, &frame, &self.mask) {
                    Some(changed_bbox) => (true, now, union_rects(*activity_bbox, changed_bbox)),
                    None => (false, *unchanged_since, *activity_bbox),
                }
            },
        };
        if changed {
            self.phase =
            WaitPhase::Settling {
                previous: frame.clone(),
                unchanged_since: since,
                activity_bbox,
            };
        }
        if now.saturating_sub(since) >= self.quiet {
            return Ok(
                WaitStep::Publish(
                    WaitPublication { frame, settled: true, elapsed_ms, activity_bbox },
                ),
            );
        }
        if due {
            Ok(
                WaitStep::Publish(
                    WaitPublication { frame, settled: false, elapsed_ms, activity_bbox },
                ),
            )
        } else {
            Ok(WaitStep::Pending)
        }
    }
}

/// The state after a series of samples, each with its time.
pub open spec fn after_samples(tracker: TrackerView, samples: Seq<(FrameView, u64)>) -> TrackerView
    decreases samples.len(),
{
    if samples.len() == 0 {
        tracker
    } else {
        let last = samples.last();
        after_samples(tracker, samples.drop_last()).sampled(last.0, last.1).0
    }
}

/// Whether every sample has the baseline's size.
pub open spec fn same_size_samples(tracker: TrackerView, samples: Seq<(FrameView, u64)>) -> bool {
    forall|i: int|
        0 <= i < samples.len() ==> (#[trigger] samples[i]).0.viewport()
            == tracker.baseline.viewport()
}

/// A timeout is reported only by a wait that has seen no change, for a sample in which no watched
/// pixel differs from the baseline, once the budget is used up; it leaves the wait as it was, so
/// that the same baseline can be watched again.
pub proof fn timeouts_report_no_change(
    tracker: TrackerView,
    frame: FrameView,
    now: u64,
    outcome: WaitOutcomeView,
)
    requires
        tracker.sampled(frame, now).1 == Ok::<StepView, CuErrorView>(StepView::TimedOut(outcome)),
    ensures
        tracker.phase is Watching,
        !some_pixel_changed(tracker.baseline, frame, tracker.spans),
        tracker.due(now),
        tracker.sampled(frame, now).0 == tracker,
        outcome == (WaitOutcomeView::Timeout { elapsed_ms: tracker.elapsed_ms(now) }),
{
}

/// After the first change, another change of a watched pixel restarts the quiet period.
pub proof fn changes_restart_the_quiet_period(tracker: TrackerView, frame: FrameView, now: u64)
    requires
        frame.viewport() == tracker.baseline.viewport(),
        tracker.phase matches PhaseView::Settling { previous, .. } && some_pixel_changed(
            previous,
            frame,
            tracker.spans,
        ),
    ensures
        tracker.sampled(frame, now).0.phase matches PhaseView::Settling {
            previous,
            unchanged_since,
            ..
        } && previous == frame && unchanged_since == now,
{
}

/// Once the budget is used up, a sample of the baseline's size ends the wait.
pub proof fn waits_end_at_their_deadline(tracker: TrackerView, frame: FrameView, now: u64)
    requires
        frame.viewport() == tracker.baseline.viewport(),
        tracker.due(now),
    ensures
        tracker.sampled(frame, now).1 matches Ok(step) && step !is Pending,
{
}

/// A publication of a settled frame comes at least the quiet period after a sample from which
/// no later sample differs in any watched pixel.
pub proof fn settled_frames_were_quiet(tracker: TrackerView, samples: Seq<(FrameView, u64)>)
    requires
        tracker.phase is Watching,
        same_size_samples(tracker, samples),
        samples.len() > 0,
        after_samples(tracker, samples.drop_last()).sampled(
            samples.last().0,
            samples.last().1,
        ).1 matches Ok(StepView::Publish(publication)) && publication.settled,
    ensures
        exists|k: int|
            #![trigger samples[k]]
            0 <= k < samples.len() && elapsed_nanos(samples[k].1, samples.last().1)
                >= tracker.quiet && forall|j: int|
                k <= j < samples.len() ==> !some_pixel_changed(
                    samples[k].0,
                    (#[trigger] samples[j]).0,
                    tracker.spans,
                ),
{
    unchanged_since_a_sample(tracker, samples);
    after_samples_keeps_the_wait(tracker, samples.drop_last());
}

pub(crate) proof fn after_samples_keeps_the_wait(tracker: TrackerView, samples: Seq<(FrameView, u64)>)
    ensures
        after_samples(tracker, samples) == tracker.in_phase(after_samples(tracker, samples).phase),
    decreases samples.len(),
{
    if samples.len() > 0 {
        after_samples_keeps_the_wait(tracker, samples.drop_last());
    }
}

/// While a wait settles, the time since which nothing changed is that of a sample, and no later
/// sample differs from that one in any watched pixel.
pub proof fn unchanged_since_a_sample(tracker: TrackerView, samples: Seq<(FrameView, u64)>)
    requires
        tracker.phase is Watching,
        same_size_samples(tracker, samples),
    ensures
        after_samples(tracker, samples).phase matches PhaseView::Settling {
            previous,
            unchanged_since,
            ..
        } ==> exists|k: int|
            #![trigger samples[k]]
            0 <= k < samples.len() && samples[k] == (previous, unchanged_since) && forall|j: int|
                k <= j < samples.len() ==> !some_pixel_changed(
                    previous,
                    (#[trigger] samples[j]).0,
                    tracker.spans,
                ),
    decreases samples.len(),
{
    if samples.len() > 0 {
        let earlier = samples.drop_last();
        let last = samples.last();
        let before = after_samples(tracker, earlier);
        unchanged_since_a_sample(tracker, earlier);
        after_samples_keeps_the_wait(tracker, earlier);
        assert(samples[samples.len() - 1] == last);
        if let PhaseView::Settling { previous, unchanged_since, .. } = after_samples(
            tracker,
            samples,
        ).phase {
            if previous == last.0 && unchanged_since == last.1 && changed_bounds(
                match before.phase {
                    PhaseView::Watching => before.baseline,
                    PhaseView::Settling { previous, .. } => previous,
                },
                last.0,
                before.spans,
            ) is Some {
                assert(samples[samples.len() - 1] == (previous, unchanged_since));
                assert(!some_pixel_changed(previous, last.0, tracker.spans));
            } else {
                assert(before.phase == after_samples(tracker, samples).phase);
                let k = choose|k: int|
                    #![trigger earlier[k]]
                    0 <= k < earlier.len() && earlier[k] == (previous, unchanged_since) && forall|
                        j: int,
                    |
                        k <= j < earlier.len() ==> !some_pixel_changed(
                            previous,
                            (#[trigger] earlier[j]).0,
                            tracker.spans,
                        );
                assert(samples[k] == earlier[k]);
                assert forall|j: int| k <= j < samples.len() implies !some_pixel_changed(
                    previous,
                    (#[trigger] samples[j]).0,
                    tracker.spans,
                ) by {
                    if j < earlier.len() {
                        assert(samples[j] == earlier[j]);
                    } else {
                        assert(samples[j] == last);
                    }
                }
            }
        }
    }
}

/// The union of two rectangles in a viewport lies in it, covers all pixels of both, and lies in
/// every rectangle that covers both.
pub proof fn unions_are_smallest_covers(first: Rect, second: Rect, other: Rect, viewport: Viewport)
    requires
        first.fits(viewport),
        second.fits(viewport),
    ensures
        union_of(first, second).fits(viewport),
        forall|x: int, y: int|
            first.covers(x, y) || second.covers(x, y) ==> union_of(first, second).covers(x, y),
        (forall|x: int, y: int|
            first.covers(x, y) || second.covers(x, y) ==> other.covers(x, y)) ==> forall|
            x: int,
            y: int,
        |
            union_of(first, second).covers(x, y) ==> other.covers(x, y),
{
    if forall|x: int, y: int| first.covers(x, y) || second.covers(x, y) ==> other.covers(x, y) {
        assert(first.covers(first.x as int, first.y as int));
        assert(first.covers(first.x + first.width - 1, first.y + first.height - 1));
        assert(second.covers(second.x as int, second.y as int));
        assert(second.covers(second.x + second.width - 1, second.y + second.height - 1));
    }
}

/// While a wait settles, the reported activity only grows, and it covers every watched pixel
/// that changed since the sample before.
pub proof fn activity_covers_every_change(tracker: TrackerView, frame: FrameView, now: u64)
    requires
        tracker.well_formed(),
        frame.viewport() == tracker.baseline.viewport(),
        tracker.phase is Settling,
    ensures
        tracker.phase matches PhaseView::Settling { previous, activity_bbox, .. }
            && tracker.next_phase(frame, now) matches PhaseView::Settling {
            activity_bbox: grown,
            ..
        } && forall|x: int, y: int|
            activity_bbox.covers(x, y) || pixel_changed(previous, frame, tracker.spans, x, y)
                ==> grown.covers(x, y),
{
    if let PhaseView::Settling { previous, activity_bbox, .. } = tracker.phase {
        changes_have_bounds(previous, frame, tracker.spans, tracker.baseline.viewport());
        if let Some(bounds) = changed_bounds(previous, frame, tracker.spans) {
            unions_are_smallest_covers(
                activity_bbox,
                bounds,
                bounds,
                tracker.baseline.viewport(),
            );
        }
    }
}

/// Whether two waits agree in everything but unwatched pixels.
pub open spec fn same_wait(first: TrackerView, second: TrackerView) -> bool {
    &&& second == (TrackerView { baseline: second.baseline, phase: second.phase, ..first })
    &&& first.baseline.viewport() == second.baseline.viewport()
    &&& same_watched(first.baseline, second.baseline, first.spans)
    &&& match (first.phase, second.phase) {
        (PhaseView::Watching, PhaseView::Watching) => true,
        (
            PhaseView::Settling { previous, unchanged_since, activity_bbox },
            PhaseView::Settling {
                previous: other,
                unchanged_since: other_since,
                activity_bbox: other_bbox,
            },
        ) => same_watched(previous, other, first.spans) && unchanged_since == other_since
            && activity_bbox == other_bbox,
        _ => false,
    }
}

/// Whether two samples lead to the same, but for the frame that is published.
pub open spec fn same_step(
    first: Result<StepView, CuErrorView>,
    second: Result<StepView, CuErrorView>,
) -> bool {
    match (first, second) {
        (Ok(StepView::Publish(first)), Ok(StepView::Publish(second))) => second == (
        PublicationView { frame: second.frame, ..first }),
        _ => first == second,
    }
}

/// Whether two series of samples were taken at the same times and agree in everything but unwatched
/// pixels.
pub open spec fn same_samples(
    first: Seq<(FrameView, u64)>,
    second: Seq<(FrameView, u64)>,
    spans: Seq<PixelSpan>,
) -> bool {
    &&& first.len() == second.len()
    &&& forall|i: int|
        #![trigger first[i]]
        #![trigger second[i]]
        0 <= i < first.len() ==> first[i].1 == second[i].1 && first[i].0.viewport()
            == second[i].0.viewport() && same_watched(first[i].0, second[i].0, spans)
}

proof fn unwatched_pixels_change_no_step(
    tracker: TrackerView,
    other: TrackerView,
    frame: FrameView,
    other_frame: FrameView,
    now: u64,
)
    requires
        spans_within(tracker.spans, tracker.baseline.width, tracker.baseline.height),
        same_wait(tracker, other),
        frame.viewport() == other_frame.viewport(),
        same_watched(frame, other_frame, tracker.spans),
    ensures
        same_wait(tracker.sampled(frame, now).0, other.sampled(other_frame, now).0),
        same_step(tracker.sampled(frame, now).1, other.sampled(other_frame, now).1),
{
    let viewport = tracker.baseline.viewport();
    changes_depend_on_watched_pixels(
        tracker.baseline,
        frame,
        other.baseline,
        other_frame,
        tracker.spans,
        viewport,
    );
    if let (
        PhaseView::Settling { previous, .. },
        PhaseView::Settling { previous: other_previous, .. },
    ) = (tracker.phase, other.phase) {
        changes_depend_on_watched_pixels(
            previous,
            frame,
            other_previous,
            other_frame,
            tracker.spans,
            viewport,
        );
    }
}

/// Pixels outside the watched regions never influence a wait: where two waits and their samples
/// differ in such pixels alone, the baselines' among them, every sample of the one leads to the
/// same as that of the other, and the waits still agree afterwards.
pub proof fn unwatched_pixels_change_nothing(
    tracker: TrackerView,
    other: TrackerView,
    samples: Seq<(FrameView, u64)>,
    other_samples: Seq<(FrameView, u64)>,
)
    requires
        tracker.well_formed(),
        same_wait(tracker, other),
        same_samples(samples, other_samples, tracker.spans),
    ensures
        same_wait(after_samples(tracker, samples), after_samples(other, other_samples)),
        forall|i: int|
            #![trigger samples[i]]
            0 <= i < samples.len() ==> same_step(
                after_samples(tracker, samples.take(i)).sampled(samples[i].0, samples[i].1).1,
                after_samples(other, other_samples.take(i)).sampled(
                    other_samples[i].0,
                    other_samples[i].1,
                ).1,
            ),
    decreases samples.len(),
{
    if samples.len() > 0 {
        let earlier = samples.drop_last();
        let other_earlier = other_samples.drop_last();
        let last = samples.len() - 1;
        assert forall|i: int|
            #![trigger earlier[i]]
            #![trigger other_earlier[i]]
            0 <= i < earlier.len() implies earlier[i].1 == other_earlier[i].1
            && earlier[i].0.viewport() == other_earlier[i].0.viewport() && same_watched(
            earlier[i].0,
            other_earlier[i].0,
            tracker.spans,
        ) by {
            assert(earlier[i] == samples[i]);
            assert(other_earlier[i] == other_samples[i]);
        }
        unwatched_pixels_change_nothing(tracker, other, earlier, other_earlier);
        after_samples_keeps_the_wait(tracker, earlier);
        assert(samples.last() == samples[last]);
        assert(other_samples.last() == other_samples[last]);
        unwatched_pixels_change_no_step(
            after_samples(tracker, earlier),
            after_samples(other, other_earlier),
            samples[last].0,
            other_samples[last].0,
            samples[last].1,
        );
        assert forall|i: int| #![trigger samples[i]] 0 <= i < samples.len() implies same_step(
            after_samples(tracker, samples.take(i)).sampled(samples[i].0, samples[i].1).1,
            after_samples(other, other_samples.take(i)).sampled(
                other_samples[i].0,
                other_samples[i].1,
            ).1,
        ) by {
            if i < last {
                assert(earlier[i] == samples[i]);
                assert(other_earlier[i] == other_samples[i]);
                assert(earlier.take(i) =~= samples.take(i));
                assert(other_earlier.take(i) =~= other_samples.take(i));
            } else {
                assert(earlier =~= samples.take(i));
                assert(other_earlier =~= other_samples.take(i));
            }
        }
    }
}

} // verus!
