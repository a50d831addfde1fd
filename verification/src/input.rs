//! Shared timing and release handling for pointer input.
use vstd::prelude::*;

use crate::protocol::{CuError, CuErrorView, Point};
use crate::wait::NANOS_PER_MILLI;

verus! {

/// What an input reports, given what its release reported.
pub open spec fn finished<T>(result: Result<T, CuErrorView>, release: Option<CuErrorView>) -> Result<
    T,
    CuErrorView,
> {
    match (result, release) {
        (Err(error), Some(release)) => Err(
            CuErrorView {
                message: error.message + "; input release failed: "@ + release.text(),
                ..error
            },
        ),
        (Ok(_), Some(release)) => Err(release),
        (result, None) => result,
    }
}

/// The value or the failure of a result, with the failure's text as a sequence.
pub open spec fn result_view<T>(result: Result<T, CuError>) -> Result<T, CuErrorView> {
    match result {
        Ok(value) => Ok(value),
        Err(error) => Err(error@),
    }
}

/// Preserve an input failure and report a release failure as well.
pub fn finish_input<T>(result: Result<T, CuError>, release: Result<(), CuError>) -> (finished_result:
    Result<T, CuError>)
    ensures
        result_view(finished_result) == finished(
            result_view(result),
            crate::validate::refusal(release),
        ),
{
    match (result, release) {
        (Err(error), Err(release)) => {
            let mut error = error;
            let mut message = error.message.clone();
            message.append("; input release failed: ");
            message.append(&release.to_text());
            error.message = message;
            Err(error)
        },
        (result, Ok(())) => result,
        (Ok(_), Err(error)) => Err(error),
    }
}

/// Execute an operation while holding a button, then attempt release even on failure.
/// A failed press can have reached the display, so it also requires a release attempt.
///
/// The button is pressed, the operation runs on what the press left if the press succeeded, and
/// the button is released on what that left; the results are combined as `finish_input` does.
pub fn with_held_button<
    T,
    B: Fn(&mut T, bool) -> Result<(), CuError>,
    O: FnOnce(&mut T) -> Result<(), CuError>,
>(input: &mut T, button: B, operation: O) -> (result: Result<(), CuError>)
    requires
        forall|value: &mut T, down: bool| button.requires((value, down)),
        forall|value: &mut T| operation.requires((value,)),
    ensures
        (exists|
            down: &mut T,
            press: Result<(), CuError>,
            held: &mut T,
            operated: Result<(), CuError>,
            up: &mut T,
            release: Result<(), CuError>,
        |
            {
                &&& #[trigger] button.ensures((down, true), press)
                &&& press is Ok
                &&& *down == *old(input)
                &&& #[trigger] operation.ensures((held,), operated)
                &&& *held == *final(down)
                &&& #[trigger] button.ensures((up, false), release)
                &&& *up == *final(held)
                &&& *final(up) == *final(input)
                &&& result_view(result) == finished(
                    result_view(operated),
                    crate::validate::refusal(release),
                )
            }) || (exists|
            down: &mut T,
            press: Result<(), CuError>,
            up: &mut T,
            release: Result<(), CuError>,
        |
            {
                &&& #[trigger] button.ensures((down, true), press)
                &&& press is Err
                &&& *down == *old(input)
                &&& #[trigger] button.ensures((up, false), release)
                &&& *up == *final(down)
                &&& *final(up) == *final(input)
                &&& result_view(result) == finished(
                    result_view(press),
                    crate::validate::refusal(release),
                )
            }),
{
    let ghost before = *input;
    let press = button(input, true);
    assert(exists|down: &mut T|
        #[trigger] button.ensures((down, true), press) && *down == before && *final(down)
            == *input);
    let ghost pressed = *input;
    match press {
        Ok(()) => {
            let operated = operation(input);
            assert(exists|held: &mut T|
                #[trigger] operation.ensures((held,), operated) && *held == pressed && *final(held)
                    == *input);
            let ghost moved = *input;
            let release = button(input, false);
            assert(exists|up: &mut T|
                #[trigger] button.ensures((up, false), release) && *up == moved && *final(up)
                    == *input);
            finish_input(operated, release)
        },
        Err(error) => {
            let release = button(input, false);
            assert(exists|up: &mut T|
                #[trigger] button.ensures((up, false), release) && *up == pressed && *final(up)
                    == *input);
            finish_input(Err(error), release)
        },
    }
}

/// Time between two positions of a moving pointer, in nanoseconds.
pub const STEP: u64 = 8_000_000;

/// A pointer position with the time, in nanoseconds after the start, at which it is due.
#[derive(Debug, Clone, Copy, PartialEq, Eq, Structural)]
pub struct TimedPoint {
    pub at: u64,
    pub point: Point,
}

/// What a series of steps, each of which may fail, does next.
pub enum Next<T> {
    /// Perform a step.
    Perform(T),
    /// The series is over.
    Done(Result<(), CuError>),
}

/// What follows once `done` steps of a series were tried and the last try ended in `outcome`: the
/// first failure stops the series and is its result, and a series without one ends well.
pub open spec fn follows<T>(
    steps: Seq<T>,
    done: int,
    outcome: Result<(), CuError>,
    next: Next<T>,
) -> bool {
    match outcome {
        Err(error) => next == Next::<T>::Done(Err(error)),
        Ok(()) => if done < steps.len() {
            next == Next::Perform(steps[done])
        } else {
            next == Next::<T>::Done(Ok(()))
        },
    }
}

/// How the step before a place of a series ended; well before the first one.
pub open spec fn outcome_before(outcomes: Seq<Result<(), CuError>>, place: int) -> Result<
    (),
    CuError,
> {
    if place == 0 {
        Ok(())
    } else {
        outcomes[place - 1]
    }
}

/// A series performs its steps once each and in order, stops at the first failure and reports it,
/// and ends well exactly where every step was performed and went well.
pub proof fn series_stop_at_the_first_failure<T>(
    steps: Seq<T>,
    outcomes: Seq<Result<(), CuError>>,
    nexts: Seq<Next<T>>,
)
    requires
        outcomes.len() <= steps.len(),
        nexts.len() == outcomes.len() + 1,
        forall|i: int|
            0 <= i < nexts.len() ==> follows(
                steps,
                i,
                outcome_before(outcomes, i),
                #[trigger] nexts[i],
            ),
        forall|i: int| 0 <= i < outcomes.len() ==> (#[trigger] nexts[i]) is Perform,
    ensures
        forall|i: int|
            0 <= i < outcomes.len() ==> #[trigger] nexts[i] == Next::Perform(steps[i]),
        forall|i: int| 0 <= i < outcomes.len() - 1 ==> (#[trigger] outcomes[i]) is Ok,
        match nexts.last() {
            Next::Perform(step) => outcome_before(outcomes, outcomes.len() as int) is Ok && step
                == steps[outcomes.len() as int],
            Next::Done(Ok(())) => outcome_before(outcomes, outcomes.len() as int) is Ok
                && outcomes.len() == steps.len(),
            Next::Done(Err(error)) => outcomes.len() > 0 && outcomes.last() == Err::<(), CuError>(
                error,
            ),
        },
{
    assert forall|i: int| 0 <= i < outcomes.len() - 1 implies (#[trigger] outcomes[i]) is Ok by {
        assert(nexts[i + 1] is Perform);
    }
}

/// The step that follows the first `done` ones, or the end.
pub fn next_step<T: Copy>(steps: &Vec<T>, done: usize, outcome: Result<(), CuError>) -> (next: Next<
    T,
>)
    requires
        done <= steps.len(),
    ensures
        follows(steps@, done as int, outcome, next),
{
    match outcome {
        Err(error) => Next::Done(Err(error)),
        Ok(()) => {
            if done < steps.len() {
                Next::Perform(steps[done])
            } else {
                Next::Done(Ok(()))
            }
        },
    }
}

/// What moving along timed positions does next.
pub enum PlayOp {
    /// Wait for the position's time and move there.
    Move(TimedPoint),
    /// The motion is over.
    Done(Result<(), CuError>),
}

/// What follows once `played` positions were tried and the last try ended in `outcome`: the next
/// position, or the end where one failed or none is left.
pub fn play_steps(steps: &Vec<TimedPoint>, played: usize, outcome: Result<(), CuError>) -> (op:
    PlayOp)
    requires
        played <= steps.len(),
    ensures
        match outcome {
            Err(error) => op == PlayOp::Done(Err(error)),
            Ok(()) => if played < steps.len() {
                op == PlayOp::Move(steps[played as int])
            } else {
                op == PlayOp::Done(Ok(()))
            },
        },
        follows(
            steps@,
            played as int,
            outcome,
            match op {
                PlayOp::Move(step) => Next::Perform(step),
                PlayOp::Done(result) => Next::Done(result),
            },
        ),
{
    match outcome {
        Err(error) => PlayOp::Done(Err(error)),
        Ok(()) => {
            if played < steps.len() {
                PlayOp::Move(steps[played])
            } else {
                PlayOp::Done(Ok(()))
            }
        },
    }
}

/// One step of a drag once the button is held at the first point.
#[derive(Debug, Clone, Copy, PartialEq, Eq, Structural)]
pub enum DragOp {
    /// Pause for the given milliseconds.
    Pause { ms: u64 },
    /// Move the pointer.
    Move { point: Point },
}

/// The drag with default pacing: the hold, and then each further point followed by a pause.
pub open spec fn paced(path: Seq<Point>, hold_ms: u64) -> Seq<DragOp>
    decreases path.len(),
{
    if path.len() <= 1 {
        seq![DragOp::Pause { ms: hold_ms }]
    } else {
        paced(path.drop_last(), hold_ms).push(DragOp::Move { point: path.last() }).push(
            DragOp::Pause { ms: 8 },
        )
    }
}

/// What a drag does once `done` of its steps were tried and the last try ended in `outcome`: the
/// next step, or the end. The first failure stops the drag and is its result.
pub fn drag_step(ops: &Vec<DragOp>, done: usize, outcome: Result<(), CuError>) -> (next: Next<
    DragOp,
>)
    requires
        done <= ops.len(),
    ensures
        match outcome {
            Err(error) => next == Next::<DragOp>::Done(Err(error)),
            Ok(()) => if done < ops.len() {
                next == Next::Perform(ops[done as int])
            } else {
                next == Next::<DragOp>::Done(Ok(()))
            },
        },
        follows(ops@, done as int, outcome, next),
{
    next_step(ops, done, outcome)
}

/// A drag without a movement time holds at the first point, and then moves to each further point
/// once, in the order of the path, and pauses after each.
pub proof fn drags_visit_each_point_once(path: Seq<Point>, hold_ms: u64)
    requires
        path.len() > 0,
    ensures
        paced(path, hold_ms).len() == 2 * path.len() - 1,
        paced(path, hold_ms)[0] == (DragOp::Pause { ms: hold_ms }),
        forall|i: int|
            #![trigger path[i]]
            0 < i < path.len() ==> paced(path, hold_ms)[2 * i - 1] == (DragOp::Move {
                point: path[i],
            }) && paced(path, hold_ms)[2 * i] == (DragOp::Pause { ms: 8 }),
    decreases path.len(),
{
    if path.len() > 1 {
        let earlier = path.drop_last();
        drags_visit_each_point_once(earlier, hold_ms);
        assert forall|i: int| #![trigger path[i]] 0 < i < path.len() implies paced(path, hold_ms)[2
            * i - 1] == (DragOp::Move { point: path[i] }) && paced(path, hold_ms)[2 * i] == (
        DragOp::Pause { ms: 8 }) by {
            if i < earlier.len() {
                assert(earlier[i] == path[i]);
            }
        }
    }
}

/// The steps of a drag without a movement time.
pub fn drag_path(path: &Vec<Point>, hold_ms: u64) -> (ops: Vec<DragOp>)
    ensures
        ops@ == paced(path@, hold_ms),
{
    let mut ops: Vec<DragOp> = Vec::new();
    ops.push(DragOp::Pause { ms: hold_ms });
    if path.len() == 0 {
        assert(ops@ =~= paced(path@, hold_ms));
        return ops;
    }
    let mut n: usize = 1;
    assert(path@.take(1).len() <= 1);
    assert(ops@ =~= paced(path@.take(1), hold_ms));
    while n < path.len()
        invariant
            1 <= n <= path.len(),
            ops@ == paced(path@.take(n as int), hold_ms),
        decreases path.len() - n,
    {
        ops.push(DragOp::Move { point: path[n] });
        ops.push(DragOp::Pause { ms: 8 });
        assert(path@.take(n + 1).drop_last() =~= path@.take(n as int));
        n += 1;
    }
    assert(path@.take(n as int) =~= path@);
    ops
}

/// Where on its path the pointer is at one time.
#[derive(Debug, Clone, Copy, PartialEq, Eq, Structural)]
pub enum PathMark {
    /// At point `index` of the path.
    Point { index: usize },
    /// Between point `index` and the next one, `elapsed` of `span` nanoseconds on its way.
    Between { index: usize, elapsed: u64, span: u64 },
}

/// A place on the path with the time, in nanoseconds after the start, at which it is due.
#[derive(Debug, Clone, Copy, PartialEq, Eq, Structural)]
pub struct TimedMark {
    pub at: u64,
    pub mark: PathMark,
}

/// Whether a path never leaves its first point.
pub open spec fn stationary(path: Seq<Point>) -> bool {
    forall|i: int| 0 <= i < path.len() - 1 ==> #[trigger] path[i] == path[i + 1]
}

/// The first tick after a time.
pub open spec fn tick_after(time: int) -> int {
    (time / (STEP as int) + 1) * STEP
}

/// The places between two points at the ticks from `tick` up to and without `end`.
pub open spec fn marks_between(hold: int, index: usize, start: int, tick: int, end: int) -> Seq<
    TimedMark,
>
    decreases (if tick < end { end - tick } else { 0 }),
{
    if tick < end {
        seq![
            TimedMark {
                at: (hold + tick) as u64,
                mark: PathMark::Between {
                    index,
                    elapsed: (tick - start) as u64,
                    span: (end - start) as u64,
                },
            },
        ] + marks_between(hold, index, start, tick + STEP, end)
    } else {
        Seq::empty()
    }
}

/// When the pointer has passed the first `count` segments: the end of the last one with length.
pub open spec fn passed_at(path: Seq<Point>, ends: Seq<u64>, count: nat) -> int
    decreases count,
{
    if count == 0 {
        0
    } else if path[count - 1] == path[count as int] {
        passed_at(path, ends, (count - 1) as nat)
    } else {
        ends[count - 1] as int
    }
}

/// The places of the first `count` segments: the start at the end of the hold; then, for each
/// segment that has length, its ticks and its end.
pub open spec fn path_marks(path: Seq<Point>, ends: Seq<u64>, hold: int, count: nat) -> Seq<
    TimedMark,
>
    decreases count,
{
    if count == 0 {
        seq![TimedMark { at: hold as u64, mark: PathMark::Point { index: 0 } }]
    } else {
        let earlier = path_marks(path, ends, hold, (count - 1) as nat);
        if path[count - 1] == path[count as int] {
            earlier
        } else {
            let start = passed_at(path, ends, (count - 1) as nat);
            let end = ends[count - 1] as int;
            earlier + marks_between(hold, (count - 1) as usize, start, tick_after(start), end)
                + seq![
                TimedMark {
                    at: (hold + end) as u64,
                    mark: PathMark::Point { index: count as usize },
                },
            ]
        }
    }
}

/// All further points of a path at one time.
pub open spec fn all_at_once(path: Seq<Point>, at: u64) -> Seq<TimedMark> {
    Seq::new(
        (path.len() - 1) as nat,
        |i: int| TimedMark { at, mark: PathMark::Point { index: (i + 1) as usize } },
    )
}

/// Whether segment ends never go back and never pass the movement time.
pub open spec fn ends_in_order(ends: Seq<u64>, duration: int) -> bool {
    &&& forall|i: int, j: int| 0 <= i <= j < ends.len() ==> ends[i] <= ends[j]
    &&& forall|i: int| 0 <= i < ends.len() ==> (#[trigger] ends[i]) <= duration
}

/// The places of a timed movement. `ends` holds, for each segment of the path, the time after
/// the hold at which it is passed.
pub open spec fn timed_marks(path: Seq<Point>, hold_ms: u64, duration_ms: u64, ends: Seq<u64>) -> Seq<
    TimedMark,
> {
    if duration_ms == 0 || stationary(path) {
        all_at_once(path, (hold_ms * NANOS_PER_MILLI + duration_ms * NANOS_PER_MILLI) as u64)
    } else {
        path_marks(path, ends, hold_ms * NANOS_PER_MILLI, (path.len() - 1) as nat)
    }
}

fn is_stationary(path: &Vec<Point>) -> (result: bool)
    requires
        path.len() > 0,
    ensures
        result == stationary(path@),
{
    let mut n: usize = 0;
    while n < path.len() - 1
        invariant
            path.len() > 0,
            n <= path.len() - 1,
            forall|i: int| 0 <= i < n ==> #[trigger] path@[i] == path@[i + 1],
        decreases path.len() - n,
    {
        if path[n] != path[n + 1] {
            assert(path@[n as int] != path@[n + 1]);
            return false;
        }
        n += 1;
    }
    true
}

proof fn next_tick(time: int, tick: int, end: int)
    requires
        0 <= time <= end,
        tick % (STEP as int) == 0,
        tick >= end,
        tick == tick_after(time) || tick - STEP < end,
    ensures
        (if tick == end {
            tick + STEP
        } else {
            tick
        }) == tick_after(end),
{
    let k = tick / (STEP as int);
    assert(tick == k * STEP);
    assert(tick - STEP <= end) by {
        if tick == tick_after(time) {
            assert(tick - STEP == (time / (STEP as int)) * STEP);
        }
    }
}

/// The places of a timed movement.
pub fn timed_steps(path: &Vec<Point>, hold_ms: u64, duration_ms: u64, ends: &Vec<u64>) -> (marks:
    Vec<TimedMark>)
    requires
        path.len() > 0,
        ends.len() == path.len() - 1,
        hold_ms * NANOS_PER_MILLI + duration_ms * NANOS_PER_MILLI + STEP <= u64::MAX,
        ends_in_order(ends@, duration_ms * NANOS_PER_MILLI),
    ensures
        marks@ == timed_marks(path@, hold_ms, duration_ms, ends@),
{
    let hold: u64 = hold_ms * NANOS_PER_MILLI;
    let duration: u64 = duration_ms * NANOS_PER_MILLI;
    let mut marks: Vec<TimedMark> = Vec::new();
    if duration_ms == 0 || is_stationary(path) {
        let mut n: usize = 1;
        while n < path.len()
            invariant
                1 <= n <= path.len(),
                hold + duration <= u64::MAX,
                marks@ == all_at_once(path@, (hold + duration) as u64).take(n - 1),
            decreases path.len() - n,
        {
            marks.push(TimedMark { at: hold + duration, mark: PathMark::Point { index: n } });
            n += 1;
            assert(marks@ =~= all_at_once(path@, (hold + duration) as u64).take(n - 1));
        }
        assert(marks@ =~= all_at_once(path@, (hold + duration) as u64));
        return marks;
    }
    let mut tick: u64 = STEP;
    let mut start: u64 = 0;
    marks.push(TimedMark { at: hold, mark: PathMark::Point { index: 0 } });
    let mut n: usize = 0;
    assert(marks@ =~= path_marks(path@, ends@, hold as int, 0));
    while n < ends.len()
        invariant
            n <= ends.len(),
            ends.len() == path.len() - 1,
            duration == duration_ms * NANOS_PER_MILLI,
            hold + duration + STEP <= u64::MAX,
            ends_in_order(ends@, duration as int),
            start == passed_at(path@, ends@, n as nat),
            start <= duration,
            n > 0 ==> start <= ends[n - 1],
            n == 0 ==> start == 0,
            tick == tick_after(start as int),
            marks@ == path_marks(path@, ends@, hold as int, n as nat),
        decreases ends.len() - n,
    {
        if path[n] != path[n + 1] {
            let end: u64 = ends[n];
            assert(ends@[n as int] <= duration);
            let ghost earlier = marks@;
            let ghost first = tick as int;
            assert(start <= end);
            assert(earlier + marks_between(hold as int, n, start as int, first, end as int)
                =~= marks@ + marks_between(hold as int, n, start as int, tick as int, end as int));
            while tick < end
                invariant
                    start <= end <= duration,
                    start < tick || tick >= end,
                    tick % STEP == 0,
                    hold + duration + STEP <= u64::MAX,
                    tick <= end + STEP,
                    tick as int == tick_after(start as int) || tick - STEP < end,
                    earlier + marks_between(hold as int, n, start as int, first, end as int)
                        == marks@ + marks_between(
                        hold as int,
                        n,
                        start as int,
                        tick as int,
                        end as int,
                    ),
                decreases end + STEP - tick,
            {
                let ghost before = marks@;
                marks.push(
                    TimedMark {
                        at: hold + tick,
                        mark: PathMark::Between {
                            index: n,
                            elapsed: tick - start,
                            span: end - start,
                        },
                    },
                );
                assert(before + marks_between(
                    hold as int,
                    n,
                    start as int,
                    tick as int,
                    end as int,
                ) =~= marks@ + marks_between(
                    hold as int,
                    n,
                    start as int,
                    tick + STEP,
                    end as int,
                ));
                tick = tick + STEP;
            }
            proof {
                next_tick(start as int, tick as int, end as int);
            }
            marks.push(
                TimedMark { at: hold + end, mark: PathMark::Point { index: n + 1 } },
            );
            if tick == end {
                tick = tick + STEP;
            }
            start = end;
            assert(marks@ =~= path_marks(path@, ends@, hold as int, (n + 1) as nat));
        }
        n += 1;
    }
    marks
}

/// Whether the marks come in the order of their times, from `low` to `high`.
pub open spec fn in_time_order(marks: Seq<TimedMark>, low: int, high: int) -> bool {
    &&& forall|i: int, j: int| 0 <= i <= j < marks.len() ==> marks[i].at <= marks[j].at
    &&& forall|i: int| 0 <= i < marks.len() ==> low <= (#[trigger] marks[i]).at <= high
}

proof fn ticks_in_time_order(hold: int, index: usize, start: int, tick: int, end: int)
    requires
        0 <= hold,
        0 <= tick,
        hold + end <= u64::MAX,
    ensures
        in_time_order(marks_between(hold, index, start, tick, end), hold + tick, hold + end),
    decreases (if tick < end { end - tick } else { 0 }),
{
    if tick < end {
        ticks_in_time_order(hold, index, start, tick + STEP, end);
        let rest = marks_between(hold, index, start, tick + STEP, end);
        let all = marks_between(hold, index, start, tick, end);
        assert(forall|i: int| 0 < i < all.len() ==> all[i] == rest[i - 1]);
    }
}

proof fn joined_in_time_order(
    first: Seq<TimedMark>,
    second: Seq<TimedMark>,
    low: int,
    middle: int,
    high: int,
)
    requires
        in_time_order(first, low, middle),
        in_time_order(second, middle, high),
        low <= middle <= high,
    ensures
        in_time_order(first + second, low, high),
{
    let all = first + second;
    assert(forall|i: int| 0 <= i < first.len() ==> all[i] == first[i]);
    assert(forall|i: int| first.len() <= i < all.len() ==> all[i] == second[i - first.len()]);
}

/// The places of a timed movement begin at the end of the hold, come in the order of their times,
/// and end when the last segment with length is passed.
pub proof fn marks_keep_time_order(path: Seq<Point>, ends: Seq<u64>, hold: int, count: nat)
    requires
        0 <= hold <= u64::MAX,
        count <= ends.len(),
        count < path.len(),
        ends_in_order(ends, u64::MAX - hold),
    ensures
        in_time_order(
            path_marks(path, ends, hold, count),
            hold,
            hold + passed_at(path, ends, count),
        ),
        path_marks(path, ends, hold, count).len() > 0,
        path_marks(path, ends, hold, count)[0].at == hold,
        path_marks(path, ends, hold, count).last().at == hold + passed_at(path, ends, count),
        0 <= passed_at(path, ends, count) <= u64::MAX - hold,
        count > 0 ==> passed_at(path, ends, count) <= ends[count - 1],
    decreases count,
{
    if count > 0 {
        let shorter = (count - 1) as nat;
        marks_keep_time_order(path, ends, hold, shorter);
        if path[count - 1] != path[count as int] {
            let start = passed_at(path, ends, shorter);
            let end = ends[count - 1] as int;
            assert(start <= end) by {
                if shorter > 0 {
                    assert(ends[shorter - 1] <= ends[count - 1]);
                }
            }
            let earlier = path_marks(path, ends, hold, shorter);
            let ticks = marks_between(
                hold,
                (count - 1) as usize,
                start,
                tick_after(start),
                end,
            );
            ticks_in_time_order(hold, (count - 1) as usize, start, tick_after(start), end);
            let corner = seq![
                TimedMark {
                    at: (hold + end) as u64,
                    mark: PathMark::Point { index: count as usize },
                },
            ];
            assert(in_time_order(ticks, hold + start, hold + end)) by {
                assert(tick_after(start) >= start);
            }
            joined_in_time_order(earlier, ticks, hold, hold + start, hold + end);
            joined_in_time_order(earlier + ticks, corner, hold, hold + end, hold + end);
            assert(path_marks(path, ends, hold, count) =~= earlier + ticks + corner);
        }
    }
}

/// Every point of the path is visited exactly where it lies, however short the movement.
pub proof fn every_corner_is_visited(
    path: Seq<Point>,
    ends: Seq<u64>,
    hold: int,
    count: nat,
    corner: nat,
)
    requires
        corner <= count < path.len() <= usize::MAX,
    ensures
        exists|i: int|
            {
                &&& 0 <= i < path_marks(path, ends, hold, count).len()
                &&& (#[trigger] path_marks(path, ends, hold, count)[i]).mark matches PathMark::Point {
                    index,
                }
                &&& path[index as int] == path[corner as int]
            },
    decreases count,
{
    let all = path_marks(path, ends, hold, count);
    if count == 0 {
        assert(all[0].mark == PathMark::Point { index: 0 });
    } else {
        let shorter = (count - 1) as nat;
        let earlier = path_marks(path, ends, hold, shorter);
        if corner == count && path[count - 1] != path[count as int] {
            assert(all.last().mark == PathMark::Point { index: count as usize });
            assert(all[all.len() - 1] == all.last());
        } else {
            let known = if corner == count {
                shorter
            } else {
                corner
            };
            every_corner_is_visited(path, ends, hold, shorter, known);
            let i = choose|i: int|
                {
                    &&& 0 <= i < earlier.len()
                    &&& (#[trigger] earlier[i]).mark matches PathMark::Point { index }
                    &&& path[index as int] == path[known as int]
                };
            assert(all[i] == earlier[i]);
        }
    }
}

} // verus!
