//! Where a timed drag is at which time, and what a failure under input is told as.
use vstd::prelude::*;

use crate::input::{
    finished, marks_between, passed_at, path_marks, tick_after, timed_marks, PathMark, TimedMark,
};
use crate::protocol::{CuErrorView, Point};

verus! {

/// The time at which a leg of a drag starts: that at which the leg before it ends.
pub open spec fn leg_start(ends: Seq<u64>, leg: int) -> int {
    if leg == 0 {
        0
    } else {
        ends[leg - 1] as int
    }
}

/// Whether legs without length take no time.
pub open spec fn still_legs_take_no_time(path: Seq<Point>, ends: Seq<u64>) -> bool {
    forall|leg: int|
        0 <= leg < ends.len() && path[leg] == path[leg + 1] ==> #[trigger] ends[leg] == leg_start(
            ends,
            leg,
        )
}

/// Whether a mark of a drag is the start of its path, the end of a leg, or a place on a leg at a
/// multiple of eight milliseconds after the hold.
pub open spec fn on_the_way(
    path: Seq<Point>,
    ends: Seq<u64>,
    hold: int,
    legs: int,
    mark: TimedMark,
) -> bool {
    match mark.mark {
        PathMark::Point { index } => if index == 0 {
            mark.at == hold
        } else {
            index <= legs && path[index - 1] != path[index as int] && mark.at == hold + ends[index
                - 1]
        },
        PathMark::Between { index, elapsed, span } => {
            &&& index < legs
            &&& path[index as int] != path[index + 1]
            &&& 0 < elapsed < span
            &&& span == ends[index as int] - leg_start(ends, index as int)
            &&& mark.at == hold + leg_start(ends, index as int) + elapsed
            &&& (mark.at - hold) % 8_000_000 == 0
        },
    }
}

/// The mark of a drag on a leg.
pub open spec fn mark_on(ends: Seq<u64>, hold: int, leg: int, time: int) -> TimedMark {
    TimedMark {
        at: (hold + time) as u64,
        mark: PathMark::Between {
            index: leg as usize,
            elapsed: (time - leg_start(ends, leg)) as u64,
            span: (ends[leg] - leg_start(ends, leg)) as u64,
        },
    }
}

proof fn legs_start_where_they_were_passed(path: Seq<Point>, ends: Seq<u64>, count: nat)
    requires
        count <= ends.len(),
        ends.len() < path.len(),
        still_legs_take_no_time(path, ends),
    ensures
        passed_at(path, ends, count) == leg_start(ends, count as int),
    decreases count,
{
    if count > 0 {
        legs_start_where_they_were_passed(path, ends, (count - 1) as nat);
        assert(ends[count - 1] == ends[count - 1]);
    }
}

proof fn ticks_are_on_the_leg(
    path: Seq<Point>,
    ends: Seq<u64>,
    hold: int,
    leg: int,
    tick: int,
    time: int,
)
    requires
        0 <= leg < ends.len() < path.len() <= usize::MAX,
        path[leg] != path[leg + 1],
        0 <= hold,
        hold + ends[leg] <= u64::MAX,
        leg_start(ends, leg) < tick,
        leg_start(ends, leg) <= ends[leg],
        tick % 8_000_000 == 0,
    ensures
        ({
            let start = leg_start(ends, leg);
            let marks = marks_between(hold, leg as usize, start, tick, ends[leg] as int);
            &&& forall|i: int|
                0 <= i < marks.len() ==> #[trigger] on_the_way(path, ends, hold, leg + 1, marks[i])
            &&& tick <= time < ends[leg] && time % 8_000_000 == 0 ==> marks.contains(
                mark_on(ends, hold, leg, time),
            )
        }),
    decreases (if tick < ends[leg] { ends[leg] - tick } else { 0 }),
{
    let start = leg_start(ends, leg);
    let end = ends[leg] as int;
    let marks = marks_between(hold, leg as usize, start, tick, end);
    if tick < end {
        ticks_are_on_the_leg(path, ends, hold, leg, tick + 8_000_000, time);
        let rest = marks_between(hold, leg as usize, start, tick + 8_000_000, end);
        assert(marks.len() == rest.len() + 1);
        assert forall|i: int| 0 <= i < marks.len() implies #[trigger] on_the_way(
            path,
            ends,
            hold,
            leg + 1,
            marks[i],
        ) by {
            if i > 0 {
                assert(marks[i] == rest[i - 1]);
                assert(on_the_way(path, ends, hold, leg + 1, rest[i - 1]));
            }
        }
        if tick <= time < end && time % 8_000_000 == 0 {
            if time == tick {
                assert(marks[0] == mark_on(ends, hold, leg, time));
            } else {
                let i = choose|i: int|
                    0 <= i < rest.len() && rest[i] == mark_on(ends, hold, leg, time);
                assert(marks[i + 1] == rest[i]);
            }
        }
    }
}

proof fn marks_follow_the_legs(
    path: Seq<Point>,
    ends: Seq<u64>,
    hold: int,
    count: nat,
    leg: int,
    time: int,
)
    requires
        count <= ends.len(),
        ends.len() < path.len() <= usize::MAX,
        0 <= hold <= u64::MAX,
        forall|i: int, j: int| 0 <= i <= j < ends.len() ==> ends[i] <= ends[j],
        forall|i: int| 0 <= i < ends.len() ==> hold + #[trigger] ends[i] <= u64::MAX,
        still_legs_take_no_time(path, ends),
    ensures
        ({
            let marks = path_marks(path, ends, hold, count);
            &&& marks.len() > 0
            &&& marks[0] == (TimedMark { at: hold as u64, mark: PathMark::Point { index: 0 } })
            &&& forall|i: int|
                0 <= i < marks.len() ==> #[trigger] on_the_way(
                    path,
                    ends,
                    hold,
                    count as int,
                    marks[i],
                )
            &&& 0 <= leg < count && path[leg] != path[leg + 1] ==> {
                &&& marks.contains(
                    TimedMark {
                        at: (hold + ends[leg]) as u64,
                        mark: PathMark::Point { index: (leg + 1) as usize },
                    },
                )
                &&& leg_start(ends, leg) < time < ends[leg] && time % 8_000_000 == 0
                    ==> marks.contains(mark_on(ends, hold, leg, time))
            }
        }),
    decreases count,
{
    if count > 0 {
        let before = (count - 1) as nat;
        let earlier = path_marks(path, ends, hold, before);
        let marks = path_marks(path, ends, hold, count);
        marks_follow_the_legs(path, ends, hold, before, leg, time);
        legs_start_where_they_were_passed(path, ends, before);
        assert forall|i: int| 0 <= i < earlier.len() implies #[trigger] on_the_way(
            path,
            ends,
            hold,
            count as int,
            earlier[i],
        ) by {
            assert(on_the_way(path, ends, hold, before as int, earlier[i]));
        }
        if path[before as int] == path[count as int] {
            assert(marks == earlier);
        } else {
            let start = leg_start(ends, before as int);
            let end = ends[before as int] as int;
            let tick = tick_after(start);
            assert(0 <= start <= end) by {
                if before > 0 {
                    assert(ends[before - 1] <= ends[before as int]);
                }
            }
            let middle = marks_between(hold, before as usize, start, tick, end);
            let corner = TimedMark {
                at: (hold + end) as u64,
                mark: PathMark::Point { index: count as usize },
            };
            assert(marks == earlier + middle + seq![corner]);
            assert(hold + ends[before as int] <= u64::MAX);
            ticks_are_on_the_leg(path, ends, hold, before as int, tick, time);
            assert forall|i: int| 0 <= i < marks.len() implies #[trigger] on_the_way(
                path,
                ends,
                hold,
                count as int,
                marks[i],
            ) by {
                if i < earlier.len() {
                    assert(marks[i] == earlier[i]);
                    assert(on_the_way(path, ends, hold, count as int, earlier[i]));
                } else if i < earlier.len() + middle.len() {
                    assert(marks[i] == middle[i - earlier.len()]);
                    assert(on_the_way(path, ends, hold, before as int + 1, middle[i - earlier.len()]));
                } else {
                    assert(marks[i] == corner);
                }
            }
            assert(marks[0] == earlier[0]);
            if leg == before {
                assert(marks[marks.len() - 1] == corner);
                if start < time < end && time % 8_000_000 == 0 {
                    assert(tick <= time);
                    let wanted = mark_on(ends, hold, leg, time);
                    let i = choose|i: int| 0 <= i < middle.len() && middle[i] == wanted;
                    assert(marks[earlier.len() + i] == wanted);
                }
            } else if 0 <= leg < before && path[leg] != path[leg + 1] {
                let reached = TimedMark {
                    at: (hold + ends[leg]) as u64,
                    mark: PathMark::Point { index: (leg + 1) as usize },
                };
                let i = choose|i: int| 0 <= i < earlier.len() && earlier[i] == reached;
                assert(marks[i] == reached);
                if leg_start(ends, leg) < time < ends[leg] && time % 8_000_000 == 0 {
                    let wanted = mark_on(ends, hold, leg, time);
                    let i = choose|i: int| 0 <= i < earlier.len() && earlier[i] == wanted;
                    assert(marks[i] == wanted);
                }
            }
        }
    }
}

/// A timed drag stays at its first point for the hold, then is on each leg with a length at every
/// multiple of eight milliseconds at which that leg is under way, as far as the time since the
/// start of the leg tells, and at the end of the leg when the leg ends. It is nowhere else.
/// Without a duration or a length it visits the other points at once, when its time is up.
pub proof fn timed_drags_follow_the_clock(
    path: Seq<Point>,
    hold_ms: u64,
    duration_ms: u64,
    ends: Seq<u64>,
    leg: int,
    time: int,
)
    requires
        0 < path.len() <= usize::MAX,
        ends.len() == path.len() - 1,
        hold_ms * 1_000_000 + duration_ms * 1_000_000 <= u64::MAX,
        forall|i: int, j: int| 0 <= i <= j < ends.len() ==> ends[i] <= ends[j],
        forall|i: int| 0 <= i < ends.len() ==> #[trigger] ends[i] <= duration_ms * 1_000_000,
        still_legs_take_no_time(path, ends),
        0 <= leg < ends.len(),
    ensures
        ({
            let marks = timed_marks(path, hold_ms, duration_ms, ends);
            let hold = hold_ms * 1_000_000;
            let moves = exists|i: int| 0 <= i < path.len() - 1 && #[trigger] path[i] != path[i + 1];
            if duration_ms > 0 && moves {
                &&& marks[0] == (TimedMark { at: hold as u64, mark: PathMark::Point { index: 0 } })
                &&& forall|i: int|
                    0 <= i < marks.len() ==> #[trigger] on_the_way(
                        path,
                        ends,
                        hold,
                        path.len() - 1,
                        marks[i],
                    )
                &&& path[leg] != path[leg + 1] ==> {
                    &&& marks.contains(
                        TimedMark {
                            at: (hold + ends[leg]) as u64,
                            mark: PathMark::Point { index: (leg + 1) as usize },
                        },
                    )
                    &&& leg_start(ends, leg) < time < ends[leg] && time % 8_000_000 == 0
                        ==> marks.contains(mark_on(ends, hold, leg, time))
                }
            } else {
                &&& marks.len() == path.len() - 1
                &&& marks[leg].at == hold + duration_ms * 1_000_000
                &&& marks[leg].mark == (PathMark::Point { index: (leg + 1) as usize })
            }
        }),
{
    let hold = hold_ms * 1_000_000;
    assert forall|i: int| 0 <= i < ends.len() implies hold + #[trigger] ends[i] <= u64::MAX by {}
    marks_follow_the_legs(path, ends, hold, (path.len() - 1) as nat, leg, time);
}

/// What was pressed is let go whatever happened: an operation that went well fails where letting go
/// fails, and one that failed keeps its own category and counts, and tells of both failures.
pub proof fn releases_do_not_hide_failures(
    result: Result<(), CuErrorView>,
    release: Option<CuErrorView>,
)
    ensures
        finished(result, release) is Ok <==> result is Ok && release is None,
        result is Ok && release is Some ==> finished(result, release) == Err::<(), CuErrorView>(
            release->0,
        ),
        result matches Err(error) ==> (finished(result, release) matches Err(told) && told.code
            == error.code && told.executed == error.executed && told.expected_viewport
            == error.expected_viewport && told.actual_viewport == error.actual_viewport
            && error.message.is_prefix_of(told.message) && (release is None ==> told == error)),
        (result matches Err(error) && release is Some) ==> (finished(result, release)
            matches Err(told) && release->0.message.is_suffix_of(told.message)),
{
    if let (Err(error), Some(other)) = (result, release) {
        let told = finished(result, release)->Err_0;
        assert(told.message.subrange(0, error.message.len() as int) =~= error.message);
        assert(told.message.subrange(
            told.message.len() - other.message.len(),
            told.message.len() as int,
        ) =~= other.message);
    }
}

} // verus!
