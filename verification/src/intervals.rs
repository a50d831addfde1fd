//! Half-open pixel intervals of one row: collecting, sorting and merging them.
use vstd::prelude::*;

use crate::protocol::{some_rect_covers, Rect};

verus! {

/// Whether some interval of the list holds `x`.
pub open spec fn intervals_cover(intervals: Seq<(u32, u32)>, x: int) -> bool {
    exists|i: int| 0 <= i < intervals.len() && (#[trigger] intervals[i]).0 <= x < intervals[i].1
}

/// Whether the intervals come in the order of their left ends.
pub open spec fn sorted_by_left(intervals: Seq<(u32, u32)>) -> bool {
    forall|i: int, j: int| 0 <= i < j < intervals.len() ==> intervals[i].0 <= intervals[j].0
}

/// Whether no interval ends before it begins.
pub open spec fn ordered_ends(intervals: Seq<(u32, u32)>) -> bool {
    forall|i: int| 0 <= i < intervals.len() ==> (#[trigger] intervals[i]).0 <= intervals[i].1
}

/// Whether the intervals come from left to right with a gap between any two.
pub open spec fn separated(intervals: Seq<(u32, u32)>) -> bool {
    forall|i: int, j: int| 0 <= i < j < intervals.len() ==> intervals[i].1 < intervals[j].0
}

/// Whether every interval holds a pixel.
pub open spec fn all_nonempty(intervals: Seq<(u32, u32)>) -> bool {
    forall|i: int| 0 <= i < intervals.len() ==> (#[trigger] intervals[i]).0 < intervals[i].1
}

/// Whether the edges of every rectangle fit the coordinate type.
pub open spec fn edges_fit(rects: Seq<Rect>) -> bool {
    forall|i: int|
        0 <= i < rects.len() ==> (#[trigger] rects[i]).x + rects[i].width <= u32::MAX && rects[i].y
            + rects[i].height <= u32::MAX
}

/// Whether every rectangle has positive width.
pub open spec fn positive_widths(rects: Seq<Rect>) -> bool {
    forall|i: int| 0 <= i < rects.len() ==> (#[trigger] rects[i]).width > 0
}

/// Insert an interval into a sorted list.
fn insert_interval(intervals: &mut Vec<(u32, u32)>, item: (u32, u32))
    requires
        sorted_by_left(old(intervals)@),
        ordered_ends(old(intervals)@),
        item.0 <= item.1,
    ensures
        sorted_by_left(final(intervals)@),
        ordered_ends(final(intervals)@),
        forall|x: int|
            intervals_cover(final(intervals)@, x) <==> intervals_cover(old(intervals)@, x)
                || item.0 <= x < item.1,
        all_nonempty(old(intervals)@) && item.0 < item.1 ==> all_nonempty(final(intervals)@),
{
    let mut at: usize = intervals.len();
    while at > 0 && intervals[at - 1].0 > item.0
        invariant
            at <= intervals.len(),
            intervals@ == old(intervals)@,
            forall|j: int| at <= j < intervals.len() ==> intervals[j].0 > item.0,
        decreases at,
    {
        at -= 1;
    }
    intervals.insert(at, item);
    let ghost before = old(intervals)@;
    let ghost after = intervals@;
    proof {
        let at = at as int;
        assert(after == before.insert(at, item));
        assert forall|x: int| intervals_cover(after, x) implies intervals_cover(before, x) || item.0
            <= x < item.1 by {
            let i = choose|i: int| 0 <= i < after.len() && (#[trigger] after[i]).0 <= x < after[i].1;
            if i < at {
                assert(after[i] == before[i]);
            } else if i > at {
                assert(after[i] == before[i - 1]);
            }
        }
        assert forall|x: int|
            intervals_cover(before, x) || item.0 <= x < item.1 implies intervals_cover(after, x) by {
            if item.0 <= x < item.1 {
                assert(after[at] == item);
            } else {
                let i = choose|i: int|
                    0 <= i < before.len() && (#[trigger] before[i]).0 <= x < before[i].1;
                if i < at {
                    assert(after[i] == before[i]);
                } else {
                    assert(after[i + 1] == before[i]);
                }
            }
        }
    }
}

/// One more rectangle covers what it covers itself, and nothing else.
proof fn row_of_prefix(rects: Seq<Rect>, n: int, x: int, y: int)
    requires
        0 <= n < rects.len(),
    ensures
        some_rect_covers(rects.take(n + 1), x, y) <==> some_rect_covers(rects.take(n), x, y)
            || rects[n].covers(x, y),
{
    let shorter = rects.take(n);
    let longer = rects.take(n + 1);
    if some_rect_covers(longer, x, y) {
        let i = choose|i: int| 0 <= i < longer.len() && #[trigger] longer[i].covers(x, y);
        if i < n {
            assert(shorter[i] == longer[i]);
        }
    }
    if some_rect_covers(shorter, x, y) {
        let i = choose|i: int| 0 <= i < shorter.len() && #[trigger] shorter[i].covers(x, y);
        assert(longer[i] == shorter[i]);
    }
    assert(longer[n] == rects[n]);
}

/// The intervals in which the rectangles cross row `y`, sorted by their left ends.
fn row_intervals(rects: &[Rect], y: u32) -> (intervals: Vec<(u32, u32)>)
    requires
        edges_fit(rects@),
    ensures
        sorted_by_left(intervals@),
        ordered_ends(intervals@),
        forall|x: int| intervals_cover(intervals@, x) <==> some_rect_covers(rects@, x, y as int),
        positive_widths(rects@) ==> all_nonempty(intervals@),
{
    let mut intervals: Vec<(u32, u32)> = Vec::new();
    let mut n: usize = 0;
    while n < rects.len()
        invariant
            n <= rects.len(),
            edges_fit(rects@),
            sorted_by_left(intervals@),
            ordered_ends(intervals@),
            forall|x: int|
                intervals_cover(intervals@, x) <==> some_rect_covers(
                    rects@.take(n as int),
                    x,
                    y as int,
                ),
            positive_widths(rects@) ==> all_nonempty(intervals@),
        decreases rects.len() - n,
    {
        let rect = rects[n];
        let ghost before = intervals@;
        assert(rects@[n as int] == rect);
        if y >= rect.y && y < rect.y + rect.height {
            insert_interval(&mut intervals, (rect.x, rect.x + rect.width));
        }
        assert forall|x: int|
            intervals_cover(intervals@, x) <==> some_rect_covers(
                rects@.take(n + 1),
                x,
                y as int,
            ) by {
            row_of_prefix(rects@, n as int, x, y as int);
            assert(intervals_cover(before, x) <==> some_rect_covers(
                rects@.take(n as int),
                x,
                y as int,
            ));
        }
        n += 1;
    }
    assert(rects@.take(n as int) =~= rects@);
    intervals
}

/// Merge sorted intervals that touch or overlap.
fn merge_sorted(intervals: &Vec<(u32, u32)>) -> (merged: Vec<(u32, u32)>)
    requires
        sorted_by_left(intervals@),
        ordered_ends(intervals@),
    ensures
        separated(merged@),
        ordered_ends(merged@),
        forall|x: int| intervals_cover(merged@, x) <==> intervals_cover(intervals@, x),
        all_nonempty(intervals@) ==> all_nonempty(merged@),
{
    let mut merged: Vec<(u32, u32)> = Vec::with_capacity(intervals.len());
    let mut n: usize = 0;
    while n < intervals.len()
        invariant
            n <= intervals.len(),
            sorted_by_left(intervals@),
            ordered_ends(intervals@),
            separated(merged@),
            ordered_ends(merged@),
            all_nonempty(intervals@) ==> all_nonempty(merged@),
            forall|i: int, j: int|
                0 <= i < merged.len() && n <= j < intervals.len() ==> (#[trigger] merged[i]).0 <= (
                #[trigger] intervals[j]).0,
            forall|x: int|
                intervals_cover(merged@, x) <==> intervals_cover(intervals@.take(n as int), x),
        decreases intervals.len() - n,
    {
        let (left, right) = intervals[n];
        let ghost before = merged@;
        let count: usize = merged.len();
        if count > 0 && left <= merged[count - 1].1 {
            let last = merged[count - 1];
            let end: u32 = if right > last.1 { right } else { last.1 };
            merged.set(count - 1, (last.0, end));
            proof {
                let at = count as int - 1;
                assert(merged@ == before.update(at, (last.0, end)));
                assert(forall|i: int| 0 <= i < at ==> merged[i] == before[i]);
                assert forall|x: int|
                    intervals_cover(merged@, x) <==> intervals_cover(before, x) || left <= x < right by {
                    if intervals_cover(merged@, x) {
                        let i = choose|i: int|
                            0 <= i < merged.len() && (#[trigger] merged@[i]).0 <= x < merged@[i].1;
                        if i < at {
                            assert(before[i] == merged@[i]);
                        } else if x < last.1 {
                            assert(before[at].0 <= x < before[at].1);
                        }
                    }
                    if intervals_cover(before, x) {
                        let i = choose|i: int|
                            0 <= i < before.len() && (#[trigger] before[i]).0 <= x < before[i].1;
                        assert(merged@[i].0 <= x < merged@[i].1);
                    }
                    if left <= x < right {
                        assert(merged@[at].0 <= x < merged@[at].1);
                    }
                }
            }
        } else {
            merged.push((left, right));
            proof {
                assert(forall|i: int| 0 <= i < before.len() ==> merged[i] == before[i]);
                assert forall|x: int|
                    intervals_cover(merged@, x) <==> intervals_cover(before, x) || left <= x < right by {
                    if intervals_cover(merged@, x) {
                        let i = choose|i: int|
                            0 <= i < merged.len() && (#[trigger] merged@[i]).0 <= x < merged@[i].1;
                        if i < before.len() {
                            assert(before[i] == merged@[i]);
                        }
                    }
                    if intervals_cover(before, x) {
                        let i = choose|i: int|
                            0 <= i < before.len() && (#[trigger] before[i]).0 <= x < before[i].1;
                        assert(merged@[i].0 <= x < merged@[i].1);
                    }
                    if left <= x < right {
                        assert(merged@[before.len() as int] == (left, right));
                    }
                }
            }
        }
        proof {
            let shorter = intervals@.take(n as int);
            let longer = intervals@.take(n + 1);
            assert forall|x: int|
                intervals_cover(longer, x) <==> intervals_cover(shorter, x) || left <= x < right by {
                if intervals_cover(longer, x) {
                    let i = choose|i: int|
                        0 <= i < longer.len() && (#[trigger] longer[i]).0 <= x < longer[i].1;
                    if i < n {
                        assert(shorter[i] == longer[i]);
                    }
                }
                if intervals_cover(shorter, x) {
                    let i = choose|i: int|
                        0 <= i < shorter.len() && (#[trigger] shorter[i]).0 <= x < shorter[i].1;
                    assert(longer[i] == shorter[i]);
                }
                assert(longer[n as int] == (left, right));
            }
            assert forall|x: int|
                intervals_cover(merged@, x) <==> intervals_cover(longer, x) by {
                assert(intervals_cover(before, x) <==> intervals_cover(shorter, x));
            }
        }
        n += 1;
    }
    assert(intervals@.take(n as int) =~= intervals@);
    merged
}

/// The pixels of row `y` that the rectangles cover, as intervals with a gap between any two.
pub fn merged_intervals(rects: &[Rect], y: u32) -> (merged: Vec<(u32, u32)>)
    requires
        edges_fit(rects@),
    ensures
        separated(merged@),
        ordered_ends(merged@),
        forall|x: int| intervals_cover(merged@, x) <==> some_rect_covers(rects@, x, y as int),
        positive_widths(rects@) ==> all_nonempty(merged@),
{
    let intervals = row_intervals(rects, y);
    merge_sorted(&intervals)
}

} // verus!
