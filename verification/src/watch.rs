//! The watched pixels of a screen-change wait, and the comparison of frames over them.
use vstd::prelude::*;

use crate::frame::{CapturedFrame, FrameView};
use crate::intervals::{
    all_nonempty, edges_fit, intervals_cover, merged_intervals, ordered_ends, positive_widths,
    separated,
};
use crate::protocol::{some_rect_covers, Rect, Viewport};

verus! {

/// The pixels of one row from `left` up to and without `right`.
#[derive(Debug, Clone, Copy, PartialEq, Eq, Structural)]
pub struct PixelSpan {
    pub y: u32,
    pub left: u32,
    pub right: u32,
}

/// The watched pixels, as spans in reading order.
#[derive(Debug)]
pub struct WatchMask {
    pub spans: Vec<PixelSpan>,
}

impl PixelSpan {
    /// Whether the pixel `(x, y)` lies in the span.
    pub open spec fn covers(self, x: int, y: int) -> bool {
        self.y == y && self.left <= x < self.right
    }
}

/// Whether some span of the list holds the pixel `(x, y)`.
pub open spec fn mask_covers(spans: Seq<PixelSpan>, x: int, y: int) -> bool {
    exists|i: int| 0 <= i < spans.len() && #[trigger] spans[i].covers(x, y)
}

/// Whether the spans are non-empty, disjoint and in reading order.
pub open spec fn in_reading_order(spans: Seq<PixelSpan>) -> bool {
    &&& forall|i: int| 0 <= i < spans.len() ==> (#[trigger] spans[i]).left < spans[i].right
    &&& forall|i: int, j: int|
        0 <= i < j < spans.len() ==> spans[i].y < spans[j].y || (spans[i].y == spans[j].y
            && spans[i].right <= spans[j].left)
}

/// Whether no two spans of one row touch.
pub open spec fn spans_apart(spans: Seq<PixelSpan>) -> bool {
    forall|i: int, j: int|
        0 <= i < j < spans.len() && spans[i].y == spans[j].y ==> spans[i].right < spans[j].left
}

/// Whether the pixel `(x, y)` is watched: some rectangle covers it and no exclusion does.
pub open spec fn watched(included: Seq<Rect>, excluded: Seq<Rect>, x: int, y: int) -> bool {
    some_rect_covers(included, x, y) && !some_rect_covers(excluded, x, y)
}

proof fn pushed_span_covers(spans: Seq<PixelSpan>, span: PixelSpan, x: int, y: int)
    ensures
        mask_covers(spans.push(span), x, y) <==> mask_covers(spans, x, y) || span.covers(x, y),
{
    let longer = spans.push(span);
    if mask_covers(longer, x, y) {
        let i = choose|i: int| 0 <= i < longer.len() && #[trigger] longer[i].covers(x, y);
        if i < spans.len() {
            assert(spans[i].covers(x, y));
        }
    }
    if mask_covers(spans, x, y) {
        let i = choose|i: int| 0 <= i < spans.len() && #[trigger] spans[i].covers(x, y);
        assert(longer[i].covers(x, y));
    }
    if span.covers(x, y) {
        assert(longer[spans.len() as int].covers(x, y));
    }
}

/// Append the spans of one watched interval of row `y` without its ignored pixels.
fn carve_interval(
    spans: &mut Vec<PixelSpan>,
    y: u32,
    left: u32,
    right: u32,
    ignored: &Vec<(u32, u32)>,
)
    requires
        left <= right,
        separated(ignored@),
        ordered_ends(ignored@),
        in_reading_order(old(spans)@),
        forall|i: int| 0 <= i < old(spans).len() ==> (#[trigger] old(spans)[i]).y <= y,
        forall|i: int|
            0 <= i < old(spans).len() && (#[trigger] old(spans)[i]).y == y ==> old(spans)[i].right
                < left,
    ensures
        in_reading_order(final(spans)@),
        all_nonempty(ignored@) && spans_apart(old(spans)@) ==> spans_apart(final(spans)@),
        forall|i: int| 0 <= i < final(spans).len() ==> (#[trigger] final(spans)[i]).y <= y,
        forall|i: int|
            0 <= i < final(spans).len() && (#[trigger] final(spans)[i]).y == y
                ==> final(spans)[i].right <= right,
        forall|x: int, row: int|
            mask_covers(final(spans)@, x, row) <==> mask_covers(old(spans)@, x, row) || (row == y
                && left <= x < right && !intervals_cover(ignored@, x)),
{
    let ghost before = spans@;
    let mut cursor: u32 = left;
    let mut open: bool = true;
    let mut k: usize = 0;
    while open && k < ignored.len()
        invariant
            k <= ignored.len(),
            left <= cursor,
            separated(ignored@),
            ordered_ends(ignored@),
            in_reading_order(spans@),
            all_nonempty(ignored@) && spans_apart(before) ==> spans_apart(spans@),
            forall|i: int| 0 <= i < spans.len() ==> (#[trigger] spans[i]).y <= y,
            forall|i: int|
                0 <= i < spans.len() && (#[trigger] spans[i]).y == y ==> spans[i].right <= cursor
                    && (spans[i].right < left || spans[i].right <= right) && (all_nonempty(
                    ignored@,
                ) ==> spans[i].right < cursor),
            forall|j: int| 0 <= j < k ==> (#[trigger] ignored[j]).1 <= cursor,
            !open ==> forall|x: int| cursor <= x < right ==> !intervals_cover(ignored@, x),
            forall|x: int, row: int|
                #![trigger mask_covers(spans@, x, row)]
                mask_covers(spans@, x, row) <==> mask_covers(before, x, row) || (row == y && left
                    <= x < cursor && x < right && !intervals_cover(ignored@, x)),
        decreases ignored.len() - k + (if open { 1int } else { 0 }),
    {
        let (excluded_left, excluded_right) = ignored[k];
        if excluded_right <= cursor {
            k += 1;
        } else if excluded_left >= right {
            open = false;
            assert forall|x: int| cursor <= x < right implies !intervals_cover(ignored@, x) by {
                if intervals_cover(ignored@, x) {
                    let j = choose|j: int|
                        0 <= j < ignored.len() && (#[trigger] ignored@[j]).0 <= x < ignored@[j].1;
                    assert(ignored@[j] == ignored[j]);
                    assert(ignored@[k as int].0 >= right);
                }
            }
        } else {
            assert(forall|x: int| excluded_left <= x < excluded_right ==> intervals_cover(ignored@, x)) by {
                assert forall|x: int| excluded_left <= x < excluded_right implies intervals_cover(
                    ignored@,
                    x,
                ) by {
                    assert(ignored@[k as int].0 <= x < ignored@[k as int].1);
                }
            }
            assert forall|x: int| cursor <= x < excluded_left implies !intervals_cover(ignored@, x) by {
                if intervals_cover(ignored@, x) {
                    let j = choose|j: int|
                        0 <= j < ignored.len() && (#[trigger] ignored@[j]).0 <= x < ignored@[j].1;
                    assert(ignored@[j] == ignored[j]);
                    assert(ignored@[k as int].0 == excluded_left);
                }
            }
            let ghost earlier = spans@;
            let ghost earlier_cursor = cursor;
            if excluded_left > cursor {
                spans.push(PixelSpan { y, left: cursor, right: excluded_left });
            }
            cursor = excluded_right;
            assert forall|x: int, row: int|
                #![trigger mask_covers(spans@, x, row)]
                mask_covers(spans@, x, row) <==> mask_covers(before, x, row) || (row == y && left
                    <= x < cursor && x < right && !intervals_cover(ignored@, x)) by {
                pushed_span_covers(
                    earlier,
                    PixelSpan { y, left: earlier_cursor, right: excluded_left },
                    x,
                    row,
                );
                assert(mask_covers(earlier, x, row) <==> mask_covers(before, x, row) || (row == y
                    && left <= x < earlier_cursor && x < right && !intervals_cover(ignored@, x)));
            }
            k += 1;
            if cursor >= right {
                open = false;
            }
        }
    }
    assert forall|x: int| cursor <= x < right implies !intervals_cover(ignored@, x) by {
        if open && intervals_cover(ignored@, x) {
            let j = choose|j: int|
                0 <= j < ignored.len() && (#[trigger] ignored@[j]).0 <= x < ignored@[j].1;
            assert(ignored@[j] == ignored[j]);
        }
    }
    let ghost earlier = spans@;
    if cursor < right {
        spans.push(PixelSpan { y, left: cursor, right });
    }
    assert forall|x: int, row: int|
        mask_covers(spans@, x, row) <==> mask_covers(before, x, row) || (row == y && left <= x
            < right && !intervals_cover(ignored@, x)) by {
        pushed_span_covers(earlier, PixelSpan { y, left: cursor, right }, x, row);
        assert(mask_covers(earlier, x, row) <==> mask_covers(before, x, row) || (row == y && left
            <= x < cursor && x < right && !intervals_cover(ignored@, x)));
    }
}

proof fn prefix_of_intervals(intervals: Seq<(u32, u32)>, m: int, x: int)
    requires
        0 <= m < intervals.len(),
    ensures
        intervals_cover(intervals.take(m + 1), x) <==> intervals_cover(intervals.take(m), x) || (
        intervals[m].0 <= x < intervals[m].1),
{
    let shorter = intervals.take(m);
    let longer = intervals.take(m + 1);
    if intervals_cover(longer, x) {
        let i = choose|i: int| 0 <= i < longer.len() && (#[trigger] longer[i]).0 <= x < longer[i].1;
        if i < m {
            assert(shorter[i] == longer[i]);
        }
    }
    if intervals_cover(shorter, x) {
        let i = choose|i: int|
            0 <= i < shorter.len() && (#[trigger] shorter[i]).0 <= x < shorter[i].1;
        assert(longer[i] == shorter[i]);
    }
    assert(longer[m] == intervals[m]);
}

/// Append the spans of row `y`.
fn append_row(spans: &mut Vec<PixelSpan>, y: u32, included: &[Rect], excluded: &[Rect])
    requires
        edges_fit(included@),
        edges_fit(excluded@),
        in_reading_order(old(spans)@),
        forall|i: int| 0 <= i < old(spans).len() ==> (#[trigger] old(spans)[i]).y < y,
    ensures
        in_reading_order(final(spans)@),
        positive_widths(excluded@) && spans_apart(old(spans)@) ==> spans_apart(final(spans)@),
        forall|i: int| 0 <= i < final(spans).len() ==> (#[trigger] final(spans)[i]).y <= y,
        forall|x: int, row: int|
            mask_covers(final(spans)@, x, row) <==> mask_covers(old(spans)@, x, row) || (row == y
                && watched(included@, excluded@, x, row)),
{
    let ghost before = spans@;
    let watched_intervals = merged_intervals(included, y);
    let ignored = merged_intervals(excluded, y);
    assert(!mask_covers(before, 0, y as int));
    let mut m: usize = 0;
    assert(forall|x: int| !intervals_cover(watched_intervals@.take(0), x));
    while m < watched_intervals.len()
        invariant
            m <= watched_intervals.len(),
            separated(watched_intervals@),
            ordered_ends(watched_intervals@),
            separated(ignored@),
            ordered_ends(ignored@),
            in_reading_order(spans@),
            all_nonempty(ignored@) && spans_apart(before) ==> spans_apart(spans@),
            forall|i: int| 0 <= i < spans.len() ==> (#[trigger] spans[i]).y <= y,
            forall|i: int|
                0 <= i < spans.len() && (#[trigger] spans[i]).y == y ==> m > 0 && spans[i].right
                    <= watched_intervals[m - 1].1,
            forall|x: int, row: int|
                #![trigger mask_covers(spans@, x, row)]
                mask_covers(spans@, x, row) <==> mask_covers(before, x, row) || (row == y
                    && intervals_cover(watched_intervals@.take(m as int), x) && !intervals_cover(
                    ignored@,
                    x,
                )),
        decreases watched_intervals.len() - m,
    {
        let (left, right) = watched_intervals[m];
        let ghost earlier = spans@;
        carve_interval(spans, y, left, right, &ignored);
        assert forall|x: int, row: int|
            #![trigger mask_covers(spans@, x, row)]
            mask_covers(spans@, x, row) <==> mask_covers(before, x, row) || (row == y
                && intervals_cover(watched_intervals@.take(m + 1), x) && !intervals_cover(
                ignored@,
                x,
            )) by {
            prefix_of_intervals(watched_intervals@, m as int, x);
            assert(mask_covers(earlier, x, row) <==> mask_covers(before, x, row) || (row == y
                && intervals_cover(watched_intervals@.take(m as int), x) && !intervals_cover(
                ignored@,
                x,
            )));
        }
        m += 1;
    }
    assert(watched_intervals@.take(m as int) =~= watched_intervals@);
    assert forall|x: int, row: int|
        mask_covers(spans@, x, row) <==> mask_covers(before, x, row) || (row == y && watched(
            included@,
            excluded@,
            x,
            row,
        )) by {
        assert(intervals_cover(watched_intervals@, x) <==> some_rect_covers(
            included@,
            x,
            y as int,
        ));
        assert(intervals_cover(ignored@, x) <==> some_rect_covers(excluded@, x, y as int));
    }
}

impl WatchMask {
    /// The pixels of the viewport's rows that some included rectangle covers and no excluded
    /// one does.
    pub fn new(viewport: Viewport, included: &[Rect], excluded: &[Rect]) -> (mask: Self)
        requires
            edges_fit(included@),
            edges_fit(excluded@),
        ensures
            in_reading_order(mask.spans@),
            positive_widths(excluded@) ==> spans_apart(mask.spans@),
            forall|x: int, y: int|
                mask_covers(mask.spans@, x, y) <==> 0 <= y < viewport.height && watched(
                    included@,
                    excluded@,
                    x,
                    y,
                ),
    {
        let mut spans: Vec<PixelSpan> = Vec::new();
        let mut y: u32 = 0;
        while y < viewport.height
            invariant
                y <= viewport.height,
                edges_fit(included@),
                edges_fit(excluded@),
                in_reading_order(spans@),
                positive_widths(excluded@) ==> spans_apart(spans@),
                forall|i: int| 0 <= i < spans.len() ==> (#[trigger] spans[i]).y < y,
                forall|x: int, row: int|
                    mask_covers(spans@, x, row) <==> 0 <= row < y && watched(
                        included@,
                        excluded@,
                        x,
                        row,
                    ),
            decreases viewport.height - y,
        {
            append_row(&mut spans, y, included, excluded);
            y += 1;
        }
        WatchMask { spans }
    }
}

/// Whether every span lies in a frame of the given dimensions.
pub open spec fn spans_within(spans: Seq<PixelSpan>, width: u32, height: u32) -> bool {
    forall|i: int|
        0 <= i < spans.len() ==> (#[trigger] spans[i]).y < height && spans[i].right <= width
}

/// Whether the pixel `(x, y)` differs between two frames.
pub open spec fn pixels_differ(first: FrameView, second: FrameView, x: int, y: int) -> bool {
    first.pixel(x, y) != second.pixel(x, y)
}

/// Whether a watched pixel differs between two frames.
pub open spec fn pixel_changed(
    first: FrameView,
    second: FrameView,
    spans: Seq<PixelSpan>,
    x: int,
    y: int,
) -> bool {
    mask_covers(spans, x, y) && pixels_differ(first, second, x, y)
}

/// Whether some watched pixel differs between two frames.
pub open spec fn some_pixel_changed(
    first: FrameView,
    second: FrameView,
    spans: Seq<PixelSpan>,
) -> bool {
    exists|x: int, y: int| pixel_changed(first, second, spans, x, y)
}

/// Whether some watched pixel of column `x` differs between two frames.
pub open spec fn column_changed(
    first: FrameView,
    second: FrameView,
    spans: Seq<PixelSpan>,
    x: int,
) -> bool {
    exists|y: int| pixel_changed(first, second, spans, x, y)
}

/// Whether some watched pixel of row `y` differs between two frames.
pub open spec fn row_changed(
    first: FrameView,
    second: FrameView,
    spans: Seq<PixelSpan>,
    y: int,
) -> bool {
    exists|x: int| pixel_changed(first, second, spans, x, y)
}

/// Whether `bounds` is the smallest rectangle that covers every changed watched pixel:
/// it covers them all, and each of its four edges meets one.
pub open spec fn bounds_changes(
    first: FrameView,
    second: FrameView,
    spans: Seq<PixelSpan>,
    bounds: Rect,
) -> bool {
    &&& forall|x: int, y: int|
        pixel_changed(first, second, spans, x, y) ==> bounds.covers(x, y)
    &&& column_changed(first, second, spans, bounds.x as int)
    &&& column_changed(first, second, spans, bounds.x + bounds.width - 1)
    &&& row_changed(first, second, spans, bounds.y as int)
    &&& row_changed(first, second, spans, bounds.y + bounds.height - 1)
}

/// The smallest rectangle that covers every changed watched pixel, if one changed.
pub open spec fn changed_bounds(
    first: FrameView,
    second: FrameView,
    spans: Seq<PixelSpan>,
) -> Option<Rect> {
    if some_pixel_changed(first, second, spans) {
        Some(choose|bounds: Rect| bounds_changes(first, second, spans, bounds))
    } else {
        None
    }
}

proof fn column_in_bounds(
    first: FrameView,
    second: FrameView,
    spans: Seq<PixelSpan>,
    x: int,
    bounds: Rect,
)
    requires
        column_changed(first, second, spans, x),
        bounds_changes(first, second, spans, bounds),
    ensures
        bounds.x <= x < bounds.x + bounds.width,
{
    let y = choose|y: int| pixel_changed(first, second, spans, x, y);
    assert(bounds.covers(x, y));
}

proof fn row_in_bounds(
    first: FrameView,
    second: FrameView,
    spans: Seq<PixelSpan>,
    y: int,
    bounds: Rect,
)
    requires
        row_changed(first, second, spans, y),
        bounds_changes(first, second, spans, bounds),
    ensures
        bounds.y <= y < bounds.y + bounds.height,
{
    let x = choose|x: int| pixel_changed(first, second, spans, x, y);
    assert(bounds.covers(x, y));
}

/// The smallest rectangle that covers the changed watched pixels is unique.
pub proof fn change_bounds_are_unique(
    first: FrameView,
    second: FrameView,
    spans: Seq<PixelSpan>,
    bounds: Rect,
    other: Rect,
)
    requires
        bounds_changes(first, second, spans, bounds),
        bounds_changes(first, second, spans, other),
    ensures
        bounds == other,
{
    column_in_bounds(first, second, spans, bounds.x as int, other);
    column_in_bounds(first, second, spans, bounds.x + bounds.width - 1, other);
    row_in_bounds(first, second, spans, bounds.y as int, other);
    row_in_bounds(first, second, spans, bounds.y + bounds.height - 1, other);
    column_in_bounds(first, second, spans, other.x as int, bounds);
    column_in_bounds(first, second, spans, other.x + other.width - 1, bounds);
    row_in_bounds(first, second, spans, other.y as int, bounds);
    row_in_bounds(first, second, spans, other.y + other.height - 1, bounds);
}

proof fn least_in_range(p: spec_fn(int) -> bool, low: int, high: int) -> (least: int)
    requires
        low <= high,
        p(high),
    ensures
        low <= least <= high,
        p(least),
        forall|i: int| low <= i < least ==> !#[trigger] p(i),
    decreases high - low,
{
    if p(low) {
        low
    } else {
        least_in_range(p, low + 1, high)
    }
}

proof fn greatest_in_range(p: spec_fn(int) -> bool, low: int, high: int) -> (greatest: int)
    requires
        low <= high,
        p(low),
    ensures
        low <= greatest <= high,
        p(greatest),
        forall|i: int| greatest < i <= high ==> !#[trigger] p(i),
    decreases high - low,
{
    if p(high) {
        high
    } else {
        greatest_in_range(p, low, high - 1)
    }
}

/// Where the watched pixels lie in a viewport and one of them changed, the changed ones have a
/// smallest covering rectangle, and it lies in the viewport.
pub proof fn changes_have_bounds(
    first: FrameView,
    second: FrameView,
    spans: Seq<PixelSpan>,
    viewport: Viewport,
)
    requires
        spans_within(spans, viewport.width, viewport.height),
    ensures
        changed_bounds(first, second, spans) matches Some(bounds) ==> bounds_changes(
            first,
            second,
            spans,
            bounds,
        ) && bounds.fits(viewport),
{
    if some_pixel_changed(first, second, spans) {
        let (x, y) = choose|x: int, y: int| pixel_changed(first, second, spans, x, y);
        changed_pixel_in_viewport(first, second, spans, viewport, x, y);
        let column = |x: int| column_changed(first, second, spans, x);
        let row = |y: int| row_changed(first, second, spans, y);
        assert(column(x) && row(y));
        let left = least_in_range(column, 0, x);
        let right = greatest_in_range(column, x, viewport.width - 1);
        let top = least_in_range(row, 0, y);
        let bottom = greatest_in_range(row, y, viewport.height - 1);
        let bounds = Rect {
            x: left as u32,
            y: top as u32,
            width: (right - left + 1) as u32,
            height: (bottom - top + 1) as u32,
        };
        assert forall|x: int, y: int| pixel_changed(first, second, spans, x, y) implies bounds
            .covers(x, y) by {
            changed_pixel_in_viewport(first, second, spans, viewport, x, y);
            assert(column(x) && row(y));
        }
        assert(bounds_changes(first, second, spans, bounds));
        let chosen = choose|bounds: Rect| bounds_changes(first, second, spans, bounds);
        change_bounds_are_unique(first, second, spans, bounds, chosen);
    }
}

proof fn changed_pixel_in_viewport(
    first: FrameView,
    second: FrameView,
    spans: Seq<PixelSpan>,
    viewport: Viewport,
    x: int,
    y: int,
)
    requires
        spans_within(spans, viewport.width, viewport.height),
        pixel_changed(first, second, spans, x, y),
    ensures
        0 <= x < viewport.width,
        0 <= y < viewport.height,
{
    let i = choose|i: int| 0 <= i < spans.len() && #[trigger] spans[i].covers(x, y);
    assert(spans[i].y < viewport.height);
}

proof fn offset_in_bounds(width: int, height: int, x: int, y: int)
    requires
        0 <= x < width,
        0 <= y < height,
    ensures
        0 <= (y * width + x) * 3,
        (y * width + x) * 3 + 3 <= width * height * 3,
        0 <= y * width <= width * height,
        y * width + x < width * height,
{
    assert(0 <= y * width && y * width + width <= width * height) by (nonlinear_arith)
        requires
            0 <= x < width,
            0 <= y < height,
    ;
}

/// The offset of the first byte of the pixel `(x, y)`.
pub fn pixel_offset(frame: &CapturedFrame, x: u32, y: u32) -> (offset: usize)
    requires
        frame@.valid(),
        x < frame.width,
        y < frame.height,
    ensures
        offset == (y * frame.width + x) * 3,
        offset + 3 <= frame.pixels.len(),
{
    proof {
        offset_in_bounds(frame.width as int, frame.height as int, x as int, y as int);
    }
    assert(frame.pixels.len() == frame.width * frame.height * 3);
    assert(0 <= y * frame.width <= frame.width * frame.height);
    assert(y * frame.width + x < frame.width * frame.height);
    (y as usize * frame.width as usize + x as usize) * 3
}

/// Whether the pixel `(x, y)` is the same in both frames.
fn same_pixel(first: &CapturedFrame, second: &CapturedFrame, x: u32, y: u32) -> (same: bool)
    requires
        first@.valid(),
        second@.valid(),
        first.width == second.width,
        first.height == second.height,
        x < first.width,
        y < first.height,
    ensures
        same == !pixels_differ(first@, second@, x as int, y as int),
{
    let at: usize = pixel_offset(first, x, y);
    assert(first.pixels.len() == second.pixels.len());
    first.pixels[at] == second.pixels[at] && first.pixels[at + 1] == second.pixels[at + 1]
        && first.pixels[at + 2] == second.pixels[at + 2]
}

/// Whether one of the first `row` spans, or the part of span `row` left of `column`, holds
/// a pixel.
spec fn scanned(spans: Seq<PixelSpan>, row: int, column: int, x: int, y: int) -> bool {
    mask_covers(spans.take(row), x, y) || (0 <= row < spans.len() && spans[row].covers(x, y) && x
        < column)
}

proof fn scan_finishes_span(spans: Seq<PixelSpan>, row: int, x: int, y: int)
    requires
        0 <= row < spans.len(),
    ensures
        mask_covers(spans.take(row + 1), x, y) <==> scanned(
            spans,
            row,
            spans[row].right as int,
            x,
            y,
        ),
{
    let shorter = spans.take(row);
    let longer = spans.take(row + 1);
    assert(longer =~= shorter.push(spans[row]));
    pushed_span_covers(shorter, spans[row], x, y);
}

/// The smallest rectangle that covers the watched pixels in which two frames differ.
pub fn compare_masked(
    first: &CapturedFrame,
    second: &CapturedFrame,
    mask: &WatchMask,
) -> (bounds: Option<Rect>)
    requires
        first@.valid(),
        second@.valid(),
        first.width == second.width,
        first.height == second.height,
        spans_within(mask.spans@, first.width, first.height),
    ensures
        bounds == changed_bounds(first@, second@, mask.spans@),
        bounds matches Some(rect) ==> rect.fits(first@.viewport()),
{
    let mut changed: bool = false;
    let mut min_x: u32 = u32::MAX;
    let mut min_y: u32 = u32::MAX;
    let mut max_x: u32 = 0;
    let mut max_y: u32 = 0;
    let ghost mut left: int = 0;
    let ghost mut right: int = 0;
    let ghost mut top: int = 0;
    let ghost mut bottom: int = 0;
    let ghost spans = mask.spans@;
    let mut row: usize = 0;
    while row < mask.spans.len()
        invariant
            row <= mask.spans.len(),
            spans == mask.spans@,
            first@.valid(),
            second@.valid(),
            first.width == second.width,
            first.height == second.height,
            spans_within(spans, first.width, first.height),
            forall|x: int, y: int|
                #![trigger mask_covers(spans.take(row as int), x, y)]
                mask_covers(spans.take(row as int), x, y) && pixels_differ(first@, second@, x, y) ==> changed && min_x <= x
                    <= max_x && min_y <= y <= max_y,
            !changed ==> min_x == u32::MAX && min_y == u32::MAX && max_x == 0 && max_y == 0,
            changed ==> {
                &&& max_x < first.width
                &&& max_y < first.height
                &&& min_x <= max_x
                &&& min_y <= max_y
                &&& mask_covers(spans.take(row as int), min_x as int, left) && pixels_differ(first@, second@, min_x as int,
                    left,
                )
                &&& mask_covers(spans.take(row as int), max_x as int, right) && pixels_differ(first@, second@, max_x as int,
                    right,
                )
                &&& mask_covers(spans.take(row as int), top, min_y as int) && pixels_differ(first@, second@, top,
                    min_y as int,
                )
                &&& mask_covers(spans.take(row as int), bottom, max_y as int) && pixels_differ(first@, second@, bottom,
                    max_y as int,
                )
            },
        decreases mask.spans.len() - row,
    {
        let span = mask.spans[row];
        assert(spans[row as int] == span);
        let mut x: u32 = span.left;
        while x < span.right
            invariant
                row < mask.spans.len(),
                spans == mask.spans@,
                spans[row as int] == span,
                span.left <= x,
                span.left <= span.right ==> x <= span.right,
                first@.valid(),
                second@.valid(),
                first.width == second.width,
                first.height == second.height,
                spans_within(spans, first.width, first.height),
                forall|cx: int, cy: int|
                    #![trigger scanned(spans, row as int, x as int, cx, cy)]
                    scanned(spans, row as int, x as int, cx, cy) && pixels_differ(first@, second@, cx, cy) ==> changed
                        && min_x <= cx <= max_x && min_y <= cy <= max_y,
                !changed ==> min_x == u32::MAX && min_y == u32::MAX && max_x == 0 && max_y == 0,
                changed ==> {
                    &&& max_x < first.width
                    &&& max_y < first.height
                    &&& min_x <= max_x
                    &&& min_y <= max_y
                    &&& scanned(spans, row as int, x as int, min_x as int, left) && pixels_differ(first@, second@, min_x as int,
                        left,
                    )
                    &&& scanned(spans, row as int, x as int, max_x as int, right) && pixels_differ(first@, second@, max_x as int,
                        right,
                    )
                    &&& scanned(spans, row as int, x as int, top, min_y as int) && pixels_differ(first@, second@, top,
                        min_y as int,
                    )
                    &&& scanned(spans, row as int, x as int, bottom, max_y as int) && pixels_differ(first@, second@, bottom,
                        max_y as int,
                    )
                },
            decreases span.right - x,
        {
            let ghost before_x = x as int;
            if !same_pixel(first, second, x, span.y) {
                changed = true;
                if x < min_x {
                    min_x = x;
                    proof {
                        left = span.y as int;
                    }
                }
                if span.y < min_y {
                    min_y = span.y;
                    proof {
                        top = x as int;
                    }
                }
                if x >= max_x {
                    max_x = x;
                    proof {
                        right = span.y as int;
                    }
                }
                if span.y >= max_y {
                    max_y = span.y;
                    proof {
                        bottom = x as int;
                    }
                }
            }
            x += 1;
            assert forall|cx: int, cy: int|
                #![trigger scanned(spans, row as int, x as int, cx, cy)]
                scanned(spans, row as int, x as int, cx, cy) && pixels_differ(first@, second@, cx, cy) implies changed
                && min_x <= cx <= max_x && min_y <= cy <= max_y by {
                assert(scanned(spans, row as int, before_x, cx, cy) || (cx == before_x && cy
                    == span.y));
            }
        }
        proof {
            assert forall|cx: int, cy: int|
                #![trigger mask_covers(spans.take(row + 1), cx, cy)]
                mask_covers(spans.take(row + 1), cx, cy) && pixels_differ(first@, second@, cx, cy) implies changed && min_x
                <= cx <= max_x && min_y <= cy <= max_y by {
                scan_finishes_span(spans, row as int, cx, cy);
                assert(scanned(spans, row as int, x as int, cx, cy));
            }
            if changed {
                scan_finishes_span(spans, row as int, min_x as int, left);
                scan_finishes_span(spans, row as int, max_x as int, right);
                scan_finishes_span(spans, row as int, top, min_y as int);
                scan_finishes_span(spans, row as int, bottom, max_y as int);
            }
        }
        row += 1;
    }
    assert(spans.take(row as int) =~= spans);
    if changed {
        let rect = Rect {
            x: min_x,
            y: min_y,
            width: max_x - min_x + 1,
            height: max_y - min_y + 1,
        };
        proof {
            assert(pixel_changed(first@, second@, spans, min_x as int, left));
            assert(pixel_changed(first@, second@, spans, max_x as int, right));
            assert(pixel_changed(first@, second@, spans, top, min_y as int));
            assert(pixel_changed(first@, second@, spans, bottom, max_y as int));
            assert forall|x: int, y: int| pixel_changed(first@, second@, spans, x, y) implies rect
                .covers(x, y) by {
                assert(mask_covers(spans.take(row as int), x, y) && pixels_differ(first@, second@, x, y));
            }
            assert(bounds_changes(first@, second@, spans, rect));
            let chosen = choose|bounds: Rect| bounds_changes(first@, second@, spans, bounds);
            change_bounds_are_unique(first@, second@, spans, rect, chosen);
        }
        Some(rect)
    } else {
        assert forall|x: int, y: int| !pixel_changed(first@, second@, spans, x, y) by {
            if pixel_changed(first@, second@, spans, x, y) {
                assert(mask_covers(spans.take(row as int), x, y) && pixels_differ(first@, second@, x, y));
            }
        }
        None
    }
}

/// Whether the spans hold exactly the watched pixels of a viewport, in reading order and with
/// a gap between any two of one row.
pub open spec fn masks(
    spans: Seq<PixelSpan>,
    viewport: Viewport,
    included: Seq<Rect>,
    excluded: Seq<Rect>,
) -> bool {
    &&& in_reading_order(spans)
    &&& spans_apart(spans)
    &&& forall|x: int, y: int|
        mask_covers(spans, x, y) <==> 0 <= y < viewport.height && watched(included, excluded, x, y)
}

/// Whether the exclusions leave no pixel of the included rectangles in the viewport.
pub open spec fn nothing_watched(
    viewport: Viewport,
    included: Seq<Rect>,
    excluded: Seq<Rect>,
) -> bool {
    forall|x: int, y: int| 0 <= y < viewport.height ==> !watched(included, excluded, x, y)
}

/// A mask of rectangles that fit the viewport lies in it, and is empty exactly when nothing is
/// watched.
pub proof fn mask_lies_within(
    spans: Seq<PixelSpan>,
    viewport: Viewport,
    included: Seq<Rect>,
    excluded: Seq<Rect>,
)
    requires
        masks(spans, viewport, included, excluded),
        forall|i: int| 0 <= i < included.len() ==> (#[trigger] included[i]).fits(viewport),
    ensures
        spans_within(spans, viewport.width, viewport.height),
        spans.len() == 0 <==> nothing_watched(viewport, included, excluded),
{
    assert forall|i: int| 0 <= i < spans.len() implies (#[trigger] spans[i]).y < viewport.height
        && spans[i].right <= viewport.width && !nothing_watched(viewport, included, excluded) by {
        let span = spans[i];
        assert(span.covers(span.right - 1, span.y as int));
        assert(mask_covers(spans, span.right - 1, span.y as int));
        assert(watched(included, excluded, span.right - 1, span.y as int));
        let k = choose|k: int|
            0 <= k < included.len() && #[trigger] included[k].covers(
                span.right - 1,
                span.y as int,
            );
        assert(included[k].fits(viewport));
    }
    if spans.len() == 0 {
        assert forall|x: int, y: int| 0 <= y < viewport.height implies !watched(
            included,
            excluded,
            x,
            y,
        ) by {
            assert(!mask_covers(spans, x, y));
        }
    } else {
        assert(spans[0].y < viewport.height);
    }
}

/// Whether two frames show the same watched pixels.
pub open spec fn same_watched(first: FrameView, second: FrameView, spans: Seq<PixelSpan>) -> bool {
    forall|x: int, y: int| #[trigger]
        mask_covers(spans, x, y) ==> first.pixel(x, y) == second.pixel(x, y)
}

/// What changed between two frames depends on their watched pixels alone.
pub proof fn changes_depend_on_watched_pixels(
    first: FrameView,
    second: FrameView,
    other_first: FrameView,
    other_second: FrameView,
    spans: Seq<PixelSpan>,
    viewport: Viewport,
)
    requires
        spans_within(spans, viewport.width, viewport.height),
        same_watched(first, other_first, spans),
        same_watched(second, other_second, spans),
    ensures
        changed_bounds(first, second, spans) == changed_bounds(other_first, other_second, spans),
{
    assert forall|x: int, y: int|
        pixel_changed(first, second, spans, x, y) == pixel_changed(
            other_first,
            other_second,
            spans,
            x,
            y,
        ) by {
        assert(mask_covers(spans, x, y) == mask_covers(spans, x, y));
    }
    changes_have_bounds(first, second, spans, viewport);
    changes_have_bounds(other_first, other_second, spans, viewport);
    if some_pixel_changed(first, second, spans) {
        let (x, y) = choose|x: int, y: int| pixel_changed(first, second, spans, x, y);
        assert(pixel_changed(other_first, other_second, spans, x, y));
        let bounds = changed_bounds(other_first, other_second, spans)->0;
        assert forall|x: int| column_changed(other_first, other_second, spans, x) implies
            column_changed(first, second, spans, x) by {
            let y = choose|y: int| pixel_changed(other_first, other_second, spans, x, y);
            assert(pixel_changed(first, second, spans, x, y));
        }
        assert forall|y: int| row_changed(other_first, other_second, spans, y) implies row_changed(
            first,
            second,
            spans,
            y,
        ) by {
            let x = choose|x: int| pixel_changed(other_first, other_second, spans, x, y);
            assert(pixel_changed(first, second, spans, x, y));
        }
        assert(bounds_changes(first, second, spans, bounds));
        change_bounds_are_unique(
            first,
            second,
            spans,
            bounds,
            changed_bounds(first, second, spans)->0,
        );
    } else if some_pixel_changed(other_first, other_second, spans) {
        let (x, y) = choose|x: int, y: int| pixel_changed(other_first, other_second, spans, x, y);
        assert(pixel_changed(first, second, spans, x, y));
    }
}

} // verus!
