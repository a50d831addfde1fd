use cu::protocol::{Rect, Viewport};
use cu::watch::WatchMask;

#[test]
fn watch_mask_merges_overlapping_includes_and_carves_multiple_exclusions() {
    let mask = WatchMask::new(
        Viewport { width: 8, height: 3 },
        &[
            Rect { x: 1, y: 0, width: 4, height: 2 },
            Rect { x: 3, y: 1, width: 4, height: 2 },
        ],
        &[
            Rect { x: 2, y: 0, width: 2, height: 3 },
            Rect { x: 6, y: 1, width: 1, height: 2 },
        ],
    );

    let spans = mask
        .spans
        .iter()
        .map(|span| (span.y, span.left, span.right))
        .collect::<Vec<_>>();
    assert_eq!(
        spans,
        vec![(0, 1, 2), (0, 4, 5), (1, 1, 2), (1, 4, 6), (2, 4, 6),]
    );
}
