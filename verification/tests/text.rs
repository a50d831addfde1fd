use cu::intervals::merged_intervals;
use cu::protocol::{serde_variant_name, CuError, ErrorCode, Rect, Viewport};
use cu::text::{
    chars_of, is_hex_width, push_decimal, push_hex, push_signed_decimal, same_text, text_of,
};
use cu::wait::{elapsed_millis, union_rects};

fn rect(x: u32, y: u32, width: u32, height: u32) -> Rect {
    Rect { x, y, width, height }
}

#[test]
fn numbers_are_written_in_full() {
    for n in [0, 7, 10, 42, 1_000, u64::MAX] {
        let mut text = "n=".to_owned();
        push_decimal(&mut text, n);
        assert_eq!(text, format!("n={n}"));
    }
    for n in [0, -1, 5, i64::MIN, i64::MAX] {
        let mut text = String::new();
        push_signed_decimal(&mut text, n);
        assert_eq!(text, n.to_string());
    }
    let mut text = String::new();
    push_hex(&mut text, 0xbeef, 16);
    assert_eq!(text, "000000000000beef");
}

#[test]
fn texts_are_sequences_of_characters() {
    let chars = chars_of("aé空b");
    assert_eq!(chars, ['a', 'é', '空', 'b']);
    assert_eq!(text_of(&chars, 1, 3), "é空");
    assert!(same_text("é", "\u{e9}") && !same_text("e", "é"));
    assert!(is_hex_width("00ff", 4));
    assert!(!is_hex_width("00fg", 4) && !is_hex_width("00f", 4));
}

#[test]
fn overlapping_intervals_are_merged() {
    let rects = [rect(5, 0, 5, 10), rect(0, 0, 3, 10), rect(8, 0, 4, 5), rect(3, 0, 1, 1)];
    assert_eq!(merged_intervals(&rects, 0), [(0, 4), (5, 12)]);
    assert_eq!(merged_intervals(&rects, 5), [(0, 3), (5, 10)]);
    assert_eq!(merged_intervals(&rects, 10), []);
}

#[test]
fn rectangles_unite_to_their_hull() {
    assert_eq!(
        union_rects(rect(10, 10, 5, 5), rect(0, 12, 4, 20)),
        rect(0, 10, 15, 22)
    );
    assert_eq!(elapsed_millis(1_000_000, 4_999_999), 3);
    assert_eq!(elapsed_millis(5, 1), 0);
}

#[test]
fn errors_carry_their_code_in_the_text() {
    let error = CuError::new(ErrorCode::ViewportChanged, "resized").with_executed(2).with_viewports(
        Viewport { width: 1, height: 2 },
        Viewport { width: 3, height: 4 },
    );
    assert_eq!(error.to_text(), "viewport_changed: resized");
    assert_eq!(error.executed, Some(2));
    assert_eq!(error.actual_viewport, Some(Viewport { width: 3, height: 4 }));
    assert_eq!(serde_variant_name(ErrorCode::StaleFrame), "stale_frame");
    assert_eq!(serde_variant_name(ErrorCode::Internal), "internal");
}
