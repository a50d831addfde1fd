use std::cell::{Cell, RefCell};
use std::time::Duration;

use cu::input::{
    drag_path, drag_step, finish_input, play_steps, timed_steps, with_held_button, DragOp, Next,
    PathMark, PlayOp, TimedPoint,
};
use cu::protocol::{CuError, ErrorCode, Point};

fn point(x: i32, y: i32) -> Point {
    Point { x, y }
}

fn ms(count: u64) -> u64 {
    count * 1_000_000
}

/// The time at which each segment of a path ends, in proportion to its length.
fn segment_ends(path: &[Point], duration_ms: u64) -> Vec<u64> {
    let duration = Duration::from_millis(duration_ms);
    let lengths: Vec<f64> = path
        .windows(2)
        .map(|pair| {
            let dx = f64::from(pair[1].x) - f64::from(pair[0].x);
            let dy = f64::from(pair[1].y) - f64::from(pair[0].y);
            dx.hypot(dy)
        })
        .collect();
    let total: f64 = lengths.iter().sum();
    let mut traversed = 0.0;
    lengths
        .into_iter()
        .map(|length| {
            traversed += length;
            let share: f64 = if total == 0.0 { 0.0 } else { traversed / total };
            duration.mul_f64(share.min(1.0)).as_nanos() as u64
        })
        .collect()
}

fn interpolate(from: Point, to: Point, fraction: f64) -> Point {
    let coordinate =
        |a: i32, b: i32| (f64::from(a) + (f64::from(b) - f64::from(a)) * fraction).round() as i32;
    point(coordinate(from.x, to.x), coordinate(from.y, to.y))
}

fn positions(path: &[Point], hold_ms: u64, duration_ms: u64) -> Vec<TimedPoint> {
    let ends = segment_ends(path, duration_ms);
    timed_steps(&path.to_vec(), hold_ms, duration_ms, &ends)
        .into_iter()
        .map(|step| TimedPoint {
            at: step.at,
            point: match step.mark {
                PathMark::Point { index } => path[index],
                PathMark::Between { index, elapsed, span } => {
                    let fraction = Duration::from_nanos(elapsed).as_secs_f64()
                        / Duration::from_nanos(span).as_secs_f64();
                    interpolate(path[index], path[index + 1], fraction)
                }
            },
        })
        .collect()
}

fn play(
    steps: Vec<TimedPoint>,
    mut wait_until: impl FnMut(u64),
    mut move_pointer: impl FnMut(Point) -> Result<(), CuError>,
) -> Result<(), CuError> {
    let mut played = 0;
    let mut outcome = Ok(());
    loop {
        match play_steps(&steps, played, outcome) {
            PlayOp::Move(step) => {
                wait_until(step.at);
                outcome = move_pointer(step.point);
                played += 1;
            }
            PlayOp::Done(result) => return result,
        }
    }
}

#[test]
fn movement_is_interpolated_after_hold_and_preserves_corners() {
    let path = [point(0, 0), point(80, 0), point(80, 160)];
    let steps = positions(&path, 50, 240);
    assert_eq!(steps.first().unwrap().at, ms(50));
    assert!(steps.contains(&TimedPoint { at: ms(90), point: point(40, 0) }));
    assert!(steps.contains(&TimedPoint { at: ms(130), point: point(80, 0) }));
    assert_eq!(
        steps.last().unwrap(),
        &TimedPoint { at: ms(290), point: point(80, 160) }
    );
    assert!(steps.windows(2).all(|p| p[0].at <= p[1].at));
}

#[test]
fn stationary_duplicate_and_zero_duration_paths() {
    let a = point(10, 10);
    let b = point(50, 10);
    assert_eq!(
        positions(&[a, a], 30, 70),
        vec![TimedPoint { at: ms(100), point: a }]
    );
    assert_eq!(positions(&[a, a, b], 0, 40), positions(&[a, b], 0, 40));
    assert_eq!(
        positions(&[a, b, a], 20, 0),
        vec![
            TimedPoint { at: ms(20), point: b },
            TimedPoint { at: ms(20), point: a },
        ]
    );
}

#[test]
fn clock_deadlines_do_not_accumulate_injection_cost() {
    let now = Cell::new(0);
    let events = RefCell::new(Vec::new());
    play(
        positions(&[point(0, 0), point(24, 0)], 10, 24),
        |deadline| now.set(deadline.max(now.get())),
        |p| {
            events.borrow_mut().push((now.get(), p));
            now.set(now.get() + ms(3));
            Ok(())
        },
    )
    .unwrap();
    assert_eq!(events.borrow().last().unwrap(), &(ms(34), point(24, 0)));
}

#[test]
fn short_moves_keep_all_corners_even_with_extreme_segment_lengths() {
    let path = [
        point(0, 0),
        point(1, 0),
        point(i32::MAX, i32::MAX),
        point(i32::MAX, i32::MAX - 1),
    ];
    for duration in [1, 7, 8, 9, 10_000] {
        let steps = positions(&path, 0, duration);
        assert_eq!(steps.last().unwrap().at, ms(duration));
        assert!(steps.windows(2).all(|pair| pair[0].at <= pair[1].at));
        for corner in path {
            assert!(steps.iter().any(|step| step.point == corner));
        }
    }
}

#[test]
fn playback_failure_stops_motion_and_releases_button() {
    let mut events = Vec::new();
    let result = with_held_button(
        &mut events,
        |events: &mut Vec<&str>, down| {
            events.push(if down { "down" } else { "up" });
            Ok(())
        },
        |events: &mut Vec<&str>| {
            play(
                positions(&[point(0, 0), point(80, 0)], 0, 80),
                |_| {},
                |_| {
                    events.push("move");
                    Err(CuError::new(ErrorCode::InputFailed, "motion failed"))
                },
            )
        },
    );
    assert_eq!(result.unwrap_err().message, "motion failed");
    assert_eq!(events, ["down", "move", "up"]);
    let error = with_held_button(
        &mut (),
        |_: &mut (), down| {
            if down {
                Ok(())
            } else {
                Err(CuError::new(ErrorCode::InputFailed, "release failed"))
            }
        },
        |_: &mut ()| Ok(()),
    )
    .unwrap_err();
    assert_eq!(error.message, "release failed");
}

#[test]
fn failures_still_release_and_preserve_both_diagnostics() {
    for fail_press in [false, true] {
        let mut events = Vec::new();
        let error = with_held_button(
            &mut events,
            |events: &mut Vec<&str>, down| {
                events.push(if down { "down" } else { "up" });
                if down && !fail_press {
                    Ok(())
                } else {
                    Err(CuError::new(
                        ErrorCode::InputFailed,
                        if down { "press failed" } else { "release failed" },
                    ))
                }
            },
            |events: &mut Vec<&str>| {
                events.push("move");
                Err(CuError::new(ErrorCode::InputFailed, "motion failed"))
            },
        )
        .unwrap_err();
        assert_eq!(
            events,
            if fail_press {
                vec!["down", "up"]
            } else {
                vec!["down", "move", "up"]
            }
        );
        assert!(error.message.contains(if fail_press {
            "press failed"
        } else {
            "motion failed"
        }));
        assert!(error.message.contains("release failed"));
    }
}

#[test]
fn finished_input_keeps_the_first_failure_in_front() {
    let fail = |message: &str| CuError::new(ErrorCode::InputFailed, message);
    assert_eq!(finish_input(Ok(7), Ok(())).unwrap(), 7);
    assert_eq!(finish_input(Ok(7), Err(fail("release"))).unwrap_err().message, "release");
    assert_eq!(
        finish_input::<u8>(Err(fail("move")), Ok(())).unwrap_err().message,
        "move"
    );
    let both = finish_input::<u8>(
        Err(CuError::new(ErrorCode::TargetGone, "move")),
        Err(fail("up")),
    )
    .unwrap_err();
    assert_eq!(both.code, ErrorCode::TargetGone);
    assert_eq!(both.message, "move; input release failed: input_failed: up");
}

#[test]
fn the_default_pacing_pauses_after_each_further_point() {
    let path = vec![point(1, 1), point(2, 2), point(3, 3)];
    assert_eq!(
        drag_path(&path, 40),
        vec![
            DragOp::Pause { ms: 40 },
            DragOp::Move { point: point(2, 2) },
            DragOp::Pause { ms: 8 },
            DragOp::Move { point: point(3, 3) },
            DragOp::Pause { ms: 8 },
        ]
    );
}

#[test]
fn marks_between_points_fall_on_the_ticks() {
    let path = vec![point(0, 0), point(20, 0), point(30, 0)];
    let marks = timed_steps(&path, 1, 30, &vec![ms(20), ms(30)]);
    let times: Vec<u64> = marks.iter().map(|mark| mark.at).collect();
    assert_eq!(times, [ms(1), ms(9), ms(17), ms(21), ms(25), ms(31)]);
    assert_eq!(
        marks[4].mark,
        PathMark::Between { index: 1, elapsed: ms(4), span: ms(10) }
    );
}

/// The points to which a drag moves until the given one fails, and the drag's result.
fn drag(path: &Vec<Point>, failing: Option<Point>) -> (Vec<Point>, Result<(), CuError>) {
    let ops = drag_path(path, 40);
    let mut moves = Vec::new();
    let mut outcome = Ok(());
    let mut done = 0;
    loop {
        outcome = match drag_step(&ops, done, outcome) {
            Next::Perform(DragOp::Pause { .. }) => Ok(()),
            Next::Perform(DragOp::Move { point }) => {
                moves.push(point);
                if failing == Some(point) {
                    Err(CuError::new(ErrorCode::InputFailed, "move failed"))
                } else {
                    Ok(())
                }
            }
            Next::Done(result) => return (moves, result),
        };
        done += 1;
    }
}

#[test]
fn the_first_failing_move_ends_a_drag_without_a_movement_time() {
    let path = vec![point(1, 1), point(2, 2), point(3, 3), point(4, 4)];

    let (moves, result) = drag(&path, None);
    assert_eq!(moves, path[1..]);
    result.unwrap();

    let (moves, result) = drag(&path, Some(point(3, 3)));
    assert_eq!(moves, path[1..3]);
    assert_eq!(result.unwrap_err().message, "move failed");

    let (moves, result) = drag(&vec![point(1, 1)], None);
    assert!(moves.is_empty());
    result.unwrap();
}
