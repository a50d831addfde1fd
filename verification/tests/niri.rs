use cu::input::Next;
use cu::keys::Key;
use cu::niri::{
    encode_frame, find_output, plan_pointer, select_output, validate, wayland_step, HoldOp,
    KeyHold, WaylandStep,
};
use cu::protocol::{Action, CuError, ErrorCode, MouseButton, Point, Viewport};

fn names(list: &[&str]) -> Vec<String> {
    list.iter().map(|name| (*name).to_owned()).collect()
}

#[test]
fn refuses_ambiguous_multi_output_input() {
    let error = select_output(&names(&["HDMI-A-1", "DP-1"]), Some("HDMI-A-1")).unwrap_err();

    assert_eq!(error.code, ErrorCode::UnsupportedInput);
    assert_eq!(
        error.message,
        "safe absolute input currently requires exactly one active output; found 2 (HDMI-A-1, DP-1)"
    );
}

#[test]
fn auto_selects_the_only_active_output() {
    assert_eq!(select_output(&names(&["HDMI-A-1"]), None).unwrap(), "HDMI-A-1");
}

#[test]
fn outputs_have_to_exist() {
    let none = select_output(&Vec::new(), None).unwrap_err();
    assert_eq!(none.code, ErrorCode::TargetGone);
    assert_eq!(none.message, "niri exposes no active Wayland outputs");

    let other = select_output(&names(&["DP-1"]), Some("DP-2")).unwrap_err();
    assert_eq!(other.code, ErrorCode::TargetGone);
    assert_eq!(
        other.message,
        "requested Wayland output DP-2 is unavailable; active output is DP-1"
    );

    assert_eq!(find_output(&names(&["DP-1", "DP-2"]), "DP-2").unwrap(), 1);
    let gone = find_output(&names(&["DP-1"]), "DP-2").unwrap_err();
    assert_eq!(gone.message, "Wayland output DP-2 is unavailable");
}

#[test]
fn any_text_can_be_typed_but_keys_need_names() {
    assert!(validate(&Action::Type { text: "\u{1f600}".to_owned() }).is_ok());
    let error = validate(&Action::Keypress { keys: names(&["CTRL", "no such key"]) }).unwrap_err();
    assert_eq!(error.code, ErrorCode::UnsupportedInput);
    assert_eq!(error.message, "unsupported key name \"no such key\"");
}

fn run(hold: &mut KeyHold, fail_press: Option<Key>, operated: Result<(), CuError>) -> (Vec<String>, Result<(), CuError>) {
    let mut trail = Vec::new();
    let mut operated = Some(operated);
    loop {
        match hold.op() {
            HoldOp::Press(key) => {
                trail.push(format!("press {key:?}"));
                hold.advance(if fail_press == Some(key) {
                    Err(CuError::new(ErrorCode::InputFailed, "press"))
                } else {
                    Ok(())
                });
            }
            HoldOp::Operate => {
                trail.push("operate".to_owned());
                hold.advance(operated.take().unwrap());
            }
            HoldOp::Release(key) => {
                trail.push(format!("release {key:?}"));
                hold.advance(Err(CuError::new(ErrorCode::InputFailed, "release")));
            }
            HoldOp::Finish(result) => return (trail, result),
        }
    }
}

#[test]
fn held_keys_are_released_in_reverse_and_releases_are_not_reported() {
    let mut hold = KeyHold::press_keys(&names(&["ctrl", "shift"])).ok().unwrap();
    let (trail, result) = run(&mut hold, None, Ok(()));
    assert_eq!(
        trail,
        ["press Control", "press Shift", "operate", "release Shift", "release Control"]
    );
    assert!(result.is_ok());

    let mut hold = KeyHold::press_keys(&names(&["ctrl", "shift"])).ok().unwrap();
    let (trail, result) = run(&mut hold, Some(Key::Shift), Ok(()));
    assert_eq!(trail, ["press Control", "press Shift", "release Control"]);
    assert_eq!(result.unwrap_err().message, "press");

    let mut hold = KeyHold::press_keys(&names(&["ctrl"])).ok().unwrap();
    let failed = CuError::new(ErrorCode::InputFailed, "operation");
    let (_, result) = run(&mut hold, None, Err(failed));
    assert_eq!(result.unwrap_err().message, "operation");

    assert!(KeyHold::press_keys(&names(&["ctrl", "bogus"])).is_err());
}

#[test]
fn scrolls_turn_the_wheel_only_along_axes_with_a_distance() {
    let scroll = |scroll_x, scroll_y| {
        plan_pointer(&Action::Scroll { x: 1, y: 2, scroll_x, scroll_y, keys: Vec::new() })
    };
    let at = WaylandStep::Move { point: Point { x: 1, y: 2 } };
    assert_eq!(scroll(0, 0), [at]);
    assert_eq!(scroll(0, -600), [at, WaylandStep::ScrollVertical { ticks: -5 }]);
    assert_eq!(
        scroll(1, 121),
        [
            at,
            WaylandStep::ScrollHorizontal { ticks: 1 },
            WaylandStep::ScrollVertical { ticks: 2 },
        ]
    );
    assert_eq!(
        plan_pointer(&Action::Click {
            x: 1,
            y: 2,
            button: MouseButton::Back,
            duration_ms: 30,
            keys: Vec::new(),
        }),
        [at, WaylandStep::Click { button: MouseButton::Back, hold_ms: 30 }]
    );
}

#[test]
fn pointer_input_stops_at_the_first_failure() {
    let steps = plan_pointer(&Action::DoubleClick { x: 3, y: 4, keys: Vec::new() });
    assert!(matches!(
        wayland_step(&steps, 1, Ok(())),
        Next::Perform(WaylandStep::Click { button: MouseButton::Left, hold_ms: 0 })
    ));
    let failed = CuError::new(ErrorCode::InputFailed, "no pointer");
    let Next::Done(Err(error)) = wayland_step(&steps, 2, Err(failed)) else {
        panic!("expected the end of the action");
    };
    assert_eq!(error.message, "no pointer");
    assert!(matches!(wayland_step(&steps, 5, Ok(())), Next::Done(Ok(()))));
}

#[test]
fn outputs_are_scaled_down_to_their_fitted_size() {
    let pixels = [10, 20, 30].repeat(8 * 4);
    let native = Viewport { width: 8, height: 4 };
    let frame = encode_frame(pixels.clone(), 8, 4, native, "HDMI-A-1");
    assert_eq!(frame.pixels, pixels);
    assert_eq!(frame.target, "output:HDMI-A-1");

    let half = Viewport { width: 4, height: 2 };
    let frame = encode_frame(pixels.clone(), 8, 4, half, "HDMI-A-1");
    assert_eq!((frame.width, frame.height), (4, 2));
    assert_eq!(frame.pixels, [10, 20, 30].repeat(8));

    let none = Viewport { width: 4, height: 0 };
    assert!(encode_frame(pixels, 8, 4, none, "HDMI-A-1").pixels.is_empty());
}
