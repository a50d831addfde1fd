use cu::frame::CaptureLimits;
use cu::input::Next;
use cu::protocol::{Action, CuError, ErrorCode, MouseButton, Point};
use cu::x11_session::{
    input_error, plan_pointer, pointer_step, wheel_event, ClaimStep, DisplayEvent, DisplayStart,
    KeymapClaim, PointerStep, StartStep, DOUBLE_CLICK_PAUSE_MS, NO_WINDOW,
};

fn failed(detail: &str) -> DisplayEvent {
    DisplayEvent::Failed(detail.to_owned())
}

fn start() -> DisplayStart {
    DisplayStart::new(":99", CaptureLimits::default()).ok().unwrap()
}

#[test]
fn displays_open_step_by_step() {
    let mut start = start();
    let connected = DisplayEvent::Connected { screen: 1, screens: 2 };
    assert_eq!(start.advance(connected).unwrap(), StartStep::QueryTest);
    assert_eq!(start.advance(DisplayEvent::Done).unwrap(), StartStep::QueryKeyboard);
    let keyboard = DisplayEvent::Keyboard { supported: true, major: 1, minor: 0 };
    assert_eq!(start.advance(keyboard).unwrap(), StartStep::ListDevices);
    let devices = DisplayEvent::Devices(vec![(0, 2), (1, 3), (0, 4)]);
    assert_eq!(start.advance(devices).unwrap(), StartStep::PrepareKeyboard);
    assert_eq!(start.screen, 1);
    assert_eq!((start.pointer_device, start.keyboard_device), (2, 3));
}

#[test]
fn displays_that_lack_something_are_refused() {
    let mut gone = start();
    let error = gone.advance(failed("refused")).unwrap_err();
    assert_eq!(error.code, ErrorCode::TargetGone);
    assert_eq!(error.message, "failed to connect to X11 display :99: refused");

    let mut headless = start();
    let error = headless
        .advance(DisplayEvent::Connected { screen: 3, screens: 1 })
        .unwrap_err();
    assert_eq!(error.message, "X11 display :99 has no screen 3");

    let mut old = start();
    old.advance(DisplayEvent::Connected { screen: 0, screens: 1 }).unwrap();
    assert_eq!(old.advance(failed("no test")).unwrap_err().code, ErrorCode::InputFailed);
    old.advance(DisplayEvent::Done).unwrap();
    let error = old
        .advance(DisplayEvent::Keyboard { supported: false, major: 0, minor: 65 })
        .unwrap_err();
    assert_eq!(error.code, ErrorCode::UnsupportedInput);
    assert_eq!(
        error.message,
        "X11 server does not support XKB 1.0 (server reports 0.65)"
    );
    old.advance(DisplayEvent::Keyboard { supported: true, major: 1, minor: 0 }).unwrap();
    let error = old.advance(DisplayEvent::Devices(vec![(1, 3)])).unwrap_err();
    assert_eq!(error.message, "X11 exposes no core pointer device");

    assert!(DisplayStart::new(" ", CaptureLimits::default()).is_err());
    let empty = CaptureLimits { max_width: Some(0), max_height: None };
    assert!(DisplayStart::new(":99", empty).is_err());
    assert_eq!(input_error("x").message, "x");
}

/// A claim that has grabbed the server and asks for the owner.
fn grabbed() -> KeymapClaim {
    let mut claim = KeymapClaim::acquire();
    for (event, step) in [
        (DisplayEvent::Identifier(7), ClaimStep::InternJournal),
        (DisplayEvent::Identifier(8), ClaimStep::GenerateWindow),
        (DisplayEvent::Identifier(9), ClaimStep::CreateWindow),
        (DisplayEvent::Done, ClaimStep::Grab),
        (DisplayEvent::Done, ClaimStep::QueryOwner),
    ] {
        assert_eq!(claim.advance(event).unwrap(), step);
    }
    assert_eq!((claim.owner_atom, claim.journal_atom, claim.owner_window), (7, 8, 9));
    claim
}

#[test]
fn free_keyboard_maps_are_claimed() {
    let mut claim = grabbed();
    for (event, step) in [
        (DisplayEvent::Identifier(NO_WINDOW), ClaimStep::SetOwner),
        (DisplayEvent::Done, ClaimStep::ConfirmOwner),
        (DisplayEvent::Identifier(9), ClaimStep::Ungrab),
        (DisplayEvent::Done, ClaimStep::Sync),
        (DisplayEvent::Done, ClaimStep::Held),
    ] {
        assert_eq!(claim.advance(event).unwrap(), step);
    }
}

#[test]
fn owned_keyboard_maps_are_left_alone() {
    let mut claim = grabbed();
    assert_eq!(
        claim.advance(DisplayEvent::Identifier(5)).unwrap(),
        ClaimStep::Ungrab
    );
    let error = claim.advance(DisplayEvent::Done).unwrap_err();
    assert_eq!(error.code, ErrorCode::LeaseConflict);
    assert_eq!(
        error.message,
        "another X11 backend owns the temporary keyboard map"
    );
}

#[test]
fn a_lost_claim_lets_others_at_the_server_before_it_fails() {
    let mut lost = grabbed();
    lost.advance(DisplayEvent::Identifier(NO_WINDOW)).unwrap();
    lost.advance(DisplayEvent::Done).unwrap();
    assert_eq!(lost.advance(DisplayEvent::Identifier(5)).unwrap(), ClaimStep::Ungrab);
    let error = lost.advance(DisplayEvent::Done).unwrap_err();
    assert_eq!(error.message, "failed to claim the X11 temporary keyboard map");

    let mut broken = grabbed();
    assert_eq!(broken.advance(failed("io")).unwrap(), ClaimStep::Ungrab);
    let error = broken.advance(failed("io again")).unwrap_err();
    assert_eq!(error.code, ErrorCode::InputFailed);
    assert_eq!(error.message, "io");
}

#[test]
fn pointer_actions_are_moves_clicks_and_wheels() {
    let point = Point { x: 3, y: 4 };
    let at = PointerStep::Move { point };
    assert_eq!(
        plan_pointer(&Action::Click {
            x: 3,
            y: 4,
            button: MouseButton::Right,
            duration_ms: 250,
            keys: Vec::new(),
        }),
        [at, PointerStep::Click { button: 3, hold_ms: 250 }]
    );
    let click = PointerStep::Click { button: 1, hold_ms: 0 };
    assert_eq!(
        plan_pointer(&Action::DoubleClick { x: 3, y: 4, keys: Vec::new() }),
        [at, click, PointerStep::Pause { ms: DOUBLE_CLICK_PAUSE_MS }, at, click]
    );
    assert_eq!(
        plan_pointer(&Action::Scroll {
            x: 3,
            y: 4,
            scroll_x: -121,
            scroll_y: 600,
            keys: Vec::new(),
        }),
        [
            at,
            PointerStep::Wheel { button: 6, count: 2 },
            PointerStep::Wheel { button: 5, count: 5 },
        ]
    );
    assert!(plan_pointer(&Action::Type { text: "a".to_owned() }).is_empty());
}

fn refused() -> Result<(), CuError> {
    Err(input_error("refused"))
}

#[test]
fn the_first_failing_step_ends_pointer_input() {
    let steps = plan_pointer(&Action::Move { x: 3, y: 4, keys: Vec::new() });
    assert!(matches!(
        pointer_step(&steps, 0, Ok(())),
        Next::Perform(PointerStep::Move { point: Point { x: 3, y: 4 } })
    ));
    assert!(matches!(pointer_step(&steps, 1, Ok(())), Next::Done(Ok(()))));
    let Next::Done(Err(error)) = pointer_step(&steps, 1, refused()) else {
        panic!("expected the end of the action");
    };
    assert_eq!(error.message, "refused");
}

#[test]
fn wheel_clicks_press_and_release_in_turn() {
    let mut events = Vec::new();
    loop {
        match wheel_event(2, events.len() as u64, Ok(())) {
            Next::Perform(down) => events.push(down),
            Next::Done(result) => {
                result.unwrap();
                break;
            }
        }
    }
    assert_eq!(events, [true, false, true, false]);
    assert!(matches!(wheel_event(0, 0, Ok(())), Next::Done(Ok(()))));
    assert!(matches!(wheel_event(2, 1, refused()), Next::Done(Err(_))));
}
