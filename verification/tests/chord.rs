use cu::chord::{Chord, KeyEvent, KeyboardOp, Typing, KEY_DELAY_MS};
use cu::keymap::KeyboardMap;
use cu::protocol::{CuError, ErrorCode};
use xkeysym::key;

fn names(list: &[&str]) -> Vec<String> {
    list.iter().map(|name| (*name).to_owned()).collect()
}

fn map() -> KeyboardMap {
    KeyboardMap::read(8, 11, 1, vec![key::Control_L, key::Shift_L, key::a, 0], &Vec::new())
        .unwrap()
}

fn fail(message: &str) -> KeyEvent {
    KeyEvent::Failed(CuError::new(ErrorCode::InputFailed, message))
}

/// Run a chord; the operations that a rule names fail.
fn run(list: &[&str], operates: bool, failing: &[&str]) -> (Vec<String>, Result<(), CuError>) {
    let mut map = map();
    let (mut chord, mut op) = Chord::press_keys(&names(list), operates).ok().unwrap();
    let mut trail = Vec::new();
    loop {
        let (label, event) = match op {
            KeyboardOp::Find(symbol) => {
                let keycode = map.keysyms.iter().position(|s| *s == symbol).unwrap() as u8 + 8;
                (format!("find {keycode}"), KeyEvent::Found(keycode))
            }
            KeyboardOp::Press(keycode) => (format!("press {keycode}"), KeyEvent::Done),
            KeyboardOp::Operate => ("operate".to_owned(), KeyEvent::Done),
            KeyboardOp::Release(keycode) => (format!("release {keycode}"), KeyEvent::Done),
            KeyboardOp::Pause { ms } => (format!("pause {ms}"), KeyEvent::Done),
            KeyboardOp::Finish(result) => return (trail, result),
        };
        let event = if failing.contains(&label.as_str()) { fail(&label) } else { event };
        trail.push(label);
        op = chord.advance(&mut map, event);
    }
}

#[test]
fn chords_press_in_order_and_release_in_reverse() {
    let (trail, result) = run(&["ctrl", "shift", "a"], true, &[]);
    assert_eq!(
        trail,
        [
            "find 8", "press 8", "find 9", "press 9", "find 10", "press 10", "operate",
            "release 10", "release 9", "release 8",
        ]
    );
    assert!(result.is_ok());
}

#[test]
fn failed_chords_release_what_is_held_and_keep_the_first_failure() {
    let (trail, result) = run(&["ctrl", "shift"], true, &["press 9", "release 8"]);
    assert_eq!(trail, ["find 8", "press 8", "find 9", "press 9", "release 8"]);
    assert_eq!(result.unwrap_err().message, "press 9");

    let (trail, result) = run(&["ctrl"], true, &["release 8"]);
    assert_eq!(trail, ["find 8", "press 8", "operate", "release 8"]);
    assert_eq!(result.unwrap_err().message, "release 8");

    let (trail, result) = run(&[], true, &["operate"]);
    assert_eq!(trail, ["operate"]);
    assert_eq!(result.unwrap_err().message, "operate");
}

#[test]
fn unknown_names_press_nothing() {
    assert!(Chord::press_keys(&names(&["ctrl", "bogus"]), false).is_err());
}

#[test]
fn typing_pauses_after_each_character() {
    let mut map = map();
    let (mut typing, mut op) = Typing::type_text("aa");
    let mut trail = Vec::new();
    loop {
        let event = match op {
            KeyboardOp::Find(symbol) => {
                assert_eq!(symbol, key::a);
                KeyEvent::Found(10)
            }
            KeyboardOp::Press(keycode) => {
                trail.push(format!("press {keycode}"));
                KeyEvent::Done
            }
            KeyboardOp::Release(keycode) => {
                trail.push(format!("release {keycode}"));
                KeyEvent::Done
            }
            KeyboardOp::Pause { ms } => {
                assert_eq!(ms, KEY_DELAY_MS);
                trail.push("pause".to_owned());
                KeyEvent::Done
            }
            KeyboardOp::Operate => panic!("typing has no operation"),
            KeyboardOp::Finish(result) => {
                assert!(result.is_ok());
                break;
            }
        };
        op = typing.advance(&mut map, event);
    }
    assert_eq!(
        trail,
        ["press 10", "release 10", "pause", "press 10", "release 10", "pause"]
    );
    let (_, op) = Typing::type_text("");
    assert!(matches!(op, KeyboardOp::Finish(Ok(()))));
}
