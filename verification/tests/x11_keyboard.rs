use cu::input::Next;
use cu::keymap::{encode_keymap_journal, JournalProperty, RecoverOp};
use cu::protocol::{CuError, ErrorCode};
use cu::x11_keyboard::{
    normalize_keyboard_state, KeyboardEvent, KeyboardStart, KeyboardStep, NormalizeOp,
};

/// Keys 50 and 64 are modifiers, and 64 is pressed.
fn claimed() -> KeyboardStart {
    let mut start = KeyboardStart::new(50, 100);
    assert_eq!(start.step, KeyboardStep::ReadModifiers);
    let mut pressed = vec![0; 32];
    pressed[8] = 1;
    for (event, step) in [
        (KeyboardEvent::Modifiers(vec![50, 0, 64, 50]), KeyboardStep::QueryKeys),
        (
            KeyboardEvent::Pressed(pressed),
            KeyboardStep::Normalize(NormalizeOp::Release(64)),
        ),
        (KeyboardEvent::Done, KeyboardStep::Normalize(NormalizeOp::Unlock)),
        (KeyboardEvent::Done, KeyboardStep::Claim),
        (KeyboardEvent::Done, KeyboardStep::ReadJournal),
    ] {
        assert_eq!(start.advance(event).unwrap(), step);
    }
    assert_eq!(start.modifiers, [50, 64]);
    start
}

fn journal(borrowed: Vec<u8>) -> KeyboardEvent {
    KeyboardEvent::Journal(Some(JournalProperty {
        is_cardinal: true,
        bytes_after: 0,
        words: Some(encode_keymap_journal(2, &borrowed).unwrap()),
    }))
}

fn symbols(keysyms: Vec<u32>) -> KeyboardEvent {
    KeyboardEvent::Symbols { keysyms_per_keycode: 1, keysyms }
}

#[test]
fn keyboards_without_a_journal_are_read_at_once() {
    let mut start = claimed();
    assert_eq!(
        start.advance(KeyboardEvent::Journal(None)).unwrap(),
        KeyboardStep::ReadMap { count: 51 }
    );
    assert_eq!(start.advance(symbols(vec![0, 97, 0])).unwrap(), KeyboardStep::Ready);
    assert_eq!(start.keymap.unwrap().unused, [52]);
}

#[test]
fn an_earlier_owner_is_cleaned_up_before_the_map_is_read() {
    let mut start = claimed();
    for (event, step) in [
        (journal(vec![97, 99]), KeyboardStep::Recover(RecoverOp::Clear(97))),
        (KeyboardEvent::Done, KeyboardStep::Recover(RecoverOp::Clear(99))),
        (KeyboardEvent::Done, KeyboardStep::Recover(RecoverOp::DeleteJournal)),
        (KeyboardEvent::Done, KeyboardStep::Recover(RecoverOp::Sync)),
        (KeyboardEvent::Done, KeyboardStep::ReadMap { count: 51 }),
    ] {
        assert_eq!(start.advance(event).unwrap(), step);
    }
}

#[test]
fn failures_end_the_preparation() {
    let mut busy = KeyboardStart::new(8, 255);
    let error = CuError::new(ErrorCode::LeaseConflict, "owned");
    let error = busy.advance(KeyboardEvent::Failed(error)).unwrap_err();
    assert_eq!(error.code, ErrorCode::LeaseConflict);
    assert_eq!(error.message, "owned");

    let error = claimed().advance(journal(vec![97, 64])).err();
    assert!(error.is_none());
    let error = claimed().advance(journal(vec![101])).unwrap_err();
    assert_eq!(
        error.message,
        "invalid cu X11 keymap recovery journal: \
         journal contains a keycode outside the safe temporary range"
    );

    let mut full = claimed();
    full.advance(KeyboardEvent::Journal(None)).unwrap();
    let error = full.advance(symbols(vec![97])).unwrap_err();
    assert_eq!(error.code, ErrorCode::UnsupportedInput);

    let mut reversed = KeyboardStart::new(100, 50);
    reversed.advance(KeyboardEvent::Modifiers(Vec::new())).unwrap();
    reversed.advance(KeyboardEvent::Pressed(vec![0; 32])).unwrap();
    reversed.advance(KeyboardEvent::Done).unwrap();
    reversed.advance(KeyboardEvent::Done).unwrap();
    let error = reversed.advance(KeyboardEvent::Journal(None)).unwrap_err();
    assert_eq!(error.message, "invalid X11 keyboard keycode range");
}

#[test]
fn a_key_that_cannot_be_released_ends_the_neutralization() {
    let stuck = vec![50, 64];
    assert!(matches!(
        normalize_keyboard_state(&stuck, 1, Ok(())),
        Next::Perform(NormalizeOp::Release(64))
    ));
    assert!(matches!(
        normalize_keyboard_state(&stuck, 2, Ok(())),
        Next::Perform(NormalizeOp::Unlock)
    ));
    assert!(matches!(normalize_keyboard_state(&stuck, 3, Ok(())), Next::Done(Ok(()))));
    let failed = Err(CuError::new(ErrorCode::InputFailed, "stuck"));
    assert!(matches!(normalize_keyboard_state(&stuck, 1, failed), Next::Done(Err(_))));
}
