use cu::input::Next;
use cu::keymap::{
    base_keycode, decode_keymap_journal, encode_keymap_journal, keycode_count, read_journal,
    recover, release, JournalProperty, KeyOp, KeyboardMap, KeymapJournal, RecoverOp, ReleaseOp,
    KEYMAP_JOURNAL_MAGIC, KEYMAP_JOURNAL_VERSION,
};
use cu::protocol::{CuError, ErrorCode};
use xkeysym::key;

#[test]
fn finds_base_keysyms_only_in_the_unmodified_column() {
    let keysyms = vec![key::a, key::A, key::b, key::B];

    assert_eq!(base_keycode(8, 2, &keysyms, key::a), Some(8));
    assert_eq!(base_keycode(8, 2, &keysyms, key::A), None);
    assert_eq!(base_keycode(8, 2, &keysyms, key::b), Some(9));
}

#[test]
fn keymap_recovery_journal_round_trips_borrowed_keycodes() {
    let journal = KeymapJournal {
        keysyms_per_keycode: 4,
        borrowed: vec![97, 103],
    };

    let encoded = encode_keymap_journal(journal.keysyms_per_keycode, &journal.borrowed).unwrap();

    assert_eq!(decode_keymap_journal(&encoded).unwrap(), journal);
}

#[test]
fn keymap_recovery_journal_rejects_duplicate_keycodes() {
    let words = vec![KEYMAP_JOURNAL_MAGIC, KEYMAP_JOURNAL_VERSION, 1, 2, 97, 97];

    assert!(decode_keymap_journal(&words).is_err());
}

#[test]
fn damaged_journals_are_refused() {
    let good = vec![KEYMAP_JOURNAL_MAGIC, KEYMAP_JOURNAL_VERSION, 2, 1, 97];
    assert!(decode_keymap_journal(&good).is_ok());
    for (at, word) in [(0, 1), (1, 2), (2, 0), (2, 256), (3, 2), (4, 8), (4, 256)] {
        let mut words = good.clone();
        words[at] = word;
        let error = decode_keymap_journal(&words).unwrap_err();
        assert_eq!(error.code, ErrorCode::InputFailed, "word {at} = {word}");
    }
    assert!(decode_keymap_journal(&good[..3].to_vec()).is_err());
    assert!(encode_keymap_journal(0, &vec![97]).is_err());
}

#[test]
fn journals_are_read_from_their_property() {
    let words = vec![KEYMAP_JOURNAL_MAGIC, KEYMAP_JOURNAL_VERSION, 2, 1, 97];
    let property = |is_cardinal, bytes_after, words| {
        Some(JournalProperty { is_cardinal, bytes_after, words })
    };
    assert!(read_journal(None).unwrap().is_none());
    let journal = read_journal(property(true, 0, Some(words.clone()))).unwrap().unwrap();
    assert_eq!(journal.borrowed, [97]);
    assert!(read_journal(property(false, 0, Some(words.clone()))).is_err());
    assert!(read_journal(property(true, 4, Some(words))).is_err());
    assert!(read_journal(property(true, 0, None)).is_err());
}

#[test]
fn recovery_clears_the_journaled_keys_first() {
    let journal = KeymapJournal { keysyms_per_keycode: 2, borrowed: vec![97, 103] };
    let modifiers = vec![50];
    let after = |done, outcome, min, max, modifiers: &Vec<u8>| {
        recover(&journal, done, outcome, min, max, modifiers)
    };
    let performs = |done| match after(done, Ok(()), 8, 255, &modifiers) {
        Next::Perform(op) => Some(op),
        Next::Done(result) => {
            result.unwrap();
            None
        }
    };
    assert_eq!(performs(0), Some(RecoverOp::Clear(97)));
    assert_eq!(performs(1), Some(RecoverOp::Clear(103)));
    assert_eq!(performs(2), Some(RecoverOp::DeleteJournal));
    assert_eq!(performs(3), Some(RecoverOp::Sync));
    assert_eq!(performs(4), None);
    for refused in [
        after(0, Ok(()), 98, 255, &modifiers),
        after(1, Ok(()), 8, 100, &modifiers),
        after(1, Ok(()), 8, 255, &vec![103]),
    ] {
        let Next::Done(Err(error)) = refused else {
            panic!("expected a refused journal");
        };
        assert_eq!(
            error.message,
            "invalid cu X11 keymap recovery journal: \
             journal contains a keycode outside the safe temporary range"
        );
    }
}

#[test]
fn a_failed_clear_leaves_the_journal_in_place() {
    let failed = || Err(CuError::new(ErrorCode::InputFailed, "clear failed"));
    let journal = KeymapJournal { keysyms_per_keycode: 2, borrowed: vec![97, 103] };
    let Next::Done(Err(error)) = recover(&journal, 2, failed(), 8, 255, &Vec::new()) else {
        panic!("expected the end of the recovery");
    };
    assert_eq!(error.message, "clear failed");
    let Next::Done(Err(error)) = release(&vec![97, 103], 2, failed()) else {
        panic!("expected the end of the release");
    };
    assert_eq!(error.message, "clear failed");
}

#[test]
fn release_undoes_what_was_borrowed() {
    let ops = |borrowed: Vec<u8>| {
        let mut list = Vec::new();
        for done in 0.. {
            match release(&borrowed, done, Ok(())) {
                Next::Done(result) => {
                    result.unwrap();
                    return list;
                }
                Next::Perform(op) => list.push(op),
            }
        }
        list
    };
    assert_eq!(
        ops(vec![97, 103]),
        [
            ReleaseOp::Clear(97),
            ReleaseOp::Clear(103),
            ReleaseOp::DeleteJournal,
            ReleaseOp::DropOwner,
            ReleaseOp::DestroyWindow,
            ReleaseOp::Sync,
        ]
    );
    assert_eq!(
        ops(Vec::new()),
        [ReleaseOp::DropOwner, ReleaseOp::DestroyWindow, ReleaseOp::Sync]
    );
}

/// Keys 8 to 11: a letter with its capital, nothing, nothing, and a modifier without symbols.
fn map() -> KeyboardMap {
    let keysyms = vec![key::a, key::A, 0, 0, 0, 0, 0, 0];
    KeyboardMap::read(8, 11, 2, keysyms, &vec![11]).unwrap()
}

#[test]
fn mapped_symbols_need_no_key() {
    let mut map = map();
    assert!(matches!(map.keycode_for(key::a).unwrap(), KeyOp::Ready(8)));
    assert!(map.borrowed.is_empty());
}

#[test]
fn borrowed_keys_are_journaled_before_they_are_mapped() {
    let mut map = map();
    let KeyOp::Persist { keycode, words } = map.keycode_for(key::eacute).unwrap() else {
        panic!("expected a journal");
    };
    assert_eq!(decode_keymap_journal(&words).unwrap().borrowed, [keycode]);
    assert!(keycode != 8 && keycode != 11);
    let KeyOp::Remap(again) = map.persisted(key::eacute, keycode, Ok(())).unwrap() else {
        panic!("expected a mapping");
    };
    assert_eq!(again, keycode);
    assert_eq!(map.remapped(key::eacute, keycode, Ok(())).unwrap(), keycode);
    assert!(matches!(map.keycode_for(key::eacute).unwrap(), KeyOp::Ready(k) if k == keycode));
    assert_eq!(map.borrowed, [keycode]);
}

#[test]
fn held_keys_are_not_remapped() {
    let mut map = map();
    for symbol in [key::eacute, key::egrave] {
        match map.keycode_for(symbol) {
            Ok(KeyOp::Persist { keycode, .. }) => {
                map.persisted(symbol, keycode, Ok(())).unwrap();
                map.remapped(symbol, keycode, Ok(())).unwrap();
                map.set_held(keycode, true);
            }
            Ok(KeyOp::Remap(_)) | Ok(KeyOp::Ready(_)) => panic!("expected a spare key"),
            Err(error) => assert_eq!(error.code, ErrorCode::UnsupportedInput),
        }
    }
    let held: Vec<u8> = map.borrowed.clone();
    let error = map.keycode_for(key::agrave).unwrap_err();
    assert_eq!(error.message, "all temporary X11 keycodes are currently held");
    map.set_held(held[0], false);
    assert!(matches!(map.keycode_for(key::agrave).unwrap(), KeyOp::Remap(k) if k == held[0]));
}

#[test]
fn failed_requests_are_reported() {
    let mut map = map();
    let fail = || Err(CuError::new(ErrorCode::InputFailed, "gone"));
    let KeyOp::Persist { keycode, .. } = map.keycode_for(key::eacute).unwrap() else {
        panic!("expected a journal");
    };
    assert_eq!(
        map.persisted(key::eacute, keycode, fail()).unwrap_err().message,
        "gone"
    );
    assert!(map.mapped.is_empty());
}

#[test]
fn keyboards_without_a_spare_key_cannot_type_more() {
    let error = KeyboardMap::read(8, 8, 1, vec![key::a], &Vec::new()).err().unwrap();
    assert_eq!(
        error.message,
        "X11 keyboard map has no unused keycode for text injection"
    );
    assert_eq!(keycode_count(8, 255).unwrap(), 248);
    assert_eq!(
        keycode_count(9, 8).unwrap_err().message,
        "invalid X11 keyboard keycode range"
    );
}
