//! Which key types a symbol, which keys are borrowed for it, and what the journal of them holds.
use vstd::prelude::*;

use crate::keymap::{
    base_key, column_of, journal_in, journal_of, journal_words, loose_place, payload_fault,
    place_of, recovery_step, release_steps, spare_keycodes, unreadable, JournalView, KeyOpView,
    KeyboardView, PropertyView, RecoverOp, ReleaseOp,
};
use crate::protocol::CuErrorView;

verus! {

proof fn column_is_the_first(keysyms: Seq<u32>, width: u8, symbol: u32)
    requires
        width > 0,
    ensures
        column_of(keysyms, width, symbol) matches Some(column) ==> column * width < keysyms.len()
            && keysyms[column * width] == symbol,
        forall|c: nat|
            #![trigger keysyms[c * width]]
            c * width < keysyms.len() && (column_of(keysyms, width, symbol) matches Some(column)
                ==> c < column) ==> keysyms[c * width] != symbol,
    decreases keysyms.len(),
{
    if keysyms.len() > 0 && keysyms[0] != symbol && keysyms.len() > width {
        let rest = keysyms.skip(width as int);
        column_is_the_first(rest, width, symbol);
        if let Some(column) = column_of(rest, width, symbol) {
            assert((column + 1) * width == column * width + width) by (nonlinear_arith);
            assert(rest[column * width] == keysyms[(column + 1) * width]);
        }
        assert forall|c: nat|
            #![trigger keysyms[c * width]]
            c * width < keysyms.len() && (column_of(keysyms, width, symbol) matches Some(column)
                ==> c < column) implies keysyms[c * width] != symbol by {
            if c > 0 {
                let before: nat = (c - 1) as nat;
                assert(c * width == before * width + width) by (nonlinear_arith)
                    requires
                        before == c - 1,
                ;
                assert(before * width >= 0) by (nonlinear_arith);
                assert(rest[before * width] == keysyms[c * width]);
            } else {
                assert(c * width == 0) by (nonlinear_arith)
                    requires
                        c == 0,
                ;
            }
        }
    } else {
        assert forall|c: nat|
            #![trigger keysyms[c * width]]
            c * width < keysyms.len() && (column_of(keysyms, width, symbol) matches Some(column)
                ==> c < column) implies keysyms[c * width] != symbol by {
            if c > 0 {
                assert(c * width >= width) by (nonlinear_arith)
                    requires
                        c > 0,
                ;
            } else {
                assert(c * width == 0) by (nonlinear_arith)
                    requires
                        c == 0,
                ;
            }
        }
        if keysyms.len() > 0 && keysyms[0] == symbol {
            assert(0nat * width == 0) by (nonlinear_arith);
        }
    }
}

/// The key of a symbol is the first one whose first symbol it is; a symbol has no key where none of
/// the keys up to the last possible keycode has it first.
pub proof fn symbols_have_the_first_base_key(min: u8, width: u8, keysyms: Seq<u32>, symbol: u32)
    requires
        width > 0,
    ensures
        base_key(min, width, keysyms, symbol) matches Some(keycode) ==> {
            &&& min <= keycode
            &&& (keycode - min) * width < keysyms.len()
            &&& keysyms[(keycode - min) * width] == symbol
        },
        forall|c: nat|
            #![trigger keysyms[c * width]]
            c * width < keysyms.len() && min + c <= 255 && (base_key(min, width, keysyms, symbol)
                matches Some(keycode) ==> min + c < keycode) ==> keysyms[c * width] != symbol,
{
    column_is_the_first(keysyms, width, symbol);
}

/// The keys that can be borrowed are those of the keyboard's range that are not keycode 8, are no
/// modifier and have no symbol at all; they are listed in ascending order.
pub proof fn spare_keys_type_nothing(
    min: u8,
    count: nat,
    width: u8,
    keysyms: Seq<u32>,
    modifiers: Seq<u8>,
)
    requires
        min + count <= 256,
    ensures
        forall|i: int, j: int|
            #![trigger spare_keycodes(min, count, width, keysyms, modifiers)[i],
                spare_keycodes(min, count, width, keysyms, modifiers)[j]]
            0 <= i < j < spare_keycodes(min, count, width, keysyms, modifiers).len()
                ==> spare_keycodes(min, count, width, keysyms, modifiers)[i] < spare_keycodes(
                min,
                count,
                width,
                keysyms,
                modifiers,
            )[j],
        forall|keycode: u8| #[trigger]
            spare_keycodes(min, count, width, keysyms, modifiers).contains(keycode) <==> {
                let first = (keycode - min) * width;
                &&& min <= keycode < min + count
                &&& keycode != 8
                &&& !modifiers.contains(keycode)
                &&& first < keysyms.len()
                &&& forall|i: int|
                    first <= i < first + width && i < keysyms.len() ==> #[trigger] keysyms[i] == 0
            },
    decreases count,
{
    let spare = spare_keycodes(min, count, width, keysyms, modifiers);
    if count > 0 {
        let before: nat = (count - 1) as nat;
        let earlier = spare_keycodes(min, before, width, keysyms, modifiers);
        let last = (min + before) as u8;
        spare_keys_type_nothing(min, before, width, keysyms, modifiers);
        assert forall|i: int| 0 <= i < earlier.len() implies #[trigger] earlier[i] < last by {
            assert(earlier.contains(earlier[i]));
        }
        assert forall|i: int, j: int| 0 <= i < j < spare.len() implies #[trigger] spare[i]
            < #[trigger] spare[j] by {
            assert(spare[i] == earlier[i]);
            if j < earlier.len() {
                assert(spare[j] == earlier[j]);
            }
        }
        assert forall|keycode: u8| #[trigger] spare.contains(keycode) <==> {
            let first = (keycode - min) * width;
            &&& min <= keycode < min + count
            &&& keycode != 8
            &&& !modifiers.contains(keycode)
            &&& first < keysyms.len()
            &&& forall|i: int|
                first <= i < first + width && i < keysyms.len() ==> #[trigger] keysyms[i] == 0
        } by {
            if earlier.contains(keycode) {
                let i = choose|i: int| 0 <= i < earlier.len() && earlier[i] == keycode;
                assert(spare[i] == keycode);
            }
            if spare.contains(keycode) {
                let i = choose|i: int| 0 <= i < spare.len() && spare[i] == keycode;
                if i < earlier.len() {
                    assert(earlier[i] == keycode);
                }
            }
            if spare.len() > earlier.len() {
                assert(spare[earlier.len() as int] == last);
            }
        }
    }
}

proof fn first_place(mapped: Seq<(u32, u8)>, symbol: u32, from: int)
    requires
        0 <= from,
    ensures
        match place_of(mapped, symbol, from) {
            Some(place) => from <= place < mapped.len() && mapped[place].0 == symbol,
            None => forall|i: int| from <= i < mapped.len() ==> (#[trigger] mapped[i]).0 != symbol,
        },
    decreases mapped.len() - from,
{
    if from < mapped.len() && mapped[from].0 != symbol {
        first_place(mapped, symbol, from + 1);
    }
}

proof fn first_loose_place(mapped: Seq<(u32, u8)>, held: Seq<bool>, from: int)
    requires
        0 <= from,
    ensures
        match loose_place(mapped, held, from) {
            Some(place) => from <= place < mapped.len() && !held[mapped[place].1 as int] && forall|
                i: int,
            |
                from <= i < place ==> held[(#[trigger] mapped[i]).1 as int],
            None => forall|i: int|
                from <= i < mapped.len() ==> held[(#[trigger] mapped[i]).1 as int],
        },
    decreases mapped.len() - from,
{
    if from < mapped.len() && held[mapped[from].1 as int] {
        first_loose_place(mapped, held, from + 1);
    }
}

/// A symbol is typed by its own key where it has one, else by the key that was borrowed for it,
/// else by the first key that can still be borrowed, once the journal lists it, and else by the
/// borrowed key that is not held and whose symbol was used least recently. Only where every
/// borrowed key is held does a symbol have no key.
pub proof fn symbols_find_their_key(map: KeyboardView, symbol: u32)
    requires
        map.valid(),
    ensures
        ({
            let (after, op) = map.keycode_for(symbol);
            let base = base_key(map.min_keycode, map.keysyms_per_keycode, map.keysyms, symbol);
            let known = exists|i: int| 0 <= i < map.mapped.len() && (#[trigger] map.mapped[i]).0
                == symbol;
            if base is Some {
                op matches Ok(KeyOpView::Ready(keycode)) && Some(keycode) == base && after == map
            } else if known {
                op matches Ok(KeyOpView::Ready(keycode)) && map.mapped.contains((symbol, keycode))
                    && after.mapped.len() == map.mapped.len() && after.mapped.last() == (
                    symbol,
                    keycode,
                ) && after.borrowed == map.borrowed && after.unused == map.unused
            } else if map.unused.len() > 0 {
                match op {
                    Ok(KeyOpView::Persist { keycode, words }) => keycode == map.unused[0]
                        && words.len() == 4 + map.borrowed.len() + 1 && words.last() == keycode
                        && after.borrowed == map.borrowed.push(keycode) && after.unused
                        == map.unused.subrange(1, map.unused.len() as int) && after.mapped
                        == map.mapped,
                    Ok(_) => false,
                    Err(error) => after == map && error.code is InputFailed && map.borrowed.len()
                        >= 255,
                }
            } else {
                match op {
                    Ok(KeyOpView::Remap(keycode)) => exists|place: int|
                        {
                            &&& 0 <= place < map.mapped.len()
                            &&& (#[trigger] map.mapped[place]).1 == keycode
                            &&& !map.held[keycode as int]
                            &&& forall|i: int|
                                0 <= i < place ==> map.held[(#[trigger] map.mapped[i]).1 as int]
                            &&& after.borrowed == map.borrowed
                            &&& after.mapped.len() == map.mapped.len() - 1
                            &&& !after.mapped.contains(map.mapped[place])
                        },
                    Ok(_) => false,
                    Err(error) => after == map && error.code is UnsupportedInput && forall|i: int|
                        0 <= i < map.mapped.len() ==> map.held[(#[trigger] map.mapped[i]).1 as int],
                }
            }
        }),
        map.unused.len() > 0 && map.borrowed.len() < 255 ==> map.keycode_for(symbol).1 is Ok,
{
    first_place(map.mapped, symbol, 0);
    first_loose_place(map.mapped, map.held, 0);
    let (after, op) = map.keycode_for(symbol);
    let base = base_key(map.min_keycode, map.keysyms_per_keycode, map.keysyms, symbol);
    if base is None {
        match place_of(map.mapped, symbol, 0) {
            Some(place) => {
                assert(map.mapped[place] == (symbol, map.mapped[place].1));
            },
            None => {
                if map.unused.len() > 0 {
                    assert(map.unused.remove(0) =~= map.unused.subrange(
                        1,
                        map.unused.len() as int,
                    ));
                } else if let Some(place) = loose_place(map.mapped, map.held, 0) {
                    assert(map.mapped[place].1 == map.mapped[place].1);
                    if after.mapped.contains(map.mapped[place]) {
                        let i = choose|i: int|
                            0 <= i < after.mapped.len() && after.mapped[i] == map.mapped[place];
                        let other: int = if i < map.mapped.len() - place - 1 {
                            i + place + 1
                        } else {
                            i - (map.mapped.len() - place - 1)
                        };
                        assert(map.mapped[other] == map.mapped[place]);
                    }
                }
            },
        }
    }
}

/// A journal is a fixed word, its version, the number of symbols of a key, the number of borrowed
/// keys, and then those keys in order.
pub proof fn journals_list_the_borrowed_keys(journal: JournalView)
    requires
        journal.borrowed.len() <= u32::MAX,
    ensures
        ({
            let words = journal_words(journal);
            &&& words.len() == 4 + journal.borrowed.len()
            &&& words[0] == 0x4355_4b4d
            &&& words[1] == 1
            &&& words[2] == journal.keysyms_per_keycode
            &&& words[3] == journal.borrowed.len()
            &&& forall|i: int|
                0 <= i < journal.borrowed.len() ==> words[4 + i] == #[trigger] journal.borrowed[i]
        }),
{
}

proof fn payloads_without_fault(words: Seq<u32>)
    ensures
        payload_fault(words) is None <==> (forall|i: int|
            0 <= i < words.len() ==> #[trigger] words[i] <= 255 && words[i] != 8) && (forall|
            i: int,
            j: int,
        |
            0 <= i < j < words.len() ==> words[i] != words[j]),
    decreases words.len(),
{
    if words.len() > 0 {
        let shorter = words.drop_last();
        let last = words.len() - 1;
        payloads_without_fault(shorter);
        assert forall|i: int| 0 <= i < last implies #[trigger] shorter[i] == words[i] by {}
        if payload_fault(words) is None {
            assert forall|i: int| 0 <= i < words.len() implies #[trigger] words[i] <= 255
                && words[i] != 8 by {
                if i < last {
                    assert(shorter[i] == words[i]);
                }
            }
            assert forall|i: int, j: int| 0 <= i < j < words.len() implies words[i]
                != words[j] by {
                assert(shorter[i] == words[i]);
                if j < last {
                    assert(shorter[j] == words[j]);
                } else {
                    assert(shorter.contains(shorter[i]));
                }
            }
        } else if payload_fault(shorter) is None {
            if shorter.contains(words.last()) {
                let i = choose|i: int| 0 <= i < shorter.len() && shorter[i] == words.last();
                assert(words[i] == words[last]);
            }
            assert(words.last() == words[last]);
        } else {
            if (forall|i: int|
                0 <= i < words.len() ==> #[trigger] words[i] <= 255 && words[i] != 8) && (forall|
                i: int,
                j: int,
            |
                0 <= i < j < words.len() ==> words[i] != words[j]) {
                assert forall|i: int| 0 <= i < shorter.len() implies #[trigger] shorter[i] <= 255
                    && shorter[i] != 8 by {
                    assert(shorter[i] == words[i]);
                }
                assert(false);
            }
        }
    }
}

/// Words are a journal exactly where they start with the fixed word and version 1, tell a number
/// of symbols from 1 to 255 and the number of the words that follow, and those are distinct
/// keycodes up to 255, of which none is 8. The journal is then what they say.
pub proof fn journals_are_told_by_their_words(words: Seq<u32>)
    ensures
        unreadable(words) is None <==> {
            &&& words.len() >= 4
            &&& words[0] == 0x4355_4b4d
            &&& words[1] == 1
            &&& 1 <= words[2] <= 255
            &&& words[3] == words.len() - 4
            &&& forall|i: int| 4 <= i < words.len() ==> #[trigger] words[i] <= 255 && words[i] != 8
            &&& forall|i: int, j: int| 4 <= i < j < words.len() ==> words[i] != words[j]
        },
        unreadable(words) is None ==> {
            let journal = journal_of(words);
            &&& journal.keysyms_per_keycode == words[2]
            &&& journal.borrowed.len() == words.len() - 4
            &&& forall|i: int|
                0 <= i < journal.borrowed.len() ==> #[trigger] journal.borrowed[i] == words[i + 4]
        },
{
    if words.len() >= 4 {
        let payload = words.skip(4);
        payloads_without_fault(payload);
        assert forall|i: int| 4 <= i < words.len() implies #[trigger] words[i] == payload[i
            - 4] by {}
        assert forall|i: int| 0 <= i < payload.len() implies #[trigger] payload[i] == words[i
            + 4] by {}
        if payload_fault(payload) is None {
            assert forall|i: int, j: int| 4 <= i < j < words.len() implies words[i]
                != words[j] by {
                assert(payload[i - 4] != payload[j - 4]);
            }
        }
        if (forall|i: int| 4 <= i < words.len() ==> #[trigger] words[i] <= 255 && words[i] != 8)
            && (forall|i: int, j: int| 4 <= i < j < words.len() ==> words[i] != words[j]) {
            assert forall|i: int, j: int| 0 <= i < j < payload.len() implies payload[i]
                != payload[j] by {
                assert(words[i + 4] != words[j + 4]);
            }
        }
    }
}

/// Keys are given back in the order in which they were borrowed, then their journal goes, and only
/// then is the keyboard map given up; without borrowed keys it is given up at once.
pub proof fn borrowed_keys_are_given_back_first(borrowed: Seq<u8>)
    ensures
        ({
            let steps = release_steps(borrowed);
            let count: nat = if borrowed.len() == 0 {
                0
            } else {
                borrowed.len() + 1
            };
            &&& steps.len() == count + 3
            &&& forall|i: int|
                0 <= i < borrowed.len() ==> steps[i] == ReleaseOp::Clear(#[trigger] borrowed[i])
            &&& borrowed.len() > 0 ==> steps[count - 1] == ReleaseOp::DeleteJournal
            &&& steps[count as int] == ReleaseOp::DropOwner
            &&& steps[count as int + 1] == ReleaseOp::DestroyWindow
            &&& steps[count as int + 2] == ReleaseOp::Sync
        }),
{
}

/// A key whose journal could not be written is given back: the keyboard is as it was before the
/// key was borrowed.
pub proof fn unjournaled_keys_are_given_back(map: KeyboardView, symbol: u32)
    requires
        map.valid(),
        map.keycode_for(symbol).1 matches Ok(op) && op is Persist,
    ensures
        map.keycode_for(symbol).0.unborrowed() == map,
{
    let after = map.keycode_for(symbol).0;
    assert(seq![map.unused[0]] + map.unused.remove(0) =~= map.unused);
    assert(after.borrowed.drop_last() =~= map.borrowed);
}

/// A key that was let type a symbol types it from then on: the symbol is found at that key at
/// once, and the keys of all other symbols stay.
pub proof fn remapped_keys_type_their_symbol(
    map: KeyboardView,
    symbol: u32,
    keycode: u8,
    other: u32,
    place: int,
)
    requires
        map.valid(),
        map.awaits(symbol, keycode),
        base_key(map.min_keycode, map.keysyms_per_keycode, map.keysyms, symbol) is None,
        base_key(map.min_keycode, map.keysyms_per_keycode, map.keysyms, other) is None,
        0 <= place < map.mapped.len(),
        map.mapped[place].0 == other,
    ensures
        map.with_symbol(symbol, keycode).keycode_for(symbol).1 == Ok::<KeyOpView, CuErrorView>(
            KeyOpView::Ready(keycode),
        ),
        map.with_symbol(symbol, keycode).keycode_for(other).1 == Ok::<KeyOpView, CuErrorView>(
            KeyOpView::Ready(map.mapped[place].1),
        ),
        map.with_symbol(symbol, keycode).borrowed == map.borrowed,
        map.with_symbol(symbol, keycode).held == map.held,
{
    let after = map.with_symbol(symbol, keycode);
    first_place(after.mapped, symbol, 0);
    first_place(after.mapped, other, 0);
    assert(after.mapped[map.mapped.len() as int] == (symbol, keycode));
    assert(after.mapped[place] == map.mapped[place]);
    if let Some(found) = place_of(after.mapped, symbol, 0) {
        if found < map.mapped.len() {
            assert(after.mapped[found] == map.mapped[found]);
        }
    }
    if let Some(found) = place_of(after.mapped, other, 0) {
        if found < map.mapped.len() {
            assert(after.mapped[found] == map.mapped[found]);
        } else {
            assert(map.mapped[place].0 != symbol);
        }
    }
}

/// Pressing and releasing a key changes whether that key is held, and no other.
pub proof fn keys_are_held_one_by_one(map: KeyboardView, keycode: u8, down: bool, other: u8)
    requires
        map.valid(),
    ensures
        map.with_held(keycode, down).held[keycode as int] == down,
        other != keycode ==> map.with_held(keycode, down).held[other as int]
            == map.held[other as int],
        map.with_held(keycode, down).held.len() == 256,
        map.with_held(keycode, down).mapped == map.mapped,
        map.with_held(keycode, down).borrowed == map.borrowed,
        map.with_held(keycode, down).unused == map.unused,
{
}

/// An earlier owner's journal is followed key by key, then removed, and then the server is waited
/// for. A key outside the keyboard's range, or one that is a modifier now, ends the recovery.
pub proof fn recovery_follows_the_journal(
    journal: JournalView,
    done: int,
    min: u8,
    max: u8,
    modifiers: Seq<u8>,
)
    requires
        0 <= done,
    ensures
        ({
            let step = recovery_step(journal, done, min, max, modifiers);
            let count = journal.borrowed.len();
            &&& done < count ==> {
                let keycode = journal.borrowed[done];
                if min <= keycode <= max && !modifiers.contains(keycode) {
                    step == Ok::<Option<RecoverOp>, CuErrorView>(Some(RecoverOp::Clear(keycode)))
                } else {
                    step matches Err(error) && error.code is InputFailed
                }
            }
            &&& done == count ==> step == Ok::<Option<RecoverOp>, CuErrorView>(
                Some(RecoverOp::DeleteJournal),
            )
            &&& done == count + 1 ==> step == Ok::<Option<RecoverOp>, CuErrorView>(
                Some(RecoverOp::Sync),
            )
            &&& done > count + 1 ==> step == Ok::<Option<RecoverOp>, CuErrorView>(None)
        }),
{
}

/// An earlier owner's journal is what a whole property of the journal's own type holds in its
/// words; a missing property is no journal, and any other one is refused.
pub proof fn journals_are_read_from_whole_properties(property: Option<PropertyView>)
    ensures
        property is None ==> journal_in(property) == Ok::<Option<JournalView>, CuErrorView>(None),
        property matches Some(found) ==> (journal_in(property) is Ok <==> found.is_cardinal
            && found.bytes_after == 0 && (found.words matches Some(words) && unreadable(words)
            is None)),
        property matches Some(found) ==> (journal_in(property) matches Ok(journal) ==> journal
            == Some(journal_of(found.words->0))),
        journal_in(property) matches Err(error) ==> error.code is InputFailed,
{
}

} // verus!
