//! What whole runs of keyboard input do: typed texts, chords and held keys.
use vstd::prelude::*;

use crate::chord::{
    chord_begun, named_symbols, typing_begun, ChordPhase, ChordView, KeyEventView, KeyboardOpView,
    TypingPhase, TypingView,
};
use crate::keymap::KeyboardView;
use crate::keys::Key;
use crate::niri::{hold_begun, HoldOpView, HoldView};
use crate::protocol::CuErrorView;
use crate::x11::{char_keysym, named_symbol};

verus! {

/// The typing of a text and its next operation after a series of events.
pub open spec fn typing_after(text: Seq<char>, events: Seq<KeyEventView>) -> (
    TypingView,
    KeyboardOpView,
)
    decreases events.len(),
{
    if events.len() == 0 {
        typing_begun(text)
    } else {
        typing_after(text, events.drop_last()).0.next(events.last())
    }
}

/// Whether every operation of typing went well so far: for each character a key was found, pressed
/// and released, and the pause after it ended.
pub open spec fn typing_goes_well(keys: Seq<u8>, events: Seq<KeyEventView>) -> bool {
    forall|j: int|
        0 <= j < events.len() ==> #[trigger] events[j] == (if j % 4 == 0 {
            KeyEventView::Found(keys[j / 4])
        } else {
            KeyEventView::Done
        })
}

/// A text is typed character by character, in order: for each one the key of exactly its symbol is
/// asked for, then pressed and released, and the typing ends well after the last one.
pub proof fn texts_are_typed_character_by_character(
    text: Seq<char>,
    keys: Seq<u8>,
    events: Seq<KeyEventView>,
)
    requires
        forall|i: int| 0 <= i < text.len() ==> char_keysym(#[trigger] text[i]) != 0,
        keys.len() == text.len(),
        events.len() <= 4 * text.len(),
        typing_goes_well(keys, events),
    ensures
        ({
            let place = events.len() as int / 4;
            let op = typing_after(text, events).1;
            if place == text.len() {
                op == KeyboardOpView::Finish(None)
            } else if events.len() % 4 == 0 {
                op == KeyboardOpView::Find(char_keysym(text[place]))
            } else if events.len() % 4 == 1 {
                op == KeyboardOpView::Press(keys[place])
            } else if events.len() % 4 == 2 {
                op == KeyboardOpView::Release(keys[place])
            } else {
                op == (KeyboardOpView::Pause { ms: 12 })
            }
        }),
{
    typing_keeps_its_place(text, keys, events);
}

proof fn typing_keeps_its_place(text: Seq<char>, keys: Seq<u8>, events: Seq<KeyEventView>)
    requires
        forall|i: int| 0 <= i < text.len() ==> char_keysym(#[trigger] text[i]) != 0,
        keys.len() == text.len(),
        events.len() <= 4 * text.len(),
        typing_goes_well(keys, events),
    ensures
        ({
            let place = events.len() as int / 4;
            let (after, op) = typing_after(text, events);
            &&& after.chars == text
            &&& after.typed == place
            &&& if place == text.len() {
                after.phase is Over && op == KeyboardOpView::Finish(None)
            } else if events.len() % 4 == 0 {
                after.phase is Finding && op == KeyboardOpView::Find(char_keysym(text[place]))
            } else if events.len() % 4 == 1 {
                after.phase == TypingPhase::Pressing(keys[place]) && op == KeyboardOpView::Press(
                    keys[place],
                )
            } else if events.len() % 4 == 2 {
                after.phase == TypingPhase::Releasing(keys[place]) && op
                    == KeyboardOpView::Release(keys[place])
            } else {
                after.phase is Pausing && op == (KeyboardOpView::Pause { ms: 12 })
            }
        }),
    decreases events.len(),
{
    if events.len() > 0 {
        let earlier = events.drop_last();
        assert(typing_goes_well(keys, earlier)) by {
            assert forall|j: int| 0 <= j < earlier.len() implies #[trigger] earlier[j] == (if j % 4
                == 0 {
                KeyEventView::Found(keys[j / 4])
            } else {
                KeyEventView::Done
            }) by {
                assert(earlier[j] == events[j]);
            }
        }
        typing_keeps_its_place(text, keys, earlier);
        assert(events.last() == events[events.len() - 1]);
    }
}

/// Typing stops at the first failure and reports it, and at the first character without a symbol.
pub proof fn typing_stops_at_a_failure(typing: TypingView, error: CuErrorView)
    ensures
        typing.next(KeyEventView::Failed(error)).1 == KeyboardOpView::Finish(Some(error)),
        typing.next(KeyEventView::Failed(error)).0.phase is Over,
        0 <= typing.typed < typing.chars.len() && char_keysym(typing.chars[typing.typed]) == 0 ==> (
        typing.started().1 matches KeyboardOpView::Finish(Some(refused))
            && refused.code is UnsupportedInput),
{
}

/// A key counts as held from its press until its release was tried, whether it went well or not,
/// and nothing else changes what is held.
pub proof fn typing_holds_a_key_while_it_is_down(
    typing: TypingView,
    event: KeyEventView,
    map: KeyboardView,
    key: u8,
)
    requires
        typing.expects(event),
        map.held.len() == 256,
    ensures
        typing.held_after(event, map).held[key as int] == (if typing.phase == TypingPhase::Pressing(
            key,
        ) && event is Done {
            true
        } else if typing.phase == TypingPhase::Releasing(key) {
            false
        } else {
            map.held[key as int]
        }),
        typing.held_after(event, map) == (KeyboardView {
            held: typing.held_after(event, map).held,
            ..map
        }),
{
}

/// A chord and its next operation after a series of events.
pub open spec fn chord_after(names: Seq<Seq<char>>, operates: bool, events: Seq<KeyEventView>) -> (
    ChordView,
    KeyboardOpView,
)
    decreases events.len(),
{
    if events.len() == 0 {
        chord_begun(names, operates)
    } else {
        chord_after(names, operates, events.drop_last()).0.next(events.last())
    }
}

/// Whether every operation of a chord went well so far: each key was found and pressed, and what
/// came afterwards ended.
pub open spec fn chord_goes_well(keys: Seq<u8>, events: Seq<KeyEventView>) -> bool {
    forall|j: int|
        0 <= j < events.len() ==> #[trigger] events[j] == (if j < 2 * keys.len() && j % 2 == 0 {
            KeyEventView::Found(keys[j / 2])
        } else {
            KeyEventView::Done
        })
}

/// A chord presses the keys of its names in order, then does what they are held for, and then
/// releases them, the last one first, and ends well after that.
pub proof fn chords_hold_their_keys_in_order(
    names: Seq<Seq<char>>,
    operates: bool,
    keys: Seq<u8>,
    events: Seq<KeyEventView>,
)
    requires
        keys.len() == names.len(),
        forall|i: int| 0 <= i < names.len() ==> named_symbol(#[trigger] names[i]) is Ok,
        events.len() <= 3 * names.len() + (if operates {
            1int
        } else {
            0
        }),
        chord_goes_well(keys, events),
    ensures
        ({
            let count = names.len() as int;
            let done = events.len() as int;
            let op = chord_after(names, operates, events).1;
            let released = done - 2 * count - (if operates {
                1int
            } else {
                0
            });
            if done < 2 * count {
                if done % 2 == 0 {
                    named_symbol(names[done / 2]) matches Ok(symbol) && op == KeyboardOpView::Find(
                        symbol,
                    )
                } else {
                    op == KeyboardOpView::Press(keys[done / 2])
                }
            } else if operates && done == 2 * count {
                op == KeyboardOpView::Operate
            } else if released < count {
                op == KeyboardOpView::Release(keys[count - 1 - released])
            } else {
                op == KeyboardOpView::Finish(None)
            }
        }),
{
    chords_keep_their_place(names, operates, keys, events);
}

proof fn chords_keep_their_place(
    names: Seq<Seq<char>>,
    operates: bool,
    keys: Seq<u8>,
    events: Seq<KeyEventView>,
)
    requires
        keys.len() == names.len(),
        forall|i: int| 0 <= i < names.len() ==> named_symbol(#[trigger] names[i]) is Ok,
        events.len() <= 3 * names.len() + (if operates {
            1int
        } else {
            0
        }),
        chord_goes_well(keys, events),
    ensures
        ({
            let count = names.len() as int;
            let done = events.len() as int;
            let (after, op) = chord_after(names, operates, events);
            let released = done - 2 * count - (if operates {
                1int
            } else {
                0
            });
            &&& after.symbols == named_symbols(names)
            &&& after.operates == operates
            &&& after.failed is None
            &&& if done < 2 * count {
                after.pressed == keys.take(done / 2) && if done % 2 == 0 {
                    after.phase is Finding && op == KeyboardOpView::Find(
                        named_symbol(names[done / 2])->Ok_0,
                    )
                } else {
                    after.phase == ChordPhase::Pressing(keys[done / 2]) && op
                        == KeyboardOpView::Press(keys[done / 2])
                }
            } else if operates && done == 2 * count {
                after.pressed == keys && after.phase is Operating && op == KeyboardOpView::Operate
            } else if released < count {
                after.pressed == keys.take(count - released) && after.phase is Releasing && op
                    == KeyboardOpView::Release(keys[count - 1 - released])
            } else {
                after.pressed.len() == 0 && after.phase is Over && op == KeyboardOpView::Finish(
                    None,
                )
            }
        }),
    decreases events.len(),
{
    let count = names.len() as int;
    assert(keys.take(count) =~= keys);
    if events.len() == 0 {
        assert(keys.take(0) =~= Seq::empty());
    } else {
        let earlier = events.drop_last();
        let done = earlier.len() as int;
        assert(chord_goes_well(keys, earlier)) by {
            assert forall|j: int| 0 <= j < earlier.len() implies #[trigger] earlier[j] == (if j < 2
                * keys.len() && j % 2 == 0 {
                KeyEventView::Found(keys[j / 2])
            } else {
                KeyEventView::Done
            }) by {
                assert(earlier[j] == events[j]);
            }
        }
        chords_keep_their_place(names, operates, keys, earlier);
        assert(events.last() == events[done]);
        let before = chord_after(names, operates, earlier).0;
        if done < 2 * count {
            if done % 2 == 1 {
                assert(keys.take(done / 2).push(keys[done / 2]) =~= keys.take(done / 2 + 1));
            }
        } else {
            let released = done - 2 * count - (if operates {
                1int
            } else {
                0
            });
            if !(operates && done == 2 * count) {
                assert(keys.take(count - released).drop_last() =~= keys.take(
                    count - released - 1,
                ));
            }
        }
    }
}

/// A chord that lets go, and its next operation, after a series of events.
pub open spec fn unwound(chord: ChordView, events: Seq<KeyEventView>) -> (
    ChordView,
    KeyboardOpView,
)
    decreases events.len(),
{
    if events.len() == 0 {
        chord.unwinding()
    } else {
        unwound(chord, events.drop_last()).0.next(events.last())
    }
}

/// A chord lets go as soon as something fails before its keys are released: no further key is asked
/// for or pressed, and what the keys were held for is not done any more.
pub proof fn failed_chords_let_go(chord: ChordView, error: CuErrorView)
    requires
        chord.valid(),
        chord.phase is Finding || chord.phase is Pressing || chord.phase is Operating,
        chord.failed is None,
    ensures
        ({
            let (after, op) = chord.next(KeyEventView::Failed(error));
            &&& after.failed == Some(error)
            &&& after.pressed == chord.pressed
            &&& chord.pressed.len() == 0 ==> op == KeyboardOpView::Finish(Some(error))
            &&& chord.pressed.len() > 0 ==> op == KeyboardOpView::Release(
                chord.pressed[chord.pressed.len() - 1],
            ) && after.phase is Releasing
            &&& (after, op) == unwound(
                ChordView { failed: Some(error), ..chord },
                Seq::empty(),
            )
        }),
{
}

/// A chord that lets go releases every key that it holds, the last one first, also where a release
/// fails, and then reports the first failure of all.
pub proof fn chords_let_go_of_every_key(chord: ChordView, events: Seq<KeyEventView>)
    requires
        events.len() <= chord.pressed.len(),
        forall|i: int|
            0 <= i < events.len() ==> (#[trigger] events[i]) is Done || events[i] is Failed,
    ensures
        ({
            let (after, op) = unwound(chord, events);
            let held = chord.pressed.len() - events.len();
            &&& after.pressed == chord.pressed.take(held)
            &&& held > 0 ==> op == KeyboardOpView::Release(chord.pressed[held - 1])
                && after.phase is Releasing
            &&& held == 0 ==> op == KeyboardOpView::Finish(after.failed) && after.phase is Over
            &&& chord.failed is Some ==> after.failed == chord.failed
            &&& chord.failed is None && (forall|i: int|
                0 <= i < events.len() ==> (#[trigger] events[i]) is Done) ==> after.failed is None
            &&& forall|i: int|
                chord.failed is None && 0 <= i < events.len() && (#[trigger] events[i]) is Failed && (
                forall|j: int| 0 <= j < i ==> (#[trigger] events[j]) is Done) ==> after.failed
                    == Some(events[i]->Failed_0)
        }),
    decreases events.len(),
{
    if events.len() == 0 {
        assert(chord.pressed.take(chord.pressed.len() as int) =~= chord.pressed);
    } else {
        let earlier = events.drop_last();
        let last = events.len() - 1;
        assert forall|i: int| 0 <= i < earlier.len() implies #[trigger] earlier[i] == events[i] by {}
        chords_let_go_of_every_key(chord, earlier);
        assert(events.last() == events[last]);
        let held = chord.pressed.len() - earlier.len();
        assert(chord.pressed.take(held).drop_last() =~= chord.pressed.take(held - 1));
        let before = unwound(chord, earlier).0;
        assert forall|i: int|
            chord.failed is None && 0 <= i < events.len() && (#[trigger] events[i]) is Failed && (
            forall|j: int| 0 <= j < i ==> (#[trigger] events[j]) is Done) implies unwound(
            chord,
            events,
        ).0.failed == Some(events[i]->Failed_0) by {
            if i < last {
                assert(earlier[i] == events[i]);
                assert forall|j: int| 0 <= j < i implies (#[trigger] earlier[j]) is Done by {
                    assert(earlier[j] == events[j]);
                }
            } else {
                assert forall|j: int| 0 <= j < earlier.len() implies (
                #[trigger] earlier[j]) is Done by {
                    assert(earlier[j] == events[j]);
                }
            }
        }
        if chord.failed is None && (forall|i: int|
            0 <= i < events.len() ==> (#[trigger] events[i]) is Done) {
            assert forall|j: int| 0 <= j < earlier.len() implies (#[trigger] earlier[j]) is Done by {
                assert(earlier[j] == events[j]);
            }
        }
    }
}

/// A key of a chord counts as held from its press until its release was tried.
pub proof fn chords_hold_a_key_while_it_is_down(
    chord: ChordView,
    event: KeyEventView,
    map: KeyboardView,
    key: u8,
)
    requires
        chord.valid(),
        chord.expects(event),
        map.held.len() == 256,
    ensures
        chord.held_after(event, map).held[key as int] == (if chord.phase == ChordPhase::Pressing(
            key,
        ) && event is Done {
            true
        } else if chord.phase is Releasing && chord.pressed[chord.pressed.len() - 1] == key {
            false
        } else {
            map.held[key as int]
        }),
        chord.held_after(event, map) == (KeyboardView {
            held: chord.held_after(event, map).held,
            ..map
        }),
{
}

/// Held keys after a series of outcomes.
pub open spec fn held_after_outcomes(keys: Seq<Key>, outcomes: Seq<Option<CuErrorView>>) -> HoldView
    decreases outcomes.len(),
{
    if outcomes.len() == 0 {
        hold_begun(keys)
    } else {
        held_after_outcomes(keys, outcomes.drop_last()).after(outcomes.last())
    }
}

/// Keys are pressed in order up to the first press that fails, then what they are held for is done,
/// unless a press failed, and then the pressed ones are released, the last one first; a failed
/// release stops nothing. The end reports the failed press or the operation's failure.
pub proof fn held_keys_are_let_go_in_reverse(
    keys: Seq<Key>,
    pressed: int,
    outcomes: Seq<Option<CuErrorView>>,
)
    requires
        0 <= pressed <= keys.len(),
        pressed < outcomes.len(),
        forall|i: int| 0 <= i < pressed ==> (#[trigger] outcomes[i]) is None,
        pressed < keys.len() ==> outcomes[pressed] is Some,
        outcomes.len() <= 2 * pressed + 1,
    ensures
        forall|i: int|
            0 <= i < pressed ==> #[trigger] held_after_outcomes(keys, outcomes.take(i)).op()
                == HoldOpView::Press(keys[i]),
        held_after_outcomes(keys, outcomes.take(pressed)).op() == (if pressed < keys.len() {
            HoldOpView::Press(keys[pressed])
        } else {
            HoldOpView::Operate
        }),
        ({
            let held = 2 * pressed + 1 - outcomes.len();
            held_after_outcomes(keys, outcomes).op() == (if held > 0 {
                HoldOpView::Release(keys[held - 1])
            } else {
                HoldOpView::Finish(outcomes[pressed])
            })
        }),
{
    assert forall|i: int| 0 <= i < pressed implies #[trigger] held_after_outcomes(
        keys,
        outcomes.take(i),
    ).op() == HoldOpView::Press(keys[i]) by {
        presses_go_well(keys, pressed, outcomes, i);
    }
    presses_go_well(keys, pressed, outcomes, pressed);
    releases_follow(keys, pressed, outcomes, outcomes.len() as int);
    assert(outcomes.take(outcomes.len() as int) =~= outcomes);
}

proof fn presses_go_well(
    keys: Seq<Key>,
    pressed: int,
    outcomes: Seq<Option<CuErrorView>>,
    count: int,
)
    requires
        0 <= count <= pressed <= keys.len(),
        pressed < outcomes.len(),
        forall|i: int| 0 <= i < pressed ==> (#[trigger] outcomes[i]) is None,
    ensures
        held_after_outcomes(keys, outcomes.take(count)) == (HoldView {
            keys,
            pressed: count,
            releasing: false,
            failed: None,
        }),
    decreases count,
{
    if count > 0 {
        presses_go_well(keys, pressed, outcomes, count - 1);
        assert(outcomes.take(count).drop_last() =~= outcomes.take(count - 1));
        assert(outcomes.take(count).last() == outcomes[count - 1]);
    }
}

proof fn releases_follow(
    keys: Seq<Key>,
    pressed: int,
    outcomes: Seq<Option<CuErrorView>>,
    count: int,
)
    requires
        0 <= pressed <= keys.len(),
        pressed < count <= outcomes.len(),
        forall|i: int| 0 <= i < pressed ==> (#[trigger] outcomes[i]) is None,
        pressed < keys.len() ==> outcomes[pressed] is Some,
        count <= 2 * pressed + 1,
    ensures
        held_after_outcomes(keys, outcomes.take(count)) == (HoldView {
            keys,
            pressed: 2 * pressed + 1 - count,
            releasing: true,
            failed: outcomes[pressed],
        }),
    decreases count,
{
    assert(outcomes.take(count).drop_last() =~= outcomes.take(count - 1));
    assert(outcomes.take(count).last() == outcomes[count - 1]);
    if count == pressed + 1 {
        presses_go_well(keys, pressed, outcomes, pressed);
    } else {
        releases_follow(keys, pressed, outcomes, count - 1);
    }
}

} // verus!
