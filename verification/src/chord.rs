//! Pressing and releasing keys: chords around an operation, and typed text.
use vstd::prelude::*;

use crate::keymap::{KeyboardMap, KeyboardView};
use crate::protocol::{texts, CuError, CuErrorView};
use crate::text::chars_of;
use crate::x11::{
    names_failure, names_failure_of_prefix, named_symbol, parse_symbol, symbol_for_text,
    text_symbol,
};

verus! {

/// Pause after each typed character, in milliseconds.
pub const KEY_DELAY_MS: u64 = 12;

/// How an operation on the keyboard ended.
pub enum KeyEvent {
    /// The key that types the requested symbol.
    Found(u8),
    Done,
    Failed(CuError),
}

/// An operation's end with its failure's text as a sequence.
pub enum KeyEventView {
    Found(u8),
    Done,
    Failed(CuErrorView),
}

impl View for KeyEvent {
    type V = KeyEventView;

    open spec fn view(&self) -> KeyEventView {
        match *self {
            KeyEvent::Found(keycode) => KeyEventView::Found(keycode),
            KeyEvent::Done => KeyEventView::Done,
            KeyEvent::Failed(error) => KeyEventView::Failed(error@),
        }
    }
}

/// What input by keys does next.
pub enum KeyboardOp {
    /// Get a key that types a symbol.
    Find(u32),
    Press(u8),
    /// Do what the keys are held for.
    Operate,
    Release(u8),
    Pause { ms: u64 },
    Finish(Result<(), CuError>),
}

/// An operation with its failure's text as a sequence.
pub enum KeyboardOpView {
    Find(u32),
    Press(u8),
    Operate,
    Release(u8),
    Pause { ms: u64 },
    Finish(Option<CuErrorView>),
}

impl View for KeyboardOp {
    type V = KeyboardOpView;

    open spec fn view(&self) -> KeyboardOpView {
        match *self {
            KeyboardOp::Find(symbol) => KeyboardOpView::Find(symbol),
            KeyboardOp::Press(keycode) => KeyboardOpView::Press(keycode),
            KeyboardOp::Operate => KeyboardOpView::Operate,
            KeyboardOp::Release(keycode) => KeyboardOpView::Release(keycode),
            KeyboardOp::Pause { ms } => KeyboardOpView::Pause { ms },
            KeyboardOp::Finish(result) => KeyboardOpView::Finish(crate::validate::refusal(result)),
        }
    }
}

/// What a chord is waiting for.
#[derive(Debug, Clone, Copy, PartialEq, Eq, Structural)]
pub enum ChordPhase {
    /// A key that types the next symbol.
    Finding,
    /// The press of a key.
    Pressing(u8),
    /// The end of the operation that the keys are held for.
    Operating,
    /// The release of the last key that is still held.
    Releasing,
    /// Nothing: the chord is over.
    Over,
}

/// Keys that are pressed in order, held during an operation, and released in reverse order.
pub struct Chord {
    pub symbols: Vec<u32>,
    /// Whether something happens while the keys are held.
    pub operates: bool,
    /// Keys that are held, in the order in which they were pressed.
    pub pressed: Vec<u8>,
    /// The first failure.
    pub failed: Option<CuError>,
    pub phase: ChordPhase,
}

/// A chord with its lists and its failure's text as sequences.
pub struct ChordView {
    pub symbols: Seq<u32>,
    pub operates: bool,
    pub pressed: Seq<u8>,
    pub failed: Option<CuErrorView>,
    pub phase: ChordPhase,
}

impl View for Chord {
    type V = ChordView;

    open spec fn view(&self) -> ChordView {
        ChordView {
            symbols: self.symbols@,
            operates: self.operates,
            pressed: self.pressed@,
            failed: match self.failed {
                Some(error) => Some(error@),
                None => None,
            },
            phase: self.phase,
        }
    }
}

impl ChordView {
    /// Whether an event can be the end of what the chord is waiting for.
    pub open spec fn expects(self, event: KeyEventView) -> bool {
        match self.phase {
            ChordPhase::Finding => event is Found || event is Failed,
            ChordPhase::Over => false,
            _ => event is Done || event is Failed,
        }
    }

    /// Whether what the chord is waiting for goes with its lists.
    pub open spec fn valid(self) -> bool {
        &&& self.pressed.len() <= self.symbols.len()
        &&& (self.phase is Finding || self.phase is Pressing) ==> self.pressed.len()
            < self.symbols.len()
        &&& self.phase is Releasing ==> self.pressed.len() > 0
        &&& self.phase is Over ==> self.pressed.len() == 0
    }

    /// The chord once all its keys were found that will be, and what it does: release the last key
    /// that is held, or end.
    pub open spec fn unwinding(self) -> (ChordView, KeyboardOpView) {
        if self.pressed.len() > 0 {
            (
                ChordView { phase: ChordPhase::Releasing, ..self },
                KeyboardOpView::Release(self.pressed.last()),
            )
        } else {
            (
                ChordView { phase: ChordPhase::Over, ..self },
                KeyboardOpView::Finish(self.failed),
            )
        }
    }

    /// What the chord does once it has pressed `pressed`: the next symbol; after the last one the
    /// operation.
    pub open spec fn winding(self) -> (ChordView, KeyboardOpView) {
        if self.pressed.len() < self.symbols.len() {
            (
                ChordView { phase: ChordPhase::Finding, ..self },
                KeyboardOpView::Find(self.symbols[self.pressed.len() as int]),
            )
        } else if self.operates {
            (ChordView { phase: ChordPhase::Operating, ..self }, KeyboardOpView::Operate)
        } else {
            self.unwinding()
        }
    }

    /// The chord with a failure, if it had none.
    pub open spec fn failing(self, error: CuErrorView) -> ChordView {
        ChordView {
            failed: match self.failed {
                Some(first) => Some(first),
                None => Some(error),
            },
            ..self
        }
    }

    /// The chord and its next operation after an event.
    pub open spec fn next(self, event: KeyEventView) -> (ChordView, KeyboardOpView) {
        match (self.phase, event) {
            (ChordPhase::Finding, KeyEventView::Found(keycode)) => (
                ChordView { phase: ChordPhase::Pressing(keycode), ..self },
                KeyboardOpView::Press(keycode),
            ),
            (ChordPhase::Finding, KeyEventView::Failed(error)) => self.failing(error).unwinding(),
            (ChordPhase::Pressing(_), KeyEventView::Failed(error)) => self.failing(
                error,
            ).unwinding(),
            (ChordPhase::Pressing(keycode), _) => ChordView {
                pressed: self.pressed.push(keycode),
                ..self
            }.winding(),
            (ChordPhase::Operating, KeyEventView::Failed(error)) => self.failing(
                error,
            ).unwinding(),
            (ChordPhase::Operating, _) => self.unwinding(),
            (ChordPhase::Releasing, KeyEventView::Failed(error)) => ChordView {
                pressed: self.pressed.drop_last(),
                ..self.failing(error)
            }.unwinding(),
            (ChordPhase::Releasing, _) => ChordView {
                pressed: self.pressed.drop_last(),
                ..self
            }.unwinding(),
            _ => (self, KeyboardOpView::Finish(self.failed)),
        }
    }

    /// What an event tells of the keys that are held.
    pub open spec fn held_after(self, event: KeyEventView, map: KeyboardView) -> KeyboardView {
        match self.phase {
            ChordPhase::Pressing(keycode) => if event is Done {
                map.with_held(keycode, true)
            } else {
                map
            },
            ChordPhase::Releasing => map.with_held(self.pressed.last(), false),
            _ => map,
        }
    }
}

/// The symbols that names stand for, where each stands for one.
pub open spec fn named_symbols(names: Seq<Seq<char>>) -> Seq<u32> {
    Seq::new(names.len(), |i: int| named_symbol(names[i])->Ok_0)
}

/// A chord of the symbols that names stand for, before its first key.
pub open spec fn new_chord(names: Seq<Seq<char>>, operates: bool) -> ChordView {
    ChordView {
        symbols: named_symbols(names),
        operates,
        pressed: Seq::empty(),
        failed: None,
        phase: ChordPhase::Over,
    }
}

/// A chord of the symbols that names stand for, and its first operation.
pub open spec fn chord_begun(names: Seq<Seq<char>>, operates: bool) -> (ChordView, KeyboardOpView) {
    new_chord(names, operates).winding()
}

impl Chord {
    /// Start a chord: nothing is pressed unless every name stands for a key.
    pub fn press_keys(names: &Vec<String>, operates: bool) -> (result: Result<
        (Chord, KeyboardOp),
        CuError,
    >)
        ensures
            match names_failure(texts(names@)) {
                Some(failure) => result matches Err(error) && error@ == failure,
                None => result matches Ok((chord, op)) && (chord@, op@) == new_chord(
                    texts(names@),
                    operates,
                ).winding() && chord@.valid(),
            },
            result matches Ok((chord, op)) ==> (chord@, op@) == chord_begun(
                texts(names@),
                operates,
            ),
    {
        let ghost all = texts(names@);
        let mut symbols: Vec<u32> = Vec::new();
        let mut n: usize = 0;
        while n < names.len()
            invariant
                n <= names.len(),
                all == texts(names@),
                names_failure(all.take(n as int)) is None,
                symbols@ == named_symbols(all).take(n as int),
            decreases names.len() - n,
        {
            assert(all.take(n + 1).drop_last() =~= all.take(n as int));
            assert(all.take(n + 1).last() == names@[n as int]@);
            match parse_symbol(&names[n]) {
                Ok(symbol) => {
                    symbols.push(symbol);
                },
                Err(error) => {
                    proof {
                        names_failure_of_prefix(all, n + 1);
                    }
                    return Err(error);
                },
            }
            n += 1;
            assert(symbols@ =~= named_symbols(all).take(n as int));
        }
        assert(all.take(n as int) =~= all);
        assert(symbols@ =~= named_symbols(all));
        let mut chord = Chord {
            symbols,
            operates,
            pressed: Vec::new(),
            failed: None,
            phase: ChordPhase::Over,
        };
        assert(chord@.pressed =~= Seq::empty());
        let op = chord.wind();
        Ok((chord, op))
    }

    fn wind(&mut self) -> (op: KeyboardOp)
        requires
            old(self)@.pressed.len() <= old(self)@.symbols.len(),
        ensures
            (final(self)@, op@) == old(self)@.winding(),
            final(self)@.valid(),
    {
        let count: usize = self.pressed.len();
        if count < self.symbols.len() {
            self.phase = ChordPhase::Finding;
            KeyboardOp::Find(self.symbols[count])
        } else if self.operates {
            self.phase = ChordPhase::Operating;
            KeyboardOp::Operate
        } else {
            self.unwind()
        }
    }

    fn unwind(&mut self) -> (op: KeyboardOp)
        requires
            old(self)@.pressed.len() <= old(self)@.symbols.len(),
        ensures
            (final(self)@, op@) == old(self)@.unwinding(),
            final(self)@.valid(),
    {
        let count: usize = self.pressed.len();
        if count > 0 {
            self.phase = ChordPhase::Releasing;
            KeyboardOp::Release(self.pressed[count - 1])
        } else {
            self.phase = ChordPhase::Over;
            KeyboardOp::Finish(
                match &self.failed {
                    Some(error) => Err(error.clone()),
                    None => Ok(()),
                },
            )
        }
    }

    fn fail(&mut self, error: CuError)
        ensures
            final(self)@ == old(self)@.failing(error@),
    {
        if self.failed.is_none() {
            self.failed = Some(error);
        }
    }

    /// Take the end of the chord's operation and return the next one.
    pub fn advance(&mut self, map: &mut KeyboardMap, event: KeyEvent) -> (op: KeyboardOp)
        requires
            old(self)@.valid(),
            old(self)@.expects(event@),
            old(map)@.valid(),
        ensures
            (final(self)@, op@) == old(self)@.next(event@),
            final(self)@.valid(),
            final(map)@ == old(self)@.held_after(event@, old(map)@),
            final(map)@.valid(),
    {
        match self.phase {
            ChordPhase::Finding => match event {
                KeyEvent::Found(keycode) => {
                    self.phase = ChordPhase::Pressing(keycode);
                    KeyboardOp::Press(keycode)
                },
                KeyEvent::Failed(error) => {
                    self.fail(error);
                    self.unwind()
                },
                KeyEvent::Done => self.unwind(),
            },
            ChordPhase::Pressing(keycode) => match event {
                KeyEvent::Failed(error) => {
                    self.fail(error);
                    self.unwind()
                },
                _ => {
                    map.set_held(keycode, true);
                    self.pressed.push(keycode);
                    self.wind()
                },
            },
            ChordPhase::Operating => {
                if let KeyEvent::Failed(error) = event {
                    self.fail(error);
                }
                self.unwind()
            },
            ChordPhase::Releasing => {
                let ghost before = self@;
                if let KeyEvent::Failed(error) = event {
                    self.fail(error);
                }
                let last: usize = self.pressed.len() - 1;
                map.set_held(self.pressed[last], false);
                self.pressed.pop();
                self.unwind()
            },
            ChordPhase::Over => {
                self.phase = ChordPhase::Over;
                KeyboardOp::Finish(
                    match &self.failed {
                        Some(error) => Err(error.clone()),
                        None => Ok(()),
                    },
                )
            },
        }
    }
}

/// A chord ends only once every key that it pressed was released, the one pressed last first, and
/// reports the first failure that it met.
pub proof fn chords_release_what_they_press(chord: ChordView, event: KeyEventView)
    requires
        chord.valid(),
        chord.expects(event),
    ensures
        ({
            let (after, op) = chord.next(event);
            &&& after.valid()
            &&& op is Finish ==> after.pressed.len() == 0 && op == KeyboardOpView::Finish(
                after.failed,
            )
            &&& op matches KeyboardOpView::Release(keycode) ==> after.phase is Releasing
                && after.pressed.last() == keycode
            &&& chord.phase is Releasing ==> after.pressed == chord.pressed.drop_last()
            &&& after.pressed.len() < chord.pressed.len() ==> chord.phase is Releasing
            &&& chord.failed is Some ==> after.failed == chord.failed
            &&& event is Failed && chord.failed is None ==> after.failed == Some(event->Failed_0)
            &&& event is Failed && chord.phase is Pressing ==> after.pressed == chord.pressed && (
            op is Release || op is Finish)
        }),
{
}

/// What typing a text is waiting for.
#[derive(Debug, Clone, Copy, PartialEq, Eq, Structural)]
pub enum TypingPhase {
    /// A key that types the next character.
    Finding,
    Pressing(u8),
    Releasing(u8),
    Pausing,
    /// Nothing: the typing is over.
    Over,
}

/// A text that is typed character by character.
pub struct Typing {
    pub chars: Vec<char>,
    /// Number of characters that were typed.
    pub typed: usize,
    pub phase: TypingPhase,
}

/// A typed text with its characters as a sequence.
pub struct TypingView {
    pub chars: Seq<char>,
    pub typed: int,
    pub phase: TypingPhase,
}

impl View for Typing {
    type V = TypingView;

    open spec fn view(&self) -> TypingView {
        TypingView { chars: self.chars@, typed: self.typed as int, phase: self.phase }
    }
}

impl TypingView {
    /// Whether an event can be the end of what the typing is waiting for.
    pub open spec fn expects(self, event: KeyEventView) -> bool {
        match self.phase {
            TypingPhase::Finding => event is Found || event is Failed,
            TypingPhase::Pausing => event is Done,
            TypingPhase::Over => false,
            _ => event is Done || event is Failed,
        }
    }

    /// Whether the place in the text goes with what the typing is waiting for.
    pub open spec fn valid(self) -> bool {
        &&& 0 <= self.typed <= self.chars.len()
        &&& !(self.phase is Over) ==> self.typed < self.chars.len()
    }

    /// The end of the typing.
    pub open spec fn ended(self, failure: Option<CuErrorView>) -> (TypingView, KeyboardOpView) {
        (TypingView { phase: TypingPhase::Over, ..self }, KeyboardOpView::Finish(failure))
    }

    /// What the typing does for the character at its place.
    pub open spec fn started(self) -> (TypingView, KeyboardOpView) {
        if self.typed >= self.chars.len() {
            self.ended(None)
        } else {
            match text_symbol(self.chars[self.typed]) {
                Ok(symbol) => (
                    TypingView { phase: TypingPhase::Finding, ..self },
                    KeyboardOpView::Find(symbol),
                ),
                Err(error) => self.ended(Some(error)),
            }
        }
    }

    /// The typing and its next operation after an event.
    pub open spec fn next(self, event: KeyEventView) -> (TypingView, KeyboardOpView) {
        match (self.phase, event) {
            (_, KeyEventView::Failed(error)) => self.ended(Some(error)),
            (TypingPhase::Finding, KeyEventView::Found(keycode)) => (
                TypingView { phase: TypingPhase::Pressing(keycode), ..self },
                KeyboardOpView::Press(keycode),
            ),
            (TypingPhase::Pressing(keycode), _) => (
                TypingView { phase: TypingPhase::Releasing(keycode), ..self },
                KeyboardOpView::Release(keycode),
            ),
            (TypingPhase::Releasing(_), _) => (
                TypingView { phase: TypingPhase::Pausing, ..self },
                KeyboardOpView::Pause { ms: KEY_DELAY_MS },
            ),
            (TypingPhase::Pausing, _) => TypingView { typed: self.typed + 1, ..self }.started(),
            _ => self.ended(None),
        }
    }

    /// What an event tells of the keys that are held.
    pub open spec fn held_after(self, event: KeyEventView, map: KeyboardView) -> KeyboardView {
        match self.phase {
            TypingPhase::Pressing(keycode) => if event is Done {
                map.with_held(keycode, true)
            } else {
                map
            },
            TypingPhase::Releasing(keycode) => map.with_held(keycode, false),
            _ => map,
        }
    }
}

/// Typing a text, and its first operation.
pub open spec fn typing_begun(text: Seq<char>) -> (TypingView, KeyboardOpView) {
    TypingView { chars: text, typed: 0, phase: TypingPhase::Over }.started()
}

impl Typing {
    /// Start typing a text.
    pub fn type_text(text: &str) -> (started: (Typing, KeyboardOp))
        ensures
            ((started.0)@, (started.1)@) == (TypingView {
                chars: text@,
                typed: 0,
                phase: TypingPhase::Over,
            }).started(),
            ((started.0)@, (started.1)@) == typing_begun(text@),
            (started.0)@.valid(),
    {
        let mut typing = Typing { chars: chars_of(text), typed: 0, phase: TypingPhase::Over };
        let op = typing.start();
        (typing, op)
    }

    fn start(&mut self) -> (op: KeyboardOp)
        requires
            0 <= old(self)@.typed <= old(self)@.chars.len(),
        ensures
            (final(self)@, op@) == old(self)@.started(),
            final(self)@.valid(),
    {
        if self.typed >= self.chars.len() {
            self.phase = TypingPhase::Over;
            return KeyboardOp::Finish(Ok(()));
        }
        match symbol_for_text(self.chars[self.typed]) {
            Ok(symbol) => {
                self.phase = TypingPhase::Finding;
                KeyboardOp::Find(symbol)
            },
            Err(error) => {
                self.phase = TypingPhase::Over;
                KeyboardOp::Finish(Err(error))
            },
        }
    }

    /// Take the end of the typing's operation and return the next one.
    pub fn advance(&mut self, map: &mut KeyboardMap, event: KeyEvent) -> (op: KeyboardOp)
        requires
            old(self)@.valid(),
            old(self)@.expects(event@),
            old(map)@.valid(),
        ensures
            (final(self)@, op@) == old(self)@.next(event@),
            final(self)@.valid(),
            final(map)@ == old(self)@.held_after(event@, old(map)@),
            final(map)@.valid(),
    {
        match self.phase {
            TypingPhase::Pressing(keycode) => {
                if let KeyEvent::Done = event {
                    map.set_held(keycode, true);
                }
            },
            TypingPhase::Releasing(keycode) => {
                map.set_held(keycode, false);
            },
            _ => {},
        }
        let keycode = match event {
            KeyEvent::Failed(error) => {
                self.phase = TypingPhase::Over;
                return KeyboardOp::Finish(Err(error));
            },
            KeyEvent::Found(keycode) => Some(keycode),
            KeyEvent::Done => None,
        };
        match (self.phase, keycode) {
            (TypingPhase::Finding, Some(keycode)) => {
                self.phase = TypingPhase::Pressing(keycode);
                KeyboardOp::Press(keycode)
            },
            (TypingPhase::Pressing(keycode), _) => {
                self.phase = TypingPhase::Releasing(keycode);
                KeyboardOp::Release(keycode)
            },
            (TypingPhase::Releasing(_), _) => {
                self.phase = TypingPhase::Pausing;
                KeyboardOp::Pause { ms: KEY_DELAY_MS }
            },
            (TypingPhase::Pausing, _) => {
                assert(self.typed < self.chars.len());
                self.typed = self.typed + 1;
                self.start()
            },
            _ => {
                self.phase = TypingPhase::Over;
                KeyboardOp::Finish(Ok(()))
            },
        }
    }
}

} // verus!
