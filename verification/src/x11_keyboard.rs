//! Preparing the keyboard of an X11 display: the order from reading its modifiers to reading the map
//! that keys are borrowed from.
use vstd::prelude::*;

use crate::input::{follows, Next};
use crate::keymap::{
    journal_in, keycode_count, read_journal, recover, recovery_step, spare_keycodes,
    JournalProperty, JournalView, KeyboardMap, KeyboardView, KeymapJournal, PropertyView,
    RecoverOp,
};
use crate::protocol::{failure, CuError, CuErrorView, ErrorCode};
use crate::x11::{listed_modifiers, modifier_keycodes, pressed_modifiers, stuck_modifiers};

verus! {

/// An operation of bringing the keyboard into its neutral state.
#[derive(Debug, Clone, Copy, PartialEq, Eq, Structural)]
pub enum NormalizeOp {
    /// Release a modifier key.
    Release(u8),
    /// Unlock and unlatch every modifier.
    Unlock,
}

/// The operations that bring the keyboard into its neutral state, in order: the stuck modifiers are
/// released first.
pub open spec fn normalize_steps(stuck: Seq<u8>) -> Seq<NormalizeOp> {
    Seq::new(stuck.len(), |i: int| NormalizeOp::Release(stuck[i])).push(NormalizeOp::Unlock)
}

/// What bringing the keyboard into its neutral state does once `done` operations were tried and the
/// last try ended in `outcome`: the next operation, or the end.
pub fn normalize_keyboard_state(
    stuck: &Vec<u8>,
    done: usize,
    outcome: Result<(), CuError>,
) -> (next: Next<NormalizeOp>)
    requires
        done <= stuck.len() + 1,
    ensures
        follows(normalize_steps(stuck@), done as int, outcome, next),
{
    match outcome {
        Err(error) => Next::Done(Err(error)),
        Ok(()) => {
            if done < stuck.len() {
                Next::Perform(NormalizeOp::Release(stuck[done]))
            } else if done == stuck.len() {
                Next::Perform(NormalizeOp::Unlock)
            } else {
                Next::Done(Ok(()))
            }
        },
    }
}

/// What preparing a keyboard does next.
#[derive(Debug, Clone, Copy, PartialEq, Eq, Structural)]
pub enum KeyboardStep {
    /// Ask for the keys that serve as modifiers.
    ReadModifiers,
    /// Ask for the keys that are pressed.
    QueryKeys,
    Normalize(NormalizeOp),
    /// Claim the keyboard map.
    Claim,
    /// Ask for the journal of an earlier owner.
    ReadJournal,
    Recover(RecoverOp),
    /// Ask for the symbols of a number of keys, from the first one on.
    ReadMap { count: u8 },
    /// The keyboard can be used.
    Ready,
}

/// How a request ended.
pub enum KeyboardEvent {
    Done,
    /// The server's list of modifier keys, with zeros in unused places.
    Modifiers(Vec<u8>),
    /// The server's map of pressed keys.
    Pressed(Vec<u8>),
    /// The property that holds an earlier owner's journal.
    Journal(Option<JournalProperty>),
    Symbols { keysyms_per_keycode: u8, keysyms: Vec<u32> },
    Failed(CuError),
}

/// A request's end with its lists as sequences.
pub enum KeyboardEventView {
    Done,
    Modifiers(Seq<u8>),
    Pressed(Seq<u8>),
    Journal(Option<PropertyView>),
    Symbols { keysyms_per_keycode: u8, keysyms: Seq<u32> },
    Failed(CuErrorView),
}

impl View for KeyboardEvent {
    type V = KeyboardEventView;

    open spec fn view(&self) -> KeyboardEventView {
        match *self {
            KeyboardEvent::Done => KeyboardEventView::Done,
            KeyboardEvent::Modifiers(keycodes) => KeyboardEventView::Modifiers(keycodes@),
            KeyboardEvent::Pressed(pressed) => KeyboardEventView::Pressed(pressed@),
            KeyboardEvent::Journal(property) => KeyboardEventView::Journal(
                match property {
                    Some(property) => Some(property@),
                    None => None,
                },
            ),
            KeyboardEvent::Symbols { keysyms_per_keycode, keysyms } => KeyboardEventView::Symbols {
                keysyms_per_keycode,
                keysyms: keysyms@,
            },
            KeyboardEvent::Failed(error) => KeyboardEventView::Failed(error@),
        }
    }
}

/// A keyboard that is being prepared.
pub struct KeyboardStart {
    pub min_keycode: u8,
    pub max_keycode: u8,
    pub step: KeyboardStep,
    /// The keys that serve as modifiers.
    pub modifiers: Vec<u8>,
    /// The modifiers that were pressed.
    pub stuck: Vec<u8>,
    /// The journal of an earlier owner.
    pub journal: KeymapJournal,
    /// How many operations of a series went well.
    pub done: usize,
    pub keymap: Option<KeyboardMap>,
}

/// A keyboard that is being prepared, with its lists as sequences.
pub struct KeyboardStartView {
    pub min_keycode: u8,
    pub max_keycode: u8,
    pub step: KeyboardStep,
    pub modifiers: Seq<u8>,
    pub stuck: Seq<u8>,
    pub journal: JournalView,
    pub done: nat,
    pub keymap: Option<KeyboardView>,
}

impl View for KeyboardStart {
    type V = KeyboardStartView;

    open spec fn view(&self) -> KeyboardStartView {
        KeyboardStartView {
            min_keycode: self.min_keycode,
            max_keycode: self.max_keycode,
            step: self.step,
            modifiers: self.modifiers@,
            stuck: self.stuck@,
            journal: self.journal@,
            done: self.done as nat,
            keymap: match self.keymap {
                Some(keymap) => Some(keymap@),
                None => None,
            },
        }
    }
}

impl KeyboardStartView {
    /// Whether an event can be the end of the next request.
    pub open spec fn expects(self, event: KeyboardEventView) -> bool {
        !(self.step is Ready) && (event is Failed || match self.step {
            KeyboardStep::ReadModifiers => event is Modifiers,
            KeyboardStep::QueryKeys => event matches KeyboardEventView::Pressed(pressed)
                && pressed.len() == 32,
            KeyboardStep::ReadJournal => event is Journal,
            KeyboardStep::ReadMap { .. } => event matches KeyboardEventView::Symbols {
                keysyms_per_keycode,
                ..
            } && keysyms_per_keycode > 0,
            _ => event is Done,
        })
    }

    /// Whether the next request is the one that the state leads to.
    pub open spec fn valid(self) -> bool {
        match self.step {
            KeyboardStep::Normalize(op) => self.done < normalize_steps(self.stuck).len() && op
                == normalize_steps(self.stuck)[self.done as int],
            KeyboardStep::Recover(op) => self.recovery(self.done) == Ok::<
                Option<RecoverOp>,
                CuErrorView,
            >(Some(op)) && self.done < self.journal.borrowed.len() + 2 <= usize::MAX,
            KeyboardStep::ReadMap { count } => self.min_keycode <= self.max_keycode && count
                == self.max_keycode - self.min_keycode + 1,
            KeyboardStep::Ready => self.keymap matches Some(keymap) && keymap.valid(),
            _ => true,
        }
    }

    /// The state before another request.
    pub open spec fn at(self, step: KeyboardStep) -> Result<KeyboardStartView, CuErrorView> {
        Ok(KeyboardStartView { step, ..self })
    }

    /// The operation that follows the first ones in putting journaled keys back.
    pub open spec fn recovery(self, done: nat) -> Result<Option<RecoverOp>, CuErrorView> {
        recovery_step(
            self.journal,
            done as int,
            self.min_keycode,
            self.max_keycode,
            self.modifiers,
        )
    }

    /// Ask for the keyboard map.
    pub open spec fn reads_map(self) -> Result<KeyboardStartView, CuErrorView> {
        if 0 <= self.max_keycode - self.min_keycode < u8::MAX {
            self.at(
                KeyboardStep::ReadMap { count: (self.max_keycode - self.min_keycode + 1) as u8 },
            )
        } else {
            Err(failure(ErrorCode::InputFailed, "invalid X11 keyboard keycode range"@))
        }
    }

    /// Go on with putting journaled keys back, once a number of operations went well.
    pub open spec fn recovers(self, done: nat) -> Result<KeyboardStartView, CuErrorView> {
        match self.recovery(done) {
            Ok(Some(op)) => KeyboardStartView { done, ..self }.at(KeyboardStep::Recover(op)),
            Ok(None) => KeyboardStartView { done, ..self }.reads_map(),
            Err(error) => Err(error),
        }
    }

    /// Go on with neutralizing the keyboard, once a number of keys were released.
    pub open spec fn normalizes(self, done: nat) -> Result<KeyboardStartView, CuErrorView> {
        KeyboardStartView { done, ..self }.at(
            KeyboardStep::Normalize(normalize_steps(self.stuck)[done as int]),
        )
    }

    /// The state after an event, or the failure that ends the preparation.
    pub open spec fn next(self, event: KeyboardEventView) -> Result<
        KeyboardStartView,
        CuErrorView,
    > {
        match (self.step, event) {
            (_, KeyboardEventView::Failed(error)) => Err(error),
            (KeyboardStep::ReadModifiers, KeyboardEventView::Modifiers(keycodes)) =>
                KeyboardStartView { modifiers: listed_modifiers(keycodes), ..self }.at(
                KeyboardStep::QueryKeys,
            ),
            (KeyboardStep::QueryKeys, KeyboardEventView::Pressed(pressed)) => KeyboardStartView {
                stuck: pressed_modifiers(pressed, self.modifiers),
                ..self
            }.normalizes(0),
            (KeyboardStep::Normalize(NormalizeOp::Release(_)), _) => self.normalizes(self.done + 1),
            (KeyboardStep::Normalize(NormalizeOp::Unlock), _) => self.at(KeyboardStep::Claim),
            (KeyboardStep::Claim, _) => self.at(KeyboardStep::ReadJournal),
            (KeyboardStep::ReadJournal, KeyboardEventView::Journal(property)) => match journal_in(
                property,
            ) {
                Ok(Some(journal)) => KeyboardStartView { journal, ..self }.recovers(0),
                Ok(None) => self.reads_map(),
                Err(error) => Err(error),
            },
            (KeyboardStep::Recover(_), _) => self.recovers(self.done + 1),
            (
                KeyboardStep::ReadMap { .. },
                KeyboardEventView::Symbols { keysyms_per_keycode, keysyms },
            ) => {
                let unused = spare_keycodes(
                    self.min_keycode,
                    (self.max_keycode - self.min_keycode + 1) as nat,
                    keysyms_per_keycode,
                    keysyms,
                    self.modifiers,
                );
                if unused.len() == 0 {
                    Err(
                        failure(
                            ErrorCode::UnsupportedInput,
                            "X11 keyboard map has no unused keycode for text injection"@,
                        ),
                    )
                } else {
                    KeyboardStartView {
                        keymap: Some(
                            KeyboardView {
                                min_keycode: self.min_keycode,
                                keysyms_per_keycode,
                                keysyms,
                                unused,
                                borrowed: Seq::empty(),
                                mapped: Seq::empty(),
                                held: Seq::new(256, |i: int| false),
                            },
                        ),
                        ..self
                    }.at(KeyboardStep::Ready)
                }
            },
            _ => Ok(self),
        }
    }

    /// The place of the next request in the preparation.
    pub open spec fn place(self) -> nat {
        match self.step {
            KeyboardStep::ReadModifiers => 0,
            KeyboardStep::QueryKeys => 1,
            KeyboardStep::Normalize(_) => 2,
            KeyboardStep::Claim => 3,
            KeyboardStep::ReadJournal => 4,
            KeyboardStep::Recover(_) => 5,
            KeyboardStep::ReadMap { .. } => 6,
            KeyboardStep::Ready => 7,
        }
    }
}

impl KeyboardStart {
    /// A keyboard with a range of keycodes of which nothing else is known yet.
    pub fn new(min_keycode: u8, max_keycode: u8) -> (start: Self)
        ensures
            start@ == (KeyboardStartView {
                min_keycode,
                max_keycode,
                step: KeyboardStep::ReadModifiers,
                modifiers: Seq::empty(),
                stuck: Seq::empty(),
                journal: JournalView { keysyms_per_keycode: 0, borrowed: Seq::empty() },
                done: 0,
                keymap: None,
            }),
            start@.valid(),
    {
        let start = KeyboardStart {
            min_keycode,
            max_keycode,
            step: KeyboardStep::ReadModifiers,
            modifiers: Vec::new(),
            stuck: Vec::new(),
            journal: KeymapJournal { keysyms_per_keycode: 0, borrowed: Vec::new() },
            done: 0,
            keymap: None,
        };
        assert(start@.modifiers =~= Seq::empty());
        assert(start@.stuck =~= Seq::empty());
        assert(start@.journal.borrowed =~= Seq::empty());
        start
    }

    fn read_map(&self) -> (result: Result<KeyboardStep, CuError>)
        ensures
            match result {
                Ok(step) => self@.reads_map() == self@.at(step),
                Err(error) => self@.reads_map() == Err::<KeyboardStartView, CuErrorView>(error@),
            },
    {
        match keycode_count(self.min_keycode, self.max_keycode) {
            Ok(count) => Ok(KeyboardStep::ReadMap { count }),
            Err(error) => Err(error),
        }
    }

    fn next_recovery(&self) -> (result: Result<KeyboardStep, CuError>)
        requires
            self.done <= self.journal.borrowed.len() + 2,
        ensures
            match result {
                Ok(step) => self@.recovers(self.done as nat) == self@.at(step),
                Err(error) => self@.recovers(self.done as nat) == Err::<
                    KeyboardStartView,
                    CuErrorView,
                >(error@),
            },
    {
        match recover(
            &self.journal,
            self.done,
            Ok(()),
            self.min_keycode,
            self.max_keycode,
            &self.modifiers,
        ) {
            Next::Perform(op) => Ok(KeyboardStep::Recover(op)),
            Next::Done(Ok(())) => self.read_map(),
            Next::Done(Err(error)) => Err(error),
        }
    }

    fn next_normalization(&self) -> (step: KeyboardStep)
        requires
            self.done <= self.stuck.len(),
        ensures
            self@.normalizes(self.done as nat) == self@.at(step),
    {
        match normalize_keyboard_state(&self.stuck, self.done, Ok(())) {
            Next::Perform(op) => KeyboardStep::Normalize(op),
            Next::Done(_) => KeyboardStep::Claim,
        }
    }

    /// Take the end of a request and return the next one.
    pub fn advance(&mut self, event: KeyboardEvent) -> (result: Result<KeyboardStep, CuError>)
        requires
            old(self)@.valid(),
            old(self)@.expects(event@),
        ensures
            match result {
                Ok(step) => old(self)@.next(event@) == Ok::<KeyboardStartView, CuErrorView>(
                    final(self)@,
                ) && final(self)@.step == step && final(self)@.valid(),
                Err(error) => old(self)@.next(event@) == Err::<KeyboardStartView, CuErrorView>(
                    error@,
                ) && final(self)@ == (KeyboardStartView {
                    journal: final(self)@.journal,
                    done: final(self)@.done,
                    ..old(self)@
                }),
            },
    {
        let next = match (self.step, event) {
            (_, KeyboardEvent::Failed(error)) => Err(error),
            (KeyboardStep::ReadModifiers, KeyboardEvent::Modifiers(keycodes)) => {
                self.modifiers = modifier_keycodes(&keycodes);
                Ok(KeyboardStep::QueryKeys)
            },
            (KeyboardStep::QueryKeys, KeyboardEvent::Pressed(pressed)) => {
                self.stuck = stuck_modifiers(&pressed, &self.modifiers);
                self.done = 0;
                Ok(self.next_normalization())
            },
            (KeyboardStep::Normalize(NormalizeOp::Release(_)), _) => {
                assert(normalize_steps(self.stuck@).last() == NormalizeOp::Unlock);
                assert(self.done < self.stuck.len());
                self.done = self.done + 1;
                Ok(self.next_normalization())
            },
            (KeyboardStep::Normalize(NormalizeOp::Unlock), _) => Ok(KeyboardStep::Claim),
            (KeyboardStep::Claim, _) => Ok(KeyboardStep::ReadJournal),
            (KeyboardStep::ReadJournal, KeyboardEvent::Journal(property)) => {
                assert(property matches Some(property) ==> (property.words matches Some(words)
                    ==> words.len() <= usize::MAX));
                match read_journal(property) {
                    Ok(Some(journal)) => {
                        self.journal = journal;
                        self.done = 0;
                        self.next_recovery()
                    },
                    Ok(None) => self.read_map(),
                    Err(error) => Err(error),
                }
            },
            (KeyboardStep::Recover(_), _) => {
                self.done = self.done + 1;
                self.next_recovery()
            },
            (
                KeyboardStep::ReadMap { .. },
                KeyboardEvent::Symbols { keysyms_per_keycode, keysyms },
            ) => {
                match KeyboardMap::read(
                    self.min_keycode,
                    self.max_keycode,
                    keysyms_per_keycode,
                    keysyms,
                    &self.modifiers,
                ) {
                    Ok(keymap) => {
                        self.keymap = Some(keymap);
                        Ok(KeyboardStep::Ready)
                    },
                    Err(error) => Err(error),
                }
            },
            (step, _) => Ok(step),
        };
        if let Ok(step) = &next {
            self.step = *step;
        }
        next
    }
}

/// A keyboard is prepared in one order: the modifiers are read, the stuck ones released and the locks
/// undone, the map is claimed, an earlier owner's keys are put back, and the map is read. No journal
/// is read and no key is changed before the map is claimed, and the map is read only once no journal
/// is left.
pub proof fn keyboards_are_prepared_in_order(start: KeyboardStartView, event: KeyboardEventView)
    requires
        start.valid(),
        start.expects(event),
    ensures
        event is Failed ==> start.next(event) is Err,
        start.next(event) matches Ok(after) ==> {
            ||| after.place() == start.place() + 1
            ||| after.place() == start.place() && after.done == start.done + 1
            ||| start.step is ReadJournal && after.step is ReadMap
        },
        start.next(event) matches Ok(after) ==> (after.place() > 3 ==> start.place() >= 3),
        start.next(event) matches Ok(after) ==> (after.step is ReadMap ==> {
            ||| start.step == KeyboardStep::Recover(RecoverOp::Sync)
            ||| event == KeyboardEventView::Journal(None)
        }),
{
}

} // verus!
