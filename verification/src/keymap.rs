//! Temporary changes to an X11 keyboard map: which keys may be borrowed, and the journal by which a
//! later owner puts them back.
use vstd::prelude::*;

use crate::input::{follows, outcome_before, series_stop_at_the_first_failure, Next};
use crate::protocol::{failure, CuError, CuErrorView, ErrorCode};
use crate::store::joined_error;
use crate::x11::NO_SYMBOL;

verus! {

/// First word of a journal.
pub const KEYMAP_JOURNAL_MAGIC: u32 = 0x4355_4b4d;

/// Second word of a journal.
pub const KEYMAP_JOURNAL_VERSION: u32 = 1;

/// Number of words before the borrowed keycodes.
pub const KEYMAP_JOURNAL_HEADER_WORDS: usize = 4;

/// Number of words that a journal property is read with.
pub const MAX_KEYMAP_JOURNAL_WORDS: u32 = 256;

/// A keycode that is never borrowed.
pub const RESERVED_KEYCODE: u8 = 8;

/// The keycodes that an owner of the keyboard map has borrowed.
#[derive(Debug, PartialEq, Eq)]
pub struct KeymapJournal {
    pub keysyms_per_keycode: u8,
    pub borrowed: Vec<u8>,
}

/// A journal with its keycodes as a sequence.
pub struct JournalView {
    pub keysyms_per_keycode: u8,
    pub borrowed: Seq<u8>,
}

impl View for KeymapJournal {
    type V = JournalView;

    open spec fn view(&self) -> JournalView {
        JournalView { keysyms_per_keycode: self.keysyms_per_keycode, borrowed: self.borrowed@ }
    }
}

/// The failure of a journal that cannot be written or read.
pub open spec fn journal_failure(message: Seq<char>) -> CuErrorView {
    failure(ErrorCode::InputFailed, "invalid cu X11 keymap recovery journal: "@ + message)
}

fn invalid_keymap_journal(message: &str) -> (error: CuError)
    ensures
        error@ == journal_failure(message@),
{
    joined_error(ErrorCode::InputFailed, "invalid cu X11 keymap recovery journal: ", message)
}

/// The words of a journal: a header and the borrowed keycodes.
pub open spec fn journal_words(journal: JournalView) -> Seq<u32> {
    seq![
        KEYMAP_JOURNAL_MAGIC,
        KEYMAP_JOURNAL_VERSION,
        journal.keysyms_per_keycode as u32,
        journal.borrowed.len() as u32,
    ] + Seq::new(journal.borrowed.len(), |i: int| journal.borrowed[i] as u32)
}

/// Why a journal cannot be written, if it cannot.
pub open spec fn unwritable(journal: JournalView) -> Option<Seq<char>> {
    if journal.keysyms_per_keycode == 0 {
        Some("keysyms-per-keycode is zero"@)
    } else if journal.borrowed.len() + KEYMAP_JOURNAL_HEADER_WORDS > usize::MAX {
        Some("journal length overflows"@)
    } else if journal.borrowed.len() > u32::MAX {
        Some("too many borrowed keycodes"@)
    } else {
        None
    }
}

/// The words of a journal.
pub fn encode_keymap_journal(keysyms_per_keycode: u8, borrowed: &Vec<u8>) -> (result: Result<
    Vec<u32>,
    CuError,
>)
    ensures
        ({
            let journal = JournalView { keysyms_per_keycode, borrowed: borrowed@ };
            match unwritable(journal) {
                Some(message) => result matches Err(error) && error@ == journal_failure(message),
                None => result matches Ok(words) && words@ == journal_words(journal),
            }
        }),
{
    if keysyms_per_keycode == 0 {
        return Err(invalid_keymap_journal("keysyms-per-keycode is zero"));
    }
    if borrowed.len() > usize::MAX - KEYMAP_JOURNAL_HEADER_WORDS {
        return Err(invalid_keymap_journal("journal length overflows"));
    }
    if borrowed.len() as u64 > u32::MAX as u64 {
        return Err(invalid_keymap_journal("too many borrowed keycodes"));
    }
    let ghost journal = JournalView { keysyms_per_keycode, borrowed: borrowed@ };
    let mut words: Vec<u32> = Vec::new();
    words.push(KEYMAP_JOURNAL_MAGIC);
    words.push(KEYMAP_JOURNAL_VERSION);
    words.push(keysyms_per_keycode as u32);
    words.push(borrowed.len() as u32);
    let mut n: usize = 0;
    while n < borrowed.len()
        invariant
            n <= borrowed.len(),
            journal == (JournalView { keysyms_per_keycode, borrowed: borrowed@ }),
            words@ =~= journal_words(journal).take(n + 4),
        decreases borrowed.len() - n,
    {
        words.push(borrowed[n] as u32);
        n += 1;
    }
    assert(words@ =~= journal_words(journal));
    Ok(words)
}

/// Why a word cannot follow the given keycodes, if it cannot.
pub open spec fn keycode_fault(earlier: Seq<u32>, word: u32) -> Option<Seq<char>> {
    if word > u8::MAX {
        Some("keycode is outside the X11 range"@)
    } else if word == RESERVED_KEYCODE || earlier.contains(word) {
        Some("journal contains a reserved or duplicate keycode"@)
    } else {
        None
    }
}

/// The fault of the first word that cannot be a borrowed keycode.
pub open spec fn payload_fault(words: Seq<u32>) -> Option<Seq<char>>
    decreases words.len(),
{
    if words.len() == 0 {
        None
    } else {
        match payload_fault(words.drop_last()) {
            Some(message) => Some(message),
            None => keycode_fault(words.drop_last(), words.last()),
        }
    }
}

/// Why words are no journal, if they are none.
pub open spec fn unreadable(words: Seq<u32>) -> Option<Seq<char>> {
    if words.len() < KEYMAP_JOURNAL_HEADER_WORDS {
        Some("journal header is truncated"@)
    } else if words[0] != KEYMAP_JOURNAL_MAGIC || words[1] != KEYMAP_JOURNAL_VERSION {
        Some("journal magic or version is unsupported"@)
    } else if words[2] == 0 || words[2] > u8::MAX {
        Some("invalid keysyms-per-keycode"@)
    } else if words.len() - KEYMAP_JOURNAL_HEADER_WORDS != words[3] {
        Some("journal payload length is invalid"@)
    } else {
        payload_fault(words.skip(KEYMAP_JOURNAL_HEADER_WORDS as int))
    }
}

/// The journal that words hold.
pub open spec fn journal_of(words: Seq<u32>) -> JournalView {
    JournalView {
        keysyms_per_keycode: words[2] as u8,
        borrowed: Seq::new(
            (words.len() - KEYMAP_JOURNAL_HEADER_WORDS) as nat,
            |i: int| words[i + KEYMAP_JOURNAL_HEADER_WORDS] as u8,
        ),
    }
}

proof fn payload_fault_of_prefix(words: Seq<u32>, n: int)
    requires
        0 <= n <= words.len(),
        payload_fault(words.take(n)) is Some,
    ensures
        payload_fault(words) == payload_fault(words.take(n)),
    decreases words.len() - n,
{
    if n == words.len() {
        assert(words.take(n) =~= words);
    } else {
        assert(words.take(n + 1).drop_last() =~= words.take(n));
        payload_fault_of_prefix(words, n + 1);
    }
}

/// The journal that words hold, or why they hold none.
pub fn decode_keymap_journal(words: &Vec<u32>) -> (result: Result<KeymapJournal, CuError>)
    ensures
        match unreadable(words@) {
            Some(message) => result matches Err(error) && error@ == journal_failure(message),
            None => result matches Ok(journal) && journal@ == journal_of(words@),
        },
{
    if words.len() < KEYMAP_JOURNAL_HEADER_WORDS {
        return Err(invalid_keymap_journal("journal header is truncated"));
    }
    if words[0] != KEYMAP_JOURNAL_MAGIC || words[1] != KEYMAP_JOURNAL_VERSION {
        return Err(invalid_keymap_journal("journal magic or version is unsupported"));
    }
    if words[2] == 0 || words[2] > u8::MAX as u32 {
        return Err(invalid_keymap_journal("invalid keysyms-per-keycode"));
    }
    if (words.len() - KEYMAP_JOURNAL_HEADER_WORDS) as u64 != words[3] as u64 {
        return Err(invalid_keymap_journal("journal payload length is invalid"));
    }
    let ghost payload = words@.skip(KEYMAP_JOURNAL_HEADER_WORDS as int);
    let mut borrowed: Vec<u8> = Vec::new();
    let mut n: usize = KEYMAP_JOURNAL_HEADER_WORDS;
    assert(payload.take(0) =~= Seq::empty());
    while n < words.len()
        invariant
            KEYMAP_JOURNAL_HEADER_WORDS <= n <= words.len(),
            words[2] <= u8::MAX,
            payload == words@.skip(KEYMAP_JOURNAL_HEADER_WORDS as int),
            unreadable(words@) == payload_fault(payload),
            payload_fault(payload.take(n - KEYMAP_JOURNAL_HEADER_WORDS)) is None,
            borrowed@ =~= journal_of(words@).borrowed.take(n - KEYMAP_JOURNAL_HEADER_WORDS),
            forall|i: int| 0 <= i < borrowed.len() ==> payload[i] == #[trigger] borrowed[i],
        decreases words.len() - n,
    {
        let word = words[n];
        let ghost at = n - KEYMAP_JOURNAL_HEADER_WORDS;
        let ghost earlier = payload.take(at);
        assert(payload.take(at + 1).drop_last() =~= earlier);
        assert(payload.take(at + 1).last() == word);
        if word > u8::MAX as u32 {
            proof {
                payload_fault_of_prefix(payload, at + 1);
            }
            return Err(invalid_keymap_journal("keycode is outside the X11 range"));
        }
        let keycode = word as u8;
        let seen = contains_keycode(&borrowed, keycode);
        assert(seen == earlier.contains(word)) by {
            if seen {
                let i = choose|i: int| 0 <= i < borrowed.len() && borrowed@[i] == keycode;
                assert(earlier[i] == word);
            }
            if earlier.contains(word) {
                let i = choose|i: int| 0 <= i < earlier.len() && earlier[i] == word;
                assert(borrowed@[i] == keycode);
            }
        }
        if keycode == RESERVED_KEYCODE || seen {
            proof {
                payload_fault_of_prefix(payload, at + 1);
            }
            return Err(invalid_keymap_journal("journal contains a reserved or duplicate keycode"));
        }
        borrowed.push(keycode);
        n += 1;
    }
    assert(payload.take(payload.len() as int) =~= payload);
    assert(borrowed@ =~= journal_of(words@).borrowed);
    Ok(KeymapJournal { keysyms_per_keycode: words[2] as u8, borrowed })
}

/// Whether a keycode is listed.
pub fn contains_keycode(keycodes: &Vec<u8>, keycode: u8) -> (found: bool)
    ensures
        found == keycodes@.contains(keycode),
{
    let mut n: usize = 0;
    while n < keycodes.len()
        invariant
            n <= keycodes.len(),
            forall|i: int| 0 <= i < n ==> keycodes[i] != keycode,
        decreases keycodes.len() - n,
    {
        if keycodes[n] == keycode {
            return true;
        }
        n += 1;
    }
    false
}

/// What reading a journal gives back is what was written, for keycodes that may be borrowed.
pub proof fn journals_round_trip(journal: JournalView)
    requires
        unwritable(journal) is None,
        journal.borrowed.no_duplicates(),
        !journal.borrowed.contains(RESERVED_KEYCODE),
    ensures
        unreadable(journal_words(journal)) is None,
        journal_of(journal_words(journal)) == journal,
{
    let words = journal_words(journal);
    let payload = words.skip(KEYMAP_JOURNAL_HEADER_WORDS as int);
    borrowable_payload(journal, payload.len() as int);
    assert(payload.take(payload.len() as int) =~= payload);
    assert(journal_of(words).borrowed =~= journal.borrowed);
}

proof fn borrowable_payload(journal: JournalView, n: int)
    requires
        unwritable(journal) is None,
        journal.borrowed.no_duplicates(),
        !journal.borrowed.contains(RESERVED_KEYCODE),
        0 <= n <= journal.borrowed.len(),
    ensures
        payload_fault(journal_words(journal).skip(KEYMAP_JOURNAL_HEADER_WORDS as int).take(n))
            is None,
    decreases n,
{
    let payload = journal_words(journal).skip(KEYMAP_JOURNAL_HEADER_WORDS as int);
    if n > 0 {
        borrowable_payload(journal, n - 1);
        assert(payload.take(n).drop_last() =~= payload.take(n - 1));
        assert(payload.take(n).last() == journal.borrowed[n - 1]);
        assert(journal.borrowed.contains(journal.borrowed[n - 1]));
        let earlier = payload.take(n - 1);
        let word = payload[n - 1];
        if earlier.contains(word) {
            let i = choose|i: int| 0 <= i < earlier.len() && earlier[i] == word;
            assert(journal.borrowed[i] == journal.borrowed[n - 1]);
        }
    }
}

/// Words that can be read are the words of the journal that they hold, which lists no key twice
/// and not the reserved one.
pub proof fn readable_words_are_canonical(words: Seq<u32>)
    requires
        unreadable(words) is None,
    ensures
        journal_words(journal_of(words)) == words,
        journal_of(words).borrowed.no_duplicates(),
        !journal_of(words).borrowed.contains(RESERVED_KEYCODE),
{
    let payload = words.skip(KEYMAP_JOURNAL_HEADER_WORDS as int);
    let borrowed = journal_of(words).borrowed;
    faultless_words(payload);
    assert forall|i: int| 0 <= i < borrowed.len() implies borrowed[i] == payload[i] && borrowed[i]
        != RESERVED_KEYCODE by {
        assert(payload[i] <= u8::MAX);
    }
    assert(journal_words(journal_of(words)) =~= words) by {
        assert forall|i: int| 0 <= i < words.len() implies journal_words(journal_of(words))[i]
            == words[i] by {
            if i >= 4 {
                assert(payload[i - 4] == words[i]);
                assert(borrowed[i - 4] == payload[i - 4]);
            }
        }
    }
    assert forall|i: int, j: int| 0 <= i < j < borrowed.len() implies borrowed[i] != borrowed[j] by {
        assert(payload[i] != payload[j]);
    }
}

proof fn faultless_words(words: Seq<u32>)
    requires
        payload_fault(words) is None,
    ensures
        forall|i: int|
            0 <= i < words.len() ==> #[trigger] words[i] <= u8::MAX && words[i] != RESERVED_KEYCODE,
        forall|i: int, j: int| 0 <= i < j < words.len() ==> words[i] != words[j],
    decreases words.len(),
{
    if words.len() > 0 {
        let earlier = words.drop_last();
        faultless_words(earlier);
        assert forall|i: int| 0 <= i < words.len() implies #[trigger] words[i] <= u8::MAX
            && words[i] != RESERVED_KEYCODE by {
            if i < earlier.len() {
                assert(earlier[i] == words[i]);
            }
        }
        assert forall|i: int, j: int| 0 <= i < j < words.len() implies words[i] != words[j] by {
            assert(earlier[i] == words[i]);
            if j < earlier.len() {
                assert(earlier[j] == words[j]);
            } else {
                assert(earlier.contains(words[i]));
            }
        }
    }
}

/// What the server reports of the journal property.
pub struct JournalProperty {
    /// Whether the property has the journal's type.
    pub is_cardinal: bool,
    /// Number of bytes beyond those that were read.
    pub bytes_after: u32,
    /// The property's words, absent where its items are not words.
    pub words: Option<Vec<u32>>,
}

/// A journal property with its words as a sequence.
pub struct PropertyView {
    pub is_cardinal: bool,
    pub bytes_after: u32,
    pub words: Option<Seq<u32>>,
}

impl View for JournalProperty {
    type V = PropertyView;

    open spec fn view(&self) -> PropertyView {
        PropertyView {
            is_cardinal: self.is_cardinal,
            bytes_after: self.bytes_after,
            words: match self.words {
                Some(words) => Some(words@),
                None => None,
            },
        }
    }
}

/// The journal that a property holds: none where the property is absent.
pub open spec fn journal_in(property: Option<PropertyView>) -> Result<
    Option<JournalView>,
    CuErrorView,
> {
    match property {
        None => Ok(None),
        Some(property) => if !property.is_cardinal || property.bytes_after != 0 {
            Err(journal_failure("property type or length does not match the journal format"@))
        } else {
            match property.words {
                None => Err(journal_failure("property is not 32-bit"@)),
                Some(words) => match unreadable(words) {
                    Some(message) => Err(journal_failure(message)),
                    None => Ok(Some(journal_of(words))),
                },
            }
        },
    }
}

/// The journal that a property holds: none where the property is absent.
pub fn read_journal(property: Option<JournalProperty>) -> (result: Result<
    Option<KeymapJournal>,
    CuError,
>)
    ensures
        match (
            result,
            journal_in(
                match property {
                    Some(property) => Some(property@),
                    None => None,
                },
            ),
        ) {
            (Ok(Some(journal)), Ok(Some(read))) => journal@ == read,
            (Ok(None), Ok(None)) => true,
            (Err(error), Err(refused)) => error@ == refused,
            _ => false,
        },
{
    match property {
        None => Ok(None),
        Some(property) => {
            if !property.is_cardinal || property.bytes_after != 0 {
                return Err(
                    invalid_keymap_journal(
                        "property type or length does not match the journal format",
                    ),
                );
            }
            match property.words {
                None => Err(invalid_keymap_journal("property is not 32-bit")),
                Some(words) => match decode_keymap_journal(&words) {
                    Ok(journal) => Ok(Some(journal)),
                    Err(error) => Err(error),
                },
            }
        },
    }
}

/// Whether a keycode can have been borrowed on this keyboard.
pub open spec fn borrowable(keycode: u8, min: u8, max: u8, modifiers: Seq<u8>) -> bool {
    min <= keycode <= max && !modifiers.contains(keycode)
}

/// An operation of putting journaled keys back.
#[derive(Debug, Clone, Copy, PartialEq, Eq, Structural)]
pub enum RecoverOp {
    /// Remove all symbols from a key.
    Clear(u8),
    DeleteJournal,
    /// Wait until the server has taken everything.
    Sync,
}

/// The operation that follows the first `done` ones in putting journaled keys back, none at the end,
/// or why the journal is refused: each key is checked before it is cleared, and the journal is
/// deleted once all keys are.
pub open spec fn recovery_step(
    journal: JournalView,
    done: int,
    min: u8,
    max: u8,
    modifiers: Seq<u8>,
) -> Result<Option<RecoverOp>, CuErrorView> {
    if done < journal.borrowed.len() {
        if borrowable(journal.borrowed[done], min, max, modifiers) {
            Ok(Some(RecoverOp::Clear(journal.borrowed[done])))
        } else {
            Err(
                journal_failure("journal contains a keycode outside the safe temporary range"@),
            )
        }
    } else if done == journal.borrowed.len() {
        Ok(Some(RecoverOp::DeleteJournal))
    } else if done == journal.borrowed.len() + 1 {
        Ok(Some(RecoverOp::Sync))
    } else {
        Ok(None)
    }
}

/// What follows once `done` operations of putting journaled keys back were tried and the last try
/// ended in `outcome`: the first failure ends the recovery.
pub open spec fn recovery_follows(
    journal: JournalView,
    done: int,
    outcome: Result<(), CuError>,
    min: u8,
    max: u8,
    modifiers: Seq<u8>,
    next: Next<RecoverOp>,
) -> bool {
    match outcome {
        Err(error) => next == Next::<RecoverOp>::Done(Err(error)),
        Ok(()) => match recovery_step(journal, done, min, max, modifiers) {
            Ok(Some(op)) => next == Next::Perform(op),
            Ok(None) => next == Next::<RecoverOp>::Done(Ok(())),
            Err(refused) => next matches Next::Done(Err(error)) && error@ == refused,
        },
    }
}

/// The operation that follows the first `done` ones in putting journaled keys back, or the end.
pub fn recover(
    journal: &KeymapJournal,
    done: usize,
    outcome: Result<(), CuError>,
    min_keycode: u8,
    max_keycode: u8,
    modifiers: &Vec<u8>,
) -> (next: Next<RecoverOp>)
    requires
        done <= journal.borrowed.len() + 2,
    ensures
        recovery_follows(
            journal@,
            done as int,
            outcome,
            min_keycode,
            max_keycode,
            modifiers@,
            next,
        ),
{
    match outcome {
        Err(error) => {
            return Next::Done(Err(error));
        },
        Ok(()) => {},
    }
    let cleared: usize = journal.borrowed.len();
    if done < cleared {
        let keycode = journal.borrowed[done];
        if keycode < min_keycode || keycode > max_keycode || contains_keycode(modifiers, keycode) {
            return Next::Done(
                Err(
                    invalid_keymap_journal(
                        "journal contains a keycode outside the safe temporary range",
                    ),
                ),
            );
        }
        Next::Perform(RecoverOp::Clear(keycode))
    } else if done - cleared == 0 {
        Next::Perform(RecoverOp::DeleteJournal)
    } else if done - cleared == 1 {
        Next::Perform(RecoverOp::Sync)
    } else {
        Next::Done(Ok(()))
    }
}

/// A journal is deleted only once every key that it lists was cleared, and only keys that can have
/// been borrowed are cleared: a refused key or a failure leaves the journal in place.
pub proof fn recovery_keeps_the_journal_until_all_keys_are_cleared(
    journal: JournalView,
    min: u8,
    max: u8,
    modifiers: Seq<u8>,
    outcomes: Seq<Result<(), CuError>>,
    nexts: Seq<Next<RecoverOp>>,
)
    requires
        outcomes.len() <= journal.borrowed.len() + 2,
        nexts.len() == outcomes.len() + 1,
        forall|i: int|
            0 <= i < nexts.len() ==> recovery_follows(
                journal,
                i,
                outcome_before(outcomes, i),
                min,
                max,
                modifiers,
                #[trigger] nexts[i],
            ),
        forall|i: int| 0 <= i < outcomes.len() ==> (#[trigger] nexts[i]) is Perform,
    ensures
        forall|i: int|
            0 <= i < nexts.len() && #[trigger] nexts[i] == Next::Perform(RecoverOp::DeleteJournal)
                ==> i == journal.borrowed.len() && forall|j: int|
                0 <= j < i ==> #[trigger] outcomes[j] is Ok && nexts[j] == Next::Perform(
                    RecoverOp::Clear(journal.borrowed[j]),
                ) && borrowable(journal.borrowed[j], min, max, modifiers),
        nexts.last() == Next::<RecoverOp>::Done(Ok(())) ==> outcomes.len() == journal.borrowed.len()
            + 2,
{
    assert forall|j: int| 0 <= j < outcomes.len() && j + 1 < nexts.len() && nexts[j + 1] is Perform
        implies #[trigger] outcomes[j] is Ok by {
        assert(outcome_before(outcomes, j + 1) == outcomes[j]);
    }
    assert forall|i: int|
        0 <= i < nexts.len() && #[trigger] nexts[i] == Next::Perform(RecoverOp::DeleteJournal) implies i
        == journal.borrowed.len() && forall|j: int|
        0 <= j < i ==> #[trigger] outcomes[j] is Ok && nexts[j] == Next::Perform(
            RecoverOp::Clear(journal.borrowed[j]),
        ) && borrowable(journal.borrowed[j], min, max, modifiers) by {
        assert forall|j: int| 0 <= j < i implies #[trigger] outcomes[j] is Ok && nexts[j]
            == Next::Perform(RecoverOp::Clear(journal.borrowed[j])) && borrowable(
            journal.borrowed[j],
            min,
            max,
            modifiers,
        ) by {
            assert(nexts[j + 1] is Perform);
            assert(nexts[j] is Perform);
        }
    }
}

/// An operation of giving up the keyboard map.
#[derive(Debug, Clone, Copy, PartialEq, Eq, Structural)]
pub enum ReleaseOp {
    /// Remove all symbols from a key.
    Clear(u8),
    DeleteJournal,
    /// Give up the selection that marks the owner.
    DropOwner,
    DestroyWindow,
    /// Wait until the server has taken everything.
    Sync,
}

/// The operations that give up the keyboard map, in order. The journal is touched only by an owner
/// that has borrowed keys.
pub open spec fn release_steps(borrowed: Seq<u8>) -> Seq<ReleaseOp> {
    (if borrowed.len() == 0 {
        Seq::empty()
    } else {
        Seq::new(borrowed.len(), |i: int| ReleaseOp::Clear(borrowed[i])).push(
            ReleaseOp::DeleteJournal,
        )
    }) + seq![ReleaseOp::DropOwner, ReleaseOp::DestroyWindow, ReleaseOp::Sync]
}

/// What giving up the keyboard map does once `done` operations were tried and the last try ended in
/// `outcome`: the next operation, or the end.
pub fn release(borrowed: &Vec<u8>, done: usize, outcome: Result<(), CuError>) -> (next: Next<
    ReleaseOp,
>)
    requires
        done <= release_steps(borrowed@).len(),
    ensures
        follows(release_steps(borrowed@), done as int, outcome, next),
{
    match outcome {
        Err(error) => {
            return Next::Done(Err(error));
        },
        Ok(()) => {},
    }
    let cleared: usize = borrowed.len();
    if done < cleared {
        return Next::Perform(ReleaseOp::Clear(borrowed[done]));
    }
    let mut rest: usize = done - cleared;
    if cleared > 0 {
        if rest == 0 {
            return Next::Perform(ReleaseOp::DeleteJournal);
        }
        rest = rest - 1;
    }
    if rest == 0 {
        Next::Perform(ReleaseOp::DropOwner)
    } else if rest == 1 {
        Next::Perform(ReleaseOp::DestroyWindow)
    } else if rest == 2 {
        Next::Perform(ReleaseOp::Sync)
    } else {
        Next::Done(Ok(()))
    }
}

/// An owner deletes its journal only once every key that it borrowed was cleared: a failure before
/// leaves the journal in place, and the keyboard map with its owner.
pub proof fn release_keeps_the_journal_until_all_keys_are_cleared(
    borrowed: Seq<u8>,
    outcomes: Seq<Result<(), CuError>>,
    nexts: Seq<Next<ReleaseOp>>,
)
    requires
        borrowed.len() > 0,
        outcomes.len() <= release_steps(borrowed).len(),
        nexts.len() == outcomes.len() + 1,
        forall|i: int|
            0 <= i < nexts.len() ==> follows(
                release_steps(borrowed),
                i,
                outcome_before(outcomes, i),
                #[trigger] nexts[i],
            ),
        forall|i: int| 0 <= i < outcomes.len() ==> (#[trigger] nexts[i]) is Perform,
    ensures
        nexts.last() matches Next::Perform(op) ==> !(op is Clear) ==> outcomes.len()
            >= borrowed.len() && forall|j: int|
            0 <= j < borrowed.len() ==> #[trigger] outcomes[j] is Ok && nexts[j] == Next::Perform(
                ReleaseOp::Clear(borrowed[j]),
            ),
{
    series_stop_at_the_first_failure(release_steps(borrowed), outcomes, nexts);
    assert forall|j: int|
        nexts.last() is Perform && outcomes.len() >= borrowed.len() && 0 <= j
            < borrowed.len() implies #[trigger] outcomes[j] is Ok && nexts[j] == Next::Perform(
        ReleaseOp::Clear(borrowed[j]),
    ) by {
        assert(release_steps(borrowed)[j] == ReleaseOp::Clear(borrowed[j]));
        assert(nexts[j] is Perform);
    }
}

/// The column of keyboard symbols that starts with a symbol.
pub open spec fn column_of(keysyms: Seq<u32>, keysyms_per_keycode: u8, symbol: u32) -> Option<nat>
    decreases keysyms.len(),
{
    if keysyms.len() == 0 || keysyms_per_keycode == 0 {
        None
    } else if keysyms[0] == symbol {
        Some(0)
    } else if keysyms.len() <= keysyms_per_keycode {
        None
    } else {
        match column_of(keysyms.skip(keysyms_per_keycode as int), keysyms_per_keycode, symbol) {
            Some(column) => Some(column + 1),
            None => None,
        }
    }
}

/// The key that types a symbol without modifiers.
pub open spec fn base_key(min: u8, keysyms_per_keycode: u8, keysyms: Seq<u32>, symbol: u32) -> Option<
    u8,
> {
    match column_of(keysyms, keysyms_per_keycode, symbol) {
        Some(column) => if min + column <= u8::MAX {
            Some((min + column) as u8)
        } else {
            None
        },
        None => None,
    }
}

/// The key that types a symbol without modifiers.
pub fn base_keycode(min_keycode: u8, keysyms_per_keycode: u8, keysyms: &Vec<u32>, symbol: u32) -> (
result: Option<u8>)
    requires
        keysyms_per_keycode > 0,
    ensures
        result == base_key(min_keycode, keysyms_per_keycode, keysyms@, symbol),
{
    let step: usize = keysyms_per_keycode as usize;
    let mut at: usize = 0;
    let mut column: usize = 0;
    assert(keysyms@.skip(0) =~= keysyms@);
    while at < keysyms.len()
        invariant
            at <= keysyms.len(),
            column <= at,
            step == keysyms_per_keycode,
            step > 0,
            match column_of(keysyms@.skip(at as int), keysyms_per_keycode, symbol) {
                Some(rest) => column_of(keysyms@, keysyms_per_keycode, symbol) == Some(
                    (column + rest) as nat,
                ),
                None => column_of(keysyms@, keysyms_per_keycode, symbol) is None,
            },
        decreases keysyms.len() - at,
    {
        let ghost rest = keysyms@.skip(at as int);
        assert(rest[0] == keysyms@[at as int]);
        if keysyms[at] == symbol {
            assert(column_of(keysyms@, keysyms_per_keycode, symbol) == Some(column as nat));
            if column <= (u8::MAX - min_keycode) as usize {
                return Some(min_keycode + column as u8);
            }
            return None;
        }
        if keysyms.len() - at <= step {
            return None;
        }
        assert(rest.skip(step as int) =~= keysyms@.skip(at + step));
        at += step;
        column += 1;
    }
    assert(keysyms@.skip(at as int).len() == 0);
    None
}

/// A key that types a symbol has it as its first symbol, which takes no modifier.
pub proof fn base_keys_need_no_modifier(
    min: u8,
    keysyms_per_keycode: u8,
    keysyms: Seq<u32>,
    symbol: u32,
    keycode: u8,
)
    requires
        base_key(min, keysyms_per_keycode, keysyms, symbol) == Some(keycode),
    ensures
        min <= keycode,
        (keycode - min) * keysyms_per_keycode < keysyms.len(),
        keysyms[(keycode - min) * keysyms_per_keycode] == symbol,
{
    column_starts_with_symbol(keysyms, keysyms_per_keycode, symbol);
}

proof fn column_starts_with_symbol(keysyms: Seq<u32>, keysyms_per_keycode: u8, symbol: u32)
    requires
        column_of(keysyms, keysyms_per_keycode, symbol) is Some,
    ensures
        ({
            let column = column_of(keysyms, keysyms_per_keycode, symbol)->0;
            &&& column * keysyms_per_keycode < keysyms.len()
            &&& keysyms[column * keysyms_per_keycode] == symbol
        }),
    decreases keysyms.len(),
{
    let step = keysyms_per_keycode as int;
    if keysyms[0] != symbol {
        let rest = keysyms.skip(step);
        column_starts_with_symbol(rest, keysyms_per_keycode, symbol);
        let column = column_of(rest, keysyms_per_keycode, symbol)->0;
        assert((column + 1) * step == column * step + step) by (nonlinear_arith);
        assert(column * step >= 0) by (nonlinear_arith)
            requires
                column >= 0,
                step >= 0,
        ;
        assert(rest[column * step] == keysyms[column * step + step]);
    }
}

/// The keyboard map of a display, and the keys borrowed from it.
pub struct KeyboardMap {
    pub min_keycode: u8,
    pub keysyms_per_keycode: u8,
    /// The symbols of each key, from the first keycode on.
    pub keysyms: Vec<u32>,
    /// Keys that type nothing and can be borrowed.
    pub unused: Vec<u8>,
    /// Keys that were borrowed, and that the journal lists.
    pub borrowed: Vec<u8>,
    /// Symbols that borrowed keys type, the least recently used one first.
    pub mapped: Vec<(u32, u8)>,
    /// Whether each key is held down.
    pub held: Vec<bool>,
}

/// A keyboard map with its lists as sequences.
pub struct KeyboardView {
    pub min_keycode: u8,
    pub keysyms_per_keycode: u8,
    pub keysyms: Seq<u32>,
    pub unused: Seq<u8>,
    pub borrowed: Seq<u8>,
    pub mapped: Seq<(u32, u8)>,
    pub held: Seq<bool>,
}

impl View for KeyboardMap {
    type V = KeyboardView;

    open spec fn view(&self) -> KeyboardView {
        KeyboardView {
            min_keycode: self.min_keycode,
            keysyms_per_keycode: self.keysyms_per_keycode,
            keysyms: self.keysyms@,
            unused: self.unused@,
            borrowed: self.borrowed@,
            mapped: self.mapped@,
            held: self.held@,
        }
    }
}

/// Whether a key types nothing, is no modifier and is not reserved.
pub open spec fn spare(
    min: u8,
    keysyms_per_keycode: u8,
    keysyms: Seq<u32>,
    modifiers: Seq<u8>,
    keycode: u8,
) -> bool {
    let first = (keycode - min) * keysyms_per_keycode;
    &&& keycode != RESERVED_KEYCODE
    &&& !modifiers.contains(keycode)
    &&& first < keysyms.len()
    &&& forall|i: int|
        first <= i < first + keysyms_per_keycode && i < keysyms.len() ==> keysyms[i] == NO_SYMBOL
}

/// The keycodes from `min` on, `count` of them, that can be borrowed.
pub open spec fn spare_keycodes(
    min: u8,
    count: nat,
    keysyms_per_keycode: u8,
    keysyms: Seq<u32>,
    modifiers: Seq<u8>,
) -> Seq<u8>
    decreases count,
{
    if count == 0 {
        Seq::empty()
    } else {
        let earlier = spare_keycodes(
            min,
            (count - 1) as nat,
            keysyms_per_keycode,
            keysyms,
            modifiers,
        );
        let keycode = (min + count - 1) as u8;
        if spare(min, keysyms_per_keycode, keysyms, modifiers, keycode) {
            earlier.push(keycode)
        } else {
            earlier
        }
    }
}

/// The number of keycodes of a keyboard.
pub fn keycode_count(min_keycode: u8, max_keycode: u8) -> (result: Result<u8, CuError>)
    ensures
        match result {
            Ok(count) => 0 <= max_keycode - min_keycode < u8::MAX && count == max_keycode
                - min_keycode + 1,
            Err(error) => !(0 <= max_keycode - min_keycode < u8::MAX) && error@ == failure(
                ErrorCode::InputFailed,
                "invalid X11 keyboard keycode range"@,
            ),
        },
{
    if max_keycode < min_keycode || max_keycode - min_keycode == u8::MAX {
        return Err(CuError::new(ErrorCode::InputFailed, "invalid X11 keyboard keycode range"));
    }
    Ok(max_keycode - min_keycode + 1)
}

fn column_is_empty(keysyms: &Vec<u32>, first: usize, keysyms_per_keycode: u8) -> (empty: bool)
    requires
        first < keysyms.len(),
    ensures
        empty == forall|i: int|
            first <= i < first + keysyms_per_keycode && i < keysyms.len() ==> keysyms[i]
                == NO_SYMBOL,
{
    let rest: usize = keysyms.len() - first;
    let width: usize = if rest < keysyms_per_keycode as usize {
        rest
    } else {
        keysyms_per_keycode as usize
    };
    let mut n: usize = 0;
    while n < width
        invariant
            n <= width,
            width <= keysyms_per_keycode,
            first + width <= keysyms.len(),
            forall|i: int| first <= i < first + n ==> keysyms[i] == NO_SYMBOL,
        decreases width - n,
    {
        if keysyms[first + n] != NO_SYMBOL {
            return false;
        }
        n += 1;
    }
    true
}

/// The first entry from place `from` on that maps a symbol.
pub open spec fn place_of(mapped: Seq<(u32, u8)>, symbol: u32, from: int) -> Option<int>
    decreases mapped.len() - from,
{
    if from < 0 || from >= mapped.len() {
        None
    } else if mapped[from].0 == symbol {
        Some(from)
    } else {
        place_of(mapped, symbol, from + 1)
    }
}

/// The first entry from place `from` on whose key is not held down.
pub open spec fn loose_place(mapped: Seq<(u32, u8)>, held: Seq<bool>, from: int) -> Option<int>
    decreases mapped.len() - from,
{
    if from < 0 || from >= mapped.len() {
        None
    } else if !held[mapped[from].1 as int] {
        Some(from)
    } else {
        loose_place(mapped, held, from + 1)
    }
}

/// What getting a key that types a symbol does next.
#[derive(Debug)]
pub enum KeyOp {
    /// The key types the symbol.
    Ready(u8),
    /// Write the journal, before the key is changed.
    Persist { keycode: u8, words: Vec<u32> },
    /// Let the key type the symbol.
    Remap(u8),
}

/// An operation with its words as a sequence.
pub enum KeyOpView {
    Ready(u8),
    Persist { keycode: u8, words: Seq<u32> },
    Remap(u8),
}

impl View for KeyOp {
    type V = KeyOpView;

    open spec fn view(&self) -> KeyOpView {
        match *self {
            KeyOp::Ready(keycode) => KeyOpView::Ready(keycode),
            KeyOp::Persist { keycode, words } => KeyOpView::Persist { keycode, words: words@ },
            KeyOp::Remap(keycode) => KeyOpView::Remap(keycode),
        }
    }
}

/// The view of an operation or a failure.
pub open spec fn key_result(result: Result<KeyOp, CuError>) -> Result<KeyOpView, CuErrorView> {
    match result {
        Ok(op) => Ok(op@),
        Err(error) => Err(error@),
    }
}

/// Whether entries name each symbol and each key once.
pub open spec fn one_to_one(mapped: Seq<(u32, u8)>) -> bool {
    forall|i: int, j: int|
        0 <= i < j < mapped.len() ==> (#[trigger] mapped[i]).0 != (#[trigger] mapped[j]).0
            && mapped[i].1 != mapped[j].1
}

impl KeyboardView {
    /// The journal of the borrowed keys.
    pub open spec fn journal(self) -> JournalView {
        JournalView { keysyms_per_keycode: self.keysyms_per_keycode, borrowed: self.borrowed }
    }

    /// Whether the keys that can be borrowed, the borrowed ones and the ones that type a symbol fit
    /// together.
    pub open spec fn valid(self) -> bool {
        &&& self.keysyms_per_keycode > 0
        &&& self.held.len() == 256
        &&& self.unused.no_duplicates()
        &&& self.borrowed.no_duplicates()
        &&& !self.borrowed.contains(RESERVED_KEYCODE)
        &&& !self.unused.contains(RESERVED_KEYCODE)
        &&& forall|i: int| 0 <= i < self.unused.len() ==> !self.borrowed.contains(self.unused[i])
        &&& one_to_one(self.mapped)
        &&& forall|i: int|
            0 <= i < self.mapped.len() ==> self.borrowed.contains((#[trigger] self.mapped[i]).1)
    }

    /// Whether a key was borrowed or can be.
    pub open spec fn is_temporary(self, keycode: u8) -> bool {
        self.unused.contains(keycode) || self.borrowed.contains(keycode)
    }

    /// What getting a key for a symbol does to the map and does next: a key of the keyboard that
    /// types it, else a borrowed key that types it, else the first spare key, else the borrowed key
    /// that was used least recently of those that are not held.
    pub open spec fn keycode_for(self, symbol: u32) -> (KeyboardView, Result<
        KeyOpView,
        CuErrorView,
    >) {
        match base_key(self.min_keycode, self.keysyms_per_keycode, self.keysyms, symbol) {
            Some(keycode) => (self, Ok(KeyOpView::Ready(keycode))),
            None => match place_of(self.mapped, symbol, 0) {
                Some(place) => (
                    KeyboardView {
                        mapped: self.mapped.remove(place).push(self.mapped[place]),
                        ..self
                    },
                    Ok(KeyOpView::Ready(self.mapped[place].1)),
                ),
                None => if self.unused.len() > 0 {
                    self.borrow_keycode()
                } else {
                    self.reusable_keycode()
                },
            },
        }
    }

    /// Borrow the first spare key: it is journaled before it is changed.
    pub open spec fn borrow_keycode(self) -> (KeyboardView, Result<KeyOpView, CuErrorView>) {
        let keycode = self.unused[0];
        let borrowing = KeyboardView {
            unused: self.unused.remove(0),
            borrowed: self.borrowed.push(keycode),
            ..self
        };
        match unwritable(borrowing.journal()) {
            Some(message) => (self, Err(journal_failure(message))),
            None => (
                borrowing,
                Ok(KeyOpView::Persist { keycode, words: journal_words(borrowing.journal()) }),
            ),
        }
    }

    /// Use the least recently used key that is not held once more. The held ones before it count
    /// as used.
    pub open spec fn reusable_keycode(self) -> (KeyboardView, Result<KeyOpView, CuErrorView>) {
        match loose_place(self.mapped, self.held, 0) {
            Some(place) => (
                KeyboardView {
                    mapped: self.mapped.skip(place + 1) + self.mapped.take(place),
                    ..self
                },
                Ok(KeyOpView::Remap(self.mapped[place].1)),
            ),
            None => (
                self,
                Err(
                    failure(
                        ErrorCode::UnsupportedInput,
                        "all temporary X11 keycodes are currently held"@,
                    ),
                ),
            ),
        }
    }

    /// The map once writing the journal failed: the key is spare again.
    pub open spec fn unborrowed(self) -> KeyboardView {
        KeyboardView {
            unused: seq![self.borrowed.last()] + self.unused,
            borrowed: self.borrowed.drop_last(),
            ..self
        }
    }

    /// The map once a key types a symbol.
    pub open spec fn with_symbol(self, symbol: u32, keycode: u8) -> KeyboardView {
        KeyboardView { mapped: self.mapped.push((symbol, keycode)), ..self }
    }

    /// The map once a key was pressed or released.
    pub open spec fn with_held(self, keycode: u8, down: bool) -> KeyboardView {
        KeyboardView { held: self.held.update(keycode as int, down), ..self }
    }
}

proof fn place_is_in_range(mapped: Seq<(u32, u8)>, symbol: u32, from: int)
    requires
        0 <= from,
    ensures
        match place_of(mapped, symbol, from) {
            Some(place) => from <= place < mapped.len() && mapped[place].0 == symbol,
            None => forall|i: int| from <= i < mapped.len() ==> (#[trigger] mapped[i]).0 != symbol,
        },
    decreases mapped.len() - from,
{
    if from < mapped.len() && mapped[from].0 != symbol {
        place_is_in_range(mapped, symbol, from + 1);
    }
}

proof fn loose_place_is_in_range(mapped: Seq<(u32, u8)>, held: Seq<bool>, from: int)
    requires
        0 <= from,
    ensures
        match loose_place(mapped, held, from) {
            Some(place) => from <= place < mapped.len() && !held[mapped[place].1 as int],
            None => forall|i: int|
                from <= i < mapped.len() ==> held[(#[trigger] mapped[i]).1 as int],
        },
    decreases mapped.len() - from,
{
    if from < mapped.len() && held[mapped[from].1 as int] {
        loose_place_is_in_range(mapped, held, from + 1);
    }
}

impl KeyboardView {
    /// Whether a borrowed key is about to type a symbol that no key types.
    pub open spec fn awaits(self, symbol: u32, keycode: u8) -> bool {
        &&& self.borrowed.contains(keycode)
        &&& forall|i: int|
            0 <= i < self.mapped.len() ==> (#[trigger] self.mapped[i]).0 != symbol
                && self.mapped[i].1 != keycode
    }
}

impl KeyboardMap {
    /// The map of a keyboard from which nothing was borrowed yet.
    pub fn read(
        min_keycode: u8,
        max_keycode: u8,
        keysyms_per_keycode: u8,
        keysyms: Vec<u32>,
        modifiers: &Vec<u8>,
    ) -> (result: Result<Self, CuError>)
        requires
            min_keycode <= max_keycode,
            keysyms_per_keycode > 0,
        ensures
            ({
                let unused = spare_keycodes(
                    min_keycode,
                    (max_keycode - min_keycode + 1) as nat,
                    keysyms_per_keycode,
                    keysyms@,
                    modifiers@,
                );
                match result {
                    Ok(map) => unused.len() > 0 && map@ == (KeyboardView {
                        min_keycode,
                        keysyms_per_keycode,
                        keysyms: keysyms@,
                        unused,
                        borrowed: Seq::empty(),
                        mapped: Seq::empty(),
                        held: Seq::new(256, |i: int| false),
                    }) && map@.valid(),
                    Err(error) => unused.len() == 0 && error@ == failure(
                        ErrorCode::UnsupportedInput,
                        "X11 keyboard map has no unused keycode for text injection"@,
                    ),
                }
            }),
    {
        let count: usize = (max_keycode - min_keycode) as usize + 1;
        let step: usize = keysyms_per_keycode as usize;
        let mut unused: Vec<u8> = Vec::new();
        let mut n: usize = 0;
        while n < count
            invariant
                n <= count,
                count == max_keycode - min_keycode + 1,
                min_keycode <= max_keycode,
                step == keysyms_per_keycode,
                unused@ == spare_keycodes(
                    min_keycode,
                    n as nat,
                    keysyms_per_keycode,
                    keysyms@,
                    modifiers@,
                ),
                forall|i: int|
                    0 <= i < unused.len() ==> min_keycode <= #[trigger] unused[i] < min_keycode + n
                        && unused[i] != RESERVED_KEYCODE,
                unused@.no_duplicates(),
            decreases count - n,
        {
            let keycode: u8 = min_keycode + n as u8;
            assert(0 <= n * step <= 255 * 255) by (nonlinear_arith)
                requires
                    n <= 255,
                    0 <= step <= 255,
            ;
            let first: usize = n * step;
            let is_spare = keycode != RESERVED_KEYCODE && !contains_keycode(modifiers, keycode)
                && first < keysyms.len() && column_is_empty(&keysyms, first, keysyms_per_keycode);
            assert(is_spare == spare(
                min_keycode,
                keysyms_per_keycode,
                keysyms@,
                modifiers@,
                keycode,
            ));
            if is_spare {
                unused.push(keycode);
            }
            n += 1;
        }
        if unused.len() == 0 {
            return Err(
                CuError::new(
                    ErrorCode::UnsupportedInput,
                    "X11 keyboard map has no unused keycode for text injection",
                ),
            );
        }
        let mut held: Vec<bool> = Vec::new();
        let mut n: usize = 0;
        while n < 256
            invariant
                n <= 256,
                held@ == Seq::new(n as nat, |i: int| false),
            decreases 256 - n,
        {
            held.push(false);
            n += 1;
        }
        Ok(
            KeyboardMap {
                min_keycode,
                keysyms_per_keycode,
                keysyms,
                unused,
                borrowed: Vec::new(),
                mapped: Vec::new(),
                held,
            },
        )
    }

    /// Start getting a key that types a symbol.
    pub fn keycode_for(&mut self, symbol: u32) -> (result: Result<KeyOp, CuError>)
        requires
            old(self)@.valid(),
        ensures
            old(self)@.keycode_for(symbol) == (final(self)@, key_result(result)),
            final(self)@.valid(),
            result matches Ok(KeyOp::Persist { keycode, .. }) ==> final(self)@.borrowed.last()
                == keycode && final(self)@.awaits(symbol, keycode),
            result matches Ok(KeyOp::Remap(keycode)) ==> final(self)@.awaits(symbol, keycode),
    {
        if let Some(keycode) = base_keycode(
            self.min_keycode,
            self.keysyms_per_keycode,
            &self.keysyms,
            symbol,
        ) {
            return Ok(KeyOp::Ready(keycode));
        }
        if let Some(place) = self.mapped_place(symbol) {
            let entry = self.touch(place);
            return Ok(KeyOp::Ready(entry.1));
        }
        proof {
            place_is_in_range(self.mapped@, symbol, 0);
        }
        if self.unused.len() > 0 {
            self.borrow_keycode()
        } else {
            self.reusable_keycode()
        }
    }

    fn mapped_place(&self, symbol: u32) -> (place: Option<usize>)
        ensures
            match place {
                Some(place) => place_of(self.mapped@, symbol, 0) == Some(place as int) && place
                    < self.mapped.len(),
                None => place_of(self.mapped@, symbol, 0) is None,
            },
    {
        let mut n: usize = 0;
        while n < self.mapped.len()
            invariant
                n <= self.mapped.len(),
                place_of(self.mapped@, symbol, 0) == place_of(self.mapped@, symbol, n as int),
            decreases self.mapped.len() - n,
        {
            if self.mapped[n].0 == symbol {
                return Some(n);
            }
            n += 1;
        }
        None
    }

    fn loose_mapped(&self) -> (place: Option<usize>)
        requires
            self.held.len() == 256,
        ensures
            match place {
                Some(place) => loose_place(self.mapped@, self.held@, 0) == Some(place as int)
                    && place < self.mapped.len(),
                None => loose_place(self.mapped@, self.held@, 0) is None,
            },
    {
        let mut n: usize = 0;
        while n < self.mapped.len()
            invariant
                n <= self.mapped.len(),
                self.held.len() == 256,
                loose_place(self.mapped@, self.held@, 0) == loose_place(
                    self.mapped@,
                    self.held@,
                    n as int,
                ),
            decreases self.mapped.len() - n,
        {
            if !self.held[self.mapped[n].1 as usize] {
                return Some(n);
            }
            n += 1;
        }
        None
    }

    /// Make an entry the most recently used one.
    fn touch(&mut self, place: usize) -> (entry: (u32, u8))
        requires
            place < old(self).mapped.len(),
            old(self)@.valid(),
        ensures
            entry == old(self)@.mapped[place as int],
            final(self)@ == (KeyboardView {
                mapped: old(self)@.mapped.remove(place as int).push(entry),
                ..old(self)@
            }),
            final(self)@.valid(),
    {
        let entry = self.mapped.remove(place);
        self.mapped.push(entry);
        entry
    }

    fn borrow_keycode(&mut self) -> (result: Result<KeyOp, CuError>)
        requires
            old(self)@.valid(),
            old(self).unused.len() > 0,
        ensures
            old(self)@.borrow_keycode() == (final(self)@, key_result(result)),
            final(self)@.valid(),
            result matches Ok(op) ==> (op matches KeyOp::Persist { keycode, .. } && {
                &&& keycode == old(self)@.unused[0]
                &&& final(self)@.borrowed.last() == keycode
                &&& final(self)@.borrowed.contains(keycode)
                &&& forall|i: int|
                    0 <= i < final(self)@.mapped.len() ==> (#[trigger] final(self)@.mapped[i]).1
                        != keycode
            }),
    {
        let ghost before = self@;
        let keycode = self.unused.remove(0);
        self.borrowed.push(keycode);
        proof {
            assert(before.unused.contains(keycode));
            assert(!before.borrowed.contains(keycode));
            assert(self@.borrowed.last() == keycode);
            assert(self@.borrowed.no_duplicates());
            assert forall|i: int| 0 <= i < self@.unused.len() implies !self@.borrowed.contains(
                #[trigger] self@.unused[i],
            ) by {
                assert(self@.unused[i] == before.unused[i + 1]);
            }
            assert forall|i: int| 0 <= i < self@.mapped.len() implies self@.borrowed.contains(
                (#[trigger] self@.mapped[i]).1,
            ) && self@.mapped[i].1 != keycode by {
                let other = before.mapped[i].1;
                assert(before.borrowed.contains(other));
                let at = choose|at: int|
                    0 <= at < before.borrowed.len() && before.borrowed[at] == other;
                assert(self@.borrowed[at] == other);
            }
        }
        match encode_keymap_journal(self.keysyms_per_keycode, &self.borrowed) {
            Ok(words) => Ok(KeyOp::Persist { keycode, words }),
            Err(error) => {
                self.borrowed.pop();
                self.unused.insert(0, keycode);
                assert(self@.unused =~= before.unused);
                assert(self@.borrowed =~= before.borrowed);
                Err(error)
            },
        }
    }

    fn reusable_keycode(&mut self) -> (result: Result<KeyOp, CuError>)
        requires
            old(self)@.valid(),
        ensures
            old(self)@.reusable_keycode() == (final(self)@, key_result(result)),
            final(self)@.valid(),
            result matches Ok(op) ==> (op matches KeyOp::Remap(keycode) && {
                &&& final(self)@.borrowed.contains(keycode)
                &&& forall|i: int|
                    0 <= i < final(self)@.mapped.len() ==> (#[trigger] final(self)@.mapped[i]).1
                        != keycode
                &&& forall|i: int|
                    0 <= i < final(self)@.mapped.len() ==> old(self)@.mapped.contains(
                        #[trigger] final(self)@.mapped[i],
                    )
            }),
    {
        let place = match self.loose_mapped() {
            Some(place) => place,
            None => {
                return Err(
                    CuError::new(
                        ErrorCode::UnsupportedInput,
                        "all temporary X11 keycodes are currently held",
                    ),
                );
            },
        };
        let ghost before = self.mapped@;
        let keycode = self.mapped[place].1;
        let mut rotated: Vec<(u32, u8)> = Vec::new();
        let mut n: usize = place + 1;
        while n < self.mapped.len()
            invariant
                place < n <= self.mapped.len(),
                self.mapped@ == before,
                rotated@ == before.subrange(place + 1, n as int),
            decreases self.mapped.len() - n,
        {
            rotated.push(self.mapped[n]);
            n += 1;
            assert(rotated@ =~= before.subrange(place + 1, n as int));
        }
        let mut n: usize = 0;
        while n < place
            invariant
                n <= place < self.mapped.len(),
                self.mapped@ == before,
                rotated@ == before.skip(place + 1) + before.take(n as int),
            decreases place - n,
        {
            rotated.push(self.mapped[n]);
            n += 1;
            assert(rotated@ =~= before.skip(place + 1) + before.take(n as int));
        }
        self.mapped = rotated;
        proof {
            let after = self.mapped@;
            let first = before.len() - place - 1;
            assert forall|i: int| 0 <= i < after.len() implies before.contains(#[trigger] after[i])
                && after[i].1 != keycode by {
                if i < first {
                    assert(after[i] == before[i + place + 1]);
                } else {
                    assert(after[i] == before[i - first]);
                }
            }
            assert forall|i: int, j: int| 0 <= i < j < after.len() implies (
            #[trigger] after[i]).0 != (#[trigger] after[j]).0 && after[i].1 != after[j].1 by {
                let p = if i < first {
                    i + place + 1
                } else {
                    i - first
                };
                let q = if j < first {
                    j + place + 1
                } else {
                    j - first
                };
                assert(after[i] == before[p]);
                assert(after[j] == before[q]);
                assert(p != q);
            }
        }
        Ok(KeyOp::Remap(keycode))
    }

    /// The journal was written, or was not. Then the key is changed, or is spare again.
    pub fn persisted(&mut self, symbol: u32, keycode: u8, outcome: Result<(), CuError>) -> (result:
        Result<KeyOp, CuError>)
        requires
            old(self)@.valid(),
            old(self)@.awaits(symbol, keycode),
            old(self)@.borrowed.last() == keycode,
        ensures
            match outcome {
                Ok(()) => final(self)@ == old(self)@ && key_result(result) == Ok::<
                    KeyOpView,
                    CuErrorView,
                >(KeyOpView::Remap(keycode)),
                Err(error) => final(self)@ == old(self)@.unborrowed() && key_result(result) == Err::<
                    KeyOpView,
                    CuErrorView,
                >(error@),
            },
            final(self)@.valid(),
            result is Ok ==> final(self)@.awaits(symbol, keycode),
    {
        match outcome {
            Ok(()) => Ok(KeyOp::Remap(keycode)),
            Err(error) => {
                let ghost before = self@;
                self.borrowed.pop();
                self.unused.insert(0, keycode);
                proof {
                    assert(before.borrowed.len() > 0);
                    assert(self@.unused =~= seq![keycode] + before.unused);
                    assert(self@.borrowed =~= before.borrowed.drop_last());
                    assert(before.borrowed.contains(keycode));
                    assert forall|i: int| 0 <= i < self@.unused.len() implies
                        !self@.borrowed.contains(#[trigger] self@.unused[i]) by {
                        if i > 0 {
                            assert(self@.unused[i] == before.unused[i - 1]);
                        }
                    }
                    assert forall|i: int| 0 <= i < self@.mapped.len() implies
                        self@.borrowed.contains((#[trigger] self@.mapped[i]).1) by {
                        let other = before.mapped[i].1;
                        let at = choose|at: int|
                            0 <= at < before.borrowed.len() && before.borrowed[at] == other;
                        assert(self@.borrowed[at] == other);
                    }
                    assert forall|i: int, j: int|
                        0 <= i < self@.unused.len() && 0 <= j < self@.unused.len() && i
                            != j implies self@.unused[i] != self@.unused[j] by {
                        if i > 0 {
                            assert(self@.unused[i] == before.unused[i - 1]);
                        }
                        if j > 0 {
                            assert(self@.unused[j] == before.unused[j - 1]);
                        }
                    }
                }
                Err(error)
            },
        }
    }

    /// The key types the symbol, or could not be changed.
    pub fn remapped(&mut self, symbol: u32, keycode: u8, outcome: Result<(), CuError>) -> (result:
        Result<u8, CuError>)
        requires
            old(self)@.valid(),
            old(self)@.awaits(symbol, keycode),
        ensures
            match outcome {
                Ok(()) => final(self)@ == old(self)@.with_symbol(symbol, keycode) && result == Ok::<
                    u8,
                    CuError,
                >(keycode),
                Err(error) => final(self)@ == old(self)@ && result == Err::<u8, CuError>(error),
            },
            final(self)@.valid(),
    {
        match outcome {
            Ok(()) => {
                self.mapped.push((symbol, keycode));
                Ok(keycode)
            },
            Err(error) => Err(error),
        }
    }

    /// Note that a key was pressed or released.
    pub fn set_held(&mut self, keycode: u8, down: bool)
        requires
            old(self)@.valid(),
        ensures
            final(self)@ == old(self)@.with_held(keycode, down),
            final(self)@.valid(),
    {
        self.held.set(keycode as usize, down);
    }

    /// Forget everything borrowed once it was given back.
    pub fn forget_borrowed(&mut self)
        requires
            old(self)@.valid(),
        ensures
            final(self)@ == (KeyboardView {
                borrowed: Seq::empty(),
                mapped: Seq::empty(),
                held: Seq::new(256, |i: int| false),
                ..old(self)@
            }),
            final(self)@.valid(),
    {
        self.borrowed = Vec::new();
        self.mapped = Vec::new();
        let mut n: usize = 0;
        while n < 256
            invariant
                n <= 256,
                self.held.len() == 256,
                forall|i: int| 0 <= i < n ==> !self.held@[i],
                self@ == (KeyboardView {
                    borrowed: Seq::empty(),
                    mapped: Seq::empty(),
                    held: self.held@,
                    ..old(self)@
                }),
            decreases 256 - n,
        {
            self.held.set(n, false);
            n += 1;
        }
        assert(self.held@ =~= Seq::new(256, |i: int| false));
    }
}

/// A borrowed key that is held down is never given another symbol.
pub proof fn held_keys_keep_their_symbol(map: KeyboardView, symbol: u32, keycode: u8)
    requires
        map.valid(),
        map.keycode_for(symbol).1 == Ok::<KeyOpView, CuErrorView>(KeyOpView::Remap(keycode)),
    ensures
        !map.held[keycode as int],
        map.borrowed.contains(keycode),
{
    loose_place_is_in_range(map.mapped, map.held, 0);
}

/// The journal that is written before a key is borrowed can be read back, and lists that key and
/// every key borrowed earlier.
pub proof fn borrowed_keys_are_journaled_first(
    map: KeyboardView,
    symbol: u32,
    keycode: u8,
    words: Seq<u32>,
)
    requires
        map.valid(),
        map.keycode_for(symbol).1 == Ok::<KeyOpView, CuErrorView>(
            KeyOpView::Persist { keycode, words },
        ),
    ensures
        unreadable(words) is None,
        journal_of(words) == map.keycode_for(symbol).0.journal(),
        journal_of(words).borrowed == map.borrowed.push(keycode),
{
    let after = map.keycode_for(symbol).0;
    assert(map.unused.contains(keycode));
    assert(!map.borrowed.contains(keycode));
    assert(after.borrowed.no_duplicates());
    if after.borrowed.contains(RESERVED_KEYCODE) {
        let at = choose|at: int|
            0 <= at < after.borrowed.len() && after.borrowed[at] == RESERVED_KEYCODE;
        assert(map.borrowed.contains(RESERVED_KEYCODE) || keycode == RESERVED_KEYCODE) by {
            if at < map.borrowed.len() {
                assert(map.borrowed[at] == RESERVED_KEYCODE);
            }
        }
    }
    journals_round_trip(after.journal());
}

/// Getting a key for a symbol changes no key but those that were spare at the start.
pub proof fn only_spare_keys_are_borrowed(map: KeyboardView, symbol: u32, keycode: u8)
    requires
        map.valid(),
    ensures
        map.keycode_for(symbol).0.is_temporary(keycode) == map.is_temporary(keycode),
        map.keycode_for(symbol).1 matches Ok(KeyOpView::Remap(changed)) ==> map.is_temporary(
            changed,
        ),
        map.keycode_for(symbol).1 matches Ok(KeyOpView::Persist { keycode: changed, .. })
            ==> map.is_temporary(changed),
{
    let after = map.keycode_for(symbol).0;
    place_is_in_range(map.mapped, symbol, 0);
    loose_place_is_in_range(map.mapped, map.held, 0);
    if after.borrowed != map.borrowed {
        let first = map.unused[0];
        assert(map.unused.contains(first));
        assert(after.borrowed.last() == first);
        assert(after.borrowed.contains(first));
        if map.unused.contains(keycode) {
            let at = choose|at: int| 0 <= at < map.unused.len() && map.unused[at] == keycode;
            if at > 0 {
                assert(after.unused[at - 1] == keycode);
            }
        }
        if map.borrowed.contains(keycode) {
            let at = choose|at: int| 0 <= at < map.borrowed.len() && map.borrowed[at] == keycode;
            assert(after.borrowed[at] == keycode);
        }
        if after.unused.contains(keycode) {
            let at = choose|at: int| 0 <= at < after.unused.len() && after.unused[at] == keycode;
            assert(map.unused[at + 1] == keycode);
        }
        if after.borrowed.contains(keycode) {
            let at = choose|at: int|
                0 <= at < after.borrowed.len() && after.borrowed[at] == keycode;
            if at < map.borrowed.len() {
                assert(map.borrowed[at] == keycode);
            }
        }
    }
}

} // verus!
