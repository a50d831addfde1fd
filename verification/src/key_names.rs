//! What key names stand for, name by name.
use vstd::prelude::*;

use crate::keys::{is_space, key_named, normalized, trimmed, trimmed_end, trimmed_start, upper, Key};
use crate::x11::{char_keysym, named_symbol};

verus! {

/// Whether a character is a letter of a key name, or that letter in lower case.
pub open spec fn is_letter(c: char, letter: char) -> bool {
    c == letter || ('A' <= letter <= 'Z' && c as int == letter as int + 32)
}

/// Whether a text is a word from a place on, in any ASCII case, and white space elsewhere.
pub open spec fn spelled_at(text: Seq<char>, word: Seq<char>, from: int) -> bool {
    &&& 0 <= from <= text.len() - word.len()
    &&& forall|i: int| 0 <= i < from ==> is_space(#[trigger] text[i])
    &&& forall|i: int| from + word.len() <= i < text.len() ==> is_space(#[trigger] text[i])
    &&& forall|i: int|
        from <= i < from + word.len() ==> is_letter(#[trigger] text[i], word[i - from])
}

/// Whether a text is a word, in any ASCII case and with any white space around it.
pub open spec fn spells(text: Seq<char>, word: Seq<char>) -> bool {
    exists|from: int| #[trigger] spelled_at(text, word, from)
}

/// Whether a word can be a key name as it is looked up: without white space and lower case letters.
spec fn is_plain(word: Seq<char>) -> bool {
    &&& word.len() > 0
    &&& forall|i: int|
        0 <= i < word.len() ==> ('A' <= #[trigger] word[i] <= 'Z' || '0' <= word[i] <= '9')
}

proof fn start_is_trimmed(text: Seq<char>, from: int)
    requires
        0 <= from <= text.len(),
        forall|i: int| 0 <= i < from ==> is_space(#[trigger] text[i]),
        from < text.len() ==> !is_space(text[from]),
    ensures
        trimmed_start(text) == text.skip(from),
    decreases from,
{
    if from == 0 {
        assert(text.skip(0) =~= text);
    } else {
        let rest = text.drop_first();
        assert forall|i: int| 0 <= i < from - 1 implies is_space(#[trigger] rest[i]) by {
            assert(rest[i] == text[i + 1]);
        }
        start_is_trimmed(rest, from - 1);
        assert(rest.skip(from - 1) =~= text.skip(from));
        assert(is_space(text[0]));
    }
}

proof fn end_is_trimmed(text: Seq<char>, to: int)
    requires
        0 <= to <= text.len(),
        forall|i: int| to <= i < text.len() ==> is_space(#[trigger] text[i]),
        to > 0 ==> !is_space(text[to - 1]),
    ensures
        trimmed_end(text) == text.take(to),
    decreases text.len() - to,
{
    if to == text.len() {
        assert(text.take(to) =~= text);
    } else {
        let rest = text.drop_last();
        assert(text.last() == text[text.len() - 1]);
        end_is_trimmed(rest, to);
        assert(rest.take(to) =~= text.take(to));
    }
}

/// A text without the white space around a part of it.
pub proof fn trimming_takes_white_space_alone(text: Seq<char>, from: int, to: int)
    requires
        0 <= from < to <= text.len(),
        forall|i: int| 0 <= i < from ==> is_space(#[trigger] text[i]),
        forall|i: int| to <= i < text.len() ==> is_space(#[trigger] text[i]),
        !is_space(text[from]),
        !is_space(text[to - 1]),
    ensures
        trimmed(text) == text.subrange(from, to),
{
    start_is_trimmed(text, from);
    let rest = text.skip(from);
    assert forall|i: int| to - from <= i < rest.len() implies is_space(#[trigger] rest[i]) by {
        assert(rest[i] == text[from + i]);
    }
    assert(rest[to - from - 1] == text[to - 1]);
    end_is_trimmed(rest, to - from);
    assert(rest.take(to - from) =~= text.subrange(from, to));
}

/// White space of ASCII is that of tabs, line ends, feeds and blanks; no other ASCII character is.
pub proof fn ascii_white_space(c: char)
    requires
        c <= '\u{7f}',
    ensures
        is_space(c) <==> c == '\t' || c == '\n' || c == '\u{b}' || c == '\u{c}' || c == '\r' || c
            == ' ',
{
}

proof fn spelled_names_are_normalized(name: Seq<char>, word: Seq<char>)
    requires
        spells(name, word),
        is_plain(word),
    ensures
        normalized(name) == word,
{
    let from = choose|from: int| #[trigger] spelled_at(name, word, from);
    let to = from + word.len() as int;
    assert(is_letter(name[from], word[0]));
    assert(is_letter(name[to - 1], word[to - 1 - from]));
    trimming_takes_white_space_alone(name, from, to);
    let core = name.subrange(from, to);
    assert forall|i: int| 0 <= i < word.len() implies upper(#[trigger] core[i]) == word[i] by {
        assert(core[i] == name[from + i]);
        assert(is_letter(name[from + i], word[i]));
    }
    assert(normalized(name) =~= word);
}

proof fn trimmed_texts_lie_between_spaces(text: Seq<char>) -> (bounds: (int, int))
    ensures
        0 <= bounds.0 <= bounds.1 <= text.len(),
        trimmed(text) == text.subrange(bounds.0, bounds.1),
        forall|i: int| 0 <= i < bounds.0 ==> is_space(#[trigger] text[i]),
        forall|i: int| bounds.1 <= i < text.len() ==> is_space(#[trigger] text[i]),
        bounds.0 < bounds.1 ==> !is_space(text[bounds.0]) && !is_space(text[bounds.1 - 1]),
{
    let from = first_kept(text, 0);
    start_is_trimmed(text, from);
    let rest = text.skip(from);
    let kept = last_kept(rest, rest.len() as int);
    end_is_trimmed(rest, kept);
    assert(rest.take(kept) =~= text.subrange(from, from + kept));
    assert forall|i: int| from + kept <= i < text.len() implies is_space(#[trigger] text[i]) by {
        assert(text[i] == rest[i - from]);
    }
    if kept > 0 {
        assert(rest[kept - 1] == text[from + kept - 1]);
        assert(from < text.len());
    }
    (from, from + kept)
}

proof fn first_kept(text: Seq<char>, at: int) -> (from: int)
    requires
        0 <= at <= text.len(),
        forall|i: int| 0 <= i < at ==> is_space(#[trigger] text[i]),
    ensures
        at <= from <= text.len(),
        forall|i: int| 0 <= i < from ==> is_space(#[trigger] text[i]),
        from < text.len() ==> !is_space(text[from]),
    decreases text.len() - at,
{
    if at < text.len() && is_space(text[at]) {
        first_kept(text, at + 1)
    } else {
        at
    }
}

proof fn last_kept(text: Seq<char>, at: int) -> (to: int)
    requires
        0 <= at <= text.len(),
        forall|i: int| at <= i < text.len() ==> is_space(#[trigger] text[i]),
    ensures
        0 <= to <= at,
        forall|i: int| to <= i < text.len() ==> is_space(#[trigger] text[i]),
        to > 0 ==> !is_space(text[to - 1]),
    decreases at,
{
    if at > 0 && is_space(text[at - 1]) {
        last_kept(text, at - 1)
    } else {
        at
    }
}

/// Whether a name spells one of the words that stand for keys.
pub open spec fn spells_a_key(name: Seq<char>) -> bool {
    ||| spells(name, "ALT"@)
    ||| spells(name, "OPTION"@)
    ||| spells(name, "BACKSPACE"@)
    ||| spells(name, "CTRL"@)
    ||| spells(name, "CONTROL"@)
    ||| spells(name, "DELETE"@)
    ||| spells(name, "DEL"@)
    ||| spells(name, "DOWN"@)
    ||| spells(name, "ARROWDOWN"@)
    ||| spells(name, "END"@)
    ||| spells(name, "ENTER"@)
    ||| spells(name, "RETURN"@)
    ||| spells(name, "ESC"@)
    ||| spells(name, "ESCAPE"@)
    ||| spells(name, "F1"@)
    ||| spells(name, "F2"@)
    ||| spells(name, "F3"@)
    ||| spells(name, "F4"@)
    ||| spells(name, "F5"@)
    ||| spells(name, "F6"@)
    ||| spells(name, "F7"@)
    ||| spells(name, "F8"@)
    ||| spells(name, "F9"@)
    ||| spells(name, "F10"@)
    ||| spells(name, "F11"@)
    ||| spells(name, "F12"@)
    ||| spells(name, "HOME"@)
    ||| spells(name, "LEFT"@)
    ||| spells(name, "ARROWLEFT"@)
    ||| spells(name, "META"@)
    ||| spells(name, "CMD"@)
    ||| spells(name, "COMMAND"@)
    ||| spells(name, "SUPER"@)
    ||| spells(name, "WIN"@)
    ||| spells(name, "WINDOWS"@)
    ||| spells(name, "PAGEDOWN"@)
    ||| spells(name, "PAGEUP"@)
    ||| spells(name, "RIGHT"@)
    ||| spells(name, "ARROWRIGHT"@)
    ||| spells(name, "SHIFT"@)
    ||| spells(name, "SPACE"@)
    ||| spells(name, "TAB"@)
    ||| spells(name, "UP"@)
    ||| spells(name, "ARROWUP"@)
}

/// Whether a name is one character other than white space, with any white space around it.
pub open spec fn is_one_character(name: Seq<char>, c: char) -> bool {
    &&& !is_space(c)
    &&& exists|from: int|
        #![trigger name[from]]
        0 <= from < name.len() && name[from] == c && forall|i: int|
            0 <= i < name.len() && i != from ==> is_space(#[trigger] name[i])
}

proof fn reveal_words()
    ensures
        is_plain("ALT"@),
        "ALT"@.len() == 3,
        "ALT"@[0] == 'A',
        "ALT"@[1] == 'L',
        "ALT"@[2] == 'T',
        is_plain("OPTION"@),
        "OPTION"@.len() == 6,
        "OPTION"@[0] == 'O',
        "OPTION"@[1] == 'P',
        "OPTION"@[2] == 'T',
        "OPTION"@[3] == 'I',
        "OPTION"@[4] == 'O',
        "OPTION"@[5] == 'N',
        is_plain("BACKSPACE"@),
        "BACKSPACE"@.len() == 9,
        "BACKSPACE"@[0] == 'B',
        "BACKSPACE"@[1] == 'A',
        "BACKSPACE"@[2] == 'C',
        "BACKSPACE"@[3] == 'K',
        "BACKSPACE"@[4] == 'S',
        "BACKSPACE"@[5] == 'P',
        "BACKSPACE"@[6] == 'A',
        "BACKSPACE"@[7] == 'C',
        "BACKSPACE"@[8] == 'E',
        is_plain("CTRL"@),
        "CTRL"@.len() == 4,
        "CTRL"@[0] == 'C',
        "CTRL"@[1] == 'T',
        "CTRL"@[2] == 'R',
        "CTRL"@[3] == 'L',
        is_plain("CONTROL"@),
        "CONTROL"@.len() == 7,
        "CONTROL"@[0] == 'C',
        "CONTROL"@[1] == 'O',
        "CONTROL"@[2] == 'N',
        "CONTROL"@[3] == 'T',
        "CONTROL"@[4] == 'R',
        "CONTROL"@[5] == 'O',
        "CONTROL"@[6] == 'L',
        is_plain("DELETE"@),
        "DELETE"@.len() == 6,
        "DELETE"@[0] == 'D',
        "DELETE"@[1] == 'E',
        "DELETE"@[2] == 'L',
        "DELETE"@[3] == 'E',
        "DELETE"@[4] == 'T',
        "DELETE"@[5] == 'E',
        is_plain("DEL"@),
        "DEL"@.len() == 3,
        "DEL"@[0] == 'D',
        "DEL"@[1] == 'E',
        "DEL"@[2] == 'L',
        is_plain("DOWN"@),
        "DOWN"@.len() == 4,
        "DOWN"@[0] == 'D',
        "DOWN"@[1] == 'O',
        "DOWN"@[2] == 'W',
        "DOWN"@[3] == 'N',
        is_plain("ARROWDOWN"@),
        "ARROWDOWN"@.len() == 9,
        "ARROWDOWN"@[0] == 'A',
        "ARROWDOWN"@[1] == 'R',
        "ARROWDOWN"@[2] == 'R',
        "ARROWDOWN"@[3] == 'O',
        "ARROWDOWN"@[4] == 'W',
        "ARROWDOWN"@[5] == 'D',
        "ARROWDOWN"@[6] == 'O',
        "ARROWDOWN"@[7] == 'W',
        "ARROWDOWN"@[8] == 'N',
        is_plain("END"@),
        "END"@.len() == 3,
        "END"@[0] == 'E',
        "END"@[1] == 'N',
        "END"@[2] == 'D',
        is_plain("ENTER"@),
        "ENTER"@.len() == 5,
        "ENTER"@[0] == 'E',
        "ENTER"@[1] == 'N',
        "ENTER"@[2] == 'T',
        "ENTER"@[3] == 'E',
        "ENTER"@[4] == 'R',
        is_plain("RETURN"@),
        "RETURN"@.len() == 6,
        "RETURN"@[0] == 'R',
        "RETURN"@[1] == 'E',
        "RETURN"@[2] == 'T',
        "RETURN"@[3] == 'U',
        "RETURN"@[4] == 'R',
        "RETURN"@[5] == 'N',
        is_plain("ESC"@),
        "ESC"@.len() == 3,
        "ESC"@[0] == 'E',
        "ESC"@[1] == 'S',
        "ESC"@[2] == 'C',
        is_plain("ESCAPE"@),
        "ESCAPE"@.len() == 6,
        "ESCAPE"@[0] == 'E',
        "ESCAPE"@[1] == 'S',
        "ESCAPE"@[2] == 'C',
        "ESCAPE"@[3] == 'A',
        "ESCAPE"@[4] == 'P',
        "ESCAPE"@[5] == 'E',
        is_plain("F1"@),
        "F1"@.len() == 2,
        "F1"@[0] == 'F',
        "F1"@[1] == '1',
        is_plain("F2"@),
        "F2"@.len() == 2,
        "F2"@[0] == 'F',
        "F2"@[1] == '2',
        is_plain("F3"@),
        "F3"@.len() == 2,
        "F3"@[0] == 'F',
        "F3"@[1] == '3',
        is_plain("F4"@),
        "F4"@.len() == 2,
        "F4"@[0] == 'F',
        "F4"@[1] == '4',
        is_plain("F5"@),
        "F5"@.len() == 2,
        "F5"@[0] == 'F',
        "F5"@[1] == '5',
        is_plain("F6"@),
        "F6"@.len() == 2,
        "F6"@[0] == 'F',
        "F6"@[1] == '6',
        is_plain("F7"@),
        "F7"@.len() == 2,
        "F7"@[0] == 'F',
        "F7"@[1] == '7',
        is_plain("F8"@),
        "F8"@.len() == 2,
        "F8"@[0] == 'F',
        "F8"@[1] == '8',
        is_plain("F9"@),
        "F9"@.len() == 2,
        "F9"@[0] == 'F',
        "F9"@[1] == '9',
        is_plain("F10"@),
        "F10"@.len() == 3,
        "F10"@[0] == 'F',
        "F10"@[1] == '1',
        "F10"@[2] == '0',
        is_plain("F11"@),
        "F11"@.len() == 3,
        "F11"@[0] == 'F',
        "F11"@[1] == '1',
        "F11"@[2] == '1',
        is_plain("F12"@),
        "F12"@.len() == 3,
        "F12"@[0] == 'F',
        "F12"@[1] == '1',
        "F12"@[2] == '2',
        is_plain("HOME"@),
        "HOME"@.len() == 4,
        "HOME"@[0] == 'H',
        "HOME"@[1] == 'O',
        "HOME"@[2] == 'M',
        "HOME"@[3] == 'E',
        is_plain("LEFT"@),
        "LEFT"@.len() == 4,
        "LEFT"@[0] == 'L',
        "LEFT"@[1] == 'E',
        "LEFT"@[2] == 'F',
        "LEFT"@[3] == 'T',
        is_plain("ARROWLEFT"@),
        "ARROWLEFT"@.len() == 9,
        "ARROWLEFT"@[0] == 'A',
        "ARROWLEFT"@[1] == 'R',
        "ARROWLEFT"@[2] == 'R',
        "ARROWLEFT"@[3] == 'O',
        "ARROWLEFT"@[4] == 'W',
        "ARROWLEFT"@[5] == 'L',
        "ARROWLEFT"@[6] == 'E',
        "ARROWLEFT"@[7] == 'F',
        "ARROWLEFT"@[8] == 'T',
        is_plain("META"@),
        "META"@.len() == 4,
        "META"@[0] == 'M',
        "META"@[1] == 'E',
        "META"@[2] == 'T',
        "META"@[3] == 'A',
        is_plain("CMD"@),
        "CMD"@.len() == 3,
        "CMD"@[0] == 'C',
        "CMD"@[1] == 'M',
        "CMD"@[2] == 'D',
        is_plain("COMMAND"@),
        "COMMAND"@.len() == 7,
        "COMMAND"@[0] == 'C',
        "COMMAND"@[1] == 'O',
        "COMMAND"@[2] == 'M',
        "COMMAND"@[3] == 'M',
        "COMMAND"@[4] == 'A',
        "COMMAND"@[5] == 'N',
        "COMMAND"@[6] == 'D',
        is_plain("SUPER"@),
        "SUPER"@.len() == 5,
        "SUPER"@[0] == 'S',
        "SUPER"@[1] == 'U',
        "SUPER"@[2] == 'P',
        "SUPER"@[3] == 'E',
        "SUPER"@[4] == 'R',
        is_plain("WIN"@),
        "WIN"@.len() == 3,
        "WIN"@[0] == 'W',
        "WIN"@[1] == 'I',
        "WIN"@[2] == 'N',
        is_plain("WINDOWS"@),
        "WINDOWS"@.len() == 7,
        "WINDOWS"@[0] == 'W',
        "WINDOWS"@[1] == 'I',
        "WINDOWS"@[2] == 'N',
        "WINDOWS"@[3] == 'D',
        "WINDOWS"@[4] == 'O',
        "WINDOWS"@[5] == 'W',
        "WINDOWS"@[6] == 'S',
        is_plain("PAGEDOWN"@),
        "PAGEDOWN"@.len() == 8,
        "PAGEDOWN"@[0] == 'P',
        "PAGEDOWN"@[1] == 'A',
        "PAGEDOWN"@[2] == 'G',
        "PAGEDOWN"@[3] == 'E',
        "PAGEDOWN"@[4] == 'D',
        "PAGEDOWN"@[5] == 'O',
        "PAGEDOWN"@[6] == 'W',
        "PAGEDOWN"@[7] == 'N',
        is_plain("PAGEUP"@),
        "PAGEUP"@.len() == 6,
        "PAGEUP"@[0] == 'P',
        "PAGEUP"@[1] == 'A',
        "PAGEUP"@[2] == 'G',
        "PAGEUP"@[3] == 'E',
        "PAGEUP"@[4] == 'U',
        "PAGEUP"@[5] == 'P',
        is_plain("RIGHT"@),
        "RIGHT"@.len() == 5,
        "RIGHT"@[0] == 'R',
        "RIGHT"@[1] == 'I',
        "RIGHT"@[2] == 'G',
        "RIGHT"@[3] == 'H',
        "RIGHT"@[4] == 'T',
        is_plain("ARROWRIGHT"@),
        "ARROWRIGHT"@.len() == 10,
        "ARROWRIGHT"@[0] == 'A',
        "ARROWRIGHT"@[1] == 'R',
        "ARROWRIGHT"@[2] == 'R',
        "ARROWRIGHT"@[3] == 'O',
        "ARROWRIGHT"@[4] == 'W',
        "ARROWRIGHT"@[5] == 'R',
        "ARROWRIGHT"@[6] == 'I',
        "ARROWRIGHT"@[7] == 'G',
        "ARROWRIGHT"@[8] == 'H',
        "ARROWRIGHT"@[9] == 'T',
        is_plain("SHIFT"@),
        "SHIFT"@.len() == 5,
        "SHIFT"@[0] == 'S',
        "SHIFT"@[1] == 'H',
        "SHIFT"@[2] == 'I',
        "SHIFT"@[3] == 'F',
        "SHIFT"@[4] == 'T',
        is_plain("SPACE"@),
        "SPACE"@.len() == 5,
        "SPACE"@[0] == 'S',
        "SPACE"@[1] == 'P',
        "SPACE"@[2] == 'A',
        "SPACE"@[3] == 'C',
        "SPACE"@[4] == 'E',
        is_plain("TAB"@),
        "TAB"@.len() == 3,
        "TAB"@[0] == 'T',
        "TAB"@[1] == 'A',
        "TAB"@[2] == 'B',
        is_plain("UP"@),
        "UP"@.len() == 2,
        "UP"@[0] == 'U',
        "UP"@[1] == 'P',
        is_plain("ARROWUP"@),
        "ARROWUP"@.len() == 7,
        "ARROWUP"@[0] == 'A',
        "ARROWUP"@[1] == 'R',
        "ARROWUP"@[2] == 'R',
        "ARROWUP"@[3] == 'O',
        "ARROWUP"@[4] == 'W',
        "ARROWUP"@[5] == 'U',
        "ARROWUP"@[6] == 'P',
{
    reveal_strlit("ALT");
    reveal_strlit("OPTION");
    reveal_strlit("BACKSPACE");
    reveal_strlit("CTRL");
    reveal_strlit("CONTROL");
    reveal_strlit("DELETE");
    reveal_strlit("DEL");
    reveal_strlit("DOWN");
    reveal_strlit("ARROWDOWN");
    reveal_strlit("END");
    reveal_strlit("ENTER");
    reveal_strlit("RETURN");
    reveal_strlit("ESC");
    reveal_strlit("ESCAPE");
    reveal_strlit("F1");
    reveal_strlit("F2");
    reveal_strlit("F3");
    reveal_strlit("F4");
    reveal_strlit("F5");
    reveal_strlit("F6");
    reveal_strlit("F7");
    reveal_strlit("F8");
    reveal_strlit("F9");
    reveal_strlit("F10");
    reveal_strlit("F11");
    reveal_strlit("F12");
    reveal_strlit("HOME");
    reveal_strlit("LEFT");
    reveal_strlit("ARROWLEFT");
    reveal_strlit("META");
    reveal_strlit("CMD");
    reveal_strlit("COMMAND");
    reveal_strlit("SUPER");
    reveal_strlit("WIN");
    reveal_strlit("WINDOWS");
    reveal_strlit("PAGEDOWN");
    reveal_strlit("PAGEUP");
    reveal_strlit("RIGHT");
    reveal_strlit("ARROWRIGHT");
    reveal_strlit("SHIFT");
    reveal_strlit("SPACE");
    reveal_strlit("TAB");
    reveal_strlit("UP");
    reveal_strlit("ARROWUP");
}

proof fn words_stand_for_keys_one(name: Seq<char>)
    ensures
        name == "ALT"@ ==> key_named(name) == Some(Key::Alt),
        name == "OPTION"@ ==> key_named(name) == Some(Key::Alt),
        name == "BACKSPACE"@ ==> key_named(name) == Some(Key::Backspace),
        name == "CTRL"@ ==> key_named(name) == Some(Key::Control),
        name == "CONTROL"@ ==> key_named(name) == Some(Key::Control),
        name == "DELETE"@ ==> key_named(name) == Some(Key::Delete),
        name == "DEL"@ ==> key_named(name) == Some(Key::Delete),
        name == "DOWN"@ ==> key_named(name) == Some(Key::DownArrow),
        name == "ARROWDOWN"@ ==> key_named(name) == Some(Key::DownArrow),
        name == "END"@ ==> key_named(name) == Some(Key::End),
        name == "ENTER"@ ==> key_named(name) == Some(Key::Return),
        name == "RETURN"@ ==> key_named(name) == Some(Key::Return),
        name == "ESC"@ ==> key_named(name) == Some(Key::Escape),
        name == "ESCAPE"@ ==> key_named(name) == Some(Key::Escape),
{
    reveal_words();
}

proof fn words_stand_for_keys_two(name: Seq<char>)
    ensures
        name == "F1"@ ==> key_named(name) == Some(Key::Function(1)),
        name == "F2"@ ==> key_named(name) == Some(Key::Function(2)),
        name == "F3"@ ==> key_named(name) == Some(Key::Function(3)),
        name == "F4"@ ==> key_named(name) == Some(Key::Function(4)),
        name == "F5"@ ==> key_named(name) == Some(Key::Function(5)),
        name == "F6"@ ==> key_named(name) == Some(Key::Function(6)),
        name == "F7"@ ==> key_named(name) == Some(Key::Function(7)),
        name == "F8"@ ==> key_named(name) == Some(Key::Function(8)),
        name == "F9"@ ==> key_named(name) == Some(Key::Function(9)),
        name == "F10"@ ==> key_named(name) == Some(Key::Function(10)),
        name == "F11"@ ==> key_named(name) == Some(Key::Function(11)),
        name == "F12"@ ==> key_named(name) == Some(Key::Function(12)),
{
    reveal_words();
}

proof fn words_stand_for_keys_three(name: Seq<char>)
    ensures
        name == "HOME"@ ==> key_named(name) == Some(Key::Home),
        name == "LEFT"@ ==> key_named(name) == Some(Key::LeftArrow),
        name == "ARROWLEFT"@ ==> key_named(name) == Some(Key::LeftArrow),
        name == "META"@ ==> key_named(name) == Some(Key::Meta),
        name == "CMD"@ ==> key_named(name) == Some(Key::Meta),
        name == "COMMAND"@ ==> key_named(name) == Some(Key::Meta),
        name == "SUPER"@ ==> key_named(name) == Some(Key::Meta),
        name == "WIN"@ ==> key_named(name) == Some(Key::Meta),
        name == "WINDOWS"@ ==> key_named(name) == Some(Key::Meta),
        name == "PAGEDOWN"@ ==> key_named(name) == Some(Key::PageDown),
        name == "PAGEUP"@ ==> key_named(name) == Some(Key::PageUp),
        name == "RIGHT"@ ==> key_named(name) == Some(Key::RightArrow),
        name == "ARROWRIGHT"@ ==> key_named(name) == Some(Key::RightArrow),
        name == "SHIFT"@ ==> key_named(name) == Some(Key::Shift),
        name == "SPACE"@ ==> key_named(name) == Some(Key::Space),
        name == "TAB"@ ==> key_named(name) == Some(Key::Tab),
        name == "UP"@ ==> key_named(name) == Some(Key::UpArrow),
        name == "ARROWUP"@ ==> key_named(name) == Some(Key::UpArrow),
{
    reveal_words();
}

/// Each key name stands for its key, and for that key's symbol, in any ASCII case and with any
/// white space around it.
pub proof fn key_names_stand_for_their_keys(name: Seq<char>)
    ensures
        (spells(name, "ALT"@) || spells(name, "OPTION"@)) ==> key_named(normalized(name)) == Some(
            Key::Alt,
        ) && named_symbol(name) == Ok::<u32, crate::protocol::CuErrorView>(0xffe9),
        spells(name, "BACKSPACE"@) ==> key_named(normalized(name)) == Some(
            Key::Backspace,
        ) && named_symbol(name) == Ok::<u32, crate::protocol::CuErrorView>(0xff08),
        (spells(name, "CTRL"@) || spells(name, "CONTROL"@)) ==> key_named(normalized(name)) == Some(
            Key::Control,
        ) && named_symbol(name) == Ok::<u32, crate::protocol::CuErrorView>(0xffe3),
        (spells(name, "DELETE"@) || spells(name, "DEL"@)) ==> key_named(normalized(name)) == Some(
            Key::Delete,
        ) && named_symbol(name) == Ok::<u32, crate::protocol::CuErrorView>(0xffff),
        (spells(name, "DOWN"@) || spells(name, "ARROWDOWN"@)) ==> key_named(normalized(name)) == Some(
            Key::DownArrow,
        ) && named_symbol(name) == Ok::<u32, crate::protocol::CuErrorView>(0xff54),
        spells(name, "END"@) ==> key_named(normalized(name)) == Some(
            Key::End,
        ) && named_symbol(name) == Ok::<u32, crate::protocol::CuErrorView>(0xff57),
        (spells(name, "ENTER"@) || spells(name, "RETURN"@)) ==> key_named(normalized(name)) == Some(
            Key::Return,
        ) && named_symbol(name) == Ok::<u32, crate::protocol::CuErrorView>(0xff0d),
        (spells(name, "ESC"@) || spells(name, "ESCAPE"@)) ==> key_named(normalized(name)) == Some(
            Key::Escape,
        ) && named_symbol(name) == Ok::<u32, crate::protocol::CuErrorView>(0xff1b),
        spells(name, "F1"@) ==> key_named(normalized(name)) == Some(
            Key::Function(1),
        ) && named_symbol(name) == Ok::<u32, crate::protocol::CuErrorView>(0xffbe),
        spells(name, "F2"@) ==> key_named(normalized(name)) == Some(
            Key::Function(2),
        ) && named_symbol(name) == Ok::<u32, crate::protocol::CuErrorView>(0xffbf),
        spells(name, "F3"@) ==> key_named(normalized(name)) == Some(
            Key::Function(3),
        ) && named_symbol(name) == Ok::<u32, crate::protocol::CuErrorView>(0xffc0),
        spells(name, "F4"@) ==> key_named(normalized(name)) == Some(
            Key::Function(4),
        ) && named_symbol(name) == Ok::<u32, crate::protocol::CuErrorView>(0xffc1),
        spells(name, "F5"@) ==> key_named(normalized(name)) == Some(
            Key::Function(5),
        ) && named_symbol(name) == Ok::<u32, crate::protocol::CuErrorView>(0xffc2),
        spells(name, "F6"@) ==> key_named(normalized(name)) == Some(
            Key::Function(6),
        ) && named_symbol(name) == Ok::<u32, crate::protocol::CuErrorView>(0xffc3),
        spells(name, "F7"@) ==> key_named(normalized(name)) == Some(
            Key::Function(7),
        ) && named_symbol(name) == Ok::<u32, crate::protocol::CuErrorView>(0xffc4),
        spells(name, "F8"@) ==> key_named(normalized(name)) == Some(
            Key::Function(8),
        ) && named_symbol(name) == Ok::<u32, crate::protocol::CuErrorView>(0xffc5),
        spells(name, "F9"@) ==> key_named(normalized(name)) == Some(
            Key::Function(9),
        ) && named_symbol(name) == Ok::<u32, crate::protocol::CuErrorView>(0xffc6),
        spells(name, "F10"@) ==> key_named(normalized(name)) == Some(
            Key::Function(10),
        ) && named_symbol(name) == Ok::<u32, crate::protocol::CuErrorView>(0xffc7),
        spells(name, "F11"@) ==> key_named(normalized(name)) == Some(
            Key::Function(11),
        ) && named_symbol(name) == Ok::<u32, crate::protocol::CuErrorView>(0xffc8),
        spells(name, "F12"@) ==> key_named(normalized(name)) == Some(
            Key::Function(12),
        ) && named_symbol(name) == Ok::<u32, crate::protocol::CuErrorView>(0xffc9),
        spells(name, "HOME"@) ==> key_named(normalized(name)) == Some(
            Key::Home,
        ) && named_symbol(name) == Ok::<u32, crate::protocol::CuErrorView>(0xff50),
        (spells(name, "LEFT"@) || spells(name, "ARROWLEFT"@)) ==> key_named(normalized(name)) == Some(
            Key::LeftArrow,
        ) && named_symbol(name) == Ok::<u32, crate::protocol::CuErrorView>(0xff51),
        (spells(name, "META"@) || spells(name, "CMD"@) || spells(name, "COMMAND"@) || spells(name, "SUPER"@) || spells(name, "WIN"@) || spells(name, "WINDOWS"@)) ==> key_named(normalized(name)) == Some(
            Key::Meta,
        ) && named_symbol(name) == Ok::<u32, crate::protocol::CuErrorView>(0xffeb),
        spells(name, "PAGEDOWN"@) ==> key_named(normalized(name)) == Some(
            Key::PageDown,
        ) && named_symbol(name) == Ok::<u32, crate::protocol::CuErrorView>(0xff56),
        spells(name, "PAGEUP"@) ==> key_named(normalized(name)) == Some(
            Key::PageUp,
        ) && named_symbol(name) == Ok::<u32, crate::protocol::CuErrorView>(0xff55),
        (spells(name, "RIGHT"@) || spells(name, "ARROWRIGHT"@)) ==> key_named(normalized(name)) == Some(
            Key::RightArrow,
        ) && named_symbol(name) == Ok::<u32, crate::protocol::CuErrorView>(0xff53),
        spells(name, "SHIFT"@) ==> key_named(normalized(name)) == Some(
            Key::Shift,
        ) && named_symbol(name) == Ok::<u32, crate::protocol::CuErrorView>(0xffe1),
        spells(name, "SPACE"@) ==> key_named(normalized(name)) == Some(
            Key::Space,
        ) && named_symbol(name) == Ok::<u32, crate::protocol::CuErrorView>(0x20),
        spells(name, "TAB"@) ==> key_named(normalized(name)) == Some(
            Key::Tab,
        ) && named_symbol(name) == Ok::<u32, crate::protocol::CuErrorView>(0xff09),
        (spells(name, "UP"@) || spells(name, "ARROWUP"@)) ==> key_named(normalized(name)) == Some(
            Key::UpArrow,
        ) && named_symbol(name) == Ok::<u32, crate::protocol::CuErrorView>(0xff52),
{
    reveal_words();
    words_stand_for_keys_one(normalized(name));
    words_stand_for_keys_two(normalized(name));
    words_stand_for_keys_three(normalized(name));
    if spells(name, "ALT"@) {
        spelled_names_are_normalized(name, "ALT"@);
    }
    if spells(name, "OPTION"@) {
        spelled_names_are_normalized(name, "OPTION"@);
    }
    if spells(name, "BACKSPACE"@) {
        spelled_names_are_normalized(name, "BACKSPACE"@);
    }
    if spells(name, "CTRL"@) {
        spelled_names_are_normalized(name, "CTRL"@);
    }
    if spells(name, "CONTROL"@) {
        spelled_names_are_normalized(name, "CONTROL"@);
    }
    if spells(name, "DELETE"@) {
        spelled_names_are_normalized(name, "DELETE"@);
    }
    if spells(name, "DEL"@) {
        spelled_names_are_normalized(name, "DEL"@);
    }
    if spells(name, "DOWN"@) {
        spelled_names_are_normalized(name, "DOWN"@);
    }
    if spells(name, "ARROWDOWN"@) {
        spelled_names_are_normalized(name, "ARROWDOWN"@);
    }
    if spells(name, "END"@) {
        spelled_names_are_normalized(name, "END"@);
    }
    if spells(name, "ENTER"@) {
        spelled_names_are_normalized(name, "ENTER"@);
    }
    if spells(name, "RETURN"@) {
        spelled_names_are_normalized(name, "RETURN"@);
    }
    if spells(name, "ESC"@) {
        spelled_names_are_normalized(name, "ESC"@);
    }
    if spells(name, "ESCAPE"@) {
        spelled_names_are_normalized(name, "ESCAPE"@);
    }
    if spells(name, "F1"@) {
        spelled_names_are_normalized(name, "F1"@);
    }
    if spells(name, "F2"@) {
        spelled_names_are_normalized(name, "F2"@);
    }
    if spells(name, "F3"@) {
        spelled_names_are_normalized(name, "F3"@);
    }
    if spells(name, "F4"@) {
        spelled_names_are_normalized(name, "F4"@);
    }
    if spells(name, "F5"@) {
        spelled_names_are_normalized(name, "F5"@);
    }
    if spells(name, "F6"@) {
        spelled_names_are_normalized(name, "F6"@);
    }
    if spells(name, "F7"@) {
        spelled_names_are_normalized(name, "F7"@);
    }
    if spells(name, "F8"@) {
        spelled_names_are_normalized(name, "F8"@);
    }
    if spells(name, "F9"@) {
        spelled_names_are_normalized(name, "F9"@);
    }
    if spells(name, "F10"@) {
        spelled_names_are_normalized(name, "F10"@);
    }
    if spells(name, "F11"@) {
        spelled_names_are_normalized(name, "F11"@);
    }
    if spells(name, "F12"@) {
        spelled_names_are_normalized(name, "F12"@);
    }
    if spells(name, "HOME"@) {
        spelled_names_are_normalized(name, "HOME"@);
    }
    if spells(name, "LEFT"@) {
        spelled_names_are_normalized(name, "LEFT"@);
    }
    if spells(name, "ARROWLEFT"@) {
        spelled_names_are_normalized(name, "ARROWLEFT"@);
    }
    if spells(name, "META"@) {
        spelled_names_are_normalized(name, "META"@);
    }
    if spells(name, "CMD"@) {
        spelled_names_are_normalized(name, "CMD"@);
    }
    if spells(name, "COMMAND"@) {
        spelled_names_are_normalized(name, "COMMAND"@);
    }
    if spells(name, "SUPER"@) {
        spelled_names_are_normalized(name, "SUPER"@);
    }
    if spells(name, "WIN"@) {
        spelled_names_are_normalized(name, "WIN"@);
    }
    if spells(name, "WINDOWS"@) {
        spelled_names_are_normalized(name, "WINDOWS"@);
    }
    if spells(name, "PAGEDOWN"@) {
        spelled_names_are_normalized(name, "PAGEDOWN"@);
    }
    if spells(name, "PAGEUP"@) {
        spelled_names_are_normalized(name, "PAGEUP"@);
    }
    if spells(name, "RIGHT"@) {
        spelled_names_are_normalized(name, "RIGHT"@);
    }
    if spells(name, "ARROWRIGHT"@) {
        spelled_names_are_normalized(name, "ARROWRIGHT"@);
    }
    if spells(name, "SHIFT"@) {
        spelled_names_are_normalized(name, "SHIFT"@);
    }
    if spells(name, "SPACE"@) {
        spelled_names_are_normalized(name, "SPACE"@);
    }
    if spells(name, "TAB"@) {
        spelled_names_are_normalized(name, "TAB"@);
    }
    if spells(name, "UP"@) {
        spelled_names_are_normalized(name, "UP"@);
    }
    if spells(name, "ARROWUP"@) {
        spelled_names_are_normalized(name, "ARROWUP"@);
    }
}

/// A name of one character stands for the key that types it, a capital letter of ASCII for that of
/// the small one.
pub proof fn characters_stand_for_their_keys(name: Seq<char>, c: char)
    requires
        is_one_character(name, c),
    ensures
        ({
            let typed = if 'A' <= c <= 'Z' {
                (c as int + 32) as char
            } else {
                c
            };
            &&& key_named(normalized(name)) == Some(Key::Character(typed))
            &&& named_symbol(name) == Ok::<u32, crate::protocol::CuErrorView>(char_keysym(typed))
        }),
{
    let from = choose|from: int|
        #![trigger name[from]]
        0 <= from < name.len() && name[from] == c && forall|i: int|
            0 <= i < name.len() && i != from ==> is_space(#[trigger] name[i]);
    trimming_takes_white_space_alone(name, from, from + 1);
    reveal_words();
    assert(normalized(name) =~= seq![upper(c)]);
}

/// No other name stands for a key: what is refused is neither one of the words nor one character.
pub proof fn other_names_stand_for_nothing(name: Seq<char>)
    ensures
        named_symbol(name) is Ok <==> spells_a_key(name) || exists|c: char| #[trigger]
            is_one_character(name, c),
        named_symbol(name) matches Err(error) ==> error.code is UnsupportedInput,
        key_named(normalized(name)) is Some <==> named_symbol(name) is Ok,
{
    key_names_stand_for_their_keys(name);
    let (from, to) = trimmed_texts_lie_between_spaces(name);
    let core = normalized(name);
    if exists|c: char| #[trigger] is_one_character(name, c) {
        let c = choose|c: char| #[trigger] is_one_character(name, c);
        characters_stand_for_their_keys(name, c);
    }
    if key_named(core) is Some {
        if core.len() == 1 {
            assert(is_one_character(name, name[from]));
        } else {
            reveal_words();
            assert forall|word: Seq<char>| core == word && is_plain(word) implies #[trigger] spells(
                name,
                word,
            ) by {
                assert forall|i: int| from <= i < from + word.len() implies is_letter(
                    #[trigger] name[i],
                    word[i - from],
                ) by {
                    assert(core[i - from] == upper(name.subrange(from, to)[i - from]));
                }
                assert(spelled_at(name, word, from));
            }
            keys_have_words(core);
            if core == "ALT"@ {
                assert(spells(name, "ALT"@));
            }
            if core == "OPTION"@ {
                assert(spells(name, "OPTION"@));
            }
            if core == "BACKSPACE"@ {
                assert(spells(name, "BACKSPACE"@));
            }
            if core == "CTRL"@ {
                assert(spells(name, "CTRL"@));
            }
            if core == "CONTROL"@ {
                assert(spells(name, "CONTROL"@));
            }
            if core == "DELETE"@ {
                assert(spells(name, "DELETE"@));
            }
            if core == "DEL"@ {
                assert(spells(name, "DEL"@));
            }
            if core == "DOWN"@ {
                assert(spells(name, "DOWN"@));
            }
            if core == "ARROWDOWN"@ {
                assert(spells(name, "ARROWDOWN"@));
            }
            if core == "END"@ {
                assert(spells(name, "END"@));
            }
            if core == "ENTER"@ {
                assert(spells(name, "ENTER"@));
            }
            if core == "RETURN"@ {
                assert(spells(name, "RETURN"@));
            }
            if core == "ESC"@ {
                assert(spells(name, "ESC"@));
            }
            if core == "ESCAPE"@ {
                assert(spells(name, "ESCAPE"@));
            }
            if core == "F1"@ {
                assert(spells(name, "F1"@));
            }
            if core == "F2"@ {
                assert(spells(name, "F2"@));
            }
            if core == "F3"@ {
                assert(spells(name, "F3"@));
            }
            if core == "F4"@ {
                assert(spells(name, "F4"@));
            }
            if core == "F5"@ {
                assert(spells(name, "F5"@));
            }
            if core == "F6"@ {
                assert(spells(name, "F6"@));
            }
            if core == "F7"@ {
                assert(spells(name, "F7"@));
            }
            if core == "F8"@ {
                assert(spells(name, "F8"@));
            }
            if core == "F9"@ {
                assert(spells(name, "F9"@));
            }
            if core == "F10"@ {
                assert(spells(name, "F10"@));
            }
            if core == "F11"@ {
                assert(spells(name, "F11"@));
            }
            if core == "F12"@ {
                assert(spells(name, "F12"@));
            }
            if core == "HOME"@ {
                assert(spells(name, "HOME"@));
            }
            if core == "LEFT"@ {
                assert(spells(name, "LEFT"@));
            }
            if core == "ARROWLEFT"@ {
                assert(spells(name, "ARROWLEFT"@));
            }
            if core == "META"@ {
                assert(spells(name, "META"@));
            }
            if core == "CMD"@ {
                assert(spells(name, "CMD"@));
            }
            if core == "COMMAND"@ {
                assert(spells(name, "COMMAND"@));
            }
            if core == "SUPER"@ {
                assert(spells(name, "SUPER"@));
            }
            if core == "WIN"@ {
                assert(spells(name, "WIN"@));
            }
            if core == "WINDOWS"@ {
                assert(spells(name, "WINDOWS"@));
            }
            if core == "PAGEDOWN"@ {
                assert(spells(name, "PAGEDOWN"@));
            }
            if core == "PAGEUP"@ {
                assert(spells(name, "PAGEUP"@));
            }
            if core == "RIGHT"@ {
                assert(spells(name, "RIGHT"@));
            }
            if core == "ARROWRIGHT"@ {
                assert(spells(name, "ARROWRIGHT"@));
            }
            if core == "SHIFT"@ {
                assert(spells(name, "SHIFT"@));
            }
            if core == "SPACE"@ {
                assert(spells(name, "SPACE"@));
            }
            if core == "TAB"@ {
                assert(spells(name, "TAB"@));
            }
            if core == "UP"@ {
                assert(spells(name, "UP"@));
            }
            if core == "ARROWUP"@ {
                assert(spells(name, "ARROWUP"@));
            }
        }
    }
}

proof fn keys_have_words(name: Seq<char>)
    requires
        key_named(name) is Some,
        name.len() != 1,
    ensures
        name == "ALT"@
            || name == "OPTION"@
            || name == "BACKSPACE"@
            || name == "CTRL"@
            || name == "CONTROL"@
            || name == "DELETE"@
            || name == "DEL"@
            || name == "DOWN"@
            || name == "ARROWDOWN"@
            || name == "END"@
            || name == "ENTER"@
            || name == "RETURN"@
            || name == "ESC"@
            || name == "ESCAPE"@
            || name == "F1"@
            || name == "F2"@
            || name == "F3"@
            || name == "F4"@
            || name == "F5"@
            || name == "F6"@
            || name == "F7"@
            || name == "F8"@
            || name == "F9"@
            || name == "F10"@
            || name == "F11"@
            || name == "F12"@
            || name == "HOME"@
            || name == "LEFT"@
            || name == "ARROWLEFT"@
            || name == "META"@
            || name == "CMD"@
            || name == "COMMAND"@
            || name == "SUPER"@
            || name == "WIN"@
            || name == "WINDOWS"@
            || name == "PAGEDOWN"@
            || name == "PAGEUP"@
            || name == "RIGHT"@
            || name == "ARROWRIGHT"@
            || name == "SHIFT"@
            || name == "SPACE"@
            || name == "TAB"@
            || name == "UP"@
            || name == "ARROWUP"@,
{
}

/// White space beyond ASCII is the next line, the no-break spaces, the spaces of typesetting, and
/// the separators of lines and paragraphs; no letter, digit or mark of Latin script is.
pub proof fn other_white_space(c: char)
    requires
        c > '\u{7f}',
    ensures
        c == '\u{85}' || c == '\u{a0}' || c == '\u{2028}' || c == '\u{2029}' || c == '\u{202f}' || c
            == '\u{3000}' ==> is_space(c),
        '\u{2000}' <= c <= '\u{200a}' ==> is_space(c),
        '\u{a1}' <= c <= '\u{24f}' ==> !is_space(c),
        c > '\u{3000}' ==> !is_space(c),
        c == '\u{200b}' || c == '\u{feff}' || c == '\u{180e}' ==> !is_space(c),
{
}

} // verus!
