//! Key names: how they are read and which keyboard symbols they stand for.
use vstd::prelude::*;

use crate::protocol::{failure, CuError, CuErrorView, ErrorCode};
use crate::store::joined_error;
use crate::text::{chars_of, push_char, same_text, text_of};

verus! {

/// A key that an action can name.
#[derive(Debug, Clone, Copy, PartialEq, Eq, Structural)]
pub enum Key {
    Alt,
    Backspace,
    Control,
    Delete,
    DownArrow,
    End,
    Return,
    Escape,
    /// A function key, from 1 through 12.
    Function(u8),
    Home,
    LeftArrow,
    Meta,
    PageDown,
    PageUp,
    RightArrow,
    Shift,
    Space,
    Tab,
    UpArrow,
    /// A key that types a character.
    Character(char),
}

/// Whether a character counts as white space in Unicode.
pub open spec fn is_space(c: char) -> bool {
    ||| '\u{9}' <= c <= '\u{d}'
    ||| c == '\u{20}'
    ||| c == '\u{85}'
    ||| c == '\u{a0}'
    ||| c == '\u{1680}'
    ||| '\u{2000}' <= c <= '\u{200a}'
    ||| c == '\u{2028}'
    ||| c == '\u{2029}'
    ||| c == '\u{202f}'
    ||| c == '\u{205f}'
    ||| c == '\u{3000}'
}

/// A text without the white space at its start.
pub open spec fn trimmed_start(text: Seq<char>) -> Seq<char>
    decreases text.len(),
{
    if text.len() > 0 && is_space(text[0]) {
        trimmed_start(text.drop_first())
    } else {
        text
    }
}

/// A text without the white space at its end.
pub open spec fn trimmed_end(text: Seq<char>) -> Seq<char>
    decreases text.len(),
{
    if text.len() > 0 && is_space(text.last()) {
        trimmed_end(text.drop_last())
    } else {
        text
    }
}

/// A text without the white space at its ends.
pub open spec fn trimmed(text: Seq<char>) -> Seq<char> {
    trimmed_end(trimmed_start(text))
}

/// Whether a character counts as white space in Unicode.
pub fn is_whitespace(c: char) -> (result: bool)
    ensures
        result == is_space(c),
{
    ('\u{9}' <= c && c <= '\u{d}') || c == '\u{20}' || c == '\u{85}' || c == '\u{a0}' || c
        == '\u{1680}' || ('\u{2000}' <= c && c <= '\u{200a}') || c == '\u{2028}' || c
        == '\u{2029}' || c == '\u{202f}' || c == '\u{205f}' || c == '\u{3000}'
}

/// A text without the white space at its ends.
pub fn trim(text: &str) -> (result: String)
    ensures
        result@ == trimmed(text@),
{
    let chars = chars_of(text);
    let mut from: usize = 0;
    assert(chars@.skip(0) =~= chars@);
    while from < chars.len() && is_whitespace(chars[from])
        invariant
            from <= chars.len(),
            chars@ == text@,
            trimmed_start(text@) == trimmed_start(chars@.skip(from as int)),
        decreases chars.len() - from,
    {
        assert(chars@.skip(from as int).drop_first() =~= chars@.skip(from + 1));
        from += 1;
    }
    assert(trimmed_start(text@) =~= chars@.skip(from as int));
    let mut to: usize = chars.len();
    assert(chars@.subrange(from as int, to as int) =~= chars@.skip(from as int));
    while to > from && is_whitespace(chars[to - 1])
        invariant
            from <= to <= chars.len(),
            trimmed_end(chars@.skip(from as int)) == trimmed_end(
                chars@.subrange(from as int, to as int),
            ),
        decreases to,
    {
        assert(chars@.subrange(from as int, to as int).drop_last() =~= chars@.subrange(
            from as int,
            to - 1,
        ));
        to -= 1;
    }
    text_of(&chars, from, to)
}

/// An ASCII letter in upper case; any other character as it is.
pub open spec fn upper(c: char) -> char {
    if 'a' <= c <= 'z' {
        (c as u32 - 32) as char
    } else {
        c
    }
}

/// An ASCII letter in lower case; any other character as it is.
pub open spec fn lower(c: char) -> char {
    if 'A' <= c <= 'Z' {
        (c as u32 + 32) as char
    } else {
        c
    }
}

fn to_upper(c: char) -> (result: char)
    ensures
        result == upper(c),
{
    if 'a' <= c && c <= 'z' {
        (c as u8 - 32) as char
    } else {
        c
    }
}

pub(crate) fn to_lower(c: char) -> (result: char)
    ensures
        result == lower(c),
{
    if 'A' <= c && c <= 'Z' {
        (c as u8 + 32) as char
    } else {
        c
    }
}

/// A key name without white space at its ends and in ASCII upper case.
pub open spec fn normalized(name: Seq<char>) -> Seq<char> {
    trimmed(name).map_values(|c: char| upper(c))
}

/// The key that a normalized name stands for.
pub open spec fn key_named(name: Seq<char>) -> Option<Key> {
    if name == "ALT"@ || name == "OPTION"@ {
        Some(Key::Alt)
    } else if name == "BACKSPACE"@ {
        Some(Key::Backspace)
    } else if name == "CTRL"@ || name == "CONTROL"@ {
        Some(Key::Control)
    } else if name == "DELETE"@ || name == "DEL"@ {
        Some(Key::Delete)
    } else if name == "DOWN"@ || name == "ARROWDOWN"@ {
        Some(Key::DownArrow)
    } else if name == "END"@ {
        Some(Key::End)
    } else if name == "ENTER"@ || name == "RETURN"@ {
        Some(Key::Return)
    } else if name == "ESC"@ || name == "ESCAPE"@ {
        Some(Key::Escape)
    } else if function_named(name) is Some {
        Some(Key::Function(function_named(name)->0))
    } else if name == "HOME"@ {
        Some(Key::Home)
    } else if name == "LEFT"@ || name == "ARROWLEFT"@ {
        Some(Key::LeftArrow)
    } else if name == "META"@ || name == "CMD"@ || name == "COMMAND"@ || name == "SUPER"@ || name
        == "WIN"@ || name == "WINDOWS"@ {
        Some(Key::Meta)
    } else if name == "PAGEDOWN"@ {
        Some(Key::PageDown)
    } else if name == "PAGEUP"@ {
        Some(Key::PageUp)
    } else if name == "RIGHT"@ || name == "ARROWRIGHT"@ {
        Some(Key::RightArrow)
    } else if name == "SHIFT"@ {
        Some(Key::Shift)
    } else if name == "SPACE"@ {
        Some(Key::Space)
    } else if name == "TAB"@ {
        Some(Key::Tab)
    } else if name == "UP"@ || name == "ARROWUP"@ {
        Some(Key::UpArrow)
    } else if name.len() == 1 {
        Some(Key::Character(lower(name[0])))
    } else {
        None
    }
}

/// The number of the function key that a normalized name stands for.
pub open spec fn function_named(name: Seq<char>) -> Option<u8> {
    if name == "F1"@ {
        Some(1)
    } else if name == "F2"@ {
        Some(2)
    } else if name == "F3"@ {
        Some(3)
    } else if name == "F4"@ {
        Some(4)
    } else if name == "F5"@ {
        Some(5)
    } else if name == "F6"@ {
        Some(6)
    } else if name == "F7"@ {
        Some(7)
    } else if name == "F8"@ {
        Some(8)
    } else if name == "F9"@ {
        Some(9)
    } else if name == "F10"@ {
        Some(10)
    } else if name == "F11"@ {
        Some(11)
    } else if name == "F12"@ {
        Some(12)
    } else {
        None
    }
}

fn function_key(name: &str) -> (number: Option<u8>)
    ensures
        number == function_named(name@),
{
    if same_text(name, "F1") {
        Some(1)
    } else if same_text(name, "F2") {
        Some(2)
    } else if same_text(name, "F3") {
        Some(3)
    } else if same_text(name, "F4") {
        Some(4)
    } else if same_text(name, "F5") {
        Some(5)
    } else if same_text(name, "F6") {
        Some(6)
    } else if same_text(name, "F7") {
        Some(7)
    } else if same_text(name, "F8") {
        Some(8)
    } else if same_text(name, "F9") {
        Some(9)
    } else if same_text(name, "F10") {
        Some(10)
    } else if same_text(name, "F11") {
        Some(11)
    } else if same_text(name, "F12") {
        Some(12)
    } else {
        None
    }
}

fn is_one_of(name: &str, first: &str, second: &str) -> (result: bool)
    ensures
        result == (name@ == first@ || name@ == second@),
{
    same_text(name, first) || same_text(name, second)
}

fn normalize(name: &str) -> (result: String)
    ensures
        result@ == normalized(name@),
{
    let kept = trim(name);
    let chars = chars_of(&kept);
    let mut result = String::new();
    let mut n: usize = 0;
    while n < chars.len()
        invariant
            n <= chars.len(),
            chars@ == kept@,
            result@ == kept@.map_values(|c: char| upper(c)).take(n as int),
        decreases chars.len() - n,
    {
        push_char(&mut result, to_upper(chars[n]));
        n += 1;
        assert(result@ =~= kept@.map_values(|c: char| upper(c)).take(n as int));
    }
    assert(result@ =~= normalized(name@));
    result
}

/// The text of a string in the notation of Rust's debug output.
pub uninterp spec fn debug_text(text: Seq<char>) -> Seq<char>;

/// Calls the `Debug` formatting of `str`, which quotes and escapes the text.
///
/// Trusted: the result depends on the text alone, and is named `debug_text`.
#[verifier::external_body]
pub(crate) fn quoted(text: &str) -> (result: String)
    ensures
        result@ == debug_text(text@),
{
    format!("{text:?}")
}

/// A character in the notation of Rust's debug output.
pub uninterp spec fn debug_char(c: char) -> Seq<char>;

/// Calls the `Debug` formatting of `char`, which quotes and escapes the character.
///
/// Trusted: the result depends on the character alone, and is named `debug_char`.
#[verifier::external_body]
pub(crate) fn quoted_char(c: char) -> (result: String)
    ensures
        result@ == debug_char(c),
{
    format!("{c:?}")
}

/// The failure of a name that stands for no key, given the quoted name.
pub open spec fn unsupported(quoted_name: Seq<char>) -> CuErrorView {
    failure(ErrorCode::UnsupportedInput, "unsupported key name "@ + quoted_name)
}

/// The failure of a name that stands for no key.
pub fn unsupported_key(quoted_name: &str) -> (error: CuError)
    ensures
        error@ == unsupported(quoted_name@),
{
    joined_error(ErrorCode::UnsupportedInput, "unsupported key name ", quoted_name)
}

/// The key that a name stands for, read without regard to ASCII case and surrounding white space.
pub fn named_key(name: &str) -> (key: Option<Key>)
    ensures
        key == key_named(normalized(name@)),
{
    let normal = normalize(name);
    let name = normal.as_str();
    if is_one_of(name, "ALT", "OPTION") {
        return Some(Key::Alt);
    }
    if same_text(name, "BACKSPACE") {
        return Some(Key::Backspace);
    }
    if is_one_of(name, "CTRL", "CONTROL") {
        return Some(Key::Control);
    }
    if is_one_of(name, "DELETE", "DEL") {
        return Some(Key::Delete);
    }
    if is_one_of(name, "DOWN", "ARROWDOWN") {
        return Some(Key::DownArrow);
    }
    if same_text(name, "END") {
        return Some(Key::End);
    }
    if is_one_of(name, "ENTER", "RETURN") {
        return Some(Key::Return);
    }
    if is_one_of(name, "ESC", "ESCAPE") {
        return Some(Key::Escape);
    }
    if let Some(number) = function_key(name) {
        return Some(Key::Function(number));
    }
    if same_text(name, "HOME") {
        return Some(Key::Home);
    }
    if is_one_of(name, "LEFT", "ARROWLEFT") {
        return Some(Key::LeftArrow);
    }
    if is_one_of(name, "META", "CMD") || is_one_of(name, "COMMAND", "SUPER") || is_one_of(
        name,
        "WIN",
        "WINDOWS",
    ) {
        return Some(Key::Meta);
    }
    if same_text(name, "PAGEDOWN") {
        return Some(Key::PageDown);
    }
    if same_text(name, "PAGEUP") {
        return Some(Key::PageUp);
    }
    if is_one_of(name, "RIGHT", "ARROWRIGHT") {
        return Some(Key::RightArrow);
    }
    if same_text(name, "SHIFT") {
        return Some(Key::Shift);
    }
    if same_text(name, "SPACE") {
        return Some(Key::Space);
    }
    if same_text(name, "TAB") {
        return Some(Key::Tab);
    }
    if is_one_of(name, "UP", "ARROWUP") {
        return Some(Key::UpArrow);
    }
    if name.unicode_len() == 1 {
        return Some(Key::Character(to_lower(name.get_char(0))));
    }
    None
}

/// The key that a name stands for.
pub fn parse_key(name: &str) -> (result: Result<Key, CuError>)
    ensures
        match key_named(normalized(name@)) {
            Some(key) => result == Ok::<Key, CuError>(key),
            None => result matches Err(error) && error@ == unsupported(debug_text(name@)),
        },
{
    match named_key(name) {
        Some(key) => Ok(key),
        None => Err(unsupported_key(&quoted(name))),
    }
}

} // verus!
