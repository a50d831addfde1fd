//! Text building: decimal and hexadecimal numerals, comparison and trimming.
use vstd::prelude::*;

verus! {

/// The character of one decimal or hexadecimal digit, in lower case.
pub open spec fn digit_char(digit: nat) -> char {
    if digit < 10 {
        (48 + digit) as char
    } else {
        (87 + digit) as char
    }
}

/// The decimal numeral of `n`, without leading zeros.
pub open spec fn decimal(n: nat) -> Seq<char>
    decreases n,
{
    if n < 10 {
        seq![digit_char(n)]
    } else {
        decimal(n / 10).push(digit_char(n % 10))
    }
}

/// The decimal numeral of a signed integer, with a minus sign where it is negative.
pub open spec fn signed_decimal(n: int) -> Seq<char> {
    if n < 0 {
        "-"@ + decimal((-n) as nat)
    } else {
        decimal(n as nat)
    }
}

/// The last `width` hexadecimal digits of `n`, in lower case.
pub open spec fn hex_digits(n: nat, width: nat) -> Seq<char>
    decreases width,
{
    if width == 0 {
        Seq::empty()
    } else {
        hex_digits(n / 16, (width - 1) as nat).push(digit_char(n % 16))
    }
}

/// The hexadecimal numeral of `n` in lower case, without leading zeros.
pub open spec fn hexadecimal(n: nat) -> Seq<char>
    decreases n,
{
    if n < 16 {
        seq![digit_char(n)]
    } else {
        hexadecimal(n / 16).push(digit_char(n % 16))
    }
}

fn digit_text(digit: u8) -> (text: &'static str)
    requires
        digit < 16,
    ensures
        text@ == seq![digit_char(digit as nat)],
{
    proof {
        reveal_strlit("0");
        reveal_strlit("1");
        reveal_strlit("2");
        reveal_strlit("3");
        reveal_strlit("4");
        reveal_strlit("5");
        reveal_strlit("6");
        reveal_strlit("7");
        reveal_strlit("8");
        reveal_strlit("9");
        reveal_strlit("a");
        reveal_strlit("b");
        reveal_strlit("c");
        reveal_strlit("d");
        reveal_strlit("e");
        reveal_strlit("f");
    }
    match digit {
        0 => "0",
        1 => "1",
        2 => "2",
        3 => "3",
        4 => "4",
        5 => "5",
        6 => "6",
        7 => "7",
        8 => "8",
        9 => "9",
        10 => "a",
        11 => "b",
        12 => "c",
        13 => "d",
        14 => "e",
        _ => "f",
    }
}

/// Append the decimal numeral of `n`.
pub fn push_decimal(out: &mut String, n: u64)
    ensures
        final(out)@ == old(out)@ + decimal(n as nat),
    decreases n,
{
    if n >= 10 {
        push_decimal(out, n / 10);
    }
    out.append(digit_text((n % 10) as u8));
}

/// Append the decimal numeral of a signed integer.
pub fn push_signed_decimal(out: &mut String, n: i64)
    ensures
        final(out)@ == old(out)@ + signed_decimal(n as int),
{
    if n < 0 {
        out.append("-");
        if n == i64::MIN {
            push_decimal(out, 0x8000_0000_0000_0000);
        } else {
            push_decimal(out, (-n) as u64);
        }
    } else {
        push_decimal(out, n as u64);
    }
}

/// Append the hexadecimal numeral of `n`.
pub fn push_hexadecimal(out: &mut String, n: u64)
    ensures
        final(out)@ == old(out)@ + hexadecimal(n as nat),
    decreases n,
{
    if n >= 16 {
        push_hexadecimal(out, n / 16);
    }
    out.append(digit_text((n % 16) as u8));
}

/// Append the last `width` hexadecimal digits of `n`.
pub fn push_hex(out: &mut String, n: u64, width: usize)
    ensures
        final(out)@ == old(out)@ + hex_digits(n as nat, width as nat),
    decreases width,
{
    if width > 0 {
        push_hex(out, n / 16, width - 1);
        out.append(digit_text((n % 16) as u8));
    }
}

/// Whether two texts are equal.
pub fn same_text(first: &str, second: &str) -> (same: bool)
    ensures
        same == (first@ == second@),
{
    first.to_owned() == second.to_owned()
}

/// The characters of a text.
pub fn chars_of(text: &str) -> (chars: Vec<char>)
    ensures
        chars@ == text@,
{
    let mut chars: Vec<char> = Vec::new();
    for c in it: text.chars()
        invariant
            it.seq() == text@,
            chars@ == it.seq().take(it.index()),
    {
        assert(it.seq().take(it.index() + 1) =~= it.seq().take(it.index()).push(c));
        chars.push(c);
    }
    assert(chars@ =~= text@);
    chars
}

/// Calls `String::push`, which appends one character.
#[verifier::external_body]
pub(crate) fn push_char(out: &mut String, c: char)
    ensures
        final(out)@ == old(out)@.push(c),
{
    out.push(c);
}

/// The text of a run of characters.
pub fn text_of(chars: &Vec<char>, from: usize, to: usize) -> (text: String)
    requires
        from <= to <= chars.len(),
    ensures
        text@ == chars@.subrange(from as int, to as int),
{
    let mut text = String::new();
    let mut n: usize = from;
    while n < to
        invariant
            from <= n <= to <= chars.len(),
            text@ == chars@.subrange(from as int, n as int),
        decreases to - n,
    {
        push_char(&mut text, chars[n]);
        n += 1;
        assert(text@ =~= chars@.subrange(from as int, n as int));
    }
    text
}

/// Whether a character is an ASCII hexadecimal digit.
pub open spec fn is_hex_digit(c: char) -> bool {
    '0' <= c <= '9' || 'a' <= c <= 'f' || 'A' <= c <= 'F'
}

/// Whether a text consists of exactly `width` hexadecimal digits.
pub open spec fn all_hex(text: Seq<char>, width: nat) -> bool {
    text.len() == width && forall|i: int| 0 <= i < text.len() ==> is_hex_digit(#[trigger] text[i])
}

/// Whether a text consists of exactly `width` hexadecimal digits.
pub fn is_hex_width(value: &str, width: usize) -> (result: bool)
    ensures
        result == all_hex(value@, width as nat),
{
    let chars = chars_of(value);
    if chars.len() != width {
        return false;
    }
    let mut n: usize = 0;
    while n < chars.len()
        invariant
            n <= chars.len(),
            chars@ == value@,
            forall|i: int| 0 <= i < n ==> is_hex_digit(#[trigger] value@[i]),
        decreases chars.len() - n,
    {
        let c = chars[n];
        if !(('0' <= c && c <= '9') || ('a' <= c && c <= 'f') || ('A' <= c && c <= 'F')) {
            assert(!is_hex_digit(value@[n as int]));
            return false;
        }
        n += 1;
    }
    true
}

/// Hexadecimal numerals hold exactly as many hexadecimal digits as they are wide.
pub proof fn numerals_are_hex(n: nat, width: nat)
    ensures
        all_hex(hex_digits(n, width), width),
    decreases width,
{
    if width > 0 {
        numerals_are_hex(n / 16, (width - 1) as nat);
        let shorter = hex_digits(n / 16, (width - 1) as nat);
        let numeral = hex_digits(n, width);
        assert forall|i: int| 0 <= i < numeral.len() implies is_hex_digit(#[trigger] numeral[i]) by {
            if i < shorter.len() {
                assert(is_hex_digit(shorter[i]));
            }
        }
    }
}

/// Two numbers whose hexadecimal numerals of the same width agree are equal, if they fit it.
pub proof fn numerals_are_distinct(first: nat, second: nat, width: nat)
    requires
        first < vstd::arithmetic::power::pow(16, width),
        second < vstd::arithmetic::power::pow(16, width),
        hex_digits(first, width) == hex_digits(second, width),
    ensures
        first == second,
    decreases width,
{
    reveal(vstd::arithmetic::power::pow);
    if width > 0 {
        let shorter = (width - 1) as nat;
        let a = hex_digits(first, width);
        let b = hex_digits(second, width);
        assert(a.drop_last() =~= hex_digits(first / 16, shorter));
        assert(b.drop_last() =~= hex_digits(second / 16, shorter));
        assert(a.last() == b.last());
        assert(digit_char(first % 16) == digit_char(second % 16));
        assert(first % 16 == second % 16);
        assert(vstd::arithmetic::power::pow(16, width) == 16 * vstd::arithmetic::power::pow(
            16,
            shorter,
        ));
        assert(first / 16 < vstd::arithmetic::power::pow(16, shorter));
        assert(second / 16 < vstd::arithmetic::power::pow(16, shorter));
        numerals_are_distinct(first / 16, second / 16, shorter);
    }
}

proof fn decimal_starts_with_digit(n: nat)
    ensures
        decimal(n).len() > 0,
        n >= 10 ==> decimal(n).len() > 1,
        '0' <= decimal(n)[0] <= '9',
    decreases n,
{
    if n >= 10 {
        decimal_starts_with_digit(n / 10);
    }
}

proof fn decimals_are_distinct(first: nat, second: nat)
    requires
        decimal(first) == decimal(second),
    ensures
        first == second,
    decreases first,
{
    decimal_starts_with_digit(first);
    decimal_starts_with_digit(second);
    if first >= 10 {
        assert(decimal(first).drop_last() =~= decimal(first / 10));
        assert(decimal(second).drop_last() =~= decimal(second / 10));
        assert(decimal(first).last() == digit_char(first % 10));
        assert(decimal(second).last() == digit_char(second % 10));
        decimals_are_distinct(first / 10, second / 10);
    } else {
        assert(decimal(first)[0] == digit_char(first));
        assert(decimal(second)[0] == digit_char(second));
    }
}

/// Different integers have different decimal numerals.
pub proof fn signed_decimals_are_distinct(first: int, second: int)
    requires
        signed_decimal(first) == signed_decimal(second),
    ensures
        first == second,
{
    reveal_strlit("-");
    let a = if first < 0 {
        (-first) as nat
    } else {
        first as nat
    };
    let b = if second < 0 {
        (-second) as nat
    } else {
        second as nat
    };
    decimal_starts_with_digit(a);
    decimal_starts_with_digit(b);
    if first < 0 {
        assert(signed_decimal(first)[0] == '-');
        assert(signed_decimal(first).skip(1) =~= decimal(a));
    } else {
        assert(signed_decimal(first)[0] == decimal(a)[0]);
    }
    if second < 0 {
        assert(signed_decimal(second)[0] == '-');
        assert(signed_decimal(second).skip(1) =~= decimal(b));
    } else {
        assert(signed_decimal(second)[0] == decimal(b)[0]);
    }
    decimals_are_distinct(a, b);
}

} // verus!
