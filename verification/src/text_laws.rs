//! What written numbers mean, and which texts are numbers.
use vstd::arithmetic::power::pow;
use vstd::prelude::*;

use crate::command::{comma_fields, digits_value, number_of, rect_of, NumberFault};
use crate::text::{decimal, digit_char, hex_digits, hexadecimal, signed_decimal};

verus! {

/// The value of a digit.
pub open spec fn digit_value(c: char) -> int {
    if '0' <= c <= '9' {
        c as int - '0' as int
    } else {
        c as int - 'a' as int + 10
    }
}

/// Whether a character is a digit of a base up to sixteen, in lower case.
pub open spec fn is_digit(c: char, base: int) -> bool {
    ('0' <= c <= '9' || 'a' <= c <= 'f') && digit_value(c) < base
}

/// Whether a text holds digits of a base only.
pub open spec fn is_numeral(text: Seq<char>, base: int) -> bool {
    forall|i: int| 0 <= i < text.len() ==> is_digit(#[trigger] text[i], base)
}

/// The number that digits stand for: each one counts as often as the base for the one after it.
pub open spec fn numeral_value(text: Seq<char>, base: int) -> int
    decreases text.len(),
{
    if text.len() == 0 {
        0
    } else {
        numeral_value(text.drop_last(), base) * base + digit_value(text.last())
    }
}

proof fn longer_numerals(text: Seq<char>, c: char, base: int)
    requires
        is_numeral(text, base),
        is_digit(c, base),
    ensures
        is_numeral(text.push(c), base),
        numeral_value(text.push(c), base) == numeral_value(text, base) * base + digit_value(c),
{
    let longer = text.push(c);
    assert(longer.drop_last() =~= text);
    assert forall|i: int| 0 <= i < longer.len() implies is_digit(#[trigger] longer[i], base) by {
        if i < text.len() {
            assert(longer[i] == text[i]);
        }
    }
}

/// A decimal has decimal digits, stands for its number, and does not start with a zero unless it is
/// nothing else.
pub proof fn decimals_tell_their_number(n: nat)
    ensures
        is_numeral(decimal(n), 10),
        numeral_value(decimal(n), 10) == n,
        decimal(n).len() > 0,
        decimal(n)[0] == '0' <==> n == 0,
        n < 10 ==> decimal(n).len() == 1,
    decreases n,
{
    if n < 10 {
        assert(decimal(n) =~= Seq::empty().push(digit_char(n)));
        assert(digit_char(n) as int == 48 + n);
        longer_numerals(Seq::empty(), digit_char(n), 10);
    } else {
        decimals_tell_their_number(n / 10);
        longer_numerals(decimal(n / 10), digit_char(n % 10), 10);
        assert(decimal(n)[0] == decimal(n / 10)[0]);
    }
}

/// A hexadecimal has lower-case digits, stands for its number, and does not start with a zero
/// unless it is nothing else.
pub proof fn hexadecimals_tell_their_number(n: nat)
    ensures
        is_numeral(hexadecimal(n), 16),
        numeral_value(hexadecimal(n), 16) == n,
        hexadecimal(n).len() > 0,
        hexadecimal(n)[0] == '0' <==> n == 0,
        n < 16 ==> hexadecimal(n).len() == 1,
    decreases n,
{
    if n < 16 {
        assert(hexadecimal(n) =~= Seq::empty().push(digit_char(n)));
        longer_numerals(Seq::empty(), digit_char(n), 16);
    } else {
        hexadecimals_tell_their_number(n / 16);
        longer_numerals(hexadecimal(n / 16), digit_char(n % 16), 16);
        assert(hexadecimal(n)[0] == hexadecimal(n / 16)[0]);
    }
}

/// Hexadecimal digits of a width are that many, in lower case, and stand for their number where it
/// has no more digits.
pub proof fn hex_digits_tell_their_number(n: nat, width: nat)
    requires
        n < pow(16, width),
    ensures
        is_numeral(hex_digits(n, width), 16),
        numeral_value(hex_digits(n, width), 16) == n,
        hex_digits(n, width).len() == width,
    decreases width,
{
    reveal(pow);
    if width > 0 {
        assert(n / 16 < pow(16, (width - 1) as nat));
        hex_digits_tell_their_number(n / 16, (width - 1) as nat);
        longer_numerals(hex_digits(n / 16, (width - 1) as nat), digit_char(n % 16), 16);
    }
}

/// A signed decimal is that of its amount, behind a minus sign where it is negative.
pub proof fn signed_decimals_tell_their_number(n: int)
    ensures
        n >= 0 ==> numeral_value(signed_decimal(n), 10) == n && is_numeral(signed_decimal(n), 10),
        n < 0 ==> signed_decimal(n)[0] == '-' && numeral_value(
            signed_decimal(n).subrange(1, signed_decimal(n).len() as int),
            10,
        ) == -n,
{
    reveal_strlit("-");
    if n < 0 {
        decimals_tell_their_number((-n) as nat);
        assert(signed_decimal(n).subrange(1, signed_decimal(n).len() as int) =~= decimal(
            (-n) as nat,
        ));
    } else {
        decimals_tell_their_number(n as nat);
    }
}

proof fn digits_are_read(digits: Seq<char>, max: u64)
    ensures
        digits_value(digits, max) matches Ok(value) ==> is_numeral(digits, 10) && value
            == numeral_value(digits, 10) && value <= max,
        digits_value(digits, max) matches Err(fault) ==> match fault {
            NumberFault::TooLarge => true,
            NumberFault::InvalidDigit => !is_numeral(digits, 10),
            NumberFault::Empty => false,
        },
        is_numeral(digits, 10) && numeral_value(digits, 10) <= max ==> digits_value(digits, max)
            is Ok,
        is_numeral(digits, 10) ==> numeral_value(digits, 10) >= 0,
    decreases digits.len(),
{
    if digits.len() > 0 {
        let shorter = digits.drop_last();
        let last = digits.len() - 1;
        digits_are_read(shorter, max);
        assert(digits =~= shorter.push(digits.last()));
        assert(digits.last() == digits[last]);
        if is_numeral(digits, 10) {
            assert forall|i: int| 0 <= i < shorter.len() implies is_digit(
                #[trigger] shorter[i],
                10,
            ) by {
                assert(shorter[i] == digits[i]);
            }
            assert(is_digit(digits[last], 10));
        }
        if !is_numeral(shorter, 10) {
            let i = choose|i: int| 0 <= i < shorter.len() && !is_digit(#[trigger] shorter[i], 10);
            assert(!is_digit(digits[i], 10));
        } else if is_digit(digits.last(), 10) {
            longer_numerals(shorter, digits.last(), 10);
        } else {
            assert(!is_digit(digits[last], 10));
        }
    }
}

/// A text is read as a number exactly where it is one or more decimal digits, with or without a
/// plus sign before them, and stands for a number up to the greatest one; that is then the number.
/// A number is found too large only where it has digits.
pub proof fn numbers_are_read_from_digits(text: Seq<char>, max: u64)
    ensures
        ({
            let digits = if text.len() > 0 && text[0] == '+' {
                text.subrange(1, text.len() as int)
            } else {
                text
            };
            &&& number_of(text, max) is Ok <==> digits.len() > 0 && is_numeral(digits, 10)
                && numeral_value(digits, 10) <= max
            &&& number_of(text, max) matches Ok(value) ==> value == numeral_value(digits, 10)
            &&& number_of(text, max) == Err::<nat, NumberFault>(NumberFault::Empty) <==> text.len()
                == 0
            &&& number_of(text, max) == Err::<nat, NumberFault>(NumberFault::TooLarge)
                ==> digits.len() > 0
        }),
{
    if text.len() > 0 {
        digits_are_read(text, max);
        digits_are_read(text.skip(1), max);
        assert(text.skip(1) =~= text.subrange(1, text.len() as int));
    }
}

proof fn fields_hold_no_comma(text: Seq<char>)
    ensures
        comma_fields(text).len() > 0,
        forall|i: int, j: int|
            0 <= i < comma_fields(text).len() && 0 <= j < comma_fields(text)[i].len()
                ==> comma_fields(text)[i][j] != ',',
    decreases text.len(),
{
    if text.len() > 0 {
        let shorter = text.drop_last();
        let earlier = comma_fields(shorter);
        let fields = comma_fields(text);
        fields_hold_no_comma(shorter);
        assert forall|i: int, j: int|
            0 <= i < fields.len() && 0 <= j < fields[i].len() implies fields[i][j] != ',' by {
            if text.last() != ',' && i == earlier.len() - 1 && j < earlier.last().len() {
                assert(fields[i][j] == earlier[i][j]);
            } else if i < earlier.len() - 1 {
                assert(fields[i] == earlier[i]);
            } else if text.last() == ',' && i == earlier.len() - 1 {
                assert(fields[i] == earlier[i]);
            }
        }
    }
}

proof fn field_without_comma(text: Seq<char>)
    requires
        forall|i: int| 0 <= i < text.len() ==> text[i] != ',',
    ensures
        comma_fields(text) == seq![text],
    decreases text.len(),
{
    if text.len() > 0 {
        let shorter = text.drop_last();
        assert forall|i: int| 0 <= i < shorter.len() implies shorter[i] != ',' by {
            assert(shorter[i] == text[i]);
        }
        field_without_comma(shorter);
        assert(text.last() == text[text.len() - 1]);
        assert(shorter.push(text.last()) =~= text);
        assert(comma_fields(text) =~= seq![text]);
    } else {
        assert(text =~= Seq::empty());
    }
}

/// A comma and a text without commas behind another text add that text to its fields.
pub proof fn fields_are_parted_by_commas(text: Seq<char>, field: Seq<char>)
    requires
        forall|i: int| 0 <= i < field.len() ==> field[i] != ',',
    ensures
        comma_fields(text.push(',') + field) == comma_fields(text).push(field),
        comma_fields(field) == seq![field],
    decreases field.len(),
{
    fields_hold_no_comma(text);
    field_without_comma(field);
    let whole = text.push(',') + field;
    if field.len() == 0 {
        assert(whole =~= text.push(','));
        assert(whole.drop_last() =~= text);
        assert(field =~= Seq::empty());
    } else {
        let shorter = field.drop_last();
        assert forall|i: int| 0 <= i < shorter.len() implies shorter[i] != ',' by {
            assert(shorter[i] == field[i]);
        }
        fields_are_parted_by_commas(text, shorter);
        assert(whole.drop_last() =~= text.push(',') + shorter);
        assert(whole.last() == field[field.len() - 1]);
        assert(shorter.push(field.last()) =~= field);
        assert(comma_fields(whole) =~= comma_fields(text).push(field));
    }
}

/// A rectangle is read from four numbers of 32 bits with commas between them: its left and upper
/// edge, its width and its height.
pub proof fn rectangles_are_read_from_four_numbers(
    x: Seq<char>,
    y: Seq<char>,
    width: Seq<char>,
    height: Seq<char>,
)
    requires
        forall|i: int| 0 <= i < x.len() ==> x[i] != ',',
        forall|i: int| 0 <= i < y.len() ==> y[i] != ',',
        forall|i: int| 0 <= i < width.len() ==> width[i] != ',',
        forall|i: int| 0 <= i < height.len() ==> height[i] != ',',
    ensures
        ({
            let text = ((x.push(',') + y).push(',') + width).push(',') + height;
            let rect = rect_of(comma_fields(text));
            let (a, b, c, d) = (
                number_of(x, u32::MAX as u64),
                number_of(y, u32::MAX as u64),
                number_of(width, u32::MAX as u64),
                number_of(height, u32::MAX as u64),
            );
            &&& rect is Some <==> a is Ok && b is Ok && c is Ok && d is Ok
            &&& rect matches Some(rect) ==> rect.x == a->Ok_0 && rect.y == b->Ok_0 && rect.width
                == c->Ok_0 && rect.height == d->Ok_0
        }),
{
    field_without_comma(x);
    fields_are_parted_by_commas(x, y);
    fields_are_parted_by_commas(x.push(',') + y, width);
    fields_are_parted_by_commas((x.push(',') + y).push(',') + width, height);
    numbers_are_read_from_digits(x, u32::MAX as u64);
    numbers_are_read_from_digits(y, u32::MAX as u64);
    numbers_are_read_from_digits(width, u32::MAX as u64);
    numbers_are_read_from_digits(height, u32::MAX as u64);
}

} // verus!
