//! Rendering a status as text: `0x` followed by eight zero-padded uppercase
//! hexadecimal digits, the way `NTSTATUS` values are written in the Windows
//! headers.

use vstd::prelude::*;

verus! {

/// The uppercase hexadecimal digit for a value below 16.
pub open spec fn hex_digit(value: u32) -> char {
    if value == 0 {
        '0'
    } else if value == 1 {
        '1'
    } else if value == 2 {
        '2'
    } else if value == 3 {
        '3'
    } else if value == 4 {
        '4'
    } else if value == 5 {
        '5'
    } else if value == 6 {
        '6'
    } else if value == 7 {
        '7'
    } else if value == 8 {
        '8'
    } else if value == 9 {
        '9'
    } else if value == 10 {
        'A'
    } else if value == 11 {
        'B'
    } else if value == 12 {
        'C'
    } else if value == 13 {
        'D'
    } else if value == 14 {
        'E'
    } else {
        'F'
    }
}

/// The value of a hexadecimal digit, read back.
pub open spec fn digit_value(digit: char) -> int {
    if '0' <= digit <= '9' {
        digit as int - '0' as int
    } else {
        digit as int - 'A' as int + 10
    }
}

/// Whether `c` is one of `0`-`9` and `A`-`F`.
pub open spec fn is_upper_hex_digit(c: char) -> bool {
    ('0' <= c <= '9') || ('A' <= c <= 'F')
}

/// The text of the 32-bit pattern `w`: `0x` and its eight hexadecimal digits,
/// most significant first.
pub open spec fn hex_text(w: u32) -> Seq<char> {
    seq![
        '0',
        'x',
        hex_digit(w / 0x1000_0000),
        hex_digit((w / 0x100_0000) % 16),
        hex_digit((w / 0x10_0000) % 16),
        hex_digit((w / 0x1_0000) % 16),
        hex_digit((w / 0x1000) % 16),
        hex_digit((w / 0x100) % 16),
        hex_digit((w / 0x10) % 16),
        hex_digit(w % 16),
    ]
}

/// The number that the eight digits after the `0x` of `text` spell.
pub open spec fn hex_value(text: Seq<char>) -> int {
    digit_value(text[2]) * 0x1000_0000 + digit_value(text[3]) * 0x100_0000 + digit_value(text[4])
        * 0x10_0000 + digit_value(text[5]) * 0x1_0000 + digit_value(text[6]) * 0x1000
        + digit_value(text[7]) * 0x100 + digit_value(text[8]) * 0x10 + digit_value(text[9])
}

/// The uppercase hexadecimal digit for `value`.
pub fn hex_char(value: u32) -> (digit: char)
    requires
        value < 16,
    ensures
        digit == hex_digit(value),
{
    match value {
        0 => '0',
        1 => '1',
        2 => '2',
        3 => '3',
        4 => '4',
        5 => '5',
        6 => '6',
        7 => '7',
        8 => '8',
        9 => '9',
        10 => 'A',
        11 => 'B',
        12 => 'C',
        13 => 'D',
        14 => 'E',
        _ => 'F',
    }
}

/// Builds a `String` from its characters with `collect` on `std`'s
/// `FromIterator<&char> for String`, which appends the characters in order.
#[verifier::external_body]
fn string_from_chars(chars: &Vec<char>) -> (text: String)
    ensures
        text@ == chars@,
{
    chars.iter().collect()
}

/// Render the 32-bit pattern `w` as `0x` and eight uppercase hexadecimal
/// digits.
pub fn render_hex(w: u32) -> (text: String)
    ensures
        text@ == hex_text(w),
{
    let mut chars: Vec<char> = Vec::new();
    chars.push('0');
    chars.push('x');
    chars.push(hex_char(w / 0x1000_0000));
    chars.push(hex_char((w / 0x100_0000) % 16));
    chars.push(hex_char((w / 0x10_0000) % 16));
    chars.push(hex_char((w / 0x1_0000) % 16));
    chars.push(hex_char((w / 0x1000) % 16));
    chars.push(hex_char((w / 0x100) % 16));
    chars.push(hex_char((w / 0x10) % 16));
    chars.push(hex_char(w % 16));
    assert(chars@ =~= hex_text(w));
    string_from_chars(&chars)
}

/// A digit below 16 reads back as itself.
proof fn lemma_digit_round_trip(value: u32)
    requires
        value < 16,
    ensures
        digit_value(hex_digit(value)) == value,
        is_upper_hex_digit(hex_digit(value)),
{
}

/// The eight digits of the text of `w` are uppercase hexadecimal digits and
/// spell `w` back.
proof fn lemma_digits_spell_the_pattern(w: u32)
    ensures
        forall|i: int| 2 <= i < 10 ==> is_upper_hex_digit(#[trigger] hex_text(w)[i]),
        hex_value(hex_text(w)) == w,
{
    assert(w / 0x1000_0000 < 16) by (bit_vector);
    lemma_digit_round_trip(w / 0x1000_0000);
    lemma_digit_round_trip((w / 0x100_0000) % 16);
    lemma_digit_round_trip((w / 0x10_0000) % 16);
    lemma_digit_round_trip((w / 0x1_0000) % 16);
    lemma_digit_round_trip((w / 0x1000) % 16);
    lemma_digit_round_trip((w / 0x100) % 16);
    lemma_digit_round_trip((w / 0x10) % 16);
    lemma_digit_round_trip(w % 16);
    assert(w as int == (w / 0x1000_0000) as int * 0x1000_0000 + ((w / 0x100_0000) % 16) as int
        * 0x100_0000 + ((w / 0x10_0000) % 16) as int * 0x10_0000 + ((w / 0x1_0000) % 16) as int
        * 0x1_0000 + ((w / 0x1000) % 16) as int * 0x1000 + ((w / 0x100) % 16) as int * 0x100 + ((w
        / 0x10) % 16) as int * 0x10 + (w % 16) as int) by (bit_vector);
    assert forall|i: int| 2 <= i < 10 implies is_upper_hex_digit(#[trigger] hex_text(w)[i]) by {
    }
}

/// The text of any pattern is ten characters long, starts with `0x`, holds
/// only uppercase hexadecimal digits after it, and spells the pattern back:
/// two patterns render alike only when they are equal.
pub proof fn lemma_hex_text_is_faithful(w: u32, v: u32)
    ensures
        hex_text(w).len() == 10,
        hex_text(w)[0] == '0',
        hex_text(w)[1] == 'x',
        forall|i: int| 2 <= i < 10 ==> is_upper_hex_digit(#[trigger] hex_text(w)[i]),
        hex_value(hex_text(w)) == w,
        hex_text(w) == hex_text(v) ==> w == v,
{
    lemma_digits_spell_the_pattern(w);
    lemma_digits_spell_the_pattern(v);
}

} // verus!
