//! Fixed-width lower-case hexadecimal text: the spelling of identifiers on the
//! wire.

use vstd::prelude::*;
use vstd::string::{StrSliceExecFns, StringExecFns};

verus! {

/// The lower-case hexadecimal digit for `n`, where `n` is below 16.
pub open spec fn hex_digit(n: nat) -> char {
    if n == 0 {
        '0'
    } else if n == 1 {
        '1'
    } else if n == 2 {
        '2'
    } else if n == 3 {
        '3'
    } else if n == 4 {
        '4'
    } else if n == 5 {
        '5'
    } else if n == 6 {
        '6'
    } else if n == 7 {
        '7'
    } else if n == 8 {
        '8'
    } else if n == 9 {
        '9'
    } else if n == 10 {
        'a'
    } else if n == 11 {
        'b'
    } else if n == 12 {
        'c'
    } else if n == 13 {
        'd'
    } else if n == 14 {
        'e'
    } else {
        'f'
    }
}

/// What the character `c` counts for as a lower-case hexadecimal digit, if it
/// is one. Upper-case letters are no digits here.
pub open spec fn hex_digit_value(c: char) -> Option<nat> {
    if '0' <= c <= '9' {
        Some((c as nat - '0' as nat) as nat)
    } else if 'a' <= c <= 'f' {
        Some((c as nat - 'a' as nat + 10) as nat)
    } else {
        None
    }
}

/// The `width` low-order hexadecimal digits of `value`, most significant
/// first.
pub open spec fn hex_text(value: nat, width: nat) -> Seq<char>
    decreases width,
{
    if width == 0 {
        Seq::<char>::empty()
    } else {
        hex_text(value / 16, (width - 1) as nat).push(hex_digit(value % 16))
    }
}

/// The number that `text` spells in lower-case hexadecimal digits, most
/// significant first; `None` where a character of it is no such digit.
pub open spec fn hex_value(text: Seq<char>) -> Option<nat>
    decreases text.len(),
{
    if text.len() == 0 {
        Some(0)
    } else {
        match (hex_value(text.drop_last()), hex_digit_value(text.last())) {
            (Some(high), Some(low)) => Some(high * 16 + low),
            _ => None,
        }
    }
}

/// 16 to the power `width`: how many values `width` digits can spell.
pub open spec fn hex_range(width: nat) -> nat
    decreases width,
{
    if width == 0 {
        1
    } else {
        16 * hex_range((width - 1) as nat)
    }
}

/// Two digits spell a byte, sixteen a span identifier, thirty-two a trace
/// identifier.
pub proof fn lemma_hex_range_fits()
    ensures
        hex_range(2) == 0x100,
        hex_range(16) == 0x1_0000_0000_0000_0000,
        hex_range(32) == 0x1_0000_0000_0000_0000_0000_0000_0000_0000,
{
    reveal_with_fuel(hex_range, 17);
    assert(hex_range(32) == hex_range(16) * hex_range(16)) by {
        lemma_hex_range_adds(16, 16);
    }
}

/// The digits of two widths together spell the product of what each spells.
pub proof fn lemma_hex_range_adds(a: nat, b: nat)
    ensures
        hex_range(a + b) == hex_range(a) * hex_range(b),
    decreases a,
{
    if a == 0 {
        assert(hex_range(0) == 1);
        assert(hex_range(0) * hex_range(b) == hex_range(b)) by (nonlinear_arith)
            requires
                hex_range(0) == 1,
        ;
    } else {
        lemma_hex_range_adds((a - 1) as nat, b);
        let x = hex_range((a - 1) as nat);
        let y = hex_range(b);
        assert(16 * (x * y) == (16 * x) * y) by (nonlinear_arith);
    }
}

/// More digits spell no fewer values, and any number of digits spells at
/// least one.
pub proof fn lemma_hex_range_monotonic(low: nat, high: nat)
    requires
        low <= high,
    ensures
        0 < hex_range(low) <= hex_range(high),
    decreases high,
{
    if low < high {
        lemma_hex_range_monotonic(low, (high - 1) as nat);
    } else if low > 0 {
        lemma_hex_range_monotonic((low - 1) as nat, (low - 1) as nat);
    }
}

/// Every digit counts for the number it was written for.
pub proof fn lemma_hex_digit_value(n: nat)
    requires
        n < 16,
    ensures
        hex_digit_value(hex_digit(n)) == Some(n),
{
}

/// The `width` low-order digits of a value are `width` characters.
pub proof fn lemma_hex_text_len(value: nat, width: nat)
    ensures
        hex_text(value, width).len() == width,
    decreases width,
{
    if width > 0 {
        lemma_hex_text_len(value / 16, (width - 1) as nat);
    }
}

/// Every character of a hexadecimal spelling is a digit or one of the letters
/// `a` to `f`.
pub proof fn lemma_hex_text_chars(value: nat, width: nat, i: int)
    requires
        0 <= i < width,
    ensures
        hex_text(value, width).len() == width,
        hex_digit_value(hex_text(value, width)[i]) is Some,
    decreases width,
{
    lemma_hex_text_len(value, width);
    lemma_hex_text_len(value / 16, (width - 1) as nat);
    if i < width - 1 {
        lemma_hex_text_chars(value / 16, (width - 1) as nat, i);
    } else {
        lemma_hex_digit_value(value % 16);
    }
}

/// Reading a spelling of `width` digits gives the number back, as far as
/// `width` digits can spell it.
pub proof fn lemma_hex_value_of_hex_text(value: nat, width: nat)
    ensures
        hex_value(hex_text(value, width)) == Some(value % hex_range(width)),
    decreases width,
{
    if width > 0 {
        let text = hex_text(value, width);
        lemma_hex_value_of_hex_text(value / 16, (width - 1) as nat);
        lemma_hex_range_monotonic(0, (width - 1) as nat);
        assert(text.drop_last() =~= hex_text(value / 16, (width - 1) as nat));
        lemma_hex_digit_value(value % 16);
        vstd::arithmetic::div_mod::lemma_breakdown(
            value as int,
            16,
            hex_range((width - 1) as nat) as int,
        );
    }
}

/// What a text spells is below what its length can spell.
pub proof fn lemma_hex_value_bound(text: Seq<char>)
    requires
        hex_value(text) is Some,
    ensures
        hex_value(text).unwrap() < hex_range(text.len()),
    decreases text.len(),
{
    if text.len() > 0 {
        lemma_hex_value_bound(text.drop_last());
    }
}

/// A text with a character that is no digit spells nothing.
pub proof fn lemma_hex_value_none(text: Seq<char>, i: int)
    requires
        0 <= i < text.len(),
        hex_digit_value(text[i]) is None,
    ensures
        hex_value(text) is None,
    decreases text.len(),
{
    if i < text.len() - 1 {
        lemma_hex_value_none(text.drop_last(), i);
    }
}

/// The one-character text of the digit for `n`.
fn hex_digit_str(n: u8) -> (digit: &'static str)
    requires
        n < 16,
    ensures
        digit@ == seq![hex_digit(n as nat)],
{
    proof {
        reveal_strlit("0");
        reveal_strlit("1");
        reveal_strlit("2");
        reveal_strlit("3");
        reveal_strlit("4");
        reveal_strlit("5");
        reveal_strlit("6");
        reveal_strlit("7");
        reveal_strlit("8");
        reveal_strlit("9");
        reveal_strlit("a");
        reveal_strlit("b");
        reveal_strlit("c");
        reveal_strlit("d");
        reveal_strlit("e");
        reveal_strlit("f");
    }
    let digit = match n {
        0 => "0",
        1 => "1",
        2 => "2",
        3 => "3",
        4 => "4",
        5 => "5",
        6 => "6",
        7 => "7",
        8 => "8",
        9 => "9",
        10 => "a",
        11 => "b",
        12 => "c",
        13 => "d",
        14 => "e",
        _ => "f",
    };
    assert(digit@ =~= seq![hex_digit(n as nat)]);
    digit
}

/// Appends the `width` low-order hexadecimal digits of `value` to `out`.
pub(crate) fn push_hex(out: &mut String, value: u128, width: usize)
    ensures
        final(out)@ == old(out)@ + hex_text(value as nat, width as nat),
    decreases width,
{
    if width > 0 {
        push_hex(out, value / 16, width - 1);
        out.append(hex_digit_str((value % 16) as u8));
        assert(final(out)@ =~= old(out)@ + hex_text(value as nat, width as nat));
    } else {
        assert(final(out)@ =~= old(out)@ + hex_text(value as nat, width as nat));
    }
}

/// What the byte `b` counts for as a lower-case hexadecimal digit.
fn hex_digit_of_byte(b: u8) -> (value: Option<u8>)
    ensures
        b < 128 ==> match hex_digit_value(b as char) {
            Some(n) => value == Some(n as u8) && n < 16,
            None => value is None,
        },
{
    if b >= 48 && b <= 57 {
        Some(b - 48)
    } else if b >= 97 && b <= 102 {
        Some(b - 97 + 10)
    } else {
        None
    }
}

/// The number that the characters of `text` from `start` up to `end` spell in
/// lower-case hexadecimal digits.
pub(crate) fn parse_hex(text: &str, start: usize, end: usize) -> (value: Option<u128>)
    requires
        text.is_ascii(),
        start <= end <= text@.len(),
        end - start <= 32,
    ensures
        value == match hex_value(text@.subrange(start as int, end as int)) {
            Some(n) => Some(n as u128),
            None => None,
        },
        value matches Some(n) ==> hex_value(text@.subrange(start as int, end as int)) == Some(
            n as nat,
        ),
{
    let ghost digits = text@.subrange(start as int, end as int);
    let mut value: u128 = 0;
    let mut i: usize = start;
    assert(digits.take(0) =~= Seq::<char>::empty());
    assert(hex_range(0) == 1);
    while i < end
        invariant
            text.is_ascii(),
            start <= i <= end <= text@.len(),
            end - start <= 32,
            digits == text@.subrange(start as int, end as int),
            hex_value(digits.take(i - start)) == Some(value as nat),
            value < hex_range((i - start) as nat),
        decreases end - i,
    {
        let b = text.get_ascii(i);
        let ghost c = text@[i as int];
        proof {
            assert(digits.take(i - start + 1).drop_last() =~= digits.take(i - start));
            assert(digits.take(i - start + 1).last() == c);
            assert(c as u8 == b);
            assert(b as char == c);
            lemma_hex_range_fits();
            lemma_hex_range_monotonic((i - start + 1) as nat, 32);
        }
        match hex_digit_of_byte(b) {
            Some(digit) => {
                value = value * 16 + digit as u128;
            },
            None => {
                proof {
                    lemma_hex_value_none(digits, i - start);
                }
                return None;
            },
        }
        i = i + 1;
    }
    proof {
        assert(digits.take(end - start) =~= digits);
    }
    Some(value)
}

} // verus!
