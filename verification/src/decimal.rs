//! Whole numbers in base ten: the text of a number, and the number of a text.

use vstd::prelude::*;
use vstd::string::StringSliceAdditionalSpecFns;
use vstd::utf8::{is_ascii_chars, is_ascii_chars_encode_utf8};

verus! {

/// The character that writes the digit `d`.
pub open spec fn digit_char(d: int) -> char {
    if d == 0 {
        '0'
    } else if d == 1 {
        '1'
    } else if d == 2 {
        '2'
    } else if d == 3 {
        '3'
    } else if d == 4 {
        '4'
    } else if d == 5 {
        '5'
    } else if d == 6 {
        '6'
    } else if d == 7 {
        '7'
    } else if d == 8 {
        '8'
    } else {
        '9'
    }
}

/// The digits of `n` in base ten, most significant first, without leading
/// zeros; zero is written `0`.
pub open spec fn digits(n: nat) -> Seq<char>
    decreases n,
{
    if n < 10 {
        seq![digit_char(n as int)]
    } else {
        digits(n / 10).push(digit_char((n % 10) as int))
    }
}

/// The text of the integer `i`: a minus sign for a negative number, then
/// the digits of its magnitude.
pub open spec fn decimal(i: int) -> Seq<char> {
    if i < 0 {
        seq!['-'] + digits((-i) as nat)
    } else {
        digits(i as nat)
    }
}

/// Whether `c` is one of the ten digits.
pub open spec fn is_digit(c: char) -> bool {
    '0' <= c <= '9'
}

/// The number that the digit `c` writes.
pub open spec fn digit_value(c: char) -> int {
    c as int - '0' as int
}

/// Whether every character of `s` is a digit.
pub open spec fn all_digits(s: Seq<char>) -> bool {
    forall|i: int| 0 <= i < s.len() ==> is_digit(#[trigger] s[i])
}

/// The number that the digit string `s` writes; leading zeros count for
/// nothing, and the empty string writes zero.
pub open spec fn digits_value(s: Seq<char>) -> nat
    decreases s.len(),
{
    if s.len() == 0 {
        0
    } else {
        (digits_value(s.drop_last()) * 10 + digit_value(s.last())) as nat
    }
}

/// Whether `s` starts with a sign.
pub open spec fn has_sign(s: Seq<char>) -> bool {
    s.len() > 0 && (s[0] == '+' || s[0] == '-')
}

/// What is left of `s` once a leading sign is taken away.
pub open spec fn magnitude_text(s: Seq<char>) -> Seq<char> {
    if has_sign(s) {
        s.subrange(1, s.len() as int)
    } else {
        s
    }
}

/// Whether `s` writes an integer: an optional `+` or `-`, then at least one
/// digit and nothing else.
pub open spec fn is_integer_text(s: Seq<char>) -> bool {
    magnitude_text(s).len() > 0 && all_digits(magnitude_text(s))
}

/// The integer that `s` writes, where `is_integer_text(s)`.
pub open spec fn integer_value(s: Seq<char>) -> int {
    if s.len() > 0 && s[0] == '-' {
        -(digits_value(magnitude_text(s)) as int)
    } else {
        digits_value(magnitude_text(s)) as int
    }
}

/// The 32-bit integer that `s` writes, if it writes one that fits.
pub open spec fn parsed_i32(s: Seq<char>) -> Option<i32> {
    if is_integer_text(s) && i32::MIN <= integer_value(s) <= i32::MAX {
        Some(integer_value(s) as i32)
    } else {
        None
    }
}

fn digit_text(d: u64) -> (s: &'static str)
    requires
        d < 10,
    ensures
        s@ == seq![digit_char(d as int)],
{
    proof {
        reveal_strlit("0");
        reveal_strlit("1");
        reveal_strlit("2");
        reveal_strlit("3");
        reveal_strlit("4");
        reveal_strlit("5");
        reveal_strlit("6");
        reveal_strlit("7");
        reveal_strlit("8");
        reveal_strlit("9");
    }
    let s = match d {
        0 => "0",
        1 => "1",
        2 => "2",
        3 => "3",
        4 => "4",
        5 => "5",
        6 => "6",
        7 => "7",
        8 => "8",
        _ => "9",
    };
    assert(s@ =~= seq![digit_char(d as int)]);
    s
}

/// Appends the digits of `n` to `out`.
pub fn push_digits(out: &mut String, n: u64)
    ensures
        final(out)@ == old(out)@ + digits(n as nat),
    decreases n,
{
    if n >= 10 {
        push_digits(out, n / 10);
    }
    out.append(digit_text(n % 10));
    assert(final(out)@ =~= old(out)@ + digits(n as nat));
}

/// Appends the text of `i` to `out`.
pub fn push_decimal(out: &mut String, i: i64)
    ensures
        final(out)@ == old(out)@ + decimal(i as int),
{
    if i < 0 {
        proof {
            reveal_strlit("-");
        }
        out.append("-");
        let magnitude: u64 = (-(i + 1)) as u64 + 1;
        push_digits(out, magnitude);
        assert(final(out)@ =~= old(out)@ + decimal(i as int));
    } else {
        push_digits(out, i as u64);
    }
}

/// The text of `i`.
pub fn decimal_string(i: i64) -> (s: String)
    ensures
        s@ == decimal(i as int),
{
    let mut s = String::new();
    push_decimal(&mut s, i);
    assert(s@ =~= decimal(i as int));
    s
}

/// The digits of a number are digits, and there is at least one.
pub proof fn digits_are_digits(n: nat)
    ensures
        all_digits(digits(n)),
        digits(n).len() >= 1,
    decreases n,
{
    if n >= 10 {
        digits_are_digits(n / 10);
    }
}

/// The digits of a number write that number.
pub proof fn digits_write_their_number(n: nat)
    ensures
        digits_value(digits(n)) == n,
    decreases n,
{
    let text = digits(n);
    assert(text.last() == digit_char((n % 10) as int));
    assert(digit_value(text.last()) == n % 10);
    if n >= 10 {
        digits_write_their_number(n / 10);
        assert(text.drop_last() =~= digits(n / 10));
    } else {
        assert(text.drop_last() =~= Seq::<char>::empty());
        assert(digits_value(text.drop_last()) == 0);
    }
}

/// What is written for an integer of 32 bits reads back as that integer.
pub proof fn decimal_reads_back(i: i32)
    ensures
        parsed_i32(decimal(i as int)) == Some(i),
{
    let text = decimal(i as int);
    let n = if i < 0 {
        (-i) as nat
    } else {
        i as nat
    };
    digits_are_digits(n);
    digits_write_their_number(n);
    assert(is_digit(digits(n)[0]));
    if i < 0 {
        assert(magnitude_text(text) =~= digits(n));
    } else {
        assert(magnitude_text(text) =~= digits(n));
    }
}

/// A text with a character beyond ASCII writes no integer.
proof fn integer_text_is_ascii(s: Seq<char>)
    requires
        is_integer_text(s),
    ensures
        is_ascii_chars(s),
{
    let body = magnitude_text(s);
    assert forall|i: int| 0 <= i < s.len() implies '\0' <= #[trigger] s[i] <= '\u{7f}' by {
        if has_sign(s) {
            if i > 0 {
                assert(is_digit(body[i - 1]));
            }
        } else {
            assert(is_digit(body[i]));
        }
    }
}

/// The magnitude that the digit string `s` writes, but no more than `cap`.
spec fn capped_value(s: Seq<char>, cap: nat) -> nat {
    if digits_value(s) < cap {
        digits_value(s)
    } else {
        cap
    }
}

/// Reads an integer as `str::parse` does for `i32`: an optional sign and at
/// least one digit, and a value that fits.
pub fn parse_i32(text: &str) -> (r: Option<i32>)
    ensures
        r == parsed_i32(text@),
{
    if !text.is_ascii() {
        proof {
            if is_integer_text(text@) {
                integer_text_is_ascii(text@);
            }
        }
        return None;
    }
    proof {
        is_ascii_chars_encode_utf8(text@);
    }
    let bytes = text.as_bytes();
    let n: usize = bytes.len();
    if n == 0 {
        return None;
    }
    let first: u8 = bytes[0];
    let negative = first == 45u8;
    let start: usize = if first == 43u8 || first == 45u8 {
        1
    } else {
        0
    };
    assert(has_sign(text@) == (start == 1));
    assert(negative == (text@[0] == '-'));
    let ghost body = magnitude_text(text@);
    assert(body =~= text@.subrange(start as int, n as int));
    let mut acc: u64 = 0;
    let mut i: usize = start;
    while i < n
        invariant
            start <= i <= n,
            n == text@.len(),
            bytes@.len() == n,
            forall|k: int| 0 <= k < n ==> #[trigger] text@[k] as u8 == bytes@[k],
            is_ascii_chars(text@),
            body == magnitude_text(text@),
            body == text@.subrange(start as int, n as int),
            all_digits(text@.subrange(start as int, i as int)),
            acc == capped_value(text@.subrange(start as int, i as int), 2147483649),
        decreases n - i,
    {
        let b: u8 = bytes[i];
        if b < 48u8 || b > 57u8 {
            proof {
                assert(body[i - start] == text@[i as int]);
                assert(!is_digit(body[i - start]));
            }
            return None;
        }
        let ghost before = text@.subrange(start as int, i as int);
        let ghost after = text@.subrange(start as int, i + 1);
        proof {
            assert(after.drop_last() =~= before);
            assert(after.last() == text@[i as int]);
            assert(digit_value(text@[i as int]) == b - 48);
        }
        acc = acc * 10 + (b - 48u8) as u64;
        if acc > 2147483649 {
            acc = 2147483649;
        }
        i += 1;
    }
    assert(text@.subrange(start as int, n as int) =~= body);
    if i == start {
        return None;
    }
    if negative {
        if acc > 2147483648 {
            None
        } else {
            Some((-(acc as i64)) as i32)
        }
    } else {
        if acc > 2147483647 {
            None
        } else {
            Some(acc as i32)
        }
    }
}

} // verus!
