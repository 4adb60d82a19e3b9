//! Text: numbers written out in upper-case hexadecimal and in decimal, and
//! the std string conversions the library calls.

use vstd::prelude::*;
use vstd::utf8::{decode_utf8, valid_utf8};

verus! {

/// Decodes `bytes` as UTF-8 with `String::from_utf8`.
///
/// The contract restates `String::from_utf8`'s documentation: it accepts
/// exactly the valid UTF-8 sequences and then holds the characters they
/// encode.
#[verifier::external_body]
pub(crate) fn string_from_utf8(bytes: Vec<u8>) -> (r: Option<String>)
    ensures
        r is Some <==> valid_utf8(bytes@),
        r matches Some(s) ==> s@ == decode_utf8(bytes@),
{
    String::from_utf8(bytes).ok()
}

/// The text that `str`'s `Debug` formatting gives for a string with
/// characters `s`: the string in double quotes, with quotes, backslashes and
/// control characters escaped.
pub uninterp spec fn str_debug_text(s: Seq<char>) -> Seq<char>;

/// Formats `s` with `str`'s `Debug` implementation (`format!("{:?}", s)`).
///
/// Nothing is stated of the escaping itself: the result is named
/// `str_debug_text` of the characters of `s`.
#[verifier::external_body]
pub(crate) fn str_debug(s: &str) -> (r: String)
    ensures
        r@ == str_debug_text(s@),
{
    format!("{:?}", s)
}

/// The character of a digit `d < 16`: `0`-`9`, then `A`-`F`.
pub open spec fn digit_char(d: int) -> char {
    if d == 0 {
        '0'
    } else if d == 1 {
        '1'
    } else if d == 2 {
        '2'
    } else if d == 3 {
        '3'
    } else if d == 4 {
        '4'
    } else if d == 5 {
        '5'
    } else if d == 6 {
        '6'
    } else if d == 7 {
        '7'
    } else if d == 8 {
        '8'
    } else if d == 9 {
        '9'
    } else if d == 10 {
        'A'
    } else if d == 11 {
        'B'
    } else if d == 12 {
        'C'
    } else if d == 13 {
        'D'
    } else if d == 14 {
        'E'
    } else {
        'F'
    }
}

/// The digits of `n` in base `base` (2 to 16), most significant first, with
/// no leading zeros (`0` is written as one digit).
pub open spec fn digits(n: nat, base: nat) -> Seq<char>
    decreases n,
{
    if base < 2 || n < base {
        seq![digit_char(n as int)]
    } else {
        proof {
            assert(n / base < n) by (nonlinear_arith)
                requires
                    base >= 2,
                    n >= base,
            ;
        }
        digits(n / base, base).push(digit_char((n % base) as int))
    }
}

/// The value of an upper-case hexadecimal digit character (`0`-`9`, `A`-`F`),
/// by its character code; -1 for any other character.
pub open spec fn hex_digit_value(c: char) -> int {
    let code = c as u32 as int;
    if 0x30 <= code <= 0x39 {
        code - 0x30
    } else if 0x41 <= code <= 0x46 {
        code - 0x41 + 10
    } else {
        -1
    }
}

/// The number that the digit characters `s` write in base `base`, most
/// significant first.
pub open spec fn digits_value(s: Seq<char>, base: int) -> int
    decreases s.len(),
{
    if s.len() == 0 {
        0
    } else {
        digits_value(s.drop_last(), base) * base + hex_digit_value(s.last())
    }
}

/// The digits of `n` are upper-case hexadecimal digit characters, each below
/// the base, with no leading zero, and read back in that base they give `n`.
pub proof fn lemma_digits_read_back(n: nat, base: nat)
    requires
        2 <= base <= 16,
    ensures
        digits(n, base).len() > 0,
        digits_value(digits(n, base), base as int) == n,
        forall|i: int|
            0 <= i < digits(n, base).len() ==> 0 <= #[trigger] hex_digit_value(digits(n, base)[i])
                < base,
        n > 0 ==> digits(n, base)[0] != '0',
    decreases n,
{
    if n < base {
        assert(digits(n, base) =~= seq![digit_char(n as int)]);
        assert(digits(n, base).drop_last() =~= Seq::<char>::empty());
        assert(hex_digit_value(digit_char(n as int)) == n);
        assert(digits_value(Seq::<char>::empty(), base as int) == 0);
    } else {
        assert(n / base < n) by (nonlinear_arith)
            requires
                base >= 2,
                n >= base,
        ;
        assert(n / base > 0) by (nonlinear_arith)
            requires
                base >= 2,
                n >= base,
        ;
        lemma_digits_read_back(n / base, base);
        let d = (n % base) as int;
        let s = digits(n, base);
        assert(s.drop_last() =~= digits(n / base, base));
        assert(s.last() == digit_char(d));
        assert(hex_digit_value(digit_char(d)) == d);
        assert(n == (n / base) * base + n % base) by (nonlinear_arith)
            requires
                base >= 2,
        ;
    }
}

/// The one-character string of a digit.
fn digit_str(d: u64) -> (r: &'static str)
    requires
        d < 16,
    ensures
        r@ == seq![digit_char(d as int)],
{
    proof {
        reveal_strlit("0");
        reveal_strlit("1");
        reveal_strlit("2");
        reveal_strlit("3");
        reveal_strlit("4");
        reveal_strlit("5");
        reveal_strlit("6");
        reveal_strlit("7");
        reveal_strlit("8");
        reveal_strlit("9");
        reveal_strlit("A");
        reveal_strlit("B");
        reveal_strlit("C");
        reveal_strlit("D");
        reveal_strlit("E");
        reveal_strlit("F");
    }
    let r = if d == 0 {
        "0"
    } else if d == 1 {
        "1"
    } else if d == 2 {
        "2"
    } else if d == 3 {
        "3"
    } else if d == 4 {
        "4"
    } else if d == 5 {
        "5"
    } else if d == 6 {
        "6"
    } else if d == 7 {
        "7"
    } else if d == 8 {
        "8"
    } else if d == 9 {
        "9"
    } else if d == 10 {
        "A"
    } else if d == 11 {
        "B"
    } else if d == 12 {
        "C"
    } else if d == 13 {
        "D"
    } else if d == 14 {
        "E"
    } else {
        "F"
    };
    assert(r@ =~= seq![digit_char(d as int)]);
    r
}

/// Appends the digits of `n` in base `base` to `s`.
pub fn append_digits(s: &mut String, n: u64, base: u64)
    requires
        2 <= base <= 16,
    ensures
        final(s)@ == old(s)@ + digits(n as nat, base as nat),
    decreases n,
{
    if n < base {
        s.append(digit_str(n));
    } else {
        assert(n / base < n) by (nonlinear_arith)
            requires
                base >= 2,
                n >= base,
        ;
        append_digits(s, n / base, base);
        s.append(digit_str(n % base));
    }
    assert(final(s)@ =~= old(s)@ + digits(n as nat, base as nat));
}

} // verus!
