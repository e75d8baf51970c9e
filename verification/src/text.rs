//! Numbers as text: the decimal and hexadecimal digits of a number, and the
//! number that a decimal text stands for.

use vstd::prelude::*;
use vstd::string::StringExecFns;
use vstd::string::StringSliceAdditionalSpecFns;

verus! {

/// The character of the digit `d` in base 16, lower case.
pub open spec fn digit_char(d: nat) -> char
    recommends
        d < 16,
{
    if d == 0 {
        '0'
    } else if d == 1 {
        '1'
    } else if d == 2 {
        '2'
    } else if d == 3 {
        '3'
    } else if d == 4 {
        '4'
    } else if d == 5 {
        '5'
    } else if d == 6 {
        '6'
    } else if d == 7 {
        '7'
    } else if d == 8 {
        '8'
    } else if d == 9 {
        '9'
    } else if d == 10 {
        'a'
    } else if d == 11 {
        'b'
    } else if d == 12 {
        'c'
    } else if d == 13 {
        'd'
    } else if d == 14 {
        'e'
    } else {
        'f'
    }
}

/// The decimal digits of `n`, most significant first, with no leading zero;
/// the number 0 is the single digit 0.
pub open spec fn decimal_digits(n: nat) -> Seq<char>
    decreases n,
{
    if n < 10 {
        seq![digit_char(n)]
    } else {
        decimal_digits(n / 10).push(digit_char(n % 10))
    }
}

/// The hexadecimal digits of `n`, lower case, most significant first, with
/// no leading zero; the number 0 is the single digit 0.
pub open spec fn hex_digits(n: nat) -> Seq<char>
    decreases n,
{
    if n < 16 {
        seq![digit_char(n)]
    } else {
        hex_digits(n / 16).push(digit_char(n % 16))
    }
}

/// The decimal text of the integer `i`: a minus sign where it is negative,
/// then the digits of its magnitude.
pub open spec fn signed_decimal_digits(i: int) -> Seq<char> {
    if i < 0 {
        seq!['-'] + decimal_digits((-i) as nat)
    } else {
        decimal_digits(i as nat)
    }
}

/// The one-character text of the digit `d`.
fn digit_text(d: u8) -> (text: &'static str)
    requires
        d < 16,
    ensures
        text@ == seq![digit_char(d as nat)],
{
    proof {
        reveal_strlit("0");
        reveal_strlit("1");
        reveal_strlit("2");
        reveal_strlit("3");
        reveal_strlit("4");
        reveal_strlit("5");
        reveal_strlit("6");
        reveal_strlit("7");
        reveal_strlit("8");
        reveal_strlit("9");
        reveal_strlit("a");
        reveal_strlit("b");
        reveal_strlit("c");
        reveal_strlit("d");
        reveal_strlit("e");
        reveal_strlit("f");
    }
    let text: &'static str = match d {
        0 => "0",
        1 => "1",
        2 => "2",
        3 => "3",
        4 => "4",
        5 => "5",
        6 => "6",
        7 => "7",
        8 => "8",
        9 => "9",
        10 => "a",
        11 => "b",
        12 => "c",
        13 => "d",
        14 => "e",
        _ => "f",
    };
    assert(text@ =~= seq![digit_char(d as nat)]);
    text
}

/// Appends the decimal digits of `n` to `text`.
fn append_decimal(text: &mut String, n: u64)
    ensures
        final(text)@ == old(text)@ + decimal_digits(n as nat),
    decreases n,
{
    if n >= 10 {
        append_decimal(text, n / 10);
    }
    text.append(digit_text((n % 10) as u8));
    proof {
        if n >= 10 {
            assert(text@ =~= old(text)@ + decimal_digits((n / 10) as nat).push(
                digit_char((n % 10) as nat),
            ));
        } else {
            assert(text@ =~= old(text)@ + seq![digit_char(n as nat)]);
        }
    }
}

/// Appends the hexadecimal digits of `n` to `text`.
fn append_hex(text: &mut String, n: u64)
    ensures
        final(text)@ == old(text)@ + hex_digits(n as nat),
    decreases n,
{
    if n >= 16 {
        append_hex(text, n / 16);
    }
    text.append(digit_text((n % 16) as u8));
    proof {
        if n >= 16 {
            assert(text@ =~= old(text)@ + hex_digits((n / 16) as nat).push(
                digit_char((n % 16) as nat),
            ));
        } else {
            assert(text@ =~= old(text)@ + seq![digit_char(n as nat)]);
        }
    }
}

/// The decimal text of `n`.
pub fn decimal_text(n: u64) -> (text: String)
    ensures
        text@ == decimal_digits(n as nat),
{
    let mut text = String::new();
    append_decimal(&mut text, n);
    assert(text@ =~= decimal_digits(n as nat));
    text
}

/// The hexadecimal text of `n`, lower case, with no prefix.
pub fn hex_text(n: u64) -> (text: String)
    ensures
        text@ == hex_digits(n as nat),
{
    let mut text = String::new();
    append_hex(&mut text, n);
    assert(text@ =~= hex_digits(n as nat));
    text
}

/// The decimal text of the signed integer `i`.
pub fn signed_decimal_text(i: i64) -> (text: String)
    ensures
        text@ == signed_decimal_digits(i as int),
{
    let mut text = String::new();
    if i < 0 {
        proof {
            reveal_strlit("-");
        }
        text.append("-");
        let magnitude: u64 = (-(i + 1)) as u64 + 1;
        append_decimal(&mut text, magnitude);
        assert(text@ =~= signed_decimal_digits(i as int));
    } else {
        append_decimal(&mut text, i as u64);
        assert(text@ =~= signed_decimal_digits(i as int));
    }
    text
}

/// `c` is one of the ten decimal digits.
pub open spec fn is_digit(c: char) -> bool {
    '0' <= c <= '9'
}

/// The number that the decimal digit `c` stands for.
pub open spec fn digit_value(c: char) -> nat
    recommends
        is_digit(c),
{
    (c as nat - '0' as nat) as nat
}

/// Every character of `s` is a decimal digit.
pub open spec fn all_digits(s: Seq<char>) -> bool {
    forall|i: int| 0 <= i < s.len() ==> is_digit(#[trigger] s[i])
}

/// The number that the decimal digits `s` stand for, most significant first.
pub open spec fn digits_value(s: Seq<char>) -> nat
    recommends
        all_digits(s),
    decreases s.len(),
{
    if s.len() == 0 {
        0
    } else {
        digits_value(s.drop_last()) * 10 + digit_value(s.last())
    }
}

/// The number that `digits` stand for where they are one decimal digit or
/// more and the number is at most `limit`.
pub open spec fn magnitude(digits: Seq<char>, limit: nat) -> Option<nat> {
    if digits.len() > 0 && all_digits(digits) && digits_value(digits) <= limit {
        Some(digits_value(digits))
    } else {
        None
    }
}

/// What follows the sign of `s`, or all of `s` where it begins with none.
pub open spec fn after_sign(s: Seq<char>, minus: bool) -> Seq<char> {
    if s.len() > 0 && (s[0] == '+' || (minus && s[0] == '-')) {
        s.subrange(1, s.len() as int)
    } else {
        s
    }
}

/// The unsigned number that the text `s` stands for: an optional plus sign,
/// then decimal digits and nothing else, with a value that 64 bits hold.
pub open spec fn unsigned_decimal(s: Seq<char>) -> Option<u64> {
    match magnitude(after_sign(s, false), u64::MAX as nat) {
        Some(n) => Some(n as u64),
        None => None,
    }
}

/// The signed number that the text `s` stands for: an optional plus or
/// minus sign, then decimal digits and nothing else, with a value that 64
/// bits hold.
pub open spec fn signed_decimal(s: Seq<char>) -> Option<i64> {
    if s.len() > 0 && s[0] == '-' {
        match magnitude(after_sign(s, true), 0x8000_0000_0000_0000) {
            Some(n) => Some((-n) as i64),
            None => None,
        }
    } else {
        match magnitude(after_sign(s, true), i64::MAX as nat) {
            Some(n) => Some(n as i64),
            None => None,
        }
    }
}

/// Digits that stand in front of others stand for no more than all do.
proof fn lemma_prefix_value(s: Seq<char>, j: int)
    requires
        0 <= j <= s.len(),
    ensures
        digits_value(s.subrange(0, j)) <= digits_value(s),
    decreases s.len(),
{
    if j == s.len() {
        assert(s.subrange(0, j) =~= s);
    } else {
        lemma_prefix_value(s.drop_last(), j);
        assert(s.drop_last().subrange(0, j) =~= s.subrange(0, j));
    }
}

/// Reads the digits of `text` from the character at `start` on.
fn parse_magnitude(text: &str, start: usize, limit: u64) -> (r: Option<u64>)
    requires
        text.is_ascii(),
        start <= text@.len(),
        limit >= 9,
    ensures
        match magnitude(text@.subrange(start as int, text@.len() as int), limit as nat) {
            Some(n) => r == Some(n as u64),
            None => r is None,
        },
{
    broadcast use vstd::string::is_ascii_spec_bytes;

    let bytes = text.as_bytes();
    let n: usize = bytes.len();
    let ghost digits = text@.subrange(start as int, text@.len() as int);
    let mut acc: u64 = 0;
    let mut i: usize = start;
    assert(digits.subrange(0, 0) =~= Seq::<char>::empty());
    while i < n
        invariant
            text.is_ascii(),
            bytes@ == text.spec_bytes(),
            n == bytes@.len(),
            n == text@.len(),
            start <= i <= n,
            limit >= 9,
            digits == text@.subrange(start as int, text@.len() as int),
            all_digits(digits.subrange(0, i - start)),
            acc == digits_value(digits.subrange(0, i - start)),
            acc <= limit,
        decreases n - i,
    {
        let b: u8 = bytes[i];
        let ghost c = text@[i as int];
        assert(c == digits[i - start]);
        assert(c as u8 == b);
        assert('\0' <= c <= '\u{7f}');
        if b < 48 || b > 57 {
            assert(!is_digit(c));
            return None;
        }
        let d: u64 = (b - 48) as u64;
        assert(is_digit(c) && digit_value(c) == d);
        let ghost next = digits.subrange(0, i + 1 - start);
        assert(next.drop_last() =~= digits.subrange(0, i - start));
        assert(next.last() == c);
        assert(digits_value(next) == acc * 10 + d);
        if acc > (limit - d) / 10 {
            proof {
                lemma_prefix_value(digits, i + 1 - start);
            }
            return None;
        }
        acc = acc * 10 + d;
        i += 1;
    }
    assert(digits.subrange(0, i - start) =~= digits);
    if i == start {
        None
    } else {
        Some(acc)
    }
}

/// A text with a character outside ASCII stands for no number.
proof fn lemma_not_ascii_not_decimal(s: Seq<char>, minus: bool, limit: nat)
    requires
        !vstd::utf8::is_ascii_chars(s),
    ensures
        magnitude(after_sign(s, minus), limit) is None,
{
    let i = choose|i: int| 0 <= i < s.len() && !('\0' <= #[trigger] s[i] <= '\u{7f}');
    let digits = after_sign(s, minus);
    if digits.len() == s.len() {
        assert(!is_digit(digits[i]));
    } else {
        assert(i >= 1);
        assert(digits[i - 1] == s[i]);
        assert(!is_digit(digits[i - 1]));
    }
}

/// Reads an unsigned decimal number.
pub fn parse_u64(text: &str) -> (r: Option<u64>)
    ensures
        r == unsigned_decimal(text@),
{
    broadcast use vstd::string::is_ascii_spec_bytes;

    if !text.is_ascii() {
        proof {
            lemma_not_ascii_not_decimal(text@, false, u64::MAX as nat);
        }
        return None;
    }
    let bytes = text.as_bytes();
    let start: usize = if bytes.len() > 0 && bytes[0] == 43 {
        1
    } else {
        0
    };
    assert(text@.len() > 0 ==> (text@[0] == '+' <==> bytes@[0] == 43));
    assert(text@.subrange(start as int, text@.len() as int) =~= after_sign(text@, false));
    parse_magnitude(text, start, u64::MAX)
}

/// Reads a signed decimal number.
pub fn parse_i64(text: &str) -> (r: Option<i64>)
    ensures
        r == signed_decimal(text@),
{
    broadcast use vstd::string::is_ascii_spec_bytes;

    if !text.is_ascii() {
        proof {
            lemma_not_ascii_not_decimal(text@, true, 0x8000_0000_0000_0000);
            lemma_not_ascii_not_decimal(text@, true, i64::MAX as nat);
        }
        return None;
    }
    let bytes = text.as_bytes();
    let negative: bool = bytes.len() > 0 && bytes[0] == 45;
    let signed: bool = bytes.len() > 0 && (bytes[0] == 43 || bytes[0] == 45);
    assert(text@.len() > 0 ==> (text@[0] == '+' <==> bytes@[0] == 43) && (text@[0] == '-'
        <==> bytes@[0] == 45));
    let start: usize = if signed {
        1
    } else {
        0
    };
    assert(text@.subrange(start as int, text@.len() as int) =~= after_sign(text@, true));
    if negative {
        match parse_magnitude(text, start, 0x8000_0000_0000_0000) {
            Some(n) => {
                if n == 0x8000_0000_0000_0000 {
                    Some(i64::MIN)
                } else {
                    Some(-(n as i64))
                }
            },
            None => None,
        }
    } else {
        match parse_magnitude(text, start, 0x7FFF_FFFF_FFFF_FFFF) {
            Some(n) => Some(n as i64),
            None => None,
        }
    }
}

/// The decimal digits of a number are digits, at least one, and stand for
/// the number.
pub proof fn lemma_decimal_digits_value(n: nat)
    ensures
        decimal_digits(n).len() > 0,
        all_digits(decimal_digits(n)),
        digits_value(decimal_digits(n)) == n,
    decreases n,
{
    let s = decimal_digits(n);
    if n < 10 {
        assert(s.drop_last() =~= Seq::<char>::empty());
        assert(digits_value(s.drop_last()) == 0);
    } else {
        lemma_decimal_digits_value(n / 10);
        assert(s.drop_last() =~= decimal_digits(n / 10));
        assert forall|i: int| 0 <= i < s.len() implies is_digit(#[trigger] s[i]) by {
            if i < s.len() - 1 {
                assert(s[i] == decimal_digits(n / 10)[i]);
            }
        }
    }
}

/// The decimal text of a number reads back as the number.
pub proof fn lemma_decimal_text_reads_back(n: u64)
    ensures
        unsigned_decimal(decimal_digits(n as nat)) == Some(n),
{
    lemma_decimal_digits_value(n as nat);
    let s = decimal_digits(n as nat);
    assert(is_digit(s[0]));
    assert(after_sign(s, false) == s);
}

/// The decimal text of a signed number reads back as the number.
pub proof fn lemma_signed_decimal_text_reads_back(i: i64)
    ensures
        signed_decimal(signed_decimal_digits(i as int)) == Some(i),
{
    let s = signed_decimal_digits(i as int);
    if i < 0 {
        let digits = decimal_digits((-i) as nat);
        lemma_decimal_digits_value((-i) as nat);
        assert(s[0] == '-');
        assert(after_sign(s, true) =~= digits);
    } else {
        lemma_decimal_digits_value(i as nat);
        assert(is_digit(s[0]));
        assert(after_sign(s, true) == s);
    }
}

/// Whether two texts hold the same characters.
pub fn same_text(a: &str, b: &str) -> (same: bool)
    ensures
        same == (a@ == b@),
{
    broadcast use vstd::utf8::encode_utf8_decode_utf8;

    let x = a.as_bytes();
    let y = b.as_bytes();
    if x.len() != y.len() {
        return false;
    }
    let mut i: usize = 0;
    while i < x.len()
        invariant
            x@.len() == y@.len(),
            i <= x@.len(),
            x@ == a.spec_bytes(),
            y@ == b.spec_bytes(),
            forall|j: int| 0 <= j < i ==> x@[j] == y@[j],
        decreases x@.len() - i,
    {
        if x[i] != y[i] {
            return false;
        }
        i += 1;
    }
    assert(x@ =~= y@);
    assert(vstd::utf8::decode_utf8(vstd::utf8::encode_utf8(a@)) == a@);
    assert(vstd::utf8::decode_utf8(vstd::utf8::encode_utf8(b@)) == b@);
    true
}

/// The upper case of a text, as `str::to_uppercase` of the standard library
/// gives it.
pub uninterp spec fn uppercase_of(s: Seq<char>) -> Seq<char>;

/// Calls `str::to_uppercase`: the result is the upper case of `text`,
/// character by character as Unicode defines it, which this library names
/// and does not spell out.
#[verifier::external_body]
pub(crate) fn to_upper(text: &str) -> (upper: String)
    ensures
        upper@ == uppercase_of(text@),
{
    text.to_uppercase()
}

} // verus!
