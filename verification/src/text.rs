//! Header text and decimal numbers: the two small grammars that the
//! protocol reads and writes.

use vstd::prelude::*;

verus! {

/// `String::push` of the standard library: the string afterwards is the
/// string before with `c` added at its end.
pub assume_specification[ String::push ](s: &mut String, c: char)
    ensures
        final(s)@ == old(s)@.push(c),
;

/// The tab character, as a byte.
pub const TAB: u8 = 9;

/// The plus sign, as a byte.
pub const PLUS: u8 = 43;

/// The digit zero, as a byte.
pub const DIGIT_ZERO: u8 = 48;

/// The digit nine, as a byte.
pub const DIGIT_NINE: u8 = 57;

/// A byte that may stand in header text: printable ASCII or a tab.
pub open spec fn is_visible(b: u8) -> bool {
    (32 <= b && b < 127) || b == TAB
}

/// The bytes of `bytes`, each read as one character.
pub open spec fn bytes_as_chars(bytes: Seq<u8>) -> Seq<char> {
    Seq::new(bytes.len(), |i: int| bytes[i] as char)
}

/// The text of a header value: its bytes as characters where every byte
/// is visible, and nothing where one is not.
pub open spec fn header_text(bytes: Seq<u8>) -> Option<Seq<char>> {
    if forall|i: int| 0 <= i < bytes.len() ==> is_visible(#[trigger] bytes[i]) {
        Some(bytes_as_chars(bytes))
    } else {
        None
    }
}

/// Reads a header value as text.
pub fn read_header_text(bytes: &Vec<u8>) -> (r: Option<String>)
    ensures
        r.deep_view() == header_text(bytes@),
{
    let mut text = String::new();
    let mut i: usize = 0;
    while i < bytes.len()
        invariant
            i <= bytes.len(),
            forall|j: int| 0 <= j < i ==> is_visible(#[trigger] bytes@[j]),
            text@ == bytes_as_chars(bytes@.take(i as int)),
        decreases bytes.len() - i,
    {
        let b: u8 = bytes[i];
        if !((32 <= b && b < 127) || b == TAB) {
            return None;
        }
        text.push(b as char);
        assert(bytes@.take(i + 1) == bytes@.take(i as int).push(b));
        assert(bytes_as_chars(bytes@.take(i + 1)) == bytes_as_chars(bytes@.take(i as int)).push(
            b as char,
        ));
        i += 1;
    }
    assert(bytes@.take(i as int) == bytes@);
    Some(text)
}

/// Whether `c` is one of the ten decimal digits.
pub open spec fn is_digit(c: char) -> bool {
    '0' <= c && c <= '9'
}

/// The number from zero to nine that the digit `c` stands for; zero for
/// any other character.
pub open spec fn digit_value(c: char) -> nat {
    if is_digit(c) {
        (c as u32 - 48) as nat
    } else {
        0
    }
}

/// The number that a run of decimal digits writes, most significant
/// digit first.
pub open spec fn digits_value(digits: Seq<char>) -> nat
    decreases digits.len(),
{
    if digits.len() == 0 {
        0
    } else {
        digits_value(digits.drop_last()) * 10 + digit_value(digits.last())
    }
}

/// Whether every character of `s` is a decimal digit.
pub open spec fn all_digits(s: Seq<char>) -> bool {
    forall|i: int| 0 <= i < s.len() ==> is_digit(#[trigger] s[i])
}

/// What is left of `s` once one leading plus sign, if there is one, is
/// taken off.
pub open spec fn without_sign(s: Seq<char>) -> Seq<char> {
    if s.len() > 0 && s[0] == '+' {
        s.skip(1)
    } else {
        s
    }
}

/// An unsigned 64-bit number in decimal: an optional plus sign, then at
/// least one digit, the whole no larger than `u64::MAX`.
pub open spec fn parse_u64(s: Seq<char>) -> Option<u64> {
    let digits = without_sign(s);
    if digits.len() > 0 && all_digits(digits) && digits_value(digits) <= u64::MAX {
        Some(digits_value(digits) as u64)
    } else {
        None
    }
}

/// The number that a header value states: its text, where it has one,
/// read as an unsigned decimal number.
pub open spec fn header_number(bytes: Seq<u8>) -> Option<u64> {
    match header_text(bytes) {
        Some(text) => parse_u64(text),
        None => None,
    }
}

/// A run of digits never writes less than one of its own prefixes.
pub proof fn lemma_digits_value_prefix(digits: Seq<char>, k: int)
    requires
        0 <= k <= digits.len(),
    ensures
        digits_value(digits.take(k)) <= digits_value(digits),
    decreases digits.len(),
{
    if k == digits.len() {
        assert(digits.take(k) == digits);
    } else {
        lemma_digits_value_prefix(digits.drop_last(), k);
        assert(digits.drop_last().take(k) == digits.take(k));
    }
}

/// Reads a header value as an unsigned decimal number.
pub fn read_header_number(bytes: &Vec<u8>) -> (r: Option<u64>)
    ensures
        r == header_number(bytes@),
{
    let n: usize = bytes.len();
    let start: usize = if n > 0 && bytes[0] == PLUS { 1 } else { 0 };
    let ghost text = bytes_as_chars(bytes@);
    let ghost digits = without_sign(text);
    assert(digits == text.skip(start as int));
    let mut value: u64 = 0;
    let mut i: usize = start;
    while i < n
        invariant
            n == bytes.len(),
            start <= i <= n,
            start <= 1,
            text == bytes_as_chars(bytes@),
            digits == without_sign(text),
            digits == text.skip(start as int),
            forall|j: int| start <= j < i ==> 48 <= #[trigger] bytes@[j] <= 57,
            value == digits_value(digits.take(i - start)),
        decreases n - i,
    {
        let b: u8 = bytes[i];
        if b < DIGIT_ZERO || b > DIGIT_NINE {
            assert(digits[i - start] == b as char);
            assert(!is_digit(digits[i - start]));
            return None;
        }
        let d: u64 = (b - DIGIT_ZERO) as u64;
        proof {
            let longer = digits.take(i - start + 1);
            assert(longer.drop_last() == digits.take(i - start));
            assert(longer.last() == b as char);
            assert(digits_value(longer) == value * 10 + d);
            lemma_digits_value_prefix(digits, i - start + 1);
        }
        if value > (u64::MAX - d) / 10 {
            return None;
        }
        value = value * 10 + d;
        i += 1;
    }
    assert(digits.take(n - start) == digits);
    if start == n {
        return None;
    }
    assert(all_digits(digits));
    assert forall|j: int| 0 <= j < bytes@.len() implies is_visible(#[trigger] bytes@[j]) by {
        if j >= start {
            assert(48 <= bytes@[j] <= 57);
        }
    }
    Some(value)
}

/// The decimal digit that writes `d`.
pub open spec fn digit_char(d: nat) -> char
    recommends
        d < 10,
{
    ((DIGIT_ZERO + d) as u8) as char
}

/// `n` in decimal, without a sign or leading zeros.
pub open spec fn decimal(n: nat) -> Seq<char>
    decreases n,
{
    if n < 10 {
        seq![digit_char(n)]
    } else {
        decimal(n / 10).push(digit_char(n % 10))
    }
}

/// `decimal` writes at least one character, only digits, and they write
/// `n`.
pub proof fn lemma_decimal_digits(n: nat)
    ensures
        decimal(n).len() > 0,
        all_digits(decimal(n)),
        digits_value(decimal(n)) == n,
    decreases n,
{
    if n < 10 {
        assert(decimal(n).drop_last() =~= Seq::<char>::empty());
        assert(digits_value(decimal(n).drop_last()) == 0);
    } else {
        lemma_decimal_digits(n / 10);
        assert(decimal(n).drop_last() =~= decimal(n / 10));
    }
}

/// A number written in decimal is read back as the same number.
pub proof fn decimal_is_read_back(n: u64)
    ensures
        parse_u64(decimal(n as nat)) == Some(n),
{
    lemma_decimal_digits(n as nat);
    assert(is_digit(decimal(n as nat)[0]));
}

/// Appends `n` in decimal to `out`.
pub fn push_decimal(out: &mut String, n: u64)
    ensures
        final(out)@ == old(out)@ + decimal(n as nat),
    decreases n,
{
    if n >= 10 {
        push_decimal(out, n / 10);
    }
    let d: u8 = (n % 10) as u8;
    out.push((DIGIT_ZERO + d) as char);
    assert(final(out)@ == old(out)@ + decimal(n as nat)) by {
        if n >= 10 {
            assert(old(out)@ + decimal(n as nat) == (old(out)@ + decimal((n / 10) as nat)).push(
                digit_char((n % 10) as nat),
            ));
        } else {
            assert(old(out)@ + decimal(n as nat) == old(out)@.push(digit_char(n as nat)));
        }
    }
}

/// Writes `n` in decimal.
pub fn to_decimal(n: u64) -> (s: String)
    ensures
        s@ == decimal(n as nat),
{
    let mut s = String::new();
    push_decimal(&mut s, n);
    assert(Seq::<char>::empty() + decimal(n as nat) == decimal(n as nat));
    s
}

} // verus!
