//! Text helpers: comparing strings, writing and reading decimal numbers, and
//! decoding UTF-16.
use vstd::prelude::*;

verus! {

/// What `String::from_utf16_lossy` makes of a sequence of UTF-16 code units:
/// the decoded characters, with U+FFFD in place of each unpaired surrogate.
pub uninterp spec fn utf16_lossy(units: Seq<u16>) -> Seq<char>;

/// What `str::encode_utf16` makes of a sequence of characters: its UTF-16
/// code units.
pub uninterp spec fn utf16_encoding(text: Seq<char>) -> Seq<u16>;

/// Whether `char::is_numeric` holds of a character: whether it belongs to one
/// of the general categories for numbers.
pub uninterp spec fn char_is_numeric(c: char) -> bool;

/// `String::push` appends one character to the end of the string.
pub assume_specification[ String::push ](s: &mut String, ch: char)
    ensures
        final(s)@ == old(s)@.push(ch),
;

/// Calls `String::from_utf16_lossy`, which decodes UTF-16 and replaces what
/// cannot be decoded. The result is a function of the code units alone.
#[verifier::external_body]
pub(crate) fn string_from_utf16_lossy(units: &[u16]) -> (s: String)
    ensures
        s@ == utf16_lossy(units@),
{
    String::from_utf16_lossy(units)
}

/// Calls `str::encode_utf16`, which encodes a string as UTF-16. The result is
/// a function of the characters alone.
#[verifier::external_body]
pub(crate) fn encode_utf16(s: &str) -> (r: Vec<u16>)
    ensures
        r@ == utf16_encoding(s@),
{
    s.encode_utf16().collect()
}

/// Calls `char::is_numeric`, which tells whether a character belongs to one
/// of the general categories for numbers.
#[verifier::external_body]
pub(crate) fn is_numeric(c: char) -> (r: bool)
    ensures
        r == char_is_numeric(c),
{
    c.is_numeric()
}

/// A number that is a Unicode scalar value: at most 0x10FFFF and no
/// surrogate.
pub open spec fn is_scalar_value(v: u32) -> bool {
    v <= 0x10FFFF && !(0xD800 <= v <= 0xDFFF)
}

/// Calls `char::from_u32`, which gives the character with a number where the
/// number is a Unicode scalar value, and nothing otherwise.
#[verifier::external_body]
pub(crate) fn char_from_u32(v: u32) -> (r: Option<char>)
    ensures
        r == if is_scalar_value(v) {
            Some(v as char)
        } else {
            None
        },
{
    char::from_u32(v)
}

/// Tells whether two strings hold the same characters.
pub fn str_equals(a: &str, b: &str) -> (r: bool)
    ensures
        r == (a@ == b@),
{
    let n: usize = a.unicode_len();
    if n != b.unicode_len() {
        return false;
    }
    let mut i: usize = 0;
    while i < n
        invariant
            i <= n,
            n == a@.len(),
            n == b@.len(),
            a@.subrange(0, i as int) == b@.subrange(0, i as int),
        decreases n - i,
    {
        if a.get_char(i) != b.get_char(i) {
            assert(a@[i as int] != b@[i as int]);
            return false;
        }
        proof {
            assert(a@.subrange(0, i + 1) =~= a@.subrange(0, i as int).push(a@[i as int]));
            assert(b@.subrange(0, i + 1) =~= b@.subrange(0, i as int).push(b@[i as int]));
        }
        i += 1;
    }
    proof {
        assert(a@ =~= a@.subrange(0, n as int));
        assert(b@ =~= b@.subrange(0, n as int));
    }
    true
}

/// `v` begins with `p`.
pub open spec fn starts_with(v: Seq<char>, p: Seq<char>) -> bool {
    p.len() <= v.len() && v.subrange(0, p.len() as int) == p
}

/// Tells whether a string begins with another.
pub fn has_prefix(v: &str, p: &str) -> (r: bool)
    ensures
        r == starts_with(v@, p@),
{
    let n: usize = p.unicode_len();
    if n > v.unicode_len() {
        return false;
    }
    let mut i: usize = 0;
    while i < n
        invariant
            i <= n,
            n == p@.len(),
            n <= v@.len(),
            v@.subrange(0, i as int) == p@.subrange(0, i as int),
        decreases n - i,
    {
        if v.get_char(i) != p.get_char(i) {
            assert(v@.subrange(0, n as int)[i as int] != p@[i as int]);
            return false;
        }
        proof {
            assert(v@.subrange(0, i + 1) =~= v@.subrange(0, i as int).push(v@[i as int]));
            assert(p@.subrange(0, i + 1) =~= p@.subrange(0, i as int).push(p@[i as int]));
        }
        i += 1;
    }
    proof {
        assert(p@ =~= p@.subrange(0, n as int));
    }
    true
}

/// The character of a decimal digit.
pub open spec fn digit_char(d: nat) -> char
    recommends
        d < 10,
{
    ((0x30 + d) as u8) as char
}

/// A number written in decimal, without sign or leading zeros.
pub open spec fn decimal(n: nat) -> Seq<char>
    decreases n,
{
    if n < 10 {
        seq![digit_char(n)]
    } else {
        decimal(n / 10).push(digit_char(n % 10))
    }
}

/// Appends a number in decimal.
pub fn push_decimal(s: &mut String, n: u32)
    ensures
        final(s)@ == old(s)@ + decimal(n as nat),
    decreases n,
{
    if n >= 10 {
        push_decimal(s, n / 10);
    }
    let d: u8 = (n % 10) as u8;
    s.push((0x30u8 + d) as char);
    proof {
        assert(s@ =~= old(s)@ + decimal(n as nat));
    }
}

/// A character is one of the ten ASCII digits.
pub open spec fn is_digit(c: char) -> bool {
    '0' <= c <= '9'
}

/// The number that a sequence of ASCII digits writes in decimal.
pub open spec fn digits_value(digits: Seq<char>) -> nat
    decreases digits.len(),
{
    if digits.len() == 0 {
        0
    } else {
        (digits_value(digits.drop_last()) * 10 + (digits.last() as u32 - 0x30)) as nat
    }
}

/// What reading an unsigned number of at most `max` gives: the value of a
/// sequence that is not empty, holds only ASCII digits and does not write more
/// than `max`.
pub open spec fn parse_decimal(digits: Seq<char>, max: nat) -> Option<nat> {
    if digits.len() > 0 && (forall|i: int| 0 <= i < digits.len() ==> is_digit(#[trigger] digits[i]))
        && digits_value(digits) <= max {
        Some(digits_value(digits))
    } else {
        None
    }
}

/// What is left of a sequence when the characters that are not numeric are
/// taken from its start.
pub open spec fn trim_start_non_numeric(v: Seq<char>) -> Seq<char>
    decreases v.len(),
{
    if v.len() > 0 && !char_is_numeric(v[0]) {
        trim_start_non_numeric(v.subrange(1, v.len() as int))
    } else {
        v
    }
}

/// What is left of a sequence when the characters that are not numeric are
/// taken from its end.
pub open spec fn trim_end_non_numeric(v: Seq<char>) -> Seq<char>
    decreases v.len(),
{
    if v.len() > 0 && !char_is_numeric(v.last()) {
        trim_end_non_numeric(v.drop_last())
    } else {
        v
    }
}

/// What is left of a sequence when the characters that are not numeric are
/// taken from both of its ends.
pub open spec fn trim_non_numeric(v: Seq<char>) -> Seq<char> {
    trim_end_non_numeric(trim_start_non_numeric(v))
}

proof fn lemma_digits_value_grows(digits: Seq<char>, k: int)
    requires
        0 <= k <= digits.len(),
        forall|i: int| 0 <= i < digits.len() ==> is_digit(#[trigger] digits[i]),
    ensures
        digits_value(digits.subrange(0, k)) <= digits_value(digits),
    decreases digits.len() - k,
{
    if k == digits.len() {
        assert(digits.subrange(0, k) =~= digits);
    } else {
        lemma_digits_value_grows(digits, k + 1);
        assert(digits.subrange(0, k + 1).drop_last() =~= digits.subrange(0, k));
    }
}

/// Reads the number that the numeric part of a string writes: the characters
/// that are not numeric are taken from both ends, and what is left is read as
/// an unsigned decimal number of at most `max`.
pub fn parse_trimmed(v: &str, max: u32) -> (r: Option<u32>)
    ensures
        r matches Some(n) ==> parse_decimal(trim_non_numeric(v@), max as nat) == Some(n as nat),
        r is None ==> parse_decimal(trim_non_numeric(v@), max as nat) is None,
{
    let len: usize = v.unicode_len();
    let mut start: usize = 0;
    assert(v@.subrange(0, len as int) =~= v@);
    while start < len && !is_numeric(v.get_char(start))
        invariant
            start <= len,
            len == v@.len(),
            trim_start_non_numeric(v@) == trim_start_non_numeric(
                v@.subrange(start as int, len as int),
            ),
        decreases len - start,
    {
        proof {
            let cur = v@.subrange(start as int, len as int);
            assert(cur.subrange(1, cur.len() as int) =~= v@.subrange(start + 1, len as int));
        }
        start += 1;
    }
    let ghost front = v@.subrange(start as int, len as int);
    assert(trim_start_non_numeric(v@) == front);
    let mut end: usize = len;
    while end > start && !is_numeric(v.get_char(end - 1))
        invariant
            start <= end <= len,
            len == v@.len(),
            front == v@.subrange(start as int, len as int),
            trim_end_non_numeric(front) == trim_end_non_numeric(
                v@.subrange(start as int, end as int),
            ),
        decreases end - start,
    {
        proof {
            let cur = v@.subrange(start as int, end as int);
            assert(cur.drop_last() =~= v@.subrange(start as int, end - 1));
        }
        end -= 1;
    }
    let ghost digits = v@.subrange(start as int, end as int);
    assert(trim_non_numeric(v@) == digits);
    if start == end {
        return None;
    }
    let mut acc: u64 = 0;
    let mut k: usize = start;
    while k < end
        invariant
            start <= k <= end <= len,
            len == v@.len(),
            digits == v@.subrange(start as int, end as int),
            digits == trim_non_numeric(v@),
            forall|i: int| 0 <= i < k - start ==> is_digit(#[trigger] digits[i]),
            acc == digits_value(digits.subrange(0, k - start)),
            acc <= max,
        decreases end - k,
    {
        let c: char = v.get_char(k);
        if !('0' <= c && c <= '9') {
            assert(!is_digit(digits[k - start]));
            return None;
        }
        let d: u64 = (c as u32 - 0x30) as u64;
        let next: u64 = acc * 10 + d;
        proof {
            assert(digits.subrange(0, k - start + 1).drop_last() =~= digits.subrange(
                0,
                k - start,
            ));
            assert(next == digits_value(digits.subrange(0, k - start + 1)));
        }
        if next > max as u64 {
            proof {
                if forall|i: int| 0 <= i < digits.len() ==> is_digit(#[trigger] digits[i]) {
                    lemma_digits_value_grows(digits, k - start + 1);
                }
            }
            return None;
        }
        acc = next;
        k += 1;
    }
    proof {
        assert(digits.subrange(0, k - start) =~= digits);
    }
    Some(acc as u32)
}

} // verus!
