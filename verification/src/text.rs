//! Text helpers: equality of string slices and decimal numerals.

use vstd::prelude::*;
use vstd::string::StrSliceExecFns;
use vstd::string::StringSliceAdditionalSpecFns;
use vstd::utf8::encode_utf8_decode_utf8;
use vstd::utf8::is_ascii_chars_encode_utf8;

verus! {

/// Whether two string slices hold the same characters.
pub fn same_text(a: &str, b: &str) -> (r: bool)
    ensures
        r == (a@ == b@),
{
    let x = a.as_bytes();
    let y = b.as_bytes();
    proof {
        encode_utf8_decode_utf8(a@);
        encode_utf8_decode_utf8(b@);
    }
    if x.len() != y.len() {
        return false;
    }
    let n = x.len();
    let mut i: usize = 0;
    while i < n
        invariant
            i <= n,
            n == x@.len(),
            n == y@.len(),
            x@ == a.spec_bytes(),
            y@ == b.spec_bytes(),
            forall|j: int| 0 <= j < i ==> x@[j] == y@[j],
        decreases n - i,
    {
        if x[i] != y[i] {
            return false;
        }
        i += 1;
    }
    assert(x@ =~= y@);
    true
}

/// Whether `c` is white space: a character with the Unicode property `White_Space`.
pub open spec fn is_space(c: char) -> bool {
    let n = c as u32;
    ||| 0x09 <= n <= 0x0d
    ||| n == 0x20
    ||| n == 0x85
    ||| n == 0xa0
    ||| n == 0x1680
    ||| 0x2000 <= n <= 0x200a
    ||| n == 0x2028
    ||| n == 0x2029
    ||| n == 0x202f
    ||| n == 0x205f
    ||| n == 0x3000
}

/// Whether `text` is blank: empty, or white space throughout.
pub open spec fn is_blank(text: Seq<char>) -> bool {
    forall|i: int| 0 <= i < text.len() ==> is_space(#[trigger] text[i])
}

/// Whether `c` is white space.
pub fn is_space_char(c: char) -> (r: bool)
    ensures
        r == is_space(c),
{
    let n = c as u32;
    (0x09 <= n && n <= 0x0d) || n == 0x20 || n == 0x85 || n == 0xa0 || n == 0x1680 || (0x2000 <= n
        && n <= 0x200a) || n == 0x2028 || n == 0x2029 || n == 0x202f || n == 0x205f || n == 0x3000
}

/// Whether `text` is blank: empty, or white space throughout.
pub fn is_blank_text(text: &str) -> (r: bool)
    ensures
        r == is_blank(text@),
{
    let n = text.unicode_len();
    let mut i: usize = 0;
    while i < n
        invariant
            i <= n,
            n == text@.len(),
            forall|j: int| 0 <= j < i ==> is_space(#[trigger] text@[j]),
        decreases n - i,
    {
        if !is_space_char(text.get_char(i)) {
            return false;
        }
        i += 1;
    }
    true
}

/// Whether `c` is one of the ten decimal digits.
pub open spec fn is_digit(c: char) -> bool {
    '0' <= c <= '9'
}

/// The number that a sequence of decimal digits denotes, most significant first.
pub open spec fn digits_value(digits: Seq<char>) -> nat
    decreases digits.len(),
{
    if digits.len() == 0 {
        0
    } else {
        (digits_value(digits.drop_last()) * 10 + (digits.last() as nat - '0' as nat)) as nat
    }
}

/// The digits of a decimal numeral: the text itself, or what follows one leading `+`.
pub open spec fn numeral_digits(text: Seq<char>) -> Seq<char> {
    if text.len() > 0 && text[0] == '+' {
        text.drop_first()
    } else {
        text
    }
}

/// Whether `text` is a decimal numeral: an optional `+`, then one or more digits.
pub open spec fn is_numeral(text: Seq<char>) -> bool {
    let digits = numeral_digits(text);
    digits.len() > 0 && forall|i: int| 0 <= i < digits.len() ==> is_digit(#[trigger] digits[i])
}

/// The unsigned 64-bit number that `text` denotes, if it is a numeral that fits.
pub open spec fn parse_u64_spec(text: Seq<char>) -> Option<u64> {
    if is_numeral(text) && digits_value(numeral_digits(text)) <= u64::MAX {
        Some(digits_value(numeral_digits(text)) as u64)
    } else {
        None
    }
}

/// The value of a digit sequence never shrinks when digits are appended.
pub proof fn lemma_digits_value_grows(digits: Seq<char>, n: int)
    requires
        0 <= n <= digits.len(),
        forall|i: int| 0 <= i < digits.len() ==> is_digit(#[trigger] digits[i]),
    ensures
        digits_value(digits.take(n)) <= digits_value(digits),
    decreases digits.len() - n,
{
    if n == digits.len() {
        assert(digits.take(n) =~= digits);
    } else {
        lemma_digits_value_grows(digits, n + 1);
        let longer = digits.take(n + 1);
        assert(longer.drop_last() =~= digits.take(n));
        assert(is_digit(longer.last()));
    }
}

/// Reads a decimal numeral as an unsigned 64-bit number.
pub fn parse_u64(text: &str) -> (r: Option<u64>)
    ensures
        r == parse_u64_spec(text@),
{
    if !text.is_ascii() {
        assert(!is_numeral(text@)) by {
            if is_numeral(text@) {
                let digits = numeral_digits(text@);
                assert forall|i: int| 0 <= i < text@.len() implies '\0' <= #[trigger] text@[i]
                    <= '\u{7f}' by {
                    if text@[0] == '+' {
                        if i > 0 {
                            assert(is_digit(digits[i - 1]));
                        }
                    } else {
                        assert(is_digit(digits[i]));
                    }
                }
            }
        }
        return None;
    }
    let bytes = text.as_bytes();
    proof {
        is_ascii_chars_encode_utf8(text@);
    }
    let n = bytes.len();
    let start: usize = if n > 0 && bytes[0] == 43u8 {
        1
    } else {
        0
    };
    let ghost digits = numeral_digits(text@);
    assert(digits =~= text@.subrange(start as int, n as int));
    if start == n {
        return None;
    }
    let mut acc: u64 = 0;
    let mut i: usize = start;
    while i < n
        invariant
            start <= i <= n,
            n == text@.len(),
            n == bytes@.len(),
            digits == numeral_digits(text@),
            digits == text@.subrange(start as int, n as int),
            forall|j: int| 0 <= j < n ==> text@[j] as u8 == bytes@[j],
            forall|j: int| 0 <= j < n ==> '\0' <= #[trigger] text@[j] <= '\u{7f}',
            forall|j: int| 0 <= j < i - start ==> is_digit(#[trigger] digits[j]),
            acc == digits_value(digits.take(i - start)),
        decreases n - i,
    {
        let b = bytes[i];
        let ghost k = i - start;
        assert(digits[k] == text@[i as int]);
        if b < 48u8 || b > 57u8 {
            assert(!is_digit(digits[k]));
            return None;
        }
        assert(is_digit(digits[k]));
        let d: u64 = (b - 48u8) as u64;
        proof {
            let longer = digits.take(k + 1);
            assert(longer.drop_last() =~= digits.take(k));
            assert(longer.last() == digits[k]);
            assert(digits_value(longer) == acc * 10 + d);
        }
        if acc > (u64::MAX - d) / 10 {
            proof {
                if is_numeral(text@) {
                    lemma_digits_value_grows(digits, k + 1);
                }
            }
            return None;
        }
        acc = acc * 10 + d;
        i += 1;
    }
    assert(digits.take(n - start) =~= digits);
    Some(acc)
}

} // verus!
