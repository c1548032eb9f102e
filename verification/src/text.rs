//! Reading strings: equality of two strings, and unsigned decimal numbers.
use vstd::prelude::*;
use vstd::string::*;
use vstd::utf8::*;

verus! {

/// Whether two strings hold the same characters.
pub fn same_text(a: &str, b: &str) -> (same: bool)
    ensures
        same == (a@ == b@),
{
    let x = a.as_bytes();
    let y = b.as_bytes();
    proof {
        encode_utf8_decode_utf8(a@);
        encode_utf8_decode_utf8(b@);
    }
    if x.len() != y.len() {
        return false;
    }
    let mut i: usize = 0;
    while i < x.len()
        invariant
            i <= x.len(),
            x.len() == y.len(),
            x@ == a.spec_bytes(),
            y@ == b.spec_bytes(),
            forall|j: int| 0 <= j < i ==> x@[j] == y@[j],
        decreases x.len() - i,
    {
        if x[i] != y[i] {
            return false;
        }
        i += 1;
    }
    assert(x@ =~= y@);
    true
}

/// The byte of the plus sign.
const PLUS: u8 = 43;

/// The byte of the digit zero.
const DIGIT_ZERO: u8 = 48;

/// The byte of the digit nine.
const DIGIT_NINE: u8 = 57;

/// Whether a character is one of the ten decimal digits.
pub open spec fn is_digit(c: char) -> bool {
    '0' <= c <= '9'
}

/// The number that a decimal digit stands for.
pub open spec fn digit_value(c: char) -> nat {
    (c as u32 - '0' as u32) as nat
}

/// The number that a sequence of decimal digits writes, most significant
/// digit first. The empty sequence writes zero.
pub open spec fn decimal_value(digits: Seq<char>) -> nat
    decreases digits.len(),
{
    if digits.len() == 0 {
        0
    } else {
        10 * decimal_value(digits.drop_last()) + digit_value(digits.last())
    }
}

/// The characters of a string after one leading plus sign, if there is one.
pub open spec fn after_sign(s: Seq<char>) -> Seq<char> {
    if s.len() > 0 && s[0] == '+' {
        s.subrange(1, s.len() as int)
    } else {
        s
    }
}

/// The unsigned decimal number that a string writes: an optional plus sign,
/// then one or more decimal digits and nothing else. No other string writes
/// a number.
pub open spec fn unsigned_decimal(s: Seq<char>) -> Option<nat> {
    let digits = after_sign(s);
    if digits.len() > 0 && forall|i: int| 0 <= i < digits.len() ==> is_digit(#[trigger] digits[i]) {
        Some(decimal_value(digits))
    } else {
        None
    }
}

/// The length that a string writes: its unsigned decimal number, where that
/// number fits the machine's word.
pub open spec fn length_written(s: Seq<char>) -> Option<usize> {
    match unsigned_decimal(s) {
        Some(n) => if n <= usize::MAX {
            Some(n as usize)
        } else {
            None
        },
        None => None,
    }
}

/// Reading more digits never makes the number smaller.
proof fn lemma_decimal_value_grows(digits: Seq<char>, k: int)
    requires
        0 <= k <= digits.len(),
    ensures
        decimal_value(digits.subrange(0, k)) <= decimal_value(digits),
    decreases digits.len() - k,
{
    if k == digits.len() {
        assert(digits.subrange(0, k) =~= digits);
    } else {
        let longer = digits.subrange(0, k + 1);
        assert(longer.drop_last() =~= digits.subrange(0, k));
        lemma_decimal_value_grows(digits, k + 1);
    }
}

/// Reads a length: an optional plus sign followed by decimal digits. Gives
/// `None` for any other string, and for a number too large for the machine's
/// word.
pub fn parse_length(s: &str) -> (length: Option<usize>)
    ensures
        length == length_written(s@),
{
    let ghost digits = after_sign(s@);
    if !s.is_ascii() {
        proof {
            let i = choose|i: int| 0 <= i < s@.len() && !('\0' <= #[trigger] s@[i] <= '\u{7f}');
            if digits.len() == s@.len() {
                assert(!is_digit(digits[i]));
            } else {
                assert(!is_digit(digits[i - 1]));
            }
        }
        return None;
    }
    let bytes = s.as_bytes();
    let n = bytes.len();
    let start: usize = if n > 0 && bytes[0] == PLUS {
        1
    } else {
        0
    };
    proof {
        is_ascii_spec_bytes(s);
        assert(digits =~= s@.subrange(start as int, n as int));
        assert forall|j: int| 0 <= j < digits.len() implies #[trigger] digits[j] == bytes@[start
            + j] as char by {
            assert(bytes@[start + j] == s@[start + j] as u8);
        }
    }
    if start == n {
        return None;
    }
    let mut value: usize = 0;
    let mut i: usize = start;
    while i < n
        invariant
            start <= i <= n,
            n == bytes@.len(),
            digits == after_sign(s@),
            digits.len() == n - start,
            forall|j: int| 0 <= j < digits.len() ==> #[trigger] digits[j] == bytes@[start + j] as char,
            forall|j: int| 0 <= j < i - start ==> is_digit(#[trigger] digits[j]),
            value == decimal_value(digits.subrange(0, i - start)),
        decreases n - i,
    {
        let b = bytes[i];
        let ghost k = i - start;
        if b < DIGIT_ZERO || b > DIGIT_NINE {
            assert(!is_digit(digits[k]));
            return None;
        }
        proof {
            let longer = digits.subrange(0, k + 1);
            assert(longer.drop_last() =~= digits.subrange(0, k));
            assert(decimal_value(longer) == 10 * value + (b - DIGIT_ZERO));
            lemma_decimal_value_grows(digits, k + 1);
        }
        let tens = match value.checked_mul(10) {
            Some(t) => t,
            None => {
                return None;
            },
        };
        value = match tens.checked_add((b - DIGIT_ZERO) as usize) {
            Some(v) => v,
            None => {
                return None;
            },
        };
        i += 1;
    }
    assert(digits.subrange(0, n - start) =~= digits);
    Some(value)
}

} // verus!
