//! Reading an unsigned number from a JSON scalar that is a number or a numeral.

use vstd::prelude::*;
use vstd::string::StringSliceAdditionalSpecFns;
use vstd::string::is_ascii_spec_bytes;
use crate::error::{Cause, Reason};
use crate::json::{Json, JsonKind, JsonValue};
use crate::text::{decimal, digit_char};

verus! {

/// Whether a character is a decimal digit.
pub open spec fn is_digit(c: char) -> bool {
    '0' <= c && c <= '9'
}

/// The value of a decimal digit.
pub open spec fn digit_value(c: char) -> nat
    recommends
        is_digit(c),
{
    (c as int - 48) as nat
}

/// The value of a run of decimal digits, the most significant first.
pub open spec fn digits_value(s: Seq<char>) -> nat
    decreases s.len(),
{
    if s.len() == 0 {
        0
    } else {
        10 * digits_value(s.drop_last()) + digit_value(s.last())
    }
}

/// A text without the plus sign that may stand at its head.
pub open spec fn unsigned_part(s: Seq<char>) -> Seq<char> {
    if s.len() > 0 && s[0] == '+' {
        s.drop_first()
    } else {
        s
    }
}

/// A numeral is one or more decimal digits, after an optional plus sign.
pub open spec fn is_numeral(s: Seq<char>) -> bool {
    let digits = unsigned_part(s);
    &&& digits.len() > 0
    &&& forall|i: int| 0 <= i < digits.len() ==> is_digit(#[trigger] digits[i])
}

/// The number that a numeral writes.
pub open spec fn numeral_value(s: Seq<char>) -> nat
    recommends
        is_numeral(s),
{
    digits_value(unsigned_part(s))
}

/// The number that a text writes: the value of a numeral that fits 32 bits.
/// A numeral that does not fit is out of range; any other text is a mismatch.
pub open spec fn text_number(s: Seq<char>) -> Result<u32, Reason> {
    if !is_numeral(s) {
        Err(Reason::TypeMismatch(JsonKind::String))
    } else if numeral_value(s) > u32::MAX {
        Err(Reason::OutOfRange)
    } else {
        Ok(numeral_value(s) as u32)
    }
}

/// The number that a JSON number holds: a whole number that fits 32 bits.
pub open spec fn plain_number(j: JsonValue) -> Result<u32, Reason> {
    match j {
        JsonValue::Integer(i) => if 0 <= i <= u32::MAX {
            Ok(i as u32)
        } else {
            Err(Reason::OutOfRange)
        },
        _ => Err(Reason::TypeMismatch(j.kind())),
    }
}

/// The number that a JSON scalar stands for, be it a number or a numeral.
pub open spec fn number_of(j: JsonValue) -> Result<u32, Reason> {
    match j {
        JsonValue::String(s) => text_number(s),
        _ => plain_number(j),
    }
}

/// A result with a bare cause as a mathematical value.
pub open spec fn verdict(r: Result<u32, Cause>) -> Result<u32, Reason> {
    match r {
        Ok(n) => Ok(n),
        Err(c) => Err(c.deep_view()),
    }
}

/// Reads the number that a text writes.
pub fn number_from_text(s: &str) -> (r: Result<u32, Cause>)
    ensures
        verdict(r) == text_number(s@),
{
    broadcast use is_ascii_spec_bytes;

    if !s.is_ascii() {
        proof {
            let i = choose|i: int| 0 <= i < s@.len() && !('\0' <= #[trigger] s@[i] <= '\u{7f}');
            if is_numeral(s@) {
                let digits = unsigned_part(s@);
                if s@[0] == '+' {
                    assert(i > 0);
                    assert(is_digit(digits[i - 1]));
                } else {
                    assert(is_digit(digits[i]));
                }
            }
        }
        return Err(Cause::TypeMismatch(JsonKind::String));
    }
    let bytes = s.as_bytes();
    let n = bytes.len();
    assert(vstd::string::is_ascii(s));
    assert(n == s@.len());
    let start: usize = if n > 0 && bytes[0] == 43 {
        1
    } else {
        0
    };
    let ghost digits = unsigned_part(s@);
    proof {
        if n > 0 {
            assert('\0' <= s@[0] <= '\u{7f}');
        }
        assert(digits =~= s@.subrange(start as int, n as int));
    }
    if start == n {
        return Err(Cause::TypeMismatch(JsonKind::String));
    }
    let mut value: u64 = 0;
    let mut over = false;
    let mut i: usize = start;
    while i < n
        invariant
            start <= i <= n,
            n == s@.len(),
            vstd::string::is_ascii(s),
            bytes@ == s.spec_bytes(),
            digits == s@.subrange(start as int, n as int),
            digits == unsigned_part(s@),
            forall|k: int| 0 <= k < i - start ==> is_digit(#[trigger] digits[k]),
            !over ==> value == digits_value(digits.take(i - start)) && value <= u32::MAX,
            over ==> digits_value(digits.take(i - start)) > u32::MAX,
        decreases n - i,
    {
        let b = bytes[i];
        proof {
            assert('\0' <= s@[i as int] <= '\u{7f}');
            assert(digits[i - start] == s@[i as int]);
            assert(digits.take(i - start + 1).drop_last() =~= digits.take(i - start));
            assert(digits.take(i - start + 1).last() == digits[i - start]);
        }
        if b < 48 || b > 57 {
            assert(!is_digit(digits[i - start]));
            return Err(Cause::TypeMismatch(JsonKind::String));
        }
        assert(is_digit(digits[i - start]));
        assert(digit_value(digits[i - start]) == b - 48);
        if !over {
            value = value * 10 + (b - 48) as u64;
            if value > u32::MAX as u64 {
                over = true;
            }
        }
        i += 1;
    }
    proof {
        assert(digits.take(n - start) =~= digits);
    }
    if over {
        Err(Cause::OutOfRange)
    } else {
        Ok(value as u32)
    }
}

/// Reads a JSON number as an unsigned number of 32 bits.
pub fn plain_number_of(j: &Json) -> (r: Result<u32, Cause>)
    ensures
        verdict(r) == plain_number(j@),
{
    match j {
        Json::Integer(i) => {
            if 0 <= *i && *i <= 0xffff_ffff {
                Ok(*i as u32)
            } else {
                Err(Cause::OutOfRange)
            }
        },
        _ => Err(Cause::TypeMismatch(j.kind())),
    }
}

/// Reads the number that a JSON scalar stands for: a JSON number as it is, a
/// JSON text as the numeral that it spells.
pub fn coerce_number(j: &Json) -> (r: Result<u32, Cause>)
    ensures
        verdict(r) == number_of(j@),
{
    match j {
        Json::String(s) => number_from_text(s.as_str()),
        _ => plain_number_of(j),
    }
}

/// Appending a digit to a run of digits multiplies its value by ten and adds the digit.
proof fn lemma_decimal_digits(n: nat)
    ensures
        decimal(n).len() > 0,
        forall|i: int| 0 <= i < decimal(n).len() ==> is_digit(#[trigger] decimal(n)[i]),
        digits_value(decimal(n)) == n,
    decreases n,
{
    if n < 10 {
        assert(decimal(n).drop_last() =~= Seq::<char>::empty());
        assert(digits_value(decimal(n).drop_last()) == 0);
    } else {
        lemma_decimal_digits(n / 10);
        assert(decimal(n).drop_last() =~= decimal(n / 10));
        assert(is_digit(digit_char(n % 10)));
    }
}

/// A number written in base ten is a numeral, and the numeral writes that number.
pub proof fn lemma_decimal_is_numeral(n: nat)
    ensures
        is_numeral(decimal(n)),
        numeral_value(decimal(n)) == n,
{
    lemma_decimal_digits(n);
    assert(is_digit(decimal(n)[0]));
    assert(unsigned_part(decimal(n)) == decimal(n));
}

/// A number reads the same whether the document holds it as a JSON number
/// or as the text of its decimal digits.
pub proof fn lemma_number_and_numeral_agree(n: u32)
    ensures
        number_of(JsonValue::Integer(n as int)) == Ok::<u32, Reason>(n),
        number_of(JsonValue::String(decimal(n as nat))) == Ok::<u32, Reason>(n),
{
    lemma_decimal_is_numeral(n as nat);
}

} // verus!
