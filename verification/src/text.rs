//! Small operations on text.

use crate::fixed::abs_of;
use crate::fixed::decimal_unit;
use crate::fixed::decimal_unit_exec;
use crate::fixed::div_round;
use crate::fixed::div_round_exec;
use vstd::prelude::*;
use vstd::string::StrSliceExecFns;
use vstd::string::StringExecFns;

verus! {

/// A copy of an optional text.
pub fn clone_text(text: &Option<String>) -> (r: Option<String>)
    ensures
        r == *text,
{
    match text {
        Some(s) => Some(s.clone()),
        None => None,
    }
}

/// Whether `text` reads exactly `literal`.
pub fn text_is(text: &String, literal: &str) -> (r: bool)
    ensures
        r == (text@ == literal@),
{
    let other: String = String::from_str(literal);
    *text == other
}

/// Whether `pattern` occurs in `text` at position `at`.
pub open spec fn occurs_at(text: Seq<char>, pattern: Seq<char>, at: int) -> bool {
    &&& 0 <= at
    &&& at + pattern.len() <= text.len()
    &&& text.subrange(at, at + pattern.len()) == pattern
}

/// Whether `pattern` occurs somewhere in `text`.
pub open spec fn contains(text: Seq<char>, pattern: Seq<char>) -> bool {
    exists|at: int| occurs_at(text, pattern, at)
}

/// Whether `pattern` occurs in `text` at position `at`.
fn matches_at(text: &str, pattern: &str, at: usize, text_len: usize, pattern_len: usize) -> (r: bool)
    requires
        text_len == text@.len(),
        pattern_len == pattern@.len(),
        at + pattern_len <= text_len,
    ensures
        r == occurs_at(text@, pattern@, at as int),
{
    let mut k: usize = 0;
    while k < pattern_len
        invariant
            k <= pattern_len,
            text_len == text@.len(),
            pattern_len == pattern@.len(),
            at + pattern_len <= text_len,
            forall|j: int| 0 <= j < k ==> text@[at + j] == pattern@[j],
        decreases pattern_len - k,
    {
        if text.get_char(at + k) != pattern.get_char(k) {
            proof {
                let part = text@.subrange(at as int, at + pattern_len);
                assert(part[k as int] == text@[at + k]);
            }
            return false;
        }
        k += 1;
    }
    proof {
        assert(text@.subrange(at as int, at + pattern_len) =~= pattern@);
    }
    true
}

/// Whether `pattern` occurs somewhere in `text`.
pub fn text_contains(text: &str, pattern: &str) -> (r: bool)
    ensures
        r == contains(text@, pattern@),
{
    let text_len: usize = text.unicode_len();
    let pattern_len: usize = pattern.unicode_len();
    if pattern_len > text_len {
        return false;
    }
    let last: usize = text_len - pattern_len;
    let mut at: usize = 0;
    loop
        invariant
            text_len == text@.len(),
            pattern_len == pattern@.len(),
            last == text_len - pattern_len,
            at <= last,
            forall|j: int| 0 <= j < at ==> !occurs_at(text@, pattern@, j),
        decreases last - at,
    {
        if matches_at(text, pattern, at, text_len, pattern_len) {
            return true;
        }
        if at == last {
            return false;
        }
        at += 1;
    }
}

/// The text of one decimal digit.
pub open spec fn digit_text(d: int) -> Seq<char> {
    if d == 0 {
        "0"@
    } else if d == 1 {
        "1"@
    } else if d == 2 {
        "2"@
    } else if d == 3 {
        "3"@
    } else if d == 4 {
        "4"@
    } else if d == 5 {
        "5"@
    } else if d == 6 {
        "6"@
    } else if d == 7 {
        "7"@
    } else if d == 8 {
        "8"@
    } else {
        "9"@
    }
}

/// The decimal text of a natural number, without leading zeros.
pub open spec fn nat_text(n: int) -> Seq<char>
    decreases n,
{
    if n < 10 {
        digit_text(n)
    } else {
        nat_text(n / 10) + digit_text(n % 10)
    }
}

/// The last `digits` decimal digits of `f`, with leading zeros.
pub open spec fn fraction_text(f: int, digits: int) -> Seq<char>
    decreases digits,
{
    if digits <= 0 {
        Seq::<char>::empty()
    } else {
        fraction_text(f / 10, digits - 1) + digit_text(f % 10)
    }
}

/// The decimal text of a quantity with `digits` places behind the point
/// (at most six): the quantity is rounded to those places, ties away from
/// zero; a point stands only where places follow it.
pub open spec fn decimal_text(value: int, digits: int) -> Seq<char> {
    let count = div_round(value, decimal_unit(digits));
    let per_unit = 1_000_000int / decimal_unit(digits);
    let magnitude = abs_of(count);
    let sign = if count < 0 {
        "-"@
    } else {
        Seq::<char>::empty()
    };
    let whole = sign + nat_text(magnitude / per_unit);
    if digits <= 0 {
        whole
    } else {
        whole + "."@ + fraction_text(magnitude % per_unit, min_digits(digits))
    }
}

/// `digits`, but at most the six places that a quantity holds.
pub open spec fn min_digits(digits: int) -> int {
    if digits > 6 {
        6
    } else {
        digits
    }
}

fn digit_str(d: u64) -> (r: &'static str)
    requires
        d < 10,
    ensures
        r@ == digit_text(d as int),
{
    if d == 0 {
        "0"
    } else if d == 1 {
        "1"
    } else if d == 2 {
        "2"
    } else if d == 3 {
        "3"
    } else if d == 4 {
        "4"
    } else if d == 5 {
        "5"
    } else if d == 6 {
        "6"
    } else if d == 7 {
        "7"
    } else if d == 8 {
        "8"
    } else {
        "9"
    }
}

/// Appends the decimal text of `n`.
pub fn push_nat(out: &mut String, n: u64)
    ensures
        final(out)@ == old(out)@ + nat_text(n as int),
    decreases n,
{
    if n >= 10 {
        push_nat(out, n / 10);
    }
    out.append(digit_str(n % 10));
    proof {
        if n >= 10 {
            assert(out@ =~= old(out)@ + (nat_text(n as int / 10) + digit_text(n as int % 10)));
        }
    }
}

/// Appends the last `digits` decimal digits of `f`.
fn push_fraction(out: &mut String, f: u64, digits: u32)
    ensures
        final(out)@ == old(out)@ + fraction_text(f as int, digits as int),
    decreases digits,
{
    if digits > 0 {
        push_fraction(out, f / 10, digits - 1);
        out.append(digit_str(f % 10));
        proof {
            assert(out@ =~= old(out)@ + (fraction_text(f as int / 10, digits as int - 1)
                + digit_text(f as int % 10)));
        }
    } else {
        proof {
            assert(out@ =~= old(out)@ + Seq::<char>::empty());
        }
    }
}

/// Appends the decimal text of `value` with `digits` places.
pub fn push_decimal(out: &mut String, value: i64, digits: u32)
    ensures
        final(out)@ == old(out)@ + decimal_text(value as int, digits as int),
{
    let unit: i64 = decimal_unit_exec(digits);
    let count: i128 = div_round_exec(value as i128, unit as i128);
    let per_unit: i128 = 1_000_000 / (unit as i128);
    let magnitude: i128 = if count < 0 {
        -count
    } else {
        count
    };
    if count < 0 {
        out.append("-");
    }
    let ghost signed = out@;
    push_nat(out, (magnitude / per_unit) as u64);
    let ghost whole = out@;
    if digits > 0 {
        out.append(".");
        let places: u32 = if digits > 6 {
            6
        } else {
            digits
        };
        push_fraction(out, (magnitude % per_unit) as u64, places);
        proof {
            let sign = if count < 0 {
                "-"@
            } else {
                Seq::<char>::empty()
            };
            assert(signed =~= old(out)@ + sign);
            assert(out@ =~= old(out)@ + (sign + nat_text(magnitude as int / per_unit as int) + "."@
                + fraction_text(magnitude as int % per_unit as int, places as int)));
        }
    } else {
        proof {
            let sign = if count < 0 {
                "-"@
            } else {
                Seq::<char>::empty()
            };
            assert(signed =~= old(out)@ + sign);
            assert(out@ =~= old(out)@ + (sign + nat_text(magnitude as int / per_unit as int)));
        }
    }
}

} // verus!
