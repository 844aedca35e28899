//! Reading menu selections out of typed lines.

use vstd::prelude::*;
use vstd::string::StrSliceExecFns;

verus! {

/// A decimal digit character.
pub open spec fn is_digit(c: char) -> bool {
    '0' <= c && c <= '9'
}

/// The value of a decimal digit character.
pub open spec fn digit_value(c: char) -> nat {
    (c as int - '0' as int) as nat
}

/// Every character of `s` is a decimal digit.
pub open spec fn all_digits(s: Seq<char>) -> bool {
    forall|i: int| 0 <= i < s.len() ==> is_digit(#[trigger] s[i])
}

/// The value of a string of decimal digits, most significant first.
pub open spec fn digits_value(s: Seq<char>) -> nat
    decreases s.len(),
{
    if s.len() == 0 {
        0
    } else {
        digits_value(s.drop_last()) * 10 + digit_value(s.last())
    }
}

/// The selector of a single-choice menu: the first character of the line,
/// read as a decimal digit; `None` where the line does not start with one.
pub open spec fn leading_digit(s: Seq<char>) -> Option<nat> {
    if s.len() > 0 && is_digit(s[0]) {
        Some(digit_value(s[0]))
    } else {
        None
    }
}

/// The whole line read as a non-negative decimal number: one digit or more,
/// nothing else.
pub open spec fn number_of(s: Seq<char>) -> Option<nat> {
    if s.len() > 0 && all_digits(s) {
        Some(digits_value(s))
    } else {
        None
    }
}

/// Appending digits never makes a number smaller.
proof fn lemma_digits_value_grows(s: Seq<char>, k: int)
    requires
        0 <= k <= s.len(),
    ensures
        digits_value(s.subrange(0, k)) <= digits_value(s),
    decreases s.len() - k,
{
    if k < s.len() {
        let t = s.subrange(0, k + 1);
        assert(t.drop_last() =~= s.subrange(0, k));
        lemma_digits_value_grows(s, k + 1);
    } else {
        assert(s.subrange(0, k) =~= s);
    }
}

/// A line read as a whole number is at least the digit it starts with.
pub proof fn lemma_number_at_least_leading_digit(s: Seq<char>)
    requires
        number_of(s) is Some,
    ensures
        leading_digit(s) is Some,
        number_of(s)->0 >= leading_digit(s)->0,
{
    assert(is_digit(s[0]));
    lemma_digits_value_grows(s, 1);
    let first = s.subrange(0, 1);
    assert(first.drop_last() =~= Seq::<char>::empty());
    assert(first.last() == s[0]);
    assert(digits_value(first.drop_last()) == 0);
    assert(digits_value(first) == digit_value(s[0]));
}

/// The digit that `line` starts with, as `leading_digit` reads it.
pub fn first_digit(line: &str) -> (r: Option<u8>)
    ensures
        r is Some <==> leading_digit(line@) is Some,
        r is Some ==> r->0 as nat == leading_digit(line@)->0,
        r is Some ==> r->0 <= 9,
{
    if line.unicode_len() == 0 {
        return None;
    }
    let c = line.get_char(0);
    if '0' <= c && c <= '9' {
        Some((c as u32 - '0' as u32) as u8)
    } else {
        None
    }
}

/// Reads `line` as a whole decimal number, giving it back only where it is at
/// most `max`.
pub fn number_up_to(line: &str, max: usize) -> (r: Option<usize>)
    ensures
        r is Some <==> (number_of(line@) is Some && number_of(line@)->0 <= max),
        r is Some ==> r->0 as nat == number_of(line@)->0,
{
    let len = line.unicode_len();
    if len == 0 {
        return None;
    }
    let mut value: usize = 0;
    let mut i: usize = 0;
    while i < len
        invariant
            len == line@.len(),
            i <= len,
            all_digits(line@.subrange(0, i as int)),
            value as nat == digits_value(line@.subrange(0, i as int)),
            value <= max,
        decreases len - i,
    {
        let c = line.get_char(i);
        let ghost prefix = line@.subrange(0, i as int);
        let ghost next = line@.subrange(0, i as int + 1);
        assert(next.drop_last() =~= prefix);
        if !('0' <= c && c <= '9') {
            assert(!all_digits(line@)) by {
                assert(!is_digit(line@[i as int]));
            }
            return None;
        }
        let d: usize = (c as u32 - '0' as u32) as usize;
        assert(d as nat == digit_value(c));
        if d > max || value > (max - d) / 10 {
            proof {
                if d <= max {
                    assert(value * 10 + d > max) by (nonlinear_arith)
                        requires value > (max - d) / 10, d <= max;
                }
                if all_digits(line@) {
                    lemma_digits_value_grows(line@, i as int + 1);
                }
            }
            return None;
        }
        assert(value * 10 + d <= max) by (nonlinear_arith)
            requires value <= (max - d) / 10, d <= max;
        value = value * 10 + d;
        i = i + 1;
        assert(all_digits(line@.subrange(0, i as int))) by {
            assert forall|j: int| 0 <= j < i implies is_digit(#[trigger] line@.subrange(0, i as int)[j]) by {
                if j < i - 1 {
                    assert(line@.subrange(0, i as int)[j] == prefix[j]);
                }
            }
        }
    }
    assert(line@.subrange(0, len as int) =~= line@);
    Some(value)
}

} // verus!
