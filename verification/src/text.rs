//! Reading command-line tokens: unsigned decimal numbers, and words compared
//! without regard to ASCII case.

use vstd::prelude::*;
use vstd::std_specs::iter::IteratorSpec;

verus! {

/// Whether `c` is one of `0` to `9`.
pub open spec fn is_digit(c: char) -> bool {
    '0' <= c && c <= '9'
}

/// The number that the digit `c` stands for.
pub open spec fn digit_value(c: char) -> int {
    c as int - 48
}

/// Whether `s` holds decimal digits only.
pub open spec fn all_digits(s: Seq<char>) -> bool {
    forall|i: int| 0 <= i < s.len() ==> is_digit(#[trigger] s[i])
}

/// The number that the digits `s` write in base ten; 0 for no digits.
pub open spec fn decimal_value(s: Seq<char>) -> int
    decreases s.len(),
{
    if s.len() == 0 {
        0
    } else {
        10 * decimal_value(s.drop_last()) + digit_value(s.last())
    }
}

/// `s` without one leading `+`.
pub open spec fn without_plus(s: Seq<char>) -> Seq<char> {
    if s.len() > 0 && s[0] == '+' {
        s.drop_first()
    } else {
        s
    }
}

/// The number that the token `s` writes: an optional `+`, then one or more
/// decimal digits whose value fits in 32 bits. Anything else, such as an
/// empty token, a sign alone, a `-`, a blank or an underscore, is no number.
pub open spec fn decimal_u32(s: Seq<char>) -> Option<u32> {
    let digits = without_plus(s);
    if digits.len() > 0 && all_digits(digits) && decimal_value(digits) <= u32::MAX {
        Some(decimal_value(digits) as u32)
    } else {
        None
    }
}

/// Appending a digit multiplies by ten and adds the digit.
pub proof fn lemma_decimal_value_push(s: Seq<char>, c: char)
    ensures
        decimal_value(s.push(c)) == 10 * decimal_value(s) + digit_value(c),
{
    assert(s.push(c).drop_last() =~= s);
}

/// The digits read so far never write more than the whole number.
pub proof fn lemma_decimal_value_prefix(s: Seq<char>, n: int)
    requires
        all_digits(s),
        0 <= n <= s.len(),
    ensures
        0 <= decimal_value(s.take(n)) <= decimal_value(s),
    decreases s.len() - n,
{
    if n == s.len() {
        assert(s.take(n) =~= s);
        lemma_decimal_value_nonnegative(s);
    } else {
        lemma_decimal_value_prefix(s, n + 1);
        assert(s.take(n + 1) =~= s.take(n).push(s[n]));
        lemma_decimal_value_push(s.take(n), s[n]);
        assert(all_digits(s.take(n))) by {
            assert forall|i: int| 0 <= i < s.take(n).len() implies is_digit(
                #[trigger] s.take(n)[i],
            ) by {
                assert(s.take(n)[i] == s[i]);
            }
        }
        lemma_decimal_value_nonnegative(s.take(n));
        assert(is_digit(s[n]));
    }
}

/// Digits write no negative number.
pub proof fn lemma_decimal_value_nonnegative(s: Seq<char>)
    requires
        all_digits(s),
    ensures
        0 <= decimal_value(s),
    decreases s.len(),
{
    if s.len() > 0 {
        assert(all_digits(s.drop_last())) by {
            assert forall|i: int| 0 <= i < s.drop_last().len() implies is_digit(
                #[trigger] s.drop_last()[i],
            ) by {
                assert(s.drop_last()[i] == s[i]);
            }
        }
        lemma_decimal_value_nonnegative(s.drop_last());
        assert(is_digit(s.last()));
    }
}

/// Reads an unsigned 32-bit decimal number.
pub fn parse_u32(s: &str) -> (r: Option<u32>)
    ensures
        r == decimal_u32(s@),
{
    let mut value: u64 = 0;
    let mut first: bool = true;
    let mut any: bool = false;
    let ghost mut start: int = 0;
    for c in it: s.chars()
        invariant
            it.seq() == s@,
            first <==> it.index() == 0,
            start == 0 || start == 1,
            start <= it.index(),
            start == 1 <==> it.index() >= 1 && s@[0] == '+',
            any <==> it.index() > start,
            all_digits(s@.subrange(start, it.index() as int)),
            value == decimal_value(s@.subrange(start, it.index() as int)),
            value <= u32::MAX,
    {
        let ghost i = it.index() as int;
        let ghost read = s@.subrange(start, i);
        assert(c == s@[i]);
        if first && c == '+' {
            proof {
                start = 1;
                assert(s@.subrange(1, 1) =~= Seq::<char>::empty());
            }
        } else {
            let ghost digits = without_plus(s@);
            assert(digits =~= s@.subrange(start, s@.len() as int));
            assert(digits[i - start] == c);
            if !('0' <= c && c <= '9') {
                return None;
            }
            let next: u64 = value * 10 + (c as u64 - 48);
            proof {
                assert(s@.subrange(start, i + 1) =~= read.push(c));
                lemma_decimal_value_push(read, c);
                assert(all_digits(read.push(c))) by {
                    assert forall|k: int| 0 <= k < read.push(c).len() implies is_digit(
                        #[trigger] read.push(c)[k],
                    ) by {
                        if k < read.len() {
                            assert(read.push(c)[k] == read[k]);
                        }
                    }
                }
            }
            if next > 0xffff_ffff {
                proof {
                    if all_digits(digits) {
                        assert(digits.take(i + 1 - start) =~= read.push(c));
                        lemma_decimal_value_prefix(digits, i + 1 - start);
                    }
                }
                return None;
            }
            value = next;
            any = true;
        }
        first = false;
    }
    assert(without_plus(s@) =~= s@.subrange(start, s@.len() as int));
    if any {
        Some(value as u32)
    } else {
        None
    }
}

/// The code of `c` with the letters `A` to `Z` taken to `a` to `z`.
pub open spec fn folded(c: char) -> int {
    if 'A' <= c && c <= 'Z' {
        c as int + 32
    } else {
        c as int
    }
}

/// Whether `a` and `b` are the same but for the case of ASCII letters.
pub open spec fn same_ignoring_case(a: Seq<char>, b: Seq<char>) -> bool {
    &&& a.len() == b.len()
    &&& forall|i: int| 0 <= i < a.len() ==> folded(#[trigger] a[i]) == folded(b[i])
}

/// The code of `c` with ASCII upper case taken to lower case.
fn fold(c: char) -> (code: u32)
    ensures
        code == folded(c),
{
    if 'A' <= c && c <= 'Z' {
        c as u32 + 32
    } else {
        c as u32
    }
}

/// Compares two words without regard to ASCII case.
pub fn eq_ignoring_case(a: &str, b: &str) -> (same: bool)
    ensures
        same == same_ignoring_case(a@, b@),
{
    broadcast use vstd::string::axiom_spec_iter, vstd::string::next_postcondition;

    let mut other = b.chars();
    for c in it: a.chars()
        invariant
            it.seq() == a@,
            it.index() <= b@.len(),
            other.remaining() == b@.skip(it.index() as int),
            forall|k: int| 0 <= k < it.index() ==> folded(#[trigger] a@[k]) == folded(b@[k]),
    {
        let ghost i = it.index() as int;
        match other.next() {
            None => {
                return false;
            },
            Some(d) => {
                assert(d == b@[i]);
                assert(b@.skip(i).drop_first() =~= b@.skip(i + 1));
                if fold(c) != fold(d) {
                    return false;
                }
            },
        }
    }
    other.next().is_none()
}

} // verus!
