//! Decimal digits of integers, and decimal text.
use vstd::prelude::*;

use crate::luhn::all_digits;

verus! {

/// The decimal digits of `n`, most significant first, with no leading zero;
/// zero has none.
pub open spec fn digits_of(n: nat) -> Seq<u8>
    decreases n,
{
    if n == 0 {
        Seq::empty()
    } else {
        digits_of(n / 10).push((n % 10) as u8)
    }
}

/// The number that a digit sequence writes in base ten.
pub open spec fn digits_value(d: Seq<u8>) -> nat
    decreases d.len(),
{
    if d.len() == 0 {
        0
    } else {
        digits_value(d.drop_last()) * 10 + d.last() as nat
    }
}

/// An ASCII decimal digit.
pub open spec fn is_ascii_digit(c: char) -> bool {
    '0' <= c <= '9'
}

/// The value of an ASCII decimal digit.
pub open spec fn char_digit(c: char) -> int {
    c as int - '0' as int
}

/// `t` writes the digits `d` one character each, in order.
pub open spec fn is_text_of(t: Seq<char>, d: Seq<u8>) -> bool {
    &&& t.len() == d.len()
    &&& forall|i: int| #![trigger t[i]] 0 <= i < t.len() ==> is_ascii_digit(t[i]) && char_digit(t[i]) == d[i] as int
}

/// The number that a string of ASCII decimal digits writes.
pub open spec fn text_value(t: Seq<char>) -> int
    decreases t.len(),
{
    if t.len() == 0 {
        0
    } else {
        text_value(t.drop_last()) * 10 + char_digit(t.last())
    }
}

/// What parsing text as a `u32` gives: an optional `+`, then one or more ASCII
/// decimal digits whose value fits in 32 bits; anything else is refused.
pub open spec fn parsed_u32(t: Seq<char>) -> Option<u32> {
    let body = if t.len() > 0 && t[0] == '+' {
        t.drop_first()
    } else {
        t
    };
    if body.len() > 0 && (forall|i: int| 0 <= i < body.len() ==> is_ascii_digit(body[i]))
        && text_value(body) <= u32::MAX {
        Some(text_value(body) as u32)
    } else {
        None
    }
}

/// Relies on `u32`'s `FromStr` (`str::parse::<u32>`), which accepts an
/// optional `+` followed by decimal digits only, and refuses a value over
/// `u32::MAX`.
#[verifier::external_body]
pub(crate) fn parse_u32(s: &str) -> (r: Option<u32>)
    ensures
        r == parsed_u32(s@),
{
    s.parse::<u32>().ok()
}

/// A number that has a nonzero leading digit is not zero.
pub proof fn lemma_value_positive(d: Seq<u8>)
    requires
        d.len() > 0,
        d[0] != 0,
    ensures
        digits_value(d) > 0,
    decreases d.len(),
{
    if d.len() > 1 {
        lemma_value_positive(d.drop_last());
    }
}

/// Decomposing the value of a digit sequence without leading zero gives the
/// sequence back.
pub proof fn lemma_digits_of_value(d: Seq<u8>)
    requires
        all_digits(d),
        d.len() > 0 ==> d[0] != 0,
    ensures
        digits_of(digits_value(d)) == d,
    decreases d.len(),
{
    if d.len() > 0 {
        let p = d.drop_last();
        lemma_digits_of_value(p);
        lemma_value_positive(d);
        let v = digits_value(d);
        let a = digits_value(p);
        let b = d.last() as nat;
        assert(v == a * 10 + b);
        assert(v / 10 == a && v % 10 == b) by (nonlinear_arith)
            requires
                v == a * 10 + b,
                b < 10,
        ;
        assert(p.push(d.last()) =~= d);
    }
}

/// Text that writes a digit sequence has the value that the sequence writes.
pub proof fn lemma_text_value(t: Seq<char>, d: Seq<u8>)
    requires
        is_text_of(t, d),
    ensures
        text_value(t) == digits_value(d),
    decreases d.len(),
{
    if d.len() > 0 {
        lemma_text_value(t.drop_last(), d.drop_last());
    }
}

} // verus!
