//! Properties that relate the identifier's operations to one another.
use vstd::prelude::*;

use crate::decimal::{
    digits_of,
    digits_value,
    is_text_of,
    lemma_digits_of_value,
    lemma_text_value,
    parsed_u32,
};
use crate::id::{id_digits_of_text, valid_id_digits, IdType, ID_SIZE};
use crate::luhn::{all_digits, luhn_valid};

verus! {

/// Ten to the power `n`.
pub open spec fn pow10(n: nat) -> nat
    decreases n,
{
    if n == 0 {
        1
    } else {
        10 * pow10((n - 1) as nat)
    }
}

/// A digit sequence writes a number below its leading digit plus one, times
/// ten to the power of the number of digits after it.
pub proof fn lemma_value_below(d: Seq<u8>)
    requires
        d.len() > 0,
        all_digits(d),
    ensures
        digits_value(d) < (d[0] + 1) * pow10((d.len() - 1) as nat),
    decreases d.len(),
{
    let v = digits_value(d);
    let k = (d[0] + 1) as nat;
    let m = pow10((d.len() - 1) as nat);
    if d.len() > 1 {
        let p = d.drop_last();
        assert(p[0] == d[0]);
        lemma_value_below(p);
        let a = digits_value(p);
        let b = d.last() as nat;
        let q = pow10((p.len() - 1) as nat);
        assert(v < k * m) by (nonlinear_arith)
            requires
                v == a * 10 + b,
                a < k * q,
                b <= 9,
                m == 10 * q,
        ;
    } else {
        assert(digits_value(d.drop_last()) == 0);
        assert(v == d[0]);
        assert(m == 1);
        assert(v < k * m) by (nonlinear_arith)
            requires
                v + 1 == k,
                m == 1,
        ;
    }
}

/// Reading back the decimal digits of a number gives the number.
pub proof fn lemma_value_of_digits(n: nat)
    ensures
        digits_value(digits_of(n)) == n,
    decreases n,
{
    if n > 0 {
        lemma_value_of_digits(n / 10);
        assert(digits_of(n).drop_last() =~= digits_of(n / 10));
    }
}

/// The text of a valid identifier reads as a `u32` that writes its digits.
proof fn lemma_valid_text_parses(d: Seq<u8>, t: Seq<char>)
    requires
        valid_id_digits(d),
        is_text_of(t, d),
    ensures
        digits_value(d) <= u32::MAX,
        parsed_u32(t) == Some(digits_value(d) as u32),
        digits_of(digits_value(d)) == d,
{
    lemma_text_value(t, d);
    lemma_value_below(d);
    lemma_digits_of_value(d);
    reveal_with_fuel(pow10, 10);
    assert(pow10(9) == 1000000000);
    let v = digits_value(d);
    let k = (d[0] + 1) as nat;
    assert(v < 3000000000) by (nonlinear_arith)
        requires
            v < k * 1000000000,
            k <= 3,
    ;
    assert(t[0] != '+');
    assert(forall|i: int| 0 <= i < t.len() ==> crate::decimal::is_ascii_digit(t[i]));
}

/// An identifier built from an integer, written as text and read back, gives
/// the same integer and the same digits.
pub proof fn lemma_integer_text_round_trip(n: u32, t: Seq<char>)
    requires
        valid_id_digits(digits_of(n as nat)),
        is_text_of(t, digits_of(n as nat)),
    ensures
        parsed_u32(t) == Some(n),
        id_digits_of_text(t) == Some(digits_of(n as nat)),
{
    lemma_value_of_digits(n as nat);
    lemma_valid_text_parses(digits_of(n as nat), t);
}

/// The digits of any valid identifier, generated ones included, are accepted
/// again as they stand, and its text reads back to the same digits.
pub proof fn lemma_valid_digits_round_trip(d: Seq<u8>, t: Seq<char>)
    requires
        valid_id_digits(d),
        is_text_of(t, d),
    ensures
        valid_id_digits(d),
        id_digits_of_text(t) == Some(d),
{
    lemma_valid_text_parses(d, t);
}

/// A sequence that is not ten digits long is never an identifier.
pub proof fn lemma_wrong_length_rejected(s: Seq<u8>)
    requires
        s.len() != ID_SIZE,
    ensures
        !valid_id_digits(s),
{
}

/// A ten-digit sequence that passes the Luhn check but leads with neither
/// category prefix is not an identifier.
pub proof fn lemma_bad_prefix_rejected(s: Seq<u8>)
    requires
        s.len() == ID_SIZE,
        luhn_valid(s),
        s[0] != IdType::Citizen.spec_prefix(),
        s[0] != IdType::Resident.spec_prefix(),
    ensures
        !valid_id_digits(s),
{
}

/// A ten-digit sequence with a category prefix that fails the Luhn check is
/// not an identifier.
pub proof fn lemma_bad_checksum_rejected(s: Seq<u8>)
    requires
        s.len() == ID_SIZE,
        s[0] == IdType::Citizen.spec_prefix() || s[0] == IdType::Resident.spec_prefix(),
        !luhn_valid(s),
    ensures
        !valid_id_digits(s),
{
}

/// Raising the last digit of a valid identifier by one, modulo ten, breaks
/// its checksum.
pub proof fn lemma_changed_check_digit_rejected(d: Seq<u8>)
    requires
        valid_id_digits(d),
    ensures
        !luhn_valid(d.update(9, ((d[9] + 1) % 10) as u8)),
        !valid_id_digits(d.update(9, ((d[9] + 1) % 10) as u8)),
{
    let e = d.update(9, ((d[9] + 1) % 10) as u8);
    assert(e.drop_last() =~= d.drop_last());
}

/// Two categories with the same prefix are the same category: classifying a
/// generated identifier gives back the category it was generated for.
pub proof fn lemma_prefix_names_category(a: IdType, b: IdType)
    requires
        a.spec_prefix() == b.spec_prefix(),
    ensures
        a == b,
{
}

} // verus!
