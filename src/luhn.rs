//! The Luhn (mod 10) checksum over digit sequences, and the calls into the
//! `luhnr` crate that compute and generate it.
use vstd::prelude::*;

verus! {

/// Every element is a decimal digit.
pub open spec fn all_digits(s: Seq<u8>) -> bool {
    forall|i: int| 0 <= i < s.len() ==> s[i] <= 9
}

/// A digit doubled, with the two decimal digits of the product added up.
pub open spec fn luhn_double(d: u8) -> nat {
    if d < 5 {
        (2 * d) as nat
    } else {
        (2 * d - 9) as nat
    }
}

/// The Luhn sum of `s`, walked from its last digit; `double` says whether
/// that last digit is doubled. Doubling alternates from there on.
pub open spec fn luhn_sum(s: Seq<u8>, double: bool) -> nat
    decreases s.len(),
{
    if s.len() == 0 {
        0
    } else {
        (if double {
            luhn_double(s.last())
        } else {
            s.last() as nat
        }) + luhn_sum(s.drop_last(), !double)
    }
}

/// The digit that, appended to `s`, makes the Luhn sum a multiple of ten.
pub open spec fn luhn_check_digit(s: Seq<u8>) -> nat {
    let m = luhn_sum(s, true) % 10;
    if m == 0 {
        0
    } else {
        (10 - m) as nat
    }
}

/// A non-empty sequence whose last digit is the check digit of the rest.
pub open spec fn luhn_valid(s: Seq<u8>) -> bool {
    s.len() > 0 && s.last() as nat == luhn_check_digit(s.drop_last())
}

/// Relies on `luhnr::validate`: false on an empty slice, otherwise whether the
/// last digit equals the Luhn check digit that the crate computes for the
/// others. The crate looks doubled digits up in a ten-entry table, so every
/// digit must be below ten, and adds them up in a `usize`.
#[verifier::external_body]
pub(crate) fn luhn_validate(digits: &[u8]) -> (r: bool)
    requires
        all_digits(digits@),
        digits@.len() <= usize::MAX / 9,
    ensures
        r == luhn_valid(digits@),
{
    luhnr::validate(digits)
}

#[verifier::external_type_specification]
#[verifier::external_body]
pub struct ExLuhnError(luhnr::LuhnError);

/// Relies on `luhnr::generate_with_prefix`: it fails when `length` is zero,
/// when the prefix is longer than `length`, or when a prefix element is over
/// nine. Otherwise it returns `length` digits that start with the prefix
/// (whose last element the check digit replaces when the prefix fills the
/// whole length), whose other digits are drawn at random, and whose last
/// digit is the Luhn check digit of the rest. It allocates `length` bytes
/// and sums them in a `usize`.
#[verifier::external_body]
pub(crate) fn luhn_generate(length: usize, prefix: &[u8]) -> (r: Result<Vec<u8>, luhnr::LuhnError>)
    requires
        length <= isize::MAX as usize / 9,
    ensures
        r is Ok <==> (1 <= length && prefix@.len() <= length && all_digits(prefix@)),
        r matches Ok(v) ==> {
            &&& v@.len() == length
            &&& all_digits(v@)
            &&& luhn_valid(v@)
            &&& prefix@.len() < length ==> v@.subrange(0, prefix@.len() as int) == prefix@
        },
{
    luhnr::generate_with_prefix(length, prefix)
}

} // verus!
