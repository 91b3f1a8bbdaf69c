//! The identifier type, its holder categories, and its conversions.
use vstd::prelude::*;

use crate::decimal::{digits_of, is_text_of, parse_u32, parsed_u32};
use crate::luhn::{all_digits, luhn_generate, luhn_valid, luhn_validate};

verus! {

/// Number of digits in an identifier.
pub const ID_SIZE: usize = 10;

/// Leading digit of a citizen's identifier.
pub const CITIZEN_PREFIX: u8 = 1;

/// Leading digit of a resident's identifier.
pub const RESIDENT_PREFIX: u8 = 2;

/// The category of an identifier's holder.
#[derive(PartialEq, Eq, Structural, Debug, Clone, Copy)]
pub enum IdType {
    Citizen,
    Resident,
}

impl IdType {
    /// The leading digit of identifiers of this category.
    pub open spec fn spec_prefix(self) -> u8 {
        match self {
            IdType::Citizen => CITIZEN_PREFIX,
            IdType::Resident => RESIDENT_PREFIX,
        }
    }

    #[verifier::when_used_as_spec(spec_prefix)]
    pub fn prefix(self) -> (r: u8)
        ensures
            r == self.spec_prefix(),
    {
        match self {
            IdType::Citizen => CITIZEN_PREFIX,
            IdType::Resident => RESIDENT_PREFIX,
        }
    }
}

/// The one way an input fails to be an identifier.
#[derive(PartialEq, Eq, Structural, Debug, Clone, Copy)]
pub enum ParseError {
    InvalidId,
}

/// The digits of a valid identifier: ten decimal digits, the first one a
/// category prefix, the last one the Luhn check digit of the rest.
pub open spec fn valid_id_digits(s: Seq<u8>) -> bool {
    &&& s.len() == ID_SIZE
    &&& all_digits(s)
    &&& (s[0] == CITIZEN_PREFIX || s[0] == RESIDENT_PREFIX)
    &&& luhn_valid(s)
}

/// The digits that text stands for as an identifier, when it stands for one:
/// the text is read as a `u32`, whose decimal digits must be valid.
pub open spec fn id_digits_of_text(t: Seq<char>) -> Option<Seq<u8>> {
    match parsed_u32(t) {
        Some(n) => if valid_id_digits(digits_of(n as nat)) {
            Some(digits_of(n as nat))
        } else {
            None
        },
        None => None,
    }
}

/// A national identifier, as its decimal digits, most significant first.
#[derive(Debug)]
pub struct Id {
    pub digits: Vec<u8>,
}

impl Id {
    /// The identifier's digits are those of a valid identifier.
    pub open spec fn wf(&self) -> bool {
        valid_id_digits(self.digits@)
    }

    /// A random valid identifier of the given category.
    pub fn new(id_type: &IdType) -> (r: Id)
        ensures
            r.wf(),
            r.digits@[0] == id_type.spec_prefix(),
    {
        let prefix: Vec<u8> = vec![id_type.prefix()];
        let digits = luhn_generate(ID_SIZE, prefix.as_slice()).unwrap();
        assert(digits@.subrange(0, 1)[0] == digits@[0]);
        Id { digits }
    }

    /// Whether the digits are those of a valid identifier. Elements over nine
    /// are refused before the checksum is computed.
    fn validate(digits: &[u8]) -> (r: bool)
        ensures
            r == valid_id_digits(digits@),
    {
        let mut i: usize = 0;
        while i < digits.len()
            invariant
                i <= digits@.len(),
                forall|j: int| 0 <= j < i ==> digits@[j] <= 9,
            decreases digits@.len() - i,
        {
            if digits[i] > 9 {
                return false;
            }
            i = i + 1;
        }
        digits.len() == ID_SIZE && (digits[0] == CITIZEN_PREFIX || digits[0] == RESIDENT_PREFIX)
            && luhn_validate(digits)
    }

    /// The category that the leading digit names.
    pub fn get_type(&self) -> (r: IdType)
        requires
            self.wf(),
        ensures
            r.spec_prefix() == self.digits@[0],
    {
        if self.digits[0] == CITIZEN_PREFIX {
            IdType::Citizen
        } else {
            IdType::Resident
        }
    }

    /// The identifier's decimal text: one ASCII digit per digit, in order.
    pub fn to_string(&self) -> (r: String)
        requires
            self.wf(),
        ensures
            is_text_of(r@, self.digits@),
            r@.len() == ID_SIZE,
    {
        let mut s = String::new();
        let mut i: usize = 0;
        while i < self.digits.len()
            invariant
                self.wf(),
                i <= self.digits@.len(),
                is_text_of(s@, self.digits@.subrange(0, i as int)),
            decreases self.digits@.len() - i,
        {
            let d = self.digits[i];
            s.append(digit_text(d));
            assert(self.digits@.subrange(0, i + 1) =~= self.digits@.subrange(0, i as int).push(d));
            i = i + 1;
        }
        assert(self.digits@.subrange(0, self.digits@.len() as int) =~= self.digits@);
        s
    }
}

impl TryFrom<Vec<u8>> for Id {
    type Error = ParseError;

    /// Accepts exactly the digit sequences of valid identifiers.
    fn try_from(digits: Vec<u8>) -> (r: Result<Id, ParseError>)
        ensures
            r is Ok <==> valid_id_digits(digits@),
            r matches Ok(id) ==> id.digits@ == digits@,
    {
        if Id::validate(digits.as_slice()) {
            Ok(Id { digits })
        } else {
            Err(ParseError::InvalidId)
        }
    }
}

// An `Id` owns a `Vec`, which no spec function can build, so what each
// `try_from` below and above returns is stated by its own `ensures` instead.
impl vstd::std_specs::convert::TryFromSpecImpl<Vec<u8>> for Id {
    open spec fn obeys_try_from_spec() -> bool {
        false
    }

    open spec fn try_from_spec(v: Vec<u8>) -> Result<Id, ParseError> {
        arbitrary()
    }
}

impl vstd::std_specs::convert::TryFromSpecImpl<u32> for Id {
    open spec fn obeys_try_from_spec() -> bool {
        false
    }

    open spec fn try_from_spec(v: u32) -> Result<Id, ParseError> {
        arbitrary()
    }
}

impl TryFrom<u32> for Id {
    type Error = ParseError;

    /// Accepts a number whose decimal digits are those of a valid identifier.
    fn try_from(id: u32) -> (r: Result<Id, ParseError>)
        ensures
            r is Ok <==> valid_id_digits(digits_of(id as nat)),
            r matches Ok(i) ==> i.digits@ == digits_of(id as nat),
    {
        let mut n: u32 = id;
        let mut digits: Vec<u8> = Vec::with_capacity(ID_SIZE);
        while n > 0
            invariant
                digits_of(n as nat) + digits@ == digits_of(id as nat),
            decreases n,
        {
            let d = (n % 10) as u8;
            let ghost before = digits@;
            digits.insert(0, d);
            assert(digits_of((n / 10) as nat) + digits@ =~= digits_of((n / 10) as nat).push(d)
                + before);
            n = n / 10;
        }
        assert(digits_of(0) + digits@ =~= digits@);
        if Id::validate(digits.as_slice()) {
            Ok(Id { digits })
        } else {
            Err(ParseError::InvalidId)
        }
    }
}

impl core::str::FromStr for Id {
    type Err = ParseError;

    /// Reads the text as a `u32` and accepts it when its decimal digits are
    /// those of a valid identifier.
    fn from_str(s: &str) -> (r: Result<Id, ParseError>)
        ensures
            match id_digits_of_text(s@) {
                Some(d) => r matches Ok(id) && id.digits@ == d,
                None => r is Err,
            },
    {
        match parse_u32(s) {
            Some(n) => Id::try_from(n),
            None => Err(ParseError::InvalidId),
        }
    }
}

impl PartialEq for Id {
    fn eq(&self, other: &Id) -> (r: bool)
        ensures
            r == (self.digits@ == other.digits@),
    {
        if self.digits.len() != other.digits.len() {
            return false;
        }
        let mut i: usize = 0;
        while i < self.digits.len()
            invariant
                self.digits@.len() == other.digits@.len(),
                i <= self.digits@.len(),
                forall|j: int| 0 <= j < i ==> self.digits@[j] == other.digits@[j],
            decreases self.digits@.len() - i,
        {
            if self.digits[i] != other.digits[i] {
                return false;
            }
            i = i + 1;
        }
        assert(self.digits@ =~= other.digits@);
        true
    }
}

impl vstd::std_specs::cmp::PartialEqSpecImpl for Id {
    open spec fn obeys_eq_spec() -> bool {
        true
    }

    open spec fn eq_spec(&self, other: &Id) -> bool {
        self.digits@ == other.digits@
    }
}

impl Eq for Id {

}

impl Clone for Id {
    /// A copy that owns its own digits.
    fn clone(&self) -> (r: Id)
        ensures
            r.digits@ == self.digits@,
    {
        Id { digits: self.digits.clone() }
    }
}

/// The one-character text of a decimal digit.
fn digit_text(d: u8) -> (r: &'static str)
    requires
        d <= 9,
    ensures
        is_text_of(r@, seq![d]),
{
    match d {
        0 => {
            proof { reveal_strlit("0"); }
            "0"
        },
        1 => {
            proof { reveal_strlit("1"); }
            "1"
        },
        2 => {
            proof { reveal_strlit("2"); }
            "2"
        },
        3 => {
            proof { reveal_strlit("3"); }
            "3"
        },
        4 => {
            proof { reveal_strlit("4"); }
            "4"
        },
        5 => {
            proof { reveal_strlit("5"); }
            "5"
        },
        6 => {
            proof { reveal_strlit("6"); }
            "6"
        },
        7 => {
            proof { reveal_strlit("7"); }
            "7"
        },
        8 => {
            proof { reveal_strlit("8"); }
            "8"
        },
        _ => {
            proof { reveal_strlit("9"); }
            "9"
        },
    }
}

} // verus!
