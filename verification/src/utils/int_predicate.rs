use vstd::prelude::*;

verus! {

/// How two integers are compared: the engine's integer predicates, one for
/// one.
#[derive(Debug, Copy, Clone, PartialEq, Eq, Structural, PartialOrd, Ord, Hash)]
pub enum IntegerPredicate {
    Equal,
    NotEqual,
    UnsignedGreaterThan,
    UnsignedGreaterThanEqual,
    UnsignedLessThan,
    UnsignedLessThanEqual,
    SignedGreaterThan,
    SignedGreaterThanEqual,
    SignedLessThan,
    SignedLessThanEqual,
}

impl IntegerPredicate {
    /// The code that the engine writes for this predicate.
    pub open spec fn spec_code(self) -> u32 {
        match self {
            IntegerPredicate::Equal => 32,
            IntegerPredicate::NotEqual => 33,
            IntegerPredicate::UnsignedGreaterThan => 34,
            IntegerPredicate::UnsignedGreaterThanEqual => 35,
            IntegerPredicate::UnsignedLessThan => 36,
            IntegerPredicate::UnsignedLessThanEqual => 37,
            IntegerPredicate::SignedGreaterThan => 38,
            IntegerPredicate::SignedGreaterThanEqual => 39,
            IntegerPredicate::SignedLessThan => 40,
            IntegerPredicate::SignedLessThanEqual => 41,
        }
    }

    /// The variant that the engine writes as `code`, if there is one.
    pub open spec fn spec_from_code(code: u32) -> Option<Self> {
        if code == 32 {
            Some(IntegerPredicate::Equal)
        } else if code == 33 {
            Some(IntegerPredicate::NotEqual)
        } else if code == 34 {
            Some(IntegerPredicate::UnsignedGreaterThan)
        } else if code == 35 {
            Some(IntegerPredicate::UnsignedGreaterThanEqual)
        } else if code == 36 {
            Some(IntegerPredicate::UnsignedLessThan)
        } else if code == 37 {
            Some(IntegerPredicate::UnsignedLessThanEqual)
        } else if code == 38 {
            Some(IntegerPredicate::SignedGreaterThan)
        } else if code == 39 {
            Some(IntegerPredicate::SignedGreaterThanEqual)
        } else if code == 40 {
            Some(IntegerPredicate::SignedLessThan)
        } else if code == 41 {
            Some(IntegerPredicate::SignedLessThanEqual)
        } else {
            None
        }
    }

    #[verifier::when_used_as_spec(spec_code)]
    pub fn code(self) -> (code: u32)
        ensures
            code == self.spec_code(),
    {
        match self {
            IntegerPredicate::Equal => 32,
            IntegerPredicate::NotEqual => 33,
            IntegerPredicate::UnsignedGreaterThan => 34,
            IntegerPredicate::UnsignedGreaterThanEqual => 35,
            IntegerPredicate::UnsignedLessThan => 36,
            IntegerPredicate::UnsignedLessThanEqual => 37,
            IntegerPredicate::SignedGreaterThan => 38,
            IntegerPredicate::SignedGreaterThanEqual => 39,
            IntegerPredicate::SignedLessThan => 40,
            IntegerPredicate::SignedLessThanEqual => 41,
        }
    }

    /// Reads a code of the engine. A code that the engine does not define
    /// gives `None`.
    pub fn from_code(code: u32) -> (r: Option<Self>)
        ensures
            r == Self::spec_from_code(code),
    {
        match code {
            32 => Some(IntegerPredicate::Equal),
            33 => Some(IntegerPredicate::NotEqual),
            34 => Some(IntegerPredicate::UnsignedGreaterThan),
            35 => Some(IntegerPredicate::UnsignedGreaterThanEqual),
            36 => Some(IntegerPredicate::UnsignedLessThan),
            37 => Some(IntegerPredicate::UnsignedLessThanEqual),
            38 => Some(IntegerPredicate::SignedGreaterThan),
            39 => Some(IntegerPredicate::SignedGreaterThanEqual),
            40 => Some(IntegerPredicate::SignedLessThan),
            41 => Some(IntegerPredicate::SignedLessThanEqual),
            _ => None,
        }
    }
}

/// Every predicate has a code of its own, from which it is read back.
pub proof fn lemma_predicate_code_round_trip(value: IntegerPredicate)
    ensures
        IntegerPredicate::spec_from_code(value.spec_code()) == Some(value),
        32 <= value.spec_code() <= 41,
{
}

/// The engine's codes for predicates are those from 32 to 41, and each is the
/// code of the predicate that it is read as.
pub proof fn lemma_predicate_codes(code: u32)
    ensures
        IntegerPredicate::spec_from_code(code) is Some <==> 32 <= code <= 41,
        IntegerPredicate::spec_from_code(code) matches Some(value) ==> value.spec_code() == code,
{
}

} // verus!
