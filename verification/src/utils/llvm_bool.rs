use vstd::prelude::*;

verus! {

/// A boolean as the engine encodes it: zero is false, every other code is
/// true. The engine promises no canonical code for true.
///
/// This is not a status: for those see [`LLVMStatus`].
#[derive(Debug, Copy, Clone, PartialEq)]
pub struct LLVMBool(bool);

impl View for LLVMBool {
    type V = bool;

    closed spec fn view(&self) -> bool {
        self.0
    }
}

/// The code that stands for `flag` when it is handed to the engine.
pub open spec fn bool_code(flag: bool) -> i32 {
    if flag {
        1
    } else {
        0
    }
}

impl LLVMBool {
    pub fn new(code: i32) -> (b: Self)
        ensures
            b@ == (code != 0),
    {
        match code {
            0 => Self(false),
            _ => Self(true),
        }
    }

    pub fn to_bool(self) -> (b: bool)
        ensures
            b == self@,
    {
        self.0
    }

    pub fn is_true(self) -> (b: bool)
        ensures
            b == self@,
    {
        self.0
    }

    pub fn is_false(self) -> (b: bool)
        ensures
            b == !self@,
    {
        !self.is_true()
    }
}

impl From<i32> for LLVMBool {
    fn from(code: i32) -> (b: Self)
        ensures
            b@ == (code != 0),
    {
        Self::new(code)
    }
}

impl vstd::std_specs::convert::FromSpecImpl<i32> for LLVMBool {
    open spec fn obeys_from_spec() -> bool {
        true
    }

    closed spec fn from_spec(code: i32) -> Self {
        LLVMBool(code != 0)
    }
}

impl From<bool> for LLVMBool {
    fn from(flag: bool) -> (b: Self)
        ensures
            b@ == flag,
    {
        Self(flag)
    }
}

impl vstd::std_specs::convert::FromSpecImpl<bool> for LLVMBool {
    open spec fn obeys_from_spec() -> bool {
        true
    }

    closed spec fn from_spec(flag: bool) -> Self {
        LLVMBool(flag)
    }
}

impl From<LLVMBool> for i32 {
    fn from(b: LLVMBool) -> (code: i32)
        ensures
            code == bool_code(b@),
    {
        if b.0 {
            1
        } else {
            0
        }
    }
}

impl vstd::std_specs::convert::FromSpecImpl<LLVMBool> for i32 {
    open spec fn obeys_from_spec() -> bool {
        true
    }

    open spec fn from_spec(b: LLVMBool) -> i32 {
        bool_code(b@)
    }
}

impl From<LLVMBool> for bool {
    fn from(b: LLVMBool) -> (flag: bool)
        ensures
            flag == b@,
    {
        b.0
    }
}

impl vstd::std_specs::convert::FromSpecImpl<LLVMBool> for bool {
    open spec fn obeys_from_spec() -> bool {
        true
    }

    open spec fn from_spec(b: LLVMBool) -> bool {
        b@
    }
}

/// A flag handed to the engine as a code and read back unchanged decodes to
/// the flag that was sent.
pub proof fn lemma_bool_code_round_trip(flag: bool)
    ensures
        (bool_code(flag) != 0) == flag,
{
}

/// The reason the engine gave for a failure: a status code other than zero.
#[derive(Debug, Copy, Clone, PartialEq)]
pub struct FailureReason(u32);

impl View for FailureReason {
    type V = u32;

    closed spec fn view(&self) -> u32 {
        self.0
    }
}

impl FailureReason {
    #[verifier::type_invariant]
    spec fn nonzero(self) -> bool {
        self.0 != 0
    }

    /// The reason with the given code, if the code can be one: zero is
    /// success and names no reason.
    pub fn new(code: u32) -> (r: Option<Self>)
        ensures
            r is Some <==> code != 0,
            r is Some ==> r->Some_0@ == code,
    {
        if code == 0 {
            None
        } else {
            Some(Self(code))
        }
    }

    pub fn get(self) -> (code: u32)
        ensures
            code == self@,
            code != 0,
    {
        proof {
            use_type_invariant(&self);
        }
        self.0
    }
}

/// A status as the engine encodes it: zero is success, and every other code
/// is a failure whose reason is the code itself.
///
/// A reason is never read as a boolean: no conversion leads from here to
/// [`LLVMBool`] or back.
#[derive(Debug, Copy, Clone, PartialEq)]
pub enum LLVMStatus {
    Success,
    Failure(FailureReason),
}

impl LLVMStatus {
    /// Reads a raw status code. The bits of a failing code are kept as its
    /// reason.
    pub fn new(code: i32) -> (s: Self)
        ensures
            code == 0 <==> s is Success,
            s matches LLVMStatus::Failure(reason) ==> reason@ == code as u32,
    {
        let bits: u32 = #[verifier::truncate] (code as u32);
        assert(code != 0 ==> (code as u32) != 0) by (bit_vector);
        match FailureReason::new(bits) {
            Some(reason) => LLVMStatus::Failure(reason),
            None => LLVMStatus::Success,
        }
    }

    pub fn is_success(self) -> (b: bool)
        ensures
            b == (self is Success),
    {
        match self {
            LLVMStatus::Success => true,
            LLVMStatus::Failure(_) => false,
        }
    }
}

} // verus!
