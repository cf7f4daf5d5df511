use vstd::prelude::*;
use vstd::std_specs::cmp::PartialEqSpecImpl;

verus! {

/// What went wrong.
#[derive(Debug, Copy, Clone, PartialEq, Eq, Structural)]
pub enum ErrorKind {
    /// The engine found a fault and said so in a message of its own.
    LLVMError,
    /// The engine returned a null pointer where a handle or an owned buffer
    /// was owed.
    NullPtr,
}

/// A failure of the layer: its kind and a message for people.
///
/// Two errors are equal when kind and message are.
#[derive(Debug, Clone, Eq)]
pub struct Error {
    message: String,
    kind: ErrorKind,
}

impl Error {
    pub closed spec fn spec_kind(&self) -> ErrorKind {
        self.kind
    }

    pub closed spec fn spec_message(&self) -> Seq<char> {
        self.message@
    }

    /// Whether this is the error of the given kind with the given message.
    pub open spec fn is(&self, kind: ErrorKind, message: Seq<char>) -> bool {
        self.spec_kind() == kind && self.spec_message() == message
    }

    pub fn new(message: &str, kind: ErrorKind) -> (e: Self)
        ensures
            e.is(kind, message@),
    {
        Self { message: message.to_owned(), kind }
    }

    pub fn kind(&self) -> (kind: ErrorKind)
        ensures
            kind == self.spec_kind(),
    {
        self.kind
    }

    pub fn message(&self) -> (message: &str)
        ensures
            message@ == self.spec_message(),
    {
        self.message.as_str()
    }
}

impl PartialEq for Error {
    fn eq(&self, other: &Self) -> (equal: bool) {
        self.kind == other.kind && self.message == other.message
    }
}

impl PartialEqSpecImpl for Error {
    open spec fn obeys_eq_spec() -> bool {
        true
    }

    open spec fn eq_spec(&self, other: &Self) -> bool {
        self.spec_kind() == other.spec_kind() && self.spec_message() == other.spec_message()
    }
}

} // verus!
