use vstd::prelude::*;
use super::error::{Error, ErrorKind};

verus! {

/// The address of a native resource, known not to be null.
///
/// A raw pointer that the engine returns is carried here as the machine
/// address it holds; zero is the null pointer, and no handle holds it.
#[derive(Debug, Copy, Clone, PartialEq, Eq)]
pub struct Handle {
    addr: usize,
}

impl View for Handle {
    type V = usize;

    closed spec fn view(&self) -> usize {
        self.addr
    }
}

impl Handle {
    #[verifier::type_invariant]
    spec fn not_null(self) -> bool {
        self.addr != 0
    }

    /// The handle at `raw`, unless `raw` is the null pointer.
    pub fn new(raw: usize) -> (h: Option<Self>)
        ensures
            h is Some <==> raw != 0,
            h is Some ==> h->Some_0@ == raw,
    {
        if raw == 0 {
            None
        } else {
            Some(Self { addr: raw })
        }
    }

    /// The address, for the next call into the engine.
    pub fn addr(&self) -> (raw: usize)
        ensures
            raw == self@,
            raw != 0,
    {
        proof {
            use_type_invariant(self);
        }
        self.addr
    }
}

/// Turns a raw pointer into a handle, or into a [`ErrorKind::NullPtr`] error
/// that carries `message` if the pointer is null.
pub fn to_non_nul(raw: usize, message: &str) -> (r: Result<Handle, Error>)
    ensures
        raw != 0 ==> r is Ok && r->Ok_0@ == raw,
        raw == 0 ==> r is Err && r->Err_0.is(ErrorKind::NullPtr, message@),
{
    match Handle::new(raw) {
        Some(handle) => Ok(handle),
        None => Err(Error::new(message, ErrorKind::NullPtr)),
    }
}

} // verus!
