use std::borrow::Cow;
use vstd::prelude::*;
use vstd::string::StringSliceAdditionalSpecFns;
use crate::context::Context;
use crate::utils::{
    lossy_text, null_string_message, to_string_lossy, Error, ErrorKind, Handle, LLVMBool,
    LLVMStatus, LLVMString,
};

verus! {

/// One compilation unit: the owner of a native module, made in a context that
/// it borrows for as long as it lives.
#[derive(Debug)]
pub struct Module<'a> {
    ptr: Handle,
    context: &'a Context,
}

impl<'a> View for Module<'a> {
    type V = usize;

    /// The address of the native module.
    closed spec fn view(&self) -> usize {
        self.ptr@
    }
}

/// What a verification comes to, given the status the engine returned and the
/// diagnostic it produced, `None` standing for the null pointer.
///
/// A diagnostic is never swallowed: with one, the outcome is an error that
/// carries it, whatever the status says. Without one, a zero status is
/// success, and any other is a failure for which the engine owed a message.
pub open spec fn verify_outcome(status: i32, message: Option<Seq<u8>>, r: Result<(), Error>) -> bool {
    match message {
        Some(bytes) => r is Err && r->Err_0.is(ErrorKind::LLVMError, lossy_text(bytes)),
        None => if status == 0 {
            r is Ok
        } else {
            r is Err && r->Err_0.is(ErrorKind::NullPtr, null_string_message())
        },
    }
}

impl<'a> Module<'a> {
    /// The context that this module was made in.
    pub closed spec fn context(&self) -> &Context {
        self.context
    }

    /// Takes ownership of the nameless native module at `ptr`, which the
    /// engine made in `context`.
    pub fn new(context: &'a Context, ptr: Handle) -> (module: Self)
        ensures
            module@ == ptr@,
            module.context() == context,
    {
        Self { ptr, context }
    }

    /// Takes ownership of the native module at `ptr`, which the engine made
    /// in `context` for the C string of `name`.
    pub fn with_name(context: &'a Context, name: &str, ptr: Handle) -> (module: Self)
        requires
            !name.spec_bytes().contains(0u8),
        ensures
            module@ == ptr@,
            module.context() == context,
    {
        Self { ptr, context }
    }

    /// The module's identifier, decoded from the buffer that the engine lends
    /// out for it. Only the buffer's length bounds what is read.
    pub fn name<'b>(&self, raw: &'b [u8]) -> (name: Cow<'b, str>)
        ensures
            name@ == lossy_text(raw@),
    {
        to_string_lossy(raw)
    }

    /// The bytes by which the engine is told the module's new identifier:
    /// those of `name`, with their length and without a terminator.
    pub fn set_name<'b>(&mut self, name: &'b str) -> (bytes: &'b [u8])
        ensures
            bytes@ == name.spec_bytes(),
            *final(self) == *old(self),
    {
        name.as_bytes()
    }

    /// The file that the module records as its origin, decoded from the
    /// buffer that the engine lends out for it.
    pub fn source_file<'b>(&self, raw: &'b [u8]) -> (source_file: Cow<'b, str>)
        ensures
            source_file@ == lossy_text(raw@),
    {
        to_string_lossy(raw)
    }

    /// The bytes by which the engine is told the module's new source file.
    pub fn set_source_file<'b>(&mut self, source_file: &'b str) -> (bytes: &'b [u8])
        ensures
            bytes@ == source_file.spec_bytes(),
            *final(self) == *old(self),
    {
        source_file.as_bytes()
    }

    /// Judges a verification that the engine ran in its reporting mode, from
    /// the status it returned and the diagnostic it left, if any.
    pub fn verify(&self, status: i32, message: Option<Vec<u8>>) -> (r: Result<(), Error>)
        ensures
            verify_outcome(
                status,
                match message {
                    Some(bytes) => Some(bytes@),
                    None => None,
                },
                r,
            ),
    {
        if message.is_none() && LLVMStatus::new(status).is_success() {
            return Ok(());
        }
        match LLVMString::from_raw(message) {
            Ok(diagnostic) => Err(
                match diagnostic.to_string_lossy() {
                    Cow::Borrowed(text) => Error::new(text, ErrorKind::LLVMError),
                    Cow::Owned(text) => Error::new(text.as_str(), ErrorKind::LLVMError),
                },
            ),
            Err(null) => Err(null),
        }
    }

    /// Reads the engine's answer to a request to strip the debug information:
    /// whether there was any to remove.
    pub fn strip_debug_info(&mut self, code: i32) -> (removed: bool)
        ensures
            removed == (code != 0),
            *final(self) == *old(self),
    {
        LLVMBool::new(code).to_bool()
    }

    /// Takes ownership of the native module at `ptr`, a duplicate that the
    /// engine made of this one. It lives in the same context, and owes this
    /// module nothing.
    pub fn clone(&self, ptr: Handle) -> (module: Module<'a>)
        ensures
            module@ == ptr@,
            module.context() == self.context(),
    {
        Module { ptr, context: self.context }
    }

    /// The address of the native module, for the next call into the engine.
    pub fn as_mut_ptr(&self) -> (raw: usize)
        ensures
            raw == self@,
            raw != 0,
    {
        self.ptr.addr()
    }
}

} // verus!
