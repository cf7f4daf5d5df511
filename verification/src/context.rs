use vstd::prelude::*;
use vstd::string::StringSliceAdditionalSpecFns;
use crate::module::Module;
use crate::utils::{bool_code, Handle, LLVMBool};

verus! {

/// The root of everything the engine allocates: the one owner of a native
/// context.
///
/// A context is not `Clone`: the native resource has this owner and no other.
/// Modules borrow the context they were made in, so none of them outlives it.
#[derive(Debug)]
pub struct Context {
    ptr: Handle,
}

impl View for Context {
    type V = usize;

    /// The address of the native context.
    closed spec fn view(&self) -> usize {
        self.ptr@
    }
}

impl Context {
    /// Takes ownership of the native context at `ptr`, fresh from the engine,
    /// and returns with it the code by which the engine is now to be told
    /// whether to discard value names.
    pub fn new(ptr: Handle, discard_names: bool) -> (r: (Self, i32))
        ensures
            r.0@ == ptr@,
            r.1 == bool_code(discard_names),
    {
        let mut this = Self { ptr };
        let code = this.discard_names(discard_names);
        (this, code)
    }

    /// As [`Context::new`] with names kept.
    pub fn default(ptr: Handle) -> (r: (Self, i32))
        ensures
            r.0@ == ptr@,
            r.1 == bool_code(false),
    {
        Self::new(ptr, false)
    }

    /// The code by which the engine is told to discard value names, or to
    /// keep them. The context itself stays as it is: the flag lives in the
    /// engine.
    pub fn discard_names(&mut self, discard_names: bool) -> (code: i32)
        ensures
            code == bool_code(discard_names),
            *final(self) == *old(self),
    {
        i32::from(LLVMBool::from(discard_names))
    }

    /// Reads the engine's answer to whether it discards value names.
    pub fn will_discard_names(&self, code: i32) -> (discards: bool)
        ensures
            discards == (code != 0),
    {
        LLVMBool::new(code).to_bool()
    }

    /// The module that the engine made in this context at `ptr`, without a
    /// name.
    pub fn create_module(&self, ptr: Handle) -> (module: Module<'_>)
        ensures
            module@ == ptr@,
            module.context() == self,
    {
        Module::new(self, ptr)
    }

    /// The module that the engine made in this context at `ptr` under `name`.
    pub fn create_module_with_name(&self, name: &str, ptr: Handle) -> (module: Module<'_>)
        requires
            !name.spec_bytes().contains(0u8),
        ensures
            module@ == ptr@,
            module.context() == self,
    {
        Module::with_name(self, name, ptr)
    }

    /// The address of the native context, for the next call into the engine.
    pub fn as_mut_ptr(&self) -> (raw: usize)
        ensures
            raw == self@,
            raw != 0,
    {
        self.ptr.addr()
    }
}

} // verus!
