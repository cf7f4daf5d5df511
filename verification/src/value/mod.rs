//! Borrowed references into the engine's graph of values.
mod value_ext;
mod value_kind;

pub use value_ext::{Type, TypeExt, ValueExt};
pub use value_kind::{lemma_kind_code_round_trip, lemma_kind_codes, ValueKind};

use vstd::prelude::*;
use crate::module::Module;
use crate::utils::Handle;
use value_ext::ValuePtr;

verus! {

/// A reference to a node of the graph that a module owns. It owns nothing:
/// any number of values may point at one node, and none of them outlives the
/// borrow of the module that it was taken from.
///
/// `T` says which kind of node the value is documented to be. Nothing at run
/// time stands for it: the engine alone knows the kind for certain.
pub struct Value<'a, T: ?Sized> {
    ptr: Handle,
    __type: core::marker::PhantomData<&'a T>,
}

impl<'a, T: ?Sized> Value<'a, T> {
    /// The value at `ptr`, a node that the engine handed out from the graph
    /// of `module`.
    pub fn new(module: &'a Module<'_>, ptr: Handle) -> (value: Self)
        ensures
            value.addr() == ptr@,
    {
        Value { ptr, __type: core::marker::PhantomData }
    }

    /// The address of the node, for the next call into the engine.
    pub fn as_mut_ptr(&self) -> (raw: usize)
        ensures
            raw == self.addr(),
            raw != 0,
    {
        self.ptr.addr()
    }
}

impl<'a, T: ?Sized> ValueExt<'a> for Value<'a, T> {

}

impl<'a, T: ?Sized> ValuePtr for Value<'a, T> {
    closed spec fn addr(&self) -> usize {
        self.ptr@
    }

    fn as_mut_ptr(&self) -> (raw: usize) {
        self.ptr.addr()
    }
}

} // verus!
