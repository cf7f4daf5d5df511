use std::borrow::Cow;
use vstd::prelude::*;
use vstd::string::StringSliceAdditionalSpecFns;
use crate::utils::{borrowed_string, lossy_text, LLVMBool};
use crate::value::value_kind::ValueKind;

verus! {

/// A type of the engine, seen from a value of it.
pub struct Type<'a, T: ?Sized>(core::marker::PhantomData<&'a T>);

/// What every type of the engine can do.
pub trait TypeExt {

}

/// The address behind a value. Only this crate implements it, which closes
/// [`ValueExt`] to everyone else: whatever is a value here points at a node
/// that the engine itself handed out.
pub trait ValuePtr {
    /// The address of the node.
    spec fn addr(&self) -> usize;

    fn as_ptr(&self) -> (raw: usize)
        ensures
            raw == self.addr(),
            raw != 0,
    {
        self.as_mut_ptr()
    }

    fn as_mut_ptr(&self) -> (raw: usize)
        ensures
            raw == self.addr(),
            raw != 0,
    ;
}

/// What every value can do, whatever its kind. The engine's answers come in
/// as the codes and buffers it returned for this value.
pub trait ValueExt<'a>: ValuePtr {
    /// Reads the engine's answer to whether the value is undefined. The
    /// question is only put to a value whose kind, as the engine tells it, is
    /// [`ValueKind::Undef`].
    fn is_undefined(&self, kind: u32, code: i32) -> (b: bool)
        requires
            ValueKind::spec_from_code(kind) == Some(ValueKind::Undef),
        ensures
            b == (code != 0),
    {
        LLVMBool::new(code).is_true()
    }

    /// Reads the engine's answer to whether the value is a constant.
    fn is_constant(&self, code: i32) -> (b: bool)
        ensures
            b == (code != 0),
    {
        LLVMBool::new(code).is_true()
    }

    /// Reads the engine's answer to whether the value is a null constant.
    fn is_null(&self, code: i32) -> (b: bool)
        ensures
            b == (code != 0),
    {
        LLVMBool::new(code).is_true()
    }

    /// Whether the engine tells the value's kind as that of an instruction.
    fn is_instruction(&self, kind: u32) -> (b: bool)
        requires
            ValueKind::spec_from_code(kind) is Some,
        ensures
            b == (ValueKind::spec_from_code(kind) == Some(ValueKind::Instruction)),
    {
        self.value_kind(kind) == ValueKind::Instruction
    }

    /// Whether the engine tells the value's kind as that of a function.
    fn is_function(&self, kind: u32) -> (b: bool)
        requires
            ValueKind::spec_from_code(kind) is Some,
        ensures
            b == (ValueKind::spec_from_code(kind) == Some(ValueKind::Function)),
    {
        self.value_kind(kind) == ValueKind::Function
    }

    /// Whether the engine tells the value's kind as that of an argument.
    fn is_argument(&self, kind: u32) -> (b: bool)
        requires
            ValueKind::spec_from_code(kind) is Some,
        ensures
            b == (ValueKind::spec_from_code(kind) == Some(ValueKind::Argument)),
    {
        self.value_kind(kind) == ValueKind::Argument
    }

    /// Whether the engine tells the value's kind as that of a basic block.
    fn is_basic_block(&self, kind: u32) -> (b: bool)
        requires
            ValueKind::spec_from_code(kind) is Some,
        ensures
            b == (ValueKind::spec_from_code(kind) == Some(ValueKind::BasicBlock)),
    {
        self.value_kind(kind) == ValueKind::BasicBlock
    }

    /// Whether the engine tells the value's kind as that of inline assembly.
    fn is_inline_asm(&self, kind: u32) -> (b: bool)
        requires
            ValueKind::spec_from_code(kind) is Some,
        ensures
            b == (ValueKind::spec_from_code(kind) == Some(ValueKind::InlineAsm)),
    {
        self.value_kind(kind) == ValueKind::InlineAsm
    }

    /// Whether the engine tells the value's kind as that of metadata wrapped
    /// as a value.
    fn is_metadata(&self, kind: u32) -> (b: bool)
        requires
            ValueKind::spec_from_code(kind) is Some,
        ensures
            b == (ValueKind::spec_from_code(kind) == Some(ValueKind::MetadataAsValue)),
    {
        self.value_kind(kind) == ValueKind::MetadataAsValue
    }

    /// The value's kind, read from the code that the engine returned for it.
    /// The engine is asked each time: no kind is kept here.
    fn value_kind(&self, kind: u32) -> (k: ValueKind)
        requires
            ValueKind::spec_from_code(kind) is Some,
        ensures
            Some(k) == ValueKind::spec_from_code(kind),
    {
        match ValueKind::from_code(kind) {
            Some(k) => k,
            None => vstd::pervasive::unreached(),
        }
    }

    /// The value's name, decoded from the buffer that the engine lends out
    /// for it, or `None` where the engine returned the null pointer: the
    /// value has no name.
    fn get_name(&self, raw: Option<&'a [u8]>) -> (name: Option<Cow<'a, str>>)
        ensures
            raw is None <==> name is None,
            raw matches Some(bytes) ==> name->Some_0@ == lossy_text(bytes@),
    {
        borrowed_string(raw)
    }

    /// The bytes by which the engine is told the value's new name: those of
    /// `name`, with their length and without a terminator.
    fn set_name<'b>(&self, name: &'b str) -> (bytes: &'b [u8])
        ensures
            bytes@ == name.spec_bytes(),
    {
        name.as_bytes()
    }

    /// The two addresses by which the engine is told to put `new` wherever
    /// this value is used, this value's first; or `None`, and nothing for the
    /// engine to do, unless both kinds, as the engine tells them, are one and
    /// the same kind. Values of two kinds are never exchanged: the graph
    /// would not survive it.
    fn replace_all_uses_with(&self, new: &dyn ValuePtr, kind: u32, new_kind: u32) -> (r: Option<
        (usize, usize),
    >)
        ensures
            r is Some <==> ValueKind::spec_from_code(kind) is Some && ValueKind::spec_from_code(
                kind,
            ) == ValueKind::spec_from_code(new_kind),
            r is Some ==> r == Some((self.addr(), new.addr())),
    {
        match (ValueKind::from_code(kind), ValueKind::from_code(new_kind)) {
            (Some(own), Some(other)) => {
                if own == other {
                    Some((self.as_mut_ptr(), new.as_mut_ptr()))
                } else {
                    None
                }
            },
            _ => None,
        }
    }
}

} // verus!
