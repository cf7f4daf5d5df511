use vstd::prelude::*;

verus! {

/// The kind of a node of the engine's graph, as the engine itself tells it.
#[derive(Debug, Copy, Clone, PartialEq, Eq, Structural, Hash)]
pub enum ValueKind {
    Argument,
    BasicBlock,
    MemoryUse,
    MemoryDef,
    MemoryPhi,
    Function,
    GlobalAlias,
    GlobalIFunc,
    GlobalVariable,
    BlockAddress,
    ConstantExpr,
    ConstantArray,
    ConstantStruct,
    ConstantVector,
    Undef,
    ConstantAggregateZero,
    ConstantDataArray,
    ConstantDataVector,
    ConstantInt,
    ConstantFP,
    ConstantPointerNull,
    ConstantTokenNone,
    MetadataAsValue,
    InlineAsm,
    Instruction,
    Poison,
}

impl ValueKind {
    /// The code that the engine writes for this kind.
    pub open spec fn spec_code(self) -> u32 {
        match self {
            ValueKind::Argument => 0,
            ValueKind::BasicBlock => 1,
            ValueKind::MemoryUse => 2,
            ValueKind::MemoryDef => 3,
            ValueKind::MemoryPhi => 4,
            ValueKind::Function => 5,
            ValueKind::GlobalAlias => 6,
            ValueKind::GlobalIFunc => 7,
            ValueKind::GlobalVariable => 8,
            ValueKind::BlockAddress => 9,
            ValueKind::ConstantExpr => 10,
            ValueKind::ConstantArray => 11,
            ValueKind::ConstantStruct => 12,
            ValueKind::ConstantVector => 13,
            ValueKind::Undef => 14,
            ValueKind::ConstantAggregateZero => 15,
            ValueKind::ConstantDataArray => 16,
            ValueKind::ConstantDataVector => 17,
            ValueKind::ConstantInt => 18,
            ValueKind::ConstantFP => 19,
            ValueKind::ConstantPointerNull => 20,
            ValueKind::ConstantTokenNone => 21,
            ValueKind::MetadataAsValue => 22,
            ValueKind::InlineAsm => 23,
            ValueKind::Instruction => 24,
            ValueKind::Poison => 25,
        }
    }

    /// The variant that the engine writes as `code`, if there is one.
    pub open spec fn spec_from_code(code: u32) -> Option<Self> {
        if code == 0 {
            Some(ValueKind::Argument)
        } else if code == 1 {
            Some(ValueKind::BasicBlock)
        } else if code == 2 {
            Some(ValueKind::MemoryUse)
        } else if code == 3 {
            Some(ValueKind::MemoryDef)
        } else if code == 4 {
            Some(ValueKind::MemoryPhi)
        } else if code == 5 {
            Some(ValueKind::Function)
        } else if code == 6 {
            Some(ValueKind::GlobalAlias)
        } else if code == 7 {
            Some(ValueKind::GlobalIFunc)
        } else if code == 8 {
            Some(ValueKind::GlobalVariable)
        } else if code == 9 {
            Some(ValueKind::BlockAddress)
        } else if code == 10 {
            Some(ValueKind::ConstantExpr)
        } else if code == 11 {
            Some(ValueKind::ConstantArray)
        } else if code == 12 {
            Some(ValueKind::ConstantStruct)
        } else if code == 13 {
            Some(ValueKind::ConstantVector)
        } else if code == 14 {
            Some(ValueKind::Undef)
        } else if code == 15 {
            Some(ValueKind::ConstantAggregateZero)
        } else if code == 16 {
            Some(ValueKind::ConstantDataArray)
        } else if code == 17 {
            Some(ValueKind::ConstantDataVector)
        } else if code == 18 {
            Some(ValueKind::ConstantInt)
        } else if code == 19 {
            Some(ValueKind::ConstantFP)
        } else if code == 20 {
            Some(ValueKind::ConstantPointerNull)
        } else if code == 21 {
            Some(ValueKind::ConstantTokenNone)
        } else if code == 22 {
            Some(ValueKind::MetadataAsValue)
        } else if code == 23 {
            Some(ValueKind::InlineAsm)
        } else if code == 24 {
            Some(ValueKind::Instruction)
        } else if code == 25 {
            Some(ValueKind::Poison)
        } else {
            None
        }
    }

    #[verifier::when_used_as_spec(spec_code)]
    pub fn code(self) -> (code: u32)
        ensures
            code == self.spec_code(),
    {
        match self {
            ValueKind::Argument => 0,
            ValueKind::BasicBlock => 1,
            ValueKind::MemoryUse => 2,
            ValueKind::MemoryDef => 3,
            ValueKind::MemoryPhi => 4,
            ValueKind::Function => 5,
            ValueKind::GlobalAlias => 6,
            ValueKind::GlobalIFunc => 7,
            ValueKind::GlobalVariable => 8,
            ValueKind::BlockAddress => 9,
            ValueKind::ConstantExpr => 10,
            ValueKind::ConstantArray => 11,
            ValueKind::ConstantStruct => 12,
            ValueKind::ConstantVector => 13,
            ValueKind::Undef => 14,
            ValueKind::ConstantAggregateZero => 15,
            ValueKind::ConstantDataArray => 16,
            ValueKind::ConstantDataVector => 17,
            ValueKind::ConstantInt => 18,
            ValueKind::ConstantFP => 19,
            ValueKind::ConstantPointerNull => 20,
            ValueKind::ConstantTokenNone => 21,
            ValueKind::MetadataAsValue => 22,
            ValueKind::InlineAsm => 23,
            ValueKind::Instruction => 24,
            ValueKind::Poison => 25,
        }
    }

    /// Reads a code of the engine. A code that the engine does not define
    /// gives `None`.
    pub fn from_code(code: u32) -> (r: Option<Self>)
        ensures
            r == Self::spec_from_code(code),
    {
        match code {
            0 => Some(ValueKind::Argument),
            1 => Some(ValueKind::BasicBlock),
            2 => Some(ValueKind::MemoryUse),
            3 => Some(ValueKind::MemoryDef),
            4 => Some(ValueKind::MemoryPhi),
            5 => Some(ValueKind::Function),
            6 => Some(ValueKind::GlobalAlias),
            7 => Some(ValueKind::GlobalIFunc),
            8 => Some(ValueKind::GlobalVariable),
            9 => Some(ValueKind::BlockAddress),
            10 => Some(ValueKind::ConstantExpr),
            11 => Some(ValueKind::ConstantArray),
            12 => Some(ValueKind::ConstantStruct),
            13 => Some(ValueKind::ConstantVector),
            14 => Some(ValueKind::Undef),
            15 => Some(ValueKind::ConstantAggregateZero),
            16 => Some(ValueKind::ConstantDataArray),
            17 => Some(ValueKind::ConstantDataVector),
            18 => Some(ValueKind::ConstantInt),
            19 => Some(ValueKind::ConstantFP),
            20 => Some(ValueKind::ConstantPointerNull),
            21 => Some(ValueKind::ConstantTokenNone),
            22 => Some(ValueKind::MetadataAsValue),
            23 => Some(ValueKind::InlineAsm),
            24 => Some(ValueKind::Instruction),
            25 => Some(ValueKind::Poison),
            _ => None,
        }
    }
}

/// Every kind has a code of its own, from which it is read back.
pub proof fn lemma_kind_code_round_trip(value: ValueKind)
    ensures
        ValueKind::spec_from_code(value.spec_code()) == Some(value),
        0 <= value.spec_code() <= 25,
{
}

/// The engine's codes for kinds are those from 0 to 25, and each is the code
/// of the kind that it is read as.
pub proof fn lemma_kind_codes(code: u32)
    ensures
        ValueKind::spec_from_code(code) is Some <==> 0 <= code <= 25,
        ValueKind::spec_from_code(code) matches Some(value) ==> value.spec_code() == code,
{
}

} // verus!
