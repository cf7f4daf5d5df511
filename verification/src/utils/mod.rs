//! Codes, errors and string marshalling shared by every handle.
mod error;
mod handle;
mod int_predicate;
mod llvm_bool;
mod llvm_string;

pub use error::{Error, ErrorKind};
pub use handle::{to_non_nul, Handle};
pub use int_predicate::{
    lemma_predicate_code_round_trip, lemma_predicate_codes, IntegerPredicate,
};
pub use llvm_bool::{bool_code, lemma_bool_code_round_trip, FailureReason, LLVMBool, LLVMStatus};
pub use llvm_string::{
    borrowed_string, c_string, lemma_c_string_round_trip, lemma_text_round_trip,
    lemma_until_nul_of_terminated, lossy_text, null_string_message, replaced_text,
    to_string_lossy, until_nul, LLVMString,
};
