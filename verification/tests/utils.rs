use llvm_sys::LLVMIntPredicate;
use llvm_layer::utils::{
    borrowed_string, c_string, to_non_nul, to_string_lossy, Error, ErrorKind, FailureReason,
    Handle, IntegerPredicate, LLVMBool, LLVMStatus, LLVMString,
};

#[test]
fn to_non_nul_catches_nulls() {
    let ptr = to_non_nul(std::ptr::null_mut::<u8>() as usize, "This is my error message");

    assert!(ptr.is_err());
    assert_eq!(
        ptr.unwrap_err(),
        Error::new("This is my error message", ErrorKind::NullPtr),
    );
}

#[test]
fn to_non_nul_allows_non_nulls() {
    let mut you_ate = 8u8;
    let raw = std::ptr::from_mut(&mut you_ate) as usize;
    let ptr = to_non_nul(raw, "This is my error message");

    assert!(ptr.is_ok());
    assert_eq!(ptr.unwrap().addr(), raw);
    assert_eq!(you_ate, 8);
}

#[test]
fn handle_refuses_only_the_null_address() {
    assert!(Handle::new(0).is_none());
    assert_eq!(Handle::new(1).unwrap().addr(), 1);
    assert_eq!(Handle::new(usize::MAX).unwrap().addr(), usize::MAX);
}

#[test]
fn errors_compare_by_kind_and_message() {
    let null = Error::new("gone", ErrorKind::NullPtr);
    assert_eq!(null, Error::new("gone", ErrorKind::NullPtr));
    assert_ne!(null, Error::new("gone", ErrorKind::LLVMError));
    assert_ne!(null, Error::new("here", ErrorKind::NullPtr));
    assert_eq!(null.kind(), ErrorKind::NullPtr);
    assert_eq!(null.message(), "gone");
}

#[test]
fn bool_is_false_only_for_zero() {
    assert!(!LLVMBool::new(0).to_bool());
    assert!(LLVMBool::new(1).to_bool());
    assert!(LLVMBool::new(2).to_bool());
    assert!(LLVMBool::new(-1).to_bool());
    assert!(LLVMBool::new(i32::MAX).to_bool());
    assert!(LLVMBool::new(i32::MIN).to_bool());
}

#[test]
fn bool_truth_and_falsehood_are_complements() {
    for code in [0, 1, -7, 4096] {
        let b = LLVMBool::new(code);
        assert_eq!(b.is_true(), b.to_bool());
        assert_eq!(b.is_false(), !b.is_true());
    }
}

#[test]
fn bool_conversions() {
    assert_eq!(LLVMBool::from(0), LLVMBool::new(0));
    assert_eq!(LLVMBool::from(17), LLVMBool::new(1));
    assert_eq!(LLVMBool::from(true), LLVMBool::new(1));
    assert_eq!(LLVMBool::from(false), LLVMBool::new(0));
    let one: i32 = LLVMBool::new(-3).into();
    assert_eq!(one, 1);
    let zero: i32 = LLVMBool::new(0).into();
    assert_eq!(zero, 0);
    let yes: bool = LLVMBool::new(9).into();
    assert!(yes);
    let no: bool = LLVMBool::new(0).into();
    assert!(!no);
}

#[test]
fn flag_code_reads_back_as_the_flag() {
    for flag in [false, true] {
        let code: i32 = LLVMBool::from(flag).into();
        assert_eq!(LLVMBool::new(code).to_bool(), flag);
    }
}

#[test]
fn status_keeps_the_reason() {
    assert_eq!(LLVMStatus::new(0), LLVMStatus::Success);
    assert!(LLVMStatus::new(0).is_success());
    assert_eq!(
        LLVMStatus::new(2),
        LLVMStatus::Failure(FailureReason::new(2).unwrap()),
    );
    assert_ne!(LLVMStatus::new(2), LLVMStatus::new(1));
    assert!(!LLVMStatus::new(1).is_success());
    match LLVMStatus::new(-1) {
        LLVMStatus::Failure(reason) => assert_eq!(reason.get(), u32::MAX),
        LLVMStatus::Success => panic!("a failing code read as success"),
    }
}

#[test]
fn failure_reason_is_never_zero() {
    assert!(FailureReason::new(0).is_none());
    assert_eq!(FailureReason::new(7).unwrap().get(), 7);
}

#[test]
fn lossy_decoding_keeps_valid_text() {
    assert_eq!(to_string_lossy(b"new name"), "new name");
    assert_eq!(to_string_lossy(b""), "");
    assert_eq!(to_string_lossy("zażółć gęślą jaźń".as_bytes()), "zażółć gęślą jaźń");
}

#[test]
fn lossy_decoding_goes_by_length_not_by_terminator() {
    assert_eq!(to_string_lossy(b"a\0b"), "a\0b");
    assert_eq!(to_string_lossy(b"a\0b").len(), 3);
}

#[test]
fn lossy_decoding_borrows_what_needs_no_replacement() {
    assert!(matches!(to_string_lossy(b"plain"), std::borrow::Cow::Borrowed("plain")));
    assert!(matches!(to_string_lossy(b"\xFF"), std::borrow::Cow::Owned(_)));
}

#[test]
fn lossy_decoding_replaces_invalid_bytes() {
    assert_eq!(to_string_lossy(b"Hello \xF0\x90\x80World"), "Hello \u{FFFD}World");
    assert_eq!(to_string_lossy(b"\xFF"), "\u{FFFD}");
}

#[test]
fn borrowed_null_is_absent() {
    assert_eq!(borrowed_string(None), None);
    assert_eq!(borrowed_string(Some(b"")).as_deref(), Some(""));
    assert_eq!(borrowed_string(Some(b"entry")).as_deref(), Some("entry"));
}

#[test]
fn owned_null_is_an_error() {
    let err = LLVMString::from_raw(None).unwrap_err();
    assert_eq!(err.kind(), ErrorKind::NullPtr);
    assert_eq!(err.message(), "LLVM returned a null string");
}

#[test]
fn owned_string_keeps_its_bytes() {
    let text = LLVMString::from_raw(Some(b"broken module".to_vec())).unwrap();
    assert_eq!(text.as_bytes(), b"broken module");
    assert_eq!(text.to_string_lossy(), "broken module");
    let odd = LLVMString::from_raw(Some(vec![0x66, 0xFF])).unwrap();
    assert_eq!(odd.to_string_lossy(), "f\u{FFFD}");
}

#[test]
fn c_string_appends_the_terminator() {
    assert_eq!(c_string("i_am_a_module"), Some(b"i_am_a_module\0".to_vec()));
    assert_eq!(c_string(""), Some(vec![0]));
}

#[test]
fn c_string_refuses_an_embedded_terminator() {
    assert_eq!(c_string("a\0b"), None);
    assert_eq!(c_string("\0"), None);
    assert_eq!(c_string("tail\0"), None);
}

#[test]
fn predicate_codes_are_the_engines() {
    assert_eq!(IntegerPredicate::Equal.code(), 32);
    assert_eq!(IntegerPredicate::NotEqual.code(), 33);
    assert_eq!(IntegerPredicate::UnsignedGreaterThan.code(), 34);
    assert_eq!(IntegerPredicate::UnsignedGreaterThanEqual.code(), 35);
    assert_eq!(IntegerPredicate::UnsignedLessThan.code(), 36);
    assert_eq!(IntegerPredicate::UnsignedLessThanEqual.code(), 37);
    assert_eq!(IntegerPredicate::SignedGreaterThan.code(), 38);
    assert_eq!(IntegerPredicate::SignedGreaterThanEqual.code(), 39);
    assert_eq!(IntegerPredicate::SignedLessThan.code(), 40);
    assert_eq!(IntegerPredicate::SignedLessThanEqual.code(), 41);
}

#[test]
fn predicate_codes_read_back() {
    for code in 0..64u32 {
        match IntegerPredicate::from_code(code) {
            Some(predicate) => {
                assert!((32..=41).contains(&code));
                assert_eq!(predicate.code(), code);
            }
            None => assert!(!(32..=41).contains(&code)),
        }
    }
    assert_eq!(IntegerPredicate::from_code(40), Some(IntegerPredicate::SignedLessThan));
    assert_eq!(IntegerPredicate::from_code(u32::MAX), None);
}

#[test]
fn predicate_codes_agree_with_the_bindings() {
    let pairs = [
        (LLVMIntPredicate::LLVMIntEQ, IntegerPredicate::Equal),
        (LLVMIntPredicate::LLVMIntNE, IntegerPredicate::NotEqual),
        (LLVMIntPredicate::LLVMIntUGT, IntegerPredicate::UnsignedGreaterThan),
        (LLVMIntPredicate::LLVMIntUGE, IntegerPredicate::UnsignedGreaterThanEqual),
        (LLVMIntPredicate::LLVMIntULT, IntegerPredicate::UnsignedLessThan),
        (LLVMIntPredicate::LLVMIntULE, IntegerPredicate::UnsignedLessThanEqual),
        (LLVMIntPredicate::LLVMIntSGT, IntegerPredicate::SignedGreaterThan),
        (LLVMIntPredicate::LLVMIntSGE, IntegerPredicate::SignedGreaterThanEqual),
        (LLVMIntPredicate::LLVMIntSLT, IntegerPredicate::SignedLessThan),
        (LLVMIntPredicate::LLVMIntSLE, IntegerPredicate::SignedLessThanEqual),
    ];
    for (raw, predicate) in pairs {
        assert_eq!(IntegerPredicate::from_code(raw as u32), Some(predicate));
    }
}
