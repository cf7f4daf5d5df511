use std::borrow::Cow;
use vstd::prelude::*;
use vstd::string::StringSliceAdditionalSpecFns;
use vstd::utf8::{decode_utf8, valid_utf8};
use super::error::{Error, ErrorKind};

verus! {

/// What lossy decoding makes of bytes that are not valid UTF-8: the text in
/// which each invalid sequence has given way to U+FFFD.
pub uninterp spec fn replaced_text(bytes: Seq<u8>) -> Seq<char>;

/// The text that a buffer of the engine stands for. Valid UTF-8 is decoded as
/// it is, anything else with replacement characters.
pub open spec fn lossy_text(bytes: Seq<u8>) -> Seq<char> {
    if valid_utf8(bytes) {
        decode_utf8(bytes)
    } else {
        replaced_text(bytes)
    }
}

/// The bytes of a C string up to its terminator, or all of them if there is
/// none: what a reader that scans for the zero byte gets to see.
pub open spec fn until_nul(bytes: Seq<u8>) -> Seq<u8>
    decreases bytes.len(),
{
    if bytes.len() == 0 || bytes[0] == 0 {
        Seq::empty()
    } else {
        seq![bytes[0]] + until_nul(bytes.drop_first())
    }
}

/// The message of the error that [`LLVMString::from_raw`] gives for a null
/// pointer.
pub open spec fn null_string_message() -> Seq<char> {
    "LLVM returned a null string"@
}

/// `String::from_utf8_lossy`, as the standard library documents it. Trusted:
/// valid UTF-8 comes back as the text it encodes, and for anything else the
/// result is whatever the replacement policy yields, which is named and not
/// spelled out.
pub assume_specification<'a>[ String::from_utf8_lossy ](v: &'a [u8]) -> (text: Cow<'a, str>)
    ensures
        valid_utf8(v@) ==> text@ == decode_utf8(v@),
        !valid_utf8(v@) ==> text@ == replaced_text(v@),
;

/// Decodes a buffer by its length alone: no terminator is looked for, and no
/// byte sequence makes this fail. Text that needs no replacement is borrowed
/// from the buffer.
pub fn to_string_lossy<'a>(bytes: &'a [u8]) -> (text: Cow<'a, str>)
    ensures
        text@ == lossy_text(bytes@),
{
    String::from_utf8_lossy(bytes)
}

/// Decodes a buffer that some handle lends out. A null pointer, given here as
/// `None`, says that there is no such attribute, which is no error.
pub fn borrowed_string<'a>(raw: Option<&'a [u8]>) -> (text: Option<Cow<'a, str>>)
    ensures
        raw is None <==> text is None,
        raw matches Some(bytes) ==> text->Some_0@ == lossy_text(bytes@),
{
    match raw {
        Some(bytes) => Some(to_string_lossy(bytes)),
        None => None,
    }
}

/// The bytes of `text` followed by the terminator that the engine's C
/// interface looks for, or `None` if `text` holds a zero byte itself.
pub fn c_string(text: &str) -> (r: Option<Vec<u8>>)
    ensures
        r is Some <==> !text.spec_bytes().contains(0u8),
        r matches Some(terminated) ==> terminated@ == text.spec_bytes().push(0u8),
{
    let bytes = text.as_bytes();
    let mut terminated: Vec<u8> = Vec::new();
    let mut i: usize = 0;
    while i < bytes.len()
        invariant
            i <= bytes@.len(),
            bytes@ == text.spec_bytes(),
            terminated@ == bytes@.take(i as int),
            !terminated@.contains(0u8),
        decreases bytes@.len() - i,
    {
        let byte = bytes[i];
        if byte == 0 {
            return None;
        }
        assert(bytes@.take(i + 1) =~= terminated@.push(byte));
        terminated.push(byte);
        i += 1;
    }
    assert(bytes@.take(i as int) =~= bytes@);
    terminated.push(0);
    Some(terminated)
}

/// A string that the engine allocated and handed over, once its bytes have
/// been taken from the native buffer.
#[derive(Debug, Clone, PartialEq, Eq)]
pub struct LLVMString {
    bytes: Vec<u8>,
}

impl View for LLVMString {
    type V = Seq<u8>;

    closed spec fn view(&self) -> Seq<u8> {
        self.bytes@
    }
}

impl LLVMString {
    /// Takes over an owned buffer. A null pointer, given here as `None`, is a
    /// [`ErrorKind::NullPtr`] error: the engine owed a string.
    pub fn from_raw(raw: Option<Vec<u8>>) -> (r: Result<Self, Error>)
        ensures
            raw matches Some(bytes) ==> r is Ok && r->Ok_0@ == bytes@,
            raw is None ==> r is Err && r->Err_0.is(ErrorKind::NullPtr, null_string_message()),
    {
        match raw {
            Some(bytes) => Ok(Self { bytes }),
            None => Err(Error::new("LLVM returned a null string", ErrorKind::NullPtr)),
        }
    }

    pub fn as_bytes(&self) -> (bytes: &[u8])
        ensures
            bytes@ == self@,
    {
        self.bytes.as_slice()
    }

    pub fn to_string_lossy(&self) -> (text: Cow<'_, str>)
        ensures
            text@ == lossy_text(self@),
    {
        to_string_lossy(self.bytes.as_slice())
    }
}

/// Text that went out to the engine as its bytes reads back as the same
/// text, whatever the text.
pub proof fn lemma_text_round_trip(text: &str)
    ensures
        lossy_text(text.spec_bytes()) == text@,
{
    vstd::utf8::encode_utf8_valid_utf8(text@);
    vstd::utf8::encode_utf8_decode_utf8(text@);
}

/// A reader that scans a terminated buffer for the zero byte sees all of what
/// was terminated, provided that held no zero byte.
pub proof fn lemma_until_nul_of_terminated(bytes: Seq<u8>)
    requires
        !bytes.contains(0u8),
    ensures
        until_nul(bytes.push(0u8)) == bytes,
    decreases bytes.len(),
{
    let terminated = bytes.push(0u8);
    if bytes.len() == 0 {
        assert(until_nul(terminated) =~= bytes);
    } else {
        let rest = bytes.drop_first();
        assert(bytes.contains(bytes[0]));
        assert forall|k: int| 0 <= k < rest.len() implies rest[k] != 0u8 by {
            assert(bytes.contains(bytes[k + 1]));
        }
        lemma_until_nul_of_terminated(rest);
        assert(terminated.drop_first() =~= rest.push(0u8));
        assert(until_nul(terminated) =~= bytes);
    }
}

/// A name without a zero byte that went out as a C string reads back as the
/// same name.
pub proof fn lemma_c_string_round_trip(name: &str)
    requires
        !name.spec_bytes().contains(0u8),
    ensures
        lossy_text(until_nul(name.spec_bytes().push(0u8))) == name@,
{
    lemma_until_nul_of_terminated(name.spec_bytes());
    lemma_text_round_trip(name);
}

} // verus!
