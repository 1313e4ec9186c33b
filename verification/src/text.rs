//! Text at the boundary: the strings that arrive as bytes in the caller's
//! encoding, and the fixed strings that are handed back.

use crate::error::{ErrorRecord, ErrorRecordView};
use vstd::prelude::*;
use vstd::utf8::{decode_utf8, valid_utf8};

verus! {

/// The text in which the standard library explains why `bytes` are not valid
/// UTF-8: the `Display` output of the `Utf8Error` that `std::str::from_utf8`
/// returns for them.
pub uninterp spec fn utf8_error_text(bytes: Seq<u8>) -> Seq<char>;

/// The failure recorded for a path argument that is not valid UTF-8.
pub open spec fn decode_failure(bytes: Seq<u8>) -> ErrorRecordView {
    ErrorRecordView { message: utf8_error_text(bytes), causes: Seq::empty() }
}

/// Calls `std::str::from_utf8`. The claim: it accepts exactly the valid UTF-8
/// byte strings and returns the characters they encode; for any other input
/// the error it returns is a function of the bytes alone, and so is the text
/// in which that error displays.
#[verifier::external_body]
pub(crate) fn utf8_text(bytes: &[u8]) -> (decoded: Result<String, String>)
    ensures
        match decoded {
            Ok(text) => valid_utf8(bytes@) && text@ == decode_utf8(bytes@),
            Err(reason) => !valid_utf8(bytes@) && reason@ == utf8_error_text(bytes@),
        },
{
    match std::str::from_utf8(bytes) {
        Ok(text) => Ok(text.to_owned()),
        Err(e) => Err(e.to_string()),
    }
}

/// Turns the outcome of decoding a path into the path or the failure to
/// record: a decoding error becomes a record with the error's text as its
/// message and no causes.
pub fn path_from(decoded: Result<String, String>) -> (path: Result<String, ErrorRecord>)
    ensures
        match decoded {
            Ok(text) => path matches Ok(same) && same@ == text@,
            Err(reason) => path matches Err(record) && record@ == (ErrorRecordView {
                message: reason@,
                causes: Seq::empty(),
            }),
        },
{
    match decoded {
        Ok(text) => Ok(text),
        Err(reason) => {
            let record = ErrorRecord { message: reason, causes: Vec::new() };
            assert(record@.causes =~= Seq::<Seq<char>>::empty());
            Err(record)
        },
    }
}

/// Decodes a path argument from the caller's string encoding. Succeeds
/// exactly on valid UTF-8.
pub fn decode_path(bytes: &[u8]) -> (path: Result<String, ErrorRecord>)
    ensures
        match path {
            Ok(text) => valid_utf8(bytes@) && text@ == decode_utf8(bytes@),
            Err(record) => !valid_utf8(bytes@) && record@ == decode_failure(bytes@),
        },
{
    path_from(utf8_text(bytes))
}

/// The greeting with which a caller can test that the boundary works.
pub fn darti_hello() -> (greeting: String)
    ensures
        greeting@ == "Hello there"@,
{
    "Hello there".to_owned()
}

} // verus!
