//! Turning a raw frame into the text that is forwarded to the sink. The
//! blocking open and the byte reads happen outside the library; this module
//! holds the part of a read cycle that is a pure function of the bytes.

use vstd::prelude::*;

verus! {

/// Why a read cycle produced no frame text. The first two are reported by
/// the surrounding process from the failed system call; the last comes from
/// `frame_text` when the accumulated bytes are not valid text.
#[derive(Clone, Copy, PartialEq, Eq, Structural, Debug)]
pub enum ReadError {
    OpenFailed,
    ReadFailed,
    InvalidEncoding,
}

/// What the UTF-8 decoding of a byte sequence yields: `None` when the bytes
/// are not valid UTF-8, otherwise the decoded characters. A function of the
/// bytes alone.
pub uninterp spec fn utf8_decoding(bytes: Seq<u8>) -> Option<Seq<char>>;

/// Relies on String::from_utf8: it succeeds exactly when the bytes are
/// valid UTF-8, and the returned string then holds their decoding, which
/// depends on the bytes alone.
#[verifier::external_body]
fn bytes_to_string(bytes: Vec<u8>) -> (r: Option<String>)
    ensures
        r is Some <==> utf8_decoding(bytes@) is Some,
        r matches Some(s) ==> s@ == utf8_decoding(bytes@)->0,
{
    String::from_utf8(bytes).ok()
}

/// Decodes a complete frame into the text handed to the sink, or rejects
/// bytes that are not valid text. Succeeds exactly on valid UTF-8.
pub fn frame_text(frame: Vec<u8>) -> (r: Result<String, ReadError>)
    ensures
        r is Ok <==> utf8_decoding(frame@) is Some,
        r matches Ok(s) ==> s@ == utf8_decoding(frame@)->0,
        r is Err ==> r->Err_0 == ReadError::InvalidEncoding,
{
    match bytes_to_string(frame) {
        Some(s) => Ok(s),
        None => Err(ReadError::InvalidEncoding),
    }
}

} // verus!
