//! The codecs that the library takes from elsewhere: base64 and the two ways
//! of reading bytes as UTF-8. Nothing in this file is proved; each contract
//! says what is taken on trust.

use crate::error::DecodeFault;
use vstd::prelude::*;
use vstd::utf8::{decode_utf8, valid_utf8};

verus! {

/// The text that `base64::encode` gives for `bytes`: base64 with the
/// standard alphabet and padding.
pub uninterp spec fn base64_text(bytes: Seq<u8>) -> Seq<char>;

/// What `base64::decode` gives for `text`: the bytes that it stands for, or
/// the fault found in it.
pub uninterp spec fn base64_bytes(text: Seq<char>) -> Result<Seq<u8>, DecodeFault>;

/// The text that `String::from_utf8_lossy` gives for `bytes`.
pub uninterp spec fn lossy_text(bytes: Seq<u8>) -> Seq<char>;

/// What decoding gives where the text stands for `bytes`.
pub open spec fn intact(bytes: Seq<u8>) -> Result<Seq<u8>, DecodeFault> {
    Ok(bytes)
}

/// The view of decoded bytes or a fault.
pub open spec fn decoded(r: Result<Vec<u8>, DecodeFault>) -> Result<Seq<u8>, DecodeFault> {
    match r {
        Ok(bytes) => Ok(bytes@),
        Err(fault) => Err(fault),
    }
}

/// Calls `base64::encode`. Taken on trust: the result is the base64 text of
/// `bytes`, and decoding that text gives `bytes` back.
#[verifier::external_body]
pub(crate) fn encode_base64(bytes: &[u8]) -> (text: String)
    ensures
        text@ == base64_text(bytes@),
        base64_bytes(text@) == intact(bytes@),
{
    base64::encode(bytes)
}

/// Calls `base64::decode`. Taken on trust: the result is a function of the
/// text alone. The error of `base64` is handed on variant by variant.
#[verifier::external_body]
pub(crate) fn decode_base64(text: &str) -> (r: Result<Vec<u8>, DecodeFault>)
    ensures
        decoded(r) == base64_bytes(text@),
{
    match base64::decode(text) {
        Ok(bytes) => Ok(bytes),
        Err(base64::DecodeError::InvalidByte(offset, byte)) => Err(
            DecodeFault::InvalidByte { offset, byte },
        ),
        Err(base64::DecodeError::InvalidLength) => Err(DecodeFault::InvalidLength),
        Err(base64::DecodeError::InvalidLastSymbol(offset, byte)) => Err(
            DecodeFault::InvalidLastSymbol { offset, byte },
        ),
    }
}

/// Calls `String::from_utf8_lossy`. Taken on trust: the result is a function
/// of the bytes alone, and valid UTF-8 is decoded as it stands.
#[verifier::external_body]
pub(crate) fn decode_lossy(bytes: &[u8]) -> (text: String)
    ensures
        text@ == lossy_text(bytes@),
        valid_utf8(bytes@) ==> text@ == decode_utf8(bytes@),
{
    String::from_utf8_lossy(bytes).into_owned()
}

/// Calls `String::from_utf8`. Taken on trust: the bytes are accepted exactly
/// when they are valid UTF-8, and are then decoded as they stand.
#[verifier::external_body]
pub(crate) fn decode_strict(bytes: Vec<u8>) -> (text: Option<String>)
    ensures
        text is Some <==> valid_utf8(bytes@),
        text matches Some(t) ==> t@ == decode_utf8(bytes@),
{
    String::from_utf8(bytes).ok()
}

} // verus!
