use vstd::prelude::*;
use vstd::string::StringSliceAdditionalSpecFns;
use vstd::utf8::{decode_utf8, encode_utf8, encode_utf8_decode_utf8, valid_utf8};

use crate::error::StepError;

verus! {

/// Relies on std::str::from_utf8: it succeeds exactly on valid UTF-8, and the
/// text it returns is encoded by those very bytes.
#[verifier::external_body]
fn str_from_utf8(bytes: &[u8]) -> (r: Option<&str>)
    ensures
        r is Some <==> valid_utf8(bytes@),
        r matches Some(s) ==> s.spec_bytes() == bytes@,
{
    std::str::from_utf8(bytes).ok()
}

/// Text decode: the bytes read as UTF-8, or `EncodingError` with no text at
/// all when they are not valid UTF-8.
pub fn decode_text(bytes: &[u8]) -> (r: Result<String, StepError>)
    ensures
        r is Ok <==> valid_utf8(bytes@),
        r matches Ok(s) ==> encode_utf8(s@) == bytes@ && s@ == decode_utf8(bytes@),
        !valid_utf8(bytes@) ==> r == Err::<String, StepError>(StepError::EncodingError),
{
    match str_from_utf8(bytes) {
        Some(s) => {
            proof {
                encode_utf8_decode_utf8(s@);
            }
            Ok(s.to_owned())
        },
        None => Err(StepError::EncodingError),
    }
}

} // verus!
