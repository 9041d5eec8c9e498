use vstd::prelude::*;
use vstd::utf8::*;

verus! {

/// Decodes `bytes` as UTF-8 text by calling `String::from_utf8`.
///
/// Trusted: std documents that `String::from_utf8` succeeds exactly when the
/// bytes are valid UTF-8 and then returns the string they encode. The contract
/// states this over vstd's `valid_utf8` and `decode_utf8`; the error value is
/// dropped, only its presence is kept.
#[verifier::external_body]
pub(crate) fn decode_utf8_text(bytes: Vec<u8>) -> (r: Option<String>)
    ensures
        r is Some <==> valid_utf8(bytes@),
        r matches Some(s) ==> s@ == decode_utf8(bytes@),
{
    String::from_utf8(bytes).ok()
}

} // verus!
