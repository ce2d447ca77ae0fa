//! Bytes as text: the standard base64 alphabet with padding, as the `base64`
//! crate writes and reads it. The two functions of this module make the calls
//! into that crate; their contracts are not proved.

use vstd::prelude::*;

verus! {

/// The base64 text of `bytes`. What `Engine::encode` of the standard engine
/// returns.
pub uninterp spec fn base64_text(bytes: Seq<u8>) -> Seq<char>;

/// The bytes that the base64 text `text` stands for, where it is well
/// formed. What `Engine::decode` of the standard engine returns.
pub uninterp spec fn base64_bytes(text: Seq<char>) -> Option<Seq<u8>>;

/// Calls `Engine::encode` on `base64::engine::general_purpose::STANDARD`: the
/// base64 text of `bytes`, which decodes to `bytes` again. The call panics
/// where the length of the text does not fit in `usize`, which needs more
/// bytes than half the range of `usize`.
#[verifier::external_body]
pub(crate) fn base64_encode(bytes: &[u8]) -> (text: String)
    requires
        bytes@.len() <= usize::MAX / 2,
    ensures
        text@ == base64_text(bytes@),
        base64_bytes(text@) == Some(bytes@),
{
    base64::Engine::encode(&base64::engine::general_purpose::STANDARD, bytes)
}

/// Calls `Engine::decode` on `base64::engine::general_purpose::STANDARD`: the
/// bytes that `text` stands for, or `None` where it is not well formed.
#[verifier::external_body]
pub(crate) fn base64_decode(text: &str) -> (bytes: Option<Vec<u8>>)
    ensures
        match bytes {
            Some(bytes) => base64_bytes(text@) == Some(bytes@),
            None => base64_bytes(text@) is None,
        },
{
    base64::Engine::decode(&base64::engine::general_purpose::STANDARD, text).ok()
}

} // verus!
