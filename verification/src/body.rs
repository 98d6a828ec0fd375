//! Message bodies, held as `bytes::Bytes`.

use vstd::prelude::*;

verus! {

/// The byte buffer of the crate `bytes`.
#[verifier::external_type_specification]
#[verifier::external_body]
pub struct ExBytes(bytes::Bytes);

/// The bytes that a buffer holds.
pub uninterp spec fn contents(b: bytes::Bytes) -> Seq<u8>;

/// `bytes::Bytes::len` returns the number of bytes that the buffer holds.
pub assume_specification[ bytes::Bytes::len ](b: &bytes::Bytes) -> (n: usize)
    ensures
        n == contents(*b).len(),
;

/// `Clone` on `bytes::Bytes` gives another handle to the same bytes.
pub assume_specification[ <bytes::Bytes as Clone>::clone ](b: &bytes::Bytes) -> (copy: bytes::Bytes)
    ensures
        contents(copy) == contents(*b),
;

/// `bytes::Bytes::from` on a `String` takes over the bytes of the string, which are its
/// characters in UTF-8.
#[verifier::external_body]
fn bytes_from_string(s: String) -> (b: bytes::Bytes)
    ensures
        contents(b) == vstd::utf8::encode_utf8(s@),
{
    bytes::Bytes::from(s)
}

/// The body that holds a text in UTF-8.
pub fn text_body(data: &str) -> (b: bytes::Bytes)
    ensures
        contents(b) == vstd::utf8::encode_utf8(data@),
{
    bytes_from_string(data.to_owned())
}

/// Two bodies are both absent, or hold the same bytes.
pub open spec fn same_body(a: Option<bytes::Bytes>, b: Option<bytes::Bytes>) -> bool {
    match (a, b) {
        (Some(x), Some(y)) => contents(x) == contents(y),
        (None, None) => true,
        _ => false,
    }
}

/// Another handle to the same body.
pub fn share_body(body: &Option<bytes::Bytes>) -> (copy: Option<bytes::Bytes>)
    ensures
        same_body(copy, *body),
{
    match body {
        Some(b) => Some(b.clone()),
        None => None,
    }
}

} // verus!
