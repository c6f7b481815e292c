//! Payload text codec: the core encodes and decodes the one payload schema
//! it owns itself — error-message strings — through the host's
//! self-describing binary payload codec.

use vstd::prelude::*;

verus! {

/// What `serde_cbor::to_vec` returns for a string: its CBOR text-string
/// encoding.  The bytes depend on the characters alone.
pub uninterp spec fn cbor_str_enc(s: Seq<char>) -> Seq<u8>;

/// Relies on `serde_cbor::to_vec`: encodes a string as a CBOR text string.
/// Serializing a string into a growable buffer does not fail.
#[verifier::external_body]
pub(crate) fn cbor_encode_str(s: &str) -> (r: Vec<u8>)
    ensures
        r@ == cbor_str_enc(s@),
{
    serde_cbor::to_vec(&s).unwrap()
}

/// Relies on `serde_cbor::from_slice::<String>`: decodes a CBOR text
/// string, returning the original string on every encoding that
/// `serde_cbor::to_vec` produced.
#[verifier::external_body]
pub(crate) fn cbor_decode_str(b: &[u8]) -> (r: Option<String>)
    ensures
        forall|s: Seq<char>| b@ == cbor_str_enc(s) ==> r is Some && r.unwrap()@ == s,
{
    serde_cbor::from_slice::<String>(b).ok()
}

} // verus!
