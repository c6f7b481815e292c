//! Byte-level string helpers shared by the codec and the error renderings.

use vstd::prelude::*;
use vstd::utf8::decode_utf8;
use vstd::utf8::encode_utf8;
use vstd::utf8::encode_utf8_decode_utf8;
use vstd::utf8::encode_utf8_valid_utf8;
use vstd::utf8::valid_utf8;

verus! {

/// UTF-8 encoding distributes over concatenation of character sequences.
pub proof fn lemma_encode_utf8_app(c1: Seq<char>, c2: Seq<char>)
    ensures
        encode_utf8(c1 + c2) == encode_utf8(c1) + encode_utf8(c2),
    decreases c1.len(),
{
    if c1.len() == 0 {
        assert(c1 + c2 =~= c2);
        assert(encode_utf8(c1) + encode_utf8(c2) =~= encode_utf8(c2));
    } else {
        lemma_encode_utf8_app(c1.drop_first(), c2);
        assert((c1 + c2).drop_first() =~= c1.drop_first() + c2);
        assert(encode_utf8(c1) + encode_utf8(c2) =~= vstd::utf8::encode_scalar(c1[0] as u32)
            + (encode_utf8(c1.drop_first()) + encode_utf8(c2)));
    }
}

/// Relies on `String::from_utf8`: succeeds exactly on valid UTF-8 input and
/// returns the string whose characters decode from it.
#[verifier::external_body]
pub(crate) fn string_from_utf8(v: Vec<u8>) -> (r: Option<String>)
    ensures
        r is Some <==> valid_utf8(v@),
        r is Some ==> r.unwrap()@ == decode_utf8(v@),
{
    String::from_utf8(v).ok()
}

/// The concatenation of two string slices.
pub fn str_concat(a: &str, b: &str) -> (r: String)
    ensures
        r@ == a@ + b@,
{
    let mut v: Vec<u8> = Vec::new();
    v.extend_from_slice(a.as_bytes());
    v.extend_from_slice(b.as_bytes());
    proof {
        lemma_encode_utf8_app(a@, b@);
        assert(v@ =~= encode_utf8(a@ + b@));
        encode_utf8_valid_utf8(a@ + b@);
        encode_utf8_decode_utf8(a@ + b@);
    }
    match string_from_utf8(v) {
        Some(s) => s,
        None => vstd::pervasive::unreached(),
    }
}

/// The concatenation of three string slices.
pub fn str_concat3(a: &str, b: &str, c: &str) -> (r: String)
    ensures
        r@ == a@ + b@ + c@,
{
    let ab = str_concat(a, b);
    let r = str_concat(ab.as_str(), c);
    r
}

} // verus!
