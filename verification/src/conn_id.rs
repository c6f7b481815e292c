//! Connection identifiers: 128-bit correlation tokens for one
//! request/response exchange.

use vstd::prelude::*;
use vstd::utf8::decode_utf8;
use vstd::utf8::encode_utf8;
use vstd::utf8::encode_utf8_decode_utf8;
use vstd::utf8::encode_utf8_valid_utf8;
use vstd::utf8::is_ascii_chars;
use vstd::utf8::is_ascii_chars_encode_utf8;

verus! {

/// Identifies one request/response exchange on a connection.
///
/// The two words hold a 128-bit random value drawn at creation.  Callers
/// treat the value as an opaque token: equality and hash are structural and
/// nothing may be read into the internal layout.  On the wire the token
/// travels as two 64-bit words.
#[derive(Debug, Copy, Clone, PartialEq, Eq, Hash, Structural)]
pub struct ConnID {
    a: u64,
    b: u64,
}

/// Relies on `rand::random::<u64>`: draws one word from the thread-local
/// CSPRNG.  Nothing is promised of the value.
#[verifier::external_body]
fn random_u64() -> u64 {
    rand::random::<u64>()
}

/// The lowercase hex digit for a nibble, as an ASCII byte.
pub open spec fn hex_digit_byte(n: u8) -> u8
    recommends
        n < 16,
{
    if n < 10 {
        (48 + n) as u8
    } else {
        (87 + n) as u8
    }
}

/// Nibble `i` of `x`, counting from the most significant.
pub open spec fn nibble(x: u64, i: int) -> u8
    recommends
        0 <= i < 16,
{
    ((x >> (((15 - i) * 4) as u64)) & 0xf) as u8
}

/// The 16 lowercase hex digit bytes of a word, most significant first.
pub open spec fn word_hex_bytes(x: u64) -> Seq<u8> {
    Seq::new(16, |i: int| hex_digit_byte(nibble(x, i)))
}

impl ConnID {
    /// A fresh identifier, drawn uniformly at random; collisions are
    /// statistically negligible within a process lifetime, so nothing is
    /// promised of the value.
    pub fn new() -> Self {
        let a = random_u64();
        let b = random_u64();
        ConnID { a, b }
    }

    /// The two 64-bit words of the identifier, in wire order.
    pub fn words(&self) -> (r: (u64, u64))
        ensures
            r == self.spec_words(),
    {
        (self.a, self.b)
    }

    /// An identifier rebuilt from its two wire words.
    pub fn from_words(a: u64, b: u64) -> (r: ConnID)
        ensures
            r == ConnID::spec_from_words(a, b),
    {
        ConnID { a, b }
    }

    /// The two words, for contracts.
    pub closed spec fn spec_words(self) -> (u64, u64) {
        (self.a, self.b)
    }

    /// The identifier holding the two given words.
    pub closed spec fn spec_from_words(a: u64, b: u64) -> ConnID {
        ConnID { a, b }
    }

    /// The words determine the identifier and the identifier its words.
    pub proof fn lemma_words_bijective(self, a: u64, b: u64)
        ensures
            ConnID::spec_from_words(a, b).spec_words() == (a, b),
            ConnID::spec_from_words(self.spec_words().0, self.spec_words().1) == self,
    {
    }

    /// The fixed-width lowercase hex rendering: 32 characters, most
    /// significant nibble first.
    pub open spec fn spec_hex(self) -> Seq<char> {
        Seq::new(
            32,
            |i: int|
                if i < 16 {
                    hex_digit_byte(nibble(self.spec_words().0, i)) as char
                } else {
                    hex_digit_byte(nibble(self.spec_words().1, i - 16)) as char
                },
        )
    }

    /// Deterministic 32-character lowercase hex rendering of the token.
    pub fn hex(&self) -> (r: String)
        ensures
            r@ == self.spec_hex(),
            r@.len() == 32,
    {
        let mut bytes: Vec<u8> = Vec::new();
        push_word_hex(&mut bytes, self.a);
        push_word_hex(&mut bytes, self.b);
        proof {
            let cs = self.spec_hex();
            assert(forall|y: u64| (y & 0xf) < 16) by (bit_vector);
            assert forall|i: int| 0 <= i < 32 implies '\0' <= #[trigger] cs[i] <= '\u{7f}' by {
                assert((self.a >> (((15 - i) * 4) as u64)) & 0xf < 16);
                assert((self.b >> (((15 - (i - 16)) * 4) as u64)) & 0xf < 16);
            }
            assert(is_ascii_chars(cs));
            is_ascii_chars_encode_utf8(cs);
            assert forall|i: int| 0 <= i < 32 implies encode_utf8(cs)[i] == #[trigger] bytes@[i] by {
                assert((self.a >> (((15 - i) * 4) as u64)) & 0xf < 16);
                assert((self.b >> (((15 - (i - 16)) * 4) as u64)) & 0xf < 16);
            }
            assert(encode_utf8(cs) =~= bytes@);
            encode_utf8_valid_utf8(cs);
            encode_utf8_decode_utf8(cs);
        }
        match crate::text::string_from_utf8(bytes) {
            Some(s) => s,
            None => vstd::pervasive::unreached(),
        }
    }
}

impl Default for ConnID {
    /// A fresh random identifier, as [`ConnID::new`] draws it.
    fn default() -> Self {
        ConnID::new()
    }
}

/// Appends the 16 hex digit bytes of `x` to `v`.
fn push_word_hex(v: &mut Vec<u8>, x: u64)
    ensures
        final(v)@ == old(v)@ + word_hex_bytes(x),
{
    let mut i: usize = 0;
    while i < 16
        invariant
            0 <= i <= 16,
            v@ == old(v)@ + word_hex_bytes(x).take(i as int),
        decreases 16 - i,
    {
        let sh: u64 = (60 - 4 * i) as u64;
        let nib: u64 = (x >> sh) & 0xf;
        assert((x >> sh) & 0xf < 16) by (bit_vector);
        let d: u8 = nib as u8;
        let byte: u8 = if d < 10 {
            48 + d
        } else {
            87 + d
        };
        proof {
            assert(sh == ((15 - i as int) * 4) as u64);
            assert(d == nibble(x, i as int));
            assert(byte == hex_digit_byte(nibble(x, i as int)));
        }
        v.push(byte);
        proof {
            assert(v@ =~= old(v)@ + word_hex_bytes(x).take(i as int + 1));
        }
        i = i + 1;
    }
    proof {
        assert(word_hex_bytes(x).take(16) =~= word_hex_bytes(x));
    }
}

} // verus!
