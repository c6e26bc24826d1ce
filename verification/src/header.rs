//! Building the Basic-auth header: the credential string `riot:<token>`,
//! base64-encoded and prefixed with `Basic `.

use vstd::prelude::*;
use vstd::utf8::encode_utf8;
use vstd::utf8::encode_scalar;
use vstd::utf8::is_ascii_chars;
use vstd::utf8::is_ascii_chars_encode_utf8;

verus! {

/// The base64 text of a byte sequence in the standard alphabet with `=`
/// padding, as the encoder produces it.
pub uninterp spec fn base64_of(bytes: Seq<u8>) -> Seq<char>;

/// Relies on `irelia_encoder::Encoder::encode`: the base64 of the input
/// bytes in the standard alphabet with `=` padding — four output characters
/// for every started group of three input bytes — a function of the bytes
/// alone.
#[verifier::external_body]
fn base64_encode(bytes: &[u8]) -> (r: String)
    requires
        4 * ((bytes@.len() + 2) / 3) <= usize::MAX,
    ensures
        r@ == base64_of(bytes@),
        r@.len() == 4 * ((bytes@.len() + 2) / 3),
{
    irelia_encoder::Encoder::new().encode(bytes)
}

/// Encoding a concatenation encodes each part.
pub proof fn lemma_encode_utf8_concat(a: Seq<char>, b: Seq<char>)
    ensures
        encode_utf8(a + b) == encode_utf8(a) + encode_utf8(b),
    decreases a.len(),
{
    if a.len() == 0 {
        assert(a + b =~= b);
        assert(encode_utf8(a) + encode_utf8(b) =~= encode_utf8(b));
    } else {
        assert((a + b).drop_first() =~= a.drop_first() + b);
        lemma_encode_utf8_concat(a.drop_first(), b);
        assert((a + b)[0] == a[0]);
        assert(encode_scalar(a[0] as u32) + (encode_utf8(a.drop_first()) + encode_utf8(b)) =~= (
        encode_scalar(a[0] as u32) + encode_utf8(a.drop_first())) + encode_utf8(b));
    }
}

/// The credential string handed to the encoder.
pub open spec fn credential_string(token: Seq<char>) -> Seq<char> {
    "riot:"@ + token
}

/// The final header value for a token: `Basic `, then the base64 of the
/// UTF-8 bytes of `riot:<token>`.
pub open spec fn auth_header_spec(token: Seq<char>) -> Seq<char> {
    "Basic "@ + base64_of(encode_utf8(credential_string(token)))
}

/// The credential string's UTF-8 form is five bytes of `riot:` followed by
/// the token's bytes.
pub proof fn lemma_credential_bytes(token: Seq<char>)
    ensures
        encode_utf8(credential_string(token)).len() == 5 + encode_utf8(token).len(),
{
    reveal_strlit("riot:");
    assert(is_ascii_chars("riot:"@));
    is_ascii_chars_encode_utf8("riot:"@);
    lemma_encode_utf8_concat("riot:"@, token);
}

/// Build the ready-to-send header value `Basic <base64 of "riot:" + token>`.
/// Encoding never fails; the bound keeps the encoded length addressable.
pub fn build_auth_header(auth_token: &str) -> (r: String)
    requires
        4 * ((encode_utf8(auth_token@).len() + 7) / 3) + 6 <= usize::MAX,
    ensures
        r@ == auth_header_spec(auth_token@),
{
    let mut needs_encoding = String::from_str("riot:");
    needs_encoding.append(auth_token);
    proof {
        lemma_credential_bytes(auth_token@);
    }
    let encoded = base64_encode(needs_encoding.as_str().as_bytes());
    let header = String::from_str("Basic ").concat(encoded.as_str());
    header
}

} // verus!
