use base64::Engine;
use vstd::prelude::*;
use vstd::string::StringExecFns;
use vstd::utf8::encode_utf8;

verus! {

/// The unpadded URL-safe base64 text of some bytes.
pub uninterp spec fn b64url(b: Seq<u8>) -> Seq<char>;

/// Relies on base64's `URL_SAFE_NO_PAD.encode`: the unpadded URL-safe base64
/// text of the bytes, which depends on the bytes alone. It panics only when
/// the encoded length overflows `usize`, which no slice (at most
/// `isize::MAX` bytes long) reaches.
#[verifier::external_body]
fn encode_b64url(b: &[u8]) -> (r: String)
    ensures
        r@ == b64url(b@),
{
    base64::engine::general_purpose::URL_SAFE_NO_PAD.encode(b)
}

/// The protected header of a signed UI token.
pub open spec fn jws_header() -> Seq<u8> {
    encode_utf8("{\"typ\":\"JWT\",\"alg\":\"ES256\"}"@)
}

/// The claims of a signed UI token: any role.
pub open spec fn jws_claims() -> Seq<u8> {
    encode_utf8("{\"edgedb.server.any_role\":true}"@)
}

/// The JSON header of an encrypted legacy token whose ephemeral public key
/// has coordinates `x` and `y`.
pub open spec fn jwe_header_json(x: Seq<u8>, y: Seq<u8>) -> Seq<char> {
    "{\"alg\":\"ECDH-ES\",\"enc\":\"A256GCM\",\"epk\":{\"crv\":\"P-256\",\"kty\":\"EC\",\"x\":\""@
        + b64url(x) + "\",\"y\":\""@ + b64url(y) + "\"}}"@
}

/// The input of the key derivation for an encrypted legacy token: counter 1,
/// the shared secret, the algorithm `A256GCM`, empty party infos, and 256 bits.
pub open spec fn kdf_input(key_material: Seq<u8>) -> Seq<u8> {
    seq![0u8, 0, 0, 1] + key_material + seq![0u8, 0, 0, 7] + seq![65u8, 50, 53, 54, 71, 67, 77]
        + seq![0u8, 0, 0, 0] + seq![0u8, 0, 0, 0] + seq![0u8, 0, 1, 0]
}

/// The text that a signed UI token signs: header and claims, encoded.
pub fn jws_signing_input() -> (r: String)
    ensures
        r@ == b64url(jws_header()) + "."@ + b64url(jws_claims()),
{
    let header = "{\"typ\":\"JWT\",\"alg\":\"ES256\"}".as_bytes();
    let claims = "{\"edgedb.server.any_role\":true}".as_bytes();
    let mut s = encode_b64url(header);
    s.append(".");
    let c = encode_b64url(claims);
    s.append(c.as_str());
    s
}

/// A signed UI token: the signing input and the encoded signature.
pub fn jws_token(signing_input: &String, signature: &[u8]) -> (r: String)
    ensures
        r@ == signing_input@ + "."@ + b64url(signature@),
{
    let mut s = signing_input.clone();
    s.append(".");
    let e = encode_b64url(signature);
    s.append(e.as_str());
    s
}

/// The encoded protected header of a legacy token, from the uncompressed
/// ephemeral public key (a tag byte, then the two 32-byte coordinates).
pub fn jwe_protected_header(epk: &[u8]) -> (r: String)
    requires
        epk@.len() == 65,
    ensures
        r@ == b64url(encode_utf8(jwe_header_json(epk@.subrange(1, 33), epk@.subrange(33, 65)))),
{
    let x = encode_b64url(vstd::slice::slice_subrange(epk, 1, 33));
    let y = encode_b64url(vstd::slice::slice_subrange(epk, 33, 65));
    let mut j = String::from_str(
        "{\"alg\":\"ECDH-ES\",\"enc\":\"A256GCM\",\"epk\":{\"crv\":\"P-256\",\"kty\":\"EC\",\"x\":\"",
    );
    j.append(x.as_str());
    j.append("\",\"y\":\"");
    j.append(y.as_str());
    j.append("\"}}");
    assert(j@ =~= jwe_header_json(epk@.subrange(1, 33), epk@.subrange(33, 65)));
    encode_b64url(j.as_str().as_bytes())
}

/// A legacy token: protected header, empty key, nonce, ciphertext and tag.
pub fn jwe_token(protected: &String, nonce: &[u8], ciphertext: &[u8], tag: &[u8]) -> (r: String)
    ensures
        r@ == protected@ + ".."@ + b64url(nonce@) + "."@ + b64url(ciphertext@) + "."@ + b64url(
            tag@,
        ),
{
    let mut s = protected.clone();
    s.append("..");
    let n = encode_b64url(nonce);
    s.append(n.as_str());
    s.append(".");
    let c = encode_b64url(ciphertext);
    s.append(c.as_str());
    s.append(".");
    let t = encode_b64url(tag);
    s.append(t.as_str());
    s
}

fn push_bytes(v: &mut Vec<u8>, b: &[u8])
    ensures
        final(v)@ == old(v)@ + b@,
{
    let mut i: usize = 0;
    while i < b.len()
        invariant
            i <= b@.len(),
            v@ == old(v)@ + b@.subrange(0, i as int),
        decreases b@.len() - i,
    {
        v.push(b[i]);
        i = i + 1;
        assert(v@ =~= old(v)@ + b@.subrange(0, i as int));
    }
    assert(b@.subrange(0, i as int) =~= b@);
}

/// The bytes that the content key of a legacy token is derived from.
pub fn concat_kdf_input(key_material: &[u8]) -> (r: Vec<u8>)
    ensures
        r@ == kdf_input(key_material@),
{
    let mut v: Vec<u8> = vec![0u8, 0, 0, 1];
    push_bytes(&mut v, key_material);
    let tail: Vec<u8> = vec![0u8, 0, 0, 7, 65, 50, 53, 54, 71, 67, 77, 0, 0, 0, 0, 0, 0, 0, 0, 0, 0, 1, 0];
    push_bytes(&mut v, tail.as_slice());
    assert(v@ =~= kdf_input(key_material@));
    v
}

} // verus!
