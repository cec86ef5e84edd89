//! The secret obfuscator: a reversible, deterministic transform applied to
//! a password before it is stored and after it is read back.
//!
//! The transform XORs the password's UTF-8 bytes with a fixed key and then
//! encodes the result in standard base64. It is explicitly not a security
//! boundary: the key is hardcoded and the scheme is documented as
//! obfuscation, not encryption.

use vstd::prelude::*;
use vstd::string::StrSliceExecFns;
use vstd::string::StringSliceAdditionalSpecFns;
use vstd::utf8::decode_utf8;
use vstd::utf8::decode_utf8_encode_utf8;
use vstd::utf8::encode_utf8;
use vstd::utf8::encode_utf8_decode_utf8;
use vstd::utf8::encode_utf8_valid_utf8;
use vstd::utf8::valid_utf8;
use base64::Engine as _;

verus! {

/// Why a stored secret could not be recovered.
#[derive(Debug, Clone, Copy, PartialEq, Eq)]
pub enum DecodeFailure {
    /// The stored text is not a canonical base64 encoding of any bytes.
    NotBase64,
    /// The decoded, de-obscured bytes are not valid UTF-8.
    NotUtf8,
}

/// The fixed obfuscation key.
pub open spec fn spec_key() -> Seq<u8> {
    seq![
        0x00u8, 0x01u8, 0x02u8, 0x03u8, 0x04u8, 0x05u8, 0x06u8, 0x07u8,
        0x08u8, 0x09u8, 0x0Au8, 0x0Bu8, 0x0Cu8, 0x0Du8, 0x0Eu8, 0x0Fu8,
    ]
}

fn get_or_create_key() -> (r: [u8; 16])
    ensures
        r@ == spec_key(),
{
    let r: [u8; 16] = [
        0x00, 0x01, 0x02, 0x03, 0x04, 0x05, 0x06, 0x07,
        0x08, 0x09, 0x0A, 0x0B, 0x0C, 0x0D, 0x0E, 0x0F,
    ];
    proof {
        assert(r@ =~= spec_key());
    }
    r
}

/// Each byte XORed with the key byte at its index, the key repeating
/// every sixteen bytes.
pub open spec fn xor_key(data: Seq<u8>) -> Seq<u8> {
    data.map(|i: int, b: u8| b ^ spec_key()[i % 16])
}

/// Applying the key twice gives the data back: the transform is an
/// involution, which is what makes the obfuscator reversible.
pub proof fn lemma_xor_key_involutive(data: Seq<u8>)
    ensures
        xor_key(xor_key(data)) == data,
{
    assert forall|i: int| 0 <= i < data.len() implies xor_key(xor_key(data))[i] == data[i] by {
        let k = spec_key()[i % 16];
        let b = data[i];
        assert((b ^ k) ^ k == b) by (bit_vector);
    }
    assert(xor_key(xor_key(data)) =~= data);
}

#[verifier::loop_isolation(false)]
fn xor_with_key(data: &Vec<u8>) -> (r: Vec<u8>)
    ensures
        r@ == xor_key(data@),
{
    let key = get_or_create_key();
    let mut r: Vec<u8> = Vec::new();
    let mut i: usize = 0;
    while i < data.len()
        invariant
            i <= data.len(),
            r@.len() == i,
            forall|j: int| 0 <= j < i ==> r@[j] == data@[j] ^ spec_key()[j % 16],
        decreases data.len() - i,
    {
        r.push(data[i] ^ key[i % 16]);
        i += 1;
    }
    proof {
        assert(r@ =~= xor_key(data@));
    }
    r
}

/// The canonical standard-alphabet base64 encoding of a byte sequence.
pub uninterp spec fn b64_of(bytes: Seq<u8>) -> Seq<char>;

#[verifier::external_type_specification]
#[verifier::external_body]
pub struct ExDecodeError(base64::DecodeError);

/// Relies on base64's `STANDARD` engine: `encode` returns the canonical
/// base64 text of the input bytes, a pure function of the bytes alone.
#[verifier::external_body]
fn b64_encode(bytes: &Vec<u8>) -> (r: String)
    ensures
        r@ == b64_of(bytes@),
{
    base64::engine::general_purpose::STANDARD.encode(bytes)
}

/// Relies on base64's `STANDARD` engine: with canonical padding required
/// and trailing bits rejected, `decode` succeeds exactly on canonical
/// encodings and returns the unique preimage.
#[verifier::external_body]
fn b64_decode(s: &str) -> (r: Result<Vec<u8>, base64::DecodeError>)
    ensures
        r matches Ok(v) ==> s@ == b64_of(v@) && (forall|w: Seq<u8>| b64_of(w) == s@ ==> w == v@),
        r is Err ==> (forall|w: Seq<u8>| b64_of(w) != s@),
{
    base64::engine::general_purpose::STANDARD.decode(s)
}

/// Relies on `String::from_utf8`: it succeeds exactly on valid UTF-8 and
/// returns the string those bytes encode.
#[verifier::external_body]
fn bytes_to_string(bytes: Vec<u8>) -> (r: Option<String>)
    ensures
        r matches Some(s) ==> valid_utf8(bytes@) && s@ == decode_utf8(bytes@),
        r is None ==> !valid_utf8(bytes@),
{
    String::from_utf8(bytes).ok()
}

/// The stored form of a password: its UTF-8 bytes XORed with the key,
/// then base64-encoded.
pub open spec fn obscured(plain: Seq<char>) -> Seq<char> {
    b64_of(xor_key(encode_utf8(plain)))
}

/// Obscuring is deterministic: equal passwords obscure to equal stored
/// forms; there is no per-call randomness in the transform.
pub proof fn lemma_obscured_deterministic(s1: Seq<char>, s2: Seq<char>)
    requires
        s1 == s2,
    ensures
        obscured(s1) == obscured(s2),
{
}

/// Obscures a password for storage.
pub(crate) fn obscure(password: &str) -> (r: String)
    ensures
        r@ == obscured(password@),
{
    let bytes = password.as_bytes_vec();
    let masked = xor_with_key(&bytes);
    b64_encode(&masked)
}

/// Obscures a password for storage. Obscuring never fails; the `Result`
/// mirrors the decoding direction's shape.
pub fn encrypt_password(password: &str) -> (r: Result<String, DecodeFailure>)
    ensures
        r matches Ok(s) && s@ == obscured(password@),
{
    Ok(obscure(password))
}

/// Recovers a password from its stored form. Succeeds exactly on the
/// obscured form of some password and then returns that password, so
/// decoding inverts [`encrypt_password`] on every input.
pub fn decrypt_password(encrypted_password: &str) -> (r: Result<String, DecodeFailure>)
    ensures
        r matches Ok(s) ==> encrypted_password@ == obscured(s@),
        forall|p: Seq<char>|
            encrypted_password@ == obscured(p) ==> (r matches Ok(s) && s@ == p),
        r == Err::<String, DecodeFailure>(DecodeFailure::NotBase64) <==> (forall|v: Seq<u8>|
            b64_of(v) != encrypted_password@),
        r == Err::<String, DecodeFailure>(DecodeFailure::NotUtf8) <==> (exists|v: Seq<u8>|
            b64_of(v) == encrypted_password@ && !valid_utf8(xor_key(v))),
{
    match b64_decode(encrypted_password) {
        Err(_) => {
            proof {
                assert forall|p: Seq<char>|
                    encrypted_password@ != obscured(p) by {
                    assert(b64_of(xor_key(encode_utf8(p))) != encrypted_password@);
                }
            }
            Err(DecodeFailure::NotBase64)
        },
        Ok(v) => {
            let ghost vv = v@;
            let plain_bytes = xor_with_key(&v);
            match bytes_to_string(plain_bytes) {
                Some(s) => {
                    proof {
                        decode_utf8_encode_utf8(xor_key(vv));
                        lemma_xor_key_involutive(vv);
                        assert(encrypted_password@ == obscured(s@));
                        assert forall|p: Seq<char>|
                            encrypted_password@ == obscured(p) implies s@ == p by {
                            assert(b64_of(xor_key(encode_utf8(p))) == encrypted_password@);
                            assert(xor_key(encode_utf8(p)) == vv);
                            lemma_xor_key_involutive(encode_utf8(p));
                            assert(xor_key(vv) == encode_utf8(p));
                            encode_utf8_decode_utf8(p);
                        }
                        assert forall|w: Seq<u8>|
                            !(b64_of(w) == encrypted_password@ && !valid_utf8(xor_key(w))) by {
                            if b64_of(w) == encrypted_password@ {
                                assert(w == vv);
                            }
                        }
                    }
                    Ok(s)
                },
                None => {
                    proof {
                        assert forall|p: Seq<char>|
                            encrypted_password@ != obscured(p) by {
                            if encrypted_password@ == obscured(p) {
                                assert(b64_of(xor_key(encode_utf8(p))) == encrypted_password@);
                                assert(xor_key(encode_utf8(p)) == vv);
                                lemma_xor_key_involutive(encode_utf8(p));
                                assert(xor_key(vv) == encode_utf8(p));
                                encode_utf8_valid_utf8(p);
                            }
                        }
                    }
                    Err(DecodeFailure::NotUtf8)
                },
            }
        },
    }
}

} // verus!
