//! The cryptographic primitives the login protocol is built from. Each is
//! computed by an outside crate; here each gets a name, so that contracts can
//! say which primitive was applied to which bytes. Hexadecimal text, which
//! a few lines state in full, is written here and proved.

use vstd::prelude::*;
use hmac::Mac;
use sha2::Digest;
use cbc::cipher::BlockDecryptMut;
use cbc::cipher::KeyIvInit;
use base64::Engine;
use crate::text::string_of;

verus! {

/// The SHA-256 digest of the bytes.
pub uninterp spec fn sha256_digest(data: Seq<u8>) -> Seq<u8>;

/// The SHA-1 digest of the bytes.
pub uninterp spec fn sha1_digest(data: Seq<u8>) -> Seq<u8>;

/// The HMAC-SHA256 tag of the message under the key.
pub uninterp spec fn hmac_sha256_tag(key: Seq<u8>, message: Seq<u8>) -> Seq<u8>;

/// The 32 bytes that PBKDF2 with HMAC-SHA256 derives from a password and a
/// salt in the given number of rounds.
pub uninterp spec fn pbkdf2_sha256_key(password: Seq<u8>, salt: Seq<u8>, rounds: u32) -> Seq<u8>;

/// The public value that belongs to the secret `a` in SRP-6a over the
/// 2048-bit group with SHA-256.
pub uninterp spec fn srp_public_value(a: Seq<u8>) -> Seq<u8>;

/// The client proof and the shared key that SRP-6a derives, in that order;
/// `None` where the server's public value is refused.
pub uninterp spec fn srp_reply(
    a: Seq<u8>,
    username: Seq<u8>,
    password: Seq<u8>,
    salt: Seq<u8>,
    b_pub: Seq<u8>,
) -> Option<(Seq<u8>, Seq<u8>)>;

/// Whether `reply` is the server proof that SRP-6a expects after that exchange.
pub uninterp spec fn srp_server_proof_accepted(
    a: Seq<u8>,
    username: Seq<u8>,
    password: Seq<u8>,
    salt: Seq<u8>,
    b_pub: Seq<u8>,
    reply: Seq<u8>,
) -> bool;

/// The plaintext of an AES-256-CBC ciphertext with PKCS#7 padding; `None`
/// where the key or the vector has the wrong length, the ciphertext is no
/// whole number of blocks, or the padding is wrong.
pub uninterp spec fn aes256_cbc_plaintext(key: Seq<u8>, iv: Seq<u8>, data: Seq<u8>) -> Option<
    Seq<u8>,
>;

/// The standard base64 text of the bytes, with padding.
pub uninterp spec fn base64_text(data: Seq<u8>) -> Seq<char>;

/// The hexadecimal digit for a number under sixteen, in lower case.
pub open spec fn hex_digit(n: u8) -> char {
    if n < 10 {
        (0x30 + n) as u8 as char
    } else {
        (0x57 + n) as u8 as char
    }
}

/// The lower-case hexadecimal text of the bytes: for each byte two digits,
/// the higher one first.
pub open spec fn hex_text(data: Seq<u8>) -> Seq<char>
    decreases data.len(),
{
    if data.len() == 0 {
        Seq::empty()
    } else {
        hex_text(data.drop_last()).push(hex_digit(data.last() / 16)).push(
            hex_digit(data.last() % 16),
        )
    }
}

/// What a password exchange yields: the proof for the server and the shared key.
pub struct SrpReply {
    pub proof: Vec<u8>,
    pub key: Vec<u8>,
}

/// `Sha256::digest` of the `sha2` crate: the digest, 32 bytes long.
#[verifier::external_body]
pub(crate) fn sha256(data: &[u8]) -> (r: Vec<u8>)
    ensures
        r@ == sha256_digest(data@),
        r@.len() == 32,
{
    sha2::Sha256::digest(data).to_vec()
}

/// `Sha1::digest` of the `sha1` crate: the digest, 20 bytes long.
#[verifier::external_body]
pub(crate) fn sha1(data: &[u8]) -> (r: Vec<u8>)
    ensures
        r@ == sha1_digest(data@),
        r@.len() == 20,
{
    sha1::Sha1::digest(data).to_vec()
}

/// `Hmac<Sha256>` of the `hmac` crate, keyed with `new_from_slice`, fed with
/// the message and finalized: the tag, 32 bytes long. A key of any length is
/// accepted.
#[verifier::external_body]
pub(crate) fn hmac_sha256(key: &[u8], message: &[u8]) -> (r: Vec<u8>)
    ensures
        r@ == hmac_sha256_tag(key@, message@),
        r@.len() == 32,
{
    let mut mac = hmac::Hmac::<sha2::Sha256>::new_from_slice(key).expect("any key length");
    mac.update(message);
    mac.finalize().into_bytes().to_vec()
}

/// `pbkdf2::pbkdf2` with `Hmac<Sha256>` into a buffer of 32 bytes: the
/// derived key.
#[verifier::external_body]
pub(crate) fn pbkdf2_sha256(password: &[u8], salt: &[u8], rounds: u32) -> (r: Vec<u8>)
    ensures
        r@ == pbkdf2_sha256_key(password@, salt@, rounds),
        r@.len() == 32,
{
    let mut buf = vec![0u8; 32];
    pbkdf2::pbkdf2::<hmac::Hmac<sha2::Sha256>>(password, salt, rounds, &mut buf)
        .expect("any key length");
    buf
}

/// `SrpClient::compute_public_ephemeral` of the `srp` crate, for SHA-256 and
/// the group `G_2048`.
#[verifier::external_body]
pub(crate) fn srp_public_ephemeral(a: &[u8]) -> (r: Vec<u8>)
    ensures
        r@ == srp_public_value(a@),
{
    srp::client::SrpClient::<sha2::Sha256>::new(&srp::groups::G_2048).compute_public_ephemeral(a)
}

/// `SrpClient::process_reply` of the `srp` crate, for SHA-256 and the group
/// `G_2048`: the verifier's `proof` and `key`, or `None` where the crate
/// refuses the server's public value.
#[verifier::external_body]
pub(crate) fn srp_process_reply(
    a: &[u8],
    username: &[u8],
    password: &[u8],
    salt: &[u8],
    b_pub: &[u8],
) -> (r: Option<SrpReply>)
    ensures
        match r {
            Some(reply) => srp_reply(a@, username@, password@, salt@, b_pub@) == Some(
                (reply.proof@, reply.key@),
            ),
            None => srp_reply(a@, username@, password@, salt@, b_pub@) is None,
        },
{
    srp::client::SrpClient::<sha2::Sha256>::new(&srp::groups::G_2048)
        .process_reply(a, username, password, salt, b_pub)
        .ok()
        .map(|v| SrpReply { proof: v.proof().to_vec(), key: v.key().to_vec() })
}

/// `SrpClientVerifier::verify_server` of the `srp` crate on the verifier that
/// `process_reply` gives for the same exchange: whether the server's proof
/// is the expected one. `false` too where `process_reply` gives no verifier.
#[verifier::external_body]
pub(crate) fn srp_verify_server(
    a: &[u8],
    username: &[u8],
    password: &[u8],
    salt: &[u8],
    b_pub: &[u8],
    reply: &[u8],
) -> (r: bool)
    ensures
        r == srp_server_proof_accepted(a@, username@, password@, salt@, b_pub@, reply@),
{
    srp::client::SrpClient::<sha2::Sha256>::new(&srp::groups::G_2048)
        .process_reply(a, username, password, salt, b_pub)
        .map_or(false, |v| v.verify_server(reply).is_ok())
}

/// `cbc::Decryptor<Aes256>` made with `new_from_slices`, then
/// `decrypt_padded_vec_mut` with PKCS#7: the plaintext, or `None` where either
/// call reports an error.
#[verifier::external_body]
pub(crate) fn aes256_cbc_decrypt(key: &[u8], iv: &[u8], data: &[u8]) -> (r: Option<Vec<u8>>)
    ensures
        match r {
            Some(plain) => aes256_cbc_plaintext(key@, iv@, data@) == Some(plain@),
            None => aes256_cbc_plaintext(key@, iv@, data@) is None,
        },
{
    cbc::Decryptor::<aes::Aes256>::new_from_slices(key, iv)
        .ok()
        .and_then(|d| d.decrypt_padded_vec_mut::<cbc::cipher::block_padding::Pkcs7>(data).ok())
}

/// `encode` of the `base64` crate's `STANDARD` engine. The crate panics where
/// the length of the text would not fit a `usize`; such inputs are left out.
#[verifier::external_body]
pub(crate) fn base64_encode(data: &[u8]) -> (r: String)
    requires
        data@.len() <= 0x4000_0000,
    ensures
        r@ == base64_text(data@),
{
    base64::engine::general_purpose::STANDARD.encode(data)
}

fn digit(n: u8) -> (r: char)
    requires
        n < 16,
    ensures
        r == hex_digit(n),
{
    if n < 10 {
        (0x30 + n) as char
    } else {
        (0x57 + n) as char
    }
}

/// The bytes in lower-case hexadecimal digits.
pub fn hex_encode(data: &[u8]) -> (r: String)
    ensures
        r@ == hex_text(data@),
{
    let mut out: Vec<char> = Vec::new();
    let mut i: usize = 0;
    while i < data.len()
        invariant
            i <= data.len(),
            out@ == hex_text(data@.take(i as int)),
        decreases data.len() - i,
    {
        assert(data@.take(i + 1).drop_last() =~= data@.take(i as int));
        out.push(digit(data[i] / 16));
        out.push(digit(data[i] % 16));
        i = i + 1;
    }
    assert(data@.take(i as int) =~= data@);
    string_of(&out)
}

/// `rand::random` for 32 bytes: a fresh secret. Nothing is known of it but
/// its length.
#[verifier::external_body]
pub(crate) fn random_secret() -> (r: Vec<u8>)
    ensures
        r@.len() == 32,
{
    rand::random::<[u8; 32]>().to_vec()
}

/// Whether a character is a hexadecimal digit in upper case.
pub open spec fn is_upper_hex(c: char) -> bool {
    (0x30 <= c as u32 <= 0x39) || (0x41 <= c as u32 <= 0x46)
}

/// Whether a text has the shape of an identifier: groups of eight, four,
/// four, four and twelve hexadecimal digits in upper case, with a hyphen
/// between two groups.
pub open spec fn identifier_shaped(s: Seq<char>) -> bool {
    s.len() == 36 && forall|i: int|
        #![trigger s[i]]
        0 <= i < 36 ==> if i == 8 || i == 13 || i == 18 || i == 23 {
            s[i] == '-'
        } else {
            is_upper_hex(s[i])
        }
}

/// `Uuid::new_v4` of the `uuid` crate, written hyphenated in upper case: a
/// fresh identifier. Nothing is known of it but its shape.
#[verifier::external_body]
pub(crate) fn random_identifier() -> (r: String)
    ensures
        identifier_shaped(r@),
{
    uuid::Uuid::new_v4().hyphenated().encode_upper(&mut uuid::Uuid::encode_buffer()).to_owned()
}

} // verus!
