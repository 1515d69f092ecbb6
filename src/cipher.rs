//! Password-based encryption of strings.
//!
//! The key is the SHA-256 digest of the password; the text is encrypted with
//! AES-256 in counter mode under a random nonce, and its MD5 digest is kept
//! beside it, so that decryption can tell a wrong password.
use vstd::prelude::*;
use vstd::slice::slice_to_vec;
use vstd::utf8::{encode_utf8, valid_utf8};

use aes::cipher::{KeyIvInit, StreamCipher};
use rand::Rng;

verus! {

/// The SHA-256 digest of `data`.
pub uninterp spec fn sha256_of(data: Seq<u8>) -> Seq<u8>;

/// The MD5 digest of `data`.
pub uninterp spec fn md5_of(data: Seq<u8>) -> Seq<u8>;

/// `data` with the AES-256 counter-mode keystream for `key` and `nonce`
/// applied.
pub uninterp spec fn keystream_applied(key: Seq<u8>, nonce: Seq<u8>, data: Seq<u8>) -> Seq<u8>;

/// std's error for bytes that are not UTF-8, carried through opaquely.
#[verifier::external_type_specification]
#[verifier::external_body]
pub struct ExFromUtf8Error(std::string::FromUtf8Error);

/// Relies on ring's `digest::digest` with `SHA256`: the digest of the bytes,
/// 32 bytes long.
#[verifier::external_body]
fn sha256(data: &[u8]) -> (r: Vec<u8>)
    ensures
        r@ == sha256_of(data@),
        r@.len() == 32,
{
    ring::digest::digest(&ring::digest::SHA256, data).as_ref().to_vec()
}

/// Relies on md5's `compute`: the digest of the bytes, 16 bytes long.
#[verifier::external_body]
fn md5_digest(data: &[u8]) -> (r: Vec<u8>)
    ensures
        r@ == md5_of(data@),
        r@.len() == 16,
{
    md5::compute(data).to_vec()
}

/// Relies on ctr's `Ctr64LE<aes::Aes256>`, built by `KeyIvInit::new` from a
/// 32-byte key and a 16-byte nonce, and on `StreamCipher::apply_keystream`,
/// which xors the data with the keystream in place: the result depends on
/// key, nonce and data alone and has the data's length, and a fresh cipher
/// with the same key and nonce xors it back.
#[verifier::external_body]
fn apply_keystream(key: &[u8], nonce: &[u8; 16], data: &mut Vec<u8>)
    requires
        key@.len() == 32,
    ensures
        final(data)@ == keystream_applied(key@, nonce@, old(data)@),
        final(data)@.len() == old(data)@.len(),
        keystream_applied(key@, nonce@, final(data)@) == old(data)@,
{
    let mut cipher = ctr::Ctr64LE::<aes::Aes256>::new(key.into(), &(*nonce).into());
    cipher.apply_keystream(data.as_mut_slice());
}

/// Relies on rand's `thread_rng().gen()`: random bytes, of which nothing is
/// known.
#[verifier::external_body]
fn random_nonce() -> (r: [u8; 16]) {
    rand::thread_rng().gen()
}

/// Relies on `String::from_utf8`: the text the bytes encode, an error when
/// they are not UTF-8.
#[verifier::external_body]
fn utf8_text(data: Vec<u8>) -> (r: Result<String, std::string::FromUtf8Error>)
    ensures
        r is Ok <==> valid_utf8(data@),
        r is Ok ==> encode_utf8(r->Ok_0@) == data@,
{
    String::from_utf8(data)
}

/// Whether `a` and `b` hold the same bytes.
fn same_bytes(a: &Vec<u8>, b: &Vec<u8>) -> (r: bool)
    ensures
        r == (a@ == b@),
{
    if a.len() != b.len() {
        return false;
    }
    let mut i: usize = 0;
    while i < a.len()
        invariant
            i <= a@.len(),
            a@.len() == b@.len(),
            forall|j: int| 0 <= j < i ==> a@[j] == b@[j],
        decreases a@.len() - i,
    {
        if a[i] != b[i] {
            return false;
        }
        i = i + 1;
    }
    assert(a@ =~= b@);
    true
}

/// Why a text could not be decrypted.
#[derive(Debug, PartialEq)]
pub enum DecryptionError {
    /// The digest of what came out does not match: another password was used.
    WrongPassword,
    /// What came out is not UTF-8.
    EncodingError(std::string::FromUtf8Error),
}

/// An encrypted text: the encrypted bytes, the nonce, and the digest of the
/// plain bytes.
pub struct EncryptedData {
    pub data: Vec<u8>,
    pub nonce: [u8; 16],
    pub hash: Vec<u8>,
}

/// The key that a password gives.
pub open spec fn key_of(passwd: Seq<char>) -> Seq<u8> {
    sha256_of(encode_utf8(passwd))
}

/// Encrypts `string` with `passwd` under a fresh random nonce.
pub fn encrypt_string(passwd: &String, string: String) -> (r: EncryptedData)
    ensures
        r.data@ == keystream_applied(key_of(passwd@), r.nonce@, encode_utf8(string@)),
        r.hash@ == md5_of(encode_utf8(string@)),
        keystream_applied(key_of(passwd@), r.nonce@, r.data@) == encode_utf8(string@),
{
    let key = sha256(passwd.as_str().as_bytes());
    let plain = string.as_str().as_bytes();
    let mut data = slice_to_vec(plain);
    let nonce = random_nonce();
    apply_keystream(key.as_slice(), &nonce, &mut data);
    EncryptedData { data, nonce, hash: md5_digest(plain) }
}

/// Decrypts `encrypted_data` with `passwd`: fails when the digest of the
/// decrypted bytes is not the one kept, else gives the text they encode.
pub fn decrypt_string(passwd: &String, encrypted_data: EncryptedData) -> (r: Result<String, DecryptionError>)
    ensures
        ({
            let plain = keystream_applied(key_of(passwd@), encrypted_data.nonce@, encrypted_data.data@);
            &&& (r is Err && r->Err_0 is WrongPassword) <==> md5_of(plain) != encrypted_data.hash@
            &&& r is Ok <==> md5_of(plain) == encrypted_data.hash@ && valid_utf8(plain)
            &&& r is Ok ==> encode_utf8(r->Ok_0@) == plain
        }),
{
    let key = sha256(passwd.as_str().as_bytes());
    let EncryptedData { data, nonce, hash } = encrypted_data;
    let mut data = data;
    apply_keystream(key.as_slice(), &nonce, &mut data);
    let digest = md5_digest(data.as_slice());
    if !same_bytes(&digest, &hash) {
        return Err(DecryptionError::WrongPassword);
    }
    match utf8_text(data) {
        Ok(text) => Ok(text),
        Err(err) => Err(DecryptionError::EncodingError(err)),
    }
}

/// Decryption undoes encryption: for what `encrypt_string` gives for a text
/// under a password, the bytes that decryption with that password recovers
/// match the digest kept, are UTF-8, and encode that text and no other; so
/// `decrypt_string` gives the text back.
pub proof fn lemma_decrypt_encrypted(passwd: Seq<char>, text: Seq<char>, nonce: Seq<u8>, data: Seq<u8>, hash: Seq<u8>)
    requires
        data == keystream_applied(key_of(passwd), nonce, encode_utf8(text)),
        hash == md5_of(encode_utf8(text)),
        keystream_applied(key_of(passwd), nonce, data) == encode_utf8(text),
    ensures
        ({
            let plain = keystream_applied(key_of(passwd), nonce, data);
            &&& md5_of(plain) == hash
            &&& valid_utf8(plain)
            &&& forall|t: Seq<char>| encode_utf8(t) == plain ==> t == text
        }),
{
    vstd::utf8::encode_utf8_valid_utf8(text);
    assert forall|t: Seq<char>| encode_utf8(t) == encode_utf8(text) implies t == text by {
        vstd::utf8::encode_utf8_decode_utf8(t);
        vstd::utf8::encode_utf8_decode_utf8(text);
    }
}

} // verus!
