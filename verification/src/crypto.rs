//! Hashing, sealing and text encodings, as the outside crates give them.
use base64::engine::general_purpose::STANDARD;
use base64::Engine;
use chacha20poly1305::aead::{Aead, KeyInit};
use chacha20poly1305::{ChaCha20Poly1305, Key, Nonce};
use sha2::{Digest, Sha256};
use vstd::prelude::*;
use vstd::utf8::{decode_utf8, encode_utf8, valid_utf8};

verus! {

/// Whether `n` bytes can still be held in memory once they are sealed and
/// written in base64: no allocation can be larger than `isize::MAX` bytes.
pub open spec fn fits_memory(n: nat) -> bool {
    2 * n + 64 <= isize::MAX
}

/// The SHA-256 digest of some bytes.
pub uninterp spec fn sha256(data: Seq<u8>) -> Seq<u8>;

/// What ChaCha20-Poly1305 makes of a plaintext under a key and a nonce, with no
/// associated data.
pub uninterp spec fn sealed(key: Seq<u8>, nonce: Seq<u8>, plain: Seq<u8>) -> Option<Seq<u8>>;

/// The plaintext that ChaCha20-Poly1305 finds in a ciphertext under a key and a
/// nonce, with no associated data; nothing where the tag does not match.
pub uninterp spec fn unsealed(key: Seq<u8>, nonce: Seq<u8>, cipher: Seq<u8>) -> Option<Seq<u8>>;

/// Bytes written in the standard base64 alphabet, with padding.
pub uninterp spec fn base64_encoded(data: Seq<u8>) -> Seq<char>;

/// The bytes that a text in the standard base64 alphabet, with padding, stands
/// for; nothing where it is no such text.
pub uninterp spec fn base64_decoded(text: Seq<char>) -> Option<Seq<u8>>;

/// An optional vector of bytes as an optional sequence.
pub open spec fn optional_bytes(bytes: Option<Vec<u8>>) -> Option<Seq<u8>> {
    match bytes {
        Some(b) => Some(b@),
        None => None,
    }
}

/// `Sha256::digest` of the `sha2` crate. Claimed: the digest is a function of
/// the bytes alone, and is 32 bytes long.
#[verifier::external_body]
pub(crate) fn digest(data: &[u8]) -> (hash: Vec<u8>)
    ensures
        hash@ == sha256(data@),
        hash@.len() == 32,
{
    Sha256::digest(data).to_vec()
}

/// Whether one keystream of ChaCha20-Poly1305 is long enough for `n` bytes: it has
/// 2^32 - 2 blocks of 64 bytes for them.
pub open spec fn within_keystream(n: nat) -> bool {
    (n + 63) / 64 <= u32::MAX - 1
}

/// Whether `n` bytes can be sealed, and what comes of it be held in memory.
pub open spec fn can_seal(n: nat) -> bool {
    fits_memory(n) && within_keystream(n)
}

/// Whether `n` bytes can be sealed.
pub fn is_sealable(n: usize) -> (sealable: bool)
    ensures
        sealable == can_seal(n as nat),
{
    n <= (isize::MAX as usize - 64) / 2 && n as u64 <= 274877906816
}

/// Whether a ciphertext of `n` bytes can be opened: its last 16 bytes are the tag.
pub open spec fn can_open(n: nat) -> bool {
    n < 16 || within_keystream((n - 16) as nat)
}

/// Whether a ciphertext of `n` bytes can be opened.
pub fn is_openable(n: usize) -> (openable: bool)
    ensures
        openable == can_open(n as nat),
{
    n as u64 <= 274877906832
}

/// `Aead::encrypt` of `ChaCha20Poly1305`. Claimed: the result is a function of
/// key, nonce and plaintext; it is there; it is 16 bytes longer than the plaintext;
/// and decrypting it under the same key and nonce gives the plaintext back. A
/// plaintext that needs more blocks than the keystream has is left out.
#[verifier::external_body]
pub(crate) fn seal(key: &[u8; 32], nonce: &Vec<u8>, plain: &[u8]) -> (cipher: Option<Vec<u8>>)
    requires
        nonce@.len() == 12,
        fits_memory(plain@.len()),
        within_keystream(plain@.len()),
    ensures
        optional_bytes(cipher) == sealed(key@, nonce@, plain@),
        cipher is Some,
        cipher matches Some(c) ==> c@.len() == plain@.len() + 16,
        cipher matches Some(c) ==> unsealed(key@, nonce@, c@) == Some(plain@),
{
    ChaCha20Poly1305::new(Key::from_slice(key)).encrypt(Nonce::from_slice(nonce), plain).ok()
}

/// `Aead::decrypt` of `ChaCha20Poly1305`. Claimed: the result is a function of
/// key, nonce and ciphertext. A ciphertext that needs more blocks than the keystream
/// has is left out.
#[verifier::external_body]
pub(crate) fn unseal(key: &[u8; 32], nonce: &Vec<u8>, cipher: &Vec<u8>) -> (plain: Option<Vec<u8>>)
    requires
        nonce@.len() == 12,
        can_open(cipher@.len()),
    ensures
        optional_bytes(plain) == unsealed(key@, nonce@, cipher@),
{
    ChaCha20Poly1305::new(Key::from_slice(key)).decrypt(
        Nonce::from_slice(nonce),
        cipher.as_slice(),
    ).ok()
}

/// `Engine::encode` of base64's `STANDARD` engine. Claimed: the text is a
/// function of the bytes, and decoding it gives the bytes back.
#[verifier::external_body]
pub(crate) fn encode_base64(data: &Vec<u8>) -> (text: String)
    requires
        2 * data@.len() <= isize::MAX,
    ensures
        text@ == base64_encoded(data@),
        base64_decoded(text@) == Some(data@),
{
    STANDARD.encode(data)
}

/// `Engine::decode` of base64's `STANDARD` engine. Claimed: whether there are
/// bytes, and which, is a function of the text.
#[verifier::external_body]
pub(crate) fn decode_base64(text: &str) -> (data: Option<Vec<u8>>)
    ensures
        optional_bytes(data) == base64_decoded(text@),
{
    STANDARD.decode(text.as_bytes()).ok()
}

/// `String::from_utf8`. Claimed: the text is the decoding of the bytes, where
/// they are valid UTF-8.
#[verifier::external_body]
pub(crate) fn text_from_utf8(data: Vec<u8>) -> (text: Option<String>)
    ensures
        match text {
            Some(t) => valid_utf8(data@) && t@ == decode_utf8(data@),
            None => !valid_utf8(data@),
        },
{
    String::from_utf8(data).ok()
}

/// `rand::random`: 32 bytes of a cryptographic generator. Nothing is claimed of
/// their value.
#[verifier::external_body]
pub(crate) fn random_key() -> (key: [u8; 32]) {
    rand::random::<[u8; 32]>()
}

/// A text survives being written as UTF-8 and read again.
pub proof fn lemma_utf8_round_trip(text: Seq<char>)
    ensures
        valid_utf8(encode_utf8(text)),
        decode_utf8(encode_utf8(text)) == text,
{
    vstd::utf8::encode_utf8_valid_utf8(text);
    vstd::utf8::encode_utf8_decode_utf8(text);
}

} // verus!
