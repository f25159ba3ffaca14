//! Authenticated encryption of message payloads under a room's cipher key.
//!
//! A message frame is a 12-byte nonce followed by what AES-256-GCM makes of the
//! plaintext under that nonce: the ciphertext and its 16-byte tag.

use vstd::prelude::*;
use vstd::string::*;
use vstd::utf8::*;
use aes_gcm::aead::{Aead, KeyInit};
use aes_gcm::{Aes256Gcm, Nonce};
use crate::bytes::{concat, copy_range};
use crate::entropy::random_bytes;
use crate::key::{CipherKey, KEY_LEN};
use crate::text::string_from_utf8;

verus! {

/// Number of bytes of a nonce.
pub const NONCE_LEN: usize = 12;

/// Number of bytes of an authentication tag.
pub const TAG_LEN: usize = 16;

/// The longest plaintext, in bytes, that AES-GCM seals under one nonce: 32
/// bytes short of 64 GiB, where the 32-bit block counter would start over.
pub const MAX_PLAINTEXT_LEN: u64 = 0xF_FFFF_FFE0;

/// Why a plaintext was not encrypted.
#[derive(Clone, Copy, Debug, PartialEq, Eq, Structural)]
pub enum EncryptError {
    /// The plaintext holds more than `MAX_PLAINTEXT_LEN` bytes.
    PlaintextTooLong,
    /// The operating system gave no random bytes for a nonce.
    RandomSourceFailed,
}

/// Why a frame was not decrypted.
#[derive(Clone, Copy, Debug, PartialEq, Eq, Structural)]
pub enum DecryptError {
    /// The frame is no sealing of any plaintext under the key and the nonce
    /// that it carries.
    AuthenticationFailed,
    /// The frame is shorter than a nonce, or what it seals is not UTF-8.
    Malformed,
}

/// What AES-256-GCM makes of `plaintext` under `key` and `nonce`, with no
/// associated data: the ciphertext followed by its tag.
pub uninterp spec fn sealed(key: Seq<u8>, nonce: Seq<u8>, plaintext: Seq<u8>) -> Seq<u8>;

/// Whether `frame` is the message frame of `text` under `key` and `nonce`.
pub open spec fn is_message_frame(
    key: Seq<u8>,
    nonce: Seq<u8>,
    text: Seq<char>,
    frame: Seq<u8>,
) -> bool {
    &&& frame == nonce + sealed(key, nonce, encode_utf8(text))
    &&& frame.len() == NONCE_LEN + encode_utf8(text).len() + TAG_LEN
}

/// Whether `frame` carries a nonce and, after it, the sealing of `plaintext`
/// under `key` and that nonce.
pub open spec fn opens_to(key: Seq<u8>, frame: Seq<u8>, plaintext: Seq<u8>) -> bool {
    &&& plaintext.len() <= MAX_PLAINTEXT_LEN
    &&& frame.len() == NONCE_LEN + plaintext.len() + TAG_LEN
    &&& frame.subrange(NONCE_LEN as int, frame.len() as int) == sealed(
        key,
        frame.subrange(0, NONCE_LEN as int),
        plaintext,
    )
}

/// What is made of an authenticated plaintext: its text, if it is UTF-8.
pub open spec fn plaintext_outcome(plaintext: Seq<u8>) -> Result<Seq<char>, DecryptError> {
    if valid_utf8(plaintext) {
        Ok(decode_utf8(plaintext))
    } else {
        Err(DecryptError::Malformed)
    }
}

/// Whether `r` is what decrypting `frame` under `key` gives.
pub open spec fn decrypt_outcome(
    key: Seq<u8>,
    frame: Seq<u8>,
    r: Result<Seq<char>, DecryptError>,
) -> bool {
    &&& frame.len() < NONCE_LEN ==> r == Err::<Seq<char>, DecryptError>(DecryptError::Malformed)
    &&& forall|p: Seq<u8>| #[trigger] opens_to(key, frame, p) ==> r == plaintext_outcome(p)
    &&& frame.len() >= NONCE_LEN && (forall|p: Seq<u8>| !#[trigger] opens_to(key, frame, p)) ==> r
        == Err::<Seq<char>, DecryptError>(DecryptError::AuthenticationFailed)
}

/// The outcome of a decryption, with the text as a sequence of characters.
pub open spec fn text_result(r: Result<String, DecryptError>) -> Result<Seq<char>, DecryptError> {
    match r {
        Ok(s) => Ok(s@),
        Err(e) => Err(e),
    }
}

/// `Aes256Gcm::encrypt` under a cipher made of `key` by
/// `Aes256Gcm::new_from_slice`, with `nonce` and without associated data.
///
/// Taken on trust: on a plaintext of at most `MAX_PLAINTEXT_LEN` bytes the
/// call succeeds, and its result, the sealing, is 16 bytes longer than the
/// plaintext. The call turns down nothing but a plaintext of more than 64 GiB.
#[verifier::external_body]
fn aead_seal(key: &[u8], nonce: &[u8], plaintext: &[u8]) -> (r: Option<Vec<u8>>)
    requires
        key@.len() == KEY_LEN,
        nonce@.len() == NONCE_LEN,
        plaintext@.len() <= MAX_PLAINTEXT_LEN,
    ensures
        r is Some,
        r.unwrap()@ == sealed(key@, nonce@, plaintext@),
        r.unwrap()@.len() == plaintext@.len() + TAG_LEN,
{
    let cipher = Aes256Gcm::new_from_slice(key).ok()?;
    cipher.encrypt(Nonce::from_slice(nonce), plaintext).ok()
}

/// `Aes256Gcm::decrypt` under a cipher made of `key` by
/// `Aes256Gcm::new_from_slice`, with `nonce` and without associated data.
///
/// Taken on trust: the sealing of a plaintext opens to that plaintext, and
/// whatever opens is the sealing of what comes out, which is 16 bytes shorter.
#[verifier::external_body]
fn aead_open(key: &[u8], nonce: &[u8], body: &[u8]) -> (r: Option<Vec<u8>>)
    requires
        key@.len() == KEY_LEN,
        nonce@.len() == NONCE_LEN,
        body@.len() <= MAX_PLAINTEXT_LEN + TAG_LEN,
    ensures
        forall|p: Seq<u8>|
            p.len() <= MAX_PLAINTEXT_LEN && body@ == #[trigger] sealed(key@, nonce@, p) ==> r is Some
                && r.unwrap()@ == p,
        r is Some ==> r.unwrap()@.len() + TAG_LEN == body@.len() && sealed(
            key@,
            nonce@,
            r.unwrap()@,
        ) == body@,
{
    let cipher = Aes256Gcm::new_from_slice(key).ok()?;
    cipher.decrypt(Nonce::from_slice(nonce), body).ok()
}

/// Encrypts and decrypts under one cipher key for the life of a session.
pub struct CipherEngine {
    key: CipherKey,
}

impl View for CipherEngine {
    type V = Seq<u8>;

    /// The bytes of the engine's key.
    closed spec fn view(&self) -> Seq<u8> {
        self.key@
    }
}

impl CipherEngine {
    /// An engine bound to `key`.
    pub fn new(key: CipherKey) -> (engine: CipherEngine)
        ensures
            engine@ == key@,
    {
        CipherEngine { key }
    }

    /// Seals `plaintext` under the given nonce and returns the nonce followed
    /// by the sealing.
    ///
    /// A nonce must never serve twice under one key: callers that have no
    /// nonce of their own use `encrypt`.
    pub fn encrypt_with_nonce(&self, nonce: &[u8], plaintext: &str) -> (r: Result<
        Vec<u8>,
        EncryptError,
    >)
        requires
            nonce@.len() == NONCE_LEN,
        ensures
            encode_utf8(plaintext@).len() > MAX_PLAINTEXT_LEN ==> r matches Err(
                EncryptError::PlaintextTooLong,
            ),
            encode_utf8(plaintext@).len() <= MAX_PLAINTEXT_LEN ==> r is Ok && is_message_frame(
                self@,
                nonce@,
                plaintext@,
                r.unwrap()@,
            ),
    {
        let raw = plaintext.as_bytes();
        if raw.len() as u64 > MAX_PLAINTEXT_LEN {
            return Err(EncryptError::PlaintextTooLong);
        }
        match aead_seal(self.key.as_bytes(), nonce, raw) {
            Some(body) => Ok(concat(nonce, body.as_slice())),
            None => Err(EncryptError::PlaintextTooLong),
        }
    }

    /// Seals `plaintext` under a fresh random nonce and returns the nonce
    /// followed by the sealing. Where the operating system gives no random
    /// bytes, nothing is sealed.
    pub fn encrypt(&self, plaintext: &str) -> (r: Result<Vec<u8>, EncryptError>)
        ensures
            encode_utf8(plaintext@).len() > MAX_PLAINTEXT_LEN ==> r matches Err(
                EncryptError::PlaintextTooLong,
            ),
            encode_utf8(plaintext@).len() <= MAX_PLAINTEXT_LEN ==> match r {
                Ok(frame) => frame@.len() >= NONCE_LEN && is_message_frame(
                    self@,
                    frame@.subrange(0, NONCE_LEN as int),
                    plaintext@,
                    frame@,
                ),
                Err(e) => e == EncryptError::RandomSourceFailed,
            },
    {
        if plaintext.as_bytes().len() as u64 > MAX_PLAINTEXT_LEN {
            return Err(EncryptError::PlaintextTooLong);
        }
        match random_bytes(NONCE_LEN) {
            None => Err(EncryptError::RandomSourceFailed),
            Some(nonce) => {
                let r = self.encrypt_with_nonce(nonce.as_slice(), plaintext);
                proof {
                    assert(r.unwrap()@.subrange(0, NONCE_LEN as int) =~= nonce@);
                }
                r
            },
        }
    }

    /// Opens a message frame: a nonce followed by a sealing.
    ///
    /// A frame shorter than a nonce is malformed. A frame that is the sealing
    /// of a plaintext under the key and its nonce gives that plaintext's text,
    /// or is malformed if the plaintext is not UTF-8. Every other frame fails
    /// authentication.
    pub fn decrypt(&self, frame: &[u8]) -> (r: Result<String, DecryptError>)
        ensures
            decrypt_outcome(self@, frame@, text_result(r)),
    {
        if frame.len() < NONCE_LEN {
            return Err(DecryptError::Malformed);
        }
        if (frame.len() - NONCE_LEN) as u64 > MAX_PLAINTEXT_LEN + (TAG_LEN as u64) {
            return Err(DecryptError::AuthenticationFailed);
        }
        let nonce = copy_range(frame, 0, NONCE_LEN);
        let body = copy_range(frame, NONCE_LEN, frame.len());
        match aead_open(self.key.as_bytes(), nonce.as_slice(), body.as_slice()) {
            None => Err(DecryptError::AuthenticationFailed),
            Some(plaintext) => {
                assert(opens_to(self@, frame@, plaintext@));
                match string_from_utf8(plaintext) {
                    Some(text) => Ok(text),
                    None => Err(DecryptError::Malformed),
                }
            },
        }
    }
}

/// Round trip: what `encrypt` makes of a text, `decrypt` under the same key
/// turns back into that text.
pub proof fn lemma_round_trip(
    key: Seq<u8>,
    nonce: Seq<u8>,
    text: Seq<char>,
    frame: Seq<u8>,
    r: Result<Seq<char>, DecryptError>,
)
    requires
        nonce.len() == NONCE_LEN,
        encode_utf8(text).len() <= MAX_PLAINTEXT_LEN,
        is_message_frame(key, nonce, text, frame),
        decrypt_outcome(key, frame, r),
    ensures
        r == Ok::<Seq<char>, DecryptError>(text),
{
    broadcast use {encode_utf8_valid_utf8, encode_utf8_decode_utf8};

    let p = encode_utf8(text);
    assert(frame.subrange(0, NONCE_LEN as int) =~= nonce);
    assert(frame.subrange(NONCE_LEN as int, frame.len() as int) =~= sealed(key, nonce, p));
    assert(opens_to(key, frame, p));
}

/// Authenticity: a frame that decrypts to a text is the message frame of that
/// text under the key and the nonce that the frame carries.
pub proof fn lemma_decrypted_text_was_sealed(
    key: Seq<u8>,
    frame: Seq<u8>,
    text: Seq<char>,
    r: Result<Seq<char>, DecryptError>,
)
    requires
        decrypt_outcome(key, frame, r),
        r == Ok::<Seq<char>, DecryptError>(text),
    ensures
        frame.len() >= NONCE_LEN,
        is_message_frame(key, frame.subrange(0, NONCE_LEN as int), text, frame),
{
    broadcast use decode_utf8_encode_utf8;

    let p = choose|p: Seq<u8>| opens_to(key, frame, p);
    assert(opens_to(key, frame, p));
    assert(r == plaintext_outcome(p));
    assert(encode_utf8(text) == p);
    assert(frame =~= frame.subrange(0, NONCE_LEN as int) + frame.subrange(
        NONCE_LEN as int,
        frame.len() as int,
    ));
}

/// Frames sealed under different nonces differ, whatever they seal.
pub proof fn lemma_distinct_nonces_distinct_frames(
    key: Seq<u8>,
    nonce_a: Seq<u8>,
    nonce_b: Seq<u8>,
    text: Seq<char>,
    frame_a: Seq<u8>,
    frame_b: Seq<u8>,
)
    requires
        nonce_a.len() == NONCE_LEN,
        nonce_b.len() == NONCE_LEN,
        nonce_a != nonce_b,
        is_message_frame(key, nonce_a, text, frame_a),
        is_message_frame(key, nonce_b, text, frame_b),
    ensures
        frame_a != frame_b,
{
    assert(frame_a.subrange(0, NONCE_LEN as int) =~= nonce_a);
    assert(frame_b.subrange(0, NONCE_LEN as int) =~= nonce_b);
}

} // verus!
