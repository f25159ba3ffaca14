//! Key derivation: from the room key that the participants share to the
//! cipher key and the routing tag of a session.

use vstd::prelude::*;
use vstd::string::*;
use vstd::utf8::*;
use crate::bytes::copy_range;

verus! {

/// Number of bytes of key material, and of the routing tag.
pub const KEY_LEN: usize = 32;

/// Why a room key was turned down.
#[derive(Clone, Copy, Debug, PartialEq, Eq, Structural)]
pub enum KeyError {
    /// The room key holds fewer than 32 bytes.
    InvalidKeyLength,
}

/// The 256-bit symmetric key of a room.
pub struct CipherKey {
    bytes: Vec<u8>,
}

/// The bytes in the clear that lead every outbound datagram, by which a relay
/// groups traffic by room.
#[derive(Debug)]
pub struct RoutingTag {
    bytes: Vec<u8>,
}

/// What a room key yields.
pub struct KeyMaterial {
    pub cipher_key: CipherKey,
    pub routing_tag: RoutingTag,
}

/// The leading 32 bytes of a secret's UTF-8 encoding.
pub open spec fn leading_key_bytes(secret: Seq<char>) -> Seq<u8> {
    encode_utf8(secret).subrange(0, KEY_LEN as int)
}

/// Whether a secret is long enough to be a room key.
pub open spec fn valid_room_key(secret: Seq<char>) -> bool {
    encode_utf8(secret).len() >= KEY_LEN
}

impl View for CipherKey {
    type V = Seq<u8>;

    closed spec fn view(&self) -> Seq<u8> {
        self.bytes@
    }
}

impl CipherKey {
    #[verifier::type_invariant]
    spec fn well_formed(&self) -> bool {
        self.bytes@.len() == KEY_LEN
    }

    /// The key's bytes.
    pub fn as_bytes(&self) -> (out: &[u8])
        ensures
            out@ == self@,
            out@.len() == KEY_LEN,
    {
        proof {
            use_type_invariant(self);
        }
        self.bytes.as_slice()
    }
}

impl View for RoutingTag {
    type V = Seq<u8>;

    closed spec fn view(&self) -> Seq<u8> {
        self.bytes@
    }
}

impl RoutingTag {
    #[verifier::type_invariant]
    spec fn well_formed(&self) -> bool {
        self.bytes@.len() == KEY_LEN
    }

    /// The tag's bytes.
    pub fn as_bytes(&self) -> (out: &[u8])
        ensures
            out@ == self@,
            out@.len() == KEY_LEN,
    {
        proof {
            use_type_invariant(self);
        }
        self.bytes.as_slice()
    }
}

/// Derives the key material of a room from its shared secret.
///
/// A secret of fewer than 32 bytes is turned down. Otherwise both the cipher
/// key and the routing tag are the secret's first 32 bytes; what follows them
/// is ignored.
pub fn derive(room_key_secret: &str) -> (r: Result<KeyMaterial, KeyError>)
    ensures
        !valid_room_key(room_key_secret@) ==> r == Err::<KeyMaterial, KeyError>(
            KeyError::InvalidKeyLength,
        ),
        valid_room_key(room_key_secret@) ==> r is Ok
            && r.unwrap().cipher_key@ == leading_key_bytes(room_key_secret@)
            && r.unwrap().routing_tag@ == leading_key_bytes(room_key_secret@),
{
    let raw = room_key_secret.as_bytes();
    if raw.len() < KEY_LEN {
        return Err(KeyError::InvalidKeyLength);
    }
    let cipher_key = CipherKey { bytes: copy_range(raw, 0, KEY_LEN) };
    let routing_tag = RoutingTag { bytes: copy_range(raw, 0, KEY_LEN) };
    Ok(KeyMaterial { cipher_key, routing_tag })
}

} // verus!
