//! What a user gets who names no room key or no display name: a fresh random
//! room key, in base64 for display, and a random name.

use vstd::prelude::*;
use vstd::string::*;
use vstd::utf8::*;
use base64::prelude::{Engine, BASE64_STANDARD};
use crate::entropy::random_bytes;
use crate::key::{valid_room_key, KEY_LEN};
use crate::text::string_push;

verus! {

/// Number of characters of a random display name.
pub const DEFAULT_NAME_LEN: usize = 10;

/// Number of characters that a random display name is drawn from: the
/// lower-case letters, the upper-case letters, the digits.
pub const NAME_ALPHABET_LEN: u8 = 62;

/// The standard base64 encoding of `bytes`, with padding.
pub uninterp spec fn base64_standard(bytes: Seq<u8>) -> Seq<char>;

/// `Engine::encode_string` of `base64::prelude::BASE64_STANDARD`, into an empty
/// string.
///
/// Taken on trust: the result is the standard encoding with padding, which is
/// ASCII and holds four characters for every three bytes or part of three.
#[verifier::external_body]
fn base64_encode(bytes: &[u8]) -> (r: String)
    ensures
        r@ == base64_standard(bytes@),
        r@.len() == 4 * ((bytes@.len() + 2) / 3),
        is_ascii_chars(r@),
{
    let mut out = String::new();
    BASE64_STANDARD.encode_string(bytes, &mut out);
    out
}

/// The character of a display name that stands for `k`.
pub open spec fn name_char(k: u8) -> char {
    if k < 26 {
        ((97 + k) as u8) as char
    } else if k < 52 {
        ((39 + k) as u8) as char
    } else {
        ((k - 4) as u8) as char
    }
}

/// The display name that the bytes `raw` stand for: one character for each.
pub open spec fn name_of(raw: Seq<u8>) -> Seq<char> {
    Seq::new(raw.len(), |i: int| name_char(raw[i] % NAME_ALPHABET_LEN))
}

/// 32 random bytes for a room key, or `None` where the operating system gives
/// no random bytes.
pub fn generate_roomkey() -> (r: Option<Vec<u8>>)
    ensures
        r is Some ==> r.unwrap()@.len() == KEY_LEN,
{
    random_bytes(KEY_LEN)
}

/// The room key that stands for `raw`: its base64 encoding. Of 22 bytes or
/// more it is long enough to key a room.
pub fn encode_roomkey(raw: &[u8]) -> (r: String)
    ensures
        r@ == base64_standard(raw@),
        raw@.len() >= 22 ==> valid_room_key(r@),
{
    let r = base64_encode(raw);
    proof {
        is_ascii_chars_encode_utf8(r@);
    }
    r
}

/// The display name that stands for `raw`.
pub fn name_from_bytes(raw: &[u8]) -> (r: String)
    ensures
        r@ == name_of(raw@),
{
    let mut name = String::new();
    let mut i: usize = 0;
    while i < raw.len()
        invariant
            i <= raw@.len(),
            name@ == name_of(raw@.subrange(0, i as int)),
        decreases raw@.len() - i,
    {
        let k: u8 = raw[i] % NAME_ALPHABET_LEN;
        let c = if k < 26 {
            (97 + k) as char
        } else if k < 52 {
            (39 + k) as char
        } else {
            (k - 4) as char
        };
        string_push(&mut name, c);
        i += 1;
        assert(name@ =~= name_of(raw@.subrange(0, i as int)));
    }
    assert(raw@.subrange(0, i as int) =~= raw@);
    name
}

/// A random display name of `len` letters and digits, or `None` where the
/// operating system gives no random bytes. A name of no characters needs
/// none, and is always given.
pub fn generate_rnd_str(len: usize) -> (r: Option<String>)
    ensures
        len == 0 ==> r is Some,
        r is Some ==> r.unwrap()@.len() == len,
        r is Some ==> exists|raw: Seq<u8>| raw.len() == len && r.unwrap()@ == #[trigger] name_of(raw),
{
    if len == 0 {
        let name = String::new();
        proof {
            assert(name@ =~= name_of(Seq::<u8>::empty()));
        }
        return Some(name);
    }
    match random_bytes(len) {
        None => None,
        Some(raw) => Some(name_from_bytes(raw.as_slice())),
    }
}

} // verus!
