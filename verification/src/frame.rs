//! The two datagram shapes, and how a receiver tells them apart by size.

use vstd::prelude::*;
use vstd::string::*;
use vstd::utf8::*;
use crate::bytes::{concat, copy_range};
use crate::key::{RoutingTag, KEY_LEN};
use crate::text::string_from_utf8;

verus! {

/// The size from which on a datagram counts as an encrypted message: the size
/// of a nonce, below which no sealed payload can be.
pub const MESSAGE_THRESHOLD: usize = 12;

/// What a received datagram is taken for.
#[derive(Clone, Debug, PartialEq, Eq)]
pub enum Frame {
    /// A presence announcement, with the name that it carries.
    Presence(String),
    /// An encrypted message: the whole datagram, for the cipher engine.
    Message(Vec<u8>),
    /// A short datagram whose bytes are no UTF-8 text.
    Malformed,
}

/// A frame as a mathematical value.
pub enum FrameView {
    Presence(Seq<char>),
    Message(Seq<u8>),
    Malformed,
}

impl View for Frame {
    type V = FrameView;

    open spec fn view(&self) -> FrameView {
        match self {
            Frame::Presence(name) => FrameView::Presence(name@),
            Frame::Message(payload) => FrameView::Message(payload@),
            Frame::Malformed => FrameView::Malformed,
        }
    }
}

/// The frame that a datagram stands for.
pub open spec fn classify_spec(datagram: Seq<u8>) -> FrameView {
    if datagram.len() >= MESSAGE_THRESHOLD {
        FrameView::Message(datagram)
    } else if valid_utf8(datagram) {
        FrameView::Presence(decode_utf8(datagram))
    } else {
        FrameView::Malformed
    }
}

/// The presence datagram of `display_name`: the routing tag, then the name's
/// UTF-8 bytes, in the clear.
pub fn encode_presence(routing_tag: &RoutingTag, display_name: &str) -> (out: Vec<u8>)
    ensures
        out@ == routing_tag@ + encode_utf8(display_name@),
        out@.len() == KEY_LEN + encode_utf8(display_name@).len(),
{
    concat(routing_tag.as_bytes(), display_name.as_bytes())
}

/// The message datagram of an encrypted payload: the routing tag, then the
/// nonce and the sealing as the cipher engine gave them.
pub fn encode_message(routing_tag: &RoutingTag, ciphertext_with_nonce: &[u8]) -> (out: Vec<u8>)
    ensures
        out@ == routing_tag@ + ciphertext_with_nonce@,
        out@.len() == KEY_LEN + ciphertext_with_nonce@.len(),
{
    concat(routing_tag.as_bytes(), ciphertext_with_nonce)
}

/// Tells a presence announcement from an encrypted message by the datagram's
/// size alone. The datagram is taken whole: nothing is stripped from it.
pub fn classify(raw_datagram: &[u8]) -> (frame: Frame)
    ensures
        frame@ == classify_spec(raw_datagram@),
{
    let whole = copy_range(raw_datagram, 0, raw_datagram.len());
    assert(whole@ =~= raw_datagram@);
    if raw_datagram.len() >= MESSAGE_THRESHOLD {
        Frame::Message(whole)
    } else {
        match string_from_utf8(whole) {
            Some(name) => Frame::Presence(name),
            None => Frame::Malformed,
        }
    }
}

/// The threshold: a datagram of 12 bytes or more is a message and is handed on
/// whole; a shorter one is never a message, and is a presence announcement
/// whenever its bytes are UTF-8.
pub proof fn lemma_classify_threshold(datagram: Seq<u8>)
    ensures
        datagram.len() >= MESSAGE_THRESHOLD ==> classify_spec(datagram) == FrameView::Message(
            datagram,
        ),
        datagram.len() < MESSAGE_THRESHOLD ==> !(classify_spec(datagram) is Message),
        datagram.len() < MESSAGE_THRESHOLD && valid_utf8(datagram) ==> classify_spec(datagram)
            == FrameView::Presence(decode_utf8(datagram)),
{
}

} // verus!
