//! The session of one participant in one room: the participants it has heard
//! of, the history it shows, the message being typed, and how each datagram
//! and each keystroke changes them.
//!
//! The session owns no socket and no terminal. Its caller receives, draws,
//! polls and sends; the session decides.

use vstd::prelude::*;
use vstd::string::*;
use vstd::utf8::*;
use crate::cipher::{
    decrypt_outcome, is_message_frame, lemma_round_trip, sealed, text_result, CipherEngine,
    DecryptError, MAX_PLAINTEXT_LEN, NONCE_LEN, TAG_LEN,
};
use crate::frame::{
    classify, classify_spec, encode_message, encode_presence, Frame, FrameView, MESSAGE_THRESHOLD,
};
use crate::key::{leading_key_bytes, valid_room_key, KeyError, RoutingTag, KEY_LEN};
use crate::protocol::{
    compose, composed, lemma_split_of_composed, sender_of, split_sender, text_of, ProtocolError,
    SEPARATOR,
};
use crate::text::{string_pop, string_push};

verus! {

/// Someone who announced themselves in the room.
#[derive(Clone, Debug, PartialEq, Eq)]
pub struct Participant {
    pub display_name: String,
}

/// One line of the room's history.
#[derive(Clone, Debug, PartialEq, Eq)]
pub enum HistoryEntry {
    /// A chat message.
    Chat { sender_name: String, text: String },
    /// Someone joined the room.
    Joined { joined_name: String },
}

/// A line of the history as a mathematical value.
pub enum HistoryEntryView {
    Chat { sender_name: Seq<char>, text: Seq<char> },
    Joined { joined_name: Seq<char> },
}

impl View for HistoryEntry {
    type V = HistoryEntryView;

    open spec fn view(&self) -> HistoryEntryView {
        match self {
            HistoryEntry::Chat { sender_name, text } => HistoryEntryView::Chat {
                sender_name: sender_name@,
                text: text@,
            },
            HistoryEntry::Joined { joined_name } => HistoryEntryView::Joined {
                joined_name: joined_name@,
            },
        }
    }
}

/// How the session came to its room.
#[derive(Clone, Copy, Debug, PartialEq, Eq, Structural)]
pub enum Role {
    /// It made the room, and binds to the well-known local port.
    Creator,
    /// It joined the room, and binds to a port of the caller's choosing.
    Joiner,
}

/// Where the session stands in its life.
#[derive(Clone, Copy, Debug, PartialEq, Eq, Structural)]
pub enum Phase {
    /// Made, and not yet announced.
    Initializing,
    /// Announced, receiving and sending.
    Active,
    /// Ended, by the user or by a failure of the socket.
    Terminated,
}

/// The keys that the session tells apart.
#[derive(Clone, Copy, Debug, PartialEq, Eq, Structural)]
pub enum KeyCode {
    Char(char),
    Enter,
    Backspace,
    F(u8),
    Other,
}

/// One event of the keyboard.
#[derive(Clone, Copy, Debug, PartialEq, Eq, Structural)]
pub struct KeyEvent {
    pub code: KeyCode,
    /// Whether the control key was held.
    pub control: bool,
    /// Whether the key went down, as against being released or repeated.
    pub pressed: bool,
}

/// What polling the terminal gave.
#[derive(Clone, Copy, Debug, PartialEq, Eq, Structural)]
pub enum TerminalEvent {
    Key(KeyEvent),
    /// Anything that is no key: a resize, the mouse, a paste.
    Other,
}

/// Why a datagram left no trace in the session.
#[derive(Clone, Copy, Debug, PartialEq, Eq, Structural)]
pub enum DropReason {
    /// A short datagram whose bytes are no UTF-8 name.
    MalformedPresence,
    /// A message frame that did not decrypt.
    Decrypt(DecryptError),
    /// A decrypted plaintext that is no chat message.
    Protocol(ProtocolError),
}

/// What became of a received datagram.
#[derive(Clone, Copy, Debug, PartialEq, Eq, Structural)]
pub enum Delivery {
    /// A participant and a line of history were added.
    Joined,
    /// A chat line was added.
    Chat,
    /// The datagram was dropped, and the session is as it was.
    Dropped(DropReason),
}

/// What ends a session against the user's will.
#[derive(Clone, Copy, Debug, PartialEq, Eq, Structural)]
pub enum FatalError {
    /// The socket failed.
    SocketUnavailable,
}

/// What one attempt to receive gave.
#[derive(Clone, Debug, PartialEq, Eq)]
pub enum Incoming {
    /// A datagram, as it arrived.
    Datagram(Vec<u8>),
    /// Nothing was there to receive.
    WouldBlock,
    /// The socket failed.
    Failed,
}

/// The host that every session binds on.
pub const LOCAL_HOST: &'static str = "127.0.0.1";

/// The port, on the local host, that a room's creator binds to.
pub const CREATOR_PORT: &'static str = "9090";

/// The port that a joiner binds to who names none.
pub const DEFAULT_JOINER_PORT: &'static str = "9191";

/// The address of the relay that hands datagrams on to the room.
pub const RELAY_ADDRESS: &'static str = "127.0.0.1:9595";

/// The longest datagram that a session takes in, in bytes.
pub const RECEIVE_BUFFER_LEN: usize = 1024;

/// How long one poll for a key may wait, in milliseconds: the one place where
/// the session's loop blocks.
pub const POLL_TIMEOUT_MS: u64 = 100;

/// A session as a mathematical value.
pub struct SessionView {
    pub username: Seq<char>,
    pub room_key: Seq<char>,
    pub role: Role,
    pub bind_port: Seq<char>,
    pub routing_tag: Seq<u8>,
    pub cipher_key: Seq<u8>,
    pub participants: Seq<Seq<char>>,
    pub history: Seq<HistoryEntryView>,
    pub input: Seq<char>,
    pub show_key: bool,
    pub show_users: bool,
    pub phase: Phase,
}

/// The names of a list of participants.
pub open spec fn participant_names(participants: Seq<Participant>) -> Seq<Seq<char>> {
    Seq::new(participants.len(), |i: int| participants[i].display_name@)
}

/// The lines of a history as mathematical values.
pub open spec fn history_lines(history: Seq<HistoryEntry>) -> Seq<HistoryEntryView> {
    Seq::new(history.len(), |i: int| history[i]@)
}

/// The session that a user with a valid room key starts from.
pub open spec fn fresh_session(
    username: Seq<char>,
    room_key: Seq<char>,
    role: Role,
    bind_port: Seq<char>,
) -> SessionView {
    SessionView {
        username,
        room_key,
        role,
        bind_port,
        routing_tag: leading_key_bytes(room_key),
        cipher_key: leading_key_bytes(room_key),
        participants: Seq::empty(),
        history: Seq::empty(),
        input: Seq::empty(),
        show_key: false,
        show_users: false,
        phase: Phase::Initializing,
    }
}

/// Whether a session's key material is that of its room key.
pub open spec fn keyed_by_room(s: SessionView) -> bool {
    &&& valid_room_key(s.room_key)
    &&& s.routing_tag == leading_key_bytes(s.room_key)
    &&& s.cipher_key == leading_key_bytes(s.room_key)
}

/// The session once it has announced itself.
pub open spec fn started(pre: SessionView) -> SessionView {
    SessionView {
        phase: if pre.phase == Phase::Initializing {
            Phase::Active
        } else {
            pre.phase
        },
        ..pre
    }
}

/// The session once it has ended.
pub open spec fn terminated(pre: SessionView) -> SessionView {
    SessionView { phase: Phase::Terminated, ..pre }
}

/// The session after `name` announced themselves: one participant and one
/// line of history more.
pub open spec fn joined(pre: SessionView, name: Seq<char>) -> SessionView {
    SessionView {
        participants: pre.participants.push(name),
        history: pre.history.push(HistoryEntryView::Joined { joined_name: name }),
        ..pre
    }
}

/// The session after a message frame was decrypted with outcome `r`: a chat
/// line more where the plaintext names its sender, and no change otherwise.
pub open spec fn after_decryption(
    pre: SessionView,
    r: Result<Seq<char>, DecryptError>,
) -> SessionView {
    match r {
        Ok(plaintext) => if plaintext.contains(SEPARATOR) {
            SessionView {
                history: pre.history.push(
                    HistoryEntryView::Chat {
                        sender_name: sender_of(plaintext),
                        text: text_of(plaintext),
                    },
                ),
                ..pre
            }
        } else {
            pre
        },
        Err(_) => pre,
    }
}

/// What becomes of a message frame that was decrypted with outcome `r`.
pub open spec fn decryption_delivery(r: Result<Seq<char>, DecryptError>) -> Delivery {
    match r {
        Ok(plaintext) => if plaintext.contains(SEPARATOR) {
            Delivery::Chat
        } else {
            Delivery::Dropped(DropReason::Protocol(ProtocolError::MissingSeparator))
        },
        Err(e) => Delivery::Dropped(DropReason::Decrypt(e)),
    }
}

/// Whether a received datagram takes `pre` to `post` and is reported as
/// `delivery`.
pub open spec fn datagram_step(
    pre: SessionView,
    datagram: Seq<u8>,
    post: SessionView,
    delivery: Delivery,
) -> bool {
    match classify_spec(datagram) {
        FrameView::Presence(name) => post == joined(pre, name) && delivery == Delivery::Joined,
        FrameView::Malformed => post == pre && delivery == Delivery::Dropped(
            DropReason::MalformedPresence,
        ),
        FrameView::Message(payload) => exists|r: Result<Seq<char>, DecryptError>|
            decrypt_outcome(pre.cipher_key, payload, r) && post == #[trigger] after_decryption(
                pre,
                r,
            ) && delivery == decryption_delivery(r),
    }
}

/// Whether what one attempt to receive gave takes `pre` to `post` and is
/// reported as `report`.
pub open spec fn receive_step(
    pre: SessionView,
    incoming: Incoming,
    post: SessionView,
    report: Result<Option<Delivery>, FatalError>,
) -> bool {
    match incoming {
        Incoming::Datagram(datagram) => report is Ok && report.unwrap() is Some && datagram_step(
            pre,
            datagram@,
            post,
            report.unwrap().unwrap(),
        ),
        Incoming::WouldBlock => post == pre && report == Ok::<Option<Delivery>, FatalError>(None),
        Incoming::Failed => post == terminated(pre) && report == Err::<
            Option<Delivery>,
            FatalError,
        >(FatalError::SocketUnavailable),
    }
}

/// Whether a key submits the pending input.
pub open spec fn is_submit(key: KeyEvent) -> bool {
    !key.control && key.code == KeyCode::Enter
}

/// The session after a key that does not submit.
pub open spec fn edited(pre: SessionView, key: KeyEvent) -> SessionView {
    if key.control {
        if key.code == KeyCode::Char('c') {
            terminated(pre)
        } else {
            pre
        }
    } else {
        match key.code {
            KeyCode::F(n) => if n == 1 {
                SessionView { show_users: !pre.show_users, ..pre }
            } else if n == 2 {
                SessionView { show_key: !pre.show_key, ..pre }
            } else {
                pre
            },
            KeyCode::Backspace => if pre.input.len() > 0 {
                SessionView { input: pre.input.drop_last(), ..pre }
            } else {
                pre
            },
            KeyCode::Char(c) => SessionView { input: pre.input.push(c), ..pre },
            _ => pre,
        }
    }
}

/// The plaintext that submitting sends: the user's name, the separator, the
/// pending input.
pub open spec fn outgoing_plaintext(pre: SessionView) -> Seq<char> {
    composed(pre.username, pre.input)
}

/// Whether the pending input can be sent in one message.
pub open spec fn can_submit(pre: SessionView) -> bool {
    encode_utf8(outgoing_plaintext(pre)).len() <= MAX_PLAINTEXT_LEN
}

/// The datagram that submitting under `nonce` sends: the routing tag, the
/// nonce, the sealed plaintext.
pub open spec fn submission(pre: SessionView, nonce: Seq<u8>) -> Seq<u8> {
    pre.routing_tag + (nonce + sealed(pre.cipher_key, nonce, encode_utf8(outgoing_plaintext(pre))))
}

/// The length of the datagram that submitting sends.
pub open spec fn submission_len(pre: SessionView) -> int {
    KEY_LEN + NONCE_LEN + encode_utf8(outgoing_plaintext(pre)).len() + TAG_LEN
}

/// The session after its pending input was sent.
pub open spec fn submitted(pre: SessionView) -> SessionView {
    SessionView { input: Seq::empty(), ..pre }
}

/// Whether submitting under `nonce` takes `pre` to `post` and sends `out`.
pub open spec fn submit_step(
    pre: SessionView,
    nonce: Seq<u8>,
    post: SessionView,
    out: Option<Seq<u8>>,
) -> bool {
    if can_submit(pre) {
        &&& out == Some(submission(pre, nonce))
        &&& submission(pre, nonce).len() == submission_len(pre)
        &&& post == submitted(pre)
    } else {
        &&& out is None
        &&& post == pre
    }
}

/// The nonce that a sent datagram carries, behind the routing tag.
pub open spec fn nonce_in(out: Option<Seq<u8>>) -> Seq<u8> {
    match out {
        Some(datagram) => datagram.subrange(KEY_LEN as int, KEY_LEN + NONCE_LEN),
        None => Seq::new(NONCE_LEN as nat, |i: int| 0u8),
    }
}

/// Whether submitting under a nonce drawn at random takes `pre` to `post` and
/// sends `out`: either as `submit_step` says under the nonce that `out`
/// carries, or, where the operating system gave no random bytes, with nothing
/// sent and nothing changed.
pub open spec fn random_submit_step(
    pre: SessionView,
    post: SessionView,
    out: Option<Seq<u8>>,
) -> bool {
    ||| submit_step(pre, nonce_in(out), post, out)
    ||| (out is None && post == pre)
}

/// Whether a key event takes `pre` to `post` and sends `out`.
pub open spec fn key_step(
    pre: SessionView,
    key: KeyEvent,
    post: SessionView,
    out: Option<Seq<u8>>,
) -> bool {
    if is_submit(key) {
        random_submit_step(pre, post, out)
    } else {
        out is None && post == edited(pre, key)
    }
}

/// What is to be sent, as a mathematical value.
pub open spec fn sent(out: Option<Vec<u8>>) -> Option<Seq<u8>> {
    match out {
        Some(datagram) => Some(datagram@),
        None => None,
    }
}

/// The session of one participant in one room.
pub struct Session {
    username: String,
    room_key: String,
    role: Role,
    bind_port: String,
    routing_tag: RoutingTag,
    cipher: CipherEngine,
    participants: Vec<Participant>,
    history: Vec<HistoryEntry>,
    input: String,
    show_key: bool,
    show_users: bool,
    phase: Phase,
}

impl View for Session {
    type V = SessionView;

    closed spec fn view(&self) -> SessionView {
        SessionView {
            username: self.username@,
            room_key: self.room_key@,
            role: self.role,
            bind_port: self.bind_port@,
            routing_tag: self.routing_tag@,
            cipher_key: self.cipher@,
            participants: participant_names(self.participants@),
            history: history_lines(self.history@),
            input: self.input@,
            show_key: self.show_key,
            show_users: self.show_users,
            phase: self.phase,
        }
    }
}

impl Session {
    /// A session in the given role. No session is made of a room key that is
    /// too short.
    fn open(username: String, room_key: String, role: Role, bind_port: String) -> (r: Result<
        Session,
        KeyError,
    >)
        ensures
            !valid_room_key(room_key@) ==> r matches Err(KeyError::InvalidKeyLength),
            valid_room_key(room_key@) ==> r is Ok && r.unwrap()@ == fresh_session(
                username@,
                room_key@,
                role,
                bind_port@,
            ),
    {
        match crate::key::derive(room_key.as_str()) {
            Err(e) => Err(e),
            Ok(material) => {
                let session = Session {
                    username,
                    room_key,
                    role,
                    bind_port,
                    routing_tag: material.routing_tag,
                    cipher: CipherEngine::new(material.cipher_key),
                    participants: Vec::new(),
                    history: Vec::new(),
                    input: String::new(),
                    show_key: false,
                    show_users: false,
                    phase: Phase::Initializing,
                };
                assert(session@.participants =~= Seq::empty());
                assert(session@.history =~= Seq::empty());
                Ok(session)
            },
        }
    }

    /// The session of the user who makes a room. It binds to the well-known
    /// local port.
    pub fn create_room(username: String, roomkey: String) -> (r: Result<Session, KeyError>)
        ensures
            !valid_room_key(roomkey@) ==> r matches Err(KeyError::InvalidKeyLength),
            valid_room_key(roomkey@) ==> r is Ok && r.unwrap()@ == fresh_session(
                username@,
                roomkey@,
                Role::Creator,
                CREATOR_PORT@,
            ),
    {
        Session::open(username, roomkey, Role::Creator, CREATOR_PORT.to_owned())
    }

    /// The session of a user who joins a room. It binds to the local port that
    /// the caller names.
    pub fn join_room(username: String, roomkey: String, port: String) -> (r: Result<
        Session,
        KeyError,
    >)
        ensures
            !valid_room_key(roomkey@) ==> r matches Err(KeyError::InvalidKeyLength),
            valid_room_key(roomkey@) ==> r is Ok && r.unwrap()@ == fresh_session(
                username@,
                roomkey@,
                Role::Joiner,
                port@,
            ),
    {
        Session::open(username, roomkey, Role::Joiner, port)
    }

    /// Announces the session: returns the presence datagram to send and, if the
    /// session was initializing, makes it active.
    pub fn start(&mut self) -> (presence: Vec<u8>)
        ensures
            presence@ == old(self)@.routing_tag + encode_utf8(old(self)@.username),
            final(self)@ == started(old(self)@),
    {
        let presence = encode_presence(&self.routing_tag, self.username.as_str());
        match self.phase {
            Phase::Initializing => {
                self.phase = Phase::Active;
            },
            _ => {},
        }
        presence
    }

    /// Ends the session.
    pub fn exit(&mut self)
        ensures
            final(self)@ == terminated(old(self)@),
    {
        self.phase = Phase::Terminated;
    }

    /// Takes note of a participant who announced themselves.
    pub fn join(&mut self, name: String)
        ensures
            final(self)@ == joined(old(self)@, name@),
    {
        let joined_name = name.clone();
        self.participants.push(Participant { display_name: name });
        self.history.push(HistoryEntry::Joined { joined_name });
        proof {
            assert(final(self)@.participants =~= old(self)@.participants.push(name@));
            assert(final(self)@.history =~= old(self)@.history.push(
                HistoryEntryView::Joined { joined_name: name@ },
            ));
        }
    }

    /// Takes in the outcome of decrypting a message frame. A plaintext that
    /// names its sender becomes a chat line; a failed decryption and a
    /// plaintext without separator are dropped.
    pub fn apply_decrypted(&mut self, decrypted: Result<String, DecryptError>) -> (delivery:
        Delivery)
        ensures
            final(self)@ == after_decryption(old(self)@, text_result(decrypted)),
            delivery == decryption_delivery(text_result(decrypted)),
    {
        match decrypted {
            Err(e) => Delivery::Dropped(DropReason::Decrypt(e)),
            Ok(plaintext) => {
                match split_sender(plaintext.as_str()) {
                    Err(e) => Delivery::Dropped(DropReason::Protocol(e)),
                    Ok((sender_name, text)) => {
                        self.history.push(HistoryEntry::Chat { sender_name, text });
                        proof {
                            assert(final(self)@.history =~= old(self)@.history.push(
                                HistoryEntryView::Chat {
                                    sender_name: sender_of(plaintext@),
                                    text: text_of(plaintext@),
                                },
                            ));
                        }
                        Delivery::Chat
                    },
                }
            },
        }
    }

    /// Takes in a received datagram, whole. A presence announcement adds a
    /// participant; a message is decrypted and, if it is sound, added to the
    /// history; anything else is dropped and leaves the session as it was.
    /// What became of the datagram is reported, for the caller's log.
    pub fn on_datagram(&mut self, datagram: &[u8]) -> (delivery: Delivery)
        ensures
            datagram_step(old(self)@, datagram@, final(self)@, delivery),
    {
        match classify(datagram) {
            Frame::Presence(name) => {
                self.join(name);
                Delivery::Joined
            },
            Frame::Malformed => Delivery::Dropped(DropReason::MalformedPresence),
            Frame::Message(payload) => {
                let decrypted = self.cipher.decrypt(payload.as_slice());
                let ghost outcome = text_result(decrypted);
                let delivery = self.apply_decrypted(decrypted);
                proof {
                    assert(decrypt_outcome(old(self)@.cipher_key, payload@, outcome));
                    assert(final(self)@ == after_decryption(old(self)@, outcome));
                    assert(delivery == decryption_delivery(outcome));
                }
                delivery
            },
        }
    }

    /// Takes in what one attempt to receive gave. A datagram is handled as
    /// `on_datagram` says, nothing to receive changes nothing, and a failure of
    /// the socket ends the session and is the one thing reported as an error.
    pub fn on_receive(&mut self, incoming: Incoming) -> (report: Result<
        Option<Delivery>,
        FatalError,
    >)
        ensures
            receive_step(old(self)@, incoming, final(self)@, report),
    {
        match incoming {
            Incoming::Datagram(datagram) => Ok(Some(self.on_datagram(datagram.as_slice()))),
            Incoming::WouldBlock => Ok(None),
            Incoming::Failed => {
                self.exit();
                Err(FatalError::SocketUnavailable)
            },
        }
    }

    /// Applies a key that does not submit: control and `c` end the session,
    /// the first two function keys flip what is shown, backspace takes the
    /// last character of the pending input away, a character is added to it.
    pub fn edit(&mut self, key: KeyEvent)
        ensures
            final(self)@ == edited(old(self)@, key),
    {
        if key.control {
            match key.code {
                KeyCode::Char(c) => {
                    if c == 'c' {
                        self.exit();
                    }
                },
                _ => {},
            }
            return ;
        }
        match key.code {
            KeyCode::F(n) => {
                if n == 1 {
                    self.show_users = !self.show_users;
                } else if n == 2 {
                    self.show_key = !self.show_key;
                }
            },
            KeyCode::Backspace => {
                string_pop(&mut self.input);
            },
            KeyCode::Char(c) => {
                string_push(&mut self.input, c);
            },
            _ => {},
        }
    }

    /// Submits the pending input under the given nonce: returns the message
    /// datagram to send and clears the input. An empty input is sent like any
    /// other. Where the plaintext is too long for one message nothing is sent
    /// and the input stays.
    pub fn submit_with_nonce(&mut self, nonce: &[u8]) -> (out: Option<Vec<u8>>)
        requires
            nonce@.len() == NONCE_LEN,
        ensures
            submit_step(old(self)@, nonce@, final(self)@, sent(out)),
    {
        let plaintext = compose(self.username.as_str(), self.input.as_str());
        match self.cipher.encrypt_with_nonce(nonce, plaintext.as_str()) {
            Err(_) => None,
            Ok(frame) => {
                let datagram = encode_message(&self.routing_tag, frame.as_slice());
                self.input = String::new();
                proof {
                    assert(datagram@ =~= submission(old(self)@, nonce@));
                }
                Some(datagram)
            },
        }
    }

    /// Submits the pending input under a fresh random nonce.
    pub fn submit(&mut self) -> (out: Option<Vec<u8>>)
        ensures
            random_submit_step(old(self)@, final(self)@, sent(out)),
    {
        let plaintext = compose(self.username.as_str(), self.input.as_str());
        match self.cipher.encrypt(plaintext.as_str()) {
            Err(_) => None,
            Ok(frame) => {
                let datagram = encode_message(&self.routing_tag, frame.as_slice());
                self.input = String::new();
                proof {
                    let nonce = frame@.subrange(0, NONCE_LEN as int);
                    assert(datagram@.subrange(KEY_LEN as int, KEY_LEN + NONCE_LEN) =~= nonce);
                    assert(datagram@ =~= submission(old(self)@, nonce));
                }
                Some(datagram)
            },
        }
    }

    /// Applies one key event and returns the datagram to send, if the key
    /// submitted the pending input.
    pub fn handle_key_event(&mut self, key_event: KeyEvent) -> (out: Option<Vec<u8>>)
        ensures
            key_step(old(self)@, key_event, final(self)@, sent(out)),
    {
        if !key_event.control {
            match key_event.code {
                KeyCode::Enter => {
                    return self.submit();
                },
                _ => {},
            }
        }
        self.edit(key_event);
        None
    }

    /// Applies what polling the terminal gave: a key that went down is handled
    /// as `handle_key_event` says; a timeout and every other event change
    /// nothing.
    pub fn handle_events(&mut self, polled: Option<TerminalEvent>) -> (out: Option<Vec<u8>>)
        ensures
            match polled {
                Some(TerminalEvent::Key(key_event)) if key_event.pressed => key_step(
                    old(self)@,
                    key_event,
                    final(self)@,
                    sent(out),
                ),
                _ => out is None && final(self)@ == old(self)@,
            },
    {
        match polled {
            Some(TerminalEvent::Key(key_event)) => {
                if key_event.pressed {
                    self.handle_key_event(key_event)
                } else {
                    None
                }
            },
            _ => None,
        }
    }

    /// The user's display name.
    pub fn username(&self) -> (r: &str)
        ensures
            r@ == self@.username,
    {
        self.username.as_str()
    }

    /// The room key, as the user gave it.
    pub fn room_key(&self) -> (r: &str)
        ensures
            r@ == self@.room_key,
    {
        self.room_key.as_str()
    }

    /// How the session came to its room.
    pub fn role(&self) -> (r: Role)
        ensures
            r == self@.role,
    {
        self.role
    }

    /// The local port to bind to.
    pub fn bind_port(&self) -> (r: &str)
        ensures
            r@ == self@.bind_port,
    {
        self.bind_port.as_str()
    }

    /// The tag that leads every datagram of this session.
    pub fn routing_tag(&self) -> (r: &RoutingTag)
        ensures
            r@ == self@.routing_tag,
    {
        &self.routing_tag
    }

    /// The participants heard of so far, in the order of their announcements.
    pub fn participants(&self) -> (r: &Vec<Participant>)
        ensures
            participant_names(r@) == self@.participants,
    {
        &self.participants
    }

    /// The history so far, oldest line first.
    pub fn history(&self) -> (r: &Vec<HistoryEntry>)
        ensures
            history_lines(r@) == self@.history,
    {
        &self.history
    }

    /// The index of the first line of the history that a display of `rows`
    /// lines shows: the display holds the last `rows` lines, or all of them
    /// where there are fewer.
    pub fn first_visible(&self, rows: usize) -> (start: usize)
        ensures
            start == if self@.history.len() > rows {
                self@.history.len() - rows
            } else {
                0
            },
    {
        if self.history.len() > rows {
            self.history.len() - rows
        } else {
            0
        }
    }

    /// The message being typed.
    pub fn input(&self) -> (r: &str)
        ensures
            r@ == self@.input,
    {
        self.input.as_str()
    }

    /// Whether the display shows the room key.
    pub fn show_key(&self) -> (r: bool)
        ensures
            r == self@.show_key,
    {
        self.show_key
    }

    /// Whether the display shows the participants.
    pub fn show_users(&self) -> (r: bool)
        ensures
            r == self@.show_users,
    {
        self.show_users
    }

    /// Where the session stands in its life.
    pub fn phase(&self) -> (r: Phase)
        ensures
            r == self@.phase,
    {
        self.phase
    }

    /// Whether the session has ended.
    pub fn is_terminated(&self) -> (r: bool)
        ensures
            r == (self@.phase == Phase::Terminated),
    {
        match self.phase {
            Phase::Terminated => true,
            _ => false,
        }
    }
}

/// Whether `earlier` is how `later` begins.
pub open spec fn begins_with<T>(later: Seq<T>, earlier: Seq<T>) -> bool {
    earlier.len() <= later.len() && later.subrange(0, earlier.len() as int) == earlier
}

/// Whether `post` differs from `pre` in nothing that a session keeps for
/// life: its user, its room key and what was derived from it; and whether
/// what it has collected has only grown.
pub open spec fn continues(pre: SessionView, post: SessionView) -> bool {
    &&& post.username == pre.username
    &&& post.room_key == pre.room_key
    &&& post.role == pre.role
    &&& post.bind_port == pre.bind_port
    &&& post.routing_tag == pre.routing_tag
    &&& post.cipher_key == pre.cipher_key
    &&& begins_with(post.participants, pre.participants)
    &&& begins_with(post.history, pre.history)
    &&& pre.phase == Phase::Terminated ==> post.phase == Phase::Terminated
}

/// A received datagram never changes who the session is or how it is keyed,
/// takes nothing from the participants or the history, touches neither the
/// pending input nor what is shown, and revives no ended session.
pub proof fn lemma_datagram_step_continues(
    pre: SessionView,
    datagram: Seq<u8>,
    post: SessionView,
    delivery: Delivery,
)
    requires
        datagram_step(pre, datagram, post, delivery),
    ensures
        continues(pre, post),
        post.input == pre.input,
        post.show_key == pre.show_key,
        post.show_users == pre.show_users,
        post.phase == pre.phase,
        delivery is Dropped ==> post == pre,
{
    assert(pre.participants.subrange(0, pre.participants.len() as int) =~= pre.participants);
    assert(pre.history.subrange(0, pre.history.len() as int) =~= pre.history);
    match classify_spec(datagram) {
        FrameView::Presence(name) => {
            assert(post.participants.subrange(0, pre.participants.len() as int)
                =~= pre.participants);
            assert(post.history.subrange(0, pre.history.len() as int) =~= pre.history);
        },
        FrameView::Malformed => {},
        FrameView::Message(payload) => {
            let r = choose|r: Result<Seq<char>, DecryptError>|
                decrypt_outcome(pre.cipher_key, payload, r) && post == #[trigger] after_decryption(
                    pre,
                    r,
                ) && delivery == decryption_delivery(r);
            assert(post.history.subrange(0, pre.history.len() as int) =~= pre.history);
        },
    }
}

/// A key event never changes who the session is or how it is keyed, leaves
/// the participants and the history as they were, and revives no ended
/// session.
pub proof fn lemma_key_step_continues(
    pre: SessionView,
    key: KeyEvent,
    post: SessionView,
    out: Option<Seq<u8>>,
)
    requires
        key_step(pre, key, post, out),
    ensures
        continues(pre, post),
        post.participants == pre.participants,
        post.history == pre.history,
{
    assert(pre.participants.subrange(0, pre.participants.len() as int) =~= pre.participants);
    assert(pre.history.subrange(0, pre.history.len() as int) =~= pre.history);
}

/// Presence is heard: the name bytes of a participant whose name takes fewer
/// than 12 bytes, received as a datagram, add that participant and a line
/// that says so.
pub proof fn lemma_presence_delivery(
    receiver: SessionView,
    name: Seq<char>,
    post: SessionView,
    delivery: Delivery,
)
    requires
        encode_utf8(name).len() < MESSAGE_THRESHOLD,
        datagram_step(receiver, encode_utf8(name), post, delivery),
    ensures
        post == joined(receiver, name),
        delivery == Delivery::Joined,
{
    broadcast use {encode_utf8_valid_utf8, encode_utf8_decode_utf8};

}

/// A message is heard: what a sender submits arrives, once the relay has
/// taken the routing tag off, as a chat line under the sender's name with
/// the text that was typed, in every session whose room key begins with the
/// same 32 bytes. An empty text arrives as an empty text.
pub proof fn lemma_message_delivery(
    sender: SessionView,
    nonce: Seq<u8>,
    sender_after: SessionView,
    datagram: Seq<u8>,
    receiver: SessionView,
    receiver_after: SessionView,
    delivery: Delivery,
)
    requires
        keyed_by_room(sender),
        keyed_by_room(receiver),
        leading_key_bytes(sender.room_key) == leading_key_bytes(receiver.room_key),
        !sender.username.contains(SEPARATOR),
        nonce.len() == NONCE_LEN,
        can_submit(sender),
        submit_step(sender, nonce, sender_after, Some(datagram)),
        datagram_step(
            receiver,
            datagram.subrange(KEY_LEN as int, datagram.len() as int),
            receiver_after,
            delivery,
        ),
    ensures
        sender_after == submitted(sender),
        delivery == Delivery::Chat,
        receiver_after == (SessionView {
            history: receiver.history.push(
                HistoryEntryView::Chat { sender_name: sender.username, text: sender.input },
            ),
            ..receiver
        }),
{
    let plaintext = outgoing_plaintext(sender);
    let frame = datagram.subrange(KEY_LEN as int, datagram.len() as int);
    assert(frame =~= nonce + sealed(sender.cipher_key, nonce, encode_utf8(plaintext)));
    assert(is_message_frame(sender.cipher_key, nonce, plaintext, frame));
    let r = choose|r: Result<Seq<char>, DecryptError>|
        decrypt_outcome(receiver.cipher_key, frame, r) && receiver_after
            == #[trigger] after_decryption(receiver, r) && delivery == decryption_delivery(r);
    lemma_round_trip(sender.cipher_key, nonce, plaintext, frame, r);
    lemma_split_of_composed(sender.username, sender.input);
}

/// A session starts out keyed by its room key.
pub proof fn lemma_fresh_session_is_keyed(
    username: Seq<char>,
    room_key: Seq<char>,
    role: Role,
    bind_port: Seq<char>,
)
    requires
        valid_room_key(room_key),
    ensures
        keyed_by_room(fresh_session(username, room_key, role, bind_port)),
        fresh_session(username, room_key, role, bind_port).routing_tag.len() == KEY_LEN,
        fresh_session(username, room_key, role, bind_port).cipher_key.len() == KEY_LEN,
{
}

/// A session stays keyed by its room key, whatever it takes in.
pub proof fn lemma_keying_is_kept(pre: SessionView, post: SessionView)
    requires
        keyed_by_room(pre),
        continues(pre, post),
    ensures
        keyed_by_room(post),
{
}

/// Neither announcing a session nor ending it changes who it is or what it
/// has collected, and an ended session stays ended.
pub proof fn lemma_lifecycle_continues(pre: SessionView)
    ensures
        continues(pre, started(pre)),
        continues(pre, terminated(pre)),
        terminated(pre).phase == Phase::Terminated,
        pre.phase == Phase::Initializing ==> started(pre).phase == Phase::Active,
{
    assert(pre.participants.subrange(0, pre.participants.len() as int) =~= pre.participants);
    assert(pre.history.subrange(0, pre.history.len() as int) =~= pre.history);
}

} // verus!
