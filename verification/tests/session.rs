use artichat::cipher::{CipherEngine, DecryptError, NONCE_LEN, TAG_LEN};
use artichat::protocol::ProtocolError;
use artichat::key::{KeyError, KEY_LEN};
use artichat::session::{
    Delivery, DropReason, FatalError, HistoryEntry, Incoming, KeyCode, KeyEvent, Participant,
    Phase, Role, Session, TerminalEvent, CREATOR_PORT,
};

const ROOM_KEY: &str = "0123456789abcdef0123456789abcdef";

fn creator(name: &str) -> Session {
    Session::create_room(name.to_string(), ROOM_KEY.to_string()).ok().unwrap()
}

fn joiner(name: &str) -> Session {
    Session::join_room(name.to_string(), ROOM_KEY.to_string(), "9191".to_string()).ok().unwrap()
}

fn press(code: KeyCode) -> KeyEvent {
    KeyEvent { code, control: false, pressed: true }
}

fn type_text(session: &mut Session, text: &str) {
    for c in text.chars() {
        assert_eq!(session.handle_key_event(press(KeyCode::Char(c))), None);
    }
}

fn joined(name: &str) -> HistoryEntry {
    HistoryEntry::Joined { joined_name: name.to_string() }
}

fn chat(sender: &str, text: &str) -> HistoryEntry {
    HistoryEntry::Chat { sender_name: sender.to_string(), text: text.to_string() }
}

/// What the relay hands on: the datagram without its routing tag.
fn relayed(datagram: &[u8]) -> Vec<u8> {
    assert_eq!(&datagram[..KEY_LEN], ROOM_KEY.as_bytes());
    datagram[KEY_LEN..].to_vec()
}

#[test]
fn new_session_is_empty() {
    let session = creator("alice");
    assert_eq!(session.username(), "alice");
    assert_eq!(session.room_key(), ROOM_KEY);
    assert_eq!(session.role(), Role::Creator);
    assert_eq!(session.bind_port(), CREATOR_PORT);
    assert_eq!(session.bind_port(), "9090");
    assert_eq!(session.routing_tag().as_bytes(), ROOM_KEY.as_bytes());
    assert!(session.participants().is_empty());
    assert!(session.history().is_empty());
    assert_eq!(session.input(), "");
    assert!(!session.show_key());
    assert!(!session.show_users());
    assert_eq!(session.phase(), Phase::Initializing);
    assert!(!session.is_terminated());
}

#[test]
fn joiner_binds_to_its_own_port() {
    let session = joiner("bob");
    assert_eq!(session.role(), Role::Joiner);
    assert_eq!(session.bind_port(), "9191");
    assert_eq!(session.username(), "bob");
}

#[test]
fn short_room_key_makes_no_session() {
    let made = Session::create_room("alice".to_string(), "short".to_string());
    assert!(matches!(made, Err(KeyError::InvalidKeyLength)));
    let made = Session::join_room("bob".to_string(), ROOM_KEY[..31].to_string(), "1".to_string());
    assert!(matches!(made, Err(KeyError::InvalidKeyLength)));
}

#[test]
fn start_announces_and_activates() {
    let mut alice = creator("alice");
    let presence = alice.start();
    let mut expected = ROOM_KEY.as_bytes().to_vec();
    expected.extend_from_slice(b"alice");
    assert_eq!(presence, expected);
    assert_eq!(alice.phase(), Phase::Active);
    alice.exit();
    assert_eq!(alice.start(), expected);
    assert_eq!(alice.phase(), Phase::Terminated);
}

#[test]
fn presence_adds_a_participant() {
    let mut alice = creator("alice");
    let mut bob = joiner("bob");
    bob.start();
    let presence = alice.start();
    let received = relayed(&presence);
    assert_eq!(received.len(), 5);
    assert_eq!(bob.on_receive(Incoming::Datagram(received)), Ok(Some(Delivery::Joined)));
    assert_eq!(bob.participants(), &vec![Participant { display_name: "alice".to_string() }]);
    assert_eq!(bob.history(), &vec![joined("alice")]);
    assert_eq!(bob.phase(), Phase::Active);
}

#[test]
fn presence_is_not_deduplicated() {
    let mut bob = joiner("bob");
    assert_eq!(bob.on_datagram(b"alice"), Delivery::Joined);
    assert_eq!(bob.on_datagram(b"alice"), Delivery::Joined);
    assert_eq!(bob.participants().len(), 2);
    assert_eq!(bob.history(), &vec![joined("alice"), joined("alice")]);
}

#[test]
fn message_reaches_the_history() {
    let mut alice = creator("alice");
    let mut bob = joiner("bob");
    type_text(&mut alice, "hi");
    assert_eq!(alice.input(), "hi");
    let sent = alice.handle_key_event(press(KeyCode::Enter)).unwrap();
    assert_eq!(alice.input(), "");
    assert_eq!(sent.len(), KEY_LEN + NONCE_LEN + "alice|hi".len() + TAG_LEN);
    let frame = relayed(&sent);
    let engine = CipherEngine::new(artichat::key::derive(ROOM_KEY).ok().unwrap().cipher_key);
    assert_eq!(engine.decrypt(&frame), Ok("alice|hi".to_string()));
    assert_eq!(bob.on_datagram(&frame), Delivery::Chat);
    assert_eq!(bob.history(), &vec![chat("alice", "hi")]);
    assert!(bob.participants().is_empty());
    assert!(alice.history().is_empty());
}

#[test]
fn empty_input_is_sent() {
    let mut alice = creator("alice");
    let mut bob = joiner("bob");
    let sent = alice.handle_key_event(press(KeyCode::Enter)).unwrap();
    let frame = relayed(&sent);
    let engine = CipherEngine::new(artichat::key::derive(ROOM_KEY).ok().unwrap().cipher_key);
    assert_eq!(engine.decrypt(&frame), Ok("alice|".to_string()));
    assert_eq!(bob.on_datagram(&frame), Delivery::Chat);
    assert_eq!(bob.history(), &vec![chat("alice", "")]);
}

#[test]
fn submit_with_nonce_frames_the_sealed_plaintext() {
    let mut alice = creator("alice");
    type_text(&mut alice, "hi");
    let nonce = [3u8; 12];
    let sent = alice.submit_with_nonce(&nonce).unwrap();
    let engine = CipherEngine::new(artichat::key::derive(ROOM_KEY).ok().unwrap().cipher_key);
    let mut expected = ROOM_KEY.as_bytes().to_vec();
    expected.extend(engine.encrypt_with_nonce(&nonce, "alice|hi").unwrap());
    assert_eq!(sent, expected);
    assert_eq!(&sent[KEY_LEN..KEY_LEN + NONCE_LEN], &nonce);
    assert_eq!(alice.input(), "");
}

#[test]
fn two_submissions_differ() {
    let mut alice = creator("alice");
    let first = alice.submit().unwrap();
    let second = alice.submit().unwrap();
    assert_ne!(first[KEY_LEN..KEY_LEN + NONCE_LEN], second[KEY_LEN..KEY_LEN + NONCE_LEN]);
    assert_ne!(first, second);
}

#[test]
fn undecryptable_datagram_is_dropped() {
    let mut bob = joiner("bob");
    let failed = Delivery::Dropped(DropReason::Decrypt(DecryptError::AuthenticationFailed));
    assert_eq!(bob.on_datagram(&[0u8; 64]), failed);
    assert_eq!(bob.on_datagram(b"a display name of more than 12 bytes"), failed);
    assert!(bob.history().is_empty());
    assert!(bob.participants().is_empty());
    assert!(!bob.is_terminated());
    // the next datagram is handled as ever
    bob.on_datagram(b"alice");
    assert_eq!(bob.history(), &vec![joined("alice")]);
}

#[test]
fn tampered_message_is_dropped() {
    let mut alice = creator("alice");
    let mut bob = joiner("bob");
    type_text(&mut alice, "hi");
    let mut frame = relayed(&alice.submit().unwrap());
    let last = frame.len() - 1;
    frame[last] ^= 1;
    assert_eq!(
        bob.on_datagram(&frame),
        Delivery::Dropped(DropReason::Decrypt(DecryptError::AuthenticationFailed))
    );
    assert!(bob.history().is_empty());
}

#[test]
fn message_under_another_key_is_dropped() {
    let mut eve =
        Session::create_room("eve".to_string(), "fedcba9876543210fedcba9876543210".to_string())
            .ok()
            .unwrap();
    let mut bob = joiner("bob");
    type_text(&mut eve, "hi");
    let sent = eve.submit().unwrap();
    assert_eq!(
        bob.on_datagram(&sent[KEY_LEN..]),
        Delivery::Dropped(DropReason::Decrypt(DecryptError::AuthenticationFailed))
    );
    assert!(bob.history().is_empty());
}

#[test]
fn plaintext_without_separator_is_dropped() {
    let mut bob = joiner("bob");
    let engine = CipherEngine::new(artichat::key::derive(ROOM_KEY).ok().unwrap().cipher_key);
    let dropped = Delivery::Dropped(DropReason::Protocol(ProtocolError::MissingSeparator));
    assert_eq!(bob.on_datagram(&engine.encrypt("no separator").unwrap()), dropped);
    assert!(bob.history().is_empty());
    assert_eq!(bob.apply_decrypted(Ok("again none".to_string())), dropped);
    assert!(bob.history().is_empty());
    assert_eq!(
        bob.apply_decrypted(Err(DecryptError::Malformed)),
        Delivery::Dropped(DropReason::Decrypt(DecryptError::Malformed))
    );
    assert!(bob.history().is_empty());
    assert_eq!(bob.apply_decrypted(Ok("carol|a|b".to_string())), Delivery::Chat);
    assert_eq!(bob.history(), &vec![chat("carol", "a|b")]);
}

#[test]
fn short_invalid_utf8_is_dropped() {
    let mut bob = joiner("bob");
    assert_eq!(
        bob.on_datagram(&[0xff, 0xfe]),
        Delivery::Dropped(DropReason::MalformedPresence)
    );
    assert!(bob.history().is_empty());
    assert!(bob.participants().is_empty());
}

#[test]
fn would_block_changes_nothing() {
    let mut bob = joiner("bob");
    bob.start();
    assert_eq!(bob.on_receive(Incoming::WouldBlock), Ok(None));
    assert!(bob.history().is_empty());
    assert_eq!(bob.phase(), Phase::Active);
}

#[test]
fn socket_failure_terminates() {
    let mut bob = joiner("bob");
    bob.start();
    assert_eq!(bob.on_receive(Incoming::Failed), Err(FatalError::SocketUnavailable));
    assert!(bob.is_terminated());
    assert_eq!(bob.phase(), Phase::Terminated);
}

#[test]
fn typing_and_backspace() {
    let mut alice = creator("alice");
    assert_eq!(alice.handle_key_event(press(KeyCode::Backspace)), None);
    assert_eq!(alice.input(), "");
    type_text(&mut alice, "héy");
    assert_eq!(alice.input(), "héy");
    alice.handle_key_event(press(KeyCode::Backspace));
    assert_eq!(alice.input(), "hé");
    alice.handle_key_event(press(KeyCode::Backspace));
    assert_eq!(alice.input(), "h");
    alice.handle_key_event(press(KeyCode::Other));
    assert_eq!(alice.input(), "h");
}

#[test]
fn function_keys_toggle_the_display() {
    let mut alice = creator("alice");
    alice.handle_key_event(press(KeyCode::F(1)));
    assert!(alice.show_users());
    assert!(!alice.show_key());
    alice.handle_key_event(press(KeyCode::F(2)));
    assert!(alice.show_users());
    assert!(alice.show_key());
    alice.handle_key_event(press(KeyCode::F(1)));
    alice.handle_key_event(press(KeyCode::F(2)));
    alice.handle_key_event(press(KeyCode::F(3)));
    assert!(!alice.show_users());
    assert!(!alice.show_key());
}

#[test]
fn control_c_terminates() {
    let mut alice = creator("alice");
    type_text(&mut alice, "hi");
    let out = alice.handle_key_event(KeyEvent {
        code: KeyCode::Char('c'),
        control: true,
        pressed: true,
    });
    assert_eq!(out, None);
    assert!(alice.is_terminated());
    assert_eq!(alice.input(), "hi");
}

#[test]
fn control_with_another_key_does_nothing() {
    let mut alice = creator("alice");
    for code in [KeyCode::Char('x'), KeyCode::Enter, KeyCode::Backspace, KeyCode::F(1)] {
        let out = alice.handle_key_event(KeyEvent { code, control: true, pressed: true });
        assert_eq!(out, None);
    }
    assert!(!alice.is_terminated());
    assert_eq!(alice.input(), "");
    assert!(!alice.show_users());
}

#[test]
fn only_pressed_keys_count() {
    let mut alice = creator("alice");
    let release = KeyEvent { code: KeyCode::Char('a'), control: false, pressed: false };
    assert_eq!(alice.handle_events(Some(TerminalEvent::Key(release))), None);
    assert_eq!(alice.handle_events(Some(TerminalEvent::Other)), None);
    assert_eq!(alice.handle_events(None), None);
    assert_eq!(alice.input(), "");
    let down = press(KeyCode::Char('a'));
    assert_eq!(alice.handle_events(Some(TerminalEvent::Key(down))), None);
    assert_eq!(alice.input(), "a");
    let sent = alice.handle_events(Some(TerminalEvent::Key(press(KeyCode::Enter))));
    assert_eq!(sent.unwrap().len(), KEY_LEN + NONCE_LEN + "alice|a".len() + TAG_LEN);
    let released_enter = KeyEvent { code: KeyCode::Enter, control: false, pressed: false };
    assert_eq!(alice.handle_events(Some(TerminalEvent::Key(released_enter))), None);
}

#[test]
fn edit_leaves_enter_alone() {
    let mut alice = creator("alice");
    type_text(&mut alice, "hi");
    alice.edit(press(KeyCode::Enter));
    assert_eq!(alice.input(), "hi");
}

#[test]
fn display_window_holds_the_last_lines() {
    let mut bob = joiner("bob");
    assert_eq!(bob.first_visible(0), 0);
    assert_eq!(bob.first_visible(5), 0);
    for name in ["a", "b", "c"] {
        bob.join(name.to_string());
    }
    assert_eq!(bob.first_visible(5), 0);
    assert_eq!(bob.first_visible(3), 0);
    assert_eq!(bob.first_visible(2), 1);
    assert_eq!(bob.first_visible(0), 3);
}

#[test]
fn terminated_session_stays_terminated() {
    let mut alice = creator("alice");
    alice.exit();
    alice.on_datagram(b"bob");
    alice.handle_key_event(press(KeyCode::Char('x')));
    alice.handle_key_event(press(KeyCode::Enter));
    assert_eq!(alice.on_receive(Incoming::WouldBlock), Ok(None));
    assert!(alice.is_terminated());
}

#[test]
fn well_known_addresses() {
    assert_eq!(artichat::session::LOCAL_HOST, "127.0.0.1");
    assert_eq!(artichat::session::RELAY_ADDRESS, "127.0.0.1:9595");
    assert_eq!(artichat::session::DEFAULT_JOINER_PORT, "9191");
    assert_eq!(artichat::session::POLL_TIMEOUT_MS, 100);
    assert_eq!(artichat::session::RECEIVE_BUFFER_LEN, 1024);
}

#[test]
fn message_cut_below_the_threshold_is_taken_for_presence() {
    let mut bob = joiner("bob");
    let engine = CipherEngine::new(artichat::key::derive(ROOM_KEY).ok().unwrap().cipher_key);
    let frame = engine.encrypt_with_nonce(&[0xff; 12], "alice|hi").unwrap();
    assert_eq!(
        bob.on_datagram(&frame[..11]),
        Delivery::Dropped(DropReason::MalformedPresence)
    );
    assert_eq!(bob.on_datagram(&frame), Delivery::Chat);
    assert_eq!(bob.history(), &vec![chat("alice", "hi")]);
}
