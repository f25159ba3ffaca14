//! Encrypted room sessions for a shared-secret text chat carried over datagrams.
//!
//! The crate holds the protocol and the session's state machine: how a room key
//! becomes key material, how datagrams are framed and told apart, how messages
//! are sealed and opened, and how a session reacts to datagrams and keystrokes.
//! Sockets, the terminal and the clock are the caller's business.

pub mod bytes;
mod text;
mod entropy;
pub mod defaults;
pub mod key;
pub mod frame;
pub mod cipher;
pub mod protocol;
pub mod session;
pub mod layout;
