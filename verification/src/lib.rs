//! Clipboard synchronisation between machines: the wire format of clipboard
//! messages, the clipboard content rules, echo suppression and the decisions of
//! the peer transport.

pub mod message;
pub mod sync;
pub mod clipboard;
pub mod transport;
pub mod inspect;
