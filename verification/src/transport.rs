//! Decisions of the WebSocket peer-to-peer transport: what a received frame leads
//! to, and how long to wait before reconnecting to a peer.

use crate::message::{ClipboardContent, deserialize, deserialized};
use vstd::prelude::*;

verus! {

/// A frame read from a peer's WebSocket connection.
pub enum IncomingFrame {
    /// A binary message: a serialized clipboard content.
    Binary(Vec<u8>),
    /// The peer closed the connection.
    Close,
    /// A ping (the WebSocket layer answers it).
    Ping,
    /// Text, pong and other frames.
    Other,
    /// Reading from the connection failed.
    ReadError,
}

/// What the read loop does with a frame.
pub enum ReadAction {
    /// Hand the content to the sync layer as a remote change.
    Deliver(ClipboardContent),
    /// A binary message that is no valid clipboard message: drop it and read on.
    Undecodable,
    /// Stop reading and drop the peer.
    Disconnect,
    /// Read on.
    Ignore,
}

/// The read loop's decision on one frame.
pub fn on_incoming_frame(frame: IncomingFrame) -> (r: ReadAction)
    ensures
        match frame {
            IncomingFrame::Binary(data) => match deserialized(data@) {
                Some(c) => r matches ReadAction::Deliver(x) && x@ == c,
                None => r is Undecodable,
            },
            IncomingFrame::Close => r is Disconnect,
            IncomingFrame::ReadError => r is Disconnect,
            IncomingFrame::Ping => r is Ignore,
            IncomingFrame::Other => r is Ignore,
        },
{
    match frame {
        IncomingFrame::Binary(data) => match deserialize(data.as_slice()) {
            Some(content) => ReadAction::Deliver(content),
            None => ReadAction::Undecodable,
        },
        IncomingFrame::Close => ReadAction::Disconnect,
        IncomingFrame::ReadError => ReadAction::Disconnect,
        IncomingFrame::Ping => ReadAction::Ignore,
        IncomingFrame::Other => ReadAction::Ignore,
    }
}

/// Milliseconds to wait before connecting to a peer again: 3 s after a failed
/// connection attempt, 1 s after a connection that was lost.
pub fn reconnect_delay_ms(connect_failed: bool) -> (r: u64)
    ensures
        r == if connect_failed {
            3000u64
        } else {
            1000u64
        },
{
    if connect_failed {
        3000
    } else {
        1000
    }
}

} // verus!
