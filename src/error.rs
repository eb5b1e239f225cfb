use vstd::prelude::*;

verus! {

/// Everything that can go wrong in the gateway.
///
/// Errors raised by outside code (serial port, sockets, the line editor, the
/// message codec) carry that code's own description as text.
#[derive(Debug, Clone, PartialEq, Eq)]
pub enum Error {
    /// The serial port layer failed.
    Serial(String),
    /// No attached port reports the device's identity.
    NotFound,
    /// An I/O operation failed.
    IO(String),
    /// The interactive line editor failed.
    Repl(String),
    /// The device sent a line that could not be decoded.
    Codec(String),
    /// The peer closed the stream before a whole unit arrived.
    ConnectionClosed,
    /// A structured message could not be encoded or decoded.
    Serialization(String),
    /// A frame header declared a payload at least as long as the receive buffer.
    Oversized(u32),
    /// A payload is too long for its length to fit in a frame header.
    TooLong(usize),
}

} // verus!
