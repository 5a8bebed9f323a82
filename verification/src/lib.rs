//! Buffered, split-capable frame transport for a length-delimited,
//! channel-multiplexed binary wire protocol.
//!
//! The library turns a raw byte stream into a sequence of frames and back:
//! it encodes frames into a write buffer (header, payload, end marker, with
//! the length field patched in place), accumulates incoming bytes in a read
//! buffer until a complete frame can be decoded, and classifies the end of
//! the stream as a clean close or an interruption mid-frame. The surrounding
//! I/O (connecting, reading, writing, shutdown) is left to the caller.

pub mod buffer;
pub mod connection;
pub mod error;
pub mod frame;
pub mod reader;
pub mod writer;
