//! Incremental decoder for the MIDI 1.0 transport byte stream.
//!
//! Bytes arrive one at a time; as soon as the last byte of a message has
//! been pushed, the parser hands back a view of the complete message. The
//! decoder supports running status, interleaved real-time bytes and
//! system-exclusive messages, and never allocates on the per-byte path.

pub mod protocol;
pub mod stream_parser;
