//! A verified protocol engine for a minimal RFB (remote framebuffer) client
//! that negotiates the QEMU Audio extension and forwards PCM audio bytes to
//! an output sink.
//!
//! The engine is a state machine over the server-to-client byte stream: a
//! caller reads exactly the number of bytes the current state asks for, feeds
//! them to [`engine::step`], performs the returned writes and audio output,
//! and continues until the engine reports an outcome. All transport and
//! process concerns (sockets, exit codes, printing diagnostics) live outside
//! this crate.

pub mod engine;
pub mod laws;
pub mod messages;
pub mod wire;
