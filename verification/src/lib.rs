//! Runtime core for a node in a harness-driven distributed system.
//!
//! The node speaks newline-delimited JSON envelopes on its standard
//! streams; the surrounding process reads and writes the lines, while
//! this library supplies everything in between: the envelope model, the
//! wire codec, the init handshake, monotonic message-id generation, RPC
//! correlation with timeouts, request dispatch, and the shared error
//! taxonomy.

pub mod codec;
pub mod correlator;
pub mod echo;
pub mod envelope;
pub mod errors;
pub mod idgen;
pub mod node;
