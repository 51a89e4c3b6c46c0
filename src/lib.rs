//! A terminal chat client's core: the line decoder for a streamed NDJSON reply,
//! the per-turn stream logic of the agent worker, request encoding, and the
//! presentation state of the interactive loop.

pub mod types;
pub mod decoder;
pub mod agent;
pub mod session;
pub mod tools;
