//! Broadcast-room engine: a registry of live broadcast rooms, each with a
//! bounded lossy fan-out channel, and the command-validation protocol that
//! decides which inbound frames are forwarded, rewritten, or end the session.
pub mod handler;
pub mod protocol;
pub mod registry;
pub mod room;
