//! The decisions of an agent gateway: who may open a stream or a chat, how messages are encrypted
//! end to end, what a chat session says and does, how telemetry is distributed to a limited number
//! of subscribers, and what is announced of the agent's activity.
//!
//! Nothing here reads from or writes to a socket. Whoever does tells the library what happened and
//! is told what to do.

pub mod access;
pub mod channel;
pub mod chat;
pub mod json;
pub mod observer;
pub mod payload;
pub mod stream;
pub mod telemetry;
