//! The broker protocol: framing, messages and the client codec.

pub mod client;
pub mod frame;
pub mod message;
pub mod wire;
