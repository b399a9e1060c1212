//! Client-side transport core for a Kafka-style broker protocol: length-prefixed
//! framing, request/response coding and correlation-id bookkeeping, together with
//! the application state that sits on top of it.

pub mod app;
pub mod kafka;
