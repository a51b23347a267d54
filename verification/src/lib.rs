//! Core logic of a UDP-to-HTTP transponder.
//!
//! Datagrams arrive on a UDP socket, are captured as opaque payloads, and
//! are handed through a shared queue to a pool of delivery workers, each of
//! which forwards one payload per HTTP POST to a configured upstream
//! endpoint. This crate holds the verified heart of that pipeline: the
//! handoff queue and its drain discipline, payload capture, the per-step
//! decisions of the receiver and the workers, the configuration contract,
//! and the error taxonomy. The sockets, threads and the HTTP client that
//! surround it live outside the library and hand it plain values.

pub mod config;
pub mod fault;
pub mod queue;
pub mod receiver;
pub mod transponder;
pub mod worker;
