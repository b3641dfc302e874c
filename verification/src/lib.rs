//! Core of a byte-stream relay: a client-side loop accepts local connections
//! and forwards them over a configurable transport to a server-side loop,
//! which authenticates each inbound tunnel with a signed token and relays the
//! traffic to a fixed backend address.
//!
//! This crate holds the verified logic of that relay: the handshake wire
//! codec, token validation, the handshake state machines of both sides, the
//! byte accounting of the relay engine, and the per-connection session state
//! machines. The unverified transport plumbing around it hands these types
//! plain values (bytes read, connect results) and performs the actions they
//! return.

pub mod api;
pub mod auth;
pub mod codec;
pub mod config;
pub mod handshake;
pub mod ports;
pub mod relay;
pub mod session;
