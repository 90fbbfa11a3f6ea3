//! A path-based HTTP reverse proxy: an exact-path route table, the
//! transformation of inbound requests into backend requests, transport
//! selection by scheme, and the relay of backend outcomes to clients.
//!
//! The logic here is verified; sockets, TLS and the event loop are driven by
//! the program that embeds it.

pub mod config;
pub mod message;
pub mod proxy;
pub mod routes;
pub mod target;
