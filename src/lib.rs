//! Discovery and routing core of a self-registering reverse-proxy gateway.
//!
//! Modules announce themselves to the server over a fixed-size UDP packet
//! protocol; the server keeps a registry of live modules, and the HTTP front
//! end routes each request by its first path segment.

pub mod protocol;
pub mod store;
pub mod supervisor;
pub mod server;
pub mod client;
pub mod router;
