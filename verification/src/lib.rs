//! Decision logic of a single-hop forwarding proxy that relaxes cross-origin
//! restrictions: which inbound requests are forwarded, to which target, and
//! what the caller gets back.

pub mod text;
pub mod method;
pub mod target;
pub mod response;
pub mod handler;
pub mod config;
pub mod laws;
