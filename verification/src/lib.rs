//! Session orchestration for a single VPN tunnel: is the tunnel client
//! installed, how is it started, does the tunnel carry traffic, how is it
//! taken down.
//!
//! The library decides; files, processes and the network are the caller's.
//! Every connect or disconnect is a conversation: the session hands out an
//! [`protocol::Action`], the caller performs it and answers with an
//! [`protocol::Event`], until the session answers that the operation is over.

pub mod commands;
pub mod detection;
pub mod error;
pub mod installer;
pub mod launcher;
pub mod laws;
pub mod manager;
pub mod paths;
pub mod platform;
pub mod probe;
pub mod protocol;
pub mod session;
pub mod setup_log;
