//! The SSH side of Botbox.

pub mod auth;
pub mod channels;
pub mod connection;
pub mod forward;
pub mod host_check;
pub mod keys;
pub mod known_hosts;
pub mod pipeline;
pub mod signer;
pub mod wire;
