//! The verified core of Botbox, a desktop SSH client for remote bots.

pub mod files;
pub mod keychain;
pub mod ssh;
pub mod store;
pub mod text;
