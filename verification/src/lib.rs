//! Tether: self-hosted remote desktop control.
//!
//! The logic of the wire protocol, the host daemon and the signaling server,
//! with every rule stated as a contract.

pub mod adaptive;
pub mod auth;
pub mod buffers;
pub mod capture;
pub mod chunks;
pub mod clipboard;
pub mod config;
pub mod crypto;
pub mod h264;
pub mod input;
pub mod keymap;
pub mod le;
pub mod pipeline;
pub mod protocol;
pub mod rtc;
pub mod session;
pub mod signal;
pub mod slots;
pub mod strmap;
pub mod text;
