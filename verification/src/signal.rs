//! The signaling server: a presence directory and SDP/ICE relay. It never
//! carries media; it only introduces peers.

pub mod directory;
pub mod identity;
pub mod laws;
pub mod protocol;
pub mod service;
pub mod turn;
