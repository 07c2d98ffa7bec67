//! Clientbound play-state messages: byte-exact encoders, time-derived
//! protocol tokens, and the keep-alive round trip.

pub mod ids;
pub mod tokens;
pub mod wire;
pub mod client;
pub mod play;
pub mod keep_alive;
