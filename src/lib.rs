//! Decision logic of a bridge from a Bluetooth Low-Energy heart-rate sensor to
//! an OSC receiver: peripheral selection, the connect sequence, and the
//! notification pipeline with rate limiting and timeout-driven reconnection.
pub mod payload;
pub mod peripheral;
pub mod connection;
pub mod pipeline;
pub mod message;
