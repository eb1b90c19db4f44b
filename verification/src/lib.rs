//! Decoder for the UDP telemetry datagrams of the F1 2020 racing simulator.
//!
//! Every datagram starts with a 24-byte header whose `packet_id` byte selects
//! one of ten packet kinds.  Each kind is a fixed little-endian field layout,
//! decoded by the functions under [`f1_2020`] into typed records.  Malformed
//! input is rejected with a [`error::DecodeError`]; decoding never panics.
//!
//! The decoder works over an in-memory byte buffer through [`cursor::Cursor`];
//! receiving the datagrams from the network is the caller's business.

pub mod cursor;
pub mod error;
pub mod f1_2020;
pub mod packet;
pub mod units;
