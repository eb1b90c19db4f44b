//! Decoders for the 2020 protocol year: the common header, the packet
//! dispatcher, and the ten per-kind payload decoders.

pub mod car;
pub mod car_setup;
pub mod car_status;
pub mod car_telemetry;
pub mod driver;
pub mod event;
pub mod final_classification;
pub mod header;
pub mod lap;
pub mod lobby_info;
pub mod motion;
pub mod nationality;
pub mod packet;
pub mod participants;
pub mod session;
pub mod team;
