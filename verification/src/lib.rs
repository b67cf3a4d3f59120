pub mod actions;
pub mod client;
pub mod common;
pub mod config;
pub mod configs;
pub mod control_packets;
pub mod data_structures;
