//! Readers for IEEE 802.15.4 frames.
pub mod layout;
pub mod data;
pub mod ack;
pub mod beacon;
pub mod frame;
pub mod fcs;
