//! High-level representations of IEEE 802.15.4 frame fields.
pub mod addressing;
pub mod frame_control;
pub mod ie;
pub mod frame;
pub mod builder;
pub mod frame_roundtrip;
