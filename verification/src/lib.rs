//! Reading and writing IEEE 802.15.4 MAC frames, with the layout of every
//! field stated and checked against the code that reads and writes it.
//!
//! Readers borrow a byte slice (`Foo<&[u8]>`); writers own their buffer
//! (`Foo<Vec<u8>>`). High-level representations (`*Repr`) can be parsed from
//! readers and emitted into byte buffers.
use vstd::prelude::*;

pub mod bytes;
pub mod text;
pub mod time;
pub mod frame_control;
pub mod addressing;
pub mod repr;
pub mod aux_sec_header;
pub mod ie;
pub mod frames;
pub mod csma;

pub use time::{Duration, Instant};

verus! {

/// An error that can occur when reading or writing an IEEE 802.15.4 frame.
#[derive(Debug, Clone, Copy, PartialEq, Eq)]
pub struct Error;

} // verus!
