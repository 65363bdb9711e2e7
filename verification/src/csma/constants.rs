//! PHY and MAC constants of IEEE 802.15.4 used by the CSMA-CA layer.
use vstd::prelude::*;

use crate::time::Duration;

verus! {

/// The maximum PSDU size (in octets) the PHY shall be able to receive.
pub const MAX_PHY_PACKET_SIZE: u32 = 127;

/// RX-to-TX or TX-to-RX turnaround time (in symbol periods).
pub const TURNAROUND_TIME: u32 = 12;

/// The time required to perform CCA detection in symbol periods.
pub const CCA_TIME: u32 = 8;

/// The number of symbols forming a superframe slot when the superframe order
/// is equal to zero.
pub const BASE_SLOT_DURATION: u32 = 60;

/// The number of slots contained in any superframe.
pub const NUM_SUPERFRAME_SLOTS: u32 = 440;

/// The number of symbols forming a superframe when the superframe order is
/// equal to zero.
pub const BASE_SUPERFRAME_DURATION: u32 = BASE_SLOT_DURATION * NUM_SUPERFRAME_SLOTS;

/// The number of superframes in which a GTS descriptor exists in the beacon
/// frame of the PAN coordinator.
pub const GTS_DESC_PERSISTENCE_TIME: u32 = 4;

/// The number of consecutive lost beacons that will cause the MAC sublayer
/// of a receiving device to declare a loss of synchronization.
pub const MAX_LOST_BEACONS: u32 = 4;

/// The maximum size of an MPDU, in octets, that can be followed by a SIFS
/// period.
pub const MAX_SIFS_FRAME_SIZE: u32 = 18;

/// The minimum number of symbols forming the CAP.
pub const MIN_CAP_LENGTH: u32 = 440;

/// The number of symbols forming the basic time period used by the CSMA-CA
/// algorithm.
pub const UNIT_BACKOFF_PERIOD: u32 = TURNAROUND_TIME + CCA_TIME;

/// The number of symbols forming an RCCN superframe slot.
pub const RCCN_BASE_SLOT_DURATION: u32 = 60;

/// The symbol rate of IEEE 802.15.4 on 2.4 GHz (symbols/s).
pub const SYMBOL_RATE: u32 = 250_000;

/// The duration of a symbol (µs/symbol).
pub const SYMBOL_RATE_INV_US: u32 = 1_000_000 / SYMBOL_RATE;

/// The minimum backoff exponent.
pub const MAC_MIN_BE: u16 = 0;

/// The maximum backoff exponent.
pub const MAC_MAX_BE: u16 = 8;

/// The maximum number of backoffs before a channel access failure.
pub const MAC_MAX_CSMA_BACKOFFS: u16 = 16;

/// The maximum number of retransmissions of a frame that is not
/// acknowledged.
pub const MAC_MAX_FRAME_RETIES: u16 = 3;

/// The PAN ID of the device.
pub const MAC_PAN_ID: u16 = 0xffff;

/// Whether frames without a destination address are taken as broadcast.
pub const MAC_IMPLICIT_BROADCAST: bool = false;

/// The duration of one backoff period: `UNIT_BACKOFF_PERIOD` symbols.
pub fn mac_unit_backoff_duration() -> (r: Duration)
    ensures
        r.0 == UNIT_BACKOFF_PERIOD * SYMBOL_RATE_INV_US,
{
    assert(SYMBOL_RATE_INV_US == 4);
    Duration::from_us((UNIT_BACKOFF_PERIOD * SYMBOL_RATE_INV_US) as i64)
}

/// The time between two frames sent by the CSMA-CA layer: 1 ms.
pub fn csma_inter_frame_time() -> (r: Duration)
    ensures
        r.0 == 1000,
{
    Duration::from_us(1000)
}

/// The minimal time for the receiving end to turn around before sending
/// an acknowledgment (AIFS): 1 ms.
pub fn mac_aifs_period() -> (r: Duration)
    ensures
        r.0 == 1000,
{
    Duration::from_us(1000)
}

/// The interframe spacing after a short frame (SIFS): 1 ms.
pub fn mac_sifs_period() -> (r: Duration)
    ensures
        r.0 == 1000,
{
    Duration::from_us(1000)
}

/// The interframe spacing after a long frame (LIFS): 10 ms.
pub fn mac_lifs_period() -> (r: Duration)
    ensures
        r.0 == 10_000,
{
    Duration::from_us(10_000)
}

} // verus!
