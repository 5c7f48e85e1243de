//! An active network-discovery scanner for an IEEE 802.15.4 low-power radio.
//!
//! The scanner cycles round-robin through the 16 fixed channels 11..=26,
//! broadcasts a discovery request on each, listens for response beacons and
//! reports every coordinator it hears. The verified core covers the frame
//! model, the request builder, the beacon classifier, the channel scheduler
//! and the per-iteration decisions of the scan loop; the radio driver and the
//! byte-level frame codec are outside collaborators reached through a small
//! trusted boundary.

pub mod classify;
pub mod codec;
pub mod frame;
pub mod request;
pub mod scan;
pub mod scheduler;
