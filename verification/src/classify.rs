//! The beacon classifier: extraction of observation data from decoded frames.

use vstd::prelude::*;

use crate::frame::Address;
use crate::frame::FrameContent;
use crate::frame::RxFrame;

verus! {

/// One sighting of a coordinator's beacon: the identity and join policy that
/// the scanner reports. Ephemeral value data, copied out of a decoded frame.
#[derive(Clone, Copy, Debug, PartialEq, Eq)]
pub struct Observation {
    /// PAN identifier taken from the source address.
    pub pan_id: u16,
    /// Source address the beacon declared.
    pub source: Address,
    /// The sender is the coordinator of its PAN.
    pub pan_coordinator: bool,
    /// The sender accepts association (join) requests.
    pub association_permit: bool,
}

/// What `classify` extracts: the observation of a beacon with a declared
/// source, and nothing for any other frame.
pub open spec fn spec_classify(frame: RxFrame) -> Option<Observation> {
    match frame.content {
        FrameContent::Beacon(superframe) => match frame.source {
            Some(address) => Some(
                Observation {
                    pan_id: address.spec_pan_id(),
                    source: address,
                    pan_coordinator: superframe.pan_coordinator,
                    association_permit: superframe.association_permit,
                },
            ),
            None => None,
        },
        _ => None,
    }
}

/// Inspect a decoded inbound frame: extract the observation exactly when the
/// frame is a beacon that declares a source address. Non-beacon frames and
/// beacons without a source are skipped; a beacon without a source carries no
/// actionable identity, so absence of a match is deliberate, not an error.
pub fn classify(frame: &RxFrame) -> (observation: Option<Observation>)
    ensures
        observation == spec_classify(*frame),
        (observation is Some) <==> (frame.content is Beacon && frame.source is Some),
{
    match frame.content {
        FrameContent::Beacon(superframe) => match frame.source {
            Some(address) => Some(
                Observation {
                    pan_id: address.pan_id(),
                    source: address,
                    pan_coordinator: superframe.pan_coordinator,
                    association_permit: superframe.association_permit,
                },
            ),
            None => None,
        },
        _ => None,
    }
}

/// A frame whose content is not a beacon — in particular the scanner's own
/// discovery request — never yields an observation: the request and beacon
/// paths cannot cross-classify.
pub proof fn lemma_non_beacon_never_classified(frame: RxFrame)
    requires
        !(frame.content is Beacon),
    ensures
        spec_classify(frame) is None,
{
}

} // verus!
