//! Construction of the outbound discovery request.

use vstd::prelude::*;

use crate::frame::{
    Address, Frame, FrameContent, FrameVersion, FrameView, Header, BROADCAST_PAN_ID,
    BROADCAST_SHORT_ADDRESS,
};

verus! {

/// The discovery request with sequence number `sequence` and protocol version
/// `version`: destination broadcast, no source, every control flag clear, no
/// security, command content and an empty payload.
pub open spec fn spec_discovery_request(sequence: u8, version: FrameVersion) -> FrameView {
    FrameView {
        header: Header {
            seq: sequence,
            frame_pending: false,
            ack_request: false,
            pan_id_compress: false,
            security: false,
            version: version,
            destination: Some(Address::Short(BROADCAST_PAN_ID, BROADCAST_SHORT_ADDRESS)),
            source: None,
        },
        content: FrameContent::Command,
        payload: Seq::empty(),
    }
}

/// Create a beacon request frame: the discovery request broadcast on every
/// hop. Total for every sequence number; pure, with no side effects.
pub fn new_beacon_request(sequence: u8, version: FrameVersion) -> (frame: Frame)
    ensures
        frame@ == spec_discovery_request(sequence, version),
        frame@.wf(),
        frame@.header.destination matches Some(destination) && destination.is_broadcast(),
        frame@.header.source is None,
        frame@.content is Command,
        frame@.payload.len() == 0,
{
    Frame {
        header: Header {
            seq: sequence,
            frame_pending: false,
            ack_request: false,
            pan_id_compress: false,
            security: false,
            version: version,
            destination: Some(Address::Short(BROADCAST_PAN_ID, BROADCAST_SHORT_ADDRESS)),
            source: None,
        },
        content: FrameContent::Command,
        payload: Vec::new(),
    }
}

} // verus!
