//! Value types for link-layer frames: addressing, header, content variants,
//! the full outbound frame and the slice of an inbound frame that the scanner
//! consumes.

use vstd::prelude::*;

verus! {

/// The PAN identifier that addresses every device of every network.
pub const BROADCAST_PAN_ID: u16 = 0xffff;

/// The short address that addresses every device of a network.
pub const BROADCAST_SHORT_ADDRESS: u16 = 0xffff;

/// A device address: a 16-bit PAN identifier paired with either a 16-bit
/// short address or a 64-bit extended address. Pure value data.
#[derive(Clone, Copy, Debug, PartialEq, Eq)]
pub enum Address {
    /// PAN identifier and 16-bit short address.
    Short(u16, u16),
    /// PAN identifier and 64-bit extended address.
    Extended(u16, u64),
}

impl Address {
    /// The PAN identifier scoping this address.
    pub open spec fn spec_pan_id(self) -> u16 {
        match self {
            Address::Short(pan, _) => pan,
            Address::Extended(pan, _) => pan,
        }
    }

    /// The PAN identifier scoping this address.
    pub fn pan_id(&self) -> (pan: u16)
        ensures
            pan == self.spec_pan_id(),
    {
        match *self {
            Address::Short(pan, _) => pan,
            Address::Extended(pan, _) => pan,
        }
    }

    /// Whether this is the short broadcast address: no specific target.
    pub open spec fn is_broadcast(self) -> bool {
        self == Address::Short(BROADCAST_PAN_ID, BROADCAST_SHORT_ADDRESS)
    }
}

/// The protocol version written into the frame-control field. A closed
/// enumeration: no invalid version can be constructed.
#[derive(Clone, Copy, Debug, PartialEq, Eq)]
pub enum FrameVersion {
    /// A frame conforming to the 802.15.4-2003 standard.
    Ieee802154_2003,
    /// A frame conforming to the 802.15.4-2006 standard.
    Ieee802154_2006,
    /// A frame conforming to the current 802.15.4 standard.
    Ieee802154,
}

/// The superframe fields of a beacon that the scanner reads.
#[derive(Clone, Copy, Debug, PartialEq, Eq)]
pub struct Superframe {
    /// The sender is the coordinator of its PAN.
    pub pan_coordinator: bool,
    /// The sender accepts association (join) requests.
    pub association_permit: bool,
}

/// Frame content: a closed sum over the frame types the scanner tells apart.
/// The variant carries the frame-type tag of the wire header.
#[derive(Clone, Copy, Debug, PartialEq, Eq)]
pub enum FrameContent {
    /// A MAC command frame; the only command the scanner exchanges is the
    /// discovery (beacon) request, which carries no payload.
    Command,
    /// A beacon advertising a coordinator, with its superframe fields.
    Beacon(Superframe),
    /// Any other frame type (data, acknowledgement, ...); ignored.
    Other,
}

/// A frame header: sequence number, control flags, protocol version and the
/// optional destination and source addresses. A `None` address means the
/// corresponding addressing mode is absent from the frame.
#[derive(Clone, Copy, Debug, PartialEq, Eq)]
pub struct Header {
    /// Sequence number, correlating requests with responses.
    pub seq: u8,
    /// The sender holds more data for the recipient.
    pub frame_pending: bool,
    /// The sender asks for an acknowledgement.
    pub ack_request: bool,
    /// Source PAN identifier is elided as equal to the destination's.
    pub pan_id_compress: bool,
    /// An auxiliary security header is present.
    pub security: bool,
    /// Protocol version of the frame.
    pub version: FrameVersion,
    /// Destination address, if any.
    pub destination: Option<Address>,
    /// Source address, if any.
    pub source: Option<Address>,
}

/// A full link-layer frame: header, content and trailing payload bytes.
/// Frames are transient values, built fresh per transmission.
#[derive(Clone, Debug, PartialEq, Eq)]
pub struct Frame {
    /// The frame header.
    pub header: Header,
    /// The frame content, carrying the frame-type tag.
    pub content: FrameContent,
    /// Payload bytes after the content.
    pub payload: Vec<u8>,
}

/// The mathematical value of a [`Frame`]: the same fields, with the payload
/// as a sequence of bytes.
#[verifier::ext_equal]
pub struct FrameView {
    /// The frame header.
    pub header: Header,
    /// The frame content.
    pub content: FrameContent,
    /// Payload bytes after the content.
    pub payload: Seq<u8>,
}

impl FrameView {
    /// A command frame carries no payload beyond the command itself.
    pub open spec fn wf(self) -> bool {
        self.content is Command ==> self.payload.len() == 0
    }
}

impl View for Frame {
    type V = FrameView;

    open spec fn view(&self) -> FrameView {
        FrameView { header: self.header, content: self.content, payload: self.payload@ }
    }
}

/// The part of a decoded inbound frame that the scan loop consumes: the
/// content and the source address the sender declared. The scanner answers
/// nothing, so no other header field of an inbound frame is read.
#[derive(Clone, Copy, Debug, PartialEq, Eq)]
pub struct RxFrame {
    /// The frame content.
    pub content: FrameContent,
    /// Source address declared by the sender, if any.
    pub source: Option<Address>,
}

} // verus!
