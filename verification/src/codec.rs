//! The trusted boundary to the outside frame codec: byte-level encoding of
//! the scanner's discovery request and decoding of received frames. Both
//! directions are pure computations of their arguments, so each result is
//! given a name that the callers' contracts speak of exactly.

use vstd::prelude::*;

use byte::BytesExt;
use ieee802154::mac::command::Command as WireCommand;
use ieee802154::mac::Address as WireAddress;
use ieee802154::mac::AddressMode as WireAddressMode;
use ieee802154::mac::FooterMode;
use ieee802154::mac::Frame as WireFrame;
use ieee802154::mac::FrameContent as WireContent;
use ieee802154::mac::FrameSerDesContext;
use ieee802154::mac::FrameType as WireFrameType;
use ieee802154::mac::FrameVersion as WireVersion;
use ieee802154::mac::Header as WireHeader;

use crate::frame::Address;
use crate::frame::Frame;
use crate::frame::FrameContent;
use crate::frame::FrameVersion;
use crate::frame::FrameView;
use crate::frame::RxFrame;
use crate::frame::Superframe;
use crate::request::spec_discovery_request;

verus! {

/// The bytes the codec produces for frame `f`, when it accepts the frame.
/// A function of the frame alone.
pub uninterp spec fn encoding_of(f: FrameView) -> Option<Seq<u8>>;

/// What the codec parses out of `bytes`, when it accepts them: the content
/// and source address of the frame they encode. A function of the bytes
/// alone.
pub uninterp spec fn decoding_of(bytes: Seq<u8>) -> Option<RxFrame>;

/// The bytes held in an optional buffer.
pub open spec fn opt_bytes(buffer: Option<Vec<u8>>) -> Option<Seq<u8>> {
    match buffer {
        Some(bytes) => Some(bytes@),
        None => None,
    }
}

/// Relies on ieee802154's frame serializer (`mac::Frame` written through
/// `byte::BytesExt::write_with`, with no security context and no explicit
/// footer): the bytes written are a function of the frame alone. Accepts only
/// the scanner's own discovery request, whose fixed header fields the body
/// writes out as the frame holds them.
#[verifier::external_body]
pub(crate) fn codec_encode(frame: &Frame) -> (r: Option<Vec<u8>>)
    requires
        frame@ == spec_discovery_request(frame@.header.seq, frame@.header.version),
    ensures
        opt_bytes(r) == encoding_of(frame@),
{
    let version = match frame.header.version {
        FrameVersion::Ieee802154_2003 => WireVersion::Ieee802154_2003,
        FrameVersion::Ieee802154_2006 => WireVersion::Ieee802154_2006,
        FrameVersion::Ieee802154 => WireVersion::Ieee802154 };
    let header = WireHeader {
        frame_type: WireFrameType::MacCommand, frame_pending: false, ack_request: false,
        pan_id_compress: false, seq_no_suppress: false, ie_present: false, version,
        seq: frame.header.seq, destination: WireAddress::broadcast(&WireAddressMode::Short),
        source: None, auxiliary_security_header: None,
    };
    let wire = WireFrame { header, content: WireContent::Command(WireCommand::BeaconRequest), payload: &[], footer: [0u8; 2] };
    let mut buf = [0u8; 127];
    let mut len: usize = 0;
    buf.write_with(&mut len, wire, &mut FrameSerDesContext::no_security(FooterMode::None)).ok()?;
    Some(buf[..len].to_vec())
}

/// Relies on ieee802154's frame parser (`mac::Frame` read through
/// `byte::BytesExt::read_with`, with no explicit footer): the parse is a
/// function of the bytes alone; malformed bytes are rejected, and so are
/// frames with security enabled, so a decoded frame carries no security
/// header. Extracts the content and the source address — the fields of an
/// inbound frame that the scanner consumes.
#[verifier::external_body]
pub(crate) fn codec_decode(bytes: &Vec<u8>) -> (r: Option<RxFrame>)
    ensures
        r == decoding_of(bytes@),
{
    let wire: WireFrame = bytes.read_with(&mut 0, FooterMode::None).ok()?;
    let cv = |a: WireAddress| match a {
        WireAddress::Short(p, s) => Address::Short(p.0, s.0),
        WireAddress::Extended(p, e) => Address::Extended(p.0, e.0),
    };
    let content = match wire.content {
        WireContent::Beacon(b) => FrameContent::Beacon(Superframe {
            pan_coordinator: b.superframe_spec.pan_coordinator,
            association_permit: b.superframe_spec.association_permit }),
        WireContent::Command(WireCommand::BeaconRequest) => FrameContent::Command,
        _ => FrameContent::Other,
    };
    Some(RxFrame { content, source: wire.header.source.map(cv) })
}

} // verus!
