//! End-to-end tests of the scanner library, run against the real outside
//! frame codec.

use byte::BytesExt;

use active_scan::classify::classify;
use active_scan::classify::Observation;
use active_scan::frame::Address;
use active_scan::frame::FrameContent;
use active_scan::frame::FrameVersion;
use active_scan::frame::RxFrame;
use active_scan::frame::Superframe;
use active_scan::request::new_beacon_request;
use active_scan::scan::report_transmission;
use active_scan::scan::RadioFault;
use active_scan::scan::Report;
use active_scan::scan::Scanner;
use active_scan::scheduler::ChannelScheduler;

use ieee802154::mac;

/// Serialize a wire frame with the no-security, no-footer codec settings the
/// scanner uses.
fn wire_encode(frame: mac::Frame) -> Vec<u8> {
    let mut buf = [0u8; 127];
    let mut len = 0usize;
    buf.write_with(
        &mut len,
        frame,
        &mut mac::FrameSerDesContext::no_security(mac::FooterMode::None),
    )
    .unwrap();
    buf[..len].to_vec()
}

/// A wire beacon frame with the given source address and superframe flags.
fn wire_beacon(
    source: mac::Address,
    pan_coordinator: bool,
    association_permit: bool,
    payload: &[u8],
) -> Vec<u8> {
    let beacon = mac::beacon::Beacon {
        superframe_spec: mac::beacon::SuperframeSpecification {
            beacon_order: mac::beacon::BeaconOrder::OnDemand,
            superframe_order: mac::beacon::SuperframeOrder::Inactive,
            final_cap_slot: 0,
            battery_life_extension: false,
            pan_coordinator,
            association_permit,
        },
        guaranteed_time_slot_info: mac::beacon::GuaranteedTimeSlotInformation::new(),
        pending_address: mac::beacon::PendingAddress::new(),
    };
    wire_encode(mac::Frame {
        header: mac::Header {
            frame_type: mac::FrameType::Beacon,
            frame_pending: false,
            ack_request: false,
            pan_id_compress: false,
            seq_no_suppress: false,
            ie_present: false,
            version: mac::FrameVersion::Ieee802154_2003,
            seq: 1,
            destination: None,
            source: Some(source),
            auxiliary_security_header: None,
        },
        content: mac::FrameContent::Beacon(beacon),
        payload,
        footer: [0u8; 2],
    })
}

#[test]
fn discovery_request_fields_for_all_sequences() {
    for sequence in 0..=255u8 {
        let frame = new_beacon_request(sequence, FrameVersion::Ieee802154_2003);
        assert_eq!(frame.header.seq, sequence);
        assert_eq!(
            frame.header.destination,
            Some(Address::Short(0xffff, 0xffff))
        );
        assert_eq!(frame.header.source, None);
        assert!(!frame.header.frame_pending);
        assert!(!frame.header.ack_request);
        assert!(!frame.header.pan_id_compress);
        assert!(!frame.header.security);
        assert_eq!(frame.header.version, FrameVersion::Ieee802154_2003);
        assert_eq!(frame.content, FrameContent::Command);
        assert!(frame.payload.is_empty());
    }
}

#[test]
fn scheduler_walks_channels_in_order() {
    let mut scheduler = ChannelScheduler::new();
    let mut seen = Vec::new();
    for _ in 0..16 {
        seen.push(scheduler.current());
        scheduler.advance();
    }
    let expected: Vec<u8> = (11..=26).collect();
    assert_eq!(seen, expected);
}

#[test]
fn scheduler_returns_after_sixteen_advances_from_any_start() {
    for start in 0..16usize {
        let mut scheduler = ChannelScheduler::new();
        for _ in 0..start {
            scheduler.advance();
        }
        let origin = scheduler.current();
        for _ in 0..16 {
            scheduler.advance();
        }
        assert_eq!(scheduler.current(), origin);
    }
}

#[test]
fn classify_beacon_with_short_source() {
    let frame = RxFrame {
        content: FrameContent::Beacon(Superframe {
            pan_coordinator: true,
            association_permit: false,
        }),
        source: Some(Address::Short(0x1234, 0x5678)),
    };
    assert_eq!(
        classify(&frame),
        Some(Observation {
            pan_id: 0x1234,
            source: Address::Short(0x1234, 0x5678),
            pan_coordinator: true,
            association_permit: false,
        })
    );
}

#[test]
fn classify_beacon_with_extended_source() {
    let frame = RxFrame {
        content: FrameContent::Beacon(Superframe {
            pan_coordinator: false,
            association_permit: true,
        }),
        source: Some(Address::Extended(0xabcd, 0x0123456789abcdef)),
    };
    assert_eq!(
        classify(&frame),
        Some(Observation {
            pan_id: 0xabcd,
            source: Address::Extended(0xabcd, 0x0123456789abcdef),
            pan_coordinator: false,
            association_permit: true,
        })
    );
}

#[test]
fn classify_beacon_without_source_is_skipped() {
    let frame = RxFrame {
        content: FrameContent::Beacon(Superframe {
            pan_coordinator: true,
            association_permit: true,
        }),
        source: None,
    };
    assert_eq!(classify(&frame), None);
}

#[test]
fn classify_command_is_skipped() {
    let frame = RxFrame {
        content: FrameContent::Command,
        source: Some(Address::Short(0x1234, 0x5678)),
    };
    assert_eq!(classify(&frame), None);
}

#[test]
fn classify_other_is_skipped() {
    let frame = RxFrame {
        content: FrameContent::Other,
        source: Some(Address::Short(0x1234, 0x5678)),
    };
    assert_eq!(classify(&frame), None);
}

#[test]
fn request_round_trip_classifies_as_command() {
    let mut scanner = Scanner::new();
    let tx = scanner.on_timer();
    let bytes = tx.bytes.expect("the codec accepts the discovery request");

    // Cross-check with the codec directly: the bytes parse back into the
    // command frame that was built, not into a beacon.
    let wire: mac::Frame = bytes
        .read_with(&mut 0, mac::FooterMode::None)
        .expect("the request's own encoding parses");
    assert_eq!(wire.header.frame_type, mac::FrameType::MacCommand);
    assert_eq!(
        wire.content,
        mac::FrameContent::Command(mac::command::Command::BeaconRequest)
    );
    assert_eq!(wire.header.seq, 0);
    assert_eq!(
        wire.header.destination,
        Some(mac::Address::Short(
            mac::PanId(0xffff),
            mac::ShortAddress(0xffff)
        ))
    );
    assert_eq!(wire.header.source, None);

    // Through the library: the decoded request is not an observation and not
    // a decode error; the two paths never cross-classify.
    assert_eq!(scanner.on_receive(Ok(bytes)), None);
}

#[test]
fn malformed_buffer_reports_one_decode_error() {
    let mut scanner = Scanner::new();
    let before = scanner;
    let garbage = vec![0x00u8];
    let report = scanner.on_receive(Ok(garbage.clone()));
    assert_eq!(report, Some(Report::DecodeError(garbage)));
    // The loop continues without state corruption: reception moved nothing.
    assert_eq!(scanner, before);
    let tx = scanner.on_timer();
    assert_eq!(tx.sequence, 0);
    assert_eq!(tx.channel, 11);
}

#[test]
fn crc_failure_reports_one_link_quality_fault() {
    let scanner = Scanner::new();
    let report = scanner.on_receive(Err(RadioFault::CrcFailed(0xBEEF)));
    assert_eq!(report, Some(Report::LinkQualityFault(0xBEEF)));
}

#[test]
fn other_radio_fault_reports_receive_fault() {
    let scanner = Scanner::new();
    let report = scanner.on_receive(Err(RadioFault::Other));
    assert_eq!(report, Some(Report::ReceiveFault));
}

#[test]
fn beacon_reports_one_observation_on_active_channel() {
    let scanner = Scanner::new();
    let bytes = wire_beacon(
        mac::Address::Short(mac::PanId(0x1234), mac::ShortAddress(0x5678)),
        true,
        false,
        &[],
    );
    let report = scanner.on_receive(Ok(bytes));
    assert_eq!(
        report,
        Some(Report::BeaconObserved {
            channel: 11,
            observation: Observation {
                pan_id: 0x1234,
                source: Address::Short(0x1234, 0x5678),
                pan_coordinator: true,
                association_permit: false,
            },
        })
    );
}

#[test]
fn beacon_with_extension_bytes_still_classifies() {
    let scanner = Scanner::new();
    let bytes = wire_beacon(
        mac::Address::Short(mac::PanId(0x1234), mac::ShortAddress(0x5678)),
        true,
        true,
        &[0xaa, 0xbb, 0xcc],
    );
    let report = scanner.on_receive(Ok(bytes));
    assert_eq!(
        report,
        Some(Report::BeaconObserved {
            channel: 11,
            observation: Observation {
                pan_id: 0x1234,
                source: Address::Short(0x1234, 0x5678),
                pan_coordinator: true,
                association_permit: true,
            },
        })
    );
}

#[test]
fn beacon_without_source_reports_nothing() {
    let scanner = Scanner::new();
    let beacon = mac::beacon::Beacon {
        superframe_spec: mac::beacon::SuperframeSpecification {
            beacon_order: mac::beacon::BeaconOrder::OnDemand,
            superframe_order: mac::beacon::SuperframeOrder::Inactive,
            final_cap_slot: 0,
            battery_life_extension: false,
            pan_coordinator: true,
            association_permit: true,
        },
        guaranteed_time_slot_info: mac::beacon::GuaranteedTimeSlotInformation::new(),
        pending_address: mac::beacon::PendingAddress::new(),
    };
    let bytes = wire_encode(mac::Frame {
        header: mac::Header {
            frame_type: mac::FrameType::Beacon,
            frame_pending: false,
            ack_request: false,
            pan_id_compress: false,
            seq_no_suppress: false,
            ie_present: false,
            version: mac::FrameVersion::Ieee802154_2003,
            seq: 2,
            destination: None,
            source: None,
            auxiliary_security_header: None,
        },
        content: mac::FrameContent::Beacon(beacon),
        payload: &[],
        footer: [0u8; 2],
    });
    assert_eq!(scanner.on_receive(Ok(bytes)), None);
}

#[test]
fn sixteen_ticks_cycle_channels_and_sequence() {
    let mut scanner = Scanner::new();
    for i in 0..16u8 {
        let tx = scanner.on_timer();
        assert_eq!(tx.channel, 11 + i);
        assert_eq!(tx.sequence, i);
        assert!(tx.bytes.is_some());
        assert_eq!(
            report_transmission(tx.channel, tx.sequence, true),
            Report::RequestSent {
                channel: 11 + i,
                sequence: i,
            }
        );
    }
    // Back at the front of the set; the counter keeps climbing.
    assert_eq!(scanner.scheduler.index, 0);
    let tx = scanner.on_timer();
    assert_eq!(tx.channel, 11);
    assert_eq!(tx.sequence, 16);
}

#[test]
fn sequence_counter_wraps_past_255() {
    let mut scanner = Scanner::new();
    scanner.sequence = 255;
    let tx = scanner.on_timer();
    assert_eq!(tx.sequence, 255);
    assert_eq!(scanner.sequence, 0);
}

#[test]
fn failed_transmission_reports_transmit_fault() {
    assert_eq!(report_transmission(14, 3, false), Report::TransmitFault);
}
