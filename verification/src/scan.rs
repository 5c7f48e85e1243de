//! The scan loop's state and per-iteration decisions. Each loop iteration
//! races a frame reception against the periodic hop timer; the winning
//! branch's decision is a function here, from the scan state and the event
//! that won to the new state, the report to emit and the transmission to
//! perform. The caller owns the radio and the timers: it runs the race,
//! performs the transmissions and hands the outcomes back.

use vstd::prelude::*;

use crate::classify::classify;
use crate::classify::spec_classify;
use crate::classify::Observation;
use crate::codec::codec_decode;
use crate::codec::codec_encode;
use crate::codec::decoding_of;
use crate::codec::encoding_of;
use crate::codec::opt_bytes;
use crate::frame::FrameVersion;
use crate::frame::RxFrame;
use crate::request::new_beacon_request;
use crate::request::spec_discovery_request;
use crate::scheduler::channel_at;
use crate::scheduler::next_index;
use crate::scheduler::ChannelScheduler;
use crate::scheduler::FIRST_CHANNEL;

verus! {

/// Period of the hop timer, in seconds.
pub const HOP_INTERVAL_SECS: u64 = 2;

/// Quiescent interval between loop iterations, in microseconds.
pub const QUIESCENT_DELAY_MICROS: u64 = 100;

/// A reception-level fault signalled by the radio.
#[derive(Clone, Copy, Debug, PartialEq, Eq)]
pub enum RadioFault {
    /// The frame failed its checksum; carries the computed CRC value.
    CrcFailed(u16),
    /// Any other radio fault.
    Other,
}

/// One structured event for the reporting sink. Every error inside the loop
/// becomes a report and the loop continues; nothing here is fatal.
#[derive(Clone, Debug, PartialEq, Eq)]
pub enum Report {
    /// A coordinator's beacon was heard; attributed to the channel the radio
    /// was last tuned to for transmit.
    BeaconObserved {
        /// The currently active channel.
        channel: u8,
        /// What the classifier extracted from the beacon.
        observation: Observation,
    },
    /// Received bytes that the codec rejected, kept for diagnostics.
    DecodeError(Vec<u8>),
    /// A reception failed its checksum; carries the computed CRC value.
    LinkQualityFault(u16),
    /// A reception failed for another radio-level reason.
    ReceiveFault,
    /// A discovery request went out.
    RequestSent {
        /// The channel the request was transmitted on.
        channel: u8,
        /// The sequence number the request carried.
        sequence: u8,
    },
    /// A discovery request could not be transmitted.
    TransmitFault,
}

/// What the hop branch asks the caller to do: tune the radio to `channel`
/// and transmit `bytes`.
#[derive(Clone, Debug, PartialEq, Eq)]
pub struct TxCommand {
    /// The channel to tune to before transmitting.
    pub channel: u8,
    /// The sequence number the request carries.
    pub sequence: u8,
    /// The encoded request, or nothing if the codec refused the frame —
    /// report the attempt as failed then.
    pub bytes: Option<Vec<u8>>,
}

/// The report that a beacon yields: the observation tagged with the active
/// channel, or nothing when the frame is skipped.
pub open spec fn spec_receive_report(channel: u8, frame: RxFrame) -> Option<Report> {
    match spec_classify(frame) {
        Some(observation) => Some(Report::BeaconObserved { channel, observation }),
        None => None,
    }
}

/// The whole scan state: the channel set with its current position, the
/// sequence counter and the channel last tuned for transmit. Exactly one
/// instance exists, owned by the loop that drives the scan.
#[derive(Clone, Copy, Debug, PartialEq, Eq)]
pub struct Scanner {
    /// The round-robin channel scheduler.
    pub scheduler: ChannelScheduler,
    /// Sequence number of the next discovery request; wraps past 255.
    pub sequence: u8,
    /// The channel last tuned for transmit; observations are attributed
    /// to it.
    pub channel: u8,
}

impl Scanner {
    /// The scheduler holds a position of the set and the active channel is
    /// one of the scan set.
    pub open spec fn wf(self) -> bool {
        self.scheduler.wf() && 11 <= self.channel <= 26
    }

    /// A fresh scan state: first channel active, first position current,
    /// sequence counter at zero.
    pub fn new() -> (s: Scanner)
        ensures
            s.wf(),
            s.scheduler.index == 0,
            s.sequence == 0,
            s.channel == channel_at(0),
    {
        Scanner { scheduler: ChannelScheduler::new(), sequence: 0, channel: FIRST_CHANNEL }
    }

    /// Decide the report for a completed reception: classify a decoded
    /// frame into an observation on the active channel, report malformed
    /// bytes as a decode error, a checksum mismatch as a link-quality fault
    /// and any other radio fault as a receive fault. Reads the state only:
    /// a reception never moves the channel or the sequence counter.
    pub fn on_receive(&self, outcome: Result<Vec<u8>, RadioFault>) -> (report: Option<Report>)
        ensures
            outcome matches Err(RadioFault::CrcFailed(crc)) ==> report == Some(
                Report::LinkQualityFault(crc),
            ),
            outcome matches Err(RadioFault::Other) ==> report == Some(Report::ReceiveFault),
            outcome matches Ok(bytes) ==> match decoding_of(bytes@) {
                Some(frame) => report == spec_receive_report(self.channel, frame),
                None => report matches Some(r) && r matches Report::DecodeError(raw) && raw@
                    == bytes@,
            },
    {
        match outcome {
            Ok(bytes) => match codec_decode(&bytes) {
                Some(frame) => match classify(&frame) {
                    Some(observation) => Some(
                        Report::BeaconObserved { channel: self.channel, observation },
                    ),
                    None => None,
                },
                None => Some(Report::DecodeError(bytes)),
            },
            Err(RadioFault::CrcFailed(crc)) => Some(Report::LinkQualityFault(crc)),
            Err(RadioFault::Other) => Some(Report::ReceiveFault),
        }
    }

    /// Decide the hop branch when the timer wins the race: make the current
    /// channel the active one, build and encode the next discovery request,
    /// then advance the sequence counter (wrapping past 255, whatever the
    /// transmit outcome will be) and move the scheduler one place round the
    /// set. The caller tunes the radio and transmits the returned bytes.
    pub fn on_timer(&mut self) -> (tx: TxCommand)
        requires
            old(self).wf(),
        ensures
            final(self).wf(),
            final(self).scheduler.index as int == next_index(old(self).scheduler.index as int),
            final(self).sequence as int == (old(self).sequence as int + 1) % 256,
            final(self).channel == channel_at(old(self).scheduler.index as int),
            tx.channel == final(self).channel,
            tx.sequence == old(self).sequence,
            opt_bytes(tx.bytes) == encoding_of(
                spec_discovery_request(old(self).sequence, FrameVersion::Ieee802154_2003),
            ),
    {
        let channel = self.scheduler.current();
        self.channel = channel;
        let frame = new_beacon_request(self.sequence, FrameVersion::Ieee802154_2003);
        let bytes = codec_encode(&frame);
        let sequence = self.sequence;
        self.sequence = if self.sequence == 255 {
            0
        } else {
            self.sequence + 1
        };
        self.scheduler.advance();
        TxCommand { channel, sequence, bytes }
    }
}

/// Decide the report for a transmission attempt: a request-sent event for a
/// delivered request, a transmit fault otherwise.
pub fn report_transmission(channel: u8, sequence: u8, delivered: bool) -> (report: Report)
    ensures
        delivered ==> report == (Report::RequestSent { channel, sequence }),
        !delivered ==> report == Report::TransmitFault,
{
    if delivered {
        Report::RequestSent { channel, sequence }
    } else {
        Report::TransmitFault
    }
}

} // verus!
