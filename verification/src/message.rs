//! PTP messages, their encoding, and the decoding and dispatch of received buffers.
use vstd::prelude::*;

use crate::bmca::{ds_canonical, ds_of_wire, ds_wire, lemma_ds_value_roundtrip, Bmca, ClockDS};
use crate::bytes::{be_bytes, be_value, lemma_be_bytes_len, pow256, u16_from_be, u16_to_be};
use crate::clock::TimeScale;
use crate::port::{
    lemma_port_identity_roundtrip, port_identity_of_wire, port_identity_wire, DomainNumber,
    PortIdentity,
};
use crate::result::{Error, ParseError, ProtocolError, Result};
use crate::time::{max_timestamp_nanos, timestamp_result, Instant, LogInterval, LogMessageInterval, TimeInterval, TimeStamp};
use crate::wire::{
    control_field_value, fitted, header_error, header_wire, lemma_header_layout,
    message_type_nibble, message_type_of, written, zeros, ControlField, FinalizedBuffer,
    LengthCheckedMessage, MessageBuffer, MessageFlags, MessageType, UnvalidatedMessage,
};

verus! {

/// `sequenceId`.
#[derive(Clone, Copy, Debug, PartialEq, Eq, Structural)]
pub struct SequenceId {
    pub id: u16,
}

impl SequenceId {
    /// A sequence id.
    pub fn new(id: u16) -> (s: SequenceId)
        ensures
            s.id == id,
    {
        SequenceId { id }
    }

    /// `true` if `self` is the sequence id right after `previous` (modulo 2^16).
    pub fn follows(&self, previous: SequenceId) -> (b: bool)
        ensures
            b == (self.id == (previous.id + 1) % 0x1_0000),
    {
        self.id == previous.id.wrapping_add(1)
    }

    /// The next sequence id (modulo 2^16).
    pub fn next(&self) -> (s: SequenceId)
        ensures
            s.id == (self.id + 1) % 0x1_0000,
    {
        SequenceId { id: self.id.wrapping_add(1) }
    }

    /// The id, big-endian.
    pub fn to_be_bytes(&self) -> (b: [u8; 2])
        ensures
            b@ == be_bytes(self.id as nat, 2),
    {
        u16_to_be(self.id)
    }
}

impl From<u16> for SequenceId {
    fn from(id: u16) -> (s: SequenceId) {
        SequenceId { id }
    }
}

impl vstd::std_specs::convert::FromSpecImpl<u16> for SequenceId {
    open spec fn obeys_from_spec() -> bool {
        true
    }

    open spec fn from_spec(id: u16) -> SequenceId {
        SequenceId { id }
    }
}

/// The sequence id read from the first two bytes of `buf`.
pub open spec fn sequence_id_of(buf: Seq<u8>) -> Result<SequenceId> {
    if buf.len() < 2 {
        Err(
            Error::Parse(
                ParseError::PayloadTooShort { field: "SequenceId", expected: 2, found: buf.len() as usize },
            ),
        )
    } else {
        Ok(SequenceId { id: be_value(buf.subrange(0, 2)) as u16 })
    }
}

impl<'a> TryFrom<&'a [u8]> for SequenceId {
    type Error = Error;

    fn try_from(buf: &'a [u8]) -> (r: Result<SequenceId>) {
        if buf.len() < 2 {
            return Err(
                Error::Parse(
                    ParseError::PayloadTooShort { field: "SequenceId", expected: 2, found: buf.len() },
                ),
            );
        }
        let b: [u8; 2] = [buf[0], buf[1]];
        assert(b@ =~= buf@.subrange(0, 2));
        Ok(SequenceId { id: u16_from_be(b) })
    }
}

impl<'a> vstd::std_specs::convert::TryFromSpecImpl<&'a [u8]> for SequenceId {
    open spec fn obeys_try_from_spec() -> bool {
        true
    }

    open spec fn try_from_spec(buf: &'a [u8]) -> Result<SequenceId> {
        sequence_id_of(buf@)
    }
}

/// Announce: a grandmaster candidate's data set.
#[derive(Clone, Copy, Debug, PartialEq, Eq, Structural)]
pub struct AnnounceMessage {
    pub sequence_id: SequenceId,
    pub log_message_interval: LogMessageInterval,
    pub foreign_clock_ds: ClockDS,
    pub ptp_timescale: TimeScale,
}

/// Sync carrying its origin timestamp.
#[derive(Clone, Copy, Debug, PartialEq, Eq, Structural)]
pub struct OneStepSyncMessage {
    pub sequence_id: SequenceId,
    pub log_message_interval: LogMessageInterval,
    pub origin_timestamp: TimeStamp,
}

/// Sync whose precise origin timestamp follows in a Follow_Up.
#[derive(Clone, Copy, Debug, PartialEq, Eq, Structural)]
pub struct TwoStepSyncMessage {
    pub sequence_id: SequenceId,
    pub log_message_interval: LogMessageInterval,
}

/// Follow_Up: the precise origin timestamp of a two-step Sync.
#[derive(Clone, Copy, Debug, PartialEq, Eq, Structural)]
pub struct FollowUpMessage {
    pub sequence_id: SequenceId,
    pub log_message_interval: LogMessageInterval,
    pub precise_origin_timestamp: TimeStamp,
}

/// Delay_Req.
#[derive(Clone, Copy, Debug, PartialEq, Eq, Structural)]
pub struct DelayRequestMessage {
    pub sequence_id: SequenceId,
}

/// Delay_Resp: when the master received a Delay_Req, and from whom.
#[derive(Clone, Copy, Debug, PartialEq, Eq, Structural)]
pub struct DelayResponseMessage {
    pub sequence_id: SequenceId,
    pub log_message_interval: LogMessageInterval,
    pub receive_timestamp: TimeStamp,
    pub requesting_port_identity: PortIdentity,
}

/// Messages sent on the event port (timestamped on ingress and egress).
#[derive(Clone, Copy, Debug, PartialEq, Eq, Structural)]
pub enum EventMessage {
    DelayReq(DelayRequestMessage),
    OneStepSync(OneStepSyncMessage),
    TwoStepSync(TwoStepSyncMessage),
}

/// Messages sent on the general port.
#[derive(Clone, Copy, Debug, PartialEq, Eq, Structural)]
pub enum GeneralMessage {
    Announce(AnnounceMessage),
    DelayResp(DelayResponseMessage),
    FollowUp(FollowUpMessage),
}

/// The egress timestamp of a sent event message.
#[derive(Clone, Copy, Debug, PartialEq, Eq, Structural)]
pub struct TimestampMessage {
    pub event_msg: EventMessage,
    pub egress_timestamp: TimeStamp,
}

impl TimestampMessage {
    /// Pair an event message with its egress timestamp.
    pub fn new(event_msg: EventMessage, egress_timestamp: TimeStamp) -> (t: TimestampMessage)
        ensures
            t == (TimestampMessage { event_msg, egress_timestamp }),
    {
        TimestampMessage { event_msg, egress_timestamp }
    }
}

/// Local events delivered to a port: timer expiries, egress timestamps, initialization.
#[derive(Clone, Copy, Debug, PartialEq, Eq, Structural)]
pub enum SystemMessage {
    AnnounceSendTimeout,
    DelayRequestTimeout,
    SyncTimeout,
    Timestamp(TimestampMessage),
    Initialized,
    AnnounceReceiptTimeout,
    QualificationTimeout,
    /// Infrastructure cleared a previously detected fault.
    FaultCleared,
}

/// The bytes of a message sent through `buf`.
pub open spec fn frame(
    buf: MessageBuffer,
    t: MessageType,
    c: ControlField,
    flags: u16,
    sequence_id: SequenceId,
    lmi: LogMessageInterval,
    payload: Seq<u8>,
) -> Seq<u8> {
    header_wire(
        message_type_nibble(t),
        buf.version.spec_nibble() & 0x0F,
        (34 + payload.len()) as u16,
        buf.domain_number.0,
        flags,
        buf.source_port_identity,
        sequence_id.id,
        control_field_value(c),
        lmi.spec_raw() as u8,
    ) + payload
}

/// The payload of an Announce: the data set at offset 13 of 30 bytes.
pub open spec fn announce_payload(ds: ClockDS) -> Seq<u8> {
    zeros(13) + ds_wire(ds) + zeros(1)
}

/// The `flagField` of an Announce.
pub open spec fn timescale_flags(t: TimeScale) -> u16 {
    match t {
        TimeScale::Ptp => 0x0008,
        TimeScale::Arb => 0,
    }
}

/// The bytes of an event message sent through `buf`.
pub open spec fn event_wire(msg: EventMessage, buf: MessageBuffer) -> Seq<u8> {
    match msg {
        EventMessage::DelayReq(m) => frame(
            buf,
            MessageType::DelayRequest,
            ControlField::DelayRequest,
            0,
            m.sequence_id,
            LogMessageInterval::spec_new(0x7F),
            zeros(10),
        ),
        EventMessage::OneStepSync(m) => frame(
            buf,
            MessageType::Sync,
            ControlField::Sync,
            0,
            m.sequence_id,
            m.log_message_interval,
            m.origin_timestamp.spec_wire(),
        ),
        EventMessage::TwoStepSync(m) => frame(
            buf,
            MessageType::Sync,
            ControlField::Sync,
            0x0002,
            m.sequence_id,
            m.log_message_interval,
            zeros(10),
        ),
    }
}

/// The bytes of a general message sent through `buf`.
pub open spec fn general_wire(msg: GeneralMessage, buf: MessageBuffer) -> Seq<u8> {
    match msg {
        GeneralMessage::Announce(m) => frame(
            buf,
            MessageType::Announce,
            ControlField::Other,
            timescale_flags(m.ptp_timescale),
            m.sequence_id,
            m.log_message_interval,
            announce_payload(m.foreign_clock_ds),
        ),
        GeneralMessage::DelayResp(m) => frame(
            buf,
            MessageType::DelayResponse,
            ControlField::DelayResponse,
            0,
            m.sequence_id,
            m.log_message_interval,
            m.receive_timestamp.spec_wire() + port_identity_wire(m.requesting_port_identity),
        ),
        GeneralMessage::FollowUp(m) => frame(
            buf,
            MessageType::FollowUp,
            ControlField::FollowUp,
            0,
            m.sequence_id,
            m.log_message_interval,
            m.precise_origin_timestamp.spec_wire(),
        ),
    }
}

/// The error for a payload too short to hold `field`.
pub open spec fn too_short(field: &'static str, expected: usize, found: int) -> Error {
    Error::Parse(ParseError::PayloadTooShort { field, expected, found: found as usize })
}

/// The timestamp read from the first ten bytes of `payload`, reported as `field` when missing.
pub open spec fn payload_timestamp(payload: Seq<u8>, field: &'static str) -> Result<TimeStamp> {
    if payload.len() < 10 {
        Err(too_short(field, 10, payload.len() as int))
    } else {
        timestamp_result(payload.subrange(0, 10))
    }
}

/// The event message with the given header fields and payload.
pub open spec fn event_message_of(
    t: MessageType,
    sequence_id: SequenceId,
    flags: MessageFlags,
    lmi: LogMessageInterval,
    payload: Seq<u8>,
) -> Result<EventMessage> {
    match t {
        MessageType::Sync => if flags.0 & 0x0002 == 0x0002 {
            Ok(EventMessage::TwoStepSync(TwoStepSyncMessage { sequence_id, log_message_interval: lmi }))
        } else {
            match payload_timestamp(payload, "Sync.origin_timestamp") {
                Ok(ts) => Ok(
                    EventMessage::OneStepSync(
                        OneStepSyncMessage {
                            sequence_id,
                            log_message_interval: lmi,
                            origin_timestamp: ts,
                        },
                    ),
                ),
                Err(e) => Err(e),
            }
        },
        MessageType::DelayRequest => Ok(EventMessage::DelayReq(DelayRequestMessage { sequence_id })),
        _ => Err(Error::Protocol(ProtocolError::UnknownMessageType(message_type_nibble(t)))),
    }
}

/// The general message with the given header fields and payload.
pub open spec fn general_message_of(
    t: MessageType,
    sequence_id: SequenceId,
    flags: MessageFlags,
    lmi: LogMessageInterval,
    payload: Seq<u8>,
) -> Result<GeneralMessage> {
    match t {
        MessageType::Announce => if payload.len() < 29 {
            Err(
                too_short(
                    "Announce.foreign_clock_ds",
                    16,
                    if payload.len() < 13 {
                        0
                    } else {
                        payload.len() - 13
                    },
                ),
            )
        } else {
            Ok(
                GeneralMessage::Announce(
                    AnnounceMessage {
                        sequence_id,
                        log_message_interval: lmi,
                        foreign_clock_ds: ds_of_wire(payload.subrange(13, 29)),
                        ptp_timescale: if flags.0 & 0x0008 == 0x0008 {
                            TimeScale::Ptp
                        } else {
                            TimeScale::Arb
                        },
                    },
                ),
            )
        },
        MessageType::FollowUp => match payload_timestamp(payload, "FollowUp.precise_origin_timestamp") {
            Ok(ts) => Ok(
                GeneralMessage::FollowUp(
                    FollowUpMessage {
                        sequence_id,
                        log_message_interval: lmi,
                        precise_origin_timestamp: ts,
                    },
                ),
            ),
            Err(e) => Err(e),
        },
        MessageType::DelayResponse => match payload_timestamp(payload, "DelayResponse.receive_timestamp") {
            Ok(ts) => if payload.len() < 20 {
                Err(too_short("DelayResponse.requesting_port_identity", 10, payload.len() - 10))
            } else {
                Ok(
                    GeneralMessage::DelayResp(
                        DelayResponseMessage {
                            sequence_id,
                            log_message_interval: lmi,
                            receive_timestamp: ts,
                            requesting_port_identity: port_identity_of_wire(payload.subrange(10, 20)),
                        },
                    ),
                )
            },
            Err(e) => Err(e),
        },
        _ => Err(Error::Protocol(ProtocolError::UnknownMessageType(message_type_nibble(t)))),
    }
}

/// The header fields of received bytes `b`.
pub open spec fn wire_sequence_id(b: Seq<u8>) -> SequenceId {
    SequenceId { id: be_value(b.subrange(30, 32)) as u16 }
}

/// The `flagField` of received bytes `b`.
pub open spec fn wire_flags(b: Seq<u8>) -> MessageFlags {
    MessageFlags(be_value(b.subrange(6, 8)) as u16)
}

/// The payload of received bytes `b`.
pub open spec fn wire_payload(b: Seq<u8>) -> Seq<u8> {
    b.subrange(34, b.len() as int)
}

/// The event message in received bytes `b` that passed the header checks.
pub open spec fn decode_event(b: Seq<u8>) -> Result<EventMessage> {
    match message_type_of(b[0] & 0x0F) {
        Some(t) => event_message_of(
            t,
            wire_sequence_id(b),
            wire_flags(b),
            LogMessageInterval::spec_new(b[33] as i8),
            wire_payload(b),
        ),
        None => Err(Error::Protocol(ProtocolError::UnknownMessageType(b[0] & 0x0F))),
    }
}

/// The general message in received bytes `b` that passed the header checks.
pub open spec fn decode_general(b: Seq<u8>) -> Result<GeneralMessage> {
    match message_type_of(b[0] & 0x0F) {
        Some(t) => general_message_of(
            t,
            wire_sequence_id(b),
            wire_flags(b),
            LogMessageInterval::spec_new(b[33] as i8),
            wire_payload(b),
        ),
        None => Err(Error::Protocol(ProtocolError::UnknownMessageType(b[0] & 0x0F))),
    }
}

/// The timestamp in the first ten bytes of `payload`, reported as `field` when missing.
fn read_payload_timestamp(payload: &[u8], field: &'static str) -> (r: Result<TimeStamp>)
    ensures
        r == payload_timestamp(payload@, field),
{
    if payload.len() < 10 {
        return Err(
            Error::Parse(ParseError::PayloadTooShort { field, expected: 10, found: payload.len() }),
        );
    }
    let b: [u8; 10] = [
        payload[0],
        payload[1],
        payload[2],
        payload[3],
        payload[4],
        payload[5],
        payload[6],
        payload[7],
        payload[8],
        payload[9],
    ];
    assert(b@ =~= payload@.subrange(0, 10));
    TimeStamp::from_wire(&b)
}

impl EventMessage {
    /// Decode an event message from its header fields and payload.
    pub fn new(
        msg_type: MessageType,
        sequence_id: SequenceId,
        flags: MessageFlags,
        log_message_interval: LogMessageInterval,
        payload: &[u8],
    ) -> (r: Result<EventMessage>)
        ensures
            r == event_message_of(msg_type, sequence_id, flags, log_message_interval, payload@),
    {
        match msg_type {
            MessageType::Sync => {
                if flags.contains(MessageFlags::two_step()) {
                    Ok(EventMessage::TwoStepSync(TwoStepSyncMessage::new(sequence_id, log_message_interval)))
                } else {
                    match read_payload_timestamp(payload, "Sync.origin_timestamp") {
                        Ok(ts) => Ok(
                            EventMessage::OneStepSync(
                                OneStepSyncMessage::new(sequence_id, log_message_interval, ts),
                            ),
                        ),
                        Err(e) => Err(e),
                    }
                }
            },
            MessageType::DelayRequest => Ok(EventMessage::DelayReq(DelayRequestMessage::new(sequence_id))),
            _ => Err(Error::Protocol(ProtocolError::UnknownMessageType(msg_type.to_nibble()))),
        }
    }

    /// Serialize through `buf`.
    pub fn to_wire(self, buf: &MessageBuffer) -> (f: FinalizedBuffer)
        ensures
            f.spec_bytes() == event_wire(self, *buf),
    {
        match self {
            EventMessage::DelayReq(msg) => msg.to_wire(buf),
            EventMessage::OneStepSync(msg) => msg.to_wire(buf),
            EventMessage::TwoStepSync(msg) => msg.to_wire(buf),
        }
    }
}

impl GeneralMessage {
    /// Decode a general message from its header fields and payload.
    pub fn new(
        msg_type: MessageType,
        sequence_id: SequenceId,
        flags: MessageFlags,
        log_message_interval: LogMessageInterval,
        payload: &[u8],
    ) -> (r: Result<GeneralMessage>)
        ensures
            r == general_message_of(msg_type, sequence_id, flags, log_message_interval, payload@),
    {
        match msg_type {
            MessageType::Announce => {
                if payload.len() < 29 {
                    let found: usize = if payload.len() < 13 {
                        0
                    } else {
                        payload.len() - 13
                    };
                    return Err(
                        Error::Parse(
                            ParseError::PayloadTooShort {
                                field: "Announce.foreign_clock_ds",
                                expected: 16,
                                found,
                            },
                        ),
                    );
                }
                let b: [u8; 16] = [
                    payload[13],
                    payload[14],
                    payload[15],
                    payload[16],
                    payload[17],
                    payload[18],
                    payload[19],
                    payload[20],
                    payload[21],
                    payload[22],
                    payload[23],
                    payload[24],
                    payload[25],
                    payload[26],
                    payload[27],
                    payload[28],
                ];
                assert(b@ =~= payload@.subrange(13, 29));
                let time_scale = if flags.contains(MessageFlags::ptp_timescale()) {
                    TimeScale::Ptp
                } else {
                    TimeScale::Arb
                };
                Ok(
                    GeneralMessage::Announce(
                        AnnounceMessage::new(
                            sequence_id,
                            log_message_interval,
                            ClockDS::from_wire(&b),
                            time_scale,
                        ),
                    ),
                )
            },
            MessageType::FollowUp => {
                match read_payload_timestamp(payload, "FollowUp.precise_origin_timestamp") {
                    Ok(ts) => Ok(
                        GeneralMessage::FollowUp(FollowUpMessage::new(sequence_id, log_message_interval, ts)),
                    ),
                    Err(e) => Err(e),
                }
            },
            MessageType::DelayResponse => {
                match read_payload_timestamp(payload, "DelayResponse.receive_timestamp") {
                    Ok(ts) => {
                        if payload.len() < 20 {
                            return Err(
                                Error::Parse(
                                    ParseError::PayloadTooShort {
                                        field: "DelayResponse.requesting_port_identity",
                                        expected: 10,
                                        found: payload.len() - 10,
                                    },
                                ),
                            );
                        }
                        let b: [u8; 10] = [
                            payload[10],
                            payload[11],
                            payload[12],
                            payload[13],
                            payload[14],
                            payload[15],
                            payload[16],
                            payload[17],
                            payload[18],
                            payload[19],
                        ];
                        assert(b@ =~= payload@.subrange(10, 20));
                        Ok(
                            GeneralMessage::DelayResp(
                                DelayResponseMessage::new(
                                    sequence_id,
                                    log_message_interval,
                                    ts,
                                    PortIdentity::from_wire(&b),
                                ),
                            ),
                        )
                    },
                    Err(e) => Err(e),
                }
            },
            _ => Err(Error::Protocol(ProtocolError::UnknownMessageType(msg_type.to_nibble()))),
        }
    }

    /// Serialize through `buf`.
    pub fn to_wire(self, buf: &MessageBuffer) -> (f: FinalizedBuffer)
        ensures
            f.spec_bytes() == general_wire(self, *buf),
    {
        match self {
            GeneralMessage::Announce(msg) => msg.to_wire(buf),
            GeneralMessage::DelayResp(msg) => msg.to_wire(buf),
            GeneralMessage::FollowUp(msg) => msg.to_wire(buf),
        }
    }
}

impl AnnounceMessage {
    /// Fold this Announce from `source_port_identity`, received at `now`, into `bmca`; an
    /// Announce without a specified interval is ignored.
    pub fn feed_bmca<B: Bmca>(self, bmca: &mut B, source_port_identity: PortIdentity, now: Instant)
        ensures
            self.log_message_interval.spec_raw() == 0x7F ==> *final(bmca) == *old(bmca),
            self.log_message_interval.spec_raw() != 0x7F ==> exists|li: LogInterval|
                li.spec_log() == self.log_message_interval.spec_raw() && #[trigger] old(bmca).spec_considered(
                    source_port_identity,
                    self.foreign_clock_ds,
                    li,
                    now,
                    *final(bmca),
                ),
    {
        match self.log_message_interval.log_interval() {
            Some(log_interval) => bmca.consider(source_port_identity, self.foreign_clock_ds, log_interval, now),
            None => {},
        }
    }

    /// An Announce.
    pub fn new(
        sequence_id: SequenceId,
        log_message_interval: LogMessageInterval,
        foreign_clock_ds: ClockDS,
        ptp_timescale: TimeScale,
    ) -> (m: AnnounceMessage)
        ensures
            m == (AnnounceMessage { sequence_id, log_message_interval, foreign_clock_ds, ptp_timescale }),
    {
        AnnounceMessage { sequence_id, log_message_interval, foreign_clock_ds, ptp_timescale }
    }

    /// Serialize through `buf`.
    pub fn to_wire(self, buf: &MessageBuffer) -> (f: FinalizedBuffer)
        ensures
            f.spec_bytes() == general_wire(GeneralMessage::Announce(self), *buf),
    {
        let flags = match self.ptp_timescale {
            TimeScale::Ptp => MessageFlags::ptp_timescale(),
            TimeScale::Arb => MessageFlags::empty(),
        };
        let mut payload = buf.typed(MessageType::Announce, ControlField::Other).flagged(flags).sequenced(
            self.sequence_id,
        ).with_log_message_interval(self.log_message_interval).payload();
        let ds = self.foreign_clock_ds.to_wire();
        payload.write(13, &ds);
        let f = payload.finalize(30);
        proof {
            crate::bmca::lemma_ds_wire_len(self.foreign_clock_ds);
            assert(fitted(written(Seq::<u8>::empty(), 13, ds@), 30) =~= announce_payload(
                self.foreign_clock_ds,
            ));
        }
        f
    }
}

impl OneStepSyncMessage {
    /// A one-step Sync.
    pub fn new(
        sequence_id: SequenceId,
        log_message_interval: LogMessageInterval,
        origin_timestamp: TimeStamp,
    ) -> (m: OneStepSyncMessage)
        ensures
            m == (OneStepSyncMessage { sequence_id, log_message_interval, origin_timestamp }),
    {
        OneStepSyncMessage { sequence_id, log_message_interval, origin_timestamp }
    }

    /// The master-to-slave offset: ingress time minus origin time.
    pub fn master_slave_offset(&self, ingress_timestamp: TimeStamp) -> (o: TimeInterval)
        ensures
            o@ == ingress_timestamp@ - self.origin_timestamp@,
            -max_timestamp_nanos() <= o@ <= max_timestamp_nanos(),
    {
        ingress_timestamp.minus(&self.origin_timestamp)
    }

    /// Serialize through `buf`.
    pub fn to_wire(self, buf: &MessageBuffer) -> (f: FinalizedBuffer)
        ensures
            f.spec_bytes() == event_wire(EventMessage::OneStepSync(self), *buf),
    {
        let mut payload = buf.typed(MessageType::Sync, ControlField::Sync).flagged(
            MessageFlags::empty(),
        ).sequenced(self.sequence_id).with_log_message_interval(self.log_message_interval).payload();
        let ts = self.origin_timestamp.to_wire();
        payload.write(0, &ts);
        let f = payload.finalize(10);
        proof {
            self.origin_timestamp.lemma_wire_layout();
            assert(fitted(written(Seq::<u8>::empty(), 0, ts@), 10) =~= self.origin_timestamp.spec_wire());
        }
        f
    }
}

impl TwoStepSyncMessage {
    /// A two-step Sync.
    pub fn new(sequence_id: SequenceId, log_message_interval: LogMessageInterval) -> (m:
        TwoStepSyncMessage)
        ensures
            m == (TwoStepSyncMessage { sequence_id, log_message_interval }),
    {
        TwoStepSyncMessage { sequence_id, log_message_interval }
    }

    /// The Follow_Up carrying this Sync's precise origin timestamp.
    pub fn follow_up(self, precise_origin_timestamp: TimeStamp) -> (f: FollowUpMessage)
        ensures
            f == (FollowUpMessage {
                sequence_id: self.sequence_id,
                log_message_interval: self.log_message_interval,
                precise_origin_timestamp,
            }),
    {
        FollowUpMessage::new(self.sequence_id, self.log_message_interval, precise_origin_timestamp)
    }

    /// Serialize through `buf`.
    pub fn to_wire(self, buf: &MessageBuffer) -> (f: FinalizedBuffer)
        ensures
            f.spec_bytes() == event_wire(EventMessage::TwoStepSync(self), *buf),
    {
        let payload = buf.typed(MessageType::Sync, ControlField::Sync).flagged(
            MessageFlags::two_step(),
        ).sequenced(self.sequence_id).with_log_message_interval(self.log_message_interval).payload();
        let f = payload.finalize(10);
        proof {
            assert(fitted(Seq::<u8>::empty(), 10) =~= zeros(10));
        }
        f
    }
}

impl FollowUpMessage {
    /// A Follow_Up.
    pub fn new(
        sequence_id: SequenceId,
        log_message_interval: LogMessageInterval,
        precise_origin_timestamp: TimeStamp,
    ) -> (m: FollowUpMessage)
        ensures
            m == (FollowUpMessage { sequence_id, log_message_interval, precise_origin_timestamp }),
    {
        FollowUpMessage { sequence_id, log_message_interval, precise_origin_timestamp }
    }

    /// The master-to-slave offset of `sync` (ingress time minus precise origin time), if this
    /// Follow_Up belongs to it.
    pub fn master_slave_offset(&self, sync: TwoStepSyncMessage, sync_ingress_timestamp: TimeStamp) -> (o:
        Option<TimeInterval>)
        ensures
            self.sequence_id == sync.sequence_id ==> (o matches Some(o) && o@
                == sync_ingress_timestamp@ - self.precise_origin_timestamp@),
            o matches Some(o) ==> -max_timestamp_nanos() <= o@ <= max_timestamp_nanos(),
            self.sequence_id != sync.sequence_id ==> o is None,
    {
        if self.sequence_id == sync.sequence_id {
            Some(sync_ingress_timestamp.minus(&self.precise_origin_timestamp))
        } else {
            None
        }
    }

    /// Serialize through `buf`.
    pub fn to_wire(self, buf: &MessageBuffer) -> (f: FinalizedBuffer)
        ensures
            f.spec_bytes() == general_wire(GeneralMessage::FollowUp(self), *buf),
    {
        let mut payload = buf.typed(MessageType::FollowUp, ControlField::FollowUp).flagged(
            MessageFlags::empty(),
        ).sequenced(self.sequence_id).with_log_message_interval(self.log_message_interval).payload();
        let ts = self.precise_origin_timestamp.to_wire();
        payload.write(0, &ts);
        let f = payload.finalize(10);
        proof {
            self.precise_origin_timestamp.lemma_wire_layout();
            assert(fitted(written(Seq::<u8>::empty(), 0, ts@), 10)
                =~= self.precise_origin_timestamp.spec_wire());
        }
        f
    }
}

impl DelayRequestMessage {
    /// A Delay_Req.
    pub fn new(sequence_id: SequenceId) -> (m: DelayRequestMessage)
        ensures
            m == (DelayRequestMessage { sequence_id }),
    {
        DelayRequestMessage { sequence_id }
    }

    /// The Delay_Resp answering this request.
    pub fn response(
        self,
        log_message_interval: LogMessageInterval,
        receive_timestamp: TimeStamp,
        requesting_port_identity: PortIdentity,
    ) -> (r: DelayResponseMessage)
        ensures
            r == (DelayResponseMessage {
                sequence_id: self.sequence_id,
                log_message_interval,
                receive_timestamp,
                requesting_port_identity,
            }),
    {
        DelayResponseMessage::new(
            self.sequence_id,
            log_message_interval,
            receive_timestamp,
            requesting_port_identity,
        )
    }

    /// Serialize through `buf` (with an unspecified log message interval).
    pub fn to_wire(self, buf: &MessageBuffer) -> (f: FinalizedBuffer)
        ensures
            f.spec_bytes() == event_wire(EventMessage::DelayReq(self), *buf),
    {
        let payload = buf.typed(MessageType::DelayRequest, ControlField::DelayRequest).flagged(
            MessageFlags::empty(),
        ).sequenced(self.sequence_id).with_log_message_interval(LogMessageInterval::unspecified()).payload();
        let f = payload.finalize(10);
        proof {
            assert(fitted(Seq::<u8>::empty(), 10) =~= zeros(10));
        }
        f
    }
}

impl DelayResponseMessage {
    /// A Delay_Resp.
    pub fn new(
        sequence_id: SequenceId,
        log_message_interval: LogMessageInterval,
        receive_timestamp: TimeStamp,
        requesting_port_identity: PortIdentity,
    ) -> (m: DelayResponseMessage)
        ensures
            m == (DelayResponseMessage {
                sequence_id,
                log_message_interval,
                receive_timestamp,
                requesting_port_identity,
            }),
    {
        DelayResponseMessage { sequence_id, log_message_interval, receive_timestamp, requesting_port_identity }
    }

    /// The slave-to-master offset of `delay_req` (master receive time minus egress time), if this
    /// response answers it.
    pub fn slave_master_offset(
        &self,
        delay_req: DelayRequestMessage,
        delay_req_egress_timestamp: TimeStamp,
    ) -> (o: Option<TimeInterval>)
        ensures
            self.sequence_id == delay_req.sequence_id ==> (o matches Some(o) && o@
                == self.receive_timestamp@ - delay_req_egress_timestamp@),
            o matches Some(o) ==> -max_timestamp_nanos() <= o@ <= max_timestamp_nanos(),
            self.sequence_id != delay_req.sequence_id ==> o is None,
    {
        if self.sequence_id == delay_req.sequence_id {
            Some(self.receive_timestamp.minus(&delay_req_egress_timestamp))
        } else {
            None
        }
    }

    /// Serialize through `buf`.
    pub fn to_wire(self, buf: &MessageBuffer) -> (f: FinalizedBuffer)
        ensures
            f.spec_bytes() == general_wire(GeneralMessage::DelayResp(self), *buf),
    {
        let mut payload = buf.typed(MessageType::DelayResponse, ControlField::DelayResponse).flagged(
            MessageFlags::empty(),
        ).sequenced(self.sequence_id).with_log_message_interval(self.log_message_interval).payload();
        let ts = self.receive_timestamp.to_wire();
        let id = self.requesting_port_identity.to_wire();
        payload.write(0, &ts);
        payload.write(10, &id);
        let f = payload.finalize(20);
        proof {
            self.receive_timestamp.lemma_wire_layout();
            crate::port::lemma_port_identity_wire(
                self.requesting_port_identity,
                self.requesting_port_identity,
            );
            assert(fitted(written(written(Seq::<u8>::empty(), 0, ts@), 10, id@), 20)
                =~= self.receive_timestamp.spec_wire() + port_identity_wire(
                self.requesting_port_identity,
            ));
        }
        f
    }
}

/// The timestamps of an event message are well formed.
pub open spec fn event_wf(msg: EventMessage) -> bool {
    match msg {
        EventMessage::OneStepSync(m) => m.origin_timestamp.wf(),
        _ => true,
    }
}

/// The timestamps of a general message are well formed and its data set canonical.
pub open spec fn general_wf(msg: GeneralMessage) -> bool {
    match msg {
        GeneralMessage::Announce(m) => ds_canonical(m.foreign_clock_ds),
        GeneralMessage::DelayResp(m) => m.receive_timestamp.wf(),
        GeneralMessage::FollowUp(m) => m.precise_origin_timestamp.wf(),
    }
}

/// Facts about a frame: it passes the header checks and its header fields decode to what was
/// sent.
proof fn lemma_frame(
    buf: MessageBuffer,
    t: MessageType,
    c: ControlField,
    flags: u16,
    sequence_id: SequenceId,
    lmi: LogMessageInterval,
    payload: Seq<u8>,
)
    requires
        buf.version.spec_nibble() == 2,
        payload.len() <= 30,
    ensures
        ({
            let b = frame(buf, t, c, flags, sequence_id, lmi, payload);
            &&& header_error(b) is None
            &&& b[4] == buf.domain_number.0
            &&& port_identity_of_wire(b.subrange(20, 30)) == buf.source_port_identity
            &&& message_type_of(b[0] & 0x0F) == Some(t)
            &&& wire_sequence_id(b) == sequence_id
            &&& wire_flags(b) == MessageFlags(flags)
            &&& LogMessageInterval::spec_new(b[33] as i8) == lmi
            &&& wire_payload(b) == payload
        }),
{
    let nib = message_type_nibble(t);
    let len = (34 + payload.len()) as u16;
    lemma_header_layout(
        nib,
        2u8 & 0x0F,
        len,
        buf.domain_number.0,
        flags,
        buf.source_port_identity,
        sequence_id.id,
        control_field_value(c),
        lmi.spec_raw() as u8,
    );
    let h = header_wire(
        nib,
        2u8 & 0x0F,
        len,
        buf.domain_number.0,
        flags,
        buf.source_port_identity,
        sequence_id.id,
        control_field_value(c),
        lmi.spec_raw() as u8,
    );
    let b = h + payload;
    assert(b.subrange(0, 34) =~= h);
    assert(b.subrange(2, 4) =~= h.subrange(2, 4));
    assert(b.subrange(6, 8) =~= h.subrange(6, 8));
    assert(b.subrange(20, 30) =~= h.subrange(20, 30));
    assert(b.subrange(30, 32) =~= h.subrange(30, 32));
    assert(wire_payload(b) =~= payload);
    assert(2u8 & 0x0F == 2) by (bit_vector);
    assert(0x00u8 & 0x0F == 0x00 && 0x01u8 & 0x0F == 0x01 && 0x08u8 & 0x0F == 0x08 && 0x09u8 & 0x0F
        == 0x09 && 0x0Bu8 & 0x0F == 0x0B) by (bit_vector);
    lemma_port_identity_roundtrip(buf.source_port_identity);
    lmi.lemma_raw(lmi);
    LogMessageInterval::lemma_spec_new(lmi.spec_raw(), lmi);
}

/// Encoding an event message and decoding the bytes gives it back, with the sender's domain and
/// port identity.
pub proof fn lemma_event_roundtrip(msg: EventMessage, buf: MessageBuffer)
    requires
        buf.version.spec_nibble() == 2,
        event_wf(msg),
    ensures
        header_error(event_wire(msg, buf)) is None,
        event_wire(msg, buf)[4] == buf.domain_number.0,
        port_identity_of_wire(event_wire(msg, buf).subrange(20, 30)) == buf.source_port_identity,
        decode_event(event_wire(msg, buf)) == Ok::<EventMessage, Error>(msg),
{
    assert(0u16 & 0x0002 != 0x0002 && 0x0002u16 & 0x0002 == 0x0002) by (bit_vector);
    match msg {
        EventMessage::DelayReq(m) => {
            lemma_frame(
                buf,
                MessageType::DelayRequest,
                ControlField::DelayRequest,
                0,
                m.sequence_id,
                LogMessageInterval::spec_new(0x7F),
                zeros(10),
            );
        },
        EventMessage::OneStepSync(m) => {
            m.origin_timestamp.lemma_wire_roundtrip();
            let w = m.origin_timestamp.spec_wire();
            assert(w.subrange(0, 10) =~= w);
            lemma_frame(
                buf,
                MessageType::Sync,
                ControlField::Sync,
                0,
                m.sequence_id,
                m.log_message_interval,
                w,
            );
        },
        EventMessage::TwoStepSync(m) => {
            lemma_frame(
                buf,
                MessageType::Sync,
                ControlField::Sync,
                0x0002,
                m.sequence_id,
                m.log_message_interval,
                zeros(10),
            );
        },
    }
}

/// Encoding a general message and decoding the bytes gives it back, with the sender's domain and
/// port identity.
pub proof fn lemma_general_roundtrip(msg: GeneralMessage, buf: MessageBuffer)
    requires
        buf.version.spec_nibble() == 2,
        general_wf(msg),
    ensures
        header_error(general_wire(msg, buf)) is None,
        general_wire(msg, buf)[4] == buf.domain_number.0,
        port_identity_of_wire(general_wire(msg, buf).subrange(20, 30)) == buf.source_port_identity,
        decode_general(general_wire(msg, buf)) == Ok::<GeneralMessage, Error>(msg),
{
    assert(0u16 & 0x0008 != 0x0008 && 0x0008u16 & 0x0008 == 0x0008) by (bit_vector);
    match msg {
        GeneralMessage::Announce(m) => {
            crate::bmca::lemma_ds_wire_len(m.foreign_clock_ds);
            lemma_ds_value_roundtrip(m.foreign_clock_ds);
            let p = announce_payload(m.foreign_clock_ds);
            assert(p.subrange(13, 29) =~= ds_wire(m.foreign_clock_ds));
            lemma_frame(
                buf,
                MessageType::Announce,
                ControlField::Other,
                timescale_flags(m.ptp_timescale),
                m.sequence_id,
                m.log_message_interval,
                p,
            );
        },
        GeneralMessage::DelayResp(m) => {
            m.receive_timestamp.lemma_wire_roundtrip();
            lemma_port_identity_roundtrip(m.requesting_port_identity);
            let w = m.receive_timestamp.spec_wire();
            let p = w + port_identity_wire(m.requesting_port_identity);
            assert(p.subrange(0, 10) =~= w);
            assert(p.subrange(10, 20) =~= port_identity_wire(m.requesting_port_identity));
            lemma_frame(
                buf,
                MessageType::DelayResponse,
                ControlField::DelayResponse,
                0,
                m.sequence_id,
                m.log_message_interval,
                p,
            );
        },
        GeneralMessage::FollowUp(m) => {
            m.precise_origin_timestamp.lemma_wire_roundtrip();
            let w = m.precise_origin_timestamp.spec_wire();
            assert(w.subrange(0, 10) =~= w);
            lemma_frame(
                buf,
                MessageType::FollowUp,
                ControlField::FollowUp,
                0,
                m.sequence_id,
                m.log_message_interval,
                w,
            );
        },
    }
}

/// Receiver of the messages of one port.
pub trait PortIngress: Sized {
    /// `after` is this port once it processed the event message `msg` from `source_port_identity`,
    /// received at `timestamp`. An implementation may state what that means; by default any port
    /// is possible.
    open spec fn event_processed(
        &self,
        source_port_identity: PortIdentity,
        msg: EventMessage,
        timestamp: TimeStamp,
        after: Self,
    ) -> bool {
        true
    }

    /// `after` is this port once it processed the general message `msg` from
    /// `source_port_identity`, received at `now`. By default any port is possible.
    open spec fn general_processed(
        &self,
        source_port_identity: PortIdentity,
        msg: GeneralMessage,
        now: Instant,
        after: Self,
    ) -> bool {
        true
    }

    /// `after` is this port once it processed the local event `msg`. By default any port is
    /// possible.
    open spec fn system_processed(&self, msg: SystemMessage, after: Self) -> bool {
        true
    }

    /// An event message from `source_port_identity`, received at `timestamp`.
    fn process_event_message(
        &mut self,
        source_port_identity: PortIdentity,
        msg: EventMessage,
        timestamp: TimeStamp,
    )
        ensures
            old(self).event_processed(source_port_identity, msg, timestamp, *final(self)),
    ;

    /// A general message from `source_port_identity`, received at `now`.
    fn process_general_message(
        &mut self,
        source_port_identity: PortIdentity,
        msg: GeneralMessage,
        now: Instant,
    )
        ensures
            old(self).general_processed(source_port_identity, msg, now, *final(self)),
    ;

    /// A local event.
    fn process_system_message(&mut self, msg: SystemMessage)
        ensures
            old(self).system_processed(msg, *final(self)),
    ;
}

/// The ports of a node, by PTP domain.
pub trait PortMap: Sized {
    /// The type of the ports.
    type Port: PortIngress;

    /// The domains that have a port; implementations that refuse some domain say which.
    open spec fn spec_has_domain(&self, domain_number: DomainNumber) -> bool {
        true
    }

    /// `p` is the port of `domain_number` in this map. An implementation says which; by default
    /// any port is possible.
    open spec fn port_of(&self, domain_number: DomainNumber, p: Self::Port) -> bool {
        true
    }

    /// `after` is this map with the port of `domain_number` replaced by `p`. By default any map is
    /// possible.
    open spec fn with_port(&self, domain_number: DomainNumber, p: Self::Port, after: Self) -> bool {
        true
    }

    /// `e` is an error this map reports for `domain_number` when it has no port for it. An
    /// implementation says which; by default any error is possible.
    open spec fn refuses_with(&self, domain_number: DomainNumber, e: Error) -> bool {
        true
    }

    /// The port of `domain_number`, or an error if there is none. The map is left as it is on an
    /// error, and when the port handed out is left as it is.
    fn port_by_domain(&mut self, domain_number: DomainNumber) -> (r: Result<&mut Self::Port>)
        ensures
            r is Ok <==> old(self).spec_has_domain(domain_number),
            r is Err ==> *final(self) == *old(self),
            r matches Err(e) ==> old(self).refuses_with(domain_number, e),
            r is Ok ==> old(self).port_of(domain_number, *r->Ok_0) && old(self).with_port(
                domain_number,
                *final(r->Ok_0),
                *final(self),
            ),
            r is Ok && *final(r->Ok_0) == *r->Ok_0 ==> *final(self) == *old(self),
    ;
}

/// Entry point for received buffers: validates them, decodes the message and hands it to the port
/// of its domain.
pub struct MessageIngress<'a, PM: PortMap> {
    pub ports: &'a mut PM,
}

impl<'a, PM: PortMap> MessageIngress<'a, PM> {
    /// Dispatch into `ports`.
    pub fn new(ports: &'a mut PM) -> (m: MessageIngress<'a, PM>)
        ensures
            *m.ports == *old(ports),
    {
        MessageIngress { ports }
    }

    /// Receive a buffer from the event port, timestamped on ingress at `timestamp`. Fails with
    /// the header error, if any; else when no port serves the message's domain; else with the
    /// decoding error, if any.
    pub fn receive_event(&mut self, buf: &[u8], timestamp: TimeStamp) -> (r: Result<()>)
        ensures
            header_error(buf@) matches Some(e) ==> r == Err::<(), Error>(e),
            header_error(buf@) is None && !old(self).ports.spec_has_domain(DomainNumber(buf@[4]))
                ==> (r matches Err(e) && old(self).ports.refuses_with(DomainNumber(buf@[4]), e)),
            header_error(buf@) is None && old(self).ports.spec_has_domain(DomainNumber(buf@[4]))
                ==> (r is Ok <==> decode_event(buf@) is Ok) && (decode_event(buf@) matches Err(e)
                ==> r == Err::<(), Error>(e)),
            r is Err ==> *final(self).ports == *old(self).ports,
            r is Ok ==> exists|p: PM::Port, q: PM::Port|
                old(self).ports.port_of(DomainNumber(buf@[4]), p) && #[trigger] p.event_processed(
                    port_identity_of_wire(buf@.subrange(20, 30)),
                    decode_event(buf@)->Ok_0,
                    timestamp,
                    q,
                ) && old(self).ports.with_port(DomainNumber(buf@[4]), q, *final(self).ports),
    {
        let length_checked = match UnvalidatedMessage::new(buf).length_checked_v2() {
            Ok(m) => m,
            Err(e) => return Err(e),
        };
        let domain_number = length_checked.domain_number();
        let port = match self.ports.port_by_domain(domain_number) {
            Ok(p) => p,
            Err(e) => return Err(e),
        };
        let source_port_identity = length_checked.source_port_identity();
        let msg_type = match length_checked.message_type() {
            Ok(t) => t,
            Err(e) => return Err(e),
        };
        let msg = match EventMessage::new(
            msg_type,
            SequenceId::new(length_checked.sequence_id()),
            length_checked.flags(),
            length_checked.log_message_interval(),
            length_checked.payload(),
        ) {
            Ok(m) => m,
            Err(e) => return Err(e),
        };
        let ghost before = *port;
        port.process_event_message(source_port_identity, msg, timestamp);
        proof {
            assert(msg == decode_event(buf@)->Ok_0);
            assert(before.event_processed(source_port_identity, msg, timestamp, *port));
        }
        Ok(())
    }

    /// Receive a buffer from the general port at `now`. Fails with the header error, if any;
    /// else when no port serves the message's domain; else with the decoding error, if any.
    pub fn receive_general(&mut self, buf: &[u8], now: Instant) -> (r: Result<()>)
        ensures
            header_error(buf@) matches Some(e) ==> r == Err::<(), Error>(e),
            header_error(buf@) is None && !old(self).ports.spec_has_domain(DomainNumber(buf@[4]))
                ==> (r matches Err(e) && old(self).ports.refuses_with(DomainNumber(buf@[4]), e)),
            header_error(buf@) is None && old(self).ports.spec_has_domain(DomainNumber(buf@[4]))
                ==> (r is Ok <==> decode_general(buf@) is Ok) && (decode_general(buf@) matches Err(e)
                ==> r == Err::<(), Error>(e)),
            r is Err ==> *final(self).ports == *old(self).ports,
            r is Ok ==> exists|p: PM::Port, q: PM::Port|
                old(self).ports.port_of(DomainNumber(buf@[4]), p) && #[trigger] p.general_processed(
                    port_identity_of_wire(buf@.subrange(20, 30)),
                    decode_general(buf@)->Ok_0,
                    now,
                    q,
                ) && old(self).ports.with_port(DomainNumber(buf@[4]), q, *final(self).ports),
    {
        let length_checked = match UnvalidatedMessage::new(buf).length_checked_v2() {
            Ok(m) => m,
            Err(e) => return Err(e),
        };
        let domain_number = length_checked.domain_number();
        let port = match self.ports.port_by_domain(domain_number) {
            Ok(p) => p,
            Err(e) => return Err(e),
        };
        let source_port_identity = length_checked.source_port_identity();
        let msg_type = match length_checked.message_type() {
            Ok(t) => t,
            Err(e) => return Err(e),
        };
        let msg = match GeneralMessage::new(
            msg_type,
            SequenceId::new(length_checked.sequence_id()),
            length_checked.flags(),
            length_checked.log_message_interval(),
            length_checked.payload(),
        ) {
            Ok(m) => m,
            Err(e) => return Err(e),
        };
        let ghost before = *port;
        port.process_general_message(source_port_identity, msg, now);
        proof {
            assert(msg == decode_general(buf@)->Ok_0);
            assert(before.general_processed(source_port_identity, msg, now, *port));
        }
        Ok(())
    }
}

} // verus!
