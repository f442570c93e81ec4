use rptp::bmca::{ClockDS, Priority1, Priority2};
use rptp::clock::{ClockAccuracy, ClockClass, ClockIdentity, ClockQuality, StepsRemoved, TimeScale};
use rptp::message::{
    AnnounceMessage, DelayRequestMessage, DelayResponseMessage, EventMessage, FollowUpMessage,
    GeneralMessage, MessageIngress, OneStepSyncMessage, PortIngress, PortMap, SequenceId,
    SystemMessage, TwoStepSyncMessage,
};
use rptp::port::{DomainNumber, PortIdentity, PortNumber};
use rptp::result::{Error, ParseError, ProtocolError, Result};
use rptp::time::{Instant, LogMessageInterval, TimeInterval, TimeStamp};
use rptp::wire::{
    MessageBuffer, MessageFlags, MessageType, PtpVersion, TransportSpecific, UnvalidatedMessage,
    PTP_HEADER_LEN,
};

fn test_buffer() -> MessageBuffer {
    MessageBuffer::new(
        TransportSpecific::new(),
        PtpVersion::v2(),
        DomainNumber::new(0),
        PortIdentity::new(ClockIdentity::new(&[0; 8]), PortNumber::new(1)),
    )
}

fn declared_len(bytes: &[u8]) -> usize {
    u16::from_be_bytes([bytes[2], bytes[3]]) as usize
}

#[test]
fn buffer_integrity_two_step_sync() {
    let msg = TwoStepSyncMessage::new(7.into(), LogMessageInterval::new(0));
    let mut buf = test_buffer();
    let wire = msg.to_wire(&mut buf);
    let bytes = wire.as_ref();
    assert_eq!(declared_len(bytes), bytes.len());
    assert_eq!(bytes[0] & 0x0F, 0x00);
    assert_eq!(bytes[32], 0x00);
}

#[test]
fn buffer_integrity_follow_up() {
    let msg = FollowUpMessage::new(9.into(), LogMessageInterval::new(0), TimeStamp::new(1, 2));
    let mut buf = test_buffer();
    let wire = msg.to_wire(&mut buf);
    let bytes = wire.as_ref();
    assert_eq!(declared_len(bytes), bytes.len());
    assert_eq!(bytes[0] & 0x0F, 0x08);
    assert_eq!(bytes[32], 0x02);
}

#[test]
fn buffer_integrity_delay_resp() {
    let msg = DelayResponseMessage::new(
        11.into(),
        LogMessageInterval::new(0),
        TimeStamp::new(1, 2),
        PortIdentity::fake(),
    );
    let mut buf = test_buffer();
    let wire = msg.to_wire(&mut buf);
    let bytes = wire.as_ref();
    assert_eq!(declared_len(bytes), bytes.len());
    assert_eq!(bytes[0] & 0x0F, 0x09);
    assert_eq!(bytes[32], 0x03);
}

#[test]
fn buffer_integrity_delay_req() {
    let msg = DelayRequestMessage::new(13.into());
    let mut buf = test_buffer();
    let wire = msg.to_wire(&mut buf);
    let bytes = wire.as_ref();
    assert_eq!(declared_len(bytes), bytes.len());
    assert_eq!(bytes[0] & 0x0F, 0x01);
    assert_eq!(bytes[32], 0x01);
}

#[test]
fn buffer_integrity_announce() {
    let msg = AnnounceMessage::new(
        21.into(),
        LogMessageInterval::new(0x7F),
        ClockDS::new(
            ClockIdentity::new(&[0; 8]),
            Priority1::new(127),
            Priority2::new(127),
            ClockQuality::new(ClockClass::new(248), ClockAccuracy::new(0xFE), 0xFFFF),
            StepsRemoved::new(0),
        ),
        TimeScale::Arb,
    );
    let mut buf = test_buffer();
    let wire = msg.to_wire(&mut buf);
    let bytes = wire.as_ref();
    assert_eq!(declared_len(bytes), bytes.len());
    assert_eq!(bytes[0] & 0x0F, 0x0B);
    assert_eq!(bytes[32], 0x05);
}

#[test]
fn unvalidated_message_header_too_short() {
    let buf = [0u8; PTP_HEADER_LEN - 1];
    let res = UnvalidatedMessage::new(&buf).length_checked_v2();

    match res {
        Err(e) => assert_eq!(e, Error::Parse(ParseError::HeaderTooShort { found: PTP_HEADER_LEN - 1 })),
        Ok(_) => panic!("expected HeaderTooShort error"),
    }
}

#[test]
fn unvalidated_message_unsupported_version() {
    let mut buf = [0u8; PTP_HEADER_LEN];
    buf[1] = 1;
    buf[2..4].copy_from_slice(&(PTP_HEADER_LEN as u16).to_be_bytes());

    let res = UnvalidatedMessage::new(&buf).length_checked_v2();

    match res {
        Err(e) => assert_eq!(e, Error::Protocol(ProtocolError::UnsupportedPtpVersion(1))),
        Ok(_) => panic!("expected UnsupportedPtpVersion error"),
    }
}

#[test]
fn unvalidated_message_length_mismatch() {
    let mut buf = [0u8; PTP_HEADER_LEN + 1];
    buf[1] = PtpVersion::v2().as_u8();
    buf[2..4].copy_from_slice(&(PTP_HEADER_LEN as u16).to_be_bytes());

    let res = UnvalidatedMessage::new(&buf).length_checked_v2();

    match res {
        Err(e) => assert_eq!(
            e,
            Error::Parse(ParseError::LengthMismatch { declared: PTP_HEADER_LEN, actual: PTP_HEADER_LEN + 1 })
        ),
        Ok(_) => panic!("expected LengthMismatch error"),
    }
}

#[test]
fn message_type_from_nibble_unknown() {
    let res = MessageType::from_nibble(0x07);

    match res {
        Err(e) => assert_eq!(e, Error::Protocol(ProtocolError::UnknownMessageType(0x07))),
        Ok(_) => panic!("expected UnknownMessageType error"),
    }
}

struct CapturingPort {
    last_event: Option<(PortIdentity, EventMessage, TimeStamp)>,
    last_general: Option<(PortIdentity, GeneralMessage, Instant)>,
    last_system: Option<SystemMessage>,
}

impl PortIngress for CapturingPort {
    fn process_event_message(&mut self, source_port_identity: PortIdentity, msg: EventMessage, timestamp: TimeStamp) {
        self.last_event = Some((source_port_identity, msg, timestamp));
    }

    fn process_general_message(&mut self, source_port_identity: PortIdentity, msg: GeneralMessage, now: Instant) {
        self.last_general = Some((source_port_identity, msg, now));
    }

    fn process_system_message(&mut self, msg: SystemMessage) {
        self.last_system = Some(msg);
    }
}

struct CapturingPortMap {
    domain: DomainNumber,
    port: CapturingPort,
}

impl CapturingPortMap {
    fn new(domain: DomainNumber) -> Self {
        Self { domain, port: CapturingPort { last_event: None, last_general: None, last_system: None } }
    }
}

impl PortMap for CapturingPortMap {
    type Port = CapturingPort;

    fn port_by_domain(&mut self, domain_number: DomainNumber) -> Result<&mut CapturingPort> {
        if self.domain == domain_number {
            Ok(&mut self.port)
        } else {
            Err(ProtocolError::DomainNotFound(domain_number.as_u8()).into())
        }
    }
}

#[test]
fn announce_message_wire_roundtrip() {
    let announce = AnnounceMessage::new(
        42.into(),
        LogMessageInterval::new(0x7F),
        ClockDS::new(
            ClockIdentity::new(&[0; 8]),
            Priority1::new(127),
            Priority2::new(127),
            ClockQuality::new(ClockClass::Default, ClockAccuracy::Within250ns, 0xFFFF),
            StepsRemoved::new(42),
        ),
        TimeScale::Ptp,
    );

    let mut buf = test_buffer();
    let wire = announce.to_wire(&mut buf);
    let mut ports = CapturingPortMap::new(DomainNumber::new(0));
    let now = Instant::from_nanos(42);
    MessageIngress::new(&mut ports).receive_general(wire.as_ref(), now).unwrap();

    let (source_port_identity, parsed, captured_now) = ports.port.last_general.unwrap();
    assert_eq!(source_port_identity, PortIdentity::new(ClockIdentity::new(&[0; 8]), PortNumber::new(1)));
    assert_eq!(captured_now, now);
    assert_eq!(parsed, GeneralMessage::Announce(announce));
}

#[test]
fn one_step_sync_message_wire_roundtrip() {
    let sync = OneStepSyncMessage::new(42.into(), LogMessageInterval::new(5), TimeStamp::new(1, 2));
    let mut buf = test_buffer();
    let wire = sync.to_wire(&mut buf);
    let mut ports = CapturingPortMap::new(DomainNumber::new(0));
    let timestamp = TimeStamp::new(5, 6);
    MessageIngress::new(&mut ports).receive_event(wire.as_ref(), timestamp).unwrap();

    let (source_port_identity, parsed, captured_timestamp) = ports.port.last_event.unwrap();
    assert_eq!(source_port_identity, PortIdentity::new(ClockIdentity::new(&[0; 8]), PortNumber::new(1)));
    assert_eq!(captured_timestamp, timestamp);
    assert_eq!(parsed, EventMessage::OneStepSync(sync));
}

#[test]
fn two_step_sync_message_wire_roundtrip() {
    let sync = TwoStepSyncMessage::new(42.into(), LogMessageInterval::new(7));
    let mut buf = test_buffer();
    let wire = sync.to_wire(&mut buf);
    let mut ports = CapturingPortMap::new(DomainNumber::new(0));
    let timestamp = TimeStamp::new(5, 6);
    MessageIngress::new(&mut ports).receive_event(wire.as_ref(), timestamp).unwrap();

    let (source_port_identity, parsed, captured_timestamp) = ports.port.last_event.unwrap();
    assert_eq!(source_port_identity, PortIdentity::new(ClockIdentity::new(&[0; 8]), PortNumber::new(1)));
    assert_eq!(captured_timestamp, timestamp);
    assert_eq!(parsed, EventMessage::TwoStepSync(sync));
}

#[test]
fn follow_up_message_wire_roundtrip() {
    let follow_up = FollowUpMessage::new(42.into(), LogMessageInterval::new(3), TimeStamp::new(1, 2));
    let mut buf = test_buffer();
    let wire = follow_up.to_wire(&mut buf);
    let mut ports = CapturingPortMap::new(DomainNumber::new(0));
    let now = Instant::from_nanos(42);
    MessageIngress::new(&mut ports).receive_general(wire.as_ref(), now).unwrap();

    let (source_port_identity, parsed, captured_now) = ports.port.last_general.unwrap();
    assert_eq!(source_port_identity, PortIdentity::new(ClockIdentity::new(&[0; 8]), PortNumber::new(1)));
    assert_eq!(captured_now, now);
    assert_eq!(parsed, GeneralMessage::FollowUp(follow_up));
}

#[test]
fn delay_request_message_wire_roundtrip() {
    let delay_req = DelayRequestMessage::new(42.into());
    let mut buf = test_buffer();
    let wire = delay_req.to_wire(&mut buf);
    let mut ports = CapturingPortMap::new(DomainNumber::new(0));
    let timestamp = TimeStamp::new(5, 6);
    MessageIngress::new(&mut ports).receive_event(wire.as_ref(), timestamp).unwrap();

    let (source_port_identity, parsed, captured_timestamp) = ports.port.last_event.unwrap();
    assert_eq!(source_port_identity, PortIdentity::new(ClockIdentity::new(&[0; 8]), PortNumber::new(1)));
    assert_eq!(captured_timestamp, timestamp);
    assert_eq!(parsed, EventMessage::DelayReq(delay_req));
}

#[test]
fn delay_response_message_wire_roundtrip() {
    let requesting_port_identity =
        PortIdentity::new(ClockIdentity::new(&[1, 2, 3, 4, 5, 6, 7, 8]), PortNumber::new(9));
    let delay_resp = DelayResponseMessage::new(
        42.into(),
        LogMessageInterval::new(-2),
        TimeStamp::new(1, 2),
        requesting_port_identity,
    );
    let mut buf = MessageBuffer::new(
        TransportSpecific::new(),
        PtpVersion::v2(),
        DomainNumber::new(0),
        PortIdentity::fake(),
    );
    let wire = delay_resp.to_wire(&mut buf);
    let mut ports = CapturingPortMap::new(DomainNumber::new(0));
    let now = Instant::from_nanos(42);
    MessageIngress::new(&mut ports).receive_general(wire.as_ref(), now).unwrap();

    let (source_port_identity, parsed, captured_now) = ports.port.last_general.unwrap();
    assert_eq!(source_port_identity, PortIdentity::fake());
    assert_eq!(captured_now, now);
    assert_eq!(parsed, GeneralMessage::DelayResp(delay_resp));
}

#[test]
fn event_message_new_reports_short_sync_payload() {
    let payload = [0u8; 5];
    let res = EventMessage::new(MessageType::Sync, 1.into(), MessageFlags::empty(), LogMessageInterval::new(3), &payload);
    assert_eq!(
        res,
        Err(ParseError::PayloadTooShort { field: "Sync.origin_timestamp", expected: 10, found: 5 }.into())
    );
}

#[test]
fn general_message_new_reports_short_announce_payload() {
    let payload = [0u8; 20];
    let res = GeneralMessage::new(
        MessageType::Announce,
        1.into(),
        MessageFlags::empty(),
        LogMessageInterval::new(0),
        &payload,
    );
    assert_eq!(
        res,
        Err(ParseError::PayloadTooShort {
            field: "Announce.foreign_clock_ds",
            expected: 16,
            found: payload.len().saturating_sub(13),
        }
        .into())
    );
}

#[test]
fn general_message_new_reports_short_delay_response_timestamp() {
    let payload = [0u8; 5];
    let res = GeneralMessage::new(
        MessageType::DelayResponse,
        1.into(),
        MessageFlags::empty(),
        LogMessageInterval::new(0),
        &payload,
    );
    assert_eq!(
        res,
        Err(ParseError::PayloadTooShort { field: "DelayResponse.receive_timestamp", expected: 10, found: 5 }.into())
    );
}

#[test]
fn general_message_new_reports_short_delay_response_requesting_port_identity() {
    let payload = [0u8; 15];
    let res = GeneralMessage::new(
        MessageType::DelayResponse,
        1.into(),
        MessageFlags::empty(),
        LogMessageInterval::new(0),
        &payload,
    );
    assert_eq!(
        res,
        Err(ParseError::PayloadTooShort {
            field: "DelayResponse.requesting_port_identity",
            expected: 10,
            found: 5,
        }
        .into())
    );
}

#[test]
fn sequence_id_try_from_reports_short_payload() {
    let buf = [0u8; 1];
    let res = SequenceId::try_from(&buf[..]);
    assert_eq!(res, Err(ParseError::PayloadTooShort { field: "SequenceId", expected: 2, found: 1 }.into()));
}

struct FailingPortMap;

impl PortMap for FailingPortMap {
    type Port = CapturingPort;

    fn port_by_domain(&mut self, domain_number: DomainNumber) -> Result<&mut CapturingPort> {
        Err(ProtocolError::DomainNotFound(domain_number.as_u8()).into())
    }
}

#[test]
fn domain_message_dispatch_event_propagates_domain_not_found() {
    let mut buf = [0u8; 34 + 10];
    buf[1] = PtpVersion::v2().as_u8();
    let total_len = buf.len() as u16;
    buf[2..4].copy_from_slice(&total_len.to_be_bytes());
    buf[0] |= MessageType::Sync.to_nibble();
    buf[4] = 42;

    let mut ports = FailingPortMap;
    let res = MessageIngress::new(&mut ports).receive_event(&buf, TimeStamp::new(0, 0));

    assert_eq!(res, Err(ProtocolError::DomainNotFound(42).into()));
}

#[test]
fn twostep_sync_message_produces_follow_up() {
    let sync = TwoStepSyncMessage::new(42.into(), LogMessageInterval::new(9));
    let follow_up = sync.follow_up(TimeStamp::new(4, 0));
    assert_eq!(follow_up, FollowUpMessage::new(42.into(), LogMessageInterval::new(9), TimeStamp::new(4, 0)));
}

#[test]
fn follow_up_message_produces_master_slave_offset() {
    let sync = TwoStepSyncMessage::new(42.into(), LogMessageInterval::new(11));
    let follow_up = FollowUpMessage::new(42.into(), LogMessageInterval::new(11), TimeStamp::new(4, 0));
    let offset = follow_up.master_slave_offset(sync, TimeStamp::new(5, 0));
    assert_eq!(offset, Some(TimeInterval::new(1, 0)));
}

#[test]
fn follow_up_message_with_different_sequence_id_produces_no_master_slave_offset() {
    let sync = TwoStepSyncMessage::new(42.into(), LogMessageInterval::new(11));
    let follow_up = FollowUpMessage::new(43.into(), LogMessageInterval::new(11), TimeStamp::new(4, 0));
    let offset = follow_up.master_slave_offset(sync, TimeStamp::new(5, 0));
    assert_eq!(offset, None);
}

#[test]
fn delay_response_produces_slave_master_offset() {
    let delay_req = DelayRequestMessage::new(42.into());
    let delay_resp =
        DelayResponseMessage::new(42.into(), LogMessageInterval::new(5), TimeStamp::new(5, 0), PortIdentity::fake());
    let offset = delay_resp.slave_master_offset(delay_req, TimeStamp::new(4, 0));
    assert_eq!(offset, Some(TimeInterval::new(1, 0)));
}

#[test]
fn delay_response_with_different_sequence_id_produces_no_slave_master_offset() {
    let delay_req = DelayRequestMessage::new(42.into());
    let delay_resp =
        DelayResponseMessage::new(43.into(), LogMessageInterval::new(-1), TimeStamp::new(5, 0), PortIdentity::fake());
    let offset = delay_resp.slave_master_offset(delay_req, TimeStamp::new(4, 0));
    assert_eq!(offset, None);
}

#[test]
fn delay_request_message_produces_delay_response_message() {
    let delay_req = DelayRequestMessage::new(42.into());
    let delay_resp = delay_req.response(LogMessageInterval::new(1), TimeStamp::new(4, 0), PortIdentity::fake());
    assert_eq!(
        delay_resp,
        DelayResponseMessage::new(42.into(), LogMessageInterval::new(1), TimeStamp::new(4, 0), PortIdentity::fake())
    );
}

#[test]
fn sequence_id_follows_next_for_all_values() {
    for id in 0u16..=u16::MAX {
        let a: SequenceId = id.into();
        let b = a.next();
        assert!(b.follows(a), "next({id}) should follow {id}");
        assert!(!a.follows(a));
    }
}

#[test]
fn sequence_id_roundtrip_to_from_be_bytes() {
    let samples = [0u16, 1, 2, 7, 42, 255, 256, 1024, 4096, 32767, 65534, 65535];
    for &id in &samples {
        let sid: SequenceId = id.into();
        let bytes = sid.to_be_bytes();
        let parsed = SequenceId::try_from(&bytes[..]).unwrap();
        assert_eq!(parsed, sid);
    }
}

#[test]
fn sequence_id_does_not_follow_on_gap() {
    let a: SequenceId = 10u16.into();
    let c: SequenceId = 12u16.into();
    assert!(!c.follows(a));
}

#[test]
fn sequence_id_wraps() {
    let a: SequenceId = u16::MAX.into();
    let b: SequenceId = 0u16.into();
    assert!(b.follows(a));
    assert_eq!(a.next(), b);
}

#[test]
fn two_step_sync_sets_the_two_step_flag_and_announce_the_timescale_flag() {
    let mut buf = test_buffer();
    let sync = TwoStepSyncMessage::new(1.into(), LogMessageInterval::new(0)).to_wire(&mut buf);
    assert_eq!(&sync.as_ref()[6..8], &[0x00, 0x02]);

    let ds = ClockDS::new(
        ClockIdentity::new(&[9; 8]),
        Priority1::new(1),
        Priority2::new(2),
        ClockQuality::new(ClockClass::PrimaryReference, ClockAccuracy::Within25ns, 0x1234),
        StepsRemoved::new(3),
    );
    let announce = AnnounceMessage::new(2.into(), LogMessageInterval::new(1), ds, TimeScale::Ptp).to_wire(&mut buf);
    let bytes = announce.as_ref();
    assert_eq!(bytes.len(), 64);
    assert_eq!(&bytes[6..8], &[0x00, 0x08]);
    assert_eq!(bytes[33], 1);
    assert_eq!(&bytes[47..63], &ds.to_wire());
}

#[test]
fn delay_request_wire_carries_unspecified_interval_and_zero_payload() {
    let mut buf = test_buffer();
    let wire = DelayRequestMessage::new(0x0102.into()).to_wire(&mut buf);
    let bytes = wire.as_ref();
    assert_eq!(bytes.len(), 44);
    assert_eq!(bytes[33], 0x7F);
    assert_eq!(&bytes[30..32], &[0x01, 0x02]);
    assert!(bytes[34..].iter().all(|b| *b == 0));
}

#[test]
fn receive_rejects_invalid_timestamp_and_unknown_type() {
    let mut buf = test_buffer();
    let wire = FollowUpMessage::new(1.into(), LogMessageInterval::new(0), TimeStamp::new(1, 0)).to_wire(&mut buf);
    let mut bytes = wire.as_ref().to_vec();
    bytes[40..44].copy_from_slice(&1_000_000_000u32.to_be_bytes());
    let mut ports = CapturingPortMap::new(DomainNumber::new(0));
    let res = MessageIngress::new(&mut ports).receive_general(&bytes, Instant::from_nanos(0));
    assert_eq!(res, Err(ProtocolError::InvalidTimestamp { nanos: 1_000_000_000 }.into()));

    bytes[0] = 0x07;
    let res = MessageIngress::new(&mut ports).receive_general(&bytes, Instant::from_nanos(0));
    assert_eq!(res, Err(ProtocolError::UnknownMessageType(0x07).into()));

    let res = MessageIngress::new(&mut ports).receive_event(&bytes[..33], TimeStamp::new(0, 0));
    assert_eq!(res, Err(ParseError::HeaderTooShort { found: 33 }.into()));
}
