//! The PTP message wire format (IEEE 1588-2019 §13): the 34-byte common header, validation of
//! received buffers, and the staged builder that serializes outgoing messages.
//!
//! Header layout (offsets in bytes):
//!
//! | offset | field                                            |
//! |--------|--------------------------------------------------|
//! | 0      | transportSpecific (high nibble), messageType     |
//! | 1      | versionPTP (low nibble)                          |
//! | 2..4   | messageLength, big-endian                        |
//! | 4      | domainNumber                                     |
//! | 6..8   | flagField, big-endian                            |
//! | 20..30 | sourcePortIdentity                               |
//! | 30..32 | sequenceId, big-endian                           |
//! | 32     | controlField                                     |
//! | 33     | logMessageInterval                               |
//! | 34..   | payload                                          |
use vstd::prelude::*;

use crate::bytes::{be_bytes, be_value, lemma_be_bytes_len, lemma_be_bytes_of_value, pow256, u16_from_be, u16_to_be};
use crate::message::SequenceId;
use crate::port::{port_identity_of_wire, port_identity_wire, DomainNumber, PortIdentity};
use crate::result::{Error, ParseError, ProtocolError, Result};
use crate::time::LogMessageInterval;

verus! {

/// Length of the common message header.
pub const PTP_HEADER_LEN: usize = 34;

/// Offset of the payload.
pub const PTP_PAYLOAD_OFFSET: usize = 34;

/// Largest payload an outgoing message can carry (a 2048-byte frame less the header).
pub const PTP_MAX_PAYLOAD_LEN: usize = 2014;

/// The `transportSpecific` nibble; this implementation always sends zero.
#[derive(Clone, Copy, Debug, PartialEq, Eq, Structural)]
pub struct TransportSpecific;

impl TransportSpecific {
    /// The transport-specific nibble for this implementation.
    pub fn new() -> (t: TransportSpecific) {
        TransportSpecific
    }

    /// The nibble value.
    pub fn to_wire(&self) -> (v: u8)
        ensures
            v == 0,
    {
        0
    }
}

/// `versionPTP`.
#[derive(Clone, Copy, Debug, PartialEq, Eq, Structural)]
pub struct PtpVersion(u8);

impl PtpVersion {
    /// PTP version 2.
    pub fn v2() -> (v: PtpVersion)
        ensures
            v.spec_nibble() == 2,
    {
        proof {
            Self::lemma_v2();
        }
        PtpVersion(2)
    }

    /// The version nibble.
    pub closed spec fn spec_nibble(self) -> u8 {
        self.0 & 0x0F
    }

    /// The version nibble.
    pub fn as_u8(&self) -> (v: u8)
        ensures
            v == self.spec_nibble(),
    {
        self.0 & 0x0F
    }

    /// Version 2 has nibble 2.
    proof fn lemma_v2()
        ensures
            PtpVersion(2).spec_nibble() == 2,
    {
        assert(2u8 & 0x0F == 2) by (bit_vector);
    }
}

/// The PTP message types this implementation handles.
#[derive(Clone, Copy, Debug, PartialEq, Eq, Structural)]
pub enum MessageType {
    Sync,
    DelayRequest,
    FollowUp,
    DelayResponse,
    Announce,
}

/// The `messageType` nibble of a message type.
pub open spec fn message_type_nibble(t: MessageType) -> u8 {
    match t {
        MessageType::Sync => 0x00,
        MessageType::DelayRequest => 0x01,
        MessageType::FollowUp => 0x08,
        MessageType::DelayResponse => 0x09,
        MessageType::Announce => 0x0B,
    }
}

/// The message type of a nibble, if known.
pub open spec fn message_type_of(n: u8) -> Option<MessageType> {
    if n == 0x00 {
        Some(MessageType::Sync)
    } else if n == 0x01 {
        Some(MessageType::DelayRequest)
    } else if n == 0x08 {
        Some(MessageType::FollowUp)
    } else if n == 0x09 {
        Some(MessageType::DelayResponse)
    } else if n == 0x0B {
        Some(MessageType::Announce)
    } else {
        None
    }
}

impl MessageType {
    /// The `messageType` nibble.
    pub fn to_nibble(&self) -> (n: u8)
        ensures
            n == message_type_nibble(*self),
            message_type_of(n) == Some(*self),
    {
        match self {
            MessageType::Sync => 0x00,
            MessageType::DelayRequest => 0x01,
            MessageType::FollowUp => 0x08,
            MessageType::DelayResponse => 0x09,
            MessageType::Announce => 0x0B,
        }
    }

    /// The message type of a nibble; unknown nibbles are rejected.
    pub fn from_nibble(n: u8) -> (r: Result<MessageType>)
        ensures
            r == match message_type_of(n) {
                Some(t) => Ok::<MessageType, Error>(t),
                None => Err(Error::Protocol(ProtocolError::UnknownMessageType(n))),
            },
    {
        if n == 0x00 {
            Ok(MessageType::Sync)
        } else if n == 0x01 {
            Ok(MessageType::DelayRequest)
        } else if n == 0x08 {
            Ok(MessageType::FollowUp)
        } else if n == 0x09 {
            Ok(MessageType::DelayResponse)
        } else if n == 0x0B {
            Ok(MessageType::Announce)
        } else {
            Err(Error::Protocol(ProtocolError::UnknownMessageType(n)))
        }
    }
}

/// The `controlField` (IEEE 1588-2019 Table 42).
#[derive(Clone, Copy, Debug, PartialEq, Eq, Structural)]
pub enum ControlField {
    Sync,
    DelayRequest,
    FollowUp,
    DelayResponse,
    Management,
    Other,
}

/// The wire value of a control field.
pub open spec fn control_field_value(c: ControlField) -> u8 {
    match c {
        ControlField::Sync => 0x00,
        ControlField::DelayRequest => 0x01,
        ControlField::FollowUp => 0x02,
        ControlField::DelayResponse => 0x03,
        ControlField::Management => 0x04,
        ControlField::Other => 0x05,
    }
}

impl ControlField {
    /// The wire value.
    pub fn to_u8(&self) -> (v: u8)
        ensures
            v == control_field_value(*self),
    {
        match self {
            ControlField::Sync => 0x00,
            ControlField::DelayRequest => 0x01,
            ControlField::FollowUp => 0x02,
            ControlField::DelayResponse => 0x03,
            ControlField::Management => 0x04,
            ControlField::Other => 0x05,
        }
    }
}

/// The `flagField`.
#[derive(Clone, Copy, Debug, PartialEq, Eq, Structural)]
pub struct MessageFlags(pub u16);

impl MessageFlags {
    /// `twoStepFlag`: a Follow_Up message carries the precise origin timestamp.
    pub fn two_step() -> (f: MessageFlags)
        ensures
            f.0 == 0x0002,
    {
        MessageFlags(0x0002)
    }

    /// `ptpTimescale`: the grandmaster's time scale is PTP.
    pub fn ptp_timescale() -> (f: MessageFlags)
        ensures
            f.0 == 0x0008,
    {
        MessageFlags(0x0008)
    }

    /// No flag set.
    pub fn empty() -> (f: MessageFlags)
        ensures
            f.0 == 0,
    {
        MessageFlags(0)
    }

    /// The raw field.
    pub fn bits(&self) -> (b: u16)
        ensures
            b == self.0,
    {
        self.0
    }

    /// `true` if every flag of `other` is set in `self`.
    pub fn contains(&self, other: MessageFlags) -> (b: bool)
        ensures
            b == (self.0 & other.0 == other.0),
    {
        self.0 & other.0 == other.0
    }
}

/// `n` zero bytes.
pub open spec fn zeros(n: nat) -> Seq<u8> {
    Seq::new(n, |i: int| 0u8)
}

/// The 34-byte common header.
pub open spec fn header_wire(
    message_type: u8,
    version: u8,
    length: u16,
    domain: u8,
    flags: u16,
    source: PortIdentity,
    sequence_id: u16,
    control: u8,
    log_message_interval: u8,
) -> Seq<u8> {
    seq![message_type, version] + be_bytes(length as nat, 2) + seq![domain, 0u8] + be_bytes(
        flags as nat,
        2,
    ) + zeros(12) + port_identity_wire(source) + be_bytes(sequence_id as nat, 2) + seq![
        control,
        log_message_interval,
    ]
}

/// The layout of [`header_wire`].
pub proof fn lemma_header_layout(
    message_type: u8,
    version: u8,
    length: u16,
    domain: u8,
    flags: u16,
    source: PortIdentity,
    sequence_id: u16,
    control: u8,
    log_message_interval: u8,
)
    ensures
        ({
            let h = header_wire(
                message_type,
                version,
                length,
                domain,
                flags,
                source,
                sequence_id,
                control,
                log_message_interval,
            );
            &&& h.len() == 34
            &&& h[0] == message_type
            &&& h[1] == version
            &&& be_value(h.subrange(2, 4)) == length
            &&& h[4] == domain
            &&& be_value(h.subrange(6, 8)) == flags
            &&& h.subrange(20, 30) == port_identity_wire(source)
            &&& be_value(h.subrange(30, 32)) == sequence_id
            &&& h[32] == control
            &&& h[33] == log_message_interval
        }),
{
    lemma_be_bytes_len(length as nat, 2);
    lemma_be_bytes_len(flags as nat, 2);
    lemma_be_bytes_len(sequence_id as nat, 2);
    crate::port::lemma_port_identity_wire(source, source);
    let h = header_wire(
        message_type,
        version,
        length,
        domain,
        flags,
        source,
        sequence_id,
        control,
        log_message_interval,
    );
    assert(h.subrange(2, 4) =~= be_bytes(length as nat, 2));
    assert(h.subrange(6, 8) =~= be_bytes(flags as nat, 2));
    assert(h.subrange(20, 30) =~= port_identity_wire(source));
    assert(h.subrange(30, 32) =~= be_bytes(sequence_id as nat, 2));
    reveal_with_fuel(pow256, 3);
    crate::bytes::lemma_be_value_of_bytes(length as nat, 2);
    crate::bytes::lemma_be_value_of_bytes(flags as nat, 2);
    crate::bytes::lemma_be_value_of_bytes(sequence_id as nat, 2);
}

/// Why a received buffer fails the header checks, if it does: too short for a header, not PTP
/// version 2, or a declared length other than the buffer length.
pub open spec fn header_error(b: Seq<u8>) -> Option<Error> {
    if b.len() < PTP_HEADER_LEN {
        Some(Error::Parse(ParseError::HeaderTooShort { found: b.len() as usize }))
    } else if b[1] & 0x0F != 2 {
        Some(Error::Protocol(ProtocolError::UnsupportedPtpVersion(b[1] & 0x0F)))
    } else if be_value(b.subrange(2, 4)) != b.len() {
        Some(
            Error::Parse(
                ParseError::LengthMismatch {
                    declared: be_value(b.subrange(2, 4)) as usize,
                    actual: b.len() as usize,
                },
            ),
        )
    } else {
        None
    }
}

/// A received buffer, not yet checked.
pub struct UnvalidatedMessage<'a> {
    buf: &'a [u8],
}

impl<'a> UnvalidatedMessage<'a> {
    /// The bytes.
    pub closed spec fn spec_bytes(&self) -> Seq<u8> {
        self.buf@
    }

    /// Wrap a received buffer.
    pub fn new(buf: &'a [u8]) -> (m: UnvalidatedMessage<'a>)
        ensures
            m.spec_bytes() == buf@,
    {
        UnvalidatedMessage { buf }
    }

    /// Check that the buffer holds a whole PTP version 2 header and exactly the declared length.
    pub fn length_checked_v2(self) -> (r: Result<LengthCheckedMessage<'a>>)
        ensures
            r is Ok <==> header_error(self.spec_bytes()) is None,
            r matches Ok(m) ==> m.spec_bytes() == self.spec_bytes(),
            r matches Err(e) ==> header_error(self.spec_bytes()) == Some(e),
    {
        if self.buf.len() < PTP_HEADER_LEN {
            return Err(Error::Parse(ParseError::HeaderTooShort { found: self.buf.len() }));
        }
        let version: u8 = self.buf[1] & 0x0F;
        if version != 2 {
            return Err(Error::Protocol(ProtocolError::UnsupportedPtpVersion(version)));
        }
        let len_bytes: [u8; 2] = [self.buf[2], self.buf[3]];
        assert(len_bytes@ =~= self.buf@.subrange(2, 4));
        let expected = u16_from_be(len_bytes) as usize;
        let found = self.buf.len();
        if expected != found {
            return Err(Error::Parse(ParseError::LengthMismatch { declared: expected, actual: found }));
        }
        Ok(LengthCheckedMessage { buf: self.buf })
    }
}

/// A received buffer that holds a whole PTP version 2 message of its declared length.
pub struct LengthCheckedMessage<'a> {
    buf: &'a [u8],
}

impl<'a> LengthCheckedMessage<'a> {
    #[verifier::type_invariant]
    closed spec fn inv(self) -> bool {
        header_error(self.buf@) is None
    }

    /// The bytes.
    pub closed spec fn spec_bytes(&self) -> Seq<u8> {
        self.buf@
    }

    /// The bytes pass the header checks.
    pub fn buf(&self) -> (b: &'a [u8])
        ensures
            b@ == self.spec_bytes(),
            header_error(b@) is None,
    {
        proof {
            use_type_invariant(self);
        }
        self.buf
    }

    /// `domainNumber`.
    pub fn domain_number(&self) -> (d: DomainNumber)
        ensures
            d.0 == self.spec_bytes()[4],
    {
        proof {
            use_type_invariant(self);
        }
        DomainNumber::new(self.buf[4])
    }

    /// `sourcePortIdentity`.
    pub fn source_port_identity(&self) -> (p: PortIdentity)
        ensures
            p == port_identity_of_wire(self.spec_bytes().subrange(20, 30)),
    {
        proof {
            use_type_invariant(self);
        }
        let b: [u8; 10] = [
            self.buf[20],
            self.buf[21],
            self.buf[22],
            self.buf[23],
            self.buf[24],
            self.buf[25],
            self.buf[26],
            self.buf[27],
            self.buf[28],
            self.buf[29],
        ];
        assert(b@ =~= self.buf@.subrange(20, 30));
        PortIdentity::from_wire(&b)
    }

    /// The `messageType` nibble decoded.
    pub fn message_type(&self) -> (r: Result<MessageType>)
        ensures
            r == match message_type_of(self.spec_bytes()[0] & 0x0F) {
                Some(t) => Ok::<MessageType, Error>(t),
                None => Err(Error::Protocol(ProtocolError::UnknownMessageType(self.spec_bytes()[0] & 0x0F))),
            },
    {
        proof {
            use_type_invariant(self);
        }
        MessageType::from_nibble(self.buf[0] & 0x0F)
    }

    /// `sequenceId`.
    pub fn sequence_id(&self) -> (s: u16)
        ensures
            s == be_value(self.spec_bytes().subrange(30, 32)),
    {
        proof {
            use_type_invariant(self);
        }
        let b: [u8; 2] = [self.buf[30], self.buf[31]];
        assert(b@ =~= self.buf@.subrange(30, 32));
        u16_from_be(b)
    }

    /// `flagField`.
    pub fn flags(&self) -> (f: MessageFlags)
        ensures
            f.0 == be_value(self.spec_bytes().subrange(6, 8)),
    {
        proof {
            use_type_invariant(self);
        }
        let b: [u8; 2] = [self.buf[6], self.buf[7]];
        assert(b@ =~= self.buf@.subrange(6, 8));
        MessageFlags(u16_from_be(b))
    }

    /// `logMessageInterval`.
    pub fn log_message_interval(&self) -> (l: LogMessageInterval)
        ensures
            l.spec_raw() == self.spec_bytes()[33] as i8,
            l == LogMessageInterval::spec_new(self.spec_bytes()[33] as i8),
    {
        proof {
            use_type_invariant(self);
        }
        LogMessageInterval::from_u8(self.buf[33])
    }

    /// The payload after the header.
    pub fn payload(&self) -> (p: &'a [u8])
        ensures
            p@ == self.spec_bytes().subrange(34, self.spec_bytes().len() as int),
    {
        proof {
            use_type_invariant(self);
        }
        &self.buf[34..self.buf.len()]
    }
}

/// Write `bytes` into `payload` at `offset`, extending it with zeros as needed.
pub open spec fn written(payload: Seq<u8>, offset: nat, bytes: Seq<u8>) -> Seq<u8> {
    let len = if payload.len() > offset + bytes.len() {
        payload.len()
    } else {
        offset + bytes.len()
    };
    Seq::new(
        len,
        |i: int|
            if offset <= i < offset + bytes.len() {
                bytes[i - offset]
            } else if i < payload.len() {
                payload[i]
            } else {
                0u8
            },
    )
}

/// `payload` cut or zero-extended to `len` bytes.
pub open spec fn fitted(payload: Seq<u8>, len: nat) -> Seq<u8> {
    Seq::new(len, |i: int| if i < payload.len() { payload[i] } else { 0u8 })
}

/// A message being built: the fields common to every message sent by a port.
#[derive(Clone, Copy, Debug, PartialEq, Eq, Structural)]
pub struct MessageBuffer {
    pub transport_specific: TransportSpecific,
    pub version: PtpVersion,
    pub domain_number: DomainNumber,
    pub source_port_identity: PortIdentity,
}

impl MessageBuffer {
    /// A buffer for messages of one port.
    pub fn new(
        transport_specific: TransportSpecific,
        version: PtpVersion,
        domain_number: DomainNumber,
        source_port_identity: PortIdentity,
    ) -> (m: MessageBuffer)
        ensures
            m == (MessageBuffer { transport_specific, version, domain_number, source_port_identity }),
    {
        MessageBuffer { transport_specific, version, domain_number, source_port_identity }
    }

    /// Set the message type and control field.
    pub fn typed(&self, msg_type: MessageType, control: ControlField) -> (t: TypedBuffer)
        ensures
            t == (TypedBuffer { base: *self, msg_type, control }),
    {
        TypedBuffer { base: *self, msg_type, control }
    }
}

/// A message being built, with its type.
#[derive(Clone, Copy, Debug, PartialEq, Eq, Structural)]
pub struct TypedBuffer {
    pub base: MessageBuffer,
    pub msg_type: MessageType,
    pub control: ControlField,
}

impl TypedBuffer {
    /// Set the flag field.
    pub fn flagged(self, flags: MessageFlags) -> (f: FlaggedBuffer)
        ensures
            f == (FlaggedBuffer { typed: self, flags }),
    {
        FlaggedBuffer { typed: self, flags }
    }
}

/// A message being built, with its flags.
#[derive(Clone, Copy, Debug, PartialEq, Eq, Structural)]
pub struct FlaggedBuffer {
    pub typed: TypedBuffer,
    pub flags: MessageFlags,
}

impl FlaggedBuffer {
    /// Set the sequence id.
    pub fn sequenced(self, sequence_id: SequenceId) -> (s: SequencedBuffer)
        ensures
            s == (SequencedBuffer { flagged: self, sequence_id }),
    {
        SequencedBuffer { flagged: self, sequence_id }
    }
}

/// A message being built, with its sequence id.
#[derive(Clone, Copy, Debug, PartialEq, Eq, Structural)]
pub struct SequencedBuffer {
    pub flagged: FlaggedBuffer,
    pub sequence_id: SequenceId,
}

impl SequencedBuffer {
    /// Set the log message interval.
    pub fn with_log_message_interval(self, log_message_interval: LogMessageInterval) -> (l:
        LogMessageIntervalBuffer)
        ensures
            l == (LogMessageIntervalBuffer { sequenced: self, log_message_interval }),
    {
        LogMessageIntervalBuffer { sequenced: self, log_message_interval }
    }
}

/// A message being built, with its header complete but for the length.
#[derive(Clone, Copy, Debug, PartialEq, Eq, Structural)]
pub struct LogMessageIntervalBuffer {
    pub sequenced: SequencedBuffer,
    pub log_message_interval: LogMessageInterval,
}

impl LogMessageIntervalBuffer {
    /// Start writing the payload.
    pub fn payload(self) -> (p: PayloadBuffer)
        ensures
            p.spec_fields() == self,
            p.spec_payload() == Seq::<u8>::empty(),
    {
        PayloadBuffer { header: self, payload: Vec::new() }
    }

    /// The header bytes of a message with `payload_len` payload bytes.
    pub open spec fn spec_header(self, payload_len: nat) -> Seq<u8> {
        let s = self.sequenced;
        let f = s.flagged;
        let t = f.typed;
        header_wire(
            message_type_nibble(t.msg_type),
            t.base.version.spec_nibble() & 0x0F,
            (PTP_PAYLOAD_OFFSET + payload_len) as u16,
            t.base.domain_number.0,
            f.flags.0,
            t.base.source_port_identity,
            s.sequence_id.id,
            control_field_value(t.control),
            self.log_message_interval.spec_raw() as u8,
        )
    }
}

/// A message being built: the header, and the payload written so far.
pub struct PayloadBuffer {
    header: LogMessageIntervalBuffer,
    payload: Vec<u8>,
}

impl PayloadBuffer {
    /// The header fields.
    pub closed spec fn spec_fields(&self) -> LogMessageIntervalBuffer {
        self.header
    }

    /// The payload written so far.
    pub closed spec fn spec_payload(&self) -> Seq<u8> {
        self.payload@
    }

    /// Write `bytes` into the payload at `offset`; bytes not written are zero.
    pub fn write(&mut self, offset: usize, bytes: &[u8])
        requires
            offset + bytes@.len() <= PTP_MAX_PAYLOAD_LEN,
        ensures
            final(self).spec_fields() == old(self).spec_fields(),
            final(self).spec_payload() == written(old(self).spec_payload(), offset as nat, bytes@),
    {
        let ghost old_p = self.payload@;
        let ghost h = self.header;
        while self.payload.len() < offset + bytes.len()
            invariant
                self.header == h,
                offset + bytes@.len() <= PTP_MAX_PAYLOAD_LEN,
                old_p.len() <= self.payload@.len(),
                self.payload@.len() <= if old_p.len() > offset + bytes@.len() {
                    old_p.len() as int
                } else {
                    offset + bytes@.len()
                },
                forall|i: int| 0 <= i < self.payload@.len() ==> #[trigger] self.payload@[i] == if i
                    < old_p.len() {
                    old_p[i]
                } else {
                    0u8
                },
            decreases offset + bytes@.len() - self.payload@.len(),
        {
            self.payload.push(0u8);
        }
        let mut i: usize = 0;
        while i < bytes.len()
            invariant
                self.header == h,
                offset + bytes@.len() <= PTP_MAX_PAYLOAD_LEN,
                i <= bytes@.len(),
                offset + bytes@.len() <= self.payload@.len(),
                self.payload@.len() == if old_p.len() > offset + bytes@.len() {
                    old_p.len() as int
                } else {
                    offset + bytes@.len()
                },
                forall|k: int|
                    0 <= k < self.payload@.len() ==> #[trigger] self.payload@[k] == if offset <= k
                        < offset + i {
                        bytes@[k - offset]
                    } else if k < old_p.len() {
                        old_p[k]
                    } else {
                        0u8
                    },
            decreases bytes@.len() - i,
        {
            self.payload.set(offset + i, bytes[i]);
            i = i + 1;
        }
        assert(self.payload@ =~= written(old_p, offset as nat, bytes@));
    }

    /// Set the message length and produce the message bytes: the header, then the payload cut or
    /// zero-extended to `payload_len` bytes.
    pub fn finalize(self, payload_len: u16) -> (f: FinalizedBuffer)
        requires
            payload_len <= PTP_MAX_PAYLOAD_LEN,
        ensures
            f.spec_bytes() == self.spec_fields().spec_header(payload_len as nat) + fitted(
                self.spec_payload(),
                payload_len as nat,
            ),
    {
        let s = self.header.sequenced;
        let fl = s.flagged;
        let t = fl.typed;
        let total_len: u16 = PTP_PAYLOAD_OFFSET as u16 + payload_len;
        let len_b = u16_to_be(total_len);
        let flags_b = u16_to_be(fl.flags.0);
        let spid = t.base.source_port_identity.to_wire();
        let seq_b = u16_to_be(s.sequence_id.id);
        let mut bytes: Vec<u8> = Vec::new();
        bytes.push(t.msg_type.to_nibble());
        bytes.push(t.base.version.as_u8() & 0x0F);
        bytes.push(len_b[0]);
        bytes.push(len_b[1]);
        bytes.push(t.base.domain_number.0);
        bytes.push(0u8);
        bytes.push(flags_b[0]);
        bytes.push(flags_b[1]);
        bytes.push(0u8);
        bytes.push(0u8);
        bytes.push(0u8);
        bytes.push(0u8);
        bytes.push(0u8);
        bytes.push(0u8);
        bytes.push(0u8);
        bytes.push(0u8);
        bytes.push(0u8);
        bytes.push(0u8);
        bytes.push(0u8);
        bytes.push(0u8);
        bytes.push(spid[0]);
        bytes.push(spid[1]);
        bytes.push(spid[2]);
        bytes.push(spid[3]);
        bytes.push(spid[4]);
        bytes.push(spid[5]);
        bytes.push(spid[6]);
        bytes.push(spid[7]);
        bytes.push(spid[8]);
        bytes.push(spid[9]);
        bytes.push(seq_b[0]);
        bytes.push(seq_b[1]);
        bytes.push(t.control.to_u8());
        bytes.push(self.header.log_message_interval.as_u8());
        proof {
            lemma_be_bytes_len(total_len as nat, 2);
            lemma_be_bytes_len(fl.flags.0 as nat, 2);
            lemma_be_bytes_len(s.sequence_id.id as nat, 2);
            crate::port::lemma_port_identity_wire(t.base.source_port_identity, t.base.source_port_identity);
            assert(bytes@ =~= self.header.spec_header(payload_len as nat));
        }
        let ghost hdr = bytes@;
        let mut p: usize = 0;
        while p < payload_len as usize
            invariant
                p <= payload_len,
                hdr.len() == 34,
                bytes@.len() == 34 + p,
                bytes@ =~= hdr + fitted(self.payload@, payload_len as nat).subrange(0, p as int),
            decreases payload_len - p,
        {
            if p < self.payload.len() {
                bytes.push(self.payload[p]);
            } else {
                bytes.push(0u8);
            }
            p = p + 1;
        }
        assert(fitted(self.payload@, payload_len as nat).subrange(0, payload_len as int) =~= fitted(
            self.payload@,
            payload_len as nat,
        ));
        FinalizedBuffer { bytes }
    }
}

/// The bytes of a finished message.
pub struct FinalizedBuffer {
    bytes: Vec<u8>,
}

impl FinalizedBuffer {
    /// The message bytes.
    pub closed spec fn spec_bytes(&self) -> Seq<u8> {
        self.bytes@
    }

    /// The message bytes.
    pub fn as_ref(&self) -> (b: &[u8])
        ensures
            b@ == self.spec_bytes(),
    {
        self.bytes.as_slice()
    }
}

} // verus!
