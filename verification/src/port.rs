//! Port identities, numbering and the infrastructure boundary of a port.
use vstd::prelude::*;

use crate::bytes::{
    be_bytes, be_value, lemma_be_bytes_len, lemma_be_bytes_of_value, lemma_be_value_of_bytes,
    u16_from_be, u16_to_be,
};
use crate::clock::{ClockIdentity, LocalClock, SynchronizableClock};
use crate::log::{PortEvent, PortLog};
use crate::message::{event_wire, general_wire, EventMessage, GeneralMessage, SystemMessage};
use crate::servo::Servo;
use crate::time::{log_interval_nanos, Duration, LogInterval};
use crate::timestamping::TxTimestamping;
use crate::wire::{FinalizedBuffer, MessageBuffer, PtpVersion, TransportSpecific};

verus! {

/// Failure to hand a datagram to the network.
#[derive(Debug, Clone, Copy, PartialEq, Eq, Structural)]
pub struct SendError;

/// Result of a send operation.
pub type SendResult = core::result::Result<(), SendError>;

/// `portNumber`: the index of a port within its clock.
#[derive(Clone, Copy, Debug, PartialEq, Eq, PartialOrd, Ord, Hash, Structural)]
pub struct PortNumber(pub u16);

impl PortNumber {
    /// Create a port number.
    pub fn new(n: u16) -> (p: PortNumber)
        ensures
            p.0 == n,
    {
        PortNumber(n)
    }

    /// The raw value.
    pub fn as_u16(&self) -> (v: u16)
        ensures
            v == self.0,
    {
        self.0
    }

    /// The raw value, big-endian.
    pub fn to_be_bytes(&self) -> (b: [u8; 2])
        ensures
            b@ =~= be_bytes(self.0 as nat, 2),
    {
        u16_to_be(self.0)
    }

    /// Decode from big-endian bytes.
    pub fn from_be_bytes(bytes: [u8; 2]) -> (p: PortNumber)
        ensures
            p.0 == be_value(bytes@),
    {
        PortNumber(u16_from_be(bytes))
    }
}

/// `domainNumber`: the PTP domain a message belongs to.
#[derive(Clone, Copy, Debug, PartialEq, Eq, PartialOrd, Ord, Hash, Structural)]
pub struct DomainNumber(pub u8);

impl DomainNumber {
    /// Create a domain number.
    pub fn new(n: u8) -> (d: DomainNumber)
        ensures
            d.0 == n,
    {
        DomainNumber(n)
    }

    /// The raw value.
    pub fn as_u8(&self) -> (v: u8)
        ensures
            v == self.0,
    {
        self.0
    }
}

impl From<u16> for PortNumber {
    fn from(value: u16) -> (p: PortNumber) {
        PortNumber(value)
    }
}

impl vstd::std_specs::convert::FromSpecImpl<u16> for PortNumber {
    open spec fn obeys_from_spec() -> bool {
        true
    }

    open spec fn from_spec(value: u16) -> PortNumber {
        PortNumber(value)
    }
}

impl From<PortNumber> for u16 {
    fn from(value: PortNumber) -> (v: u16) {
        value.0
    }
}

impl vstd::std_specs::convert::FromSpecImpl<PortNumber> for u16 {
    open spec fn obeys_from_spec() -> bool {
        true
    }

    open spec fn from_spec(value: PortNumber) -> u16 {
        value.0
    }
}

impl From<u8> for DomainNumber {
    fn from(value: u8) -> (d: DomainNumber) {
        DomainNumber(value)
    }
}

impl vstd::std_specs::convert::FromSpecImpl<u8> for DomainNumber {
    open spec fn obeys_from_spec() -> bool {
        true
    }

    open spec fn from_spec(value: u8) -> DomainNumber {
        DomainNumber(value)
    }
}

impl From<DomainNumber> for u8 {
    fn from(value: DomainNumber) -> (v: u8) {
        value.0
    }
}

impl vstd::std_specs::convert::FromSpecImpl<DomainNumber> for u8 {
    open spec fn obeys_from_spec() -> bool {
        true
    }

    open spec fn from_spec(value: DomainNumber) -> u8 {
        value.0
    }
}

/// `portIdentity`: clock identity plus port number.
#[derive(Clone, Copy, Debug, PartialEq, Eq, PartialOrd, Ord, Hash, Structural)]
pub struct PortIdentity {
    pub clock_identity: ClockIdentity,
    pub port_number: PortNumber,
}

/// The 10-byte wire form of a port identity.
pub open spec fn port_identity_wire(p: PortIdentity) -> Seq<u8> {
    p.clock_identity.spec_bytes() + be_bytes(p.port_number.0 as nat, 2)
}

/// The port identity denoted by 10 wire bytes.
pub open spec fn port_identity_of_wire(b: Seq<u8>) -> PortIdentity {
    PortIdentity {
        clock_identity: ClockIdentity::spec_from_value(be_value(b.subrange(0, 8))),
        port_number: PortNumber(be_value(b.subrange(8, 10)) as u16),
    }
}

/// Decoding the wire form of a port identity gives it back.
pub proof fn lemma_port_identity_roundtrip(p: PortIdentity)
    ensures
        port_identity_wire(p).len() == 10,
        port_identity_of_wire(port_identity_wire(p)) == p,
{
    p.clock_identity.lemma_bytes();
    lemma_be_bytes_len(p.port_number.0 as nat, 2);
    let a = port_identity_wire(p);
    assert(a.subrange(0, 8) =~= p.clock_identity.spec_bytes());
    assert(a.subrange(8, 10) =~= be_bytes(p.port_number.0 as nat, 2));
    reveal_with_fuel(crate::bytes::pow256, 3);
    lemma_be_value_of_bytes(p.port_number.0 as nat, 2);
    ClockIdentity::lemma_from_value(p.clock_identity.spec_value());
    p.clock_identity.lemma_value_injective(ClockIdentity::spec_from_value(p.clock_identity.spec_value()));
}

/// Wire bytes of port identities determine them.
pub proof fn lemma_port_identity_wire(p: PortIdentity, q: PortIdentity)
    ensures
        port_identity_wire(p).len() == 10,
        port_identity_wire(p) =~= port_identity_wire(q) ==> p == q,
{
    p.clock_identity.lemma_bytes();
    q.clock_identity.lemma_bytes();
    lemma_be_bytes_len(p.port_number.0 as nat, 2);
    lemma_be_bytes_len(q.port_number.0 as nat, 2);
    if port_identity_wire(p) =~= port_identity_wire(q) {
        let a = port_identity_wire(p);
        let b = port_identity_wire(q);
        assert(a.subrange(0, 8) =~= p.clock_identity.spec_bytes());
        assert(b.subrange(0, 8) =~= q.clock_identity.spec_bytes());
        assert(a.subrange(8, 10) =~= be_bytes(p.port_number.0 as nat, 2));
        assert(b.subrange(8, 10) =~= be_bytes(q.port_number.0 as nat, 2));
        reveal_with_fuel(crate::bytes::pow256, 3);
        lemma_be_value_of_bytes(p.port_number.0 as nat, 2);
        lemma_be_value_of_bytes(q.port_number.0 as nat, 2);
        p.clock_identity.lemma_value_injective(q.clock_identity);
    }
}

/// The order of port identities: by clock identity, then by port number.
pub open spec fn port_identity_lt(a: PortIdentity, b: PortIdentity) -> bool {
    ||| a.clock_identity.spec_value() < b.clock_identity.spec_value()
    ||| a.clock_identity == b.clock_identity && a.port_number.0 < b.port_number.0
}

/// The order of port identities is a strict total order.
pub proof fn lemma_port_identity_order(a: PortIdentity, b: PortIdentity, c: PortIdentity)
    ensures
        !port_identity_lt(a, a),
        port_identity_lt(a, b) ==> !port_identity_lt(b, a),
        a != b ==> port_identity_lt(a, b) || port_identity_lt(b, a),
        port_identity_lt(a, b) && port_identity_lt(b, c) ==> port_identity_lt(a, c),
{
    a.clock_identity.lemma_value_injective(b.clock_identity);
    b.clock_identity.lemma_value_injective(c.clock_identity);
    a.clock_identity.lemma_value_injective(c.clock_identity);
}

impl PortIdentity {
    /// `true` if `self` orders before `other` (clock identity first, then port number).
    pub fn is_less_than(&self, other: &PortIdentity) -> (b: bool)
        ensures
            b == port_identity_lt(*self, *other),
    {
        proof {
            self.clock_identity.lemma_value_injective(other.clock_identity);
        }
        if self.clock_identity == other.clock_identity {
            self.port_number.0 < other.port_number.0
        } else {
            self.clock_identity.is_less_than(&other.clock_identity)
        }
    }

    /// Create a port identity.
    pub fn new(clock_identity: ClockIdentity, port_number: PortNumber) -> (p: PortIdentity)
        ensures
            p.clock_identity == clock_identity,
            p.port_number == port_number,
    {
        PortIdentity { clock_identity, port_number }
    }

    /// A fixed identity (`00:..:00`, port 1) for tests and examples.
    pub fn fake() -> (p: PortIdentity)
        ensures
            p.clock_identity.spec_value() == 0,
            p.port_number.0 == 1,
    {
        PortIdentity { clock_identity: ClockIdentity::from_u64(0), port_number: PortNumber(1) }
    }

    /// Decode a port identity from its 10-byte wire form.
    pub fn from_wire(buf: &[u8; 10]) -> (p: PortIdentity)
        ensures
            port_identity_wire(p) =~= buf@,
            p == port_identity_of_wire(buf@),
    {
        let id: [u8; 8] = [buf[0], buf[1], buf[2], buf[3], buf[4], buf[5], buf[6], buf[7]];
        let pn: [u8; 2] = [buf[8], buf[9]];
        let p = PortIdentity {
            clock_identity: ClockIdentity::new(&id),
            port_number: PortNumber::from_be_bytes(pn),
        };
        proof {
            lemma_be_bytes_of_value(pn@);
            assert(buf@ =~= id@ + pn@);
            assert(buf@.subrange(0, 8) =~= id@);
            assert(buf@.subrange(8, 10) =~= pn@);
            p.clock_identity.lemma_bytes();
            ClockIdentity::lemma_from_value(be_value(id@));
            p.clock_identity.lemma_value_injective(ClockIdentity::spec_from_value(be_value(id@)));
        }
        p
    }

    /// Encode the port identity into its 10-byte wire form.
    pub fn to_wire(&self) -> (b: [u8; 10])
        ensures
            b@ =~= port_identity_wire(*self),
    {
        let id = self.clock_identity.as_bytes();
        let pn = self.port_number.to_be_bytes();
        proof {
            self.clock_identity.lemma_bytes();
            lemma_be_bytes_len(self.port_number.0 as nat, 2);
        }
        [id[0], id[1], id[2], id[3], id[4], id[5], id[6], id[7], pn[0], pn[1]]
    }
}

/// The port identity of the selected parent (master) port.
#[derive(Clone, Copy, Debug, PartialEq, Eq, Structural)]
pub struct ParentPortIdentity {
    pub parent_port_identity: PortIdentity,
}

impl ParentPortIdentity {
    /// Wrap the identity of a parent port.
    pub fn new(parent_port_identity: PortIdentity) -> (p: ParentPortIdentity)
        ensures
            p.parent_port_identity == parent_port_identity,
    {
        ParentPortIdentity { parent_port_identity }
    }

    /// `true` if `source_port_identity` is this parent.
    pub fn matches(&self, source_port_identity: &PortIdentity) -> (b: bool)
        ensures
            b == (self.parent_port_identity == *source_port_identity),
    {
        self.parent_port_identity == *source_port_identity
    }
}

/// A restartable timer handle owned by the port state machine.
///
/// Implemented by infrastructure. Restarting schedules the timer to fire after `timeout`;
/// when it fires, infrastructure delivers the system message the handle was created for.
pub trait Timeout: Sized {
    /// `after` is this handle once it was (re)scheduled to fire after `timeout`. An
    /// implementation may state what that means; by default any handle is possible.
    open spec fn restarted(&self, timeout: Duration, after: Self) -> bool {
        true
    }

    /// (Re)schedule the timer.
    fn restart(&mut self, timeout: Duration)
        ensures
            old(self).restarted(timeout, *final(self)),
    ;
}

/// `after` is the handle `before` restarted to fire after the duration of `log_interval`.
pub open spec fn restarted_for_interval<T: Timeout>(before: T, log_interval: LogInterval, after: T) -> bool {
    exists|d: Duration| d@ == log_interval_nanos(log_interval.spec_log() as int) && #[trigger] before.restarted(d, after)
}

/// `t` is a fresh handle of `port` for `msg`, started to fire after `nanos` nanoseconds.
pub open spec fn started<P: Port>(port: P, msg: SystemMessage, nanos: int, t: P::Timeout) -> bool {
    exists|t0: P::Timeout, d: Duration| d@ == nanos && port.timeout_for(msg, t0) && #[trigger] t0.restarted(d, t)
}

/// `after` is the Announce receipt timer `before` restarted with its configured interval.
pub open spec fn receipt_restarted<T: Timeout>(before: AnnounceReceiptTimeout<T>, after: AnnounceReceiptTimeout<T>) -> bool {
    after.interval == before.interval && before.timeout.restarted(before.interval, after.timeout)
}

/// `t` is a fresh Announce receipt timer of `port` with interval `interval`, started with it.
pub open spec fn receipt_started<P: Port>(port: P, interval: Duration, t: AnnounceReceiptTimeout<P::Timeout>) -> bool {
    t.interval == interval && started(port, SystemMessage::AnnounceReceiptTimeout, interval@ as int, t.timeout)
}

/// The Announce receipt timer together with its configured interval.
pub struct AnnounceReceiptTimeout<T: Timeout> {
    pub timeout: T,
    pub interval: Duration,
}

impl<T: Timeout> AnnounceReceiptTimeout<T> {
    /// Pair a timer handle with its interval.
    pub fn new(timeout: T, interval: Duration) -> (a: AnnounceReceiptTimeout<T>)
        ensures
            a.timeout == timeout,
            a.interval == interval,
    {
        AnnounceReceiptTimeout { timeout, interval }
    }

    /// Restart the timer with the configured interval.
    pub fn restart(&mut self)
        ensures
            receipt_restarted(*old(self), *final(self)),
    {
        self.timeout.restart(self.interval);
    }
}

/// The network boundary of a port: hands datagrams to the event (319) and general (320)
/// channels.
pub trait PhysicalPort {
    /// `r` is an outcome this port can give for sending `bytes` on the event channel. An
    /// implementation may state which; by default any outcome is possible.
    open spec fn event_sent(&self, bytes: Seq<u8>, r: SendResult) -> bool {
        true
    }

    /// `r` is an outcome this port can give for sending `bytes` on the general channel. By
    /// default any outcome is possible.
    open spec fn general_sent(&self, bytes: Seq<u8>, r: SendResult) -> bool {
        true
    }

    /// Send a datagram on the event channel.
    fn send_event(&self, buf: &[u8]) -> (r: SendResult)
        ensures
            self.event_sent(buf@, r),
    ;

    /// Send a datagram on the general channel.
    fn send_general(&self, buf: &[u8]) -> (r: SendResult)
        ensures
            self.general_sent(buf@, r),
    ;
}

/// Source of timer handles.
pub trait TimerHost {
    /// The timer handles this host creates.
    type Timeout: Timeout;

    /// `t` is a handle this host can create for `msg`. An implementation may state which; by
    /// default any handle is possible.
    open spec fn timeout_for(&self, msg: SystemMessage, t: Self::Timeout) -> bool {
        true
    }

    /// A handle that delivers `msg` when it fires. Creating it does not schedule it; scheduling
    /// happens when the handle is restarted.
    fn timeout(&self, msg: SystemMessage) -> (t: Self::Timeout)
        ensures
            self.timeout_for(msg, t),
    ;
}

/// Everything a port state needs from the outside world: the local clock, sending, timers and
/// logging.
pub trait Port {
    /// The clock being disciplined.
    type Clock: SynchronizableClock;
    /// The servo disciplining it.
    type Servo: Servo;
    /// The timer handles of this port.
    type Timeout: Timeout;

    /// `l` is the local clock of this port. An implementation may state which clock that is; by
    /// default any clock is possible.
    open spec fn local_clock_is(&self, l: LocalClock<Self::Clock, Self::Servo>) -> bool {
        true
    }

    /// `r` is an outcome this port can give for sending the event message `msg`. By default any
    /// outcome is possible.
    open spec fn event_sent(&self, msg: EventMessage, r: SendResult) -> bool {
        true
    }

    /// `r` is an outcome this port can give for sending the general message `msg`. By default
    /// any outcome is possible.
    open spec fn general_sent(&self, msg: GeneralMessage, r: SendResult) -> bool {
        true
    }

    /// `t` is a timer handle this port can create for `msg`. By default any handle is possible.
    open spec fn timeout_for(&self, msg: SystemMessage, t: Self::Timeout) -> bool {
        true
    }

    /// The local clock.
    fn local_clock(&self) -> (l: &LocalClock<Self::Clock, Self::Servo>)
        ensures
            self.local_clock_is(*l),
    ;

    /// Send an event message.
    fn send_event(&self, msg: EventMessage) -> (r: SendResult)
        ensures
            self.event_sent(msg, r),
    ;

    /// Send a general message.
    fn send_general(&self, msg: GeneralMessage) -> (r: SendResult)
        ensures
            self.general_sent(msg, r),
    ;

    /// A timer handle that delivers `msg` when it fires. Creating it does not schedule it.
    fn timeout(&self, msg: SystemMessage) -> (t: Self::Timeout)
        ensures
            self.timeout_for(msg, t),
    ;

    /// Record a port event.
    fn log(&self, event: PortEvent);
}

/// A [`Port`] of one domain, assembled from infrastructure parts: messages are serialized with
/// this port's identity and domain, handed to the physical port, and sent event messages are
/// passed on for egress timestamping.
pub struct DomainPort<'a, C: SynchronizableClock, V: Servo, PP: PhysicalPort, T: TimerHost, TS: TxTimestamping, L: PortLog> {
    pub local_clock: &'a LocalClock<C, V>,
    pub physical_port: &'a PP,
    pub timer_host: T,
    pub timestamping: TS,
    pub log: L,
    pub domain_number: DomainNumber,
    pub port_number: PortNumber,
}

impl<'a, C: SynchronizableClock, V: Servo, PP: PhysicalPort, T: TimerHost, TS: TxTimestamping, L: PortLog> DomainPort<
    'a,
    C,
    V,
    PP,
    T,
    TS,
    L,
> {
    /// Assemble a domain port.
    pub fn new(
        local_clock: &'a LocalClock<C, V>,
        physical_port: &'a PP,
        timer_host: T,
        timestamping: TS,
        log: L,
        domain_number: DomainNumber,
        port_number: PortNumber,
    ) -> (p: DomainPort<'a, C, V, PP, T, TS, L>)
        ensures
            *p.local_clock == *local_clock,
            *p.physical_port == *physical_port,
            p.timer_host == timer_host,
            p.timestamping == timestamping,
            p.log == log,
            p.domain_number == domain_number,
            p.port_number == port_number,
    {
        DomainPort { local_clock, physical_port, timer_host, timestamping, log, domain_number, port_number }
    }

    /// The identity of this port.
    pub fn port_identity(&self) -> (p: PortIdentity)
        ensures
            p == (PortIdentity { clock_identity: self.local_clock.identity, port_number: self.port_number }),
    {
        PortIdentity::new(*self.local_clock.identity(), self.port_number)
    }

    /// The buffer that frames this port's messages.
    pub fn message_buffer(&self) -> (b: MessageBuffer)
        ensures
            b.domain_number == self.domain_number,
            b.source_port_identity == (PortIdentity {
                clock_identity: self.local_clock.identity,
                port_number: self.port_number,
            }),
            b.version.spec_nibble() == 2,
    {
        MessageBuffer::new(TransportSpecific::new(), PtpVersion::v2(), self.domain_number, self.port_identity())
    }

    /// `b` frames the messages of this port: its domain, its identity, PTP version 2.
    pub open spec fn frames(&self, b: MessageBuffer) -> bool {
        &&& b.domain_number == self.domain_number
        &&& b.source_port_identity == (PortIdentity {
            clock_identity: self.local_clock.identity,
            port_number: self.port_number,
        })
        &&& b.version.spec_nibble() == 2
    }

    /// The datagram of an event message of this port.
    pub fn event_frame(&self, msg: EventMessage) -> (f: FinalizedBuffer)
        ensures
            exists|b: MessageBuffer| #[trigger] self.frames(b) && f.spec_bytes() == event_wire(msg, b),
    {
        let buf = self.message_buffer();
        let f = msg.to_wire(&buf);
        assert(self.frames(buf));
        f
    }

    /// The datagram of a general message of this port.
    pub fn general_frame(&self, msg: GeneralMessage) -> (f: FinalizedBuffer)
        ensures
            exists|b: MessageBuffer| #[trigger] self.frames(b) && f.spec_bytes() == general_wire(msg, b),
    {
        let buf = self.message_buffer();
        let f = msg.to_wire(&buf);
        assert(self.frames(buf));
        f
    }
}

impl<'a, C: SynchronizableClock, V: Servo, PP: PhysicalPort, T: TimerHost, TS: TxTimestamping, L: PortLog> Port for DomainPort<
    'a,
    C,
    V,
    PP,
    T,
    TS,
    L,
> {
    type Clock = C;

    type Servo = V;

    type Timeout = T::Timeout;

    /// The clock this port was assembled with.
    open spec fn local_clock_is(&self, l: LocalClock<C, V>) -> bool {
        l == *self.local_clock
    }

    /// The message is framed with this port's identity and domain and handed to the event
    /// channel of the physical port, whose outcome is passed on.
    open spec fn event_sent(&self, msg: EventMessage, r: SendResult) -> bool {
        exists|b: MessageBuffer| #[trigger] self.frames(b) && self.physical_port.event_sent(event_wire(msg, b), r)
    }

    /// The message is framed with this port's identity and domain and handed to the general
    /// channel of the physical port, whose outcome is passed on.
    open spec fn general_sent(&self, msg: GeneralMessage, r: SendResult) -> bool {
        exists|b: MessageBuffer| #[trigger] self.frames(b) && self.physical_port.general_sent(general_wire(msg, b), r)
    }

    /// A handle of the timer host for `msg`.
    open spec fn timeout_for(&self, msg: SystemMessage, t: T::Timeout) -> bool {
        self.timer_host.timeout_for(msg, t)
    }

    fn local_clock(&self) -> (l: &LocalClock<C, V>)
        ensures
            *l == *self.local_clock,
    {
        self.local_clock
    }

    fn send_event(&self, msg: EventMessage) -> SendResult {
        let finalized = self.event_frame(msg);
        let res = self.physical_port.send_event(finalized.as_ref());
        if res.is_ok() {
            self.timestamping.stamp_egress(msg);
        }
        res
    }

    fn send_general(&self, msg: GeneralMessage) -> SendResult {
        let finalized = self.general_frame(msg);
        self.physical_port.send_general(finalized.as_ref())
    }

    fn timeout(&self, msg: SystemMessage) -> T::Timeout {
        self.timer_host.timeout(msg)
    }

    fn log(&self, event: PortEvent) {
        self.log.port_event(self.port_identity(), event);
    }
}

} // verus!
