//! Clock identity and quality attributes, and the local clock boundary.
use vstd::prelude::*;

use core::cmp::Ordering;

use crate::bytes::{
    be_bytes, be_value, lemma_be_bytes_len, lemma_be_bytes_of_value, lemma_be_value_order_is_lex,
    lex_lt, u16_from_be, u16_to_be, pow256, u64_from_be, u64_to_be,
};
use crate::servo::{Servo, ServoSample, ServoState};
use crate::time::TimeStamp;

verus! {

/// The order of two natural numbers.
pub open spec fn nat_order(a: nat, b: nat) -> Ordering {
    if a < b {
        Ordering::Less
    } else if a == b {
        Ordering::Equal
    } else {
        Ordering::Greater
    }
}

/// An 8-byte clock identity (EUI-64 style).
#[derive(Clone, Copy, Debug, PartialEq, Eq, Ord, Hash, Structural)]
pub struct ClockIdentity {
    id: u64,
}

impl ClockIdentity {
    /// The identity as an unsigned number (its bytes read big-endian). Ordering identities by
    /// this number is the lexicographic ordering of their bytes.
    pub closed spec fn spec_value(self) -> nat {
        self.id as nat
    }

    /// The identity bytes.
    pub closed spec fn spec_bytes(self) -> Seq<u8> {
        be_bytes(self.id as nat, 8)
    }

    /// The bytes and the number determine each other.
    pub proof fn lemma_bytes(self)
        ensures
            self.spec_bytes().len() == 8,
            be_value(self.spec_bytes()) == self.spec_value(),
            self.spec_value() < pow256(8),
    {
        lemma_be_bytes_len(self.id as nat, 8);
        reveal_with_fuel(crate::bytes::pow256, 9);
        crate::bytes::lemma_be_value_of_bytes(self.id as nat, 8);
    }

    /// The identity with the given number (truncated to 64 bits).
    pub closed spec fn spec_from_value(v: nat) -> ClockIdentity {
        ClockIdentity { id: v as u64 }
    }

    /// [`ClockIdentity::spec_from_value`] keeps numbers that fit in 64 bits.
    pub proof fn lemma_from_value(v: nat)
        requires
            v < pow256(8),
        ensures
            Self::spec_from_value(v).spec_value() == v,
            Self::spec_from_value(v).spec_bytes() == be_bytes(v, 8),
    {
        reveal_with_fuel(pow256, 9);
    }

    /// Two identities are equal exactly when their numbers are.
    pub proof fn lemma_value_injective(self, other: ClockIdentity)
        ensures
            (self.spec_value() == other.spec_value()) == (self == other),
    {
    }

    /// Create an identity from its bytes.
    pub fn new(id: &[u8; 8]) -> (c: ClockIdentity)
        ensures
            c.spec_bytes() =~= id@,
            c.spec_value() == be_value(id@),
    {
        let v = u64_from_be(*id);
        proof {
            lemma_be_bytes_of_value(id@);
        }
        ClockIdentity { id: v }
    }

    /// Create an identity from its big-endian number.
    pub fn from_u64(id: u64) -> (c: ClockIdentity)
        ensures
            c.spec_value() == id,
    {
        ClockIdentity { id }
    }

    /// The identity bytes.
    pub fn as_bytes(&self) -> (b: [u8; 8])
        ensures
            b@ =~= self.spec_bytes(),
    {
        u64_to_be(self.id)
    }

    /// Lexicographic "strictly less" on the identity bytes.
    pub fn is_less_than(&self, other: &ClockIdentity) -> (b: bool)
        ensures
            b == (self.spec_value() < other.spec_value()),
            b == lex_lt(self.spec_bytes(), other.spec_bytes()),
    {
        proof {
            lemma_identity_order(*self, *other);
        }
        self.id < other.id
    }
}

/// Identities are ordered by their bytes, lexicographically, which is the order of their
/// numbers (and the order `<` compares by); equal bytes are equal identities.
pub proof fn lemma_identity_order(a: ClockIdentity, b: ClockIdentity)
    ensures
        (a.spec_value() < b.spec_value()) == lex_lt(a.spec_bytes(), b.spec_bytes()),
        (a.spec_bytes() == b.spec_bytes()) == (a == b),
{
    a.lemma_bytes();
    b.lemma_bytes();
    lemma_be_value_order_is_lex(a.spec_bytes(), b.spec_bytes());
    a.lemma_value_injective(b);
}

/// Identities are ordered by their numbers, that is by their bytes, lexicographically.
impl PartialOrd for ClockIdentity {
    fn partial_cmp(&self, other: &ClockIdentity) -> (r: Option<Ordering>) {
        if self.id < other.id {
            Some(Ordering::Less)
        } else if self.id == other.id {
            Some(Ordering::Equal)
        } else {
            Some(Ordering::Greater)
        }
    }
}

impl vstd::std_specs::cmp::PartialOrdSpecImpl for ClockIdentity {
    open spec fn obeys_partial_cmp_spec() -> bool {
        true
    }

    open spec fn partial_cmp_spec(&self, other: &ClockIdentity) -> Option<Ordering> {
        Some(nat_order(self.spec_value(), other.spec_value()))
    }
}

/// Time scale of a clock: PTP (TAI-based) or arbitrary.
#[derive(Clone, Copy, Debug, PartialEq, Eq, Structural)]
pub enum TimeScale {
    Ptp,
    Arb,
}

/// What time scale a clock class demands.
#[derive(Clone, Copy, Debug, PartialEq, Eq, Structural)]
pub enum TimeScalePolicy {
    Mandatory(TimeScale),
    Any,
}

/// `clockQuality.clockClass` as defined in IEEE 1588-2019 §7.6.2.5.
#[derive(Clone, Copy, Debug, PartialEq, Eq, Structural)]
pub enum ClockClass {
    Reserved(u8),
    PrimaryReference,
    PrimaryHoldover,
    ApplicationSpecific,
    ApplicationHoldover,
    PrimaryHoldoverDegradedA,
    ApplicationHoldoverDegradedA,
    PrimaryHoldoverDegradedB,
    ApplicationHoldoverDegradedB,
    Default,
    V1Compatibility,
    SlaveOnly,
    AlternateProfile(u8),
}

/// The clock class that a raw value decodes to.
pub open spec fn clock_class_of(value: u8) -> ClockClass {
    if value == 6 {
        ClockClass::PrimaryReference
    } else if value == 7 {
        ClockClass::PrimaryHoldover
    } else if value == 13 {
        ClockClass::ApplicationSpecific
    } else if value == 14 {
        ClockClass::ApplicationHoldover
    } else if value == 52 {
        ClockClass::PrimaryHoldoverDegradedA
    } else if value == 58 {
        ClockClass::ApplicationHoldoverDegradedA
    } else if (68 <= value <= 122) || (133 <= value <= 170) || (216 <= value <= 232) {
        ClockClass::AlternateProfile(value)
    } else if value == 187 {
        ClockClass::PrimaryHoldoverDegradedB
    } else if value == 193 {
        ClockClass::ApplicationHoldoverDegradedB
    } else if value == 248 {
        ClockClass::Default
    } else if value == 251 {
        ClockClass::V1Compatibility
    } else if value == 255 {
        ClockClass::SlaveOnly
    } else {
        ClockClass::Reserved(value)
    }
}

/// The raw value of a clock class.
pub open spec fn clock_class_value(c: ClockClass) -> u8 {
    match c {
        ClockClass::Reserved(v) => v,
        ClockClass::AlternateProfile(v) => v,
        ClockClass::PrimaryReference => 6,
        ClockClass::PrimaryHoldover => 7,
        ClockClass::ApplicationSpecific => 13,
        ClockClass::ApplicationHoldover => 14,
        ClockClass::PrimaryHoldoverDegradedA => 52,
        ClockClass::ApplicationHoldoverDegradedA => 58,
        ClockClass::PrimaryHoldoverDegradedB => 187,
        ClockClass::ApplicationHoldoverDegradedB => 193,
        ClockClass::Default => 248,
        ClockClass::V1Compatibility => 251,
        ClockClass::SlaveOnly => 255,
    }
}

/// Decoding a raw clock class and reading its value gives the raw value back.
pub proof fn lemma_clock_class_value_roundtrip(value: u8)
    ensures
        clock_class_value(clock_class_of(value)) == value,
{
}

/// A clock class is canonical when decoding its value yields it again (e.g. `Reserved(6)` is
/// not: the value 6 decodes to `PrimaryReference`).
pub open spec fn clock_class_canonical(c: ClockClass) -> bool {
    clock_class_of(clock_class_value(c)) == c
}

impl ClockClass {
    /// Decode a raw clock class value.
    pub fn new(value: u8) -> (c: ClockClass)
        ensures
            c == clock_class_of(value),
    {
        if value == 6 {
            ClockClass::PrimaryReference
        } else if value == 7 {
            ClockClass::PrimaryHoldover
        } else if value == 13 {
            ClockClass::ApplicationSpecific
        } else if value == 14 {
            ClockClass::ApplicationHoldover
        } else if value == 52 {
            ClockClass::PrimaryHoldoverDegradedA
        } else if value == 58 {
            ClockClass::ApplicationHoldoverDegradedA
        } else if (68 <= value && value <= 122) || (133 <= value && value <= 170) || (216 <= value
            && value <= 232) {
            ClockClass::AlternateProfile(value)
        } else if value == 187 {
            ClockClass::PrimaryHoldoverDegradedB
        } else if value == 193 {
            ClockClass::ApplicationHoldoverDegradedB
        } else if value == 248 {
            ClockClass::Default
        } else if value == 251 {
            ClockClass::V1Compatibility
        } else if value == 255 {
            ClockClass::SlaveOnly
        } else {
            ClockClass::Reserved(value)
        }
    }

    /// The raw clock class value.
    pub fn as_u8(&self) -> (v: u8)
        ensures
            v == clock_class_value(*self),
    {
        match self {
            ClockClass::Reserved(v) => *v,
            ClockClass::AlternateProfile(v) => *v,
            ClockClass::PrimaryReference => 6,
            ClockClass::PrimaryHoldover => 7,
            ClockClass::ApplicationSpecific => 13,
            ClockClass::ApplicationHoldover => 14,
            ClockClass::PrimaryHoldoverDegradedA => 52,
            ClockClass::ApplicationHoldoverDegradedA => 58,
            ClockClass::PrimaryHoldoverDegradedB => 187,
            ClockClass::ApplicationHoldoverDegradedB => 193,
            ClockClass::Default => 248,
            ClockClass::V1Compatibility => 251,
            ClockClass::SlaveOnly => 255,
        }
    }

    /// The time scale that this clock class mandates, if any.
    pub fn time_scale_policy(&self) -> (p: TimeScalePolicy)
        ensures
            p == (match *self {
                ClockClass::PrimaryReference | ClockClass::PrimaryHoldover
                | ClockClass::PrimaryHoldoverDegradedA
                | ClockClass::PrimaryHoldoverDegradedB => TimeScalePolicy::Mandatory(
                    TimeScale::Ptp,
                ),
                ClockClass::ApplicationSpecific | ClockClass::ApplicationHoldover
                | ClockClass::ApplicationHoldoverDegradedA
                | ClockClass::ApplicationHoldoverDegradedB => TimeScalePolicy::Mandatory(
                    TimeScale::Arb,
                ),
                _ => TimeScalePolicy::Any,
            }),
    {
        match self {
            ClockClass::PrimaryReference | ClockClass::PrimaryHoldover
            | ClockClass::PrimaryHoldoverDegradedA
            | ClockClass::PrimaryHoldoverDegradedB => TimeScalePolicy::Mandatory(TimeScale::Ptp),
            ClockClass::ApplicationSpecific | ClockClass::ApplicationHoldover
            | ClockClass::ApplicationHoldoverDegradedA
            | ClockClass::ApplicationHoldoverDegradedB => TimeScalePolicy::Mandatory(TimeScale::Arb),
            ClockClass::Default | ClockClass::V1Compatibility | ClockClass::SlaveOnly
            | ClockClass::Reserved(_) | ClockClass::AlternateProfile(_) => TimeScalePolicy::Any,
        }
    }

    /// A clock class is grandmaster capable (authoritative) when its value is 1 to 127.
    pub fn is_grandmaster_capable(&self) -> (b: bool)
        ensures
            b == (1 <= clock_class_value(*self) <= 127),
    {
        let v = self.as_u8();
        1 <= v && v <= 127
    }
}

/// `clockQuality.clockAccuracy` as defined in IEEE 1588-2019 §7.6.2.6.
#[derive(Clone, Copy, Debug, PartialEq, Eq, Structural)]
pub enum ClockAccuracy {
    Reserved(u8),
    Within25ns,
    Within100ns,
    Within250ns,
    Within1us,
    Within2_5us,
    Within10us,
    Within25us,
    Within100us,
    Within250us,
    Within1ms,
    Within2_5ms,
    Within10ms,
    Within25ms,
    Within100ms,
    Within250ms,
    Within1s,
    Within10s,
    GreaterThan10s,
    AlternateProfile(u8),
    Unknown,
}

/// The clock accuracy that a raw value decodes to.
pub open spec fn clock_accuracy_of(value: u8) -> ClockAccuracy {
    if value <= 0x1F {
        ClockAccuracy::Reserved(value)
    } else if value == 0x20 {
        ClockAccuracy::Within25ns
    } else if value == 0x21 {
        ClockAccuracy::Within100ns
    } else if value == 0x22 {
        ClockAccuracy::Within250ns
    } else if value == 0x23 {
        ClockAccuracy::Within1us
    } else if value == 0x24 {
        ClockAccuracy::Within2_5us
    } else if value == 0x25 {
        ClockAccuracy::Within10us
    } else if value == 0x26 {
        ClockAccuracy::Within25us
    } else if value == 0x27 {
        ClockAccuracy::Within100us
    } else if value == 0x28 {
        ClockAccuracy::Within250us
    } else if value == 0x29 {
        ClockAccuracy::Within1ms
    } else if value == 0x2A {
        ClockAccuracy::Within2_5ms
    } else if value == 0x2B {
        ClockAccuracy::Within10ms
    } else if value == 0x2C {
        ClockAccuracy::Within25ms
    } else if value == 0x2D {
        ClockAccuracy::Within100ms
    } else if value == 0x2E {
        ClockAccuracy::Within250ms
    } else if value == 0x2F {
        ClockAccuracy::Within1s
    } else if value == 0x30 {
        ClockAccuracy::Within10s
    } else if value == 0x31 {
        ClockAccuracy::GreaterThan10s
    } else if value <= 0x7F {
        ClockAccuracy::Reserved(value)
    } else if value <= 0xFD {
        ClockAccuracy::AlternateProfile(value)
    } else if value == 0xFE {
        ClockAccuracy::Unknown
    } else {
        ClockAccuracy::Reserved(value)
    }
}

/// The raw value of a clock accuracy.
pub open spec fn clock_accuracy_value(a: ClockAccuracy) -> u8 {
    match a {
        ClockAccuracy::Reserved(v) => v,
        ClockAccuracy::AlternateProfile(v) => v,
        ClockAccuracy::Within25ns => 0x20,
        ClockAccuracy::Within100ns => 0x21,
        ClockAccuracy::Within250ns => 0x22,
        ClockAccuracy::Within1us => 0x23,
        ClockAccuracy::Within2_5us => 0x24,
        ClockAccuracy::Within10us => 0x25,
        ClockAccuracy::Within25us => 0x26,
        ClockAccuracy::Within100us => 0x27,
        ClockAccuracy::Within250us => 0x28,
        ClockAccuracy::Within1ms => 0x29,
        ClockAccuracy::Within2_5ms => 0x2A,
        ClockAccuracy::Within10ms => 0x2B,
        ClockAccuracy::Within25ms => 0x2C,
        ClockAccuracy::Within100ms => 0x2D,
        ClockAccuracy::Within250ms => 0x2E,
        ClockAccuracy::Within1s => 0x2F,
        ClockAccuracy::Within10s => 0x30,
        ClockAccuracy::GreaterThan10s => 0x31,
        ClockAccuracy::Unknown => 0xFE,
    }
}

/// Decoding a raw clock accuracy and reading its value gives the raw value back.
pub proof fn lemma_clock_accuracy_value_roundtrip(value: u8)
    ensures
        clock_accuracy_value(clock_accuracy_of(value)) == value,
{
}

/// A clock accuracy is canonical when decoding its value yields it again.
pub open spec fn clock_accuracy_canonical(a: ClockAccuracy) -> bool {
    clock_accuracy_of(clock_accuracy_value(a)) == a
}

impl ClockAccuracy {
    /// Decode a raw clock accuracy value.
    pub fn new(value: u8) -> (a: ClockAccuracy)
        ensures
            a == clock_accuracy_of(value),
    {
        if value <= 0x1F {
            ClockAccuracy::Reserved(value)
        } else if value == 0x20 {
            ClockAccuracy::Within25ns
        } else if value == 0x21 {
            ClockAccuracy::Within100ns
        } else if value == 0x22 {
            ClockAccuracy::Within250ns
        } else if value == 0x23 {
            ClockAccuracy::Within1us
        } else if value == 0x24 {
            ClockAccuracy::Within2_5us
        } else if value == 0x25 {
            ClockAccuracy::Within10us
        } else if value == 0x26 {
            ClockAccuracy::Within25us
        } else if value == 0x27 {
            ClockAccuracy::Within100us
        } else if value == 0x28 {
            ClockAccuracy::Within250us
        } else if value == 0x29 {
            ClockAccuracy::Within1ms
        } else if value == 0x2A {
            ClockAccuracy::Within2_5ms
        } else if value == 0x2B {
            ClockAccuracy::Within10ms
        } else if value == 0x2C {
            ClockAccuracy::Within25ms
        } else if value == 0x2D {
            ClockAccuracy::Within100ms
        } else if value == 0x2E {
            ClockAccuracy::Within250ms
        } else if value == 0x2F {
            ClockAccuracy::Within1s
        } else if value == 0x30 {
            ClockAccuracy::Within10s
        } else if value == 0x31 {
            ClockAccuracy::GreaterThan10s
        } else if value <= 0x7F {
            ClockAccuracy::Reserved(value)
        } else if value <= 0xFD {
            ClockAccuracy::AlternateProfile(value)
        } else if value == 0xFE {
            ClockAccuracy::Unknown
        } else {
            ClockAccuracy::Reserved(value)
        }
    }

    /// The raw clock accuracy value.
    pub fn as_u8(&self) -> (v: u8)
        ensures
            v == clock_accuracy_value(*self),
    {
        match self {
            ClockAccuracy::Reserved(v) => *v,
            ClockAccuracy::AlternateProfile(v) => *v,
            ClockAccuracy::Within25ns => 0x20,
            ClockAccuracy::Within100ns => 0x21,
            ClockAccuracy::Within250ns => 0x22,
            ClockAccuracy::Within1us => 0x23,
            ClockAccuracy::Within2_5us => 0x24,
            ClockAccuracy::Within10us => 0x25,
            ClockAccuracy::Within25us => 0x26,
            ClockAccuracy::Within100us => 0x27,
            ClockAccuracy::Within250us => 0x28,
            ClockAccuracy::Within1ms => 0x29,
            ClockAccuracy::Within2_5ms => 0x2A,
            ClockAccuracy::Within10ms => 0x2B,
            ClockAccuracy::Within25ms => 0x2C,
            ClockAccuracy::Within100ms => 0x2D,
            ClockAccuracy::Within250ms => 0x2E,
            ClockAccuracy::Within1s => 0x2F,
            ClockAccuracy::Within10s => 0x30,
            ClockAccuracy::GreaterThan10s => 0x31,
            ClockAccuracy::Unknown => 0xFE,
        }
    }
}

/// `clockQuality`: class, accuracy and `offsetScaledLogVariance`.
#[derive(Clone, Copy, Debug, PartialEq, Eq, Structural)]
pub struct ClockQuality {
    pub clock_class: ClockClass,
    pub clock_accuracy: ClockAccuracy,
    pub offset_scaled_log_variance: u16,
}

/// The comparison key of a clock quality: class, accuracy, variance (lower is better).
pub open spec fn quality_lt(a: ClockQuality, b: ClockQuality) -> bool {
    let (ca, cb) = (clock_class_value(a.clock_class), clock_class_value(b.clock_class));
    let (aa, ab) = (clock_accuracy_value(a.clock_accuracy), clock_accuracy_value(b.clock_accuracy));
    ||| ca < cb
    ||| ca == cb && aa < ab
    ||| ca == cb && aa == ab && a.offset_scaled_log_variance < b.offset_scaled_log_variance
}

/// The comparison keys of two clock qualities are equal.
pub open spec fn quality_key_eq(a: ClockQuality, b: ClockQuality) -> bool {
    &&& clock_class_value(a.clock_class) == clock_class_value(b.clock_class)
    &&& clock_accuracy_value(a.clock_accuracy) == clock_accuracy_value(b.clock_accuracy)
    &&& a.offset_scaled_log_variance == b.offset_scaled_log_variance
}

/// The 4-byte wire form of a clock quality.
pub open spec fn quality_wire(q: ClockQuality) -> Seq<u8> {
    seq![clock_class_value(q.clock_class), clock_accuracy_value(q.clock_accuracy)] + be_bytes(
        q.offset_scaled_log_variance as nat,
        2,
    )
}

/// The clock quality denoted by 4 wire bytes.
pub open spec fn quality_of_wire(b: Seq<u8>) -> ClockQuality {
    ClockQuality {
        clock_class: clock_class_of(b[0]),
        clock_accuracy: clock_accuracy_of(b[1]),
        offset_scaled_log_variance: be_value(b.subrange(2, 4)) as u16,
    }
}

/// Both enumerations of a clock quality are canonical.
pub open spec fn quality_canonical(q: ClockQuality) -> bool {
    clock_class_canonical(q.clock_class) && clock_accuracy_canonical(q.clock_accuracy)
}

/// Decoding then encoding wire bytes of a clock quality gives the bytes back.
pub proof fn lemma_quality_bytes_roundtrip(b: Seq<u8>)
    requires
        b.len() == 4,
    ensures
        quality_wire(quality_of_wire(b)) =~= b,
{
    lemma_be_bytes_of_value(b.subrange(2, 4));
    assert(be_value(b.subrange(2, 4)) < 65536) by {
        reveal_with_fuel(crate::bytes::pow256, 3);
    }
    lemma_clock_class_value_roundtrip(b[0]);
    lemma_clock_accuracy_value_roundtrip(b[1]);
    lemma_be_bytes_len(be_value(b.subrange(2, 4)), 2);
    let w = quality_wire(quality_of_wire(b));
    assert(w.subrange(2, 4) =~= b.subrange(2, 4));
    assert forall|i: int| 0 <= i < 4 implies w[i] == b[i] by {
        if i >= 2 {
            assert(w[i] == w.subrange(2, 4)[i - 2]);
            assert(b[i] == b.subrange(2, 4)[i - 2]);
        }
    }
}

/// Encoding then decoding a canonical clock quality gives it back.
pub proof fn lemma_quality_value_roundtrip(q: ClockQuality)
    requires
        quality_canonical(q),
    ensures
        quality_wire(q).len() == 4,
        quality_of_wire(quality_wire(q)) == q,
{
    lemma_be_bytes_len(q.offset_scaled_log_variance as nat, 2);
    let w = quality_wire(q);
    assert(w.subrange(2, 4) =~= be_bytes(q.offset_scaled_log_variance as nat, 2));
    reveal_with_fuel(crate::bytes::pow256, 3);
    crate::bytes::lemma_be_value_of_bytes(q.offset_scaled_log_variance as nat, 2);
}

/// Clock qualities rank lexicographically, lower values better: a lower class wins whatever the
/// accuracy and variance; with equal classes a lower accuracy wins whatever the variance; with
/// equal class and accuracy the lower variance wins. The ranking is a strict order.
pub proof fn lemma_quality_order(a: ClockQuality, b: ClockQuality, c: ClockQuality)
    ensures
        clock_class_value(a.clock_class) < clock_class_value(b.clock_class) ==> quality_lt(a, b),
        clock_class_value(a.clock_class) > clock_class_value(b.clock_class) ==> !quality_lt(a, b),
        clock_class_value(a.clock_class) == clock_class_value(b.clock_class) && clock_accuracy_value(
            a.clock_accuracy,
        ) < clock_accuracy_value(b.clock_accuracy) ==> quality_lt(a, b),
        clock_class_value(a.clock_class) == clock_class_value(b.clock_class) && clock_accuracy_value(
            a.clock_accuracy,
        ) > clock_accuracy_value(b.clock_accuracy) ==> !quality_lt(a, b),
        clock_class_value(a.clock_class) == clock_class_value(b.clock_class) && clock_accuracy_value(
            a.clock_accuracy,
        ) == clock_accuracy_value(b.clock_accuracy) ==> (quality_lt(a, b) == (a.offset_scaled_log_variance
            < b.offset_scaled_log_variance)),
        !quality_lt(a, a),
        quality_lt(a, b) ==> !quality_lt(b, a),
        quality_lt(a, b) && quality_lt(b, c) ==> quality_lt(a, c),
{
}

/// The 4-byte wire form of a clock quality: byte 0 is the class value, byte 1 the accuracy value,
/// bytes 2 and 3 the variance, most significant byte first; decoding reads the same positions.
pub proof fn lemma_quality_wire_layout(q: ClockQuality, b: Seq<u8>)
    requires
        b.len() == 4,
    ensures
        quality_wire(q).len() == 4,
        quality_wire(q)[0] == clock_class_value(q.clock_class),
        quality_wire(q)[1] == clock_accuracy_value(q.clock_accuracy),
        quality_wire(q)[2] * 256 + quality_wire(q)[3] == q.offset_scaled_log_variance,
        clock_class_value(quality_of_wire(b).clock_class) == b[0],
        clock_accuracy_value(quality_of_wire(b).clock_accuracy) == b[1],
        quality_of_wire(b).offset_scaled_log_variance == b[2] * 256 + b[3],
{
    reveal_with_fuel(be_bytes, 3);
    reveal_with_fuel(be_value, 3);
    let v = q.offset_scaled_log_variance as nat;
    let w = quality_wire(q);
    let t = be_bytes(v, 2);
    assert(t.len() == 2);
    assert(w[2] == t[0] && w[3] == t[1]);
    assert(t[1] == (v % 256) as u8);
    assert(t[0] == ((v / 256) % 256) as u8);
    assert(v < 65536);
    assert((v / 256) % 256 == v / 256) by (nonlinear_arith)
        requires
            v < 65536,
    ;
    assert(v == (v / 256) * 256 + v % 256) by (nonlinear_arith);
    lemma_clock_class_value_roundtrip(b[0]);
    lemma_clock_accuracy_value_roundtrip(b[1]);
    let r = b.subrange(2, 4);
    assert(r.drop_last().drop_last() =~= Seq::<u8>::empty());
    assert(r[0] == b[2] && r[1] == b[3]);
    assert(r.drop_last()[0] == b[2]);
    assert(be_value(r) == b[2] * 256 + b[3]);
}

impl ClockQuality {
    /// Create a clock quality.
    pub fn new(
        clock_class: ClockClass,
        clock_accuracy: ClockAccuracy,
        offset_scaled_log_variance: u16,
    ) -> (q: ClockQuality)
        ensures
            q.clock_class == clock_class,
            q.clock_accuracy == clock_accuracy,
            q.offset_scaled_log_variance == offset_scaled_log_variance,
    {
        ClockQuality { clock_class, clock_accuracy, offset_scaled_log_variance }
    }

    /// A clock is grandmaster capable (authoritative) when its class value is 1 to 127.
    pub fn is_grandmaster_capable(&self) -> (b: bool)
        ensures
            b == (1 <= clock_class_value(self.clock_class) <= 127),
    {
        self.clock_class.is_grandmaster_capable()
    }

    /// Decode a clock quality from its 4-byte wire form.
    pub fn from_wire(buf: &[u8; 4]) -> (q: ClockQuality)
        ensures
            q == quality_of_wire(buf@),
    {
        let v = u16_from_be([buf[2], buf[3]]);
        assert(seq![buf[2], buf[3]] =~= buf@.subrange(2, 4));
        ClockQuality {
            clock_class: ClockClass::new(buf[0]),
            clock_accuracy: ClockAccuracy::new(buf[1]),
            offset_scaled_log_variance: v,
        }
    }

    /// Encode the clock quality into its 4-byte wire form.
    pub fn to_wire(&self) -> (b: [u8; 4])
        ensures
            b@ =~= quality_wire(*self),
    {
        let v = u16_to_be(self.offset_scaled_log_variance);
        proof {
            lemma_be_bytes_len(self.offset_scaled_log_variance as nat, 2);
        }
        [self.clock_class.as_u8(), self.clock_accuracy.as_u8(), v[0], v[1]]
    }

    /// `self` is strictly better (lower) than `other`.
    pub fn is_better_than(&self, other: &ClockQuality) -> (b: bool)
        ensures
            b == quality_lt(*self, *other),
    {
        let ca = self.clock_class.as_u8();
        let cb = other.clock_class.as_u8();
        let aa = self.clock_accuracy.as_u8();
        let ab = other.clock_accuracy.as_u8();
        ca < cb || (ca == cb && aa < ab) || (ca == cb && aa == ab
            && self.offset_scaled_log_variance < other.offset_scaled_log_variance)
    }

    /// The comparison keys are equal.
    pub fn same_key_as(&self, other: &ClockQuality) -> (b: bool)
        ensures
            b == quality_key_eq(*self, *other),
    {
        self.clock_class.as_u8() == other.clock_class.as_u8() && self.clock_accuracy.as_u8()
            == other.clock_accuracy.as_u8() && self.offset_scaled_log_variance
            == other.offset_scaled_log_variance
    }
}

/// `stepsRemoved`: the number of communication paths to the grandmaster.
#[derive(Clone, Copy, Debug, PartialEq, Eq, Ord, Structural)]
pub struct StepsRemoved(pub u16);

/// The order of two raw steps-removed values.
pub open spec fn steps_order(a: u16, b: u16) -> Ordering {
    if a < b {
        Ordering::Less
    } else if a == b {
        Ordering::Equal
    } else {
        Ordering::Greater
    }
}

/// Steps-removed values are ordered by their raw values.
impl PartialOrd for StepsRemoved {
    fn partial_cmp(&self, other: &StepsRemoved) -> (r: Option<Ordering>) {
        if self.0 < other.0 {
            Some(Ordering::Less)
        } else if self.0 == other.0 {
            Some(Ordering::Equal)
        } else {
            Some(Ordering::Greater)
        }
    }
}

impl vstd::std_specs::cmp::PartialOrdSpecImpl for StepsRemoved {
    open spec fn obeys_partial_cmp_spec() -> bool {
        true
    }

    open spec fn partial_cmp_spec(&self, other: &StepsRemoved) -> Option<Ordering> {
        Some(steps_order(self.0, other.0))
    }
}

impl StepsRemoved {
    /// Create a steps-removed value.
    pub fn new(steps_removed: u16) -> (s: StepsRemoved)
        ensures
            s.0 == steps_removed,
    {
        StepsRemoved(steps_removed)
    }

    /// The raw value.
    pub fn as_u16(&self) -> (v: u16)
        ensures
            v == self.0,
    {
        self.0
    }

    /// The raw value, big-endian.
    pub fn to_be_bytes(&self) -> (b: [u8; 2])
        ensures
            b@ =~= be_bytes(self.0 as nat, 2),
    {
        u16_to_be(self.0)
    }
}

/// A clock that can be read.
///
/// Implemented by infrastructure (system clocks, virtual clocks, hardware clocks).
pub trait Clock {
    /// `t` is a reading this clock gives. An implementation may state which readings it gives;
    /// by default any reading is possible.
    open spec fn reads(&self, t: TimeStamp) -> bool {
        true
    }

    /// `s` is the time scale this clock reports. By default any time scale is possible.
    open spec fn runs_on(&self, s: TimeScale) -> bool {
        true
    }

    /// The current time.
    fn now(&self) -> (t: TimeStamp)
        ensures
            self.reads(t),
    ;

    /// The time scale this clock runs on.
    fn time_scale(&self) -> (s: TimeScale)
        ensures
            self.runs_on(s),
    ;
}

/// A clock that can be stepped to a given time.
///
/// Rate adjustment (a floating point factor) is left to infrastructure.
pub trait SynchronizableClock: Clock {
    /// The clock was discontinuously set to `to`. An implementation may state what that means
    /// (for instance for later readings); by default nothing is known of it.
    open spec fn stepped_to(&self, to: TimeStamp) -> bool {
        true
    }

    /// Discontinuously set the clock to `to`.
    fn step(&self, to: TimeStamp)
        ensures
            self.stepped_to(to),
    ;
}

/// The local clock of a node: the clock itself, its identity, and the servo that disciplines it.
pub struct LocalClock<C: SynchronizableClock, V: Servo> {
    pub clock: C,
    pub identity: ClockIdentity,
    pub servo: V,
}

impl<C: SynchronizableClock, V: Servo> LocalClock<C, V> {
    /// Assemble a local clock.
    pub fn new(clock: C, identity: ClockIdentity, servo: V) -> (l: LocalClock<C, V>)
        ensures
            l.clock == clock,
            l.identity == identity,
            l.servo == servo,
    {
        LocalClock { clock, identity, servo }
    }

    /// The clock identity.
    pub fn identity(&self) -> (id: &ClockIdentity)
        ensures
            *id == self.identity,
    {
        &self.identity
    }

    /// The current time of the clock.
    pub fn now(&self) -> (t: TimeStamp)
        ensures
            self.clock.reads(t),
    {
        self.clock.now()
    }

    /// The time scale the clock runs on.
    pub fn time_scale(&self) -> (s: TimeScale)
        ensures
            self.clock.runs_on(s),
    {
        self.clock.time_scale()
    }

    /// Feed an offset sample to the servo, which acts on the clock.
    pub fn discipline(&self, sample: ServoSample) -> (s: ServoState)
        ensures
            self.servo.responds(sample, s),
    {
        self.servo.feed(&self.clock, sample)
    }
}

} // verus!
