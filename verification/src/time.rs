//! Time and interval types.
//!
//! - [`TimeStamp`]: a PTP timestamp (48-bit seconds and nanoseconds), modeled as the number of
//!   nanoseconds since the epoch of its time scale.
//! - [`TimeInterval`]: a signed difference of timestamps, in nanoseconds.
//! - [`Instant`]: a local monotonic point in time (nanoseconds), used for time-window logic.
//! - [`Duration`]: a non-negative span of local monotonic time (nanoseconds).
//! - [`LogInterval`] / [`LogMessageInterval`]: log2-encoded message intervals as used on the wire.
use vstd::prelude::*;

use crate::bytes::{
    be_bytes, be_value, lemma_be_bytes_len, lemma_be_bytes_of_value, lemma_be_value_of_bytes, pow256,
    u32_from_be, u32_to_be, u48_from_be, u48_to_be,
};
use crate::result::{Error, ProtocolError, Result};

verus! {

/// Nanoseconds in one second.
pub const NANOS_PER_SEC: u64 = 1_000_000_000;

/// Largest seconds value of a PTP timestamp (the seconds field is 48 bits wide on the wire).
pub const MAX_TIMESTAMP_SECONDS: u64 = 0xFFFF_FFFF_FFFF;

/// `2^n`.
pub open spec fn pow2(n: nat) -> nat
    decreases n,
{
    if n == 0 {
        1
    } else {
        2 * pow2((n - 1) as nat)
    }
}

/// Largest nanosecond count representable by a [`TimeStamp`].
pub open spec fn max_timestamp_nanos() -> int {
    MAX_TIMESTAMP_SECONDS as int * NANOS_PER_SEC as int + (NANOS_PER_SEC as int - 1)
}

/// Smallest nanosecond count representable by a [`TimeInterval`] (the negated largest one).
pub open spec fn min_interval_nanos() -> int {
    -max_interval_nanos()
}

/// Largest nanosecond count representable by a [`TimeInterval`].
pub open spec fn max_interval_nanos() -> int {
    i64::MAX as int * NANOS_PER_SEC as int + (NANOS_PER_SEC as int - 1)
}

/// A PTP timestamp: seconds since the epoch of the time scale plus nanoseconds.
#[derive(Clone, Copy, Debug, PartialEq, Eq, PartialOrd, Ord, Structural)]
pub struct TimeStamp {
    seconds: u64,
    nanos: u32,
}

impl View for TimeStamp {
    type V = int;

    /// Nanoseconds since the epoch.
    closed spec fn view(&self) -> int {
        self.seconds as int * NANOS_PER_SEC as int + self.nanos as int
    }
}

impl TimeStamp {
    #[verifier::type_invariant]
    closed spec fn inv(self) -> bool {
        &&& self.seconds <= MAX_TIMESTAMP_SECONDS
        &&& self.nanos < NANOS_PER_SEC
    }

    /// The parts are within range (48-bit seconds, nanoseconds below one second). Every
    /// timestamp built by this module satisfies it.
    pub closed spec fn wf(self) -> bool {
        self.inv()
    }

    /// Seconds part.
    pub closed spec fn spec_seconds(self) -> u64 {
        self.seconds
    }

    /// Nanoseconds part.
    pub closed spec fn spec_nanos(self) -> u32 {
        self.nanos
    }

    /// The view in terms of the two parts.
    pub proof fn lemma_view(self)
        ensures
            self@ == self.spec_seconds() as int * NANOS_PER_SEC as int + self.spec_nanos() as int,
    {
    }

    /// Create a timestamp from its seconds and nanoseconds parts.
    pub fn new(seconds: u64, nanos: u32) -> (ts: TimeStamp)
        requires
            seconds <= MAX_TIMESTAMP_SECONDS,
            nanos < NANOS_PER_SEC,
        ensures
            ts.spec_seconds() == seconds,
            ts.spec_nanos() == nanos,
            ts.wf(),
            ts@ == seconds as int * NANOS_PER_SEC as int + nanos as int,
    {
        TimeStamp { seconds, nanos }
    }

    /// Build a timestamp from a nanosecond count.
    pub fn from_total_nanos(total: i128) -> (ts: TimeStamp)
        requires
            0 <= total <= max_timestamp_nanos(),
        ensures
            ts@ == total,
    {
        let seconds = total / (NANOS_PER_SEC as i128);
        let nanos = total % (NANOS_PER_SEC as i128);
        proof {
            vstd::arithmetic::div_mod::lemma_fundamental_div_mod(total as int, NANOS_PER_SEC as int);
        }
        assert(seconds <= MAX_TIMESTAMP_SECONDS);
        TimeStamp { seconds: seconds as u64, nanos: nanos as u32 }
    }

    /// The seconds part.
    pub fn seconds(&self) -> (s: u64)
        ensures
            s == self.spec_seconds(),
            self.wf(),
    {
        proof {
            use_type_invariant(self);
        }
        self.seconds
    }

    /// The nanoseconds part.
    pub fn nanos(&self) -> (n: u32)
        ensures
            n == self.spec_nanos(),
    {
        self.nanos
    }

    /// Nanoseconds since the epoch.
    pub fn total_nanos(&self) -> (n: i128)
        ensures
            n == self@,
            0 <= n <= max_timestamp_nanos(),
    {
        proof {
            use_type_invariant(self);
            let s = self.seconds as int;
            assert(0 <= s * NANOS_PER_SEC as int <= MAX_TIMESTAMP_SECONDS as int * NANOS_PER_SEC as int)
                by (nonlinear_arith)
                requires
                    0 <= s <= MAX_TIMESTAMP_SECONDS as int,
            ;
        }
        self.seconds as i128 * (NANOS_PER_SEC as i128) + self.nanos as i128
    }

    /// The signed interval from `earlier` to `self` (`self - earlier`).
    pub fn minus(&self, earlier: &TimeStamp) -> (iv: TimeInterval)
        ensures
            iv@ == self@ - earlier@,
            -max_timestamp_nanos() <= iv@ <= max_timestamp_nanos(),
    {
        let a = self.total_nanos();
        let b = earlier.total_nanos();
        TimeInterval::from_total_nanos(a - b)
    }

    /// `self - interval`, or `None` when the result is not a representable timestamp.
    pub fn checked_sub(&self, interval: TimeInterval) -> (r: Option<TimeStamp>)
        ensures
            r matches Some(ts) ==> ts@ == self@ - interval@,
            r is None <==> !(0 <= self@ - interval@ <= max_timestamp_nanos()),
    {
        let a = self.total_nanos();
        let b = interval.total_nanos();
        let d = a - b;
        if d < 0 || d > MAX_TIMESTAMP_SECONDS as i128 * (NANOS_PER_SEC as i128) + (NANOS_PER_SEC
            - 1) as i128 {
            None
        } else {
            Some(TimeStamp::from_total_nanos(d))
        }
    }

    /// `self + interval`, or `None` when the result is not a representable timestamp.
    pub fn checked_add(&self, interval: TimeInterval) -> (r: Option<TimeStamp>)
        ensures
            r matches Some(ts) ==> ts@ == self@ + interval@,
            r is None <==> !(0 <= self@ + interval@ <= max_timestamp_nanos()),
    {
        let a = self.total_nanos();
        let b = interval.total_nanos();
        let d = a + b;
        if d < 0 || d > MAX_TIMESTAMP_SECONDS as i128 * (NANOS_PER_SEC as i128) + (NANOS_PER_SEC
            - 1) as i128 {
            None
        } else {
            Some(TimeStamp::from_total_nanos(d))
        }
    }
}

/// The seconds field of a wire timestamp (first 6 bytes, big-endian).
pub open spec fn wire_timestamp_seconds(b: Seq<u8>) -> nat {
    be_value(b.subrange(0, 6))
}

/// The nanoseconds field of a wire timestamp (last 4 bytes, big-endian).
pub open spec fn wire_timestamp_nanos(b: Seq<u8>) -> nat {
    be_value(b.subrange(6, 10))
}

/// The outcome of decoding 10 wire bytes as a timestamp.
pub open spec fn timestamp_result(b: Seq<u8>) -> Result<TimeStamp> {
    if wire_timestamp_nanos(b) < NANOS_PER_SEC {
        Ok(TimeStamp::spec_from_wire(b))
    } else {
        Err(Error::Protocol(ProtocolError::InvalidTimestamp { nanos: wire_timestamp_nanos(b) as u32 }))
    }
}

impl TimeStamp {
    /// The timestamp denoted by 10 wire bytes.
    pub closed spec fn spec_from_wire(b: Seq<u8>) -> TimeStamp {
        TimeStamp { seconds: wire_timestamp_seconds(b) as u64, nanos: wire_timestamp_nanos(b) as u32 }
    }

    /// Encoding a timestamp and decoding the bytes gives it back.
    pub proof fn lemma_wire_roundtrip(self)
        requires
            self.wf(),
        ensures
            self.spec_wire().len() == 10,
            timestamp_result(self.spec_wire()) == Ok::<TimeStamp, Error>(self),
    {
        lemma_be_bytes_len(self.seconds as nat, 6);
        lemma_be_bytes_len(self.nanos as nat, 4);
        let a = self.spec_wire();
        assert(a.subrange(0, 6) =~= be_bytes(self.seconds as nat, 6));
        assert(a.subrange(6, 10) =~= be_bytes(self.nanos as nat, 4));
        reveal_with_fuel(pow256, 7);
        lemma_be_value_of_bytes(self.seconds as nat, 6);
        lemma_be_value_of_bytes(self.nanos as nat, 4);
    }

    /// The 10-byte wire representation: 48-bit seconds then 32-bit nanoseconds, big-endian.
    pub closed spec fn spec_wire(self) -> Seq<u8> {
        be_bytes(self.seconds as nat, 6) + be_bytes(self.nanos as nat, 4)
    }

    /// The wire representation has the documented layout.
    pub proof fn lemma_wire_layout(self)
        ensures
            self.spec_wire().len() == 10,
            self.spec_wire() =~= be_bytes(self.spec_seconds() as nat, 6) + be_bytes(
                self.spec_nanos() as nat,
                4,
            ),
    {
        lemma_be_bytes_len(self.seconds as nat, 6);
        lemma_be_bytes_len(self.nanos as nat, 4);
    }

    /// Two timestamps with the same wire representation are equal.
    pub proof fn lemma_wire_injective(self, other: TimeStamp)
        requires
            self.wf(),
            other.wf(),
            self.spec_wire() =~= other.spec_wire(),
        ensures
            self == other,
    {
        lemma_be_bytes_len(self.seconds as nat, 6);
        lemma_be_bytes_len(self.nanos as nat, 4);
        lemma_be_bytes_len(other.seconds as nat, 6);
        lemma_be_bytes_len(other.nanos as nat, 4);
        let a = self.spec_wire();
        let b = other.spec_wire();
        assert(a.subrange(0, 6) =~= be_bytes(self.seconds as nat, 6));
        assert(b.subrange(0, 6) =~= be_bytes(other.seconds as nat, 6));
        assert(a.subrange(6, 10) =~= be_bytes(self.nanos as nat, 4));
        assert(b.subrange(6, 10) =~= be_bytes(other.nanos as nat, 4));
        reveal_with_fuel(pow256, 7);
        lemma_be_value_of_bytes(self.seconds as nat, 6);
        lemma_be_value_of_bytes(other.seconds as nat, 6);
        lemma_be_value_of_bytes(self.nanos as nat, 4);
        lemma_be_value_of_bytes(other.nanos as nat, 4);
    }

    /// Encode the timestamp for the wire.
    pub fn to_wire(&self) -> (b: [u8; 10])
        ensures
            b@ =~= self.spec_wire(),
    {
        let s = u48_to_be(self.seconds);
        let n = u32_to_be(self.nanos);
        proof {
            lemma_be_bytes_len(self.seconds as nat, 6);
            lemma_be_bytes_len(self.nanos as nat, 4);
        }
        [s[0], s[1], s[2], s[3], s[4], s[5], n[0], n[1], n[2], n[3]]
    }

    /// Decode a wire timestamp; the nanoseconds field must be below one second.
    pub fn from_wire(b: &[u8; 10]) -> (r: Result<TimeStamp>)
        ensures
            r is Ok <==> wire_timestamp_nanos(b@) < NANOS_PER_SEC,
            r matches Ok(ts) ==> ts.spec_wire() =~= b@ && ts.wf(),
            r matches Ok(ts) ==> ts.spec_seconds() == wire_timestamp_seconds(b@)
                && ts.spec_nanos() == wire_timestamp_nanos(b@),
            r matches Err(e) ==> e == Error::Protocol(
                ProtocolError::InvalidTimestamp { nanos: wire_timestamp_nanos(b@) as u32 },
            ),
            r == timestamp_result(b@),
    {
        let sb: [u8; 6] = [b[0], b[1], b[2], b[3], b[4], b[5]];
        let nb: [u8; 4] = [b[6], b[7], b[8], b[9]];
        assert(sb@ =~= b@.subrange(0, 6));
        assert(nb@ =~= b@.subrange(6, 10));
        let seconds = u48_from_be(sb);
        let nanos = u32_from_be(nb);
        if nanos >= NANOS_PER_SEC as u32 {
            return Err(Error::Protocol(ProtocolError::InvalidTimestamp { nanos }));
        }
        proof {
            reveal_with_fuel(pow256, 7);
            lemma_be_bytes_of_value(sb@);
            lemma_be_bytes_of_value(nb@);
            assert(b@ =~= sb@ + nb@);
        }
        Ok(TimeStamp { seconds, nanos })
    }
}

/// A signed time interval with nanosecond resolution.
#[derive(Clone, Copy, Debug, PartialEq, Eq, PartialOrd, Ord, Structural)]
pub struct TimeInterval {
    nanos: i128,
}

impl View for TimeInterval {
    type V = int;

    /// The interval in nanoseconds.
    closed spec fn view(&self) -> int {
        self.nanos as int
    }
}

impl TimeInterval {
    #[verifier::type_invariant]
    closed spec fn inv(self) -> bool {
        min_interval_nanos() <= self.nanos <= max_interval_nanos()
    }

    /// Create an interval of `seconds` seconds plus `nanos` nanoseconds.
    pub fn new(seconds: i64, nanos: u32) -> (iv: TimeInterval)
        requires
            nanos < NANOS_PER_SEC,
            seconds > i64::MIN,
        ensures
            iv@ == seconds as int * NANOS_PER_SEC as int + nanos as int,
    {
        proof {
            let s = seconds as int;
            assert(-(i64::MAX as int) * NANOS_PER_SEC as int <= s * NANOS_PER_SEC as int <= i64::MAX as int * NANOS_PER_SEC as int)
                by (nonlinear_arith)
                requires
                    -(i64::MAX as int) <= s <= i64::MAX as int,
            ;
        }
        TimeInterval { nanos: seconds as i128 * (NANOS_PER_SEC as i128) + nanos as i128 }
    }

    /// The zero interval.
    pub fn zero() -> (iv: TimeInterval)
        ensures
            iv@ == 0,
    {
        TimeInterval { nanos: 0 }
    }

    /// Build an interval from a nanosecond count.
    pub fn from_total_nanos(nanos: i128) -> (iv: TimeInterval)
        requires
            min_interval_nanos() <= nanos <= max_interval_nanos(),
        ensures
            iv@ == nanos,
    {
        TimeInterval { nanos }
    }

    /// The interval in nanoseconds.
    pub fn total_nanos(&self) -> (n: i128)
        ensures
            n == self@,
            min_interval_nanos() <= n <= max_interval_nanos(),
    {
        proof {
            use_type_invariant(self);
        }
        self.nanos
    }

    /// Whole seconds, rounded toward negative infinity.
    pub fn seconds(&self) -> (s: i64)
        ensures
            s == self@ / NANOS_PER_SEC as int,
    {
        proof {
            use_type_invariant(self);
        }
        let n = self.nanos;
        let s = if n >= 0 {
            n / (NANOS_PER_SEC as i128)
        } else {
            -((-n + (NANOS_PER_SEC as i128 - 1)) / (NANOS_PER_SEC as i128))
        };
        proof {
            vstd::arithmetic::div_mod::lemma_fundamental_div_mod(n as int, NANOS_PER_SEC as int);
            if n < 0 {
                vstd::arithmetic::div_mod::lemma_fundamental_div_mod(
                    (-n + (NANOS_PER_SEC - 1)) as int,
                    NANOS_PER_SEC as int,
                );
            }
        }
        s as i64
    }

    /// Sub-second nanoseconds, in `[0, 1_000_000_000)`.
    pub fn subsec_nanos(&self) -> (n: u32)
        ensures
            n == self@ % NANOS_PER_SEC as int,
    {
        proof {
            use_type_invariant(self);
        }
        let n = self.nanos;
        let q: i128 = NANOS_PER_SEC as i128;
        let r = if n >= 0 {
            n % q
        } else {
            let m = (-n) % q;
            if m == 0 {
                0
            } else {
                q - m
            }
        };
        proof {
            vstd::arithmetic::div_mod::lemma_fundamental_div_mod(n as int, q as int);
            if n < 0 {
                vstd::arithmetic::div_mod::lemma_fundamental_div_mod((-n) as int, q as int);
                let m = (-n) as int % q as int;
                let k = (-n) as int / q as int;
                if m == 0 {
                    vstd::arithmetic::div_mod::lemma_fundamental_div_mod_converse_mod(
                        n as int,
                        q as int,
                        -k,
                        0,
                    );
                } else {
                    vstd::arithmetic::div_mod::lemma_fundamental_div_mod_converse_mod(
                        n as int,
                        q as int,
                        -k - 1,
                        q - m,
                    );
                }
            }
        }
        r as u32
    }

    /// `self - other`.
    pub fn minus(&self, other: &TimeInterval) -> (iv: TimeInterval)
        requires
            min_interval_nanos() <= self@ - other@ <= max_interval_nanos(),
        ensures
            iv@ == self@ - other@,
    {
        proof {
            use_type_invariant(self);
            use_type_invariant(other);
        }
        TimeInterval { nanos: self.nanos - other.nanos }
    }

    /// Half of the interval, rounded toward negative infinity.
    pub fn half(&self) -> (iv: TimeInterval)
        ensures
            iv@ == self@ / 2,
    {
        proof {
            use_type_invariant(self);
        }
        let n = self.nanos;
        let h = if n >= 0 {
            n / 2
        } else {
            -((-n + 1) / 2)
        };
        TimeInterval { nanos: h }
    }

    /// Absolute value.
    pub fn abs(&self) -> (iv: TimeInterval)
        ensures
            iv@ == if self@ < 0 {
                -self@
            } else {
                self@
            },
    {
        proof {
            use_type_invariant(self);
        }
        if self.nanos < 0 {
            TimeInterval { nanos: -self.nanos }
        } else {
            *self
        }
    }

    /// `self < other`.
    pub fn is_less_than(&self, other: &TimeInterval) -> (b: bool)
        ensures
            b == (self@ < other@),
    {
        self.nanos < other.nanos
    }

    /// `self <= other`.
    pub fn is_at_most(&self, other: &TimeInterval) -> (b: bool)
        ensures
            b == (self@ <= other@),
    {
        self.nanos <= other.nanos
    }
}

/// A local monotonic point in time, in nanoseconds since an arbitrary origin.
#[derive(Clone, Copy, Debug, PartialEq, Eq, PartialOrd, Ord, Structural)]
pub struct Instant {
    nanos: u64,
}

impl View for Instant {
    type V = nat;

    closed spec fn view(&self) -> nat {
        self.nanos as nat
    }
}

impl Instant {
    /// Instants are equal exactly when their views are.
    pub proof fn lemma_view_injective(self, other: Instant)
        ensures
            (self@ == other@) == (self == other),
    {
    }

    /// The origin.
    pub fn zero() -> (i: Instant)
        ensures
            i@ == 0,
    {
        Instant { nanos: 0 }
    }

    /// The instant `nanos` nanoseconds after the origin.
    pub fn from_nanos(nanos: u64) -> (i: Instant)
        ensures
            i@ == nanos,
    {
        Instant { nanos }
    }

    /// The instant `micros` microseconds after the origin.
    pub fn from_micros(micros: u64) -> (i: Instant)
        requires
            micros * 1000 <= u64::MAX,
        ensures
            i@ == micros * 1000,
    {
        Instant { nanos: micros * 1000 }
    }

    /// The instant `secs` seconds after the origin.
    pub fn from_secs(secs: u64) -> (i: Instant)
        requires
            secs * NANOS_PER_SEC <= u64::MAX,
        ensures
            i@ == secs * NANOS_PER_SEC,
    {
        Instant { nanos: secs * NANOS_PER_SEC }
    }

    /// Nanoseconds since the origin.
    pub fn as_nanos(&self) -> (n: u64)
        ensures
            n == self@,
    {
        self.nanos
    }

    /// The duration from `earlier` to `self`, or `None` if `earlier` is later than `self`.
    pub fn checked_sub(&self, earlier: Instant) -> (d: Option<Duration>)
        ensures
            d matches Some(d) ==> d@ == self@ - earlier@,
            d is None <==> self@ < earlier@,
    {
        if self.nanos >= earlier.nanos {
            Some(Duration { nanos: self.nanos - earlier.nanos })
        } else {
            None
        }
    }

    /// `self + d`, or `None` on overflow.
    pub fn checked_add(&self, d: Duration) -> (i: Option<Instant>)
        ensures
            i matches Some(i) ==> i@ == self@ + d@,
            i is None <==> self@ + d@ > u64::MAX,
    {
        match self.nanos.checked_add(d.nanos) {
            Some(n) => Some(Instant { nanos: n }),
            None => None,
        }
    }
}

/// A non-negative span of local monotonic time, in nanoseconds.
#[derive(Clone, Copy, Debug, PartialEq, Eq, PartialOrd, Ord, Structural)]
pub struct Duration {
    nanos: u64,
}

impl View for Duration {
    type V = nat;

    closed spec fn view(&self) -> nat {
        self.nanos as nat
    }
}

impl Duration {
    /// Durations are equal exactly when their views are.
    pub proof fn lemma_view_injective(self, other: Duration)
        ensures
            (self@ == other@) == (self == other),
    {
    }

    /// The zero duration.
    pub fn zero() -> (d: Duration)
        ensures
            d@ == 0,
    {
        Duration { nanos: 0 }
    }

    /// A duration of `nanos` nanoseconds.
    pub fn from_nanos(nanos: u64) -> (d: Duration)
        ensures
            d@ == nanos,
    {
        Duration { nanos }
    }

    /// A duration of `millis` milliseconds.
    pub fn from_millis(millis: u64) -> (d: Duration)
        requires
            millis * 1_000_000 <= u64::MAX,
        ensures
            d@ == millis * 1_000_000,
    {
        Duration { nanos: millis * 1_000_000 }
    }

    /// A duration of `secs` seconds.
    pub fn from_secs(secs: u64) -> (d: Duration)
        requires
            secs * NANOS_PER_SEC <= u64::MAX,
        ensures
            d@ == secs * NANOS_PER_SEC,
    {
        Duration { nanos: secs * NANOS_PER_SEC }
    }

    /// The duration in nanoseconds.
    pub fn as_nanos(&self) -> (n: u64)
        ensures
            n == self@,
    {
        self.nanos
    }

    /// `self * n`, saturating at the largest representable duration.
    pub fn saturating_mul(&self, n: u64) -> (d: Duration)
        ensures
            d@ == if self@ * n > u64::MAX {
                u64::MAX as int
            } else {
                self@ * n
            },
    {
        match self.nanos.checked_mul(n) {
            Some(v) => Duration { nanos: v },
            None => Duration { nanos: u64::MAX },
        }
    }

    /// `self <= other`.
    pub fn is_at_most(&self, other: &Duration) -> (b: bool)
        ensures
            b == (self@ <= other@),
    {
        self.nanos <= other.nanos
    }
}

/// `2^n` seconds in nanoseconds for `n >= 0` (saturating at `u64::MAX`), and `1s / 2^-n`
/// (rounded down) for negative `n`.
pub open spec fn log_interval_nanos(n: int) -> int {
    if n >= 0 {
        let v = pow2(n as nat) * NANOS_PER_SEC as int;
        if v > u64::MAX {
            u64::MAX as int
        } else {
            v
        }
    } else {
        NANOS_PER_SEC as int / (pow2((-n) as nat) as int)
    }
}

proof fn lemma_pow2_positive(n: nat)
    ensures
        pow2(n) >= 1,
    decreases n,
{
    if n > 0 {
        lemma_pow2_positive((n - 1) as nat);
    }
}

/// A log2-encoded interval: `2^n` seconds.
#[derive(Clone, Copy, Debug, PartialEq, Eq, PartialOrd, Ord, Structural)]
pub struct LogInterval {
    log: i8,
}

impl LogInterval {
    /// Create a log interval of `2^log` seconds.
    pub fn new(log: i8) -> (li: LogInterval)
        ensures
            li.spec_log() == log,
    {
        LogInterval { log }
    }

    /// The log2 exponent.
    pub closed spec fn spec_log(self) -> i8 {
        self.log
    }

    /// The log2 exponent.
    pub fn log(&self) -> (l: i8)
        ensures
            l == self.spec_log(),
    {
        self.log
    }

    /// The interval as a [`Duration`].
    pub fn duration(&self) -> (d: Duration)
        ensures
            d@ == log_interval_nanos(self.spec_log() as int),
    {
        if self.log >= 0 {
            let mut d: u64 = NANOS_PER_SEC;
            let mut i: i8 = 0;
            while i < self.log
                invariant
                    0 <= i <= self.log,
                    d == log_interval_nanos(i as int),
                decreases self.log - i,
            {
                proof {
                    reveal_with_fuel(pow2, 2);
                }
                d = if d > u64::MAX / 2 {
                    u64::MAX
                } else {
                    d * 2
                };
                i = i + 1;
            }
            Duration { nanos: d }
        } else {
            let neg: u8 = (0 - (self.log as i16)) as u8;
            let mut d: u64 = NANOS_PER_SEC;
            assert(pow2(0) == 1);
            assert(NANOS_PER_SEC as int / 1int == NANOS_PER_SEC);
            let mut i: u8 = 0;
            while i < neg
                invariant
                    0 <= i <= neg,
                    neg == -self.log,
                    d == NANOS_PER_SEC as int / (pow2(i as nat) as int),
                decreases neg - i,
            {
                proof {
                    reveal_with_fuel(pow2, 2);
                    lemma_pow2_positive(i as nat);
                    vstd::arithmetic::div_mod::lemma_div_denominator(
                        NANOS_PER_SEC as int,
                        pow2(i as nat) as int,
                        2,
                    );
                    assert(pow2((i + 1) as nat) == pow2(i as nat) * 2);
                }
                d = d / 2;
                i = i + 1;
            }
            Duration { nanos: d }
        }
    }

    /// The same interval in its message-header encoding.
    pub fn log_message_interval(&self) -> (l: LogMessageInterval)
        ensures
            l.spec_raw() == self.spec_log(),
            l == LogMessageInterval::spec_new(self.spec_log()),
    {
        LogMessageInterval { raw: self.log }
    }
}

/// The `logMessageInterval` header field; `0x7F` means "unspecified".
#[derive(Clone, Copy, Debug, PartialEq, Eq, Structural)]
pub struct LogMessageInterval {
    raw: i8,
}

impl LogMessageInterval {
    /// Create from the raw (signed) field value.
    pub fn new(raw: i8) -> (l: LogMessageInterval)
        ensures
            l.spec_raw() == raw,
    {
        LogMessageInterval { raw }
    }

    /// The raw field value.
    pub closed spec fn spec_raw(self) -> i8 {
        self.raw
    }

    /// The interval with raw value `raw`.
    pub closed spec fn spec_new(raw: i8) -> LogMessageInterval {
        LogMessageInterval { raw }
    }

    /// [`LogMessageInterval::spec_new`] keeps the raw value, and every interval is built by it.
    pub proof fn lemma_spec_new(raw: i8, l: LogMessageInterval)
        ensures
            Self::spec_new(raw).spec_raw() == raw,
            Self::spec_new(l.spec_raw()) == l,
    {
    }

    /// Intervals are equal exactly when their raw values are; the wire byte gives the raw value
    /// back.
    pub proof fn lemma_raw(self, other: LogMessageInterval)
        ensures
            (self.spec_raw() == other.spec_raw()) == (self == other),
            (self.spec_raw() as u8) as i8 == self.spec_raw(),
    {
        let r = self.raw;
        assert((r as u8) as i8 == r) by (bit_vector);
    }

    /// The "unspecified" interval (`0x7F`).
    pub fn unspecified() -> (l: LogMessageInterval)
        ensures
            l.spec_raw() == 0x7F,
            l == Self::spec_new(0x7F),
    {
        LogMessageInterval { raw: 0x7F }
    }

    /// The raw field value.
    pub fn as_i8(&self) -> (v: i8)
        ensures
            v == self.spec_raw(),
    {
        self.raw
    }

    /// The field as the byte written on the wire (two's complement).
    pub fn as_u8(&self) -> (v: u8)
        ensures
            v == self.spec_raw() as u8,
    {
        self.raw as u8
    }

    /// Decode the field from its wire byte.
    pub fn from_u8(byte: u8) -> (l: LogMessageInterval)
        ensures
            l == Self::spec_new(byte as i8),
            l.spec_raw() == byte as i8,
            l.spec_raw() as u8 == byte,
    {
        let raw = byte as i8;
        assert(raw as u8 == byte) by (bit_vector)
            requires
                raw == byte as i8,
        ;
        LogMessageInterval { raw }
    }

    /// The interval as a [`LogInterval`], or `None` when unspecified.
    pub fn log_interval(&self) -> (li: Option<LogInterval>)
        ensures
            li is None <==> self.spec_raw() == 0x7F,
            li matches Some(li) ==> li.spec_log() == self.spec_raw(),
    {
        if self.raw == 0x7F {
            None
        } else {
            Some(LogInterval { log: self.raw })
        }
    }
}

} // verus!
