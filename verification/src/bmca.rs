//! Best Master Clock Algorithm (BMCA) and related data sets.
//!
//! This module implements the parts of the IEEE 1588-2019 best-master selection that the port
//! state machine needs:
//!
//! - tracking and qualifying foreign master candidates learned from Announce messages,
//! - comparing local and foreign clock data sets ([`ClockDS`]) and producing high-level
//!   decisions ([`BmcaDecision`]),
//! - gating decision emission while tracking an already-selected parent or grandmaster.
use vstd::prelude::*;

use crate::bytes::{be_bytes, be_value, lemma_be_bytes_len, lemma_be_bytes_of_value, lemma_be_value_of_bytes, pow256};
use crate::clock::{
    clock_accuracy_value, clock_class_value, lemma_quality_bytes_roundtrip,
    lemma_quality_value_roundtrip, quality_canonical, quality_key_eq, quality_lt, quality_of_wire,
    quality_wire, ClockIdentity, ClockQuality, StepsRemoved,
};
use crate::port::{ParentPortIdentity, PortIdentity, PortNumber};
use crate::records::{
    first_from, foreign_master_window_nanos, is_best_qualified, keep_fresh, no_qualified,
    remembered, ForeignClockRecord, ForeignClockRecords,
};
use crate::portstate::StateDecision;
pub use crate::priority::{Priority1, Priority2};
use crate::time::{log_interval_nanos, Duration, Instant, LogInterval, LogMessageInterval};

verus! {

/// Data set describing a grandmaster candidate, as carried in Announce messages and used by the
/// BMCA when comparing local and foreign clocks.
#[derive(Clone, Copy, Debug, PartialEq, Eq, Structural)]
pub struct ClockDS {
    pub identity: ClockIdentity,
    pub priority1: Priority1,
    pub priority2: Priority2,
    pub quality: ClockQuality,
    pub steps_removed: StepsRemoved,
}

/// The comparison tuple of data sets of different clocks: priority1, clock quality, priority2,
/// then identity; lower is better.
pub open spec fn ds_key_lt(a: ClockDS, b: ClockDS) -> bool {
    ||| a.priority1.0 < b.priority1.0
    ||| a.priority1.0 == b.priority1.0 && quality_lt(a.quality, b.quality)
    ||| a.priority1.0 == b.priority1.0 && quality_key_eq(a.quality, b.quality) && a.priority2.0
        < b.priority2.0
    ||| a.priority1.0 == b.priority1.0 && quality_key_eq(a.quality, b.quality) && a.priority2.0
        == b.priority2.0 && a.identity.spec_value() < b.identity.spec_value()
}

/// `a` is strictly better than `b` by the BMCA data set comparison: data sets of the same clock
/// are ranked by `stepsRemoved`, others by their comparison tuple.
pub open spec fn ds_better(a: ClockDS, b: ClockDS) -> bool {
    if a.identity == b.identity {
        a.steps_removed.0 < b.steps_removed.0
    } else {
        ds_key_lt(a, b)
    }
}

/// Two data sets that name the same clock agree on its attributes (priorities and quality).
pub open spec fn ds_consistent(a: ClockDS, b: ClockDS) -> bool {
    a.identity == b.identity ==> (a.priority1 == b.priority1 && a.priority2 == b.priority2
        && quality_key_eq(a.quality, b.quality))
}

/// The full ranking of a data set: comparison tuple then `stepsRemoved`, lexicographically.
pub open spec fn ds_rank_lt(a: ClockDS, b: ClockDS) -> bool {
    ||| ds_key_lt(a, b)
    ||| a.priority1.0 == b.priority1.0 && quality_key_eq(a.quality, b.quality) && a.priority2.0
        == b.priority2.0 && a.identity == b.identity && a.steps_removed.0 < b.steps_removed.0
}

/// Identical ranking positions.
pub open spec fn ds_rank_eq(a: ClockDS, b: ClockDS) -> bool {
    a.priority1.0 == b.priority1.0 && quality_key_eq(a.quality, b.quality) && a.priority2.0
        == b.priority2.0 && a.identity == b.identity && a.steps_removed.0 == b.steps_removed.0
}

/// No data set is better than itself.
pub proof fn lemma_ds_better_irreflexive(a: ClockDS)
    ensures
        !ds_better(a, a),
{
}

/// If `a` is better than `b`, then `b` is not better than `a`.
pub proof fn lemma_ds_better_asymmetric(a: ClockDS, b: ClockDS)
    requires
        ds_better(a, b),
    ensures
        !ds_better(b, a),
{
    if a.identity != b.identity {
        a.identity.lemma_value_injective(b.identity);
    }
}

/// Data sets of different clocks are always ordered one way or the other.
pub proof fn lemma_ds_better_total(a: ClockDS, b: ClockDS)
    requires
        a.identity != b.identity,
    ensures
        ds_better(a, b) || ds_better(b, a),
{
    if a.identity.spec_value() == b.identity.spec_value() {
        a.identity.lemma_value_injective(b.identity);
    }
}

/// On consistent data sets, "better" is exactly the lexicographic ranking.
pub proof fn lemma_ds_better_is_rank(a: ClockDS, b: ClockDS)
    requires
        ds_consistent(a, b),
    ensures
        ds_better(a, b) == ds_rank_lt(a, b),
{
}

/// On pairwise consistent data sets, "better" is transitive.
pub proof fn lemma_ds_better_transitive(a: ClockDS, b: ClockDS, c: ClockDS)
    requires
        ds_consistent(a, b),
        ds_consistent(b, c),
        ds_consistent(a, c),
        ds_better(a, b),
        ds_better(b, c),
    ensures
        ds_better(a, c),
{
    lemma_ds_better_is_rank(a, b);
    lemma_ds_better_is_rank(b, c);
    lemma_ds_better_is_rank(a, c);
    if a.identity.spec_value() == c.identity.spec_value() {
        a.identity.lemma_value_injective(c.identity);
    }
    if a.identity.spec_value() == b.identity.spec_value() {
        a.identity.lemma_value_injective(b.identity);
    }
    if b.identity.spec_value() == c.identity.spec_value() {
        b.identity.lemma_value_injective(c.identity);
    }
}

/// The 16-byte wire form of a data set (the Announce comparison fields): priority1, clock
/// quality, priority2, grandmaster identity, stepsRemoved.
pub open spec fn ds_wire(ds: ClockDS) -> Seq<u8> {
    seq![ds.priority1.0] + quality_wire(ds.quality) + seq![ds.priority2.0]
        + ds.identity.spec_bytes() + be_bytes(ds.steps_removed.0 as nat, 2)
}

/// The data set denoted by 16 wire bytes.
pub open spec fn ds_of_wire(b: Seq<u8>) -> ClockDS {
    ClockDS {
        identity: ClockIdentity::spec_from_value(be_value(b.subrange(6, 14))),
        priority1: Priority1(b[0]),
        priority2: Priority2(b[5]),
        quality: quality_of_wire(b.subrange(1, 5)),
        steps_removed: StepsRemoved(be_value(b.subrange(14, 16)) as u16),
    }
}

/// The enumerated fields of a data set are canonical (see [`quality_canonical`]).
pub open spec fn ds_canonical(ds: ClockDS) -> bool {
    quality_canonical(ds.quality)
}

pub proof fn lemma_ds_wire_len(ds: ClockDS)
    ensures
        ds_wire(ds).len() == 16,
        ds_wire(ds).subrange(1, 5) =~= quality_wire(ds.quality),
        ds_wire(ds).subrange(6, 14) =~= ds.identity.spec_bytes(),
        ds_wire(ds).subrange(14, 16) =~= be_bytes(ds.steps_removed.0 as nat, 2),
{
    lemma_be_bytes_len(ds.quality.offset_scaled_log_variance as nat, 2);
    lemma_be_bytes_len(ds.steps_removed.0 as nat, 2);
    ds.identity.lemma_bytes();
}

/// Decoding then encoding the 16 wire bytes of a data set gives the bytes back.
pub proof fn lemma_ds_bytes_roundtrip(b: Seq<u8>)
    requires
        b.len() == 16,
    ensures
        ds_wire(ds_of_wire(b)) =~= b,
{
    let ds = ds_of_wire(b);
    lemma_quality_bytes_roundtrip(b.subrange(1, 5));
    lemma_be_bytes_of_value(b.subrange(6, 14));
    lemma_be_bytes_of_value(b.subrange(14, 16));
    reveal_with_fuel(pow256, 9);
    ClockIdentity::lemma_from_value(be_value(b.subrange(6, 14)));
    assert(b =~= seq![b[0]] + b.subrange(1, 5) + seq![b[5]] + b.subrange(6, 14) + b.subrange(
        14,
        16,
    ));
}

/// Encoding then decoding a canonical data set gives it back.
pub proof fn lemma_ds_value_roundtrip(ds: ClockDS)
    requires
        ds_canonical(ds),
    ensures
        ds_wire(ds).len() == 16,
        ds_of_wire(ds_wire(ds)) == ds,
{
    lemma_ds_wire_len(ds);
    lemma_quality_value_roundtrip(ds.quality);
    reveal_with_fuel(pow256, 9);
    lemma_be_value_of_bytes(ds.steps_removed.0 as nat, 2);
    ds.identity.lemma_bytes();
    ClockIdentity::lemma_from_value(be_value(ds.identity.spec_bytes()));
    ds.identity.lemma_value_injective(ClockIdentity::spec_from_value(be_value(ds.identity.spec_bytes())));
}

impl ClockDS {
    /// Create a data set.
    pub fn new(
        identity: ClockIdentity,
        priority1: Priority1,
        priority2: Priority2,
        quality: ClockQuality,
        steps_removed: StepsRemoved,
    ) -> (ds: ClockDS)
        ensures
            ds == (ClockDS { identity, priority1, priority2, quality, steps_removed }),
    {
        ClockDS { identity, priority1, priority2, quality, steps_removed }
    }

    /// The clock identity of this data set.
    pub fn identity(&self) -> (i: &ClockIdentity)
        ensures
            *i == self.identity,
    {
        &self.identity
    }

    /// `true` if this data set represents an authoritative clock (clock class 1 to 127).
    pub fn is_authoritative(&self) -> (b: bool)
        ensures
            b == (1 <= clock_class_value(self.quality.clock_class) <= 127),
    {
        self.quality.is_grandmaster_capable()
    }

    /// `true` if this data set is strictly better than `other` according to BMCA ranking rules.
    pub fn better_than(&self, other: &ClockDS) -> (b: bool)
        ensures
            b == ds_better(*self, *other),
    {
        if self.identity == other.identity {
            return self.steps_removed.0 < other.steps_removed.0;
        }
        if self.priority1.0 != other.priority1.0 {
            return self.priority1.0 < other.priority1.0;
        }
        if !self.quality.same_key_as(&other.quality) {
            return self.quality.is_better_than(&other.quality);
        }
        if self.priority2.0 != other.priority2.0 {
            return self.priority2.0 < other.priority2.0;
        }
        self.identity.is_less_than(&other.identity)
    }

    /// `true` if this data set is better than the given foreign dataset (always better than the
    /// empty dataset).
    pub fn better_than_foreign(&self, other: BestForeignDataset) -> (b: bool)
        ensures
            b == match other {
                BestForeignDataset::Qualified { ds, .. } => ds_better(*self, ds),
                BestForeignDataset::Empty => true,
            },
    {
        match other {
            BestForeignDataset::Qualified { ds: other_ds, .. } => self.better_than(&other_ds),
            BestForeignDataset::Empty => true,
        }
    }

    /// Parse a data set from its 16-byte wire form.
    pub fn from_wire(buf: &[u8; 16]) -> (ds: ClockDS)
        ensures
            ds == ds_of_wire(buf@),
    {
        let q: [u8; 4] = [buf[1], buf[2], buf[3], buf[4]];
        let id: [u8; 8] = [buf[6], buf[7], buf[8], buf[9], buf[10], buf[11], buf[12], buf[13]];
        let sr: [u8; 2] = [buf[14], buf[15]];
        assert(q@ =~= buf@.subrange(1, 5));
        assert(id@ =~= buf@.subrange(6, 14));
        assert(sr@ =~= buf@.subrange(14, 16));
        let identity = ClockIdentity::new(&id);
        proof {
            identity.lemma_bytes();
            ClockIdentity::lemma_from_value(be_value(id@));
            identity.lemma_value_injective(ClockIdentity::spec_from_value(be_value(id@)));
        }
        ClockDS {
            identity,
            priority1: Priority1(buf[0]),
            priority2: Priority2(buf[5]),
            quality: ClockQuality::from_wire(&q),
            steps_removed: StepsRemoved(crate::bytes::u16_from_be(sr)),
        }
    }

    /// Serialize this data set into its 16-byte wire form.
    pub fn to_wire(&self) -> (b: [u8; 16])
        ensures
            b@ =~= ds_wire(*self),
    {
        let q = self.quality.to_wire();
        let id = self.identity.as_bytes();
        let sr = self.steps_removed.to_be_bytes();
        proof {
            lemma_ds_wire_len(*self);
        }
        [
            self.priority1.0,
            q[0],
            q[1],
            q[2],
            q[3],
            self.priority2.0,
            id[0],
            id[1],
            id[2],
            id[3],
            id[4],
            id[5],
            id[6],
            id[7],
            sr[0],
            sr[1],
        ]
    }
}

/// The best foreign data set observed on a port (`E_best` / `E_rbest` in IEEE 1588-2019 §9.3),
/// or the empty data set.
#[derive(Clone, Copy, Debug, PartialEq, Eq, Structural)]
pub enum BestForeignDataset {
    Qualified { ds: ClockDS, source_port_identity: PortIdentity, received_on_port: PortNumber },
    Empty,
}

/// Snapshot of a best foreign data set, stored and shared across ports.
#[derive(Clone, Copy, Debug, PartialEq, Eq, Structural)]
pub enum BestForeignSnapshot {
    /// A qualified foreign candidate and the identity of the port that announced it.
    Qualified { ds: ClockDS, source_port_identity: PortIdentity, received_on_port: PortNumber },
    /// No qualified foreign candidate is currently known (the empty data set).
    Empty,
}

/// The snapshot of a data set view.
pub open spec fn snapshot_of(d: BestForeignDataset) -> BestForeignSnapshot {
    match d {
        BestForeignDataset::Qualified { ds, source_port_identity, received_on_port } =>
            BestForeignSnapshot::Qualified { ds, source_port_identity, received_on_port },
        BestForeignDataset::Empty => BestForeignSnapshot::Empty,
    }
}

/// The data set view of a snapshot.
pub open spec fn dataset_of(s: BestForeignSnapshot) -> BestForeignDataset {
    match s {
        BestForeignSnapshot::Qualified { ds, source_port_identity, received_on_port } =>
            BestForeignDataset::Qualified { ds, source_port_identity, received_on_port },
        BestForeignSnapshot::Empty => BestForeignDataset::Empty,
    }
}

/// `a` is better than `b` (a qualified set beats the empty one; two empty sets tie).
pub open spec fn foreign_better(a: BestForeignDataset, b: BestForeignDataset) -> bool {
    match (a, b) {
        (
            BestForeignDataset::Qualified { ds: d1, .. },
            BestForeignDataset::Qualified { ds: d2, .. },
        ) => ds_better(d1, d2),
        (BestForeignDataset::Qualified { .. }, BestForeignDataset::Empty) => true,
        _ => false,
    }
}

impl BestForeignDataset {
    /// The grandmaster identity of this data set, if non-empty.
    pub fn grandmaster_id(&self) -> (id: Option<ClockIdentity>)
        ensures
            id == match *self {
                BestForeignDataset::Qualified { ds, .. } => Some(ds.identity),
                BestForeignDataset::Empty => None::<ClockIdentity>,
            },
    {
        match self {
            BestForeignDataset::Qualified { ds, .. } => Some(ds.identity),
            BestForeignDataset::Empty => None,
        }
    }

    /// `true` if `self` is better than `other` according to BMCA data set comparison.
    pub fn better_than(&self, other: &BestForeignDataset) -> (b: bool)
        ensures
            b == foreign_better(*self, *other),
    {
        match (self, other) {
            (
                BestForeignDataset::Qualified { ds: ds1, .. },
                BestForeignDataset::Qualified { ds: ds2, .. },
            ) => ds1.better_than(ds2),
            (BestForeignDataset::Qualified { .. }, BestForeignDataset::Empty) => true,
            (BestForeignDataset::Empty, BestForeignDataset::Qualified { .. }) => false,
            (BestForeignDataset::Empty, BestForeignDataset::Empty) => false,
        }
    }

    /// The parent port identity, if this data set was received on `port`.
    pub fn parent_if_received_on_port(&self, port: PortNumber) -> (p: Option<
        crate::port::ParentPortIdentity,
    >)
        ensures
            p == match *self {
                BestForeignDataset::Qualified { source_port_identity, received_on_port, .. } => {
                    if received_on_port == port {
                        Some(
                            crate::port::ParentPortIdentity {
                                parent_port_identity: source_port_identity,
                            },
                        )
                    } else {
                        None
                    }
                },
                BestForeignDataset::Empty => None,
            },
    {
        match self {
            BestForeignDataset::Qualified { source_port_identity, received_on_port, .. } => {
                if *received_on_port == port {
                    Some(crate::port::ParentPortIdentity::new(*source_port_identity))
                } else {
                    None
                }
            },
            BestForeignDataset::Empty => None,
        }
    }

    /// A snapshot owning the data set.
    pub fn snapshot(&self) -> (s: BestForeignSnapshot)
        ensures
            s == snapshot_of(*self),
    {
        match self {
            BestForeignDataset::Qualified { ds, source_port_identity, received_on_port } =>
                BestForeignSnapshot::Qualified {
                ds: *ds,
                source_port_identity: *source_port_identity,
                received_on_port: *received_on_port,
            },
            BestForeignDataset::Empty => BestForeignSnapshot::Empty,
        }
    }
}

impl BestForeignSnapshot {
    /// The data set view of this snapshot.
    pub fn as_best_foreign_dataset(&self) -> (d: BestForeignDataset)
        ensures
            d == dataset_of(*self),
    {
        match self {
            BestForeignSnapshot::Qualified { ds, source_port_identity, received_on_port } =>
                BestForeignDataset::Qualified {
                ds: *ds,
                source_port_identity: *source_port_identity,
                received_on_port: *received_on_port,
            },
            BestForeignSnapshot::Empty => BestForeignDataset::Empty,
        }
    }
}

/// `d0` is better than the foreign data set (always better than the empty one).
pub open spec fn better_than_foreign(d0: ClockDS, other: BestForeignDataset) -> bool {
    match other {
        BestForeignDataset::Qualified { ds, .. } => ds_better(d0, ds),
        BestForeignDataset::Empty => true,
    }
}

/// The clock class of `ds` is 1 to 127 inclusive.
pub open spec fn is_authoritative(ds: ClockDS) -> bool {
    1 <= clock_class_value(ds.quality.clock_class) <= 127
}

/// Master decision points (IEEE 1588-2019 §9.3.1; §9.3.3, Fig. 33).
#[derive(Clone, Copy, Debug, PartialEq, Eq, Structural)]
pub enum BmcaMasterDecisionPoint {
    M1,
    M2,
    M3,
}

/// BMCA decision for entering a master / pre-master state: the decision point (which governs
/// qualification timing), the `stepsRemoved` to apply, and the selected grandmaster.
#[derive(Clone, Copy, Debug, PartialEq, Eq, Structural)]
pub struct BmcaMasterDecision {
    pub decision_point: BmcaMasterDecisionPoint,
    pub steps_removed: StepsRemoved,
    pub grandmaster_id: ClockIdentity,
}

impl BmcaMasterDecision {
    /// Create a master decision.
    pub fn new(
        decision_point: BmcaMasterDecisionPoint,
        steps_removed: StepsRemoved,
        grandmaster_id: ClockIdentity,
    ) -> (d: BmcaMasterDecision)
        ensures
            d == (BmcaMasterDecision { decision_point, steps_removed, grandmaster_id }),
    {
        BmcaMasterDecision { decision_point, steps_removed, grandmaster_id }
    }

    /// The selected grandmaster.
    pub fn grandmaster_id(&self) -> (id: ClockIdentity)
        ensures
            id == self.grandmaster_id,
    {
        self.grandmaster_id
    }

    /// The qualification timeout policy for entering pre-master state on this decision.
    pub fn qualification_timeout_policy(&self) -> (p: QualificationTimeoutPolicy)
        ensures
            p == (QualificationTimeoutPolicy {
                master_decision_point: self.decision_point,
                steps_removed: self.steps_removed,
            }),
    {
        QualificationTimeoutPolicy::new(self.decision_point, self.steps_removed)
    }
}

/// High-level BMCA outcome for a port (BMC_MASTER, BMC_SLAVE, BMC_PASSIVE in IEEE 1588-2019
/// §9.2.5; Fig. 30 & 31).
#[derive(Clone, Copy, Debug, PartialEq, Eq, Structural)]
pub enum BmcaDecision {
    /// The port should act as a master.
    Master(BmcaMasterDecision),
    /// The port should act as a slave of the given parent.
    Slave(ParentPortIdentity),
    /// The port should be passive.
    Passive,
}

impl BmcaDecision {
    /// The state decision carrying this recommendation.
    pub fn to_state_decision(self) -> (d: Option<StateDecision>)
        ensures
            d == crate::portstate::recommendation(Some(self)),
    {
        match self {
            BmcaDecision::Master(m) => Some(StateDecision::RecommendedMaster(m)),
            BmcaDecision::Slave(p) => Some(StateDecision::RecommendedSlave(p)),
            BmcaDecision::Passive => Some(StateDecision::RecommendedPassive),
        }
    }
}

/// The qualification timeout in nanoseconds: zero at M1 and M2; at M3,
/// `(stepsRemoved + 1)` announce intervals, saturating.
pub open spec fn qualification_timeout_nanos(
    point: BmcaMasterDecisionPoint,
    steps_removed: u16,
    log_announce_interval: int,
) -> int {
    match point {
        BmcaMasterDecisionPoint::M3 => {
            let v = log_interval_nanos(log_announce_interval) * (steps_removed + 1);
            if v > u64::MAX {
                u64::MAX as int
            } else {
                v
            }
        },
        _ => 0,
    }
}

/// Policy for the master qualification timeout used when entering pre-master state
/// (IEEE 1588-2019 §9.2.6.11).
#[derive(Clone, Copy, Debug, PartialEq, Eq, Structural)]
pub struct QualificationTimeoutPolicy {
    pub master_decision_point: BmcaMasterDecisionPoint,
    pub steps_removed: StepsRemoved,
}

impl QualificationTimeoutPolicy {
    /// Create a policy.
    pub fn new(master_decision_point: BmcaMasterDecisionPoint, steps_removed: StepsRemoved) -> (p:
        QualificationTimeoutPolicy)
        ensures
            p == (QualificationTimeoutPolicy { master_decision_point, steps_removed }),
    {
        QualificationTimeoutPolicy { master_decision_point, steps_removed }
    }

    /// The qualification timeout for the given announce interval.
    pub fn duration(&self, log_announce_interval: LogInterval) -> (d: Duration)
        ensures
            d@ == qualification_timeout_nanos(
                self.master_decision_point,
                self.steps_removed.0,
                log_announce_interval.spec_log() as int,
            ),
    {
        match self.master_decision_point {
            BmcaMasterDecisionPoint::M1 => Duration::zero(),
            BmcaMasterDecisionPoint::M2 => Duration::zero(),
            BmcaMasterDecisionPoint::M3 => {
                let n: u64 = self.steps_removed.as_u16() as u64 + 1;
                log_announce_interval.duration().saturating_mul(n)
            },
        }
    }
}

/// Storage surface presenting the cross-port best foreign data set (`E_best`).
pub trait ForeignGrandMasterCandidates: Sized {
    /// What [`ForeignGrandMasterCandidates::best`] returns.
    spec fn spec_best(&self) -> BestForeignSnapshot;

    /// `after` is this store once it took `port`'s report `snapshot`.
    spec fn remembers(&self, port: PortNumber, snapshot: BestForeignSnapshot, after: Self) -> bool;

    /// Remember what `port` reports: a qualified candidate, or that it has none.
    fn remember(&mut self, port: PortNumber, snapshot: BestForeignSnapshot)
        ensures
            old(self).remembers(port, snapshot, *final(self)),
    ;

    /// The best qualified foreign candidate across all ports.
    fn best(&self) -> (b: BestForeignSnapshot)
        ensures
            b == self.spec_best(),
    ;
}

/// A single-port store: the best candidate is the one last reported.
impl ForeignGrandMasterCandidates for BestForeignSnapshot {
    open spec fn spec_best(&self) -> BestForeignSnapshot {
        *self
    }

    /// The report replaces what was held.
    open spec fn remembers(&self, port: PortNumber, snapshot: BestForeignSnapshot, after: Self) -> bool {
        after == snapshot
    }

    fn remember(&mut self, port: PortNumber, snapshot: BestForeignSnapshot) {
        *self = snapshot;
    }

    fn best(&self) -> (b: BestForeignSnapshot) {
        *self
    }
}

/// Storage surface presenting the local clock's data set (`D_0`).
pub trait LocalGrandMasterCandidate {
    /// What [`LocalGrandMasterCandidate::snapshot`] returns.
    spec fn spec_snapshot(&self) -> ClockDS;

    /// The local clock's data set.
    fn snapshot(&self) -> (ds: ClockDS)
        ensures
            ds == self.spec_snapshot(),
    ;
}

impl LocalGrandMasterCandidate for ClockDS {
    open spec fn spec_snapshot(&self) -> ClockDS {
        *self
    }

    fn snapshot(&self) -> (ds: ClockDS) {
        *self
    }
}

/// The BMCA decision of IEEE 1588-2019 §9.3.3, Fig. 33 (after the listening-mode diamond), for the
/// local data set `d0`, the best foreign data set across ports `e_best` and the best one on this
/// port `e_rbest`:
/// - an authoritative `d0` is master (M1) if better than `e_rbest`, else passive (P1);
/// - otherwise `d0` is master (M2) if better than `e_best`;
/// - else the port is slave (S1) of `e_best`'s sender if `e_best` was received on this port;
/// - else passive (P2) if `e_best` is better than `e_rbest`, else master (M3) for `e_best`'s
///   grandmaster.
pub open spec fn bmca_decision(
    d0: ClockDS,
    e_best: BestForeignDataset,
    e_rbest: BestForeignDataset,
    port: PortNumber,
) -> BmcaDecision {
    if is_authoritative(d0) {
        if better_than_foreign(d0, e_rbest) {
            BmcaDecision::Master(
                BmcaMasterDecision {
                    decision_point: BmcaMasterDecisionPoint::M1,
                    steps_removed: StepsRemoved(0),
                    grandmaster_id: d0.identity,
                },
            )
        } else {
            BmcaDecision::Passive
        }
    } else if better_than_foreign(d0, e_best) {
        BmcaDecision::Master(
            BmcaMasterDecision {
                decision_point: BmcaMasterDecisionPoint::M2,
                steps_removed: StepsRemoved(0),
                grandmaster_id: d0.identity,
            },
        )
    } else {
        match e_best {
            BestForeignDataset::Qualified { ds, source_port_identity, received_on_port } => {
                if received_on_port == port {
                    BmcaDecision::Slave(ParentPortIdentity { parent_port_identity: source_port_identity })
                } else if foreign_better(e_best, e_rbest) {
                    BmcaDecision::Passive
                } else {
                    BmcaDecision::Master(
                        BmcaMasterDecision {
                            decision_point: BmcaMasterDecisionPoint::M3,
                            steps_removed: StepsRemoved(0),
                            grandmaster_id: ds.identity,
                        },
                    )
                }
            },
            BestForeignDataset::Empty => BmcaDecision::Passive,
        }
    }
}

/// A view of the currently selected grandmaster: the announce surface that hides whether the
/// grandmaster is local or foreign.
pub struct GrandMaster {
    pub ds: ClockDS,
}

impl GrandMaster {
    /// The grandmaster with data set `ds`.
    pub fn new(ds: ClockDS) -> (g: GrandMaster)
        ensures
            g.ds == ds,
    {
        GrandMaster { ds }
    }

    /// The grandmaster's identity.
    pub fn identity(&self) -> (id: &ClockIdentity)
        ensures
            *id == self.ds.identity,
    {
        &self.ds.identity
    }

    /// The Announce message presenting this grandmaster.
    pub fn announce(
        &self,
        sequence_id: crate::message::SequenceId,
        log_message_interval: crate::time::LogMessageInterval,
        time_scale: crate::clock::TimeScale,
    ) -> (m: crate::message::AnnounceMessage)
        ensures
            m == (crate::message::AnnounceMessage {
                sequence_id,
                log_message_interval,
                foreign_clock_ds: self.ds,
                ptp_timescale: time_scale,
            }),
    {
        crate::message::AnnounceMessage::new(sequence_id, log_message_interval, self.ds, time_scale)
    }
}

/// Best Master Clock Algorithm (IEEE 1588-2019 §9.3.3, Fig. 33), for the port `port_number`, with
/// the local data set `D_0` and the cross-port best foreign data set `E_best`.
pub struct BestMasterClockAlgorithm<L: LocalGrandMasterCandidate, F: ForeignGrandMasterCandidates> {
    pub local_candidate: L,
    pub foreign_candidates: F,
    pub port_number: PortNumber,
}

impl<L: LocalGrandMasterCandidate, F: ForeignGrandMasterCandidates> BestMasterClockAlgorithm<L, F> {
    /// Create a BMCA evaluator for `port_number`.
    pub fn new(local_candidate: L, foreign_candidates: F, port_number: PortNumber) -> (b:
        BestMasterClockAlgorithm<L, F>)
        ensures
            b.local_candidate == local_candidate,
            b.foreign_candidates == foreign_candidates,
            b.port_number == port_number,
    {
        BestMasterClockAlgorithm { local_candidate, foreign_candidates, port_number }
    }

    /// The currently known grandmaster (with single-port support, the local clock).
    pub fn grandmaster(&self) -> (g: GrandMaster)
        ensures
            g.ds == self.local_candidate.spec_snapshot(),
    {
        GrandMaster::new(self.local_candidate.snapshot())
    }

    /// Report `e_rbest`, this port's best qualified foreign data set, to the cross-port store and
    /// evaluate the decision.
    pub fn decision(&mut self, e_rbest: BestForeignDataset) -> (d: BmcaDecision)
        ensures
            final(self).local_candidate == old(self).local_candidate,
            final(self).port_number == old(self).port_number,
            old(self).foreign_candidates.remembers(
                old(self).port_number,
                snapshot_of(e_rbest),
                final(self).foreign_candidates,
            ),
            d == bmca_decision(
                old(self).local_candidate.spec_snapshot(),
                dataset_of(final(self).foreign_candidates.spec_best()),
                e_rbest,
                old(self).port_number,
            ),
    {
        self.foreign_candidates.remember(self.port_number, e_rbest.snapshot());
        let d_0 = self.local_candidate.snapshot();
        if d_0.is_authoritative() {
            Self::d0_better_or_better_by_topology_than_e_rbest(&d_0, e_rbest)
        } else {
            let best_snapshot = self.foreign_candidates.best();
            let e_best = best_snapshot.as_best_foreign_dataset();
            self.d0_better_or_better_by_topology_than_e_best(&d_0, e_best, e_rbest)
        }
    }

    fn d0_better_or_better_by_topology_than_e_rbest(d_0: &ClockDS, e_rbest: BestForeignDataset) -> (d:
        BmcaDecision)
        requires
            is_authoritative(*d_0),
        ensures
            d == bmca_decision(*d_0, e_rbest, e_rbest, PortNumber(0)),
    {
        if d_0.better_than_foreign(e_rbest) {
            BmcaDecision::Master(
                BmcaMasterDecision::new(BmcaMasterDecisionPoint::M1, StepsRemoved::new(0), d_0.identity),
            )
        } else {
            BmcaDecision::Passive
        }
    }

    fn d0_better_or_better_by_topology_than_e_best(
        &self,
        d_0: &ClockDS,
        e_best: BestForeignDataset,
        e_rbest: BestForeignDataset,
    ) -> (d: BmcaDecision)
        requires
            !is_authoritative(*d_0),
        ensures
            d == bmca_decision(*d_0, e_best, e_rbest, self.port_number),
    {
        if d_0.better_than_foreign(e_best) {
            BmcaDecision::Master(
                BmcaMasterDecision::new(BmcaMasterDecisionPoint::M2, StepsRemoved::new(0), d_0.identity),
            )
        } else {
            match e_best.parent_if_received_on_port(self.port_number) {
                Some(parent) => BmcaDecision::Slave(parent),
                None => Self::e_best_better_by_topology_than_e_rbest(e_best, e_rbest),
            }
        }
    }

    fn e_best_better_by_topology_than_e_rbest(e_best: BestForeignDataset, e_rbest: BestForeignDataset) -> (d:
        BmcaDecision)
        requires
            e_best is Qualified,
        ensures
            d == (if foreign_better(e_best, e_rbest) {
                BmcaDecision::Passive
            } else {
                BmcaDecision::Master(
                    BmcaMasterDecision {
                        decision_point: BmcaMasterDecisionPoint::M3,
                        steps_removed: StepsRemoved(0),
                        grandmaster_id: e_best->ds.identity,
                    },
                )
            }),
    {
        if e_best.better_than(&e_rbest) {
            BmcaDecision::Passive
        } else {
            match e_best.grandmaster_id() {
                Some(id) => BmcaDecision::Master(
                    BmcaMasterDecision::new(BmcaMasterDecisionPoint::M3, StepsRemoved::new(0), id),
                ),
                None => BmcaDecision::Passive,
            }
        }
    }
}

/// A first observation of a foreign master: a record from `source` with data set `ds`, received
/// at `now`, unqualified, with the window of `log_announce_interval`.
pub open spec fn first_observation(
    rec: ForeignClockRecord,
    source: PortIdentity,
    ds: ClockDS,
    log_announce_interval: LogInterval,
    now: Instant,
) -> bool {
    &&& rec.source_port_identity == source
    &&& rec.foreign_clock_ds == ds
    &&& rec.qualification.last == now
    &&& rec.qualification.prev is None
    &&& rec.qualification.window@ == foreign_master_window_nanos(log_announce_interval.spec_log() as int)
}

/// The foreign clock records of one port, and the port they were received on.
pub struct BestForeignRecord<S: ForeignClockRecords> {
    pub received_on_port: PortNumber,
    pub foreign_clock_records: S,
}

impl<S: ForeignClockRecords> BestForeignRecord<S> {
    /// The best qualified foreign data set of this port (`E_rbest`).
    pub open spec fn spec_dataset(&self) -> BestForeignDataset {
        match self.foreign_clock_records.spec_best_qualified() {
            Some(r) => BestForeignDataset::Qualified {
                ds: r.foreign_clock_ds,
                source_port_identity: r.source_port_identity,
                received_on_port: self.received_on_port,
            },
            None => BestForeignDataset::Empty,
        }
    }

    /// Pair a record store with the port it serves.
    pub fn new(received_on_port: PortNumber, foreign_clock_records: S) -> (b: BestForeignRecord<S>)
        ensures
            b.received_on_port == received_on_port,
            b.foreign_clock_records == foreign_clock_records,
    {
        BestForeignRecord { received_on_port, foreign_clock_records }
    }

    /// Fold in an Announce observation: prune the records stale at `now`, then remember the new
    /// observation.
    pub fn consider(
        &mut self,
        source_port_identity: PortIdentity,
        foreign_clock_ds: ClockDS,
        log_announce_interval: LogInterval,
        now: Instant,
    )
        ensures
            final(self).received_on_port == old(self).received_on_port,
            records_considered(
                old(self).foreign_clock_records.spec_records(),
                source_port_identity,
                foreign_clock_ds,
                log_announce_interval,
                now,
                final(self).foreign_clock_records.spec_records(),
            ),
    {
        self.foreign_clock_records.prune_stale(now);
        let rec = ForeignClockRecord::new(
            source_port_identity,
            foreign_clock_ds,
            log_announce_interval,
            now,
        );
        self.foreign_clock_records.remember(rec);
        assert(first_observation(
            rec,
            source_port_identity,
            foreign_clock_ds,
            log_announce_interval,
            now,
        ));
    }

    /// The best qualified foreign data set observed so far (`E_rbest`).
    pub fn dataset(&self) -> (d: BestForeignDataset)
        ensures
            d == self.spec_dataset(),
            match self.foreign_clock_records.spec_best_qualified() {
                Some(r) => is_best_qualified(self.foreign_clock_records.spec_records(), r),
                None => no_qualified(self.foreign_clock_records.spec_records()),
            },
    {
        match self.foreign_clock_records.best_qualified() {
            Some(record) => match record.qualified_ds() {
                Some(ds) => BestForeignDataset::Qualified {
                    ds: *ds,
                    source_port_identity: *record.source_port_identity(),
                    received_on_port: self.received_on_port,
                },
                None => BestForeignDataset::Empty,
            },
            None => BestForeignDataset::Empty,
        }
    }
}

/// The decision the core algorithm takes for a port's records and stores after `bmca` reported
/// the port's best foreign data set and became `after`.
pub open spec fn core_decision<L: LocalGrandMasterCandidate, F: ForeignGrandMasterCandidates, S: ForeignClockRecords>(
    bmca: BestMasterClockAlgorithm<L, F>,
    after: BestMasterClockAlgorithm<L, F>,
    best_foreign: BestForeignRecord<S>,
) -> BmcaDecision {
    bmca_decision(
        bmca.local_candidate.spec_snapshot(),
        dataset_of(after.foreign_candidates.spec_best()),
        best_foreign.spec_dataset(),
        bmca.port_number,
    )
}

/// What the listening role decides: nothing while no foreign data set is qualified.
pub open spec fn listening_decision<L: LocalGrandMasterCandidate, F: ForeignGrandMasterCandidates, S: ForeignClockRecords>(
    before: BestMasterClockAlgorithm<L, F>,
    after: BestMasterClockAlgorithm<L, F>,
    best_foreign: BestForeignRecord<S>,
) -> Option<BmcaDecision> {
    if best_foreign.spec_dataset() is Empty {
        None
    } else {
        Some(core_decision(before, after, best_foreign))
    }
}

/// What the grandmaster-tracking role decides: nothing when it would be master for the tracked
/// grandmaster.
pub open spec fn grandmaster_tracking_decision<L: LocalGrandMasterCandidate, F: ForeignGrandMasterCandidates, S: ForeignClockRecords>(
    before: BestMasterClockAlgorithm<L, F>,
    after: BestMasterClockAlgorithm<L, F>,
    best_foreign: BestForeignRecord<S>,
    grandmaster_id: ClockIdentity,
) -> Option<BmcaDecision> {
    match core_decision(before, after, best_foreign) {
        BmcaDecision::Master(m) => if m.grandmaster_id == grandmaster_id {
            None
        } else {
            Some(BmcaDecision::Master(m))
        },
        other => Some(other),
    }
}

/// What the parent-tracking role decides: nothing when it would be slave of the tracked parent.
pub open spec fn parent_tracking_decision<L: LocalGrandMasterCandidate, F: ForeignGrandMasterCandidates, S: ForeignClockRecords>(
    before: BestMasterClockAlgorithm<L, F>,
    after: BestMasterClockAlgorithm<L, F>,
    best_foreign: BestForeignRecord<S>,
    parent: ParentPortIdentity,
) -> Option<BmcaDecision> {
    match core_decision(before, after, best_foreign) {
        BmcaDecision::Slave(p) => if p == parent {
            None
        } else {
            Some(BmcaDecision::Slave(p))
        },
        other => Some(other),
    }
}

/// What the passive role decides: nothing when it would stay passive.
pub open spec fn passive_decision<L: LocalGrandMasterCandidate, F: ForeignGrandMasterCandidates, S: ForeignClockRecords>(
    before: BestMasterClockAlgorithm<L, F>,
    after: BestMasterClockAlgorithm<L, F>,
    best_foreign: BestForeignRecord<S>,
) -> Option<BmcaDecision> {
    match core_decision(before, after, best_foreign) {
        BmcaDecision::Passive => None,
        other => Some(other),
    }
}

/// A port that follows a recommendation is not given it again: once it tracks the parent of a
/// slave recommendation, the grandmaster of a master recommendation, or is passive, the same
/// evaluation yields no decision.
pub proof fn lemma_followed_recommendation_is_gated<L: LocalGrandMasterCandidate, F: ForeignGrandMasterCandidates, S: ForeignClockRecords>(
    before: BestMasterClockAlgorithm<L, F>,
    after: BestMasterClockAlgorithm<L, F>,
    best_foreign: BestForeignRecord<S>,
)
    ensures
        core_decision(before, after, best_foreign) matches BmcaDecision::Slave(p) ==> parent_tracking_decision(
            before,
            after,
            best_foreign,
            p,
        ) is None,
        core_decision(before, after, best_foreign) matches BmcaDecision::Master(m)
            ==> grandmaster_tracking_decision(before, after, best_foreign, m.grandmaster_id) is None,
        core_decision(before, after, best_foreign) is Passive ==> passive_decision(
            before,
            after,
            best_foreign,
        ) is None,
{
}

/// The records `new` result from `old` when an Announce from `source` with data set `ds` and
/// interval `log_announce_interval` arrives at `now`: the records stale at `now` are dropped and
/// the first observation of that Announce is remembered.
pub open spec fn records_considered(
    old: Seq<ForeignClockRecord>,
    source: PortIdentity,
    ds: ClockDS,
    log_announce_interval: LogInterval,
    now: Instant,
    new: Seq<ForeignClockRecord>,
) -> bool {
    exists|rec: ForeignClockRecord|
        #[trigger] first_observation(rec, source, ds, log_announce_interval, now) && remembered(
            keep_fresh(old, now),
            rec,
            new,
        )
}

/// How an Announce from `source` with data set `ds` and interval `lmi`, received at `now`, turns
/// the records `old` into `new`: an Announce without a specified interval is ignored; otherwise
/// the stale records are dropped and the observation is remembered.
pub open spec fn announce_considered(
    old: Seq<ForeignClockRecord>,
    source: PortIdentity,
    ds: ClockDS,
    lmi: LogMessageInterval,
    now: Instant,
    new: Seq<ForeignClockRecord>,
) -> bool {
    if lmi.spec_raw() == 0x7F {
        new == old
    } else {
        exists|li: LogInterval|
            li.spec_log() == lmi.spec_raw() && #[trigger] records_considered(old, source, ds, li, now, new)
    }
}

/// A BMCA role of a port: folds Announce observations into the port's foreign records.
pub trait Bmca: Sized {
    /// `after` is this role after folding in an Announce from `source` with data set `ds` and
    /// interval `log_announce_interval`, received at `now`.
    spec fn spec_considered(
        &self,
        source: PortIdentity,
        ds: ClockDS,
        log_announce_interval: LogInterval,
        now: Instant,
        after: Self,
    ) -> bool;

    /// Fold in an Announce observation.
    fn consider(
        &mut self,
        source_port_identity: PortIdentity,
        foreign_clock_ds: ClockDS,
        log_announce_interval: LogInterval,
        now: Instant,
    )
        ensures
            old(self).spec_considered(
                source_port_identity,
                foreign_clock_ds,
                log_announce_interval,
                now,
                *final(self),
            ),
    ;
}

/// Listening-mode BMCA: decides only once a qualified foreign data set exists
/// (IEEE 1588-2019 §9.3.3; Fig. 33, first diamond).
pub struct ListeningBmca<L: LocalGrandMasterCandidate, F: ForeignGrandMasterCandidates, S: ForeignClockRecords> {
    pub bmca: BestMasterClockAlgorithm<L, F>,
    pub best_foreign: BestForeignRecord<S>,
}

impl<L: LocalGrandMasterCandidate, F: ForeignGrandMasterCandidates, S: ForeignClockRecords> ListeningBmca<
    L,
    F,
    S,
> {
    /// Combine the algorithm with the port's foreign records.
    pub fn new(bmca: BestMasterClockAlgorithm<L, F>, best_foreign: BestForeignRecord<S>) -> (l:
        ListeningBmca<L, F, S>)
        ensures
            l.bmca == bmca,
            l.best_foreign == best_foreign,
    {
        ListeningBmca { bmca, best_foreign }
    }

    /// `None` while no foreign data set is qualified; otherwise the BMCA decision.
    pub fn decision(&mut self) -> (d: Option<BmcaDecision>)
        ensures
            final(self).best_foreign == old(self).best_foreign,
            final(self).bmca.local_candidate == old(self).bmca.local_candidate,
            final(self).bmca.port_number == old(self).bmca.port_number,
            old(self).best_foreign.spec_dataset() is Empty ==> d is None && final(self).bmca
                == old(self).bmca,
            old(self).best_foreign.spec_dataset() is Qualified ==> d == Some(
                core_decision(old(self).bmca, final(self).bmca, old(self).best_foreign),
            ),
    {
        let e_rbest = self.best_foreign.dataset();
        match e_rbest {
            BestForeignDataset::Qualified { .. } => Some(self.bmca.decision(e_rbest)),
            BestForeignDataset::Empty => None,
        }
    }

    /// Track the given parent.
    pub fn into_parent_tracking(self, parent_port_identity: ParentPortIdentity) -> (p:
        ParentTrackingBmca<L, F, S>)
        ensures
            p.bmca == self.bmca,
            p.best_foreign == self.best_foreign,
            p.parent_port_identity == parent_port_identity,
    {
        ParentTrackingBmca::new(self.bmca, self.best_foreign, parent_port_identity)
    }

    /// Track the given grandmaster.
    pub fn into_grandmaster_tracking(self, grandmaster_id: ClockIdentity) -> (g:
        GrandMasterTrackingBmca<L, F, S>)
        ensures
            g.bmca == self.bmca,
            g.best_foreign == self.best_foreign,
            g.grandmaster_id == grandmaster_id,
    {
        GrandMasterTrackingBmca::new(self.bmca, self.best_foreign, grandmaster_id)
    }

    /// Track the currently known grandmaster.
    pub fn into_current_grandmaster_tracking(self) -> (g: GrandMasterTrackingBmca<L, F, S>)
        ensures
            g.bmca == self.bmca,
            g.best_foreign == self.best_foreign,
            g.grandmaster_id == self.bmca.local_candidate.spec_snapshot().identity,
    {
        let current = self.bmca.grandmaster();
        let id = *current.identity();
        self.into_grandmaster_tracking(id)
    }

    /// Enter passive gating.
    pub fn into_passive(self) -> (p: PassiveBmca<L, F, S>)
        ensures
            p.bmca == self.bmca,
            p.best_foreign == self.best_foreign,
    {
        PassiveBmca::new(self.bmca, self.best_foreign)
    }

    /// The algorithm and the records.
    pub fn into_parts(self) -> (parts: (BestMasterClockAlgorithm<L, F>, BestForeignRecord<S>))
        ensures
            parts.0 == self.bmca,
            parts.1 == self.best_foreign,
    {
        (self.bmca, self.best_foreign)
    }
}

/// BMCA that suppresses master decisions for the grandmaster it already tracks.
pub struct GrandMasterTrackingBmca<L: LocalGrandMasterCandidate, F: ForeignGrandMasterCandidates, S: ForeignClockRecords> {
    pub bmca: BestMasterClockAlgorithm<L, F>,
    pub best_foreign: BestForeignRecord<S>,
    pub grandmaster_id: ClockIdentity,
}

impl<L: LocalGrandMasterCandidate, F: ForeignGrandMasterCandidates, S: ForeignClockRecords> GrandMasterTrackingBmca<
    L,
    F,
    S,
> {
    /// Track `grandmaster_id`.
    pub fn new(
        bmca: BestMasterClockAlgorithm<L, F>,
        best_foreign: BestForeignRecord<S>,
        grandmaster_id: ClockIdentity,
    ) -> (g: GrandMasterTrackingBmca<L, F, S>)
        ensures
            g.bmca == bmca,
            g.best_foreign == best_foreign,
            g.grandmaster_id == grandmaster_id,
    {
        GrandMasterTrackingBmca { bmca, best_foreign, grandmaster_id }
    }

    /// The currently known grandmaster.
    pub fn grandmaster(&self) -> (g: GrandMaster)
        ensures
            g.ds == self.bmca.local_candidate.spec_snapshot(),
    {
        self.bmca.grandmaster()
    }

    /// The BMCA decision, or `None` when it is master for the tracked grandmaster.
    pub fn decision(&mut self) -> (d: Option<BmcaDecision>)
        ensures
            final(self).best_foreign == old(self).best_foreign,
            final(self).grandmaster_id == old(self).grandmaster_id,
            final(self).bmca.local_candidate == old(self).bmca.local_candidate,
            final(self).bmca.port_number == old(self).bmca.port_number,
            d == (match core_decision(old(self).bmca, final(self).bmca, old(self).best_foreign) {
                BmcaDecision::Master(m) => if m.grandmaster_id == old(self).grandmaster_id {
                    None
                } else {
                    Some(BmcaDecision::Master(m))
                },
                other => Some(other),
            }),
    {
        let e_rbest = self.best_foreign.dataset();
        let decision = self.bmca.decision(e_rbest);
        match decision {
            BmcaDecision::Master(master_decision) => {
                if master_decision.grandmaster_id() == self.grandmaster_id {
                    None
                } else {
                    Some(decision)
                }
            },
            BmcaDecision::Slave(_) => Some(decision),
            BmcaDecision::Passive => Some(decision),
        }
    }

    /// Track a new grandmaster.
    pub fn with_grandmaster_id(self, grandmaster_id: ClockIdentity) -> (g: GrandMasterTrackingBmca<L, F, S>)
        ensures
            g.bmca == self.bmca,
            g.best_foreign == self.best_foreign,
            g.grandmaster_id == grandmaster_id,
    {
        GrandMasterTrackingBmca { bmca: self.bmca, best_foreign: self.best_foreign, grandmaster_id }
    }

    /// Track the given parent.
    pub fn into_parent_tracking(self, parent_port_identity: ParentPortIdentity) -> (p:
        ParentTrackingBmca<L, F, S>)
        ensures
            p.bmca == self.bmca,
            p.best_foreign == self.best_foreign,
            p.parent_port_identity == parent_port_identity,
    {
        ParentTrackingBmca::new(self.bmca, self.best_foreign, parent_port_identity)
    }

    /// Enter passive gating.
    pub fn into_passive(self) -> (p: PassiveBmca<L, F, S>)
        ensures
            p.bmca == self.bmca,
            p.best_foreign == self.best_foreign,
    {
        PassiveBmca::new(self.bmca, self.best_foreign)
    }

    /// The algorithm and the records.
    pub fn into_parts(self) -> (parts: (BestMasterClockAlgorithm<L, F>, BestForeignRecord<S>))
        ensures
            parts.0 == self.bmca,
            parts.1 == self.best_foreign,
    {
        (self.bmca, self.best_foreign)
    }
}

/// BMCA that suppresses slave decisions for the parent it already tracks
/// (IEEE 1588-2019 §9.2.5; Fig. 30 & 31, `new_master != old_master`).
pub struct ParentTrackingBmca<L: LocalGrandMasterCandidate, F: ForeignGrandMasterCandidates, S: ForeignClockRecords> {
    pub bmca: BestMasterClockAlgorithm<L, F>,
    pub best_foreign: BestForeignRecord<S>,
    pub parent_port_identity: ParentPortIdentity,
}

impl<L: LocalGrandMasterCandidate, F: ForeignGrandMasterCandidates, S: ForeignClockRecords> ParentTrackingBmca<
    L,
    F,
    S,
> {
    /// Track `parent_port_identity`.
    pub fn new(
        bmca: BestMasterClockAlgorithm<L, F>,
        best_foreign: BestForeignRecord<S>,
        parent_port_identity: ParentPortIdentity,
    ) -> (p: ParentTrackingBmca<L, F, S>)
        ensures
            p.bmca == bmca,
            p.best_foreign == best_foreign,
            p.parent_port_identity == parent_port_identity,
    {
        ParentTrackingBmca { bmca, best_foreign, parent_port_identity }
    }

    /// `true` if `source` is the tracked parent.
    pub fn matches_parent(&self, source: &PortIdentity) -> (b: bool)
        ensures
            b == (self.parent_port_identity.parent_port_identity == *source),
    {
        self.parent_port_identity.matches(source)
    }

    /// The BMCA decision, or `None` when it is slave of the tracked parent.
    pub fn decision(&mut self) -> (d: Option<BmcaDecision>)
        ensures
            final(self).best_foreign == old(self).best_foreign,
            final(self).parent_port_identity == old(self).parent_port_identity,
            final(self).bmca.local_candidate == old(self).bmca.local_candidate,
            final(self).bmca.port_number == old(self).bmca.port_number,
            d == (match core_decision(old(self).bmca, final(self).bmca, old(self).best_foreign) {
                BmcaDecision::Slave(p) => if p == old(self).parent_port_identity {
                    None
                } else {
                    Some(BmcaDecision::Slave(p))
                },
                other => Some(other),
            }),
    {
        let e_rbest = self.best_foreign.dataset();
        let decision = self.bmca.decision(e_rbest);
        match decision {
            BmcaDecision::Slave(parent) => {
                if self.parent_port_identity != parent {
                    Some(decision)
                } else {
                    None
                }
            },
            BmcaDecision::Master(_) => Some(decision),
            BmcaDecision::Passive => Some(decision),
        }
    }

    /// Track a new parent.
    pub fn with_parent(self, parent: ParentPortIdentity) -> (p: ParentTrackingBmca<L, F, S>)
        ensures
            p.bmca == self.bmca,
            p.best_foreign == self.best_foreign,
            p.parent_port_identity == parent,
    {
        ParentTrackingBmca {
            bmca: self.bmca,
            best_foreign: self.best_foreign,
            parent_port_identity: parent,
        }
    }

    /// Track the given grandmaster.
    pub fn into_grandmaster_tracking(self, grandmaster_id: ClockIdentity) -> (g:
        GrandMasterTrackingBmca<L, F, S>)
        ensures
            g.bmca == self.bmca,
            g.best_foreign == self.best_foreign,
            g.grandmaster_id == grandmaster_id,
    {
        GrandMasterTrackingBmca::new(self.bmca, self.best_foreign, grandmaster_id)
    }

    /// Track the currently known grandmaster.
    pub fn into_current_grandmaster_tracking(self) -> (g: GrandMasterTrackingBmca<L, F, S>)
        ensures
            g.bmca == self.bmca,
            g.best_foreign == self.best_foreign,
            g.grandmaster_id == self.bmca.local_candidate.spec_snapshot().identity,
    {
        let current = self.bmca.grandmaster();
        let id = *current.identity();
        self.into_grandmaster_tracking(id)
    }

    /// Enter passive gating.
    pub fn into_passive(self) -> (p: PassiveBmca<L, F, S>)
        ensures
            p.bmca == self.bmca,
            p.best_foreign == self.best_foreign,
    {
        PassiveBmca::new(self.bmca, self.best_foreign)
    }

    /// The algorithm and the records.
    pub fn into_parts(self) -> (parts: (BestMasterClockAlgorithm<L, F>, BestForeignRecord<S>))
        ensures
            parts.0 == self.bmca,
            parts.1 == self.best_foreign,
    {
        (self.bmca, self.best_foreign)
    }
}

/// BMCA that suppresses passive decisions while passive (IEEE 1588-2019 §9.2.5).
pub struct PassiveBmca<L: LocalGrandMasterCandidate, F: ForeignGrandMasterCandidates, S: ForeignClockRecords> {
    pub bmca: BestMasterClockAlgorithm<L, F>,
    pub best_foreign: BestForeignRecord<S>,
}

impl<L: LocalGrandMasterCandidate, F: ForeignGrandMasterCandidates, S: ForeignClockRecords> PassiveBmca<
    L,
    F,
    S,
> {
    /// Combine the algorithm with the port's foreign records.
    pub fn new(bmca: BestMasterClockAlgorithm<L, F>, best_foreign: BestForeignRecord<S>) -> (p:
        PassiveBmca<L, F, S>)
        ensures
            p.bmca == bmca,
            p.best_foreign == best_foreign,
    {
        PassiveBmca { bmca, best_foreign }
    }

    /// The BMCA decision, or `None` when it is passive.
    pub fn decision(&mut self) -> (d: Option<BmcaDecision>)
        ensures
            final(self).best_foreign == old(self).best_foreign,
            final(self).bmca.local_candidate == old(self).bmca.local_candidate,
            final(self).bmca.port_number == old(self).bmca.port_number,
            d == (match core_decision(old(self).bmca, final(self).bmca, old(self).best_foreign) {
                BmcaDecision::Passive => None,
                other => Some(other),
            }),
    {
        let e_rbest = self.best_foreign.dataset();
        let decision = self.bmca.decision(e_rbest);
        match decision {
            BmcaDecision::Passive => None,
            BmcaDecision::Master(_) => Some(decision),
            BmcaDecision::Slave(_) => Some(decision),
        }
    }

    /// Track the given parent.
    pub fn into_parent_tracking(self, parent_port_identity: ParentPortIdentity) -> (p:
        ParentTrackingBmca<L, F, S>)
        ensures
            p.bmca == self.bmca,
            p.best_foreign == self.best_foreign,
            p.parent_port_identity == parent_port_identity,
    {
        ParentTrackingBmca::new(self.bmca, self.best_foreign, parent_port_identity)
    }

    /// Track the given grandmaster.
    pub fn into_grandmaster_tracking(self, grandmaster_id: ClockIdentity) -> (g:
        GrandMasterTrackingBmca<L, F, S>)
        ensures
            g.bmca == self.bmca,
            g.best_foreign == self.best_foreign,
            g.grandmaster_id == grandmaster_id,
    {
        GrandMasterTrackingBmca::new(self.bmca, self.best_foreign, grandmaster_id)
    }

    /// Track the currently known grandmaster.
    pub fn into_current_grandmaster_tracking(self) -> (g: GrandMasterTrackingBmca<L, F, S>)
        ensures
            g.bmca == self.bmca,
            g.best_foreign == self.best_foreign,
            g.grandmaster_id == self.bmca.local_candidate.spec_snapshot().identity,
    {
        let current = self.bmca.grandmaster();
        let id = *current.identity();
        self.into_grandmaster_tracking(id)
    }

    /// The algorithm and the records.
    pub fn into_parts(self) -> (parts: (BestMasterClockAlgorithm<L, F>, BestForeignRecord<S>))
        ensures
            parts.0 == self.bmca,
            parts.1 == self.best_foreign,
    {
        (self.bmca, self.best_foreign)
    }
}

impl<L: LocalGrandMasterCandidate, F: ForeignGrandMasterCandidates, S: ForeignClockRecords> Bmca for ListeningBmca<
    L,
    F,
    S,
> {
    /// The evaluator and the tracked identity stay; the records take in the observation.
    open spec fn spec_considered(
        &self,
        source: PortIdentity,
        ds: ClockDS,
        log_announce_interval: LogInterval,
        now: Instant,
        after: Self,
    ) -> bool {
        &&& after.bmca == self.bmca
        &&& after.best_foreign.received_on_port == self.best_foreign.received_on_port
        &&& records_considered(
            self.best_foreign.foreign_clock_records.spec_records(),
            source,
            ds,
            log_announce_interval,
            now,
            after.best_foreign.foreign_clock_records.spec_records(),
        )
    }

    fn consider(
        &mut self,
        source_port_identity: PortIdentity,
        foreign_clock_ds: ClockDS,
        log_announce_interval: LogInterval,
        now: Instant,
    ) {
        self.best_foreign.consider(source_port_identity, foreign_clock_ds, log_announce_interval, now);
    }
}

impl<L: LocalGrandMasterCandidate, F: ForeignGrandMasterCandidates, S: ForeignClockRecords> Bmca for GrandMasterTrackingBmca<
    L,
    F,
    S,
> {
    /// The evaluator and the tracked identity stay; the records take in the observation.
    open spec fn spec_considered(
        &self,
        source: PortIdentity,
        ds: ClockDS,
        log_announce_interval: LogInterval,
        now: Instant,
        after: Self,
    ) -> bool {
        &&& after.bmca == self.bmca
        &&& after.grandmaster_id == self.grandmaster_id
        &&& after.best_foreign.received_on_port == self.best_foreign.received_on_port
        &&& records_considered(
            self.best_foreign.foreign_clock_records.spec_records(),
            source,
            ds,
            log_announce_interval,
            now,
            after.best_foreign.foreign_clock_records.spec_records(),
        )
    }

    fn consider(
        &mut self,
        source_port_identity: PortIdentity,
        foreign_clock_ds: ClockDS,
        log_announce_interval: LogInterval,
        now: Instant,
    ) {
        self.best_foreign.consider(source_port_identity, foreign_clock_ds, log_announce_interval, now);
    }
}

impl<L: LocalGrandMasterCandidate, F: ForeignGrandMasterCandidates, S: ForeignClockRecords> Bmca for ParentTrackingBmca<
    L,
    F,
    S,
> {
    /// The evaluator and the tracked identity stay; the records take in the observation.
    open spec fn spec_considered(
        &self,
        source: PortIdentity,
        ds: ClockDS,
        log_announce_interval: LogInterval,
        now: Instant,
        after: Self,
    ) -> bool {
        &&& after.bmca == self.bmca
        &&& after.parent_port_identity == self.parent_port_identity
        &&& after.best_foreign.received_on_port == self.best_foreign.received_on_port
        &&& records_considered(
            self.best_foreign.foreign_clock_records.spec_records(),
            source,
            ds,
            log_announce_interval,
            now,
            after.best_foreign.foreign_clock_records.spec_records(),
        )
    }

    fn consider(
        &mut self,
        source_port_identity: PortIdentity,
        foreign_clock_ds: ClockDS,
        log_announce_interval: LogInterval,
        now: Instant,
    ) {
        self.best_foreign.consider(source_port_identity, foreign_clock_ds, log_announce_interval, now);
    }
}

impl<L: LocalGrandMasterCandidate, F: ForeignGrandMasterCandidates, S: ForeignClockRecords> Bmca for PassiveBmca<
    L,
    F,
    S,
> {
    /// The evaluator and the tracked identity stay; the records take in the observation.
    open spec fn spec_considered(
        &self,
        source: PortIdentity,
        ds: ClockDS,
        log_announce_interval: LogInterval,
        now: Instant,
        after: Self,
    ) -> bool {
        &&& after.bmca == self.bmca
        &&& after.best_foreign.received_on_port == self.best_foreign.received_on_port
        &&& records_considered(
            self.best_foreign.foreign_clock_records.spec_records(),
            source,
            ds,
            log_announce_interval,
            now,
            after.best_foreign.foreign_clock_records.spec_records(),
        )
    }

    fn consider(
        &mut self,
        source_port_identity: PortIdentity,
        foreign_clock_ds: ClockDS,
        log_announce_interval: LogInterval,
        now: Instant,
    ) {
        self.best_foreign.consider(source_port_identity, foreign_clock_ds, log_announce_interval, now);
    }
}

} // verus!
