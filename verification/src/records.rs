//! Foreign master records: qualification of Announce senders and the storage surface the BMCA
//! keeps them in (IEEE 1588-2019 §9.3.2.4.5).
//!
//! A foreign master becomes *qualified* once two of its Announce messages arrive within the
//! `foreignMasterTimeWindow` (four announce intervals), and becomes *stale* when it has been
//! silent for longer than that window.
use vstd::prelude::*;

use crate::bmca::{ds_better, ds_consistent, ClockDS};
use crate::port::{lemma_port_identity_order, port_identity_lt, PortIdentity};
use crate::time::{log_interval_nanos, Duration, Instant, LogInterval};

verus! {

/// `foreignMasterTimeWindow` in nanoseconds: four announce intervals, saturating.
pub open spec fn foreign_master_window_nanos(log_announce_interval: int) -> int {
    let four = log_interval_nanos(log_announce_interval) * 4;
    if four > u64::MAX {
        u64::MAX as int
    } else {
        four
    }
}

/// The `foreignMasterTimeWindow` derived from a port's announce interval.
pub struct ForeignMasterTimeWindow {
    log_announce_interval: LogInterval,
}

impl ForeignMasterTimeWindow {
    /// The window for the given announce interval.
    pub fn new(log_announce_interval: LogInterval) -> (w: ForeignMasterTimeWindow)
        ensures
            w.spec_log() == log_announce_interval.spec_log(),
    {
        ForeignMasterTimeWindow { log_announce_interval }
    }

    /// The announce interval exponent the window is derived from.
    pub closed spec fn spec_log(self) -> i8 {
        self.log_announce_interval.spec_log()
    }

    /// The window length: four announce intervals.
    pub fn duration(&self) -> (d: Duration)
        ensures
            d@ == foreign_master_window_nanos(self.spec_log() as int),
    {
        self.log_announce_interval.duration().saturating_mul(4)
    }
}

/// Sliding window qualification of a foreign master: qualified while the last two Announce
/// messages are at most one window apart (`FOREIGN_MASTER_THRESHOLD = 2`).
#[derive(Clone, Copy, Debug, PartialEq, Eq, Structural)]
pub struct SlidingWindowQualification {
    /// Reception time of the latest Announce.
    pub last: Instant,
    /// Reception time of the Announce before it, if any.
    pub prev: Option<Instant>,
    /// The qualification window.
    pub window: Duration,
}

impl SlidingWindowQualification {
    /// The last two Announce messages are at most one window apart.
    pub open spec fn spec_qualified(self) -> bool {
        match self.prev {
            Some(p) => p@ <= self.last@ && self.last@ - p@ <= self.window@,
            None => false,
        }
    }

    /// No Announce arrived within the window before `now` (or `now` precedes the last one).
    pub open spec fn spec_stale(self, now: Instant) -> bool {
        now@ < self.last@ || now@ - self.last@ > self.window@
    }

    /// The state after one Announce at `first`.
    pub fn new_unqualified(first: Instant, window: Duration) -> (q: SlidingWindowQualification)
        ensures
            q == (SlidingWindowQualification { last: first, prev: None, window }),
    {
        SlidingWindowQualification { last: first, prev: None, window }
    }

    /// Record a further Announce received at `now`.
    pub fn qualify(&mut self, now: Instant, window: Duration)
        ensures
            *final(self) == (SlidingWindowQualification {
                last: now,
                prev: Some(old(self).last),
                window,
            }),
    {
        self.prev = Some(self.last);
        self.last = now;
        self.window = window;
    }

    /// `true` if currently qualified.
    pub fn is_qualified(&self) -> (b: bool)
        ensures
            b == self.spec_qualified(),
    {
        match self.prev {
            Some(prev) => match self.last.checked_sub(prev) {
                Some(delta) => delta.is_at_most(&self.window),
                None => false,
            },
            None => false,
        }
    }

    /// `true` if stale at `now`.
    pub fn is_stale(&self, now: Instant) -> (b: bool)
        ensures
            b == self.spec_stale(now),
    {
        match now.checked_sub(self.last) {
            Some(delta) => !delta.is_at_most(&self.window),
            None => true,
        }
    }
}

/// Result of folding a new observation into a foreign clock record.
#[derive(Clone, Copy, Debug, PartialEq, Eq, Structural)]
pub enum ForeignClockStatus {
    /// The record remained unqualified or unchanged.
    Unchanged,
    /// The record became (un)qualified, or its data set changed while qualified.
    Updated,
}

/// A foreign master candidate learned from Announce messages: who sent it, the announced data
/// set, and its qualification state.
#[derive(Clone, Copy, Debug, PartialEq, Eq, Structural)]
pub struct ForeignClockRecord {
    pub source_port_identity: PortIdentity,
    pub foreign_clock_ds: ClockDS,
    pub qualification: SlidingWindowQualification,
}

impl ForeignClockRecord {
    /// The record is qualified.
    pub open spec fn spec_qualified(self) -> bool {
        self.qualification.spec_qualified()
    }

    /// The record is stale at `now`.
    pub open spec fn spec_stale(self, now: Instant) -> bool {
        self.qualification.spec_stale(now)
    }
}

/// The record `a` after folding in the newer observation `rec` of the same source: the window
/// advances to `rec`'s reception time and window, and the data set becomes `rec`'s.
pub open spec fn updated_record(a: ForeignClockRecord, rec: ForeignClockRecord) -> ForeignClockRecord {
    ForeignClockRecord {
        source_port_identity: a.source_port_identity,
        foreign_clock_ds: rec.foreign_clock_ds,
        qualification: SlidingWindowQualification {
            last: rec.qualification.last,
            prev: Some(a.qualification.last),
            window: rec.qualification.window,
        },
    }
}

/// What [`ForeignClockRecord::update_from`] reports.
pub open spec fn update_status(a: ForeignClockRecord, rec: ForeignClockRecord) -> ForeignClockStatus {
    let was = a.spec_qualified();
    let is = updated_record(a, rec).spec_qualified();
    if was != is || (is && a.foreign_clock_ds != rec.foreign_clock_ds) {
        ForeignClockStatus::Updated
    } else {
        ForeignClockStatus::Unchanged
    }
}

/// The two records rank equally: same qualification and, when qualified, neither data set is
/// better than the other.
pub open spec fn records_tie(a: ForeignClockRecord, b: ForeignClockRecord) -> bool {
    a.spec_qualified() == b.spec_qualified() && (!a.spec_qualified() || (!ds_better(
        a.foreign_clock_ds,
        b.foreign_clock_ds,
    ) && !ds_better(b.foreign_clock_ds, a.foreign_clock_ds)))
}

/// The store order of records ("best first"): qualified records first, qualified ones by data
/// set, ties broken by source port identity.
pub open spec fn record_before(a: ForeignClockRecord, b: ForeignClockRecord) -> bool {
    ||| a.spec_qualified() && !b.spec_qualified()
    ||| a.spec_qualified() && b.spec_qualified() && ds_better(a.foreign_clock_ds, b.foreign_clock_ds)
    ||| records_tie(a, b) && port_identity_lt(a.source_port_identity, b.source_port_identity)
}

/// The data sets of qualified records agree wherever they name the same clock.
pub open spec fn qualified_consistent(a: ForeignClockRecord, b: ForeignClockRecord) -> bool {
    a.spec_qualified() && b.spec_qualified() ==> ds_consistent(
        a.foreign_clock_ds,
        b.foreign_clock_ds,
    )
}

/// On records whose qualified data sets are consistent, the store order is a strict order, and it
/// is total on records of different sources.
pub proof fn lemma_record_order(a: ForeignClockRecord, b: ForeignClockRecord, c: ForeignClockRecord)
    requires
        qualified_consistent(a, b),
        qualified_consistent(b, c),
        qualified_consistent(a, c),
    ensures
        !record_before(a, a),
        record_before(a, b) ==> !record_before(b, a),
        a.source_port_identity != b.source_port_identity ==> record_before(a, b) || record_before(
            b,
            a,
        ),
        record_before(a, b) && record_before(b, c) ==> record_before(a, c),
{
    lemma_port_identity_order(a.source_port_identity, b.source_port_identity, c.source_port_identity);
    crate::bmca::lemma_ds_better_irreflexive(a.foreign_clock_ds);
    if a.spec_qualified() && b.spec_qualified() {
        crate::bmca::lemma_ds_better_is_rank(a.foreign_clock_ds, b.foreign_clock_ds);
        crate::bmca::lemma_ds_better_is_rank(b.foreign_clock_ds, a.foreign_clock_ds);
    }
    if b.spec_qualified() && c.spec_qualified() {
        crate::bmca::lemma_ds_better_is_rank(b.foreign_clock_ds, c.foreign_clock_ds);
        crate::bmca::lemma_ds_better_is_rank(c.foreign_clock_ds, b.foreign_clock_ds);
    }
    if a.spec_qualified() && c.spec_qualified() {
        crate::bmca::lemma_ds_better_is_rank(a.foreign_clock_ds, c.foreign_clock_ds);
        crate::bmca::lemma_ds_better_is_rank(c.foreign_clock_ds, a.foreign_clock_ds);
    }
    a.foreign_clock_ds.identity.lemma_value_injective(b.foreign_clock_ds.identity);
    b.foreign_clock_ds.identity.lemma_value_injective(c.foreign_clock_ds.identity);
    a.foreign_clock_ds.identity.lemma_value_injective(c.foreign_clock_ds.identity);
}

impl ForeignClockRecord {
    /// A record for a first Announce from `source_port_identity` received at `now`.
    pub fn new(
        source_port_identity: PortIdentity,
        foreign_clock_ds: ClockDS,
        log_announce_interval: LogInterval,
        now: Instant,
    ) -> (r: ForeignClockRecord)
        ensures
            r.source_port_identity == source_port_identity,
            r.foreign_clock_ds == foreign_clock_ds,
            r.qualification.last == now,
            r.qualification.prev is None,
            r.qualification.window@ == foreign_master_window_nanos(
                log_announce_interval.spec_log() as int,
            ),
            !r.spec_qualified(),
    {
        let window = ForeignMasterTimeWindow::new(log_announce_interval).duration();
        ForeignClockRecord {
            source_port_identity,
            foreign_clock_ds,
            qualification: SlidingWindowQualification::new_unqualified(now, window),
        }
    }

    /// A record that is already qualified at `now` (two Announce messages at `now`).
    pub fn qualified(
        source_port_identity: PortIdentity,
        foreign_clock_ds: ClockDS,
        log_announce_interval: LogInterval,
        now: Instant,
    ) -> (r: ForeignClockRecord)
        ensures
            r.source_port_identity == source_port_identity,
            r.foreign_clock_ds == foreign_clock_ds,
            r.qualification.last == now,
            r.qualification.prev == Some(now),
            r.qualification.window@ == foreign_master_window_nanos(
                log_announce_interval.spec_log() as int,
            ),
            r.spec_qualified(),
    {
        let window = ForeignMasterTimeWindow::new(log_announce_interval).duration();
        ForeignClockRecord {
            source_port_identity,
            foreign_clock_ds,
            qualification: SlidingWindowQualification { last: now, prev: Some(now), window },
        }
    }

    /// `true` if this record originates from `source_port_identity`.
    pub fn same_source_as(&self, source_port_identity: &PortIdentity) -> (b: bool)
        ensures
            b == (self.source_port_identity == *source_port_identity),
    {
        self.source_port_identity == *source_port_identity
    }

    /// `true` if this record's data set is better than `other`'s, ignoring qualification.
    pub fn better_by_dataset_than(&self, other: &ForeignClockRecord) -> (b: bool)
        ensures
            b == ds_better(self.foreign_clock_ds, other.foreign_clock_ds),
    {
        self.foreign_clock_ds.better_than(&other.foreign_clock_ds)
    }

    /// Fold in a newer observation `record` of the same source: advance the qualification
    /// window and adopt its data set. Reports `Updated` when qualification changed, or when the
    /// data set changed while qualified.
    pub fn update_from(&mut self, record: &ForeignClockRecord) -> (status: ForeignClockStatus)
        ensures
            *final(self) == updated_record(*old(self), *record),
            status == update_status(*old(self), *record),
    {
        let was_qualified = self.qualification.is_qualified();
        self.qualification.qualify(record.qualification.last, record.qualification.window);
        let is_qualified = self.qualification.is_qualified();
        let data_set_changed = self.foreign_clock_ds != record.foreign_clock_ds;
        if data_set_changed {
            self.foreign_clock_ds = record.foreign_clock_ds;
        }
        if was_qualified != is_qualified || (is_qualified && data_set_changed) {
            ForeignClockStatus::Updated
        } else {
            ForeignClockStatus::Unchanged
        }
    }

    /// The data set if the record is qualified.
    pub fn qualified_ds(&self) -> (ds: Option<&ClockDS>)
        ensures
            self.spec_qualified() ==> ds == Some(&self.foreign_clock_ds),
            !self.spec_qualified() ==> ds is None,
    {
        if self.qualification.is_qualified() {
            Some(&self.foreign_clock_ds)
        } else {
            None
        }
    }

    /// The source port identity of the Announce sender.
    pub fn source_port_identity(&self) -> (p: &PortIdentity)
        ensures
            *p == self.source_port_identity,
    {
        &self.source_port_identity
    }

    /// `true` if the record is stale at `now`.
    pub fn is_stale(&self, now: Instant) -> (b: bool)
        ensures
            b == self.spec_stale(now),
    {
        self.qualification.is_stale(now)
    }

    /// `true` if `self` orders before `other` in the store order ("best first").
    pub fn precedes(&self, other: &ForeignClockRecord) -> (b: bool)
        ensures
            b == record_before(*self, *other),
    {
        let q1 = self.qualification.is_qualified();
        let q2 = other.qualification.is_qualified();
        if q1 && !q2 {
            return true;
        }
        if q1 != q2 {
            return false;
        }
        if q1 {
            if self.better_by_dataset_than(other) {
                return true;
            }
            if other.better_by_dataset_than(self) {
                return false;
            }
        }
        self.source_port_identity.is_less_than(&other.source_port_identity)
    }
}

/// No two records of `s` come from the same source.
pub open spec fn distinct_sources(s: Seq<ForeignClockRecord>) -> bool {
    forall|i: int, j: int|
        0 <= i < s.len() && 0 <= j < s.len() && i != j ==> s[i].source_port_identity
            != s[j].source_port_identity
}

/// The qualified records of `s` have pairwise consistent data sets.
pub open spec fn all_qualified_consistent(s: Seq<ForeignClockRecord>) -> bool {
    forall|i: int, j: int|
        0 <= i < s.len() && 0 <= j < s.len() ==> #[trigger] qualified_consistent(s[i], s[j])
}

/// `s` holds no qualified record.
pub open spec fn no_qualified(s: Seq<ForeignClockRecord>) -> bool {
    forall|i: int| 0 <= i < s.len() ==> !(#[trigger] s[i]).spec_qualified()
}

/// `r` is the best qualified record of `s`: a qualified member that, when the sources are distinct
/// and the qualified data sets consistent, orders before every other record.
pub open spec fn is_best_qualified(s: Seq<ForeignClockRecord>, r: ForeignClockRecord) -> bool {
    &&& s.contains(r)
    &&& r.spec_qualified()
    &&& distinct_sources(s) && all_qualified_consistent(s) ==> forall|i: int|
        0 <= i < s.len() && s[i] != r ==> record_before(r, #[trigger] s[i])
}

/// The best qualified record as found by one scan over `s` in order: a qualified record replaces
/// the current candidate when it orders before it.
pub open spec fn scan_best(s: Seq<ForeignClockRecord>) -> Option<ForeignClockRecord>
    decreases s.len(),
{
    if s.len() == 0 {
        None
    } else {
        let b = scan_best(s.drop_last());
        let x = s.last();
        if !x.spec_qualified() {
            b
        } else {
            match b {
                None => Some(x),
                Some(c) => if record_before(x, c) {
                    Some(x)
                } else {
                    Some(c)
                },
            }
        }
    }
}

/// No record of `s` comes from `src`.
pub open spec fn source_absent(s: Seq<ForeignClockRecord>, src: PortIdentity) -> bool {
    forall|i: int| 0 <= i < s.len() ==> (#[trigger] s[i]).source_port_identity != src
}

/// `i` is the first position of a record from `src` in `s`.
pub open spec fn first_from(s: Seq<ForeignClockRecord>, src: PortIdentity, i: int) -> bool {
    &&& 0 <= i < s.len()
    &&& s[i].source_port_identity == src
    &&& forall|j: int| 0 <= j < i ==> (#[trigger] s[j]).source_port_identity != src
}

/// `new` is `old` after remembering `rec`: the first record of the same source is updated and
/// moved to its place in the store order; a record of a new source is inserted, or inserted in
/// place of one removed record, or (by a bounded store) dropped.
pub open spec fn remembered(
    old: Seq<ForeignClockRecord>,
    rec: ForeignClockRecord,
    new: Seq<ForeignClockRecord>,
) -> bool {
    if source_absent(old, rec.source_port_identity) {
        ||| exists|j: int| 0 <= j <= old.len() && new == old.insert(j, rec)
        ||| new == old
        ||| exists|k: int, j: int|
            0 <= k < old.len() && 0 <= j < old.len() && new == old.remove(k).insert(j, rec)
    } else {
        exists|i: int, j: int|
            first_from(old, rec.source_port_identity, i) && 0 <= j < old.len() && new == old.remove(
                i,
            ).insert(j, updated_record(old[i], rec))
    }
}

/// `s` is in store order ("best first"): no record orders before a record stored ahead of it.
pub open spec fn records_sorted(s: Seq<ForeignClockRecord>) -> bool {
    forall|i: int, j: int| 0 <= i < j < s.len() ==> !record_before(#[trigger] s[j], #[trigger] s[i])
}

/// Removing a record keeps a store in order.
pub proof fn lemma_remove_sorted(s: Seq<ForeignClockRecord>, k: int)
    requires
        records_sorted(s),
        0 <= k < s.len(),
    ensures
        records_sorted(s.remove(k)),
{
    let r = s.remove(k);
    assert forall|a: int, b: int| 0 <= a < b < r.len() implies !record_before(#[trigger] r[b], #[trigger] r[a]) by {
        let oa = if a < k { a } else { a + 1 };
        let ob = if b < k { b } else { b + 1 };
        assert(r[a] == s[oa] && r[b] == s[ob]);
    }
}

/// Dropping the stale records keeps a store in order.
pub proof fn lemma_keep_fresh_sorted(s: Seq<ForeignClockRecord>, now: Instant)
    requires
        records_sorted(s),
    ensures
        records_sorted(keep_fresh(s, now)),
    decreases s.len(),
{
    if s.len() > 0 {
        let d = s.drop_last();
        assert(records_sorted(d)) by {
            assert forall|a: int, b: int| 0 <= a < b < d.len() implies !record_before(#[trigger] d[b], #[trigger] d[a]) by {
                assert(d[a] == s[a] && d[b] == s[b]);
            }
        }
        lemma_keep_fresh_sorted(d, now);
        lemma_keep_fresh(d, now);
        let k = keep_fresh(d, now);
        if !s.last().spec_stale(now) {
            let n = k.push(s.last());
            assert forall|a: int, b: int| 0 <= a < b < n.len() implies !record_before(#[trigger] n[b], #[trigger] n[a]) by {
                if b < k.len() {
                    assert(n[a] == k[a] && n[b] == k[b]);
                } else {
                    assert(n[a] == k[a]);
                    assert(k.contains(k[a]));
                    assert(d.contains(k[a]));
                    let m = choose|m: int| 0 <= m < d.len() && d[m] == k[a];
                    assert(s[m] == k[a]);
                    assert(n[b] == s[s.len() - 1]);
                }
            }
        }
    }
}

/// Insert `record` ahead of the first record of `records` that it orders before (at the end if
/// there is none): a store in order stays in order, where its qualified data sets are consistent.
pub fn insert_sorted(records: &mut Vec<ForeignClockRecord>, record: ForeignClockRecord) -> (j: usize)
    ensures
        j <= old(records)@.len(),
        final(records)@ == old(records)@.insert(j as int, record),
        records_sorted(old(records)@) && all_qualified_consistent(final(records)@) ==> records_sorted(
            final(records)@,
        ),
{
    let ghost s = records@;
    let mut j: usize = 0;
    while j < records.len() && !record.precedes(&records[j])
        invariant
            j <= records.len(),
            records@ == s,
            forall|k: int| 0 <= k < j ==> !record_before(record, #[trigger] s[k]),
        decreases records.len() - j,
    {
        j = j + 1;
    }
    records.insert(j, record);
    proof {
        let n = records@;
        assert(n == s.insert(j as int, record));
        if records_sorted(s) && all_qualified_consistent(n) {
            assert forall|a: int, b: int| 0 <= a < b < n.len() implies !record_before(#[trigger] n[b], #[trigger] n[a]) by {
                if b < j {
                    assert(n[a] == s[a] && n[b] == s[b]);
                } else if a > j {
                    assert(n[a] == s[a - 1] && n[b] == s[b - 1]);
                } else if a < j && b == j {
                    assert(n[a] == s[a] && n[b] == record);
                } else if a < j && b > j {
                    assert(n[a] == s[a] && n[b] == s[b - 1]);
                } else {
                    assert(a == j && b > j);
                    assert(n[a] == record && n[b] == s[b - 1]);
                    assert(n[j as int + 1] == s[j as int]);
                    assert(record_before(record, s[j as int]));
                    assert(qualified_consistent(n[b], n[a]));
                    assert(qualified_consistent(n[a], n[j as int + 1]));
                    assert(qualified_consistent(n[b], n[j as int + 1]));
                    assert(qualified_consistent(n[a], n[b]));
                    assert(qualified_consistent(n[a], n[a]));
                    lemma_record_order(s[b - 1], record, s[j as int]);
                    lemma_record_order(record, s[j as int], record);
                }
            }
        }
    }
    j
}

/// The records of `records` in store order: the same records, each as often as given, sorted
/// where their qualified data sets are consistent.
pub fn sorted_records(records: &[ForeignClockRecord]) -> (out: Vec<ForeignClockRecord>)
    ensures
        out@.to_multiset() == records@.to_multiset(),
        all_qualified_consistent(records@) ==> records_sorted(out@),
{
    let mut out: Vec<ForeignClockRecord> = Vec::new();
    let mut i: usize = 0;
    proof {
        assert(out@ =~= records@.take(0));
    }
    while i < records.len()
        invariant
            i <= records.len(),
            out@.to_multiset() == records@.take(i as int).to_multiset(),
            all_qualified_consistent(records@) ==> records_sorted(out@),
            forall|k: int| 0 <= k < out@.len() ==> records@.take(i as int).contains(#[trigger] out@[k]),
        decreases records.len() - i,
    {
        let ghost before = out@;
        let j = insert_sorted(&mut out, records[i]);
        proof {
            assert(records@.take(i + 1) =~= records@.take(i as int).push(records@[i as int]));
            vstd::seq_lib::to_multiset_insert(before, j as int, records@[i as int]);
            vstd::seq_lib::to_multiset_build(records@.take(i as int), records@[i as int]);
            assert(out@.to_multiset() =~= records@.take(i + 1).to_multiset());
            assert forall|k: int| 0 <= k < out@.len() implies records@.take(i + 1).contains(#[trigger] out@[k]) by {
                if k < j {
                    assert(out@[k] == before[k]);
                    let m = choose|m: int| 0 <= m < i && records@.take(i as int)[m] == before[k];
                    assert(records@.take(i + 1)[m] == out@[k]);
                } else if k == j {
                    assert(records@.take(i + 1)[i as int] == out@[k]);
                } else {
                    assert(out@[k] == before[k - 1]);
                    let m = choose|m: int| 0 <= m < i && records@.take(i as int)[m] == before[k - 1];
                    assert(records@.take(i + 1)[m] == out@[k]);
                }
            }
            if all_qualified_consistent(records@) {
                assert forall|a: int, b: int| 0 <= a < out@.len() && 0 <= b < out@.len() implies #[trigger] qualified_consistent(
                    out@[a],
                    out@[b],
                ) by {
                    let t = records@.take(i + 1);
                    assert(t.contains(out@[a]));
                    assert(t.contains(out@[b]));
                    let ma = choose|m: int| 0 <= m < t.len() && t[m] == out@[a];
                    let mb = choose|m: int| 0 <= m < t.len() && t[m] == out@[b];
                    assert(records@[ma] == out@[a] && records@[mb] == out@[b]);
                    assert(qualified_consistent(records@[ma], records@[mb]));
                }
            }
        }
        i = i + 1;
    }
    proof {
        assert(records@.take(records.len() as int) =~= records@);
    }
    out
}

/// The records of `s` that are not stale at `now`, in order.
pub open spec fn keep_fresh(s: Seq<ForeignClockRecord>, now: Instant) -> Seq<ForeignClockRecord>
    decreases s.len(),
{
    if s.len() == 0 {
        Seq::empty()
    } else if s.last().spec_stale(now) {
        keep_fresh(s.drop_last(), now)
    } else {
        keep_fresh(s.drop_last(), now).push(s.last())
    }
}

/// [`keep_fresh`] keeps exactly the fresh records.
pub proof fn lemma_keep_fresh(s: Seq<ForeignClockRecord>, now: Instant)
    ensures
        keep_fresh(s, now).len() <= s.len(),
        forall|r: ForeignClockRecord| #[trigger]
            keep_fresh(s, now).contains(r) <==> s.contains(r) && !r.spec_stale(now),
    decreases s.len(),
{
    if s.len() > 0 {
        lemma_keep_fresh(s.drop_last(), now);
        let k = keep_fresh(s.drop_last(), now);
        assert forall|r: ForeignClockRecord| #[trigger]
            keep_fresh(s, now).contains(r) <==> s.contains(r) && !r.spec_stale(now) by {
            if s.contains(r) {
                let i = choose|i: int| 0 <= i < s.len() && s[i] == r;
                if i < s.len() - 1 {
                    assert(s.drop_last()[i] == r);
                }
            }
            if s.drop_last().contains(r) {
                let i = choose|i: int| 0 <= i < s.drop_last().len() && s.drop_last()[i] == r;
                assert(s[i] == r);
            }
            if !s.last().spec_stale(now) {
                assert(k.push(s.last())[k.len() as int] == s.last());
                if k.push(s.last()).contains(r) {
                    let i = choose|i: int| 0 <= i < k.len() + 1 && k.push(s.last())[i] == r;
                    if i < k.len() {
                        assert(k[i] == r);
                    }
                }
                if k.contains(r) {
                    let i = choose|i: int| 0 <= i < k.len() && k[i] == r;
                    assert(k.push(s.last())[i] == r);
                }
            }
        }
    }
}

/// Storage surface for foreign clock records.
///
/// The BMCA retains foreign clock candidates, updates them on further Announce messages,
/// qualifies them, and retrieves the best qualified one. Implementations choose the storage
/// strategy (heap, bounded, ...).
pub trait ForeignClockRecords {
    /// The records held, in storage order.
    spec fn spec_records(&self) -> Seq<ForeignClockRecord>;

    /// Remember (insert or update) a record.
    fn remember(&mut self, record: ForeignClockRecord)
        ensures
            remembered(old(self).spec_records(), record, final(self).spec_records()),
    ;

    /// The record [`ForeignClockRecords::best_qualified`] returns.
    spec fn spec_best_qualified(&self) -> Option<ForeignClockRecord>;

    /// The best qualified record, if any record is qualified.
    fn best_qualified(&self) -> (best: Option<&ForeignClockRecord>)
        ensures
            match best {
                Some(r) => self.spec_best_qualified() == Some(*r) && is_best_qualified(
                    self.spec_records(),
                    *r,
                ),
                None => self.spec_best_qualified() is None && no_qualified(self.spec_records()),
            },
    ;

    /// Drop the records that are stale at `now`; `true` if any was dropped.
    fn prune_stale(&mut self, now: Instant) -> (removed: bool)
        ensures
            final(self).spec_records() == keep_fresh(old(self).spec_records(), now),
            removed == (final(self).spec_records().len() != old(self).spec_records().len()),
    ;
}

/// Remembering keeps the sources of a store distinct.
pub proof fn lemma_remembered_distinct(
    old: Seq<ForeignClockRecord>,
    rec: ForeignClockRecord,
    new: Seq<ForeignClockRecord>,
)
    requires
        distinct_sources(old),
        remembered(old, rec, new),
    ensures
        distinct_sources(new),
{
    if source_absent(old, rec.source_port_identity) {
        if new != old {
            if exists|j: int| 0 <= j <= old.len() && new == old.insert(j, rec) {
                let j = choose|j: int| 0 <= j <= old.len() && new == old.insert(j, rec);
                lemma_insert_distinct(old, j, rec);
            } else {
                let (k, j) = choose|k: int, j: int|
                    0 <= k < old.len() && 0 <= j < old.len() && new == old.remove(k).insert(j, rec);
                lemma_remove_distinct(old, k);
                assert forall|i: int| 0 <= i < old.remove(k).len() implies (#[trigger] old.remove(k)[i]).source_port_identity
                    != rec.source_port_identity by {
                    let oi = if i < k { i } else { i + 1 };
                    assert(old.remove(k)[i] == old[oi]);
                }
                lemma_insert_distinct(old.remove(k), j, rec);
            }
        }
    } else {
        let (i0, j) = choose|i: int, j: int|
            first_from(old, rec.source_port_identity, i) && 0 <= j < old.len() && new == old.remove(i).insert(
                j,
                updated_record(old[i], rec),
            );
        let m = old.remove(i0);
        lemma_remove_distinct(old, i0);
        assert forall|i: int| 0 <= i < m.len() implies (#[trigger] m[i]).source_port_identity
            != updated_record(old[i0], rec).source_port_identity by {
            let oi = if i < i0 { i } else { i + 1 };
            assert(m[i] == old[oi]);
        }
        lemma_insert_distinct(m, j, updated_record(old[i0], rec));
    }
}

/// Removing a record keeps the sources distinct.
proof fn lemma_remove_distinct(s: Seq<ForeignClockRecord>, k: int)
    requires
        distinct_sources(s),
        0 <= k < s.len(),
    ensures
        distinct_sources(s.remove(k)),
{
    let r = s.remove(k);
    assert forall|a: int, b: int|
        0 <= a < r.len() && 0 <= b < r.len() && a != b implies r[a].source_port_identity
        != r[b].source_port_identity by {
        let oa = if a < k { a } else { a + 1 };
        let ob = if b < k { b } else { b + 1 };
        assert(r[a] == s[oa] && r[b] == s[ob]);
    }
}

/// Inserting a record of a new source keeps the sources distinct.
proof fn lemma_insert_distinct(s: Seq<ForeignClockRecord>, j: int, x: ForeignClockRecord)
    requires
        distinct_sources(s),
        0 <= j <= s.len(),
        source_absent(s, x.source_port_identity),
    ensures
        distinct_sources(s.insert(j, x)),
{
    let n = s.insert(j, x);
    assert forall|a: int, b: int|
        0 <= a < n.len() && 0 <= b < n.len() && a != b implies n[a].source_port_identity
        != n[b].source_port_identity by {
        if a != j {
            let oa = if a < j { a } else { a - 1 };
            assert(n[a] == s[oa]);
        }
        if b != j {
            let ob = if b < j { b } else { b - 1 };
            assert(n[b] == s[ob]);
        }
    }
}

/// The position of the first record of `records` from `src`, if any.
pub fn find_source(records: &Vec<ForeignClockRecord>, src: &PortIdentity) -> (i: Option<usize>)
    ensures
        match i {
            Some(i) => first_from(records@, *src, i as int),
            None => source_absent(records@, *src),
        },
{
    let mut i: usize = 0;
    while i < records.len()
        invariant
            i <= records.len(),
            forall|j: int| 0 <= j < i ==> (#[trigger] records@[j]).source_port_identity != *src,
        decreases records.len() - i,
    {
        if records[i].same_source_as(src) {
            return Some(i);
        }
        i = i + 1;
    }
    None
}

/// The position of the best qualified record of `records`, if any record is qualified.
pub fn best_qualified_index(records: &Vec<ForeignClockRecord>) -> (best: Option<usize>)
    ensures
        match best {
            Some(k) => k < records.len() && is_best_qualified(records@, records@[k as int])
                && scan_best(records@) == Some(records@[k as int]),
            None => no_qualified(records@) && scan_best(records@) is None,
        },
{
    let ghost s = records@;
    let mut best: Option<usize> = None;
    let mut i: usize = 0;
    while i < records.len()
        invariant
            i <= records.len(),
            s == records@,
            match best {
                Some(k) => scan_best(s.take(i as int)) == Some(s[k as int]),
                None => scan_best(s.take(i as int)) is None,
            },
            match best {
                Some(k) => k < i && s[k as int].spec_qualified() && (distinct_sources(s)
                    && all_qualified_consistent(s) ==> forall|j: int|
                    0 <= j < i && j != k ==> record_before(s[k as int], #[trigger] s[j])),
                None => forall|j: int| 0 <= j < i ==> !(#[trigger] s[j]).spec_qualified(),
            },
        decreases records.len() - i,
    {
        proof {
            assert(s.take(i + 1).drop_last() =~= s.take(i as int));
            assert(s.take(i + 1).last() == s[i as int]);
        }
        if records[i].qualification.is_qualified() {
            match best {
                None => {
                    best = Some(i);
                },
                Some(k) => {
                    if records[i].precedes(&records[k]) {
                        proof {
                            if distinct_sources(s) && all_qualified_consistent(s) {
                                assert forall|j: int|
                                    0 <= j < i + 1 && j != i implies record_before(
                                    s[i as int],
                                    #[trigger] s[j],
                                ) by {
                                    assert(qualified_consistent(s[i as int], s[k as int]));
                                    assert(qualified_consistent(s[k as int], s[j]));
                                    assert(qualified_consistent(s[i as int], s[j]));
                                    lemma_record_order(s[i as int], s[k as int], s[j]);
                                }
                            }
                        }
                        best = Some(i);
                    } else {
                        proof {
                            if distinct_sources(s) && all_qualified_consistent(s) {
                                assert(qualified_consistent(s[i as int], s[k as int]));
                                assert(qualified_consistent(s[k as int], s[i as int]));
                                assert(qualified_consistent(s[i as int], s[i as int]));
                                lemma_record_order(s[i as int], s[k as int], s[i as int]);
                            }
                        }
                    }
                },
            }
        } else {
            proof {
                match best {
                    Some(k) => {
                        assert(record_before(s[k as int], s[i as int]));
                    },
                    None => {},
                }
            }
        }
        i = i + 1;
    }
    proof {
        assert(s.take(s.len() as int) =~= s);
        match best {
            Some(k) => {
                assert(s[k as int] == s[k as int]);
                if distinct_sources(s) && all_qualified_consistent(s) {
                    assert forall|j: int|
                        0 <= j < s.len() && s[j] != s[k as int] implies record_before(
                        s[k as int],
                        #[trigger] s[j],
                    ) by {
                        assert(j != k);
                    }
                }
            },
            None => {},
        }
    }
    best
}

/// The records of `records` that are fresh at `now`, in order.
pub fn fresh_records(records: &Vec<ForeignClockRecord>, now: Instant) -> (kept: Vec<
    ForeignClockRecord,
>)
    ensures
        kept@ == keep_fresh(records@, now),
{
    let mut kept: Vec<ForeignClockRecord> = Vec::new();
    let mut i: usize = 0;
    while i < records.len()
        invariant
            i <= records.len(),
            kept@ == keep_fresh(records@.take(i as int), now),
        decreases records.len() - i,
    {
        proof {
            assert(records@.take(i + 1).drop_last() =~= records@.take(i as int));
        }
        if !records[i].is_stale(now) {
            kept.push(records[i]);
        }
        i = i + 1;
    }
    proof {
        assert(records@.take(records.len() as int) =~= records@);
    }
    kept
}

} // verus!
