//! Heap-backed storage adapters for the BMCA: a `Vec` of foreign clock records, and a per-port
//! store of best foreign candidates for multi-port (boundary clock) setups.
use vstd::prelude::*;

use crate::bmca::{
    dataset_of, ds_better, ds_consistent, foreign_better, lemma_ds_better_irreflexive,
    lemma_ds_better_transitive, BestForeignSnapshot, ForeignGrandMasterCandidates,
};
use crate::port::PortNumber;
use crate::records::{
    all_qualified_consistent, best_qualified_index, find_source, first_from, fresh_records,
    insert_sorted, keep_fresh, lemma_remove_sorted, records_sorted, scan_best, sorted_records,
    source_absent, updated_record, ForeignClockRecord, ForeignClockRecords,
};
use crate::time::Instant;

verus! {

/// `Vec`-backed [`ForeignClockRecords`]: records are kept in store order ("best first"; see
/// [`records_sorted`]) wherever their qualified data sets are consistent.
pub struct ForeignClockRecordsVec {
    records: Vec<ForeignClockRecord>,
}

impl ForeignClockRecordsVec {
    /// An empty store.
    pub fn new() -> (v: ForeignClockRecordsVec)
        ensures
            v.spec_records() == Seq::<ForeignClockRecord>::empty(),
    {
        ForeignClockRecordsVec { records: Vec::new() }
    }

    /// A store holding `records`, put in store order: the same records, each once for each time it
    /// is given, sorted where their qualified data sets are consistent.
    pub fn from_records(records: &[ForeignClockRecord]) -> (v: ForeignClockRecordsVec)
        ensures
            v.spec_records().to_multiset() == records@.to_multiset(),
            all_qualified_consistent(records@) ==> records_sorted(v.spec_records()),
    {
        let out = sorted_records(records);
        ForeignClockRecordsVec { records: out }
    }

    /// The records held, in storage order.
    pub fn as_slice(&self) -> (r: &[ForeignClockRecord])
        ensures
            r@ == self.spec_records(),
    {
        self.records.as_slice()
    }

    /// The number of records held.
    pub fn len(&self) -> (n: usize)
        ensures
            n == self.spec_records().len(),
    {
        self.records.len()
    }

    /// `true` if no record is held.
    pub fn is_empty(&self) -> (b: bool)
        ensures
            b == (self.spec_records().len() == 0),
    {
        self.records.len() == 0
    }
}

impl ForeignClockRecords for ForeignClockRecordsVec {
    closed spec fn spec_records(&self) -> Seq<ForeignClockRecord> {
        self.records@
    }

    closed spec fn spec_best_qualified(&self) -> Option<ForeignClockRecord> {
        scan_best(self.records@)
    }

    /// Remember a record: a record of a known source is updated and moved to its place in the
    /// store order; a record of a new source is inserted at its place. A store in order stays in
    /// order where the qualified data sets are consistent.
    fn remember(&mut self, record: ForeignClockRecord)
        ensures
            source_absent(old(self).spec_records(), record.source_port_identity) ==> exists|j: int|
                0 <= j <= old(self).spec_records().len() && final(self).spec_records() == old(
                    self,
                ).spec_records().insert(j, record),
            records_sorted(old(self).spec_records()) && all_qualified_consistent(final(self).spec_records())
                ==> records_sorted(final(self).spec_records()),
    {
        let ghost old_s = self.records@;
        match find_source(&self.records, &record.source_port_identity) {
            Some(i) => {
                let mut existing = self.records.remove(i);
                let _ = existing.update_from(&record);
                proof {
                    if records_sorted(old_s) {
                        lemma_remove_sorted(old_s, i as int);
                    }
                }
                insert_sorted(&mut self.records, existing);
                assert(first_from(old_s, record.source_port_identity, i as int));
            },
            None => {
                insert_sorted(&mut self.records, record);
            },
        }
    }

    fn best_qualified(&self) -> (best: Option<&ForeignClockRecord>) {
        match best_qualified_index(&self.records) {
            Some(k) => Some(&self.records[k]),
            None => None,
        }
    }

    fn prune_stale(&mut self, now: Instant) -> (removed: bool)
        ensures
            records_sorted(old(self).spec_records()) ==> records_sorted(final(self).spec_records()),
    {
        proof {
            if records_sorted(self.records@) {
                crate::records::lemma_keep_fresh_sorted(self.records@, now);
            }
        }
        let kept = fresh_records(&self.records, now);
        let removed = kept.len() != self.records.len();
        self.records = kept;
        removed
    }
}

/// The entries' ports are strictly increasing.
pub open spec fn ports_sorted(s: Seq<(PortNumber, BestForeignSnapshot)>) -> bool {
    forall|i: int, j: int| 0 <= i < j < s.len() ==> (#[trigger] s[i]).0.0 < (#[trigger] s[j]).0.0
}

/// Every entry holds a qualified candidate.
pub open spec fn all_entries_qualified(s: Seq<(PortNumber, BestForeignSnapshot)>) -> bool {
    forall|i: int| 0 <= i < s.len() ==> (#[trigger] s[i]).1 is Qualified
}

/// The best candidate found by one scan over the entries in port order: an entry replaces the
/// current candidate when it is strictly better.
pub open spec fn snapshot_scan(s: Seq<(PortNumber, BestForeignSnapshot)>) -> BestForeignSnapshot
    decreases s.len(),
{
    if s.len() == 0 {
        BestForeignSnapshot::Empty
    } else {
        let b = snapshot_scan(s.drop_last());
        let x = s.last().1;
        if foreign_better(dataset_of(x), dataset_of(b)) {
            x
        } else {
            b
        }
    }
}

/// The data sets of the entries agree wherever they name the same clock.
pub open spec fn entries_consistent(s: Seq<(PortNumber, BestForeignSnapshot)>) -> bool {
    forall|i: int, j: int|
        0 <= i < s.len() && 0 <= j < s.len() ==> match (#[trigger] s[i].1, #[trigger] s[j].1) {
            (
                BestForeignSnapshot::Qualified { ds: a, .. },
                BestForeignSnapshot::Qualified { ds: b, .. },
            ) => ds_consistent(a, b),
            _ => true,
        }
}

/// `best` is a best candidate of the entries `s`: `Empty` exactly when there is no entry, else
/// one of the stored snapshots, and no stored snapshot's data set is better than it.
pub open spec fn best_of_entries(s: Seq<(PortNumber, BestForeignSnapshot)>, best: BestForeignSnapshot) -> bool {
    &&& (best is Empty) == (s.len() == 0)
    &&& best is Qualified ==> exists|i: int| 0 <= i < s.len() && #[trigger] s[i].1 == best
    &&& forall|i: int| 0 <= i < s.len() ==> !foreign_better(dataset_of(#[trigger] s[i].1), dataset_of(best))
}

/// Over qualified entries whose data sets agree wherever they name the same clock, one scan in
/// port order finds a best candidate (see [`best_of_entries`]).
pub proof fn lemma_snapshot_scan_is_best(s: Seq<(PortNumber, BestForeignSnapshot)>)
    requires
        all_entries_qualified(s),
        entries_consistent(s),
    ensures
        best_of_entries(s, snapshot_scan(s)),
    decreases s.len(),
{
    if s.len() > 0 {
        let p = s.drop_last();
        assert(all_entries_qualified(p)) by {
            assert forall|i: int| 0 <= i < p.len() implies (#[trigger] p[i]).1 is Qualified by {
                assert(p[i] == s[i]);
            }
        }
        assert(entries_consistent(p)) by {
            assert forall|i: int, j: int| 0 <= i < p.len() && 0 <= j < p.len() implies match (
                #[trigger] p[i].1,
                #[trigger] p[j].1,
            ) {
                (
                    BestForeignSnapshot::Qualified { ds: a, .. },
                    BestForeignSnapshot::Qualified { ds: b, .. },
                ) => ds_consistent(a, b),
                _ => true,
            } by {
                assert(p[i] == s[i] && p[j] == s[j]);
            }
        }
        lemma_snapshot_scan_is_best(p);
        let b = snapshot_scan(p);
        let n = s.len() - 1;
        let x = s[n].1;
        assert(s.last() == s[n]);
        assert(x is Qualified);
        let r = snapshot_scan(s);
        if foreign_better(dataset_of(x), dataset_of(b)) {
            assert(r == x);
            assert forall|i: int| 0 <= i < s.len() implies !foreign_better(
                dataset_of(#[trigger] s[i].1),
                dataset_of(r),
            ) by {
                if i < n {
                    assert(p[i] == s[i]);
                    assert(!foreign_better(dataset_of(p[i].1), dataset_of(b)));
                    assert(b is Qualified);
                    assert(s[i].1 is Qualified);
                    let bi = choose|k: int| 0 <= k < p.len() && #[trigger] p[k].1 == b;
                    assert(p[bi] == s[bi]);
                    let di = s[i].1->Qualified_ds;
                    let dx = x->Qualified_ds;
                    let db = b->Qualified_ds;
                    assert(ds_consistent(di, dx));
                    assert(ds_consistent(dx, db));
                    assert(ds_consistent(di, db));
                    if ds_better(di, dx) {
                        lemma_ds_better_transitive(di, dx, db);
                    }
                } else {
                    lemma_ds_better_irreflexive(x->Qualified_ds);
                }
            }
            assert(s[n].1 == r);
        } else {
            assert(r == b);
            assert(p.len() > 0);
            let bi = choose|k: int| 0 <= k < p.len() && #[trigger] p[k].1 == b;
            assert(s[bi] == p[bi]);
            assert forall|i: int| 0 <= i < s.len() implies !foreign_better(
                dataset_of(#[trigger] s[i].1),
                dataset_of(r),
            ) by {
                if i < n {
                    assert(p[i] == s[i]);
                }
            }
        }
    }
}

/// The best candidate of a multi-port store (`E_best`): with the stored data sets agreeing
/// wherever they name the same clock, it is `Empty` exactly when no port reported a candidate,
/// else one of the stored candidates, and no stored candidate's data set is better than it.
pub proof fn lemma_multi_port_best(m: MultiPortForeignCandidates)
    requires
        all_entries_qualified(m.spec_entries()),
        entries_consistent(m.spec_entries()),
    ensures
        best_of_entries(m.spec_entries(), m.spec_best()),
{
    lemma_snapshot_scan_is_best(m.spec_entries());
}

/// `new` is the entries `old` after `port` reported `snapshot`: a qualified report holds the
/// port's entry, an empty one removes it; the other ports' entries stay; the entries stay in
/// increasing port order and qualified.
pub open spec fn entries_remembered(
    old: Seq<(PortNumber, BestForeignSnapshot)>,
    port: PortNumber,
    snapshot: BestForeignSnapshot,
    new: Seq<(PortNumber, BestForeignSnapshot)>,
) -> bool {
    &&& ports_sorted(new)
    &&& all_entries_qualified(new)
    &&& forall|i: int| 0 <= i < new.len() && (#[trigger] new[i]).0 != port ==> old.contains(new[i])
    &&& forall|i: int| 0 <= i < old.len() && (#[trigger] old[i]).0 != port ==> new.contains(old[i])
    &&& snapshot is Qualified ==> new.contains((port, snapshot))
    &&& forall|i: int|
        0 <= i < new.len() && (#[trigger] new[i]).0 == port ==> snapshot is Qualified && new[i].1 == snapshot
}

/// Per-port best foreign candidates for boundary clock setups: each port reports its best
/// qualified candidate (or that it has none), and the store presents the best across ports.
pub struct MultiPortForeignCandidates {
    by_port: Vec<(PortNumber, BestForeignSnapshot)>,
}

impl MultiPortForeignCandidates {
    #[verifier::type_invariant]
    closed spec fn inv(self) -> bool {
        ports_sorted(self.by_port@) && all_entries_qualified(self.by_port@)
    }

    /// The stored entries, in increasing port order.
    pub closed spec fn spec_entries(&self) -> Seq<(PortNumber, BestForeignSnapshot)> {
        self.by_port@
    }

    /// An empty store.
    pub fn new() -> (m: MultiPortForeignCandidates)
        ensures
            m.spec_entries() == Seq::<(PortNumber, BestForeignSnapshot)>::empty(),
            m.spec_best() == BestForeignSnapshot::Empty,
    {
        MultiPortForeignCandidates { by_port: Vec::new() }
    }
}

/// A store without entries keeps none when a port reports that it has no candidate: its best
/// stays `Empty`.
pub proof fn lemma_empty_report_keeps_empty(
    m: MultiPortForeignCandidates,
    port: PortNumber,
    after: MultiPortForeignCandidates,
)
    requires
        m.spec_entries().len() == 0,
        m.remembers(port, BestForeignSnapshot::Empty, after),
    ensures
        after.spec_entries().len() == 0,
        after.spec_best() == BestForeignSnapshot::Empty,
{
    let s = after.spec_entries();
    if s.len() > 0 {
        let e = s[0];
        if e.0 != port {
            assert(m.spec_entries().contains(e));
        }
    }
}

impl ForeignGrandMasterCandidates for MultiPortForeignCandidates {
    /// The best of one scan over the entries in port order.
    open spec fn spec_best(&self) -> BestForeignSnapshot {
        snapshot_scan(self.spec_entries())
    }

    /// A qualified report replaces the port's entry; an empty one removes it.
    open spec fn remembers(&self, port: PortNumber, snapshot: BestForeignSnapshot, after: Self) -> bool {
        entries_remembered(self.spec_entries(), port, snapshot, after.spec_entries())
    }

    /// A qualified report replaces the port's entry; an empty one removes it.
    fn remember(&mut self, port: PortNumber, snapshot: BestForeignSnapshot) {
        proof {
            use_type_invariant(&*self);
        }
        let mut v: Vec<(PortNumber, BestForeignSnapshot)> = Vec::new();
        std::mem::swap(&mut v, &mut self.by_port);
        let ghost old_s = v@;
        let mut i: usize = 0;
        while i < v.len() && v[i].0.0 < port.0
            invariant
                i <= v.len(),
                v@ == old_s,
                ports_sorted(old_s),
                forall|j: int| 0 <= j < i ==> (#[trigger] old_s[j]).0.0 < port.0,
            decreases v.len() - i,
        {
            i = i + 1;
        }
        let found = i < v.len() && v[i].0.0 == port.0;
        match snapshot {
            BestForeignSnapshot::Qualified { .. } => {
                if found {
                    v.set(i, (port, snapshot));
                    proof {
                        let s = v@;
                        assert(s[i as int] == (port, snapshot));
                        assert forall|a: int, b: int| 0 <= a < b < s.len() implies (#[trigger] s[a]).0.0
                            < (#[trigger] s[b]).0.0 by {
                            assert(old_s[a].0.0 < old_s[b].0.0);
                        }
                        assert forall|j: int|
                            0 <= j < s.len() && (#[trigger] s[j]).0 != port implies old_s.contains(
                            s[j],
                        ) by {
                            assert(old_s[j] == s[j]);
                        }
                        assert forall|j: int|
                            0 <= j < old_s.len() && (#[trigger] old_s[j]).0 != port implies s.contains(
                            old_s[j],
                        ) by {
                            assert(old_s[j] == s[j]);
                        }
                        assert forall|j: int|
                            0 <= j < s.len() && (#[trigger] s[j]).0 == port implies snapshot is Qualified
                                && s[j].1 == snapshot by {
                            if j != i {
                                assert(old_s[j] == s[j]);
                                assert(old_s[i as int].0.0 == port.0);
                            }
                        }
                    }
                } else {
                    v.insert(i, (port, snapshot));
                    proof {
                        let s = v@;
                        assert(s[i as int] == (port, snapshot));
                        assert forall|j: int| 0 <= j < s.len() implies (#[trigger] s[j]) == if j < i {
                            old_s[j]
                        } else if j == i {
                            (port, snapshot)
                        } else {
                            old_s[j - 1]
                        } by {}
                        assert forall|a: int, b: int| 0 <= a < b < s.len() implies (#[trigger] s[a]).0.0
                            < (#[trigger] s[b]).0.0 by {
                            if b < i {
                                assert(old_s[a].0.0 < old_s[b].0.0);
                            } else if a < i && b == i {
                            } else if a < i {
                                assert(old_s[a].0.0 < old_s[b - 1].0.0);
                            } else if a == i {
                                assert(old_s[i as int].0.0 <= old_s[b - 1].0.0);
                            } else {
                                assert(old_s[a - 1].0.0 < old_s[b - 1].0.0);
                            }
                        }
                        assert forall|j: int|
                            0 <= j < s.len() && (#[trigger] s[j]).0 != port implies old_s.contains(
                            s[j],
                        ) by {
                            if j < i {
                                assert(old_s[j] == s[j]);
                            } else if j > i {
                                assert(old_s[j - 1] == s[j]);
                            }
                        }
                        assert forall|j: int|
                            0 <= j < old_s.len() && (#[trigger] old_s[j]).0 != port implies s.contains(
                            old_s[j],
                        ) by {
                            if j < i {
                                assert(old_s[j] == s[j]);
                            } else {
                                assert(old_s[j] == s[j + 1]);
                            }
                        }
                        assert forall|j: int|
                            0 <= j < s.len() && (#[trigger] s[j]).0 == port implies snapshot is Qualified
                                && s[j].1 == snapshot by {
                            if j < i {
                                assert(old_s[j].0.0 < port.0);
                            } else if j > i {
                                assert(old_s[i as int].0.0 <= old_s[j - 1].0.0);
                                assert(old_s[i as int].0.0 != port.0);
                            }
                        }
                    }
                }
            },
            BestForeignSnapshot::Empty => {
                if found {
                    v.remove(i);
                    proof {
                        let s = v@;
                        assert forall|j: int| 0 <= j < s.len() implies (#[trigger] s[j]) == if j < i {
                            old_s[j]
                        } else {
                            old_s[j + 1]
                        } by {}
                        assert forall|a: int, b: int| 0 <= a < b < s.len() implies (#[trigger] s[a]).0.0
                            < (#[trigger] s[b]).0.0 by {
                            if b < i {
                                assert(old_s[a].0.0 < old_s[b].0.0);
                            } else if a < i {
                                assert(old_s[a].0.0 < old_s[b + 1].0.0);
                            } else {
                                assert(old_s[a + 1].0.0 < old_s[b + 1].0.0);
                            }
                        }
                        assert forall|j: int|
                            0 <= j < s.len() && (#[trigger] s[j]).0 != port implies old_s.contains(
                            s[j],
                        ) by {
                            if j < i {
                                assert(old_s[j] == s[j]);
                            } else {
                                assert(old_s[j + 1] == s[j]);
                            }
                        }
                        assert forall|j: int|
                            0 <= j < old_s.len() && (#[trigger] old_s[j]).0 != port implies s.contains(
                            old_s[j],
                        ) by {
                            if j < i {
                                assert(old_s[j] == s[j]);
                            } else {
                                assert(j != i);
                                assert(old_s[j] == s[j - 1]);
                            }
                        }
                        assert forall|j: int| 0 <= j < s.len() implies (#[trigger] s[j]).0 != port by {
                            if j < i {
                                assert(old_s[j].0.0 < port.0);
                            } else {
                                assert(old_s[i as int].0.0 < old_s[j + 1].0.0);
                            }
                        }
                    }
                } else {
                    proof {
                        assert forall|j: int| 0 <= j < old_s.len() implies (#[trigger] old_s[j]).0
                            != port by {
                            if j >= i {
                                if i < old_s.len() {
                                    assert(old_s[i as int].0.0 <= old_s[j].0.0);
                                }
                            }
                        }
                        assert forall|j: int|
                            0 <= j < old_s.len() && (#[trigger] old_s[j]).0 != port implies old_s.contains(
                            old_s[j],
                        ) by {}
                    }
                }
            },
        }
        self.by_port = v;
    }

    /// The best candidate across the ports' entries (see [`best_of_entries`]).
    fn best(&self) -> (b: BestForeignSnapshot)
        ensures
            entries_consistent(self.spec_entries()) ==> best_of_entries(self.spec_entries(), b),
    {
        proof {
            use_type_invariant(self);
            if entries_consistent(self.spec_entries()) {
                lemma_snapshot_scan_is_best(self.spec_entries());
            }
        }
        let mut best_snapshot = BestForeignSnapshot::Empty;
        let mut i: usize = 0;
        while i < self.by_port.len()
            invariant
                i <= self.by_port.len(),
                best_snapshot == snapshot_scan(self.by_port@.take(i as int)),
            decreases self.by_port.len() - i,
        {
            proof {
                assert(self.by_port@.take(i + 1).drop_last() =~= self.by_port@.take(i as int));
            }
            let snapshot = self.by_port[i].1;
            let better = snapshot.as_best_foreign_dataset().better_than(
                &best_snapshot.as_best_foreign_dataset(),
            );
            if better {
                best_snapshot = snapshot;
            }
            i = i + 1;
        }
        proof {
            assert(self.by_port@.take(self.by_port.len() as int) =~= self.by_port@);
        }
        best_snapshot
    }
}

} // verus!
