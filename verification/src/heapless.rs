//! Fixed-capacity storage for foreign clock records, for allocator-conscious adopters.
//!
//! [`HeaplessForeignClockRecords`] holds at most `N` records, in store order ("best first") where
//! their qualified data sets are consistent. When a record of a new source
//! arrives at capacity, a [`RemovalPolicy`] decides by data set quality alone (ignoring
//! qualification) whether it replaces an existing record: the new record replaces the worst
//! record it beats, and is dropped when it beats none. A better but not yet qualified candidate
//! can thus enter the set and qualify later.
//!
//! The records are held in a std `Vec` whose length a type invariant bounds by `N`, so that the
//! store's contents are specified for every capacity `N`.
use vstd::prelude::*;

use crate::bmca::ds_better;
use crate::records::{
    all_qualified_consistent, best_qualified_index, distinct_sources, find_source, first_from,
    fresh_records, insert_sorted, keep_fresh, lemma_record_order, lemma_remove_sorted,
    qualified_consistent, record_before, records_sorted, scan_best, sorted_records, source_absent,
    ForeignClockRecord, ForeignClockRecords,
};
use crate::time::Instant;

verus! {

/// `k` is the position of the worst record of `s` whose data set `candidate` beats: when the
/// sources are distinct and the qualified data sets consistent, every other beaten record orders
/// before it.
pub open spec fn worst_beaten(s: Seq<ForeignClockRecord>, candidate: ForeignClockRecord, k: int) -> bool {
    &&& 0 <= k < s.len()
    &&& ds_better(candidate.foreign_clock_ds, s[k].foreign_clock_ds)
    &&& distinct_sources(s) && all_qualified_consistent(s) ==> forall|j: int|
        0 <= j < s.len() && j != k && ds_better(candidate.foreign_clock_ds, s[j].foreign_clock_ds)
            ==> record_before(#[trigger] s[j], s[k])
}

/// `candidate` beats no record of `s` by data set.
pub open spec fn beats_none(s: Seq<ForeignClockRecord>, candidate: ForeignClockRecord) -> bool {
    forall|j: int| 0 <= j < s.len() ==> !ds_better(
        candidate.foreign_clock_ds,
        (#[trigger] s[j]).foreign_clock_ds,
    )
}

/// Replacement policy at capacity: choose the worst record that the candidate beats by data set.
pub struct RemovalPolicy;

impl RemovalPolicy {
    /// The position of the record to remove to make room for `candidate`, if any.
    pub fn candidate_index(&self, current: &Vec<ForeignClockRecord>, candidate: &ForeignClockRecord) -> (k:
        Option<usize>)
        ensures
            match k {
                Some(k) => worst_beaten(current@, *candidate, k as int),
                None => beats_none(current@, *candidate),
            },
    {
        let ghost s = current@;
        let mut worst: Option<usize> = None;
        let mut i: usize = 0;
        while i < current.len()
            invariant
                i <= current.len(),
                s == current@,
                match worst {
                    Some(k) => k < i && ds_better(candidate.foreign_clock_ds, s[k as int].foreign_clock_ds)
                        && (distinct_sources(s) && all_qualified_consistent(s) ==> forall|j: int|
                        0 <= j < i && j != k && ds_better(
                            candidate.foreign_clock_ds,
                            s[j].foreign_clock_ds,
                        ) ==> record_before(#[trigger] s[j], s[k as int])),
                    None => forall|j: int|
                        0 <= j < i ==> !ds_better(
                            candidate.foreign_clock_ds,
                            (#[trigger] s[j]).foreign_clock_ds,
                        ),
                },
            decreases current.len() - i,
        {
            if candidate.better_by_dataset_than(&current[i]) {
                match worst {
                    None => {
                        worst = Some(i);
                    },
                    Some(k) => {
                        if current[k].precedes(&current[i]) {
                            proof {
                                if distinct_sources(s) && all_qualified_consistent(s) {
                                    assert forall|j: int|
                                        0 <= j < i + 1 && j != i && ds_better(
                                            candidate.foreign_clock_ds,
                                            s[j].foreign_clock_ds,
                                        ) implies record_before(#[trigger] s[j], s[i as int]) by {
                                        assert(qualified_consistent(s[j], s[k as int]));
                                        assert(qualified_consistent(s[k as int], s[i as int]));
                                        assert(qualified_consistent(s[j], s[i as int]));
                                        lemma_record_order(s[j], s[k as int], s[i as int]);
                                    }
                                }
                            }
                            worst = Some(i);
                        } else {
                            proof {
                                if distinct_sources(s) && all_qualified_consistent(s) {
                                    assert(qualified_consistent(s[i as int], s[k as int]));
                                    assert(qualified_consistent(s[k as int], s[i as int]));
                                    assert(qualified_consistent(s[i as int], s[i as int]));
                                    lemma_record_order(s[i as int], s[k as int], s[i as int]);
                                }
                            }
                        }
                    },
                }
            }
            i = i + 1;
        }
        worst
    }
}

/// Bounded [`ForeignClockRecords`] holding at most `N` records (see the module documentation for
/// the replacement behaviour at capacity).
pub struct HeaplessForeignClockRecords<const N: usize> {
    records: Vec<ForeignClockRecord>,
    removal_policy: RemovalPolicy,
}

impl<const N: usize> HeaplessForeignClockRecords<N> {
    #[verifier::type_invariant]
    closed spec fn inv(self) -> bool {
        self.records@.len() <= N
    }

    /// An empty store with capacity `N`.
    pub fn new() -> (h: HeaplessForeignClockRecords<N>)
        ensures
            h.spec_records() == Seq::<ForeignClockRecord>::empty(),
    {
        HeaplessForeignClockRecords { records: Vec::new(), removal_policy: RemovalPolicy }
    }

    /// A store holding `records` in store order, or an empty store if they exceed the capacity:
    /// the same records, each as often as given, sorted where their qualified data sets are
    /// consistent.
    pub fn from_records(records: &[ForeignClockRecord]) -> (h: HeaplessForeignClockRecords<N>)
        ensures
            records@.len() <= N ==> h.spec_records().to_multiset() == records@.to_multiset(),
            records@.len() <= N && all_qualified_consistent(records@) ==> records_sorted(h.spec_records()),
            records@.len() > N ==> h.spec_records() == Seq::<ForeignClockRecord>::empty(),
    {
        if records.len() > N {
            return HeaplessForeignClockRecords { records: Vec::new(), removal_policy: RemovalPolicy };
        }
        let out = sorted_records(records);
        proof {
            vstd::seq_lib::to_multiset_len(out@);
            vstd::seq_lib::to_multiset_len(records@);
        }
        HeaplessForeignClockRecords { records: out, removal_policy: RemovalPolicy }
    }

    /// The records held, in storage order.
    pub fn as_slice(&self) -> (r: &[ForeignClockRecord])
        ensures
            r@ == self.spec_records(),
    {
        self.records.as_slice()
    }

    /// The number of records held.
    pub fn len(&self) -> (n: usize)
        ensures
            n == self.spec_records().len(),
            n <= N,
    {
        proof {
            use_type_invariant(self);
        }
        self.records.len()
    }
}

impl<const N: usize> ForeignClockRecords for HeaplessForeignClockRecords<N> {
    closed spec fn spec_records(&self) -> Seq<ForeignClockRecord> {
        self.records@
    }

    closed spec fn spec_best_qualified(&self) -> Option<ForeignClockRecord> {
        scan_best(self.records@)
    }

    /// Remember a record: a record of a known source is updated and moved to its place in the
    /// store order; a record of a new source is inserted at its place, and at capacity it replaces
    /// the worst record it beats by data set, or is dropped. A store in order stays in order where
    /// the qualified data sets are consistent.
    fn remember(&mut self, record: ForeignClockRecord)
        ensures
            final(self).spec_records().len() <= N,
            source_absent(old(self).spec_records(), record.source_port_identity) ==> {
                let old_s = old(self).spec_records();
                let new_s = final(self).spec_records();
                if old_s.len() < N {
                    exists|j: int| 0 <= j <= old_s.len() && new_s == old_s.insert(j, record)
                } else if beats_none(old_s, record) {
                    new_s == old_s
                } else {
                    exists|k: int, j: int|
                        worst_beaten(old_s, record, k) && 0 <= j < old_s.len() && new_s == old_s.remove(k).insert(
                            j,
                            record,
                        )
                }
            },
            records_sorted(old(self).spec_records()) && all_qualified_consistent(final(self).spec_records())
                ==> records_sorted(final(self).spec_records()),
    {
        proof {
            use_type_invariant(&*self);
        }
        let mut v: Vec<ForeignClockRecord> = Vec::new();
        std::mem::swap(&mut v, &mut self.records);
        let ghost old_s = v@;
        match find_source(&v, &record.source_port_identity) {
            Some(i) => {
                let mut existing = v.remove(i);
                let _ = existing.update_from(&record);
                proof {
                    if records_sorted(old_s) {
                        lemma_remove_sorted(old_s, i as int);
                    }
                }
                insert_sorted(&mut v, existing);
                assert(first_from(old_s, record.source_port_identity, i as int));
            },
            None => {
                if v.len() < N {
                    insert_sorted(&mut v, record);
                } else {
                    match self.removal_policy.candidate_index(&v, &record) {
                        Some(index) => {
                            v.remove(index);
                            proof {
                                if records_sorted(old_s) {
                                    lemma_remove_sorted(old_s, index as int);
                                }
                            }
                            insert_sorted(&mut v, record);
                            assert(worst_beaten(old_s, record, index as int));
                        },
                        None => {},
                    }
                }
            },
        }
        self.records = v;
    }

    fn best_qualified(&self) -> (best: Option<&ForeignClockRecord>) {
        match best_qualified_index(&self.records) {
            Some(k) => Some(&self.records[k]),
            None => None,
        }
    }

    fn prune_stale(&mut self, now: Instant) -> (removed: bool)
        ensures
            records_sorted(old(self).spec_records()) ==> records_sorted(final(self).spec_records()),
    {
        proof {
            use_type_invariant(&*self);
            crate::records::lemma_keep_fresh(self.records@, now);
            if records_sorted(self.records@) {
                crate::records::lemma_keep_fresh_sorted(self.records@, now);
            }
        }
        let kept = fresh_records(&self.records, now);
        let removed = kept.len() != self.records.len();
        self.records = kept;
        removed
    }
}

} // verus!
