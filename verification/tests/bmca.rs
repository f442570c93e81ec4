use rptp::bmca::{
    BestForeignDataset, BestForeignRecord, BestForeignSnapshot, BestMasterClockAlgorithm, Bmca,
    BmcaDecision, BmcaMasterDecision, BmcaMasterDecisionPoint, ClockDS, ForeignGrandMasterCandidates,
    GrandMasterTrackingBmca, ListeningBmca, ParentTrackingBmca, PassiveBmca, Priority1, Priority2,
    QualificationTimeoutPolicy,
};
use rptp::clock::{ClockAccuracy, ClockClass, ClockIdentity, ClockQuality, StepsRemoved};
use rptp::heapless::HeaplessForeignClockRecords;
use rptp::infra::{ForeignClockRecordsVec, MultiPortForeignCandidates};
use rptp::port::{ParentPortIdentity, PortIdentity, PortNumber};
use rptp::records::{ForeignClockRecord, ForeignClockRecords, ForeignClockStatus};
use rptp::time::{Duration, Instant, LogInterval};

/// Data sets of well-known clock kinds used throughout these tests.
#[derive(Clone, Copy)]
struct TestClockDS {
    ds: ClockDS,
}

impl TestClockDS {
    fn new(id: u8, priority1: u8, class: u8, accuracy: u8, variance: u16) -> Self {
        Self {
            ds: ClockDS::new(
                ClockIdentity::new(&[0x00, 0x1B, 0x19, 0xFF, 0xFE, 0x00, 0x00, id]),
                Priority1::new(priority1),
                Priority2::new(127),
                ClockQuality::new(ClockClass::new(class), ClockAccuracy::new(accuracy), variance),
                StepsRemoved::new(0),
            ),
        }
    }

    fn default_high_grade() -> Self {
        Self::new(1, 127, 248, 0x21, 0x4000)
    }

    fn default_mid_grade() -> Self {
        Self::new(2, 127, 248, 0x23, 0x4000)
    }

    fn default_low_grade() -> Self {
        Self::new(3, 127, 248, 0x29, 0x4000)
    }

    fn default_low_grade_slave_only() -> Self {
        Self::new(4, 127, 255, 0xFE, 0xFFFF)
    }

    fn gps_grandmaster() -> Self {
        Self::new(5, 100, 6, 0x21, 0x4000)
    }

    fn atomic_grandmaster() -> Self {
        Self::new(6, 100, 6, 0x20, 0x4000)
    }

    fn dataset(&self) -> ClockDS {
        self.ds
    }

    fn clock_identity(&self) -> ClockIdentity {
        self.ds.identity
    }

    fn with_priority1(mut self, p: Priority1) -> Self {
        self.ds.priority1 = p;
        self
    }

    fn with_priority2(mut self, p: Priority2) -> Self {
        self.ds.priority2 = p;
        self
    }

    fn with_clock_identity(mut self, id: ClockIdentity) -> Self {
        self.ds.identity = id;
        self
    }

    fn with_steps_removed(mut self, s: StepsRemoved) -> Self {
        self.ds.steps_removed = s;
        self
    }
}

fn single_port_bmca(ds: ClockDS) -> BestMasterClockAlgorithm<ClockDS, BestForeignSnapshot> {
    BestMasterClockAlgorithm::new(ds, BestForeignSnapshot::Empty, PortNumber::new(1))
}

fn empty_records() -> BestForeignRecord<ForeignClockRecordsVec> {
    BestForeignRecord::new(PortNumber::new(1), ForeignClockRecordsVec::new())
}

#[test]
fn grandmaster_tracking_bmca_gates_when_grandmaster_id_matches() {
    let default_ds = TestClockDS::default_high_grade().dataset();
    let mut bmca = GrandMasterTrackingBmca::new(
        single_port_bmca(default_ds),
        empty_records(),
        *default_ds.identity(),
    );

    assert_eq!(bmca.decision(), None);
}

#[test]
fn grandmaster_tracking_bmca_emits_when_grandmaster_id_differs() {
    let default_ds = TestClockDS::default_high_grade().dataset();
    let other_grandmaster_id = TestClockDS::gps_grandmaster().clock_identity();
    let mut bmca =
        GrandMasterTrackingBmca::new(single_port_bmca(default_ds), empty_records(), other_grandmaster_id);

    assert!(matches!(bmca.decision(), Some(BmcaDecision::Master(_))));
}

#[test]
fn grandmaster_tracking_bmca_does_not_gate_passive_decisions() {
    let now = Instant::from_secs(0);
    let default_ds = TestClockDS::gps_grandmaster().dataset();

    let better = TestClockDS::atomic_grandmaster();
    let better_port_id = PortIdentity::new(better.clock_identity(), PortNumber::new(1));
    let records = [ForeignClockRecord::qualified(better_port_id, better.dataset(), LogInterval::new(0), now)];

    let mut bmca = GrandMasterTrackingBmca::new(
        single_port_bmca(default_ds),
        BestForeignRecord::new(PortNumber::new(1), ForeignClockRecordsVec::from_records(&records)),
        *default_ds.identity(),
    );

    assert_eq!(bmca.decision(), Some(BmcaDecision::Passive));
}

#[test]
fn grandmaster_tracking_bmca_does_not_gate_slave_decisions() {
    let now = Instant::from_secs(0);
    let default_ds = TestClockDS::default_low_grade_slave_only().dataset();

    let better = TestClockDS::default_high_grade();
    let better_port_id = PortIdentity::new(better.clock_identity(), PortNumber::new(1));
    let records = [ForeignClockRecord::qualified(better_port_id, better.dataset(), LogInterval::new(0), now)];

    let mut bmca = GrandMasterTrackingBmca::new(
        single_port_bmca(default_ds),
        BestForeignRecord::new(PortNumber::new(1), ForeignClockRecordsVec::from_records(&records)),
        *default_ds.identity(),
    );

    assert!(matches!(bmca.decision(), Some(BmcaDecision::Slave(_))));
}

#[test]
fn bmca_does_not_choose_slave_when_ebest_received_on_other_port() {
    let mut foreign_candidates = MultiPortForeignCandidates::new();
    let local_port = PortNumber::new(1);
    let other_port = PortNumber::new(2);

    let default_ds = TestClockDS::default_low_grade_slave_only().dataset();
    assert!(!default_ds.is_authoritative());

    let better = TestClockDS::default_high_grade().with_priority1(Priority1::new(1));
    let e_best_parent = PortIdentity::new(better.clock_identity(), PortNumber::new(1));
    foreign_candidates.remember(
        other_port,
        BestForeignSnapshot::Qualified {
            ds: better.dataset(),
            source_port_identity: e_best_parent,
            received_on_port: other_port,
        },
    );

    let mut bmca = BestMasterClockAlgorithm::new(default_ds, foreign_candidates, local_port);

    let worse = TestClockDS::default_mid_grade();
    let e_rbest_parent = PortIdentity::new(worse.clock_identity(), PortNumber::new(1));
    let e_rbest = BestForeignDataset::Qualified {
        ds: worse.dataset(),
        source_port_identity: e_rbest_parent,
        received_on_port: local_port,
    };

    let decision = bmca.decision(e_rbest);
    assert!(!matches!(decision, BmcaDecision::Slave(_)));
}

#[test]
fn sliding_window_qualification_requires_two_fast_announces() {
    let t0 = Instant::from_secs(0);
    let high = TestClockDS::default_high_grade();
    let foreign_high = high.dataset();
    let port_id = PortIdentity::new(high.clock_identity(), PortNumber::new(1));
    let mut record = ForeignClockRecord::new(port_id, foreign_high, LogInterval::new(0), t0);

    assert!(record.qualified_ds().is_none());

    let new_record = ForeignClockRecord::new(port_id, foreign_high, LogInterval::new(0), Instant::from_secs(1));
    record.update_from(&new_record);
    assert!(record.qualified_ds().is_some());
}

#[test]
fn sliding_window_qualification_drops_on_slow_announces() {
    let t0 = Instant::from_secs(0);
    let high = TestClockDS::default_high_grade();
    let foreign_high = high.dataset();
    let port_id = PortIdentity::new(high.clock_identity(), PortNumber::new(1));
    let mut record = ForeignClockRecord::new(port_id, foreign_high, LogInterval::new(0), t0);

    let new_record = ForeignClockRecord::new(port_id, foreign_high, LogInterval::new(0), Instant::from_secs(1));
    record.update_from(&new_record);
    assert!(record.qualified_ds().is_some());

    let updated_record =
        ForeignClockRecord::new(port_id, foreign_high, LogInterval::new(0), Instant::from_secs(10));
    record.update_from(&updated_record);
    assert!(record.qualified_ds().is_none());
}

#[test]
fn sliding_window_never_qualifies_with_one_annonce_per_window() {
    let t0 = Instant::from_secs(0);
    let high = TestClockDS::default_high_grade();
    let foreign_high = high.dataset();
    let port_id = PortIdentity::new(high.clock_identity(), PortNumber::new(1));
    let mut record = ForeignClockRecord::new(port_id, foreign_high, LogInterval::new(0), t0);

    for secs in [5u64, 10, 15] {
        let updated_record =
            ForeignClockRecord::new(port_id, foreign_high, LogInterval::new(0), Instant::from_secs(secs));
        record.update_from(&updated_record);
        assert!(record.qualified_ds().is_none());
    }
}

#[test]
fn qualified_dataset_change_reports_updated() {
    let t0 = Instant::from_secs(0);
    let high = TestClockDS::default_high_grade();
    let foreign_high = high.dataset();
    let foreign_low = TestClockDS::default_low_grade_slave_only().dataset();
    let port_id = PortIdentity::new(high.clock_identity(), PortNumber::new(1));
    let mut record = ForeignClockRecord::new(port_id, foreign_high, LogInterval::new(0), t0);

    let new_record = ForeignClockRecord::new(port_id, foreign_high, LogInterval::new(0), Instant::from_secs(1));
    record.update_from(&new_record);
    assert!(record.qualified_ds().is_some());

    let updated_record =
        ForeignClockRecord::new(port_id, foreign_low, LogInterval::new(0), Instant::from_secs(2));
    let status = record.update_from(&updated_record);
    assert_eq!(status, ForeignClockStatus::Updated);
    assert_eq!(record.qualified_ds(), Some(&foreign_low));
}

#[test]
fn unqualified_dataset_change_does_not_report_updated() {
    let t0 = Instant::from_secs(0);
    let high = TestClockDS::default_high_grade();
    let foreign_high = high.dataset();
    let foreign_low = TestClockDS::default_low_grade_slave_only().dataset();
    let port_id = PortIdentity::new(high.clock_identity(), PortNumber::new(1));
    let mut record = ForeignClockRecord::new(port_id, foreign_high, LogInterval::new(0), t0);

    let updated_record =
        ForeignClockRecord::new(port_id, foreign_high, LogInterval::new(0), Instant::from_secs(10));
    let _ = record.update_from(&updated_record);
    assert!(record.qualified_ds().is_none());

    let updated_record =
        ForeignClockRecord::new(port_id, foreign_low, LogInterval::new(0), Instant::from_secs(20));
    let status = record.update_from(&updated_record);
    assert_eq!(status, ForeignClockStatus::Unchanged);
    assert!(record.qualified_ds().is_none());
}

#[test]
fn sliding_window_edge_drops_qualification_but_not_stale() {
    let t0 = Instant::from_secs(0);
    let high = TestClockDS::default_high_grade();
    let foreign_high = high.dataset();
    let port_id = PortIdentity::new(high.clock_identity(), PortNumber::new(1));
    let mut record = ForeignClockRecord::new(port_id, foreign_high, LogInterval::new(0), t0);

    let new_record = ForeignClockRecord::new(port_id, foreign_high, LogInterval::new(0), Instant::from_secs(1));
    record.update_from(&new_record);
    assert!(record.qualified_ds().is_some());

    let now = Instant::from_nanos(5_000_000_001);
    let updated_record = ForeignClockRecord::new(port_id, foreign_high, LogInterval::new(0), now);
    let _ = record.update_from(&updated_record);
    assert!(record.qualified_ds().is_none());
    assert!(!record.is_stale(now));
}

#[test]
fn test_foreign_clock_ordering() {
    let high = TestClockDS::default_high_grade().dataset();
    let mid = TestClockDS::default_mid_grade().dataset();
    let low = TestClockDS::default_low_grade_slave_only().dataset();

    assert!(high.better_than(&mid));
    assert!(!mid.better_than(&high));

    assert!(high.better_than(&low));
    assert!(!low.better_than(&high));

    assert!(mid.better_than(&low));
    assert!(!low.better_than(&mid));
}

#[test]
fn test_foreign_clock_equality() {
    let c1 = TestClockDS::default_high_grade().dataset();
    let c2 = TestClockDS::default_high_grade().dataset();

    assert!(!c1.better_than(&c2));
    assert!(!c2.better_than(&c1));
    assert_eq!(c1, c2);
}

#[test]
fn foreign_clock_ds_compares_priority1_before_quality() {
    let a = TestClockDS::default_high_grade().with_priority1(Priority1::new(10)).dataset();
    let b = TestClockDS::atomic_grandmaster().with_priority1(Priority1::new(20)).dataset();

    assert!(a.better_than(&b));
    assert!(!b.better_than(&a));
}

#[test]
fn foreign_clock_ds_compares_priority2_after_quality() {
    let a = TestClockDS::default_high_grade()
        .with_clock_identity(ClockIdentity::new(&[0x00; 8]))
        .with_priority2(Priority2::new(10))
        .dataset();
    let b = TestClockDS::default_high_grade()
        .with_clock_identity(ClockIdentity::new(&[0x01; 8]))
        .with_priority2(Priority2::new(20))
        .dataset();

    assert!(a.better_than(&b));
    assert!(!b.better_than(&a));
}

#[test]
fn foreign_clock_ds_tiebreaks_on_identity_last() {
    let a = TestClockDS::default_high_grade().with_clock_identity(ClockIdentity::new(&[0x00; 8])).dataset();
    let b = TestClockDS::default_high_grade().with_clock_identity(ClockIdentity::new(&[0x01; 8])).dataset();

    assert!(a.better_than(&b));
    assert!(!b.better_than(&a));
}

#[test]
fn foreign_clock_ds_prefers_lower_steps_removed_when_identity_equal() {
    let a = TestClockDS::default_high_grade().with_steps_removed(StepsRemoved::new(1)).dataset();
    let b = TestClockDS::default_high_grade().with_steps_removed(StepsRemoved::new(3)).dataset();

    assert!(a.better_than(&b));
    assert!(!b.better_than(&a));
}

#[test]
fn listening_bmca_prunes_stale_foreign_clocks_on_next_announce_reception() {
    let high = TestClockDS::default_high_grade();
    let mid = TestClockDS::default_mid_grade();
    let low = TestClockDS::default_low_grade_slave_only();
    let gm = TestClockDS::gps_grandmaster();

    let stale_records = vec![
        ForeignClockRecord::qualified(
            PortIdentity::new(high.clock_identity(), PortNumber::new(1)),
            high.dataset(),
            LogInterval::new(0),
            Instant::from_secs(0),
        ),
        ForeignClockRecord::qualified(
            PortIdentity::new(mid.clock_identity(), PortNumber::new(1)),
            mid.dataset(),
            LogInterval::new(0),
            Instant::from_secs(1),
        ),
        ForeignClockRecord::qualified(
            PortIdentity::new(mid.clock_identity(), PortNumber::new(1)),
            low.dataset(),
            LogInterval::new(0),
            Instant::from_secs(2),
        ),
    ];
    let records = ForeignClockRecordsVec::from_records(&stale_records);

    let gm_port_id = PortIdentity::new(gm.clock_identity(), PortNumber::new(1));
    let gm_foreign = gm.dataset();

    let default_ds = TestClockDS::default_high_grade().dataset();
    let mut bmca = ListeningBmca::new(
        single_port_bmca(default_ds),
        BestForeignRecord::new(PortNumber::new(1), records),
    );
    bmca.consider(gm_port_id, gm_foreign, LogInterval::new(0), Instant::from_secs(10));
    bmca.consider(gm_port_id, gm_foreign, LogInterval::new(0), Instant::from_secs(10));

    assert_eq!(
        bmca.best_foreign.foreign_clock_records.len(),
        1,
        "stale foreign clock records should have been pruned"
    );
    let best = bmca
        .best_foreign
        .foreign_clock_records
        .best_qualified()
        .expect("record should be qualified after two announces");
    assert_eq!(best.source_port_identity(), &gm_port_id);
    assert_eq!(best.qualified_ds(), Some(&gm_foreign));
}

#[test]
fn listening_bmca_gm_capable_local_with_no_qualified_foreign_is_undecided() {
    let default_ds = TestClockDS::gps_grandmaster().dataset();
    let mut bmca = ListeningBmca::new(single_port_bmca(default_ds), empty_records());

    assert_eq!(bmca.decision(), None);
}

#[test]
fn listening_bmca_gm_capable_local_loses_tuple_returns_passive() {
    let default_ds = TestClockDS::gps_grandmaster().dataset();
    let mut bmca = ListeningBmca::new(single_port_bmca(default_ds), empty_records());

    let foreign = TestClockDS::default_low_grade_slave_only().with_priority1(Priority1::new(1));
    let port_id = PortIdentity::new(foreign.clock_identity(), PortNumber::new(1));
    let foreign_strong = foreign.dataset();

    bmca.consider(port_id, foreign_strong, LogInterval::new(0), Instant::from_secs(0));
    bmca.consider(port_id, foreign_strong, LogInterval::new(0), Instant::from_secs(0));

    assert_eq!(bmca.decision(), Some(BmcaDecision::Passive));
}

#[test]
fn listening_bmca_gm_capable_local_better_than_foreign_returns_master_m1() {
    let default_ds = TestClockDS::gps_grandmaster().dataset();
    let local_identity = *default_ds.identity();
    let mut bmca = ListeningBmca::new(single_port_bmca(default_ds), empty_records());

    let foreign = TestClockDS::default_high_grade().dataset();
    let port_id = PortIdentity::new(TestClockDS::default_high_grade().clock_identity(), PortNumber::new(1));

    bmca.consider(port_id, foreign, LogInterval::new(0), Instant::from_secs(0));
    bmca.consider(port_id, foreign, LogInterval::new(0), Instant::from_secs(0));

    assert_eq!(
        bmca.decision(),
        Some(BmcaDecision::Master(BmcaMasterDecision::new(
            BmcaMasterDecisionPoint::M1,
            StepsRemoved::new(0),
            local_identity,
        )))
    );
}

#[test]
fn listening_bmca_non_gm_local_better_than_foreign_returns_master_m2() {
    let default_ds = TestClockDS::default_mid_grade().dataset();
    let local_identity = *default_ds.identity();
    let mut bmca = ListeningBmca::new(single_port_bmca(default_ds), empty_records());

    let foreign = TestClockDS::default_low_grade_slave_only().dataset();
    let port_id =
        PortIdentity::new(TestClockDS::default_low_grade_slave_only().clock_identity(), PortNumber::new(1));

    bmca.consider(port_id, foreign, LogInterval::new(0), Instant::from_secs(0));
    bmca.consider(port_id, foreign, LogInterval::new(0), Instant::from_secs(0));

    assert_eq!(
        bmca.decision(),
        Some(BmcaDecision::Master(BmcaMasterDecision::new(
            BmcaMasterDecisionPoint::M2,
            StepsRemoved::new(0),
            local_identity,
        )))
    );
}

#[test]
fn listening_bmca_non_gm_local_loses_tuple_returns_slave() {
    let default_ds = TestClockDS::default_mid_grade().dataset();
    let mut bmca = ListeningBmca::new(single_port_bmca(default_ds), empty_records());

    let foreign = TestClockDS::default_high_grade().dataset();
    let port_id = PortIdentity::new(TestClockDS::default_high_grade().clock_identity(), PortNumber::new(1));

    bmca.consider(port_id, foreign, LogInterval::new(0), Instant::from_secs(0));
    bmca.consider(port_id, foreign, LogInterval::new(0), Instant::from_secs(0));

    assert_eq!(bmca.decision(), Some(BmcaDecision::Slave(ParentPortIdentity::new(port_id))));
}

#[test]
fn listening_bmca_recommends_slave_from_interleaved_announce_sequence() {
    let default_ds = TestClockDS::default_low_grade().dataset();
    let mut bmca = ListeningBmca::new(single_port_bmca(default_ds), empty_records());

    let high = TestClockDS::default_high_grade();
    let mid = TestClockDS::default_mid_grade();
    let port_id_high = PortIdentity::new(high.clock_identity(), PortNumber::new(1));
    let port_id_mid = PortIdentity::new(mid.clock_identity(), PortNumber::new(1));

    bmca.consider(port_id_high, high.dataset(), LogInterval::new(0), Instant::from_secs(0));
    bmca.consider(port_id_mid, mid.dataset(), LogInterval::new(0), Instant::from_secs(0));
    bmca.consider(port_id_high, high.dataset(), LogInterval::new(0), Instant::from_secs(0));
    bmca.consider(port_id_mid, mid.dataset(), LogInterval::new(0), Instant::from_secs(0));

    assert_eq!(bmca.decision(), Some(BmcaDecision::Slave(ParentPortIdentity::new(port_id_high))));
}

#[test]
fn listening_bmca_recommends_slave_from_non_interleaved_announce_sequence() {
    let default_ds = TestClockDS::default_low_grade().dataset();
    let mut bmca = ListeningBmca::new(single_port_bmca(default_ds), empty_records());

    let high = TestClockDS::default_high_grade();
    let mid = TestClockDS::default_mid_grade();
    let port_id_high = PortIdentity::new(high.clock_identity(), PortNumber::new(1));
    let port_id_mid = PortIdentity::new(mid.clock_identity(), PortNumber::new(1));

    bmca.consider(port_id_high, high.dataset(), LogInterval::new(0), Instant::from_secs(0));
    bmca.consider(port_id_high, high.dataset(), LogInterval::new(0), Instant::from_secs(0));
    bmca.consider(port_id_mid, mid.dataset(), LogInterval::new(0), Instant::from_secs(0));
    bmca.consider(port_id_mid, mid.dataset(), LogInterval::new(0), Instant::from_secs(0));

    assert_eq!(bmca.decision(), Some(BmcaDecision::Slave(ParentPortIdentity::new(port_id_high))));
}

#[test]
fn listening_bmca_undecided_when_no_announces_yet() {
    let default_ds = TestClockDS::default_mid_grade().dataset();
    let mut bmca = ListeningBmca::new(single_port_bmca(default_ds), empty_records());

    assert_eq!(bmca.decision(), None);
}

#[test]
fn listening_bmca_undecided_when_no_qualified_clock_records_yet() {
    let default_ds = TestClockDS::default_mid_grade().dataset();
    let mut bmca = ListeningBmca::new(single_port_bmca(default_ds), empty_records());

    let foreign_high = TestClockDS::default_high_grade().dataset();
    bmca.consider(PortIdentity::fake(), foreign_high, LogInterval::new(0), Instant::from_secs(0));

    assert_eq!(bmca.decision(), None);
}

#[test]
fn listening_bmca_undecided_when_only_single_announces_each() {
    let default_ds = TestClockDS::default_mid_grade().dataset();
    let mut bmca = ListeningBmca::new(single_port_bmca(default_ds), empty_records());

    let high = TestClockDS::default_high_grade();
    let mid = TestClockDS::default_mid_grade();
    let low = TestClockDS::default_low_grade_slave_only();

    bmca.consider(
        PortIdentity::new(high.clock_identity(), PortNumber::new(0)),
        high.dataset(),
        LogInterval::new(0),
        Instant::from_secs(0),
    );
    bmca.consider(
        PortIdentity::new(mid.clock_identity(), PortNumber::new(0)),
        mid.dataset(),
        LogInterval::new(0),
        Instant::from_secs(0),
    );
    bmca.consider(
        PortIdentity::new(low.clock_identity(), PortNumber::new(0)),
        low.dataset(),
        LogInterval::new(0),
        Instant::from_secs(0),
    );

    assert_eq!(bmca.decision(), None);
}

#[test]
fn qualification_timeout_policy_duration_m1_is_zero() {
    let policy = QualificationTimeoutPolicy::new(BmcaMasterDecisionPoint::M1, StepsRemoved::new(5));
    assert_eq!(policy.duration(LogInterval::new(4)), Duration::from_secs(0));
}

#[test]
fn qualification_timeout_policy_duration_m2_is_zero() {
    let policy = QualificationTimeoutPolicy::new(BmcaMasterDecisionPoint::M2, StepsRemoved::new(5));
    assert_eq!(policy.duration(LogInterval::new(4)), Duration::from_secs(0));
}

#[test]
fn qualification_timeout_policy_duration_m3_scales_with_steps_removed() {
    let policy = QualificationTimeoutPolicy::new(BmcaMasterDecisionPoint::M3, StepsRemoved::new(0));
    assert_eq!(policy.duration(LogInterval::new(0)), Duration::from_secs(1));

    let policy = QualificationTimeoutPolicy::new(BmcaMasterDecisionPoint::M3, StepsRemoved::new(1));
    assert_eq!(policy.duration(LogInterval::new(0)), Duration::from_secs(2));

    let policy = QualificationTimeoutPolicy::new(BmcaMasterDecisionPoint::M3, StepsRemoved::new(2));
    assert_eq!(policy.duration(LogInterval::new(1)), Duration::from_secs(6));

    let policy = QualificationTimeoutPolicy::new(BmcaMasterDecisionPoint::M3, StepsRemoved::new(3));
    assert_eq!(policy.duration(LogInterval::new(2)), Duration::from_secs(16));
}

#[test]
fn qualification_timeout_policy_duration_m3_large_inputs() {
    let policy = QualificationTimeoutPolicy::new(BmcaMasterDecisionPoint::M3, StepsRemoved::new(u16::MAX));
    assert_eq!(policy.duration(LogInterval::new(10)), Duration::from_secs(67_108_864));
}

fn new_port_identity(last_octet: u8) -> PortIdentity {
    PortIdentity::new(ClockIdentity::new(&[0, 1, 2, 3, 4, 5, 6, last_octet]), PortNumber::new(1))
}

fn same_dataset(a: &ForeignClockRecord, b: &ForeignClockRecord) -> bool {
    !a.better_by_dataset_than(b) && !b.better_by_dataset_than(a)
}

#[test]
fn heapless_maintains_best_record_first() {
    let high_clock = TestClockDS::default_high_grade().dataset();
    let mid_clock = TestClockDS::default_mid_grade().dataset();
    let low_clock = TestClockDS::default_low_grade_slave_only().dataset();

    let high_port_id = new_port_identity(1);
    let mid_port_id = new_port_identity(2);
    let low_port_id = new_port_identity(3);

    let records = HeaplessForeignClockRecords::<4>::from_records(&[
        ForeignClockRecord::qualified(high_port_id, high_clock, LogInterval::new(0), Instant::from_secs(0)),
        ForeignClockRecord::new(low_port_id, low_clock, LogInterval::new(0), Instant::from_secs(0)),
        ForeignClockRecord::new(mid_port_id, mid_clock, LogInterval::new(0), Instant::from_secs(0)),
    ]);

    let best = records.best_qualified().expect("a qualified record");
    assert_eq!(best.qualified_ds(), Some(&high_clock));
    assert_eq!(best.source_port_identity(), &high_port_id);
}

#[test]
fn heapless_replacement_keeps_best_records_on_overflow() {
    let high_clock = TestClockDS::default_high_grade().dataset();
    let mid_clock = TestClockDS::default_mid_grade().dataset();
    let low_clock = TestClockDS::default_low_grade_slave_only().dataset();

    let high_port_id = new_port_identity(1);
    let mid_port_id = new_port_identity(2);
    let low_port_id = new_port_identity(3);

    let mut records = HeaplessForeignClockRecords::<2>::from_records(&[
        ForeignClockRecord::qualified(mid_port_id, mid_clock, LogInterval::new(0), Instant::from_secs(0)),
        ForeignClockRecord::qualified(low_port_id, low_clock, LogInterval::new(0), Instant::from_secs(0)),
    ]);

    records.remember(ForeignClockRecord::new(high_port_id, high_clock, LogInterval::new(0), Instant::from_secs(0)));

    assert_eq!(records.len(), 2);

    let template_high = ForeignClockRecord::new(high_port_id, high_clock, LogInterval::new(0), Instant::from_secs(0));
    let template_mid = ForeignClockRecord::new(mid_port_id, mid_clock, LogInterval::new(0), Instant::from_secs(0));
    let template_low = ForeignClockRecord::new(low_port_id, low_clock, LogInterval::new(0), Instant::from_secs(0));

    assert!(records.as_slice().iter().any(|r| same_dataset(r, &template_high)));
    assert!(records.as_slice().iter().any(|r| same_dataset(r, &template_mid)));
    assert!(!records.as_slice().iter().any(|r| same_dataset(r, &template_low)));
}

#[test]
fn heapless_replacement_does_not_replace_when_candidate_is_worse() {
    let high_clock = TestClockDS::default_high_grade().dataset();
    let mid_clock = TestClockDS::default_mid_grade().dataset();
    let low_clock = TestClockDS::default_low_grade_slave_only().dataset();

    let high_port_id = new_port_identity(1);
    let mid_port_id = new_port_identity(2);
    let low_port_id = new_port_identity(3);

    let mut records = HeaplessForeignClockRecords::<2>::from_records(&[
        ForeignClockRecord::qualified(high_port_id, high_clock, LogInterval::new(0), Instant::from_secs(0)),
        ForeignClockRecord::qualified(mid_port_id, mid_clock, LogInterval::new(0), Instant::from_secs(0)),
    ]);

    records.remember(ForeignClockRecord::new(low_port_id, low_clock, LogInterval::new(0), Instant::from_secs(0)));

    assert_eq!(records.len(), 2);

    let template_high = ForeignClockRecord::new(high_port_id, high_clock, LogInterval::new(0), Instant::from_secs(0));
    let template_mid = ForeignClockRecord::new(mid_port_id, mid_clock, LogInterval::new(0), Instant::from_secs(0));
    let template_low = ForeignClockRecord::new(low_port_id, low_clock, LogInterval::new(0), Instant::from_secs(0));

    assert!(records.as_slice().iter().any(|r| same_dataset(r, &template_high)));
    assert!(records.as_slice().iter().any(|r| same_dataset(r, &template_mid)));
    assert!(!records.as_slice().iter().any(|r| same_dataset(r, &template_low)));
}

#[test]
fn heapless_prune_stale_returns_true_when_records_removed() {
    let high_clock = TestClockDS::default_high_grade().dataset();
    let high_port_id = new_port_identity(1);

    let mut records = HeaplessForeignClockRecords::<4>::new();
    records.remember(ForeignClockRecord::new(high_port_id, high_clock, LogInterval::new(0), Instant::from_secs(0)));

    let pruned = records.prune_stale(Instant::from_secs(10));

    assert!(pruned, "prune_stale should report removal of stale records");
    assert!(records.as_slice().is_empty(), "all stale records should have been removed");
}

#[test]
fn heapless_prune_stale_returns_false_when_no_records_are_stale() {
    let high_clock = TestClockDS::default_high_grade().dataset();
    let high_port_id = new_port_identity(1);

    let mut records = HeaplessForeignClockRecords::<4>::new();
    records.remember(ForeignClockRecord::new(high_port_id, high_clock, LogInterval::new(0), Instant::from_secs(0)));

    let pruned = records.prune_stale(Instant::from_secs(2));

    assert!(!pruned, "prune_stale should report no removals when nothing is stale");
    assert_eq!(records.len(), 1);
}

#[test]
fn foreign_vec_maintains_best_record_first() {
    let mut records = ForeignClockRecordsVec::new();

    let high_clock = TestClockDS::default_high_grade().dataset();
    let mid_clock = TestClockDS::default_mid_grade().dataset();
    let low_clock = TestClockDS::default_low_grade_slave_only().dataset();

    let high_port_id = PortIdentity::new(ClockIdentity::new(&[0, 1, 2, 3, 4, 5, 6, 1]), PortNumber::new(1));
    let mid_port_id = PortIdentity::new(ClockIdentity::new(&[0, 1, 2, 3, 4, 5, 6, 2]), PortNumber::new(1));
    let low_port_id = PortIdentity::new(ClockIdentity::new(&[0, 1, 2, 3, 4, 5, 6, 3]), PortNumber::new(1));

    for _ in 0..2 {
        records.remember(ForeignClockRecord::new(high_port_id, high_clock, LogInterval::new(0), Instant::from_secs(0)));
        records.remember(ForeignClockRecord::new(low_port_id, low_clock, LogInterval::new(0), Instant::from_secs(0)));
        records.remember(ForeignClockRecord::new(mid_port_id, mid_clock, LogInterval::new(0), Instant::from_secs(0)));
    }

    let best_clock = records.best_qualified().and_then(|record| record.qualified_ds());
    assert_eq!(best_clock, Some(&high_clock));
}

#[test]
fn foreign_vec_prune_stale_returns_true_when_records_removed() {
    let high_clock = TestClockDS::default_high_grade().dataset();
    let high_port_id = PortIdentity::new(ClockIdentity::new(&[0, 1, 2, 3, 4, 5, 6, 9]), PortNumber::new(1));

    let mut records = ForeignClockRecordsVec::new();
    records.remember(ForeignClockRecord::new(high_port_id, high_clock, LogInterval::new(0), Instant::from_secs(0)));

    let pruned = records.prune_stale(Instant::from_secs(10));

    assert!(pruned, "prune_stale should report removal of stale records");
    assert!(records.is_empty());
}

#[test]
fn foreign_vec_prune_stale_returns_false_when_no_records_are_stale() {
    let high_clock = TestClockDS::default_high_grade().dataset();
    let high_port_id = PortIdentity::new(ClockIdentity::new(&[0, 1, 2, 3, 4, 5, 6, 10]), PortNumber::new(1));

    let mut records = ForeignClockRecordsVec::new();
    records.remember(ForeignClockRecord::new(high_port_id, high_clock, LogInterval::new(0), Instant::from_secs(0)));

    let pruned = records.prune_stale(Instant::from_secs(2));

    assert!(!pruned, "prune_stale should report no removals when nothing is stale");
    assert_eq!(records.len(), 1);
}

fn qualified_snapshot(test: TestClockDS, port: PortNumber) -> BestForeignSnapshot {
    BestForeignSnapshot::Qualified {
        ds: test.dataset(),
        source_port_identity: PortIdentity::new(test.clock_identity(), PortNumber::new(1)),
        received_on_port: port,
    }
}

#[test]
fn multi_port_foreign_candidates_stores_qualified_per_port() {
    let mut candidates = MultiPortForeignCandidates::new();
    let port1 = PortNumber::new(1);
    let port2 = PortNumber::new(2);

    let high = TestClockDS::default_high_grade();
    let mid = TestClockDS::default_mid_grade();

    candidates.remember(port1, qualified_snapshot(high, port1));
    candidates.remember(port2, qualified_snapshot(mid, port2));

    match candidates.best() {
        BestForeignSnapshot::Qualified { ds, received_on_port, .. } => {
            assert_eq!(ds, high.dataset());
            assert_eq!(received_on_port, port1);
        }
        BestForeignSnapshot::Empty => panic!("expected qualified candidate"),
    }
}

#[test]
fn multi_port_foreign_candidates_removes_port_on_empty() {
    let mut candidates = MultiPortForeignCandidates::new();
    let port1 = PortNumber::new(1);
    let port2 = PortNumber::new(2);

    let high = TestClockDS::default_high_grade();
    let mid = TestClockDS::default_mid_grade();

    candidates.remember(port1, qualified_snapshot(high, port1));
    candidates.remember(port2, qualified_snapshot(mid, port2));
    candidates.remember(port1, BestForeignSnapshot::Empty);

    match candidates.best() {
        BestForeignSnapshot::Qualified { ds, received_on_port, .. } => {
            assert_eq!(ds, mid.dataset());
            assert_eq!(received_on_port, port2);
        }
        BestForeignSnapshot::Empty => panic!("expected qualified candidate from port 2"),
    }
}

#[test]
fn multi_port_foreign_candidates_returns_empty_when_no_qualified() {
    let mut candidates = MultiPortForeignCandidates::new();
    candidates.remember(PortNumber::new(1), BestForeignSnapshot::Empty);
    assert_eq!(candidates.best(), BestForeignSnapshot::Empty);
}

#[test]
fn multi_port_foreign_candidates_returns_empty_when_all_ports_empty() {
    let mut candidates = MultiPortForeignCandidates::new();
    let port1 = PortNumber::new(1);
    let port2 = PortNumber::new(2);

    candidates.remember(port1, qualified_snapshot(TestClockDS::default_high_grade(), port1));
    candidates.remember(port1, BestForeignSnapshot::Empty);
    candidates.remember(port2, BestForeignSnapshot::Empty);

    assert_eq!(candidates.best(), BestForeignSnapshot::Empty);
}

#[test]
fn multi_port_foreign_candidates_selects_best_across_ports() {
    let mut candidates = MultiPortForeignCandidates::new();
    let port1 = PortNumber::new(1);
    let port2 = PortNumber::new(2);
    let port3 = PortNumber::new(3);

    let high = TestClockDS::default_high_grade();
    let mid = TestClockDS::default_mid_grade();
    let low = TestClockDS::default_low_grade_slave_only();

    candidates.remember(port2, qualified_snapshot(mid, port2));
    candidates.remember(port3, qualified_snapshot(low, port3));
    candidates.remember(port1, qualified_snapshot(high, port1));

    match candidates.best() {
        BestForeignSnapshot::Qualified { ds, received_on_port, .. } => {
            assert_eq!(ds, high.dataset());
            assert_eq!(received_on_port, port1);
        }
        BestForeignSnapshot::Empty => panic!("expected qualified candidate"),
    }
}

#[test]
fn parent_tracking_bmca_gates_same_parent_and_emits_new_parent() {
    let default_ds = TestClockDS::default_low_grade_slave_only().dataset();
    let better = TestClockDS::default_high_grade();
    let better_port_id = PortIdentity::new(better.clock_identity(), PortNumber::new(1));
    let records = [ForeignClockRecord::qualified(
        better_port_id,
        better.dataset(),
        LogInterval::new(0),
        Instant::from_secs(0),
    )];

    let mut same = ParentTrackingBmca::new(
        single_port_bmca(default_ds),
        BestForeignRecord::new(PortNumber::new(1), ForeignClockRecordsVec::from_records(&records)),
        ParentPortIdentity::new(better_port_id),
    );
    assert_eq!(same.decision(), None);

    let mut other = ParentTrackingBmca::new(
        single_port_bmca(default_ds),
        BestForeignRecord::new(PortNumber::new(1), ForeignClockRecordsVec::from_records(&records)),
        ParentPortIdentity::new(PortIdentity::fake()),
    );
    assert_eq!(other.decision(), Some(BmcaDecision::Slave(ParentPortIdentity::new(better_port_id))));
}

#[test]
fn passive_bmca_suppresses_passive_decisions_only() {
    let default_ds = TestClockDS::gps_grandmaster().dataset();
    let better = TestClockDS::atomic_grandmaster();
    let records = [ForeignClockRecord::qualified(
        PortIdentity::new(better.clock_identity(), PortNumber::new(1)),
        better.dataset(),
        LogInterval::new(0),
        Instant::from_secs(0),
    )];
    let mut passive = PassiveBmca::new(
        single_port_bmca(default_ds),
        BestForeignRecord::new(PortNumber::new(1), ForeignClockRecordsVec::from_records(&records)),
    );
    assert_eq!(passive.decision(), None);

    let mut master = PassiveBmca::new(single_port_bmca(default_ds), empty_records());
    assert!(matches!(master.decision(), Some(BmcaDecision::Master(_))));
}

#[test]
fn clock_ds_wire_roundtrip() {
    let ds = TestClockDS::gps_grandmaster().with_steps_removed(StepsRemoved::new(0x0102)).dataset();
    let wire = ds.to_wire();
    assert_eq!(wire[0], 100);
    assert_eq!(wire[1], 6);
    assert_eq!(&wire[6..14], &[0x00, 0x1B, 0x19, 0xFF, 0xFE, 0x00, 0x00, 5]);
    assert_eq!(&wire[14..16], &[0x01, 0x02]);
    assert_eq!(ClockDS::from_wire(&wire), ds);
}

#[test]
fn records_remember_updates_existing_source_in_place() {
    let high = TestClockDS::default_high_grade();
    let port_id = PortIdentity::new(high.clock_identity(), PortNumber::new(1));
    let mut records = ForeignClockRecordsVec::new();
    records.remember(ForeignClockRecord::new(port_id, high.dataset(), LogInterval::new(0), Instant::from_secs(0)));
    assert!(records.best_qualified().is_none());
    records.remember(ForeignClockRecord::new(port_id, high.dataset(), LogInterval::new(0), Instant::from_secs(3)));
    assert_eq!(records.len(), 1);
    assert_eq!(records.best_qualified().and_then(|r| r.qualified_ds()), Some(&high.dataset()));
}

#[test]
fn vec_store_from_records_keeps_best_first() {
    let high_clock = TestClockDS::default_high_grade().dataset();
    let mid_clock = TestClockDS::default_mid_grade().dataset();
    let low_clock = TestClockDS::default_low_grade().dataset();

    let records = ForeignClockRecordsVec::from_records(&[
        ForeignClockRecord::new(new_port_identity(3), low_clock, LogInterval::new(0), Instant::from_secs(0)),
        ForeignClockRecord::qualified(new_port_identity(2), mid_clock, LogInterval::new(0), Instant::from_secs(0)),
        ForeignClockRecord::qualified(new_port_identity(1), high_clock, LogInterval::new(0), Instant::from_secs(0)),
    ]);

    let stored = records.as_slice();
    assert_eq!(stored.len(), 3);
    assert_eq!(stored[0].source_port_identity(), &new_port_identity(1));
    assert_eq!(stored[1].source_port_identity(), &new_port_identity(2));
    assert_eq!(stored[2].source_port_identity(), &new_port_identity(3));
}

#[test]
fn vec_store_remember_inserts_in_store_order() {
    let high_clock = TestClockDS::default_high_grade().dataset();
    let mid_clock = TestClockDS::default_mid_grade().dataset();

    let mut records = ForeignClockRecordsVec::new();
    records.remember(ForeignClockRecord::qualified(new_port_identity(2), mid_clock, LogInterval::new(0), Instant::from_secs(0)));
    records.remember(ForeignClockRecord::qualified(new_port_identity(1), high_clock, LogInterval::new(0), Instant::from_secs(0)));

    let stored = records.as_slice();
    assert_eq!(stored[0].source_port_identity(), &new_port_identity(1));
    assert_eq!(stored[1].source_port_identity(), &new_port_identity(2));
}

#[test]
fn heapless_store_remember_inserts_in_store_order() {
    let high_clock = TestClockDS::default_high_grade().dataset();
    let low_clock = TestClockDS::default_low_grade().dataset();

    let mut records = HeaplessForeignClockRecords::<4>::new();
    records.remember(ForeignClockRecord::new(new_port_identity(3), low_clock, LogInterval::new(0), Instant::from_secs(0)));
    records.remember(ForeignClockRecord::qualified(new_port_identity(1), high_clock, LogInterval::new(0), Instant::from_secs(0)));

    let stored = records.as_slice();
    assert_eq!(stored[0].source_port_identity(), &new_port_identity(1));
    assert_eq!(stored[1].source_port_identity(), &new_port_identity(3));
}

#[test]
fn priority_conversions_and_order() {
    assert_eq!(Priority1::from(10), Priority1::new(10));
    assert_eq!(Priority2::from(20), Priority2::new(20));
    assert!(Priority1::new(10) < Priority1::new(20));
    assert!(!(Priority1::new(20) < Priority1::new(10)));
    assert!(Priority2::new(3) < Priority2::new(4));
}

#[test]
fn port_and_domain_number_conversions() {
    assert_eq!(PortNumber::from(7u16), PortNumber::new(7));
    assert_eq!(u16::from(PortNumber::new(7)), 7);
    assert_eq!(rptp::port::DomainNumber::from(3u8), rptp::port::DomainNumber::new(3));
    assert_eq!(u8::from(rptp::port::DomainNumber::new(3)), 3);
}

#[test]
fn multi_port_store_starts_and_stays_empty_on_empty_reports() {
    let mut store = MultiPortForeignCandidates::new();
    assert_eq!(store.best(), BestForeignSnapshot::Empty);
    store.remember(PortNumber::new(1), BestForeignSnapshot::Empty);
    store.remember(PortNumber::new(2), BestForeignSnapshot::Empty);
    assert_eq!(store.best(), BestForeignSnapshot::Empty);
}

#[test]
fn clock_identities_order_by_their_bytes() {
    let a = ClockIdentity::new(&[0x00, 0xFF, 0xFF, 0xFF, 0xFF, 0xFF, 0xFF, 0xFF]);
    let b = ClockIdentity::new(&[0x01, 0x00, 0x00, 0x00, 0x00, 0x00, 0x00, 0x00]);
    assert!(a < b);
    assert!(a.is_less_than(&b));
    assert!(!(b < a));
    assert_eq!(a.as_bytes(), [0x00, 0xFF, 0xFF, 0xFF, 0xFF, 0xFF, 0xFF, 0xFF]);
    assert_eq!(ClockIdentity::new(&[7; 8]), ClockIdentity::new(&[7; 8]));
}

#[test]
fn steps_removed_order_by_value() {
    assert!(StepsRemoved::new(1) < StepsRemoved::new(2));
    assert!(!(StepsRemoved::new(2) < StepsRemoved::new(1)));
    assert_eq!(StepsRemoved::new(0x0102).to_be_bytes(), 0x0102u16.to_be_bytes());
    assert_eq!(StepsRemoved::new(5).as_u16(), 5);
}
