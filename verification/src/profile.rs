//! Port profile: timing configuration, and the assembly of port states with their timers
//! started.
use vstd::prelude::*;

use crate::bmca::{
    BestForeignRecord, BestMasterClockAlgorithm, ForeignGrandMasterCandidates, GrandMasterTrackingBmca,
    ListeningBmca, LocalGrandMasterCandidate, ParentTrackingBmca, PassiveBmca,
    QualificationTimeoutPolicy, qualification_timeout_nanos,
};
use crate::e2e::{DelayCycle, EndToEndDelayMechanism};
use crate::faulty::FaultyPort;
use crate::initializing::InitializingPort;
use crate::listening::ListeningPort;
use crate::master::{AnnounceCycle, MasterPort, SyncCycle};
use crate::message::{SequenceId, SystemMessage};
use crate::passive::PassivePort;
use crate::port::{receipt_started, started, AnnounceReceiptTimeout, Port, Timeout};
use crate::portstate::{freshly_started, qualification_started, PortState};
use crate::premaster::PreMasterPort;
use crate::records::ForeignClockRecords;
use crate::slave::SlavePort;
use crate::time::{Duration, LogInterval};
use crate::uncalibrated::UncalibratedPort;

verus! {

/// Port timing configuration: the Announce receipt timeout, and the log2 intervals of Announce,
/// Sync and Delay_Req transmission.
pub struct PortProfile {
    pub announce_receipt_timeout_interval: Duration,
    pub log_announce_interval: LogInterval,
    pub log_sync_interval: LogInterval,
    pub log_min_delay_request_interval: LogInterval,
}

impl Default for PortProfile {
    /// Announce receipt timeout of 5 s; Announce, Sync and Delay_Req every second.
    fn default() -> (p: PortProfile)
        ensures
            p.announce_receipt_timeout_interval@ == 5_000_000_000,
            p.log_announce_interval.spec_log() == 0,
            p.log_sync_interval.spec_log() == 0,
            p.log_min_delay_request_interval.spec_log() == 0,
    {
        PortProfile {
            announce_receipt_timeout_interval: Duration::from_secs(5),
            log_announce_interval: LogInterval::new(0),
            log_sync_interval: LogInterval::new(0),
            log_min_delay_request_interval: LogInterval::new(0),
        }
    }
}

impl PortProfile {
    /// A profile with explicit timing values.
    pub fn new(
        announce_receipt_timeout_interval: Duration,
        log_announce_interval: LogInterval,
        log_sync_interval: LogInterval,
        log_min_delay_request_interval: LogInterval,
    ) -> (p: PortProfile)
        ensures
            p == (PortProfile {
                announce_receipt_timeout_interval,
                log_announce_interval,
                log_sync_interval,
                log_min_delay_request_interval,
            }),
    {
        PortProfile {
            announce_receipt_timeout_interval,
            log_announce_interval,
            log_sync_interval,
            log_min_delay_request_interval,
        }
    }

    /// The configured `logMinDelayReqInterval`.
    pub fn log_min_delay_request_interval(&self) -> (l: LogInterval)
        ensures
            l == self.log_min_delay_request_interval,
    {
        self.log_min_delay_request_interval
    }

    /// The `INITIALIZING` state.
    pub fn initializing<P: Port, L: LocalGrandMasterCandidate, F: ForeignGrandMasterCandidates, S: ForeignClockRecords>(
        self,
        port: P,
        bmca: BestMasterClockAlgorithm<L, F>,
        best_foreign: BestForeignRecord<S>,
    ) -> (r: PortState<P, L, F, S>)
        ensures
            freshly_started(r),
            r matches PortState::Initializing(s) && s.port == port && s.bmca == bmca && s.best_foreign
                == best_foreign && s.profile == self,
    {
        PortState::Initializing(InitializingPort::new(port, bmca, best_foreign, self))
    }

    /// The `LISTENING` state, with the Announce receipt timer started.
    pub fn listening<P: Port, L: LocalGrandMasterCandidate, F: ForeignGrandMasterCandidates, S: ForeignClockRecords>(
        self,
        port: P,
        bmca: ListeningBmca<L, F, S>,
    ) -> (r: PortState<P, L, F, S>)
        ensures
            freshly_started(r),
            r matches PortState::Listening(s) && s.port == port && s.bmca == bmca && s.profile == self
                && s.announce_receipt_timeout.interval == self.announce_receipt_timeout_interval
                && receipt_started(port, self.announce_receipt_timeout_interval, s.announce_receipt_timeout),
    {
        let mut announce_receipt_timeout = AnnounceReceiptTimeout::new(
            port.timeout(SystemMessage::AnnounceReceiptTimeout),
            self.announce_receipt_timeout_interval,
        );
        announce_receipt_timeout.restart();
        PortState::Listening(ListeningPort::new(port, bmca, announce_receipt_timeout, self))
    }

    /// The `MASTER` state, with the Announce and Sync timers started to fire at once.
    pub fn master<P: Port, L: LocalGrandMasterCandidate, F: ForeignGrandMasterCandidates, S: ForeignClockRecords>(
        self,
        port: P,
        bmca: GrandMasterTrackingBmca<L, F, S>,
    ) -> (r: PortState<P, L, F, S>)
        ensures
            freshly_started(r),
            r matches PortState::Master(s) && s.port == port && s.bmca == bmca && s.profile == self
                && s.announce_cycle.sequence_id.id == 0 && s.announce_cycle.log_interval
                == self.log_announce_interval && s.sync_cycle.sequence_id.id == 0
                && s.sync_cycle.log_interval == self.log_sync_interval
                && started(port, SystemMessage::AnnounceSendTimeout, 0, s.announce_cycle.timeout)
                && started(port, SystemMessage::SyncTimeout, 0, s.sync_cycle.timeout),
    {
        let mut announce_send_timeout = port.timeout(SystemMessage::AnnounceSendTimeout);
        let announce_delay = Duration::zero();
        announce_send_timeout.restart(announce_delay);
        let announce_cycle = AnnounceCycle::new(
            SequenceId::new(0),
            announce_send_timeout,
            self.log_announce_interval,
        );
        let mut sync_timeout = port.timeout(SystemMessage::SyncTimeout);
        let sync_delay = Duration::zero();
        sync_timeout.restart(sync_delay);
        let sync_cycle = SyncCycle::new(SequenceId::new(0), sync_timeout, self.log_sync_interval);
        PortState::Master(MasterPort::new(port, bmca, announce_cycle, sync_cycle, self))
    }

    /// The `SLAVE` state, with the Announce receipt timer started.
    pub fn slave<P: Port, L: LocalGrandMasterCandidate, F: ForeignGrandMasterCandidates, S: ForeignClockRecords>(
        self,
        port: P,
        bmca: ParentTrackingBmca<L, F, S>,
        delay_mechanism: EndToEndDelayMechanism<P::Timeout>,
    ) -> (r: PortState<P, L, F, S>)
        ensures
            freshly_started(r),
            r matches PortState::Slave(s) && s.port == port && s.bmca == bmca && s.profile == self
                && s.delay_mechanism == delay_mechanism && s.announce_receipt_timeout.interval
                == self.announce_receipt_timeout_interval
                && receipt_started(port, self.announce_receipt_timeout_interval, s.announce_receipt_timeout),
    {
        let mut announce_receipt_timeout = AnnounceReceiptTimeout::new(
            port.timeout(SystemMessage::AnnounceReceiptTimeout),
            self.announce_receipt_timeout_interval,
        );
        announce_receipt_timeout.restart();
        PortState::Slave(SlavePort::new(port, bmca, announce_receipt_timeout, delay_mechanism, self))
    }

    /// The `PRE_MASTER` state, with the qualification timer started for the duration the policy
    /// gives at this profile's Announce interval.
    pub fn pre_master<P: Port, L: LocalGrandMasterCandidate, F: ForeignGrandMasterCandidates, S: ForeignClockRecords>(
        self,
        port: P,
        bmca: GrandMasterTrackingBmca<L, F, S>,
        qualification_timeout_policy: QualificationTimeoutPolicy,
    ) -> (r: PortState<P, L, F, S>)
        ensures
            freshly_started(r),
            r matches PortState::PreMaster(s) && s.port == port && s.bmca == bmca && s.profile == self
                && started(
                port,
                SystemMessage::QualificationTimeout,
                qualification_timeout_nanos(
                    qualification_timeout_policy.master_decision_point,
                    qualification_timeout_policy.steps_removed.0,
                    self.log_announce_interval.spec_log() as int,
                ),
                s.qualification_timeout,
            ),
    {
        let mut qualification_timeout = port.timeout(SystemMessage::QualificationTimeout);
        let qualification_duration = qualification_timeout_policy.duration(self.log_announce_interval);
        qualification_timeout.restart(qualification_duration);
        PortState::PreMaster(PreMasterPort::new(port, bmca, qualification_timeout, self))
    }

    /// The `UNCALIBRATED` state, with the Announce receipt timer started and a fresh delay
    /// mechanism whose first Delay_Req goes out at once.
    pub fn uncalibrated<P: Port, L: LocalGrandMasterCandidate, F: ForeignGrandMasterCandidates, S: ForeignClockRecords>(
        self,
        port: P,
        bmca: ParentTrackingBmca<L, F, S>,
    ) -> (r: PortState<P, L, F, S>)
        ensures
            freshly_started(r),
            r matches PortState::Uncalibrated(s) && s.port == port && s.bmca == bmca && s.profile == self
                && s.delay_mechanism.delay_cycle.sequence_id.id == 0
                && s.delay_mechanism.delay_cycle.log_interval == self.log_min_delay_request_interval
                && s.delay_mechanism.sync_ingress_timestamp is None
                && s.announce_receipt_timeout.interval == self.announce_receipt_timeout_interval
                && receipt_started(port, self.announce_receipt_timeout_interval, s.announce_receipt_timeout)
                && started(port, SystemMessage::DelayRequestTimeout, 0, s.delay_mechanism.delay_cycle.timeout),
    {
        let mut announce_receipt_timeout = AnnounceReceiptTimeout::new(
            port.timeout(SystemMessage::AnnounceReceiptTimeout),
            self.announce_receipt_timeout_interval,
        );
        announce_receipt_timeout.restart();
        let mut delay_timeout = port.timeout(SystemMessage::DelayRequestTimeout);
        let delay_request_delay = Duration::zero();
        delay_timeout.restart(delay_request_delay);
        let delay_cycle = DelayCycle::new(
            SequenceId::new(0),
            delay_timeout,
            self.log_min_delay_request_interval,
        );
        PortState::Uncalibrated(
            UncalibratedPort::new(
                port,
                bmca,
                announce_receipt_timeout,
                EndToEndDelayMechanism::new(delay_cycle),
                self,
            ),
        )
    }

    /// The `FAULTY` state.
    pub fn faulty<P: Port, L: LocalGrandMasterCandidate, F: ForeignGrandMasterCandidates, S: ForeignClockRecords>(
        self,
        port: P,
        bmca: BestMasterClockAlgorithm<L, F>,
        best_foreign: BestForeignRecord<S>,
    ) -> (r: PortState<P, L, F, S>)
        ensures
            freshly_started(r),
            r matches PortState::Faulty(s) && s.port == port && s.bmca == bmca && s.best_foreign
                == best_foreign && s.profile == self,
    {
        PortState::Faulty(FaultyPort::new(port, bmca, best_foreign, self))
    }

    /// The `PASSIVE` state, with the Announce receipt timer started.
    pub fn passive<P: Port, L: LocalGrandMasterCandidate, F: ForeignGrandMasterCandidates, S: ForeignClockRecords>(
        self,
        port: P,
        bmca: PassiveBmca<L, F, S>,
    ) -> (r: PortState<P, L, F, S>)
        ensures
            freshly_started(r),
            r matches PortState::Passive(s) && s.port == port && s.bmca == bmca && s.profile == self
                && s.announce_receipt_timeout.interval == self.announce_receipt_timeout_interval
                && receipt_started(port, self.announce_receipt_timeout_interval, s.announce_receipt_timeout),
    {
        let mut announce_receipt_timeout = AnnounceReceiptTimeout::new(
            port.timeout(SystemMessage::AnnounceReceiptTimeout),
            self.announce_receipt_timeout_interval,
        );
        announce_receipt_timeout.restart();
        PortState::Passive(PassivePort::new(port, bmca, announce_receipt_timeout, self))
    }
}

} // verus!
