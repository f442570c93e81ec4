//! Port state `LISTENING`: evaluates Announce messages until BMCA recommends a state, or the
//! Announce receipt timeout makes the port master.
use vstd::prelude::*;

use crate::bmca::{
    announce_considered, listening_decision, BmcaMasterDecision, ForeignGrandMasterCandidates,
    ListeningBmca, LocalGrandMasterCandidate,
};
use crate::log::PortEvent;
use crate::message::AnnounceMessage;
use crate::port::{receipt_restarted, AnnounceReceiptTimeout, ParentPortIdentity, Port, PortIdentity};
use crate::portstate::{freshly_started, qualification_started, continues, recommendation, PortState, PortStateKind, StateDecision};
use crate::profile::PortProfile;
use crate::records::ForeignClockRecords;
use crate::time::Instant;

verus! {

/// The `LISTENING` state.
pub struct ListeningPort<P: Port, L: LocalGrandMasterCandidate, F: ForeignGrandMasterCandidates, S: ForeignClockRecords> {
    pub port: P,
    pub bmca: ListeningBmca<L, F, S>,
    pub announce_receipt_timeout: AnnounceReceiptTimeout<P::Timeout>,
    pub profile: PortProfile,
}

impl<P: Port, L: LocalGrandMasterCandidate, F: ForeignGrandMasterCandidates, S: ForeignClockRecords> ListeningPort<P, L, F, S> {
    /// Enter `LISTENING`.
    pub fn new(
        port: P,
        bmca: ListeningBmca<L, F, S>,
        announce_receipt_timeout: AnnounceReceiptTimeout<P::Timeout>,
        profile: PortProfile,
    ) -> (s: ListeningPort<P, L, F, S>)
        ensures
            s.port == port,
            s.bmca == bmca,
            s.announce_receipt_timeout == announce_receipt_timeout,
            s.profile == profile,
    {
        port.log(PortEvent::Static("Become ListeningPort"));
        ListeningPort { port, bmca, announce_receipt_timeout, profile }
    }

    /// `LISTENING → UNCALIBRATED`, tracking `parent`.
    pub fn recommended_slave(self, parent: ParentPortIdentity) -> (r: PortState<P, L, F, S>)
        ensures
            freshly_started(r),
            continues(
                r,
                PortStateKind::Uncalibrated,
                self.port,
                self.profile,
                self.bmca.bmca,
                self.bmca.best_foreign,
            ),
            r.tracked_parent() == Some(parent),
    {
        self.port.log(PortEvent::RecommendedSlave { parent });
        let bmca = self.bmca.into_parent_tracking(parent);
        self.profile.uncalibrated(self.port, bmca)
    }

    /// `LISTENING → PRE_MASTER`, tracking the decision's grandmaster, with the qualification
    /// timeout of the decision.
    pub fn recommended_master(self, decision: BmcaMasterDecision) -> (r: PortState<P, L, F, S>)
        ensures
            freshly_started(r),
            qualification_started(r, decision),
            continues(r, PortStateKind::PreMaster, self.port, self.profile, self.bmca.bmca, self.bmca.best_foreign),
            r.tracked_grandmaster() == Some(decision.grandmaster_id),
    {
        self.port.log(PortEvent::RecommendedMaster);
        let bmca = self.bmca.into_grandmaster_tracking(decision.grandmaster_id());
        self.profile.pre_master(self.port, bmca, decision.qualification_timeout_policy())
    }

    /// `LISTENING → PASSIVE`.
    pub fn recommended_passive(self) -> (r: PortState<P, L, F, S>)
        ensures
            freshly_started(r),
            continues(r, PortStateKind::Passive, self.port, self.profile, self.bmca.bmca, self.bmca.best_foreign),
    {
        self.port.log(PortEvent::Static("RecommendedPassive"));
        let bmca = self.bmca.into_passive();
        self.profile.passive(self.port, bmca)
    }

    /// `LISTENING → MASTER` on Announce receipt timeout, for the local grandmaster.
    pub fn announce_receipt_timeout_expired(self) -> (r: PortState<P, L, F, S>)
        ensures
            freshly_started(r),
            continues(r, PortStateKind::Master, self.port, self.profile, self.bmca.bmca, self.bmca.best_foreign),
            r.tracked_grandmaster() == Some(self.bmca.bmca.local_candidate.spec_snapshot().identity),
    {
        self.port.log(PortEvent::AnnounceReceiptTimeout);
        let bmca = self.bmca.into_current_grandmaster_tracking();
        self.profile.master(self.port, bmca)
    }

    /// `LISTENING → FAULTY`.
    pub fn fault_detected(self) -> (r: PortState<P, L, F, S>)
        ensures
            freshly_started(r),
            continues(r, PortStateKind::Faulty, self.port, self.profile, self.bmca.bmca, self.bmca.best_foreign),
    {
        let (bmca, best_foreign) = self.bmca.into_parts();
        self.profile.faulty(self.port, bmca, best_foreign)
    }

    /// An Announce: restart the receipt timer, fold the observation into the records and take
    /// the listening decision.
    pub fn process_announce(
        &mut self,
        msg: AnnounceMessage,
        source_port_identity: PortIdentity,
        now: Instant,
    ) -> (d: Option<StateDecision>)
        ensures
            final(self).port == old(self).port,
            final(self).profile == old(self).profile,
            receipt_restarted(old(self).announce_receipt_timeout, final(self).announce_receipt_timeout),
            final(self).bmca.bmca.local_candidate == old(self).bmca.bmca.local_candidate,
            final(self).bmca.bmca.port_number == old(self).bmca.bmca.port_number,
            final(self).bmca.best_foreign.received_on_port == old(self).bmca.best_foreign.received_on_port,
            announce_considered(
                old(self).bmca.best_foreign.foreign_clock_records.spec_records(),
                source_port_identity,
                msg.foreign_clock_ds,
                msg.log_message_interval,
                now,
                final(self).bmca.best_foreign.foreign_clock_records.spec_records(),
            ),
            d == recommendation(
                listening_decision(old(self).bmca.bmca, final(self).bmca.bmca, final(self).bmca.best_foreign),
            ),
    {
        self.port.log(PortEvent::MessageReceived("Announce"));
        self.announce_receipt_timeout.restart();
        msg.feed_bmca(&mut self.bmca, source_port_identity, now);
        match self.bmca.decision() {
            Some(decision) => decision.to_state_decision(),
            None => None,
        }
    }
}

} // verus!
