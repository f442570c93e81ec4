//! Port state `PRE_MASTER`: waits out the qualification timeout before becoming master, still
//! evaluating Announce messages.
use vstd::prelude::*;

use crate::bmca::{
    announce_considered, grandmaster_tracking_decision, BmcaMasterDecision,
    ForeignGrandMasterCandidates, GrandMasterTrackingBmca, LocalGrandMasterCandidate,
};
use crate::log::PortEvent;
use crate::message::AnnounceMessage;
use crate::port::{ParentPortIdentity, Port, PortIdentity};
use crate::portstate::{freshly_started, qualification_started, continues, recommendation, PortState, PortStateKind, StateDecision};
use crate::profile::PortProfile;
use crate::records::ForeignClockRecords;
use crate::time::Instant;

verus! {

/// The `PRE_MASTER` state; it holds the qualification timer so that it stays alive.
pub struct PreMasterPort<P: Port, L: LocalGrandMasterCandidate, F: ForeignGrandMasterCandidates, S: ForeignClockRecords> {
    pub port: P,
    pub bmca: GrandMasterTrackingBmca<L, F, S>,
    pub qualification_timeout: P::Timeout,
    pub profile: PortProfile,
}

impl<P: Port, L: LocalGrandMasterCandidate, F: ForeignGrandMasterCandidates, S: ForeignClockRecords> PreMasterPort<P, L, F, S> {
    /// Enter `PRE_MASTER`.
    pub fn new(
        port: P,
        bmca: GrandMasterTrackingBmca<L, F, S>,
        qualification_timeout: P::Timeout,
        profile: PortProfile,
    ) -> (s: PreMasterPort<P, L, F, S>)
        ensures
            s.port == port,
            s.bmca == bmca,
            s.qualification_timeout == qualification_timeout,
            s.profile == profile,
    {
        port.log(PortEvent::Static("Become PreMasterPort"));
        PreMasterPort { port, bmca, qualification_timeout, profile }
    }

    /// An Announce: fold the observation into the records and take the grandmaster-tracking
    /// decision.
    pub fn process_announce(
        &mut self,
        msg: AnnounceMessage,
        source_port_identity: PortIdentity,
        now: Instant,
    ) -> (d: Option<StateDecision>)
        ensures
            final(self).port == old(self).port,
            final(self).profile == old(self).profile,
            final(self).qualification_timeout == old(self).qualification_timeout,
            final(self).bmca.grandmaster_id == old(self).bmca.grandmaster_id,
            final(self).bmca.bmca.local_candidate == old(self).bmca.bmca.local_candidate,
            final(self).bmca.bmca.port_number == old(self).bmca.bmca.port_number,
            final(self).bmca.best_foreign.received_on_port == old(self).bmca.best_foreign.received_on_port,
            announce_considered(
                old(self).bmca.best_foreign.foreign_clock_records.spec_records(),
                source_port_identity,
                msg.foreign_clock_ds,
                msg.log_message_interval,
                now,
                final(self).bmca.best_foreign.foreign_clock_records.spec_records(),
            ),
            d == recommendation(
                grandmaster_tracking_decision(
                    old(self).bmca.bmca,
                    final(self).bmca.bmca,
                    final(self).bmca.best_foreign,
                    old(self).bmca.grandmaster_id,
                ),
            ),
    {
        self.port.log(PortEvent::MessageReceived("Announce"));
        msg.feed_bmca(&mut self.bmca, source_port_identity, now);
        match self.bmca.decision() {
            Some(decision) => decision.to_state_decision(),
            None => None,
        }
    }

    /// `PRE_MASTER → MASTER` once the qualification timeout expired.
    pub fn qualified(self) -> (r: PortState<P, L, F, S>)
        ensures
            freshly_started(r),
            continues(r, PortStateKind::Master, self.port, self.profile, self.bmca.bmca, self.bmca.best_foreign),
            r.tracked_grandmaster() == Some(self.bmca.grandmaster_id),
    {
        self.port.log(PortEvent::QualifiedMaster);
        self.profile.master(self.port, self.bmca)
    }

    /// Stay in `PRE_MASTER` for the decision's grandmaster, restarting the qualification timeout.
    pub fn recommended_master(self, decision: BmcaMasterDecision) -> (r: PortState<P, L, F, S>)
        ensures
            freshly_started(r),
            qualification_started(r, decision),
            continues(r, PortStateKind::PreMaster, self.port, self.profile, self.bmca.bmca, self.bmca.best_foreign),
            r.tracked_grandmaster() == Some(decision.grandmaster_id),
    {
        self.port.log(PortEvent::RecommendedMaster);
        let bmca = self.bmca.with_grandmaster_id(decision.grandmaster_id());
        self.profile.pre_master(self.port, bmca, decision.qualification_timeout_policy())
    }

    /// `PRE_MASTER → UNCALIBRATED`, tracking `parent`.
    pub fn recommended_slave(self, parent: ParentPortIdentity) -> (r: PortState<P, L, F, S>)
        ensures
            freshly_started(r),
            continues(
                r,
                PortStateKind::Uncalibrated,
                self.port,
                self.profile,
                self.bmca.bmca,
                self.bmca.best_foreign,
            ),
            r.tracked_parent() == Some(parent),
    {
        self.port.log(PortEvent::RecommendedSlave { parent });
        let bmca = self.bmca.into_parent_tracking(parent);
        self.profile.uncalibrated(self.port, bmca)
    }

    /// `PRE_MASTER → PASSIVE`.
    pub fn recommended_passive(self) -> (r: PortState<P, L, F, S>)
        ensures
            freshly_started(r),
            continues(r, PortStateKind::Passive, self.port, self.profile, self.bmca.bmca, self.bmca.best_foreign),
    {
        self.port.log(PortEvent::Static("RecommendedPassive"));
        let bmca = self.bmca.into_passive();
        self.profile.passive(self.port, bmca)
    }

    /// `PRE_MASTER → FAULTY`.
    pub fn fault_detected(self) -> (r: PortState<P, L, F, S>)
        ensures
            freshly_started(r),
            continues(r, PortStateKind::Faulty, self.port, self.profile, self.bmca.bmca, self.bmca.best_foreign),
    {
        let (bmca, best_foreign) = self.bmca.into_parts();
        self.profile.faulty(self.port, bmca, best_foreign)
    }
}

} // verus!
