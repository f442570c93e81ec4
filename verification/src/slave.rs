//! Port state `SLAVE`: synchronized to the selected parent; its samples discipline the local clock.
use vstd::prelude::*;

use crate::bmca::{
    announce_considered, parent_tracking_decision, BmcaMasterDecision, ForeignGrandMasterCandidates,
    LocalGrandMasterCandidate, ParentTrackingBmca,
};
use crate::e2e::{
    recorded_delay_request, recorded_delay_response, recorded_follow_up, recorded_one_step_sync,
    recorded_two_step_sync, servo_outcome, delay_request_taken, EndToEndDelayMechanism,
};
use crate::log::PortEvent;
use crate::message::{
    AnnounceMessage, DelayRequestMessage, DelayResponseMessage, EventMessage, FollowUpMessage,
    OneStepSyncMessage, TwoStepSyncMessage,
};
use crate::port::{receipt_restarted, AnnounceReceiptTimeout, ParentPortIdentity, Port, PortIdentity, SendResult};
use crate::portstate::{freshly_started, qualification_started, continues, recommendation, PortState, PortStateKind, StateDecision};
use crate::profile::PortProfile;
use crate::records::ForeignClockRecords;
use crate::servo::ServoState;
use crate::time::{Instant, TimeStamp};
use crate::uncalibrated::UncalibratedPort;

verus! {

/// The `SLAVE` state: Sync, Follow_Up and Delay_Resp count only when they come from the
/// tracked parent.
pub struct SlavePort<P: Port, L: LocalGrandMasterCandidate, F: ForeignGrandMasterCandidates, S: ForeignClockRecords> {
    pub port: P,
    pub bmca: ParentTrackingBmca<L, F, S>,
    pub announce_receipt_timeout: AnnounceReceiptTimeout<P::Timeout>,
    pub delay_mechanism: EndToEndDelayMechanism<P::Timeout>,
    pub profile: PortProfile,
}

impl<P: Port, L: LocalGrandMasterCandidate, F: ForeignGrandMasterCandidates, S: ForeignClockRecords> SlavePort<P, L, F, S> {
    /// Enter `SLAVE`.
    pub fn new(
        port: P,
        bmca: ParentTrackingBmca<L, F, S>,
        announce_receipt_timeout: AnnounceReceiptTimeout<P::Timeout>,
        delay_mechanism: EndToEndDelayMechanism<P::Timeout>,
        profile: PortProfile,
    ) -> (s: SlavePort<P, L, F, S>)
        ensures
            s.port == port,
            s.bmca == bmca,
            s.announce_receipt_timeout == announce_receipt_timeout,
            s.delay_mechanism == delay_mechanism,
            s.profile == profile,
    {
        port.log(PortEvent::Static("Become SlavePort"));
        SlavePort { port, bmca, announce_receipt_timeout, delay_mechanism, profile }
    }

    /// An Announce: restart the receipt timer, fold the observation into the records and take
    /// the parent-tracking decision.
    pub fn process_announce(
        &mut self,
        msg: AnnounceMessage,
        source_port_identity: PortIdentity,
        now: Instant,
    ) -> (d: Option<StateDecision>)
        ensures
            final(self).port == old(self).port,
            final(self).profile == old(self).profile,
            receipt_restarted(old(self).announce_receipt_timeout, final(self).announce_receipt_timeout),
            final(self).delay_mechanism == old(self).delay_mechanism,
            final(self).bmca.parent_port_identity == old(self).bmca.parent_port_identity,
            final(self).bmca.bmca.local_candidate == old(self).bmca.bmca.local_candidate,
            final(self).bmca.bmca.port_number == old(self).bmca.bmca.port_number,
            final(self).bmca.best_foreign.received_on_port == old(self).bmca.best_foreign.received_on_port,
            announce_considered(
                old(self).bmca.best_foreign.foreign_clock_records.spec_records(),
                source_port_identity,
                msg.foreign_clock_ds,
                msg.log_message_interval,
                now,
                final(self).bmca.best_foreign.foreign_clock_records.spec_records(),
            ),
            d == recommendation(
                parent_tracking_decision(
                    old(self).bmca.bmca,
                    final(self).bmca.bmca,
                    final(self).bmca.best_foreign,
                    old(self).bmca.parent_port_identity,
                ),
            ),
    {
        self.port.log(PortEvent::MessageReceived("Announce"));
        self.announce_receipt_timeout.restart();
        msg.feed_bmca(&mut self.bmca, source_port_identity, now);
        match self.bmca.decision() {
            Some(decision) => decision.to_state_decision(),
            None => None,
        }
    }

    /// Feed the sample of the delay mechanism, if there is one, to the servo: a servo that is not locked is a synchronization fault.
    fn discipline(&self) -> (d: Option<StateDecision>)
        ensures
            d is None || d == Some(StateDecision::SynchronizationFault),
            servo_outcome(
                self.port,
                self.delay_mechanism.spec_sample(),
                None,
                Some(StateDecision::SynchronizationFault),
                d,
            ),
    {
        match self.delay_mechanism.sample() {
            Some(sample) => {
                let local_clock = self.port.local_clock();
                let servo_state = local_clock.discipline(sample);
                match servo_state {
                    ServoState::Locked => None,
                    _ => Some(StateDecision::SynchronizationFault),
                }
            },
            None => None,
        }
    }

    /// A one-step Sync received at `ingress_timestamp`; from the parent it is recorded and the
    /// resulting sample, if any, is fed to the servo.
    pub fn process_one_step_sync(
        &mut self,
        sync: OneStepSyncMessage,
        source_port_identity: PortIdentity,
        ingress_timestamp: TimeStamp,
    ) -> (d: Option<StateDecision>)
        ensures
            final(self).port == old(self).port,
            final(self).profile == old(self).profile,
            final(self).bmca == old(self).bmca,
            final(self).announce_receipt_timeout == old(self).announce_receipt_timeout,
            old(self).bmca.parent_port_identity.parent_port_identity != source_port_identity ==> d is None
                && final(self).delay_mechanism == old(self).delay_mechanism,
            old(self).bmca.parent_port_identity.parent_port_identity == source_port_identity
                ==> final(self).delay_mechanism.sync_exchange.one_step_sync == Some(
                (sync, ingress_timestamp),
            ) && final(self).delay_mechanism.sync_ingress_timestamp == Some(ingress_timestamp),
            d is None || d == Some(StateDecision::SynchronizationFault),
            old(self).bmca.parent_port_identity.parent_port_identity == source_port_identity
                ==> servo_outcome(
                final(self).port,
                final(self).delay_mechanism.spec_sample(),
                None,
                Some(StateDecision::SynchronizationFault),
                d,
            ),
            old(self).bmca.parent_port_identity.parent_port_identity == source_port_identity
                ==> recorded_one_step_sync(old(self).delay_mechanism, sync, ingress_timestamp, final(self).delay_mechanism),
    {
        self.port.log(PortEvent::MessageReceived("One-Step Sync"));
        if !self.bmca.matches_parent(&source_port_identity) {
            return None;
        }
        self.delay_mechanism.record_one_step_sync(sync, ingress_timestamp);
        self.discipline()
    }

    /// A two-step Sync received at `ingress_timestamp`; from the parent it is recorded.
    pub fn process_two_step_sync(
        &mut self,
        sync: TwoStepSyncMessage,
        source_port_identity: PortIdentity,
        ingress_timestamp: TimeStamp,
    ) -> (d: Option<StateDecision>)
        ensures
            final(self).port == old(self).port,
            final(self).profile == old(self).profile,
            final(self).bmca == old(self).bmca,
            final(self).announce_receipt_timeout == old(self).announce_receipt_timeout,
            d is None,
            old(self).bmca.parent_port_identity.parent_port_identity != source_port_identity
                ==> final(self).delay_mechanism == old(self).delay_mechanism,
            old(self).bmca.parent_port_identity.parent_port_identity == source_port_identity
                ==> final(self).delay_mechanism.sync_exchange.two_step_sync_window.current == Some(
                (sync, ingress_timestamp),
            ) && final(self).delay_mechanism.sync_ingress_timestamp == Some(ingress_timestamp),
            old(self).bmca.parent_port_identity.parent_port_identity == source_port_identity
                ==> recorded_two_step_sync(old(self).delay_mechanism, sync, ingress_timestamp, final(self).delay_mechanism),
    {
        self.port.log(PortEvent::MessageReceived("Two-Step Sync"));
        if !self.bmca.matches_parent(&source_port_identity) {
            return None;
        }
        self.delay_mechanism.record_two_step_sync(sync, ingress_timestamp);
        None
    }

    /// A Follow_Up; from the parent it is recorded and the resulting sample, if any, is fed to
    /// the servo.
    pub fn process_follow_up(&mut self, follow_up: FollowUpMessage, source_port_identity: PortIdentity) -> (d:
        Option<StateDecision>)
        ensures
            final(self).port == old(self).port,
            final(self).profile == old(self).profile,
            final(self).bmca == old(self).bmca,
            final(self).announce_receipt_timeout == old(self).announce_receipt_timeout,
            old(self).bmca.parent_port_identity.parent_port_identity != source_port_identity ==> d is None
                && final(self).delay_mechanism == old(self).delay_mechanism,
            old(self).bmca.parent_port_identity.parent_port_identity == source_port_identity
                ==> final(self).delay_mechanism.sync_exchange.follow_up_window.current == Some(follow_up),
            d is None || d == Some(StateDecision::SynchronizationFault),
            old(self).bmca.parent_port_identity.parent_port_identity == source_port_identity
                ==> servo_outcome(
                final(self).port,
                final(self).delay_mechanism.spec_sample(),
                None,
                Some(StateDecision::SynchronizationFault),
                d,
            ),
            old(self).bmca.parent_port_identity.parent_port_identity == source_port_identity
                ==> recorded_follow_up(old(self).delay_mechanism, follow_up, final(self).delay_mechanism),
    {
        self.port.log(PortEvent::MessageReceived("FollowUp"));
        if !self.bmca.matches_parent(&source_port_identity) {
            return None;
        }
        self.delay_mechanism.record_follow_up(follow_up);
        self.discipline()
    }

    /// The egress timestamp of a sent Delay_Req: recorded.
    pub fn process_delay_request(&mut self, req: DelayRequestMessage, egress_timestamp: TimeStamp) -> (d:
        Option<StateDecision>)
        ensures
            final(self).port == old(self).port,
            final(self).profile == old(self).profile,
            final(self).bmca == old(self).bmca,
            final(self).announce_receipt_timeout == old(self).announce_receipt_timeout,
            final(self).delay_mechanism.delay_exchange.delay_request_window.current == Some(
                (req, egress_timestamp),
            ),
            d is None,
            recorded_delay_request(old(self).delay_mechanism, req, egress_timestamp, final(self).delay_mechanism),
    {
        self.port.log(PortEvent::MessageReceived("DelayReq"));
        self.delay_mechanism.record_delay_request(req, egress_timestamp);
        None
    }

    /// A Delay_Resp; from the parent it is recorded.
    pub fn process_delay_response(&mut self, resp: DelayResponseMessage, source_port_identity: PortIdentity) -> (d:
        Option<StateDecision>)
        ensures
            final(self).port == old(self).port,
            final(self).profile == old(self).profile,
            final(self).bmca == old(self).bmca,
            final(self).announce_receipt_timeout == old(self).announce_receipt_timeout,
            d is None,
            old(self).bmca.parent_port_identity.parent_port_identity != source_port_identity
                ==> final(self).delay_mechanism == old(self).delay_mechanism,
            old(self).bmca.parent_port_identity.parent_port_identity == source_port_identity
                ==> final(self).delay_mechanism.delay_exchange.delay_response_window.current == Some(resp),
            old(self).bmca.parent_port_identity.parent_port_identity == source_port_identity
                ==> recorded_delay_response(old(self).delay_mechanism, resp, final(self).delay_mechanism),
    {
        self.port.log(PortEvent::MessageReceived("DelayResp"));
        if !self.bmca.matches_parent(&source_port_identity) {
            return None;
        }
        self.delay_mechanism.record_delay_response(resp);
        None
    }

    /// Send the next Delay_Req of the delay cycle (the cycle advances whether or not sending
    /// succeeds).
    pub fn send_delay_request(&mut self) -> (r: SendResult)
        ensures
            final(self).port == old(self).port,
            final(self).profile == old(self).profile,
            final(self).bmca == old(self).bmca,
            final(self).announce_receipt_timeout == old(self).announce_receipt_timeout,
            final(self).delay_mechanism.delay_cycle.sequence_id.id == (
            old(self).delay_mechanism.delay_cycle.sequence_id.id + 1) % 0x1_0000,
            delay_request_taken(old(self).delay_mechanism, final(self).delay_mechanism),
            old(self).port.event_sent(
                EventMessage::DelayReq(
                    DelayRequestMessage { sequence_id: old(self).delay_mechanism.delay_cycle.sequence_id },
                ),
                r,
            ),
    {
        let delay_request = self.delay_mechanism.delay_request();
        let result = self.port.send_event(EventMessage::DelayReq(delay_request));
        if result.is_ok() {
            self.port.log(PortEvent::MessageSent("DelayReq"));
        }
        result
    }

    /// `SLAVE → MASTER` on Announce receipt timeout, for the local grandmaster.
    pub fn announce_receipt_timeout_expired(self) -> (r: PortState<P, L, F, S>)
        ensures
            freshly_started(r),
            continues(r, PortStateKind::Master, self.port, self.profile, self.bmca.bmca, self.bmca.best_foreign),
            r.tracked_grandmaster() == Some(self.bmca.bmca.local_candidate.spec_snapshot().identity),
    {
        self.port.log(PortEvent::AnnounceReceiptTimeout);
        let bmca = self.bmca.into_current_grandmaster_tracking();
        self.profile.master(self.port, bmca)
    }

    /// `SLAVE → UNCALIBRATED`, tracking the new `parent` with a fresh delay mechanism.
    pub fn recommended_slave(self, parent: ParentPortIdentity) -> (r: PortState<P, L, F, S>)
        ensures
            freshly_started(r),
            continues(
                r,
                PortStateKind::Uncalibrated,
                self.port,
                self.profile,
                self.bmca.bmca,
                self.bmca.best_foreign,
            ),
            r.tracked_parent() == Some(parent),
    {
        self.port.log(PortEvent::RecommendedSlave { parent });
        let bmca = self.bmca.with_parent(parent);
        self.profile.uncalibrated(self.port, bmca)
    }

    /// `SLAVE → PRE_MASTER`, tracking the decision's grandmaster.
    pub fn recommended_master(self, decision: BmcaMasterDecision) -> (r: PortState<P, L, F, S>)
        ensures
            freshly_started(r),
            qualification_started(r, decision),
            continues(r, PortStateKind::PreMaster, self.port, self.profile, self.bmca.bmca, self.bmca.best_foreign),
            r.tracked_grandmaster() == Some(decision.grandmaster_id),
    {
        self.port.log(PortEvent::RecommendedMaster);
        let bmca = self.bmca.into_grandmaster_tracking(decision.grandmaster_id());
        self.profile.pre_master(self.port, bmca, decision.qualification_timeout_policy())
    }

    /// `SLAVE → PASSIVE`.
    pub fn recommended_passive(self) -> (r: PortState<P, L, F, S>)
        ensures
            freshly_started(r),
            continues(r, PortStateKind::Passive, self.port, self.profile, self.bmca.bmca, self.bmca.best_foreign),
    {
        self.port.log(PortEvent::Static("RecommendedPassive"));
        let bmca = self.bmca.into_passive();
        self.profile.passive(self.port, bmca)
    }

    /// `SLAVE → FAULTY`.
    pub fn fault_detected(self) -> (r: PortState<P, L, F, S>)
        ensures
            freshly_started(r),
            continues(r, PortStateKind::Faulty, self.port, self.profile, self.bmca.bmca, self.bmca.best_foreign),
    {
        let (bmca, best_foreign) = self.bmca.into_parts();
        self.profile.faulty(self.port, bmca, best_foreign)
    }

    /// `SLAVE → UNCALIBRATED` on a synchronization fault, keeping the parent, the receipt timer
    /// and the delay mechanism.
    pub fn synchronization_fault(self) -> (r: PortState<P, L, F, S>)
        ensures
            r matches PortState::Uncalibrated(u) && u.announce_receipt_timeout == self.announce_receipt_timeout
                && u.delay_mechanism == self.delay_mechanism,
            continues(
                r,
                PortStateKind::Uncalibrated,
                self.port,
                self.profile,
                self.bmca.bmca,
                self.bmca.best_foreign,
            ),
            r.tracked_parent() == Some(self.bmca.parent_port_identity),
    {
        self.port.log(PortEvent::SynchronizationFault);
        PortState::Uncalibrated(
            UncalibratedPort::new(
                self.port,
                self.bmca,
                self.announce_receipt_timeout,
                self.delay_mechanism,
                self.profile,
            ),
        )
    }
}

} // verus!
