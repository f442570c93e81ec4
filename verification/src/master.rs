//! Port state `MASTER`, and the sequencing and scheduling of the periodic messages a master
//! sends: Announce and (two-step) Sync. Each cycle holds the sequence id of its next message and
//! restarts its timer when it advances.
use vstd::prelude::*;

use crate::bmca::{
    announce_considered, ClockDS, grandmaster_tracking_decision, BmcaMasterDecision,
    ForeignGrandMasterCandidates, GrandMaster, GrandMasterTrackingBmca, LocalGrandMasterCandidate,
};
use crate::clock::{Clock, LocalClock, TimeScale};
use crate::log::PortEvent;
use crate::message::{
    AnnounceMessage, DelayRequestMessage, DelayResponseMessage, EventMessage, FollowUpMessage,
    GeneralMessage, SequenceId, TwoStepSyncMessage,
};
use crate::port::{restarted_for_interval, ParentPortIdentity, Port, PortIdentity, SendResult, Timeout};
use crate::portstate::{freshly_started, qualification_started, continues, recommendation, PortState, PortStateKind, StateDecision};
use crate::profile::PortProfile;
use crate::records::ForeignClockRecords;
use crate::time::{Instant, LogInterval, LogMessageInterval, TimeStamp};

verus! {

/// The Announce of a cycle at `sequence_id` with interval `log_interval`, presenting the data set
/// `ds` on `time_scale`.
pub open spec fn cycle_announce(
    sequence_id: SequenceId,
    log_interval: LogInterval,
    ds: ClockDS,
    time_scale: TimeScale,
) -> AnnounceMessage {
    AnnounceMessage {
        sequence_id,
        log_message_interval: LogMessageInterval::spec_new(log_interval.spec_log()),
        foreign_clock_ds: ds,
        ptp_timescale: time_scale,
    }
}

/// The two-step Sync of a cycle at `sequence_id` with interval `log_interval`.
pub open spec fn cycle_sync(sequence_id: SequenceId, log_interval: LogInterval) -> TwoStepSyncMessage {
    TwoStepSyncMessage {
        sequence_id,
        log_message_interval: LogMessageInterval::spec_new(log_interval.spec_log()),
    }
}

/// The Delay_Resp answering `req`, received at `ingress_timestamp` from
/// `requesting_port_identity`, advertising the minimum Delay_Req interval `log_interval`.
pub open spec fn delay_response_to(
    req: DelayRequestMessage,
    ingress_timestamp: TimeStamp,
    requesting_port_identity: PortIdentity,
    log_interval: LogInterval,
) -> DelayResponseMessage {
    DelayResponseMessage {
        sequence_id: req.sequence_id,
        log_message_interval: LogMessageInterval::spec_new(log_interval.spec_log()),
        receive_timestamp: ingress_timestamp,
        requesting_port_identity,
    }
}

/// The Follow_Up of the two-step Sync `sync`, carrying its egress timestamp.
pub open spec fn follow_up_of(sync: TwoStepSyncMessage, egress_timestamp: TimeStamp) -> FollowUpMessage {
    FollowUpMessage {
        sequence_id: sync.sequence_id,
        log_message_interval: sync.log_message_interval,
        precise_origin_timestamp: egress_timestamp,
    }
}

/// `after` is the master `before` once it sent the Announce of its cycle with outcome `r`: the
/// Announce presents the local candidate's data set on the time scale the local clock reports, and
/// the cycle advances (modulo 2^16), restarting its timer with its interval, exactly when sending
/// succeeded; nothing else changes.
pub open spec fn announce_sent<P: Port, L: LocalGrandMasterCandidate, F: ForeignGrandMasterCandidates, S: ForeignClockRecords>(
    before: MasterPort<P, L, F, S>,
    r: SendResult,
    after: MasterPort<P, L, F, S>,
) -> bool {
    &&& after.port == before.port
    &&& after.bmca == before.bmca
    &&& after.sync_cycle == before.sync_cycle
    &&& after.profile == before.profile
    &&& after.announce_cycle.log_interval == before.announce_cycle.log_interval
    &&& if r is Ok {
        restarted_for_interval(
            before.announce_cycle.timeout,
            before.announce_cycle.log_interval,
            after.announce_cycle.timeout,
        )
    } else {
        after.announce_cycle.timeout == before.announce_cycle.timeout
    }
    &&& after.announce_cycle.sequence_id.id == if r is Ok {
        (before.announce_cycle.sequence_id.id + 1) % 0x1_0000
    } else {
        before.announce_cycle.sequence_id.id as int
    }
    &&& exists|l: LocalClock<P::Clock, P::Servo>, time_scale: TimeScale|
        before.port.local_clock_is(l) && #[trigger] l.clock.runs_on(time_scale) && before.port.general_sent(
            GeneralMessage::Announce(
                cycle_announce(
                    before.announce_cycle.sequence_id,
                    before.announce_cycle.log_interval,
                    before.bmca.bmca.local_candidate.spec_snapshot(),
                    time_scale,
                ),
            ),
            r,
        )
}

/// `after` is the master `before` once it sent the two-step Sync of its cycle with outcome `r`:
/// the cycle advances (modulo 2^16), restarting its timer with its interval, exactly when sending
/// succeeded; nothing else changes.
pub open spec fn sync_sent<P: Port, L: LocalGrandMasterCandidate, F: ForeignGrandMasterCandidates, S: ForeignClockRecords>(
    before: MasterPort<P, L, F, S>,
    r: SendResult,
    after: MasterPort<P, L, F, S>,
) -> bool {
    &&& after.port == before.port
    &&& after.bmca == before.bmca
    &&& after.announce_cycle == before.announce_cycle
    &&& after.profile == before.profile
    &&& after.sync_cycle.log_interval == before.sync_cycle.log_interval
    &&& if r is Ok {
        restarted_for_interval(before.sync_cycle.timeout, before.sync_cycle.log_interval, after.sync_cycle.timeout)
    } else {
        after.sync_cycle.timeout == before.sync_cycle.timeout
    }
    &&& after.sync_cycle.sequence_id.id == if r is Ok {
        (before.sync_cycle.sequence_id.id + 1) % 0x1_0000
    } else {
        before.sync_cycle.sequence_id.id as int
    }
    &&& before.port.event_sent(
        EventMessage::TwoStepSync(cycle_sync(before.sync_cycle.sequence_id, before.sync_cycle.log_interval)),
        r,
    )
}

/// Announce sequencing and scheduling.
#[derive(Debug, PartialEq, Eq)]
pub struct AnnounceCycle<T: Timeout> {
    pub sequence_id: SequenceId,
    pub timeout: T,
    pub log_interval: LogInterval,
}

impl<T: Timeout> AnnounceCycle<T> {
    /// A cycle whose first Announce has sequence id `start`.
    pub fn new(start: SequenceId, timeout: T, log_interval: LogInterval) -> (c: AnnounceCycle<T>)
        ensures
            c.sequence_id == start,
            c.timeout == timeout,
            c.log_interval == log_interval,
    {
        AnnounceCycle { sequence_id: start, timeout, log_interval }
    }

    /// Restart the timer for the next Announce and advance the sequence id.
    pub fn next(&mut self)
        ensures
            final(self).sequence_id.id == (old(self).sequence_id.id + 1) % 0x1_0000,
            restarted_for_interval(old(self).timeout, old(self).log_interval, final(self).timeout),
            final(self).log_interval == old(self).log_interval,
    {
        self.timeout.restart(self.log_interval.duration());
        self.sequence_id = self.sequence_id.next();
    }

    /// The Announce for the current sequence id, presenting `grandmaster` on `time_scale`.
    pub fn announce(&self, time_scale: TimeScale, grandmaster: GrandMaster) -> (m: AnnounceMessage)
        ensures
            m.sequence_id == self.sequence_id,
            m.log_message_interval.spec_raw() == self.log_interval.spec_log(),
            m.foreign_clock_ds == grandmaster.ds,
            m.ptp_timescale == time_scale,
            m == cycle_announce(self.sequence_id, self.log_interval, grandmaster.ds, time_scale),
    {
        grandmaster.announce(self.sequence_id, self.log_interval.log_message_interval(), time_scale)
    }
}

/// Two-step Sync sequencing and scheduling.
#[derive(Debug, PartialEq, Eq)]
pub struct SyncCycle<T: Timeout> {
    pub sequence_id: SequenceId,
    pub timeout: T,
    pub log_interval: LogInterval,
}

impl<T: Timeout> SyncCycle<T> {
    /// A cycle whose first Sync has sequence id `start`.
    pub fn new(start: SequenceId, timeout: T, log_interval: LogInterval) -> (c: SyncCycle<T>)
        ensures
            c.sequence_id == start,
            c.timeout == timeout,
            c.log_interval == log_interval,
    {
        SyncCycle { sequence_id: start, timeout, log_interval }
    }

    /// Restart the timer for the next Sync and advance the sequence id.
    pub fn next(&mut self)
        ensures
            final(self).sequence_id.id == (old(self).sequence_id.id + 1) % 0x1_0000,
            restarted_for_interval(old(self).timeout, old(self).log_interval, final(self).timeout),
            final(self).log_interval == old(self).log_interval,
    {
        self.timeout.restart(self.log_interval.duration());
        self.sequence_id = self.sequence_id.next();
    }

    /// The two-step Sync for the current sequence id.
    pub fn two_step_sync(&self) -> (m: TwoStepSyncMessage)
        ensures
            m.sequence_id == self.sequence_id,
            m.log_message_interval.spec_raw() == self.log_interval.spec_log(),
            m == cycle_sync(self.sequence_id, self.log_interval),
    {
        TwoStepSyncMessage::new(self.sequence_id, self.log_interval.log_message_interval())
    }
}

/// The `MASTER` state: sends Announce and two-step Sync periodically, answers Delay_Req, and
/// keeps evaluating Announce messages.
pub struct MasterPort<P: Port, L: LocalGrandMasterCandidate, F: ForeignGrandMasterCandidates, S: ForeignClockRecords> {
    pub port: P,
    pub bmca: GrandMasterTrackingBmca<L, F, S>,
    pub announce_cycle: AnnounceCycle<P::Timeout>,
    pub sync_cycle: SyncCycle<P::Timeout>,
    pub profile: PortProfile,
}

impl<P: Port, L: LocalGrandMasterCandidate, F: ForeignGrandMasterCandidates, S: ForeignClockRecords> MasterPort<P, L, F, S> {
    /// Enter `MASTER`.
    pub fn new(
        port: P,
        bmca: GrandMasterTrackingBmca<L, F, S>,
        announce_cycle: AnnounceCycle<P::Timeout>,
        sync_cycle: SyncCycle<P::Timeout>,
        profile: PortProfile,
    ) -> (s: MasterPort<P, L, F, S>)
        ensures
            s.port == port,
            s.bmca == bmca,
            s.announce_cycle == announce_cycle,
            s.sync_cycle == sync_cycle,
            s.profile == profile,
    {
        port.log(PortEvent::Static("Become MasterPort"));
        MasterPort { port, bmca, announce_cycle, sync_cycle, profile }
    }

    /// Send the Announce of the current cycle, presenting the current grandmaster on the local
    /// clock's time scale; on success, advance the cycle.
    pub fn send_announce(&mut self) -> (r: SendResult)
        ensures
            announce_sent(*old(self), r, *final(self)),
    {
        let local_clock = self.port.local_clock();
        let time_scale = local_clock.time_scale();
        let announce = self.announce_cycle.announce(time_scale, self.bmca.grandmaster());
        let result = self.port.send_general(GeneralMessage::Announce(announce));
        if result.is_ok() {
            self.announce_cycle.next();
            self.port.log(PortEvent::MessageSent("Announce"));
        }
        result
    }

    /// An Announce: fold the observation into the records and take the grandmaster-tracking
    /// decision.
    pub fn process_announce(
        &mut self,
        msg: AnnounceMessage,
        source_port_identity: PortIdentity,
        now: Instant,
    ) -> (d: Option<StateDecision>)
        ensures
            final(self).port == old(self).port,
            final(self).profile == old(self).profile,
            final(self).announce_cycle == old(self).announce_cycle,
            final(self).sync_cycle == old(self).sync_cycle,
            final(self).bmca.grandmaster_id == old(self).bmca.grandmaster_id,
            final(self).bmca.bmca.local_candidate == old(self).bmca.bmca.local_candidate,
            final(self).bmca.bmca.port_number == old(self).bmca.bmca.port_number,
            final(self).bmca.best_foreign.received_on_port == old(self).bmca.best_foreign.received_on_port,
            announce_considered(
                old(self).bmca.best_foreign.foreign_clock_records.spec_records(),
                source_port_identity,
                msg.foreign_clock_ds,
                msg.log_message_interval,
                now,
                final(self).bmca.best_foreign.foreign_clock_records.spec_records(),
            ),
            d == recommendation(
                grandmaster_tracking_decision(
                    old(self).bmca.bmca,
                    final(self).bmca.bmca,
                    final(self).bmca.best_foreign,
                    old(self).bmca.grandmaster_id,
                ),
            ),
    {
        self.port.log(PortEvent::MessageReceived("Announce"));
        msg.feed_bmca(&mut self.bmca, source_port_identity, now);
        match self.bmca.decision() {
            Some(decision) => decision.to_state_decision(),
            None => None,
        }
    }

    /// The Delay_Resp answering `req`, received at `ingress_timestamp` from
    /// `requesting_port_identity`.
    pub fn delay_response(
        &self,
        req: DelayRequestMessage,
        ingress_timestamp: TimeStamp,
        requesting_port_identity: PortIdentity,
    ) -> (m: GeneralMessage)
        ensures
            m matches GeneralMessage::DelayResp(resp) && resp.sequence_id == req.sequence_id
                && resp.receive_timestamp == ingress_timestamp && resp.requesting_port_identity
                == requesting_port_identity && resp.log_message_interval.spec_raw()
                == self.profile.log_min_delay_request_interval.spec_log(),
            m == GeneralMessage::DelayResp(
                delay_response_to(
                    req,
                    ingress_timestamp,
                    requesting_port_identity,
                    self.profile.log_min_delay_request_interval,
                ),
            ),
    {
        GeneralMessage::DelayResp(
            req.response(
                self.profile.log_min_delay_request_interval().log_message_interval(),
                ingress_timestamp,
                requesting_port_identity,
            ),
        )
    }

    /// Answer a Delay_Req with a Delay_Resp.
    pub fn process_delay_request(
        &mut self,
        req: DelayRequestMessage,
        ingress_timestamp: TimeStamp,
        requesting_port_identity: PortIdentity,
    ) -> (r: SendResult)
        ensures
            *final(self) == *old(self),
            old(self).port.general_sent(
                GeneralMessage::DelayResp(
                    delay_response_to(
                        req,
                        ingress_timestamp,
                        requesting_port_identity,
                        old(self).profile.log_min_delay_request_interval,
                    ),
                ),
                r,
            ),
    {
        self.port.log(PortEvent::MessageReceived("DelayReq"));
        let response = self.delay_response(req, ingress_timestamp, requesting_port_identity);
        let result = self.port.send_general(response);
        if result.is_ok() {
            self.port.log(PortEvent::MessageSent("DelayResp"));
        }
        result
    }

    /// Send the two-step Sync of the current cycle; on success, advance the cycle.
    pub fn send_sync(&mut self) -> (r: SendResult)
        ensures
            sync_sent(*old(self), r, *final(self)),
    {
        let sync = self.sync_cycle.two_step_sync();
        let result = self.port.send_event(EventMessage::TwoStepSync(sync));
        if result.is_ok() {
            self.sync_cycle.next();
            self.port.log(PortEvent::MessageSent("TwoStepSync"));
        }
        result
    }

    /// Send the Follow_Up of a sent two-step Sync, carrying its egress timestamp.
    pub fn send_follow_up(&mut self, sync: TwoStepSyncMessage, egress_timestamp: TimeStamp) -> (r:
        SendResult)
        ensures
            *final(self) == *old(self),
            old(self).port.general_sent(GeneralMessage::FollowUp(follow_up_of(sync, egress_timestamp)), r),
    {
        let result = self.port.send_general(GeneralMessage::FollowUp(sync.follow_up(egress_timestamp)));
        if result.is_ok() {
            self.port.log(PortEvent::MessageSent("FollowUp"));
        }
        result
    }

    /// Stay master-side in `PRE_MASTER` for the decision's grandmaster.
    pub fn recommended_master(self, decision: BmcaMasterDecision) -> (r: PortState<P, L, F, S>)
        ensures
            freshly_started(r),
            qualification_started(r, decision),
            continues(r, PortStateKind::PreMaster, self.port, self.profile, self.bmca.bmca, self.bmca.best_foreign),
            r.tracked_grandmaster() == Some(decision.grandmaster_id),
    {
        self.port.log(PortEvent::RecommendedMaster);
        let bmca = self.bmca.with_grandmaster_id(decision.grandmaster_id());
        self.profile.pre_master(self.port, bmca, decision.qualification_timeout_policy())
    }

    /// `MASTER → UNCALIBRATED`, tracking `parent`.
    pub fn recommended_slave(self, parent: ParentPortIdentity) -> (r: PortState<P, L, F, S>)
        ensures
            freshly_started(r),
            continues(
                r,
                PortStateKind::Uncalibrated,
                self.port,
                self.profile,
                self.bmca.bmca,
                self.bmca.best_foreign,
            ),
            r.tracked_parent() == Some(parent),
    {
        self.port.log(PortEvent::RecommendedSlave { parent });
        let bmca = self.bmca.into_parent_tracking(parent);
        self.profile.uncalibrated(self.port, bmca)
    }

    /// `MASTER → PASSIVE`.
    pub fn recommended_passive(self) -> (r: PortState<P, L, F, S>)
        ensures
            freshly_started(r),
            continues(r, PortStateKind::Passive, self.port, self.profile, self.bmca.bmca, self.bmca.best_foreign),
    {
        self.port.log(PortEvent::Static("RecommendedPassive"));
        let bmca = self.bmca.into_passive();
        self.profile.passive(self.port, bmca)
    }

    /// `MASTER → FAULTY`.
    pub fn fault_detected(self) -> (r: PortState<P, L, F, S>)
        ensures
            freshly_started(r),
            continues(r, PortStateKind::Faulty, self.port, self.profile, self.bmca.bmca, self.bmca.best_foreign),
    {
        let (bmca, best_foreign) = self.bmca.into_parts();
        self.profile.faulty(self.port, bmca, best_foreign)
    }
}

} // verus!
