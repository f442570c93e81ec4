//! The port state machine (IEEE 1588-2019 §9.2.5) as a sum of state types.
//!
//! Each state type owns its collaborators (the port boundary, a BMCA role, timers, the delay
//! mechanism) and handles the messages that matter in that state. [`PortState`] routes incoming
//! messages to the current state (`dispatch_*`), which may answer with a [`StateDecision`];
//! [`PortState::apply`] then performs the transition.
//!
//! A decision is legal only in some states ([`decision_legal`]); `apply` accepts only legal ones.
//! The message dispatchers only produce legal ones; the local-event dispatcher does too, but for
//! an Announce receipt timeout that reaches a master, for which the state chart has no
//! transition. Driving the machine through [`PortIngress`](crate::message::PortIngress) applies
//! every legal decision and leaves the state as it is on that one illegal decision.
use vstd::prelude::*;

use crate::bmca::{
    qualification_timeout_nanos,
    announce_considered, grandmaster_tracking_decision, listening_decision, parent_tracking_decision,
    passive_decision, BestForeignRecord, BestMasterClockAlgorithm, BmcaDecision, BmcaMasterDecision,
    ForeignGrandMasterCandidates, LocalGrandMasterCandidate,
};
use crate::clock::ClockIdentity;
use crate::faulty::FaultyPort;
use crate::initializing::InitializingPort;
use crate::listening::ListeningPort;
use crate::e2e::{
    delay_request_taken, recorded_delay_request, recorded_delay_response, recorded_follow_up,
    recorded_one_step_sync, recorded_two_step_sync, servo_outcome, EndToEndDelayMechanism,
};
use crate::master::{announce_sent, delay_response_to, follow_up_of, sync_sent, MasterPort};
use crate::message::{
    AnnounceMessage, DelayRequestMessage, EventMessage, GeneralMessage, PortIngress, PortMap,
    SystemMessage,
};
use crate::passive::PassivePort;
use crate::port::{receipt_restarted, receipt_started, started, DomainNumber, ParentPortIdentity, Port, PortIdentity, SendResult};
use crate::premaster::PreMasterPort;
use crate::profile::PortProfile;
use crate::records::ForeignClockRecords;
use crate::result::{Error, ProtocolError, Result};
use crate::slave::SlavePort;
use crate::time::{Instant, TimeStamp};
use crate::uncalibrated::UncalibratedPort;

verus! {

/// Transition inputs of the port state machine.
#[derive(Debug, Clone, Copy, PartialEq, Eq, Structural)]
pub enum StateDecision {
    /// Infrastructure signaled that initialization completed (`INITIALIZING → LISTENING`).
    Initialized,
    /// The servo locked onto the selected master (`UNCALIBRATED → SLAVE`).
    MasterClockSelected(ParentPortIdentity),
    /// BMCA recommended becoming a slave of the given parent.
    RecommendedSlave(ParentPortIdentity),
    /// BMCA recommended becoming (pre-)master.
    RecommendedMaster(BmcaMasterDecision),
    /// BMCA recommended becoming passive.
    RecommendedPassive,
    /// A fault was detected (e.g. a send failure).
    FaultDetected,
    /// A detected fault was cleared (`FAULTY → INITIALIZING`).
    FaultCleared,
    /// The qualification timeout expired (`PRE_MASTER → MASTER`).
    QualificationTimeoutExpired,
    /// The Announce receipt timeout expired.
    AnnounceReceiptTimeoutExpired,
    /// The servo lost synchronization (`SLAVE → UNCALIBRATED`).
    SynchronizationFault,
}

/// The states of the port state machine, without their contents.
#[derive(Debug, Clone, Copy, PartialEq, Eq, Structural)]
pub enum PortStateKind {
    Initializing,
    Listening,
    Slave,
    Master,
    PreMaster,
    Uncalibrated,
    Passive,
    Faulty,
}

/// The states in which `decision` can be applied.
pub open spec fn decision_legal(kind: PortStateKind, decision: StateDecision) -> bool {
    match decision {
        StateDecision::AnnounceReceiptTimeoutExpired => kind == PortStateKind::Listening || kind
            == PortStateKind::Slave || kind == PortStateKind::Uncalibrated || kind
            == PortStateKind::Passive,
        StateDecision::MasterClockSelected(_) => kind == PortStateKind::Uncalibrated,
        StateDecision::RecommendedSlave(_) => kind != PortStateKind::Initializing && kind
            != PortStateKind::Faulty,
        StateDecision::RecommendedMaster(_) => kind != PortStateKind::Initializing && kind
            != PortStateKind::Faulty,
        StateDecision::RecommendedPassive => kind == PortStateKind::Listening || kind
            == PortStateKind::Master || kind == PortStateKind::PreMaster || kind
            == PortStateKind::Slave || kind == PortStateKind::Uncalibrated,
        StateDecision::Initialized => kind == PortStateKind::Initializing,
        StateDecision::QualificationTimeoutExpired => kind == PortStateKind::PreMaster,
        StateDecision::SynchronizationFault => kind == PortStateKind::Slave,
        StateDecision::FaultDetected => kind != PortStateKind::Initializing,
        StateDecision::FaultCleared => kind == PortStateKind::Faulty,
    }
}

/// The state chart: the state a legal decision leads to.
pub open spec fn next_kind(kind: PortStateKind, decision: StateDecision) -> PortStateKind {
    match decision {
        StateDecision::AnnounceReceiptTimeoutExpired => PortStateKind::Master,
        StateDecision::MasterClockSelected(_) => PortStateKind::Slave,
        StateDecision::RecommendedSlave(_) => PortStateKind::Uncalibrated,
        StateDecision::RecommendedMaster(_) => PortStateKind::PreMaster,
        StateDecision::RecommendedPassive => PortStateKind::Passive,
        StateDecision::Initialized => PortStateKind::Listening,
        StateDecision::QualificationTimeoutExpired => PortStateKind::Master,
        StateDecision::SynchronizationFault => PortStateKind::Uncalibrated,
        StateDecision::FaultDetected => PortStateKind::Faulty,
        StateDecision::FaultCleared => PortStateKind::Initializing,
    }
}

/// The state decision carrying a BMCA recommendation.
pub open spec fn recommendation(d: Option<BmcaDecision>) -> Option<StateDecision> {
    match d {
        Some(BmcaDecision::Master(m)) => Some(StateDecision::RecommendedMaster(m)),
        Some(BmcaDecision::Slave(p)) => Some(StateDecision::RecommendedSlave(p)),
        Some(BmcaDecision::Passive) => Some(StateDecision::RecommendedPassive),
        None => None,
    }
}

/// The decision a state machine in state `kind` takes on a local event, for the events that are
/// pure signals (timer expiries that carry no work, initialization, fault clearance).
pub open spec fn signal_decision(kind: PortStateKind, msg: SystemMessage) -> Option<StateDecision> {
    match msg {
        SystemMessage::Initialized => if kind == PortStateKind::Initializing {
            Some(StateDecision::Initialized)
        } else {
            None
        },
        SystemMessage::AnnounceReceiptTimeout => if kind == PortStateKind::Listening || kind
            == PortStateKind::Slave || kind == PortStateKind::Master || kind
            == PortStateKind::Uncalibrated || kind == PortStateKind::Passive {
            Some(StateDecision::AnnounceReceiptTimeoutExpired)
        } else {
            None
        },
        SystemMessage::QualificationTimeout => if kind == PortStateKind::PreMaster {
            Some(StateDecision::QualificationTimeoutExpired)
        } else {
            None
        },
        SystemMessage::FaultCleared => if kind == PortStateKind::Faulty {
            Some(StateDecision::FaultCleared)
        } else {
            None
        },
        _ => None,
    }
}

/// `r` is in state `kind` and holds the given port, profile, BMCA evaluator and records.
pub open spec fn continues<P: Port, L: LocalGrandMasterCandidate, F: ForeignGrandMasterCandidates, S: ForeignClockRecords>(
    r: PortState<P, L, F, S>,
    kind: PortStateKind,
    port: P,
    profile: PortProfile,
    bmca: BestMasterClockAlgorithm<L, F>,
    best_foreign: BestForeignRecord<S>,
) -> bool {
    &&& r.kind() == kind
    &&& r.spec_port() == port
    &&& r.spec_profile() == profile
    &&& r.spec_bmca() == bmca
    &&& r.spec_best_foreign() == best_foreign
}

/// Every decision a state takes on a local signal is one that state can apply; the single
/// exception is an Announce receipt timeout delivered to a master, for which the state chart has
/// no transition.
pub proof fn lemma_signal_decisions_legal(kind: PortStateKind, msg: SystemMessage)
    requires
        !(kind == PortStateKind::Master && msg == SystemMessage::AnnounceReceiptTimeout),
    ensures
        signal_decision(kind, msg) matches Some(d) ==> decision_legal(kind, d),
{
}

/// The state chart: every state but `INITIALIZING` can fail; a failed port comes back only through
/// `INITIALIZING`; and `MASTER` is reached from every state that waits for Announce messages.
pub proof fn lemma_state_chart(kind: PortStateKind)
    ensures
        kind != PortStateKind::Initializing ==> decision_legal(kind, StateDecision::FaultDetected)
            && next_kind(kind, StateDecision::FaultDetected) == PortStateKind::Faulty,
        forall|d: StateDecision|
            decision_legal(PortStateKind::Faulty, d) ==> next_kind(PortStateKind::Faulty, d)
                == PortStateKind::Faulty || next_kind(PortStateKind::Faulty, d)
                == PortStateKind::Initializing,
        kind == PortStateKind::Listening || kind == PortStateKind::Slave || kind
            == PortStateKind::Uncalibrated || kind == PortStateKind::Passive ==> decision_legal(
            kind,
            StateDecision::AnnounceReceiptTimeoutExpired,
        ) && next_kind(kind, StateDecision::AnnounceReceiptTimeoutExpired) == PortStateKind::Master,
{
}

/// The event messages a state acts on: Sync in the slave-side states, Delay_Req in `MASTER`.
pub open spec fn handles_event(kind: PortStateKind, msg: EventMessage) -> bool {
    match msg {
        EventMessage::OneStepSync(_) => kind == PortStateKind::Slave || kind == PortStateKind::Uncalibrated,
        EventMessage::TwoStepSync(_) => kind == PortStateKind::Slave || kind == PortStateKind::Uncalibrated,
        EventMessage::DelayReq(_) => kind == PortStateKind::Master,
    }
}

/// The general messages a state acts on: Announce everywhere BMCA runs, Follow_Up and Delay_Resp
/// in the slave-side states.
pub open spec fn handles_general(kind: PortStateKind, msg: GeneralMessage) -> bool {
    match msg {
        GeneralMessage::Announce(_) => kind != PortStateKind::Initializing && kind != PortStateKind::Faulty,
        GeneralMessage::FollowUp(_) => kind == PortStateKind::Slave || kind == PortStateKind::Uncalibrated,
        GeneralMessage::DelayResp(_) => kind == PortStateKind::Slave || kind == PortStateKind::Uncalibrated,
    }
}

/// The records of `after` take in the Announce `msg` from `source`, received at `now`, starting
/// from those of `before`.
pub open spec fn records_take_in<S: ForeignClockRecords>(
    before: BestForeignRecord<S>,
    msg: AnnounceMessage,
    source: PortIdentity,
    now: Instant,
    after: BestForeignRecord<S>,
) -> bool {
    &&& after.received_on_port == before.received_on_port
    &&& announce_considered(
        before.foreign_clock_records.spec_records(),
        source,
        msg.foreign_clock_ds,
        msg.log_message_interval,
        now,
        after.foreign_clock_records.spec_records(),
    )
}

/// What receiving the Announce `msg` from `source` at `now` does: the state stays, its records
/// take in the Announce, the states that wait for Announce messages restart their receipt timer,
/// and the decision `d` is the recommendation of the state's BMCA role
/// (listening, parent-tracking, grandmaster-tracking or passive); `INITIALIZING` and `FAULTY`
/// ignore it.
pub open spec fn announce_outcome<P: Port, L: LocalGrandMasterCandidate, F: ForeignGrandMasterCandidates, S: ForeignClockRecords>(
    before: PortState<P, L, F, S>,
    msg: AnnounceMessage,
    source: PortIdentity,
    now: Instant,
    after: PortState<P, L, F, S>,
    d: Option<StateDecision>,
) -> bool {
    match (before, after) {
        (PortState::Listening(b), PortState::Listening(a)) => {
            &&& records_take_in(b.bmca.best_foreign, msg, source, now, a.bmca.best_foreign)
            &&& receipt_restarted(b.announce_receipt_timeout, a.announce_receipt_timeout)
            &&& d == recommendation(listening_decision(b.bmca.bmca, a.bmca.bmca, a.bmca.best_foreign))
        },
        (PortState::Slave(b), PortState::Slave(a)) => {
            &&& records_take_in(b.bmca.best_foreign, msg, source, now, a.bmca.best_foreign)
            &&& receipt_restarted(b.announce_receipt_timeout, a.announce_receipt_timeout)
            &&& d == recommendation(
                parent_tracking_decision(
                    b.bmca.bmca,
                    a.bmca.bmca,
                    a.bmca.best_foreign,
                    b.bmca.parent_port_identity,
                ),
            )
        },
        (PortState::Uncalibrated(b), PortState::Uncalibrated(a)) => {
            &&& records_take_in(b.bmca.best_foreign, msg, source, now, a.bmca.best_foreign)
            &&& receipt_restarted(b.announce_receipt_timeout, a.announce_receipt_timeout)
            &&& d == recommendation(
                parent_tracking_decision(
                    b.bmca.bmca,
                    a.bmca.bmca,
                    a.bmca.best_foreign,
                    b.bmca.parent_port_identity,
                ),
            )
        },
        (PortState::Master(b), PortState::Master(a)) => {
            &&& records_take_in(b.bmca.best_foreign, msg, source, now, a.bmca.best_foreign)
            &&& d == recommendation(
                grandmaster_tracking_decision(b.bmca.bmca, a.bmca.bmca, a.bmca.best_foreign, b.bmca.grandmaster_id),
            )
        },
        (PortState::PreMaster(b), PortState::PreMaster(a)) => {
            &&& records_take_in(b.bmca.best_foreign, msg, source, now, a.bmca.best_foreign)
            &&& d == recommendation(
                grandmaster_tracking_decision(b.bmca.bmca, a.bmca.bmca, a.bmca.best_foreign, b.bmca.grandmaster_id),
            )
        },
        (PortState::Passive(b), PortState::Passive(a)) => {
            &&& records_take_in(b.bmca.best_foreign, msg, source, now, a.bmca.best_foreign)
            &&& receipt_restarted(b.announce_receipt_timeout, a.announce_receipt_timeout)
            &&& d == recommendation(passive_decision(b.bmca.bmca, a.bmca.bmca, a.bmca.best_foreign))
        },
        (PortState::Initializing(_), PortState::Initializing(_)) => d is None && after == before,
        (PortState::Faulty(_), PortState::Faulty(_)) => d is None && after == before,
        _ => false,
    }
}

/// The state a decision leads to from `kind`: the chart's successor when the decision is legal
/// there, else `kind` itself.
pub open spec fn stepped_kind(kind: PortStateKind, d: Option<StateDecision>) -> PortStateKind {
    match d {
        Some(x) => if decision_legal(kind, x) {
            next_kind(kind, x)
        } else {
            kind
        },
        None => kind,
    }
}

/// The decision on the outcome of a send: a failed send is a detected fault.
pub open spec fn send_decision(r: SendResult) -> Option<StateDecision> {
    if r is Ok {
        None
    } else {
        Some(StateDecision::FaultDetected)
    }
}

/// What a slave-side state (of port `port`, tracking `parent`, with delay mechanism `before`) does
/// with the event message `msg` from `source` received at `ingress`: a Sync from the parent is
/// recorded (giving `after`), and for a one-step Sync the resulting sample, if any, is fed to the
/// servo, deciding `locked` or `unlocked`; everything else is ignored.
pub open spec fn slave_side_event<P: Port>(
    port: P,
    parent: ParentPortIdentity,
    before: EndToEndDelayMechanism<P::Timeout>,
    msg: EventMessage,
    source: PortIdentity,
    ingress: TimeStamp,
    after: EndToEndDelayMechanism<P::Timeout>,
    locked: Option<StateDecision>,
    unlocked: Option<StateDecision>,
    d: Option<StateDecision>,
) -> bool {
    if parent.parent_port_identity != source {
        d is None && after == before
    } else {
        match msg {
            EventMessage::OneStepSync(m) => recorded_one_step_sync(before, m, ingress, after) && servo_outcome(
                port,
                after.spec_sample(),
                locked,
                unlocked,
                d,
            ),
            EventMessage::TwoStepSync(m) => recorded_two_step_sync(before, m, ingress, after) && d is None,
            EventMessage::DelayReq(_) => d is None && after == before,
        }
    }
}

/// What receiving the event message `msg` from `source` at `ingress` does to a state: `SLAVE` and
/// `UNCALIBRATED` take Sync messages of their parent (see [`slave_side_event`]); `MASTER` answers
/// a Delay_Req with a Delay_Resp, a failed send being a detected fault; every other combination
/// leaves the state as it is, without a decision.
pub open spec fn event_outcome<P: Port, L: LocalGrandMasterCandidate, F: ForeignGrandMasterCandidates, S: ForeignClockRecords>(
    before: PortState<P, L, F, S>,
    msg: EventMessage,
    source: PortIdentity,
    ingress: TimeStamp,
    after: PortState<P, L, F, S>,
    d: Option<StateDecision>,
) -> bool {
    match (before, after) {
        (PortState::Slave(b), PortState::Slave(a)) => {
            &&& a.port == b.port
            &&& a.profile == b.profile
            &&& a.bmca == b.bmca
            &&& a.announce_receipt_timeout == b.announce_receipt_timeout
            &&& slave_side_event(
                b.port,
                b.bmca.parent_port_identity,
                b.delay_mechanism,
                msg,
                source,
                ingress,
                a.delay_mechanism,
                None,
                Some(StateDecision::SynchronizationFault),
                d,
            )
        },
        (PortState::Uncalibrated(b), PortState::Uncalibrated(a)) => {
            &&& a.port == b.port
            &&& a.profile == b.profile
            &&& a.bmca == b.bmca
            &&& a.announce_receipt_timeout == b.announce_receipt_timeout
            &&& slave_side_event(
                b.port,
                b.bmca.parent_port_identity,
                b.delay_mechanism,
                msg,
                source,
                ingress,
                a.delay_mechanism,
                Some(StateDecision::MasterClockSelected(b.bmca.parent_port_identity)),
                None,
                d,
            )
        },
        (PortState::Master(b), PortState::Master(a)) => match msg {
            EventMessage::DelayReq(m) => a == b && exists|r: SendResult|
                #[trigger] b.port.general_sent(
                    GeneralMessage::DelayResp(
                        delay_response_to(m, ingress, source, b.profile.log_min_delay_request_interval),
                    ),
                    r,
                ) && d == send_decision(r),
            _ => d is None && after == before,
        },
        _ => d is None && after == before,
    }
}

/// What a slave-side state (of port `port`, tracking `parent`, with delay mechanism `before`) does
/// with a Follow_Up or Delay_Resp `msg` from `source`: from the parent it is recorded (giving
/// `after`), and for a Follow_Up the resulting sample, if any, is fed to the servo, deciding
/// `locked` or `unlocked`; everything else is ignored.
pub open spec fn slave_side_general<P: Port>(
    port: P,
    parent: ParentPortIdentity,
    before: EndToEndDelayMechanism<P::Timeout>,
    msg: GeneralMessage,
    source: PortIdentity,
    after: EndToEndDelayMechanism<P::Timeout>,
    locked: Option<StateDecision>,
    unlocked: Option<StateDecision>,
    d: Option<StateDecision>,
) -> bool {
    if parent.parent_port_identity != source {
        d is None && after == before
    } else {
        match msg {
            GeneralMessage::FollowUp(m) => recorded_follow_up(before, m, after) && servo_outcome(
                port,
                after.spec_sample(),
                locked,
                unlocked,
                d,
            ),
            GeneralMessage::DelayResp(m) => recorded_delay_response(before, m, after) && d is None,
            GeneralMessage::Announce(_) => d is None && after == before,
        }
    }
}

/// What receiving the general message `msg` from `source` at `now` does to a state: an Announce
/// as [`announce_outcome`] says; Follow_Up and Delay_Resp are taken by `SLAVE` and `UNCALIBRATED`
/// (see [`slave_side_general`]) and leave every other state as it is, without a decision.
pub open spec fn general_outcome<P: Port, L: LocalGrandMasterCandidate, F: ForeignGrandMasterCandidates, S: ForeignClockRecords>(
    before: PortState<P, L, F, S>,
    msg: GeneralMessage,
    source: PortIdentity,
    now: Instant,
    after: PortState<P, L, F, S>,
    d: Option<StateDecision>,
) -> bool {
    match msg {
        GeneralMessage::Announce(m) => announce_outcome(before, m, source, now, after, d),
        _ => match (before, after) {
            (PortState::Slave(b), PortState::Slave(a)) => {
                &&& a.port == b.port
                &&& a.profile == b.profile
                &&& a.bmca == b.bmca
                &&& a.announce_receipt_timeout == b.announce_receipt_timeout
                &&& slave_side_general(
                    b.port,
                    b.bmca.parent_port_identity,
                    b.delay_mechanism,
                    msg,
                    source,
                    a.delay_mechanism,
                    None,
                    Some(StateDecision::SynchronizationFault),
                    d,
                )
            },
            (PortState::Uncalibrated(b), PortState::Uncalibrated(a)) => {
                &&& a.port == b.port
                &&& a.profile == b.profile
                &&& a.bmca == b.bmca
                &&& a.announce_receipt_timeout == b.announce_receipt_timeout
                &&& slave_side_general(
                    b.port,
                    b.bmca.parent_port_identity,
                    b.delay_mechanism,
                    msg,
                    source,
                    a.delay_mechanism,
                    Some(StateDecision::MasterClockSelected(b.bmca.parent_port_identity)),
                    None,
                    d,
                )
            },
            _ => d is None && after == before,
        },
    }
}

/// What a slave-side state (of port `port`, with delay mechanism `before`) does when its
/// Delay_Req timer fires: it takes the next Delay_Req of its cycle (giving `after`) and sends it,
/// with outcome `r`.
pub open spec fn delay_request_sent<P: Port>(
    port: P,
    before: EndToEndDelayMechanism<P::Timeout>,
    r: SendResult,
    after: EndToEndDelayMechanism<P::Timeout>,
) -> bool {
    &&& delay_request_taken(before, after)
    &&& port.event_sent(
        EventMessage::DelayReq(DelayRequestMessage { sequence_id: before.delay_cycle.sequence_id }),
        r,
    )
}

/// What the local event `msg` does to a state. Timers that carry work make the state act: `MASTER`
/// sends its Announce or its two-step Sync, and on the egress timestamp of a sent two-step Sync its
/// Follow_Up; `SLAVE` and `UNCALIBRATED` send their next Delay_Req, and record the egress
/// timestamp of a sent one. A failed send is a detected fault. Every other local event leaves the
/// state as it is, with the decision [`signal_decision`] names.
pub open spec fn system_outcome<P: Port, L: LocalGrandMasterCandidate, F: ForeignGrandMasterCandidates, S: ForeignClockRecords>(
    before: PortState<P, L, F, S>,
    msg: SystemMessage,
    after: PortState<P, L, F, S>,
    d: Option<StateDecision>,
) -> bool {
    match msg {
        SystemMessage::AnnounceSendTimeout => match (before, after) {
            (PortState::Master(b), PortState::Master(a)) => exists|r: SendResult|
                #[trigger] announce_sent(b, r, a) && d == send_decision(r),
            _ => d is None && after == before,
        },
        SystemMessage::SyncTimeout => match (before, after) {
            (PortState::Master(b), PortState::Master(a)) => exists|r: SendResult|
                #[trigger] sync_sent(b, r, a) && d == send_decision(r),
            _ => d is None && after == before,
        },
        SystemMessage::DelayRequestTimeout => match (before, after) {
            (PortState::Slave(b), PortState::Slave(a)) => {
                &&& a.port == b.port
                &&& a.profile == b.profile
                &&& a.bmca == b.bmca
                &&& a.announce_receipt_timeout == b.announce_receipt_timeout
                &&& exists|r: SendResult|
                    #[trigger] delay_request_sent(b.port, b.delay_mechanism, r, a.delay_mechanism) && d
                        == send_decision(r)
            },
            (PortState::Uncalibrated(b), PortState::Uncalibrated(a)) => {
                &&& a.port == b.port
                &&& a.profile == b.profile
                &&& a.bmca == b.bmca
                &&& a.announce_receipt_timeout == b.announce_receipt_timeout
                &&& exists|r: SendResult|
                    #[trigger] delay_request_sent(b.port, b.delay_mechanism, r, a.delay_mechanism) && d
                        == send_decision(r)
            },
            _ => d is None && after == before,
        },
        SystemMessage::Timestamp(t) => match (before, after, t.event_msg) {
            (PortState::Master(b), PortState::Master(a), EventMessage::TwoStepSync(sync)) => a == b && exists|
                r: SendResult,
            |
                #[trigger] b.port.general_sent(GeneralMessage::FollowUp(follow_up_of(sync, t.egress_timestamp)), r)
                    && d == send_decision(r),
            (PortState::Slave(b), PortState::Slave(a), EventMessage::DelayReq(req)) => {
                &&& a.port == b.port
                &&& a.profile == b.profile
                &&& a.bmca == b.bmca
                &&& a.announce_receipt_timeout == b.announce_receipt_timeout
                &&& recorded_delay_request(b.delay_mechanism, req, t.egress_timestamp, a.delay_mechanism)
                &&& d is None
            },
            (PortState::Uncalibrated(b), PortState::Uncalibrated(a), EventMessage::DelayReq(req)) => {
                &&& a.port == b.port
                &&& a.profile == b.profile
                &&& a.bmca == b.bmca
                &&& a.announce_receipt_timeout == b.announce_receipt_timeout
                &&& recorded_delay_request(b.delay_mechanism, req, t.egress_timestamp, a.delay_mechanism)
                &&& d is None
            },
            _ => d is None && after == before,
        },
        _ => d == signal_decision(before.kind(), msg) && after == before,
    }
}

/// `dm` is the delay mechanism a slave-side state of `port` starts with under `profile`: nothing
/// recorded, the delay cycle at sequence id 0 with the profile's minimum Delay_Req interval, and
/// its timer a fresh handle of the port started to fire at once.
pub open spec fn fresh_delay_mechanism<P: Port>(
    port: P,
    profile: PortProfile,
    dm: EndToEndDelayMechanism<P::Timeout>,
) -> bool {
    &&& dm.delay_cycle.sequence_id.id == 0
    &&& dm.delay_cycle.log_interval == profile.log_min_delay_request_interval
    &&& started(port, SystemMessage::DelayRequestTimeout, 0, dm.delay_cycle.timeout)
    &&& dm.sync_exchange.one_step_sync is None
    &&& dm.sync_exchange.two_step_sync_window.current is None
    &&& dm.sync_exchange.follow_up_window.current is None
    &&& dm.delay_exchange.delay_request_window.current is None
    &&& dm.delay_exchange.delay_response_window.current is None
    &&& dm.sync_ingress_timestamp is None
}

/// `r` holds the timers and cycles a state starts with when it is entered: the states that wait
/// for Announce messages have their receipt timer as a fresh handle of the port, started with the
/// profile's interval; `MASTER` has its Announce and Sync cycles at sequence id 0 with the
/// profile's intervals and their timers fresh handles started to fire at once; `UNCALIBRATED`
/// has a fresh delay mechanism. (`SLAVE` keeps the delay mechanism it is handed, and the
/// qualification timer of `PRE_MASTER` depends on the decision: see [`qualification_started`].)
pub open spec fn freshly_started<P: Port, L: LocalGrandMasterCandidate, F: ForeignGrandMasterCandidates, S: ForeignClockRecords>(
    r: PortState<P, L, F, S>,
) -> bool {
    match r {
        PortState::Listening(s) => receipt_started(s.port, s.profile.announce_receipt_timeout_interval, s.announce_receipt_timeout),
        PortState::Passive(s) => receipt_started(s.port, s.profile.announce_receipt_timeout_interval, s.announce_receipt_timeout),
        PortState::Slave(s) => receipt_started(s.port, s.profile.announce_receipt_timeout_interval, s.announce_receipt_timeout),
        PortState::Uncalibrated(s) => {
            &&& receipt_started(s.port, s.profile.announce_receipt_timeout_interval, s.announce_receipt_timeout)
            &&& fresh_delay_mechanism(s.port, s.profile, s.delay_mechanism)
        },
        PortState::Master(s) => {
            &&& s.announce_cycle.sequence_id.id == 0
            &&& s.announce_cycle.log_interval == s.profile.log_announce_interval
            &&& s.sync_cycle.sequence_id.id == 0
            &&& s.sync_cycle.log_interval == s.profile.log_sync_interval
            &&& started(s.port, SystemMessage::AnnounceSendTimeout, 0, s.announce_cycle.timeout)
            &&& started(s.port, SystemMessage::SyncTimeout, 0, s.sync_cycle.timeout)
        },
        _ => true,
    }
}

/// `r` is `PRE_MASTER` entered on the master decision `m`: its qualification timer is a fresh
/// handle of the port, started for the qualification timeout of `m`'s decision point and steps
/// removed at the profile's Announce interval.
pub open spec fn qualification_started<P: Port, L: LocalGrandMasterCandidate, F: ForeignGrandMasterCandidates, S: ForeignClockRecords>(
    r: PortState<P, L, F, S>,
    m: BmcaMasterDecision,
) -> bool {
    r matches PortState::PreMaster(s) && started(
        s.port,
        SystemMessage::QualificationTimeout,
        qualification_timeout_nanos(m.decision_point, m.steps_removed.0, s.profile.log_announce_interval.spec_log() as int),
        s.qualification_timeout,
    )
}

/// `after` is `before` once the legal decision `decision` was applied: the state chart's
/// successor, keeping the port, the profile, the BMCA evaluator and the records, with the timers
/// and cycles the new state starts with (`UNCALIBRATED` entered on a synchronization fault keeps
/// the receipt timer and delay mechanism of `SLAVE`); a slave recommendation tracks its parent, a master
/// recommendation its grandmaster (with the qualification timeout of the decision); `SLAVE`
/// keeps the parent and delay mechanism of `UNCALIBRATED`; a qualified `PRE_MASTER` keeps its
/// grandmaster; a port whose Announce receipt timed out becomes master of the local clock.
pub open spec fn applied<P: Port, L: LocalGrandMasterCandidate, F: ForeignGrandMasterCandidates, S: ForeignClockRecords>(
    before: PortState<P, L, F, S>,
    decision: StateDecision,
    after: PortState<P, L, F, S>,
) -> bool {
    &&& after.kind() == next_kind(before.kind(), decision)
    &&& before.carried_over(&after)
    &&& decision !is SynchronizationFault ==> freshly_started(after)
    &&& decision is SynchronizationFault ==> (before matches PortState::Slave(sl) ==> (after matches PortState::Uncalibrated(
        u,
    ) && u.announce_receipt_timeout == sl.announce_receipt_timeout && u.delay_mechanism
        == sl.delay_mechanism))
    &&& decision matches StateDecision::RecommendedSlave(p) ==> after.tracked_parent() == Some(p)
    &&& decision matches StateDecision::RecommendedMaster(m) ==> after.tracked_grandmaster() == Some(
        m.grandmaster_id,
    ) && qualification_started(after, m)
    &&& decision is MasterClockSelected || decision is SynchronizationFault ==> after.tracked_parent()
        == before.tracked_parent()
    &&& decision is MasterClockSelected ==> (before matches PortState::Uncalibrated(u) ==> (after matches PortState::Slave(
        s,
    ) && s.delay_mechanism == u.delay_mechanism))
    &&& decision is QualificationTimeoutExpired ==> after.tracked_grandmaster() == before.tracked_grandmaster()
    &&& decision is AnnounceReceiptTimeoutExpired ==> after.tracked_grandmaster() == Some(
        before.spec_bmca().local_candidate.spec_snapshot().identity,
    )
}

/// `after` is `mid` stepped by the decision `d`: a decision legal in `mid` is applied (see
/// [`applied`]); otherwise the state stays.
pub open spec fn stepped<P: Port, L: LocalGrandMasterCandidate, F: ForeignGrandMasterCandidates, S: ForeignClockRecords>(
    mid: PortState<P, L, F, S>,
    d: Option<StateDecision>,
    after: PortState<P, L, F, S>,
) -> bool {
    match d {
        Some(x) => if decision_legal(mid.kind(), x) {
            applied(mid, x, after)
        } else {
            after == mid
        },
        None => after == mid,
    }
}

/// Port states (IEEE 1588-2019 §9.2.5).
pub enum PortState<P: Port, L: LocalGrandMasterCandidate, F: ForeignGrandMasterCandidates, S: ForeignClockRecords> {
    Initializing(InitializingPort<P, L, F, S>),
    Listening(ListeningPort<P, L, F, S>),
    Slave(SlavePort<P, L, F, S>),
    Master(MasterPort<P, L, F, S>),
    PreMaster(PreMasterPort<P, L, F, S>),
    Uncalibrated(UncalibratedPort<P, L, F, S>),
    Passive(PassivePort<P, L, F, S>),
    Faulty(FaultyPort<P, L, F, S>),
}

impl<P: Port, L: LocalGrandMasterCandidate, F: ForeignGrandMasterCandidates, S: ForeignClockRecords> PortState<
    P,
    L,
    F,
    S,
> {
    /// The current state.
    pub open spec fn kind(&self) -> PortStateKind {
        match self {
            PortState::Initializing(_) => PortStateKind::Initializing,
            PortState::Listening(_) => PortStateKind::Listening,
            PortState::Slave(_) => PortStateKind::Slave,
            PortState::Master(_) => PortStateKind::Master,
            PortState::PreMaster(_) => PortStateKind::PreMaster,
            PortState::Uncalibrated(_) => PortStateKind::Uncalibrated,
            PortState::Passive(_) => PortStateKind::Passive,
            PortState::Faulty(_) => PortStateKind::Faulty,
        }
    }

    /// The port boundary owned by the current state.
    pub open spec fn spec_port(&self) -> P {
        match self {
            PortState::Initializing(s) => s.port,
            PortState::Listening(s) => s.port,
            PortState::Slave(s) => s.port,
            PortState::Master(s) => s.port,
            PortState::PreMaster(s) => s.port,
            PortState::Uncalibrated(s) => s.port,
            PortState::Passive(s) => s.port,
            PortState::Faulty(s) => s.port,
        }
    }

    /// The profile owned by the current state.
    pub open spec fn spec_profile(&self) -> PortProfile {
        match self {
            PortState::Initializing(s) => s.profile,
            PortState::Listening(s) => s.profile,
            PortState::Slave(s) => s.profile,
            PortState::Master(s) => s.profile,
            PortState::PreMaster(s) => s.profile,
            PortState::Uncalibrated(s) => s.profile,
            PortState::Passive(s) => s.profile,
            PortState::Faulty(s) => s.profile,
        }
    }

    /// The BMCA evaluator owned by the current state.
    pub open spec fn spec_bmca(&self) -> BestMasterClockAlgorithm<L, F> {
        match self {
            PortState::Initializing(s) => s.bmca,
            PortState::Listening(s) => s.bmca.bmca,
            PortState::Slave(s) => s.bmca.bmca,
            PortState::Master(s) => s.bmca.bmca,
            PortState::PreMaster(s) => s.bmca.bmca,
            PortState::Uncalibrated(s) => s.bmca.bmca,
            PortState::Passive(s) => s.bmca.bmca,
            PortState::Faulty(s) => s.bmca,
        }
    }

    /// The foreign master records owned by the current state.
    pub open spec fn spec_best_foreign(&self) -> BestForeignRecord<S> {
        match self {
            PortState::Initializing(s) => s.best_foreign,
            PortState::Listening(s) => s.bmca.best_foreign,
            PortState::Slave(s) => s.bmca.best_foreign,
            PortState::Master(s) => s.bmca.best_foreign,
            PortState::PreMaster(s) => s.bmca.best_foreign,
            PortState::Uncalibrated(s) => s.bmca.best_foreign,
            PortState::Passive(s) => s.bmca.best_foreign,
            PortState::Faulty(s) => s.best_foreign,
        }
    }

    /// The parent a slave-side state tracks.
    pub open spec fn tracked_parent(&self) -> Option<ParentPortIdentity> {
        match self {
            PortState::Slave(s) => Some(s.bmca.parent_port_identity),
            PortState::Uncalibrated(s) => Some(s.bmca.parent_port_identity),
            _ => None,
        }
    }

    /// The grandmaster a master-side state tracks.
    pub open spec fn tracked_grandmaster(&self) -> Option<ClockIdentity> {
        match self {
            PortState::Master(s) => Some(s.bmca.grandmaster_id),
            PortState::PreMaster(s) => Some(s.bmca.grandmaster_id),
            _ => None,
        }
    }

    /// What a transition keeps: the port, the profile, the BMCA evaluator and the records.
    pub open spec fn carried_over(&self, next: &Self) -> bool {
        &&& next.spec_port() == self.spec_port()
        &&& next.spec_profile() == self.spec_profile()
        &&& next.spec_bmca() == self.spec_bmca()
        &&& next.spec_best_foreign() == self.spec_best_foreign()
    }

    /// Apply a legal decision: the transition of the state chart.
    pub fn apply(self, decision: StateDecision) -> (r: Self)
        requires
            decision_legal(self.kind(), decision),
        ensures
            applied(self, decision, r),
            r.kind() == next_kind(self.kind(), decision),
            self.carried_over(&r),
            decision matches StateDecision::RecommendedSlave(p) ==> r.tracked_parent() == Some(p),
            decision matches StateDecision::RecommendedMaster(m) ==> r.tracked_grandmaster() == Some(
                m.grandmaster_id,
            ),
            decision is MasterClockSelected || decision is SynchronizationFault ==> r.tracked_parent()
                == self.tracked_parent(),
            decision is QualificationTimeoutExpired ==> r.tracked_grandmaster()
                == self.tracked_grandmaster(),
            decision is AnnounceReceiptTimeoutExpired ==> r.tracked_grandmaster() == Some(
                self.spec_bmca().local_candidate.spec_snapshot().identity,
            ),
    {
        match decision {
            StateDecision::AnnounceReceiptTimeoutExpired => match self {
                PortState::Listening(s) => s.announce_receipt_timeout_expired(),
                PortState::Slave(s) => s.announce_receipt_timeout_expired(),
                PortState::Uncalibrated(s) => s.announce_receipt_timeout_expired(),
                PortState::Passive(s) => s.announce_receipt_timeout_expired(),
                _ => self,
            },
            StateDecision::MasterClockSelected(parent) => match self {
                PortState::Uncalibrated(s) => s.master_clock_selected(parent),
                _ => self,
            },
            StateDecision::RecommendedSlave(parent) => match self {
                PortState::Listening(s) => s.recommended_slave(parent),
                PortState::Master(s) => s.recommended_slave(parent),
                PortState::PreMaster(s) => s.recommended_slave(parent),
                PortState::Slave(s) => s.recommended_slave(parent),
                PortState::Uncalibrated(s) => s.recommended_slave(parent),
                PortState::Passive(s) => s.recommended_slave(parent),
                _ => self,
            },
            StateDecision::RecommendedMaster(m) => match self {
                PortState::Listening(s) => s.recommended_master(m),
                PortState::Uncalibrated(s) => s.recommended_master(m),
                PortState::Master(s) => s.recommended_master(m),
                PortState::Slave(s) => s.recommended_master(m),
                PortState::PreMaster(s) => s.recommended_master(m),
                PortState::Passive(s) => s.recommended_master(m),
                _ => self,
            },
            StateDecision::RecommendedPassive => match self {
                PortState::Listening(s) => s.recommended_passive(),
                PortState::Master(s) => s.recommended_passive(),
                PortState::PreMaster(s) => s.recommended_passive(),
                PortState::Slave(s) => s.recommended_passive(),
                PortState::Uncalibrated(s) => s.recommended_passive(),
                _ => self,
            },
            StateDecision::Initialized => match self {
                PortState::Initializing(s) => s.initialized(),
                _ => self,
            },
            StateDecision::QualificationTimeoutExpired => match self {
                PortState::PreMaster(s) => s.qualified(),
                _ => self,
            },
            StateDecision::SynchronizationFault => match self {
                PortState::Slave(s) => s.synchronization_fault(),
                _ => self,
            },
            StateDecision::FaultDetected => match self {
                PortState::Listening(s) => s.fault_detected(),
                PortState::Slave(s) => s.fault_detected(),
                PortState::Master(s) => s.fault_detected(),
                PortState::PreMaster(s) => s.fault_detected(),
                PortState::Uncalibrated(s) => s.fault_detected(),
                PortState::Passive(s) => s.fault_detected(),
                PortState::Faulty(s) => PortState::Faulty(s),
                PortState::Initializing(_) => self,
            },
            StateDecision::FaultCleared => match self {
                PortState::Faulty(s) => s.fault_cleared(),
                _ => self,
            },
        }
    }

    /// Route an event message (Sync, Delay_Req) to the current state.
    pub fn dispatch_event(
        &mut self,
        msg: EventMessage,
        source_port_identity: PortIdentity,
        ingress_timestamp: TimeStamp,
    ) -> (d: Option<StateDecision>)
        ensures
            final(self).kind() == old(self).kind(),
            old(self).carried_over(final(self)),
            final(self).tracked_parent() == old(self).tracked_parent(),
            final(self).tracked_grandmaster() == old(self).tracked_grandmaster(),
            d matches Some(x) ==> decision_legal(old(self).kind(), x),
            !handles_event(old(self).kind(), msg) ==> d is None && *final(self) == *old(self),
            event_outcome(*old(self), msg, source_port_identity, ingress_timestamp, *final(self), d),
    {
        match self {
            PortState::Uncalibrated(port) => match msg {
                EventMessage::OneStepSync(m) => port.process_one_step_sync(
                    m,
                    source_port_identity,
                    ingress_timestamp,
                ),
                EventMessage::TwoStepSync(m) => port.process_two_step_sync(
                    m,
                    source_port_identity,
                    ingress_timestamp,
                ),
                EventMessage::DelayReq(_) => None,
            },
            PortState::Slave(port) => match msg {
                EventMessage::OneStepSync(m) => port.process_one_step_sync(
                    m,
                    source_port_identity,
                    ingress_timestamp,
                ),
                EventMessage::TwoStepSync(m) => port.process_two_step_sync(
                    m,
                    source_port_identity,
                    ingress_timestamp,
                ),
                EventMessage::DelayReq(_) => None,
            },
            PortState::Master(port) => match msg {
                EventMessage::DelayReq(m) => match port.process_delay_request(
                    m,
                    ingress_timestamp,
                    source_port_identity,
                ) {
                    Ok(()) => None,
                    Err(_) => Some(StateDecision::FaultDetected),
                },
                _ => None,
            },
            _ => None,
        }
    }

    /// Route a general message (Announce, Follow_Up, Delay_Resp) to the current state; `now` is
    /// the local monotonic time of reception.
    pub fn dispatch_general(
        &mut self,
        msg: GeneralMessage,
        source_port_identity: PortIdentity,
        now: Instant,
    ) -> (d: Option<StateDecision>)
        ensures
            final(self).kind() == old(self).kind(),
            final(self).spec_port() == old(self).spec_port(),
            final(self).spec_profile() == old(self).spec_profile(),
            final(self).spec_bmca().local_candidate == old(self).spec_bmca().local_candidate,
            final(self).spec_bmca().port_number == old(self).spec_bmca().port_number,
            final(self).tracked_parent() == old(self).tracked_parent(),
            final(self).tracked_grandmaster() == old(self).tracked_grandmaster(),
            d matches Some(x) ==> decision_legal(old(self).kind(), x),
            !handles_general(old(self).kind(), msg) ==> d is None && *final(self) == *old(self),
            msg matches GeneralMessage::Announce(m) ==> announce_outcome(
                *old(self),
                m,
                source_port_identity,
                now,
                *final(self),
                d,
            ),
            general_outcome(*old(self), msg, source_port_identity, now, *final(self), d),
    {
        match self {
            PortState::Listening(port) => match msg {
                GeneralMessage::Announce(m) => port.process_announce(m, source_port_identity, now),
                _ => None,
            },
            PortState::Slave(port) => match msg {
                GeneralMessage::Announce(m) => port.process_announce(m, source_port_identity, now),
                GeneralMessage::FollowUp(m) => port.process_follow_up(m, source_port_identity),
                GeneralMessage::DelayResp(m) => port.process_delay_response(m, source_port_identity),
            },
            PortState::Master(port) => match msg {
                GeneralMessage::Announce(m) => port.process_announce(m, source_port_identity, now),
                _ => None,
            },
            PortState::PreMaster(port) => match msg {
                GeneralMessage::Announce(m) => port.process_announce(m, source_port_identity, now),
                _ => None,
            },
            PortState::Uncalibrated(port) => match msg {
                GeneralMessage::Announce(m) => port.process_announce(m, source_port_identity, now),
                GeneralMessage::FollowUp(m) => port.process_follow_up(m, source_port_identity),
                GeneralMessage::DelayResp(m) => port.process_delay_response(m, source_port_identity),
            },
            PortState::Passive(port) => match msg {
                GeneralMessage::Announce(m) => port.process_announce(m, source_port_identity, now),
                _ => None,
            },
            _ => None,
        }
    }

    /// Route a local event (timer expiry, egress timestamp, initialization, fault clearance).
    ///
    /// Timers that carry work (sending Announce, Sync, Delay_Req, Follow_Up) make the state act,
    /// and a failed send is a detected fault; the pure signals become the decision
    /// [`signal_decision`] names.
    pub fn dispatch_system(&mut self, msg: SystemMessage) -> (d: Option<StateDecision>)
        ensures
            final(self).kind() == old(self).kind(),
            old(self).carried_over(final(self)),
            final(self).tracked_parent() == old(self).tracked_parent(),
            final(self).tracked_grandmaster() == old(self).tracked_grandmaster(),
            signal_decision(old(self).kind(), msg) is Some ==> d == signal_decision(old(self).kind(), msg),
            d matches Some(x) ==> decision_legal(old(self).kind(), x) || (old(self).kind()
                == PortStateKind::Master && x == StateDecision::AnnounceReceiptTimeoutExpired),
            d matches Some(x) && x != StateDecision::FaultDetected ==> d == signal_decision(
                old(self).kind(),
                msg,
            ),
            system_outcome(*old(self), msg, *final(self), d),
    {
        match msg {
            SystemMessage::AnnounceSendTimeout => match self {
                PortState::Master(port) => match port.send_announce() {
                    Ok(()) => None,
                    Err(_) => Some(StateDecision::FaultDetected),
                },
                _ => None,
            },
            SystemMessage::DelayRequestTimeout => match self {
                PortState::Slave(port) => {
                    let ghost before = *port;
                    let result = port.send_delay_request();
                    proof {
                        assert(delay_request_sent(before.port, before.delay_mechanism, result, port.delay_mechanism));
                    }
                    match result {
                        Ok(()) => None,
                        Err(_) => Some(StateDecision::FaultDetected),
                    }
                },
                PortState::Uncalibrated(port) => {
                    let ghost before = *port;
                    let result = port.send_delay_request();
                    proof {
                        assert(delay_request_sent(before.port, before.delay_mechanism, result, port.delay_mechanism));
                    }
                    match result {
                        Ok(()) => None,
                        Err(_) => Some(StateDecision::FaultDetected),
                    }
                },
                _ => None,
            },
            SystemMessage::SyncTimeout => match self {
                PortState::Master(port) => match port.send_sync() {
                    Ok(()) => None,
                    Err(_) => Some(StateDecision::FaultDetected),
                },
                _ => None,
            },
            SystemMessage::Timestamp(t) => match self {
                PortState::Master(port) => match t.event_msg {
                    EventMessage::TwoStepSync(sync) => match port.send_follow_up(sync, t.egress_timestamp) {
                        Ok(()) => None,
                        Err(_) => Some(StateDecision::FaultDetected),
                    },
                    _ => None,
                },
                PortState::Slave(port) => match t.event_msg {
                    EventMessage::DelayReq(req) => port.process_delay_request(req, t.egress_timestamp),
                    _ => None,
                },
                PortState::Uncalibrated(port) => match t.event_msg {
                    EventMessage::DelayReq(req) => port.process_delay_request(req, t.egress_timestamp),
                    _ => None,
                },
                _ => None,
            },
            SystemMessage::Initialized => match self {
                PortState::Initializing(_) => Some(StateDecision::Initialized),
                _ => None,
            },
            SystemMessage::AnnounceReceiptTimeout => match self {
                PortState::Listening(_) => Some(StateDecision::AnnounceReceiptTimeoutExpired),
                PortState::Slave(_) => Some(StateDecision::AnnounceReceiptTimeoutExpired),
                PortState::Master(_) => Some(StateDecision::AnnounceReceiptTimeoutExpired),
                PortState::Uncalibrated(_) => Some(StateDecision::AnnounceReceiptTimeoutExpired),
                PortState::Passive(_) => Some(StateDecision::AnnounceReceiptTimeoutExpired),
                _ => None,
            },
            SystemMessage::QualificationTimeout => match self {
                PortState::PreMaster(_) => Some(StateDecision::QualificationTimeoutExpired),
                _ => None,
            },
            SystemMessage::FaultCleared => match self {
                PortState::Faulty(_) => Some(StateDecision::FaultCleared),
                _ => None,
            },
        }
    }

    /// `true` if `decision` can be applied in the current state.
    pub fn accepts(&self, decision: &StateDecision) -> (b: bool)
        ensures
            b == decision_legal(self.kind(), *decision),
    {
        let kind = self.state_kind();
        match decision {
            StateDecision::AnnounceReceiptTimeoutExpired => match kind {
                PortStateKind::Listening => true,
                PortStateKind::Slave => true,
                PortStateKind::Uncalibrated => true,
                PortStateKind::Passive => true,
                _ => false,
            },
            StateDecision::MasterClockSelected(_) => match kind {
                PortStateKind::Uncalibrated => true,
                _ => false,
            },
            StateDecision::RecommendedSlave(_) => match kind {
                PortStateKind::Initializing => false,
                PortStateKind::Faulty => false,
                _ => true,
            },
            StateDecision::RecommendedMaster(_) => match kind {
                PortStateKind::Initializing => false,
                PortStateKind::Faulty => false,
                _ => true,
            },
            StateDecision::RecommendedPassive => match kind {
                PortStateKind::Listening => true,
                PortStateKind::Master => true,
                PortStateKind::PreMaster => true,
                PortStateKind::Slave => true,
                PortStateKind::Uncalibrated => true,
                _ => false,
            },
            StateDecision::Initialized => match kind {
                PortStateKind::Initializing => true,
                _ => false,
            },
            StateDecision::QualificationTimeoutExpired => match kind {
                PortStateKind::PreMaster => true,
                _ => false,
            },
            StateDecision::SynchronizationFault => match kind {
                PortStateKind::Slave => true,
                _ => false,
            },
            StateDecision::FaultDetected => match kind {
                PortStateKind::Initializing => false,
                _ => true,
            },
            StateDecision::FaultCleared => match kind {
                PortStateKind::Faulty => true,
                _ => false,
            },
        }
    }

    /// The current state, without its contents.
    pub fn state_kind(&self) -> (k: PortStateKind)
        ensures
            k == self.kind(),
    {
        match self {
            PortState::Initializing(_) => PortStateKind::Initializing,
            PortState::Listening(_) => PortStateKind::Listening,
            PortState::Slave(_) => PortStateKind::Slave,
            PortState::Master(_) => PortStateKind::Master,
            PortState::PreMaster(_) => PortStateKind::PreMaster,
            PortState::Uncalibrated(_) => PortStateKind::Uncalibrated,
            PortState::Passive(_) => PortStateKind::Passive,
            PortState::Faulty(_) => PortStateKind::Faulty,
        }
    }

    /// Apply `decision` where the current state accepts it; otherwise stay.
    pub fn step(self, decision: Option<StateDecision>) -> (r: Self)
        ensures
            stepped(self, decision, r),
    {
        match decision {
            Some(x) => if self.accepts(&x) {
                self.apply(x)
            } else {
                self
            },
            None => self,
        }
    }
}

impl<P: Port, L: LocalGrandMasterCandidate, F: ForeignGrandMasterCandidates, S: ForeignClockRecords> PortIngress for Option<
    PortState<P, L, F, S>,
> {
    /// An absent port stays absent; a port state takes the message as [`event_outcome`] says and
    /// then steps by its decision.
    open spec fn event_processed(
        &self,
        source_port_identity: PortIdentity,
        msg: EventMessage,
        timestamp: TimeStamp,
        after: Self,
    ) -> bool {
        match *self {
            None => after is None,
            Some(s) => after matches Some(t) && exists|mid: PortState<P, L, F, S>, d: Option<StateDecision>|
                #[trigger] event_outcome(s, msg, source_port_identity, timestamp, mid, d) && stepped(mid, d, t),
        }
    }

    /// An absent port stays absent; a port state takes the message as [`general_outcome`] says and
    /// then steps by its decision.
    open spec fn general_processed(
        &self,
        source_port_identity: PortIdentity,
        msg: GeneralMessage,
        now: Instant,
        after: Self,
    ) -> bool {
        match *self {
            None => after is None,
            Some(s) => after matches Some(t) && exists|mid: PortState<P, L, F, S>, d: Option<StateDecision>|
                #[trigger] general_outcome(s, msg, source_port_identity, now, mid, d) && stepped(mid, d, t),
        }
    }

    /// An absent port stays absent; a port state takes the local event as [`system_outcome`] says
    /// and then steps by its decision.
    open spec fn system_processed(&self, msg: SystemMessage, after: Self) -> bool {
        match *self {
            None => after is None,
            Some(s) => after matches Some(t) && exists|mid: PortState<P, L, F, S>, d: Option<StateDecision>|
                #[trigger] system_outcome(s, msg, mid, d) && stepped(mid, d, t),
        }
    }

    fn process_event_message(
        &mut self,
        source_port_identity: PortIdentity,
        msg: EventMessage,
        timestamp: TimeStamp,
    )
        ensures
            *old(self) is None ==> *final(self) is None,
            *old(self) matches Some(s) ==> *final(self) matches Some(t) && (t.kind() == s.kind() || exists|
                d: StateDecision,
            | decision_legal(s.kind(), d) && t.kind() == next_kind(s.kind(), d)),
            *old(self) matches Some(s) ==> *final(self) matches Some(t) && exists|
                mid: PortState<P, L, F, S>,
                d: Option<StateDecision>,
            | #[trigger] event_outcome(s, msg, source_port_identity, timestamp, mid, d) && stepped(mid, d, t),
    {
        let current = self.take();
        *self = match current {
            Some(mut state) => {
                let ghost before = state;
                let decision = state.dispatch_event(msg, source_port_identity, timestamp);
                let ghost mid = state;
                let next = state.step(decision);
                proof {
                    assert(event_outcome(before, msg, source_port_identity, timestamp, mid, decision));
                }
                Some(next)
            },
            None => None,
        };
    }

    fn process_general_message(
        &mut self,
        source_port_identity: PortIdentity,
        msg: GeneralMessage,
        now: Instant,
    )
        ensures
            *old(self) is None ==> *final(self) is None,
            *old(self) matches Some(s) ==> *final(self) matches Some(t) && (t.kind() == s.kind() || exists|
                d: StateDecision,
            | decision_legal(s.kind(), d) && t.kind() == next_kind(s.kind(), d)),
            *old(self) matches Some(s) ==> (msg matches GeneralMessage::Announce(m) ==> *final(self) matches Some(
                t,
            ) && exists|mid: PortState<P, L, F, S>, d: Option<StateDecision>|
                #[trigger] announce_outcome(s, m, source_port_identity, now, mid, d) && t.kind()
                    == stepped_kind(mid.kind(), d)),
            *old(self) matches Some(s) ==> *final(self) matches Some(t) && exists|
                mid: PortState<P, L, F, S>,
                d: Option<StateDecision>,
            | #[trigger] general_outcome(s, msg, source_port_identity, now, mid, d) && stepped(mid, d, t),
    {
        let current = self.take();
        *self = match current {
            Some(mut state) => {
                let ghost before = state;
                let decision = state.dispatch_general(msg, source_port_identity, now);
                let ghost mid = state;
                let next = state.step(decision);
                proof {
                    if let GeneralMessage::Announce(m) = msg {
                        assert(announce_outcome(before, m, source_port_identity, now, mid, decision));
                    }
                    assert(general_outcome(before, msg, source_port_identity, now, mid, decision));
                }
                Some(next)
            },
            None => None,
        };
    }

    fn process_system_message(&mut self, msg: SystemMessage)
        ensures
            *old(self) is None ==> *final(self) is None,
            *old(self) matches Some(s) ==> *final(self) matches Some(t) && match signal_decision(
                s.kind(),
                msg,
            ) {
                Some(d) => t.kind() == if decision_legal(s.kind(), d) {
                    next_kind(s.kind(), d)
                } else {
                    s.kind()
                },
                None => t.kind() == s.kind() || t.kind() == PortStateKind::Faulty,
            },
            *old(self) matches Some(s) ==> *final(self) matches Some(t) && exists|
                mid: PortState<P, L, F, S>,
                d: Option<StateDecision>,
            | #[trigger] system_outcome(s, msg, mid, d) && stepped(mid, d, t),
    {
        let current = self.take();
        *self = match current {
            Some(mut state) => {
                let ghost before = state;
                let decision = state.dispatch_system(msg);
                let ghost mid = state;
                let next = state.step(decision);
                proof {
                    assert(system_outcome(before, msg, mid, decision));
                }
                Some(next)
            },
            None => None,
        };
    }
}

/// The port map of a node with a single port in a single domain.
pub struct SingleDomainPortMap<P: Port, L: LocalGrandMasterCandidate, F: ForeignGrandMasterCandidates, S: ForeignClockRecords> {
    pub domain_number: DomainNumber,
    pub port_state: Option<PortState<P, L, F, S>>,
}

impl<P: Port, L: LocalGrandMasterCandidate, F: ForeignGrandMasterCandidates, S: ForeignClockRecords> SingleDomainPortMap<
    P,
    L,
    F,
    S,
> {
    /// The map holding `port_state` for `domain_number`.
    pub fn new(domain_number: DomainNumber, port_state: PortState<P, L, F, S>) -> (m: SingleDomainPortMap<
        P,
        L,
        F,
        S,
    >)
        ensures
            m.domain_number == domain_number,
            m.port_state == Some(port_state),
    {
        SingleDomainPortMap { domain_number, port_state: Some(port_state) }
    }
}

impl<P: Port, L: LocalGrandMasterCandidate, F: ForeignGrandMasterCandidates, S: ForeignClockRecords> PortMap for SingleDomainPortMap<
    P,
    L,
    F,
    S,
> {
    type Port = Option<PortState<P, L, F, S>>;

    open spec fn spec_has_domain(&self, domain_number: DomainNumber) -> bool {
        domain_number == self.domain_number
    }

    /// Any other domain is refused as not found.
    open spec fn refuses_with(&self, domain_number: DomainNumber, e: Error) -> bool {
        e == Error::Protocol(ProtocolError::DomainNotFound(domain_number.0))
    }

    /// The single port serves the map's domain.
    open spec fn port_of(&self, domain_number: DomainNumber, p: Option<PortState<P, L, F, S>>) -> bool {
        domain_number == self.domain_number && p == self.port_state
    }

    /// Replacing the port keeps the domain.
    open spec fn with_port(
        &self,
        domain_number: DomainNumber,
        p: Option<PortState<P, L, F, S>>,
        after: Self,
    ) -> bool {
        after == (SingleDomainPortMap { domain_number: self.domain_number, port_state: p })
    }

    /// The port, or `DomainNotFound` for any other domain.
    fn port_by_domain(&mut self, domain_number: DomainNumber) -> (r: Result<&mut Option<PortState<P, L, F, S>>>)
        ensures
            r matches Err(e) ==> e == Error::Protocol(ProtocolError::DomainNotFound(domain_number.0)),
    {
        if self.domain_number == domain_number {
            Ok(&mut self.port_state)
        } else {
            Err(Error::Protocol(ProtocolError::DomainNotFound(domain_number.as_u8())))
        }
    }
}

} // verus!
