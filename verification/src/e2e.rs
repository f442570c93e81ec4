//! The end-to-end (E2E) delay mechanism (IEEE 1588-2019 §11.3): observe Sync / Follow_Up and
//! Delay_Req / Delay_Resp exchanges and derive offset samples for the servo.
//!
//! With `t1` the master's Sync origin time, `t2` the slave's Sync ingress time, `t3` the slave's
//! Delay_Req egress time and `t4` the master's Delay_Req receive time, the offset from master is
//! `((t2 - t1) - (t4 - t3)) / 2`.
//!
//! Recording a two-step Sync invalidates a previously recorded one-step Sync; a recorded one-step
//! Sync takes precedence over two-step fragments until a two-step Sync is recorded again.
use vstd::prelude::*;

use crate::message::{
    DelayRequestMessage, DelayResponseMessage, FollowUpMessage, OneStepSyncMessage, SequenceId,
    TwoStepSyncMessage,
};
use crate::clock::LocalClock;
use crate::port::{restarted_for_interval, Port, Timeout};
use crate::portstate::StateDecision;
use crate::servo::{Servo, ServoSample, ServoState};
use crate::time::{max_timestamp_nanos, LogInterval, TimeInterval, TimeStamp};

verus! {

/// What a port decides on feeding `sample` (Sync ingress time and offset from master), if there
/// is one, to the servo of its local clock: nothing without a sample; with one, `locked` when the
/// servo reports `Locked` and `unlocked` otherwise.
pub open spec fn servo_outcome<P: Port>(
    port: P,
    sample: Option<(TimeStamp, int)>,
    locked: Option<StateDecision>,
    unlocked: Option<StateDecision>,
    d: Option<StateDecision>,
) -> bool {
    match sample {
        None => d is None,
        Some((ingress, offset)) => exists|l: LocalClock<P::Clock, P::Servo>, s: ServoSample, st: ServoState|
            port.local_clock_is(l) && s.ingress == ingress && s.offset@ == offset && #[trigger] l.servo.responds(s, st)
                && d == (if st == ServoState::Locked {
                locked
            } else {
                unlocked
            }),
    }
}

/// "Latest message wins" cache, combinable with the latest message of another kind.
#[derive(Debug, PartialEq, Eq)]
pub struct MessageWindow<M> {
    pub current: Option<M>,
}

impl<M> MessageWindow<M> {
    /// An empty window.
    pub fn new() -> (w: MessageWindow<M>)
        ensures
            w.current is None,
    {
        MessageWindow { current: None }
    }

    /// Record a message, replacing the previous one.
    pub fn record(&mut self, msg: M)
        ensures
            final(self).current == Some(msg),
    {
        self.current = Some(msg);
    }

    /// Combine the latest message of `self` with the latest of `other`; `None` when either window
    /// is empty.
    pub fn combine_latest<N, T, F: Fn(&M, &N) -> Option<T>>(&self, other: &MessageWindow<N>, combine: F) -> (r:
        Option<T>)
        requires
            self.current matches Some(m) ==> (other.current matches Some(n) ==> call_requires(
                combine,
                (&m, &n),
            )),
        ensures
            match (self.current, other.current) {
                (Some(m), Some(n)) => call_ensures(combine, (&m, &n), r),
                _ => r is None,
            },
    {
        match (&self.current, &other.current) {
            (Some(m), Some(n)) => combine(m, n),
            _ => None,
        }
    }
}

/// The master-to-slave offset `t2 - t1` of a two-step Sync and a Follow_Up, when they belong
/// together.
pub open spec fn two_step_offset(
    follow_up: Option<FollowUpMessage>,
    sync: Option<(TwoStepSyncMessage, TimeStamp)>,
) -> Option<int> {
    match (follow_up, sync) {
        (Some(f), Some((s, ts))) => if f.sequence_id == s.sequence_id {
            Some(ts@ - f.precise_origin_timestamp@)
        } else {
            None
        },
        _ => None,
    }
}

/// The slave-to-master offset `t4 - t3` of a Delay_Req and a Delay_Resp, when the response
/// answers the request.
pub open spec fn delay_offset(
    resp: Option<DelayResponseMessage>,
    req: Option<(DelayRequestMessage, TimeStamp)>,
) -> Option<int> {
    match (resp, req) {
        (Some(r), Some((q, ts))) => if r.sequence_id == q.sequence_id {
            Some(r.receive_timestamp@ - ts@)
        } else {
            None
        },
        _ => None,
    }
}

/// Tracks the latest Sync observations and yields the master-to-slave offset.
pub struct SyncExchange {
    pub one_step_sync: Option<(OneStepSyncMessage, TimeStamp)>,
    pub two_step_sync_window: MessageWindow<(TwoStepSyncMessage, TimeStamp)>,
    pub follow_up_window: MessageWindow<FollowUpMessage>,
}

impl SyncExchange {
    /// The master-to-slave offset: from the one-step Sync if one is recorded, else from the latest
    /// two-step Sync and Follow_Up if they belong together.
    pub open spec fn spec_offset(self) -> Option<int> {
        match self.one_step_sync {
            Some((sync, ts)) => Some(ts@ - sync.origin_timestamp@),
            None => two_step_offset(self.follow_up_window.current, self.two_step_sync_window.current),
        }
    }

    /// No Sync observed yet.
    pub fn new() -> (x: SyncExchange)
        ensures
            x.one_step_sync is None,
            x.two_step_sync_window.current is None,
            x.follow_up_window.current is None,
    {
        SyncExchange {
            one_step_sync: None,
            two_step_sync_window: MessageWindow::new(),
            follow_up_window: MessageWindow::new(),
        }
    }

    /// Record a one-step Sync received at `timestamp`.
    pub fn record_one_step_sync(&mut self, sync: OneStepSyncMessage, timestamp: TimeStamp)
        ensures
            final(self).one_step_sync == Some((sync, timestamp)),
            final(self).two_step_sync_window == old(self).two_step_sync_window,
            final(self).follow_up_window == old(self).follow_up_window,
    {
        self.one_step_sync = Some((sync, timestamp));
    }

    /// Record a two-step Sync received at `timestamp`; forget any one-step Sync.
    pub fn record_two_step_sync(&mut self, sync: TwoStepSyncMessage, timestamp: TimeStamp)
        ensures
            final(self).one_step_sync is None,
            final(self).two_step_sync_window.current == Some((sync, timestamp)),
            final(self).follow_up_window == old(self).follow_up_window,
    {
        self.one_step_sync = None;
        self.two_step_sync_window.record((sync, timestamp));
    }

    /// Record a Follow_Up.
    pub fn record_follow_up(&mut self, follow_up: FollowUpMessage)
        ensures
            final(self).one_step_sync == old(self).one_step_sync,
            final(self).two_step_sync_window == old(self).two_step_sync_window,
            final(self).follow_up_window.current == Some(follow_up),
    {
        self.follow_up_window.record(follow_up);
    }

    /// The current master-to-slave offset, if available.
    pub fn master_slave_offset(&self) -> (o: Option<TimeInterval>)
        ensures
            match self.spec_offset() {
                Some(v) => o matches Some(o) && o@ == v,
                None => o is None,
            },
            o matches Some(o) ==> -max_timestamp_nanos() <= o@ <= max_timestamp_nanos(),
    {
        match &self.one_step_sync {
            Some((sync, ts)) => {
                return Some(sync.master_slave_offset(*ts));
            },
            None => {},
        }
        let combine = |follow_up: &FollowUpMessage, s: &(TwoStepSyncMessage, TimeStamp)| -> (o:
            Option<TimeInterval>)
            ensures
                two_step_offset(Some(*follow_up), Some(*s)) matches Some(v) ==> (o matches Some(o)
                    && o@ == v),
                two_step_offset(Some(*follow_up), Some(*s)) is None ==> o is None,
                o matches Some(o) ==> -max_timestamp_nanos() <= o@ <= max_timestamp_nanos(),
            { follow_up.master_slave_offset(s.0, s.1) };
        self.follow_up_window.combine_latest(&self.two_step_sync_window, combine)
    }
}

/// Tracks the latest Delay_Req / Delay_Resp observations and yields the slave-to-master offset.
pub struct DelayExchange {
    pub delay_request_window: MessageWindow<(DelayRequestMessage, TimeStamp)>,
    pub delay_response_window: MessageWindow<DelayResponseMessage>,
}

impl DelayExchange {
    /// The slave-to-master offset of the latest request and response, if they belong together.
    pub open spec fn spec_offset(self) -> Option<int> {
        delay_offset(self.delay_response_window.current, self.delay_request_window.current)
    }

    /// No exchange observed yet.
    pub fn new() -> (x: DelayExchange)
        ensures
            x.delay_request_window.current is None,
            x.delay_response_window.current is None,
    {
        DelayExchange { delay_request_window: MessageWindow::new(), delay_response_window: MessageWindow::new() }
    }

    /// Record a Delay_Req sent at `timestamp`.
    pub fn record_delay_request(&mut self, req: DelayRequestMessage, timestamp: TimeStamp)
        ensures
            final(self).delay_request_window.current == Some((req, timestamp)),
            final(self).delay_response_window == old(self).delay_response_window,
    {
        self.delay_request_window.record((req, timestamp));
    }

    /// Record a Delay_Resp.
    pub fn record_delay_response(&mut self, resp: DelayResponseMessage)
        ensures
            final(self).delay_request_window == old(self).delay_request_window,
            final(self).delay_response_window.current == Some(resp),
    {
        self.delay_response_window.record(resp);
    }

    /// The current slave-to-master offset, if available.
    pub fn slave_master_offset(&self) -> (o: Option<TimeInterval>)
        ensures
            match self.spec_offset() {
                Some(v) => o matches Some(o) && o@ == v,
                None => o is None,
            },
            o matches Some(o) ==> -max_timestamp_nanos() <= o@ <= max_timestamp_nanos(),
    {
        let combine = |resp: &DelayResponseMessage, r: &(DelayRequestMessage, TimeStamp)| -> (o:
            Option<TimeInterval>)
            ensures
                delay_offset(Some(*resp), Some(*r)) matches Some(v) ==> (o matches Some(o) && o@
                    == v),
                delay_offset(Some(*resp), Some(*r)) is None ==> o is None,
                o matches Some(o) ==> -max_timestamp_nanos() <= o@ <= max_timestamp_nanos(),
            { resp.slave_master_offset(r.0, r.1) };
        self.delay_response_window.combine_latest(&self.delay_request_window, combine)
    }
}

/// Delay_Req sequencing and scheduling.
#[derive(Debug, PartialEq, Eq)]
pub struct DelayCycle<T: Timeout> {
    pub sequence_id: SequenceId,
    pub timeout: T,
    pub log_interval: LogInterval,
}

impl<T: Timeout> DelayCycle<T> {
    /// A cycle whose first Delay_Req has sequence id `start`.
    pub fn new(start: SequenceId, delay_request_timeout: T, log_interval: LogInterval) -> (c: DelayCycle<T>)
        ensures
            c.sequence_id == start,
            c.timeout == delay_request_timeout,
            c.log_interval == log_interval,
    {
        DelayCycle { sequence_id: start, timeout: delay_request_timeout, log_interval }
    }

    /// Schedule the next Delay_Req and advance the sequence id.
    pub fn next(&mut self)
        ensures
            final(self).sequence_id.id == (old(self).sequence_id.id + 1) % 0x1_0000,
            restarted_for_interval(old(self).timeout, old(self).log_interval, final(self).timeout),
            final(self).log_interval == old(self).log_interval,
    {
        self.timeout.restart(self.log_interval.duration());
        self.sequence_id = self.sequence_id.next();
    }

    /// The Delay_Req for the current sequence id.
    pub fn delay_request(&self) -> (m: DelayRequestMessage)
        ensures
            m.sequence_id == self.sequence_id,
    {
        DelayRequestMessage::new(self.sequence_id)
    }
}

/// The offset from master of the recorded exchanges, `((t2 - t1) - (t4 - t3)) / 2` rounded toward
/// negative infinity, when both offsets are available.
pub open spec fn offset_from_master(sync: SyncExchange, delay: DelayExchange) -> Option<int> {
    match (sync.spec_offset(), delay.spec_offset()) {
        (Some(ms), Some(sm)) => Some((ms - sm) / 2),
        _ => None,
    }
}

/// `after` is `before` with the one-step Sync `sync`, received at `ingress`, recorded.
pub open spec fn recorded_one_step_sync<T: Timeout>(
    before: EndToEndDelayMechanism<T>,
    sync: OneStepSyncMessage,
    ingress: TimeStamp,
    after: EndToEndDelayMechanism<T>,
) -> bool {
    after == EndToEndDelayMechanism {
        sync_exchange: SyncExchange { one_step_sync: Some((sync, ingress)), ..before.sync_exchange },
        sync_ingress_timestamp: Some(ingress),
        ..before
    }
}

/// `after` is `before` with the two-step Sync `sync`, received at `ingress`, recorded; a recorded
/// one-step Sync is forgotten.
pub open spec fn recorded_two_step_sync<T: Timeout>(
    before: EndToEndDelayMechanism<T>,
    sync: TwoStepSyncMessage,
    ingress: TimeStamp,
    after: EndToEndDelayMechanism<T>,
) -> bool {
    after == EndToEndDelayMechanism {
        sync_exchange: SyncExchange {
            one_step_sync: None,
            two_step_sync_window: MessageWindow { current: Some((sync, ingress)) },
            ..before.sync_exchange
        },
        sync_ingress_timestamp: Some(ingress),
        ..before
    }
}

/// `after` is `before` with the Follow_Up `follow_up` recorded.
pub open spec fn recorded_follow_up<T: Timeout>(
    before: EndToEndDelayMechanism<T>,
    follow_up: FollowUpMessage,
    after: EndToEndDelayMechanism<T>,
) -> bool {
    after == EndToEndDelayMechanism {
        sync_exchange: SyncExchange {
            follow_up_window: MessageWindow { current: Some(follow_up) },
            ..before.sync_exchange
        },
        ..before
    }
}

/// `after` is `before` with the Delay_Req `req`, sent at `egress`, recorded.
pub open spec fn recorded_delay_request<T: Timeout>(
    before: EndToEndDelayMechanism<T>,
    req: DelayRequestMessage,
    egress: TimeStamp,
    after: EndToEndDelayMechanism<T>,
) -> bool {
    after == EndToEndDelayMechanism {
        delay_exchange: DelayExchange {
            delay_request_window: MessageWindow { current: Some((req, egress)) },
            ..before.delay_exchange
        },
        ..before
    }
}

/// `after` is `before` with the Delay_Resp `resp` recorded.
pub open spec fn recorded_delay_response<T: Timeout>(
    before: EndToEndDelayMechanism<T>,
    resp: DelayResponseMessage,
    after: EndToEndDelayMechanism<T>,
) -> bool {
    after == EndToEndDelayMechanism {
        delay_exchange: DelayExchange {
            delay_response_window: MessageWindow { current: Some(resp) },
            ..before.delay_exchange
        },
        ..before
    }
}

/// `after` is `before` once its next Delay_Req was taken: the delay cycle's sequence id advanced
/// (modulo 2^16) and its timer was restarted with its interval; nothing else changed.
pub open spec fn delay_request_taken<T: Timeout>(
    before: EndToEndDelayMechanism<T>,
    after: EndToEndDelayMechanism<T>,
) -> bool {
    &&& after.delay_cycle.sequence_id.id == (before.delay_cycle.sequence_id.id + 1) % 0x1_0000
    &&& restarted_for_interval(before.delay_cycle.timeout, before.delay_cycle.log_interval, after.delay_cycle.timeout)
    &&& after.delay_cycle.log_interval == before.delay_cycle.log_interval
    &&& after.sync_exchange == before.sync_exchange
    &&& after.delay_exchange == before.delay_exchange
    &&& after.sync_ingress_timestamp == before.sync_ingress_timestamp
}

/// End-to-end delay mechanism state of a slave-side port.
pub struct EndToEndDelayMechanism<T: Timeout> {
    pub delay_cycle: DelayCycle<T>,
    pub sync_exchange: SyncExchange,
    pub delay_exchange: DelayExchange,
    pub sync_ingress_timestamp: Option<TimeStamp>,
}

impl<T: Timeout> EndToEndDelayMechanism<T> {
    /// The sample of the recorded exchanges, as Sync ingress time and offset from master: there
    /// is one when both offsets and the Sync ingress time are available.
    pub open spec fn spec_sample(self) -> Option<(TimeStamp, int)> {
        match (offset_from_master(self.sync_exchange, self.delay_exchange), self.sync_ingress_timestamp) {
            (Some(v), Some(ingress)) => Some((ingress, v)),
            _ => None,
        }
    }

    /// No exchange observed yet.
    pub fn new(delay_cycle: DelayCycle<T>) -> (e: EndToEndDelayMechanism<T>)
        ensures
            e.delay_cycle == delay_cycle,
            e.sync_exchange.one_step_sync is None,
            e.sync_exchange.two_step_sync_window.current is None,
            e.sync_exchange.follow_up_window.current is None,
            e.delay_exchange.delay_request_window.current is None,
            e.delay_exchange.delay_response_window.current is None,
            e.sync_ingress_timestamp is None,
    {
        EndToEndDelayMechanism {
            delay_cycle,
            sync_exchange: SyncExchange::new(),
            delay_exchange: DelayExchange::new(),
            sync_ingress_timestamp: None,
        }
    }

    /// The next Delay_Req to send; advances the cycle.
    pub fn delay_request(&mut self) -> (m: DelayRequestMessage)
        ensures
            m.sequence_id == old(self).delay_cycle.sequence_id,
            final(self).delay_cycle.sequence_id.id == (old(self).delay_cycle.sequence_id.id + 1)
                % 0x1_0000,
            final(self).delay_cycle.log_interval == old(self).delay_cycle.log_interval,
            final(self).sync_exchange == old(self).sync_exchange,
            final(self).delay_exchange == old(self).delay_exchange,
            final(self).sync_ingress_timestamp == old(self).sync_ingress_timestamp,
            delay_request_taken(*old(self), *final(self)),
    {
        let delay_request = self.delay_cycle.delay_request();
        self.delay_cycle.next();
        delay_request
    }

    /// Record a one-step Sync received at `timestamp`.
    pub fn record_one_step_sync(&mut self, sync: OneStepSyncMessage, timestamp: TimeStamp)
        ensures
            final(self).sync_exchange.one_step_sync == Some((sync, timestamp)),
            final(self).sync_exchange.two_step_sync_window == old(self).sync_exchange.two_step_sync_window,
            final(self).sync_exchange.follow_up_window == old(self).sync_exchange.follow_up_window,
            final(self).delay_exchange == old(self).delay_exchange,
            final(self).delay_cycle == old(self).delay_cycle,
            final(self).sync_ingress_timestamp == Some(timestamp),
            recorded_one_step_sync(*old(self), sync, timestamp, *final(self)),
    {
        self.sync_exchange.record_one_step_sync(sync, timestamp);
        self.sync_ingress_timestamp = Some(timestamp);
    }

    /// Record a two-step Sync received at `timestamp`.
    pub fn record_two_step_sync(&mut self, sync: TwoStepSyncMessage, timestamp: TimeStamp)
        ensures
            final(self).sync_exchange.one_step_sync is None,
            final(self).sync_exchange.two_step_sync_window.current == Some((sync, timestamp)),
            final(self).sync_exchange.follow_up_window == old(self).sync_exchange.follow_up_window,
            final(self).delay_exchange == old(self).delay_exchange,
            final(self).delay_cycle == old(self).delay_cycle,
            final(self).sync_ingress_timestamp == Some(timestamp),
            recorded_two_step_sync(*old(self), sync, timestamp, *final(self)),
    {
        self.sync_exchange.record_two_step_sync(sync, timestamp);
        self.sync_ingress_timestamp = Some(timestamp);
    }

    /// Record a Follow_Up.
    pub fn record_follow_up(&mut self, follow_up: FollowUpMessage)
        ensures
            final(self).sync_exchange.one_step_sync == old(self).sync_exchange.one_step_sync,
            final(self).sync_exchange.two_step_sync_window == old(self).sync_exchange.two_step_sync_window,
            final(self).sync_exchange.follow_up_window.current == Some(follow_up),
            final(self).delay_exchange == old(self).delay_exchange,
            final(self).delay_cycle == old(self).delay_cycle,
            final(self).sync_ingress_timestamp == old(self).sync_ingress_timestamp,
            recorded_follow_up(*old(self), follow_up, *final(self)),
    {
        self.sync_exchange.record_follow_up(follow_up);
    }

    /// Record a Delay_Req sent at `timestamp`.
    pub fn record_delay_request(&mut self, req: DelayRequestMessage, timestamp: TimeStamp)
        ensures
            final(self).sync_exchange == old(self).sync_exchange,
            final(self).delay_exchange.delay_request_window.current == Some((req, timestamp)),
            final(self).delay_exchange.delay_response_window == old(self).delay_exchange.delay_response_window,
            final(self).delay_cycle == old(self).delay_cycle,
            final(self).sync_ingress_timestamp == old(self).sync_ingress_timestamp,
            recorded_delay_request(*old(self), req, timestamp, *final(self)),
    {
        self.delay_exchange.record_delay_request(req, timestamp);
    }

    /// Record a Delay_Resp.
    pub fn record_delay_response(&mut self, resp: DelayResponseMessage)
        ensures
            final(self).sync_exchange == old(self).sync_exchange,
            final(self).delay_exchange.delay_request_window == old(self).delay_exchange.delay_request_window,
            final(self).delay_exchange.delay_response_window.current == Some(resp),
            final(self).delay_cycle == old(self).delay_cycle,
            final(self).sync_ingress_timestamp == old(self).sync_ingress_timestamp,
            recorded_delay_response(*old(self), resp, *final(self)),
    {
        self.delay_exchange.record_delay_response(resp);
    }

    /// A servo sample from the recorded exchanges: at the latest Sync ingress time, with the offset
    /// from master `((t2 - t1) - (t4 - t3)) / 2`; `None` until both offsets are available.
    pub fn sample(&self) -> (s: Option<ServoSample>)
        ensures
            match (offset_from_master(self.sync_exchange, self.delay_exchange), self.sync_ingress_timestamp) {
                (Some(v), Some(ingress)) => s matches Some(s) && s.ingress == ingress && s.offset@ == v,
                _ => s is None,
            },
    {
        let ms_offset = match self.sync_exchange.master_slave_offset() {
            Some(o) => o,
            None => return None,
        };
        let sm_offset = match self.delay_exchange.slave_master_offset() {
            Some(o) => o,
            None => return None,
        };
        match self.sync_ingress_timestamp {
            Some(sync_ingress) => {
                let offset_from_master = ms_offset.minus(&sm_offset).half();
                Some(ServoSample::new(sync_ingress, offset_from_master))
            },
            None => None,
        }
    }
}

} // verus!
