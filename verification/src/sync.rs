//! A master time estimate from two-step Sync and delay exchanges.
//!
//! With `t1` the precise origin time of a two-step Sync, `t2` its ingress time, `t3` the egress
//! time of a Delay_Req and `t4` the master's receive time of it, the master's time at `t2` is
//! estimated as `t2 - ((t2 - t1) - (t4 - t3)) / 2`.
use vstd::prelude::*;

use crate::e2e::{delay_offset, two_step_offset, MessageWindow};
use crate::message::{DelayRequestMessage, DelayResponseMessage, FollowUpMessage, TwoStepSyncMessage};
use crate::time::{max_timestamp_nanos, TimeInterval, TimeStamp};

verus! {

/// Tracks the latest two-step Sync and Follow_Up and yields the master-to-slave offset.
pub struct SyncExchange {
    pub two_step_sync_window: MessageWindow<(TwoStepSyncMessage, TimeStamp)>,
    pub follow_up_window: MessageWindow<FollowUpMessage>,
}

impl SyncExchange {
    /// The offset `t2 - t1` of the latest Sync and Follow_Up, if they belong together.
    pub open spec fn spec_offset(self) -> Option<int> {
        two_step_offset(self.follow_up_window.current, self.two_step_sync_window.current)
    }

    /// Nothing observed yet.
    pub fn new() -> (x: SyncExchange)
        ensures
            x.spec_offset() is None,
            x.two_step_sync_window.current is None,
            x.follow_up_window.current is None,
    {
        SyncExchange { two_step_sync_window: MessageWindow::new(), follow_up_window: MessageWindow::new() }
    }

    /// Record a two-step Sync received at `timestamp`.
    pub fn ingest_two_step_sync(&mut self, sync: TwoStepSyncMessage, timestamp: TimeStamp)
        ensures
            final(self).two_step_sync_window.current == Some((sync, timestamp)),
            final(self).follow_up_window == old(self).follow_up_window,
    {
        self.two_step_sync_window.record((sync, timestamp));
    }

    /// Record a Follow_Up.
    pub fn ingest_follow_up(&mut self, follow_up: FollowUpMessage)
        ensures
            final(self).two_step_sync_window == old(self).two_step_sync_window,
            final(self).follow_up_window.current == Some(follow_up),
    {
        self.follow_up_window.record(follow_up);
    }

    /// The current master-to-slave offset, if available.
    pub fn master_slave_offset(&self) -> (o: Option<TimeInterval>)
        ensures
            match self.spec_offset() {
                Some(v) => o matches Some(o) && o@ == v,
                None => o is None,
            },
            o matches Some(o) ==> -max_timestamp_nanos() <= o@ <= max_timestamp_nanos(),
    {
        match (&self.follow_up_window.current, &self.two_step_sync_window.current) {
            (Some(follow_up), Some((sync, ts))) => follow_up.master_slave_offset(*sync, *ts),
            _ => None,
        }
    }
}

/// Tracks the latest Delay_Req and Delay_Resp and yields the slave-to-master offset.
pub struct DelayExchange {
    pub delay_request_window: MessageWindow<(DelayRequestMessage, TimeStamp)>,
    pub delay_response_window: MessageWindow<DelayResponseMessage>,
}

impl DelayExchange {
    /// The offset `t4 - t3` of the latest request and response, if they belong together.
    pub open spec fn spec_offset(self) -> Option<int> {
        delay_offset(self.delay_response_window.current, self.delay_request_window.current)
    }

    /// Nothing observed yet.
    pub fn new() -> (x: DelayExchange)
        ensures
            x.spec_offset() is None,
            x.delay_request_window.current is None,
            x.delay_response_window.current is None,
    {
        DelayExchange { delay_request_window: MessageWindow::new(), delay_response_window: MessageWindow::new() }
    }

    /// Record a Delay_Req sent at `timestamp`.
    pub fn ingest_delay_request(&mut self, req: DelayRequestMessage, timestamp: TimeStamp)
        ensures
            final(self).delay_request_window.current == Some((req, timestamp)),
            final(self).delay_response_window == old(self).delay_response_window,
    {
        self.delay_request_window.record((req, timestamp));
    }

    /// Record a Delay_Resp.
    pub fn ingest_delay_response(&mut self, resp: DelayResponseMessage)
        ensures
            final(self).delay_request_window == old(self).delay_request_window,
            final(self).delay_response_window.current == Some(resp),
    {
        self.delay_response_window.record(resp);
    }

    /// The current slave-to-master offset, if available.
    pub fn slave_master_offset(&self) -> (o: Option<TimeInterval>)
        ensures
            match self.spec_offset() {
                Some(v) => o matches Some(o) && o@ == v,
                None => o is None,
            },
            o matches Some(o) ==> -max_timestamp_nanos() <= o@ <= max_timestamp_nanos(),
    {
        match (&self.delay_response_window.current, &self.delay_request_window.current) {
            (Some(resp), Some((req, ts))) => resp.slave_master_offset(*req, *ts),
            _ => None,
        }
    }
}

/// The master time estimate `t2 - ((t2 - t1) - (t4 - t3)) / 2` (the halving rounds toward
/// negative infinity), when all its parts are known and it is a valid timestamp.
pub open spec fn master_time_estimate(ms: Option<int>, sm: Option<int>, t2: Option<TimeStamp>) -> Option<int> {
    match (ms, sm, t2) {
        (Some(ms), Some(sm), Some(t2)) => {
            let e = t2@ - (ms - sm) / 2;
            if 0 <= e <= max_timestamp_nanos() {
                Some(e)
            } else {
                None
            }
        },
        _ => None,
    }
}

/// `e` is `t` moved back by half of `d`, rounded down: twice the distance from `e` back to `t` is
/// `d` or one less.
pub open spec fn back_by_half(t: int, e: int, d: int) -> bool {
    2 * (t - e) <= d && d < 2 * (t - e) + 2
}

/// The master time estimate moves the Sync ingress time `t2` back by half the master-to-slave
/// offset `ms` less the slave-to-master offset `sm`, rounded down. There is an estimate exactly
/// when such a time is a valid timestamp, and none without all three parts. A larger
/// master-to-slave offset gives an earlier (or equal) estimate, a larger slave-to-master offset a
/// later (or equal) one.
pub proof fn lemma_master_time_estimate(ms: int, sm: int, t2: TimeStamp, ms2: int, sm2: int)
    ensures
        match master_time_estimate(Some(ms), Some(sm), Some(t2)) {
            Some(e) => 0 <= e <= max_timestamp_nanos() && back_by_half(t2@, e, ms - sm),
            None => forall|e: int|
                0 <= e <= max_timestamp_nanos() ==> !#[trigger] back_by_half(t2@, e, ms - sm),
        },
        master_time_estimate(None, Some(sm), Some(t2)) is None,
        master_time_estimate(Some(ms), None, Some(t2)) is None,
        master_time_estimate(Some(ms), Some(sm), None) is None,
        ms <= ms2 && sm2 <= sm ==> (master_time_estimate(Some(ms), Some(sm), Some(t2)) matches Some(e1)
            ==> (master_time_estimate(Some(ms2), Some(sm2), Some(t2)) matches Some(e2) ==> e2 <= e1)),
{
    let d = ms - sm;
    assert(2 * (d / 2) <= d && d < 2 * (d / 2) + 2);
    assert forall|e: int| #[trigger] back_by_half(t2@, e, d) implies e == t2@ - d / 2 by {}
    let d2 = ms2 - sm2;
    if d <= d2 {
        assert(d / 2 <= d2 / 2);
    }
}

/// `t2 - (ms - sm) / 2` as a timestamp, if valid.
fn estimate_from(ms_offset: TimeInterval, sm_offset: TimeInterval, t2: TimeStamp) -> (e: Option<TimeStamp>)
    requires
        -max_timestamp_nanos() <= ms_offset@ <= max_timestamp_nanos(),
        -max_timestamp_nanos() <= sm_offset@ <= max_timestamp_nanos(),
    ensures
        match master_time_estimate(Some(ms_offset@), Some(sm_offset@), Some(t2)) {
            Some(v) => e matches Some(e) && e@ == v,
            None => e is None,
        },
{
    let offset_from_master = ms_offset.minus(&sm_offset).half();
    t2.checked_sub(offset_from_master)
}

/// Estimates the master's time from the latest Sync and delay exchanges.
pub struct MasterEstimate {
    pub sync_exchange: SyncExchange,
    pub delay_exchange: DelayExchange,
    pub sync_ingress_timestamp: Option<TimeStamp>,
}

impl MasterEstimate {
    /// The current estimate.
    pub open spec fn spec_estimate(self) -> Option<int> {
        master_time_estimate(
            self.sync_exchange.spec_offset(),
            self.delay_exchange.spec_offset(),
            self.sync_ingress_timestamp,
        )
    }

    /// Nothing observed yet.
    pub fn new() -> (m: MasterEstimate)
        ensures
            m.spec_estimate() is None,
            m.sync_exchange.two_step_sync_window.current is None,
            m.sync_exchange.follow_up_window.current is None,
            m.delay_exchange.delay_request_window.current is None,
            m.delay_exchange.delay_response_window.current is None,
            m.sync_ingress_timestamp is None,
    {
        MasterEstimate {
            sync_exchange: SyncExchange::new(),
            delay_exchange: DelayExchange::new(),
            sync_ingress_timestamp: None,
        }
    }

    /// Record a two-step Sync received at `timestamp`; returns the new estimate.
    pub fn ingest_two_step_sync(&mut self, sync: TwoStepSyncMessage, timestamp: TimeStamp) -> (e: Option<
        TimeStamp,
    >)
        ensures
            final(self).sync_exchange.two_step_sync_window.current == Some((sync, timestamp)),
            final(self).sync_exchange.follow_up_window == old(self).sync_exchange.follow_up_window,
            final(self).delay_exchange == old(self).delay_exchange,
            final(self).sync_ingress_timestamp == Some(timestamp),
            match final(self).spec_estimate() {
                Some(v) => e matches Some(e) && e@ == v,
                None => e is None,
            },
    {
        self.sync_exchange.ingest_two_step_sync(sync, timestamp);
        self.sync_ingress_timestamp = Some(timestamp);
        self.estimate()
    }

    /// Record a Follow_Up; returns the new estimate.
    pub fn ingest_follow_up(&mut self, follow_up: FollowUpMessage) -> (e: Option<TimeStamp>)
        ensures
            final(self).sync_exchange.two_step_sync_window == old(self).sync_exchange.two_step_sync_window,
            final(self).sync_exchange.follow_up_window.current == Some(follow_up),
            final(self).delay_exchange == old(self).delay_exchange,
            final(self).sync_ingress_timestamp == old(self).sync_ingress_timestamp,
            match final(self).spec_estimate() {
                Some(v) => e matches Some(e) && e@ == v,
                None => e is None,
            },
    {
        self.sync_exchange.ingest_follow_up(follow_up);
        self.estimate()
    }

    /// Record a Delay_Req sent at `timestamp`; returns the new estimate.
    pub fn ingest_delay_request(&mut self, req: DelayRequestMessage, timestamp: TimeStamp) -> (e: Option<
        TimeStamp,
    >)
        ensures
            final(self).sync_exchange == old(self).sync_exchange,
            final(self).delay_exchange.delay_request_window.current == Some((req, timestamp)),
            final(self).delay_exchange.delay_response_window == old(self).delay_exchange.delay_response_window,
            final(self).sync_ingress_timestamp == old(self).sync_ingress_timestamp,
            match final(self).spec_estimate() {
                Some(v) => e matches Some(e) && e@ == v,
                None => e is None,
            },
    {
        self.delay_exchange.ingest_delay_request(req, timestamp);
        self.estimate()
    }

    /// Record a Delay_Resp; returns the new estimate.
    pub fn ingest_delay_response(&mut self, resp: DelayResponseMessage) -> (e: Option<TimeStamp>)
        ensures
            final(self).sync_exchange == old(self).sync_exchange,
            final(self).delay_exchange.delay_request_window == old(self).delay_exchange.delay_request_window,
            final(self).delay_exchange.delay_response_window.current == Some(resp),
            final(self).sync_ingress_timestamp == old(self).sync_ingress_timestamp,
            match final(self).spec_estimate() {
                Some(v) => e matches Some(e) && e@ == v,
                None => e is None,
            },
    {
        self.delay_exchange.ingest_delay_response(resp);
        self.estimate()
    }

    /// The master time estimate at the latest Sync ingress, if available.
    pub fn estimate(&self) -> (e: Option<TimeStamp>)
        ensures
            match self.spec_estimate() {
                Some(v) => e matches Some(e) && e@ == v,
                None => e is None,
            },
    {
        let ms_offset = match self.sync_exchange.master_slave_offset() {
            Some(o) => o,
            None => return None,
        };
        let sm_offset = match self.delay_exchange.slave_master_offset() {
            Some(o) => o,
            None => return None,
        };
        match self.sync_ingress_timestamp {
            Some(sync_ingress) => estimate_from(ms_offset, sm_offset, sync_ingress),
            None => None,
        }
    }
}

} // verus!
