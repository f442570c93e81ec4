//! Incremental offset measurement from message pairs that may arrive in either order.
//!
//! [`MasterSlaveOffset`] pairs a two-step Sync with its Follow_Up (`t2 - t1`);
//! [`SlaveMasterOffset`] pairs a Delay_Req with its Delay_Resp (`t4 - t3`). Whichever message of a
//! pair arrives first is held until its partner arrives; the pair then yields the offset, or none
//! when their sequence ids differ.
use vstd::prelude::*;

use crate::message::{DelayRequestMessage, DelayResponseMessage, FollowUpMessage, TwoStepSyncMessage};
use crate::sync::master_time_estimate;
use crate::time::{max_timestamp_nanos, TimeInterval, TimeStamp};

verus! {

/// The view of an optional interval.
pub open spec fn interval_view(o: Option<TimeInterval>) -> Option<int> {
    match o {
        Some(o) => Some(o@),
        None => None,
    }
}

/// The offset of a Follow_Up and the two-step Sync received at `t2`, if they belong together.
pub open spec fn follow_up_offset(f: FollowUpMessage, sync: TwoStepSyncMessage, t2: TimeStamp) -> Option<int> {
    if f.sequence_id == sync.sequence_id {
        Some(t2@ - f.precise_origin_timestamp@)
    } else {
        None
    }
}

/// The offset of a Delay_Resp and the Delay_Req sent at `t3`, if they belong together.
pub open spec fn response_offset(r: DelayResponseMessage, req: DelayRequestMessage, t3: TimeStamp) -> Option<int> {
    if r.sequence_id == req.sequence_id {
        Some(r.receive_timestamp@ - t3@)
    } else {
        None
    }
}

/// The offset is within the span of two timestamps.
pub open spec fn offset_bounded(o: Option<TimeInterval>) -> bool {
    o matches Some(o) ==> -max_timestamp_nanos() <= o@ <= max_timestamp_nanos()
}

/// Master-to-slave offset from a two-step Sync and its Follow_Up.
pub struct MasterSlaveOffset {
    sync: Option<TwoStepSyncMessage>,
    sync_timestamp: Option<TimeStamp>,
    follow_up: Option<FollowUpMessage>,
    offset: Option<TimeInterval>,
}

impl MasterSlaveOffset {
    #[verifier::type_invariant]
    closed spec fn inv(self) -> bool {
        offset_bounded(self.offset)
    }

    /// The held two-step Sync.
    pub closed spec fn spec_sync(&self) -> Option<TwoStepSyncMessage> {
        self.sync
    }

    /// The ingress time of the latest two-step Sync.
    pub closed spec fn spec_sync_timestamp(&self) -> Option<TimeStamp> {
        self.sync_timestamp
    }

    /// The held Follow_Up.
    pub closed spec fn spec_follow_up(&self) -> Option<FollowUpMessage> {
        self.follow_up
    }

    /// The latest offset.
    pub closed spec fn spec_offset(&self) -> Option<TimeInterval> {
        self.offset
    }

    /// Nothing observed yet.
    pub fn new() -> (m: MasterSlaveOffset)
        ensures
            m.spec_sync() is None,
            m.spec_sync_timestamp() is None,
            m.spec_follow_up() is None,
            m.spec_offset() is None,
    {
        MasterSlaveOffset { sync: None, sync_timestamp: None, follow_up: None, offset: None }
    }

    /// A two-step Sync received at `timestamp`: pairs with a held Follow_Up, else is held.
    pub fn ingest_two_step_sync(&mut self, sync: TwoStepSyncMessage, timestamp: TimeStamp)
        ensures
            final(self).spec_sync_timestamp() == Some(timestamp),
            final(self).spec_follow_up() is None,
            offset_bounded(final(self).spec_offset()),
            match old(self).spec_follow_up() {
                Some(f) => final(self).spec_sync() == old(self).spec_sync() && interval_view(final(self).spec_offset())
                    == follow_up_offset(f, sync, timestamp),
                None => final(self).spec_sync() == Some(sync) && final(self).spec_offset() == old(self).spec_offset(),
            },
    {
        proof {
            use_type_invariant(&*self);
        }
        self.sync_timestamp = Some(timestamp);
        let held = self.follow_up;
        self.follow_up = None;
        match held {
            Some(follow_up) => {
                self.offset = follow_up.master_slave_offset(sync, timestamp);
            },
            None => {
                self.sync = Some(sync);
            },
        }
    }

    /// A Follow_Up: pairs with a held Sync (which is consumed), else is held.
    pub fn ingest_follow_up(&mut self, follow_up: FollowUpMessage)
        ensures
            final(self).spec_sync() is None,
            final(self).spec_sync_timestamp() == old(self).spec_sync_timestamp(),
            offset_bounded(final(self).spec_offset()),
            match (old(self).spec_sync(), old(self).spec_sync_timestamp()) {
                (Some(s), Some(t2)) => final(self).spec_follow_up() == old(self).spec_follow_up() && interval_view(
                    final(self).spec_offset(),
                ) == follow_up_offset(follow_up, s, t2),
                _ => final(self).spec_follow_up() == Some(follow_up) && final(self).spec_offset() == old(self).spec_offset(),
            },
    {
        proof {
            use_type_invariant(&*self);
        }
        let sync = self.sync;
        self.sync = None;
        match (sync, self.sync_timestamp) {
            (Some(sync), Some(timestamp)) => {
                self.offset = follow_up.master_slave_offset(sync, timestamp);
            },
            _ => {
                self.follow_up = Some(follow_up);
            },
        }
    }

    /// The master time estimate at the Sync ingress, given the slave-to-master offset.
    pub fn master_estimate(&self, sm_offset: &SlaveMasterOffset) -> (e: Option<TimeStamp>)
        ensures
            match master_time_estimate(interval_view(self.spec_offset()), interval_view(sm_offset.spec_offset()), self.spec_sync_timestamp()) {
                Some(v) => e matches Some(e) && e@ == v,
                None => e is None,
            },
    {
        proof {
            use_type_invariant(self);
            use_type_invariant(sm_offset);
        }
        match (self.current(), sm_offset.current(), self.sync_timestamp) {
            (Some(ms_offset), Some(sm), Some(t2)) => {
                let offset_from_master = ms_offset.minus(&sm).half();
                t2.checked_sub(offset_from_master)
            },
            _ => None,
        }
    }

    /// The latest offset.
    pub fn current(&self) -> (o: Option<TimeInterval>)
        ensures
            o == self.spec_offset(),
            offset_bounded(o),
    {
        proof {
            use_type_invariant(self);
        }
        self.offset
    }
}

/// Slave-to-master offset from a Delay_Req and its Delay_Resp.
pub struct SlaveMasterOffset {
    req: Option<(DelayRequestMessage, TimeStamp)>,
    resp: Option<DelayResponseMessage>,
    offset: Option<TimeInterval>,
}

impl SlaveMasterOffset {
    #[verifier::type_invariant]
    closed spec fn inv(self) -> bool {
        offset_bounded(self.offset)
    }

    /// The held Delay_Req and its egress time.
    pub closed spec fn spec_req(&self) -> Option<(DelayRequestMessage, TimeStamp)> {
        self.req
    }

    /// The held Delay_Resp.
    pub closed spec fn spec_resp(&self) -> Option<DelayResponseMessage> {
        self.resp
    }

    /// The latest offset.
    pub closed spec fn spec_offset(&self) -> Option<TimeInterval> {
        self.offset
    }

    /// Nothing observed yet.
    pub fn new() -> (m: SlaveMasterOffset)
        ensures
            m.spec_req() is None,
            m.spec_resp() is None,
            m.spec_offset() is None,
    {
        SlaveMasterOffset { req: None, resp: None, offset: None }
    }

    /// A Delay_Req sent at `timestamp`: pairs with a held response (consumed), else is held.
    pub fn ingest_delay_request(&mut self, req: DelayRequestMessage, timestamp: TimeStamp)
        ensures
            final(self).spec_resp() is None,
            offset_bounded(final(self).spec_offset()),
            match old(self).spec_resp() {
                Some(r) => final(self).spec_req() == old(self).spec_req() && interval_view(final(self).spec_offset())
                    == response_offset(r, req, timestamp),
                None => final(self).spec_req() == Some((req, timestamp)) && final(self).spec_offset() == old(self).spec_offset(),
            },
    {
        proof {
            use_type_invariant(&*self);
        }
        let held = self.resp;
        self.resp = None;
        match held {
            Some(resp) => {
                self.offset = resp.slave_master_offset(req, timestamp);
            },
            None => {
                self.req = Some((req, timestamp));
            },
        }
    }

    /// A Delay_Resp: pairs with a held request (consumed), else is held.
    pub fn ingest_delay_response(&mut self, resp: DelayResponseMessage)
        ensures
            final(self).spec_req() is None,
            offset_bounded(final(self).spec_offset()),
            match old(self).spec_req() {
                Some((q, t3)) => final(self).spec_resp() == old(self).spec_resp() && interval_view(final(self).spec_offset())
                    == response_offset(resp, q, t3),
                None => final(self).spec_resp() == Some(resp) && final(self).spec_offset() == old(self).spec_offset(),
            },
    {
        proof {
            use_type_invariant(&*self);
        }
        let held = self.req;
        self.req = None;
        match held {
            Some((req, timestamp)) => {
                self.offset = resp.slave_master_offset(req, timestamp);
            },
            None => {
                self.resp = Some(resp);
            },
        }
    }

    /// The latest offset.
    pub fn current(&self) -> (o: Option<TimeInterval>)
        ensures
            o == self.spec_offset(),
            offset_bounded(o),
    {
        proof {
            use_type_invariant(self);
        }
        self.offset
    }
}

} // verus!
