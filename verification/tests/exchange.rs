use rptp::e2e::{DelayCycle, DelayExchange, EndToEndDelayMechanism, MessageWindow, SyncExchange};
use rptp::master::{AnnounceCycle, SyncCycle};
use rptp::message::{
    DelayRequestMessage, DelayResponseMessage, FollowUpMessage, OneStepSyncMessage, SequenceId,
    SystemMessage, TwoStepSyncMessage,
};
use rptp::offsets::{MasterSlaveOffset, SlaveMasterOffset};
use rptp::port::{PortIdentity, Timeout};
use rptp::servo::{ServoSample, ServoSampleOrdering, ServoStepDecision, ServoThreshold, StepPolicy};
use rptp::sync::{self, MasterEstimate};
use rptp::time::{Duration, LogInterval, LogMessageInterval, TimeInterval, TimeStamp};

/// A timer handle that records nothing; enough for sequencing tests.
#[derive(Debug, PartialEq, Eq)]
struct FakeTimeout {
    msg: SystemMessage,
}

impl FakeTimeout {
    fn new(msg: SystemMessage) -> Self {
        Self { msg }
    }
}

impl Timeout for FakeTimeout {
    fn restart(&mut self, _timeout: Duration) {}
}

fn ts(secs: u64) -> TimeStamp {
    TimeStamp::new(secs, 0)
}

fn two_step(seq: u16) -> TwoStepSyncMessage {
    TwoStepSyncMessage::new(seq.into(), LogMessageInterval::new(0))
}

fn follow_up(seq: u16, secs: u64) -> FollowUpMessage {
    FollowUpMessage::new(seq.into(), LogMessageInterval::new(0), ts(secs))
}

fn one_step(seq: u16, secs: u64) -> OneStepSyncMessage {
    OneStepSyncMessage::new(seq.into(), LogMessageInterval::new(0), ts(secs))
}

fn req(seq: u16) -> DelayRequestMessage {
    DelayRequestMessage::new(seq.into())
}

fn resp(seq: u16, secs: u64) -> DelayResponseMessage {
    DelayResponseMessage::new(seq.into(), LogMessageInterval::new(1), ts(secs), PortIdentity::fake())
}

fn new_e2e() -> EndToEndDelayMechanism<FakeTimeout> {
    EndToEndDelayMechanism::new(DelayCycle::new(
        0.into(),
        FakeTimeout::new(SystemMessage::DelayRequestTimeout),
        LogInterval::new(0),
    ))
}

fn one_second() -> Option<TimeInterval> {
    Some(TimeInterval::new(1, 0))
}

#[test]
fn e2e_delay_mechanism_yields_after_sync_and_delay_message_exchange() {
    let mut e2e = new_e2e();
    e2e.record_two_step_sync(two_step(42), ts(1));
    e2e.record_follow_up(follow_up(42, 1));
    e2e.record_delay_request(req(43), ts(0));
    e2e.record_delay_response(resp(43, 2));
    assert_eq!(e2e.sample(), Some(ServoSample::new(ts(1), TimeInterval::new(-1, 0))));
}

#[test]
fn e2e_delay_mechanism_yields_after_reversed_sync_follow_up_and_delay_message_exchange() {
    let mut e2e = new_e2e();
    e2e.record_follow_up(follow_up(42, 1));
    e2e.record_two_step_sync(two_step(42), ts(1));
    e2e.record_delay_request(req(43), ts(0));
    e2e.record_delay_response(resp(43, 2));
    assert_eq!(e2e.sample(), Some(ServoSample::new(ts(1), TimeInterval::new(-1, 0))));
}

#[test]
fn e2e_delay_mechanism_yields_with_one_step_sync() {
    let mut e2e = new_e2e();
    e2e.record_one_step_sync(one_step(42, 1), ts(1));
    e2e.record_delay_request(req(43), ts(0));
    e2e.record_delay_response(resp(43, 2));
    assert_eq!(e2e.sample(), Some(ServoSample::new(ts(1), TimeInterval::new(-1, 0))));
}

#[test]
fn e2e_delay_mechanism_yields_with_one_step_sync_after_two_step() {
    let mut e2e = new_e2e();
    e2e.record_two_step_sync(two_step(42), ts(0));
    e2e.record_one_step_sync(one_step(42, 1), ts(1));
    e2e.record_delay_request(req(43), ts(0));
    e2e.record_delay_response(resp(43, 2));
    assert_eq!(e2e.sample(), Some(ServoSample::new(ts(1), TimeInterval::new(-1, 0))));
}

#[test]
fn e2e_delay_mechanism_two_step_sync_invalidates_prior_one_step_sync() {
    let mut e2e = new_e2e();
    e2e.record_one_step_sync(one_step(42, 1), ts(1));
    e2e.record_two_step_sync(two_step(42), ts(0));
    e2e.record_delay_request(req(43), ts(0));
    e2e.record_delay_response(resp(43, 2));
    assert_eq!(e2e.sample(), None);
}

#[test]
fn e2e_delay_mechanism_yields_with_two_step_and_follow_up_after_one_step() {
    let mut e2e = new_e2e();
    e2e.record_one_step_sync(one_step(42, 1), ts(1));
    e2e.record_two_step_sync(two_step(42), ts(2));
    e2e.record_follow_up(follow_up(42, 1));
    e2e.record_delay_request(req(43), ts(0));
    e2e.record_delay_response(resp(43, 3));
    assert_eq!(e2e.sample(), Some(ServoSample::new(ts(2), TimeInterval::new(-1, 0))));
}

#[test]
fn e2e_sync_exchange_new_produces_no_master_slave_offset() {
    let x = SyncExchange::new();
    assert_eq!(x.master_slave_offset(), None);
}

#[test]
fn e2e_sync_exchange_no_master_slave_offset_on_two_step_sync_only() {
    let mut x = SyncExchange::new();
    x.record_two_step_sync(two_step(42), ts(2));
    assert_eq!(x.master_slave_offset(), None);
}

#[test]
fn e2e_sync_exchange_no_master_slave_offset_on_follow_up_only() {
    let mut x = SyncExchange::new();
    x.record_follow_up(follow_up(42, 1));
    assert_eq!(x.master_slave_offset(), None);
}

#[test]
fn e2e_sync_exchange_produces_master_slave_offset_on_two_step_sync_then_follow_up() {
    let mut x = SyncExchange::new();
    x.record_two_step_sync(two_step(42), ts(2));
    x.record_follow_up(follow_up(42, 1));
    assert_eq!(x.master_slave_offset(), one_second());
}

#[test]
fn e2e_sync_exchange_produces_master_slave_offset_on_follow_up_then_two_step_sync() {
    let mut x = SyncExchange::new();
    x.record_follow_up(follow_up(42, 1));
    x.record_two_step_sync(two_step(42), ts(2));
    assert_eq!(x.master_slave_offset(), one_second());
}

#[test]
fn e2e_sync_exchange_produces_no_master_slave_offset_on_non_matching_follow_up() {
    let mut x = SyncExchange::new();
    x.record_two_step_sync(two_step(42), ts(2));
    x.record_follow_up(follow_up(43, 1));
    assert_eq!(x.master_slave_offset(), None);
}

#[test]
fn e2e_sync_exchange_produces_no_master_slave_offset_on_non_matching_two_step_sync() {
    let mut x = SyncExchange::new();
    x.record_follow_up(follow_up(42, 1));
    x.record_two_step_sync(two_step(43), ts(2));
    assert_eq!(x.master_slave_offset(), None);
}

#[test]
fn e2e_sync_exchange_recovers_when_matching_follow_up_arrives_later() {
    let mut x = SyncExchange::new();
    x.record_follow_up(follow_up(42, 1));
    x.record_two_step_sync(two_step(43), ts(2));
    x.record_follow_up(follow_up(43, 1));
    assert_eq!(x.master_slave_offset(), one_second());
}

#[test]
fn e2e_sync_exchange_recovers_when_matching_two_step_sync_arrives_later() {
    let mut x = SyncExchange::new();
    x.record_two_step_sync(two_step(42), ts(2));
    x.record_follow_up(follow_up(43, 1));
    x.record_two_step_sync(two_step(43), ts(2));
    assert_eq!(x.master_slave_offset(), one_second());
}

#[test]
fn sync_sync_exchange_new_produces_no_master_slave_offset() {
    let x = sync::SyncExchange::new();
    assert_eq!(x.master_slave_offset(), None);
}

#[test]
fn sync_sync_exchange_no_master_slave_offset_on_two_step_sync_only() {
    let mut x = sync::SyncExchange::new();
    x.ingest_two_step_sync(two_step(42), ts(2));
    assert_eq!(x.master_slave_offset(), None);
}

#[test]
fn sync_sync_exchange_no_master_slave_offset_on_follow_up_only() {
    let mut x = sync::SyncExchange::new();
    x.ingest_follow_up(follow_up(42, 1));
    assert_eq!(x.master_slave_offset(), None);
}

#[test]
fn sync_sync_exchange_produces_master_slave_offset_on_two_step_sync_then_follow_up() {
    let mut x = sync::SyncExchange::new();
    x.ingest_two_step_sync(two_step(42), ts(2));
    x.ingest_follow_up(follow_up(42, 1));
    assert_eq!(x.master_slave_offset(), one_second());
}

#[test]
fn sync_sync_exchange_produces_master_slave_offset_on_follow_up_then_two_step_sync() {
    let mut x = sync::SyncExchange::new();
    x.ingest_follow_up(follow_up(42, 1));
    x.ingest_two_step_sync(two_step(42), ts(2));
    assert_eq!(x.master_slave_offset(), one_second());
}

#[test]
fn sync_sync_exchange_produces_no_master_slave_offset_on_non_matching_follow_up() {
    let mut x = sync::SyncExchange::new();
    x.ingest_two_step_sync(two_step(42), ts(2));
    x.ingest_follow_up(follow_up(43, 1));
    assert_eq!(x.master_slave_offset(), None);
}

#[test]
fn sync_sync_exchange_produces_no_master_slave_offset_on_non_matching_two_step_sync() {
    let mut x = sync::SyncExchange::new();
    x.ingest_follow_up(follow_up(42, 1));
    x.ingest_two_step_sync(two_step(43), ts(2));
    assert_eq!(x.master_slave_offset(), None);
}

#[test]
fn sync_sync_exchange_recovers_when_matching_follow_up_arrives_later() {
    let mut x = sync::SyncExchange::new();
    x.ingest_follow_up(follow_up(42, 1));
    x.ingest_two_step_sync(two_step(43), ts(2));
    x.ingest_follow_up(follow_up(43, 1));
    assert_eq!(x.master_slave_offset(), one_second());
}

#[test]
fn sync_sync_exchange_recovers_when_matching_two_step_sync_arrives_later() {
    let mut x = sync::SyncExchange::new();
    x.ingest_two_step_sync(two_step(42), ts(2));
    x.ingest_follow_up(follow_up(43, 1));
    x.ingest_two_step_sync(two_step(43), ts(2));
    assert_eq!(x.master_slave_offset(), one_second());
}

#[test]
fn e2e_delay_exchange_new_produces_no_slave_master_offset() {
    let x = DelayExchange::new();
    assert_eq!(x.slave_master_offset(), None);
}

#[test]
fn e2e_delay_exchange_produces_no_slave_master_offset_on_request_only() {
    let mut x = DelayExchange::new();
    x.record_delay_request(req(42), ts(1));
    assert_eq!(x.slave_master_offset(), None);
}

#[test]
fn e2e_delay_exchange_produces_no_slave_master_offset_on_response_only() {
    let mut x = DelayExchange::new();
    x.record_delay_response(resp(42, 1));
    assert_eq!(x.slave_master_offset(), None);
}

#[test]
fn e2e_delay_exchange_produces_slave_master_offset_on_request_then_response_matching() {
    let mut x = DelayExchange::new();
    x.record_delay_request(req(42), ts(1));
    x.record_delay_response(resp(42, 2));
    assert_eq!(x.slave_master_offset(), one_second());
}

#[test]
fn e2e_delay_exchange_produces_slave_master_offset_on_response_then_request_matching() {
    let mut x = DelayExchange::new();
    x.record_delay_response(resp(42, 2));
    x.record_delay_request(req(42), ts(1));
    assert_eq!(x.slave_master_offset(), one_second());
}

#[test]
fn e2e_delay_exchange_produces_no_slave_master_offset_on_non_matching_response() {
    let mut x = DelayExchange::new();
    x.record_delay_request(req(42), ts(1));
    x.record_delay_response(resp(43, 2));
    assert_eq!(x.slave_master_offset(), None);
}

#[test]
fn e2e_delay_exchange_produces_no_slave_master_offset_on_non_matching_request() {
    let mut x = DelayExchange::new();
    x.record_delay_response(resp(42, 2));
    x.record_delay_request(req(43), ts(1));
    assert_eq!(x.slave_master_offset(), None);
}

#[test]
fn e2e_delay_exchange_recovers_when_matching_response_arrives_later() {
    let mut x = DelayExchange::new();
    x.record_delay_response(resp(42, 2));
    x.record_delay_request(req(43), ts(1));
    x.record_delay_response(resp(43, 2));
    assert_eq!(x.slave_master_offset(), one_second());
}

#[test]
fn e2e_delay_exchange_recovers_when_matching_request_arrives_later() {
    let mut x = DelayExchange::new();
    x.record_delay_request(req(42), ts(1));
    x.record_delay_response(resp(43, 2));
    x.record_delay_request(req(43), ts(1));
    assert_eq!(x.slave_master_offset(), one_second());
}

#[test]
fn sync_delay_exchange_new_produces_no_slave_master_offset() {
    let x = sync::DelayExchange::new();
    assert_eq!(x.slave_master_offset(), None);
}

#[test]
fn sync_delay_exchange_produces_no_slave_master_offset_on_request_only() {
    let mut x = sync::DelayExchange::new();
    x.ingest_delay_request(req(42), ts(1));
    assert_eq!(x.slave_master_offset(), None);
}

#[test]
fn sync_delay_exchange_produces_no_slave_master_offset_on_response_only() {
    let mut x = sync::DelayExchange::new();
    x.ingest_delay_response(resp(42, 1));
    assert_eq!(x.slave_master_offset(), None);
}

#[test]
fn sync_delay_exchange_produces_slave_master_offset_on_request_then_response_matching() {
    let mut x = sync::DelayExchange::new();
    x.ingest_delay_request(req(42), ts(1));
    x.ingest_delay_response(resp(42, 2));
    assert_eq!(x.slave_master_offset(), one_second());
}

#[test]
fn sync_delay_exchange_produces_slave_master_offset_on_response_then_request_matching() {
    let mut x = sync::DelayExchange::new();
    x.ingest_delay_response(resp(42, 2));
    x.ingest_delay_request(req(42), ts(1));
    assert_eq!(x.slave_master_offset(), one_second());
}

#[test]
fn sync_delay_exchange_produces_no_slave_master_offset_on_non_matching_response() {
    let mut x = sync::DelayExchange::new();
    x.ingest_delay_request(req(42), ts(1));
    x.ingest_delay_response(resp(43, 2));
    assert_eq!(x.slave_master_offset(), None);
}

#[test]
fn sync_delay_exchange_produces_no_slave_master_offset_on_non_matching_request() {
    let mut x = sync::DelayExchange::new();
    x.ingest_delay_response(resp(42, 2));
    x.ingest_delay_request(req(43), ts(1));
    assert_eq!(x.slave_master_offset(), None);
}

#[test]
fn sync_delay_exchange_recovers_when_matching_response_arrives_later() {
    let mut x = sync::DelayExchange::new();
    x.ingest_delay_response(resp(42, 2));
    x.ingest_delay_request(req(43), ts(1));
    x.ingest_delay_response(resp(43, 2));
    assert_eq!(x.slave_master_offset(), one_second());
}

#[test]
fn sync_delay_exchange_recovers_when_matching_request_arrives_later() {
    let mut x = sync::DelayExchange::new();
    x.ingest_delay_request(req(42), ts(1));
    x.ingest_delay_response(resp(43, 2));
    x.ingest_delay_request(req(43), ts(1));
    assert_eq!(x.slave_master_offset(), one_second());
}

#[test]
fn sync_exchange_produces_master_slave_offset_on_one_step_sync_only() {
    let mut x = SyncExchange::new();
    x.record_one_step_sync(one_step(42, 1), ts(2));
    assert_eq!(x.master_slave_offset(), one_second());
}

#[test]
fn sync_exchange_prefers_one_step_over_two_step_when_both_available() {
    let mut x = SyncExchange::new();
    x.record_two_step_sync(two_step(42), ts(2));
    x.record_follow_up(follow_up(42, 1));
    x.record_one_step_sync(one_step(42, 10), ts(13));
    assert_eq!(x.master_slave_offset(), Some(TimeInterval::new(3, 0)));
}

#[test]
fn sync_exchange_two_step_clears_prior_one_step_sync() {
    let mut x = SyncExchange::new();
    x.record_one_step_sync(one_step(42, 1), ts(2));
    x.record_two_step_sync(two_step(43), ts(6));
    x.record_follow_up(follow_up(43, 4));
    assert_eq!(x.master_slave_offset(), Some(TimeInterval::new(2, 0)));
}

#[test]
fn message_window_match_latest() {
    let mut sync_window = MessageWindow::new();
    let mut follow_up_window = MessageWindow::new();
    sync_window.record((TwoStepSyncMessage::new(1.into(), LogMessageInterval::new(5)), ts(2)));
    follow_up_window.record(FollowUpMessage::new(1.into(), LogMessageInterval::new(5), ts(1)));
    let offset = follow_up_window.combine_latest(&sync_window, |follow: &FollowUpMessage, pair: &(TwoStepSyncMessage, TimeStamp)| follow.master_slave_offset(pair.0, pair.1));
    assert_eq!(offset, one_second());
}

#[test]
fn message_window_no_match_if_one_empty() {
    let mut sync_window = MessageWindow::new();
    let follow_up_window = MessageWindow::<FollowUpMessage>::new();
    sync_window.record((TwoStepSyncMessage::new(1.into(), LogMessageInterval::new(3)), ts(2)));
    let offset = follow_up_window.combine_latest(&sync_window, |follow: &FollowUpMessage, pair: &(TwoStepSyncMessage, TimeStamp)| follow.master_slave_offset(pair.0, pair.1));
    assert_eq!(offset, None);
}

#[test]
fn message_window_out_of_order_then_recover_follow_up_arrives() {
    let mut sync_window = MessageWindow::new();
    let mut follow_up_window = MessageWindow::new();
    sync_window.record((TwoStepSyncMessage::new(1.into(), LogMessageInterval::new(3)), ts(2)));
    follow_up_window.record(FollowUpMessage::new(2.into(), LogMessageInterval::new(3), ts(1)));
    let no_match = follow_up_window.combine_latest(&sync_window, |follow: &FollowUpMessage, pair: &(TwoStepSyncMessage, TimeStamp)| follow.master_slave_offset(pair.0, pair.1));
    assert_eq!(no_match, None);
    follow_up_window.record(FollowUpMessage::new(1.into(), LogMessageInterval::new(3), ts(1)));
    let matched = follow_up_window.combine_latest(&sync_window, |follow: &FollowUpMessage, pair: &(TwoStepSyncMessage, TimeStamp)| follow.master_slave_offset(pair.0, pair.1));
    assert_eq!(matched, one_second());
}

#[test]
fn message_window_out_of_order_then_recover_sync_arrives() {
    let mut sync_window = MessageWindow::new();
    let mut follow_up_window = MessageWindow::new();
    follow_up_window.record(FollowUpMessage::new(3.into(), LogMessageInterval::new(3), ts(1)));
    sync_window.record((TwoStepSyncMessage::new(4.into(), LogMessageInterval::new(3)), ts(2)));
    let no_match = follow_up_window.combine_latest(&sync_window, |follow: &FollowUpMessage, pair: &(TwoStepSyncMessage, TimeStamp)| follow.master_slave_offset(pair.0, pair.1));
    assert_eq!(no_match, None);
    sync_window.record((TwoStepSyncMessage::new(3.into(), LogMessageInterval::new(3)), ts(2)));
    let matched = follow_up_window.combine_latest(&sync_window, |follow: &FollowUpMessage, pair: &(TwoStepSyncMessage, TimeStamp)| follow.master_slave_offset(pair.0, pair.1));
    assert_eq!(matched, one_second());
}

#[test]
fn message_window_in_order_follow_up_then_sync() {
    let mut sync_window = MessageWindow::new();
    let mut follow_up_window = MessageWindow::new();
    follow_up_window.record(FollowUpMessage::new(5.into(), LogMessageInterval::new(3), ts(10)));
    sync_window.record((TwoStepSyncMessage::new(5.into(), LogMessageInterval::new(3)), ts(11)));
    let matched = follow_up_window.combine_latest(&sync_window, |follow: &FollowUpMessage, pair: &(TwoStepSyncMessage, TimeStamp)| follow.master_slave_offset(pair.0, pair.1));
    assert_eq!(matched, one_second());
}

#[test]
fn message_window_in_order_updates_to_newer_pair() {
    let mut sync_window = MessageWindow::new();
    let mut follow_up_window = MessageWindow::new();
    sync_window.record((TwoStepSyncMessage::new(1.into(), LogMessageInterval::new(5)), ts(5)));
    follow_up_window.record(FollowUpMessage::new(1.into(), LogMessageInterval::new(5), ts(3)));
    let first = follow_up_window.combine_latest(&sync_window, |follow: &FollowUpMessage, pair: &(TwoStepSyncMessage, TimeStamp)| follow.master_slave_offset(pair.0, pair.1));
    assert_eq!(first, Some(TimeInterval::new(2, 0)));
    sync_window.record((TwoStepSyncMessage::new(2.into(), LogMessageInterval::new(5)), ts(9)));
    follow_up_window.record(FollowUpMessage::new(2.into(), LogMessageInterval::new(5), ts(6)));
    let second = follow_up_window.combine_latest(&sync_window, |follow: &FollowUpMessage, pair: &(TwoStepSyncMessage, TimeStamp)| follow.master_slave_offset(pair.0, pair.1));
    assert_eq!(second, Some(TimeInterval::new(3, 0)));
}

#[test]
fn delay_cycle_next() {
    let mut c = DelayCycle::new(42.into(), FakeTimeout::new(SystemMessage::DelayRequestTimeout), LogInterval::new(0));
    c.next();
    assert_eq!(c, DelayCycle::new(43.into(), FakeTimeout::new(SystemMessage::DelayRequestTimeout), LogInterval::new(0)));
}

#[test]
fn delay_cycle_next_wraps() {
    let mut c = DelayCycle::new(u16::MAX.into(), FakeTimeout::new(SystemMessage::DelayRequestTimeout), LogInterval::new(0));
    c.next();
    assert_eq!(c, DelayCycle::new(0.into(), FakeTimeout::new(SystemMessage::DelayRequestTimeout), LogInterval::new(0)));
}

#[test]
fn sync_cycle_next() {
    let mut c = SyncCycle::new(42.into(), FakeTimeout::new(SystemMessage::SyncTimeout), LogInterval::new(0));
    c.next();
    assert_eq!(c, SyncCycle::new(43.into(), FakeTimeout::new(SystemMessage::SyncTimeout), LogInterval::new(0)));
}

#[test]
fn sync_cycle_next_wraps() {
    let mut c = SyncCycle::new(u16::MAX.into(), FakeTimeout::new(SystemMessage::SyncTimeout), LogInterval::new(0));
    c.next();
    assert_eq!(c, SyncCycle::new(0.into(), FakeTimeout::new(SystemMessage::SyncTimeout), LogInterval::new(0)));
}

#[test]
fn delay_cycle_produces_delay_request_message() {
    let c = DelayCycle::new(42.into(), FakeTimeout::new(SystemMessage::DelayRequestTimeout), LogInterval::new(0));
    assert_eq!(c.delay_request(), DelayRequestMessage::new(42.into()));
}

#[test]
fn sync_cycle_message_produces_two_step_sync_message() {
    let c = SyncCycle::new(0.into(), FakeTimeout::new(SystemMessage::SyncTimeout), LogInterval::new(0));
    assert_eq!(c.two_step_sync(), TwoStepSyncMessage::new(0.into(), LogMessageInterval::new(0)));
}

#[test]
fn announce_cycle_advances_and_announces_current_sequence_id() {
    let mut c = AnnounceCycle::new(SequenceId::new(7), FakeTimeout::new(SystemMessage::AnnounceSendTimeout), LogInterval::new(1));
    c.next();
    assert_eq!(c.sequence_id, SequenceId::new(8));
    assert_eq!(c.log_interval.log_message_interval(), LogMessageInterval::new(1));
}

#[test]
fn master_estimate_yields_after_sync_and_delay_message_exchange() {
    let mut estimate = MasterEstimate::new();
    estimate.ingest_two_step_sync(two_step(42), ts(1));
    estimate.ingest_follow_up(follow_up(42, 1));
    estimate.ingest_delay_request(req(43), ts(0));
    estimate.ingest_delay_response(resp(43, 2));
    assert_eq!(estimate.estimate(), Some(ts(2)));
}

#[test]
fn master_estimate_yields_after_reversed_sync_follow_up_and_delay_message_exchange() {
    let mut estimate = MasterEstimate::new();
    estimate.ingest_follow_up(follow_up(42, 1));
    estimate.ingest_two_step_sync(two_step(42), ts(1));
    estimate.ingest_delay_request(req(43), ts(0));
    estimate.ingest_delay_response(resp(43, 2));
    assert_eq!(estimate.estimate(), Some(ts(2)));
}

#[test]
fn master_slave_offset_new() {
    let offset = MasterSlaveOffset::new();
    assert_eq!(offset.current(), None);
}

#[test]
fn master_slave_offset_got_sync_only() {
    let mut offset = MasterSlaveOffset::new();
    offset.ingest_two_step_sync(two_step(42), ts(1));
    assert_eq!(offset.current(), None);
}

#[test]
fn master_slave_offset_got_follow_up_only() {
    let mut offset = MasterSlaveOffset::new();
    offset.ingest_follow_up(follow_up(42, 1));
    assert_eq!(offset.current(), None);
}

#[test]
fn master_slave_offset_got_sync_then_follow_up_matching() {
    let mut offset = MasterSlaveOffset::new();
    offset.ingest_two_step_sync(two_step(42), ts(3));
    offset.ingest_follow_up(follow_up(42, 2));
    assert_eq!(offset.current(), one_second());
}

#[test]
fn master_slave_offset_got_follow_up_then_sync_matching() {
    let mut offset = MasterSlaveOffset::new();
    offset.ingest_follow_up(follow_up(42, 3));
    offset.ingest_two_step_sync(two_step(42), ts(5));
    assert_eq!(offset.current(), Some(TimeInterval::new(2, 0)));
}

#[test]
fn master_slave_offset_got_sync_then_follow_up_not_matching() {
    let mut offset = MasterSlaveOffset::new();
    offset.ingest_two_step_sync(two_step(42), ts(2));
    offset.ingest_follow_up(follow_up(43, 1));
    assert_eq!(offset.current(), None);
}

#[test]
fn master_slave_offset_got_follow_up_then_sync_not_matching() {
    let mut offset = MasterSlaveOffset::new();
    offset.ingest_follow_up(follow_up(43, 1));
    offset.ingest_two_step_sync(two_step(42), ts(2));
    assert_eq!(offset.current(), None);
}

#[test]
fn master_slave_offset_produces_estimate() {
    let mut sm_offset = SlaveMasterOffset::new();
    sm_offset.ingest_delay_request(req(42), ts(0));
    sm_offset.ingest_delay_response(resp(42, 2));
    let mut ms_offset = MasterSlaveOffset::new();
    ms_offset.ingest_two_step_sync(two_step(42), ts(1));
    ms_offset.ingest_follow_up(follow_up(42, 1));
    assert_eq!(ms_offset.master_estimate(&sm_offset), Some(ts(2)));
}

#[test]
fn master_slave_offset_produces_estimate_with_reversed_sync_follow_up() {
    let mut sm_offset = SlaveMasterOffset::new();
    sm_offset.ingest_delay_request(req(42), ts(0));
    sm_offset.ingest_delay_response(resp(42, 2));
    let mut ms_offset = MasterSlaveOffset::new();
    ms_offset.ingest_follow_up(follow_up(42, 1));
    ms_offset.ingest_two_step_sync(two_step(42), ts(1));
    assert_eq!(ms_offset.master_estimate(&sm_offset), Some(ts(2)));
}

#[test]
fn slave_master_offset_new() {
    let offset = SlaveMasterOffset::new();
    assert_eq!(offset.current(), None);
}

#[test]
fn slave_master_offset_got_req_only() {
    let mut offset = SlaveMasterOffset::new();
    offset.ingest_delay_request(req(42), ts(1));
    assert_eq!(offset.current(), None);
}

#[test]
fn slave_master_offset_got_resp_only() {
    let mut offset = SlaveMasterOffset::new();
    offset.ingest_delay_response(resp(42, 1));
    assert_eq!(offset.current(), None);
}

#[test]
fn slave_master_offset_got_req_then_resp_matching() {
    let mut offset = SlaveMasterOffset::new();
    offset.ingest_delay_request(req(42), ts(1));
    offset.ingest_delay_response(resp(42, 2));
    assert_eq!(offset.current(), one_second());
}

#[test]
fn slave_master_offset_got_resp_then_req_matching() {
    let mut offset = SlaveMasterOffset::new();
    offset.ingest_delay_response(resp(42, 3));
    offset.ingest_delay_request(req(42), ts(1));
    assert_eq!(offset.current(), Some(TimeInterval::new(2, 0)));
}

#[test]
fn slave_master_offset_got_req_then_resp_not_matching() {
    let mut offset = SlaveMasterOffset::new();
    offset.ingest_delay_request(req(42), ts(1));
    offset.ingest_delay_response(resp(43, 2));
    assert_eq!(offset.current(), None);
}

#[test]
fn slave_master_offset_got_resp_then_req_not_matching() {
    let mut offset = SlaveMasterOffset::new();
    offset.ingest_delay_response(resp(42, 2));
    offset.ingest_delay_request(req(43), ts(1));
    assert_eq!(offset.current(), None);
}

#[test]
fn first_sample_below_both_thresholds_does_not_step() {
    let mut step_policy = StepPolicy::new(ServoThreshold::new(TimeInterval::new(2, 0)), ServoThreshold::new(TimeInterval::new(1, 0)));
    let sample = ServoSample::new(ts(10), TimeInterval::new(0, 500_000_000));
    assert_eq!(step_policy.should_step(&sample), ServoStepDecision::NoStep);
}

#[test]
fn first_sample_exceeding_first_step_threshold_steps() {
    let mut step_policy = StepPolicy::new(ServoThreshold::new(TimeInterval::new(1, 0)), ServoThreshold::new(TimeInterval::new(2, 0)));
    let sample = ServoSample::new(ts(10), TimeInterval::new(1, 500_000_000));
    assert_eq!(step_policy.should_step(&sample), ServoStepDecision::StepTo(sample.master_estimate().unwrap()));
}

#[test]
fn first_sample_exceeding_step_threshold_steps_even_if_first_step_not_exceeded() {
    let mut step_policy = StepPolicy::new(ServoThreshold::new(TimeInterval::new(2, 0)), ServoThreshold::new(TimeInterval::new(1, 0)));
    let sample = ServoSample::new(ts(10), TimeInterval::new(1, 500_000_000));
    assert_eq!(step_policy.should_step(&sample), ServoStepDecision::StepTo(sample.master_estimate().unwrap()));
}

#[test]
fn subsequent_samples_use_only_step_threshold() {
    let mut step_policy = StepPolicy::new(ServoThreshold::new(TimeInterval::new(2, 0)), ServoThreshold::new(TimeInterval::new(1, 0)));
    let first = ServoSample::new(ts(10), TimeInterval::new(0, 500_000_000));
    assert_eq!(step_policy.should_step(&first), ServoStepDecision::NoStep);
    let second = ServoSample::new(ts(10), TimeInterval::new(1, 500_000_000));
    assert_eq!(step_policy.should_step(&second), ServoStepDecision::StepTo(second.master_estimate().unwrap()));
}

#[test]
fn zero_steady_threshold_disables_subsequent_steps() {
    let mut step_policy = StepPolicy::new(ServoThreshold::new(TimeInterval::new(2, 0)), ServoThreshold::disabled());
    let first = ServoSample::new(ts(10), TimeInterval::new(0, 500_000_000));
    assert_eq!(step_policy.should_step(&first), ServoStepDecision::NoStep);
    let second = ServoSample::new(ts(10), TimeInterval::new(3, 0));
    assert_eq!(step_policy.should_step(&second), ServoStepDecision::NoStep);
}

#[test]
fn step_policy_does_not_step_on_master_estimate_underflow() {
    let mut step_policy = StepPolicy::new(ServoThreshold::new(TimeInterval::new(1, 0)), ServoThreshold::new(TimeInterval::new(1, 0)));
    let sample = ServoSample::new(ts(0), TimeInterval::new(5, 0));
    assert_eq!(step_policy.should_step(&sample), ServoStepDecision::NoStep);
}

#[test]
fn master_estimate_is_ingress_minus_offset() {
    let sample = ServoSample::new(ts(10), TimeInterval::new(-2, 250_000_000));
    assert_eq!(sample.master_estimate(), Some(TimeStamp::new(11, 750_000_000)));
    assert!(sample.beyond_threshold(TimeInterval::new(1, 0)));
    assert!(!sample.beyond_threshold(TimeInterval::new(2, 0)));
}

#[test]
fn e2e_offset_uses_floor_halving_of_odd_nanoseconds() {
    let mut e2e = new_e2e();
    e2e.record_one_step_sync(OneStepSyncMessage::new(1.into(), LogMessageInterval::new(0), TimeStamp::new(1, 0)), TimeStamp::new(1, 3));
    e2e.record_delay_request(req(2), TimeStamp::new(5, 0));
    e2e.record_delay_response(DelayResponseMessage::new(2.into(), LogMessageInterval::new(0), TimeStamp::new(5, 0), PortIdentity::fake()));
    assert_eq!(e2e.sample(), Some(ServoSample::new(TimeStamp::new(1, 3), TimeInterval::new(0, 1))));
    let mut e2e = new_e2e();
    e2e.record_one_step_sync(OneStepSyncMessage::new(1.into(), LogMessageInterval::new(0), TimeStamp::new(1, 3)), TimeStamp::new(1, 0));
    e2e.record_delay_request(req(2), TimeStamp::new(5, 0));
    e2e.record_delay_response(DelayResponseMessage::new(2.into(), LogMessageInterval::new(0), TimeStamp::new(5, 0), PortIdentity::fake()));
    assert_eq!(e2e.sample(), Some(ServoSample::new(TimeStamp::new(1, 0), TimeInterval::from_total_nanos(-2))));
}

#[test]
fn e2e_delay_request_advances_sequence_id() {
    let mut e2e = new_e2e();
    assert_eq!(e2e.delay_request(), DelayRequestMessage::new(0.into()));
    assert_eq!(e2e.delay_request(), DelayRequestMessage::new(1.into()));
}

#[test]
fn servo_sample_drift_orders_samples_by_ingress_time() {
    let earlier = ServoSample::new(TimeStamp::new(10, 0), TimeInterval::new(0, 1_000));
    let later = ServoSample::new(TimeStamp::new(12, 0), TimeInterval::new(0, 3_000));
    let min_delta = TimeInterval::new(1, 0);

    assert_eq!(
        later.drift(&earlier, min_delta),
        ServoSampleOrdering::InOrder { delta_offset: 2_000, delta_ingress: 2_000_000_000 }
    );
    assert_eq!(earlier.drift(&later, min_delta), ServoSampleOrdering::OutOfOrder);
    assert_eq!(earlier.drift(&earlier, min_delta), ServoSampleOrdering::OutOfOrder);

    let close = ServoSample::new(TimeStamp::new(10, 500_000_000), TimeInterval::new(0, 0));
    assert_eq!(close.drift(&earlier, min_delta), ServoSampleOrdering::InOrderButLowDelta);
}

/// A timer handle that records the durations it was restarted with.
#[derive(Debug, PartialEq, Eq)]
struct RecordingTimeout {
    restarts: Vec<Duration>,
}

impl Timeout for RecordingTimeout {
    fn restart(&mut self, timeout: Duration) {
        self.restarts.push(timeout);
    }
}

#[test]
fn cycles_restart_their_timer_with_the_interval_duration() {
    let mut announce = AnnounceCycle::new(SequenceId::new(0), RecordingTimeout { restarts: vec![] }, LogInterval::new(1));
    assert!(announce.timeout.restarts.is_empty());
    announce.next();
    assert_eq!(announce.timeout.restarts, vec![LogInterval::new(1).duration()]);

    let mut sync = SyncCycle::new(SequenceId::new(0), RecordingTimeout { restarts: vec![] }, LogInterval::new(0));
    let _ = sync.two_step_sync();
    assert!(sync.timeout.restarts.is_empty());
    sync.next();
    assert_eq!(sync.timeout.restarts, vec![LogInterval::new(0).duration()]);

    let mut delay = DelayCycle::new(SequenceId::new(0), RecordingTimeout { restarts: vec![] }, LogInterval::new(-1));
    let _ = delay.delay_request();
    assert!(delay.timeout.restarts.is_empty());
    delay.next();
    assert_eq!(delay.timeout.restarts, vec![LogInterval::new(-1).duration()]);
}

#[test]
fn announce_receipt_timeout_restarts_with_its_interval() {
    let interval = LogInterval::new(2).duration();
    let mut t = rptp::port::AnnounceReceiptTimeout::new(RecordingTimeout { restarts: vec![] }, interval);
    t.restart();
    t.restart();
    assert_eq!(t.timeout.restarts, vec![interval, interval]);
}
