//! Logging and metrics surfaces the protocol core reports through; infrastructure routes them to
//! its logging and metrics systems.
use vstd::prelude::*;

use crate::port::{ParentPortIdentity, PortIdentity};
use crate::time::TimeInterval;

verus! {

/// Sink for port-level events.
pub trait PortLog {
    /// Record a port event.
    fn port_event(&self, port_identity: PortIdentity, event: PortEvent);
}

/// A [`PortLog`] that drops all events.
pub struct NoopPortLog;

impl PortLog for NoopPortLog {
    fn port_event(&self, port_identity: PortIdentity, event: PortEvent) {
    }
}

/// Discrete events of the port state machine.
#[derive(Clone, Copy, Debug, PartialEq, Eq)]
pub enum PortEvent {
    /// The port finished initialization.
    Initialized,
    /// BMCA recommended becoming a slave of `parent`.
    RecommendedSlave { parent: ParentPortIdentity },
    /// BMCA recommended becoming (pre-)master.
    RecommendedMaster,
    /// The local clock synchronized to the master of `parent`.
    MasterClockSelected { parent: ParentPortIdentity },
    /// The Announce receipt timeout expired.
    AnnounceReceiptTimeout,
    /// The pre-master qualification timeout expired.
    QualifiedMaster,
    /// The servo reported a synchronization fault.
    SynchronizationFault,
    /// A message of the named kind was received.
    MessageReceived(&'static str),
    /// A message of the named kind was sent.
    MessageSent(&'static str),
    /// Ad-hoc marker.
    Static(&'static str),
}

/// Sink for clock and servo measurements.
pub trait ClockMetrics {
    /// Record the current estimated offset from the selected master.
    fn record_offset_from_master(&self, offset: TimeInterval);
}

/// A [`ClockMetrics`] that drops all measurements.
pub struct NoopClockMetrics;

impl ClockMetrics for NoopClockMetrics {
    fn record_offset_from_master(&self, offset: TimeInterval) {
    }
}

} // verus!
