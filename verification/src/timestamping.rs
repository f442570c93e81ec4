//! Egress timestamping boundary.
use vstd::prelude::*;

use crate::message::EventMessage;

verus! {

/// Transmit timestamping, provided by infrastructure.
///
/// After an event message has been handed to the network, the port asks the timestamping
/// facility to capture its egress time; the timestamp comes back later as a
/// [`SystemMessage::Timestamp`](crate::message::SystemMessage::Timestamp).
pub trait TxTimestamping {
    /// Capture the egress timestamp of `msg`, which was just sent.
    fn stamp_egress(&self, msg: EventMessage);
}

} // verus!
