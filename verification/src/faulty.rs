//! Port state `FAULTY`: quiescent until the fault is cleared.
use vstd::prelude::*;

use crate::bmca::{
    BestForeignRecord, BestMasterClockAlgorithm, ForeignGrandMasterCandidates, LocalGrandMasterCandidate,
};
use crate::log::PortEvent;
use crate::port::Port;
use crate::portstate::{freshly_started, qualification_started, continues, PortState, PortStateKind};
use crate::profile::PortProfile;
use crate::records::ForeignClockRecords;

verus! {

/// The `FAULTY` state: sends and processes nothing, and keeps what re-initialization needs.
pub struct FaultyPort<P: Port, L: LocalGrandMasterCandidate, F: ForeignGrandMasterCandidates, S: ForeignClockRecords> {
    pub port: P,
    pub bmca: BestMasterClockAlgorithm<L, F>,
    pub best_foreign: BestForeignRecord<S>,
    pub profile: PortProfile,
}

impl<P: Port, L: LocalGrandMasterCandidate, F: ForeignGrandMasterCandidates, S: ForeignClockRecords> FaultyPort<P, L, F, S> {
    /// Enter `FAULTY`.
    pub fn new(
        port: P,
        bmca: BestMasterClockAlgorithm<L, F>,
        best_foreign: BestForeignRecord<S>,
        profile: PortProfile,
    ) -> (s: FaultyPort<P, L, F, S>)
        ensures
            s.port == port,
            s.bmca == bmca,
            s.best_foreign == best_foreign,
            s.profile == profile,
    {
        port.log(PortEvent::Static("Become FaultyPort"));
        FaultyPort { port, bmca, best_foreign, profile }
    }

    /// `FAULTY → INITIALIZING`.
    pub fn fault_cleared(self) -> (r: PortState<P, L, F, S>)
        ensures
            freshly_started(r),
            continues(r, PortStateKind::Initializing, self.port, self.profile, self.bmca, self.best_foreign),
    {
        self.profile.initializing(self.port, self.bmca, self.best_foreign)
    }
}

} // verus!
