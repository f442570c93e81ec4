//! Port state `INITIALIZING`: waits for infrastructure to report readiness, then listens.
use vstd::prelude::*;

use crate::bmca::{
    BestForeignRecord, BestMasterClockAlgorithm, ForeignGrandMasterCandidates, ListeningBmca,
    LocalGrandMasterCandidate,
};
use crate::log::PortEvent;
use crate::port::Port;
use crate::portstate::{freshly_started, qualification_started, continues, PortState, PortStateKind};
use crate::profile::PortProfile;
use crate::records::ForeignClockRecords;

verus! {

/// The `INITIALIZING` state: the port boundary, the BMCA evaluator and the port's foreign
/// records, held until [`SystemMessage::Initialized`](crate::message::SystemMessage::Initialized)
/// arrives.
pub struct InitializingPort<P: Port, L: LocalGrandMasterCandidate, F: ForeignGrandMasterCandidates, S: ForeignClockRecords> {
    pub port: P,
    pub bmca: BestMasterClockAlgorithm<L, F>,
    pub best_foreign: BestForeignRecord<S>,
    pub profile: PortProfile,
}

impl<P: Port, L: LocalGrandMasterCandidate, F: ForeignGrandMasterCandidates, S: ForeignClockRecords> InitializingPort<P, L, F, S> {
    /// Enter `INITIALIZING`.
    pub fn new(
        port: P,
        bmca: BestMasterClockAlgorithm<L, F>,
        best_foreign: BestForeignRecord<S>,
        profile: PortProfile,
    ) -> (s: InitializingPort<P, L, F, S>)
        ensures
            s.port == port,
            s.bmca == bmca,
            s.best_foreign == best_foreign,
            s.profile == profile,
    {
        port.log(PortEvent::Static("Become InitializingPort"));
        InitializingPort { port, bmca, best_foreign, profile }
    }

    /// `INITIALIZING → LISTENING`, with the BMCA in its listening role.
    pub fn initialized(self) -> (r: PortState<P, L, F, S>)
        ensures
            freshly_started(r),
            continues(r, PortStateKind::Listening, self.port, self.profile, self.bmca, self.best_foreign),
    {
        self.port.log(PortEvent::Initialized);
        let bmca = ListeningBmca::new(self.bmca, self.best_foreign);
        self.profile.listening(self.port, bmca)
    }
}

} // verus!
