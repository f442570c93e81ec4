//! Ordinary clock assembly: one clock, one domain, one port.
use vstd::prelude::*;

use crate::bmca::{BestForeignRecord, BestForeignSnapshot, BestMasterClockAlgorithm, ClockDS};
use crate::clock::{LocalClock, SynchronizableClock};
use crate::log::PortLog;
use crate::port::{DomainNumber, DomainPort, PhysicalPort, PortNumber, TimerHost};
use crate::portstate::{PortState, PortStateKind};
use crate::profile::PortProfile;
use crate::records::ForeignClockRecords;
use crate::servo::Servo;
use crate::timestamping::TxTimestamping;

verus! {

/// An ordinary clock: the local clock, its default data set (`D_0`) and its domain. Its single
/// port (number 1) is handed out once.
pub struct OrdinaryClock<C: SynchronizableClock, V: Servo> {
    pub local_clock: LocalClock<C, V>,
    pub default_ds: ClockDS,
    pub domain_number: DomainNumber,
    pub unassigned_port: Option<PortNumber>,
}

impl<C: SynchronizableClock, V: Servo> OrdinaryClock<C, V> {
    /// An ordinary clock whose port has not been handed out yet.
    pub fn new(local_clock: LocalClock<C, V>, default_ds: ClockDS, domain_number: DomainNumber) -> (o:
        OrdinaryClock<C, V>)
        ensures
            o.local_clock == local_clock,
            o.default_ds == default_ds,
            o.domain_number == domain_number,
            o.unassigned_port == Some(PortNumber(1)),
    {
        OrdinaryClock { local_clock, default_ds, domain_number, unassigned_port: Some(PortNumber::new(1)) }
    }

    /// The local clock.
    pub fn local_clock(&self) -> (l: &LocalClock<C, V>)
        ensures
            *l == self.local_clock,
    {
        &self.local_clock
    }

    /// The PTP domain.
    pub fn domain_number(&self) -> (d: DomainNumber)
        ensures
            d == self.domain_number,
    {
        self.domain_number
    }

    /// The port state machine of the clock's port, in `INITIALIZING` with the default profile:
    /// `Some` the first time, `None` after. The BMCA compares `D_0` with what this port learns,
    /// starting from an empty foreign store.
    pub fn port<'a, PP: PhysicalPort, TH: TimerHost, TS: TxTimestamping, S: ForeignClockRecords, L: PortLog>(
        &'a mut self,
        physical_port: &'a PP,
        timer_host: TH,
        timestamping: TS,
        log: L,
        foreign_clock_records: S,
    ) -> (r: Option<PortState<DomainPort<'a, C, V, PP, TH, TS, L>, ClockDS, BestForeignSnapshot, S>>)
        ensures
            final(self).local_clock == old(self).local_clock,
            final(self).default_ds == old(self).default_ds,
            final(self).domain_number == old(self).domain_number,
            final(self).unassigned_port is None,
            match old(self).unassigned_port {
                None => r is None,
                Some(port_number) => r matches Some(s) && s.kind() == PortStateKind::Initializing
                    && s.spec_bmca() == (BestMasterClockAlgorithm {
                    local_candidate: old(self).default_ds,
                    foreign_candidates: BestForeignSnapshot::Empty,
                    port_number,
                }) && s.spec_best_foreign() == (BestForeignRecord {
                    received_on_port: port_number,
                    foreign_clock_records,
                }) && s.spec_port().port_number == port_number && s.spec_port().domain_number
                    == old(self).domain_number,
            },
    {
        let port_number = match self.unassigned_port.take() {
            Some(n) => n,
            None => return None,
        };
        let domain_port = DomainPort::new(
            &self.local_clock,
            physical_port,
            timer_host,
            timestamping,
            log,
            self.domain_number,
            port_number,
        );
        let bmca = BestMasterClockAlgorithm::new(self.default_ds, BestForeignSnapshot::Empty, port_number);
        let best_foreign = BestForeignRecord::new(port_number, foreign_clock_records);
        Some(PortProfile::default().initializing(domain_port, bmca, best_foreign))
    }
}

} // verus!
