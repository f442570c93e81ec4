//! `rptp`: a domain-driven IEEE 1588-2019 (PTP) core with machine-checked contracts.
//!
//! The library models the protocol logic of a PTP ordinary clock: wire encoding and decoding of
//! PTP messages, the Best Master Clock Algorithm (BMCA) with foreign master qualification, the
//! end-to-end delay mechanism, servo stepping decisions and the port state machine. Runtime
//! concerns (sockets, timers, hardware timestamping, floating point clock discipline) stay at the
//! edges.
#![allow(unused_imports)]

pub mod time;
pub mod bytes;
pub mod result;
pub mod clock;
pub mod port;
pub mod bmca;
pub mod priority;
pub mod records;
pub mod infra;
pub mod heapless;
pub mod wire;
pub mod message;
pub mod log;
pub mod servo;
pub mod e2e;
pub mod sync;
pub mod offsets;
pub mod master;
pub mod timestamping;
pub mod portstate;
pub mod profile;
pub mod initializing;
pub mod listening;
pub mod faulty;
pub mod passive;
pub mod premaster;
pub mod slave;
pub mod uncalibrated;
pub mod ordinary;
