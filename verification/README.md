# rptp

A domain-driven IEEE 1588-2019 (PTP) core for an ordinary clock, with machine-checked
contracts (Verus).

## Layout

- `src/` — the library, verified:
  - `time`, `bytes`: timestamps, intervals, durations, log intervals; big-endian encoding.
  - `clock`, `port`: clock and port identities and qualities, the local clock, and the
    infrastructure boundary of a port (physical port, timers, timestamping, logging).
  - `wire`, `message`: header validation and framing, message decoding and encoding; decoding an
    encoded message gives it back.
  - `records`, `infra`, `heapless`, `bmca`: foreign master records and their qualification, the
    data set comparison (a strict order, total on data sets that agree wherever they name the same
    clock), and the Best Master Clock Algorithm with its
    per-state roles.
  - `e2e`, `sync`, `offsets`, `servo`: the end-to-end delay mechanism, offset samples and the
    stepping decisions of the servo.
  - `portstate`, `profile`, `initializing`, `listening`, `uncalibrated`, `slave`, `master`,
    `premaster`, `passive`, `faulty`, `ordinary`: the port state machine. Every decision a state
    takes on an incoming message is one that state can apply, and applying it follows the state
    chart and starts the new state's timers and cycles. The same holds of local events, with one
    exception: an Announce receipt timeout that reaches `MASTER` yields a decision the chart has no
    transition for, and the port then stays in `MASTER`.
- `tests/` — tests of the library.
- `app/` — the daemon: Tokio sockets and timers, a virtual clock, the floating point PI servo and
  tracing output around the library.

The traits that infrastructure implements (`Clock`, `SynchronizableClock`, `Servo`,
`PhysicalPort`, `Timeout`, `TimerHost`, `Port`, `PortIngress`, `PortMap`) each name what their
methods may return or how they may change their receiver (`reads`, `stepped_to`, `responds`,
`event_sent`, `restarted`, `timeout_for`, `event_processed`, `with_port`, ...). By default any
outcome is possible; an implementation may say more, and the library's own implementations
(`SteppingServo`, `DomainPort`, the port state machine, `SingleDomainPortMap`) do. The library's
contracts say what it hands to these methods and what it does with each answer. The storage
traits of the BMCA (`ForeignClockRecords`, `ForeignGrandMasterCandidates`) are implemented in the
library; every implementation states what remembering a record or a report does.
