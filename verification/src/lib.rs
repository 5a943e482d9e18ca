//! Readiness evaluation for `poll` and `select`, and the marshaling of socket
//! addresses and socket options, for a kernel that speaks the Linux ABI.
//!
//! Everything here works on plain values. The kernel services that the calls
//! lean on (the descriptor registry, user memory, the clocks, the scheduler and
//! the transport sockets) are handed in as what they answered and handed back
//! as what they are to do, so that every function has an exact contract.
//!
//! - [`ptr`] holds what a pointer of the caller leads to, and [`file`] what the
//!   registry holds under a descriptor.
//! - [`addr`] reads and writes socket addresses in their wire form.
//! - [`sockopt`] and [`socket`] are the socket calls.
//! - [`poll`] and [`select`] are the readiness calls; [`readiness`] holds the
//!   answers of the descriptors, and [`wait`] the timeouts and deadlines.
//! - [`time`] and [`rusage`] report times and resource usage.
//!
//! A readiness call runs in steps, because it may have to give up the
//! processor between two looks at its descriptors:
//!
//! 1. `sys_poll`, `sys_ppoll`, `sys_select` or `sys_pselect6` checks the
//!    arguments. It either ends the call or hands back what the evaluation
//!    passes work on, together with the timeout.
//! 2. The timeout is armed with a reading of the clock (`Timeout::arm`).
//! 3. Before each pass the registry is asked about the descriptors that the
//!    pass looks up, and about no others (`probed_descriptors`,
//!    `FdSets::is_requested_at_all`); the answers go into an `FdTable`.
//! 4. `poll_once` or `FdSets::poll_all` runs one pass and counts what is ready.
//! 5. `Wait::after_pass` decides whether the call returns, looks at the clock
//!    (`Wait::after_clock`) or yields and goes back to step 3.

pub mod abi;
pub mod addr;
pub mod errno;
pub mod file;
pub mod poll;
pub mod ptr;
pub mod readiness;
pub mod rusage;
pub mod select;
pub mod socket;
pub mod sockopt;
pub mod time;
pub mod wait;
