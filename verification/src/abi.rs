//! Numbers and sizes fixed by the Linux ABI on the 64-bit targets.

use vstd::prelude::*;

verus! {

/// Address family of IPv4 socket addresses.
pub const AF_INET: u32 = 2;

/// Address family of IPv6 socket addresses.
pub const AF_INET6: u32 = 10;

/// Socket type of a connection-oriented byte stream (TCP).
pub const SOCK_STREAM: u32 = 1;

/// Socket type of a datagram socket (UDP).
pub const SOCK_DGRAM: u32 = 2;

/// Option level of the socket layer itself.
pub const SOL_SOCKET: u32 = 1;

/// Option level of the TCP protocol.
pub const IPPROTO_TCP: u32 = 6;

/// Socket-level option: allow reuse of a local address.
pub const SO_REUSEADDR: u32 = 2;

/// Socket-level option: size of the send buffer.
pub const SO_SNDBUF: u32 = 7;

/// Socket-level option: size of the receive buffer.
pub const SO_RCVBUF: u32 = 8;

/// TCP-level option: send segments without coalescing them.
pub const TCP_NODELAY: u32 = 1;

/// TCP-level option: maximum segment size.
pub const TCP_MAXSEG: u32 = 2;

/// Poll event: data can be read.
pub const POLLIN: i16 = 1;

/// Poll event: data can be written.
pub const POLLOUT: i16 = 4;

/// Poll result: the readiness query failed.
pub const POLLERR: i16 = 8;

/// Poll result: the descriptor is not open.
pub const POLLNVAL: i16 = 32;

/// Size in bytes of the integer that every supported socket option carries.
pub const OPTION_SIZE: u32 = 4;

/// Size in bytes of a signal mask as `ppoll` expects it.
pub const SIGSET_SIZE: usize = 8;

/// Resource-usage target: the calling process.
pub const RUSAGE_SELF: u32 = 0;

/// Clock identifier of the wall clock.
pub const CLOCK_REALTIME: u32 = 0;

/// Clock identifier of the monotonic clock.
pub const CLOCK_MONOTONIC: u32 = 1;

/// Clock identifier of the CPU time consumed by the calling process.
pub const CLOCK_PROCESS_CPUTIME_ID: u32 = 2;

} // verus!
