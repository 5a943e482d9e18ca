//! Getting and setting socket options.
//!
//! Every supported option carries one 32-bit integer. A call names an option
//! by its level and its name; it is checked against the descriptor, the
//! declared length and the kind of the socket, in that order.

use vstd::prelude::*;
use crate::abi::{
    IPPROTO_TCP,
    OPTION_SIZE,
    SOL_SOCKET,
    SO_RCVBUF,
    SO_REUSEADDR,
    SO_SNDBUF,
    TCP_MAXSEG,
    TCP_NODELAY,
};
use crate::errno::Errno;
use crate::file::{socket_of, FileLike, Socket, TcpState, UdpState};
use crate::ptr::UserPtr;

verus! {

/// Whether `getsockopt` knows the option.
pub open spec fn is_get_option(level: u32, optname: u32) -> bool {
    (level == SOL_SOCKET && (optname == SO_SNDBUF || optname == SO_RCVBUF)) || (level
        == IPPROTO_TCP && optname == TCP_MAXSEG)
}

/// The value of an option that `getsockopt` knows, as the socket holds it;
/// `None` where a socket of this kind does not have the option.
pub open spec fn option_value(socket: Socket, level: u32, optname: u32) -> Option<usize> {
    if level == SOL_SOCKET && optname == SO_SNDBUF {
        Some(socket.spec_send_capacity())
    } else if level == SOL_SOCKET && optname == SO_RCVBUF {
        Some(socket.spec_recv_capacity())
    } else {
        match socket {
            Socket::Tcp(tcp) => Some(tcp.remote_mss),
            Socket::Udp(_) => None,
        }
    }
}

/// The outcome of `getsockopt`: the 32-bit value that it stores, or the error
/// that it returns.
pub open spec fn spec_getsockopt(
    file: Option<FileLike>,
    level: u32,
    optname: u32,
    optval: UserPtr<u32>,
    optlen: UserPtr<u32>,
) -> Result<u32, Errno> {
    match socket_of(file) {
        Err(errno) => Err(errno),
        Ok(socket) => {
            if !is_get_option(level, optname) {
                Err(Errno::OptionNotSupported)
            } else if !(optlen is Mapped) {
                Err(Errno::BadAddress)
            } else if optlen->Mapped_0 < OPTION_SIZE {
                Err(Errno::InvalidArgument)
            } else {
                match option_value(socket, level, optname) {
                    None => Err(Errno::OptionNotSupported),
                    Some(value) => {
                        if optval is Mapped {
                            Ok(value as u32)
                        } else {
                            Err(Errno::BadAddress)
                        }
                    },
                }
            }
        },
    }
}

/// Reads a socket option.
///
/// `file` is what the registry holds under the descriptor. On success the
/// value of the option, cut to 32 bits, stands behind `optval`, the size of
/// that value behind `optlen`, and the call returns 0. On failure nothing is
/// stored.
pub fn sys_getsockopt(
    file: Option<FileLike>,
    level: u32,
    optname: u32,
    optval: &mut UserPtr<u32>,
    optlen: &mut UserPtr<u32>,
) -> (r: Result<isize, Errno>)
    ensures
        match spec_getsockopt(file, level, optname, *old(optval), *old(optlen)) {
            Ok(value) => {
                &&& r == Ok::<isize, Errno>(0)
                &&& *final(optval) == UserPtr::Mapped(value)
                &&& *final(optlen) == UserPtr::Mapped(OPTION_SIZE)
            },
            Err(errno) => {
                &&& r == Err::<isize, Errno>(errno)
                &&& *final(optval) == *old(optval)
                &&& *final(optlen) == *old(optlen)
            },
        },
{
    let socket = match socket_of(file) {
        Ok(socket) => socket,
        Err(errno) => {
            return Err(errno);
        },
    };
    let known = (level == SOL_SOCKET && (optname == SO_SNDBUF || optname == SO_RCVBUF)) || (level
        == IPPROTO_TCP && optname == TCP_MAXSEG);
    if !known {
        return Err(Errno::OptionNotSupported);
    }
    let len = match optlen.get_as_ref() {
        Ok(len) => *len,
        Err(errno) => {
            return Err(errno);
        },
    };
    if len < OPTION_SIZE {
        return Err(Errno::InvalidArgument);
    }
    let value: usize = if level == SOL_SOCKET && optname == SO_SNDBUF {
        socket.send_capacity()
    } else if level == SOL_SOCKET && optname == SO_RCVBUF {
        socket.recv_capacity()
    } else {
        match socket {
            Socket::Tcp(tcp) => tcp.remote_mss,
            Socket::Udp(_) => {
                return Err(Errno::OptionNotSupported);
            },
        }
    };
    match optval.write(value as u32) {
        Ok(()) => {},
        Err(errno) => {
            return Err(errno);
        },
    }
    let _ = optlen.write(OPTION_SIZE);
    Ok(0)
}

/// Whether the option is one that `setsockopt` accepts by name and checks for
/// length, but cannot apply.
pub open spec fn spec_is_unimplemented_set(level: u32, optname: u32) -> bool {
    level == SOL_SOCKET && (optname == SO_REUSEADDR || optname == SO_RCVBUF || optname
        == SO_SNDBUF)
}

/// Whether the option is one that `setsockopt` accepts by name and checks for
/// length, but cannot apply.
#[verifier::when_used_as_spec(spec_is_unimplemented_set)]
pub fn is_unimplemented_set(level: u32, optname: u32) -> (unimplemented: bool)
    ensures
        unimplemented == spec_is_unimplemented_set(level, optname),
{
    level == SOL_SOCKET && (optname == SO_REUSEADDR || optname == SO_RCVBUF || optname
        == SO_SNDBUF)
}

/// Whether `setsockopt` on these arguments reaches an option that it cannot
/// apply: the descriptor is a socket, the option is accepted by name only, and
/// the declared length passes the check.
pub open spec fn setsockopt_unimplemented(
    file: Option<FileLike>,
    level: u32,
    optname: u32,
    optlen: u32,
) -> bool {
    socket_of(file) is Ok && spec_is_unimplemented_set(level, optname) && optlen >= OPTION_SIZE
}

/// The outcome of `setsockopt`: whether Nagle's algorithm is enabled
/// afterwards, or the error that it returns. For an option that is accepted by
/// name only, the outcome is that of the length check, which is all that
/// `sys_setsockopt` admits of such an option.
pub open spec fn spec_setsockopt(
    file: Option<FileLike>,
    level: u32,
    optname: u32,
    optval: UserPtr<u32>,
    optlen: u32,
) -> Result<bool, Errno> {
    match socket_of(file) {
        Err(errno) => Err(errno),
        Ok(socket) => {
            if spec_is_unimplemented_set(level, optname) {
                Err(Errno::InvalidArgument)
            } else if level == IPPROTO_TCP && optname == TCP_NODELAY {
                if optlen < OPTION_SIZE {
                    Err(Errno::InvalidArgument)
                } else if !(optval is Mapped) {
                    Err(Errno::BadAddress)
                } else if socket is Udp {
                    Err(Errno::OptionNotSupported)
                } else {
                    Ok(optval->Mapped_0 == 0)
                }
            } else {
                Err(Errno::OptionNotSupported)
            }
        },
    }
}

/// The socket `file` with Nagle's algorithm switched as `enabled` says.
pub open spec fn with_nagle(file: Option<FileLike>, enabled: bool) -> Option<FileLike> {
    match file {
        Some(FileLike::Socket(Socket::Tcp(tcp))) => Some(
            FileLike::Socket(Socket::Tcp(TcpState { nagle_enabled: enabled, ..tcp })),
        ),
        _ => file,
    }
}

/// Sets a socket option.
///
/// `file` is what the registry holds under the descriptor. The one option
/// that takes effect is `TCP_NODELAY` on a TCP socket: a value of zero enables
/// Nagle's algorithm, any other value disables it, and the call returns 0.
/// Every other outcome is an error that leaves the socket as it was.
///
/// The socket-level options `SO_REUSEADDR`, `SO_RCVBUF` and `SO_SNDBUF` are
/// checked for the declared length and are not implemented beyond that: the
/// caller must not pass one of them with a length that passes the check.
pub fn sys_setsockopt(
    file: &mut Option<FileLike>,
    level: u32,
    optname: u32,
    optval: &UserPtr<u32>,
    optlen: u32,
) -> (r: Result<isize, Errno>)
    requires
        !setsockopt_unimplemented(*old(file), level, optname, optlen),
    ensures
        is_setsockopt(*old(file), level, optname, *optval, optlen, *final(file), r),
{
    let socket = match socket_of(*file) {
        Ok(socket) => socket,
        Err(errno) => {
            return Err(errno);
        },
    };
    if is_unimplemented_set(level, optname) {
        // Of such an option only the check of the length is left.
        assert(optlen < OPTION_SIZE);
        return Err(Errno::InvalidArgument);
    }
    if level == IPPROTO_TCP && optname == TCP_NODELAY {
        if optlen < OPTION_SIZE {
            return Err(Errno::InvalidArgument);
        }
        let value = match optval.get_as_ref() {
            Ok(value) => *value,
            Err(errno) => {
                return Err(errno);
            },
        };
        let enable_nagle = value == 0;
        match socket {
            Socket::Tcp(tcp) => {
                *file = Some(
                    FileLike::Socket(
                        Socket::Tcp(
                            TcpState {
                                nagle_enabled: enable_nagle,
                                send_capacity: tcp.send_capacity,
                                recv_capacity: tcp.recv_capacity,
                                remote_mss: tcp.remote_mss,
                                local_addr: tcp.local_addr,
                            },
                        ),
                    ),
                );
                Ok(0)
            },
            Socket::Udp(_) => Err(Errno::OptionNotSupported),
        }
    } else {
        Err(Errno::OptionNotSupported)
    }
}

/// Whether `r` and `after` are what `setsockopt` makes of its arguments and
/// of the descriptor `before`.
pub open spec fn is_setsockopt(
    before: Option<FileLike>,
    level: u32,
    optname: u32,
    optval: UserPtr<u32>,
    optlen: u32,
    after: Option<FileLike>,
    r: Result<isize, Errno>,
) -> bool {
    match spec_setsockopt(before, level, optname, optval, optlen) {
        Ok(enabled) => r == Ok::<isize, Errno>(0) && after == with_nagle(before, enabled),
        Err(errno) => r == Err::<isize, Errno>(errno) && after == before,
    }
}

/// A form of `sys_setsockopt` for callers that cannot rule out an option that
/// is not implemented: `None`, and nothing changed, exactly where the
/// arguments reach such an option; otherwise what `sys_setsockopt` returns.
pub fn try_setsockopt(
    file: &mut Option<FileLike>,
    level: u32,
    optname: u32,
    optval: &UserPtr<u32>,
    optlen: u32,
) -> (r: Option<Result<isize, Errno>>)
    ensures
        setsockopt_unimplemented(*old(file), level, optname, optlen) ==> r is None,
        setsockopt_unimplemented(*old(file), level, optname, optlen) ==> *final(file) == *old(file),
        !setsockopt_unimplemented(*old(file), level, optname, optlen) ==> r is Some,
        !setsockopt_unimplemented(*old(file), level, optname, optlen) ==> is_setsockopt(
            *old(file),
            level,
            optname,
            *optval,
            optlen,
            *final(file),
            r->Some_0,
        ),
{
    let is_socket = match socket_of(*file) {
        Ok(_) => true,
        Err(_) => false,
    };
    if is_socket && is_unimplemented_set(level, optname) && optlen >= OPTION_SIZE {
        None
    } else {
        Some(sys_setsockopt(file, level, optname, optval, optlen))
    }
}

/// Setting `TCP_NODELAY` to zero on a TCP socket enables Nagle's algorithm,
/// and setting it to any other value disables it, whenever the declared length
/// holds a 32-bit integer.
pub proof fn lemma_nodelay_is_inverted(tcp: TcpState, value: u32, optlen: u32)
    requires
        optlen >= OPTION_SIZE,
    ensures
        spec_setsockopt(
            Some(FileLike::Socket(Socket::Tcp(tcp))),
            IPPROTO_TCP,
            TCP_NODELAY,
            UserPtr::Mapped(value),
            optlen,
        ) == Ok::<bool, Errno>(value == 0),
        with_nagle(Some(FileLike::Socket(Socket::Tcp(tcp))), value == 0) matches Some(
            FileLike::Socket(Socket::Tcp(after)),
        ) && after.nagle_enabled == (value == 0),
{
}

/// Asking a UDP socket for `TCP_MAXSEG` is answered with `OptionNotSupported`,
/// whatever the socket holds, whenever the length behind `optlen` is
/// accessible and holds a 32-bit integer.
pub proof fn lemma_maxseg_needs_tcp(udp: UdpState, optval: UserPtr<u32>, optlen: u32)
    requires
        optlen >= OPTION_SIZE,
    ensures
        spec_getsockopt(
            Some(FileLike::Socket(Socket::Udp(udp))),
            IPPROTO_TCP,
            TCP_MAXSEG,
            optval,
            UserPtr::Mapped(optlen),
        ) == Err::<u32, Errno>(Errno::OptionNotSupported),
{
}

} // verus!
