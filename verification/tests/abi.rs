//! The numbers and sizes of the library against those of the Linux headers.

use netsys::abi;
use netsys::addr::{FAMILY_SIZE, SOCKADDR_IN6_SIZE, SOCKADDR_IN_SIZE, SOCKADDR_SIZE};
use netsys::errno::{return_value, Errno};
use netsys::select::{BITS_PER_WORD, FD_SETSIZE, FD_SETSIZE_WORDS};

#[test]
fn families_and_socket_types_match_the_headers() {
    assert_eq!(abi::AF_INET, linux_raw_sys::net::AF_INET);
    assert_eq!(abi::AF_INET6, linux_raw_sys::net::AF_INET6);
    assert_eq!(abi::SOCK_STREAM, linux_raw_sys::net::SOCK_STREAM);
    assert_eq!(abi::SOCK_DGRAM, linux_raw_sys::net::SOCK_DGRAM);
}

#[test]
fn option_numbers_match_the_headers() {
    assert_eq!(abi::SOL_SOCKET, linux_raw_sys::net::SOL_SOCKET);
    assert_eq!(abi::IPPROTO_TCP, linux_raw_sys::net::IPPROTO_TCP as u32);
    assert_eq!(abi::SO_REUSEADDR, linux_raw_sys::net::SO_REUSEADDR);
    assert_eq!(abi::SO_SNDBUF, linux_raw_sys::net::SO_SNDBUF);
    assert_eq!(abi::SO_RCVBUF, linux_raw_sys::net::SO_RCVBUF);
    assert_eq!(abi::TCP_NODELAY, linux_raw_sys::net::TCP_NODELAY);
    assert_eq!(abi::TCP_MAXSEG, linux_raw_sys::net::TCP_MAXSEG);
    assert_eq!(abi::OPTION_SIZE as usize, core::mem::size_of::<i32>());
}

#[test]
fn poll_events_match_the_headers() {
    assert_eq!(abi::POLLIN, linux_raw_sys::general::POLLIN as i16);
    assert_eq!(abi::POLLOUT, linux_raw_sys::general::POLLOUT as i16);
    assert_eq!(abi::POLLERR, linux_raw_sys::general::POLLERR as i16);
    assert_eq!(abi::POLLNVAL, linux_raw_sys::general::POLLNVAL as i16);
}

#[test]
fn clock_and_usage_numbers_match_the_headers() {
    assert_eq!(abi::CLOCK_REALTIME, linux_raw_sys::general::CLOCK_REALTIME);
    assert_eq!(abi::CLOCK_MONOTONIC, linux_raw_sys::general::CLOCK_MONOTONIC);
    assert_eq!(abi::CLOCK_PROCESS_CPUTIME_ID, linux_raw_sys::general::CLOCK_PROCESS_CPUTIME_ID);
    assert_eq!(abi::RUSAGE_SELF, linux_raw_sys::general::RUSAGE_SELF);
    assert_eq!(abi::SIGSET_SIZE, core::mem::size_of::<linux_raw_sys::general::sigset_t>());
}

#[test]
fn structure_sizes_match_the_headers() {
    assert_eq!(SOCKADDR_SIZE, core::mem::size_of::<linux_raw_sys::net::sockaddr>());
    assert_eq!(SOCKADDR_IN_SIZE as usize, core::mem::size_of::<linux_raw_sys::net::sockaddr_in>());
    assert_eq!(SOCKADDR_IN6_SIZE as usize, core::mem::size_of::<linux_raw_sys::net::sockaddr_in6>());
    assert_eq!(
        FAMILY_SIZE as usize,
        core::mem::size_of::<linux_raw_sys::net::__kernel_sa_family_t>()
    );
    assert_eq!(
        FD_SETSIZE_WORDS * 8,
        core::mem::size_of::<linux_raw_sys::general::__kernel_fd_set>()
    );
    assert_eq!(FD_SETSIZE, FD_SETSIZE_WORDS * BITS_PER_WORD);
    assert_eq!(FD_SETSIZE, 1024);
    assert_eq!(
        core::mem::size_of::<netsys::poll::PollFd>(),
        core::mem::size_of::<linux_raw_sys::general::pollfd>()
    );
}

#[test]
fn error_numbers_match_the_kernel_errors() {
    assert_eq!(Errno::BadFileDescriptor.code(), axerrno::LinuxError::EBADF.code());
    assert_eq!(Errno::BadAddress.code(), axerrno::LinuxError::EFAULT.code());
    assert_eq!(Errno::InvalidArgument.code(), axerrno::LinuxError::EINVAL.code());
    assert_eq!(Errno::NotSocket.code(), axerrno::LinuxError::ENOTSOCK.code());
    assert_eq!(Errno::OptionNotSupported.code(), axerrno::LinuxError::ENOPROTOOPT.code());
    assert_eq!(Errno::ProtocolNotSupported.code(), axerrno::LinuxError::EPROTONOSUPPORT.code());
    assert_eq!(Errno::AddressFamilyNotSupported.code(), axerrno::LinuxError::EAFNOSUPPORT.code());
}

#[test]
fn error_numbers_are_the_linux_values() {
    assert_eq!(Errno::BadFileDescriptor.code(), 9);
    assert_eq!(Errno::BadAddress.code(), 14);
    assert_eq!(Errno::InvalidArgument.code(), 22);
    assert_eq!(Errno::NotSocket.code(), 88);
    assert_eq!(Errno::OptionNotSupported.code(), 92);
    assert_eq!(Errno::ProtocolNotSupported.code(), 93);
    assert_eq!(Errno::AddressFamilyNotSupported.code(), 97);
}

#[test]
fn return_value_is_count_or_negated_error() {
    assert_eq!(return_value(Ok(0)), 0);
    assert_eq!(return_value(Ok(3)), 3);
    assert_eq!(return_value(Err(Errno::InvalidArgument)), -22);
    assert_eq!(return_value(Err(Errno::BadAddress)), -14);
    assert_eq!(return_value(Err(Errno::AddressFamilyNotSupported)), -97);
}

#[test]
fn poll_events_match_the_events_of_the_transport() {
    assert_eq!(abi::POLLIN as u32, axpoll::IoEvents::IN.bits());
    assert_eq!(abi::POLLOUT as u32, axpoll::IoEvents::OUT.bits());
    assert_eq!(abi::POLLERR as u32, axpoll::IoEvents::ERR.bits());
}
