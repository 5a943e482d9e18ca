//! The socket calls: what each of them asks of the transport, or reports to
//! the caller, once its arguments have been checked.
//!
//! The calls here decide; the transport acts. A call that creates, binds,
//! connects, sends or receives returns what the transport is to do, and the
//! caller of this crate has the transport do it.

use vstd::prelude::*;
use crate::abi::{AF_INET, AF_INET6, SOCK_DGRAM, SOCK_STREAM};
use crate::addr::{overlaid, Sockaddr, SocketAddr, SocketAddrExt};
use crate::errno::Errno;
use crate::file::{socket_of, spec_socket_of, FileLike};
use crate::ptr::UserPtr;

verus! {

/// The kind of a transport socket.
#[derive(Clone, Copy, Debug, PartialEq, Eq, Structural)]
pub enum SocketKind {
    /// A TCP socket.
    Tcp,
    /// A UDP socket.
    Udp,
}

/// How the transport is to send.
#[derive(Clone, Copy, Debug, PartialEq, Eq)]
pub enum SendOp {
    /// To the peer that the socket is connected to.
    Send,
    /// To this address.
    SendTo(SocketAddr),
}

/// The kind of socket that `socket` creates for a domain and a type: the
/// domain must be one of the two internet families, and the type a stream or
/// a datagram socket.
pub open spec fn spec_socket_kind(domain: u32, socket_type: u32) -> Result<SocketKind, Errno> {
    if domain != AF_INET && domain != AF_INET6 {
        Err(Errno::AddressFamilyNotSupported)
    } else if socket_type == SOCK_STREAM {
        Ok(SocketKind::Tcp)
    } else if socket_type == SOCK_DGRAM {
        Ok(SocketKind::Udp)
    } else {
        Err(Errno::ProtocolNotSupported)
    }
}

/// Checks the arguments of `socket` and returns the kind of socket to create.
/// The protocol is not looked at.
#[allow(unused_variables)]
pub fn sys_socket(domain: u32, socket_type: u32, protocol: u32) -> (r: Result<SocketKind, Errno>)
    ensures
        r == spec_socket_kind(domain, socket_type),
{
    if domain != AF_INET && domain != AF_INET6 {
        return Err(Errno::AddressFamilyNotSupported);
    }
    if socket_type == SOCK_STREAM {
        Ok(SocketKind::Tcp)
    } else if socket_type == SOCK_DGRAM {
        Ok(SocketKind::Udp)
    } else {
        Err(Errno::ProtocolNotSupported)
    }
}

/// Checks the arguments of `socketpair` and returns the kinds of the two
/// sockets to create, which are the same. The protocol is not looked at.
#[allow(unused_variables)]
pub fn sys_socketpair(
    domain: u32,
    socket_type: u32,
    protocol: u32,
) -> (r: Result<(SocketKind, SocketKind), Errno>)
    ensures
        match spec_socket_kind(domain, socket_type) {
            Ok(kind) => r == Ok::<(SocketKind, SocketKind), Errno>((kind, kind)),
            Err(errno) => r == Err::<(SocketKind, SocketKind), Errno>(errno),
        },
{
    let socket1 = match sys_socket(domain, socket_type, protocol) {
        Ok(kind) => kind,
        Err(errno) => {
            return Err(errno);
        },
    };
    let socket2 = match sys_socket(domain, socket_type, protocol) {
        Ok(kind) => kind,
        Err(errno) => {
            return Err(errno);
        },
    };
    Ok((socket1, socket2))
}

/// The address that `bind` and `connect` hand to the transport: the
/// descriptor must be a socket, and then the caller's structure must decode.
pub open spec fn spec_target(
    file: Option<FileLike>,
    addr: UserPtr<Sockaddr>,
    addr_len: u32,
) -> Result<SocketAddr, Errno> {
    match spec_socket_of(file) {
        Err(errno) => Err(errno),
        Ok(_) => SocketAddr::spec_read(addr, addr_len),
    }
}

/// Checks the arguments of `bind` and returns the address to bind the socket
/// to. `file` is what the registry holds under the descriptor.
pub fn sys_bind(
    file: Option<FileLike>,
    addr: &UserPtr<Sockaddr>,
    addr_len: u32,
) -> (r: Result<SocketAddr, Errno>)
    ensures
        r == spec_target(file, *addr, addr_len),
{
    match socket_of(file) {
        Ok(_) => {},
        Err(errno) => {
            return Err(errno);
        },
    }
    SocketAddr::read_from_user(addr, addr_len)
}

/// Checks the arguments of `connect` and returns the address to connect the
/// socket to. `file` is what the registry holds under the descriptor.
pub fn sys_connect(
    file: Option<FileLike>,
    addr: &UserPtr<Sockaddr>,
    addr_len: u32,
) -> (r: Result<SocketAddr, Errno>)
    ensures
        r == spec_target(file, *addr, addr_len),
{
    match socket_of(file) {
        Ok(_) => {},
        Err(errno) => {
            return Err(errno);
        },
    }
    SocketAddr::read_from_user(addr, addr_len)
}

/// How `sendto` sends: the descriptor must be a socket and the first `len`
/// bytes of the buffer accessible; the data goes to the address behind `addr`
/// where one is given with a length above zero, and to the connected peer
/// otherwise.
pub open spec fn spec_send_op(
    file: Option<FileLike>,
    buf: UserPtr<Vec<u8>>,
    len: usize,
    addr: UserPtr<Sockaddr>,
    addr_len: u32,
) -> Result<SendOp, Errno> {
    match spec_socket_of(file) {
        Err(errno) => Err(errno),
        Ok(_) => {
            if !buf.spans(len as int) {
                Err(Errno::BadAddress)
            } else if !(addr is Null) && addr_len > 0 {
                match SocketAddr::spec_read(addr, addr_len) {
                    Ok(target) => Ok(SendOp::SendTo(target)),
                    Err(errno) => Err(errno),
                }
            } else {
                Ok(SendOp::Send)
            }
        },
    }
}

/// Checks the arguments of `sendto` and returns how the transport is to send
/// the first `len` bytes of the buffer. The flags are not looked at.
#[allow(unused_variables)]
pub fn sys_sendto(
    file: Option<FileLike>,
    buf: &UserPtr<Vec<u8>>,
    len: usize,
    flags: u32,
    addr: &UserPtr<Sockaddr>,
    addr_len: u32,
) -> (r: Result<SendOp, Errno>)
    ensures
        r == spec_send_op(file, *buf, len, *addr, addr_len),
{
    match socket_of(file) {
        Ok(_) => {},
        Err(errno) => {
            return Err(errno);
        },
    }
    match buf.get_as_slice(len) {
        Ok(_) => {},
        Err(errno) => {
            return Err(errno);
        },
    }
    if !addr.is_null() && addr_len > 0 {
        match SocketAddr::read_from_user(addr, addr_len) {
            Ok(target) => Ok(SendOp::SendTo(target)),
            Err(errno) => Err(errno),
        }
    } else {
        Ok(SendOp::Send)
    }
}

/// What `recvfrom` finds wrong before it receives, if anything: the
/// descriptor must be a socket and the first `len` bytes of the buffer
/// accessible.
pub open spec fn spec_recv_check(
    file: Option<FileLike>,
    buf: UserPtr<Vec<u8>>,
    len: usize,
) -> Result<(), Errno> {
    match spec_socket_of(file) {
        Err(errno) => Err(errno),
        Ok(_) => if buf.spans(len as int) {
            Ok(())
        } else {
            Err(Errno::BadAddress)
        },
    }
}

/// Checks the arguments of `recvfrom` that count before the transport
/// receives into the first `len` bytes of the buffer. The flags are not looked
/// at.
#[allow(unused_variables)]
pub fn sys_recvfrom(
    file: Option<FileLike>,
    buf: &UserPtr<Vec<u8>>,
    len: usize,
    flags: u32,
) -> (r: Result<(), Errno>)
    ensures
        r == spec_recv_check(file, *buf, len),
{
    match socket_of(file) {
        Ok(_) => {},
        Err(errno) => {
            return Err(errno);
        },
    }
    match buf.get_as_slice(len) {
        Ok(_) => Ok(()),
        Err(errno) => Err(errno),
    }
}

/// Whether `recvfrom` tries to report the source address: both pointers are
/// given, and the transport named a source.
pub open spec fn reports_source(
    src_addr: Option<SocketAddr>,
    addr: UserPtr<Sockaddr>,
    addr_len: UserPtr<u32>,
) -> bool {
    !(addr is Null) && !(addr_len is Null) && src_addr is Some
}

/// Whether `recvfrom` stores the source address: it tries to, the length
/// behind `addr_len` is accessible and covers the wire form of the address,
/// and the structure behind `addr` is accessible.
pub open spec fn stores_source(
    src_addr: Option<SocketAddr>,
    addr: UserPtr<Sockaddr>,
    addr_len: UserPtr<u32>,
) -> bool {
    &&& reports_source(src_addr, addr, addr_len)
    &&& addr_len is Mapped
    &&& addr_len->Mapped_0 >= src_addr->Some_0.wire().len()
    &&& addr is Mapped
}

/// What `recvfrom` returns after the transport has received
/// `received_bytes` bytes: their number, unless the source address is to be
/// reported and the length pointer leads to inaccessible memory.
pub open spec fn spec_recv_result(
    received_bytes: usize,
    src_addr: Option<SocketAddr>,
    addr: UserPtr<Sockaddr>,
    addr_len: UserPtr<u32>,
) -> Result<isize, Errno> {
    if reports_source(src_addr, addr, addr_len) && addr_len is Unmapped {
        Err(Errno::BadAddress)
    } else {
        Ok(received_bytes as isize)
    }
}

/// Ends a call of `recvfrom` after the transport has received
/// `received_bytes` bytes from `src_addr`, and returns the number of bytes.
///
/// Where the caller gave both an address pointer and a length pointer and the
/// transport named a source, the source address is reported. The length
/// behind the length pointer must then be accessible, or the call fails with
/// `BadAddress`. If that length covers the wire form of the address and the
/// caller's structure is accessible, the address is stored over the start of
/// the structure and its size behind the length pointer. Nothing is stored
/// otherwise.
pub fn recvfrom_finish(
    received_bytes: usize,
    src_addr: Option<SocketAddr>,
    addr: &mut UserPtr<Sockaddr>,
    addr_len: &mut UserPtr<u32>,
) -> (r: Result<isize, Errno>)
    ensures
        r == spec_recv_result(received_bytes, src_addr, *old(addr), *old(addr_len)),
        stores_source(src_addr, *old(addr), *old(addr_len)) ==> {
            &&& *final(addr) is Mapped
            &&& final(addr)->Mapped_0.storage@ == overlaid(
                src_addr->Some_0.wire(),
                old(addr)->Mapped_0.storage@,
            )
            &&& *final(addr_len) == UserPtr::Mapped(src_addr->Some_0.wire().len() as u32)
        },
        !stores_source(src_addr, *old(addr), *old(addr_len)) ==> {
            &&& *final(addr) == *old(addr)
            &&& *final(addr_len) == *old(addr_len)
        },
{
    if !addr.is_null() && !addr_len.is_null() {
        if let Some(source) = src_addr {
            let user_addr_len = match addr_len.get_as_ref() {
                Ok(len) => *len,
                Err(errno) => {
                    return Err(errno);
                },
            };
            let addr_size = source.addr_len();
            if user_addr_len >= addr_size {
                match source.write_to_user(addr) {
                    Ok(written_len) => {
                        let _ = addr_len.write(written_len);
                    },
                    Err(_) => {},
                }
            }
        }
    }
    Ok(received_bytes as isize)
}

/// The outcome of `getsockname`: the address that it reports, or the error
/// that it returns. Both pointers must be given, the descriptor must be a
/// socket whose transport can tell its local address, and both pointers must
/// lead to accessible memory.
pub open spec fn spec_getsockname(
    file: Option<FileLike>,
    addr: UserPtr<Sockaddr>,
    addrlen: UserPtr<u32>,
) -> Result<SocketAddr, Errno> {
    if addr is Null || addrlen is Null {
        Err(Errno::BadAddress)
    } else {
        match spec_socket_of(file) {
            Err(errno) => Err(errno),
            Ok(socket) => match socket.spec_local_addr() {
                None => Err(Errno::InvalidArgument),
                Some(local_addr) => if addrlen is Mapped && addr is Mapped {
                    Ok(local_addr)
                } else {
                    Err(Errno::BadAddress)
                },
            },
        }
    }
}

/// Reports the local address of a socket.
///
/// `file` is what the registry holds under the descriptor. On success the
/// address is stored over the start of the caller's structure, its size
/// behind `addrlen`, and the call returns 0. On failure nothing is stored.
pub fn sys_getsockname(
    file: Option<FileLike>,
    addr: &mut UserPtr<Sockaddr>,
    addrlen: &mut UserPtr<u32>,
) -> (r: Result<isize, Errno>)
    ensures
        match spec_getsockname(file, *old(addr), *old(addrlen)) {
            Ok(local_addr) => {
                &&& r == Ok::<isize, Errno>(0)
                &&& *final(addr) is Mapped
                &&& final(addr)->Mapped_0.storage@ == overlaid(
                    local_addr.wire(),
                    old(addr)->Mapped_0.storage@,
                )
                &&& *final(addrlen) == UserPtr::Mapped(local_addr.wire().len() as u32)
            },
            Err(errno) => {
                &&& r == Err::<isize, Errno>(errno)
                &&& *final(addr) == *old(addr)
                &&& *final(addrlen) == *old(addrlen)
            },
        },
{
    if addr.is_null() || addrlen.is_null() {
        return Err(Errno::BadAddress);
    }
    let socket = match socket_of(file) {
        Ok(socket) => socket,
        Err(errno) => {
            return Err(errno);
        },
    };
    let local_addr = match socket.local_addr() {
        Some(local_addr) => local_addr,
        None => {
            return Err(Errno::InvalidArgument);
        },
    };
    match addrlen.get_as_ref() {
        Ok(_) => {},
        Err(errno) => {
            return Err(errno);
        },
    }
    let written_len = match local_addr.write_to_user(addr) {
        Ok(written_len) => written_len,
        Err(errno) => {
            return Err(errno);
        },
    };
    let _ = addrlen.write(written_len);
    Ok(0)
}

} // verus!
