//! What the descriptor registry holds under a descriptor, as far as the
//! socket calls look at it.

use vstd::prelude::*;
use crate::addr::SocketAddr;
use crate::errno::Errno;

verus! {

/// The state of a TCP socket that the socket calls read or change.
#[derive(Clone, Copy, Debug, PartialEq, Eq)]
pub struct TcpState {
    /// Whether Nagle's algorithm coalesces small segments before sending.
    pub nagle_enabled: bool,
    /// Capacity of the send buffer in bytes.
    pub send_capacity: usize,
    /// Capacity of the receive buffer in bytes.
    pub recv_capacity: usize,
    /// Maximum segment size that the remote end announced.
    pub remote_mss: usize,
    /// The address the socket is bound to, where the transport can tell.
    pub local_addr: Option<SocketAddr>,
}

/// The state of a UDP socket that the socket calls read.
#[derive(Clone, Copy, Debug, PartialEq, Eq)]
pub struct UdpState {
    /// Capacity of the send buffer in bytes.
    pub send_capacity: usize,
    /// Capacity of the receive buffer in bytes.
    pub recv_capacity: usize,
    /// The address the socket is bound to, where the transport can tell.
    pub local_addr: Option<SocketAddr>,
}

/// A transport socket of one of the two supported kinds.
#[derive(Clone, Copy, Debug, PartialEq, Eq)]
pub enum Socket {
    /// A TCP socket.
    Tcp(TcpState),
    /// A UDP socket.
    Udp(UdpState),
}

/// An open descriptor, by the kind of object behind it.
#[derive(Clone, Copy, Debug, PartialEq, Eq)]
pub enum FileLike {
    /// A socket.
    Socket(Socket),
    /// A regular file or a directory.
    File,
    /// One end of a pipe.
    Pipe,
}

impl Socket {
    /// Capacity of the send buffer in bytes.
    pub open spec fn spec_send_capacity(self) -> usize {
        match self {
            Socket::Tcp(tcp) => tcp.send_capacity,
            Socket::Udp(udp) => udp.send_capacity,
        }
    }

    /// Capacity of the receive buffer in bytes.
    pub open spec fn spec_recv_capacity(self) -> usize {
        match self {
            Socket::Tcp(tcp) => tcp.recv_capacity,
            Socket::Udp(udp) => udp.recv_capacity,
        }
    }

    /// The address the socket is bound to, where the transport can tell.
    pub open spec fn spec_local_addr(self) -> Option<SocketAddr> {
        match self {
            Socket::Tcp(tcp) => tcp.local_addr,
            Socket::Udp(udp) => udp.local_addr,
        }
    }

    /// Capacity of the send buffer in bytes.
    #[verifier::when_used_as_spec(spec_send_capacity)]
    pub fn send_capacity(self) -> (capacity: usize)
        ensures
            capacity == self.spec_send_capacity(),
    {
        match self {
            Socket::Tcp(tcp) => tcp.send_capacity,
            Socket::Udp(udp) => udp.send_capacity,
        }
    }

    /// Capacity of the receive buffer in bytes.
    #[verifier::when_used_as_spec(spec_recv_capacity)]
    pub fn recv_capacity(self) -> (capacity: usize)
        ensures
            capacity == self.spec_recv_capacity(),
    {
        match self {
            Socket::Tcp(tcp) => tcp.recv_capacity,
            Socket::Udp(udp) => udp.recv_capacity,
        }
    }

    /// The address the socket is bound to, where the transport can tell.
    #[verifier::when_used_as_spec(spec_local_addr)]
    pub fn local_addr(self) -> (addr: Option<SocketAddr>)
        ensures
            addr == self.spec_local_addr(),
    {
        match self {
            Socket::Tcp(tcp) => tcp.local_addr,
            Socket::Udp(udp) => udp.local_addr,
        }
    }
}

/// The socket behind the result of a descriptor lookup: `BadFileDescriptor`
/// where the lookup found nothing, `NotSocket` where it found another kind of
/// object.
pub open spec fn spec_socket_of(file: Option<FileLike>) -> Result<Socket, Errno> {
    match file {
        None => Err(Errno::BadFileDescriptor),
        Some(FileLike::Socket(socket)) => Ok(socket),
        Some(_) => Err(Errno::NotSocket),
    }
}

/// The socket behind the result of a descriptor lookup.
#[verifier::when_used_as_spec(spec_socket_of)]
pub fn socket_of(file: Option<FileLike>) -> (r: Result<Socket, Errno>)
    ensures
        r == spec_socket_of(file),
{
    match file {
        None => Err(Errno::BadFileDescriptor),
        Some(FileLike::Socket(socket)) => Ok(socket),
        Some(_) => Err(Errno::NotSocket),
    }
}

} // verus!
