//! The socket calls.

use netsys::abi::{AF_INET, AF_INET6, SOCK_DGRAM, SOCK_STREAM};
use netsys::addr::{Sockaddr, SocketAddr, SocketAddrExt, SocketAddrV4, SocketAddrV6};
use netsys::errno::Errno;
use netsys::file::{FileLike, Socket, TcpState, UdpState};
use netsys::ptr::UserPtr;
use netsys::socket::{
    recvfrom_finish, sys_bind, sys_connect, sys_getsockname, sys_recvfrom, sys_sendto, sys_socket, sys_socketpair,
    SendOp, SocketKind,
};

fn tcp_at(local_addr: Option<SocketAddr>) -> Option<FileLike> {
    Some(FileLike::Socket(Socket::Tcp(TcpState {
        nagle_enabled: true,
        send_capacity: 1,
        recv_capacity: 2,
        remote_mss: 3,
        local_addr,
    })))
}

fn udp_at(local_addr: Option<SocketAddr>) -> Option<FileLike> {
    Some(FileLike::Socket(Socket::Udp(UdpState { send_capacity: 1, recv_capacity: 2, local_addr })))
}

fn wire_of(address: SocketAddr, fill: u8) -> Sockaddr {
    let mut user = UserPtr::Mapped(Sockaddr { storage: [fill; 128] });
    address.write_to_user(&mut user).unwrap();
    match user {
        UserPtr::Mapped(wire) => wire,
        _ => unreachable!(),
    }
}

fn v4(ip: [u8; 4], port: u16) -> SocketAddr {
    SocketAddr::V4(SocketAddrV4 { ip, port })
}

fn v6(port: u16) -> SocketAddr {
    SocketAddr::V6(SocketAddrV6 { ip: [0, 0, 0, 0, 0, 0, 0, 0, 0, 0, 0, 0, 0, 0, 0, 1], port, flowinfo: 7, scope_id: 9 })
}

#[test]
fn socket_kinds() {
    for domain in [AF_INET, AF_INET6] {
        for protocol in [0, 6, 17, u32::MAX] {
            assert_eq!(sys_socket(domain, SOCK_STREAM, protocol), Ok(SocketKind::Tcp));
            assert_eq!(sys_socket(domain, SOCK_DGRAM, protocol), Ok(SocketKind::Udp));
        }
    }
}

#[test]
fn socket_rejects_other_families_first() {
    for domain in [0, 1, 3, 9, 11, u32::MAX] {
        assert_eq!(sys_socket(domain, SOCK_STREAM, 0), Err(Errno::AddressFamilyNotSupported));
        assert_eq!(sys_socket(domain, 77, 0), Err(Errno::AddressFamilyNotSupported));
        assert_eq!(sys_socketpair(domain, SOCK_DGRAM, 0), Err(Errno::AddressFamilyNotSupported));
    }
}

#[test]
fn socket_rejects_other_types() {
    for socket_type in [0, 3, 5, SOCK_STREAM | 0x800, u32::MAX] {
        assert_eq!(sys_socket(AF_INET, socket_type, 0), Err(Errno::ProtocolNotSupported));
        assert_eq!(sys_socketpair(AF_INET6, socket_type, 0), Err(Errno::ProtocolNotSupported));
    }
}

#[test]
fn socketpair_makes_two_of_a_kind() {
    assert_eq!(sys_socketpair(AF_INET, SOCK_STREAM, 0), Ok((SocketKind::Tcp, SocketKind::Tcp)));
    assert_eq!(sys_socketpair(AF_INET6, SOCK_DGRAM, 0), Ok((SocketKind::Udp, SocketKind::Udp)));
}

#[test]
fn bind_and_connect_decode_the_address() {
    let target = v4([10, 1, 2, 3], 8000);
    let addr = UserPtr::Mapped(wire_of(target, 0));
    assert_eq!(sys_bind(tcp_at(None), &addr, 16), Ok(target));
    assert_eq!(sys_connect(udp_at(None), &addr, 16), Ok(target));
    let target6 = v6(9000);
    let addr6 = UserPtr::Mapped(wire_of(target6, 0xff));
    assert_eq!(sys_bind(udp_at(None), &addr6, 28), Ok(target6));
    assert_eq!(sys_connect(tcp_at(None), &addr6, 128), Ok(target6));
}

#[test]
fn bind_and_connect_check_the_descriptor_before_the_address() {
    let bad = UserPtr::Mapped(Sockaddr { storage: [0xff; 128] });
    for (file, errno) in [(None, Errno::BadFileDescriptor), (Some(FileLike::File), Errno::NotSocket), (Some(FileLike::Pipe), Errno::NotSocket)] {
        assert_eq!(sys_bind(file, &bad, 0), Err(errno));
        assert_eq!(sys_connect(file, &UserPtr::Unmapped, 16), Err(errno));
    }
}

#[test]
fn bind_and_connect_pass_on_the_errors_of_the_address() {
    let unix = UserPtr::Mapped(Sockaddr { storage: [1; 128] });
    assert_eq!(sys_bind(tcp_at(None), &unix, 16), Err(Errno::AddressFamilyNotSupported));
    assert_eq!(sys_connect(tcp_at(None), &unix, 1), Err(Errno::InvalidArgument));
    assert_eq!(sys_bind(tcp_at(None), &unix, 129), Err(Errno::InvalidArgument));
    assert_eq!(sys_connect(tcp_at(None), &UserPtr::Null, 16), Err(Errno::BadAddress));
    let short = UserPtr::Mapped(wire_of(v6(1), 0));
    assert_eq!(sys_bind(tcp_at(None), &short, 16), Err(Errno::InvalidArgument));
}

#[test]
fn sendto_with_and_without_an_address() {
    let buf = UserPtr::Mapped(vec![1u8, 2, 3, 4]);
    let target = v4([192, 168, 0, 1], 53);
    let addr = UserPtr::Mapped(wire_of(target, 0));
    assert_eq!(sys_sendto(udp_at(None), &buf, 4, 0, &addr, 16), Ok(SendOp::SendTo(target)));
    assert_eq!(sys_sendto(udp_at(None), &buf, 0, 0xffff, &addr, 16), Ok(SendOp::SendTo(target)));
    assert_eq!(sys_sendto(udp_at(None), &buf, 4, 0, &addr, 0), Ok(SendOp::Send));
    assert_eq!(sys_sendto(tcp_at(None), &buf, 4, 0, &UserPtr::Null, 16), Ok(SendOp::Send));
    assert_eq!(sys_sendto(tcp_at(None), &buf, 4, 0, &UserPtr::Null, 0), Ok(SendOp::Send));
}

#[test]
fn sendto_checks_descriptor_then_buffer_then_address() {
    let buf = UserPtr::Mapped(vec![1u8, 2, 3, 4]);
    let bad_addr = UserPtr::Mapped(Sockaddr { storage: [0xff; 128] });
    assert_eq!(sys_sendto(None, &UserPtr::Unmapped, 4, 0, &bad_addr, 16), Err(Errno::BadFileDescriptor));
    assert_eq!(sys_sendto(Some(FileLike::File), &UserPtr::Unmapped, 4, 0, &bad_addr, 16), Err(Errno::NotSocket));
    assert_eq!(sys_sendto(udp_at(None), &UserPtr::Unmapped, 4, 0, &bad_addr, 16), Err(Errno::BadAddress));
    assert_eq!(sys_sendto(udp_at(None), &UserPtr::Null, 0, 0, &bad_addr, 16), Err(Errno::BadAddress));
    assert_eq!(sys_sendto(udp_at(None), &buf, 5, 0, &bad_addr, 16), Err(Errno::BadAddress));
    assert_eq!(sys_sendto(udp_at(None), &buf, 4, 0, &bad_addr, 16), Err(Errno::AddressFamilyNotSupported));
    assert_eq!(sys_sendto(udp_at(None), &buf, 4, 0, &bad_addr, 1), Err(Errno::InvalidArgument));
    assert_eq!(sys_sendto(udp_at(None), &buf, 4, 0, &UserPtr::Unmapped, 16), Err(Errno::BadAddress));
}

#[test]
fn recvfrom_checks_descriptor_then_buffer() {
    let buf = UserPtr::Mapped(vec![0u8; 8]);
    assert_eq!(sys_recvfrom(udp_at(None), &buf, 8, 0), Ok(()));
    assert_eq!(sys_recvfrom(tcp_at(None), &buf, 0, 0x40), Ok(()));
    assert_eq!(sys_recvfrom(tcp_at(None), &buf, 9, 0), Err(Errno::BadAddress));
    assert_eq!(sys_recvfrom(tcp_at(None), &UserPtr::Null, 8, 0), Err(Errno::BadAddress));
    assert_eq!(sys_recvfrom(None, &UserPtr::Unmapped, 8, 0), Err(Errno::BadFileDescriptor));
    assert_eq!(sys_recvfrom(Some(FileLike::Pipe), &UserPtr::Unmapped, 8, 0), Err(Errno::NotSocket));
}

#[test]
fn recvfrom_reports_the_source() {
    let source = v4([172, 16, 0, 9], 4242);
    let mut addr = UserPtr::Mapped(Sockaddr { storage: [0x11; 128] });
    let mut addr_len = UserPtr::Mapped(128);
    assert_eq!(recvfrom_finish(100, Some(source), &mut addr, &mut addr_len), Ok(100));
    assert_eq!(addr, UserPtr::Mapped(wire_of(source, 0x11)));
    assert_eq!(addr_len, UserPtr::Mapped(16));
    let source6 = v6(4242);
    let mut addr_len = UserPtr::Mapped(28);
    assert_eq!(recvfrom_finish(0, Some(source6), &mut addr, &mut addr_len), Ok(0));
    assert_eq!(SocketAddr::read_from_user(&addr, 28), Ok(source6));
    assert_eq!(addr_len, UserPtr::Mapped(28));
}

#[test]
fn recvfrom_leaves_a_structure_that_is_too_short() {
    let before = Sockaddr { storage: [0x11; 128] };
    let mut addr = UserPtr::Mapped(before);
    let mut addr_len = UserPtr::Mapped(15);
    assert_eq!(recvfrom_finish(7, Some(v4([1, 1, 1, 1], 1)), &mut addr, &mut addr_len), Ok(7));
    assert_eq!((addr.clone(), addr_len), (UserPtr::Mapped(before), UserPtr::Mapped(15)));
    let mut addr_len = UserPtr::Mapped(27);
    assert_eq!(recvfrom_finish(7, Some(v6(1)), &mut addr, &mut addr_len), Ok(7));
    assert_eq!((addr, addr_len), (UserPtr::Mapped(before), UserPtr::Mapped(27)));
}

#[test]
fn recvfrom_without_a_source_or_without_pointers() {
    let before = Sockaddr { storage: [0x11; 128] };
    let mut addr = UserPtr::Mapped(before);
    let mut addr_len = UserPtr::Mapped(128);
    assert_eq!(recvfrom_finish(3, None, &mut addr, &mut addr_len), Ok(3));
    assert_eq!((addr.clone(), addr_len.clone()), (UserPtr::Mapped(before), UserPtr::Mapped(128)));
    let mut null_len = UserPtr::Null;
    assert_eq!(recvfrom_finish(3, Some(v6(1)), &mut addr, &mut null_len), Ok(3));
    assert_eq!((addr, null_len), (UserPtr::Mapped(before), UserPtr::Null));
    let mut null_addr = UserPtr::Null;
    assert_eq!(recvfrom_finish(3, Some(v6(1)), &mut null_addr, &mut addr_len), Ok(3));
    assert_eq!((null_addr, addr_len), (UserPtr::Null, UserPtr::Mapped(128)));
    let mut unmapped_len = UserPtr::Unmapped;
    assert_eq!(recvfrom_finish(3, None, &mut UserPtr::Unmapped, &mut unmapped_len), Ok(3));
}

#[test]
fn recvfrom_with_inaccessible_pointers() {
    let before = Sockaddr { storage: [0x11; 128] };
    let mut addr = UserPtr::Mapped(before);
    let mut addr_len = UserPtr::Unmapped;
    assert_eq!(recvfrom_finish(3, Some(v6(1)), &mut addr, &mut addr_len), Err(Errno::BadAddress));
    assert_eq!((addr, addr_len), (UserPtr::Mapped(before), UserPtr::Unmapped));
    let mut addr = UserPtr::Unmapped;
    let mut addr_len = UserPtr::Mapped(128);
    assert_eq!(recvfrom_finish(3, Some(v6(1)), &mut addr, &mut addr_len), Ok(3));
    assert_eq!((addr, addr_len), (UserPtr::Unmapped, UserPtr::Mapped(128)));
}

#[test]
fn getsockname_reports_the_local_address() {
    let local = v4([0, 0, 0, 0], 49152);
    let mut addr = UserPtr::Mapped(Sockaddr { storage: [0x22; 128] });
    let mut addrlen = UserPtr::Mapped(0);
    assert_eq!(sys_getsockname(tcp_at(Some(local)), &mut addr, &mut addrlen), Ok(0));
    assert_eq!(addr, UserPtr::Mapped(wire_of(local, 0x22)));
    assert_eq!(addrlen, UserPtr::Mapped(16));
    let local6 = v6(80);
    assert_eq!(sys_getsockname(udp_at(Some(local6)), &mut addr, &mut addrlen), Ok(0));
    assert_eq!(SocketAddr::read_from_user(&addr, 28), Ok(local6));
    assert_eq!(addrlen, UserPtr::Mapped(28));
}

#[test]
fn getsockname_checks_null_then_descriptor_then_address_then_memory() {
    let local = v4([127, 0, 0, 1], 1);
    let before = Sockaddr { storage: [0x22; 128] };
    let run = |file, addr: UserPtr<Sockaddr>, addrlen: UserPtr<u32>| {
        let (mut a, mut l) = (addr.clone(), addrlen.clone());
        let r = sys_getsockname(file, &mut a, &mut l);
        assert_eq!((a, l), (addr, addrlen));
        r
    };
    let mapped = || UserPtr::Mapped(before);
    assert_eq!(run(None, UserPtr::Null, UserPtr::Mapped(0)), Err(Errno::BadAddress));
    assert_eq!(run(None, mapped(), UserPtr::Null), Err(Errno::BadAddress));
    assert_eq!(run(None, mapped(), UserPtr::Unmapped), Err(Errno::BadFileDescriptor));
    assert_eq!(run(Some(FileLike::File), UserPtr::Unmapped, UserPtr::Mapped(0)), Err(Errno::NotSocket));
    assert_eq!(run(tcp_at(None), UserPtr::Unmapped, UserPtr::Unmapped), Err(Errno::InvalidArgument));
    assert_eq!(run(udp_at(None), mapped(), UserPtr::Mapped(0)), Err(Errno::InvalidArgument));
    assert_eq!(run(tcp_at(Some(local)), mapped(), UserPtr::Unmapped), Err(Errno::BadAddress));
    assert_eq!(run(tcp_at(Some(local)), UserPtr::Unmapped, UserPtr::Mapped(0)), Err(Errno::BadAddress));
}

#[test]
fn socket_bind_getsockname() {
    let kind = sys_socket(AF_INET, SOCK_STREAM, 0).unwrap();
    assert_eq!(kind, SocketKind::Tcp);
    let mut socket = TcpState { nagle_enabled: true, send_capacity: 65_536, recv_capacity: 65_536, remote_mss: 0, local_addr: None };
    let wildcard = UserPtr::Mapped(wire_of(v4([0, 0, 0, 0], 0), 0));
    let requested = sys_bind(Some(FileLike::Socket(Socket::Tcp(socket))), &wildcard, 16).unwrap();
    assert_eq!(requested, v4([0, 0, 0, 0], 0));
    // The transport picks the port; this one stands for its choice.
    socket.local_addr = Some(v4([0, 0, 0, 0], 49_152));
    let mut addr = UserPtr::Mapped(Sockaddr { storage: [0; 128] });
    let mut addrlen = UserPtr::Mapped(128);
    assert_eq!(sys_getsockname(Some(FileLike::Socket(Socket::Tcp(socket))), &mut addr, &mut addrlen), Ok(0));
    assert_eq!(addrlen, UserPtr::Mapped(16));
    let reported = match SocketAddr::read_from_user(&addr, 16).unwrap() {
        SocketAddr::V4(reported) => reported,
        SocketAddr::V6(_) => panic!("the socket is bound to an IPv4 address"),
    };
    assert_eq!(reported.family() as u32, AF_INET);
    assert_ne!(reported.port, 0);
    assert_eq!(reported, SocketAddrV4 { ip: [0, 0, 0, 0], port: 49_152 });
    match addr {
        UserPtr::Mapped(wire) => assert_eq!(&wire.storage[..4], &[2, 0, 0xc0, 0x00]),
        _ => panic!("the structure is accessible"),
    }
}
