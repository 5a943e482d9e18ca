//! The wire form of socket addresses.

use netsys::addr::{Sockaddr, SocketAddr, SocketAddrExt, SocketAddrV4, SocketAddrV6};
use netsys::errno::Errno;
use netsys::ptr::UserPtr;

fn storage_with(prefix: &[u8], fill: u8) -> Sockaddr {
    let mut storage = [fill; 128];
    storage[..prefix.len()].copy_from_slice(prefix);
    Sockaddr { storage }
}

fn sample_v6() -> SocketAddrV6 {
    SocketAddrV6 {
        ip: [0x20, 0x01, 0x0d, 0xb8, 0, 0, 0, 0, 0, 0, 0, 0, 0, 0, 0, 1],
        port: 443,
        flowinfo: 0x0012_3456,
        scope_id: 0x0a0b_0c0d,
    }
}

const V4_WIRE: [u8; 16] = [2, 0, 0x1f, 0x90, 127, 0, 0, 1, 0, 0, 0, 0, 0, 0, 0, 0];

const V6_WIRE: [u8; 28] = [
    10, 0, 0x01, 0xbb, 0x00, 0x12, 0x34, 0x56, 0x20, 0x01, 0x0d, 0xb8, 0, 0, 0, 0, 0, 0, 0, 0, 0,
    0, 0, 1, 0x0d, 0x0c, 0x0b, 0x0a,
];

#[test]
fn v4_encodes_to_the_exact_bytes() {
    let address = SocketAddrV4 { ip: [127, 0, 0, 1], port: 8080 };
    let mut user = UserPtr::Mapped(Sockaddr { storage: [0xaa; 128] });
    assert_eq!(address.write_to_user(&mut user), Ok(16));
    assert_eq!(user, UserPtr::Mapped(storage_with(&V4_WIRE, 0xaa)));
}

#[test]
fn v6_encodes_to_the_exact_bytes() {
    let mut user = UserPtr::Mapped(Sockaddr { storage: [0x55; 128] });
    assert_eq!(sample_v6().write_to_user(&mut user), Ok(28));
    assert_eq!(user, UserPtr::Mapped(storage_with(&V6_WIRE, 0x55)));
}

#[test]
fn encoding_differs_from_the_destination_it_was_given() {
    let before = Sockaddr { storage: [0; 128] };
    let mut user = UserPtr::Mapped(before);
    assert_eq!(SocketAddr::V4(SocketAddrV4 { ip: [10, 0, 0, 7], port: 53 }).write_to_user(&mut user), Ok(16));
    assert_ne!(user, UserPtr::Mapped(before));
}

#[test]
fn v4_decodes_from_the_exact_bytes() {
    let user = UserPtr::Mapped(storage_with(&V4_WIRE, 0));
    let expected = SocketAddrV4 { ip: [127, 0, 0, 1], port: 8080 };
    assert_eq!(SocketAddrV4::read_from_user(&user, 16), Ok(expected));
    assert_eq!(SocketAddr::read_from_user(&user, 16), Ok(SocketAddr::V4(expected)));
}

#[test]
fn v6_decodes_from_the_exact_bytes() {
    let user = UserPtr::Mapped(storage_with(&V6_WIRE, 0));
    assert_eq!(SocketAddrV6::read_from_user(&user, 28), Ok(sample_v6()));
    assert_eq!(SocketAddr::read_from_user(&user, 28), Ok(SocketAddr::V6(sample_v6())));
}

#[test]
fn v4_address_bytes_keep_their_order_both_ways() {
    let address = SocketAddrV4 { ip: [1, 2, 3, 4], port: 0x0102 };
    let mut user = UserPtr::Mapped(Sockaddr { storage: [0; 128] });
    assert_eq!(address.write_to_user(&mut user), Ok(16));
    match &user {
        UserPtr::Mapped(written) => {
            assert_eq!(&written.storage[2..4], &[0x01, 0x02]);
            assert_eq!(&written.storage[4..8], &[1, 2, 3, 4]);
        }
        _ => panic!("the destination is accessible"),
    }
    let read = SocketAddrV4::read_from_user(&user, 16).unwrap();
    assert_eq!(read.port, address.port);
    assert_eq!(read.ip, address.ip);
}

#[test]
fn v6_round_trip() {
    let addresses = [
        sample_v6(),
        SocketAddrV6 { ip: [0; 16], port: 0, flowinfo: 0, scope_id: 0 },
        SocketAddrV6 { ip: [0xff; 16], port: 0xffff, flowinfo: 0xffff_ffff, scope_id: 0xffff_ffff },
        SocketAddrV6 {
            ip: [0xfe, 0x80, 0, 0, 0, 0, 0, 0, 1, 2, 3, 4, 5, 6, 7, 8],
            port: 0x8001,
            flowinfo: 0x8000_0001,
            scope_id: 2,
        },
    ];
    for address in addresses {
        for fill in [0u8, 0xff] {
            let mut user = UserPtr::Mapped(Sockaddr { storage: [fill; 128] });
            assert_eq!(address.write_to_user(&mut user), Ok(28));
            assert_eq!(SocketAddrV6::read_from_user(&user, 28), Ok(address));
            assert_eq!(SocketAddr::read_from_user(&user, 128), Ok(SocketAddr::V6(address)));
        }
    }
}

#[test]
fn v4_round_trip() {
    for (ip, port) in [([0u8, 0, 0, 0], 0u16), ([192, 168, 1, 20], 80), ([255, 255, 255, 255], 65535)] {
        let address = SocketAddrV4 { ip, port };
        let mut user = UserPtr::Mapped(Sockaddr { storage: [0x33; 128] });
        assert_eq!(SocketAddr::V4(address).write_to_user(&mut user), Ok(16));
        assert_eq!(SocketAddr::read_from_user(&user, 16), Ok(SocketAddr::V4(address)));
    }
}

#[test]
fn declared_length_below_the_family_tag_is_invalid() {
    let user = UserPtr::Mapped(storage_with(&V4_WIRE, 0));
    assert_eq!(SocketAddr::read_from_user(&user, 0), Err(Errno::InvalidArgument));
    assert_eq!(SocketAddr::read_from_user(&user, 1), Err(Errno::InvalidArgument));
}

#[test]
fn declared_length_above_the_capacity_is_invalid() {
    let user = UserPtr::Mapped(storage_with(&V4_WIRE, 0));
    assert_eq!(SocketAddr::read_from_user(&user, 129), Err(Errno::InvalidArgument));
    assert_eq!(SocketAddr::read_from_user(&user, u32::MAX), Err(Errno::InvalidArgument));
    assert_eq!(SocketAddrV4::read_from_user(&user, 129), Err(Errno::InvalidArgument));
    assert_eq!(SocketAddrV6::read_from_user(&user, 129), Err(Errno::InvalidArgument));
    assert_eq!(SocketAddr::read_from_user(&user, 128), Ok(SocketAddr::V4(SocketAddrV4 { ip: [127, 0, 0, 1], port: 8080 })));
}

#[test]
fn declared_length_below_the_structure_of_the_family_is_invalid() {
    let v4 = UserPtr::Mapped(storage_with(&V4_WIRE, 0));
    assert_eq!(SocketAddr::read_from_user(&v4, 15), Err(Errno::InvalidArgument));
    assert_eq!(SocketAddr::read_from_user(&v4, 2), Err(Errno::InvalidArgument));
    assert_eq!(SocketAddrV4::read_from_user(&v4, 15), Err(Errno::InvalidArgument));
    let v6 = UserPtr::Mapped(storage_with(&V6_WIRE, 0));
    assert_eq!(SocketAddr::read_from_user(&v6, 27), Err(Errno::InvalidArgument));
    assert_eq!(SocketAddr::read_from_user(&v6, 16), Err(Errno::InvalidArgument));
    assert_eq!(SocketAddrV6::read_from_user(&v6, 27), Err(Errno::InvalidArgument));
}

#[test]
fn other_families_are_not_supported() {
    let unix = UserPtr::Mapped(storage_with(&[1, 0], 0));
    assert_eq!(SocketAddr::read_from_user(&unix, 16), Err(Errno::AddressFamilyNotSupported));
    let unspec = UserPtr::Mapped(storage_with(&[0, 0], 0));
    assert_eq!(SocketAddr::read_from_user(&unspec, 128), Err(Errno::AddressFamilyNotSupported));
    let high_byte = UserPtr::Mapped(storage_with(&[2, 1], 0));
    assert_eq!(SocketAddr::read_from_user(&high_byte, 16), Err(Errno::AddressFamilyNotSupported));
    let v4 = UserPtr::Mapped(storage_with(&V4_WIRE, 0));
    assert_eq!(SocketAddrV6::read_from_user(&v4, 28), Err(Errno::AddressFamilyNotSupported));
    let v6 = UserPtr::Mapped(storage_with(&V6_WIRE, 0));
    assert_eq!(SocketAddrV4::read_from_user(&v6, 28), Err(Errno::AddressFamilyNotSupported));
}

#[test]
fn length_is_checked_before_the_pointer_and_the_pointer_before_the_family() {
    let null: UserPtr<Sockaddr> = UserPtr::Null;
    let unmapped: UserPtr<Sockaddr> = UserPtr::Unmapped;
    assert_eq!(SocketAddr::read_from_user(&null, 1), Err(Errno::InvalidArgument));
    assert_eq!(SocketAddr::read_from_user(&null, 16), Err(Errno::BadAddress));
    assert_eq!(SocketAddr::read_from_user(&unmapped, 16), Err(Errno::BadAddress));
    assert_eq!(SocketAddrV4::read_from_user(&unmapped, 16), Err(Errno::BadAddress));
    assert_eq!(SocketAddrV6::read_from_user(&unmapped, 28), Err(Errno::BadAddress));
    assert_eq!(SocketAddrV6::read_from_user(&unmapped, 27), Err(Errno::InvalidArgument));
}

#[test]
fn bytes_beyond_the_declared_length_are_not_looked_at() {
    let mut bytes = [0xffu8; 128];
    bytes[..16].copy_from_slice(&V4_WIRE);
    let user = UserPtr::Mapped(Sockaddr { storage: bytes });
    let expected = SocketAddr::V4(SocketAddrV4 { ip: [127, 0, 0, 1], port: 8080 });
    assert_eq!(SocketAddr::read_from_user(&user, 16), Ok(expected));
    assert_eq!(SocketAddr::read_from_user(&user, 64), Ok(expected));
}

#[test]
fn writing_through_a_null_pointer_is_invalid() {
    let mut null: UserPtr<Sockaddr> = UserPtr::Null;
    let v4 = SocketAddrV4 { ip: [127, 0, 0, 1], port: 1 };
    assert_eq!(v4.write_to_user(&mut null), Err(Errno::InvalidArgument));
    assert_eq!(sample_v6().write_to_user(&mut null), Err(Errno::InvalidArgument));
    assert_eq!(SocketAddr::V4(v4).write_to_user(&mut null), Err(Errno::InvalidArgument));
    assert_eq!(null, UserPtr::Null);
}

#[test]
fn writing_to_inaccessible_memory_is_a_bad_address() {
    let mut unmapped: UserPtr<Sockaddr> = UserPtr::Unmapped;
    assert_eq!(sample_v6().write_to_user(&mut unmapped), Err(Errno::BadAddress));
    assert_eq!(SocketAddr::V6(sample_v6()).write_to_user(&mut unmapped), Err(Errno::BadAddress));
    assert_eq!(unmapped, UserPtr::Unmapped);
}

#[test]
fn family_and_length_follow_the_variant() {
    let v4 = SocketAddrV4 { ip: [8, 8, 8, 8], port: 53 };
    let v6 = sample_v6();
    assert_eq!(v4.family(), 2);
    assert_eq!(v4.addr_len(), 16);
    assert_eq!(v6.family(), 10);
    assert_eq!(v6.addr_len(), 28);
    assert_eq!(SocketAddr::V4(v4).family(), 2);
    assert_eq!(SocketAddr::V4(v4).addr_len(), 16);
    assert_eq!(SocketAddr::V6(v6).family(), 10);
    assert_eq!(SocketAddr::V6(v6).addr_len(), 28);
}

#[test]
fn encoding_matches_the_layout_of_the_headers() {
    let native = linux_raw_sys::net::sockaddr_in {
        sin_family: linux_raw_sys::net::AF_INET as u16,
        sin_port: 8080u16.to_be(),
        sin_addr: linux_raw_sys::net::in_addr { s_addr: u32::from_ne_bytes([127, 0, 0, 1]) },
        __pad: [0; 8],
    };
    let mut expected = [0u8; 16];
    expected[0..2].copy_from_slice(&native.sin_family.to_ne_bytes());
    expected[2..4].copy_from_slice(&native.sin_port.to_ne_bytes());
    expected[4..8].copy_from_slice(&native.sin_addr.s_addr.to_ne_bytes());
    assert_eq!(expected, V4_WIRE);
    let native6 = linux_raw_sys::net::sockaddr_in6 {
        sin6_family: linux_raw_sys::net::AF_INET6 as u16,
        sin6_port: 443u16.to_be(),
        sin6_flowinfo: 0x0012_3456u32.to_be(),
        sin6_addr: linux_raw_sys::net::in6_addr {
            in6_u: linux_raw_sys::net::in6_addr__bindgen_ty_1 { u6_addr8: sample_v6().ip },
        },
        sin6_scope_id: 0x0a0b_0c0d,
    };
    let mut expected6 = [0u8; 28];
    expected6[0..2].copy_from_slice(&native6.sin6_family.to_ne_bytes());
    expected6[2..4].copy_from_slice(&native6.sin6_port.to_ne_bytes());
    expected6[4..8].copy_from_slice(&native6.sin6_flowinfo.to_ne_bytes());
    expected6[8..24].copy_from_slice(&sample_v6().ip);
    expected6[24..28].copy_from_slice(&native6.sin6_scope_id.to_ne_bytes());
    assert_eq!(expected6, V6_WIRE);
}

#[test]
fn round_trip_of_many_addresses() {
    let mut seed: u64 = 0x2545_f491_4f6c_dd1d;
    let mut next = move || {
        seed ^= seed << 13;
        seed ^= seed >> 7;
        seed ^= seed << 17;
        seed
    };
    for round in 0..500 {
        let mut ip = [0u8; 16];
        for byte in ip.iter_mut() {
            *byte = next() as u8;
        }
        let v6 = SocketAddrV6 { ip, port: next() as u16, flowinfo: next() as u32, scope_id: next() as u32 };
        let v4 = SocketAddrV4 { ip: [ip[0], ip[1], ip[2], ip[3]], port: next() as u16 };
        let mut user = UserPtr::Mapped(Sockaddr { storage: [next() as u8; 128] });
        assert_eq!(v6.write_to_user(&mut user), Ok(28));
        let declared = 28 + (round % 101) as u32;
        assert_eq!(SocketAddrV6::read_from_user(&user, declared), Ok(v6));
        assert_eq!(SocketAddr::read_from_user(&user, declared), Ok(SocketAddr::V6(v6)));
        assert_eq!(v4.write_to_user(&mut user), Ok(16));
        assert_eq!(SocketAddr::read_from_user(&user, 16 + (round % 113) as u32), Ok(SocketAddr::V4(v4)));
        let again = SocketAddrV4::read_from_user(&user, 16).unwrap();
        assert_eq!(again.port, v4.port);
    }
}

#[test]
fn a_structure_of_zeros() {
    assert_eq!(Sockaddr::zeroed(), Sockaddr { storage: [0; 128] });
    let user = UserPtr::Mapped(Sockaddr::zeroed());
    assert_eq!(SocketAddr::read_from_user(&user, 16), Err(Errno::AddressFamilyNotSupported));
}
