//! Socket addresses and their wire form.
//!
//! A socket address travels between the kernel and its callers as a tagged
//! structure of fixed capacity. Its first two bytes hold the address family in
//! host byte order, which is little-endian on every target of this kernel. The
//! port and the IPv6 flow label are big-endian, the address bytes stand in the
//! order in which they are written, and the IPv6 scope identifier is in host
//! byte order.

use vstd::prelude::*;
use crate::abi::{AF_INET, AF_INET6};
use crate::errno::Errno;
use crate::ptr::UserPtr;

verus! {

/// Capacity in bytes of the wire structure that holds any socket address.
pub const SOCKADDR_SIZE: usize = 128;

/// Size in bytes of the family tag that starts every wire structure.
pub const FAMILY_SIZE: u32 = 2;

/// Size in bytes of the wire form of an IPv4 socket address.
pub const SOCKADDR_IN_SIZE: u32 = 16;

/// Size in bytes of the wire form of an IPv6 socket address.
pub const SOCKADDR_IN6_SIZE: u32 = 28;

/// The wire structure of a socket address, as it lies in the caller's memory.
#[derive(Clone, Copy, Debug, PartialEq, Eq)]
pub struct Sockaddr {
    /// The bytes of the structure, the family tag first.
    pub storage: [u8; 128],
}

/// An IPv4 socket address.
#[derive(Clone, Copy, Debug, PartialEq, Eq)]
pub struct SocketAddrV4 {
    /// The four bytes of the address, the most significant first.
    pub ip: [u8; 4],
    /// The port, as a number.
    pub port: u16,
}

/// An IPv6 socket address.
#[derive(Clone, Copy, Debug, PartialEq, Eq)]
pub struct SocketAddrV6 {
    /// The sixteen bytes of the address, the most significant first.
    pub ip: [u8; 16],
    /// The port, as a number.
    pub port: u16,
    /// The flow label, as a number.
    pub flowinfo: u32,
    /// The scope identifier, as a number.
    pub scope_id: u32,
}

/// A socket address of either family.
#[derive(Clone, Copy, Debug, PartialEq, Eq)]
pub enum SocketAddr {
    /// An IPv4 socket address.
    V4(SocketAddrV4),
    /// An IPv6 socket address.
    V6(SocketAddrV6),
}

/// The 16-bit number whose little-endian bytes are `b0`, `b1`.
pub open spec fn le16(b0: u8, b1: u8) -> u16 {
    (b0 as int + 256 * b1 as int) as u16
}

/// The 16-bit number whose big-endian bytes are `b0`, `b1`.
pub open spec fn be16(b0: u8, b1: u8) -> u16 {
    (256 * b0 as int + b1 as int) as u16
}

/// The 32-bit number whose little-endian bytes are `b0` to `b3`.
pub open spec fn le32(b0: u8, b1: u8, b2: u8, b3: u8) -> u32 {
    (b0 as int + 256 * b1 as int + 65536 * b2 as int + 16777216 * b3 as int) as u32
}

/// The 32-bit number whose big-endian bytes are `b0` to `b3`.
pub open spec fn be32(b0: u8, b1: u8, b2: u8, b3: u8) -> u32 {
    (16777216 * b0 as int + 65536 * b1 as int + 256 * b2 as int + b3 as int) as u32
}

/// Byte `k` of `value`, counted from the least significant byte.
pub open spec fn byte_of(value: int, k: int) -> u8 {
    if k == 0 {
        (value % 256) as u8
    } else if k == 1 {
        (value / 256 % 256) as u8
    } else if k == 2 {
        (value / 65536 % 256) as u8
    } else {
        (value / 16777216 % 256) as u8
    }
}

/// The first `len` bytes of `storage`, followed by zeros up to the capacity of
/// the wire structure: what the kernel looks at once it has copied `len` bytes
/// of the caller's structure into a buffer of its own.
pub open spec fn staged(storage: Seq<u8>, len: int) -> Seq<u8> {
    Seq::new(
        SOCKADDR_SIZE as nat,
        |i: int|
            if i < len {
                storage[i]
            } else {
                0u8
            },
    )
}

/// `wire` laid over the start of `storage`; what follows it stays.
pub open spec fn overlaid(wire: Seq<u8>, storage: Seq<u8>) -> Seq<u8> {
    wire + storage.subrange(wire.len() as int, storage.len() as int)
}

/// The family tag of a wire structure.
pub open spec fn family_of(bytes: Seq<u8>) -> u16 {
    le16(bytes[0], bytes[1])
}

/// The IPv4 socket address that the fields of a wire structure hold.
pub open spec fn parse_v4(bytes: Seq<u8>) -> SocketAddrV4 {
    SocketAddrV4 { ip: [bytes[4], bytes[5], bytes[6], bytes[7]], port: be16(bytes[2], bytes[3]) }
}

/// The IPv6 socket address that the fields of a wire structure hold.
pub open spec fn parse_v6(bytes: Seq<u8>) -> SocketAddrV6 {
    SocketAddrV6 {
        ip: [
            bytes[8],
            bytes[9],
            bytes[10],
            bytes[11],
            bytes[12],
            bytes[13],
            bytes[14],
            bytes[15],
            bytes[16],
            bytes[17],
            bytes[18],
            bytes[19],
            bytes[20],
            bytes[21],
            bytes[22],
            bytes[23],
        ],
        port: be16(bytes[2], bytes[3]),
        flowinfo: be32(bytes[4], bytes[5], bytes[6], bytes[7]),
        scope_id: le32(bytes[24], bytes[25], bytes[26], bytes[27]),
    }
}

impl SocketAddrV4 {
    /// The sixteen bytes of the wire form: family tag, port, address, and
    /// eight bytes of zero padding.
    pub open spec fn spec_wire(self) -> Seq<u8> {
        seq![
            byte_of(AF_INET as int, 0),
            byte_of(AF_INET as int, 1),
            byte_of(self.port as int, 1),
            byte_of(self.port as int, 0),
            self.ip[0],
            self.ip[1],
            self.ip[2],
            self.ip[3],
            0u8,
            0u8,
            0u8,
            0u8,
            0u8,
            0u8,
            0u8,
            0u8,
        ]
    }
}

impl SocketAddrV6 {
    /// The twenty-eight bytes of the wire form: family tag, port, flow label,
    /// address and scope identifier.
    pub open spec fn spec_wire(self) -> Seq<u8> {
        seq![
            byte_of(AF_INET6 as int, 0),
            byte_of(AF_INET6 as int, 1),
            byte_of(self.port as int, 1),
            byte_of(self.port as int, 0),
            byte_of(self.flowinfo as int, 3),
            byte_of(self.flowinfo as int, 2),
            byte_of(self.flowinfo as int, 1),
            byte_of(self.flowinfo as int, 0),
            self.ip[0],
            self.ip[1],
            self.ip[2],
            self.ip[3],
            self.ip[4],
            self.ip[5],
            self.ip[6],
            self.ip[7],
            self.ip[8],
            self.ip[9],
            self.ip[10],
            self.ip[11],
            self.ip[12],
            self.ip[13],
            self.ip[14],
            self.ip[15],
            byte_of(self.scope_id as int, 0),
            byte_of(self.scope_id as int, 1),
            byte_of(self.scope_id as int, 2),
            byte_of(self.scope_id as int, 3),
        ]
    }
}

/// Reading and writing a socket address in the caller's memory.
pub trait SocketAddrExt: Sized {
    /// The wire form of this address.
    spec fn wire(&self) -> Seq<u8>;

    /// What `read_from_user` returns for a pointer and a declared length.
    spec fn spec_read(addr: UserPtr<Sockaddr>, addrlen: u32) -> Result<Self, Errno>;

    /// The address family of this address.
    spec fn spec_family(&self) -> u16;

    /// Decodes the address that the caller declared to be `addrlen` bytes long.
    ///
    /// Only the first `addrlen` bytes of the caller's structure are looked at.
    fn read_from_user(addr: &UserPtr<Sockaddr>, addrlen: u32) -> (r: Result<Self, Errno>)
        ensures
            r == Self::spec_read(*addr, addrlen),
    ;

    /// Encodes this address over the start of the caller's structure and
    /// returns the number of bytes of the wire form.
    ///
    /// A null pointer is an invalid argument and a pointer to inaccessible
    /// memory a bad address; neither changes anything.
    fn write_to_user(&self, addr: &mut UserPtr<Sockaddr>) -> (r: Result<u32, Errno>)
        ensures
            *old(addr) is Null ==> r == Err::<u32, Errno>(Errno::InvalidArgument) && *final(addr)
                == *old(addr),
            *old(addr) is Unmapped ==> r == Err::<u32, Errno>(Errno::BadAddress) && *final(addr)
                == *old(addr),
            *old(addr) is Mapped ==> r == Ok::<u32, Errno>(self.wire().len() as u32),
            *old(addr) is Mapped ==> *final(addr) is Mapped,
            *old(addr) is Mapped ==> final(addr)->Mapped_0.storage@ == overlaid(
                self.wire(),
                old(addr)->Mapped_0.storage@,
            ),
    ;

    /// The address family of this address.
    fn family(&self) -> (family: u16)
        ensures
            family == self.spec_family(),
            family == family_of(self.wire()),
    ;

    /// The number of bytes of the wire form of this address.
    fn addr_len(&self) -> (len: u32)
        ensures
            len == self.wire().len(),
    ;
}

impl Sockaddr {
    /// A structure of zeros.
    pub fn zeroed() -> (buffer: Sockaddr)
        ensures
            forall|k: int| 0 <= k < SOCKADDR_SIZE ==> buffer.storage@[k] == 0,
    {
        // Every byte is written once, so that its value is known to the proof.
        let mut storage = [0u8; 128];
        let mut i: usize = 0;
        while i < SOCKADDR_SIZE
            invariant
                i <= SOCKADDR_SIZE,
                forall|k: int| 0 <= k < i ==> storage@[k] == 0,
            decreases SOCKADDR_SIZE - i,
        {
            storage[i] = 0;
            i += 1;
        }
        Sockaddr { storage }
    }
}

/// Copies the first `len` bytes of the caller's structure into a staging
/// buffer that is zero everywhere else.
fn stage(source: &Sockaddr, len: u32) -> (buffer: Sockaddr)
    requires
        len <= SOCKADDR_SIZE,
    ensures
        buffer.storage@ == staged(source.storage@, len as int),
{
    let mut buffer = Sockaddr::zeroed();
    let mut i: usize = 0;
    while i < len as usize
        invariant
            i <= len <= SOCKADDR_SIZE,
            forall|k: int| 0 <= k < i ==> buffer.storage@[k] == source.storage@[k],
            forall|k: int| i <= k < SOCKADDR_SIZE ==> buffer.storage@[k] == 0,
        decreases len - i,
    {
        buffer.storage[i] = source.storage[i];
        i += 1;
    }
    buffer
}

/// The family tag at the start of a staged structure.
fn read_family(buffer: &Sockaddr) -> (family: u16)
    ensures
        family == family_of(buffer.storage@),
{
    buffer.storage[0] as u16 + 256 * (buffer.storage[1] as u16)
}

/// The big-endian 16-bit number at `offset`.
fn read_be16(buffer: &Sockaddr, offset: usize) -> (value: u16)
    requires
        offset + 2 <= SOCKADDR_SIZE,
    ensures
        value == be16(buffer.storage@[offset as int], buffer.storage@[offset + 1]),
{
    256 * (buffer.storage[offset] as u16) + buffer.storage[offset + 1] as u16
}

/// The big-endian 32-bit number at `offset`.
fn read_be32(buffer: &Sockaddr, offset: usize) -> (value: u32)
    requires
        offset + 4 <= SOCKADDR_SIZE,
    ensures
        value == be32(
            buffer.storage@[offset as int],
            buffer.storage@[offset + 1],
            buffer.storage@[offset + 2],
            buffer.storage@[offset + 3],
        ),
{
    16777216 * (buffer.storage[offset] as u32) + 65536 * (buffer.storage[offset + 1] as u32) + 256
        * (buffer.storage[offset + 2] as u32) + buffer.storage[offset + 3] as u32
}

/// The little-endian 32-bit number at `offset`.
fn read_le32(buffer: &Sockaddr, offset: usize) -> (value: u32)
    requires
        offset + 4 <= SOCKADDR_SIZE,
    ensures
        value == le32(
            buffer.storage@[offset as int],
            buffer.storage@[offset + 1],
            buffer.storage@[offset + 2],
            buffer.storage@[offset + 3],
        ),
{
    buffer.storage[offset] as u32 + 256 * (buffer.storage[offset + 1] as u32) + 65536 * (
    buffer.storage[offset + 2] as u32) + 16777216 * (buffer.storage[offset + 3] as u32)
}

/// Byte `k` of a 32-bit number, counted from the least significant byte.
fn byte(value: u32, k: usize) -> (b: u8)
    requires
        k < 4,
    ensures
        b == byte_of(value as int, k as int),
{
    if k == 0 {
        (value % 256) as u8
    } else if k == 1 {
        (value / 256 % 256) as u8
    } else if k == 2 {
        (value / 65536 % 256) as u8
    } else {
        (value / 16777216 % 256) as u8
    }
}

impl SocketAddrExt for SocketAddrV4 {
    open spec fn wire(&self) -> Seq<u8> {
        self.spec_wire()
    }

    open spec fn spec_read(addr: UserPtr<Sockaddr>, addrlen: u32) -> Result<Self, Errno> {
        if addrlen < SOCKADDR_IN_SIZE || addrlen > SOCKADDR_SIZE {
            Err(Errno::InvalidArgument)
        } else if !(addr is Mapped) {
            Err(Errno::BadAddress)
        } else if family_of(staged(addr->Mapped_0.storage@, addrlen as int)) != AF_INET {
            Err(Errno::AddressFamilyNotSupported)
        } else {
            Ok(parse_v4(staged(addr->Mapped_0.storage@, addrlen as int)))
        }
    }

    open spec fn spec_family(&self) -> u16 {
        AF_INET as u16
    }

    fn read_from_user(addr: &UserPtr<Sockaddr>, addrlen: u32) -> (r: Result<Self, Errno>) {
        if addrlen < SOCKADDR_IN_SIZE || addrlen as usize > SOCKADDR_SIZE {
            return Err(Errno::InvalidArgument);
        }
        let source = match addr.get_as_ref() {
            Ok(source) => source,
            Err(errno) => {
                return Err(errno);
            },
        };
        let buffer = stage(source, addrlen);
        if read_family(&buffer) as u32 != AF_INET {
            return Err(Errno::AddressFamilyNotSupported);
        }
        let ip = [buffer.storage[4], buffer.storage[5], buffer.storage[6], buffer.storage[7]];
        let parsed = SocketAddrV4 { ip, port: read_be16(&buffer, 2) };
        Ok(parsed)
    }

    fn write_to_user(&self, addr: &mut UserPtr<Sockaddr>) -> (r: Result<u32, Errno>) {
        if addr.is_null() {
            return Err(Errno::InvalidArgument);
        }
        let mut buffer = match addr.get_as_ref() {
            Ok(current) => *current,
            Err(errno) => {
                return Err(errno);
            },
        };
        let ghost before = buffer.storage@;
        buffer.storage[0] = byte(AF_INET, 0);
        buffer.storage[1] = byte(AF_INET, 1);
        buffer.storage[2] = byte(self.port as u32, 1);
        buffer.storage[3] = byte(self.port as u32, 0);
        let mut i: usize = 0;
        while i < 4
            invariant
                i <= 4,
                forall|k: int| 0 <= k < 4 ==> buffer.storage@[k] == self.wire()[k],
                forall|k: int| 4 <= k < 4 + i ==> buffer.storage@[k] == self.wire()[k],
                forall|k: int| 4 + i <= k < SOCKADDR_SIZE ==> buffer.storage@[k] == before[k],
            decreases 4 - i,
        {
            buffer.storage[4 + i] = self.ip[i];
            i += 1;
        }
        let mut j: usize = 0;
        while j < 8
            invariant
                j <= 8,
                forall|k: int| 0 <= k < 8 + j ==> buffer.storage@[k] == self.wire()[k],
                forall|k: int| 8 + j <= k < SOCKADDR_SIZE ==> buffer.storage@[k] == before[k],
            decreases 8 - j,
        {
            buffer.storage[8 + j] = 0;
            j += 1;
        }
        let _ = addr.write(buffer);
        Ok(SOCKADDR_IN_SIZE)
    }

    fn family(&self) -> (family: u16) {
        AF_INET as u16
    }

    fn addr_len(&self) -> (len: u32) {
        SOCKADDR_IN_SIZE
    }
}

impl SocketAddrExt for SocketAddrV6 {
    open spec fn wire(&self) -> Seq<u8> {
        self.spec_wire()
    }

    open spec fn spec_read(addr: UserPtr<Sockaddr>, addrlen: u32) -> Result<Self, Errno> {
        if addrlen < SOCKADDR_IN6_SIZE || addrlen > SOCKADDR_SIZE {
            Err(Errno::InvalidArgument)
        } else if !(addr is Mapped) {
            Err(Errno::BadAddress)
        } else if family_of(staged(addr->Mapped_0.storage@, addrlen as int)) != AF_INET6 {
            Err(Errno::AddressFamilyNotSupported)
        } else {
            Ok(parse_v6(staged(addr->Mapped_0.storage@, addrlen as int)))
        }
    }

    open spec fn spec_family(&self) -> u16 {
        AF_INET6 as u16
    }

    fn read_from_user(addr: &UserPtr<Sockaddr>, addrlen: u32) -> (r: Result<Self, Errno>) {
        if addrlen < SOCKADDR_IN6_SIZE || addrlen as usize > SOCKADDR_SIZE {
            return Err(Errno::InvalidArgument);
        }
        let source = match addr.get_as_ref() {
            Ok(source) => source,
            Err(errno) => {
                return Err(errno);
            },
        };
        let buffer = stage(source, addrlen);
        if read_family(&buffer) as u32 != AF_INET6 {
            return Err(Errno::AddressFamilyNotSupported);
        }
        let mut ip = [0u8; 16];
        let mut i: usize = 0;
        while i < 16
            invariant
                i <= 16,
                forall|k: int| 0 <= k < i ==> ip@[k] == buffer.storage@[8 + k],
            decreases 16 - i,
        {
            ip[i] = buffer.storage[8 + i];
            i += 1;
        }
        let parsed = SocketAddrV6 {
            ip,
            port: read_be16(&buffer, 2),
            flowinfo: read_be32(&buffer, 4),
            scope_id: read_le32(&buffer, 24),
        };
        assert(parsed.ip =~= parse_v6(buffer.storage@).ip);
        Ok(parsed)
    }

    fn write_to_user(&self, addr: &mut UserPtr<Sockaddr>) -> (r: Result<u32, Errno>) {
        if addr.is_null() {
            return Err(Errno::InvalidArgument);
        }
        let mut buffer = match addr.get_as_ref() {
            Ok(current) => *current,
            Err(errno) => {
                return Err(errno);
            },
        };
        let ghost before = buffer.storage@;
        buffer.storage[0] = byte(AF_INET6, 0);
        buffer.storage[1] = byte(AF_INET6, 1);
        buffer.storage[2] = byte(self.port as u32, 1);
        buffer.storage[3] = byte(self.port as u32, 0);
        buffer.storage[4] = byte(self.flowinfo, 3);
        buffer.storage[5] = byte(self.flowinfo, 2);
        buffer.storage[6] = byte(self.flowinfo, 1);
        buffer.storage[7] = byte(self.flowinfo, 0);
        let mut i: usize = 0;
        while i < 16
            invariant
                i <= 16,
                forall|k: int| 0 <= k < 8 + i ==> buffer.storage@[k] == self.wire()[k],
                forall|k: int| 8 + i <= k < SOCKADDR_SIZE ==> buffer.storage@[k] == before[k],
            decreases 16 - i,
        {
            buffer.storage[8 + i] = self.ip[i];
            i += 1;
        }
        buffer.storage[24] = byte(self.scope_id, 0);
        buffer.storage[25] = byte(self.scope_id, 1);
        buffer.storage[26] = byte(self.scope_id, 2);
        buffer.storage[27] = byte(self.scope_id, 3);
        let _ = addr.write(buffer);
        Ok(SOCKADDR_IN6_SIZE)
    }

    fn family(&self) -> (family: u16) {
        AF_INET6 as u16
    }

    fn addr_len(&self) -> (len: u32) {
        SOCKADDR_IN6_SIZE
    }
}

impl SocketAddrExt for SocketAddr {
    open spec fn wire(&self) -> Seq<u8> {
        match *self {
            SocketAddr::V4(v4) => v4.spec_wire(),
            SocketAddr::V6(v6) => v6.spec_wire(),
        }
    }

    open spec fn spec_read(addr: UserPtr<Sockaddr>, addrlen: u32) -> Result<Self, Errno> {
        if addrlen < FAMILY_SIZE || addrlen > SOCKADDR_SIZE {
            Err(Errno::InvalidArgument)
        } else if !(addr is Mapped) {
            Err(Errno::BadAddress)
        } else if family_of(staged(addr->Mapped_0.storage@, addrlen as int)) == AF_INET {
            match SocketAddrV4::spec_read(addr, addrlen) {
                Ok(v4) => Ok(SocketAddr::V4(v4)),
                Err(errno) => Err(errno),
            }
        } else if family_of(staged(addr->Mapped_0.storage@, addrlen as int)) == AF_INET6 {
            match SocketAddrV6::spec_read(addr, addrlen) {
                Ok(v6) => Ok(SocketAddr::V6(v6)),
                Err(errno) => Err(errno),
            }
        } else {
            Err(Errno::AddressFamilyNotSupported)
        }
    }

    open spec fn spec_family(&self) -> u16 {
        match *self {
            SocketAddr::V4(_) => AF_INET as u16,
            SocketAddr::V6(_) => AF_INET6 as u16,
        }
    }

    fn read_from_user(addr: &UserPtr<Sockaddr>, addrlen: u32) -> (r: Result<Self, Errno>) {
        if addrlen < FAMILY_SIZE || addrlen as usize > SOCKADDR_SIZE {
            return Err(Errno::InvalidArgument);
        }
        let source = match addr.get_as_ref() {
            Ok(source) => source,
            Err(errno) => {
                return Err(errno);
            },
        };
        let buffer = stage(source, addrlen);
        let family = read_family(&buffer) as u32;
        if family == AF_INET {
            match SocketAddrV4::read_from_user(addr, addrlen) {
                Ok(v4) => Ok(SocketAddr::V4(v4)),
                Err(errno) => Err(errno),
            }
        } else if family == AF_INET6 {
            match SocketAddrV6::read_from_user(addr, addrlen) {
                Ok(v6) => Ok(SocketAddr::V6(v6)),
                Err(errno) => Err(errno),
            }
        } else {
            Err(Errno::AddressFamilyNotSupported)
        }
    }

    fn write_to_user(&self, addr: &mut UserPtr<Sockaddr>) -> (r: Result<u32, Errno>) {
        if addr.is_null() {
            return Err(Errno::InvalidArgument);
        }
        match self {
            SocketAddr::V4(v4) => v4.write_to_user(addr),
            SocketAddr::V6(v6) => v6.write_to_user(addr),
        }
    }

    fn family(&self) -> (family: u16) {
        match self {
            SocketAddr::V4(_) => AF_INET as u16,
            SocketAddr::V6(_) => AF_INET6 as u16,
        }
    }

    fn addr_len(&self) -> (len: u32) {
        match self {
            SocketAddr::V4(_) => SOCKADDR_IN_SIZE,
            SocketAddr::V6(_) => SOCKADDR_IN6_SIZE,
        }
    }
}

/// A 16-bit number is the big-endian reading of its two bytes.
pub proof fn lemma_be16_bytes(value: u16)
    ensures
        be16(byte_of(value as int, 1), byte_of(value as int, 0)) == value,
{
}

/// A 32-bit number is the big-endian reading of its four bytes, and the
/// little-endian reading of the same bytes in reverse.
pub proof fn lemma_be32_le32_bytes(value: u32)
    ensures
        be32(
            byte_of(value as int, 3),
            byte_of(value as int, 2),
            byte_of(value as int, 1),
            byte_of(value as int, 0),
        ) == value,
        le32(
            byte_of(value as int, 0),
            byte_of(value as int, 1),
            byte_of(value as int, 2),
            byte_of(value as int, 3),
        ) == value,
{
}

/// Decoding gives back every IPv6 socket address that was encoded: if a
/// structure starts with the wire form of `address`, then reading it with any
/// declared length that covers the wire form yields `address`, whatever the
/// bytes behind the wire form are.
pub proof fn lemma_v6_round_trip(address: SocketAddrV6, written: Sockaddr, addrlen: u32)
    requires
        written.storage@.subrange(0, SOCKADDR_IN6_SIZE as int) == address.wire(),
        SOCKADDR_IN6_SIZE <= addrlen <= SOCKADDR_SIZE,
    ensures
        SocketAddrV6::spec_read(UserPtr::Mapped(written), addrlen) == Ok::<SocketAddrV6, Errno>(
            address,
        ),
        SocketAddr::spec_read(UserPtr::Mapped(written), addrlen) == Ok::<SocketAddr, Errno>(
            SocketAddr::V6(address),
        ),
{
    let bytes = staged(written.storage@, addrlen as int);
    lemma_be16_bytes(address.port);
    lemma_be32_le32_bytes(address.flowinfo);
    lemma_be32_le32_bytes(address.scope_id);
    assert(parse_v6(bytes).ip =~= address.ip);
}

/// Decoding gives back every IPv4 socket address that was encoded, the address
/// bytes as well as the port: if a structure starts with the wire form of
/// `address`, then reading it with any declared length that covers the wire
/// form yields `address`.
pub proof fn lemma_v4_round_trip(address: SocketAddrV4, written: Sockaddr, addrlen: u32)
    requires
        written.storage@.subrange(0, SOCKADDR_IN_SIZE as int) == address.wire(),
        SOCKADDR_IN_SIZE <= addrlen <= SOCKADDR_SIZE,
    ensures
        SocketAddrV4::spec_read(UserPtr::Mapped(written), addrlen) == Ok::<SocketAddrV4, Errno>(
            address,
        ),
        SocketAddr::spec_read(UserPtr::Mapped(written), addrlen) == Ok::<SocketAddr, Errno>(
            SocketAddr::V4(address),
        ),
{
    let bytes = staged(written.storage@, addrlen as int);
    lemma_be16_bytes(address.port);
    assert(parse_v4(bytes).ip =~= address.ip);
}

/// Writing an address and reading it back yields the address: what
/// `write_to_user` leaves in an accessible structure is read by
/// `read_from_user`, with the length that the write returned, as the address
/// that was written.
pub proof fn lemma_write_then_read(address: SocketAddr, before: Sockaddr, after: Sockaddr)
    requires
        after.storage@ == overlaid(address.wire(), before.storage@),
    ensures
        SocketAddr::spec_read(UserPtr::Mapped(after), address.wire().len() as u32) == Ok::<
            SocketAddr,
            Errno,
        >(address),
{
    match address {
        SocketAddr::V4(v4) => {
            assert(after.storage@.subrange(0, SOCKADDR_IN_SIZE as int) =~= v4.wire());
            lemma_v4_round_trip(v4, after, SOCKADDR_IN_SIZE);
        },
        SocketAddr::V6(v6) => {
            assert(after.storage@.subrange(0, SOCKADDR_IN6_SIZE as int) =~= v6.wire());
            lemma_v6_round_trip(v6, after, SOCKADDR_IN6_SIZE);
        },
    }
}

} // verus!
