//! Network addresses of nodes, and the digest that places an address on the
//! ring.

use vstd::prelude::*;
use vstd::std_specs::convert::FromSpecImpl;
use vstd::wrapping::u64_specs;

verus! {

/// An IP address, version 4 or 6.
#[derive(Clone, Copy, Debug, PartialEq, Eq, Hash)]
pub enum IpAddr {
    /// The four octets of an IPv4 address, first octet first.
    V4([u8; 4]),
    /// The eight 16-bit segments of an IPv6 address, first segment first.
    V6([u16; 8]),
}

/// An IP address together with a port.
#[derive(Clone, Copy, Debug, PartialEq, Eq, Hash)]
pub struct SocketAddress {
    pub ip: IpAddr,
    pub port: u16,
}

/// The two bytes of a 16-bit value, high byte first.
pub open spec fn be16(v: u16) -> Seq<u8> {
    seq![(v / 256) as u8, (v % 256) as u8]
}

/// The bytes of a run of 16-bit segments, each segment high byte first.
pub open spec fn segment_bytes(segments: Seq<u16>) -> Seq<u8> {
    Seq::new(
        2 * segments.len(),
        |i: int|
            if i % 2 == 0 {
                (segments[i / 2] / 256) as u8
            } else {
                (segments[i / 2] % 256) as u8
            },
    )
}

/// The bytes that stand for an address when it is hashed: a tag for the
/// version (4 or 6), the address and the port, all in network byte order.
pub open spec fn address_bytes(addr: SocketAddress) -> Seq<u8> {
    match addr.ip {
        IpAddr::V4(octets) => seq![4u8] + octets@ + be16(addr.port),
        IpAddr::V6(segments) => seq![6u8] + segment_bytes(segments@) + be16(addr.port),
    }
}

/// The two bytes of a 16-bit value determine it.
pub proof fn lemma_be16_injective(v: u16, w: u16)
    requires
        be16(v) == be16(w),
    ensures
        v == w,
{
    assert(be16(v)[0] == be16(w)[0]);
    assert(be16(v)[1] == be16(w)[1]);
}

/// The bytes of a run of segments determine the segments.
pub proof fn lemma_segment_bytes_injective(s: Seq<u16>, t: Seq<u16>)
    requires
        segment_bytes(s) == segment_bytes(t),
    ensures
        s == t,
{
    assert(segment_bytes(s).len() == 2 * s.len());
    assert(segment_bytes(t).len() == 2 * t.len());
    assert forall|i: int| 0 <= i < s.len() implies s[i] == t[i] by {
        assert((2 * i) / 2 == i && (2 * i) % 2 == 0);
        assert((2 * i + 1) / 2 == i && (2 * i + 1) % 2 == 1);
        assert(segment_bytes(s)[2 * i] == (s[i] / 256) as u8);
        assert(segment_bytes(t)[2 * i] == (t[i] / 256) as u8);
        assert(segment_bytes(s)[2 * i + 1] == (s[i] % 256) as u8);
        assert(segment_bytes(t)[2 * i + 1] == (t[i] % 256) as u8);
        assert(s[i] / 256 == t[i] / 256);
        assert(s[i] % 256 == t[i] % 256);
    }
    assert(s =~= t);
}

/// Two addresses with the same bytes are the same address: the digest of an
/// address is the hash of a byte string that no other address has.
pub proof fn lemma_address_bytes_injective(a: SocketAddress, b: SocketAddress)
    requires
        address_bytes(a) == address_bytes(b),
    ensures
        a == b,
{
    let x = address_bytes(a);
    let y = address_bytes(b);
    assert(x[0] == y[0]);
    assert(x.len() == y.len());
    match (a.ip, b.ip) {
        (IpAddr::V4(o), IpAddr::V4(p)) => {
            assert(x.subrange(1, 5) =~= o@);
            assert(y.subrange(1, 5) =~= p@);
            assert(o =~= p);
            assert(x.subrange(5, 7) =~= be16(a.port));
            assert(y.subrange(5, 7) =~= be16(b.port));
            lemma_be16_injective(a.port, b.port);
        },
        (IpAddr::V6(s), IpAddr::V6(t)) => {
            assert(x.subrange(1, 17) =~= segment_bytes(s@));
            assert(y.subrange(1, 17) =~= segment_bytes(t@));
            lemma_segment_bytes_injective(s@, t@);
            assert(s =~= t);
            assert(x.subrange(17, 19) =~= be16(a.port));
            assert(y.subrange(17, 19) =~= be16(b.port));
            lemma_be16_injective(a.port, b.port);
        },
        (IpAddr::V4(o), IpAddr::V6(t)) => {
            assert(x[0] == 4u8 && y[0] == 6u8);
        },
        (IpAddr::V6(s), IpAddr::V4(p)) => {
            assert(x[0] == 6u8 && y[0] == 4u8);
        },
    }
}

/// Initial value of the 64-bit FNV-1a hash.
pub const FNV_OFFSET: u64 = 0xcbf2_9ce4_8422_2325;

/// Multiplier of the 64-bit FNV-1a hash.
pub const FNV_PRIME: u64 = 0x0000_0100_0000_01b3;

/// One round of FNV-1a: xor the byte in, then multiply modulo `2^64`.
pub open spec fn fnv_round(state: u64, byte: u8) -> u64 {
    u64_specs::wrapping_mul(state ^ (byte as u64), FNV_PRIME)
}

/// The 64-bit FNV-1a hash of a byte string.
pub open spec fn fnv1a(bytes: Seq<u8>) -> u64
    decreases bytes.len(),
{
    if bytes.len() == 0 {
        FNV_OFFSET
    } else {
        fnv_round(fnv1a(bytes.drop_last()), bytes.last())
    }
}

/// The identifier that an address hashes to.
pub open spec fn address_digest(addr: SocketAddress) -> u64 {
    fnv1a(address_bytes(addr))
}

impl IpAddr {
    /// Whether this is an IPv4 address.
    pub fn is_ipv4(&self) -> (r: bool)
        ensures
            r == (*self is V4),
    {
        match self {
            IpAddr::V4(_) => true,
            IpAddr::V6(_) => false,
        }
    }

    /// Whether this is an IPv6 address.
    pub fn is_ipv6(&self) -> (r: bool)
        ensures
            r == (*self is V6),
    {
        match self {
            IpAddr::V4(_) => false,
            IpAddr::V6(_) => true,
        }
    }
}

impl SocketAddress {
    /// An address made of an IP address and a port.
    pub fn new(ip: IpAddr, port: u16) -> (r: SocketAddress)
        ensures
            r == (SocketAddress { ip, port }),
    {
        SocketAddress { ip, port }
    }

    /// The IPv4 address with the given octets and port.
    pub fn v4(octets: [u8; 4], port: u16) -> (r: SocketAddress)
        ensures
            r == (SocketAddress { ip: IpAddr::V4(octets), port }),
    {
        SocketAddress { ip: IpAddr::V4(octets), port }
    }

    /// The IPv6 address with the given segments and port.
    pub fn v6(segments: [u16; 8], port: u16) -> (r: SocketAddress)
        ensures
            r == (SocketAddress { ip: IpAddr::V6(segments), port }),
    {
        SocketAddress { ip: IpAddr::V6(segments), port }
    }

    /// The IP address.
    pub fn ip(&self) -> (r: IpAddr)
        ensures
            r == self.ip,
    {
        self.ip
    }

    /// The port.
    pub fn port(&self) -> (r: u16)
        ensures
            r == self.port,
    {
        self.port
    }

    /// The bytes that stand for this address when it is hashed.
    pub fn to_bytes(&self) -> (bytes: Vec<u8>)
        ensures
            bytes@ == address_bytes(*self),
    {
        let mut bytes: Vec<u8> = Vec::new();
        match self.ip {
            IpAddr::V4(octets) => {
                bytes.push(4u8);
                let mut i: usize = 0;
                while i < 4
                    invariant
                        i <= 4,
                        bytes@ == seq![4u8] + octets@.take(i as int),
                    decreases 4 - i,
                {
                    bytes.push(octets[i]);
                    i = i + 1;
                }
                assert(octets@.take(4) == octets@);
            },
            IpAddr::V6(segments) => {
                bytes.push(6u8);
                let mut i: usize = 0;
                while i < 8
                    invariant
                        i <= 8,
                        bytes@ == seq![6u8] + segment_bytes(segments@.take(i as int)),
                    decreases 8 - i,
                {
                    let segment: u16 = segments[i];
                    bytes.push((segment / 256) as u8);
                    bytes.push((segment % 256) as u8);
                    i = i + 1;
                }
                assert(segments@.take(8) == segments@);
            },
        }
        bytes.push((self.port / 256) as u8);
        bytes.push((self.port % 256) as u8);
        bytes
    }
}

impl From<([u8; 4], u16)> for SocketAddress {
    /// The IPv4 address with the given octets and port.
    fn from(pair: ([u8; 4], u16)) -> (r: SocketAddress)
        ensures
            r == (SocketAddress { ip: IpAddr::V4(pair.0), port: pair.1 }),
    {
        SocketAddress { ip: IpAddr::V4(pair.0), port: pair.1 }
    }
}

impl FromSpecImpl<([u8; 4], u16)> for SocketAddress {
    open spec fn obeys_from_spec() -> bool {
        true
    }

    open spec fn from_spec(pair: ([u8; 4], u16)) -> SocketAddress {
        SocketAddress { ip: IpAddr::V4(pair.0), port: pair.1 }
    }
}

impl From<([u16; 8], u16)> for SocketAddress {
    /// The IPv6 address with the given segments and port.
    fn from(pair: ([u16; 8], u16)) -> (r: SocketAddress)
        ensures
            r == (SocketAddress { ip: IpAddr::V6(pair.0), port: pair.1 }),
    {
        SocketAddress { ip: IpAddr::V6(pair.0), port: pair.1 }
    }
}

impl FromSpecImpl<([u16; 8], u16)> for SocketAddress {
    open spec fn obeys_from_spec() -> bool {
        true
    }

    open spec fn from_spec(pair: ([u16; 8], u16)) -> SocketAddress {
        SocketAddress { ip: IpAddr::V6(pair.0), port: pair.1 }
    }
}

/// Hashes a byte string with 64-bit FNV-1a.
pub fn hash_bytes(bytes: &Vec<u8>) -> (r: u64)
    ensures
        r == fnv1a(bytes@),
{
    let mut state: u64 = FNV_OFFSET;
    let mut i: usize = 0;
    while i < bytes.len()
        invariant
            i <= bytes.len(),
            state == fnv1a(bytes@.take(i as int)),
        decreases bytes.len() - i,
    {
        proof {
            let next = bytes@.take(i + 1);
            assert(next.drop_last() == bytes@.take(i as int));
            assert(next.last() == bytes@[i as int]);
        }
        state = (state ^ (bytes[i] as u64)).wrapping_mul(FNV_PRIME);
        i = i + 1;
    }
    assert(bytes@.take(bytes.len() as int) == bytes@);
    state
}

/// Hashes a socket address to an identifier on the ring. The digest depends
/// on the address alone, so every node derives the same identifier from the
/// same address.
pub fn hash_address(addr: SocketAddress) -> (r: u64)
    ensures
        r == address_digest(addr),
{
    let bytes = addr.to_bytes();
    hash_bytes(&bytes)
}

} // verus!
