//! IP addresses as the gRPC messages carry them: a version number and the
//! address as a byte string, four bytes for IPv4 and sixteen for IPv6.

use vstd::prelude::*;
use vstd::string::StringExecFns;
use vstd::std_specs::convert::FromSpecImpl;
use vstd::std_specs::convert::TryFromSpecImpl;
use crate::address::IpAddr;
use crate::address::segment_bytes;

verus! {

/// The versions of IP that a message can name.
#[derive(Clone, Copy, Debug, PartialEq, Eq, Structural)]
pub enum IpVersion {
    Ipv4,
    Ipv6,
}

impl IpVersion {
    /// The number that stands for the version in a message.
    pub open spec fn spec_number(self) -> i32 {
        match self {
            IpVersion::Ipv4 => 0,
            IpVersion::Ipv6 => 1,
        }
    }

    /// The number that stands for the version in a message.
    #[verifier::when_used_as_spec(spec_number)]
    pub fn number(self) -> (r: i32)
        ensures
            r == self.spec_number(),
    {
        match self {
            IpVersion::Ipv4 => 0,
            IpVersion::Ipv6 => 1,
        }
    }
}

/// An IP address as a message carries it.
#[derive(Clone, Debug, PartialEq, Eq)]
pub struct IpAddress {
    /// The number of the IP version.
    pub version: i32,
    /// The bytes of the address, in network byte order.
    pub address: Vec<u8>,
}

/// An IP address as a message carries it, as a mathematical value.
pub struct IpAddressView {
    pub version: i32,
    pub address: Seq<u8>,
}

impl View for IpAddress {
    type V = IpAddressView;

    open spec fn view(&self) -> IpAddressView {
        IpAddressView { version: self.version, address: self.address@ }
    }
}

/// Why a message holds no IP address.
#[derive(Clone, Debug, PartialEq, Eq)]
pub struct IpParseError {
    msg: String,
}

impl View for IpParseError {
    type V = Seq<char>;

    /// The text that names the fault.
    closed spec fn view(&self) -> Seq<char> {
        self.msg@
    }
}

impl IpParseError {
    /// An error with the given text.
    pub fn new(msg: &str) -> (err: IpParseError)
        ensures
            err@ == msg@,
    {
        IpParseError { msg: String::from_str(msg) }
    }

    /// The text that names the fault.
    pub fn to_string(&self) -> (text: String)
        ensures
            text@ == self@,
    {
        self.msg.clone()
    }
}

/// The 16-bit segment that two bytes stand for, high byte first.
pub open spec fn segment_of(high: u8, low: u8) -> u16 {
    (high * 256 + low) as u16
}

/// The eight segments that sixteen bytes stand for.
pub open spec fn segments_of(b: Seq<u8>) -> [u16; 8] {
    [
        segment_of(b[0], b[1]),
        segment_of(b[2], b[3]),
        segment_of(b[4], b[5]),
        segment_of(b[6], b[7]),
        segment_of(b[8], b[9]),
        segment_of(b[10], b[11]),
        segment_of(b[12], b[13]),
        segment_of(b[14], b[15]),
    ]
}

impl IpAddressView {
    /// The message names IPv4.
    pub open spec fn is_v4(self) -> bool {
        self.version == IpVersion::Ipv4.spec_number()
    }

    /// The message names IPv6.
    pub open spec fn is_v6(self) -> bool {
        self.version == IpVersion::Ipv6.spec_number()
    }

    /// The message holds an address: it names a version and carries as many
    /// bytes as that version takes.
    pub open spec fn well_formed(self) -> bool {
        (self.is_v4() && self.address.len() == 4) || (self.is_v6() && self.address.len() == 16)
    }

    /// The address that the message stands for, or the text that names what
    /// is wrong with it.
    pub open spec fn decoded(self) -> Result<IpAddr, Seq<char>> {
        let b = self.address;
        if self.is_v4() {
            if b.len() == 4 {
                Ok(IpAddr::V4([b[0], b[1], b[2], b[3]]))
            } else {
                Err("Invalid IPv4 address"@)
            }
        } else if self.is_v6() {
            if b.len() == 16 {
                Ok(IpAddr::V6(segments_of(b)))
            } else {
                Err("Invalid IPv6 address"@)
            }
        } else {
            Err("Invalid IP address"@)
        }
    }
}

/// The message that stands for an address.
pub open spec fn encoded(ip: IpAddr) -> IpAddressView {
    match ip {
        IpAddr::V4(octets) => IpAddressView {
            version: IpVersion::Ipv4.spec_number(),
            address: octets@,
        },
        IpAddr::V6(segments) => IpAddressView {
            version: IpVersion::Ipv6.spec_number(),
            address: segment_bytes(segments@),
        },
    }
}

/// Splitting a segment into its two bytes and joining them again gives the
/// segment back.
pub proof fn lemma_segment_join(v: u16)
    ensures
        segment_of((v / 256) as u8, (v % 256) as u8) == v,
{
}

/// The bytes of a run of segments, joined pair by pair, give the segments
/// back.
pub proof fn lemma_segment_bytes_join(segments: Seq<u16>, i: int)
    requires
        0 <= i < segments.len(),
    ensures
        segment_bytes(segments).len() == 2 * segments.len(),
        segment_of(segment_bytes(segments)[2 * i], segment_bytes(segments)[2 * i + 1])
            == segments[i],
{
    assert((2 * i) / 2 == i && (2 * i) % 2 == 0);
    assert((2 * i + 1) / 2 == i && (2 * i + 1) % 2 == 1);
    lemma_segment_join(segments[i]);
}

/// The eight segments of an IPv6 address come back from their sixteen bytes.
pub proof fn lemma_segments_round_trip(segments: [u16; 8])
    ensures
        segment_bytes(segments@).len() == 16,
        segments_of(segment_bytes(segments@)) == segments,
{
    let s = segments@;
    let b = segment_bytes(s);
    let back = segments_of(b);
    assert(back@[0] == s[0]) by {
        lemma_segment_bytes_join(s, 0);
    }
    assert(back@[1] == s[1]) by {
        lemma_segment_bytes_join(s, 1);
    }
    assert(back@[2] == s[2]) by {
        lemma_segment_bytes_join(s, 2);
    }
    assert(back@[3] == s[3]) by {
        lemma_segment_bytes_join(s, 3);
    }
    assert(back@[4] == s[4]) by {
        lemma_segment_bytes_join(s, 4);
    }
    assert(back@[5] == s[5]) by {
        lemma_segment_bytes_join(s, 5);
    }
    assert(back@[6] == s[6]) by {
        lemma_segment_bytes_join(s, 6);
    }
    assert(back@[7] == s[7]) by {
        lemma_segment_bytes_join(s, 7);
    }
    assert(back@ =~= s);
    assert(back =~= segments);
}

/// Decoding the message of an address gives the address back.
pub proof fn lemma_round_trip(ip: IpAddr)
    ensures
        encoded(ip).well_formed(),
        encoded(ip).decoded() == Ok::<IpAddr, Seq<char>>(ip),
{
    match ip {
        IpAddr::V4(octets) => {
            let b = octets@;
            assert([b[0], b[1], b[2], b[3]] =~= octets);
        },
        IpAddr::V6(segments) => {
            lemma_segments_round_trip(segments);
        },
    }
}

/// A message is accepted exactly when it is well formed: four bytes under
/// IPv4, or sixteen bytes under IPv6.
pub proof fn lemma_malformed_rejected(message: IpAddressView)
    ensures
        message.decoded() is Ok <==> message.well_formed(),
{
}

impl IpAddress {
    /// Whether the message names IPv4.
    pub fn is_v4(&self) -> (r: bool)
        ensures
            r == self@.is_v4(),
    {
        self.version == IpVersion::Ipv4.number()
    }

    /// Whether the message names IPv6.
    pub fn is_v6(&self) -> (r: bool)
        ensures
            r == self@.is_v6(),
    {
        self.version == IpVersion::Ipv6.number()
    }
}

/// The segment that the two bytes at `2 * index` stand for.
fn segment_at(bytes: &Vec<u8>, index: usize) -> (r: u16)
    requires
        bytes.len() == 16,
        index < 8,
    ensures
        r == segment_of(bytes[2 * index], bytes[2 * index + 1]),
{
    let high: u16 = bytes[2 * index] as u16;
    let low: u16 = bytes[2 * index + 1] as u16;
    high * 256 + low
}

impl TryFrom<IpAddress> for IpAddr {
    type Error = IpParseError;

    /// Reads an address from a message. The message is accepted when it
    /// names IPv4 and carries four bytes, or names IPv6 and carries sixteen;
    /// otherwise the error says which of the two was expected, or that the
    /// version is unknown.
    fn try_from(ip: IpAddress) -> (r: Result<IpAddr, IpParseError>)
        ensures
            r is Ok <==> ip@.well_formed(),
            match r {
                Ok(addr) => ip@.decoded() == Ok::<IpAddr, Seq<char>>(addr),
                Err(err) => ip@.decoded() == Err::<IpAddr, Seq<char>>(err@),
            },
    {
        if ip.is_v4() && ip.address.len() != 4 {
            Err(IpParseError::new("Invalid IPv4 address"))
        } else if ip.is_v6() && ip.address.len() != 16 {
            Err(IpParseError::new("Invalid IPv6 address"))
        } else if ip.is_v4() {
            let b = &ip.address;
            Ok(IpAddr::V4([b[0], b[1], b[2], b[3]]))
        } else if ip.is_v6() {
            let b = &ip.address;
            Ok(
                IpAddr::V6(
                    [
                        segment_at(b, 0),
                        segment_at(b, 1),
                        segment_at(b, 2),
                        segment_at(b, 3),
                        segment_at(b, 4),
                        segment_at(b, 5),
                        segment_at(b, 6),
                        segment_at(b, 7),
                    ],
                ),
            )
        } else {
            Err(IpParseError::new("Invalid IP address"))
        }
    }
}

impl TryFromSpecImpl<IpAddress> for IpAddr {
    /// The conversion is specified over the views of its argument and
    /// result, not as a value.
    open spec fn obeys_try_from_spec() -> bool {
        false
    }

    open spec fn try_from_spec(ip: IpAddress) -> Result<IpAddr, IpParseError> {
        arbitrary()
    }
}

impl From<IpAddr> for IpAddress {
    /// Writes the message of an address: the number of its version and its
    /// bytes in network byte order.
    fn from(ip: IpAddr) -> (message: IpAddress)
        ensures
            message@ == encoded(ip),
    {
        match ip {
            IpAddr::V4(octets) => {
                let mut address: Vec<u8> = Vec::with_capacity(4);
                let mut i: usize = 0;
                while i < 4
                    invariant
                        i <= 4,
                        address@ == octets@.take(i as int),
                    decreases 4 - i,
                {
                    address.push(octets[i]);
                    i = i + 1;
                }
                assert(octets@.take(4) == octets@);
                IpAddress { version: IpVersion::Ipv4.number(), address }
            },
            IpAddr::V6(segments) => {
                let mut address: Vec<u8> = Vec::with_capacity(16);
                let mut i: usize = 0;
                while i < 8
                    invariant
                        i <= 8,
                        address@ == segment_bytes(segments@.take(i as int)),
                    decreases 8 - i,
                {
                    let segment: u16 = segments[i];
                    address.push((segment / 256) as u8);
                    address.push((segment % 256) as u8);
                    i = i + 1;
                }
                assert(segments@.take(8) == segments@);
                IpAddress { version: IpVersion::Ipv6.number(), address }
            },
        }
    }
}

impl FromSpecImpl<IpAddr> for IpAddress {
    /// The conversion is specified over the view of its result, not as a
    /// value.
    open spec fn obeys_from_spec() -> bool {
        false
    }

    open spec fn from_spec(ip: IpAddr) -> IpAddress {
        arbitrary()
    }
}

} // verus!
