//! Nodes and addresses as they travel between nodes, and the checks that
//! turn a received record into a value.
//!
//! On the wire an address is a port and a union of two lists: four octets
//! for IPv4, or eight 16-bit segments for IPv6. A record whose list has
//! another length, or holds no list at all, is rejected.

use vstd::prelude::*;
use vstd::string::StringExecFns;
use vstd::std_specs::convert::FromSpecImpl;
use vstd::std_specs::convert::TryFromSpecImpl;
use crate::address::IpAddr;
use crate::address::SocketAddress;
use crate::node::Node;
use crate::node::NodeId;

verus! {

/// Why a received record was rejected.
#[derive(Clone, Debug, PartialEq, Eq)]
pub enum ParserError {
    /// The record holds no valid IP address; the text names the fault.
    InvalidIp(String),
}

impl View for ParserError {
    type V = Seq<char>;

    /// The text that names the fault.
    open spec fn view(&self) -> Seq<char> {
        match self {
            ParserError::InvalidIp(reason) => reason@,
        }
    }
}

impl ParserError {
    /// The text that names the fault.
    pub fn to_string(&self) -> (text: String)
        ensures
            text@ == self@,
    {
        match self {
            ParserError::InvalidIp(reason) => reason.clone(),
        }
    }
}

/// What one slot of the address union holds.
#[derive(Clone, Debug, PartialEq, Eq)]
pub enum ListField<T> {
    /// A list with these items.
    Items(Vec<T>),
    /// No list that can be read as items of this size. This is what a record
    /// holds in which neither slot was ever set.
    Unset,
    /// A list pointer that is broken; the text says how.
    Damaged(String),
}

/// What one slot of the address union holds, as a mathematical value.
pub enum ListFieldView<T> {
    Items(Seq<T>),
    Unset,
    Damaged(Seq<char>),
}

impl<T> View for ListField<T> {
    type V = ListFieldView<T>;

    open spec fn view(&self) -> ListFieldView<T> {
        match self {
            ListField::Items(items) => ListFieldView::Items(items@),
            ListField::Unset => ListFieldView::Unset,
            ListField::Damaged(fault) => ListFieldView::Damaged(fault@),
        }
    }
}

/// The union of the two forms of an IP address on the wire.
#[derive(Clone, Debug, PartialEq, Eq)]
pub enum IpField {
    /// The IPv4 slot, which is to hold four octets.
    Ipv4(ListField<u8>),
    /// The IPv6 slot, which is to hold eight segments.
    Ipv6(ListField<u16>),
}

/// The address union as a mathematical value.
pub enum IpFieldView {
    Ipv4(ListFieldView<u8>),
    Ipv6(ListFieldView<u16>),
}

impl View for IpField {
    type V = IpFieldView;

    open spec fn view(&self) -> IpFieldView {
        match self {
            IpField::Ipv4(field) => IpFieldView::Ipv4(field@),
            IpField::Ipv6(field) => IpFieldView::Ipv6(field@),
        }
    }
}

/// A socket address on the wire.
#[derive(Clone, Debug, PartialEq, Eq)]
pub struct WireAddress {
    pub ip: IpField,
    pub port: u16,
}

/// A socket address on the wire, as a mathematical value.
pub struct WireAddressView {
    pub ip: IpFieldView,
    pub port: u16,
}

impl View for WireAddress {
    type V = WireAddressView;

    open spec fn view(&self) -> WireAddressView {
        WireAddressView { ip: self.ip@, port: self.port }
    }
}

/// A node on the wire.
#[derive(Clone, Debug, PartialEq, Eq)]
pub struct WireNode {
    pub id: u64,
    pub address: WireAddress,
}

/// A node on the wire, as a mathematical value.
pub struct WireNodeView {
    pub id: u64,
    pub address: WireAddressView,
}

impl View for WireNode {
    type V = WireNodeView;

    open spec fn view(&self) -> WireNodeView {
        WireNodeView { id: self.id, address: self.address@ }
    }
}

impl WireAddressView {
    /// The record holds an IP address: four octets in the IPv4 slot, or
    /// eight segments in the IPv6 slot.
    pub open spec fn well_formed(self) -> bool {
        match self.ip {
            IpFieldView::Ipv4(ListFieldView::Items(octets)) => octets.len() == 4,
            IpFieldView::Ipv6(ListFieldView::Items(segments)) => segments.len() == 8,
            _ => false,
        }
    }

    /// The address that the record stands for, or the text that names what
    /// is wrong with it.
    pub open spec fn decoded(self) -> Result<SocketAddress, Seq<char>> {
        match self.ip {
            IpFieldView::Ipv4(field) => match field {
                ListFieldView::Items(o) => if o.len() == 4 {
                    Ok(SocketAddress { ip: IpAddr::V4([o[0], o[1], o[2], o[3]]), port: self.port })
                } else {
                    Err("IPv4 should contain 4 chunks"@)
                },
                ListFieldView::Unset => Err("Error parsing ipv4 address"@),
                ListFieldView::Damaged(fault) => Err("Error parsing ipv4 address: "@ + fault),
            },
            IpFieldView::Ipv6(field) => match field {
                ListFieldView::Items(s) => if s.len() == 8 {
                    Ok(
                        SocketAddress {
                            ip: IpAddr::V6([s[0], s[1], s[2], s[3], s[4], s[5], s[6], s[7]]),
                            port: self.port,
                        },
                    )
                } else {
                    Err("IPv6 should contain 8 chunks, each containing u16"@)
                },
                ListFieldView::Unset => Err("Error parsing IPv6 address"@),
                ListFieldView::Damaged(fault) => Err("Error parsing ipv6 address: "@ + fault),
            },
        }
    }
}

/// The record that stands for an address.
pub open spec fn encoded(addr: SocketAddress) -> WireAddressView {
    match addr.ip {
        IpAddr::V4(octets) => WireAddressView {
            ip: IpFieldView::Ipv4(ListFieldView::Items(octets@)),
            port: addr.port,
        },
        IpAddr::V6(segments) => WireAddressView {
            ip: IpFieldView::Ipv6(ListFieldView::Items(segments@)),
            port: addr.port,
        },
    }
}

impl WireNodeView {
    /// The node that the record stands for, or the text that names what is
    /// wrong with its address.
    pub open spec fn decoded(self) -> Result<Node, Seq<char>> {
        match self.address.decoded() {
            Ok(addr) => Ok(Node { id: NodeId(self.id), addr }),
            Err(reason) => Err(reason),
        }
    }
}

/// The record that stands for a node.
pub open spec fn encoded_node(node: Node) -> WireNodeView {
    WireNodeView { id: node.id.0, address: encoded(node.addr) }
}

/// Decoding the record of an address gives the address back.
pub proof fn lemma_address_round_trip(addr: SocketAddress)
    ensures
        encoded(addr).well_formed(),
        encoded(addr).decoded() == Ok::<SocketAddress, Seq<char>>(addr),
{
    match addr.ip {
        IpAddr::V4(octets) => {
            let o = octets@;
            assert([o[0], o[1], o[2], o[3]] =~= octets);
        },
        IpAddr::V6(segments) => {
            let s = segments@;
            assert([s[0], s[1], s[2], s[3], s[4], s[5], s[6], s[7]] =~= segments);
        },
    }
}

/// Decoding the record of a node gives the node back.
pub proof fn lemma_node_round_trip(node: Node)
    ensures
        encoded_node(node).decoded() == Ok::<Node, Seq<char>>(node),
{
    lemma_address_round_trip(node.addr);
}

/// A record is accepted exactly when it is well formed. So an IPv4 list of
/// another length than four, an IPv6 list of another length than eight, and
/// a record with neither list are all rejected.
pub proof fn lemma_malformed_rejected(record: WireAddressView)
    ensures
        record.decoded() is Ok <==> record.well_formed(),
        record.ip matches IpFieldView::Ipv4(ListFieldView::Items(o)) && o.len() != 4
            ==> record.decoded() is Err,
        record.ip matches IpFieldView::Ipv6(ListFieldView::Items(s)) && s.len() != 8
            ==> record.decoded() is Err,
        record.ip matches IpFieldView::Ipv4(ListFieldView::Unset) ==> record.decoded() is Err,
        record.ip matches IpFieldView::Ipv6(ListFieldView::Unset) ==> record.decoded() is Err,
{
}

/// A record that is accepted is the record of the address it gives, so no
/// two records stand for one address.
pub proof fn lemma_accepted_is_encoded(record: WireAddressView)
    requires
        record.decoded() is Ok,
    ensures
        encoded(record.decoded()->Ok_0) == record,
{
    match record.ip {
        IpFieldView::Ipv4(ListFieldView::Items(o)) => {
            assert([o[0], o[1], o[2], o[3]]@ =~= o);
        },
        IpFieldView::Ipv6(ListFieldView::Items(s)) => {
            assert([s[0], s[1], s[2], s[3], s[4], s[5], s[6], s[7]]@ =~= s);
        },
        _ => {},
    }
}

impl WireAddress {
    /// The record in which neither slot was set: it reads as an IPv4 slot
    /// without a list, and port 0.
    pub fn unset() -> (record: WireAddress)
        ensures
            record@ == (WireAddressView { ip: IpFieldView::Ipv4(ListFieldView::Unset), port: 0 }),
    {
        WireAddress { ip: IpField::Ipv4(ListField::Unset), port: 0 }
    }
}

impl TryFrom<WireAddress> for SocketAddress {
    type Error = ParserError;

    /// Reads an address from its record. The record is accepted when its
    /// IPv4 slot holds four octets or its IPv6 slot holds eight segments;
    /// otherwise the error names the fault.
    fn try_from(record: WireAddress) -> (r: Result<SocketAddress, ParserError>)
        ensures
            r is Ok <==> record@.well_formed(),
            match r {
                Ok(addr) => record@.decoded() == Ok::<SocketAddress, Seq<char>>(addr),
                Err(err) => record@.decoded() == Err::<SocketAddress, Seq<char>>(err@),
            },
    {
        let port: u16 = record.port;
        match record.ip {
            IpField::Ipv4(field) => match field {
                ListField::Items(ip) => {
                    if ip.len() != 4 {
                        return Err(
                            ParserError::InvalidIp(String::from_str("IPv4 should contain 4 chunks")),
                        );
                    }
                    let octets: [u8; 4] = [ip[0], ip[1], ip[2], ip[3]];
                    Ok(SocketAddress { ip: IpAddr::V4(octets), port })
                },
                ListField::Unset => Err(
                    ParserError::InvalidIp(String::from_str("Error parsing ipv4 address")),
                ),
                ListField::Damaged(fault) => Err(
                    ParserError::InvalidIp(
                        String::from_str("Error parsing ipv4 address: ").concat(fault.as_str()),
                    ),
                ),
            },
            IpField::Ipv6(field) => match field {
                ListField::Items(ip) => {
                    if ip.len() != 8 {
                        return Err(
                            ParserError::InvalidIp(
                                String::from_str(
                                    "IPv6 should contain 8 chunks, each containing u16",
                                ),
                            ),
                        );
                    }
                    let segments: [u16; 8] = [
                        ip[0],
                        ip[1],
                        ip[2],
                        ip[3],
                        ip[4],
                        ip[5],
                        ip[6],
                        ip[7],
                    ];
                    Ok(SocketAddress { ip: IpAddr::V6(segments), port })
                },
                ListField::Unset => Err(
                    ParserError::InvalidIp(String::from_str("Error parsing IPv6 address")),
                ),
                ListField::Damaged(fault) => Err(
                    ParserError::InvalidIp(
                        String::from_str("Error parsing ipv6 address: ").concat(fault.as_str()),
                    ),
                ),
            },
        }
    }
}

impl TryFromSpecImpl<WireAddress> for SocketAddress {
    /// The conversion is specified over the views of its argument and
    /// result, not as a value.
    open spec fn obeys_try_from_spec() -> bool {
        false
    }

    open spec fn try_from_spec(record: WireAddress) -> Result<SocketAddress, ParserError> {
        arbitrary()
    }
}

impl From<SocketAddress> for WireAddress {
    /// Writes the record of an address: the four octets or the eight
    /// segments, and the port.
    fn from(addr: SocketAddress) -> (record: WireAddress)
        ensures
            record@ == encoded(addr),
    {
        match addr.ip {
            IpAddr::V4(octets) => {
                let mut ip: Vec<u8> = Vec::with_capacity(4);
                let mut i: usize = 0;
                while i < 4
                    invariant
                        i <= 4,
                        ip@ == octets@.take(i as int),
                    decreases 4 - i,
                {
                    ip.push(octets[i]);
                    i = i + 1;
                }
                assert(octets@.take(4) == octets@);
                WireAddress { ip: IpField::Ipv4(ListField::Items(ip)), port: addr.port }
            },
            IpAddr::V6(segments) => {
                let mut ip: Vec<u16> = Vec::with_capacity(8);
                let mut i: usize = 0;
                while i < 8
                    invariant
                        i <= 8,
                        ip@ == segments@.take(i as int),
                    decreases 8 - i,
                {
                    ip.push(segments[i]);
                    i = i + 1;
                }
                assert(segments@.take(8) == segments@);
                WireAddress { ip: IpField::Ipv6(ListField::Items(ip)), port: addr.port }
            },
        }
    }
}

impl FromSpecImpl<SocketAddress> for WireAddress {
    /// The conversion is specified over the view of its result, not as a
    /// value.
    open spec fn obeys_from_spec() -> bool {
        false
    }

    open spec fn from_spec(addr: SocketAddress) -> WireAddress {
        arbitrary()
    }
}

impl TryFrom<WireNode> for Node {
    type Error = ParserError;

    /// Reads a node from its record: the identifier as it stands, and the
    /// address where its record is accepted.
    fn try_from(record: WireNode) -> (r: Result<Node, ParserError>)
        ensures
            r is Ok <==> record@.address.well_formed(),
            match r {
                Ok(node) => record@.decoded() == Ok::<Node, Seq<char>>(node),
                Err(err) => record@.decoded() == Err::<Node, Seq<char>>(err@),
            },
    {
        let id: u64 = record.id;
        match SocketAddress::try_from(record.address) {
            Ok(addr) => Ok(Node::with_id(NodeId(id), addr)),
            Err(err) => Err(err),
        }
    }
}

impl TryFromSpecImpl<WireNode> for Node {
    /// The conversion is specified over the views of its argument and
    /// result, not as a value.
    open spec fn obeys_try_from_spec() -> bool {
        false
    }

    open spec fn try_from_spec(record: WireNode) -> Result<Node, ParserError> {
        arbitrary()
    }
}

impl From<Node> for WireNode {
    /// Writes the record of a node.
    fn from(node: Node) -> (record: WireNode)
        ensures
            record@ == encoded_node(node),
    {
        WireNode { id: node.id.0, address: WireAddress::from(node.addr) }
    }
}

impl FromSpecImpl<Node> for WireNode {
    /// The conversion is specified over the view of its result, not as a
    /// value.
    open spec fn obeys_from_spec() -> bool {
        false
    }

    open spec fn from_spec(node: Node) -> WireNode {
        arbitrary()
    }
}

} // verus!
