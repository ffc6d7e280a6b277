//! The lists of a Cap'n Proto message in which an IP address travels.
//!
//! A message holds an IPv4 address as a list of octets and an IPv6 address as
//! a list of 16-bit segments. The lists belong to the `capnp` crate. What is
//! said here of them is taken on trust: the types below wrap them, and a few
//! small functions make the calls. All else is proved from that.

use vstd::prelude::*;
use crate::address::SocketAddress;
use crate::parser::IpField;
use crate::parser::IpFieldView;
use crate::parser::ListField;
use crate::parser::ListFieldView;
use crate::parser::ParserError;
use crate::parser::WireAddress;
use crate::parser::WireAddressView;

verus! {

/// `capnp::Error`, the error of a pointer that cannot be followed.
#[verifier::external_type_specification]
#[verifier::external_body]
pub struct ExCapnpError(capnp::Error);

/// A list of octets in a received message: a
/// `capnp::primitive_list::Reader` of `u8`.
#[verifier::external_body]
pub struct OctetList<'a> {
    pub list: capnp::primitive_list::Reader<'a, u8>,
}

/// A list of segments in a received message: a
/// `capnp::primitive_list::Reader` of `u16`.
#[verifier::external_body]
pub struct SegmentList<'a> {
    pub list: capnp::primitive_list::Reader<'a, u16>,
}

/// A list of octets in a message that is being written: a
/// `capnp::primitive_list::Builder` of `u8`.
#[verifier::external_body]
pub struct OctetListBuilder<'a> {
    pub list: capnp::primitive_list::Builder<'a, u8>,
}

/// A list of segments in a message that is being written: a
/// `capnp::primitive_list::Builder` of `u16`.
#[verifier::external_body]
pub struct SegmentListBuilder<'a> {
    pub list: capnp::primitive_list::Builder<'a, u16>,
}

/// The octets that a received list holds.
pub uninterp spec fn octets_held(list: OctetList<'_>) -> Seq<u8>;

/// Whether a received list of octets can be had as a slice.
pub uninterp spec fn octets_in_a_row(list: OctetList<'_>) -> bool;

/// The segments that a received list holds.
pub uninterp spec fn segments_held(list: SegmentList<'_>) -> Seq<u16>;

/// Whether a received list of segments can be had as a slice.
pub uninterp spec fn segments_in_a_row(list: SegmentList<'_>) -> bool;

/// The octets of a list that is being written.
pub uninterp spec fn octets_built(list: OctetListBuilder<'_>) -> Seq<u8>;

/// The segments of a list that is being written.
pub uninterp spec fn segments_built(list: SegmentListBuilder<'_>) -> Seq<u16>;

/// The text that describes an error of `capnp`.
pub uninterp spec fn fault_text(err: capnp::Error) -> Seq<char>;

/// Calls `capnp::primitive_list::Reader::as_slice` and copies the slice. The
/// call gives a slice only for a list that can be had as one, and the slice
/// holds the items of the list.
#[verifier::external_body]
fn octet_slice(list: &OctetList<'_>) -> (r: Option<Vec<u8>>)
    ensures
        r is Some <==> octets_in_a_row(*list),
        r matches Some(items) ==> items@ == octets_held(*list),
{
    list.list.as_slice().map(|items| items.to_vec())
}

/// Calls `capnp::primitive_list::Reader::as_slice` and copies the slice. The
/// call gives a slice only for a list that can be had as one, and the slice
/// holds the items of the list.
#[verifier::external_body]
fn segment_slice(list: &SegmentList<'_>) -> (r: Option<Vec<u16>>)
    ensures
        r is Some <==> segments_in_a_row(*list),
        r matches Some(items) ==> items@ == segments_held(*list),
{
    list.list.as_slice().map(|items| items.to_vec())
}

/// Calls `capnp::primitive_list::Builder::len`, the number of items that the
/// list has room for.
#[verifier::external_body]
fn octet_room(list: &OctetListBuilder<'_>) -> (r: u32)
    ensures
        r == octets_built(*list).len(),
{
    list.list.len()
}

/// Calls `capnp::primitive_list::Builder::len`, the number of items that the
/// list has room for.
#[verifier::external_body]
fn segment_room(list: &SegmentListBuilder<'_>) -> (r: u32)
    ensures
        r == segments_built(*list).len(),
{
    list.list.len()
}

/// Calls `capnp::primitive_list::Builder::set`, which writes one item and
/// leaves the others. It panics on an index beyond the list.
#[verifier::external_body]
fn set_octet(list: &mut OctetListBuilder<'_>, index: u32, value: u8)
    requires
        index < octets_built(*old(list)).len(),
    ensures
        octets_built(*final(list)) == octets_built(*old(list)).update(index as int, value),
{
    list.list.set(index, value)
}

/// Calls `capnp::primitive_list::Builder::set`, which writes one item and
/// leaves the others. It panics on an index beyond the list.
#[verifier::external_body]
fn set_segment(list: &mut SegmentListBuilder<'_>, index: u32, value: u16)
    requires
        index < segments_built(*old(list)).len(),
    ensures
        segments_built(*final(list)) == segments_built(*old(list)).update(index as int, value),
{
    list.list.set(index, value)
}

/// Formats a `capnp::Error` as its `Display` impl does.
#[verifier::external_body]
fn fault_of(err: &capnp::Error) -> (text: String)
    ensures
        text@ == fault_text(*err),
{
    format!("{}", err)
}

/// What reading the IPv4 slot of an address gave.
pub open spec fn octet_field_of(slot: Result<OctetList<'_>, capnp::Error>) -> ListFieldView<u8> {
    match slot {
        Ok(list) => if octets_in_a_row(list) {
            ListFieldView::Items(octets_held(list))
        } else {
            ListFieldView::Unset
        },
        Err(err) => ListFieldView::Damaged(fault_text(err)),
    }
}

/// What reading the IPv6 slot of an address gave.
pub open spec fn segment_field_of(slot: Result<SegmentList<'_>, capnp::Error>) -> ListFieldView<
    u16,
> {
    match slot {
        Ok(list) => if segments_in_a_row(list) {
            ListFieldView::Items(segments_held(list))
        } else {
            ListFieldView::Unset
        },
        Err(err) => ListFieldView::Damaged(fault_text(err)),
    }
}

/// Takes the octets out of the IPv4 slot of a received address. A list that
/// cannot be had as a slice counts as no list.
pub fn octet_field(slot: Result<OctetList<'_>, capnp::Error>) -> (field: ListField<u8>)
    ensures
        field@ == octet_field_of(slot),
{
    match slot {
        Ok(list) => match octet_slice(&list) {
            Some(items) => ListField::Items(items),
            None => ListField::Unset,
        },
        Err(err) => ListField::Damaged(fault_of(&err)),
    }
}

/// Takes the segments out of the IPv6 slot of a received address. A list
/// that cannot be had as a slice counts as no list.
pub fn segment_field(slot: Result<SegmentList<'_>, capnp::Error>) -> (field: ListField<u16>)
    ensures
        field@ == segment_field_of(slot),
{
    match slot {
        Ok(list) => match segment_slice(&list) {
            Some(items) => ListField::Items(items),
            None => ListField::Unset,
        },
        Err(err) => ListField::Damaged(fault_of(&err)),
    }
}

/// The slot of the address union that a received message has set, with what
/// reading its list gave.
pub enum IpSlot<'a> {
    Ipv4(Result<OctetList<'a>, capnp::Error>),
    Ipv6(Result<SegmentList<'a>, capnp::Error>),
}

impl IpSlot<'_> {
    /// The address record that the slot and a port make.
    pub open spec fn record(self, port: u16) -> WireAddressView {
        match self {
            IpSlot::Ipv4(slot) => WireAddressView {
                ip: IpFieldView::Ipv4(octet_field_of(slot)),
                port,
            },
            IpSlot::Ipv6(slot) => WireAddressView {
                ip: IpFieldView::Ipv6(segment_field_of(slot)),
                port,
            },
        }
    }
}

/// Reads the address of a received message from the slot that is set and the
/// port. The address is accepted when the IPv4 slot holds four octets or the
/// IPv6 slot holds eight segments; otherwise the error names the fault.
pub fn socket_addr(slot: IpSlot<'_>, port: u16) -> (r: Result<SocketAddress, ParserError>)
    ensures
        r is Ok <==> slot.record(port).well_formed(),
        match r {
            Ok(addr) => slot.record(port).decoded() == Ok::<SocketAddress, Seq<char>>(addr),
            Err(err) => slot.record(port).decoded() == Err::<SocketAddress, Seq<char>>(err@),
        },
{
    let ip = match slot {
        IpSlot::Ipv4(slot) => IpField::Ipv4(octet_field(slot)),
        IpSlot::Ipv6(slot) => IpField::Ipv6(segment_field(slot)),
    };
    SocketAddress::try_from(WireAddress { ip, port })
}

/// Writes the octets of an IPv4 address into a list of four items.
pub fn insert_octets(list: &mut OctetListBuilder<'_>, octets: &[u8; 4])
    requires
        octets_built(*old(list)).len() == 4,
    ensures
        octets_built(*final(list)) == octets@,
{
    let mut i: u32 = 0;
    while i < 4
        invariant
            i <= 4,
            octets_built(*list).len() == 4,
            forall|j: int| 0 <= j < i ==> octets_built(*list)[j] == octets@[j],
        decreases 4 - i,
    {
        set_octet(list, i, octets[i as usize]);
        i = i + 1;
    }
    assert(octets_built(*list) =~= octets@);
}

/// Writes the segments of an IPv6 address into a list of eight items.
pub fn insert_segments(list: &mut SegmentListBuilder<'_>, segments: &[u16; 8])
    requires
        segments_built(*old(list)).len() == 8,
    ensures
        segments_built(*final(list)) == segments@,
{
    let mut i: u32 = 0;
    while i < 8
        invariant
            i <= 8,
            segments_built(*list).len() == 8,
            forall|j: int| 0 <= j < i ==> segments_built(*list)[j] == segments@[j],
        decreases 8 - i,
    {
        set_segment(list, i, segments[i as usize]);
        i = i + 1;
    }
    assert(segments_built(*list) =~= segments@);
}

/// Writes the octets of an IPv4 address into a list, where the list has
/// room for exactly four. Says whether it did; a list of another size stays
/// as it is.
pub fn try_insert_octets(list: &mut OctetListBuilder<'_>, octets: &[u8; 4]) -> (done: bool)
    ensures
        done <==> octets_built(*old(list)).len() == 4,
        done ==> octets_built(*final(list)) == octets@,
        !done ==> octets_built(*final(list)) == octets_built(*old(list)),
{
    if octet_room(list) == 4 {
        insert_octets(list, octets);
        true
    } else {
        false
    }
}

/// Writes the segments of an IPv6 address into a list, where the list has
/// room for exactly eight. Says whether it did; a list of another size stays
/// as it is.
pub fn try_insert_segments(list: &mut SegmentListBuilder<'_>, segments: &[u16; 8]) -> (done:
    bool)
    ensures
        done <==> segments_built(*old(list)).len() == 8,
        done ==> segments_built(*final(list)) == segments@,
        !done ==> segments_built(*final(list)) == segments_built(*old(list)),
{
    if segment_room(list) == 8 {
        insert_segments(list, segments);
        true
    } else {
        false
    }
}

} // verus!
