//! Arithmetic on the identifier ring.
//!
//! Identifiers are 64-bit values and all arithmetic is modulo `2^64`. The two
//! interval predicates are defined by the clockwise distance between
//! identifiers; the executable versions decide them with plain comparisons.

use vstd::prelude::*;
use vstd::arithmetic::power2::pow2;
use vstd::arithmetic::power2::lemma2_to64;
use vstd::arithmetic::power2::lemma_pow2_strictly_increases;

verus! {

/// Width of an identifier in bits, which is also the number of fingers.
pub const ID_BITS: usize = 64;

/// Number of identifiers on the ring, `2^64`.
pub open spec fn ring_size() -> int {
    0x1_0000_0000_0000_0000int
}

/// Number of steps from `a` to `b` when walking the ring clockwise, that is in
/// the direction of increasing identifiers, wrapping at `2^64`.
pub open spec fn clockwise(a: u64, b: u64) -> int {
    (b - a) % ring_size()
}

/// `x` lies on the open arc that leads clockwise from `a` to `b`. When `a == b`
/// the arc is the whole ring without `a`.
pub open spec fn between_exclusive(x: u64, a: u64, b: u64) -> bool {
    x != a && (a == b || clockwise(a, x) < clockwise(a, b))
}

/// `x` lies on the arc that leads clockwise from `a` to `b`, with `b` included
/// and `a` excluded. When `a == b` the arc is the whole ring.
pub open spec fn between_half_open(x: u64, a: u64, b: u64) -> bool {
    a == b || (x != a && clockwise(a, x) <= clockwise(a, b))
}

/// Start of the finger with the given index: `(id + 2^index) mod 2^64`.
pub open spec fn finger_start(id: u64, index: nat) -> u64 {
    ((id + pow2(index)) % ring_size()) as u64
}

/// `node` is the one of `nodes` that answers for `id`: the first that a walk
/// meets which starts at `id` and goes clockwise.
pub open spec fn holds(node: u64, id: u64, nodes: Set<u64>) -> bool {
    nodes.contains(node) && forall|other: u64|
        nodes.contains(other) ==> clockwise(id, node) <= #[trigger] clockwise(id, other)
}

/// `next` is the one of `nodes` that follows `node` on the ring: the first
/// other node that a walk meets which starts at `node` and goes clockwise,
/// or `node` itself where it is alone.
pub open spec fn follows(next: u64, node: u64, nodes: Set<u64>) -> bool {
    &&& nodes.contains(node)
    &&& nodes.contains(next)
    &&& forall|other: u64|
        nodes.contains(other) && other != node ==> next != node && clockwise(node, next)
            <= #[trigger] clockwise(node, other)
}

/// The clockwise distance is the difference of the identifiers, plus `2^64`
/// where the walk passes zero.
pub proof fn lemma_clockwise(a: u64, b: u64)
    ensures
        clockwise(a, b) == if a <= b { b - a } else { b - a + ring_size() },
        0 <= clockwise(a, b) < ring_size(),
{
}

/// The open arc is decided by comparing identifiers: without wrap-around `x`
/// lies strictly between the ends, with wrap-around it lies after `a` or
/// before `b`.
pub proof fn lemma_between_exclusive_by_order(x: u64, a: u64, b: u64)
    ensures
        between_exclusive(x, a, b) == if a < b { a < x && x < b } else { x > a || x < b },
{
    lemma_clockwise(a, x);
    lemma_clockwise(a, b);
}

/// The half-open arc is decided by comparing identifiers, as the open arc is,
/// with `b` admitted.
pub proof fn lemma_between_half_open_by_order(x: u64, a: u64, b: u64)
    ensures
        between_half_open(x, a, b) == if a < b { a < x && x <= b } else { x > a || x <= b },
{
    lemma_clockwise(a, x);
    lemma_clockwise(a, b);
}

/// The half-open arc is the open arc together with its far end.
pub proof fn lemma_half_open_is_exclusive_or_end(x: u64, a: u64, b: u64)
    ensures
        between_half_open(x, a, b) == (between_exclusive(x, a, b) || x == b),
{
    lemma_clockwise(a, x);
    lemma_clockwise(a, b);
}

/// An arc from an identifier to itself holds every identifier but that one.
pub proof fn lemma_exclusive_full_circle(x: u64, a: u64)
    ensures
        between_exclusive(x, a, a) == (x != a),
{
}

/// The near end never lies on the open arc, and neither does the far end.
pub proof fn lemma_exclusive_excludes_ends(a: u64, b: u64)
    ensures
        !between_exclusive(a, a, b),
        a != b ==> !between_exclusive(b, a, b),
{
}

/// A node on the open arc from `a` to `b` is closer to `b` than `a` is, and
/// has not reached it: passing a lookup on to such a node makes progress.
pub proof fn lemma_exclusive_is_closer(x: u64, a: u64, b: u64)
    requires
        between_exclusive(x, a, b),
        a != b,
    ensures
        0 < clockwise(x, b) < clockwise(a, b),
        clockwise(a, x) + clockwise(x, b) == clockwise(a, b),
{
    lemma_clockwise(a, x);
    lemma_clockwise(a, b);
    lemma_clockwise(x, b);
}

/// The node that follows another answers for every identifier on the arc
/// from that node to itself: a lookup that ends at the successor for such an
/// identifier ends at the right node.
pub proof fn lemma_successor_holds_arc(id: u64, node: u64, next: u64, nodes: Set<u64>)
    requires
        follows(next, node, nodes),
        between_half_open(id, node, next),
    ensures
        holds(next, id, nodes),
{
    assert forall|other: u64| nodes.contains(other) implies clockwise(id, next)
        <= #[trigger] clockwise(id, other) by {
        lemma_clockwise(id, next);
        lemma_clockwise(id, other);
        lemma_clockwise(node, id);
        lemma_clockwise(node, next);
        lemma_clockwise(node, other);
        if other != node {
            assert(clockwise(node, next) <= clockwise(node, other));
        }
    }
}

/// The first finger starts right after the node: `(id + 1) mod 2^64`.
pub proof fn lemma_first_finger_start(id: u64)
    ensures
        finger_start(id, 0) == (id + 1) % ring_size(),
        finger_start(id, 0) == if id == u64::MAX { 0 } else { id + 1 },
{
    lemma2_to64();
}

/// A finger's start lies `2^index` steps clockwise of the node.
pub proof fn lemma_finger_start_distance(id: u64, index: nat)
    requires
        index < 64,
    ensures
        clockwise(id, finger_start(id, index)) == pow2(index),
        finger_start(id, index) != id,
{
    lemma_pow2_strictly_increases(index, 64);
    lemma2_to64();
    vstd::arithmetic::power2::lemma_pow2_pos(index);
    lemma_clockwise(id, finger_start(id, index));
}

/// Decides whether `x` lies on the open arc from `a` to `b`.
pub fn is_between_exclusive(x: u64, a: u64, b: u64) -> (r: bool)
    ensures
        r == between_exclusive(x, a, b),
{
    proof {
        lemma_between_exclusive_by_order(x, a, b);
    }
    if a < b {
        a < x && x < b
    } else {
        x > a || x < b
    }
}

/// Decides whether `x` lies on the arc from `a` to `b`, `b` included.
pub fn is_between_half_open(x: u64, a: u64, b: u64) -> (r: bool)
    ensures
        r == between_half_open(x, a, b),
{
    proof {
        lemma_between_half_open_by_order(x, a, b);
    }
    if a < b {
        a < x && x <= b
    } else {
        x > a || x <= b
    }
}

} // verus!
