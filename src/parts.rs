//! The plain parts of a node weight, as the persistence adapter stores them,
//! and the way back from stored parts to a node weight.

use crate::content_hash::ContentHash;
use crate::content_node_weight::{ContentKind, ContentNodeWeight};
use crate::node_weight::{NodeWeight, NodeWeightView};
use crate::ordering_node_weight::OrderingNodeWeight;
use crate::vector_clock::{entries_map, strictly_sorted, ClockEntry, VectorClock};
use vstd::prelude::*;

verus! {

/// The stored parts of a `Content` node weight.
#[derive(Clone, Debug, PartialEq, Eq)]
pub struct ContentParts {
    pub id: u128,
    pub kind: ContentKind,
    pub content_hash: [u8; 32],
    pub merkle_tree_hash: [u8; 32],
    pub vector_clock_seen: Option<Vec<ClockEntry>>,
    pub vector_clock_write: Vec<ClockEntry>,
}

/// The stored parts of an `Ordering` node weight.
#[derive(Clone, Debug, PartialEq, Eq)]
pub struct OrderingParts {
    pub id: u128,
    pub order: Vec<u128>,
    pub merkle_tree_hash: [u8; 32],
    pub vector_clock_seen: Vec<ClockEntry>,
    pub vector_clock_write: Vec<ClockEntry>,
}

/// The stored parts of a node weight.
#[derive(Clone, Debug, PartialEq, Eq)]
pub enum NodeWeightParts {
    Content(ContentParts),
    Ordering(OrderingParts),
}

/// Entries `s` are the stored form of clock `m`.
pub open spec fn clock_describes(s: Seq<ClockEntry>, m: Map<u128, u64>) -> bool {
    strictly_sorted(s) && entries_map(s) == m
}

/// Stored parts `p` describe the node weight model `w`, field by field.
pub open spec fn parts_describe(p: NodeWeightParts, w: NodeWeightView) -> bool {
    match (p, w) {
        (NodeWeightParts::Content(c), NodeWeightView::Content(v)) => {
            &&& c.id == v.id
            &&& c.kind == v.kind
            &&& c.content_hash@ == v.content_hash
            &&& c.merkle_tree_hash@ == v.merkle_tree_hash
            &&& clock_describes(c.vector_clock_write@, v.vector_clock_write)
            &&& match (c.vector_clock_seen, v.vector_clock_seen) {
                (None, None) => true,
                (Some(s), Some(m)) => clock_describes(s@, m),
                _ => false,
            }
        },
        (NodeWeightParts::Ordering(o), NodeWeightView::Ordering(v)) => {
            &&& o.id == v.id
            &&& o.order@ == v.order
            &&& o.merkle_tree_hash@ == v.merkle_tree_hash
            &&& clock_describes(o.vector_clock_seen@, v.vector_clock_seen)
            &&& clock_describes(o.vector_clock_write@, v.vector_clock_write)
        },
        _ => false,
    }
}

/// Every clock in stored parts `p` has its entries strictly sorted by actor.
pub open spec fn parts_valid(p: NodeWeightParts) -> bool {
    match p {
        NodeWeightParts::Content(c) => strictly_sorted(c.vector_clock_write@) && match c.vector_clock_seen {
            Some(s) => strictly_sorted(s@),
            None => true,
        },
        NodeWeightParts::Ordering(o) => strictly_sorted(o.vector_clock_seen@) && strictly_sorted(
            o.vector_clock_write@,
        ),
    }
}

/// The round trip through stored parts: parts that describe a node are valid,
/// and the node that valid parts are restored to is the node they were taken
/// from, in identity, content hash or child order, both clocks and merkle tree
/// hash.
pub proof fn lemma_parts_round_trip(p: NodeWeightParts, w: NodeWeightView, restored: NodeWeightView)
    requires
        parts_describe(p, w),
        parts_describe(p, restored),
    ensures
        parts_valid(p),
        restored == w,
{
}

fn copy_entries(v: &Vec<ClockEntry>) -> (r: Vec<ClockEntry>)
    ensures
        r@ == v@,
{
    let mut r: Vec<ClockEntry> = Vec::new();
    let mut i: usize = 0;
    while i < v.len()
        invariant
            i <= v@.len(),
            r@ == v@.subrange(0, i as int),
        decreases v@.len() - i,
    {
        r.push(v[i]);
        i = i + 1;
        assert(r@ =~= v@.subrange(0, i as int));
    }
    assert(v@.subrange(0, v@.len() as int) =~= v@);
    r
}

fn copy_ids(v: &Vec<u128>) -> (r: Vec<u128>)
    ensures
        r@ == v@,
{
    let mut r: Vec<u128> = Vec::new();
    let mut i: usize = 0;
    while i < v.len()
        invariant
            i <= v@.len(),
            r@ == v@.subrange(0, i as int),
        decreases v@.len() - i,
    {
        r.push(v[i]);
        i = i + 1;
        assert(r@ =~= v@.subrange(0, i as int));
    }
    assert(v@.subrange(0, v@.len() as int) =~= v@);
    r
}

impl NodeWeight {
    /// The parts that a persistence adapter stores for this node.
    pub fn to_parts(&self) -> (r: NodeWeightParts)
        ensures
            parts_describe(r, self@),
    {
        match self {
            NodeWeight::Content(c) => {
                let seen = match c.vector_clock_seen() {
                    Some(vc) => Some(vc.entries()),
                    None => None,
                };
                NodeWeightParts::Content(
                    ContentParts {
                        id: c.id(),
                        kind: c.content_kind(),
                        content_hash: c.content_hash().as_bytes(),
                        merkle_tree_hash: c.merkle_tree_hash().as_bytes(),
                        vector_clock_seen: seen,
                        vector_clock_write: c.vector_clock_write().entries(),
                    },
                )
            },
            NodeWeight::Ordering(o) => NodeWeightParts::Ordering(
                OrderingParts {
                    id: o.id(),
                    order: copy_ids(o.order()),
                    merkle_tree_hash: o.merkle_tree_hash().as_bytes(),
                    vector_clock_seen: o.vector_clock_seen().entries(),
                    vector_clock_write: o.vector_clock_write().entries(),
                },
            ),
        }
    }

    /// Restores a node from stored parts; `None` where a clock's entries are
    /// not strictly sorted by actor.
    pub fn from_parts(parts: &NodeWeightParts) -> (r: Option<NodeWeight>)
        ensures
            r is Some <==> parts_valid(*parts),
            r matches Some(w) ==> parts_describe(*parts, w@),
    {
        match parts {
            NodeWeightParts::Content(c) => {
                let write = match VectorClock::from_entries(copy_entries(&c.vector_clock_write)) {
                    Some(vc) => vc,
                    None => return None,
                };
                let seen = match &c.vector_clock_seen {
                    Some(s) => match VectorClock::from_entries(copy_entries(s)) {
                        Some(vc) => Some(vc),
                        None => return None,
                    },
                    None => None,
                };
                Some(
                    NodeWeight::Content(
                        ContentNodeWeight::from_parts(
                            c.id,
                            c.kind,
                            ContentHash::from_bytes(c.content_hash),
                            ContentHash::from_bytes(c.merkle_tree_hash),
                            seen,
                            write,
                        ),
                    ),
                )
            },
            NodeWeightParts::Ordering(o) => {
                let seen = match VectorClock::from_entries(copy_entries(&o.vector_clock_seen)) {
                    Some(vc) => vc,
                    None => return None,
                };
                let write = match VectorClock::from_entries(copy_entries(&o.vector_clock_write)) {
                    Some(vc) => vc,
                    None => return None,
                };
                Some(
                    NodeWeight::Ordering(
                        OrderingNodeWeight::from_parts(
                            o.id,
                            copy_ids(&o.order),
                            ContentHash::from_bytes(o.merkle_tree_hash),
                            seen,
                            write,
                        ),
                    ),
                )
            },
        }
    }
}

} // verus!
