//! The `Ordering` node weight: a node whose content is an explicit sequence of
//! child identifiers.

use crate::change_set::{ChangeSet, ChangeSetError};
use crate::content_hash::{blake3_digest, ContentHash};
use crate::content_node_weight::{empty_content_hash, empty_digest};
use crate::node_weight::{counter_exhausted, counter_exhausted_error, NodeWeightError};
use crate::vector_clock::{bumped, join, VectorClock};
use vstd::prelude::*;

verus! {

/// The 16 big-endian bytes of an identifier.
pub open spec fn id_bytes(id: u128) -> Seq<u8> {
    Seq::new(16, |i: int| ((id >> ((120 - 8 * i) as u128)) & 0xff) as u8)
}

/// The bytes that a child order is hashed over: each identifier's 16 bytes in
/// turn.
pub open spec fn order_bytes(order: Seq<u128>) -> Seq<u8> {
    order.map_values(|id: u128| id_bytes(id)).flatten()
}

/// Appends the 16 big-endian bytes of `id` to `buf`.
fn push_id_bytes(buf: &mut Vec<u8>, id: u128)
    ensures
        final(buf)@ == old(buf)@ + id_bytes(id),
{
    let ghost start = buf@;
    let mut k: u128 = 0;
    while k < 16
        invariant
            k <= 16,
            buf@ == start + id_bytes(id).subrange(0, k as int),
        decreases 16 - k,
    {
        let shift: u128 = 120 - 8 * k;
        let b: u8 = ((id >> shift) & 0xff) as u8;
        buf.push(b);
        k = k + 1;
        assert(buf@ =~= start + id_bytes(id).subrange(0, k as int));
    }
    assert(id_bytes(id).subrange(0, 16) =~= id_bytes(id));
}

/// The encoding of a child order that its content hash is taken over.
pub fn encode_order(order: &Vec<u128>) -> (r: Vec<u8>)
    ensures
        r@ == order_bytes(order@),
{
    let mut buf: Vec<u8> = Vec::new();
    let mut i: usize = 0;
    while i < order.len()
        invariant
            i <= order.len(),
            buf@ == order@.subrange(0, i as int).map_values(|id: u128| id_bytes(id)).flatten(),
        decreases order.len() - i,
    {
        let ghost prefix = order@.subrange(0, i as int).map_values(|id: u128| id_bytes(id));
        push_id_bytes(&mut buf, order[i]);
        proof {
            assert(order@.subrange(0, i + 1).map_values(|id: u128| id_bytes(id)) =~= prefix.push(
                id_bytes(order@[i as int]),
            ));
            prefix.lemma_flatten_push(id_bytes(order@[i as int]));
        }
        i = i + 1;
    }
    assert(order@.subrange(0, order.len() as int) =~= order@);
    buf
}

/// The mathematical model of an `Ordering` node weight.
pub struct OrderingNodeWeightView {
    pub id: u128,
    pub order: Seq<u128>,
    pub merkle_tree_hash: Seq<u8>,
    pub vector_clock_seen: Map<u128, u64>,
    pub vector_clock_write: Map<u128, u64>,
}

/// A node that keeps an explicit order of child identifiers; its seen clock is
/// present from creation on.
#[derive(Clone, Debug)]
pub struct OrderingNodeWeight {
    id: u128,
    order: Vec<u128>,
    merkle_tree_hash: ContentHash,
    vector_clock_seen: VectorClock,
    vector_clock_write: VectorClock,
}

impl View for OrderingNodeWeight {
    type V = OrderingNodeWeightView;

    closed spec fn view(&self) -> OrderingNodeWeightView {
        OrderingNodeWeightView {
            id: self.id,
            order: self.order@,
            merkle_tree_hash: self.merkle_tree_hash@,
            vector_clock_seen: self.vector_clock_seen@,
            vector_clock_write: self.vector_clock_write@,
        }
    }
}

fn copy_order(order: &Vec<u128>) -> (r: Vec<u128>)
    ensures
        r@ == order@,
{
    let mut r: Vec<u128> = Vec::new();
    let mut i: usize = 0;
    while i < order.len()
        invariant
            i <= order.len(),
            r@ == order@.subrange(0, i as int),
        decreases order.len() - i,
    {
        r.push(order[i]);
        i = i + 1;
        assert(r@ =~= order@.subrange(0, i as int));
    }
    assert(order@.subrange(0, order.len() as int) =~= order@);
    r
}

impl OrderingNodeWeight {
    /// A fresh node with a generated identity and no children; its write and
    /// seen clocks both hold the acting change set at its next counter value.
    pub fn new(change_set: &mut ChangeSet) -> (r: Result<OrderingNodeWeight, NodeWeightError>)
        ensures
            final(change_set).actor() == old(change_set).actor(),
            r matches Ok(w) ==> w@ == (OrderingNodeWeightView {
                id: w@.id,
                order: Seq::empty(),
                merkle_tree_hash: empty_digest(),
                vector_clock_seen: map![old(change_set).actor() => old(change_set).counter()],
                vector_clock_write: map![old(change_set).actor() => old(change_set).counter()],
            }) && old(change_set).counter() < u64::MAX && final(change_set).counter() == old(
                change_set,
            ).counter() + 1,
            r matches Err(e) ==> e == NodeWeightError::ChangeSet(ChangeSetError::IdGeneration) || (
            e == counter_exhausted() && old(change_set).counter() == u64::MAX),
            old(change_set).counter() == u64::MAX ==> r is Err,
    {
        let id = match change_set.generate_id() {
            Ok(id) => id,
            Err(e) => return Err(NodeWeightError::ChangeSet(e)),
        };
        let write = match VectorClock::new(change_set) {
            Ok(vc) => vc,
            Err(e) => return Err(NodeWeightError::VectorClock(e)),
        };
        let seen = write.clone();
        Ok(OrderingNodeWeight {
            id,
            order: Vec::new(),
            merkle_tree_hash: empty_content_hash(),
            vector_clock_seen: seen,
            vector_clock_write: write,
        })
    }

    /// Restores a node from its stored parts.
    pub fn from_parts(
        id: u128,
        order: Vec<u128>,
        merkle_tree_hash: ContentHash,
        vector_clock_seen: VectorClock,
        vector_clock_write: VectorClock,
    ) -> (r: OrderingNodeWeight)
        ensures
            r@ == (OrderingNodeWeightView {
                id,
                order: order@,
                merkle_tree_hash: merkle_tree_hash@,
                vector_clock_seen: vector_clock_seen@,
                vector_clock_write: vector_clock_write@,
            }),
    {
        OrderingNodeWeight { id, order, merkle_tree_hash, vector_clock_seen, vector_clock_write }
    }

    pub fn id(&self) -> (r: u128)
        ensures
            r == self@.id,
    {
        self.id
    }

    /// The child identifiers, in order.
    pub fn order(&self) -> (r: &Vec<u128>)
        ensures
            r@ == self@.order,
    {
        &self.order
    }

    /// Replaces the child order; nothing else changes.
    pub fn set_order(&mut self, order: Vec<u128>)
        ensures
            final(self)@ == (OrderingNodeWeightView { order: order@, ..old(self)@ }),
    {
        self.order = order;
    }

    /// The hash of the child order, which is this node's content.
    pub fn content_hash(&self) -> (r: ContentHash)
        ensures
            r@ == blake3_digest(order_bytes(self@.order)),
    {
        let bytes = encode_order(&self.order);
        ContentHash::new(bytes.as_slice())
    }

    pub fn merkle_tree_hash(&self) -> (r: ContentHash)
        ensures
            r@ == self@.merkle_tree_hash,
    {
        self.merkle_tree_hash
    }

    pub fn vector_clock_seen(&self) -> (r: &VectorClock)
        ensures
            r@ == self@.vector_clock_seen,
    {
        &self.vector_clock_seen
    }

    pub fn vector_clock_write(&self) -> (r: &VectorClock)
        ensures
            r@ == self@.vector_clock_write,
    {
        &self.vector_clock_write
    }

    /// Replaces the merkle tree hash; nothing else changes.
    pub fn set_merkle_tree_hash(&mut self, new_hash: ContentHash)
        ensures
            final(self)@ == (OrderingNodeWeightView { merkle_tree_hash: new_hash@, ..old(self)@ }),
    {
        self.merkle_tree_hash = new_hash;
    }

    /// Advances the seen clock for the acting change set.
    pub fn increment_seen_vector_clock(&mut self, change_set: &mut ChangeSet) -> (r: Result<
        (),
        NodeWeightError,
    >)
        ensures
            final(change_set).actor() == old(change_set).actor(),
            old(change_set).counter() < u64::MAX ==> r is Ok && final(self)@ == (
            OrderingNodeWeightView {
                vector_clock_seen: bumped(
                    old(self)@.vector_clock_seen,
                    old(change_set).actor(),
                    old(change_set).counter(),
                ),
                ..old(self)@
            }) && final(change_set).counter() == old(change_set).counter() + 1,
            old(change_set).counter() == u64::MAX ==> r == Err::<(), NodeWeightError>(
                counter_exhausted(),
            ) && *final(self) == *old(self) && *final(change_set) == *old(change_set),
    {
        match self.vector_clock_seen.increment(change_set) {
            Ok(()) => Ok(()),
            Err(e) => Err(NodeWeightError::VectorClock(e)),
        }
    }

    /// Joins the other node's clocks into this node's, write clock into write
    /// clock and seen clock into seen clock, then records the acting change
    /// set's observation in the seen clock.
    pub fn merge_clocks(&mut self, change_set: &mut ChangeSet, other: &OrderingNodeWeight) -> (r:
        Result<(), NodeWeightError>)
        ensures
            final(change_set).actor() == old(change_set).actor(),
            old(change_set).counter() < u64::MAX ==> r is Ok && final(self)@ == (
            OrderingNodeWeightView {
                vector_clock_write: join(old(self)@.vector_clock_write, other@.vector_clock_write),
                vector_clock_seen: bumped(
                    join(old(self)@.vector_clock_seen, other@.vector_clock_seen),
                    old(change_set).actor(),
                    old(change_set).counter(),
                ),
                ..old(self)@
            }) && final(change_set).counter() == old(change_set).counter() + 1,
            old(change_set).counter() == u64::MAX ==> r == Err::<(), NodeWeightError>(
                counter_exhausted(),
            ) && *final(self) == *old(self) && *final(change_set) == *old(change_set),
    {
        if change_set.peek_counter() == u64::MAX {
            return Err(counter_exhausted_error());
        }
        self.vector_clock_write.merge(&other.vector_clock_write);
        self.vector_clock_seen.merge(&other.vector_clock_seen);
        match self.vector_clock_seen.increment(change_set) {
            Ok(()) => Ok(()),
            Err(e) => Err(NodeWeightError::VectorClock(e)),
        }
    }

    /// A new revision of this node: the same identity and child order, with the
    /// write clock advanced for the acting change set.
    pub fn new_with_incremented_vector_clocks(&self, change_set: &mut ChangeSet) -> (r: Result<
        OrderingNodeWeight,
        NodeWeightError,
    >)
        ensures
            final(change_set).actor() == old(change_set).actor(),
            old(change_set).counter() < u64::MAX ==> (r matches Ok(w) && w@ == (
            OrderingNodeWeightView {
                vector_clock_write: bumped(
                    self@.vector_clock_write,
                    old(change_set).actor(),
                    old(change_set).counter(),
                ),
                ..self@
            })) && final(change_set).counter() == old(change_set).counter() + 1,
            old(change_set).counter() == u64::MAX ==> r == Err::<
                OrderingNodeWeight,
                NodeWeightError,
            >(counter_exhausted()) && *final(change_set) == *old(change_set),
    {
        let mut write = self.vector_clock_write.clone();
        match write.increment(change_set) {
            Ok(()) => {},
            Err(e) => return Err(NodeWeightError::VectorClock(e)),
        }
        Ok(OrderingNodeWeight {
            id: self.id,
            order: copy_order(&self.order),
            merkle_tree_hash: self.merkle_tree_hash,
            vector_clock_seen: self.vector_clock_seen.clone(),
            vector_clock_write: write,
        })
    }
}

} // verus!
