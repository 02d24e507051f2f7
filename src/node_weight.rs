//! Node weights: the versioned payload attached to each node of the
//! workspace graph.

use crate::change_set::{ChangeSet, ChangeSetError};
use crate::content_hash::{blake3_digest, ContentHash};
use crate::content_node_weight::{
    join_seen, ContentKind, ContentNodeWeight, ContentNodeWeightView,
};
use crate::merkle::{compute_merkle_tree_hash, hash_views, merkle_hash_of};
use crate::ordering_node_weight::{order_bytes, OrderingNodeWeight, OrderingNodeWeightView};
use crate::vector_clock::{bumped, join, VectorClock, VectorClockError};
use vstd::prelude::*;

verus! {

/// Why an operation on a node weight failed.
#[derive(Clone, Copy, Debug, PartialEq, Eq)]
pub enum NodeWeightError {
    /// A content hash was set on a variant that does not carry one.
    CannotSetContentHashOnKind,
    /// The root node's content hash cannot change.
    CannotUpdateRootNodeContentHash,
    /// The acting change set could not hand out a value.
    ChangeSet(ChangeSetError),
    /// Clocks were merged across different variants.
    IncompatibleNodeWeightVariants,
    /// A seen clock was advanced or merged on a node that has none.
    NoSeenVectorClock,
    /// A vector clock operation failed.
    VectorClock(VectorClockError),
}

/// The error that a change set with no counter value left causes.
pub open spec fn counter_exhausted() -> NodeWeightError {
    NodeWeightError::VectorClock(VectorClockError::ChangeSet(ChangeSetError::CounterExhausted))
}

/// The error that a change set with no counter value left causes.
pub(crate) fn counter_exhausted_error() -> (r: NodeWeightError)
    ensures
        r == counter_exhausted(),
{
    NodeWeightError::VectorClock(VectorClockError::ChangeSet(ChangeSetError::CounterExhausted))
}

/// The mathematical model of a node weight.
pub enum NodeWeightView {
    Content(ContentNodeWeightView),
    Ordering(OrderingNodeWeightView),
}

impl NodeWeightView {
    pub open spec fn id(self) -> u128 {
        match self {
            NodeWeightView::Content(c) => c.id,
            NodeWeightView::Ordering(o) => o.id,
        }
    }

    /// The content hash: the stored one for `Content`, the hash of the child
    /// order for `Ordering`.
    pub open spec fn content_hash(self) -> Seq<u8> {
        match self {
            NodeWeightView::Content(c) => c.content_hash,
            NodeWeightView::Ordering(o) => blake3_digest(order_bytes(o.order)),
        }
    }

    pub open spec fn merkle_tree_hash(self) -> Seq<u8> {
        match self {
            NodeWeightView::Content(c) => c.merkle_tree_hash,
            NodeWeightView::Ordering(o) => o.merkle_tree_hash,
        }
    }

    pub open spec fn write(self) -> Map<u128, u64> {
        match self {
            NodeWeightView::Content(c) => c.vector_clock_write,
            NodeWeightView::Ordering(o) => o.vector_clock_write,
        }
    }

    pub open spec fn seen(self) -> Option<Map<u128, u64>> {
        match self {
            NodeWeightView::Content(c) => c.vector_clock_seen,
            NodeWeightView::Ordering(o) => Some(o.vector_clock_seen),
        }
    }

    pub open spec fn with_write(self, m: Map<u128, u64>) -> NodeWeightView {
        match self {
            NodeWeightView::Content(c) => NodeWeightView::Content(
                ContentNodeWeightView { vector_clock_write: m, ..c },
            ),
            NodeWeightView::Ordering(o) => NodeWeightView::Ordering(
                OrderingNodeWeightView { vector_clock_write: m, ..o },
            ),
        }
    }

    pub open spec fn with_seen(self, m: Map<u128, u64>) -> NodeWeightView {
        match self {
            NodeWeightView::Content(c) => NodeWeightView::Content(
                ContentNodeWeightView { vector_clock_seen: Some(m), ..c },
            ),
            NodeWeightView::Ordering(o) => NodeWeightView::Ordering(
                OrderingNodeWeightView { vector_clock_seen: m, ..o },
            ),
        }
    }

    pub open spec fn with_merkle_tree_hash(self, h: Seq<u8>) -> NodeWeightView {
        match self {
            NodeWeightView::Content(c) => NodeWeightView::Content(
                ContentNodeWeightView { merkle_tree_hash: h, ..c },
            ),
            NodeWeightView::Ordering(o) => NodeWeightView::Ordering(
                OrderingNodeWeightView { merkle_tree_hash: h, ..o },
            ),
        }
    }

    /// Both are `Content` or both are `Ordering`.
    pub open spec fn same_variant(self, other: NodeWeightView) -> bool {
        (self is Content && other is Content) || (self is Ordering && other is Ordering)
    }
}

/// The model of the node that `new_content` creates with identity `id` for an
/// actor at counter value `c`.
pub open spec fn fresh_content(id: u128, kind: ContentKind, actor: u128, c: u64) -> NodeWeightView {
    NodeWeightView::Content(
        ContentNodeWeightView {
            id,
            kind,
            content_hash: blake3_digest(Seq::empty()),
            merkle_tree_hash: blake3_digest(Seq::empty()),
            vector_clock_seen: None,
            vector_clock_write: map![actor => c],
        },
    )
}

/// The outcome of advancing the seen clock of `w` for `actor` at counter value
/// `c`.
pub open spec fn seen_incremented(w: NodeWeightView, actor: u128, c: u64) -> Result<
    NodeWeightView,
    NodeWeightError,
> {
    match w.seen() {
        None => Err(NodeWeightError::NoSeenVectorClock),
        Some(seen) => if c == u64::MAX {
            Err(counter_exhausted())
        } else {
            Ok(w.with_seen(bumped(seen, actor, c)))
        },
    }
}

/// The outcome of merging the clocks of `other` into `w`, acting as `actor` at
/// counter value `c`.
pub open spec fn clocks_merged(w: NodeWeightView, other: NodeWeightView, actor: u128, c: u64) -> Result<
    NodeWeightView,
    NodeWeightError,
> {
    if !w.same_variant(other) {
        Err(NodeWeightError::IncompatibleNodeWeightVariants)
    } else {
        match w.seen() {
            None => Err(NodeWeightError::NoSeenVectorClock),
            Some(seen) => if c == u64::MAX {
                Err(counter_exhausted())
            } else {
                Ok(
                    w.with_write(join(w.write(), other.write())).with_seen(
                        bumped(join_seen(seen, other.seen()), actor, c),
                    ),
                )
            },
        }
    }
}

/// The new revision of `w` made by `actor` at counter value `c`.
pub open spec fn revised(w: NodeWeightView, actor: u128, c: u64) -> NodeWeightView {
    w.with_write(bumped(w.write(), actor, c))
}

/// The versioned payload of a graph node.
#[derive(Clone, Debug)]
pub enum NodeWeight {
    Content(ContentNodeWeight),
    Ordering(OrderingNodeWeight),
}

impl View for NodeWeight {
    type V = NodeWeightView;

    open spec fn view(&self) -> NodeWeightView {
        match self {
            NodeWeight::Content(c) => NodeWeightView::Content(c@),
            NodeWeight::Ordering(o) => NodeWeightView::Ordering(o@),
        }
    }
}

impl NodeWeight {
    pub fn content_hash(&self) -> (r: ContentHash)
        ensures
            r@ == self@.content_hash(),
    {
        match self {
            NodeWeight::Content(content_weight) => content_weight.content_hash(),
            NodeWeight::Ordering(ordering_weight) => ordering_weight.content_hash(),
        }
    }

    pub fn id(&self) -> (r: u128)
        ensures
            r == self@.id(),
    {
        match self {
            NodeWeight::Content(content_weight) => content_weight.id(),
            NodeWeight::Ordering(ordering_weight) => ordering_weight.id(),
        }
    }

    /// Advances the seen clock for the acting change set; a `Content` node
    /// without a seen clock fails with `NoSeenVectorClock`.
    pub fn increment_seen_vector_clock(&mut self, change_set: &mut ChangeSet) -> (r: Result<
        (),
        NodeWeightError,
    >)
        ensures
            final(change_set).actor() == old(change_set).actor(),
            match seen_incremented(old(self)@, old(change_set).actor(), old(change_set).counter()) {
                Ok(v) => r is Ok && final(self)@ == v && final(change_set).counter() == old(
                    change_set,
                ).counter() + 1,
                Err(e) => r == Err::<(), NodeWeightError>(e) && *final(self) == *old(self)
                    && *final(change_set) == *old(change_set),
            },
    {
        match self {
            NodeWeight::Content(content_weight) => {
                content_weight.increment_seen_vector_clock(change_set)
            },
            NodeWeight::Ordering(ordering_weight) => {
                ordering_weight.increment_seen_vector_clock(change_set)
            },
        }
    }

    /// Joins the clocks of `other`, which must be of the same variant, into
    /// this node's, and records the acting change set's observation in the
    /// seen clock.
    pub fn merge_clocks(&mut self, change_set: &mut ChangeSet, other: &NodeWeight) -> (r: Result<
        (),
        NodeWeightError,
    >)
        ensures
            final(change_set).actor() == old(change_set).actor(),
            match clocks_merged(old(self)@, other@, old(change_set).actor(), old(change_set).counter()) {
                Ok(v) => r is Ok && final(self)@ == v && final(change_set).counter() == old(
                    change_set,
                ).counter() + 1,
                Err(e) => r == Err::<(), NodeWeightError>(e) && *final(self) == *old(self)
                    && *final(change_set) == *old(change_set),
            },
    {
        match (self, other) {
            (NodeWeight::Content(self_content_weight), NodeWeight::Content(other_content_weight)) => {
                self_content_weight.merge_clocks(change_set, other_content_weight)
            },
            (
                NodeWeight::Ordering(self_ordering_weight),
                NodeWeight::Ordering(other_ordering_weight),
            ) => self_ordering_weight.merge_clocks(change_set, other_ordering_weight),
            _ => Err(NodeWeightError::IncompatibleNodeWeightVariants),
        }
    }

    pub fn merkle_tree_hash(&self) -> (r: ContentHash)
        ensures
            r@ == self@.merkle_tree_hash(),
    {
        match self {
            NodeWeight::Content(content_weight) => content_weight.merkle_tree_hash(),
            NodeWeight::Ordering(ordering_weight) => ordering_weight.merkle_tree_hash(),
        }
    }

    /// Points a `Content` node at new content. An `Ordering` node fails with
    /// `CannotSetContentHashOnKind`, the root with
    /// `CannotUpdateRootNodeContentHash`.
    pub fn new_content_hash(&mut self, content_hash: ContentHash) -> (r: Result<
        (),
        NodeWeightError,
    >)
        ensures
            old(self)@ is Ordering ==> r == Err::<(), NodeWeightError>(
                NodeWeightError::CannotSetContentHashOnKind,
            ) && *final(self) == *old(self),
            old(self)@ matches NodeWeightView::Content(c) ==> (c.kind == ContentKind::Root ==> r
                == Err::<(), NodeWeightError>(NodeWeightError::CannotUpdateRootNodeContentHash)
                && *final(self) == *old(self)) && (c.kind != ContentKind::Root ==> r is Ok
                && final(self)@ == NodeWeightView::Content(
                ContentNodeWeightView { content_hash: content_hash@, ..c },
            )),
    {
        match self {
            NodeWeight::Content(content_weight) => content_weight.new_content_hash(content_hash),
            NodeWeight::Ordering(_) => Err(NodeWeightError::CannotSetContentHashOnKind),
        }
    }

    /// A fresh `Content` node with identity `id`, a write clock holding the
    /// acting change set at its next counter value, and no seen clock.
    pub fn new_content(change_set: &mut ChangeSet, content_id: u128, kind: ContentKind) -> (r:
        Result<NodeWeight, NodeWeightError>)
        ensures
            final(change_set).actor() == old(change_set).actor(),
            old(change_set).counter() < u64::MAX ==> (r matches Ok(w) && w@ == fresh_content(
                content_id,
                kind,
                old(change_set).actor(),
                old(change_set).counter(),
            )) && final(change_set).counter() == old(change_set).counter() + 1,
            old(change_set).counter() == u64::MAX ==> r == Err::<NodeWeight, NodeWeightError>(
                counter_exhausted(),
            ) && *final(change_set) == *old(change_set),
    {
        Ok(NodeWeight::Content(ContentNodeWeight::new(change_set, content_id, kind)?))
    }

    /// A fresh `Content` node with a generated identity whose write and seen
    /// clocks both hold the acting change set at its next counter value.
    pub fn new_content_with_seen_vector_clock(change_set: &mut ChangeSet, kind: ContentKind) -> (r:
        Result<NodeWeight, NodeWeightError>)
        ensures
            final(change_set).actor() == old(change_set).actor(),
            r matches Ok(w) ==> w@ == NodeWeightView::Content(
                ContentNodeWeightView {
                    id: w@.id(),
                    kind,
                    content_hash: blake3_digest(Seq::empty()),
                    merkle_tree_hash: blake3_digest(Seq::empty()),
                    vector_clock_seen: Some(
                        map![old(change_set).actor() => old(change_set).counter()],
                    ),
                    vector_clock_write: map![old(change_set).actor() => old(change_set).counter()],
                },
            ) && old(change_set).counter() < u64::MAX && final(change_set).counter() == old(
                change_set,
            ).counter() + 1,
            r matches Err(e) ==> e == NodeWeightError::ChangeSet(ChangeSetError::IdGeneration) || (
            e == counter_exhausted() && old(change_set).counter() == u64::MAX),
            old(change_set).counter() == u64::MAX ==> r is Err,
    {
        Ok(NodeWeight::Content(ContentNodeWeight::new_with_seen_vector_clock(change_set, kind)?))
    }

    /// A fresh `Ordering` node with a generated identity and no children.
    pub fn new_ordering(change_set: &mut ChangeSet) -> (r: Result<NodeWeight, NodeWeightError>)
        ensures
            final(change_set).actor() == old(change_set).actor(),
            r matches Ok(w) ==> w@ == NodeWeightView::Ordering(
                OrderingNodeWeightView {
                    id: w@.id(),
                    order: Seq::empty(),
                    merkle_tree_hash: blake3_digest(Seq::empty()),
                    vector_clock_seen: map![old(change_set).actor() => old(change_set).counter()],
                    vector_clock_write: map![old(change_set).actor() => old(change_set).counter()],
                },
            ) && old(change_set).counter() < u64::MAX && final(change_set).counter() == old(
                change_set,
            ).counter() + 1,
            r matches Err(e) ==> e == NodeWeightError::ChangeSet(ChangeSetError::IdGeneration) || (
            e == counter_exhausted() && old(change_set).counter() == u64::MAX),
            old(change_set).counter() == u64::MAX ==> r is Err,
    {
        Ok(NodeWeight::Ordering(OrderingNodeWeight::new(change_set)?))
    }

    /// A new revision of this node: identity and payload kept, the write clock
    /// advanced for the acting change set. The node itself is left as it is.
    pub fn new_with_incremented_vector_clocks(&self, change_set: &mut ChangeSet) -> (r: Result<
        NodeWeight,
        NodeWeightError,
    >)
        ensures
            final(change_set).actor() == old(change_set).actor(),
            old(change_set).counter() < u64::MAX ==> (r matches Ok(w) && w@ == revised(
                self@,
                old(change_set).actor(),
                old(change_set).counter(),
            )) && final(change_set).counter() == old(change_set).counter() + 1,
            old(change_set).counter() == u64::MAX ==> r == Err::<NodeWeight, NodeWeightError>(
                counter_exhausted(),
            ) && *final(change_set) == *old(change_set),
    {
        let new_weight = match self {
            NodeWeight::Content(content_weight) => {
                NodeWeight::Content(content_weight.new_with_incremented_vector_clocks(change_set)?)
            },
            NodeWeight::Ordering(ordering_weight) => NodeWeight::Ordering(
                ordering_weight.new_with_incremented_vector_clocks(change_set)?,
            ),
        };
        Ok(new_weight)
    }

    /// Replaces the merkle tree hash; nothing else changes.
    pub fn set_merkle_tree_hash(&mut self, new_hash: ContentHash)
        ensures
            final(self)@ == old(self)@.with_merkle_tree_hash(new_hash@),
    {
        match self {
            NodeWeight::Content(content_weight) => content_weight.set_merkle_tree_hash(new_hash),
            NodeWeight::Ordering(ordering_weight) => ordering_weight.set_merkle_tree_hash(new_hash),
        }
    }

    /// Recomputes the merkle tree hash from the node's content hash and the
    /// merkle tree hashes of its current children, in order.
    pub fn recompute_merkle_tree_hash(&mut self, child_merkle_hashes: &[ContentHash])
        ensures
            final(self)@ == old(self)@.with_merkle_tree_hash(
                merkle_hash_of(old(self)@.content_hash(), hash_views(child_merkle_hashes@)),
            ),
    {
        let own = self.content_hash();
        let h = compute_merkle_tree_hash(&own, child_merkle_hashes);
        self.set_merkle_tree_hash(h);
    }

    pub fn vector_clock_seen(&self) -> (r: Option<&VectorClock>)
        ensures
            match r {
                Some(vc) => self@.seen() == Some(vc@),
                None => self@.seen() is None,
            },
    {
        match self {
            NodeWeight::Content(content_weight) => content_weight.vector_clock_seen(),
            NodeWeight::Ordering(ordering_weight) => Some(ordering_weight.vector_clock_seen()),
        }
    }

    pub fn vector_clock_write(&self) -> (r: &VectorClock)
        ensures
            r@ == self@.write(),
    {
        match self {
            NodeWeight::Content(content_weight) => content_weight.vector_clock_write(),
            NodeWeight::Ordering(ordering_weight) => ordering_weight.vector_clock_write(),
        }
    }
}

/// Copy-on-write isolation: a new revision made by a change set that had no
/// entry in the write clock has a different write clock, and every other part
/// of it (identity, content, merkle tree hash, seen clock) is that of the node
/// it was made from, which itself is left as it is.
pub proof fn lemma_revision_isolated(w1: NodeWeight, change_set: ChangeSet)
    requires
        !w1@.write().contains_key(change_set.actor()),
    ensures
        revised(w1@, change_set.actor(), change_set.counter()).write() != w1@.write(),
        revised(w1@, change_set.actor(), change_set.counter()).with_write(w1@.write()) == w1@,
        revised(w1@, change_set.actor(), change_set.counter()).id() == w1@.id(),
        revised(w1@, change_set.actor(), change_set.counter()).content_hash() == w1@.content_hash(),
        revised(w1@, change_set.actor(), change_set.counter()).merkle_tree_hash()
            == w1@.merkle_tree_hash(),
        revised(w1@, change_set.actor(), change_set.counter()).seen() == w1@.seen(),
{
    let w2 = revised(w1@, change_set.actor(), change_set.counter());
    assert(w2.write().contains_key(change_set.actor()));
    match w1@ {
        NodeWeightView::Content(c) => {
            assert(w2.with_write(w1@.write()) == NodeWeightView::Content(c));
        },
        NodeWeightView::Ordering(o) => {
            assert(w2.with_write(w1@.write()) == NodeWeightView::Ordering(o));
        },
    }
}

/// A `Content` node fresh from `new_content` has no seen clock, so advancing its
/// seen clock fails with `NoSeenVectorClock`, whichever change set acts.
pub proof fn lemma_fresh_content_has_no_seen_clock(
    id: u128,
    kind: ContentKind,
    creator: ChangeSet,
    actor: ChangeSet,
)
    ensures
        fresh_content(id, kind, creator.actor(), creator.counter()).seen() is None,
        seen_incremented(
            fresh_content(id, kind, creator.actor(), creator.counter()),
            actor.actor(),
            actor.counter(),
        ) == Err::<NodeWeightView, NodeWeightError>(NodeWeightError::NoSeenVectorClock),
{
}

/// Merging the clocks of a `Content` node and an `Ordering` node, in either
/// order, fails with `IncompatibleNodeWeightVariants`, whatever they hold.
pub proof fn lemma_merge_needs_same_variant(
    content: ContentNodeWeight,
    ordering: OrderingNodeWeight,
    change_set: ChangeSet,
)
    ensures
        clocks_merged(
            NodeWeight::Content(content)@,
            NodeWeight::Ordering(ordering)@,
            change_set.actor(),
            change_set.counter(),
        ) == Err::<NodeWeightView, NodeWeightError>(NodeWeightError::IncompatibleNodeWeightVariants),
        clocks_merged(
            NodeWeight::Ordering(ordering)@,
            NodeWeight::Content(content)@,
            change_set.actor(),
            change_set.counter(),
        ) == Err::<NodeWeightView, NodeWeightError>(NodeWeightError::IncompatibleNodeWeightVariants),
{
}

} // verus!
