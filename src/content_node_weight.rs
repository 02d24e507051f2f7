//! The `Content` node weight: a node whose payload lives in the content store,
//! addressed by its hash.

use crate::change_set::{ChangeSet, ChangeSetError};
use crate::content_hash::{blake3_digest, ContentHash};

use crate::node_weight::{counter_exhausted, counter_exhausted_error, NodeWeightError};
use crate::vector_clock::{bumped, join, VectorClock};
use vstd::prelude::*;

verus! {

/// What the hash of a `Content` node refers to; fixed when the node is created.
#[derive(Clone, Copy, Debug, PartialEq, Eq, Hash)]
pub enum ContentKind {
    Root,
    Component,
    Func,
    Prop,
    Schema,
    SchemaVariant,
}

/// The digest of empty content, which a node holds before content is set.
pub open spec fn empty_digest() -> Seq<u8> {
    blake3_digest(Seq::empty())
}

/// The mathematical model of a `Content` node weight.
pub struct ContentNodeWeightView {
    pub id: u128,
    pub kind: ContentKind,
    pub content_hash: Seq<u8>,
    pub merkle_tree_hash: Seq<u8>,
    pub vector_clock_seen: Option<Map<u128, u64>>,
    pub vector_clock_write: Map<u128, u64>,
}

/// A node that points at externally stored, hash-addressed content.
#[derive(Clone, Debug)]
pub struct ContentNodeWeight {
    id: u128,
    kind: ContentKind,
    content_hash: ContentHash,
    merkle_tree_hash: ContentHash,
    vector_clock_seen: Option<VectorClock>,
    vector_clock_write: VectorClock,
}

/// The seen clock `seen` joined with another node's seen clock, if it has one.
pub open spec fn join_seen(seen: Map<u128, u64>, other: Option<Map<u128, u64>>) -> Map<u128, u64> {
    match other {
        Some(m) => join(seen, m),
        None => seen,
    }
}

/// The model of an optional clock.
pub open spec fn opt_view(c: Option<VectorClock>) -> Option<Map<u128, u64>> {
    match c {
        Some(vc) => Some(vc@),
        None => None,
    }
}

impl View for ContentNodeWeight {
    type V = ContentNodeWeightView;

    closed spec fn view(&self) -> ContentNodeWeightView {
        ContentNodeWeightView {
            id: self.id,
            kind: self.kind,
            content_hash: self.content_hash@,
            merkle_tree_hash: self.merkle_tree_hash@,
            vector_clock_seen: opt_view(self.vector_clock_seen),
            vector_clock_write: self.vector_clock_write@,
        }
    }
}

/// The hash of empty content.
pub(crate) fn empty_content_hash() -> (r: ContentHash)
    ensures
        r@ == empty_digest(),
{
    let bytes: Vec<u8> = Vec::new();
    ContentHash::new(bytes.as_slice())
}

fn copy_seen(c: &Option<VectorClock>) -> (r: Option<VectorClock>)
    ensures
        opt_view(r) == opt_view(*c),
{
    match c {
        Some(vc) => Some(vc.clone()),
        None => None,
    }
}

impl ContentNodeWeight {
    /// A fresh node with identity `id`: its write clock holds the acting change
    /// set at its next counter value, and it has no seen clock.
    pub fn new(change_set: &mut ChangeSet, id: u128, kind: ContentKind) -> (r: Result<
        ContentNodeWeight,
        NodeWeightError,
    >)
        ensures
            final(change_set).actor() == old(change_set).actor(),
            old(change_set).counter() < u64::MAX ==> (r matches Ok(w) && w@ == (
            ContentNodeWeightView {
                id,
                kind,
                content_hash: empty_digest(),
                merkle_tree_hash: empty_digest(),
                vector_clock_seen: None,
                vector_clock_write: map![old(change_set).actor() => old(change_set).counter()],
            })) && final(change_set).counter() == old(change_set).counter() + 1,
            old(change_set).counter() == u64::MAX ==> r == Err::<ContentNodeWeight, NodeWeightError>(
                counter_exhausted(),
            ) && *final(change_set) == *old(change_set),
    {
        let write = match VectorClock::new(change_set) {
            Ok(vc) => vc,
            Err(e) => return Err(NodeWeightError::VectorClock(e)),
        };
        let empty = empty_content_hash();
        Ok(ContentNodeWeight {
            id,
            kind,
            content_hash: empty,
            merkle_tree_hash: empty,
            vector_clock_seen: None,
            vector_clock_write: write,
        })
    }

    /// A fresh node with a generated identity whose write and seen clocks both
    /// hold the acting change set at its next counter value.
    pub fn new_with_seen_vector_clock(change_set: &mut ChangeSet, kind: ContentKind) -> (r: Result<
        ContentNodeWeight,
        NodeWeightError,
    >)
        ensures
            final(change_set).actor() == old(change_set).actor(),
            r matches Ok(w) ==> w@ == (ContentNodeWeightView {
                id: w@.id,
                kind,
                content_hash: empty_digest(),
                merkle_tree_hash: empty_digest(),
                vector_clock_seen: Some(
                    map![old(change_set).actor() => old(change_set).counter()],
                ),
                vector_clock_write: map![old(change_set).actor() => old(change_set).counter()],
            }) && old(change_set).counter() < u64::MAX && final(change_set).counter() == old(
                change_set,
            ).counter() + 1,
            r matches Err(e) ==> e == NodeWeightError::ChangeSet(ChangeSetError::IdGeneration) || (
            e == counter_exhausted() && old(change_set).counter() == u64::MAX),
            old(change_set).counter() == u64::MAX ==> r is Err,
    {
        let id = match change_set.generate_id() {
            Ok(id) => id,
            Err(e) => return Err(NodeWeightError::ChangeSet(e)),
        };
        let write = match VectorClock::new(change_set) {
            Ok(vc) => vc,
            Err(e) => return Err(NodeWeightError::VectorClock(e)),
        };
        let seen = write.clone();
        let empty = empty_content_hash();
        Ok(ContentNodeWeight {
            id,
            kind,
            content_hash: empty,
            merkle_tree_hash: empty,
            vector_clock_seen: Some(seen),
            vector_clock_write: write,
        })
    }

    /// Restores a node from its stored parts.
    pub fn from_parts(
        id: u128,
        kind: ContentKind,
        content_hash: ContentHash,
        merkle_tree_hash: ContentHash,
        vector_clock_seen: Option<VectorClock>,
        vector_clock_write: VectorClock,
    ) -> (r: ContentNodeWeight)
        ensures
            r@ == (ContentNodeWeightView {
                id,
                kind,
                content_hash: content_hash@,
                merkle_tree_hash: merkle_tree_hash@,
                vector_clock_seen: opt_view(vector_clock_seen),
                vector_clock_write: vector_clock_write@,
            }),
    {
        ContentNodeWeight {
            id,
            kind,
            content_hash,
            merkle_tree_hash,
            vector_clock_seen,
            vector_clock_write,
        }
    }

    pub fn id(&self) -> (r: u128)
        ensures
            r == self@.id,
    {
        self.id
    }

    pub fn content_kind(&self) -> (r: ContentKind)
        ensures
            r == self@.kind,
    {
        self.kind
    }

    pub fn content_hash(&self) -> (r: ContentHash)
        ensures
            r@ == self@.content_hash,
    {
        self.content_hash
    }

    pub fn merkle_tree_hash(&self) -> (r: ContentHash)
        ensures
            r@ == self@.merkle_tree_hash,
    {
        self.merkle_tree_hash
    }

    pub fn vector_clock_seen(&self) -> (r: Option<&VectorClock>)
        ensures
            match r {
                Some(vc) => self@.vector_clock_seen == Some(vc@),
                None => self@.vector_clock_seen is None,
            },
    {
        match &self.vector_clock_seen {
            Some(vc) => Some(vc),
            None => None,
        }
    }

    pub fn vector_clock_write(&self) -> (r: &VectorClock)
        ensures
            r@ == self@.vector_clock_write,
    {
        &self.vector_clock_write
    }

    /// Replaces the merkle tree hash; nothing else changes.
    pub fn set_merkle_tree_hash(&mut self, new_hash: ContentHash)
        ensures
            final(self)@ == (ContentNodeWeightView {
                merkle_tree_hash: new_hash@,
                ..old(self)@
            }),
    {
        self.merkle_tree_hash = new_hash;
    }

    /// Points the node at new content; the root's content hash cannot change.
    pub fn new_content_hash(&mut self, content_hash: ContentHash) -> (r: Result<
        (),
        NodeWeightError,
    >)
        ensures
            old(self)@.kind == ContentKind::Root ==> r == Err::<(), NodeWeightError>(
                NodeWeightError::CannotUpdateRootNodeContentHash,
            ) && *final(self) == *old(self),
            old(self)@.kind != ContentKind::Root ==> r is Ok && final(self)@ == (
            ContentNodeWeightView { content_hash: content_hash@, ..old(self)@ }),
    {
        match self.kind {
            ContentKind::Root => Err(NodeWeightError::CannotUpdateRootNodeContentHash),
            _ => {
                self.content_hash = content_hash;
                Ok(())
            },
        }
    }

    /// Advances the seen clock for the acting change set; fails where the node
    /// has no seen clock.
    pub fn increment_seen_vector_clock(&mut self, change_set: &mut ChangeSet) -> (r: Result<
        (),
        NodeWeightError,
    >)
        ensures
            final(change_set).actor() == old(change_set).actor(),
            old(self)@.vector_clock_seen is None ==> r == Err::<(), NodeWeightError>(
                NodeWeightError::NoSeenVectorClock,
            ) && *final(self) == *old(self) && *final(change_set) == *old(change_set),
            old(self)@.vector_clock_seen matches Some(seen) ==> (old(change_set).counter()
                < u64::MAX ==> r is Ok && final(self)@ == (ContentNodeWeightView {
                vector_clock_seen: Some(
                    bumped(seen, old(change_set).actor(), old(change_set).counter()),
                ),
                ..old(self)@
            }) && final(change_set).counter() == old(change_set).counter() + 1) && (old(
                change_set,
            ).counter() == u64::MAX ==> r == Err::<(), NodeWeightError>(counter_exhausted())
                && *final(self) == *old(self) && *final(change_set) == *old(change_set)),
    {
        match &mut self.vector_clock_seen {
            None => Err(NodeWeightError::NoSeenVectorClock),
            Some(seen) => match seen.increment(change_set) {
                Ok(()) => Ok(()),
                Err(e) => Err(NodeWeightError::VectorClock(e)),
            },
        }
    }

    /// Joins the other node's clocks into this node's, write clock into write
    /// clock and seen clock into seen clock, then records the acting change
    /// set's observation in the seen clock. Fails where this node has no seen
    /// clock.
    pub fn merge_clocks(&mut self, change_set: &mut ChangeSet, other: &ContentNodeWeight) -> (r:
        Result<(), NodeWeightError>)
        ensures
            final(change_set).actor() == old(change_set).actor(),
            old(self)@.vector_clock_seen is None ==> r == Err::<(), NodeWeightError>(
                NodeWeightError::NoSeenVectorClock,
            ) && *final(self) == *old(self) && *final(change_set) == *old(change_set),
            old(self)@.vector_clock_seen matches Some(seen) ==> (old(change_set).counter()
                < u64::MAX ==> r is Ok && final(self)@ == (ContentNodeWeightView {
                vector_clock_write: join(old(self)@.vector_clock_write, other@.vector_clock_write),
                vector_clock_seen: Some(
                    bumped(
                        join_seen(seen, other@.vector_clock_seen),
                        old(change_set).actor(),
                        old(change_set).counter(),
                    ),
                ),
                ..old(self)@
            }) && final(change_set).counter() == old(change_set).counter() + 1) && (old(
                change_set,
            ).counter() == u64::MAX ==> r == Err::<(), NodeWeightError>(counter_exhausted())
                && *final(self) == *old(self) && *final(change_set) == *old(change_set)),
    {
        if self.vector_clock_seen.is_none() {
            return Err(NodeWeightError::NoSeenVectorClock);
        }
        if change_set.peek_counter() == u64::MAX {
            return Err(counter_exhausted_error());
        }
        self.vector_clock_write.merge(&other.vector_clock_write);
        match &mut self.vector_clock_seen {
            Some(seen) => {
                match &other.vector_clock_seen {
                    Some(o) => seen.merge(o),
                    None => {},
                }
                match seen.increment(change_set) {
                    Ok(()) => Ok(()),
                    Err(e) => Err(NodeWeightError::VectorClock(e)),
                }
            },
            None => Err(NodeWeightError::NoSeenVectorClock),
        }
    }

    /// A new revision of this node: the same identity and payload, with the
    /// write clock advanced for the acting change set.
    pub fn new_with_incremented_vector_clocks(&self, change_set: &mut ChangeSet) -> (r: Result<
        ContentNodeWeight,
        NodeWeightError,
    >)
        ensures
            final(change_set).actor() == old(change_set).actor(),
            old(change_set).counter() < u64::MAX ==> (r matches Ok(w) && w@ == (
            ContentNodeWeightView {
                vector_clock_write: bumped(
                    self@.vector_clock_write,
                    old(change_set).actor(),
                    old(change_set).counter(),
                ),
                ..self@
            })) && final(change_set).counter() == old(change_set).counter() + 1,
            old(change_set).counter() == u64::MAX ==> r == Err::<ContentNodeWeight, NodeWeightError>(
                counter_exhausted(),
            ) && *final(change_set) == *old(change_set),
    {
        let mut write = self.vector_clock_write.clone();
        match write.increment(change_set) {
            Ok(()) => {},
            Err(e) => return Err(NodeWeightError::VectorClock(e)),
        }
        Ok(ContentNodeWeight {
            id: self.id,
            kind: self.kind,
            content_hash: self.content_hash,
            merkle_tree_hash: self.merkle_tree_hash,
            vector_clock_seen: copy_seen(&self.vector_clock_seen),
            vector_clock_write: write,
        })
    }
}

} // verus!
