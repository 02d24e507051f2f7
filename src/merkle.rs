//! Merkle aggregation: a node's merkle tree hash covers its own content hash
//! and the merkle tree hashes of its children, in order.

use crate::content_hash::{blake3_digest, ContentHash};
use vstd::prelude::*;

verus! {

/// The bytes a merkle tree hash is taken over: the node's content hash
/// followed by its children's merkle tree hashes, in order.
pub open spec fn merkle_preimage(content_hash: Seq<u8>, children: Seq<Seq<u8>>) -> Seq<u8> {
    content_hash + children.flatten()
}

/// The merkle tree hash of a node with content hash `content_hash` whose
/// children have the merkle tree hashes `children`.
pub open spec fn merkle_hash_of(content_hash: Seq<u8>, children: Seq<Seq<u8>>) -> Seq<u8> {
    blake3_digest(merkle_preimage(content_hash, children))
}

/// The models of a sequence of hashes.
pub open spec fn hash_views(hashes: Seq<ContentHash>) -> Seq<Seq<u8>> {
    hashes.map_values(|h: ContentHash| h@)
}

/// Appends the bytes of `h` to `buf`.
fn push_hash(buf: &mut Vec<u8>, h: &ContentHash)
    ensures
        final(buf)@ == old(buf)@ + h@,
{
    let bytes = h.as_bytes();
    let ghost start = buf@;
    let mut k: usize = 0;
    while k < 32
        invariant
            k <= 32,
            bytes@.len() == 32,
            buf@ == start + bytes@.subrange(0, k as int),
        decreases 32 - k,
    {
        buf.push(bytes[k]);
        k = k + 1;
        assert(buf@ =~= start + bytes@.subrange(0, k as int));
    }
    assert(bytes@.subrange(0, 32) =~= bytes@);
}

/// The merkle tree hash of a node from its content hash and its children's
/// merkle tree hashes.
pub fn compute_merkle_tree_hash(content_hash: &ContentHash, child_hashes: &[ContentHash]) -> (r:
    ContentHash)
    ensures
        r@ == merkle_hash_of(content_hash@, hash_views(child_hashes@)),
{
    let mut buf: Vec<u8> = Vec::new();
    push_hash(&mut buf, content_hash);
    let mut i: usize = 0;
    while i < child_hashes.len()
        invariant
            i <= child_hashes@.len(),
            buf@ == content_hash@ + hash_views(child_hashes@.subrange(0, i as int)).flatten(),
        decreases child_hashes@.len() - i,
    {
        let ghost prefix = hash_views(child_hashes@.subrange(0, i as int));
        let ghost before = buf@;
        push_hash(&mut buf, &child_hashes[i]);
        proof {
            assert(hash_views(child_hashes@.subrange(0, i + 1)) =~= prefix.push(
                child_hashes@[i as int]@,
            ));
            prefix.lemma_flatten_push(child_hashes@[i as int]@);
            assert(buf@ =~= content_hash@ + prefix.push(child_hashes@[i as int]@).flatten());
        }
        i = i + 1;
    }
    assert(child_hashes@.subrange(0, child_hashes@.len() as int) =~= child_hashes@);
    ContentHash::new(buf.as_slice())
}

proof fn lemma_prefix_cancel(a: Seq<u8>, x: Seq<u8>, y: Seq<u8>, s: Seq<u8>)
    requires
        a + x + s == a + y + s,
    ensures
        x == y,
{
    let l = a + x + s;
    assert(l.len() == a.len() + x.len() + s.len());
    assert((a + y + s).len() == a.len() + y.len() + s.len());
    assert(x =~= l.subrange(a.len() as int, (a.len() + x.len()) as int));
    assert(y =~= (a + y + s).subrange(a.len() as int, (a.len() + y.len()) as int));
}

/// Merkle propagation along root, child `a` and leaf, where the root has a
/// second child, the sibling, whose merkle tree hash is `sibling`. When the
/// leaf's merkle tree hash changes, the bytes that `a`'s merkle tree hash is
/// recomputed over change; when `a`'s changes, the bytes of the root's change.
/// The sibling's hash enters the root's recomputation as it was: the sibling
/// subtree is not recomputed.
pub proof fn lemma_merkle_propagation(
    root_content: Seq<u8>,
    a_content: Seq<u8>,
    leaf_old: Seq<u8>,
    leaf_new: Seq<u8>,
    a_old: Seq<u8>,
    a_new: Seq<u8>,
    sibling: Seq<u8>,
)
    ensures
        leaf_old != leaf_new ==> merkle_preimage(a_content, seq![leaf_old]) != merkle_preimage(
            a_content,
            seq![leaf_new],
        ),
        a_old != a_new ==> merkle_preimage(root_content, seq![a_old, sibling]) != merkle_preimage(
            root_content,
            seq![a_new, sibling],
        ),
        merkle_preimage(root_content, seq![a_new, sibling]).subrange(
            (root_content.len() + a_new.len()) as int,
            (root_content.len() + a_new.len() + sibling.len()) as int,
        ) == sibling,
{
    let e = Seq::<u8>::empty();
    assert(seq![leaf_old].flatten() =~= leaf_old) by {
        seq![leaf_old].lemma_flatten_one_element();
    }
    assert(seq![leaf_new].flatten() =~= leaf_new) by {
        seq![leaf_new].lemma_flatten_one_element();
    }
    assert(seq![a_old, sibling] =~= seq![a_old].push(sibling));
    assert(seq![a_new, sibling] =~= seq![a_new].push(sibling));
    seq![a_old].lemma_flatten_push(sibling);
    seq![a_new].lemma_flatten_push(sibling);
    seq![a_old].lemma_flatten_one_element();
    seq![a_new].lemma_flatten_one_element();
    if leaf_old != leaf_new && merkle_preimage(a_content, seq![leaf_old]) == merkle_preimage(
        a_content,
        seq![leaf_new],
    ) {
        assert(a_content + leaf_old + e =~= a_content + leaf_old);
        assert(a_content + leaf_new + e =~= a_content + leaf_new);
        lemma_prefix_cancel(a_content, leaf_old, leaf_new, e);
    }
    if a_old != a_new && merkle_preimage(root_content, seq![a_old, sibling]) == merkle_preimage(
        root_content,
        seq![a_new, sibling],
    ) {
        assert(root_content + (a_old + sibling) =~= root_content + a_old + sibling);
        assert(root_content + (a_new + sibling) =~= root_content + a_new + sibling);
        lemma_prefix_cancel(root_content, a_old, a_new, sibling);
    }
    assert(merkle_preimage(root_content, seq![a_new, sibling]) =~= root_content + a_new + sibling);
    assert((root_content + a_new + sibling).subrange(
        (root_content.len() + a_new.len()) as int,
        (root_content.len() + a_new.len() + sibling.len()) as int,
    ) =~= sibling);
}

} // verus!
