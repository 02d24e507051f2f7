use workspace_snapshot::change_set::{ChangeSet, ChangeSetError};
use workspace_snapshot::content_hash::ContentHash;
use workspace_snapshot::content_node_weight::{ContentKind, ContentNodeWeight};
use workspace_snapshot::merkle::compute_merkle_tree_hash;
use workspace_snapshot::node_weight::{NodeWeight, NodeWeightError};
use workspace_snapshot::ordering_node_weight::{encode_order, OrderingNodeWeight};
use workspace_snapshot::parts::NodeWeightParts;
use workspace_snapshot::vector_clock::{ClockEntry, VectorClock, VectorClockError};

fn pairs(vc: &VectorClock) -> Vec<(u128, u64)> {
    vc.entries().iter().map(|e| (e.actor, e.counter)).collect()
}

fn ordering_node(cs: &mut ChangeSet) -> NodeWeight {
    NodeWeight::new_ordering(cs).expect("fresh ordering node")
}

#[test]
fn new_content_initializes_write_clock_only() {
    let mut x = ChangeSet::resume(100, 1);
    let n = NodeWeight::new_content(&mut x, 42, ContentKind::Schema).unwrap();
    assert_eq!(n.id(), 42);
    assert_eq!(pairs(n.vector_clock_write()), vec![(100, 1)]);
    assert!(n.vector_clock_seen().is_none());
    assert_eq!(n.content_hash(), ContentHash::new(&[]));
    assert_eq!(n.merkle_tree_hash(), ContentHash::new(&[]));
}

#[test]
fn new_content_with_seen_vector_clock_initializes_both_clocks() {
    let mut x = ChangeSet::resume(100, 5);
    let n = NodeWeight::new_content_with_seen_vector_clock(&mut x, ContentKind::Func).unwrap();
    assert_eq!(pairs(n.vector_clock_write()), vec![(100, 5)]);
    assert_eq!(pairs(n.vector_clock_seen().unwrap()), vec![(100, 5)]);
    assert_eq!(x.peek_counter(), 6);
}

#[test]
fn revision_leaves_earlier_node_untouched() {
    let mut x = ChangeSet::resume(1, 1);
    let mut y = ChangeSet::resume(2, 1);
    let w1 = NodeWeight::new_content(&mut x, 9, ContentKind::Prop).unwrap();
    let before = pairs(w1.vector_clock_write());
    let w2 = w1.new_with_incremented_vector_clocks(&mut y).unwrap();
    assert_eq!(pairs(w1.vector_clock_write()), before);
    assert_ne!(pairs(w1.vector_clock_write()), pairs(w2.vector_clock_write()));
    assert_eq!(pairs(w2.vector_clock_write()), vec![(1, 1), (2, 1)]);
    assert_eq!(w1.id(), w2.id());
    assert_eq!(w1.content_hash(), w2.content_hash());
    assert_eq!(w1.merkle_tree_hash(), w2.merkle_tree_hash());
    assert!(w2.vector_clock_seen().is_none());
}

#[test]
fn revision_of_ordering_node_keeps_order_and_seen_clock() {
    let mut x = ChangeSet::resume(1, 1);
    let mut w1 = ordering_node(&mut x);
    if let NodeWeight::Ordering(o) = &mut w1 {
        o.set_order(vec![5, 6]);
    }
    let w2 = w1.new_with_incremented_vector_clocks(&mut x).unwrap();
    assert_eq!(pairs(w2.vector_clock_write()), vec![(1, 2)]);
    assert_eq!(pairs(w2.vector_clock_seen().unwrap()), vec![(1, 1)]);
    assert_eq!(w1.content_hash(), w2.content_hash());
    match &w2 {
        NodeWeight::Ordering(o) => assert_eq!(o.order(), &vec![5, 6]),
        NodeWeight::Content(_) => panic!("variant changed"),
    }
}

#[test]
fn content_hash_cannot_be_set_on_ordering_node() {
    let mut x = ChangeSet::resume(1, 1);
    let mut w = ordering_node(&mut x);
    for input in [b"a".as_slice(), b"", b"another"] {
        assert_eq!(
            w.new_content_hash(ContentHash::new(input)),
            Err(NodeWeightError::CannotSetContentHashOnKind)
        );
    }
}

#[test]
fn root_content_hash_is_immutable() {
    let mut x = ChangeSet::resume(1, 1);
    let mut root = NodeWeight::new_content(&mut x, 1, ContentKind::Root).unwrap();
    let h = ContentHash::new(b"new root");
    assert_eq!(root.new_content_hash(h), Err(NodeWeightError::CannotUpdateRootNodeContentHash));
    assert_eq!(root.content_hash(), ContentHash::new(&[]));
}

#[test]
fn content_hash_can_be_set_on_content_node() {
    let mut x = ChangeSet::resume(1, 1);
    let mut n = NodeWeight::new_content(&mut x, 3, ContentKind::Component).unwrap();
    let h = ContentHash::new(b"component body");
    assert_eq!(n.new_content_hash(h), Ok(()));
    assert_eq!(n.content_hash(), h);
}

#[test]
fn seen_clock_increment_fails_on_fresh_content_node() {
    let mut x = ChangeSet::resume(1, 1);
    let mut y = ChangeSet::resume(2, 1);
    let mut n = NodeWeight::new_content(&mut x, 3, ContentKind::Schema).unwrap();
    assert_eq!(n.increment_seen_vector_clock(&mut y), Err(NodeWeightError::NoSeenVectorClock));
    assert_eq!(n.increment_seen_vector_clock(&mut x), Err(NodeWeightError::NoSeenVectorClock));
    assert_eq!(y.peek_counter(), 1);
}

#[test]
fn seen_clock_increment_on_seen_variant() {
    let mut x = ChangeSet::resume(1, 1);
    let mut y = ChangeSet::resume(2, 7);
    let mut n = NodeWeight::new_content_with_seen_vector_clock(&mut x, ContentKind::Schema).unwrap();
    assert_eq!(n.increment_seen_vector_clock(&mut y), Ok(()));
    assert_eq!(pairs(n.vector_clock_seen().unwrap()), vec![(1, 1), (2, 7)]);
    assert_eq!(pairs(n.vector_clock_write()), vec![(1, 1)]);
}

#[test]
fn merging_content_with_ordering_fails() {
    let mut x = ChangeSet::resume(1, 1);
    let mut content = NodeWeight::new_content_with_seen_vector_clock(&mut x, ContentKind::Schema).unwrap();
    let mut ordering = ordering_node(&mut x);
    let content_copy = content.clone();
    let ordering_copy = ordering.clone();
    assert_eq!(
        content.merge_clocks(&mut x, &ordering_copy),
        Err(NodeWeightError::IncompatibleNodeWeightVariants)
    );
    assert_eq!(
        ordering.merge_clocks(&mut x, &content_copy),
        Err(NodeWeightError::IncompatibleNodeWeightVariants)
    );
}

#[test]
fn merge_of_unobserved_content_node_fails_without_seen_clock() {
    let mut x = ChangeSet::resume(10, 1);
    let mut y = ChangeSet::resume(20, 1);
    let mut n = NodeWeight::new_content(&mut x, 77, ContentKind::Schema).unwrap();
    assert_eq!(pairs(n.vector_clock_write()), vec![(10, 1)]);
    assert!(n.vector_clock_seen().is_none());
    let observed = n.new_with_incremented_vector_clocks(&mut y).unwrap();
    assert_eq!(n.merge_clocks(&mut y, &observed), Err(NodeWeightError::NoSeenVectorClock));
    assert_eq!(pairs(n.vector_clock_write()), vec![(10, 1)]);
    assert_eq!(y.peek_counter(), 2);
}

#[test]
fn merge_joins_clocks_and_records_observation() {
    let mut x = ChangeSet::resume(10, 1);
    let mut y = ChangeSet::resume(20, 1);
    let mut n = NodeWeight::new_content_with_seen_vector_clock(&mut x, ContentKind::Schema).unwrap();
    let theirs = n.new_with_incremented_vector_clocks(&mut y).unwrap();
    assert_eq!(n.merge_clocks(&mut x, &theirs), Ok(()));
    assert_eq!(pairs(n.vector_clock_write()), vec![(10, 1), (20, 1)]);
    assert_eq!(pairs(n.vector_clock_seen().unwrap()), vec![(10, 2)]);
}

#[test]
fn merge_of_ordering_nodes() {
    let mut x = ChangeSet::resume(10, 1);
    let mut y = ChangeSet::resume(20, 4);
    let mut a = ordering_node(&mut x);
    let b = ordering_node(&mut y);
    assert_eq!(a.merge_clocks(&mut y, &b), Ok(()));
    assert_eq!(pairs(a.vector_clock_write()), vec![(10, 1), (20, 4)]);
    assert_eq!(pairs(a.vector_clock_seen().unwrap()), vec![(10, 1), (20, 5)]);
}

#[test]
fn exhausted_change_set_errors_propagate() {
    let mut x = ChangeSet::resume(10, u64::MAX);
    assert_eq!(
        NodeWeight::new_content(&mut x, 1, ContentKind::Schema).err(),
        Some(NodeWeightError::VectorClock(VectorClockError::ChangeSet(
            ChangeSetError::CounterExhausted
        )))
    );
    let mut y = ChangeSet::resume(20, 1);
    let n = NodeWeight::new_content(&mut y, 1, ContentKind::Schema).unwrap();
    assert!(matches!(
        n.new_with_incremented_vector_clocks(&mut x),
        Err(NodeWeightError::VectorClock(VectorClockError::ChangeSet(
            ChangeSetError::CounterExhausted
        )))
    ));
}

#[test]
fn ordering_content_hash_is_hash_of_child_order() {
    let mut x = ChangeSet::resume(1, 1);
    let mut w = ordering_node(&mut x);
    assert_eq!(w.content_hash(), ContentHash::new(&[]));
    if let NodeWeight::Ordering(o) = &mut w {
        o.set_order(vec![3, 1, 2]);
    }
    assert_eq!(w.content_hash(), ContentHash::new(&encode_order(&vec![3, 1, 2])));
    assert_ne!(w.content_hash(), ContentHash::new(&encode_order(&vec![1, 2, 3])));
}

#[test]
fn merkle_change_propagates_to_ancestors_only() {
    let mut x = ChangeSet::resume(1, 1);
    let mut root = NodeWeight::new_content(&mut x, 1, ContentKind::Root).unwrap();
    let mut a = NodeWeight::new_content(&mut x, 2, ContentKind::Schema).unwrap();
    let mut leaf = NodeWeight::new_content(&mut x, 3, ContentKind::Prop).unwrap();
    let mut sibling = NodeWeight::new_content(&mut x, 4, ContentKind::Prop).unwrap();
    a.new_content_hash(ContentHash::new(b"a")).unwrap();
    leaf.new_content_hash(ContentHash::new(b"leaf v1")).unwrap();
    sibling.new_content_hash(ContentHash::new(b"sibling")).unwrap();

    leaf.recompute_merkle_tree_hash(&[]);
    sibling.recompute_merkle_tree_hash(&[]);
    a.recompute_merkle_tree_hash(&[leaf.merkle_tree_hash()]);
    root.recompute_merkle_tree_hash(&[a.merkle_tree_hash(), sibling.merkle_tree_hash()]);
    let (a_before, root_before, sibling_before) =
        (a.merkle_tree_hash(), root.merkle_tree_hash(), sibling.merkle_tree_hash());

    leaf.new_content_hash(ContentHash::new(b"leaf v2")).unwrap();
    leaf.recompute_merkle_tree_hash(&[]);
    a.recompute_merkle_tree_hash(&[leaf.merkle_tree_hash()]);
    root.recompute_merkle_tree_hash(&[a.merkle_tree_hash(), sibling.merkle_tree_hash()]);

    assert_ne!(a.merkle_tree_hash(), a_before);
    assert_ne!(root.merkle_tree_hash(), root_before);
    assert_eq!(sibling.merkle_tree_hash(), sibling_before);
    assert_eq!(
        a.merkle_tree_hash(),
        compute_merkle_tree_hash(&ContentHash::new(b"a"), &[leaf.merkle_tree_hash()])
    );
}

#[test]
fn set_merkle_tree_hash_changes_only_that_hash() {
    let mut x = ChangeSet::resume(1, 1);
    let mut n = NodeWeight::new_content(&mut x, 5, ContentKind::Func).unwrap();
    let h = ContentHash::new(b"merkle");
    n.set_merkle_tree_hash(h);
    assert_eq!(n.merkle_tree_hash(), h);
    assert_eq!(n.content_hash(), ContentHash::new(&[]));
    assert_eq!(n.id(), 5);
}

#[test]
fn node_restored_from_parts_matches_node() {
    let mut x = ChangeSet::resume(1, 1);
    let mut y = ChangeSet::resume(2, 1);
    let mut n = NodeWeight::new_content_with_seen_vector_clock(&mut x, ContentKind::Schema).unwrap();
    n.new_content_hash(ContentHash::new(b"payload")).unwrap();
    n.increment_seen_vector_clock(&mut y).unwrap();
    n.set_merkle_tree_hash(ContentHash::new(b"m"));
    let c = match &n {
        NodeWeight::Content(c) => c,
        NodeWeight::Ordering(_) => panic!("expected content"),
    };
    let write = VectorClock::from_entries(c.vector_clock_write().entries()).unwrap();
    let seen = c
        .vector_clock_seen()
        .map(|vc| VectorClock::from_entries(vc.entries()).unwrap());
    let restored = NodeWeight::Content(ContentNodeWeight::from_parts(
        c.id(),
        c.content_kind(),
        ContentHash::from_bytes(c.content_hash().as_bytes()),
        ContentHash::from_bytes(c.merkle_tree_hash().as_bytes()),
        seen,
        write,
    ));
    assert_eq!(restored.id(), n.id());
    assert_eq!(restored.content_hash(), n.content_hash());
    assert_eq!(restored.merkle_tree_hash(), n.merkle_tree_hash());
    assert_eq!(restored.vector_clock_write(), n.vector_clock_write());
    assert_eq!(restored.vector_clock_seen(), n.vector_clock_seen());

    let mut o = OrderingNodeWeight::new(&mut x).unwrap();
    o.set_order(vec![8, 9]);
    let restored = OrderingNodeWeight::from_parts(
        o.id(),
        o.order().clone(),
        o.merkle_tree_hash(),
        o.vector_clock_seen().clone(),
        o.vector_clock_write().clone(),
    );
    assert_eq!(restored.order(), o.order());
    assert_eq!(restored.content_hash(), o.content_hash());
    assert_eq!(restored.vector_clock_seen(), o.vector_clock_seen());
    assert_eq!(restored.vector_clock_write(), o.vector_clock_write());
}

#[test]
fn parts_round_trip_restores_node() {
    let mut x = ChangeSet::resume(1, 1);
    let mut y = ChangeSet::resume(2, 1);
    let mut n = NodeWeight::new_content_with_seen_vector_clock(&mut x, ContentKind::Schema).unwrap();
    n.new_content_hash(ContentHash::new(b"payload")).unwrap();
    n.increment_seen_vector_clock(&mut y).unwrap();
    let parts = n.to_parts();
    let back = NodeWeight::from_parts(&parts).unwrap();
    assert_eq!(back.to_parts(), parts);
    assert_eq!(back.id(), n.id());
    assert_eq!(back.content_hash(), n.content_hash());
    assert_eq!(back.vector_clock_seen(), n.vector_clock_seen());

    let mut o = ordering_node(&mut x);
    if let NodeWeight::Ordering(w) = &mut o {
        w.set_order(vec![4, 2]);
    }
    let parts = o.to_parts();
    match &parts {
        NodeWeightParts::Ordering(p) => assert_eq!(p.order, vec![4, 2]),
        NodeWeightParts::Content(_) => panic!("expected ordering parts"),
    }
    let back = NodeWeight::from_parts(&parts).unwrap();
    assert_eq!(back.content_hash(), o.content_hash());
    assert_eq!(back.vector_clock_write(), o.vector_clock_write());
}

#[test]
fn parts_with_unsorted_clock_are_rejected() {
    let mut x = ChangeSet::resume(1, 1);
    let n = NodeWeight::new_content(&mut x, 5, ContentKind::Prop).unwrap();
    let mut parts = n.to_parts();
    if let NodeWeightParts::Content(c) = &mut parts {
        c.vector_clock_write = vec![
            ClockEntry { actor: 9, counter: 1 },
            ClockEntry { actor: 3, counter: 1 },
        ];
    }
    assert!(NodeWeight::from_parts(&parts).is_none());
}
