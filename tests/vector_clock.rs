use workspace_snapshot::change_set::{ChangeSet, ChangeSetError};
use workspace_snapshot::vector_clock::{ClockEntry, VectorClock, VectorClockError};

fn clock(entries: &[(u128, u64)]) -> VectorClock {
    let entries: Vec<ClockEntry> = entries
        .iter()
        .map(|&(actor, counter)| ClockEntry { actor, counter })
        .collect();
    VectorClock::from_entries(entries).expect("entries sorted by actor")
}

fn pairs(vc: &VectorClock) -> Vec<(u128, u64)> {
    vc.entries().iter().map(|e| (e.actor, e.counter)).collect()
}

fn merged(a: &VectorClock, b: &VectorClock) -> VectorClock {
    let mut r = a.clone();
    r.merge(b);
    r
}

#[test]
fn new_clock_holds_next_counter_of_change_set() {
    let mut cs = ChangeSet::resume(7, 1);
    let vc = VectorClock::new(&mut cs).unwrap();
    assert_eq!(pairs(&vc), vec![(7, 1)]);
    assert_eq!(cs.peek_counter(), 2);
    assert_eq!(vc.entry(7), Some(1));
    assert_eq!(vc.entry(8), None);
    assert_eq!(vc.counter_for(8), 0);
}

#[test]
fn merge_is_pointwise_maximum() {
    let a = clock(&[(1, 5), (3, 2)]);
    let b = clock(&[(1, 4), (2, 7), (3, 9)]);
    assert_eq!(pairs(&merged(&a, &b)), vec![(1, 5), (2, 7), (3, 9)]);
}

#[test]
fn merge_is_commutative() {
    let a = clock(&[(1, 5), (4, 1)]);
    let b = clock(&[(2, 3), (4, 6)]);
    assert_eq!(merged(&a, &b), merged(&b, &a));
}

#[test]
fn merge_is_associative() {
    let a = clock(&[(1, 5), (4, 1)]);
    let b = clock(&[(2, 3), (4, 6)]);
    let c = clock(&[(1, 9), (3, 3)]);
    assert_eq!(merged(&merged(&a, &b), &c), merged(&a, &merged(&b, &c)));
}

#[test]
fn merge_is_idempotent() {
    let a = clock(&[(1, 5), (2, 8), (4, 1)]);
    assert_eq!(merged(&a, &a), a);
}

#[test]
fn merge_with_empty_clock_keeps_entries() {
    let a = clock(&[(1, 5)]);
    let empty = clock(&[]);
    assert_eq!(merged(&a, &empty), a);
    assert_eq!(merged(&empty, &a), a);
}

#[test]
fn increment_takes_larger_of_current_and_allocated() {
    let mut cs = ChangeSet::resume(2, 10);
    let mut vc = clock(&[(1, 4), (2, 3)]);
    vc.increment(&mut cs).unwrap();
    assert_eq!(pairs(&vc), vec![(1, 4), (2, 10)]);
    let mut ahead = clock(&[(2, 50)]);
    ahead.increment(&mut cs).unwrap();
    assert_eq!(pairs(&ahead), vec![(2, 50)]);
    assert_eq!(cs.peek_counter(), 12);
}

#[test]
fn increment_adds_entry_for_new_actor_in_order() {
    let mut cs = ChangeSet::resume(2, 1);
    let mut vc = clock(&[(1, 4), (3, 3)]);
    vc.increment(&mut cs).unwrap();
    assert_eq!(pairs(&vc), vec![(1, 4), (2, 1), (3, 3)]);
}

#[test]
fn exhausted_change_set_fails_and_changes_nothing() {
    let mut cs = ChangeSet::resume(2, u64::MAX);
    let mut vc = clock(&[(1, 4)]);
    assert_eq!(
        vc.increment(&mut cs),
        Err(VectorClockError::ChangeSet(ChangeSetError::CounterExhausted))
    );
    assert_eq!(pairs(&vc), vec![(1, 4)]);
    assert_eq!(cs.peek_counter(), u64::MAX);
    assert!(VectorClock::new(&mut cs).is_err());
}

#[test]
fn next_counter_is_strictly_increasing() {
    let mut cs = ChangeSet::resume(9, 1);
    assert_eq!(cs.next_counter(), Ok(1));
    assert_eq!(cs.next_counter(), Ok(2));
    assert_eq!(cs.next_counter(), Ok(3));
    assert_eq!(cs.id(), 9);
}

#[test]
fn new_change_set_starts_at_one() {
    let mut cs = ChangeSet::new().unwrap();
    assert_eq!(cs.next_counter(), Ok(1));
    let a = cs.generate_id().unwrap();
    let b = cs.generate_id().unwrap();
    assert!(a < b);
    assert_ne!(cs.id(), a);
}

#[test]
fn from_entries_rejects_unsorted_or_repeated_actors() {
    let unsorted = vec![ClockEntry { actor: 3, counter: 1 }, ClockEntry { actor: 1, counter: 1 }];
    assert!(VectorClock::from_entries(unsorted).is_none());
    let repeated = vec![ClockEntry { actor: 1, counter: 1 }, ClockEntry { actor: 1, counter: 2 }];
    assert!(VectorClock::from_entries(repeated).is_none());
}

#[test]
fn causal_order() {
    let a = clock(&[(1, 1)]);
    let b = clock(&[(1, 2), (2, 1)]);
    let c = clock(&[(2, 5)]);
    assert!(a.causally_precedes(&b));
    assert!(!b.causally_precedes(&a));
    assert!(!a.causally_precedes(&a));
    assert!(!a.causally_precedes(&c));
    assert!(!c.causally_precedes(&a));
    assert!(a.dominated_by(&b));
    assert!(a.dominated_by(&a));
    assert!(!b.dominated_by(&c));
}

#[test]
fn missing_entry_counts_as_zero_in_causal_order() {
    let with_zero = clock(&[(1, 0)]);
    let empty = clock(&[]);
    assert!(!with_zero.causally_precedes(&empty));
    assert!(!empty.causally_precedes(&with_zero));
    assert!(empty.causally_precedes(&clock(&[(4, 1)])));
}
