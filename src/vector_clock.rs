//! Vector clocks: for each actor, the highest counter value incorporated from
//! it, used to order revisions made in different change sets.

use crate::change_set::{ChangeSet, ChangeSetError};
use vstd::prelude::*;

verus! {

/// One entry of a vector clock.
#[derive(Clone, Copy, Debug, PartialEq, Eq)]
pub struct ClockEntry {
    pub actor: u128,
    pub counter: u64,
}

/// The map that a sequence of entries describes (a later entry for an actor
/// takes the place of an earlier one).
pub open spec fn entries_map(s: Seq<ClockEntry>) -> Map<u128, u64>
    decreases s.len(),
{
    if s.len() == 0 {
        Map::empty()
    } else {
        entries_map(s.drop_last()).insert(s.last().actor, s.last().counter)
    }
}

/// Entries ordered by actor, each actor at most once.
pub open spec fn strictly_sorted(s: Seq<ClockEntry>) -> bool {
    forall|i: int, j: int| 0 <= i < j < s.len() ==> s[i].actor < s[j].actor
}

/// The counter of `actor` in clock `m`; an actor without an entry counts as 0.
pub open spec fn counter_of(m: Map<u128, u64>, actor: u128) -> u64 {
    if m.contains_key(actor) {
        m[actor]
    } else {
        0
    }
}

pub open spec fn max_u64(x: u64, y: u64) -> u64 {
    if x >= y {
        x
    } else {
        y
    }
}

/// `m` with the entry of `actor` advanced to at least `c`.
pub open spec fn bumped(m: Map<u128, u64>, actor: u128, c: u64) -> Map<u128, u64> {
    m.insert(actor, max_u64(counter_of(m, actor), c))
}

/// The join of two clocks: the pointwise maximum over the actors of either.
pub open spec fn join(a: Map<u128, u64>, b: Map<u128, u64>) -> Map<u128, u64> {
    Map::new(
        |k: u128| a.contains_key(k) || b.contains_key(k),
        |k: u128| max_u64(counter_of(a, k), counter_of(b, k)),
    )
}

/// `a` has incorporated no more from any actor than `b` has.
pub open spec fn dominated(a: Map<u128, u64>, b: Map<u128, u64>) -> bool {
    forall|k: u128| #[trigger] counter_of(a, k) <= counter_of(b, k)
}

/// `a` happened before `b`: dominated by it and behind it for some actor.
pub open spec fn precedes(a: Map<u128, u64>, b: Map<u128, u64>) -> bool {
    dominated(a, b) && exists|k: u128| #[trigger] counter_of(a, k) < counter_of(b, k)
}

/// Merging is commutative: `a` joined with `b` is `b` joined with `a`.
pub proof fn lemma_merge_commutative(a: Map<u128, u64>, b: Map<u128, u64>)
    ensures
        join(a, b) == join(b, a),
{
    assert(join(a, b) =~= join(b, a));
}

/// Merging is associative: joining `a` with `b` and then `c` gives what joining
/// `a` with the join of `b` and `c` gives.
pub proof fn lemma_merge_associative(a: Map<u128, u64>, b: Map<u128, u64>, c: Map<u128, u64>)
    ensures
        join(join(a, b), c) == join(a, join(b, c)),
{
    assert(join(join(a, b), c) =~= join(a, join(b, c)));
}

/// Merging is idempotent: a clock joined with itself is the same clock.
pub proof fn lemma_merge_idempotent(a: Map<u128, u64>)
    ensures
        join(a, a) == a,
{
    assert(join(a, a) =~= a);
}

/// What a sorted entry sequence maps each of its actors to, and that it maps
/// no other actor.
pub proof fn lemma_entries_map(s: Seq<ClockEntry>)
    requires
        strictly_sorted(s),
    ensures
        forall|i: int|
            0 <= i < s.len() ==> #[trigger] entries_map(s).contains_key(s[i].actor)
                && entries_map(s)[s[i].actor] == s[i].counter,
        forall|k: u128|
            #[trigger] entries_map(s).contains_key(k) ==> exists|i: int|
                0 <= i < s.len() && s[i].actor == k,
    decreases s.len(),
{
    if s.len() > 0 {
        let t = s.drop_last();
        lemma_entries_map(t);
        assert(entries_map(s) == entries_map(t).insert(s.last().actor, s.last().counter));
        assert forall|i: int| 0 <= i < s.len() implies #[trigger] entries_map(s).contains_key(
            s[i].actor,
        ) && entries_map(s)[s[i].actor] == s[i].counter by {
            if i < s.len() - 1 {
                assert(t[i] == s[i]);
                assert(s[i].actor < s.last().actor);
                assert(entries_map(t).contains_key(t[i].actor));
            }
        }
        assert forall|k: u128| #[trigger] entries_map(s).contains_key(k) implies exists|i: int|
            0 <= i < s.len() && s[i].actor == k by {
            if k != s.last().actor {
                assert(entries_map(t).contains_key(k));
                let i = choose|i: int| 0 <= i < t.len() && t[i].actor == k;
                assert(s[i] == t[i]);
            } else {
                assert(s[s.len() - 1].actor == k);
            }
        }
    }
}

/// Sorted entries are determined by the map they describe: two clocks with the
/// same model hold the same entries, so `==` on clocks is equality of models.
pub proof fn lemma_entries_canonical(s: Seq<ClockEntry>, t: Seq<ClockEntry>)
    requires
        strictly_sorted(s),
        strictly_sorted(t),
        entries_map(s) == entries_map(t),
    ensures
        s == t,
    decreases s.len() + t.len(),
{
    lemma_entries_map(s);
    lemma_entries_map(t);
    if s.len() == 0 || t.len() == 0 {
        if s.len() > 0 {
            assert(entries_map(s).contains_key(s[0].actor));
        }
        if t.len() > 0 {
            assert(entries_map(t).contains_key(t[0].actor));
        }
        assert(s =~= t);
    } else {
        let a = s.last();
        let b = t.last();
        assert(entries_map(s).contains_key(s[s.len() - 1].actor));
        assert(entries_map(t).contains_key(t[t.len() - 1].actor));
        let j = choose|j: int| 0 <= j < t.len() && t[j].actor == a.actor;
        let i = choose|i: int| 0 <= i < s.len() && s[i].actor == b.actor;
        if j < t.len() - 1 {
            assert(t[j].actor < b.actor);
        }
        if i < s.len() - 1 {
            assert(s[i].actor < a.actor);
        }
        assert(a.actor == b.actor);
        assert(a == b);
        let s1 = s.drop_last();
        let t1 = t.drop_last();
        lemma_entries_map(s1);
        lemma_entries_map(t1);
        assert(!entries_map(s1).contains_key(a.actor)) by {
            if entries_map(s1).contains_key(a.actor) {
                let k = choose|k: int| 0 <= k < s1.len() && s1[k].actor == a.actor;
                assert(s[k].actor < a.actor);
            }
        }
        assert(!entries_map(t1).contains_key(a.actor)) by {
            if entries_map(t1).contains_key(a.actor) {
                let k = choose|k: int| 0 <= k < t1.len() && t1[k].actor == a.actor;
                assert(t[k].actor < b.actor);
            }
        }
        assert(entries_map(s) == entries_map(s1).insert(a.actor, a.counter));
        assert(entries_map(t) == entries_map(t1).insert(b.actor, b.counter));
        assert(entries_map(s1) =~= entries_map(s).remove(a.actor));
        assert(entries_map(t1) =~= entries_map(t).remove(a.actor));
        lemma_entries_canonical(s1, t1);
        assert(s =~= s1.push(a));
        assert(t =~= t1.push(b));
    }
}

proof fn lemma_prefix_map(s: Seq<ClockEntry>, i: int)
    requires
        0 <= i < s.len(),
    ensures
        entries_map(s.subrange(0, i + 1)) == entries_map(s.subrange(0, i)).insert(
            s[i].actor,
            s[i].counter,
        ),
{
    assert(s.subrange(0, i + 1).drop_last() =~= s.subrange(0, i));
}

proof fn lemma_push_map(s: Seq<ClockEntry>, e: ClockEntry)
    ensures
        entries_map(s.push(e)) == entries_map(s).insert(e.actor, e.counter),
{
    assert(s.push(e).drop_last() =~= s);
}

/// Merges two sorted entry lists into the sorted list of their join.
fn merge_entries(a: &Vec<ClockEntry>, b: &Vec<ClockEntry>) -> (r: Vec<ClockEntry>)
    requires
        strictly_sorted(a@),
        strictly_sorted(b@),
    ensures
        strictly_sorted(r@),
        entries_map(r@) == join(entries_map(a@), entries_map(b@)),
{
    let mut r: Vec<ClockEntry> = Vec::new();
    let mut i: usize = 0;
    let mut j: usize = 0;
    assert(join(entries_map(a@.subrange(0, 0)), entries_map(b@.subrange(0, 0))) =~= Map::empty());
    while i < a.len() || j < b.len()
        invariant
            i <= a.len(),
            j <= b.len(),
            strictly_sorted(a@),
            strictly_sorted(b@),
            strictly_sorted(r@),
            entries_map(r@) == join(
                entries_map(a@.subrange(0, i as int)),
                entries_map(b@.subrange(0, j as int)),
            ),
            forall|k: int|
                0 <= k < r.len() ==> (i < a.len() ==> #[trigger] r@[k].actor < a@[i as int].actor)
                    && (j < b.len() ==> r@[k].actor < b@[j as int].actor),
        decreases a.len() + b.len() - i - j,
    {
        let ghost ma = entries_map(a@.subrange(0, i as int));
        let ghost mb = entries_map(b@.subrange(0, j as int));
        let ghost old_r = r@;
        proof {
            lemma_entries_map(r@);
        }
        if i < a.len() && (j >= b.len() || a[i].actor < b[j].actor) {
            let e = a[i];
            proof {
                lemma_prefix_map(a@, i as int);
                lemma_push_map(old_r, e);
                if mb.contains_key(e.actor) {
                    assert(entries_map(r@).contains_key(e.actor));
                }
                assert(join(ma.insert(e.actor, e.counter), mb) =~= join(ma, mb).insert(
                    e.actor,
                    e.counter,
                ));
            }
            r.push(e);
            i = i + 1;
        } else if j < b.len() && (i >= a.len() || b[j].actor < a[i].actor) {
            let e = b[j];
            proof {
                lemma_prefix_map(b@, j as int);
                lemma_push_map(old_r, e);
                if ma.contains_key(e.actor) {
                    assert(entries_map(r@).contains_key(e.actor));
                }
                assert(join(ma, mb.insert(e.actor, e.counter)) =~= join(ma, mb).insert(
                    e.actor,
                    e.counter,
                ));
            }
            r.push(e);
            j = j + 1;
        } else {
            let x = a[i];
            let y = b[j];
            let c = if x.counter >= y.counter {
                x.counter
            } else {
                y.counter
            };
            let e = ClockEntry { actor: x.actor, counter: c };
            proof {
                lemma_prefix_map(a@, i as int);
                lemma_prefix_map(b@, j as int);
                lemma_push_map(old_r, e);
                assert(join(ma.insert(x.actor, x.counter), mb.insert(y.actor, y.counter))
                    =~= join(ma, mb).insert(e.actor, e.counter));
            }
            r.push(e);
            i = i + 1;
            j = j + 1;
        }
    }
    assert(a@.subrange(0, a.len() as int) =~= a@);
    assert(b@.subrange(0, b.len() as int) =~= b@);
    r
}

/// Why a vector clock operation failed.
#[derive(Clone, Copy, Debug, PartialEq, Eq)]
pub enum VectorClockError {
    /// The acting change set could not allocate a counter value.
    ChangeSet(ChangeSetError),
}

/// A vector clock, held as its entries sorted by actor.
#[derive(Debug, PartialEq, Eq)]
pub struct VectorClock {
    entries: Vec<ClockEntry>,
}

impl View for VectorClock {
    type V = Map<u128, u64>;

    closed spec fn view(&self) -> Map<u128, u64> {
        entries_map(self.entries@)
    }
}

impl Clone for VectorClock {
    fn clone(&self) -> (r: VectorClock)
        ensures
            r@ == self@,
    {
        proof {
            use_type_invariant(self);
        }
        VectorClock { entries: self.entries() }
    }
}

impl VectorClock {
    #[verifier::type_invariant]
    spec fn sorted(&self) -> bool {
        strictly_sorted(self.entries@)
    }

    /// A clock with a single entry: the acting change set at its next counter
    /// value.
    pub fn new(change_set: &mut ChangeSet) -> (r: Result<VectorClock, VectorClockError>)
        ensures
            final(change_set).actor() == old(change_set).actor(),
            old(change_set).counter() < u64::MAX ==> (r matches Ok(vc) && vc@ == map![
                old(change_set).actor() => old(change_set).counter(),
            ]) && final(change_set).counter() == old(change_set).counter() + 1,
            old(change_set).counter() == u64::MAX ==> r == Err::<VectorClock, VectorClockError>(
                VectorClockError::ChangeSet(ChangeSetError::CounterExhausted),
            ) && *final(change_set) == *old(change_set),
    {
        let actor = change_set.id();
        match change_set.next_counter() {
            Ok(c) => {
                let e = ClockEntry { actor, counter: c };
                let entries = vec![e];
                proof {
                    assert(entries@ =~= Seq::empty().push(e));
                    lemma_push_map(Seq::empty(), e);
                    assert(entries_map(entries@) =~= map![actor => c]);
                }
                Ok(VectorClock { entries })
            },
            Err(e) => Err(VectorClockError::ChangeSet(e)),
        }
    }

    /// The counter recorded for `actor`, if the clock has an entry for it.
    pub fn entry(&self, actor: u128) -> (r: Option<u64>)
        ensures
            r == (if self@.contains_key(actor) {
                Some(self@[actor])
            } else {
                None::<u64>
            }),
    {
        proof {
            use_type_invariant(self);
            lemma_entries_map(self.entries@);
        }
        let mut i: usize = 0;
        while i < self.entries.len()
            invariant
                i <= self.entries.len(),
                forall|k: int| 0 <= k < i ==> #[trigger] self.entries@[k].actor != actor,
            decreases self.entries.len() - i,
        {
            if self.entries[i].actor == actor {
                proof {
                    use_type_invariant(self);
                    lemma_entries_map(self.entries@);
                }
                return Some(self.entries[i].counter);
            }
            i = i + 1;
        }
        None
    }

    /// The counter of `actor`, 0 where the clock has no entry for it.
    pub fn counter_for(&self, actor: u128) -> (r: u64)
        ensures
            r == counter_of(self@, actor),
    {
        match self.entry(actor) {
            Some(c) => c,
            None => 0,
        }
    }

    /// The entries of the clock, sorted by actor.
    pub fn entries(&self) -> (r: Vec<ClockEntry>)
        ensures
            strictly_sorted(r@),
            entries_map(r@) == self@,
    {
        proof {
            use_type_invariant(self);
        }
        let mut r: Vec<ClockEntry> = Vec::new();
        let mut i: usize = 0;
        while i < self.entries.len()
            invariant
                i <= self.entries.len(),
                r@ == self.entries@.subrange(0, i as int),
            decreases self.entries.len() - i,
        {
            r.push(self.entries[i]);
            i = i + 1;
            assert(r@ =~= self.entries@.subrange(0, i as int));
        }
        assert(r@ =~= self.entries@);
        r
    }

    /// Rebuilds a clock from entries sorted by actor; `None` where they are not
    /// strictly sorted.
    pub fn from_entries(entries: Vec<ClockEntry>) -> (r: Option<VectorClock>)
        ensures
            strictly_sorted(entries@) <==> r is Some,
            r matches Some(vc) ==> vc@ == entries_map(entries@),
    {
        let mut i: usize = 1;
        while i < entries.len()
            invariant
                1 <= i,
                forall|p: int, q: int| 0 <= p < q < i && q < entries.len() ==> entries@[p].actor
                    < entries@[q].actor,
            decreases entries.len() - i,
        {
            if entries[i - 1].actor >= entries[i].actor {
                return None;
            }
            proof {
                assert forall|p: int, q: int|
                    0 <= p < q < i + 1 && q < entries.len() implies entries@[p].actor
                    < entries@[q].actor by {
                    if q == i && p < i - 1 {
                        assert(entries@[p].actor < entries@[i - 1].actor);
                    }
                }
            }
            i = i + 1;
        }
        Some(VectorClock { entries })
    }

    /// Joins `other` into this clock: the pointwise maximum over the actors of
    /// either.
    pub fn merge(&mut self, other: &VectorClock)
        ensures
            final(self)@ == join(old(self)@, other@),
    {
        proof {
            use_type_invariant(&*self);
            use_type_invariant(other);
        }
        let merged = merge_entries(&self.entries, &other.entries);
        self.entries = merged;
    }

    /// Advances the entry of the acting change set to the larger of its current
    /// value and a freshly allocated counter value.
    pub fn increment(&mut self, change_set: &mut ChangeSet) -> (r: Result<(), VectorClockError>)
        ensures
            final(change_set).actor() == old(change_set).actor(),
            old(change_set).counter() < u64::MAX ==> r is Ok && final(self)@ == bumped(
                old(self)@,
                old(change_set).actor(),
                old(change_set).counter(),
            ) && final(change_set).counter() == old(change_set).counter() + 1,
            old(change_set).counter() == u64::MAX ==> r == Err::<(), VectorClockError>(
                VectorClockError::ChangeSet(ChangeSetError::CounterExhausted),
            ) && *final(change_set) == *old(change_set) && *final(self) == *old(self),
    {
        let single = VectorClock::new(change_set)?;
        let ghost a = change_set.actor();
        let ghost m = self@;
        self.merge(&single);
        proof {
            assert(join(m, map![a => old(change_set).counter()]) =~= m.insert(
                a,
                max_u64(counter_of(m, a), old(change_set).counter()),
            ));
        }
        Ok(())
    }

    /// Whether every entry of this clock is at most the matching entry of
    /// `other`.
    pub fn dominated_by(&self, other: &VectorClock) -> (r: bool)
        ensures
            r == dominated(self@, other@),
    {
        proof {
            use_type_invariant(self);
            lemma_entries_map(self.entries@);
        }
        let mut i: usize = 0;
        while i < self.entries.len()
            invariant
                i <= self.entries.len(),
                strictly_sorted(self.entries@),
                forall|k: int|
                    0 <= k < i ==> #[trigger] self.entries@[k].counter <= counter_of(
                        other@,
                        self.entries@[k].actor,
                    ),
            decreases self.entries.len() - i,
        {
            let e = self.entries[i];
            if e.counter > other.counter_for(e.actor) {
                proof {
                    lemma_entries_map(self.entries@);
                }
                assert(counter_of(self@, e.actor) > counter_of(other@, e.actor));
                return false;
            }
            i = i + 1;
        }
        assert forall|k: u128| #[trigger] counter_of(self@, k) <= counter_of(other@, k) by {
            if self@.contains_key(k) {
                let p = choose|p: int| 0 <= p < self.entries@.len() && self.entries@[p].actor == k;
                assert(self.entries@[p].counter <= counter_of(other@, k));
            }
        }
        true
    }

    /// Whether this clock causally precedes `other`: dominated by it and behind
    /// it for at least one actor.
    pub fn causally_precedes(&self, other: &VectorClock) -> (r: bool)
        ensures
            r == precedes(self@, other@),
    {
        let forward = self.dominated_by(other);
        let backward = other.dominated_by(self);
        proof {
            if forward && !backward {
                let k = choose|k: u128| !(#[trigger] counter_of(other@, k) <= counter_of(self@, k));
                assert(counter_of(self@, k) < counter_of(other@, k));
            }
            if precedes(self@, other@) {
                let k = choose|k: u128| #[trigger] counter_of(self@, k) < counter_of(other@, k);
                assert(!(counter_of(other@, k) <= counter_of(self@, k)));
            }
        }
        forward && !backward
    }
}

} // verus!
