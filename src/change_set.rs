//! The acting branch: its identity and the counter source for its
//! vector-clock entries.

use vstd::prelude::*;

verus! {

#[verifier::external_type_specification]
#[verifier::external_body]
pub struct ExGenerator(ulid::Generator);

#[verifier::external_type_specification]
#[verifier::external_body]
pub struct ExMonotonicError(ulid::MonotonicError);

/// Relies on `ulid::Generator::new`: a generator that has handed out nothing yet.
pub assume_specification[ ulid::Generator::new ]() -> ulid::Generator;

/// Relies on `ulid::Generator::generate`: the next identifier of the generator
/// as its 128-bit value, or the generator's overflow error. The value depends on
/// the clock and on chance, so nothing is stated of it.
#[verifier::external_body]
fn generate_ulid(generator: &mut ulid::Generator) -> (r: Result<u128, ulid::MonotonicError>) {
    generator.generate().map(|u| u.0)
}

/// Why a change set could not hand out a value.
#[derive(Clone, Copy, Debug, PartialEq, Eq)]
pub enum ChangeSetError {
    /// Every counter value of the change set has been handed out.
    CounterExhausted,
    /// The identifier generator ran out of values for the current instant.
    IdGeneration,
}

/// A branch of the workspace acting as one vector-clock actor.
///
/// It hands out strictly increasing counter values for its own clock entries,
/// and fresh identifiers for the nodes it creates.
pub struct ChangeSet {
    id: u128,
    next_counter: u64,
    generator: ulid::Generator,
}

impl ChangeSet {
    /// The actor identity of the change set.
    pub closed spec fn actor(&self) -> u128 {
        self.id
    }

    /// The counter value that the next allocation hands out.
    pub closed spec fn counter(&self) -> u64 {
        self.next_counter
    }

    /// Opens a change set with a freshly generated identity; its first counter
    /// value is 1.
    pub fn new() -> (r: Result<ChangeSet, ChangeSetError>)
        ensures
            r matches Ok(cs) ==> cs.counter() == 1,
            r matches Err(e) ==> e == ChangeSetError::IdGeneration,
    {
        let mut generator = ulid::Generator::new();
        match generate_ulid(&mut generator) {
            Ok(id) => Ok(ChangeSet { id, next_counter: 1, generator }),
            Err(_) => Err(ChangeSetError::IdGeneration),
        }
    }

    /// Resumes a change set from its durably recorded identity and next
    /// counter value.
    pub fn resume(id: u128, next_counter: u64) -> (r: ChangeSet)
        ensures
            r.actor() == id,
            r.counter() == next_counter,
    {
        ChangeSet { id, next_counter, generator: ulid::Generator::new() }
    }

    /// The actor identity of the change set.
    pub fn id(&self) -> (r: u128)
        ensures
            r == self.actor(),
    {
        self.id
    }

    /// The counter value that the next allocation hands out.
    pub fn peek_counter(&self) -> (r: u64)
        ensures
            r == self.counter(),
    {
        self.next_counter
    }

    /// Allocates the next counter value; no value is handed out twice.
    pub fn next_counter(&mut self) -> (r: Result<u64, ChangeSetError>)
        ensures
            final(self).actor() == old(self).actor(),
            old(self).counter() < u64::MAX ==> r == Ok::<u64, ChangeSetError>(old(self).counter())
                && final(self).counter() == old(self).counter() + 1,
            old(self).counter() == u64::MAX ==> r == Err::<u64, ChangeSetError>(
                ChangeSetError::CounterExhausted,
            ) && *final(self) == *old(self),
    {
        if self.next_counter == u64::MAX {
            return Err(ChangeSetError::CounterExhausted);
        }
        let c = self.next_counter;
        self.next_counter = c + 1;
        Ok(c)
    }

    /// Generates a fresh node identifier. The identity and the counter of the
    /// change set stay as they are.
    pub fn generate_id(&mut self) -> (r: Result<u128, ChangeSetError>)
        ensures
            final(self).actor() == old(self).actor(),
            final(self).counter() == old(self).counter(),
            r matches Err(e) ==> e == ChangeSetError::IdGeneration,
    {
        match generate_ulid(&mut self.generator) {
            Ok(id) => Ok(id),
            Err(_) => Err(ChangeSetError::IdGeneration),
        }
    }
}

} // verus!
