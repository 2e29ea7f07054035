//! Identifiers for entities that need an identity of their own.

use vstd::prelude::*;

verus! {

/// Hands out identifiers by counting upwards from one.
///
/// The counter wraps around to zero after `usize::MAX`, so identifiers are
/// only distinct while fewer than `usize::MAX` of them have been handed out.
#[derive(Debug)]
pub struct IdGenerator {
    next: usize,
}

/// The identifier handed out `n` calls after the call that hands out `first`.
pub open spec fn nth_id(first: usize, n: nat) -> usize
    decreases n,
{
    if n == 0 {
        first
    } else {
        IdGenerator::successor(nth_id(first, (n - 1) as nat))
    }
}

/// As long as the counter does not wrap around, identifiers count upwards by
/// one: a later one is larger than an earlier one, so no two are the same.
pub proof fn lemma_ids_increase(first: usize, earlier: nat, later: nat)
    requires
        earlier < later,
        first + later <= usize::MAX,
    ensures
        nth_id(first, earlier) == first + earlier,
        nth_id(first, later) == first + later,
        nth_id(first, earlier) < nth_id(first, later),
{
    lemma_nth_id_counts(first, earlier);
    lemma_nth_id_counts(first, later);
}

/// As long as the counter does not wrap around, the identifier handed out
/// `n` calls after `first` is `first + n`.
pub proof fn lemma_nth_id_counts(first: usize, n: nat)
    requires
        first + n <= usize::MAX,
    ensures
        nth_id(first, n) == first + n,
    decreases n,
{
    if n > 0 {
        lemma_nth_id_counts(first, (n - 1) as nat);
    }
}

/// The counter wraps around: the identifier after the largest is zero.
pub proof fn lemma_ids_wrap_around()
    ensures
        IdGenerator::successor(usize::MAX) == 0,
        nth_id(usize::MAX, 1) == 0,
{
    reveal_with_fuel(nth_id, 2);
}

impl IdGenerator {
    /// The identifier that the next call of [`IdGenerator::unique_id`] returns.
    pub closed spec fn upcoming(&self) -> usize {
        self.next
    }

    /// The identifier that follows `id`.
    pub open spec fn successor(id: usize) -> usize {
        if id == usize::MAX {
            0
        } else {
            (id + 1) as usize
        }
    }

    /// A generator whose first identifier is one.
    pub fn new() -> (generator: Self)
        ensures
            generator.upcoming() == 1,
    {
        IdGenerator { next: 1 }
    }

    /// Returns the upcoming identifier and moves on to its successor.
    pub fn unique_id(&mut self) -> (id: usize)
        ensures
            id == old(self).upcoming(),
            final(self).upcoming() == Self::successor(id),
    {
        let id: usize = self.next;
        self.next = if id == usize::MAX {
            0
        } else {
            id + 1
        };
        id
    }
}

} // verus!
