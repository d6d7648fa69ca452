//! The search through a range of seeds for those that a filter lets pass.

use vstd::prelude::*;
use crate::filter::SeedFilter;
use crate::seed::{encode, encoded, Seed, SeedString};

verus! {

/// A range of seeds, both ends included, and the filter to search it with.
pub struct Sieve<F: SeedFilter> {
    pub start: u64,
    pub end: u64,
    pub filter: F,
}

/// The seed for an unsigned number: the same 64 bits.
pub open spec fn seed_of(number: u64) -> Seed {
    Seed { seed: number as i64 }
}

/// The seeds from `start` on and below `upto` that the filter does not
/// reject, in ascending order.
pub open spec fn survivors_below<F: SeedFilter>(filter: F, start: int, upto: int) -> Seq<u64>
    decreases upto - start,
{
    if upto <= start {
        Seq::empty()
    } else if filter.rejects_seed(seed_of((upto - 1) as u64)) {
        survivors_below(filter, start, upto - 1)
    } else {
        survivors_below(filter, start, upto - 1).push((upto - 1) as u64)
    }
}

impl<F: SeedFilter> Sieve<F> {
    /// The search through the seeds from `start` to `end` with `filter`.
    pub fn new(start: u64, end: u64, filter: F) -> (sieve: Self)
        ensures
            sieve.start == start,
            sieve.end == end,
            sieve.filter == filter,
    {
        Sieve { start, end, filter }
    }

    /// The seed strings of the seeds of the range that the filter does not
    /// reject, in ascending order of the seeds.
    pub fn survivors(&self) -> (found: Vec<SeedString>)
        requires
            self.filter.wf(),
        ensures
            found@.len() == survivors_below(self.filter, self.start as int, self.end + 1).len(),
            forall|i: int|
                0 <= i < found@.len() ==> (#[trigger] found@[i]).seed@ == encoded(
                    survivors_below(self.filter, self.start as int, self.end + 1)[i] as int,
                ),
    {
        let mut found: Vec<SeedString> = Vec::new();
        if self.start > self.end {
            return found;
        }
        let mut seed = self.start;
        loop
            invariant_except_break
                self.start <= seed <= self.end,
                self.filter.wf(),
                found@.len() == survivors_below(self.filter, self.start as int, seed as int).len(),
                forall|i: int|
                    0 <= i < found@.len() ==> (#[trigger] found@[i]).seed@ == encoded(
                        survivors_below(self.filter, self.start as int, seed as int)[i] as int,
                    ),
            ensures
                found@.len() == survivors_below(
                    self.filter,
                    self.start as int,
                    self.end + 1,
                ).len(),
                forall|i: int|
                    0 <= i < found@.len() ==> (#[trigger] found@[i]).seed@ == encoded(
                        survivors_below(self.filter, self.start as int, self.end + 1)[i] as int,
                    ),
            decreases self.end - seed,
        {
            let signed = #[verifier::truncate] (seed as i64);
            assert(signed as u64 == seed) by (bit_vector)
                requires
                    signed == seed as i64,
            ;
            let candidate = Seed { seed: signed };
            if !self.filter.reject(candidate) {
                let string = encode(candidate);
                found.push(string);
            }
            if seed == self.end {
                break ;
            }
            seed = seed + 1;
        }
        found
    }
}

} // verus!
