//! Predicates on seeds, for searches through ranges of seeds.

use vstd::prelude::*;
use crate::rng::{Rng, State};
use crate::seed::Seed;

verus! {

/// A predicate that rejects seeds. What it answers for a generator depends
/// on the generator's state alone, and what it answers for a seed on the
/// seed alone.
pub trait SeedFilter {
    /// Whether the filter is set up so that it can be asked.
    spec fn wf(&self) -> bool;

    /// Whether the filter rejects what a generator in `state` produces.
    spec fn rejects(&self, state: State) -> bool;

    /// Whether the filter rejects `seed`.
    spec fn rejects_seed(&self, seed: Seed) -> bool;

    /// Whether the filter can be asked.
    fn is_ready(&self) -> (ready: bool)
        ensures
            ready == self.wf(),
    ;

    /// Whether the filter rejects what `rng` produces.
    fn reject_rng(&self, rng: &mut Rng) -> (rejected: bool)
        requires
            self.wf(),
        ensures
            rejected == self.rejects(old(rng)@),
    ;

    /// Whether the filter rejects `seed`.
    fn reject(&self, seed: Seed) -> (rejected: bool)
        requires
            self.wf(),
        ensures
            rejected == self.rejects_seed(seed),
    ;
}

} // verus!
