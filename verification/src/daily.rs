//! The daily climb: a character, three modifiers and a seed for every day.

pub mod modifier;
pub mod parse;

use vstd::prelude::*;
use crate::character::Character;
use crate::neow::NeowBonuses;
use crate::seed::{Seed, SeedString};
use modifier::{DifficultyMod, GenericMod, StarterMod};

verus! {

/// One day's climb.
#[derive(Debug, PartialEq, Eq)]
pub struct Daily {
    pub date: String,
    pub character: Character,
    pub starter_mod: StarterMod,
    pub generic_mod: GenericMod,
    pub difficulty_mod: DifficultyMod,
    pub seed_string: SeedString,
    pub seed: Seed,
    pub no_combat_paths: Option<String>,
    pub no_combat_paths_ascension: Option<String>,
    pub neow_bonuses: NeowBonuses,
}

} // verus!
