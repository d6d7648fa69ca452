//! Offline reconstruction of the procedural generation of a card roguelike:
//! seeds, the dungeon map generator and the queries that seed searches use.

pub mod card;
pub mod character;
pub mod daily;
pub mod filter;
pub mod map;
pub mod neow;
pub mod rng;
pub mod seed;
pub mod sieve;
pub mod unlock;
mod text;
