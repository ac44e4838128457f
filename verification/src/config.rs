//! Global program configuration.

use vstd::prelude::*;

verus! {

/// Program-wide tunables and running catalog entry counts.
///
/// The counts (`forge_recipes`, `craft_recipes`, `upgrade_recipes`,
/// `quests`) are only used to assign sequential ids when catalog entries are
/// created; play operations never consult them.
#[derive(Clone, Copy, PartialEq, Eq, Structural, Debug)]
pub struct Config {
    pub paused: bool,
    pub initialized: bool,
    pub authority: u64,
    pub seconds_between_refreshes: u64,
    pub seconds_between_paid_refreshes: u64,
    pub max_characters: u64,
    pub experience_multiplier: u64,
    pub forge_recipes: u64,
    pub craft_recipes: u64,
    pub upgrade_recipes: u64,
    pub quests: u64,
}

} // verus!
