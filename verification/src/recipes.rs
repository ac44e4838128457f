//! Availability and claimability checks for recipe-driven activities.

use vstd::prelude::*;

use crate::characters::spec_slot_available;
use crate::characters::spec_slot_claimable;
use crate::characters::CharacterSlots;
use crate::codex::Recipe;
use crate::forge::ForgeRecipe;

verus! {

/// A craft catalog entry.
#[derive(Clone, PartialEq, Eq, Debug)]
pub struct CraftRecipe {
    pub recipe: Recipe,
}

/// Whether the forge recipe is available globally.
pub fn is_forge_recipe_available(recipe: &ForgeRecipe) -> (r: bool)
    ensures
        r == recipe.recipe.available,
{
    recipe.recipe.available
}

/// Whether the character's forge slot is free to start a recipe.
pub fn is_forge_available_for_character(slots: &CharacterSlots, now: u64) -> (r: bool)
    ensures
        r == spec_slot_available(slots.forge, now),
{
    if slots.forge.cooldown == 0 {
        return true;
    }
    slots.forge.cooldown <= now && slots.forge.last_task_claimed
}

/// Whether the character's forge slot holds an unclaimed, matured task.
pub fn is_forge_claimable_for_character(slots: &CharacterSlots, now: u64) -> (r: bool)
    ensures
        r == spec_slot_claimable(slots.forge, now),
{
    slots.forge.cooldown <= now && !slots.forge.last_task_claimed
        && slots.forge.last_task_id != 0
}

/// Whether the craft recipe is available globally.
pub fn is_craft_recipe_available(recipe: &CraftRecipe) -> (r: bool)
    ensures
        r == recipe.recipe.available,
{
    recipe.recipe.available
}

/// Whether the character's craft slot is free to start a recipe.
pub fn is_craft_available_for_character(slots: &CharacterSlots, now: u64) -> (r: bool)
    ensures
        r == spec_slot_available(slots.craft, now),
{
    if slots.craft.cooldown == 0 {
        return true;
    }
    slots.craft.cooldown <= now && slots.craft.last_task_claimed
}

/// Whether the character's craft slot holds an unclaimed, matured task.
pub fn is_craft_claimable_for_character(slots: &CharacterSlots, now: u64) -> (r: bool)
    ensures
        r == spec_slot_claimable(slots.craft, now),
{
    slots.craft.cooldown <= now && !slots.craft.last_task_claimed
        && slots.craft.last_task_id != 0
}

} // verus!
