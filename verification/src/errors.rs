//! Error codes returned by the game operations.

use vstd::prelude::*;

verus! {

/// Character context errors.
#[derive(Clone, Copy, PartialEq, Eq, Structural, Debug)]
pub enum CharacterError {
    /// Not enough level to perform this action.
    NotEnoughLevel,
    /// Not enough pool points to consume.
    NotEnoughPoolPointsToConsume,
    /// Not enough base points to sacrifice.
    NotEnoughBasePointsToSacrifice,
    /// Not enough points available to assign.
    NotEnoughAssignablePoints,
    /// Not able to refresh now.
    RefreshNotAvailable,
    /// Not able to forge a recipe now.
    NotAbleToForgeRecipe,
    /// Not able to start a quest.
    NotAbleToQuest,
    /// Not able to claim the forge recipe now.
    NotAbleToClaimForgeRecipe,
    /// Not able to claim the quest now.
    NotAbleToClaimQuest,
    /// Not enough resources to perform the task.
    NotEnoughResources,
}

/// Forge context errors.
#[derive(Clone, Copy, PartialEq, Eq, Structural, Debug)]
pub enum ForgeError {
    /// Recipe is not available.
    NotAvailable,
    /// Invalid forge recipe id.
    InvalidID,
}

/// Quest context errors.
#[derive(Clone, Copy, PartialEq, Eq, Structural, Debug)]
pub enum QuestError {
    /// Quest is not available.
    NotAvailable,
    /// Invalid quest id.
    InvalidID,
}

/// Program context errors.
#[derive(Clone, Copy, PartialEq, Eq, Structural, Debug)]
pub enum ArisingError {
    /// Authority is not the program authority.
    InvalidAuthority,
    /// Payer is not owner of the token.
    InvalidOwner,
}

/// Any error a game operation can report.
#[derive(Clone, Copy, PartialEq, Eq, Structural, Debug)]
pub enum Error {
    /// A character state check failed.
    Character(CharacterError),
    /// A forge catalog check failed.
    Forge(ForgeError),
    /// A quest catalog check failed.
    Quest(QuestError),
    /// A program level check failed.
    Program(ArisingError),
}

} // verus!
