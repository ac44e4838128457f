//! Ownership checks on plain token account values.

use vstd::prelude::*;

verus! {

/// The fields of a token account that ownership verification reads.  The
/// hosting environment fills them from its token program records; keys are
/// carried as plain integer identifiers.
#[derive(Clone, Copy, PartialEq, Eq, Structural, Debug)]
pub struct TokenAccount {
    pub mint: u64,
    pub owner: u64,
    pub amount: u64,
}

/// A requester owns a character when the presented token account is for the
/// character's mint, belongs to the requester, and holds at least one token.
pub open spec fn spec_is_mint_owner(mint: u64, check_owner: u64, token: TokenAccount) -> bool {
    &&& token.mint == mint
    &&& token.owner == check_owner
    &&& token.amount >= 1
}

/// Decides whether `check_owner` controls the character identified by
/// `mint`, judged by the token account it presents.
pub fn is_mint_owner(mint: u64, check_owner: u64, owner_token_account: &TokenAccount) -> (r: bool)
    ensures
        r == spec_is_mint_owner(mint, check_owner, *owner_token_account),
{
    if mint != owner_token_account.mint {
        return false;
    }
    if check_owner != owner_token_account.owner {
        return false;
    }
    if owner_token_account.amount < 1 {
        return false;
    }
    true
}

} // verus!
