//! Character display names.

use vstd::prelude::*;

verus! {

/// The display name record of a character, stored under the character's
/// identity.
#[derive(Clone, PartialEq, Eq, Debug)]
pub struct CharacterName {
    pub name: String,
}

} // verus!
