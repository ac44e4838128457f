//! Quests and their reward crediting.

use vstd::prelude::*;

use crate::characters::lemma_credit_untouched;
use crate::characters::spec_credit_list;
use crate::characters::CharacterMaterials;
use crate::codex::spec_slots_in_range;
use crate::codex::spec_slots_unique;
use crate::codex::BaseAttributes;
use crate::codex::BaseStats;
use crate::codex::MATERIAL_KINDS;
use crate::codex::RECIPE_MATERIAL_SLOTS;

verus! {

/// Kind of a quest; it decides how a claim resolves.
#[derive(Clone, Copy, PartialEq, Eq, Structural, Debug)]
pub enum QuestType {
    /// Work for material rewards.
    Job,
    /// Gather material rewards.
    Farm,
    /// Fight a mob.  Outcome resolution for raids is a separate, still
    /// open design concern: claiming one credits no materials.
    Raid,
}

/// A quest catalog entry: the stat points it consumes, its cooldown, and
/// the raw materials it rewards.
#[derive(Clone, PartialEq, Eq, Debug)]
pub struct Quest {
    /// Sequential identifier assigned by the catalog; never `0`.
    pub id: u32,
    pub name: String,
    pub description: String,
    pub quest_type: QuestType,
    /// Cost drawn from the spendable pool when the quest starts.
    pub stats_required: BaseStats,
    /// Cooldown duration in seconds, not an absolute time.
    pub cooldown: u32,
    pub level_required: u16,
    /// Raw material identity per reward slot; `0` means the slot is
    /// unused.
    pub materials_reward: Vec<u32>,
    /// Amount credited per reward slot.
    pub materials_amounts: Vec<u32>,
    pub mob_experience: u32,
    pub mob_level: u16,
    pub mob_base_stats: BaseStats,
    pub mob_base_attributes: BaseAttributes,
    /// Catalog-owner controlled visibility flag.
    pub available: bool,
}

impl Quest {
    /// Well-formedness of everything but the identifier: the reward slot
    /// lists are full length, in range and duplicate free.
    pub open spec fn content_wf(self) -> bool {
        &&& self.materials_reward@.len() == RECIPE_MATERIAL_SLOTS
        &&& self.materials_amounts@.len() == RECIPE_MATERIAL_SLOTS
        &&& spec_slots_in_range(self.materials_reward@)
        &&& spec_slots_unique(self.materials_reward@)
    }

    /// Well-formedness: valid content under a valid sequential identifier.
    pub open spec fn wf(self) -> bool {
        &&& self.id != 0
        &&& self.content_wf()
    }

    /// Runtime check that the definition content is well formed, for
    /// callers that receive definitions from outside the catalog
    /// operations.
    pub fn check_content_wf(&self) -> (r: bool)
        ensures
            r == self.content_wf(),
    {
        if self.materials_reward.len() != RECIPE_MATERIAL_SLOTS {
            return false;
        }
        if self.materials_amounts.len() != RECIPE_MATERIAL_SLOTS {
            return false;
        }
        let mut i: usize = 0;
        while i < RECIPE_MATERIAL_SLOTS
            invariant
                0 <= i <= RECIPE_MATERIAL_SLOTS,
                self.materials_reward@.len() == RECIPE_MATERIAL_SLOTS,
                forall|k: int|
                    0 <= k < i ==> #[trigger] self.materials_reward@[k] <= MATERIAL_KINDS,
                forall|k: int, j: int| #![trigger self.materials_reward@[k], self.materials_reward@[j]]
                    0 <= k < j < i && self.materials_reward@[k] != 0
                        && self.materials_reward@[j] != 0 ==> self.materials_reward@[k]
                        != self.materials_reward@[j],
            decreases RECIPE_MATERIAL_SLOTS - i,
        {
            if self.materials_reward[i] > MATERIAL_KINDS {
                return false;
            }
            let mut j: usize = 0;
            while j < i
                invariant
                    0 <= j <= i < RECIPE_MATERIAL_SLOTS,
                    self.materials_reward@.len() == RECIPE_MATERIAL_SLOTS,
                    forall|k: int| #![trigger self.materials_reward@[k]]
                        0 <= k < j && self.materials_reward@[k] != 0
                            && self.materials_reward@[i as int] != 0
                            ==> self.materials_reward@[k] != self.materials_reward@[i as int],
                decreases i - j,
            {
                if self.materials_reward[j] != 0 && self.materials_reward[i] != 0
                    && self.materials_reward[j] == self.materials_reward[i] {
                    return false;
                }
                j = j + 1;
            }
            i = i + 1;
        }
        true
    }
}

/// Credits every non-empty reward slot of a quest to the raw ledger.
pub fn quest_rewards(
    character_materials: &mut CharacterMaterials,
    materials: &Vec<u32>,
    amounts: &Vec<u32>,
)
    requires
        old(character_materials).wf(),
        amounts@.len() == materials@.len(),
        spec_slots_in_range(materials@),
        spec_slots_unique(materials@),
        forall|k: int|
            0 <= k < materials@.len() && #[trigger] materials@[k] != 0 ==> old(
                character_materials,
            ).raw@[materials@[k] - 1] + amounts@[k] <= u32::MAX,
    ensures
        final(character_materials).raw@ == spec_credit_list(
            old(character_materials).raw@,
            materials@,
            amounts@,
            materials@.len() as int,
        ),
        final(character_materials).basic@ == old(character_materials).basic@,
        final(character_materials).wf(),
{
    let n = materials.len();
    let mut i: usize = 0;
    while i < n
        invariant
            0 <= i <= n,
            n == materials@.len(),
            old(character_materials).wf(),
            character_materials.wf(),
            amounts@.len() == materials@.len(),
            spec_slots_in_range(materials@),
            spec_slots_unique(materials@),
            forall|k: int|
                0 <= k < materials@.len() && #[trigger] materials@[k] != 0 ==> old(
                    character_materials,
                ).raw@[materials@[k] - 1] + amounts@[k] <= u32::MAX,
            character_materials.raw@ == spec_credit_list(
                old(character_materials).raw@,
                materials@,
                amounts@,
                i as int,
            ),
            character_materials.basic@ == old(character_materials).basic@,
        decreases n - i,
    {
        let material = materials[i];
        let amount = amounts[i];
        if material != 0 {
            let j = (material - 1) as usize;
            proof {
                assert forall|k: int|
                    0 <= k < i && #[trigger] materials@[k] != 0 implies materials@[k] - 1
                        != material - 1 by {
                    assert(materials@[k] != materials@[i as int]);
                }
                lemma_credit_untouched(
                    old(character_materials).raw@,
                    materials@,
                    amounts@,
                    i as int,
                    material - 1,
                );
            }
            let cur = character_materials.raw[j];
            character_materials.raw.set(j, cur + amount);
        }
        i = i + 1;
    }
}

} // verus!
