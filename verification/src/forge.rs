//! Forge recipes and their reward crediting.

use vstd::prelude::*;

use crate::characters::spec_ledger_amount;
use crate::characters::CharacterMaterials;
use crate::codex::Recipe;
use crate::codex::ResourceType;
use crate::codex::MATERIAL_KINDS;

verus! {

/// A forge catalog entry.
#[derive(Clone, PartialEq, Eq, Debug)]
pub struct ForgeRecipe {
    pub recipe: Recipe,
}

/// Credits one rewarded material to the ledger; a reward of material `0`
/// credits nothing.
pub fn forge_reward(
    character_materials: &mut CharacterMaterials,
    material: u32,
    amount: u32,
    material_type: ResourceType,
)
    requires
        old(character_materials).wf(),
        material <= MATERIAL_KINDS,
        material != 0 ==> spec_ledger_amount(
            old(character_materials).basic@,
            old(character_materials).raw@,
            material,
            material_type,
        ) + amount <= u32::MAX,
    ensures
        final(character_materials).wf(),
        material == 0 ==> *final(character_materials) == *old(character_materials),
        material != 0 && material_type == ResourceType::Basic
            ==> final(character_materials).basic@ == old(character_materials).basic@.update(
            material - 1,
            (old(character_materials).basic@[material - 1] + amount) as u32,
        ) && final(character_materials).raw@ == old(character_materials).raw@,
        material != 0 && material_type == ResourceType::Raw ==> final(character_materials).raw@
            == old(character_materials).raw@.update(
            material - 1,
            (old(character_materials).raw@[material - 1] + amount) as u32,
        ) && final(character_materials).basic@ == old(character_materials).basic@,
{
    if material == 0 {
        return ;
    }
    let j = (material - 1) as usize;
    match material_type {
        ResourceType::Basic => {
            let cur = character_materials.basic[j];
            character_materials.basic.set(j, cur + amount);
        },
        ResourceType::Raw => {
            let cur = character_materials.raw[j];
            character_materials.raw.set(j, cur + amount);
        },
    }
}

} // verus!
