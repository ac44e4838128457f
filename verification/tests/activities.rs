use arising::add_character;
use arising::assign_stats_character;
use arising::characters::has_enough_materials;
use arising::characters::CharacterMaterials;
use arising::characters::CharacterSlots;
use arising::claim_forge;
use arising::claim_quest;
use arising::codex::BaseAttributes;
use arising::codex::BaseStats;
use arising::codex::Recipe;
use arising::codex::ResourceType;
use arising::errors::CharacterError;
use arising::errors::Error;
use arising::errors::ForgeError;
use arising::errors::QuestError;
use arising::forge::ForgeRecipe;
use arising::quests::Quest;
use arising::quests::QuestType;
use arising::recipes::is_forge_available_for_character;
use arising::recipes::is_forge_claimable_for_character;
use arising::start_forge;
use arising::start_quest;

fn stats(might: u16, speed: u16, intellect: u16) -> BaseStats {
    BaseStats { might, speed, intellect }
}

fn empty_recipe(id: u32) -> Recipe {
    Recipe {
        id,
        name: String::from("recipe"),
        materials: vec![0; 10],
        materials_amounts: vec![0; 10],
        materials_types: vec![ResourceType::Raw; 10],
        stats_required: stats(0, 0, 0),
        stats_sacrificed: stats(0, 0, 0),
        cooldown: 100,
        level_required: 0,
        item_rewarded: 0,
        item_rewarded_amount: 0,
        item_rewarded_type: ResourceType::Basic,
        available: true,
    }
}

fn empty_quest(id: u32) -> Quest {
    Quest {
        id,
        name: String::from("quest"),
        description: String::from("a quest"),
        quest_type: QuestType::Farm,
        stats_required: stats(0, 0, 0),
        cooldown: 50,
        level_required: 0,
        materials_reward: vec![0; 10],
        materials_amounts: vec![0; 10],
        mob_experience: 0,
        mob_level: 0,
        mob_base_stats: stats(0, 0, 0),
        mob_base_attributes: BaseAttributes {
            atk: 0,
            def: 0,
            range: 0,
            mag_atk: 0,
            mag_def: 0,
            rate: 0,
        },
        available: true,
    }
}

#[test]
fn forge_cooldown_scenario() {
    // Start a forge task with cooldown 100 at time 1000; it matures at
    // 1100, can be claimed once, and never twice.
    let mut character = add_character(1);
    let mut materials = CharacterMaterials::new();
    let mut slots = CharacterSlots::new();
    let recipe = ForgeRecipe { recipe: empty_recipe(1) };

    assert_eq!(
        start_forge(&mut character, &mut materials, &mut slots, &recipe, 1000),
        Ok(())
    );
    assert_eq!(slots.forge.cooldown, 1100);
    assert_eq!(slots.forge.last_task_id, 1);
    assert!(!slots.forge.last_task_claimed);

    assert!(!is_forge_claimable_for_character(&slots, 1050));
    assert_eq!(
        claim_forge(&mut materials, &mut slots, &recipe, 1050),
        Err(Error::Character(CharacterError::NotAbleToClaimForgeRecipe))
    );

    assert!(is_forge_claimable_for_character(&slots, 1100));
    assert_eq!(claim_forge(&mut materials, &mut slots, &recipe, 1100), Ok(()));
    assert!(slots.forge.last_task_claimed);

    assert_eq!(
        claim_forge(&mut materials, &mut slots, &recipe, 1200),
        Err(Error::Character(CharacterError::NotAbleToClaimForgeRecipe))
    );
}

#[test]
fn second_start_before_cooldown_conflicts() {
    let mut character = add_character(1);
    let mut materials = CharacterMaterials::new();
    let mut slots = CharacterSlots::new();
    let recipe = ForgeRecipe { recipe: empty_recipe(1) };

    assert_eq!(
        start_forge(&mut character, &mut materials, &mut slots, &recipe, 1000),
        Ok(())
    );
    assert!(!is_forge_available_for_character(&slots, 1050));
    assert_eq!(
        start_forge(&mut character, &mut materials, &mut slots, &recipe, 1050),
        Err(Error::Character(CharacterError::NotAbleToForgeRecipe))
    );
    // Even after the cooldown the slot stays busy until the task is
    // claimed.
    assert_eq!(
        start_forge(&mut character, &mut materials, &mut slots, &recipe, 1100),
        Err(Error::Character(CharacterError::NotAbleToForgeRecipe))
    );
    assert_eq!(claim_forge(&mut materials, &mut slots, &recipe, 1100), Ok(()));
    assert_eq!(
        start_forge(&mut character, &mut materials, &mut slots, &recipe, 1100),
        Ok(())
    );
    assert_eq!(slots.forge.cooldown, 1200);
}

#[test]
fn missing_materials_abort_start_without_effect() {
    // The recipe needs 5 of raw material #3; the ledger holds only 4.
    let mut character = add_character(1);
    let mut materials = CharacterMaterials::new();
    let mut slots = CharacterSlots::new();
    let mut recipe = empty_recipe(1);
    recipe.materials[0] = 3;
    recipe.materials_amounts[0] = 5;
    recipe.materials_types[0] = ResourceType::Raw;
    let recipe = ForgeRecipe { recipe };
    materials.raw[2] = 4;

    assert!(!has_enough_materials(
        &materials,
        &recipe.recipe.materials,
        &recipe.recipe.materials_amounts,
        &recipe.recipe.materials_types,
    ));
    assert_eq!(
        start_forge(&mut character, &mut materials, &mut slots, &recipe, 1000),
        Err(Error::Character(CharacterError::NotEnoughResources))
    );
    assert_eq!(materials.raw[2], 4);
    assert_eq!(slots.forge.cooldown, 0);
}

#[test]
fn start_consumes_materials_and_pool_exactly() {
    let mut character = add_character(1);
    assert_eq!(assign_stats_character(&mut character, &stats(3, 2, 1)), Ok(()));
    let mut materials = CharacterMaterials::new();
    let mut slots = CharacterSlots::new();
    let mut recipe = empty_recipe(1);
    recipe.materials[0] = 3;
    recipe.materials_amounts[0] = 5;
    recipe.materials_types[0] = ResourceType::Raw;
    recipe.materials[1] = 7;
    recipe.materials_amounts[1] = 2;
    recipe.materials_types[1] = ResourceType::Basic;
    recipe.stats_required = stats(2, 1, 0);
    let recipe = ForgeRecipe { recipe };
    materials.raw[2] = 9;
    materials.basic[6] = 2;

    assert_eq!(
        start_forge(&mut character, &mut materials, &mut slots, &recipe, 1000),
        Ok(())
    );
    // Exactly 5 raw and 2 basic were consumed, nothing else moved.
    assert_eq!(materials.raw[2], 4);
    assert_eq!(materials.basic[6], 0);
    assert_eq!(materials.raw.iter().copied().sum::<u32>(), 4);
    assert_eq!(materials.basic.iter().copied().sum::<u32>(), 0);
    assert_eq!(character.pool_stats, stats(1, 1, 1));
    // The base stats are untouched by a start.
    assert_eq!(character.base_stats, stats(3, 2, 1));
}

#[test]
fn claim_credits_single_reward() {
    let mut character = add_character(1);
    let mut materials = CharacterMaterials::new();
    let mut slots = CharacterSlots::new();
    let mut recipe = empty_recipe(1);
    recipe.item_rewarded = 2;
    recipe.item_rewarded_amount = 7;
    recipe.item_rewarded_type = ResourceType::Basic;
    let recipe = ForgeRecipe { recipe };

    assert_eq!(
        start_forge(&mut character, &mut materials, &mut slots, &recipe, 1000),
        Ok(())
    );
    assert_eq!(claim_forge(&mut materials, &mut slots, &recipe, 1100), Ok(()));
    assert_eq!(materials.basic[1], 7);
    assert_eq!(materials.basic.iter().copied().sum::<u32>(), 7);
    assert_eq!(materials.raw.iter().copied().sum::<u32>(), 0);
}

#[test]
fn materials_balance_across_cycles() {
    // Three full forge cycles: each consumes 2 of raw #1 and credits 1 of
    // basic #1; the ledger moves by exactly those totals.
    let mut character = add_character(1);
    let mut materials = CharacterMaterials::new();
    let mut slots = CharacterSlots::new();
    let mut recipe = empty_recipe(1);
    recipe.materials[0] = 1;
    recipe.materials_amounts[0] = 2;
    recipe.materials_types[0] = ResourceType::Raw;
    recipe.item_rewarded = 1;
    recipe.item_rewarded_amount = 1;
    recipe.item_rewarded_type = ResourceType::Basic;
    let recipe = ForgeRecipe { recipe };
    materials.raw[0] = 10;

    let mut time: u64 = 0;
    for _ in 0..3 {
        assert_eq!(
            start_forge(&mut character, &mut materials, &mut slots, &recipe, time),
            Ok(())
        );
        time += 100;
        assert_eq!(claim_forge(&mut materials, &mut slots, &recipe, time), Ok(()));
    }
    assert_eq!(materials.raw[0], 4);
    assert_eq!(materials.basic[0], 3);
    assert_eq!(materials.raw.iter().copied().sum::<u32>(), 4);
    assert_eq!(materials.basic.iter().copied().sum::<u32>(), 3);
    // A fourth cycle stops at the ledger, with nothing consumed.
    assert_eq!(
        start_forge(&mut character, &mut materials, &mut slots, &recipe, time),
        Ok(())
    );
    time += 100;
    assert_eq!(claim_forge(&mut materials, &mut slots, &recipe, time), Ok(()));
    assert_eq!(materials.raw[0], 2);
    assert_eq!(
        start_forge(&mut character, &mut materials, &mut slots, &recipe, time),
        Ok(())
    );
    time += 100;
    assert_eq!(claim_forge(&mut materials, &mut slots, &recipe, time), Ok(()));
    assert_eq!(materials.raw[0], 0);
    assert_eq!(
        start_forge(&mut character, &mut materials, &mut slots, &recipe, time),
        Err(Error::Character(CharacterError::NotEnoughResources))
    );
    assert_eq!(materials.raw[0], 0);
    assert_eq!(materials.basic[0], 5);
}

#[test]
fn forge_start_leaves_other_slots_alone() {
    let mut character = add_character(1);
    let mut materials = CharacterMaterials::new();
    let mut slots = CharacterSlots::new();
    let recipe = ForgeRecipe { recipe: empty_recipe(1) };
    assert_eq!(
        start_forge(&mut character, &mut materials, &mut slots, &recipe, 1000),
        Ok(())
    );
    assert_eq!(slots.craft.cooldown, 0);
    assert_eq!(slots.quest.cooldown, 0);
    assert_eq!(slots.upgrade.cooldown, 0);
}

#[test]
fn unavailable_recipe_rejected_first() {
    let mut character = add_character(1);
    let mut materials = CharacterMaterials::new();
    let mut slots = CharacterSlots::new();
    let mut recipe = empty_recipe(1);
    recipe.available = false;
    let recipe = ForgeRecipe { recipe };
    assert_eq!(
        start_forge(&mut character, &mut materials, &mut slots, &recipe, 1000),
        Err(Error::Forge(ForgeError::NotAvailable))
    );
}

#[test]
fn low_level_rejected() {
    let mut character = add_character(1);
    let mut materials = CharacterMaterials::new();
    let mut slots = CharacterSlots::new();
    let mut recipe = empty_recipe(1);
    recipe.level_required = 3;
    let recipe = ForgeRecipe { recipe };
    assert_eq!(
        start_forge(&mut character, &mut materials, &mut slots, &recipe, 1000),
        Err(Error::Character(CharacterError::NotEnoughLevel))
    );
}

#[test]
fn empty_pool_rejects_start() {
    let mut character = add_character(1);
    let mut materials = CharacterMaterials::new();
    let mut slots = CharacterSlots::new();
    let mut recipe = empty_recipe(1);
    recipe.stats_required = stats(1, 0, 0);
    let recipe = ForgeRecipe { recipe };
    assert_eq!(
        start_forge(&mut character, &mut materials, &mut slots, &recipe, 1000),
        Err(Error::Character(CharacterError::NotEnoughPoolPointsToConsume))
    );
}

#[test]
fn farm_quest_full_cycle_credits_rewards() {
    let mut character = add_character(1);
    assert_eq!(assign_stats_character(&mut character, &stats(2, 2, 2)), Ok(()));
    let mut materials = CharacterMaterials::new();
    let mut slots = CharacterSlots::new();
    let mut quest = empty_quest(1);
    quest.stats_required = stats(1, 1, 0);
    quest.materials_reward[0] = 4;
    quest.materials_amounts[0] = 3;
    quest.materials_reward[1] = 9;
    quest.materials_amounts[1] = 2;

    assert_eq!(
        start_quest(&mut character, &mut slots, &quest, 500, 0),
        Ok(())
    );
    assert_eq!(character.pool_stats, stats(1, 1, 2));
    assert_eq!(slots.quest.cooldown, 550);
    assert_eq!(slots.quest.last_task_id, 1);

    assert_eq!(
        claim_quest(&mut materials, &mut slots, &quest, 549),
        Err(Error::Character(CharacterError::NotAbleToClaimQuest))
    );
    assert_eq!(claim_quest(&mut materials, &mut slots, &quest, 550), Ok(()));
    assert_eq!(materials.raw[3], 3);
    assert_eq!(materials.raw[8], 2);
    assert_eq!(materials.raw.iter().copied().sum::<u32>(), 5);
    assert!(slots.quest.last_task_claimed);
    assert_eq!(
        claim_quest(&mut materials, &mut slots, &quest, 600),
        Err(Error::Character(CharacterError::NotAbleToClaimQuest))
    );
    assert_eq!(materials.raw.iter().copied().sum::<u32>(), 5);
}

#[test]
fn raid_quest_claim_credits_nothing() {
    let mut character = add_character(1);
    let mut materials = CharacterMaterials::new();
    let mut slots = CharacterSlots::new();
    let mut quest = empty_quest(1);
    quest.quest_type = QuestType::Raid;
    quest.materials_reward[0] = 4;
    quest.materials_amounts[0] = 3;

    assert_eq!(start_quest(&mut character, &mut slots, &quest, 500, 7), Ok(()));
    assert_eq!(claim_quest(&mut materials, &mut slots, &quest, 550), Ok(()));
    assert_eq!(materials.raw.iter().copied().sum::<u32>(), 0);
    assert!(slots.quest.last_task_claimed);
}

#[test]
fn unavailable_quest_rejected_first() {
    let mut character = add_character(1);
    let mut slots = CharacterSlots::new();
    let mut quest = empty_quest(1);
    quest.available = false;
    assert_eq!(
        start_quest(&mut character, &mut slots, &quest, 500, 0),
        Err(Error::Quest(QuestError::NotAvailable))
    );
}

#[test]
fn busy_quest_slot_rejects_second_start() {
    let mut character = add_character(1);
    let mut slots = CharacterSlots::new();
    let quest = empty_quest(1);
    assert_eq!(start_quest(&mut character, &mut slots, &quest, 500, 0), Ok(()));
    assert_eq!(
        start_quest(&mut character, &mut slots, &quest, 540, 0),
        Err(Error::Character(CharacterError::NotAbleToQuest))
    );
}
