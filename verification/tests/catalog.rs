use arising::add_character;
use arising::add_forge_recipe;
use arising::add_quest;
use arising::checks::is_mint_owner;
use arising::checks::TokenAccount;
use arising::codex::BaseAttributes;
use arising::codex::BaseStats;
use arising::codex::Recipe;
use arising::codex::ResourceType;
use arising::characters::CharacterMaterials;
use arising::characters::CharacterSlots;
use arising::errors::Error;
use arising::errors::ForgeError;
use arising::errors::QuestError;
use arising::initialize;
use arising::quests::Quest;
use arising::quests::QuestType;
use arising::update_forge_recipe;
use arising::update_forge_recipe_availability;
use arising::update_quest;
use arising::update_quest_availability;

fn stats(might: u16, speed: u16, intellect: u16) -> BaseStats {
    BaseStats { might, speed, intellect }
}

fn recipe_data(name: &str) -> Recipe {
    Recipe {
        id: 0,
        name: String::from(name),
        materials: vec![0; 10],
        materials_amounts: vec![0; 10],
        materials_types: vec![ResourceType::Raw; 10],
        stats_required: stats(1, 0, 0),
        stats_sacrificed: stats(0, 0, 0),
        cooldown: 60,
        level_required: 2,
        item_rewarded: 1,
        item_rewarded_amount: 1,
        item_rewarded_type: ResourceType::Basic,
        available: true,
    }
}

fn quest_data(name: &str) -> Quest {
    Quest {
        id: 0,
        name: String::from(name),
        description: String::from("description"),
        quest_type: QuestType::Job,
        stats_required: stats(0, 1, 0),
        cooldown: 30,
        level_required: 1,
        materials_reward: vec![0; 10],
        materials_amounts: vec![0; 10],
        mob_experience: 0,
        mob_level: 0,
        mob_base_stats: stats(0, 0, 0),
        mob_base_attributes: BaseAttributes {
            atk: 0,
            def: 0,
            range: 0,
            mag_atk: 0,
            mag_def: 0,
            rate: 0,
        },
        available: true,
    }
}

#[test]
fn forge_recipes_get_sequential_ids() {
    let mut config = initialize(9);
    let first = add_forge_recipe(&mut config, 1, recipe_data("first")).unwrap();
    assert_eq!(first.recipe.id, 1);
    // New entries start unavailable whatever the submitted flag said.
    assert!(!first.recipe.available);
    assert_eq!(config.forge_recipes, 1);

    let skipped = add_forge_recipe(&mut config, 3, recipe_data("skipped"));
    assert_eq!(skipped, Err(Error::Forge(ForgeError::InvalidID)));
    assert_eq!(config.forge_recipes, 1);

    let second = add_forge_recipe(&mut config, 2, recipe_data("second")).unwrap();
    assert_eq!(second.recipe.id, 2);
    assert_eq!(config.forge_recipes, 2);
}

#[test]
fn forge_recipe_id_zero_rejected() {
    let mut config = initialize(9);
    let result = add_forge_recipe(&mut config, 0, recipe_data("zero"));
    assert_eq!(result, Err(Error::Forge(ForgeError::InvalidID)));
    assert_eq!(config.forge_recipes, 0);
}

#[test]
fn forge_recipe_update_keeps_id_and_availability() {
    let mut config = initialize(9);
    let mut recipe = add_forge_recipe(&mut config, 1, recipe_data("original")).unwrap();
    update_forge_recipe_availability(&mut recipe, true);
    assert!(recipe.recipe.available);

    let mut new_data = recipe_data("renamed");
    new_data.cooldown = 120;
    new_data.available = false;
    update_forge_recipe(&mut recipe, new_data);
    assert_eq!(recipe.recipe.id, 1);
    assert!(recipe.recipe.available);
    assert_eq!(recipe.recipe.name, "renamed");
    assert_eq!(recipe.recipe.cooldown, 120);

    update_forge_recipe_availability(&mut recipe, false);
    assert!(!recipe.recipe.available);
}

#[test]
fn quests_get_sequential_ids() {
    let mut config = initialize(9);
    let first = add_quest(&mut config, 1, quest_data("first")).unwrap();
    assert_eq!(first.id, 1);
    assert!(!first.available);
    assert_eq!(config.quests, 1);

    let skipped = add_quest(&mut config, 5, quest_data("skipped"));
    assert_eq!(skipped, Err(Error::Quest(QuestError::InvalidID)));
    assert_eq!(config.quests, 1);
}

#[test]
fn quest_update_keeps_id_and_availability() {
    let mut config = initialize(9);
    let mut quest = add_quest(&mut config, 1, quest_data("original")).unwrap();
    update_quest_availability(&mut quest, true);
    let mut new_data = quest_data("renamed");
    new_data.quest_type = QuestType::Farm;
    update_quest(&mut quest, new_data);
    assert_eq!(quest.id, 1);
    assert!(quest.available);
    assert_eq!(quest.name, "renamed");
    assert_eq!(quest.quest_type, QuestType::Farm);
}

#[test]
fn fresh_character_is_zeroed() {
    let character = add_character(77);
    assert_eq!(character.mint, 77);
    assert_eq!(character.level, 0);
    assert_eq!(character.experience, 0);
    assert_eq!(character.base_stats, stats(0, 0, 0));
    assert_eq!(character.pool_stats, stats(0, 0, 0));
    assert_eq!(character.sacrificed_points, 0);
    assert_eq!(character.last_refresh, 0);
    assert_eq!(character.last_refresh_with_refresher, 0);

    let materials = CharacterMaterials::new();
    assert_eq!(materials.basic.len(), 20);
    assert_eq!(materials.raw.len(), 20);
    assert!(materials.basic.iter().all(|&v| v == 0));
    assert!(materials.raw.iter().all(|&v| v == 0));

    let slots = CharacterSlots::new();
    assert_eq!(slots.forge.cooldown, 0);
    assert_eq!(slots.craft.last_task_id, 0);
    assert!(!slots.quest.last_task_claimed);
}

#[test]
fn mint_ownership_needs_matching_funded_account() {
    let token = TokenAccount { mint: 5, owner: 8, amount: 1 };
    assert!(is_mint_owner(5, 8, &token));
    assert!(!is_mint_owner(6, 8, &token));
    assert!(!is_mint_owner(5, 9, &token));
    let empty = TokenAccount { mint: 5, owner: 8, amount: 0 };
    assert!(!is_mint_owner(5, 8, &empty));
}

#[test]
fn recipe_content_check_catches_bad_slots() {
    let good = recipe_data("good");
    assert!(good.check_content_wf());

    let mut short = recipe_data("short");
    short.materials.pop();
    assert!(!short.check_content_wf());

    let mut out_of_range = recipe_data("range");
    out_of_range.materials[0] = 21;
    assert!(!out_of_range.check_content_wf());

    let mut bad_reward = recipe_data("reward");
    bad_reward.item_rewarded = 21;
    assert!(!bad_reward.check_content_wf());

    let mut duplicated = recipe_data("dup");
    duplicated.materials[0] = 3;
    duplicated.materials[4] = 3;
    duplicated.materials_types[0] = ResourceType::Raw;
    duplicated.materials_types[4] = ResourceType::Raw;
    assert!(!duplicated.check_content_wf());

    // The same material in different categories is two different
    // counters, so it is fine.
    let mut split = recipe_data("split");
    split.materials[0] = 3;
    split.materials[4] = 3;
    split.materials_types[0] = ResourceType::Raw;
    split.materials_types[4] = ResourceType::Basic;
    assert!(split.check_content_wf());
}

#[test]
fn quest_content_check_catches_bad_slots() {
    let good = quest_data("good");
    assert!(good.check_content_wf());

    let mut out_of_range = quest_data("range");
    out_of_range.materials_reward[0] = 21;
    assert!(!out_of_range.check_content_wf());

    let mut duplicated = quest_data("dup");
    duplicated.materials_reward[1] = 6;
    duplicated.materials_reward[2] = 6;
    assert!(!duplicated.check_content_wf());
}
