//! Character progression and crafting economy core for the arising game.
//!
//! The library models player characters with a leveling curve, a spendable
//! stat pool, cooldown-gated task slots (forge, craft, quest) and a ledger of
//! raw and basic materials.  Every operation validates its inputs fully and
//! then applies one atomic mutation; none leaves a character partially
//! changed.  Storage, ownership verification and the clock are collaborators
//! of the hosting environment: operations receive the current time as a
//! plain value and report every failure as one specific error.

pub mod characters;
pub mod checks;
pub mod codex;
pub mod config;
pub mod errors;
pub mod forge;
pub mod names;
pub mod quests;
pub mod recipes;

use vstd::prelude::*;

use crate::characters::can_assign_points;
use crate::characters::can_consume;
use crate::characters::can_refresh;
use crate::characters::can_refresh_with_token;
use crate::characters::consume_materials;
use crate::characters::consume_points;
use crate::characters::has_enough_materials;
use crate::characters::is_slot_available;
use crate::characters::is_slot_claimable;
use crate::characters::refresh;
use crate::characters::refresh_with_token;
use crate::characters::spec_can_assign;
use crate::characters::spec_can_consume;
use crate::characters::spec_can_sacrifice;
use crate::characters::spec_consume_cat;
use crate::characters::spec_credit_list;
use crate::characters::spec_has_enough;
use crate::characters::spec_ledger_amount;
use crate::characters::lemma_consume_conserves;
use crate::characters::lemma_credit_conserves;
use crate::characters::lemma_seq_sum_update;
use crate::characters::spec_credit_total;
use crate::characters::spec_seq_sum;
use crate::characters::spec_slot_available;
use crate::characters::spec_slot_claimable;
use crate::characters::spec_slots_total;
use crate::characters::spec_stats_add;
use crate::characters::spec_stats_sub;
use crate::characters::Character;
use crate::characters::CharacterMaterials;
use crate::characters::CharacterSlot;
use crate::characters::CharacterSlots;
use crate::codex::spec_stats_sum;
use crate::codex::BaseStats;
use crate::codex::Recipe;
use crate::codex::ResourceType;
use crate::config::Config;
use crate::errors::CharacterError;
use crate::errors::Error;
use crate::errors::ForgeError;
use crate::errors::QuestError;
use crate::forge::forge_reward;
use crate::forge::ForgeRecipe;
use crate::quests::quest_rewards;
use crate::quests::Quest;
use crate::quests::QuestType;

verus! {

/// Creates the program configuration with its initial tunables.  The
/// program starts paused until the authority unpauses it.
pub fn initialize(authority: u64) -> (config: Config)
    ensures
        config == (Config {
            paused: true,
            initialized: true,
            authority: authority,
            seconds_between_refreshes: 86400,
            seconds_between_paid_refreshes: 86400,
            max_characters: 30000,
            experience_multiplier: 1,
            forge_recipes: 0,
            craft_recipes: 0,
            upgrade_recipes: 0,
            quests: 0,
        }),
{
    Config {
        paused: true,
        initialized: true,
        authority: authority,
        seconds_between_refreshes: 86400,
        seconds_between_paid_refreshes: 86400,
        max_characters: 30000,
        experience_multiplier: 1,
        forge_recipes: 0,
        craft_recipes: 0,
        upgrade_recipes: 0,
        quests: 0,
    }
}

/// Sets the pause flag.  The hosting environment must have verified that
/// the requester is the configured authority.
pub fn set_paused(config: &mut Config, paused: bool)
    ensures
        *final(config) == (Config { paused: paused, ..*old(config) }),
{
    config.paused = paused;
}

/// Creates a fresh character for an identity: level zero, no experience,
/// zeroed stats and counters.  Idempotent creation per identity is a
/// storage concern of the hosting environment.
pub fn add_character(mint: u64) -> (character: Character)
    ensures
        character == (Character {
            level: 0,
            mint: mint,
            base_stats: BaseStats { might: 0, speed: 0, intellect: 0 },
            pool_stats: BaseStats { might: 0, speed: 0, intellect: 0 },
            experience: 0,
            last_refresh: 0,
            last_refresh_with_refresher: 0,
            sacrificed_points: 0,
        }),
        character.wf(),
{
    Character {
        level: 0,
        mint: mint,
        base_stats: BaseStats::zero(),
        pool_stats: BaseStats::zero(),
        experience: 0,
        last_refresh: 0,
        last_refresh_with_refresher: 0,
        sacrificed_points: 0,
    }
}

/// Permanently allocates the requested points, growing both the base
/// stats and the spendable pool, when the request fits the remaining
/// lifetime budget; rejects it whole otherwise.
pub fn assign_stats_character(character: &mut Character, points: &BaseStats) -> (result: Result<
    (),
    Error,
>)
    requires
        old(character).wf(),
    ensures
        final(character).wf(),
        final(character).sacrificed_points >= old(character).sacrificed_points,
        spec_can_assign(*old(character), *points) ==> result == Ok::<(), Error>(())
            && *final(character) == (Character {
            base_stats: spec_stats_add(old(character).base_stats, *points),
            pool_stats: spec_stats_add(old(character).pool_stats, *points),
            ..*old(character)
        }),
        !spec_can_assign(*old(character), *points) ==> result == Err::<(), Error>(
            Error::Character(CharacterError::NotEnoughAssignablePoints),
        ) && *final(character) == *old(character),
{
    if !can_assign_points(character, points) {
        return Err(Error::Character(CharacterError::NotEnoughAssignablePoints));
    }
    character.base_stats.might = character.base_stats.might + points.might;
    character.base_stats.speed = character.base_stats.speed + points.speed;
    character.base_stats.intellect = character.base_stats.intellect + points.intellect;
    character.pool_stats.might = character.pool_stats.might + points.might;
    character.pool_stats.speed = character.pool_stats.speed + points.speed;
    character.pool_stats.intellect = character.pool_stats.intellect + points.intellect;
    Ok(())
}

/// Permanently removes the given points from the base stats and adds
/// their sum to the sacrificed counter, when every dimension is covered;
/// rejects the sacrifice whole otherwise.  The spendable pool is left
/// untouched until the next refresh re-clamps it.
pub fn sacrifice_points(character: &mut Character, points: &BaseStats) -> (result: Result<
    (),
    Error,
>)
    requires
        old(character).wf(),
    ensures
        final(character).wf(),
        final(character).sacrificed_points >= old(character).sacrificed_points,
        spec_can_sacrifice(old(character).base_stats, *points) ==> result == Ok::<(), Error>(())
            && *final(character) == (Character {
            base_stats: spec_stats_sub(old(character).base_stats, *points),
            sacrificed_points: (old(character).sacrificed_points + spec_stats_sum(*points)) as u32,
            ..*old(character)
        }),
        !spec_can_sacrifice(old(character).base_stats, *points) ==> result == Err::<(), Error>(
            Error::Character(CharacterError::NotEnoughBasePointsToSacrifice),
        ) && *final(character) == *old(character),
{
    if character.base_stats.might < points.might || character.base_stats.speed < points.speed
        || character.base_stats.intellect < points.intellect {
        return Err(Error::Character(CharacterError::NotEnoughBasePointsToSacrifice));
    }
    let sum = points.sum();
    character.base_stats.might = character.base_stats.might - points.might;
    character.base_stats.speed = character.base_stats.speed - points.speed;
    character.base_stats.intellect = character.base_stats.intellect - points.intellect;
    character.sacrificed_points = character.sacrificed_points + (sum as u32);
    Ok(())
}

/// Resets the spendable pool to the base stats when the free refresh
/// interval has elapsed since the last free refresh.
pub fn perform_refresh(character: &mut Character, config: &Config, now: u64) -> (result: Result<
    (),
    Error,
>)
    requires
        old(character).wf(),
    ensures
        final(character).wf(),
        final(character).sacrificed_points >= old(character).sacrificed_points,
        old(character).last_refresh + config.seconds_between_refreshes <= now ==> result == Ok::<
            (),
            Error,
        >(()) && *final(character) == (Character {
            pool_stats: old(character).base_stats,
            last_refresh: now,
            ..*old(character)
        }),
        old(character).last_refresh + config.seconds_between_refreshes > now ==> result
            == Err::<(), Error>(Error::Character(CharacterError::RefreshNotAvailable))
            && *final(character) == *old(character),
{
    if !can_refresh(config, character, now) {
        return Err(Error::Character(CharacterError::RefreshNotAvailable));
    }
    refresh(character, now);
    Ok(())
}

/// Resets the spendable pool to the base stats when the paid refresh
/// interval has elapsed since the last paid refresh.  The hosting
/// environment must burn the refresher token after this succeeds and must
/// not persist the refresh if the burn fails.
pub fn perform_refresh_with_token(character: &mut Character, config: &Config, now: u64) -> (result:
    Result<(), Error>)
    requires
        old(character).wf(),
    ensures
        final(character).wf(),
        final(character).sacrificed_points >= old(character).sacrificed_points,
        old(character).last_refresh_with_refresher + config.seconds_between_paid_refreshes <= now
            ==> result == Ok::<(), Error>(()) && *final(character) == (Character {
            pool_stats: old(character).base_stats,
            last_refresh_with_refresher: now,
            ..*old(character)
        }),
        old(character).last_refresh_with_refresher + config.seconds_between_paid_refreshes > now
            ==> result == Err::<(), Error>(Error::Character(CharacterError::RefreshNotAvailable))
            && *final(character) == *old(character),
{
    if !can_refresh_with_token(config, character, now) {
        return Err(Error::Character(CharacterError::RefreshNotAvailable));
    }
    refresh_with_token(character, now);
    Ok(())
}

/// Adds a recipe to the forge catalog under the next sequential
/// identifier.  The entry starts unavailable until the authority flips
/// it.  The hosting environment must have verified that the requester is
/// the catalog authority.
pub fn add_forge_recipe(config: &mut Config, id: u32, data: Recipe) -> (result: Result<
    ForgeRecipe,
    Error,
>)
    requires
        data.content_wf(),
    ensures
        id == old(config).forge_recipes + 1 ==> result == Ok::<ForgeRecipe, Error>(
            ForgeRecipe { recipe: Recipe { id: id, available: false, ..data } },
        ) && *final(config) == (Config {
            forge_recipes: (old(config).forge_recipes + 1) as u64,
            ..*old(config)
        }),
        id != old(config).forge_recipes + 1 ==> result == Err::<ForgeRecipe, Error>(
            Error::Forge(ForgeError::InvalidID),
        ) && *final(config) == *old(config),
        result matches Ok(r) ==> r.recipe.wf(),
{
    if id >= 1 && config.forge_recipes == (id as u64) - 1 {
        config.forge_recipes = config.forge_recipes + 1;
        Ok(ForgeRecipe { recipe: Recipe { id: id, available: false, ..data } })
    } else {
        Err(Error::Forge(ForgeError::InvalidID))
    }
}

/// Flips the availability of a forge recipe.  Authority gated by the
/// hosting environment.
pub fn update_forge_recipe_availability(recipe: &mut ForgeRecipe, available: bool)
    requires
        old(recipe).recipe.wf(),
    ensures
        *final(recipe) == (ForgeRecipe {
            recipe: Recipe { available: available, ..old(recipe).recipe },
        }),
        final(recipe).recipe.wf(),
{
    recipe.recipe.available = available;
}

/// Replaces the content of a forge recipe, keeping its identifier and its
/// availability.  Authority gated by the hosting environment.
pub fn update_forge_recipe(recipe: &mut ForgeRecipe, data: Recipe)
    requires
        old(recipe).recipe.wf(),
        data.content_wf(),
    ensures
        *final(recipe) == (ForgeRecipe {
            recipe: Recipe {
                id: old(recipe).recipe.id,
                available: old(recipe).recipe.available,
                ..data
            },
        }),
        final(recipe).recipe.wf(),
{
    recipe.recipe.name = data.name;
    recipe.recipe.materials = data.materials;
    recipe.recipe.materials_amounts = data.materials_amounts;
    recipe.recipe.materials_types = data.materials_types;
    recipe.recipe.stats_required = data.stats_required;
    recipe.recipe.stats_sacrificed = data.stats_sacrificed;
    recipe.recipe.cooldown = data.cooldown;
    recipe.recipe.level_required = data.level_required;
    recipe.recipe.item_rewarded = data.item_rewarded;
    recipe.recipe.item_rewarded_type = data.item_rewarded_type;
    recipe.recipe.item_rewarded_amount = data.item_rewarded_amount;
}

/// Adds a quest to the quest catalog under the next sequential
/// identifier.  The entry starts unavailable until the authority flips
/// it.  Authority gated by the hosting environment.
pub fn add_quest(config: &mut Config, id: u32, data: Quest) -> (result: Result<Quest, Error>)
    requires
        data.content_wf(),
    ensures
        id == old(config).quests + 1 ==> result == Ok::<Quest, Error>(
            Quest { id: id, available: false, ..data },
        ) && *final(config) == (Config { quests: (old(config).quests + 1) as u64, ..*old(config) }),
        id != old(config).quests + 1 ==> result == Err::<Quest, Error>(
            Error::Quest(QuestError::InvalidID),
        ) && *final(config) == *old(config),
        result matches Ok(q) ==> q.wf(),
{
    if id >= 1 && config.quests == (id as u64) - 1 {
        config.quests = config.quests + 1;
        Ok(Quest { id: id, available: false, ..data })
    } else {
        Err(Error::Quest(QuestError::InvalidID))
    }
}

/// Flips the availability of a quest.  Authority gated by the hosting
/// environment.
pub fn update_quest_availability(quest: &mut Quest, available: bool)
    requires
        old(quest).wf(),
    ensures
        *final(quest) == (Quest { available: available, ..*old(quest) }),
        final(quest).wf(),
{
    quest.available = available;
}

/// Replaces the content of a quest, keeping its identifier and its
/// availability.  Authority gated by the hosting environment.
pub fn update_quest(quest: &mut Quest, data: Quest)
    requires
        old(quest).wf(),
        data.content_wf(),
    ensures
        *final(quest) == (Quest { id: old(quest).id, available: old(quest).available, ..data }),
        final(quest).wf(),
{
    quest.name = data.name;
    quest.description = data.description;
    quest.quest_type = data.quest_type;
    quest.stats_required = data.stats_required;
    quest.cooldown = data.cooldown;
    quest.level_required = data.level_required;
    quest.materials_reward = data.materials_reward;
    quest.materials_amounts = data.materials_amounts;
    quest.mob_experience = data.mob_experience;
    quest.mob_level = data.mob_level;
    quest.mob_base_stats = data.mob_base_stats;
    quest.mob_base_attributes = data.mob_base_attributes;
}

/// The first check a forge start fails, if any: recipe availability, slot
/// state, level, pool points, then materials.
pub open spec fn spec_start_forge_error(
    c: Character,
    m: CharacterMaterials,
    s: CharacterSlots,
    r: Recipe,
    now: u64,
) -> Option<Error> {
    if !r.available {
        Some(Error::Forge(ForgeError::NotAvailable))
    } else if !spec_slot_available(s.forge, now) {
        Some(Error::Character(CharacterError::NotAbleToForgeRecipe))
    } else if r.level_required > c.level {
        Some(Error::Character(CharacterError::NotEnoughLevel))
    } else if !spec_can_consume(c.pool_stats, r.stats_required) {
        Some(Error::Character(CharacterError::NotEnoughPoolPointsToConsume))
    } else if !spec_has_enough(
        m.basic@,
        m.raw@,
        r.materials@,
        r.materials_amounts@,
        r.materials_types@,
    ) {
        Some(Error::Character(CharacterError::NotEnoughResources))
    } else {
        None
    }
}

/// The slot a start leaves behind: cooldown running from `now`, the
/// definition recorded, the reward unclaimed.
pub open spec fn spec_slot_after_start(id: u32, cooldown: u32, now: u64) -> CharacterSlot {
    CharacterSlot { cooldown: (now + cooldown) as u64, last_task_id: id, last_task_claimed: false }
}

/// Starts a forge task: verifies that the recipe is available, the forge
/// slot is free, and the character covers the level, pool point and
/// material requirements; then atomically consumes materials and pool
/// points and starts the slot.  Any failed check aborts with no effect.
pub fn start_forge(
    character: &mut Character,
    character_materials: &mut CharacterMaterials,
    character_slots: &mut CharacterSlots,
    recipe: &ForgeRecipe,
    now: u64,
) -> (result: Result<(), Error>)
    requires
        old(character).wf(),
        old(character_materials).wf(),
        recipe.recipe.wf(),
        now + recipe.recipe.cooldown <= u64::MAX,
    ensures
        final(character).wf(),
        final(character_materials).wf(),
        final(character).sacrificed_points >= old(character).sacrificed_points,
        spec_start_forge_error(
            *old(character),
            *old(character_materials),
            *old(character_slots),
            recipe.recipe,
            now,
        ) matches Some(e) ==> result == Err::<(), Error>(e) && *final(character) == *old(character)
            && *final(character_materials) == *old(character_materials) && *final(character_slots)
            == *old(character_slots),
        spec_start_forge_error(
            *old(character),
            *old(character_materials),
            *old(character_slots),
            recipe.recipe,
            now,
        ) is None ==> result == Ok::<(), Error>(()) && *final(character) == (Character {
            pool_stats: spec_stats_sub(old(character).pool_stats, recipe.recipe.stats_required),
            ..*old(character)
        }) && final(character_materials).basic@ == spec_consume_cat(
            old(character_materials).basic@,
            recipe.recipe.materials@,
            recipe.recipe.materials_amounts@,
            recipe.recipe.materials_types@,
            ResourceType::Basic,
            recipe.recipe.materials@.len() as int,
        ) && final(character_materials).raw@ == spec_consume_cat(
            old(character_materials).raw@,
            recipe.recipe.materials@,
            recipe.recipe.materials_amounts@,
            recipe.recipe.materials_types@,
            ResourceType::Raw,
            recipe.recipe.materials@.len() as int,
        ) && *final(character_slots) == (CharacterSlots {
            forge: spec_slot_after_start(recipe.recipe.id, recipe.recipe.cooldown, now),
            ..*old(character_slots)
        }),
{
    if !recipe.recipe.available {
        return Err(Error::Forge(ForgeError::NotAvailable));
    }
    if !is_slot_available(&character_slots.forge, now) {
        return Err(Error::Character(CharacterError::NotAbleToForgeRecipe));
    }
    if recipe.recipe.level_required > character.level {
        return Err(Error::Character(CharacterError::NotEnoughLevel));
    }
    if !can_consume(character, &recipe.recipe.stats_required) {
        return Err(Error::Character(CharacterError::NotEnoughPoolPointsToConsume));
    }
    if !has_enough_materials(
        character_materials,
        &recipe.recipe.materials,
        &recipe.recipe.materials_amounts,
        &recipe.recipe.materials_types,
    ) {
        return Err(Error::Character(CharacterError::NotEnoughResources));
    }
    consume_materials(
        character_materials,
        &recipe.recipe.materials,
        &recipe.recipe.materials_amounts,
        &recipe.recipe.materials_types,
    );
    consume_points(character, &recipe.recipe.stats_required);
    character_slots.forge.cooldown = now + (recipe.recipe.cooldown as u64);
    character_slots.forge.last_task_id = recipe.recipe.id;
    character_slots.forge.last_task_claimed = false;
    Ok(())
}

/// The check a forge claim fails, if any: the slot must hold an
/// unclaimed, matured task.
pub open spec fn spec_claim_forge_error(s: CharacterSlots, now: u64) -> Option<Error> {
    if !spec_slot_claimable(s.forge, now) {
        Some(Error::Character(CharacterError::NotAbleToClaimForgeRecipe))
    } else {
        None
    }
}

/// The basic ledger after crediting one rewarded material.
pub open spec fn spec_basic_after_credit(
    m: CharacterMaterials,
    material: u32,
    amount: u32,
    t: ResourceType,
) -> Seq<u32> {
    if material != 0 && t == ResourceType::Basic {
        m.basic@.update(material - 1, (m.basic@[material - 1] + amount) as u32)
    } else {
        m.basic@
    }
}

/// The raw ledger after crediting one rewarded material.
pub open spec fn spec_raw_after_credit(
    m: CharacterMaterials,
    material: u32,
    amount: u32,
    t: ResourceType,
) -> Seq<u32> {
    if material != 0 && t == ResourceType::Raw {
        m.raw@.update(material - 1, (m.raw@[material - 1] + amount) as u32)
    } else {
        m.raw@
    }
}

/// Claims a matured forge task: atomically credits the recipe's rewarded
/// material and marks the slot claimed.  The slot keeps its cooldown and
/// task id as history.
pub fn claim_forge(
    character_materials: &mut CharacterMaterials,
    character_slots: &mut CharacterSlots,
    recipe: &ForgeRecipe,
    now: u64,
) -> (result: Result<(), Error>)
    requires
        old(character_materials).wf(),
        recipe.recipe.wf(),
        spec_slot_claimable(old(character_slots).forge, now) && recipe.recipe.item_rewarded != 0
            ==> spec_ledger_amount(
            old(character_materials).basic@,
            old(character_materials).raw@,
            recipe.recipe.item_rewarded,
            recipe.recipe.item_rewarded_type,
        ) + recipe.recipe.item_rewarded_amount <= u32::MAX,
    ensures
        final(character_materials).wf(),
        spec_claim_forge_error(*old(character_slots), now) matches Some(e) ==> result == Err::<
            (),
            Error,
        >(e) && *final(character_materials) == *old(character_materials) && *final(character_slots)
            == *old(character_slots),
        spec_claim_forge_error(*old(character_slots), now) is None ==> result == Ok::<(), Error>(())
            && *final(character_slots) == (CharacterSlots {
            forge: CharacterSlot { last_task_claimed: true, ..old(character_slots).forge },
            ..*old(character_slots)
        }) && final(character_materials).basic@ == spec_basic_after_credit(
            *old(character_materials),
            recipe.recipe.item_rewarded,
            recipe.recipe.item_rewarded_amount,
            recipe.recipe.item_rewarded_type,
        ) && final(character_materials).raw@ == spec_raw_after_credit(
            *old(character_materials),
            recipe.recipe.item_rewarded,
            recipe.recipe.item_rewarded_amount,
            recipe.recipe.item_rewarded_type,
        ),
{
    if !is_slot_claimable(&character_slots.forge, now) {
        return Err(Error::Character(CharacterError::NotAbleToClaimForgeRecipe));
    }
    forge_reward(
        character_materials,
        recipe.recipe.item_rewarded,
        recipe.recipe.item_rewarded_amount,
        recipe.recipe.item_rewarded_type,
    );
    character_slots.forge.last_task_claimed = true;
    Ok(())
}

/// The first check a quest start fails, if any: quest availability, slot
/// state, level, then pool points.
pub open spec fn spec_start_quest_error(
    c: Character,
    s: CharacterSlots,
    q: Quest,
    now: u64,
) -> Option<Error> {
    if !q.available {
        Some(Error::Quest(QuestError::NotAvailable))
    } else if !spec_slot_available(s.quest, now) {
        Some(Error::Character(CharacterError::NotAbleToQuest))
    } else if q.level_required > c.level {
        Some(Error::Character(CharacterError::NotEnoughLevel))
    } else if !spec_can_consume(c.pool_stats, q.stats_required) {
        Some(Error::Character(CharacterError::NotEnoughPoolPointsToConsume))
    } else {
        None
    }
}

/// Starts a quest: verifies that the quest is available, the quest slot
/// is free, and the character covers the level and pool point
/// requirements; then atomically consumes pool points and starts the
/// slot.  The seed is reserved for raid outcome resolution, a separate
/// and still open design concern.
pub fn start_quest(
    character: &mut Character,
    character_slots: &mut CharacterSlots,
    quest: &Quest,
    now: u64,
    _seed: u64,
) -> (result: Result<(), Error>)
    requires
        old(character).wf(),
        quest.wf(),
        now + quest.cooldown <= u64::MAX,
    ensures
        final(character).wf(),
        final(character).sacrificed_points >= old(character).sacrificed_points,
        spec_start_quest_error(*old(character), *old(character_slots), *quest, now) matches Some(e)
            ==> result == Err::<(), Error>(e) && *final(character) == *old(character)
            && *final(character_slots) == *old(character_slots),
        spec_start_quest_error(*old(character), *old(character_slots), *quest, now) is None
            ==> result == Ok::<(), Error>(()) && *final(character) == (Character {
            pool_stats: spec_stats_sub(old(character).pool_stats, quest.stats_required),
            ..*old(character)
        }) && *final(character_slots) == (CharacterSlots {
            quest: spec_slot_after_start(quest.id, quest.cooldown, now),
            ..*old(character_slots)
        }),
{
    if !quest.available {
        return Err(Error::Quest(QuestError::NotAvailable));
    }
    if !is_slot_available(&character_slots.quest, now) {
        return Err(Error::Character(CharacterError::NotAbleToQuest));
    }
    if quest.level_required > character.level {
        return Err(Error::Character(CharacterError::NotEnoughLevel));
    }
    if !can_consume(character, &quest.stats_required) {
        return Err(Error::Character(CharacterError::NotEnoughPoolPointsToConsume));
    }
    consume_points(character, &quest.stats_required);
    character_slots.quest.cooldown = now + (quest.cooldown as u64);
    character_slots.quest.last_task_id = quest.id;
    character_slots.quest.last_task_claimed = false;
    Ok(())
}

/// The check a quest claim fails, if any: the slot must hold an
/// unclaimed, matured task.
pub open spec fn spec_claim_quest_error(s: CharacterSlots, now: u64) -> Option<Error> {
    if !spec_slot_claimable(s.quest, now) {
        Some(Error::Character(CharacterError::NotAbleToClaimQuest))
    } else {
        None
    }
}

/// Whether claiming a quest of this kind credits its material reward
/// list; raids resolve separately and credit nothing here.
pub open spec fn spec_quest_credits_materials(q: Quest) -> bool {
    q.quest_type == QuestType::Farm || q.quest_type == QuestType::Job
}

/// Claims a matured quest: atomically credits the quest's raw material
/// rewards (for farm and job quests) and marks the slot claimed.
pub fn claim_quest(
    character_materials: &mut CharacterMaterials,
    character_slots: &mut CharacterSlots,
    quest: &Quest,
    now: u64,
) -> (result: Result<(), Error>)
    requires
        old(character_materials).wf(),
        quest.wf(),
        spec_slot_claimable(old(character_slots).quest, now) && spec_quest_credits_materials(
            *quest,
        ) ==> forall|k: int|
            0 <= k < quest.materials_reward@.len() && #[trigger] quest.materials_reward@[k] != 0
                ==> old(character_materials).raw@[quest.materials_reward@[k] - 1]
                + quest.materials_amounts@[k] <= u32::MAX,
    ensures
        final(character_materials).wf(),
        spec_claim_quest_error(*old(character_slots), now) matches Some(e) ==> result == Err::<
            (),
            Error,
        >(e) && *final(character_materials) == *old(character_materials) && *final(character_slots)
            == *old(character_slots),
        spec_claim_quest_error(*old(character_slots), now) is None ==> result == Ok::<(), Error>(())
            && *final(character_slots) == (CharacterSlots {
            quest: CharacterSlot { last_task_claimed: true, ..old(character_slots).quest },
            ..*old(character_slots)
        }) && final(character_materials).basic@ == old(character_materials).basic@
            && final(character_materials).raw@ == if spec_quest_credits_materials(*quest) {
            spec_credit_list(
                old(character_materials).raw@,
                quest.materials_reward@,
                quest.materials_amounts@,
                quest.materials_reward@.len() as int,
            )
        } else {
            old(character_materials).raw@
        },
{
    if !is_slot_claimable(&character_slots.quest, now) {
        return Err(Error::Character(CharacterError::NotAbleToClaimQuest));
    }
    let credits = match quest.quest_type {
        QuestType::Farm => true,
        QuestType::Job => true,
        QuestType::Raid => false,
    };
    if credits {
        quest_rewards(character_materials, &quest.materials_reward, &quest.materials_amounts);
    }
    character_slots.quest.last_task_claimed = true;
    Ok(())
}

/// Starting an activity and then starting again on the same forge slot
/// before the cooldown has elapsed always fails with the busy-slot
/// error, whatever else the second request brings.
pub proof fn lemma_start_forge_twice_conflicts(
    c2: Character,
    m2: CharacterMaterials,
    s1: CharacterSlots,
    r1: Recipe,
    r2: Recipe,
    now1: u64,
    now2: u64,
)
    requires
        r2.available,
        now1 + r1.cooldown <= u64::MAX,
        now2 < now1 + r1.cooldown,
    ensures
        spec_start_forge_error(
            c2,
            m2,
            CharacterSlots { forge: spec_slot_after_start(r1.id, r1.cooldown, now1), ..s1 },
            r2,
            now2,
        ) == Some(Error::Character(CharacterError::NotAbleToForgeRecipe)),
{
}

/// Starting a quest and then starting again on the same quest slot
/// before the cooldown has elapsed always fails with the busy-slot
/// error.
pub proof fn lemma_start_quest_twice_conflicts(
    c2: Character,
    s1: CharacterSlots,
    q1: Quest,
    q2: Quest,
    now1: u64,
    now2: u64,
)
    requires
        q2.available,
        now1 + q1.cooldown <= u64::MAX,
        now2 < now1 + q1.cooldown,
    ensures
        spec_start_quest_error(
            c2,
            CharacterSlots { quest: spec_slot_after_start(q1.id, q1.cooldown, now1), ..s1 },
            q2,
            now2,
        ) == Some(Error::Character(CharacterError::NotAbleToQuest)),
{
}

/// Claiming a started forge task before its cooldown elapses always
/// fails.
pub proof fn lemma_claim_forge_early_fails(
    s: CharacterSlots,
    r: Recipe,
    now1: u64,
    now2: u64,
)
    requires
        now1 + r.cooldown <= u64::MAX,
        now2 < now1 + r.cooldown,
    ensures
        spec_claim_forge_error(
            CharacterSlots { forge: spec_slot_after_start(r.id, r.cooldown, now1), ..s },
            now2,
        ) == Some(Error::Character(CharacterError::NotAbleToClaimForgeRecipe)),
{
}

/// Once its cooldown has elapsed and before any claim, a started forge
/// task is claimable.
pub proof fn lemma_claim_forge_ready_succeeds(
    s: CharacterSlots,
    r: Recipe,
    now1: u64,
    now2: u64,
)
    requires
        r.wf(),
        now1 + r.cooldown <= u64::MAX,
        now2 >= now1 + r.cooldown,
    ensures
        spec_claim_forge_error(
            CharacterSlots { forge: spec_slot_after_start(r.id, r.cooldown, now1), ..s },
            now2,
        ) is None,
{
}

/// A claim after a successful claim is rejected at any later time: the
/// reward of one started task cannot be credited twice.
pub proof fn lemma_claim_forge_twice_rejected(s: CharacterSlots, now3: u64)
    ensures
        spec_claim_forge_error(
            CharacterSlots {
                forge: CharacterSlot { last_task_claimed: true, ..s.forge },
                ..s
            },
            now3,
        ) == Some(Error::Character(CharacterError::NotAbleToClaimForgeRecipe)),
{
}

/// Material conservation through a forge start: when every check passes,
/// consuming the recipe removes from each ledger category exactly the
/// sum of the amounts of the recipe's non-empty slots of that category,
/// and no counter goes below zero.
pub proof fn lemma_start_forge_conserves(
    c: Character,
    m: CharacterMaterials,
    s: CharacterSlots,
    r: Recipe,
    now: u64,
)
    requires
        m.wf(),
        r.wf(),
        spec_start_forge_error(c, m, s, r, now) is None,
    ensures
        spec_seq_sum(
            spec_consume_cat(
                m.basic@,
                r.materials@,
                r.materials_amounts@,
                r.materials_types@,
                ResourceType::Basic,
                r.materials@.len() as int,
            ),
        ) == spec_seq_sum(m.basic@) - spec_slots_total(
            r.materials@,
            r.materials_amounts@,
            r.materials_types@,
            ResourceType::Basic,
            r.materials@.len() as int,
        ),
        spec_seq_sum(
            spec_consume_cat(
                m.raw@,
                r.materials@,
                r.materials_amounts@,
                r.materials_types@,
                ResourceType::Raw,
                r.materials@.len() as int,
            ),
        ) == spec_seq_sum(m.raw@) - spec_slots_total(
            r.materials@,
            r.materials_amounts@,
            r.materials_types@,
            ResourceType::Raw,
            r.materials@.len() as int,
        ),
{
    let mm = r.materials@;
    let aa = r.materials_amounts@;
    let tt = r.materials_types@;
    assert forall|k: int|
        0 <= k < mm.len() && #[trigger] mm[k] != 0 && tt[k] == ResourceType::Basic
            implies aa[k] <= m.basic@[mm[k] - 1] by {
        assert(aa[k] <= spec_ledger_amount(m.basic@, m.raw@, mm[k], tt[k]));
    }
    assert forall|k: int|
        0 <= k < mm.len() && #[trigger] mm[k] != 0 && tt[k] == ResourceType::Raw
            implies aa[k] <= m.raw@[mm[k] - 1] by {
        assert(aa[k] <= spec_ledger_amount(m.basic@, m.raw@, mm[k], tt[k]));
    }
    lemma_consume_conserves(m.basic@, mm, aa, tt, ResourceType::Basic, mm.len() as int);
    lemma_consume_conserves(m.raw@, mm, aa, tt, ResourceType::Raw, mm.len() as int);
}

/// Material conservation through a forge claim: crediting the single
/// rewarded material raises the sum of its category by exactly the
/// rewarded amount and leaves the other category untouched.
pub proof fn lemma_claim_forge_conserves(m: CharacterMaterials, r: Recipe)
    requires
        m.wf(),
        r.wf(),
        r.item_rewarded != 0 ==> spec_ledger_amount(
            m.basic@,
            m.raw@,
            r.item_rewarded,
            r.item_rewarded_type,
        ) + r.item_rewarded_amount <= u32::MAX,
    ensures
        spec_seq_sum(
            spec_basic_after_credit(m, r.item_rewarded, r.item_rewarded_amount, r.item_rewarded_type),
        ) == spec_seq_sum(m.basic@) + if r.item_rewarded != 0 && r.item_rewarded_type
            == ResourceType::Basic {
            r.item_rewarded_amount as int
        } else {
            0
        },
        spec_seq_sum(
            spec_raw_after_credit(m, r.item_rewarded, r.item_rewarded_amount, r.item_rewarded_type),
        ) == spec_seq_sum(m.raw@) + if r.item_rewarded != 0 && r.item_rewarded_type
            == ResourceType::Raw {
            r.item_rewarded_amount as int
        } else {
            0
        },
{
    if r.item_rewarded != 0 {
        if r.item_rewarded_type == ResourceType::Basic {
            lemma_seq_sum_update(
                m.basic@,
                r.item_rewarded - 1,
                (m.basic@[r.item_rewarded - 1] + r.item_rewarded_amount) as u32,
            );
        } else {
            lemma_seq_sum_update(
                m.raw@,
                r.item_rewarded - 1,
                (m.raw@[r.item_rewarded - 1] + r.item_rewarded_amount) as u32,
            );
        }
    }
}

/// Material conservation through a quest claim: crediting a farm or job
/// reward list raises the raw sum by exactly the sum of the amounts of
/// its non-empty reward slots.
pub proof fn lemma_claim_quest_conserves(m: CharacterMaterials, q: Quest)
    requires
        m.wf(),
        q.wf(),
        forall|k: int|
            0 <= k < q.materials_reward@.len() && #[trigger] q.materials_reward@[k] != 0
                ==> m.raw@[q.materials_reward@[k] - 1] + q.materials_amounts@[k] <= u32::MAX,
    ensures
        spec_seq_sum(
            spec_credit_list(
                m.raw@,
                q.materials_reward@,
                q.materials_amounts@,
                q.materials_reward@.len() as int,
            ),
        ) == spec_seq_sum(m.raw@) + spec_credit_total(
            q.materials_reward@,
            q.materials_amounts@,
            q.materials_reward@.len() as int,
        ),
{
    lemma_credit_conserves(
        m.raw@,
        q.materials_reward@,
        q.materials_amounts@,
        q.materials_reward@.len() as int,
    );
}

/// Claiming a started quest before its cooldown elapses always fails.
pub proof fn lemma_claim_quest_early_fails(s: CharacterSlots, q: Quest, now1: u64, now2: u64)
    requires
        now1 + q.cooldown <= u64::MAX,
        now2 < now1 + q.cooldown,
    ensures
        spec_claim_quest_error(
            CharacterSlots { quest: spec_slot_after_start(q.id, q.cooldown, now1), ..s },
            now2,
        ) == Some(Error::Character(CharacterError::NotAbleToClaimQuest)),
{
}

/// A quest claim after a successful claim is rejected at any later time.
pub proof fn lemma_claim_quest_twice_rejected(s: CharacterSlots, now3: u64)
    ensures
        spec_claim_quest_error(
            CharacterSlots {
                quest: CharacterSlot { last_task_claimed: true, ..s.quest },
                ..s
            },
            now3,
        ) == Some(Error::Character(CharacterError::NotAbleToClaimQuest)),
{
}

} // verus!
