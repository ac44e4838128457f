//! Characters: stat pools, refresh timers, experience, task slots and the
//! material ledger.

use vstd::prelude::*;

use crate::codex::BaseStats;
use crate::codex::LevelTable;
use crate::codex::ResourceType;
use crate::codex::get_level;
use crate::codex::spec_slots_distinct;
use crate::codex::spec_slots_in_range;
use crate::codex::spec_slots_len_ok;
use crate::codex::spec_stats_sum;
use crate::codex::BASE_ASSIGNABLE_POINTS;
use crate::codex::MATERIAL_KINDS;
use crate::codex::MAX_LEVELS;
use crate::config::Config;

verus! {

/// The material ledger of one character: one counter per material kind,
/// for each of the two material categories.  Counters are indexed by
/// material identity minus one.
#[derive(Clone, PartialEq, Eq, Debug)]
pub struct CharacterMaterials {
    pub basic: Vec<u32>,
    pub raw: Vec<u32>,
}

impl CharacterMaterials {
    /// Well-formedness: one counter per defined material kind in each
    /// category.
    pub open spec fn wf(self) -> bool {
        &&& self.basic@.len() == MATERIAL_KINDS
        &&& self.raw@.len() == MATERIAL_KINDS
    }

    /// Ledger of a fresh character: every counter zero.
    pub fn new() -> (m: CharacterMaterials)
        ensures
            m.wf(),
            forall|j: int| 0 <= j < MATERIAL_KINDS ==> #[trigger] m.basic@[j] == 0,
            forall|j: int| 0 <= j < MATERIAL_KINDS ==> #[trigger] m.raw@[j] == 0,
    {
        let mut basic: Vec<u32> = Vec::new();
        let mut raw: Vec<u32> = Vec::new();
        let mut i: u32 = 0;
        while i < MATERIAL_KINDS
            invariant
                0 <= i <= MATERIAL_KINDS,
                basic@.len() == i,
                raw@.len() == i,
                forall|j: int| 0 <= j < i ==> #[trigger] basic@[j] == 0,
                forall|j: int| 0 <= j < i ==> #[trigger] raw@[j] == 0,
            decreases MATERIAL_KINDS - i,
        {
            basic.push(0);
            raw.push(0);
            i = i + 1;
        }
        CharacterMaterials { basic, raw }
    }
}

/// The amount the ledger pair holds for the non-empty slot material `m` of
/// category `t`.
pub open spec fn spec_ledger_amount(
    basic: Seq<u32>,
    raw: Seq<u32>,
    m: u32,
    t: ResourceType,
) -> u32 {
    match t {
        ResourceType::Basic => basic[m - 1],
        ResourceType::Raw => raw[m - 1],
    }
}

/// The ledger pair covers every non-empty slot of a definition.
pub open spec fn spec_has_enough(
    basic: Seq<u32>,
    raw: Seq<u32>,
    m: Seq<u32>,
    a: Seq<u32>,
    t: Seq<ResourceType>,
) -> bool {
    forall|i: int|
        0 <= i < m.len() && #[trigger] m[i] != 0 ==> a[i] <= spec_ledger_amount(
            basic,
            raw,
            m[i],
            t[i],
        )
}

/// One category of the ledger after consuming the first `n` slots of a
/// definition: each non-empty slot of the category subtracts its amount
/// from the counter of its material.
pub open spec fn spec_consume_cat(
    led: Seq<u32>,
    m: Seq<u32>,
    a: Seq<u32>,
    t: Seq<ResourceType>,
    cat: ResourceType,
    n: int,
) -> Seq<u32>
    decreases n,
{
    if n <= 0 {
        led
    } else {
        let prev = spec_consume_cat(led, m, a, t, cat, n - 1);
        if m[n - 1] != 0 && t[n - 1] == cat {
            prev.update(m[n - 1] - 1, (prev[m[n - 1] - 1] - a[n - 1]) as u32)
        } else {
            prev
        }
    }
}

/// Consuming slots keeps the ledger length.
pub proof fn lemma_consume_len(
    led: Seq<u32>,
    m: Seq<u32>,
    a: Seq<u32>,
    t: Seq<ResourceType>,
    cat: ResourceType,
    n: int,
)
    requires
        led.len() == MATERIAL_KINDS,
        n <= m.len(),
        spec_slots_in_range(m),
    ensures
        spec_consume_cat(led, m, a, t, cat, n).len() == led.len(),
    decreases n,
{
    if n > 0 {
        lemma_consume_len(led, m, a, t, cat, n - 1);
        assert(m[n - 1] <= MATERIAL_KINDS);
    }
}

/// A counter no consumed slot points at keeps its value.
pub proof fn lemma_consume_untouched(
    led: Seq<u32>,
    m: Seq<u32>,
    a: Seq<u32>,
    t: Seq<ResourceType>,
    cat: ResourceType,
    n: int,
    j: int,
)
    requires
        0 <= j < led.len(),
        led.len() == MATERIAL_KINDS,
        n <= m.len(),
        spec_slots_in_range(m),
        forall|k: int| 0 <= k < n && #[trigger] m[k] != 0 && t[k] == cat ==> m[k] - 1 != j,
    ensures
        spec_consume_cat(led, m, a, t, cat, n)[j] == led[j],
    decreases n,
{
    lemma_consume_len(led, m, a, t, cat, n);
    if n > 0 {
        lemma_consume_untouched(led, m, a, t, cat, n - 1, j);
        lemma_consume_len(led, m, a, t, cat, n - 1);
        assert(m[n - 1] <= MATERIAL_KINDS);
    }
}

/// One category of the ledger after crediting the first `n` reward slots
/// of a definition: each non-empty slot adds its amount to the counter of
/// its material.
pub open spec fn spec_credit_list(led: Seq<u32>, m: Seq<u32>, a: Seq<u32>, n: int) -> Seq<u32>
    decreases n,
{
    if n <= 0 {
        led
    } else {
        let prev = spec_credit_list(led, m, a, n - 1);
        if m[n - 1] != 0 {
            prev.update(m[n - 1] - 1, (prev[m[n - 1] - 1] + a[n - 1]) as u32)
        } else {
            prev
        }
    }
}

/// Crediting slots keeps the ledger length.
pub proof fn lemma_credit_len(led: Seq<u32>, m: Seq<u32>, a: Seq<u32>, n: int)
    requires
        led.len() == MATERIAL_KINDS,
        n <= m.len(),
        spec_slots_in_range(m),
    ensures
        spec_credit_list(led, m, a, n).len() == led.len(),
    decreases n,
{
    if n > 0 {
        lemma_credit_len(led, m, a, n - 1);
        assert(m[n - 1] <= MATERIAL_KINDS);
    }
}

/// A counter no credited slot points at keeps its value.
pub proof fn lemma_credit_untouched(led: Seq<u32>, m: Seq<u32>, a: Seq<u32>, n: int, j: int)
    requires
        0 <= j < led.len(),
        led.len() == MATERIAL_KINDS,
        n <= m.len(),
        spec_slots_in_range(m),
        forall|k: int| 0 <= k < n && #[trigger] m[k] != 0 ==> m[k] - 1 != j,
    ensures
        spec_credit_list(led, m, a, n)[j] == led[j],
    decreases n,
{
    lemma_credit_len(led, m, a, n);
    if n > 0 {
        lemma_credit_untouched(led, m, a, n - 1, j);
        lemma_credit_len(led, m, a, n - 1);
        assert(m[n - 1] <= MATERIAL_KINDS);
    }
}

/// Sum of all counters of one ledger category.
pub open spec fn spec_seq_sum(s: Seq<u32>) -> int
    decreases s.len(),
{
    if s.len() <= 0 {
        0
    } else {
        spec_seq_sum(s.drop_last()) + s.last()
    }
}

/// Updating one counter moves the sum by exactly the difference.
pub proof fn lemma_seq_sum_update(s: Seq<u32>, j: int, v: u32)
    requires
        0 <= j < s.len(),
    ensures
        spec_seq_sum(s.update(j, v)) == spec_seq_sum(s) - s[j] + v,
    decreases s.len(),
{
    if j == s.len() - 1 {
        assert(s.update(j, v).drop_last() =~= s.drop_last());
        assert(s.update(j, v).last() == v);
    } else {
        lemma_seq_sum_update(s.drop_last(), j, v);
        assert(s.update(j, v).drop_last() =~= s.drop_last().update(j, v));
        assert(s.update(j, v).last() == s.last());
    }
}

/// Total amount the first `n` slots of a definition move in one category:
/// the sum of the `amount` fields of its non-empty slots of that category.
pub open spec fn spec_slots_total(
    m: Seq<u32>,
    a: Seq<u32>,
    t: Seq<ResourceType>,
    cat: ResourceType,
    n: int,
) -> int
    decreases n,
{
    if n <= 0 {
        0
    } else {
        spec_slots_total(m, a, t, cat, n - 1) + if m[n - 1] != 0 && t[n - 1] == cat {
            a[n - 1] as int
        } else {
            0
        }
    }
}

/// Total amount the first `n` reward slots of a definition credit.
pub open spec fn spec_credit_total(m: Seq<u32>, a: Seq<u32>, n: int) -> int
    decreases n,
{
    if n <= 0 {
        0
    } else {
        spec_credit_total(m, a, n - 1) + if m[n - 1] != 0 {
            a[n - 1] as int
        } else {
            0
        }
    }
}

/// Material conservation for consumption: when the ledger covers every
/// slot and no material repeats within the category, consuming a
/// definition removes from the category exactly the sum of the amounts of
/// its non-empty slots of that category — no leakage, no duplication, and
/// no counter below zero.
pub proof fn lemma_consume_conserves(
    led: Seq<u32>,
    m: Seq<u32>,
    a: Seq<u32>,
    t: Seq<ResourceType>,
    cat: ResourceType,
    n: int,
)
    requires
        led.len() == MATERIAL_KINDS,
        n <= m.len(),
        spec_slots_in_range(m),
        spec_slots_distinct(m, t),
        forall|k: int|
            0 <= k < n && #[trigger] m[k] != 0 && t[k] == cat ==> a[k] <= led[m[k] - 1],
    ensures
        spec_seq_sum(spec_consume_cat(led, m, a, t, cat, n)) == spec_seq_sum(led)
            - spec_slots_total(m, a, t, cat, n),
    decreases n,
{
    if n > 0 {
        lemma_consume_conserves(led, m, a, t, cat, n - 1);
        lemma_consume_len(led, m, a, t, cat, n - 1);
        if m[n - 1] != 0 && t[n - 1] == cat {
            let prev = spec_consume_cat(led, m, a, t, cat, n - 1);
            let j = m[n - 1] - 1;
            assert(m[n - 1] <= MATERIAL_KINDS);
            assert forall|k: int|
                0 <= k < n - 1 && #[trigger] m[k] != 0 && t[k] == cat implies m[k] - 1 != j by {
                assert(m[k] != m[n - 1]);
            }
            lemma_consume_untouched(led, m, a, t, cat, n - 1, j);
            lemma_seq_sum_update(prev, j, (prev[j] - a[n - 1]) as u32);
        }
    }
}

/// Material conservation for crediting: when no material repeats among
/// the reward slots and every credited counter has room, crediting adds
/// to the ledger exactly the sum of the amounts of the non-empty reward
/// slots — no leakage and no duplication.
pub proof fn lemma_credit_conserves(led: Seq<u32>, m: Seq<u32>, a: Seq<u32>, n: int)
    requires
        led.len() == MATERIAL_KINDS,
        n <= m.len(),
        spec_slots_in_range(m),
        crate::codex::spec_slots_unique(m),
        forall|k: int|
            0 <= k < n && #[trigger] m[k] != 0 ==> led[m[k] - 1] + a[k] <= u32::MAX,
    ensures
        spec_seq_sum(spec_credit_list(led, m, a, n)) == spec_seq_sum(led) + spec_credit_total(
            m,
            a,
            n,
        ),
    decreases n,
{
    if n > 0 {
        lemma_credit_conserves(led, m, a, n - 1);
        lemma_credit_len(led, m, a, n - 1);
        if m[n - 1] != 0 {
            let prev = spec_credit_list(led, m, a, n - 1);
            let j = m[n - 1] - 1;
            assert(m[n - 1] <= MATERIAL_KINDS);
            assert forall|k: int| 0 <= k < n - 1 && #[trigger] m[k] != 0 implies m[k] - 1 != j by {
                assert(m[k] != m[n - 1]);
            }
            lemma_credit_untouched(led, m, a, n - 1, j);
            lemma_seq_sum_update(prev, j, (prev[j] + a[n - 1]) as u32);
        }
    }
}

/// Decides whether the ledger covers every non-empty material slot of a
/// definition.
pub fn has_enough_materials(
    character_materials: &CharacterMaterials,
    materials: &Vec<u32>,
    amounts: &Vec<u32>,
    types: &Vec<ResourceType>,
) -> (r: bool)
    requires
        character_materials.wf(),
        spec_slots_len_ok(materials@, amounts@, types@),
        spec_slots_in_range(materials@),
    ensures
        r == spec_has_enough(
            character_materials.basic@,
            character_materials.raw@,
            materials@,
            amounts@,
            types@,
        ),
{
    let n = materials.len();
    let mut i: usize = 0;
    while i < n
        invariant
            0 <= i <= n,
            n == materials@.len(),
            character_materials.wf(),
            spec_slots_len_ok(materials@, amounts@, types@),
            spec_slots_in_range(materials@),
            forall|k: int|
                0 <= k < i && #[trigger] materials@[k] != 0 ==> amounts@[k] <= spec_ledger_amount(
                    character_materials.basic@,
                    character_materials.raw@,
                    materials@[k],
                    types@[k],
                ),
        decreases n - i,
    {
        let material = materials[i];
        let amount_required = amounts[i];
        if material != 0 {
            let material_amount: u32 = match types[i] {
                ResourceType::Basic => character_materials.basic[(material - 1) as usize],
                ResourceType::Raw => character_materials.raw[(material - 1) as usize],
            };
            if amount_required > material_amount {
                return false;
            }
        }
        i = i + 1;
    }
    true
}

/// Subtracts every non-empty material slot of a definition from the
/// ledger.  Callers must have checked the ledger first; together with the
/// duplicate-free slot list this keeps every counter from going below
/// zero.
pub fn consume_materials(
    character_materials: &mut CharacterMaterials,
    materials: &Vec<u32>,
    amounts: &Vec<u32>,
    types: &Vec<ResourceType>,
)
    requires
        old(character_materials).wf(),
        spec_slots_len_ok(materials@, amounts@, types@),
        spec_slots_in_range(materials@),
        spec_slots_distinct(materials@, types@),
        spec_has_enough(
            old(character_materials).basic@,
            old(character_materials).raw@,
            materials@,
            amounts@,
            types@,
        ),
    ensures
        final(character_materials).basic@ == spec_consume_cat(
            old(character_materials).basic@,
            materials@,
            amounts@,
            types@,
            ResourceType::Basic,
            materials@.len() as int,
        ),
        final(character_materials).raw@ == spec_consume_cat(
            old(character_materials).raw@,
            materials@,
            amounts@,
            types@,
            ResourceType::Raw,
            materials@.len() as int,
        ),
        final(character_materials).wf(),
{
    let n = materials.len();
    let mut i: usize = 0;
    while i < n
        invariant
            0 <= i <= n,
            n == materials@.len(),
            old(character_materials).wf(),
            character_materials.wf(),
            spec_slots_len_ok(materials@, amounts@, types@),
            spec_slots_in_range(materials@),
            spec_slots_distinct(materials@, types@),
            spec_has_enough(
                old(character_materials).basic@,
                old(character_materials).raw@,
                materials@,
                amounts@,
                types@,
            ),
            character_materials.basic@ == spec_consume_cat(
                old(character_materials).basic@,
                materials@,
                amounts@,
                types@,
                ResourceType::Basic,
                i as int,
            ),
            character_materials.raw@ == spec_consume_cat(
                old(character_materials).raw@,
                materials@,
                amounts@,
                types@,
                ResourceType::Raw,
                i as int,
            ),
        decreases n - i,
    {
        let material = materials[i];
        let amount = amounts[i];
        if material != 0 {
            let j = (material - 1) as usize;
            proof {
                let cat = types@[i as int];
                assert forall|k: int|
                    0 <= k < i && #[trigger] materials@[k] != 0 && types@[k] == cat
                        implies materials@[k] - 1 != material - 1 by {
                    assert(materials@[k] != materials@[i as int]);
                }
                match cat {
                    ResourceType::Basic => {
                        lemma_consume_untouched(
                            old(character_materials).basic@,
                            materials@,
                            amounts@,
                            types@,
                            cat,
                            i as int,
                            material - 1,
                        );
                    },
                    ResourceType::Raw => {
                        lemma_consume_untouched(
                            old(character_materials).raw@,
                            materials@,
                            amounts@,
                            types@,
                            cat,
                            i as int,
                            material - 1,
                        );
                    },
                }
            }
            match types[i] {
                ResourceType::Basic => {
                    let cur = character_materials.basic[j];
                    character_materials.basic.set(j, cur - amount);
                },
                ResourceType::Raw => {
                    let cur = character_materials.raw[j];
                    character_materials.raw.set(j, cur - amount);
                },
            }
        }
        i = i + 1;
    }
}

/// A player-owned progression record.  The material ledger and the task
/// slots are kept in companion records (`CharacterMaterials`,
/// `CharacterSlots`) stored alongside it under the same identity.
#[derive(Clone, Copy, PartialEq, Eq, Structural, Debug)]
pub struct Character {
    /// Current level; derived from `experience`, never set directly.
    pub level: u16,
    /// Identity key of the ownership token this character belongs to.
    pub mint: u64,
    /// Permanently allocated stat points; the ceiling the pool returns to.
    pub base_stats: BaseStats,
    /// Currently spendable stat points.
    pub pool_stats: BaseStats,
    /// Lifetime experience, monotonically non-decreasing.
    pub experience: u64,
    /// Time of the last free pool refresh.
    pub last_refresh: u64,
    /// Time of the last paid pool refresh.
    pub last_refresh_with_refresher: u64,
    /// Points permanently removed from `base_stats`, monotonically
    /// non-decreasing.
    pub sacrificed_points: u32,
}

/// One cooldown-gated task slot.  `cooldown` is the absolute time the slot
/// becomes claimable, `0` meaning the slot was never used; `last_task_id`
/// is the definition most recently started, `0` meaning none.
#[derive(Clone, Copy, PartialEq, Eq, Structural, Debug)]
pub struct CharacterSlot {
    pub cooldown: u64,
    pub last_task_id: u32,
    pub last_task_claimed: bool,
}

/// The task slots of one character, one per activity kind.
#[derive(Clone, Copy, PartialEq, Eq, Structural, Debug)]
pub struct CharacterSlots {
    pub forge: CharacterSlot,
    pub craft: CharacterSlot,
    pub quest: CharacterSlot,
    pub upgrade: CharacterSlot,
}

/// Identity keys of the items a character wears, one per equipment slot;
/// `0` means the slot is empty.
#[derive(Clone, Copy, PartialEq, Eq, Structural, Debug)]
pub struct CharacterEquipment {
    pub helmet: u64,
    pub shoulder_guards: u64,
    pub arm_guards: u64,
    pub hands: u64,
    pub rings: u64,
    pub necklace: u64,
    pub chest: u64,
    pub legs: u64,
    pub belt: u64,
    pub feet: u64,
    pub cape: u64,
    pub left_hand: u64,
    pub right_hand: u64,
}

/// Stat points a character has spent for good: the points standing in its
/// base stats plus the points it has sacrificed.
pub open spec fn spec_spent(c: Character) -> int {
    spec_stats_sum(c.base_stats) + c.sacrificed_points
}

/// Lifetime stat point budget of a character: the fixed base plus one
/// point per level.
pub open spec fn spec_budget(c: Character) -> int {
    BASE_ASSIGNABLE_POINTS + c.level
}

/// A point assignment is accepted exactly when the points spent so far
/// plus the request stay within the lifetime budget.
pub open spec fn spec_can_assign(c: Character, p: BaseStats) -> bool {
    spec_spent(c) + spec_stats_sum(p) <= spec_budget(c)
}

/// A pool consumption is accepted exactly when every dimension of the pool
/// covers the cost.
pub open spec fn spec_can_consume(pool: BaseStats, cost: BaseStats) -> bool {
    &&& pool.might >= cost.might
    &&& pool.speed >= cost.speed
    &&& pool.intellect >= cost.intellect
}

/// A sacrifice is accepted exactly when every dimension of the base stats
/// covers the cost.
pub open spec fn spec_can_sacrifice(base: BaseStats, cost: BaseStats) -> bool {
    &&& base.might >= cost.might
    &&& base.speed >= cost.speed
    &&& base.intellect >= cost.intellect
}

/// Component-wise sum of two stat triples.
pub open spec fn spec_stats_add(a: BaseStats, b: BaseStats) -> BaseStats {
    BaseStats {
        might: (a.might + b.might) as u16,
        speed: (a.speed + b.speed) as u16,
        intellect: (a.intellect + b.intellect) as u16,
    }
}

/// Component-wise difference of two stat triples.
pub open spec fn spec_stats_sub(a: BaseStats, b: BaseStats) -> BaseStats {
    BaseStats {
        might: (a.might - b.might) as u16,
        speed: (a.speed - b.speed) as u16,
        intellect: (a.intellect - b.intellect) as u16,
    }
}

impl Character {
    /// Well-formedness, established at creation and preserved by every
    /// operation: the level is a defined level index, the spent points
    /// stay within the largest possible budget, and no pool dimension
    /// exceeds the spent points.
    pub open spec fn wf(self) -> bool {
        &&& self.level < MAX_LEVELS
        &&& spec_spent(self) <= BASE_ASSIGNABLE_POINTS + MAX_LEVELS - 1
        &&& self.pool_stats.might <= spec_spent(self)
        &&& self.pool_stats.speed <= spec_spent(self)
        &&& self.pool_stats.intellect <= spec_spent(self)
    }
}

/// A point assignment whose sum exceeds the lifetime budget is never
/// accepted, whatever the character has spent so far.
pub proof fn lemma_assign_over_budget_rejected(c: Character, p: BaseStats)
    requires
        spec_stats_sum(p) > spec_budget(c),
    ensures
        !spec_can_assign(c, p),
{
}

/// A request for exactly the remaining budget is accepted; in particular
/// a fresh character can assign exactly its full budget.
pub proof fn lemma_assign_exact_budget_accepted(c: Character, p: BaseStats)
    requires
        spec_spent(c) + spec_stats_sum(p) == spec_budget(c),
    ensures
        spec_can_assign(c, p),
{
}

/// Immediately after a refresh no pool dimension exceeds its base
/// dimension: the pool is reset to the base stats, whatever it held
/// before.
pub proof fn lemma_refresh_clamps_pool(c: Character, now: u64)
    ensures
        (Character { pool_stats: c.base_stats, last_refresh: now, ..c }).pool_stats.might <= (
        Character { pool_stats: c.base_stats, last_refresh: now, ..c }).base_stats.might,
        (Character { pool_stats: c.base_stats, last_refresh: now, ..c }).pool_stats.speed <= (
        Character { pool_stats: c.base_stats, last_refresh: now, ..c }).base_stats.speed,
        (Character { pool_stats: c.base_stats, last_refresh: now, ..c }).pool_stats.intellect <= (
        Character { pool_stats: c.base_stats, last_refresh: now, ..c }).base_stats.intellect,
{
}

/// A free refresh is allowed once the configured interval has elapsed
/// since the last free refresh.
pub fn can_refresh(config: &Config, character: &Character, now: u64) -> (r: bool)
    ensures
        r == (character.last_refresh + config.seconds_between_refreshes <= now),
{
    config.seconds_between_refreshes <= now
        && character.last_refresh <= now - config.seconds_between_refreshes
}

/// Resets the spendable pool to the base stats and records the refresh
/// time.
pub fn refresh(character: &mut Character, now: u64)
    requires
        old(character).wf(),
    ensures
        *final(character) == (Character {
            pool_stats: old(character).base_stats,
            last_refresh: now,
            ..*old(character)
        }),
        final(character).wf(),
        final(character).sacrificed_points >= old(character).sacrificed_points,
{
    character.pool_stats.might = character.base_stats.might;
    character.pool_stats.speed = character.base_stats.speed;
    character.pool_stats.intellect = character.base_stats.intellect;
    character.last_refresh = now;
}

/// A paid refresh is allowed once the configured paid interval has elapsed
/// since the last paid refresh.
pub fn can_refresh_with_token(config: &Config, character: &Character, now: u64) -> (r: bool)
    ensures
        r == (character.last_refresh_with_refresher + config.seconds_between_paid_refreshes
            <= now),
{
    config.seconds_between_paid_refreshes <= now
        && character.last_refresh_with_refresher <= now - config.seconds_between_paid_refreshes
}

/// Resets the spendable pool to the base stats and records the paid
/// refresh time.  The token burn that pays for it is a collaborator call
/// of the hosting environment; the refresh must only be persisted once
/// that call has succeeded.
pub fn refresh_with_token(character: &mut Character, now: u64)
    requires
        old(character).wf(),
    ensures
        *final(character) == (Character {
            pool_stats: old(character).base_stats,
            last_refresh_with_refresher: now,
            ..*old(character)
        }),
        final(character).wf(),
        final(character).sacrificed_points >= old(character).sacrificed_points,
{
    character.pool_stats.might = character.base_stats.might;
    character.pool_stats.speed = character.base_stats.speed;
    character.pool_stats.intellect = character.base_stats.intellect;
    character.last_refresh_with_refresher = now;
}

/// Decides whether a point assignment fits the remaining budget.
pub fn can_assign_points(character: &Character, points: &BaseStats) -> (r: bool)
    ensures
        r == spec_can_assign(*character, *points),
{
    let spent: u64 = character.base_stats.sum() + (character.sacrificed_points as u64);
    let budget: u64 = (BASE_ASSIGNABLE_POINTS as u64) + (character.level as u64);
    spent + points.sum() <= budget
}

/// Lifetime stat point budget of the character: the fixed base plus one
/// point per level, a pure function of the character's level.  Points
/// already spent count against this budget only in the acceptance check
/// (`can_assign_points`), not here.
pub fn get_character_assignable_points(character: &Character) -> (r: u16)
    requires
        character.wf(),
    ensures
        r == spec_budget(*character),
{
    BASE_ASSIGNABLE_POINTS + character.level
}

/// Decides whether the pool covers a cost in every dimension.
pub fn can_consume(character: &Character, points: &BaseStats) -> (r: bool)
    ensures
        r == spec_can_consume(character.pool_stats, *points),
{
    if character.pool_stats.might < points.might {
        return false;
    }
    if character.pool_stats.speed < points.speed {
        return false;
    }
    if character.pool_stats.intellect < points.intellect {
        return false;
    }
    true
}

/// Subtracts a cost from the spendable pool, leaving everything else
/// untouched.  Callers must have checked the pool first.
pub fn consume_points(character: &mut Character, points: &BaseStats)
    requires
        old(character).wf(),
        spec_can_consume(old(character).pool_stats, *points),
    ensures
        *final(character) == (Character {
            pool_stats: spec_stats_sub(old(character).pool_stats, *points),
            ..*old(character)
        }),
        final(character).wf(),
        final(character).sacrificed_points >= old(character).sacrificed_points,
{
    character.pool_stats.might = character.pool_stats.might - points.might;
    character.pool_stats.speed = character.pool_stats.speed - points.speed;
    character.pool_stats.intellect = character.pool_stats.intellect - points.intellect;
}

/// Credits experience and recomputes the level from the table, so the
/// level is never stale relative to the experience.
pub fn add_experience(character: &mut Character, table: &LevelTable, experience: u64)
    requires
        old(character).wf(),
        table.wf(),
        old(character).experience + experience <= u64::MAX,
    ensures
        final(character).experience == old(character).experience + experience,
        final(character).level == table.spec_level_of(final(character).experience),
        *final(character) == (Character {
            experience: final(character).experience,
            level: final(character).level,
            ..*old(character)
        }),
        final(character).wf(),
        final(character).sacrificed_points >= old(character).sacrificed_points,
{
    character.experience = character.experience + experience;
    character.level = get_level(table, character.experience);
}

/// A slot can be (re)started when it was never used, or when its cooldown
/// has elapsed and its last task was claimed.
pub open spec fn spec_slot_available(slot: CharacterSlot, now: u64) -> bool {
    slot.cooldown == 0 || (slot.cooldown <= now && slot.last_task_claimed)
}

/// A slot can be claimed when a task was started, its cooldown has
/// elapsed, and its reward was not yet claimed.
pub open spec fn spec_slot_claimable(slot: CharacterSlot, now: u64) -> bool {
    &&& slot.cooldown <= now
    &&& !slot.last_task_claimed
    &&& slot.last_task_id != 0
}

/// Decides whether the slot is free to start a task.
pub fn is_slot_available(slot: &CharacterSlot, now: u64) -> (r: bool)
    ensures
        r == spec_slot_available(*slot, now),
{
    if slot.cooldown == 0 {
        return true;
    }
    slot.cooldown <= now && slot.last_task_claimed
}

/// Decides whether the slot has an unclaimed, matured task.
pub fn is_slot_claimable(slot: &CharacterSlot, now: u64) -> (r: bool)
    ensures
        r == spec_slot_claimable(*slot, now),
{
    slot.cooldown <= now && !slot.last_task_claimed && slot.last_task_id != 0
}

impl CharacterSlot {
    /// A slot that was never used.
    pub fn idle() -> (s: CharacterSlot)
        ensures
            s == (CharacterSlot { cooldown: 0, last_task_id: 0, last_task_claimed: false }),
    {
        CharacterSlot { cooldown: 0, last_task_id: 0, last_task_claimed: false }
    }
}

impl CharacterSlots {
    /// Slots of a fresh character: all idle.
    pub fn new() -> (s: CharacterSlots)
        ensures
            s.forge == (CharacterSlot { cooldown: 0, last_task_id: 0, last_task_claimed: false }),
            s.craft == s.forge,
            s.quest == s.forge,
            s.upgrade == s.forge,
    {
        CharacterSlots {
            forge: CharacterSlot::idle(),
            craft: CharacterSlot::idle(),
            quest: CharacterSlot::idle(),
            upgrade: CharacterSlot::idle(),
        }
    }
}

impl CharacterEquipment {
    /// Equipment of a fresh character: every slot empty.
    pub fn new() -> (e: CharacterEquipment)
        ensures
            e == (CharacterEquipment {
                helmet: 0,
                shoulder_guards: 0,
                arm_guards: 0,
                hands: 0,
                rings: 0,
                necklace: 0,
                chest: 0,
                legs: 0,
                belt: 0,
                feet: 0,
                cape: 0,
                left_hand: 0,
                right_hand: 0,
            }),
    {
        CharacterEquipment {
            helmet: 0,
            shoulder_guards: 0,
            arm_guards: 0,
            hands: 0,
            rings: 0,
            necklace: 0,
            chest: 0,
            legs: 0,
            belt: 0,
            feet: 0,
            cape: 0,
            left_hand: 0,
            right_hand: 0,
        }
    }
}

} // verus!
