//! Static game data: the leveling curve, stat triples and recipe metadata.

use vstd::prelude::*;
use vstd::assert_seqs_equal;

verus! {

/// Fixed part of the point budget every character can allocate on top of its
/// level.
pub const BASE_ASSIGNABLE_POINTS: u16 = 6;

/// Number of levels of the standard leveling curve; level indices run from
/// `0` to `MAX_LEVELS - 1`.
pub const MAX_LEVELS: u16 = 150;

/// Number of material kinds tracked per category in a character ledger;
/// material identities are `1..=MATERIAL_KINDS`, `0` means "no material".
pub const MATERIAL_KINDS: u32 = 20;

/// Number of material slots in a recipe or quest definition.
pub const RECIPE_MATERIAL_SLOTS: usize = 10;

/// A character stat triple.  Used both for permanently allocated points
/// (`base_stats`) and for the currently spendable pool (`pool_stats`).
#[derive(Clone, Copy, PartialEq, Eq, Structural, Debug)]
pub struct BaseStats {
    pub might: u16,
    pub speed: u16,
    pub intellect: u16,
}

/// A character combat attribute block; carried by quest mobs.
#[derive(Clone, Copy, PartialEq, Eq, Structural, Debug)]
pub struct BaseAttributes {
    pub atk: u16,
    pub def: u16,
    pub range: u16,
    pub mag_atk: u16,
    pub mag_def: u16,
    pub rate: u16,
}

/// Category of a material: each ledger keeps one counter array per category.
#[derive(Clone, Copy, PartialEq, Eq, Structural, Debug)]
pub enum ResourceType {
    Raw,
    Basic,
}

/// A leveling-curve boundary sequence is valid when it starts at zero
/// experience, is strictly increasing, and defines between one and
/// `MAX_LEVELS` levels.  Boundary `l` is the least experience of level `l`;
/// the last boundary is the soft cap: experience at or above it still maps
/// to the last level.
pub open spec fn spec_valid_bounds(s: Seq<u64>) -> bool {
    &&& 2 <= s.len() <= MAX_LEVELS + 1
    &&& s[0] == 0
    &&& forall|i: int| 0 <= i < s.len() - 1 ==> s[i] < #[trigger] s[i + 1]
}

/// The experience-to-level table: one entry per level, covering every
/// experience value from zero upward with no gaps.
pub struct LevelTable {
    pub bounds: Vec<u64>,
}

/// Level of experience `e`, scanning upward from level `l`: the first level
/// whose upper boundary lies beyond `e`, capped at the last level.
pub open spec fn spec_level_from(s: Seq<u64>, e: u64, l: int) -> int
    decreases s.len() - l,
{
    if l >= s.len() - 2 {
        s.len() - 2
    } else if e < s[l + 1] {
        l
    } else {
        spec_level_from(s, e, l + 1)
    }
}

impl LevelTable {
    /// Well-formedness: the boundaries form a valid leveling curve.
    pub open spec fn wf(self) -> bool {
        spec_valid_bounds(self.bounds@)
    }

    /// Number of levels the table defines.
    pub open spec fn spec_level_count(self) -> int {
        self.bounds@.len() - 1
    }

    /// The level this table assigns to experience `e`.
    pub open spec fn spec_level_of(self, e: u64) -> int {
        spec_level_from(self.bounds@, e, 0)
    }

    /// Number of levels the table defines.
    pub fn level_count(&self) -> (n: usize)
        requires
            self.wf(),
        ensures
            n == self.spec_level_count(),
    {
        self.bounds.len() - 1
    }
}

/// The level scan never leaves the table: starting at a defined level it
/// lands on a defined level at or beyond its start.
proof fn lemma_level_from_range(s: Seq<u64>, e: u64, l: int)
    requires
        0 <= l <= s.len() - 2,
    ensures
        l <= spec_level_from(s, e, l) <= s.len() - 2,
    decreases s.len() - l,
{
    if l < s.len() - 2 && e >= s[l + 1] {
        lemma_level_from_range(s, e, l + 1);
    }
}

/// At its result the scan has passed the lower boundary: experience `e`
/// lies at or above the least experience of the level found, provided it
/// lay at or above the least experience of the starting level.
proof fn lemma_level_from_lower(s: Seq<u64>, e: u64, l: int)
    requires
        0 <= l <= s.len() - 2,
        s[l] <= e,
    ensures
        s[spec_level_from(s, e, l)] <= e,
    decreases s.len() - l,
{
    if l < s.len() - 2 && e >= s[l + 1] {
        lemma_level_from_lower(s, e, l + 1);
    }
}

/// Below the last level, the scan stops before the upper boundary.
proof fn lemma_level_from_upper(s: Seq<u64>, e: u64, l: int)
    requires
        0 <= l <= s.len() - 2,
    ensures
        spec_level_from(s, e, l) < s.len() - 2 ==> e < s[spec_level_from(s, e, l) + 1],
    decreases s.len() - l,
{
    if l < s.len() - 2 && e >= s[l + 1] {
        lemma_level_from_upper(s, e, l + 1);
    }
}

/// The scan result never decreases when experience grows.
proof fn lemma_level_from_monotonic(s: Seq<u64>, e1: u64, e2: u64, l: int)
    requires
        0 <= l <= s.len() - 2,
        e1 <= e2,
    ensures
        spec_level_from(s, e1, l) <= spec_level_from(s, e2, l),
    decreases s.len() - l,
{
    if l < s.len() - 2 {
        if e1 >= s[l + 1] {
            lemma_level_from_monotonic(s, e1, e2, l + 1);
        } else if e2 >= s[l + 1] {
            lemma_level_from_range(s, e2, l + 1);
        }
    }
}

/// Boundaries never decrease along the table.
proof fn lemma_bounds_increase(s: Seq<u64>, i: int, j: int)
    requires
        forall|k: int| 0 <= k < s.len() - 1 ==> s[k] < #[trigger] s[k + 1],
        0 <= i <= j < s.len(),
    ensures
        s[i] <= s[j],
    decreases j - i,
{
    if i < j {
        lemma_bounds_increase(s, i, j - 1);
        assert(s[(j - 1) + 1] > s[j - 1]);
    }
}

/// The scan of experience at or past the last boundary runs to the last
/// level.
proof fn lemma_level_from_cap(s: Seq<u64>, e: u64, l: int)
    requires
        forall|k: int| 0 <= k < s.len() - 1 ==> s[k] < #[trigger] s[k + 1],
        0 <= l <= s.len() - 2,
        e >= s.last(),
    ensures
        spec_level_from(s, e, l) == s.len() - 2,
    decreases s.len() - l,
{
    if l < s.len() - 2 {
        lemma_bounds_increase(s, l + 1, s.len() - 1);
        lemma_level_from_cap(s, e, l + 1);
    }
}

/// Experience at or past the soft cap — the last boundary of the table —
/// maps to the last level.
pub proof fn lemma_level_soft_cap(t: LevelTable, e: u64)
    requires
        t.wf(),
        e >= t.bounds@.last(),
    ensures
        t.spec_level_of(e) == t.spec_level_count() - 1,
{
    lemma_level_from_cap(t.bounds@, e, 0);
}

/// Every experience value has exactly one level: the level is defined and
/// in range, its lower boundary is met, its upper boundary (when the level
/// is not the capped last one) is not yet reached, and the assignment is
/// non-decreasing in experience.
pub proof fn lemma_level_total_and_monotonic(t: LevelTable, e1: u64, e2: u64)
    requires
        t.wf(),
        e1 <= e2,
    ensures
        0 <= t.spec_level_of(e1) < t.spec_level_count(),
        t.bounds@[t.spec_level_of(e1)] <= e1,
        t.spec_level_of(e1) < t.spec_level_count() - 1 ==> e1 < t.bounds@[t.spec_level_of(e1) + 1],
        t.spec_level_of(e1) <= t.spec_level_of(e2),
{
    lemma_level_from_range(t.bounds@, e1, 0);
    lemma_level_from_lower(t.bounds@, e1, 0);
    lemma_level_from_upper(t.bounds@, e1, 0);
    lemma_level_from_monotonic(t.bounds@, e1, e2, 0);
}

/// Looks up the level of `experience`: the unique level whose experience
/// range contains it, or the last level once the soft cap is passed.
pub fn get_level(table: &LevelTable, experience: u64) -> (level: u16)
    requires
        table.wf(),
    ensures
        level == table.spec_level_of(experience),
        level < table.spec_level_count(),
{
    let n = table.bounds.len();
    let mut l: usize = 0;
    while l < n - 2 && experience >= table.bounds[l + 1]
        invariant
            table.wf(),
            n == table.bounds@.len(),
            0 <= l <= n - 2,
            spec_level_from(table.bounds@, experience, 0) == spec_level_from(
                table.bounds@,
                experience,
                l as int,
            ),
        decreases n - l,
    {
        l = l + 1;
    }
    l as u16
}

/// A boundary sequence under construction stays ascending from zero.
pub open spec fn spec_ascending_from_zero(s: Seq<u64>) -> bool {
    &&& s.len() > 0 ==> s[0] == 0
    &&& forall|i: int| 0 <= i < s.len() - 1 ==> s[i] < #[trigger] s[i + 1]
}

/// Appends one boundary to a curve under construction, keeping it
/// ascending from zero.
fn push_bound(bounds: &mut Vec<u64>, b: u64)
    requires
        spec_ascending_from_zero(old(bounds)@),
        old(bounds)@.len() == 0 ==> b == 0,
        old(bounds)@.len() > 0 ==> old(bounds)@.last() < b,
    ensures
        final(bounds)@ == old(bounds)@.push(b),
        spec_ascending_from_zero(final(bounds)@),
        final(bounds)@.len() == old(bounds)@.len() + 1,
        final(bounds)@.last() == b,
{
    bounds.push(b);
    proof {
        let s = bounds@;
        assert forall|i: int| 0 <= i < s.len() - 1 implies s[i] < #[trigger] s[i + 1] by {
            if i < s.len() - 2 {
                assert(old(bounds)@[i] < old(bounds)@[i + 1]);
            }
        }
    }
}

/// The boundaries of the standard leveling curve: the least experience of
/// each of the 150 levels, then the soft cap.
pub open spec fn spec_standard_bounds() -> Seq<u64> {
    seq![
        0u64,
        2020,
        3060,
        4121,
        5203,
        6320,
        7473,
        8663,
        9891,
        11158,
        12466,
        13816,
        15209,
        16647,
        18135,
        19671,
        21256,
        22892,
        24580,
        26322,
        28099,
        29912,
        31761,
        33647,
        35571,
        37533,
        39534,
        41575,
        43657,
        45781,
        47947,
        50156,
        52409,
        54707,
        57085,
        59546,
        62093,
        64729,
        67457,
        70280,
        73193,
        76199,
        79301,
        82502,
        85805,
        89174,
        92610,
        96115,
        99690,
        103337,
        107101,
        110985,
        114993,
        119129,
        123397,
        127750,
        132190,
        136719,
        141339,
        146051,
        150914,
        155933,
        161113,
        166459,
        171976,
        177670,
        183546,
        189610,
        195868,
        202326,
        209010,
        215928,
        223088,
        230499,
        238169,
        246107,
        254323,
        262827,
        271629,
        280739,
        290141,
        299844,
        309857,
        320190,
        330854,
        341731,
        352826,
        364143,
        375686,
        387460,
        399611,
        412151,
        425092,
        438447,
        452229,
        466452,
        481130,
        496278,
        511911,
        528044,
        544500,
        561285,
        578406,
        595869,
        613681,
        631849,
        650380,
        669282,
        688562,
        708228,
        728582,
        749648,
        771451,
        794017,
        817373,
        841546,
        866565,
        892460,
        919261,
        947000,
        975627,
        1005170,
        1035658,
        1067122,
        1099593,
        1132713,
        1166495,
        1200953,
        1236100,
        1271950,
        1308517,
        1345815,
        1383859,
        1422664,
        1462245,
        1503093,
        1545248,
        1588752,
        1633648,
        1680115,
        1728208,
        1777984,
        1829502,
        1882823,
        1938010,
        1995129,
        2054247,
        2115434,
        2178763,
        2244309,
        5000000,
    ]
}

impl LevelTable {
    /// Builds the standard 150-level curve of the game.  Level 0 starts at
    /// zero experience; experience at or past the last boundary stays at
    /// the last level.
    #[verifier::rlimit(100)]
    pub fn standard() -> (t: LevelTable)
        ensures
            t.wf(),
            t.spec_level_count() == MAX_LEVELS,
            t.bounds@ == spec_standard_bounds(),
            t.bounds@.last() == 5000000,
    {
        let mut bounds: Vec<u64> = Vec::new();
        push_bound(&mut bounds, 0);
        push_bound(&mut bounds, 2020);
        push_bound(&mut bounds, 3060);
        push_bound(&mut bounds, 4121);
        push_bound(&mut bounds, 5203);
        push_bound(&mut bounds, 6320);
        push_bound(&mut bounds, 7473);
        push_bound(&mut bounds, 8663);
        push_bound(&mut bounds, 9891);
        push_bound(&mut bounds, 11158);
        push_bound(&mut bounds, 12466);
        push_bound(&mut bounds, 13816);
        push_bound(&mut bounds, 15209);
        push_bound(&mut bounds, 16647);
        push_bound(&mut bounds, 18135);
        push_bound(&mut bounds, 19671);
        push_bound(&mut bounds, 21256);
        push_bound(&mut bounds, 22892);
        push_bound(&mut bounds, 24580);
        push_bound(&mut bounds, 26322);
        push_bound(&mut bounds, 28099);
        push_bound(&mut bounds, 29912);
        push_bound(&mut bounds, 31761);
        push_bound(&mut bounds, 33647);
        push_bound(&mut bounds, 35571);
        push_bound(&mut bounds, 37533);
        push_bound(&mut bounds, 39534);
        push_bound(&mut bounds, 41575);
        push_bound(&mut bounds, 43657);
        push_bound(&mut bounds, 45781);
        push_bound(&mut bounds, 47947);
        push_bound(&mut bounds, 50156);
        push_bound(&mut bounds, 52409);
        push_bound(&mut bounds, 54707);
        push_bound(&mut bounds, 57085);
        push_bound(&mut bounds, 59546);
        push_bound(&mut bounds, 62093);
        push_bound(&mut bounds, 64729);
        push_bound(&mut bounds, 67457);
        push_bound(&mut bounds, 70280);
        push_bound(&mut bounds, 73193);
        push_bound(&mut bounds, 76199);
        push_bound(&mut bounds, 79301);
        push_bound(&mut bounds, 82502);
        push_bound(&mut bounds, 85805);
        push_bound(&mut bounds, 89174);
        push_bound(&mut bounds, 92610);
        push_bound(&mut bounds, 96115);
        push_bound(&mut bounds, 99690);
        push_bound(&mut bounds, 103337);
        push_bound(&mut bounds, 107101);
        push_bound(&mut bounds, 110985);
        push_bound(&mut bounds, 114993);
        push_bound(&mut bounds, 119129);
        push_bound(&mut bounds, 123397);
        push_bound(&mut bounds, 127750);
        push_bound(&mut bounds, 132190);
        push_bound(&mut bounds, 136719);
        push_bound(&mut bounds, 141339);
        push_bound(&mut bounds, 146051);
        push_bound(&mut bounds, 150914);
        push_bound(&mut bounds, 155933);
        push_bound(&mut bounds, 161113);
        push_bound(&mut bounds, 166459);
        push_bound(&mut bounds, 171976);
        push_bound(&mut bounds, 177670);
        push_bound(&mut bounds, 183546);
        push_bound(&mut bounds, 189610);
        push_bound(&mut bounds, 195868);
        push_bound(&mut bounds, 202326);
        push_bound(&mut bounds, 209010);
        push_bound(&mut bounds, 215928);
        push_bound(&mut bounds, 223088);
        push_bound(&mut bounds, 230499);
        push_bound(&mut bounds, 238169);
        push_bound(&mut bounds, 246107);
        push_bound(&mut bounds, 254323);
        push_bound(&mut bounds, 262827);
        push_bound(&mut bounds, 271629);
        push_bound(&mut bounds, 280739);
        push_bound(&mut bounds, 290141);
        push_bound(&mut bounds, 299844);
        push_bound(&mut bounds, 309857);
        push_bound(&mut bounds, 320190);
        push_bound(&mut bounds, 330854);
        push_bound(&mut bounds, 341731);
        push_bound(&mut bounds, 352826);
        push_bound(&mut bounds, 364143);
        push_bound(&mut bounds, 375686);
        push_bound(&mut bounds, 387460);
        push_bound(&mut bounds, 399611);
        push_bound(&mut bounds, 412151);
        push_bound(&mut bounds, 425092);
        push_bound(&mut bounds, 438447);
        push_bound(&mut bounds, 452229);
        push_bound(&mut bounds, 466452);
        push_bound(&mut bounds, 481130);
        push_bound(&mut bounds, 496278);
        push_bound(&mut bounds, 511911);
        push_bound(&mut bounds, 528044);
        push_bound(&mut bounds, 544500);
        push_bound(&mut bounds, 561285);
        push_bound(&mut bounds, 578406);
        push_bound(&mut bounds, 595869);
        push_bound(&mut bounds, 613681);
        push_bound(&mut bounds, 631849);
        push_bound(&mut bounds, 650380);
        push_bound(&mut bounds, 669282);
        push_bound(&mut bounds, 688562);
        push_bound(&mut bounds, 708228);
        push_bound(&mut bounds, 728582);
        push_bound(&mut bounds, 749648);
        push_bound(&mut bounds, 771451);
        push_bound(&mut bounds, 794017);
        push_bound(&mut bounds, 817373);
        push_bound(&mut bounds, 841546);
        push_bound(&mut bounds, 866565);
        push_bound(&mut bounds, 892460);
        push_bound(&mut bounds, 919261);
        push_bound(&mut bounds, 947000);
        push_bound(&mut bounds, 975627);
        push_bound(&mut bounds, 1005170);
        push_bound(&mut bounds, 1035658);
        push_bound(&mut bounds, 1067122);
        push_bound(&mut bounds, 1099593);
        push_bound(&mut bounds, 1132713);
        push_bound(&mut bounds, 1166495);
        push_bound(&mut bounds, 1200953);
        push_bound(&mut bounds, 1236100);
        push_bound(&mut bounds, 1271950);
        push_bound(&mut bounds, 1308517);
        push_bound(&mut bounds, 1345815);
        push_bound(&mut bounds, 1383859);
        push_bound(&mut bounds, 1422664);
        push_bound(&mut bounds, 1462245);
        push_bound(&mut bounds, 1503093);
        push_bound(&mut bounds, 1545248);
        push_bound(&mut bounds, 1588752);
        push_bound(&mut bounds, 1633648);
        push_bound(&mut bounds, 1680115);
        push_bound(&mut bounds, 1728208);
        push_bound(&mut bounds, 1777984);
        push_bound(&mut bounds, 1829502);
        push_bound(&mut bounds, 1882823);
        push_bound(&mut bounds, 1938010);
        push_bound(&mut bounds, 1995129);
        push_bound(&mut bounds, 2054247);
        push_bound(&mut bounds, 2115434);
        push_bound(&mut bounds, 2178763);
        push_bound(&mut bounds, 2244309);
        push_bound(&mut bounds, 5000000);
        proof {
            assert_seqs_equal!(bounds@ == spec_standard_bounds());
        }
        LevelTable { bounds }
    }
}

/// The three slot columns of a definition describe the same number of
/// material slots.
pub open spec fn spec_slots_len_ok(m: Seq<u32>, a: Seq<u32>, t: Seq<ResourceType>) -> bool {
    &&& a.len() == m.len()
    &&& t.len() == m.len()
}

/// Every slot names a defined material identity, or `0` for an empty slot.
pub open spec fn spec_slots_in_range(m: Seq<u32>) -> bool {
    forall|i: int| 0 <= i < m.len() ==> #[trigger] m[i] <= MATERIAL_KINDS
}

/// No two non-empty slots name the same material of the same category, so
/// checking and consuming slot by slot agree.
pub open spec fn spec_slots_distinct(m: Seq<u32>, t: Seq<ResourceType>) -> bool {
    forall|i: int, j: int| #![trigger m[i], m[j]]
        0 <= i < j < m.len() && m[i] != 0 && m[j] != 0 && t[i] == t[j] ==> m[i] != m[j]
}

/// No two non-empty slots name the same material at all; used for reward
/// lists that credit a single category.
pub open spec fn spec_slots_unique(m: Seq<u32>) -> bool {
    forall|i: int, j: int| #![trigger m[i], m[j]]
        0 <= i < j < m.len() && m[i] != 0 && m[j] != 0 ==> m[i] != m[j]
}

/// A well-formed material slot list: full length agreement, identities in
/// range, and no duplicated material within a category.
pub open spec fn spec_material_slots_wf(m: Seq<u32>, a: Seq<u32>, t: Seq<ResourceType>) -> bool {
    &&& m.len() == RECIPE_MATERIAL_SLOTS
    &&& spec_slots_len_ok(m, a, t)
    &&& spec_slots_in_range(m)
    &&& spec_slots_distinct(m, t)
}

/// A forge or craft recipe definition: the materials and stat points it
/// consumes, its cooldown, and the single material it rewards.
#[derive(Clone, PartialEq, Eq, Debug)]
pub struct Recipe {
    /// Sequential identifier assigned by the catalog; never `0`.
    pub id: u32,
    pub name: String,
    /// Material identity per slot; `0` means the slot is unused.
    pub materials: Vec<u32>,
    /// Amount consumed per slot.
    pub materials_amounts: Vec<u32>,
    /// Category the slot draws from.
    pub materials_types: Vec<ResourceType>,
    /// Cost drawn from the spendable pool when the recipe starts.
    pub stats_required: BaseStats,
    /// Permanent cost drawn from the base stats when sacrificed for.
    pub stats_sacrificed: BaseStats,
    /// Cooldown duration in seconds, not an absolute time.
    pub cooldown: u32,
    pub level_required: u16,
    /// Material identity rewarded on claim; `0` means no reward.
    pub item_rewarded: u32,
    pub item_rewarded_amount: u32,
    pub item_rewarded_type: ResourceType,
    /// Catalog-owner controlled visibility flag.
    pub available: bool,
}

impl Recipe {
    /// Well-formedness of everything but the identifier: the slot lists
    /// are full length, in range and duplicate free, and the reward names
    /// a defined material or none.
    pub open spec fn content_wf(self) -> bool {
        &&& spec_material_slots_wf(
            self.materials@,
            self.materials_amounts@,
            self.materials_types@,
        )
        &&& self.item_rewarded <= MATERIAL_KINDS
    }

    /// Well-formedness: valid content under a valid sequential identifier.
    pub open spec fn wf(self) -> bool {
        &&& self.id != 0
        &&& self.content_wf()
    }

    /// Runtime check that the definition content is well formed, for
    /// callers that receive definitions from outside the catalog
    /// operations.
    pub fn check_content_wf(&self) -> (r: bool)
        ensures
            r == self.content_wf(),
    {
        if self.materials.len() != RECIPE_MATERIAL_SLOTS {
            return false;
        }
        if self.materials_amounts.len() != RECIPE_MATERIAL_SLOTS {
            return false;
        }
        if self.materials_types.len() != RECIPE_MATERIAL_SLOTS {
            return false;
        }
        if self.item_rewarded > MATERIAL_KINDS {
            return false;
        }
        let mut i: usize = 0;
        while i < RECIPE_MATERIAL_SLOTS
            invariant
                0 <= i <= RECIPE_MATERIAL_SLOTS,
                self.materials@.len() == RECIPE_MATERIAL_SLOTS,
                self.materials_types@.len() == RECIPE_MATERIAL_SLOTS,
                forall|k: int| 0 <= k < i ==> #[trigger] self.materials@[k] <= MATERIAL_KINDS,
                forall|k: int, j: int| #![trigger self.materials@[k], self.materials@[j]]
                    0 <= k < j < i && self.materials@[k] != 0 && self.materials@[j] != 0
                        && self.materials_types@[k] == self.materials_types@[j]
                        ==> self.materials@[k] != self.materials@[j],
            decreases RECIPE_MATERIAL_SLOTS - i,
        {
            if self.materials[i] > MATERIAL_KINDS {
                return false;
            }
            let mut j: usize = 0;
            while j < i
                invariant
                    0 <= j <= i < RECIPE_MATERIAL_SLOTS,
                    self.materials@.len() == RECIPE_MATERIAL_SLOTS,
                    self.materials_types@.len() == RECIPE_MATERIAL_SLOTS,
                    forall|k: int| #![trigger self.materials@[k]]
                        0 <= k < j && self.materials@[k] != 0 && self.materials@[i as int] != 0
                            && self.materials_types@[k] == self.materials_types@[i as int]
                            ==> self.materials@[k] != self.materials@[i as int],
                decreases i - j,
            {
                if self.materials[j] != 0 && self.materials[i] != 0
                    && self.materials_types[j] == self.materials_types[i]
                    && self.materials[j] == self.materials[i] {
                    return false;
                }
                j = j + 1;
            }
            i = i + 1;
        }
        true
    }
}

/// Sum of the three dimensions of a stat triple.
pub open spec fn spec_stats_sum(s: BaseStats) -> int {
    s.might + s.speed + s.intellect
}

impl BaseStats {
    /// The zero triple.
    pub fn zero() -> (r: BaseStats)
        ensures
            r == (BaseStats { might: 0, speed: 0, intellect: 0 }),
    {
        BaseStats { might: 0, speed: 0, intellect: 0 }
    }

    /// Sum of the three dimensions, computed without overflow.
    pub fn sum(&self) -> (r: u64)
        ensures
            r == spec_stats_sum(*self),
    {
        (self.might as u64) + (self.speed as u64) + (self.intellect as u64)
    }
}

} // verus!
