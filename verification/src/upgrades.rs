//! Tower upgrade levels, their configured bonuses, and buying them.
use vstd::prelude::*;
use crate::economy::{Player, TowerKind, spec_base_damage};
use crate::building::{BuildCatalog, BuildDefinitionId, UpgradeDefinition};

verus! {

/// Tracks purchased tower upgrades (the upgrade level of each tower kind).
#[derive(Debug, Clone, Copy, PartialEq, Eq, Structural)]
pub struct TowerUpgrades {
    pub bow_damage_level: u32,
    pub crossbow_damage_level: u32,
}

impl Default for TowerUpgrades {
    fn default() -> (u: Self)
        ensures
            u == (TowerUpgrades { bow_damage_level: 0, crossbow_damage_level: 0 }),
    {
        TowerUpgrades { bow_damage_level: 0, crossbow_damage_level: 0 }
    }
}

/// Upgrade level of a tower kind.
pub open spec fn spec_level(u: TowerUpgrades, kind: TowerKind) -> u32 {
    match kind {
        TowerKind::Bow => u.bow_damage_level,
        TowerKind::Crossbow => u.crossbow_damage_level,
    }
}

impl TowerUpgrades {
    /// Get the current upgrade level for a tower type.
    pub fn get_level(&self, kind: TowerKind) -> (l: u32)
        ensures
            l == spec_level(*self, kind),
    {
        match kind {
            TowerKind::Bow => self.bow_damage_level,
            TowerKind::Crossbow => self.crossbow_damage_level,
        }
    }
}

/// Two to the power `e`.
pub open spec fn p2(e: nat) -> nat
    decreases e,
{
    if e == 0 { 1 } else { 2 * p2((e - 1) as nat) }
}

/// Number of halvings that bring `n` below 2^24: how far the 24-bit significand of
/// single precision sits above the units when it holds `n`.
pub open spec fn f32_shift(n: nat) -> nat
    decreases n,
{
    if n < 0x100_0000 { 0 } else { 1 + f32_shift(n / 2) }
}

/// The integer `n` rounded to single precision: to 24 significant bits, to nearest,
/// ties to an even significand.
pub open spec fn round_f32(n: nat) -> nat {
    let m = p2(f32_shift(n));
    let q = n / m;
    let r = n % m;
    if 2 * r > m || (2 * r == m && q % 2 == 1) { (q + 1) * m } else { q * m }
}

/// The single-precision product of two 32-bit counts: each is rounded to single
/// precision, and so is their product.
pub open spec fn spec_f32_product(a: u32, b: u32) -> nat {
    round_f32(round_f32(a as nat) * round_f32(b as nat))
}

/// A whole number converted to `u32`, saturating at the maximum.
pub open spec fn sat_u32(x: nat) -> u32 {
    if x > u32::MAX { u32::MAX } else { x as u32 }
}

proof fn lemma_p2_pos(e: nat)
    ensures
        p2(e) >= 1,
    decreases e,
{
    if e > 0 {
        lemma_p2_pos((e - 1) as nat);
    }
}

/// Below 2^24 every integer is exact in single precision.
pub proof fn lemma_round_f32_small(n: nat)
    requires
        n < 0x100_0000,
    ensures
        round_f32(n) == n,
{
    assert(f32_shift(n) == 0);
    assert(p2(0) == 1);
    assert(n / 1 == n);
    assert(n % 1 == 0);
}

/// Round a whole number to single precision.
fn round_to_f32(n: u128) -> (r: u128)
    requires
        n <= 0x1_0000_0000_0000_0000_0000u128,
    ensures
        r == round_f32(n as nat),
        r <= 2 * n,
{
    let mut t: u128 = n;
    let mut m: u128 = 1;
    let ghost mut e: nat = 0;
    proof {
        assert(p2(0) == 1);
        assert(n / 1 == n);
    }
    while t >= 0x100_0000u128
        invariant
            n <= 0x1_0000_0000_0000_0000_0000u128,
            m == p2(e),
            m >= 1,
            t == n / m,
            f32_shift(n as nat) == e + f32_shift(t as nat),
            e > 0 ==> t >= 0x80_0000,
        decreases t,
    {
        proof {
            vstd::arithmetic::div_mod::lemma_fundamental_div_mod(n as int, m as int);
            vstd::arithmetic::div_mod::lemma_div_denominator(n as int, m as int, 2);
            assert(m * t <= n) by (nonlinear_arith)
                requires t == n / m, m >= 1, n == m * (n / m) + n % m, n % m >= 0;
            assert(m * 0x100_0000 <= n) by (nonlinear_arith)
                requires m * t <= n, t >= 0x100_0000, m >= 1;
            assert(p2(e + 1) == 2 * p2(e));
        }
        t = t / 2;
        m = m * 2;
        proof {
            e = e + 1;
        }
    }
    proof {
        vstd::arithmetic::div_mod::lemma_fundamental_div_mod(n as int, m as int);
        assert(m * t <= n) by (nonlinear_arith)
            requires t == n / m, m >= 1, n == m * (n / m) + n % m, n % m >= 0;
        assert(f32_shift(t as nat) == 0);
        assert(e == 0 ==> m == 1) by {
            if e == 0 { assert(p2(0) == 1); }
        }
        assert(n > 0 ==> m <= n) by (nonlinear_arith)
            requires m * t <= n, (e > 0 ==> t >= 0x80_0000), (e == 0 ==> m == 1), m >= 1;
    }
    let q = t;
    let rem = n % m;
    proof {
        vstd::arithmetic::div_mod::lemma_mod_pos_bound(n as int, m as int);
    }
    if 2 * rem > m || (2 * rem == m && q % 2 == 1) {
        proof {
            assert(n > 0) by (nonlinear_arith)
                requires n == m * q + rem, 2 * rem >= m, m >= 1, q >= 0, rem >= 0;
            assert((q + 1) * m <= 2 * n) by (nonlinear_arith)
                requires n == m * q + rem, m <= n, rem >= 0;
        }
        (q + 1) * m
    } else {
        proof {
            assert(q * m <= n) by (nonlinear_arith)
                requires n == m * q + rem, rem >= 0;
        }
        q * m
    }
}

/// The single-precision product of two 32-bit counts, as a whole number.
fn f32_product(a: u32, b: u32) -> (r: u128)
    ensures
        r == spec_f32_product(a, b),
{
    let ra = round_to_f32(a as u128);
    let rb = round_to_f32(b as u128);
    proof {
        assert(ra * rb <= 0x1_0000_0000_0000_0000_0000u128) by (nonlinear_arith)
            requires ra <= 2 * a, rb <= 2 * b, a <= u32::MAX, b <= u32::MAX;
    }
    round_to_f32(ra * rb)
}

/// Damage gained per upgrade level (the integer part of a tower's upgrade bonuses).
#[derive(Debug, Clone, Copy, PartialEq, Eq, Structural)]
pub struct TowerUpgradeBonuses {
    pub damage_per_level: u32,
}

impl TowerUpgradeBonuses {
    /// Bonuses with all values set to zero.
    pub fn new() -> (b: Self)
        ensures
            b.damage_per_level == 0,
    {
        TowerUpgradeBonuses { damage_per_level: 0 }
    }

    /// Set the damage bonus per level.
    pub fn with_damage(self, bonus_per_level: u32) -> (b: Self)
        ensures
            b.damage_per_level == bonus_per_level,
    {
        TowerUpgradeBonuses { damage_per_level: bonus_per_level }
    }

    /// Total damage bonus at an upgrade level: `damage_per_level * level`, computed in
    /// single precision.
    pub fn damage_bonus(&self, level: u32) -> (b: u128)
        ensures
            b == spec_f32_product(self.damage_per_level, level),
    {
        f32_product(self.damage_per_level, level)
    }
}

/// How a tower kind's upgrades scale: linearly with the level.
#[derive(Debug, Clone, Copy, PartialEq, Eq, Structural)]
pub enum UpgradeMode {
    Linear(TowerUpgradeBonuses),
}

/// Upgrade scaling configured for each tower kind (a kind may have none).
pub struct TowerUpgradeConfig {
    pub bow: Option<UpgradeMode>,
    pub crossbow: Option<UpgradeMode>,
}

/// Damage per level configured for a kind, zero when the kind has no configuration.
pub open spec fn spec_damage_per_level(c: TowerUpgradeConfig, kind: TowerKind) -> u32 {
    let m = match kind {
        TowerKind::Bow => c.bow,
        TowerKind::Crossbow => c.crossbow,
    };
    match m {
        Some(UpgradeMode::Linear(b)) => b.damage_per_level,
        None => 0,
    }
}

impl TowerUpgradeConfig {
    /// Bow towers gain 5 damage per level, crossbow towers 10.
    pub fn new() -> (c: Self)
        ensures
            spec_damage_per_level(c, TowerKind::Bow) == 5,
            spec_damage_per_level(c, TowerKind::Crossbow) == 10,
            c.bow is Some,
            c.crossbow is Some,
    {
        TowerUpgradeConfig {
            bow: Some(UpgradeMode::Linear(TowerUpgradeBonuses::new().with_damage(5))),
            crossbow: Some(UpgradeMode::Linear(TowerUpgradeBonuses::new().with_damage(10))),
        }
    }

    /// The damage bonus of a tower kind at an upgrade level, in single precision; zero
    /// for a kind with no configuration.
    pub fn calculate_damage_bonus(&self, kind: TowerKind, level: u32) -> (b: u128)
        ensures
            b == spec_f32_product(spec_damage_per_level(*self, kind), level),
    {
        let m = match kind {
            TowerKind::Bow => self.bow,
            TowerKind::Crossbow => self.crossbow,
        };
        match m {
            Some(UpgradeMode::Linear(bonuses)) => bonuses.damage_bonus(level),
            None => {
                proof {
                    lemma_round_f32_small(0);
                    lemma_round_f32_small(0 * round_f32(level as nat));
                }
                0
            },
        }
    }
}

/// Largest bonus below which single precision holds every whole number exactly.
pub open spec fn exact_bonus_limit() -> int {
    0x100_0000
}

/// Damage of a tower of `kind` with an upgrade bonus: base damage plus the bonus.
pub fn upgraded_damage(kind: TowerKind, bonus: u32) -> (d: u32)
    requires
        spec_base_damage(kind) + bonus <= u32::MAX,
    ensures
        d == spec_base_damage(kind) + bonus,
{
    kind.base_damage() + bonus
}

/// The single-precision bonus converted to `u32` as towers receive it (saturating).
fn bonus_as_u32(b: u128) -> (r: u32)
    ensures
        r == sat_u32(b as nat),
{
    if b > 0xFFFF_FFFFu128 { 0xFFFF_FFFFu32 } else { b as u32 }
}

/// The player holds both currency prices of an upgrade.
pub open spec fn spec_can_afford_upgrade(p: Player, def_gold: u64, def_silver: u64) -> bool {
    p.gold >= def_gold && p.silver >= def_silver
}

/// Buy an upgrade: when both currencies suffice they are paid and the upgraded kind
/// gains a level; otherwise nothing changes. Returns whether it was bought.
pub fn purchase_upgrade(p: &mut Player, upgrades: &mut TowerUpgrades, def: &UpgradeDefinition) -> (bought: bool)
    requires
        spec_can_afford_upgrade(*old(p), def.gold_cost, def.silver_cost)
            ==> spec_level(*old(upgrades), def.tower_kind) < u32::MAX,
    ensures
        bought == spec_can_afford_upgrade(*old(p), def.gold_cost, def.silver_cost),
        bought ==> {
            &&& *final(p) == (Player {
                gold: (old(p).gold - def.gold_cost) as u64,
                silver: (old(p).silver - def.silver_cost) as u64,
                ..*old(p)
            })
            &&& spec_level(*final(upgrades), def.tower_kind) == spec_level(*old(upgrades), def.tower_kind) + 1
            &&& forall|k: TowerKind| k != def.tower_kind ==> spec_level(*final(upgrades), k) == spec_level(*old(upgrades), k)
        },
        !bought ==> *final(p) == *old(p) && *final(upgrades) == *old(upgrades),
{
    if p.gold >= def.gold_cost && p.silver >= def.silver_cost {
        p.gold = p.gold - def.gold_cost;
        p.silver = p.silver - def.silver_cost;
        match def.tower_kind {
            TowerKind::Bow => {
                upgrades.bow_damage_level = upgrades.bow_damage_level + 1;
            },
            TowerKind::Crossbow => {
                upgrades.crossbow_damage_level = upgrades.crossbow_damage_level + 1;
            },
        }
        true
    } else {
        false
    }
}

/// Damage the towers of an upgraded kind get after a purchase at a new level: the base
/// damage plus the single-precision bonus converted to `u32`.
pub open spec fn spec_new_damage(config: TowerUpgradeConfig, kind: TowerKind, level: u32) -> int {
    spec_base_damage(kind) + sat_u32(spec_f32_product(spec_damage_per_level(config, kind), level))
}

/// `i` is the first upgrade of the catalog whose id is `id`.
pub open spec fn first_upgrade_match(catalog: BuildCatalog, id: BuildDefinitionId, i: int) -> bool {
    &&& 0 <= i < catalog.upgrades@.len()
    &&& catalog.upgrades@[i].id.0@ == id.0@
    &&& forall|k: int| 0 <= k < i ==> catalog.upgrades@[k].id.0@ != id.0@
}

/// An upgrade card was pressed: look up the first upgrade with that id, buy it if the
/// player can, and return the upgraded kind with the damage its towers now deal.
pub fn handle_upgrade_selection(
    catalog: &BuildCatalog,
    id: &BuildDefinitionId,
    p: &mut Player,
    upgrades: &mut TowerUpgrades,
    config: &TowerUpgradeConfig,
) -> (r: Option<(TowerKind, u32)>)
    requires
        forall|i: int| #[trigger] first_upgrade_match(*catalog, *id, i)
            && spec_can_afford_upgrade(*old(p), catalog.upgrades@[i].gold_cost, catalog.upgrades@[i].silver_cost)
            ==> {
                let k = catalog.upgrades@[i].tower_kind;
                &&& spec_level(*old(upgrades), k) < u32::MAX
                &&& spec_new_damage(*config, k, (spec_level(*old(upgrades), k) + 1) as u32) <= u32::MAX
            },
    ensures
        r matches Some((kind, dmg)) ==> {
            &&& exists|i: int| #[trigger] first_upgrade_match(*catalog, *id, i)
                && catalog.upgrades@[i].tower_kind == kind
                && spec_can_afford_upgrade(*old(p), catalog.upgrades@[i].gold_cost, catalog.upgrades@[i].silver_cost)
                && *final(p) == (Player {
                    gold: (old(p).gold - catalog.upgrades@[i].gold_cost) as u64,
                    silver: (old(p).silver - catalog.upgrades@[i].silver_cost) as u64,
                    ..*old(p)
                })
            &&& spec_level(*final(upgrades), kind) == spec_level(*old(upgrades), kind) + 1
            &&& forall|k: TowerKind| k != kind ==> spec_level(*final(upgrades), k) == spec_level(*old(upgrades), k)
            &&& dmg == spec_new_damage(*config, kind, spec_level(*final(upgrades), kind))
        },
        r is None ==> *final(p) == *old(p) && *final(upgrades) == *old(upgrades),
        r is None ==> forall|i: int| #[trigger] first_upgrade_match(*catalog, *id, i)
            ==> !spec_can_afford_upgrade(*old(p), catalog.upgrades@[i].gold_cost, catalog.upgrades@[i].silver_cost),
{
    let idx = match catalog.find_upgrade(id) {
        None => {
            return None;
        },
        Some(i) => i,
    };
    let def = &catalog.upgrades[idx];
    proof {
        assert(first_upgrade_match(*catalog, *id, idx as int));
    }
    if !purchase_upgrade(p, upgrades, def) {
        return None;
    }
    let kind = def.tower_kind;
    let level = upgrades.get_level(kind);
    let bonus = bonus_as_u32(config.calculate_damage_bonus(kind, level));
    let dmg = upgraded_damage(kind, bonus);
    Some((kind, dmg))
}


/// Each purchased level adds exactly the configured damage per level to the towers of
/// that kind, as long as the bonus stays below 2^24, where single precision is exact.
pub proof fn law_upgrade_adds_damage_per_level(config: TowerUpgradeConfig, kind: TowerKind, level: u32)
    requires
        level < u32::MAX,
        (level + 1) * spec_damage_per_level(config, kind) < exact_bonus_limit(),
    ensures
        spec_new_damage(config, kind, (level + 1) as u32) == spec_new_damage(config, kind, level)
            + spec_damage_per_level(config, kind),
{
    let d = spec_damage_per_level(config, kind);
    let l1 = (level + 1) as u32;
    assert(l1 == level + 1);
    assert(l1 * d == level * d + d) by (nonlinear_arith)
        requires l1 == level + 1;
    assert(level * d <= l1 * d) by (nonlinear_arith)
        requires l1 == level + 1, d >= 0;
    lemma_round_f32_small(d as nat);
    if d == 0 {
        lemma_round_f32_small(0);
        assert(round_f32(d as nat) * round_f32(level as nat) == 0) by (nonlinear_arith)
            requires d == 0, round_f32(d as nat) == d;
        assert(round_f32(d as nat) * round_f32(l1 as nat) == 0) by (nonlinear_arith)
            requires d == 0, round_f32(d as nat) == d;
    } else {
        assert(l1 < 0x100_0000) by (nonlinear_arith)
            requires l1 * d < 0x100_0000, d >= 1;
        lemma_round_f32_small(level as nat);
        lemma_round_f32_small(l1 as nat);
        assert(d * level == level * d) by (nonlinear_arith);
        assert(d * l1 == l1 * d) by (nonlinear_arith);
        lemma_round_f32_small((d * level) as nat);
        lemma_round_f32_small((d * l1) as nat);
    }
}

} // verus!
