//! Player resources: tower costs, building, selling, harvesting, kill rewards, upgrades.
use vstd::prelude::*;

verus! {

/// Inventory of the player: building materials and currencies.
#[derive(Debug, Clone, Copy, PartialEq, Eq, Structural)]
pub struct Player {
    pub wood: u32,
    pub rock: u32,
    pub silver: u64,
    pub gold: u64,
}

/// Different kinds of towers selectable by the player.
#[derive(Copy, Clone, Debug, Eq, PartialEq, Hash, Structural)]
pub enum TowerKind {
    Bow,
    Crossbow,
}

/// Price of a tower in (wood, rock).
pub open spec fn spec_cost(kind: TowerKind) -> (u32, u32) {
    match kind {
        TowerKind::Bow => (3, 1),
        TowerKind::Crossbow => (10, 3),
    }
}

/// Damage of a freshly built tower.
pub open spec fn spec_base_damage(kind: TowerKind) -> u32 {
    match kind {
        TowerKind::Bow => 12,
        TowerKind::Crossbow => 35,
    }
}

impl TowerKind {
    /// Price of the tower in (wood, rock).
    pub fn cost(self) -> (c: (u32, u32))
        ensures
            c == spec_cost(self),
    {
        match self {
            TowerKind::Bow => (3, 1),
            TowerKind::Crossbow => (10, 3),
        }
    }

    /// Damage per shot of a tower of this kind before upgrades.
    pub fn base_damage(self) -> (d: u32)
        ensures
            d == spec_base_damage(self),
    {
        match self {
            TowerKind::Bow => 12,
            TowerKind::Crossbow => 35,
        }
    }
}

/// The player holds at least the price of the tower in both materials.
pub open spec fn spec_can_afford(p: Player, kind: TowerKind) -> bool {
    p.wood >= spec_cost(kind).0 && p.rock >= spec_cost(kind).1
}

/// Whether the player can pay for a tower of this kind.
pub fn can_afford(p: &Player, kind: TowerKind) -> (b: bool)
    ensures
        b == spec_can_afford(*p, kind),
{
    let (w, r) = kind.cost();
    p.wood >= w && p.rock >= r
}

/// Materials still missing to buy a tower, in (wood, rock); zero where there is enough.
pub fn missing_resources(p: &Player, kind: TowerKind) -> (m: (u32, u32))
    ensures
        m.0 == (if p.wood >= spec_cost(kind).0 { 0 } else { spec_cost(kind).0 - p.wood }),
        m.1 == (if p.rock >= spec_cost(kind).1 { 0 } else { spec_cost(kind).1 - p.rock }),
        (m.0 == 0 && m.1 == 0) == spec_can_afford(*p, kind),
{
    let (w, r) = kind.cost();
    (w.saturating_sub(p.wood), r.saturating_sub(p.rock))
}

/// `v - d`, or zero when `d` exceeds `v`.
pub open spec fn sat_sub(v: int, d: int) -> int {
    if v >= d { v - d } else { 0 }
}

/// `v + d`, or `max` when the sum exceeds it.
pub open spec fn sat_add(v: int, d: int, max: int) -> int {
    if v + d <= max { v + d } else { max }
}

/// The player after paying for a tower, each material saturating at zero.
pub open spec fn spec_paid(p: Player, kind: TowerKind) -> Player {
    Player {
        wood: sat_sub(p.wood as int, spec_cost(kind).0 as int) as u32,
        rock: sat_sub(p.rock as int, spec_cost(kind).1 as int) as u32,
        ..p
    }
}

/// Refund for selling a tower: half of its price in each material, rounded down.
pub open spec fn spec_refund(kind: TowerKind) -> (u32, u32) {
    ((spec_cost(kind).0 / 2) as u32, (spec_cost(kind).1 / 2) as u32)
}

/// The player after selling a tower, each material saturating at its maximum.
pub open spec fn spec_refunded(p: Player, kind: TowerKind) -> Player {
    Player {
        wood: sat_add(p.wood as int, spec_refund(kind).0 as int, u32::MAX as int) as u32,
        rock: sat_add(p.rock as int, spec_refund(kind).1 as int, u32::MAX as int) as u32,
        ..p
    }
}

/// Pay for a tower: the cost is taken from wood and rock, saturating at zero.
pub fn pay_for_tower(p: &mut Player, kind: TowerKind)
    ensures
        *final(p) == spec_paid(*old(p), kind),
{
    let (w, r) = kind.cost();
    p.wood = p.wood.saturating_sub(w);
    p.rock = p.rock.saturating_sub(r);
}

/// Sell a tower: refund half its cost in each material, saturating at the maximum.
pub fn refund_tower(p: &mut Player, kind: TowerKind)
    ensures
        *final(p) == spec_refunded(*old(p), kind),
{
    let (w, r) = kind.cost();
    p.wood = p.wood.saturating_add(w / 2);
    p.rock = p.rock.saturating_add(r / 2);
}

/// Buying an affordable tower and selling it again costs the half of its price that
/// selling does not refund; the currencies are untouched.
pub proof fn law_build_then_sell(p: Player, kind: TowerKind)
    requires
        spec_can_afford(p, kind),
    ensures
        spec_refunded(spec_paid(p, kind), kind).wood == p.wood - (spec_cost(kind).0 - spec_cost(kind).0 / 2),
        spec_refunded(spec_paid(p, kind), kind).rock == p.rock - (spec_cost(kind).1 - spec_cost(kind).1 / 2),
        spec_refunded(spec_paid(p, kind), kind).wood < p.wood,
        spec_refunded(spec_paid(p, kind), kind).silver == p.silver,
        spec_refunded(spec_paid(p, kind), kind).gold == p.gold,
{
}

/// Kinds of harvestable resources available in the world.
#[derive(Debug, Clone, Copy, PartialEq, Eq, Structural)]
pub enum HarvestableKind {
    Wood,
    Rock,
}

/// A harvestable resource node (e.g. tree, rock).
#[derive(Debug, Clone, Copy, PartialEq, Eq, Structural)]
pub struct Harvestable {
    pub kind: HarvestableKind,
    pub amount: u32,
}

/// Whether a node can still be harvested: it holds something.
pub fn is_harvestable(h: &Harvestable) -> (b: bool)
    ensures
        b == (h.amount > 0),
{
    h.amount > 0
}

/// What one completed harvest gives: trees give 2 wood, rocks give 1 rock.
pub open spec fn spec_harvest_yield(kind: HarvestableKind) -> u32 {
    match kind {
        HarvestableKind::Wood => 2,
        HarvestableKind::Rock => 1,
    }
}

/// Complete a harvest of a node that still holds something: the player receives the
/// node's fixed yield in its material, which is returned for the collection event.
pub fn collect_harvest(p: &mut Player, h: &Harvestable) -> (gained: u32)
    requires
        h.amount > 0,
        h.kind == HarvestableKind::Wood ==> old(p).wood + 2 <= u32::MAX,
        h.kind == HarvestableKind::Rock ==> old(p).rock + 1 <= u32::MAX,
    ensures
        gained == spec_harvest_yield(h.kind),
        h.kind == HarvestableKind::Wood ==> *final(p) == (Player { wood: (old(p).wood + 2) as u32, ..*old(p) }),
        h.kind == HarvestableKind::Rock ==> *final(p) == (Player { rock: (old(p).rock + 1) as u32, ..*old(p) }),
{
    match h.kind {
        HarvestableKind::Wood => {
            p.wood = p.wood + 2;
            2
        },
        HarvestableKind::Rock => {
            p.rock = p.rock + 1;
            1
        },
    }
}

} // verus!
