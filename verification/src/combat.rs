//! Hits on enemies and on the village, enemy toughness per wave, kill rewards.
use vstd::prelude::*;
use crate::economy::{Player, sat_add, sat_sub};
use crate::random::fresh_random_u8;

verus! {

/// Kinds of enemies a wave is made of.
#[derive(Debug, Clone, Copy, PartialEq, Eq, Hash, Structural)]
pub enum EnemyKind {
    Minion,
    Zombie,
    Boss,
}

/// Silver credited for a kill: minion 1, zombie 2, boss 5, an enemy of unknown kind 1.
pub open spec fn spec_silver_reward(kind: Option<EnemyKind>) -> u64 {
    match kind {
        Some(EnemyKind::Minion) => 1,
        Some(EnemyKind::Zombie) => 2,
        Some(EnemyKind::Boss) => 5,
        None => 1,
    }
}

/// Silver credited for killing an enemy of the given kind.
pub fn silver_reward(kind: Option<EnemyKind>) -> (s: u64)
    ensures
        s == spec_silver_reward(kind),
{
    match kind {
        Some(EnemyKind::Minion) => 1,
        Some(EnemyKind::Zombie) => 2,
        Some(EnemyKind::Boss) => 5,
        None => 1,
    }
}

/// Credit a kill: the kind's silver, plus one gold when the gold drop came up;
/// both saturate at the maximum.
pub fn award_kill(p: &mut Player, kind: Option<EnemyKind>, gold_drop: bool)
    ensures
        final(p).silver == sat_add(old(p).silver as int, spec_silver_reward(kind) as int, u64::MAX as int),
        final(p).gold == (if gold_drop { sat_add(old(p).gold as int, 1, u64::MAX as int) } else { old(p).gold as int }),
        final(p).wood == old(p).wood,
        final(p).rock == old(p).rock,
{
    p.silver = p.silver.saturating_add(silver_reward(kind));
    if gold_drop {
        p.gold = p.gold.saturating_add(1u64);
    }
}

/// Health left after a hit, and whether the hit was lethal (no health left).
pub fn apply_hit(health: u32, damage: u32) -> (r: (u32, bool))
    ensures
        r.0 == sat_sub(health as int, damage as int),
        r.1 == (damage >= health),
{
    let left = health.saturating_sub(damage);
    (left, left == 0)
}

/// Health, contact damage and kind of an enemy unit.
#[derive(Debug, Clone, Copy, PartialEq, Eq, Structural)]
pub struct Enemy {
    pub health: u32,
    pub max_health: u32,
    pub damage: u32,
    pub kind: EnemyKind,
}

impl Enemy {
    /// A projectile hit: health drops by the damage (not below zero); returns whether
    /// the hit was lethal.
    pub fn take_damage(&mut self, damage: u32) -> (lethal: bool)
        ensures
            final(self).health == sat_sub(old(self).health as int, damage as int),
            lethal == (damage >= old(self).health),
            final(self).max_health == old(self).max_health,
            final(self).damage == old(self).damage,
            final(self).kind == old(self).kind,
    {
        let (left, lethal) = apply_hit(self.health, damage);
        self.health = left;
        lethal
    }
}

/// The central village object with health.
#[derive(Debug, Clone, Copy, PartialEq, Eq, Structural)]
pub struct Village {
    pub health: u32,
    pub max_health: u32,
}

impl Village {
    /// An enemy reached the village: it loses the enemy's damage; a destroyed
    /// village is restored to full health.
    pub fn take_hit(&mut self, damage: u32)
        ensures
            final(self).max_health == old(self).max_health,
            final(self).health == (if damage >= old(self).health { old(self).max_health as int } else {
                old(self).health - damage
            }),
    {
        self.health = self.health.saturating_sub(damage);
        if self.health == 0 {
            self.health = self.max_health;
        }
    }
}

/// A village with positive maximum health never shows zero health after a hit,
/// and never more than its maximum.
pub proof fn law_village_survives_hits(health: u32, max_health: u32, damage: u32)
    requires
        0 < max_health,
        health <= max_health,
    ensures
        ({
            let after: int = if damage >= health { max_health as int } else { health - damage };
            0 < after <= max_health
        }),
{
}

/// Enemy health for a wave: the default, plus the tier bonus for every full five waves.
pub open spec fn spec_enemy_health_for_wave(default_health: u32, bonus_per_tier: u32, wave: u32) -> int {
    default_health + (wave / 5) * bonus_per_tier
}

/// Health of an enemy spawned during wave `wave`.
pub fn enemy_health_for_wave(default_health: u32, bonus_per_tier: u32, wave: u32) -> (h: u32)
    requires
        spec_enemy_health_for_wave(default_health, bonus_per_tier, wave) <= u32::MAX,
    ensures
        h == spec_enemy_health_for_wave(default_health, bonus_per_tier, wave),
{
    let tier = wave / 5;
    let mut health = default_health;
    if tier > 0 {
        proof {
            assert(tier * bonus_per_tier >= 0) by (nonlinear_arith)
                requires tier >= 0, bonus_per_tier >= 0;
        }
        health = health + tier * bonus_per_tier;
    } else {
        proof {
            assert(tier * bonus_per_tier == 0) by (nonlinear_arith)
                requires tier == 0;
        }
    }
    health
}

/// Enemies get tougher as waves go on: health never decreases from one wave to a later one.
pub proof fn law_enemy_health_monotone(default_health: u32, bonus_per_tier: u32, w1: u32, w2: u32)
    requires
        w1 <= w2,
    ensures
        spec_enemy_health_for_wave(default_health, bonus_per_tier, w1)
            <= spec_enemy_health_for_wave(default_health, bonus_per_tier, w2),
{
    assert(w1 / 5 <= w2 / 5) by (nonlinear_arith)
        requires w1 <= w2;
    assert((w1 / 5) * bonus_per_tier <= (w2 / 5) * bonus_per_tier) by (nonlinear_arith)
        requires w1 / 5 <= w2 / 5, bonus_per_tier >= 0;
}

/// How enemy health grows: waves 0 to 4 field enemies of the default health; every
/// five waves later enemies carry exactly one more tier bonus; and waves within the same
/// block of five share one health.
pub proof fn law_enemy_health_tiers(default_health: u32, bonus_per_tier: u32, w: u32, v: u32)
    ensures
        w < 5 ==> spec_enemy_health_for_wave(default_health, bonus_per_tier, w) == default_health,
        w + 5 <= u32::MAX ==> spec_enemy_health_for_wave(default_health, bonus_per_tier, (w + 5) as u32)
            == spec_enemy_health_for_wave(default_health, bonus_per_tier, w) + bonus_per_tier,
        w / 5 == v / 5 ==> spec_enemy_health_for_wave(default_health, bonus_per_tier, w)
            == spec_enemy_health_for_wave(default_health, bonus_per_tier, v),
{
    if w < 5 {
        assert(w / 5 == 0);
        assert((w / 5) * bonus_per_tier == 0) by (nonlinear_arith)
            requires w / 5 == 0;
    }
    if w + 5 <= u32::MAX {
        let w5 = (w + 5) as u32;
        assert(w5 / 5 == w / 5 + 1);
        assert((w5 / 5) * bonus_per_tier == (w / 5) * bonus_per_tier + bonus_per_tier) by (nonlinear_arith)
            requires w5 / 5 == w / 5 + 1;
    }
}

/// Screen direction in which a floating number is nudged away from its anchor.
#[derive(Debug, Clone, Copy, PartialEq, Eq, Structural)]
pub enum PopupDirection {
    Right,
    Left,
    Down,
    Up,
}

/// The direction for a roll: `roll % 4` picks right, left, down, up.
pub open spec fn spec_popup_direction(roll: u8) -> PopupDirection {
    let d = roll % 4;
    if d == 0 {
        PopupDirection::Right
    } else if d == 1 {
        PopupDirection::Left
    } else if d == 2 {
        PopupDirection::Down
    } else {
        PopupDirection::Up
    }
}

/// The direction for a roll.
pub fn popup_direction(roll: u8) -> (d: PopupDirection)
    ensures
        d == spec_popup_direction(roll),
{
    match roll % 4 {
        0 => PopupDirection::Right,
        1 => PopupDirection::Left,
        2 => PopupDirection::Down,
        _ => PopupDirection::Up,
    }
}

/// The direction after `d` in the cycle right, left, down, up (used for a second popup).
pub fn next_popup_direction(d: PopupDirection) -> (n: PopupDirection)
    ensures
        n != d,
        n == match d {
            PopupDirection::Right => PopupDirection::Left,
            PopupDirection::Left => PopupDirection::Down,
            PopupDirection::Down => PopupDirection::Up,
            PopupDirection::Up => PopupDirection::Right,
        },
{
    match d {
        PopupDirection::Right => PopupDirection::Left,
        PopupDirection::Left => PopupDirection::Down,
        PopupDirection::Down => PopupDirection::Up,
        PopupDirection::Up => PopupDirection::Right,
    }
}

/// A random nudge direction for a floating number.
pub fn random_popup_direction() -> (d: PopupDirection)
    ensures
        exists|roll: u8| d == spec_popup_direction(roll),
{
    let roll = fresh_random_u8();
    popup_direction(roll)
}


/// Progress of an enemy along a road: which road, and the index of the next waypoint.
#[derive(Debug, Clone, Copy, PartialEq, Eq, Structural)]
pub struct PathFollower {
    pub road_index: usize,
    pub next_index: usize,
}

/// The follower of a newly spawned enemy: on a road it heads for the second waypoint
/// (it starts at the first); without a road it starts at nothing.
pub fn spawn_follower(road_index: Option<usize>) -> (f: PathFollower)
    ensures
        road_index matches Some(ri) ==> f == (PathFollower { road_index: ri, next_index: 1 }),
        road_index is None ==> f == (PathFollower { road_index: 0, next_index: 0 }),
{
    match road_index {
        Some(ri) => PathFollower { road_index: ri, next_index: 1 },
        None => PathFollower { road_index: 0, next_index: 0 },
    }
}

/// Where an enemy heads this frame.
#[derive(Debug, Clone, Copy, PartialEq, Eq, Structural)]
pub enum MoveTarget {
    /// The waypoint of this index on its road.
    Waypoint(usize),
    /// The village itself.
    Village,
}

/// The follower after a step on a road of `road_len` waypoints.
pub open spec fn spec_followed(f: PathFollower, road_len: usize, reached: bool) -> PathFollower {
    if f.next_index < road_len && reached {
        PathFollower { next_index: (f.next_index + 1) as usize, ..f }
    } else {
        f
    }
}

impl PathFollower {
    /// Pick the target on a road of `road_len` waypoints: the next waypoint while there
    /// is one, else the village. When the enemy was within reach of that waypoint, the
    /// next one becomes the target for the following frame.
    pub fn follow_step(&mut self, road_len: usize, reached: bool) -> (t: MoveTarget)
        ensures
            t == (if old(self).next_index < road_len { MoveTarget::Waypoint(old(self).next_index) } else { MoveTarget::Village }),
            *final(self) == spec_followed(*old(self), road_len, reached),
    {
        if self.next_index < road_len {
            let t = MoveTarget::Waypoint(self.next_index);
            if reached {
                self.next_index = self.next_index + 1;
            }
            t
        } else {
            MoveTarget::Village
        }
    }
}

/// A follower never skips a waypoint: its next index grows by at most one per step and
/// never beyond the road's length.
pub proof fn law_follower_never_skips(f: PathFollower, road_len: usize, reached: bool)
    requires
        f.next_index <= road_len,
    ensures
        f.next_index <= spec_followed(f, road_len, reached).next_index <= f.next_index + 1,
        spec_followed(f, road_len, reached).next_index <= road_len,
        spec_followed(f, road_len, reached).road_index == f.road_index,
{
}

} // verus!
