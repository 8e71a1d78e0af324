//! Rules for filling a chunk with resources and for the rule-based resource passes.
use vstd::prelude::*;
use rand::rngs::{StdRng, ThreadRng};
use crate::random::pick_u32;

verus! {

/// Centralized toggles for which systems are deterministic (seeded) versus fresh
/// random each run or event.
#[derive(Debug, Clone, Copy, PartialEq, Eq, Structural)]
pub struct RandomizationPolicy {
    pub wave_composition_seeded: bool,
    pub enemy_spawn_selection_seeded: bool,
    pub town_layout_seeded: bool,
    pub road_generation_seeded: bool,
    pub chunk_content_seeded: bool,
    pub resource_rules_seeded: bool,
}

impl Default for RandomizationPolicy {
    /// Everything seeded.
    fn default() -> (p: Self)
        ensures
            p.wave_composition_seeded && p.enemy_spawn_selection_seeded && p.town_layout_seeded
                && p.road_generation_seeded && p.chunk_content_seeded && p.resource_rules_seeded,
    {
        RandomizationPolicy {
            wave_composition_seeded: true,
            enemy_spawn_selection_seeded: true,
            town_layout_seeded: true,
            road_generation_seeded: true,
            chunk_content_seeded: true,
            resource_rules_seeded: true,
        }
    }
}

/// The seed handed to a seeded system: the world seed when the system is seeded, none otherwise.
pub fn seed_mode(seeded: bool, world_seed: u64) -> (m: Option<u64>)
    ensures
        m == (if seeded { Some(world_seed) } else { None }),
{
    if seeded {
        Some(world_seed)
    } else {
        None
    }
}

/// Split of a chunk's resource count: two thirds trees, one third rocks (both rounded down).
pub fn chunk_resource_split(resource_count: u32) -> (r: (usize, usize))
    requires
        resource_count * 2 <= u32::MAX,
    ensures
        r.0 == resource_count * 2 / 3,
        r.1 == resource_count / 3,
        r.0 + r.1 <= resource_count,
{
    let trees = (resource_count * 2 / 3) as usize;
    let rocks = (resource_count / 3) as usize;
    (trees, rocks)
}

/// Wood held by a tree for a random draw: `min + draw % (max - min + 1)`.
pub open spec fn spec_tree_wood(min: u32, max: u32, draw: u32) -> int {
    min + (draw as int) % (max - min + 1)
}

/// Wood held by a tree for a random draw, within `[min, max]`.
pub fn tree_wood_amount(min: u32, max: u32, draw: u32) -> (w: u32)
    requires
        min <= max,
        max - min < u32::MAX,
    ensures
        w == spec_tree_wood(min, max, draw),
        min <= w <= max,
{
    let span = max - min + 1;
    let span = if span >= 1 { span } else { 1 };
    min + (draw % span)
}

/// How a tree's wood follows the random draw, over the whole 32-bit draw: a draw below
/// the span of the range gives `min` plus the draw; raising the draw by one raises the
/// wood by one, or wraps it from `max` back to `min`; and the wood always lies in
/// `[min, max]`.
pub proof fn law_tree_wood_follows_draw(min: u32, max: u32, draw: u32)
    requires
        min <= max,
    ensures
        min <= spec_tree_wood(min, max, draw) <= max,
        draw <= max - min ==> spec_tree_wood(min, max, draw) == min + draw,
        draw < u32::MAX ==> {
            let w0 = spec_tree_wood(min, max, draw);
            let w1 = spec_tree_wood(min, max, (draw + 1) as u32);
            (w0 < max && w1 == w0 + 1) || (w0 == max && w1 == min)
        },
{
    let span: int = max - min + 1;
    let d: int = draw as int;
    vstd::arithmetic::div_mod::lemma_mod_pos_bound(d, span);
    if d < span {
        vstd::arithmetic::div_mod::lemma_small_mod(draw as nat, span as nat);
    }
    if draw < u32::MAX {
        vstd::arithmetic::div_mod::lemma_fundamental_div_mod(d, span);
        vstd::arithmetic::div_mod::lemma_fundamental_div_mod(d + 1, span);
        vstd::arithmetic::div_mod::lemma_mod_pos_bound(d + 1, span);
        let q = d / span;
        let r = d % span;
        if r + 1 < span {
            vstd::arithmetic::div_mod::lemma_mod_multiples_vanish(q, r + 1, span);
            vstd::arithmetic::div_mod::lemma_small_mod((r + 1) as nat, span as nat);
            assert(d + 1 == span * q + (r + 1));
        } else {
            vstd::arithmetic::div_mod::lemma_mod_multiples_vanish(q + 1, 0, span);
            assert(d + 1 == span * (q + 1) + 0) by (nonlinear_arith)
                requires d == span * q + r, r + 1 == span;
            vstd::arithmetic::div_mod::lemma_small_mod(0, span as nat);
        }
    }
}

/// Draw the wood of a new tree from the seeded generator when chunk content is seeded,
/// else from the thread generator; the generator not used is left untouched.
pub fn draw_tree_wood(
    seeded: bool,
    seeded_rng: &mut StdRng,
    thread_rng: &mut ThreadRng,
    min: u32,
    max: u32,
) -> (w: u32)
    requires
        min <= max,
        max - min < u32::MAX,
    ensures
        min <= w <= max,
        exists|draw: u32| w == spec_tree_wood(min, max, draw),
        seeded ==> *final(thread_rng) == *old(thread_rng),
        !seeded ==> *final(seeded_rng) == *old(seeded_rng),
{
    let draw = pick_u32(seeded, seeded_rng, thread_rng);
    tree_wood_amount(min, max, draw)
}

/// Rock held by every rock node.
pub const ROCK_NODE_AMOUNT: u32 = 10;

/// Stable identifier of the rocks-along-road rule.
pub const RULE_ID_ROCKS_ALONG_ROAD: u64 = 0xC0BB_BA5E_5EED;

/// Key mixed into the world seed for the rocks-along-road rule.
pub const ROCKS_ALONG_ROAD_KEY: u64 = 0xA11C_E55E_D00D;

/// Seed of the rocks-along-road rule when resource rules are seeded.
pub fn rocks_rule_seed(world_seed: u64) -> (s: u64)
    ensures
        s == world_seed ^ ROCKS_ALONG_ROAD_KEY ^ RULE_ID_ROCKS_ALONG_ROAD,
{
    world_seed ^ ROCKS_ALONG_ROAD_KEY ^ RULE_ID_ROCKS_ALONG_ROAD
}

/// How many rocks the road corridor still needs: none when it already holds the
/// minimum, else the shortfall.
pub fn rocks_to_place(min_rocks: u32, corridor_count: u32) -> (n: u32)
    ensures
        n == (if corridor_count >= min_rocks { 0 } else { min_rocks - corridor_count }),
{
    if corridor_count >= min_rocks {
        0
    } else {
        min_rocks - corridor_count
    }
}

/// Most candidate spots the rocks-along-road pass tries.
pub const MAX_ROCK_ATTEMPTS: u32 = 200;

/// Rocks the road corridor should hold at least.
pub const MIN_ROCKS_ALONG_ROAD: u32 = 8;

/// Progress of the one-off rocks-along-road pass: rocks still to place, candidate
/// spots tried, rocks placed.
#[derive(Debug, Clone, Copy, PartialEq, Eq, Structural)]
pub struct RocksPass {
    pub to_place: u32,
    pub attempts: u32,
    pub placed: u32,
}

/// Rocks the pass owes: the shortfall to `min_rocks`, taken as a signed 32-bit count;
/// a shortfall beyond that range reads as negative, and then nothing is owed.
pub open spec fn spec_rocks_owed(min_rocks: u32, corridor_count: u32) -> u32 {
    let shortfall: int = if corridor_count >= min_rocks { 0 } else { min_rocks - corridor_count };
    if shortfall <= 0x7FFF_FFFF { shortfall as u32 } else { 0 }
}

/// The pass before any spot is tried.
pub open spec fn spec_start_pass(min_rocks: u32, corridor_count: u32) -> RocksPass {
    RocksPass { to_place: spec_rocks_owed(min_rocks, corridor_count), attempts: 0, placed: 0 }
}

/// The pass after one tried spot; an accepted spot places a rock.
pub open spec fn spec_record(s: RocksPass, accepted: bool) -> RocksPass {
    if accepted {
        RocksPass {
            to_place: (s.to_place - 1) as u32,
            attempts: (s.attempts + 1) as u32,
            placed: (s.placed + 1) as u32,
        }
    } else {
        RocksPass { attempts: (s.attempts + 1) as u32, ..s }
    }
}

/// The pass after trying spots with the given outcomes in turn, for as long as it
/// wants another attempt; outcomes beyond that are not used.
pub open spec fn spec_run(s: RocksPass, outcomes: Seq<bool>) -> RocksPass
    decreases outcomes.len(),
{
    if outcomes.len() == 0 || !s.spec_wants_attempt() {
        s
    } else {
        spec_run(spec_record(s, outcomes[0]), outcomes.drop_first())
    }
}

impl RocksPass {
    /// The pass places exactly what it still owes of `shortfall`, within the attempt
    /// budget, and never more rocks than spots tried.
    pub open spec fn wf(&self, shortfall: u32) -> bool {
        &&& self.placed + self.to_place == shortfall
        &&& self.attempts <= MAX_ROCK_ATTEMPTS
        &&& self.placed <= self.attempts
    }

    /// Another candidate spot is tried while rocks are owed and the budget lasts.
    pub open spec fn spec_wants_attempt(&self) -> bool {
        self.to_place > 0 && self.attempts < MAX_ROCK_ATTEMPTS
    }

    /// Start the pass for a corridor that holds `corridor_count` rocks: it owes the
    /// shortfall to `min_rocks` (see `spec_rocks_owed`) and has tried nothing yet.
    pub fn new(min_rocks: u32, corridor_count: u32) -> (s: Self)
        ensures
            s == spec_start_pass(min_rocks, corridor_count),
            s.wf(s.to_place),
    {
        let shortfall = rocks_to_place(min_rocks, corridor_count);
        let owed = if shortfall <= 0x7FFF_FFFFu32 { shortfall } else { 0 };
        RocksPass { to_place: owed, attempts: 0, placed: 0 }
    }

    /// Whether another candidate spot should be tried.
    pub fn wants_attempt(&self) -> (b: bool)
        ensures
            b == self.spec_wants_attempt(),
    {
        self.to_place > 0 && self.attempts < MAX_ROCK_ATTEMPTS
    }

    /// Record one tried spot; an accepted spot places a rock.
    pub fn record_attempt(&mut self, accepted: bool)
        requires
            old(self).spec_wants_attempt(),
            old(self).placed <= old(self).attempts,
        ensures
            *final(self) == spec_record(*old(self), accepted),
    {
        self.attempts = self.attempts + 1;
        if accepted {
            self.to_place = self.to_place - 1;
            self.placed = self.placed + 1;
        }
    }
}

/// The pass runs once: only while the rule is enabled, before it has been applied,
/// and when there is a road of at least two waypoints to place along.
pub fn rocks_pass_should_run(enabled: bool, applied: bool, road_points: usize) -> (b: bool)
    ensures
        b == (enabled && !applied && road_points >= 2),
{
    enabled && !applied && road_points >= 2
}

/// Whatever spots are accepted, every step of the rocks pass keeps it well formed:
/// it never places more than the shortfall and never tries more than the budget.
pub proof fn law_rocks_pass_bounded(s: RocksPass, shortfall: u32, accepted: bool)
    requires
        s.wf(shortfall),
        s.spec_wants_attempt(),
    ensures
        spec_record(s, accepted).wf(shortfall),
        spec_record(s, accepted).placed <= shortfall,
        spec_record(s, accepted).attempts <= MAX_ROCK_ATTEMPTS,
{
}

proof fn lemma_run_wf(s: RocksPass, shortfall: u32, outcomes: Seq<bool>)
    requires
        s.wf(shortfall),
    ensures
        spec_run(s, outcomes).wf(shortfall),
        spec_run(s, outcomes).attempts >= s.attempts,
        outcomes.len() >= MAX_ROCK_ATTEMPTS - s.attempts ==> !spec_run(s, outcomes).spec_wants_attempt(),
    decreases outcomes.len(),
{
    if outcomes.len() > 0 && s.spec_wants_attempt() {
        lemma_run_wf(spec_record(s, outcomes[0]), shortfall, outcomes.drop_first());
    }
}

/// A whole run of the rocks pass, whatever spots are accepted: it places at most the
/// rocks owed (the shortfall, or none when the shortfall exceeds the signed 32-bit
/// range), never more than it tried, tries at most the budget of spots, and after the
/// budget's worth of outcomes it wants no further attempt.
pub proof fn law_rocks_pass_run(min_rocks: u32, corridor_count: u32, outcomes: Seq<bool>)
    ensures
        ({
            let t = spec_run(spec_start_pass(min_rocks, corridor_count), outcomes);
            &&& t.placed + t.to_place == spec_rocks_owed(min_rocks, corridor_count)
            &&& t.placed <= (if corridor_count >= min_rocks { 0 } else { min_rocks - corridor_count })
            &&& t.placed <= t.attempts <= MAX_ROCK_ATTEMPTS
            &&& outcomes.len() >= MAX_ROCK_ATTEMPTS ==> !t.spec_wants_attempt()
        }),
{
    let s0 = spec_start_pass(min_rocks, corridor_count);
    lemma_run_wf(s0, spec_rocks_owed(min_rocks, corridor_count), outcomes);
}

} // verus!
