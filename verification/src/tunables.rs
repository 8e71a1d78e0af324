//! Whole-number tunables of the game rules.
use vstd::prelude::*;
use crate::streaming::ChunkConfig;

verus! {

/// Default deterministic world seed.
pub const C_WORLD_SEED: u64 = 0xC0FFEE;
/// Chunks kept active around the player (a 5x5 square).
pub const C_CHUNKS_ACTIVE_RADIUS: i32 = 2;
/// Extra radius kept loaded to avoid thrashing.
pub const C_CHUNKS_HYSTERESIS: i32 = 1;
pub const C_CHUNKS_LOADS_PER_FRAME: usize = 2;
pub const C_CHUNKS_UNLOADS_PER_FRAME: usize = 4;
pub const C_VILLAGE_HEALTH: u32 = 200;
pub const C_ENEMY_DEFAULT_HEALTH: u32 = 60;
pub const C_WAVE_BASE_ENEMY_COUNT: u32 = 10;
pub const C_WAVE_ENEMY_INCREMENT: u32 = 2;
pub const C_WAVE_HEALTH_BONUS_PER_TIER: u32 = 15;
pub const C_TOWER_COST_WOOD: u32 = 5;
pub const C_TOWER_COST_ROCK: u32 = 1;
pub const C_TREES_COUNT: u32 = 100;
pub const C_TREE_WOOD_MIN: u32 = 20;
pub const C_TREE_WOOD_MAX: u32 = 60;
pub const C_ROCKS_COUNT: u32 = 50;
pub const C_WINDOW_RESOLUTION: (u32, u32) = (1920, 1080);

/// Tunable whole numbers that control the game rules.
#[derive(Debug, Clone, Copy)]
pub struct Tunables {
    pub window_resolution: (u32, u32),
    pub world_seed: u64,
    pub chunks_active_radius: i32,
    pub chunks_hysteresis: i32,
    pub chunks_loads_per_frame: usize,
    pub chunks_unloads_per_frame: usize,
    pub village_health: u32,
    pub enemy_default_health: u32,
    pub wave_base_enemy_count: u32,
    pub wave_enemy_increment: u32,
    pub wave_health_bonus_per_tier: u32,
    pub tower_cost_wood: u32,
    pub tower_cost_rock: u32,
    pub trees_count: u32,
    pub tree_wood_min: u32,
    pub tree_wood_max: u32,
    pub rocks_count: u32,
}

impl Default for Tunables {
    fn default() -> (t: Self)
        ensures
            t == (Tunables {
                window_resolution: C_WINDOW_RESOLUTION,
                world_seed: C_WORLD_SEED,
                chunks_active_radius: C_CHUNKS_ACTIVE_RADIUS,
                chunks_hysteresis: C_CHUNKS_HYSTERESIS,
                chunks_loads_per_frame: C_CHUNKS_LOADS_PER_FRAME,
                chunks_unloads_per_frame: C_CHUNKS_UNLOADS_PER_FRAME,
                village_health: C_VILLAGE_HEALTH,
                enemy_default_health: C_ENEMY_DEFAULT_HEALTH,
                wave_base_enemy_count: C_WAVE_BASE_ENEMY_COUNT,
                wave_enemy_increment: C_WAVE_ENEMY_INCREMENT,
                wave_health_bonus_per_tier: C_WAVE_HEALTH_BONUS_PER_TIER,
                tower_cost_wood: C_TOWER_COST_WOOD,
                tower_cost_rock: C_TOWER_COST_ROCK,
                trees_count: C_TREES_COUNT,
                tree_wood_min: C_TREE_WOOD_MIN,
                tree_wood_max: C_TREE_WOOD_MAX,
                rocks_count: C_ROCKS_COUNT,
            }),
    {
        Tunables {
            window_resolution: C_WINDOW_RESOLUTION,
            world_seed: C_WORLD_SEED,
            chunks_active_radius: C_CHUNKS_ACTIVE_RADIUS,
            chunks_hysteresis: C_CHUNKS_HYSTERESIS,
            chunks_loads_per_frame: C_CHUNKS_LOADS_PER_FRAME,
            chunks_unloads_per_frame: C_CHUNKS_UNLOADS_PER_FRAME,
            village_health: C_VILLAGE_HEALTH,
            enemy_default_health: C_ENEMY_DEFAULT_HEALTH,
            wave_base_enemy_count: C_WAVE_BASE_ENEMY_COUNT,
            wave_enemy_increment: C_WAVE_ENEMY_INCREMENT,
            wave_health_bonus_per_tier: C_WAVE_HEALTH_BONUS_PER_TIER,
            tower_cost_wood: C_TOWER_COST_WOOD,
            tower_cost_rock: C_TOWER_COST_ROCK,
            trees_count: C_TREES_COUNT,
            tree_wood_min: C_TREE_WOOD_MIN,
            tree_wood_max: C_TREE_WOOD_MAX,
            rocks_count: C_ROCKS_COUNT,
        }
    }
}

impl Tunables {
    /// The chunk streaming limits these tunables start with.
    pub fn chunk_config(&self) -> (c: ChunkConfig)
        ensures
            c == (ChunkConfig {
                active_radius: self.chunks_active_radius,
                hysteresis: self.chunks_hysteresis,
                max_loads_per_frame: self.chunks_loads_per_frame,
                max_unloads_per_frame: self.chunks_unloads_per_frame,
            }),
    {
        ChunkConfig {
            active_radius: self.chunks_active_radius,
            hysteresis: self.chunks_hysteresis,
            max_loads_per_frame: self.chunks_loads_per_frame,
            max_unloads_per_frame: self.chunks_unloads_per_frame,
        }
    }
}

} // verus!
