//! Draws from the `rand` crate, and the rules that consume them.
use vstd::prelude::*;
use rand::rngs::{StdRng, ThreadRng};
use rand::{Rng, SeedableRng};
use crate::seeds::{hash_combine, spec_hash_combine, MIN_CHUNK_RESOURCES, CHUNK_RESOURCE_SPAN, RESOURCE_COUNT_KEY};

verus! {

#[verifier::external_type_specification]
#[verifier::external_body]
pub struct ExStdRng(StdRng);

#[verifier::external_type_specification]
#[verifier::external_body]
pub struct ExThreadRng(ThreadRng);

/// The first `u32` drawn from a `StdRng` seeded with `seed`.
pub uninterp spec fn seeded_first_u32(seed: u64) -> u32;

/// Calls `StdRng::seed_from_u64(seed)` and then `Rng::random::<u32>()` once.
/// In the locked `rand` version `StdRng` wraps `rand_chacha`'s ChaCha12 generator,
/// which that crate documents as deterministic and portable, so the value is a pure
/// function of the seed and is named. (`rand` itself calls `StdRng` non-portable
/// across its versions: a later version may change the algorithm and these values.)
#[verifier::external_body]
fn first_u32_from_seed(seed: u64) -> (r: u32)
    ensures
        r == seeded_first_u32(seed),
{
    let mut rng = StdRng::seed_from_u64(seed);
    rng.random::<u32>()
}

/// Calls `Rng::random::<u32>()` on a seeded generator. The value depends on the
/// generator's hidden state, so nothing is stated of it.
#[verifier::external_body]
fn draw_u32_seeded(rng: &mut StdRng) -> (r: u32) {
    rng.random::<u32>()
}

/// Calls `Rng::random::<u32>()` on the thread-local generator; nothing is stated
/// of the value.
#[verifier::external_body]
fn draw_u32_thread(rng: &mut ThreadRng) -> (r: u32) {
    rng.random::<u32>()
}

/// Calls `Rng::random_range(0..n)` on a seeded generator. The crate samples
/// uniformly from the half-open range and panics only when it is empty.
#[verifier::external_body]
fn draw_below_seeded(rng: &mut StdRng, n: i32) -> (r: i32)
    requires
        n > 0,
    ensures
        0 <= r < n,
{
    rng.random_range(0..n)
}

/// Calls `rand::random::<u64>()` (the thread-local generator); nothing is stated
/// of the value.
#[verifier::external_body]
pub(crate) fn fresh_random_u64() -> (r: u64) {
    rand::random::<u64>()
}

/// Calls `rand::random::<u8>()` (the thread-local generator); nothing is stated
/// of the value.
#[verifier::external_body]
pub(crate) fn fresh_random_u8() -> (r: u8) {
    rand::random::<u8>()
}

/// The seed a seeded-or-fresh generator starts from: the given seed when the system is
/// seeded, otherwise a fresh draw from the thread-local generator.
pub fn generator_seed(seeded: bool, seed: u64) -> (r: u64)
    ensures
        seeded ==> r == seed,
{
    if seeded {
        seed
    } else {
        fresh_random_u64()
    }
}

/// Draw a `u32` from the seeded generator when `seeded`, else from the thread generator.
/// The generator that is not chosen is left untouched.
pub fn pick_u32(seeded: bool, seeded_rng: &mut StdRng, thread_rng: &mut ThreadRng) -> (r: u32)
    ensures
        seeded ==> *final(thread_rng) == *old(thread_rng),
        !seeded ==> *final(seeded_rng) == *old(seeded_rng),
{
    if seeded {
        draw_u32_seeded(seeded_rng)
    } else {
        draw_u32_thread(thread_rng)
    }
}

/// Resource count of a chunk drawn from a generator seeded by the world seed and
/// the chunk coordinates: `250 + first_draw % 26`, in `[250, 275]`.
pub open spec fn spec_seeded_chunk_resource_count(world_seed: u64, chunk_x: i32, chunk_z: i32) -> u32 {
    let seed = spec_hash_combine(world_seed ^ RESOURCE_COUNT_KEY, chunk_x, chunk_z);
    (MIN_CHUNK_RESOURCES + seeded_first_u32(seed) % CHUNK_RESOURCE_SPAN) as u32
}

/// Generate a deterministic resource count for a chunk from a seeded generator;
/// reproducible for the same seed and chunk, between 250 and 275 inclusive.
pub fn seeded_chunk_resource_count(world_seed: u64, chunk_x: i32, chunk_z: i32) -> (r: u32)
    ensures
        r == spec_seeded_chunk_resource_count(world_seed, chunk_x, chunk_z),
        MIN_CHUNK_RESOURCES <= r < MIN_CHUNK_RESOURCES + CHUNK_RESOURCE_SPAN,
{
    let resource_seed = hash_combine(world_seed ^ RESOURCE_COUNT_KEY, chunk_x, chunk_z);
    let draw = first_u32_from_seed(resource_seed);
    MIN_CHUNK_RESOURCES + (draw % CHUNK_RESOURCE_SPAN)
}

/// Side of the town wall that holds the exit gate.
#[derive(Debug, Clone, Copy, PartialEq, Eq)]
pub enum ExitSide {
    North,
    East,
    South,
    West,
}

/// The exit side for a roll in `0..4`: 0 north, 1 east, 2 south, anything else west.
pub open spec fn spec_exit_side_for_roll(roll: i32) -> ExitSide {
    if roll == 0 {
        ExitSide::North
    } else if roll == 1 {
        ExitSide::East
    } else if roll == 2 {
        ExitSide::South
    } else {
        ExitSide::West
    }
}

/// Map a roll to an exit side.
pub fn exit_side_for_roll(roll: i32) -> (side: ExitSide)
    ensures
        side == spec_exit_side_for_roll(roll),
{
    match roll {
        0 => ExitSide::North,
        1 => ExitSide::East,
        2 => ExitSide::South,
        _ => ExitSide::West,
    }
}

/// Choose a random exit side using the given RNG: one roll in `0..4`.
pub fn choose_exit_side(rng: &mut StdRng) -> (side: ExitSide)
    ensures
        exists|roll: i32| 0 <= roll < 4 && side == spec_exit_side_for_roll(roll),
{
    let roll = draw_below_seeded(rng, 4);
    exit_side_for_roll(roll)
}

} // verus!
