//! Seed mixing and per-chunk seeded counts.
use vstd::prelude::*;

verus! {

/// First additive constant of the seed mixer (golden-ratio bits).
pub const MIX_K0: u64 = 0x9E37_79B9_7F4A_7C15u64;

/// Multiplier applied to the first counter.
pub const MIX_K1: u64 = 0xC2B2_AE3D_27D4_EB4Fu64;

/// Multiplier applied to the second counter.
pub const MIX_K2: u64 = 0x1656_67B1_9E37_79F9u64;

/// 64-bit multiplication modulo 2^64.
pub open spec fn wmul(x: u64, y: u64) -> u64 {
    ((x as nat * y as nat) % 0x1_0000_0000_0000_0000nat) as u64
}

/// Rotation of a 64-bit word left by 27 bits.
pub open spec fn rotl27(h: u64) -> u64 {
    (h << 27u64) | (h >> 37u64)
}

/// The seed mixer: a base seed combined with two 64-bit counters.
pub open spec fn spec_derive_seed(base: u64, a: u64, b: u64) -> u64 {
    let h1 = base ^ MIX_K0;
    let h2 = h1 ^ wmul(a, MIX_K1);
    let h3 = rotl27(h2) ^ (h2 >> 33u64);
    let h4 = h3 ^ wmul(b, MIX_K2);
    h4 ^ (h4 >> 29u64)
}

fn rotate_left_27(h: u64) -> (r: u64)
    ensures
        r == rotl27(h),
{
    (h << 27u64) | (h >> 37u64)
}

/// Mix a base seed with two counters for derived deterministic seeds.
pub fn derive_seed(base: u64, a: u64, b: u64) -> (r: u64)
    ensures
        r == spec_derive_seed(base, a, b),
{
    let mut h = base ^ MIX_K0;
    h = h ^ a.wrapping_mul(MIX_K1);
    h = rotate_left_27(h) ^ (h >> 33u64);
    h = h ^ b.wrapping_mul(MIX_K2);
    h ^ (h >> 29u64)
}

/// The coordinate hash: a seed combined with two signed 32-bit coordinates,
/// each sign-extended to 64 bits before it is multiplied.
pub open spec fn spec_hash_combine(seed: u64, x: i32, z: i32) -> u64 {
    spec_derive_seed(seed, x as u64, z as u64)
}

/// Combine a seed with 2D integer coordinates into a 64-bit seed.
pub fn hash_combine(seed: u64, x: i32, z: i32) -> (r: u64)
    ensures
        r == spec_hash_combine(seed, x, z),
{
    let xs: u64 = x as u64;
    let zs: u64 = z as u64;
    let mut h = seed ^ MIX_K0;
    h = h ^ xs.wrapping_mul(MIX_K1);
    h = rotate_left_27(h) ^ (h >> 33u64);
    h = h ^ zs.wrapping_mul(MIX_K2);
    h ^ (h >> 29u64)
}


/// Key multiplied by the golden-ratio constant to derive the road generator's seed.
pub const ROAD_SEED_KEY: u64 = 0xD00Du64;

/// Seed of the road generator: the world seed mixed with `ROAD_SEED_KEY * MIX_K0`
/// (modulo 2^64).
pub open spec fn spec_road_seed(world_seed: u64) -> u64 {
    world_seed ^ wmul(ROAD_SEED_KEY, MIX_K0)
}

/// The seed the road generator is seeded with when roads are seeded.
pub fn road_seed(world_seed: u64) -> (r: u64)
    ensures
        r == spec_road_seed(world_seed),
{
    world_seed ^ ROAD_SEED_KEY.wrapping_mul(MIX_K0)
}

/// Key mixed into the world seed before deriving a chunk's resource count.
pub const RESOURCE_COUNT_KEY: u64 = 0x1234_5678_9ABC_DEF0u64;

/// Multiplier of the xorshift64* output step.
pub const XORSHIFT_STAR_MUL: u64 = 0x2545_F491_4F6C_DD1Du64;

/// Smallest resource count a chunk can get.
pub const MIN_CHUNK_RESOURCES: u32 = 250;

/// Number of distinct resource counts a chunk can get.
pub const CHUNK_RESOURCE_SPAN: u32 = 26;

/// One xorshift64* scramble of a state word.
pub open spec fn spec_xorshift_star(s0: u64) -> u64 {
    let s1 = s0 ^ (s0 >> 12u64);
    let s2 = s1 ^ (s1 << 25u64);
    let s3 = s2 ^ (s2 >> 27u64);
    wmul(s3, XORSHIFT_STAR_MUL)
}

/// The per-chunk resource count derived from the world seed by the xorshift rule.
pub open spec fn spec_chunk_resource_count(world_seed: u64, chunk_x: i32, chunk_z: i32) -> u32 {
    let seed = spec_hash_combine(world_seed ^ RESOURCE_COUNT_KEY, chunk_x, chunk_z);
    (MIN_CHUNK_RESOURCES + (spec_xorshift_star(seed) as u32) % CHUNK_RESOURCE_SPAN) as u32
}

fn xorshift_star(s0: u64) -> (r: u64)
    ensures
        r == spec_xorshift_star(s0),
{
    let mut s = s0;
    s = s ^ (s >> 12u64);
    s = s ^ (s << 25u64);
    s = s ^ (s >> 27u64);
    s.wrapping_mul(XORSHIFT_STAR_MUL)
}

/// Deterministically generate a per-chunk resource count based on world seed and
/// chunk coordinates; the value lies in `[250, 275]`.
pub fn generate_chunk_resource_count(world_seed: u64, chunk_x: i32, chunk_z: i32) -> (r: u32)
    ensures
        r == spec_chunk_resource_count(world_seed, chunk_x, chunk_z),
        MIN_CHUNK_RESOURCES <= r < MIN_CHUNK_RESOURCES + CHUNK_RESOURCE_SPAN,
{
    let resource_seed = hash_combine(world_seed ^ RESOURCE_COUNT_KEY, chunk_x, chunk_z);
    let val = xorshift_star(resource_seed);
    MIN_CHUNK_RESOURCES + ((val as u32) % CHUNK_RESOURCE_SPAN)
}

/// Hashing a coordinate pair is deriving a seed from the two coordinates,
/// sign-extended to 64 bits.
pub proof fn law_hash_combine_is_derive_seed(seed: u64, x: i32, z: i32)
    ensures
        spec_hash_combine(seed, x, z) == spec_derive_seed(seed, x as u64, z as u64),
{
}


/// Inverse of `MIX_K1` modulo 2^64.
pub const MIX_K1_INV: u64 = 0x0BA7_9078_168D_4BAFu64;

/// Inverse of `MIX_K2` modulo 2^64.
pub const MIX_K2_INV: u64 = 0xE9E9_F4C4_1D6D_F849u64;

/// Multiplying by `k` and then by its inverse modulo 2^64 gives the word back.
proof fn lemma_wmul_cancel(a: u64, k: u64, kinv: u64)
    requires
        (k as int * kinv as int) % 0x1_0000_0000_0000_0000int == 1,
    ensures
        wmul(wmul(a, k), kinv) == a,
{
    let m: int = 0x1_0000_0000_0000_0000int;
    let ak: int = a as int * k as int;
    assert(wmul(a, k) == ak % m);
    vstd::arithmetic::div_mod::lemma_mul_mod_noop_left(ak, kinv as int, m);
    vstd::arithmetic::mul::lemma_mul_is_associative(a as int, k as int, kinv as int);
    vstd::arithmetic::div_mod::lemma_mul_mod_noop_right(a as int, k as int * kinv as int, m);
    vstd::arithmetic::div_mod::lemma_small_mod(a as nat, m as nat);
    assert(wmul(wmul(a, k), kinv) == ((ak % m) * kinv as int) % m);
}

/// Multiplication modulo 2^64 by either counter multiplier is one to one.
proof fn lemma_wmul_mix_injective(a1: u64, a2: u64)
    ensures
        wmul(a1, MIX_K1) == wmul(a2, MIX_K1) ==> a1 == a2,
        wmul(a1, MIX_K2) == wmul(a2, MIX_K2) ==> a1 == a2,
{
    let m: int = 0x1_0000_0000_0000_0000int;
    assert(MIX_K1 as int * MIX_K1_INV as int == m * 638699622168397319int + 1);
    assert(MIX_K2 as int * MIX_K2_INV as int == m * 1470722560960728959int + 1);
    vstd::arithmetic::div_mod::lemma_mod_multiples_vanish(638699622168397319int, 1, m);
    vstd::arithmetic::div_mod::lemma_mod_multiples_vanish(1470722560960728959int, 1, m);
    lemma_wmul_cancel(a1, MIX_K1, MIX_K1_INV);
    lemma_wmul_cancel(a2, MIX_K1, MIX_K1_INV);
    lemma_wmul_cancel(a1, MIX_K2, MIX_K2_INV);
    lemma_wmul_cancel(a2, MIX_K2, MIX_K2_INV);
}

/// The rotate-and-shift step of the mixer is one to one.
proof fn lemma_rotate_step_injective(h1: u64, h2: u64)
    ensures
        (rotl27(h1) ^ (h1 >> 33u64)) == (rotl27(h2) ^ (h2 >> 33u64)) ==> h1 == h2,
{
    assert(((h1 << 27u64) | (h1 >> 37u64)) ^ (h1 >> 33u64) == ((h2 << 27u64) | (h2 >> 37u64)) ^ (h2 >> 33u64)
        ==> h1 == h2) by (bit_vector);
}

/// The final xorshift step of the mixer is one to one.
proof fn lemma_final_step_injective(h1: u64, h2: u64)
    ensures
        (h1 ^ (h1 >> 29u64)) == (h2 ^ (h2 >> 29u64)) ==> h1 == h2,
{
    assert((h1 ^ (h1 >> 29u64)) == (h2 ^ (h2 >> 29u64)) ==> h1 == h2) by (bit_vector);
}

/// Mixing in a word by exclusive or is one to one.
proof fn lemma_xor_injective(h1: u64, h2: u64, c: u64)
    ensures
        (h1 ^ c) == (h2 ^ c) ==> h1 == h2,
{
    assert((h1 ^ c) == (h2 ^ c) ==> h1 == h2) by (bit_vector);
}

/// With the other two arguments fixed, the seed mixer is one to one in each argument:
/// different bases, different first counters or different second counters give
/// different seeds.
pub proof fn law_derive_seed_injective(base1: u64, base2: u64, a1: u64, a2: u64, b1: u64, b2: u64)
    ensures
        base1 != base2 ==> spec_derive_seed(base1, a1, b1) != spec_derive_seed(base2, a1, b1),
        a1 != a2 ==> spec_derive_seed(base1, a1, b1) != spec_derive_seed(base1, a2, b1),
        b1 != b2 ==> spec_derive_seed(base1, a1, b1) != spec_derive_seed(base1, a1, b2),
{
    lemma_wmul_mix_injective(a1, a2);
    lemma_wmul_mix_injective(b1, b2);
    // base
    let p1 = base1 ^ MIX_K0;
    let p2 = base2 ^ MIX_K0;
    lemma_xor_injective(base1, base2, MIX_K0);
    let q1 = p1 ^ wmul(a1, MIX_K1);
    let q2 = p2 ^ wmul(a1, MIX_K1);
    lemma_xor_injective(p1, p2, wmul(a1, MIX_K1));
    let r1 = rotl27(q1) ^ (q1 >> 33u64);
    let r2 = rotl27(q2) ^ (q2 >> 33u64);
    lemma_rotate_step_injective(q1, q2);
    let s1 = r1 ^ wmul(b1, MIX_K2);
    let s2 = r2 ^ wmul(b1, MIX_K2);
    lemma_xor_injective(r1, r2, wmul(b1, MIX_K2));
    lemma_final_step_injective(s1, s2);
    // first counter
    let qa2 = p1 ^ wmul(a2, MIX_K1);
    lemma_xor_injective(wmul(a1, MIX_K1), wmul(a2, MIX_K1), p1);
    assert(q1 == wmul(a1, MIX_K1) ^ p1) by (bit_vector)
        requires q1 == p1 ^ wmul(a1, MIX_K1);
    assert(qa2 == wmul(a2, MIX_K1) ^ p1) by (bit_vector)
        requires qa2 == p1 ^ wmul(a2, MIX_K1);
    let ra2 = rotl27(qa2) ^ (qa2 >> 33u64);
    lemma_rotate_step_injective(q1, qa2);
    let sa2 = ra2 ^ wmul(b1, MIX_K2);
    lemma_xor_injective(r1, ra2, wmul(b1, MIX_K2));
    lemma_final_step_injective(s1, sa2);
    // second counter
    let sb2 = r1 ^ wmul(b2, MIX_K2);
    lemma_xor_injective(wmul(b1, MIX_K2), wmul(b2, MIX_K2), r1);
    assert(s1 == wmul(b1, MIX_K2) ^ r1) by (bit_vector)
        requires s1 == r1 ^ wmul(b1, MIX_K2);
    assert(sb2 == wmul(b2, MIX_K2) ^ r1) by (bit_vector)
        requires sb2 == r1 ^ wmul(b2, MIX_K2);
    lemma_final_step_injective(s1, sb2);
}

/// Sign-extending a 32-bit coordinate to 64 bits keeps different coordinates apart.
proof fn lemma_sign_extend_injective(x1: i32, x2: i32)
    ensures
        x1 != x2 ==> (x1 as u64) != (x2 as u64),
{
    assert(x1 != x2 ==> (x1 as u64) != (x2 as u64)) by (bit_vector);
}

/// Chunks in the same row, or in the same column, never share a seed: with the seed
/// and one coordinate fixed, the coordinate hash is one to one in the other.
pub proof fn law_hash_combine_injective(seed: u64, x1: i32, x2: i32, z1: i32, z2: i32)
    ensures
        x1 != x2 ==> spec_hash_combine(seed, x1, z1) != spec_hash_combine(seed, x2, z1),
        z1 != z2 ==> spec_hash_combine(seed, x1, z1) != spec_hash_combine(seed, x1, z2),
{
    lemma_sign_extend_injective(x1, x2);
    lemma_sign_extend_injective(z1, z2);
    law_derive_seed_injective(seed, seed, x1 as u64, x2 as u64, z1 as u64, z2 as u64);
}

} // verus!
