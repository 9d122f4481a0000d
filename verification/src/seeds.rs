//! Deterministic seed derivation (SplitMix64 finaliser) for the spiral arms
//! and the core bulge.

use rand_chacha::rand_core::SeedableRng;
use vstd::prelude::*;

verus! {

/// The ChaCha8 random generator of `rand_chacha`, used by the samplers.
#[verifier::external_type_specification]
#[verifier::external_body]
pub struct ExChaCha8Rng(rand_chacha::ChaCha8Rng);

/// The Perlin noise source of `noise`, used for the arm wiggles.
#[verifier::external_type_specification]
#[verifier::external_body]
pub struct ExPerlin(noise::Perlin);

/// 2^64, the modulus of all `u64` wrapping arithmetic.
pub open spec fn modulus64() -> int {
    0x1_0000_0000_0000_0000
}

/// Reduction of an integer into `u64` (arithmetic modulo 2^64).
pub open spec fn wrap64(v: int) -> u64 {
    (v % modulus64()) as u64
}

/// One xor-shift-multiply round of the SplitMix64 finaliser:
/// `(z ^ (z >> s)) * c mod 2^64`.
pub open spec fn xorshift_mul(z: u64, s: u64, c: u64) -> u64 {
    wrap64((z ^ (z >> s)) as int * c as int)
}

/// The SplitMix64 output function applied to `x`.
pub open spec fn spec_splitmix64(x: u64) -> u64 {
    let z0 = wrap64(x as int + 0x9e3779b97f4a7c15);
    let z1 = xorshift_mul(z0, 30, 0xbf58476d1ce4e5b9);
    let z2 = xorshift_mul(z1, 27, 0x94d049bb133111eb);
    z2 ^ (z2 >> 31u64)
}

/// SplitMix64 finaliser: a well-mixed 64-bit value derived from `x`.
pub fn splitmix64(x: u64) -> (r: u64)
    ensures
        r == spec_splitmix64(x),
{
    let x = x.wrapping_add(0x9e3779b97f4a7c15);
    let mut z = x;
    z = (z ^ (z >> 30)).wrapping_mul(0xbf58476d1ce4e5b9);
    z = (z ^ (z >> 27)).wrapping_mul(0x94d049bb133111eb);
    z ^ (z >> 31)
}

/// Offset added to the galaxy seed before deriving the core-bulge seed.
pub const CORE_SEED_OFFSET: u64 = 0x12345;

/// Number of spiral arms actually generated: at least one.
pub open spec fn spec_arm_count(arms: usize) -> usize {
    if arms == 0 { 1 } else { arms }
}

/// The seed of arm `i`: SplitMix64 of the galaxy seed advanced by `i`.
pub open spec fn spec_arm_seed(seed: u64, i: usize) -> u64 {
    spec_splitmix64(wrap64(seed as int + i as int))
}

/// The Perlin seed derived from an arm seed: its low 32 bits.
pub open spec fn spec_perlin_seed(arm_seed: u64) -> u32 {
    (arm_seed as int % 0x1_0000_0000) as u32
}

/// The seed of the core-bulge generator.
pub open spec fn spec_core_seed(seed: u64) -> u64 {
    spec_splitmix64(wrap64(seed as int + CORE_SEED_OFFSET as int))
}

/// Number of arms generated for a configured arm count (`max(arms, 1)`).
pub fn arm_count(arms: usize) -> (r: usize)
    ensures
        r == spec_arm_count(arms),
        arms >= 1 ==> r == arms,
        arms == 0 ==> r == 1,
{
    if arms == 0 { 1 } else { arms }
}

/// Deterministic per-arm seed for arm `i`.
pub fn arm_seed(seed: u64, i: usize) -> (r: u64)
    ensures
        r == spec_arm_seed(seed, i),
{
    splitmix64(seed.wrapping_add(i as u64))
}

/// Perlin seed for an arm: the low 32 bits of the arm seed.
pub fn perlin_seed(arm_seed: u64) -> (r: u32)
    ensures
        r == spec_perlin_seed(arm_seed),
{
    assert(arm_seed & 0xffff_ffffu64 == arm_seed % 0x1_0000_0000u64) by (bit_vector);
    (arm_seed & 0xffff_ffff) as u32
}

/// Seed of the generator that samples the core bulge.
pub fn core_seed(seed: u64) -> (r: u64)
    ensures
        r == spec_core_seed(seed),
{
    splitmix64(seed.wrapping_add(CORE_SEED_OFFSET))
}

/// Seeds of all arms, in arm order.
pub fn arm_seeds(seed: u64, arms: usize) -> (r: Vec<u64>)
    ensures
        r@.len() == spec_arm_count(arms),
        forall|i: int| 0 <= i < r@.len() ==> #[trigger] r@[i] == spec_arm_seed(seed, i as usize),
{
    let n = arm_count(arms);
    let mut out: Vec<u64> = Vec::new();
    let mut i: usize = 0;
    while i < n
        invariant
            i <= n,
            n == spec_arm_count(arms),
            out@.len() == i,
            forall|j: int| 0 <= j < i ==> #[trigger] out@[j] == spec_arm_seed(seed, j as usize),
        decreases n - i,
    {
        out.push(arm_seed(seed, i));
        i += 1;
    }
    out
}

/// The ChaCha8 generator that `ChaCha8Rng::seed_from_u64` builds from a
/// seed (its key is derived from the seed alone).
pub uninterp spec fn chacha_for_seed(seed: u64) -> rand_chacha::ChaCha8Rng;

/// The Perlin noise source that `Perlin::new` builds from a seed (its
/// permutation table is derived from the seed alone).
pub uninterp spec fn perlin_for_seed(seed: u32) -> noise::Perlin;

/// `ChaCha8Rng::seed_from_u64` (rand_core's `SeedableRng`): a generator whose
/// whole stream is fixed by `seed`. The result is named, not described: the
/// generator's state is opaque here.
#[verifier::external_body]
fn chacha_from_seed(seed: u64) -> (r: rand_chacha::ChaCha8Rng)
    ensures
        r == chacha_for_seed(seed),
{
    rand_chacha::ChaCha8Rng::seed_from_u64(seed)
}

/// `noise::Perlin::new`: a Perlin noise source fixed by `seed`. The result
/// is named, not described: its permutation table is opaque here.
#[verifier::external_body]
fn perlin_from_seed(seed: u32) -> (r: noise::Perlin)
    ensures
        r == perlin_for_seed(seed),
{
    noise::Perlin::new(seed)
}

/// The generator that drives the first sampling stage: seeded directly with
/// the galaxy seed.
pub fn galaxy_rng(seed: u64) -> (r: rand_chacha::ChaCha8Rng)
    ensures
        r == chacha_for_seed(seed),
{
    chacha_from_seed(seed)
}

/// The generator of arm `i`, seeded with the arm seed.
pub fn arm_rng(seed: u64, i: usize) -> (r: rand_chacha::ChaCha8Rng)
    ensures
        r == chacha_for_seed(spec_arm_seed(seed, i)),
{
    chacha_from_seed(arm_seed(seed, i))
}

/// The noise source of arm `i`, seeded with the low bits of the arm seed.
pub fn arm_perlin(seed: u64, i: usize) -> (r: noise::Perlin)
    ensures
        r == perlin_for_seed(spec_perlin_seed(spec_arm_seed(seed, i))),
{
    perlin_from_seed(perlin_seed(arm_seed(seed, i)))
}

/// The generator of the core bulge.
pub fn core_rng(seed: u64) -> (r: rand_chacha::ChaCha8Rng)
    ensures
        r == chacha_for_seed(spec_core_seed(seed)),
{
    chacha_from_seed(core_seed(seed))
}

/// Undoes `z ^ (z >> 30)` on 64-bit words.
proof fn lemma_unshift30(z: u64)
    ensures
        ({
            let y = z ^ (z >> 30u64);
            y ^ (y >> 30u64) ^ (y >> 60u64)
        }) == z,
{
    assert(({
        let y = z ^ (z >> 30u64);
        y ^ (y >> 30u64) ^ (y >> 60u64)
    }) == z) by (bit_vector);
}

/// Undoes `z ^ (z >> 27)` on 64-bit words.
proof fn lemma_unshift27(z: u64)
    ensures
        ({
            let y = z ^ (z >> 27u64);
            y ^ (y >> 27u64) ^ (y >> 54u64)
        }) == z,
{
    assert(({
        let y = z ^ (z >> 27u64);
        y ^ (y >> 27u64) ^ (y >> 54u64)
    }) == z) by (bit_vector);
}

/// Undoes `z ^ (z >> 31)` on 64-bit words.
proof fn lemma_unshift31(z: u64)
    ensures
        ({
            let y = z ^ (z >> 31u64);
            y ^ (y >> 31u64) ^ (y >> 62u64)
        }) == z,
{
    assert(({
        let y = z ^ (z >> 31u64);
        y ^ (y >> 31u64) ^ (y >> 62u64)
    }) == z) by (bit_vector);
}

/// Multiplying by `c` and then by `d` modulo 2^64 is the identity when
/// `c * d == k * 2^64 + 1`.
proof fn lemma_mul_inverse(a: u64, c: int, d: int, k: int)
    requires
        c * d == k * modulus64() + 1,
    ensures
        wrap64(wrap64(a as int * c) as int * d) == a,
{
    let m = modulus64();
    let p = a as int * c;
    assert(wrap64(p) as int == p % m);
    vstd::arithmetic::div_mod::lemma_mul_mod_noop_left(p, d, m);
    vstd::arithmetic::mul::lemma_mul_is_associative(a as int, c, d);
    assert(p * d == a as int * (k * m + 1));
    assert(a as int * (k * m + 1) == m * (a as int * k) + a as int) by (nonlinear_arith);
    vstd::arithmetic::div_mod::lemma_mod_multiples_vanish(a as int * k, a as int, m);
    vstd::arithmetic::div_mod::lemma_small_mod(a as nat, m as nat);
}

/// The inverse of the SplitMix64 output function.
pub open spec fn spec_unsplitmix64(r: u64) -> u64 {
    let z2 = r ^ (r >> 31u64) ^ (r >> 62u64);
    let y1 = wrap64(z2 as int * 0x319642b2d24d8ec3);
    let z1 = y1 ^ (y1 >> 27u64) ^ (y1 >> 54u64);
    let y0 = wrap64(z1 as int * 0x96de1b173f119089);
    let z0 = y0 ^ (y0 >> 30u64) ^ (y0 >> 60u64);
    wrap64(z0 as int + (modulus64() - 0x9e3779b97f4a7c15))
}

/// SplitMix64 is a bijection of `u64`: `spec_unsplitmix64` undoes it.
pub proof fn lemma_splitmix64_inverse(x: u64)
    ensures
        spec_unsplitmix64(spec_splitmix64(x)) == x,
{
    let m = modulus64();
    let z0 = wrap64(x as int + 0x9e3779b97f4a7c15);
    let y0 = z0 ^ (z0 >> 30u64);
    let z1 = wrap64(y0 as int * 0xbf58476d1ce4e5b9);
    let y1 = z1 ^ (z1 >> 27u64);
    let z2 = wrap64(y1 as int * 0x94d049bb133111eb);
    let r = z2 ^ (z2 >> 31u64);
    assert(r == spec_splitmix64(x));
    lemma_unshift31(z2);
    assert(0x94d049bb133111eb * 0x319642b2d24d8ec3 == 2077064247507883091 * m + 1);
    lemma_mul_inverse(y1, 0x94d049bb133111eb, 0x319642b2d24d8ec3, 2077064247507883091);
    lemma_unshift27(z1);
    assert(0xbf58476d1ce4e5b9 * 0x96de1b173f119089 == 8125545580553827436 * m + 1);
    lemma_mul_inverse(y0, 0xbf58476d1ce4e5b9, 0x96de1b173f119089, 8125545580553827436);
    lemma_unshift30(z0);
    if (x as int + 0x9e3779b97f4a7c15) < m {
        vstd::arithmetic::div_mod::lemma_small_mod((x as int + 0x9e3779b97f4a7c15) as nat, m as nat);
        vstd::arithmetic::div_mod::lemma_mod_add_multiples_vanish(x as int, m);
        vstd::arithmetic::div_mod::lemma_small_mod(x as nat, m as nat);
    } else {
        vstd::arithmetic::div_mod::lemma_mod_add_multiples_vanish(
            x as int + 0x9e3779b97f4a7c15 - m,
            m,
        );
        vstd::arithmetic::div_mod::lemma_small_mod(
            (x as int + 0x9e3779b97f4a7c15 - m) as nat,
            m as nat,
        );
        vstd::arithmetic::div_mod::lemma_small_mod(x as nat, m as nat);
    }
}

/// Distinct inputs give distinct SplitMix64 outputs.
pub proof fn lemma_splitmix64_injective(x: u64, y: u64)
    requires
        x != y,
    ensures
        spec_splitmix64(x) != spec_splitmix64(y),
{
    lemma_splitmix64_inverse(x);
    lemma_splitmix64_inverse(y);
}

/// Distinct arm indices receive distinct arm seeds.
pub proof fn lemma_arm_seeds_distinct(seed: u64, i: usize, j: usize)
    requires
        i != j,
    ensures
        spec_arm_seed(seed, i) != spec_arm_seed(seed, j),
{
    let m = modulus64();
    let a = wrap64(seed as int + i as int);
    let b = wrap64(seed as int + j as int);
    assert(a != b) by {
        assert(0 <= (seed as int + i as int) < 2 * m);
        assert(0 <= (seed as int + j as int) < 2 * m);
        if (seed as int + i as int) >= m {
            vstd::arithmetic::div_mod::lemma_mod_add_multiples_vanish(seed as int + i as int - m, m);
            vstd::arithmetic::div_mod::lemma_small_mod((seed as int + i as int - m) as nat, m as nat);
        } else {
            vstd::arithmetic::div_mod::lemma_small_mod((seed as int + i as int) as nat, m as nat);
        }
        if (seed as int + j as int) >= m {
            vstd::arithmetic::div_mod::lemma_mod_add_multiples_vanish(seed as int + j as int - m, m);
            vstd::arithmetic::div_mod::lemma_small_mod((seed as int + j as int - m) as nat, m as nat);
        } else {
            vstd::arithmetic::div_mod::lemma_small_mod((seed as int + j as int) as nat, m as nat);
        }
    }
    lemma_splitmix64_injective(a, b);
}


/// Arm count: a configured count of at least one is used as it is; only
/// zero arms becomes a single arm. So the count is never zero and never
/// exceeds `max(arms, 1)`.
pub proof fn lemma_arm_count_is_max_one(arms: usize)
    ensures
        arms >= 1 ==> spec_arm_count(arms) == arms,
        arms == 0 ==> spec_arm_count(arms) == 1,
        spec_arm_count(arms) >= 1,
        spec_arm_count(arms) >= arms,
        spec_arm_count(arms) <= arms + 1,
        spec_arm_count(arms) == arms || arms == 0,
{
}

/// One seed per generated arm: `arm_seeds(seed, arms)` yields `arms` seeds
/// when `arms >= 1`, and a single seed for zero arms.
pub proof fn lemma_arm_seeds_count(arms: usize)
    ensures
        arms >= 1 ==> spec_arm_count(arms) == arms,
        arms == 0 ==> spec_arm_count(arms) == 1,
{
    lemma_arm_count_is_max_one(arms);
}

} // verus!
