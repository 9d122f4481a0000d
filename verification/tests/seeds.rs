use galaxy::seeds::{
    arm_count, arm_perlin, arm_rng, arm_seed, arm_seeds, core_rng, core_seed, galaxy_rng,
    perlin_seed, splitmix64,
};
use noise::Seedable;
use rand_chacha::rand_core::{RngCore, SeedableRng};

#[test]
fn splitmix64_known_values() {
    assert_eq!(splitmix64(0), 0xe220a8397b1dcdaf);
    assert_eq!(splitmix64(1), 0x910a2dec89025cc1);
    assert_eq!(splitmix64(42), 13679457532755275413);
    assert_eq!(splitmix64(u64::MAX), 0xe4d971771b652c20);
}

#[test]
fn arm_seed_advances_the_galaxy_seed() {
    assert_eq!(arm_seed(42, 0), splitmix64(42));
    assert_eq!(arm_seed(42, 1), 13432527470776545160);
    assert_eq!(arm_seed(42, 2), 18105923034897077331);
    // wrapping at the top of the u64 range
    assert_eq!(arm_seed(u64::MAX, 1), splitmix64(0));
}

#[test]
fn arm_seeds_are_distinct() {
    let s = arm_seeds(42, 5);
    assert_eq!(s.len(), 5);
    for i in 0..5 {
        assert_eq!(s[i], arm_seed(42, i));
        for j in 0..i {
            assert_ne!(s[i], s[j]);
        }
    }
}

#[test]
fn zero_arms_means_one_arm() {
    assert_eq!(arm_count(0), 1);
    assert_eq!(arm_count(3), 3);
    assert_eq!(arm_seeds(7, 0), vec![arm_seed(7, 0)]);
}

#[test]
fn perlin_seed_keeps_low_bits() {
    assert_eq!(perlin_seed(0x1234_5678_9abc_def0), 0x9abc_def0);
    assert_eq!(perlin_seed(splitmix64(42)), 803958421);
    assert_eq!(perlin_seed(u64::MAX), u32::MAX);
}

#[test]
fn core_seed_uses_its_own_offset() {
    assert_eq!(core_seed(42), 16504461143617745805);
    assert_ne!(core_seed(42), arm_seed(42, 0));
}

#[test]
fn generators_follow_their_seeds() {
    let mut a = arm_rng(42, 1);
    let mut b = rand_chacha::ChaCha8Rng::seed_from_u64(arm_seed(42, 1));
    assert_eq!(a.next_u64(), b.next_u64());
    let mut g = galaxy_rng(42);
    let mut h = rand_chacha::ChaCha8Rng::seed_from_u64(42);
    assert_eq!(g.next_u64(), h.next_u64());
    let mut c = core_rng(42);
    let mut d = rand_chacha::ChaCha8Rng::seed_from_u64(core_seed(42));
    assert_eq!(c.next_u64(), d.next_u64());
    let p = arm_perlin(42, 0);
    assert_eq!(p.seed(), perlin_seed(arm_seed(42, 0)));
}
