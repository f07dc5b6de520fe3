use tiny_prng::conversion::split64;
use tiny_prng::pcg::{
    PcgXshRr6432, PcgXshRs6432, PcgXslRr, PcgXslRr6432Mcg, PcgXslRrMcg, INCREMENT, INCREMENT128,
    MULTIPLIER, MULTIPLIER128,
};

const COUNT: usize = 100 * 1000;

fn half_open32(r: u32) -> f64 {
    (r as f64) * (1.0 / 4294967295.0)
}

fn closed32(r: u32) -> f64 {
    (r as f64) * (1.0 / 4294967296.0)
}

fn half_open64(r: u64) -> f64 {
    let c = split64(r);
    c.high as f64 * (1.0 / 4294967295.0) + c.low as f64 * (1.0 / 18446744073709551615.0)
}

fn closed64(r: u64) -> f64 {
    let c = split64(r);
    c.high as f64 * (1.0 / 4294967296.0) + c.low as f64 * (1.0 / 18446744073709551616.0)
}

fn in_range(lower: f64, upper: f64, v: f64) -> f64 {
    lower + (upper - lower) * v
}

fn centred32(sum: u32) -> bool {
    let real_delta = match sum > u32::MAX / 2 {
        true => sum - u32::MAX / 2,
        false => u32::MAX / 2 - sum,
    };
    real_delta < u32::MAX / 100
}

fn centred64(sum: u64) -> bool {
    let real_delta = match sum > u64::MAX / 2 {
        true => sum - u64::MAX / 2,
        false => u64::MAX / 2 - sum,
    };
    real_delta < u64::MAX / 100
}

fn centred(sum: f64) -> bool {
    let diff = match sum > 0.5 {
        true => sum - 0.5,
        false => 0.5 - sum,
    };
    diff < 1.0 / 100.0
}

fn centred_on_zero(sum: f64, count: usize) -> bool {
    let diff = match sum > 0.0 {
        true => sum / count as f64,
        false => -(sum / count as f64),
    };
    diff < 2000.0 / 100.0
}

#[test]
fn test_pcg_xsh_rr6432_avr100k() {
    let mut s = PcgXshRr6432::with_seed(0x1818729182367349);
    let mut sum = 0;
    for _ in 0..COUNT {
        sum += s.generate() / COUNT as u32;
    }
    assert!(centred32(sum));
}

#[test]
fn test_pcg_xsh_rr6432_real1_avr100k() {
    let mut p = PcgXshRr6432::with_seed(0x1818729182367349);
    let mut sum = 0.0;
    let max_count = 100 * COUNT;
    for _ in 0..max_count {
        sum += half_open32(p.generate()) / max_count as f64;
    }
    assert_eq!(true, centred(sum));
}

#[test]
fn test_pcg_xsh_rr6432_real2_avr100k() {
    let mut p = PcgXshRr6432::with_seed(0x1818729182367349);
    let mut sum = 0.0;
    for _ in 0..COUNT {
        sum += closed32(p.generate()) / COUNT as f64;
    }
    assert_eq!(true, centred(sum));
}

#[test]
fn test_pcg_xsh_rr6432_real_ranged_avr100k() {
    let mut p = PcgXshRr6432::with_seed(0x1818729182367349);
    let mut sum = 0.0;
    for _ in 0..COUNT {
        sum += in_range(-1000.0, 1000.0, half_open32(p.generate()));
    }
    assert_eq!(true, centred_on_zero(sum, COUNT));
}

#[test]
fn test_pcg_xsh_rs6432_avr100k() {
    let mut s = PcgXshRs6432::with_seed(0x1818729182367349);
    let mut sum = 0;
    for _ in 0..COUNT {
        sum += s.generate() / COUNT as u32;
    }
    assert!(centred32(sum));
}

#[test]
fn test_pcg_xsh_rs6432_real1_avr100k() {
    let mut p = PcgXshRs6432::with_seed(0x1818729182367349);
    let mut sum = 0.0;
    let max_count = 100 * COUNT;
    for _ in 0..max_count {
        sum += half_open32(p.generate()) / max_count as f64;
    }
    assert_eq!(true, centred(sum));
}

#[test]
fn test_pcg_xsh_rs6432_real2_avr100k() {
    let mut p = PcgXshRs6432::with_seed(0x2828729282367349);
    let mut sum = 0.0;
    for _ in 0..COUNT {
        sum += closed32(p.generate()) / COUNT as f64;
    }
    assert_eq!(true, centred(sum));
}

#[test]
fn test_pcg_xsh_rs6432_real_ranged_avr100k() {
    let mut p = PcgXshRs6432::with_seed(0x2828729282367349);
    let mut sum = 0.0;
    for _ in 0..COUNT {
        sum += in_range(-1000.0, 1000.0, half_open32(p.generate()));
    }
    assert_eq!(true, centred_on_zero(sum, COUNT));
}

#[test]
fn test_pcg_xsh_rr_avr100k_avr100k() {
    let mut s = PcgXslRr::with_seed(0x1818729182367349);
    let mut sum = 0;
    for _ in 0..COUNT {
        sum += s.generate() / COUNT as u64;
    }
    assert!(centred64(sum));
}

#[test]
fn test_pcg_xsh_rr_avr100k_real1_avr100k() {
    let mut p = PcgXslRr::with_seed(0x1818729182367349);
    let mut sum = 0.0;
    let max_count = 100 * COUNT;
    for _ in 0..max_count {
        sum += half_open64(p.generate()) / max_count as f64;
    }
    assert_eq!(true, centred(sum));
}

#[test]
fn test_pcg_xsh_rr_avr100k_real2_avr100k() {
    let mut p = PcgXslRr::with_seed(0x1818729182367349);
    let mut sum = 0.0;
    for _ in 0..COUNT {
        sum += closed64(p.generate()) / COUNT as f64;
    }
    assert_eq!(true, centred(sum));
}

#[test]
fn test_pcg_xsh_rr_avr100k_real_ranged_avr100k() {
    let mut p = PcgXslRr::with_seed(0x1818729182367349);
    let mut sum = 0.0;
    for _ in 0..COUNT {
        sum += in_range(-1000.0, 1000.0, half_open64(p.generate()));
    }
    assert_eq!(true, centred_on_zero(sum, COUNT));
}

#[test]
fn test_pcg_xsl_rr_mcg_avr100k() {
    let mut s = PcgXslRrMcg::with_seed(0x1818729182367349);
    let mut sum = 0;
    for _ in 0..COUNT {
        sum += s.generate() / COUNT as u64;
    }
    assert!(centred64(sum));
}

#[test]
fn test_pcg_xsl_rr_mcg_real1_avr100k() {
    let mut p = PcgXslRrMcg::with_seed(0x1818729182367349);
    let mut sum = 0.0;
    let max_count = 100 * COUNT;
    for _ in 0..max_count {
        sum += half_open64(p.generate()) / max_count as f64;
    }
    assert_eq!(true, centred(sum));
}

#[test]
fn test_pcg_xsl_rr_mcg_real2_avr100k() {
    let mut p = PcgXslRrMcg::with_seed(0x1818729182367349);
    let mut sum = 0.0;
    for _ in 0..COUNT {
        sum += closed64(p.generate()) / COUNT as f64;
    }
    assert_eq!(true, centred(sum));
}

#[test]
fn test_pcg_xsl_rr_mcg_real_ranged_avr100k() {
    let mut p = PcgXslRrMcg::with_seed(0x1818729182367349);
    let mut sum = 0.0;
    for _ in 0..COUNT {
        sum += in_range(-1000.0, 1000.0, half_open64(p.generate()));
    }
    assert_eq!(true, centred_on_zero(sum, COUNT));
}

#[test]
fn test_pcg_xsl_rr6432_mcg_avr100k() {
    let mut s = PcgXslRr6432Mcg::with_seed(0x1818729182367349);
    let mut sum = 0;
    for _ in 0..COUNT {
        sum += s.generate() / COUNT as u32;
    }
    assert!(centred32(sum));
}

#[test]
fn test_pcg_xsl_rr6432_mcg_real1_avr100k() {
    let mut p = PcgXslRr6432Mcg::with_seed(0x1818729182367349);
    let mut sum = 0.0;
    let max_count = 100 * COUNT;
    for _ in 0..max_count {
        sum += half_open32(p.generate()) / max_count as f64;
    }
    assert_eq!(true, centred(sum));
}

#[test]
fn test_pcg_xsl_rr6432_mcg_real2_avr100k() {
    let mut p = PcgXslRr6432Mcg::with_seed(0x1818729182367349);
    let mut sum = 0.0;
    for _ in 0..COUNT {
        sum += closed32(p.generate()) / COUNT as f64;
    }
    assert_eq!(true, centred(sum));
}

#[test]
fn test_pcg_xsl_rr6432_mcg_real_ranged_avr100k() {
    let mut p = PcgXslRr6432Mcg::with_seed(0x1818729182367349);
    let mut sum = 0.0;
    for _ in 0..COUNT {
        sum += in_range(-1000.0, 1000.0, half_open32(p.generate()));
    }
    assert_eq!(true, centred_on_zero(sum, COUNT));
}

#[test]
fn pcg_first_output_permutes_the_seed_itself() {
    let seed: u64 = 0x1818729182367349;
    // XSH-RR by hand: xor-shift by 18, keep bits 27 to 58, rotate right by
    // the top five bits of the seed.
    let x = seed ^ (seed >> 18);
    let rr = ((x >> 27) as u32).rotate_right((seed >> 59) as u32);
    assert_eq!(rr, 0x6061d25e);
    assert_eq!(PcgXshRr6432::with_seed(seed).generate(), rr);
    assert_eq!(PcgXslRr6432Mcg::with_seed(seed).generate(), rr);
    // XSH-RS by hand: xor-shift by 22, shift right by 22 plus the top three
    // bits of the seed.
    let y = seed ^ (seed >> 22);
    let rs = (y >> (22 + (seed >> 61))) as u32;
    assert_eq!(rs, 0x61cbc78f);
    assert_eq!(PcgXshRs6432::with_seed(seed).generate(), rs);
    // The permutation of the state after the advance is another value.
    let advanced = seed.wrapping_mul(MULTIPLIER).wrapping_add(INCREMENT);
    let z = advanced ^ (advanced >> 18);
    assert_ne!(((z >> 27) as u32).rotate_right((advanced >> 59) as u32), rr);
}

#[test]
fn pcg_wide_first_output_permutes_the_seed_itself() {
    // The top six bits of this seed are zero and its high half is zero, so
    // XSL-RR leaves the low half as it is.
    let seed: u128 = 0x1818729182367349;
    assert_eq!(PcgXslRr::with_seed(seed).generate(), 0x1818729182367349);
    assert_eq!(PcgXslRrMcg::with_seed(seed).generate(), 0x1818729182367349);
    // High half all ones against low half: every bit set, whatever the rotation.
    let wide: u128 = 0xfedcba9876543210_0123456789abcdef;
    let folded = ((wide >> 64) as u64) ^ (wide as u64);
    let expected = folded.rotate_right((wide >> 122) as u32);
    assert_eq!(expected, u64::MAX);
    assert_eq!(PcgXslRr::with_seed(wide).generate(), expected);
    assert_eq!(PcgXslRrMcg::with_seed(wide).generate(), expected);
}

#[test]
fn pcg_known_outputs() {
    let seed: u64 = 0x1818729182367349;
    let mut a = PcgXshRr6432::with_seed(seed);
    assert_eq!([a.generate(), a.generate(), a.generate()], [1617023582, 1116397107, 459136456]);
    let mut b = PcgXslRr6432Mcg::with_seed(seed);
    assert_eq!([b.generate(), b.generate(), b.generate()], [1617023582, 1245141659, 1158482740]);
    let mut c = PcgXshRs6432::with_seed(seed);
    assert_eq!([c.generate(), c.generate(), c.generate()], [1640744847, 2362792881, 1573057044]);
    let mut d = PcgXslRr::with_seed(seed as u128);
    assert_eq!(
        [d.generate(), d.generate(), d.generate()],
        [1736263625631757129, 1695749064537789373, 16823645109511466966]
    );
    let mut e = PcgXslRrMcg::with_seed(seed as u128);
    assert_eq!(
        [e.generate(), e.generate(), e.generate()],
        [1736263625631757129, 4284766425475171802, 14521298692215281677]
    );
}

#[test]
fn pcg_second_output_permutes_the_advanced_seed() {
    let seed: u64 = 0x1818729182367349;
    let linear = seed.wrapping_mul(MULTIPLIER).wrapping_add(INCREMENT);
    assert_eq!(linear, 12999262144333494110);
    let multiplicative = seed.wrapping_mul(MULTIPLIER);
    assert_eq!(multiplicative, 9427435779315228071);
    let mut a = PcgXshRr6432::with_seed(seed);
    a.generate();
    assert_eq!(a.generate(), PcgXshRr6432::with_seed(linear).generate());
    let mut b = PcgXslRr6432Mcg::with_seed(seed);
    b.generate();
    assert_eq!(b.generate(), PcgXslRr6432Mcg::with_seed(multiplicative).generate());
    let wide = seed as u128;
    let mut c = PcgXslRr::with_seed(wide);
    c.generate();
    let next = wide.wrapping_mul(MULTIPLIER128).wrapping_add(INCREMENT128);
    assert_eq!(c.generate(), PcgXslRr::with_seed(next).generate());
    let mut d = PcgXslRrMcg::with_seed(wide);
    d.generate();
    assert_eq!(d.generate(), PcgXslRrMcg::with_seed(wide.wrapping_mul(MULTIPLIER128)).generate());
}

#[test]
fn pcg_multiplicative_zero_state_is_stuck() {
    let mut a = PcgXslRr6432Mcg::with_seed(0);
    let mut b = PcgXslRrMcg::with_seed(0);
    for _ in 0..100 {
        assert_eq!(a.generate(), 0);
        assert_eq!(b.generate(), 0);
    }
}

#[test]
fn pcg_linear_zero_seed_moves_on() {
    let mut a = PcgXshRr6432::with_seed(0);
    assert_eq!(a.generate(), 0);
    assert_ne!(a.generate(), 0);
    let mut b = PcgXslRr::with_seed(0);
    assert_eq!(b.generate(), 0);
    assert_ne!(b.generate(), 0);
}

#[test]
fn pcg_consecutive_outputs_differ() {
    let seed: u64 = 0x1818729182367349;
    let mut a = PcgXshRr6432::with_seed(seed);
    assert_ne!(a.generate(), a.generate());
    let mut b = PcgXslRr6432Mcg::with_seed(seed);
    assert_ne!(b.generate(), b.generate());
    let mut c = PcgXshRs6432::with_seed(seed);
    assert_ne!(c.generate(), c.generate());
    let mut d = PcgXslRr::with_seed(seed as u128);
    assert_ne!(d.generate(), d.generate());
    let mut e = PcgXslRrMcg::with_seed(seed as u128);
    assert_ne!(e.generate(), e.generate());
}

#[test]
fn pcg_same_seed_same_sequence() {
    let seed: u64 = 0x89178726ab1f8ab3;
    let mut a = PcgXshRr6432::with_seed(seed);
    let mut b = PcgXshRr6432::with_seed(seed);
    let mut c = PcgXslRr6432Mcg::with_seed(seed);
    let mut d = PcgXslRr6432Mcg::with_seed(seed);
    let mut e = PcgXshRs6432::with_seed(seed);
    let mut f = PcgXshRs6432::with_seed(seed);
    let mut g = PcgXslRr::with_seed(13378593);
    let mut h = PcgXslRr::with_seed(13378593);
    let mut i = PcgXslRrMcg::with_seed(13378593);
    let mut j = PcgXslRrMcg::with_seed(13378593);
    for _ in 0..1000 {
        assert_eq!(a.generate(), b.generate());
        assert_eq!(c.generate(), d.generate());
        assert_eq!(e.generate(), f.generate());
        assert_eq!(g.generate(), h.generate());
        assert_eq!(i.generate(), j.generate());
    }
}

#[test]
fn pcg_real_stays_in_the_unit_interval() {
    let seed: u64 = 0x1818729182367349;
    let mut a = PcgXshRr6432::with_seed(seed);
    let mut b = PcgXslRr6432Mcg::with_seed(seed);
    let mut c = PcgXshRs6432::with_seed(seed);
    let mut d = PcgXslRr::with_seed(seed as u128);
    let mut e = PcgXslRrMcg::with_seed(seed as u128);
    for _ in 0..1_000_000 {
        for v in [
            half_open32(a.generate()),
            half_open32(b.generate()),
            half_open32(c.generate()),
            half_open64(d.generate()),
            half_open64(e.generate()),
        ] {
            assert!(0.0 <= v && v < 1.0);
            let w = in_range(-3.5, 12.25, v);
            assert!(-3.5 <= w && w < 12.25);
        }
    }
}
