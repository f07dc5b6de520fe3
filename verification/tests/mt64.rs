use tiny_prng::conversion::split64;
use tiny_prng::mt64::{Mt19937, N};

fn half_open(r: u64) -> f64 {
    let c = split64(r);
    c.high as f64 * (1.0 / 4294967295.0) + c.low as f64 * (1.0 / 18446744073709551615.0)
}

fn closed(r: u64) -> f64 {
    let c = split64(r);
    c.high as f64 * (1.0 / 4294967296.0) + c.low as f64 * (1.0 / 18446744073709551616.0)
}

#[test]
fn test_mt64_init_and_generate_with_long_array() {
    let mut mt = Mt19937::with_array([0x1; N + 32].to_vec());
    assert_ne!(0x1, mt.generate());
}

#[test]
fn test_mt64_quality_generate_average100000() {
    let mut mt = Mt19937::with_array(vec![0x123, 0x234, 0x345, 0x456]);
    let mut sum: u64 = 0;
    let max_count = 100000;
    let acceptable_delta = u64::MAX / 100;
    for _ in 0..max_count {
        sum += mt.generate() / max_count;
    }
    let diff = match sum > u64::MAX / 2 {
        true => sum - u64::MAX / 2,
        false => u64::MAX / 2 - sum,
    };
    assert_eq!(true, diff < acceptable_delta);
}

#[test]
fn test_quality_genrand_real1_average100000() {
    let mut mt = Mt19937::with_array(vec![0x123, 0x234, 0x345, 0x456]);
    let mut sum = 0.0;
    let max_count = 100000;
    let acceptable_delta = 1.0 / 100.0;
    for _ in 0..max_count {
        sum += half_open(mt.generate()) / max_count as f64;
    }
    let diff = match sum > 0.5 {
        true => sum - 0.5,
        false => 0.5 - sum,
    };
    assert_eq!(true, diff < acceptable_delta);
}

#[test]
fn test_quality_genrand_real2_average100000() {
    let mut mt = Mt19937::with_array(vec![0x123, 0x234, 0x345, 0x456]);
    let mut sum = 0.0;
    let max_count = 100000;
    let acceptable_delta = 1.0 / 100.0;
    for _ in 0..max_count {
        sum += closed(mt.generate()) / max_count as f64;
    }
    let diff = match sum > 0.5 {
        true => sum - 0.5,
        false => 0.5 - sum,
    };
    assert_eq!(true, diff < acceptable_delta);
}

#[test]
fn mt64_known_outputs_of_the_four_word_key() {
    let mut mt = Mt19937::with_array(vec![0x123, 0x234, 0x345, 0x456]);
    assert_eq!(mt.generate(), 348694284);
    assert_eq!(mt.generate(), 13048302866492495157);
    assert_eq!(mt.generate(), 13048302865882228381);
    assert_eq!(mt.generate(), 716287971);
    assert_eq!(mt.generate(), 858632772);
}

#[test]
fn mt64_batch_boundary_is_reproducible() {
    let mut a = Mt19937::with_array(vec![0x123, 0x234, 0x345, 0x456]);
    let mut b = Mt19937::with_array(vec![0x123, 0x234, 0x345, 0x456]);
    let mut last = 0;
    for _ in 0..312 {
        last = a.generate();
        assert_eq!(last, b.generate());
    }
    assert_eq!(last, 13048302864914826995);
    let next = a.generate();
    assert_eq!(next, b.generate());
    assert_eq!(next, 2146306381);
}

#[test]
fn mt64_key_of_one_word() {
    let mut mt = Mt19937::with_array(vec![5]);
    assert_eq!(mt.generate(), 13048302862715151841);
    assert_eq!(mt.generate(), 13048302862392079776);
    assert_eq!(mt.generate(), 2353188723);
}

#[test]
fn mt64_key_longer_than_the_state() {
    let mut mt = Mt19937::with_array(vec![1; N + 32]);
    assert_eq!(mt.generate(), 3134125113);
    assert_eq!(mt.generate(), 394086058);
    assert_eq!(mt.generate(), 13048302864089210704);
}

#[test]
fn mt64_same_key_same_sequence() {
    let mut a = Mt19937::with_array(vec![7, 8, 9]);
    let mut b = Mt19937::with_array(vec![7, 8, 9]);
    for _ in 0..1000 {
        assert_eq!(a.generate(), b.generate());
    }
}

#[test]
fn mt64_consecutive_outputs_differ() {
    let mut mt = Mt19937::with_array(vec![0x123, 0x234, 0x345, 0x456]);
    let a = mt.generate();
    let b = mt.generate();
    assert_ne!(a, b);
}

#[test]
fn mt64_real_stays_in_the_unit_interval() {
    let mut mt = Mt19937::with_array(vec![0x123, 0x234, 0x345, 0x456]);
    for _ in 0..1_000_000 {
        let v = half_open(mt.generate());
        assert!(0.0 <= v && v < 1.0);
    }
}

#[test]
fn mt64_real_in_range_stays_in_the_range() {
    let mut mt = Mt19937::with_array(vec![0x123, 0x234, 0x345, 0x456]);
    let mut sum = 0.0;
    for _ in 0..1_000_000 {
        let v = -1000.0 + (1000.0 - -1000.0) * half_open(mt.generate());
        assert!(-1000.0 <= v && v < 1000.0);
        sum += v;
    }
    assert!((sum / 1_000_000.0).abs() < 20.0);
}
