use tiny_prng::conversion::{split128, split64, Chunks};

fn half_open(c: Chunks) -> f64 {
    c.high as f64 * (1.0 / 4294967295.0) + c.low as f64 * (1.0 / 18446744073709551615.0)
}

fn closed(c: Chunks) -> f64 {
    c.high as f64 * (1.0 / 4294967296.0) + c.low as f64 * (1.0 / 18446744073709551616.0)
}

fn in_range(lower: f64, upper: f64, v: f64) -> f64 {
    lower + (upper - lower) * v
}

#[test]
fn split64_takes_the_two_halves() {
    assert_eq!(split64(0), Chunks { high: 0, low: 0 });
    assert_eq!(split64(0x12345678_9abcdef0), Chunks { high: 0x12345678, low: 0x9abcdef0 });
    assert_eq!(split64(u64::MAX), Chunks { high: u32::MAX, low: 0xfffffffc });
}

#[test]
fn split64_clears_the_bottom_two_bits() {
    assert_eq!(split64(3), Chunks { high: 0, low: 0 });
    assert_eq!(split64(4), Chunks { high: 0, low: 4 });
    assert_eq!(split64(5), Chunks { high: 0, low: 4 });
    assert_eq!(split64(0x1_0000_0007), Chunks { high: 1, low: 4 });
}

#[test]
fn split128_reads_the_top_half_only() {
    let raw: u128 = 0x12345678_9abcdef3_ffffffff_ffffffff;
    assert_eq!(split128(raw), Chunks { high: 0x12345678, low: 0x9abcdef0 });
    assert_eq!(split128(raw), split128(0x12345678_9abcdef3_00000000_00000000));
    assert_eq!(split128(u64::MAX as u128), Chunks { high: 0, low: 0 });
    assert_eq!(split128(u128::MAX), Chunks { high: u32::MAX, low: 0xfffffffc });
}

#[test]
fn scales_have_bit_exact_values() {
    assert_eq!(half_open(split64(0)).to_bits(), 0);
    assert_eq!(closed(split64(0)).to_bits(), 0);
    assert_eq!(half_open(split64(5)).to_bits(), 0x3c10000000000000);
    assert_eq!(closed(split64(5)).to_bits(), 0x3c10000000000000);
    assert_eq!(half_open(split64(0x8000000000000000)).to_bits(), 0x3fe0000000100000);
    assert_eq!(closed(split64(0x8000000000000000)).to_bits(), 0x3fe0000000000000);
    assert_eq!(half_open(split64(13048302866492495157)).to_bits(), 0x3fe6a29c4a76827f);
    assert_eq!(closed(split64(13048302866492495157)).to_bits(), 0x3fe6a29c4a5fdfe3);
    assert_eq!(closed(split64(0xffffffff_00000000)).to_bits(), 0x3fefffffffe00000);
}

#[test]
fn half_open_scale_reaches_one_when_the_high_chunk_is_all_ones() {
    assert_eq!(half_open(split64(0xffffffff_00000000)), 1.0);
    assert!(half_open(split64(u64::MAX)) > 1.0);
    assert_eq!(half_open(split64(u64::MAX)).to_bits(), 0x3ff0000000100000);
}

#[test]
fn range_with_equal_bounds_is_a_point() {
    for raw in [0u64, 5, 0x8000000000000000, 13048302866492495157] {
        assert_eq!(in_range(2.5, 2.5, half_open(split64(raw))), 2.5);
    }
}

#[test]
fn range_with_swapped_bounds_runs_backwards() {
    assert_eq!(in_range(10.0, 0.0, half_open(split64(0))), 10.0);
    let v = in_range(10.0, 0.0, closed(split64(0x8000000000000000)));
    assert_eq!(v, 5.0);
    let w = in_range(10.0, 0.0, closed(split64(0xc000000000000000)));
    assert_eq!(w, 2.5);
}
