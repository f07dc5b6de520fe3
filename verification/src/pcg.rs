//! The permuted congruential family: a congruential state advance, linear
//! (`state * MULT + INC`) or multiplicative (`state * MULT`), and an output
//! permutation that folds the wide state into a narrower value.
//!
//! The seed is the initial state, with no expansion and no warm-up. Every
//! draw permutes the state as it stands before the advance.

use vstd::prelude::*;
use crate::generator::{Generator, outputs};
use crate::modular::{wrap64, wrap128, lemma_mul_wraps64, lemma_mul_add_wraps64, lemma_mul_wraps128, lemma_mul_add_wraps128};

verus! {

/// Multiplier of the 64-bit state advance.
pub const MULTIPLIER: u64 = 1957840684519283055;

/// Multiplier of the 128-bit state advance.
pub const MULTIPLIER128: u128 = 0x1957840684519283055;

/// Increment of the 64-bit linear state advance.
pub const INCREMENT: u64 = 3571826365018266039;

/// Increment of the 128-bit linear state advance.
pub const INCREMENT128: u128 = 0x3571826365018266039;

/// The linear advance of a 64-bit state.
pub open spec fn lcg64(s: u64) -> u64 {
    wrap64(s * MULTIPLIER + INCREMENT)
}

/// The multiplicative advance of a 64-bit state.
pub open spec fn mcg64(s: u64) -> u64 {
    wrap64(s * MULTIPLIER)
}

/// The linear advance of a 128-bit state.
pub open spec fn lcg128(s: u128) -> u128 {
    wrap128(s * MULTIPLIER128 + INCREMENT128)
}

/// The multiplicative advance of a 128-bit state.
pub open spec fn mcg128(s: u128) -> u128 {
    wrap128(s * MULTIPLIER128)
}

/// `x` rotated right by `r < 32` bits.
pub open spec fn rotated32(x: u32, r: u32) -> u32 {
    (x >> r) | (x << (((32 - r) as u32) & 31))
}

/// `x` rotated right by `r < 64` bits.
pub open spec fn rotated64(x: u64, r: u64) -> u64 {
    (x >> r) | (x << (((64 - r) as u64) & 63))
}

/// XSH-RR, 64 to 32 bits: xor the state with itself shifted right by 18, take
/// bits 27 to 58, and rotate them right by the top five bits of the state.
pub open spec fn xsh_rr(s: u64) -> u32 {
    let x = s ^ (s >> 18);
    rotated32((x >> 27) as u32, (s >> 59) as u32)
}

/// XSH-RS, 64 to 32 bits: xor the state with itself shifted right by 22, and
/// shift right by 22 plus the top three bits of the state.
pub open spec fn xsh_rs(s: u64) -> u32 {
    let x = s ^ (s >> 22);
    (x >> (22 + (s >> 61) as u32)) as u32
}

/// XSL-RR, 128 to 64 bits: xor the high half of the state into the low half,
/// and rotate the low half right by the top six bits of the state.
pub open spec fn xsl_rr(s: u128) -> u64 {
    let x = s ^ (s >> 64);
    rotated64(x as u64, (s >> 122) as u64)
}

/// Rotates `x` right by `r` bits.
#[inline]
fn rotr32(x: u32, r: u32) -> (y: u32)
    requires
        r < 32,
    ensures
        y == rotated32(x, r),
{
    let back: u32 = (32 - r) & 31;
    assert(back < 32) by (bit_vector)
        requires
            back == (32 - r) as u32 & 31,
    ;
    (x >> r) | (x << back)
}

/// Rotates `x` right by `r` bits.
#[inline]
fn rotr64(x: u64, r: u64) -> (y: u64)
    requires
        r < 64,
    ensures
        y == rotated64(x, r),
{
    let back: u64 = (64 - r) & 63;
    assert(back < 64) by (bit_vector)
        requires
            back == (64 - r) as u64 & 63,
    ;
    (x >> r) | (x << back)
}

/// PCG-XSH-RR 64/32 on a linear congruential state.
pub struct PcgXshRr6432 {
    state: u64,
}

impl View for PcgXshRr6432 {
    type V = u64;

    closed spec fn view(&self) -> u64 {
        self.state
    }
}

impl PcgXshRr6432 {
    /// Starts the generator in the state `seed`.
    #[inline]
    pub fn with_seed(seed: u64) -> (g: Self)
        ensures
            g@ == seed,
    {
        Self { state: seed }
    }

    /// Returns the XSH-RR permutation of the current state and advances the
    /// state linearly.
    #[inline]
    pub fn generate(&mut self) -> (r: u32)
        ensures
            r == xsh_rr(old(self)@),
            final(self)@ == lcg64(old(self)@),
    {
        let mut x: u64 = self.state;
        assert(x >> 59 < 32) by (bit_vector);
        let count: u32 = (self.state >> 59) as u32;
        proof {
            lemma_mul_add_wraps64(x, MULTIPLIER, INCREMENT);
        }
        self.state = x.wrapping_mul(MULTIPLIER).wrapping_add(INCREMENT);
        x ^= x >> 18;
        rotr32(
            #[verifier::truncate]
            ((x >> 27) as u32),
            count,
        )
    }
}

impl Generator for PcgXshRr6432 {
    type Output = u32;

    open spec fn valid(s: u64) -> bool {
        true
    }

    open spec fn step(s: u64) -> u64 {
        lcg64(s)
    }

    open spec fn output(s: u64) -> u32 {
        xsh_rr(s)
    }

    proof fn lemma_step_valid(s: u64) {
    }

    fn draw(&mut self) -> (r: u32) {
        self.generate()
    }
}

/// The XSH-RR 64/32 permutation on a multiplicative congruential state.
pub struct PcgXslRr6432Mcg {
    state: u64,
}

impl View for PcgXslRr6432Mcg {
    type V = u64;

    closed spec fn view(&self) -> u64 {
        self.state
    }
}

impl PcgXslRr6432Mcg {
    /// Starts the generator in the state `seed`.
    #[inline]
    pub fn with_seed(seed: u64) -> (g: Self)
        ensures
            g@ == seed,
    {
        Self { state: seed }
    }

    /// Returns the XSH-RR permutation of the current state and advances the
    /// state multiplicatively.
    #[inline]
    pub fn generate(&mut self) -> (r: u32)
        ensures
            r == xsh_rr(old(self)@),
            final(self)@ == mcg64(old(self)@),
    {
        let mut x: u64 = self.state;
        assert(x >> 59 < 32) by (bit_vector);
        let count: u32 = (self.state >> 59) as u32;
        proof {
            lemma_mul_wraps64(x, MULTIPLIER);
        }
        self.state = x.wrapping_mul(MULTIPLIER);
        x ^= x >> 18;
        rotr32(
            #[verifier::truncate]
            ((x >> 27) as u32),
            count,
        )
    }
}

impl Generator for PcgXslRr6432Mcg {
    type Output = u32;

    open spec fn valid(s: u64) -> bool {
        true
    }

    open spec fn step(s: u64) -> u64 {
        mcg64(s)
    }

    open spec fn output(s: u64) -> u32 {
        xsh_rr(s)
    }

    proof fn lemma_step_valid(s: u64) {
    }

    fn draw(&mut self) -> (r: u32) {
        self.generate()
    }
}

/// PCG-XSH-RS 64/32 on a linear congruential state.
pub struct PcgXshRs6432 {
    state: u64,
}

impl View for PcgXshRs6432 {
    type V = u64;

    closed spec fn view(&self) -> u64 {
        self.state
    }
}

impl PcgXshRs6432 {
    /// Starts the generator in the state `seed`.
    #[inline]
    pub fn with_seed(seed: u64) -> (g: Self)
        ensures
            g@ == seed,
    {
        Self { state: seed }
    }

    /// Returns the XSH-RS permutation of the current state and advances the
    /// state linearly.
    #[inline]
    pub fn generate(&mut self) -> (r: u32)
        ensures
            r == xsh_rs(old(self)@),
            final(self)@ == lcg64(old(self)@),
    {
        let mut x: u64 = self.state;
        assert(x >> 61 < 8) by (bit_vector);
        let count: u32 = 22 + (self.state >> 61) as u32;
        proof {
            lemma_mul_add_wraps64(x, MULTIPLIER, INCREMENT);
        }
        self.state = x.wrapping_mul(MULTIPLIER).wrapping_add(INCREMENT);
        x ^= x >> 22;
        #[verifier::truncate]
        ((x >> count) as u32)
    }
}

impl Generator for PcgXshRs6432 {
    type Output = u32;

    open spec fn valid(s: u64) -> bool {
        true
    }

    open spec fn step(s: u64) -> u64 {
        lcg64(s)
    }

    open spec fn output(s: u64) -> u32 {
        xsh_rs(s)
    }

    proof fn lemma_step_valid(s: u64) {
    }

    fn draw(&mut self) -> (r: u32) {
        self.generate()
    }
}

/// PCG-XSL-RR 128/64 on a linear congruential state.
pub struct PcgXslRr {
    state: u128,
}

impl View for PcgXslRr {
    type V = u128;

    closed spec fn view(&self) -> u128 {
        self.state
    }
}

impl PcgXslRr {
    /// Starts the generator in the state `seed`.
    #[inline]
    pub fn with_seed(seed: u128) -> (g: Self)
        ensures
            g@ == seed,
    {
        Self { state: seed }
    }

    /// Returns the XSL-RR permutation of the current state and advances the
    /// state linearly.
    #[inline]
    pub fn generate(&mut self) -> (r: u64)
        ensures
            r == xsl_rr(old(self)@),
            final(self)@ == lcg128(old(self)@),
    {
        let mut x: u128 = self.state;
        assert(x >> 122 < 64) by (bit_vector);
        let count: u64 = (self.state >> 122) as u64;
        proof {
            lemma_mul_add_wraps128(x, MULTIPLIER128, INCREMENT128);
        }
        self.state = x.wrapping_mul(MULTIPLIER128).wrapping_add(INCREMENT128);
        x ^= x >> 64;
        rotr64(
            #[verifier::truncate]
            (x as u64),
            count,
        )
    }
}

impl Generator for PcgXslRr {
    type Output = u64;

    open spec fn valid(s: u128) -> bool {
        true
    }

    open spec fn step(s: u128) -> u128 {
        lcg128(s)
    }

    open spec fn output(s: u128) -> u64 {
        xsl_rr(s)
    }

    proof fn lemma_step_valid(s: u128) {
    }

    fn draw(&mut self) -> (r: u64) {
        self.generate()
    }
}

/// PCG-XSL-RR 128/64 on a multiplicative congruential state.
pub struct PcgXslRrMcg {
    state: u128,
}

impl View for PcgXslRrMcg {
    type V = u128;

    closed spec fn view(&self) -> u128 {
        self.state
    }
}

impl PcgXslRrMcg {
    /// Starts the generator in the state `seed`.
    #[inline]
    pub fn with_seed(seed: u128) -> (g: Self)
        ensures
            g@ == seed,
    {
        Self { state: seed }
    }

    /// Returns the XSL-RR permutation of the current state and advances the
    /// state multiplicatively.
    #[inline]
    pub fn generate(&mut self) -> (r: u64)
        ensures
            r == xsl_rr(old(self)@),
            final(self)@ == mcg128(old(self)@),
    {
        let mut x: u128 = self.state;
        assert(x >> 122 < 64) by (bit_vector);
        let count: u64 = (self.state >> 122) as u64;
        proof {
            lemma_mul_wraps128(x, MULTIPLIER128);
        }
        self.state = x.wrapping_mul(MULTIPLIER128);
        x ^= x >> 64;
        rotr64(
            #[verifier::truncate]
            (x as u64),
            count,
        )
    }
}

impl Generator for PcgXslRrMcg {
    type Output = u64;

    open spec fn valid(s: u128) -> bool {
        true
    }

    open spec fn step(s: u128) -> u128 {
        mcg128(s)
    }

    open spec fn output(s: u128) -> u64 {
        xsl_rr(s)
    }

    proof fn lemma_step_valid(s: u128) {
    }

    fn draw(&mut self) -> (r: u64) {
        self.generate()
    }
}

/// Pre-update semantics: the first value drawn after seeding is the
/// permutation of the seed itself, whatever the state advance, and the second
/// is the permutation of the seed advanced once.
pub proof fn lemma_first_output_permutes_seed(seed: u64, wide_seed: u128)
    ensures
        outputs::<PcgXshRr6432>(seed, 2) == seq![xsh_rr(seed), xsh_rr(lcg64(seed))],
        outputs::<PcgXslRr6432Mcg>(seed, 2) == seq![xsh_rr(seed), xsh_rr(mcg64(seed))],
        outputs::<PcgXshRs6432>(seed, 2) == seq![xsh_rs(seed), xsh_rs(lcg64(seed))],
        outputs::<PcgXslRr>(wide_seed, 2) == seq![xsl_rr(wide_seed), xsl_rr(lcg128(wide_seed))],
        outputs::<PcgXslRrMcg>(wide_seed, 2) == seq![xsl_rr(wide_seed), xsl_rr(mcg128(wide_seed))],
{
    reveal_with_fuel(crate::generator::after, 2);
}

} // verus!
