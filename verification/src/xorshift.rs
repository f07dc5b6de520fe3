//! The xorshift family: shift-xor recurrences over 32-, 64-, 128- and
//! 1024-bit registers, two of them with a multiplicative output scramble.
//!
//! The seed is the initial state. No seed is rejected: the all-zero state is
//! a fixed point of the plain recurrences, and a generator seeded with it
//! returns zero forever.

use vstd::prelude::*;
use crate::generator::{Generator, after, outputs, lemma_after_add};
use crate::modular::{wrap64, lemma_mul_wraps64};
use vstd::arithmetic::div_mod::{lemma_mul_mod_noop_left, lemma_mod_multiples_vanish};

verus! {

/// The odd multiplier that scrambles the output of the 64-bit starred variant.
pub const STAR64: u64 = 0xa738f8117ca1d037;

/// The odd multiplier that scrambles the output of the 1024-bit starred variant.
pub const STAR1024: u64 = 0xaac17d8efa43cab7;

/// One step of the 32-bit recurrence: shifts (13, 17, 5), left, right, left.
pub open spec fn xorshift32_step(s: u32) -> u32 {
    let a = s ^ (s << 13);
    let b = a ^ (a >> 17);
    b ^ (b << 5)
}

/// One step of the 64-bit recurrence: shifts (13, 7, 17), left, right, left.
pub open spec fn xorshift64_step(s: u64) -> u64 {
    let a = s ^ (s << 13);
    let b = a ^ (a >> 7);
    b ^ (b << 17)
}

/// One step of the 64-bit starred recurrence: shifts (12, 25, 27), right,
/// left, right.
pub open spec fn xorshift64star_step(s: u64) -> u64 {
    let a = s ^ (s >> 12);
    let b = a ^ (a << 25);
    b ^ (b >> 27)
}

/// The 32-bit word `k` of a 128-bit register, counted from the top.
pub open spec fn lane(x: u128, k: int) -> u32 {
    ((x >> (96 - 32 * k)) & 0xffff_ffff) as u32
}

/// The 128-bit register whose words, from the top, are `a`, `b`, `c`, `d`.
pub open spec fn joined(a: u32, b: u32, c: u32, d: u32) -> u128 {
    ((a as u128) << 96) | ((b as u128) << 64) | ((c as u128) << 32) | (d as u128)
}

/// One step of the 128-bit recurrence: the words rotate down by one place,
/// and the new top word mixes the old bottom word, shifted by (11, 8), with
/// the old top word, shifted by 19.
pub open spec fn xorshift128_step(x: u128) -> u128 {
    let s = lane(x, 0);
    let t = lane(x, 3);
    let a = t ^ (t << 11);
    let b = a ^ (a >> 8);
    joined(b ^ s ^ (s >> 19), s, lane(x, 1), lane(x, 2))
}

/// The state of the 1024-bit generator: sixteen words and the ring cursor.
pub struct RingState {
    pub words: Seq<u64>,
    pub cursor: nat,
}

/// The states a 1024-bit generator can be in.
pub open spec fn ring_valid(s: RingState) -> bool {
    s.words.len() == 16 && s.cursor < 16
}

/// The word that a step writes, from the word `s` under the cursor and the
/// word `t` in the slot after it.
pub open spec fn ring_mix(s: u64, t: u64) -> u64 {
    let a = t ^ (t << 31);
    let b = a ^ (a >> 11);
    b ^ (s ^ (s >> 30))
}

/// One step of the 1024-bit recurrence: the cursor moves to the next slot of
/// the ring, and that slot is overwritten with the mix of the slot left
/// behind and its own old value.
pub open spec fn ring_step(s: RingState) -> RingState {
    let next = (s.cursor + 1) % 16;
    RingState {
        words: s.words.update(next as int, ring_mix(s.words[s.cursor as int], s.words[next as int])),
        cursor: next as nat,
    }
}

/// The value drawn from the 1024-bit generator in state `s`: the word just
/// written, scrambled.
pub open spec fn ring_output(s: RingState) -> u64 {
    let n = ring_step(s);
    wrap64(n.words[n.cursor as int] * STAR1024)
}

/// The 32-bit xorshift generator.
pub struct Xorshift32 {
    state: u32,
}

impl View for Xorshift32 {
    type V = u32;

    closed spec fn view(&self) -> u32 {
        self.state
    }
}

impl Xorshift32 {
    /// Starts the generator in the state `seed`.
    #[inline]
    pub fn with_seed(seed: u32) -> (g: Self)
        ensures
            g@ == seed,
    {
        Self { state: seed }
    }

    /// Advances the register by one step and returns its new value.
    #[inline]
    pub fn generate(&mut self) -> (r: u32)
        ensures
            final(self)@ == xorshift32_step(old(self)@),
            r == final(self)@,
    {
        self.state ^= self.state << 13;
        self.state ^= self.state >> 17;
        self.state ^= self.state << 5;
        self.state
    }
}

impl Generator for Xorshift32 {
    type Output = u32;

    open spec fn valid(s: u32) -> bool {
        true
    }

    open spec fn step(s: u32) -> u32 {
        xorshift32_step(s)
    }

    open spec fn output(s: u32) -> u32 {
        xorshift32_step(s)
    }

    proof fn lemma_step_valid(s: u32) {
    }

    fn draw(&mut self) -> (r: u32) {
        self.generate()
    }
}

/// The 64-bit xorshift generator.
pub struct Xorshift64 {
    state: u64,
}

impl View for Xorshift64 {
    type V = u64;

    closed spec fn view(&self) -> u64 {
        self.state
    }
}

impl Xorshift64 {
    /// Starts the generator in the state `seed`.
    #[inline]
    pub fn with_seed(seed: u64) -> (g: Self)
        ensures
            g@ == seed,
    {
        Self { state: seed }
    }

    /// Advances the register by one step and returns its new value.
    #[inline]
    pub fn generate(&mut self) -> (r: u64)
        ensures
            final(self)@ == xorshift64_step(old(self)@),
            r == final(self)@,
    {
        self.state ^= self.state << 13;
        self.state ^= self.state >> 7;
        self.state ^= self.state << 17;
        self.state
    }
}

impl Generator for Xorshift64 {
    type Output = u64;

    open spec fn valid(s: u64) -> bool {
        true
    }

    open spec fn step(s: u64) -> u64 {
        xorshift64_step(s)
    }

    open spec fn output(s: u64) -> u64 {
        xorshift64_step(s)
    }

    proof fn lemma_step_valid(s: u64) {
    }

    fn draw(&mut self) -> (r: u64) {
        self.generate()
    }
}

/// The 128-bit xorshift generator, on four 32-bit words.
pub struct Xorshift128 {
    state: [u32; 4],
}

impl View for Xorshift128 {
    type V = u128;

    /// The register as one number, word 0 on top.
    closed spec fn view(&self) -> u128 {
        joined(self.state[0], self.state[1], self.state[2], self.state[3])
    }
}

/// Cutting a register into its four words and joining them gives it back.
proof fn lemma_join_lanes(x: u128)
    ensures
        joined(lane(x, 0), lane(x, 1), lane(x, 2), lane(x, 3)) == x,
{
    assert(((((x >> 96) & 0xffff_ffff) as u32 as u128) << 96) | ((((x >> 64) & 0xffff_ffff) as u32
        as u128) << 64) | ((((x >> 32) & 0xffff_ffff) as u32 as u128) << 32) | (((x >> 0)
        & 0xffff_ffff) as u32 as u128) == x) by (bit_vector);
}

/// Each word of a joined register is the word that was put there.
proof fn lemma_lanes_of_joined(a: u32, b: u32, c: u32, d: u32)
    ensures
        lane(joined(a, b, c, d), 0) == a,
        lane(joined(a, b, c, d), 1) == b,
        lane(joined(a, b, c, d), 2) == c,
        lane(joined(a, b, c, d), 3) == d,
{
    let x = joined(a, b, c, d);
    assert(x == ((a as u128) << 96) | ((b as u128) << 64) | ((c as u128) << 32) | (d as u128));
    assert(((x >> 96) & 0xffff_ffff) as u32 == a && ((x >> 64) & 0xffff_ffff) as u32 == b && ((x
        >> 32) & 0xffff_ffff) as u32 == c && ((x >> 0) & 0xffff_ffff) as u32 == d) by (bit_vector)
        requires
            x == ((a as u128) << 96) | ((b as u128) << 64) | ((c as u128) << 32) | (d as u128),
    ;
}

impl Xorshift128 {
    /// Starts the generator in the state `seed`, cut into four words from
    /// the top.
    #[inline]
    pub fn with_seed(seed: u128) -> (g: Self)
        ensures
            g@ == seed,
    {
        proof {
            lemma_join_lanes(seed);
            assert(seed >> 96 == (seed >> 96) & 0xffff_ffff && seed & 0xffff_ffff == (seed >> 0)
                & 0xffff_ffff) by (bit_vector);
        }
        Self {
            state: [
                #[verifier::truncate]
                ((seed >> 96) as u32),
                #[verifier::truncate]
                (((seed >> 64) & 0xffffffff) as u32),
                #[verifier::truncate]
                (((seed >> 32) & 0xffffffff) as u32),
                #[verifier::truncate]
                ((seed & 0xffffffff) as u32),
            ],
        }
    }

    /// Advances the register by one step and returns its new value.
    #[inline]
    pub fn generate(&mut self) -> (r: u128)
        ensures
            final(self)@ == xorshift128_step(old(self)@),
            r == final(self)@,
    {
        proof {
            lemma_lanes_of_joined(self.state[0], self.state[1], self.state[2], self.state[3]);
        }
        let mut t: u32 = self.state[3];
        let s: u32 = self.state[0];
        self.state[3] = self.state[2];
        self.state[2] = self.state[1];
        self.state[1] = s;
        t ^= t << 11;
        t ^= t >> 8;
        self.state[0] = t ^ s ^ (s >> 19);
        ((self.state[0] as u128) << 96) | ((self.state[1] as u128) << 64) | ((self.state[2] as u128)
            << 32) | (self.state[3] as u128)
    }
}

impl Generator for Xorshift128 {
    type Output = u128;

    open spec fn valid(s: u128) -> bool {
        true
    }

    open spec fn step(s: u128) -> u128 {
        xorshift128_step(s)
    }

    open spec fn output(s: u128) -> u128 {
        xorshift128_step(s)
    }

    proof fn lemma_step_valid(s: u128) {
    }

    fn draw(&mut self) -> (r: u128) {
        self.generate()
    }
}

/// The 64-bit xorshift generator with a multiplicative output scramble.
pub struct Xorshift64star {
    state: u64,
}

impl View for Xorshift64star {
    type V = u64;

    closed spec fn view(&self) -> u64 {
        self.state
    }
}

impl Xorshift64star {
    /// Starts the generator in the state `seed`.
    #[inline]
    pub fn with_seed(seed: u64) -> (g: Self)
        ensures
            g@ == seed,
    {
        Self { state: seed }
    }

    /// Advances the register by one step and returns its new value times
    /// [`STAR64`], modulo 2^64. The register keeps the unscrambled value.
    #[inline]
    pub fn generate(&mut self) -> (r: u64)
        ensures
            final(self)@ == xorshift64star_step(old(self)@),
            r == wrap64(final(self)@ * STAR64),
    {
        self.state ^= self.state >> 12;
        self.state ^= self.state << 25;
        self.state ^= self.state >> 27;
        proof {
            lemma_mul_wraps64(self.state, STAR64);
        }
        self.state.wrapping_mul(STAR64)
    }
}

impl Generator for Xorshift64star {
    type Output = u64;

    open spec fn valid(s: u64) -> bool {
        true
    }

    open spec fn step(s: u64) -> u64 {
        xorshift64star_step(s)
    }

    open spec fn output(s: u64) -> u64 {
        wrap64(xorshift64star_step(s) * STAR64)
    }

    proof fn lemma_step_valid(s: u64) {
    }

    fn draw(&mut self) -> (r: u64) {
        self.generate()
    }
}

/// The 1024-bit xorshift generator with a multiplicative output scramble:
/// a ring of sixteen 64-bit words.
pub struct Xorshift1024star {
    state: [u64; 16],
    index: usize,
}

impl View for Xorshift1024star {
    type V = RingState;

    closed spec fn view(&self) -> RingState {
        RingState { words: self.state@, cursor: self.index as nat }
    }
}

impl Xorshift1024star {
    #[verifier::type_invariant]
    spec fn inv(&self) -> bool {
        self.index < 16
    }

    /// Starts the generator with the sixteen words of `seed` and the cursor
    /// at slot 0.
    #[inline]
    pub fn with_seed(seed: [u64; 16]) -> (g: Self)
        ensures
            g@ == (RingState { words: seed@, cursor: 0 }),
            ring_valid(g@),
    {
        Self { state: seed, index: 0 }
    }

    /// Moves the cursor to the next slot, overwrites that slot with the mix
    /// of the slot left behind and its own old value, and returns the new
    /// word times [`STAR1024`], modulo 2^64.
    #[inline]
    pub fn generate(&mut self) -> (r: u64)
        ensures
            ring_valid(old(self)@),
            ring_valid(final(self)@),
            final(self)@ == ring_step(old(self)@),
            r == ring_output(old(self)@),
    {
        proof {
            use_type_invariant(&*self);
        }
        let mut index: usize = self.index;
        let ghost prev = index;
        let s: u64 = self.state[index];
        index += 1;
        index &= 15;
        assert(index == (prev + 1) % 16) by (bit_vector)
            requires
                index == ((prev + 1) as usize) & 15,
                prev < 16,
        ;
        let mut t: u64 = self.state[index];
        t ^= t << 31;
        t ^= t >> 11;
        t ^= s ^ (s >> 30);
        self.state[index] = t;
        self.index = index;
        proof {
            lemma_mul_wraps64(t, STAR1024);
        }
        self.state[index].wrapping_mul(STAR1024)
    }
}

impl Generator for Xorshift1024star {
    type Output = u64;

    open spec fn valid(s: RingState) -> bool {
        ring_valid(s)
    }

    open spec fn step(s: RingState) -> RingState {
        ring_step(s)
    }

    open spec fn output(s: RingState) -> u64 {
        ring_output(s)
    }

    proof fn lemma_step_valid(s: RingState) {
    }

    fn draw(&mut self) -> (r: u64) {
        self.generate()
    }
}

/// What the bit-vector solver knows of the 32-bit recurrence: zero is a fixed
/// point, the only one, and the only state that steps to zero.
proof fn lemma_xorshift32_bits(x: u32)
    by (bit_vector)
    ensures
        xorshift32_step(0) == 0,
        xorshift32_step(x) == x ==> x == 0,
        xorshift32_step(x) == 0 ==> x == 0,
{
}

/// What the bit-vector solver knows of the 64-bit recurrence: zero is a fixed
/// point, the only one, and the only state that steps to zero.
proof fn lemma_xorshift64_bits(x: u64)
    by (bit_vector)
    ensures
        xorshift64_step(0) == 0,
        xorshift64_step(x) == x ==> x == 0,
        xorshift64_step(x) == 0 ==> x == 0,
{
}

/// What the bit-vector solver knows of the 64-bit starred recurrence: zero is
/// a fixed point, the only one, and the only state that steps to zero.
proof fn lemma_xorshift64star_bits(x: u64)
    by (bit_vector)
    ensures
        xorshift64star_step(0) == 0,
        xorshift64star_step(x) == x ==> x == 0,
        xorshift64star_step(x) == 0 ==> x == 0,
{
}

/// What the bit-vector solver knows of the 128-bit recurrence: zero is a fixed
/// point, the only one, and the only state that steps to zero.
proof fn lemma_xorshift128_bits(x: u128)
    by (bit_vector)
    ensures
        xorshift128_step(0) == 0,
        xorshift128_step(x) == x ==> x == 0,
        xorshift128_step(x) == 0 ==> x == 0,
{
}

/// The degenerate seed of the 32-bit generator: from the all-zero state every
/// draw returns zero and the state stays zero.
pub proof fn lemma_xorshift32_zero_forever(n: nat)
    ensures
        after::<Xorshift32>(0, n) == 0,
        outputs::<Xorshift32>(0, n) == Seq::new(n, |i: int| 0u32),
    decreases n,
{
    lemma_xorshift32_bits(0);
    if n > 0 {
        lemma_xorshift32_zero_forever((n - 1) as nat);
    }
    assert forall|i: int| 0 <= i < n implies #[trigger] outputs::<Xorshift32>(0, n)[i] == 0 by {
        lemma_xorshift32_zero_forever(i as nat);
    }
}

/// The degenerate seed of the 64-bit generator: from the all-zero state every
/// draw returns zero and the state stays zero.
pub proof fn lemma_xorshift64_zero_forever(n: nat)
    ensures
        after::<Xorshift64>(0, n) == 0,
        outputs::<Xorshift64>(0, n) == Seq::new(n, |i: int| 0u64),
    decreases n,
{
    lemma_xorshift64_bits(0);
    if n > 0 {
        lemma_xorshift64_zero_forever((n - 1) as nat);
    }
    assert forall|i: int| 0 <= i < n implies #[trigger] outputs::<Xorshift64>(0, n)[i] == 0 by {
        lemma_xorshift64_zero_forever(i as nat);
    }
}

/// The degenerate seed of the 128-bit generator: from the all-zero state
/// every draw returns zero and the state stays zero.
pub proof fn lemma_xorshift128_zero_forever(n: nat)
    ensures
        after::<Xorshift128>(0, n) == 0,
        outputs::<Xorshift128>(0, n) == Seq::new(n, |i: int| 0u128),
    decreases n,
{
    lemma_xorshift128_bits(0);
    if n > 0 {
        lemma_xorshift128_zero_forever((n - 1) as nat);
    }
    assert forall|i: int| 0 <= i < n implies #[trigger] outputs::<Xorshift128>(0, n)[i] == 0 by {
        lemma_xorshift128_zero_forever(i as nat);
    }
}

/// Non-degeneracy of the 32-bit generator: the first two draws differ exactly
/// when the seed is not zero.
pub proof fn lemma_xorshift32_consecutive_differ(seed: u32)
    ensures
        outputs::<Xorshift32>(seed, 2)[0] != outputs::<Xorshift32>(seed, 2)[1] <==> seed != 0,
{
    reveal_with_fuel(after, 2);
    lemma_xorshift32_bits(seed);
    lemma_xorshift32_bits(xorshift32_step(seed));
}

/// Non-degeneracy of the 64-bit generator: the first two draws differ exactly
/// when the seed is not zero.
pub proof fn lemma_xorshift64_consecutive_differ(seed: u64)
    ensures
        outputs::<Xorshift64>(seed, 2)[0] != outputs::<Xorshift64>(seed, 2)[1] <==> seed != 0,
{
    reveal_with_fuel(after, 2);
    lemma_xorshift64_bits(seed);
    lemma_xorshift64_bits(xorshift64_step(seed));
}

/// Non-degeneracy of the 128-bit generator: the first two draws differ
/// exactly when the seed is not zero.
pub proof fn lemma_xorshift128_consecutive_differ(seed: u128)
    ensures
        outputs::<Xorshift128>(seed, 2)[0] != outputs::<Xorshift128>(seed, 2)[1] <==> seed != 0,
{
    reveal_with_fuel(after, 2);
    lemma_xorshift128_bits(seed);
    lemma_xorshift128_bits(xorshift128_step(seed));
}

/// The inverse of [`STAR64`] modulo 2^64.
pub const STAR64_INVERSE: u64 = 0xc84a45ab3ae6e587;

/// The scramble of the 64-bit starred variant loses nothing: multiplying a
/// scrambled value by [`STAR64_INVERSE`] modulo 2^64 gives the value back.
pub proof fn lemma_star64_unscrambles(x: u64)
    ensures
        wrap64(wrap64(x * STAR64) * STAR64_INVERSE) == x,
{
    let r = 0x1_0000_0000_0000_0000int;
    let k = 9427447749689775880int;
    assert(STAR64 * STAR64_INVERSE == 1 + k * r);
    lemma_mul_mod_noop_left(x * STAR64, STAR64_INVERSE as int, r);
    assert(x * STAR64 * STAR64_INVERSE == r * (x * k) + x) by (nonlinear_arith)
        requires
            STAR64 * STAR64_INVERSE == 1 + k * r,
    ;
    lemma_mod_multiples_vanish(x * k, x as int, r);
}

/// Non-degeneracy of the 64-bit starred generator: the first two draws
/// differ exactly when the seed is not zero.
pub proof fn lemma_xorshift64star_consecutive_differ(seed: u64)
    ensures
        outputs::<Xorshift64star>(seed, 2)[0] != outputs::<Xorshift64star>(seed, 2)[1] <==> seed
            != 0,
{
    reveal_with_fuel(after, 2);
    let first = xorshift64star_step(seed);
    let second = xorshift64star_step(first);
    lemma_xorshift64star_bits(seed);
    lemma_xorshift64star_bits(first);
    lemma_star64_unscrambles(first);
    lemma_star64_unscrambles(second);
}

/// For the next fifteen draws the cursor moves on by one slot per draw and
/// the slot it started from is not written.
pub proof fn lemma_ring_slot_kept(s: RingState, k: nat)
    requires
        ring_valid(s),
        k <= 15,
    ensures
        ring_valid(after::<Xorshift1024star>(s, k)),
        after::<Xorshift1024star>(s, k).cursor == (s.cursor + k) % 16,
        after::<Xorshift1024star>(s, k).words[s.cursor as int] == s.words[s.cursor as int],
    decreases k,
{
    if k > 0 {
        lemma_ring_slot_kept(s, (k - 1) as nat);
    }
}

/// Ring wraparound: sixteen draws bring the cursor back to the slot it
/// started from, and the seventeenth draw mixes the word written by the
/// sixteenth with the word written by the first.
pub proof fn lemma_ring_wraparound(s: RingState)
    requires
        ring_valid(s),
    ensures
        after::<Xorshift1024star>(s, 16).cursor == s.cursor,
        ring_output(after::<Xorshift1024star>(s, 16)) == wrap64(
            ring_mix(
                after::<Xorshift1024star>(s, 16).words[s.cursor as int],
                after::<Xorshift1024star>(s, 1).words[((s.cursor + 1) % 16) as int],
            ) * STAR1024,
        ),
{
    let first = after::<Xorshift1024star>(s, 1);
    assert(first == ring_step(s)) by {
        reveal_with_fuel(after, 2);
    }
    lemma_ring_slot_kept(first, 15);
    lemma_after_add::<Xorshift1024star>(s, 1, 15);
}

} // verus!
