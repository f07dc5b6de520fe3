//! The surface offered to a foreign host: three generators behind one shape,
//! each seeded from a 32-bit number, with single and bulk draws. A bulk draw
//! returns what the same number of single draws would return, in order.

use vstd::prelude::*;
use crate::generator::{after, outputs, draw_list};
use crate::mt64::{Mt19937, MtState, mt_valid, mt_step, mt_output, array_words};
use crate::pcg::{PcgXslRr, xsl_rr, lcg128};
use crate::xorshift::xorshift64_step;

verus! {

/// PCG-XSL-RR 128/64 for the host.
pub struct Pcg {
    generator: PcgXslRr,
}

impl View for Pcg {
    type V = u128;

    closed spec fn view(&self) -> u128 {
        self.generator@
    }
}

impl Pcg {
    /// Starts the generator in the state `seed`.
    pub fn new(seed: u32) -> (p: Self)
        ensures
            p@ == seed,
    {
        Pcg { generator: PcgXslRr::with_seed(seed as u128) }
    }

    /// Draws one value.
    pub fn generate(&mut self) -> (r: u64)
        ensures
            r == xsl_rr(old(self)@),
            final(self)@ == lcg128(old(self)@),
    {
        self.generator.generate()
    }

    /// Draws `count` values in a row.
    pub fn generate_list(&mut self, count: usize) -> (v: Vec<u64>)
        ensures
            v@ == outputs::<PcgXslRr>(old(self)@, count as nat),
            final(self)@ == after::<PcgXslRr>(old(self)@, count as nat),
    {
        draw_list(&mut self.generator, count)
    }
}

/// The 64-bit xorshift generator for the host.
pub struct Xorshift64 {
    generator: crate::xorshift::Xorshift64,
}

impl View for Xorshift64 {
    type V = u64;

    closed spec fn view(&self) -> u64 {
        self.generator@
    }
}

impl Xorshift64 {
    /// Starts the generator in the state `seed`.
    pub fn new(seed: u32) -> (p: Self)
        ensures
            p@ == seed,
    {
        Self { generator: crate::xorshift::Xorshift64::with_seed(seed as u64) }
    }

    /// Draws one value.
    pub fn generate(&mut self) -> (r: u64)
        ensures
            final(self)@ == xorshift64_step(old(self)@),
            r == final(self)@,
    {
        self.generator.generate()
    }

    /// Draws `count` values in a row.
    pub fn generate_list(&mut self, count: usize) -> (v: Vec<u64>)
        ensures
            v@ == outputs::<crate::xorshift::Xorshift64>(old(self)@, count as nat),
            final(self)@ == after::<crate::xorshift::Xorshift64>(old(self)@, count as nat),
    {
        draw_list(&mut self.generator, count)
    }
}

/// The 64-bit Mersenne Twister for the host.
pub struct Mt64 {
    generator: Mt19937,
}

impl View for Mt64 {
    type V = MtState;

    closed spec fn view(&self) -> MtState {
        self.generator@
    }
}

impl Mt64 {
    /// Seeds the generator from the one-word key `[seed]`.
    pub fn new(seed: u32) -> (p: Self)
        ensures
            p@ == (MtState { words: array_words(seq![seed as u64]), cursor: 312 }),
    {
        let key: Vec<u64> = vec![seed as u64];
        assert(key@ =~= seq![seed as u64]);
        Self { generator: Mt19937::with_array(key) }
    }

    /// Draws one value.
    pub fn generate(&mut self) -> (r: u64)
        ensures
            mt_valid(old(self)@),
            r == mt_output(old(self)@),
            final(self)@ == mt_step(old(self)@),
    {
        self.generator.generate()
    }

    /// Draws `count` values in a row.
    pub fn generate_list(&mut self, count: usize) -> (v: Vec<u64>)
        ensures
            v@ == outputs::<Mt19937>(old(self)@, count as nat),
            final(self)@ == after::<Mt19937>(old(self)@, count as nat),
    {
        draw_list(&mut self.generator, count)
    }
}

} // verus!
