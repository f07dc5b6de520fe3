//! An experimental twister variant on 128-bit words.
//!
//! This generator is not part of the supported family: its recursion reads
//! the two words at the fixed position `seek` and never moves that position,
//! and its output quality is unknown. It is kept as it is, with each 128-bit
//! word held as four 32-bit lanes and its 64-bit lanes read through an
//! explicit accessor (lane `2k` is the low half of 64-bit lane `k`).

use vstd::prelude::*;

verus! {

/// The Mersenne exponent.
pub const SFMT_MEXP: usize = 19937;

/// Number of 128-bit words in the state: 156.
pub const SFMT_N: usize = SFMT_MEXP / 128 + 1;

/// Distance between a word and the word it is combined with.
pub const SFMT_POS1: usize = 122;

/// Left shift of each 32-bit lane of the word at `seek + 1`.
pub const SFMT_SL1: usize = 18;

/// Shift, in bytes, of the 128-bit shifts.
pub const SFMT_SL2: usize = 1;

/// Right shift of each 32-bit lane of the partner word.
pub const SFMT_SR1: usize = 1;

/// Mask of lane 1 of the partner word.
pub const SFMT_MSK1: u32 = 0xdfffffef;

/// Mask of lane 0 of the partner word.
pub const SFMT_MSK2: u32 = 0xddfecb7f;

/// Mask of lane 3 of the partner word.
pub const SFMT_MSK3: u32 = 0xbffaffff;

/// Mask of lane 2 of the partner word.
pub const SFMT_MSK4: u32 = 0xbffffff6;

/// A 128-bit word as four 32-bit lanes.
#[derive(Clone, Copy)]
pub struct W128 {
    pub u32t: [u32; 4],
}

/// The 64-bit lane `k` of a word: 32-bit lane `2k` in its low half and lane
/// `2k + 1` in its high half.
pub open spec fn lane64(w: W128, k: int) -> u64 {
    (w.u32t[2 * k] + w.u32t[2 * k + 1] * 0x1_0000_0000) as u64
}

/// The four lanes of a word whose low half is `low` and high half `high`:
/// each half is stored with its upper 32 bits first.
pub open spec fn lanes_of(high: u64, low: u64) -> W128 {
    W128 { u32t: [(low >> 32) as u32, low as u32, (high >> 32) as u32, high as u32] }
}

/// The two 64-bit lanes of a word folded into one: lane 0 shifted into the
/// upper half, or-ed with lane 1.
pub open spec fn folded(w: W128) -> u64 {
    (lane64(w, 0) << 32) | lane64(w, 1)
}

/// The left-shifted word built from the words at `seek + 1` and `seek`.
pub open spec fn shifted_left(next: W128, here: W128, shift: usize) -> W128 {
    let th = folded(next);
    let tl = folded(here);
    lanes_of((th << (shift * 8)) | (tl >> (64 - shift * 8)), tl << (shift * 8))
}

/// The right-shifted word built from the words at `seek + 1` and `seek`.
pub open spec fn shifted_right(next: W128, here: W128, shift: usize) -> W128 {
    let th = (lane64(next, 1) << 32) | lane64(here, 0);
    let tl = (lane64(here, 1) << 32) | lane64(here, 0);
    lanes_of((th >> (shift * 8)) | (th << (64 - shift * 8)), tl >> (shift * 8))
}

/// The mask applied to lane `k` of the partner word.
pub open spec fn lane_mask(k: int) -> u32 {
    if k == 0 {
        SFMT_MSK2
    } else if k == 1 {
        SFMT_MSK1
    } else if k == 2 {
        SFMT_MSK4
    } else {
        SFMT_MSK3
    }
}

/// Lane `k` of the word that the recursion writes at `idx1`.
pub open spec fn recursion_lane(words: Seq<W128>, seek: int, idx1: int, idx2: int, k: int) -> u32 {
    let x = shifted_left(words[seek + 1], words[seek], SFMT_SL2);
    let y = shifted_right(words[seek + 1], words[seek], SFMT_SL2);
    words[idx1].u32t[k] ^ x.u32t[k] ^ ((words[idx2].u32t[k] >> SFMT_SR1) & lane_mask(k)) ^ y.u32t[k]
        ^ (words[seek + 1].u32t[k] << SFMT_SL1)
}

/// The word that the recursion writes at `idx1`, with `idx2` as partner.
pub open spec fn recursion_word(words: Seq<W128>, seek: int, idx1: int, idx2: int) -> W128 {
    W128 {
        u32t: [
            recursion_lane(words, seek, idx1, idx2, 0),
            recursion_lane(words, seek, idx1, idx2, 1),
            recursion_lane(words, seek, idx1, idx2, 2),
            recursion_lane(words, seek, idx1, idx2, 3),
        ],
    }
}

/// The partner of word `i`: the word 122 places ahead, wrapping.
pub open spec fn partner(i: int) -> int {
    if i < SFMT_N - SFMT_POS1 {
        i + SFMT_POS1
    } else {
        i + SFMT_POS1 - SFMT_N
    }
}

/// The words after the recursion has run over the first `i` positions in
/// ascending order, each reading the words as they then stand.
pub open spec fn regenerated_prefix(words: Seq<W128>, seek: int, i: nat) -> Seq<W128>
    decreases i,
{
    if i == 0 {
        words
    } else {
        let before = regenerated_prefix(words, seek, (i - 1) as nat);
        before.update(i - 1, recursion_word(before, seek, i - 1, partner(i - 1)))
    }
}

/// One regeneration of all 156 words.
pub open spec fn regenerated(words: Seq<W128>, seek: int) -> Seq<W128> {
    regenerated_prefix(words, seek, 156)
}

impl W128 {
    /// The word with every lane 0.
    pub fn zero() -> (w: Self)
        ensures
            forall|k: int| 0 <= k < 4 ==> w.u32t[k] == 0,
    {
        Self { u32t: [0;4] }
    }

    /// The word with every lane 1.
    pub fn one() -> (w: Self)
        ensures
            forall|k: int| 0 <= k < 4 ==> w.u32t[k] == 1,
    {
        Self { u32t: [1;4] }
    }

    /// The word with every lane `0x8b8b8b8b`.
    pub fn init8b() -> (w: Self)
        ensures
            forall|k: int| 0 <= k < 4 ==> w.u32t[k] == 0x8b8b8b8b,
    {
        Self { u32t: [0x8b8b8b8b;4] }
    }

    /// Reads 64-bit lane `k`.
    pub fn u64t(&self, k: usize) -> (r: u64)
        requires
            k < 2,
        ensures
            r == lane64(*self, k as int),
    {
        let low: u32 = self.u32t[2 * k];
        let high: u32 = self.u32t[2 * k + 1];
        assert((low as u64) | ((high as u64) << 32) == (low + high * 0x1_0000_0000) as u64)
            by (bit_vector);
        (low as u64) | ((high as u64) << 32)
    }
}

/// The experimental generator: 156 words, the fixed position `seek` that the
/// recursion reads from, and the read cursor `idx`.
pub struct Sfmt {
    pub state: [W128; SFMT_N],
    pub seek: usize,
    pub idx: usize,
}

impl Sfmt {
    /// A generator can run when `seek` and `seek + 1` both index a word.
    pub open spec fn wf(&self) -> bool {
        self.seek + 1 < SFMT_N
    }

    /// The words that a draw reads from: the state while the cursor is inside
    /// it, else its regeneration.
    pub open spec fn words_read(&self) -> Seq<W128> {
        if self.idx >= SFMT_N {
            regenerated(self.state@, self.seek as int)
        } else {
            self.state@
        }
    }

    /// The position that a draw reads.
    pub open spec fn position_read(&self) -> int {
        if self.idx >= SFMT_N {
            0
        } else {
            self.idx as int
        }
    }

    /// The generator with every lane `0x8b8b8b8b`, reading from the last two
    /// words, its cursor at the first word.
    pub fn new() -> (g: Self)
        ensures
            g.wf(),
            g.seek == SFMT_N - 2,
            g.idx == 0,
            forall|i: int, k: int| 0 <= i < SFMT_N && 0 <= k < 4 ==> g.state[i].u32t[k] == 0x8b8b8b8b,
    {
        Self { state: [W128::init8b();SFMT_N], seek: SFMT_N - 2, idx: 0 }
    }

    /// Regenerates every word in ascending order.
    fn gen_rand_all(&mut self)
        requires
            old(self).wf(),
        ensures
            final(self).state@ == regenerated(old(self).state@, old(self).seek as int),
            final(self).seek == old(self).seek,
            final(self).idx == old(self).idx,
    {
        let mut i: usize = 0;
        while i < SFMT_N - SFMT_POS1
            invariant
                i <= SFMT_N - SFMT_POS1,
                self.wf(),
                self.seek == old(self).seek,
                self.idx == old(self).idx,
                self.state@ == regenerated_prefix(old(self).state@, self.seek as int, i as nat),
            decreases SFMT_N - i,
        {
            self.do_recursion(i, i + SFMT_POS1);
            i += 1;
        }
        while i < SFMT_N
            invariant
                SFMT_N - SFMT_POS1 <= i <= SFMT_N,
                self.wf(),
                self.seek == old(self).seek,
                self.idx == old(self).idx,
                self.state@ == regenerated_prefix(old(self).state@, self.seek as int, i as nat),
            decreases SFMT_N - i,
        {
            self.do_recursion(i, i + SFMT_POS1 - SFMT_N);
            i += 1;
        }
    }

    /// Rewrites the word at `idx1` from itself, its partner at `idx2` and the
    /// two shifted words.
    fn do_recursion(&mut self, idx1: usize, idx2: usize)
        requires
            old(self).wf(),
            idx1 < SFMT_N,
            idx2 < SFMT_N,
        ensures
            final(self).state@ == old(self).state@.update(
                idx1 as int,
                recursion_word(old(self).state@, old(self).seek as int, idx1 as int, idx2 as int),
            ),
            final(self).seek == old(self).seek,
            final(self).idx == old(self).idx,
    {
        let mut x: W128 = W128::zero();
        let mut y: W128 = W128::zero();
        self.lshift128(&mut x, SFMT_SL2);
        self.rshift128(&mut y, SFMT_SL2);
        let lane0: u32 = self.state[idx1].u32t[0] ^ x.u32t[0] ^ ((self.state[idx2].u32t[0] >> SFMT_SR1)
            & SFMT_MSK2) ^ y.u32t[0] ^ (self.state[self.seek + 1].u32t[0] << SFMT_SL1);
        let lane1: u32 = self.state[idx1].u32t[1] ^ x.u32t[1] ^ ((self.state[idx2].u32t[1] >> SFMT_SR1)
            & SFMT_MSK1) ^ y.u32t[1] ^ (self.state[self.seek + 1].u32t[1] << SFMT_SL1);
        let lane2: u32 = self.state[idx1].u32t[2] ^ x.u32t[2] ^ ((self.state[idx2].u32t[2] >> SFMT_SR1)
            & SFMT_MSK4) ^ y.u32t[2] ^ (self.state[self.seek + 1].u32t[2] << SFMT_SL1);
        let lane3: u32 = self.state[idx1].u32t[3] ^ x.u32t[3] ^ ((self.state[idx2].u32t[3] >> SFMT_SR1)
            & SFMT_MSK3) ^ y.u32t[3] ^ (self.state[self.seek + 1].u32t[3] << SFMT_SL1);
        self.state[idx1] = W128 { u32t: [lane0, lane1, lane2, lane3] };
    }

    /// Writes into `out` the left-shifted word built from the words at
    /// `seek + 1` and `seek`; `shift` counts bytes.
    fn lshift128(&self, out: &mut W128, shift: usize)
        requires
            self.wf(),
            1 <= shift <= 7,
        ensures
            *final(out) == shifted_left(self.state[self.seek + 1], self.state[self.seek as int], shift),
    {
        let th: u64 = (self.state[self.seek + 1].u64t(0) << 32) | self.state[self.seek + 1].u64t(1);
        let tl: u64 = (self.state[self.seek].u64t(0) << 32) | self.state[self.seek].u64t(1);
        let oh: u64 = (th << (shift * 8)) | (tl >> (64 - shift * 8));
        let ol: u64 = tl << (shift * 8);
        out.u32t[0] = #[verifier::truncate] ((ol >> 32) as u32);
        out.u32t[1] = #[verifier::truncate] (ol as u32);
        out.u32t[2] = #[verifier::truncate] ((oh >> 32) as u32);
        out.u32t[3] = #[verifier::truncate] (oh as u32);
        assert(out.u32t =~= lanes_of(oh, ol).u32t);
    }

    /// Writes into `out` the right-shifted word built from the words at
    /// `seek + 1` and `seek`; `shift` counts bytes.
    fn rshift128(&self, out: &mut W128, shift: usize)
        requires
            self.wf(),
            1 <= shift <= 7,
        ensures
            *final(out) == shifted_right(self.state[self.seek + 1], self.state[self.seek as int], shift),
    {
        let th: u64 = (self.state[self.seek + 1].u64t(1) << 32) | self.state[self.seek].u64t(0);
        let tl: u64 = (self.state[self.seek].u64t(1) << 32) | self.state[self.seek].u64t(0);
        let oh: u64 = (th >> (shift * 8)) | (th << (64 - shift * 8));
        let ol: u64 = tl >> (shift * 8);
        out.u32t[0] = #[verifier::truncate] ((ol >> 32) as u32);
        out.u32t[1] = #[verifier::truncate] (ol as u32);
        out.u32t[2] = #[verifier::truncate] ((oh >> 32) as u32);
        out.u32t[3] = #[verifier::truncate] (oh as u32);
        assert(out.u32t =~= lanes_of(oh, ol).u32t);
    }

    /// Draws the next value: regenerates every word first if the cursor has
    /// run off the end, then hands out lane 0 of the word under the cursor.
    pub fn generate(&mut self) -> (r: u32)
        requires
            old(self).wf(),
        ensures
            final(self).wf(),
            final(self).seek == old(self).seek,
            final(self).state@ == old(self).words_read(),
            final(self).idx == old(self).position_read() + 1,
            r == old(self).words_read()[old(self).position_read()].u32t[0],
    {
        if self.idx >= SFMT_N {
            self.gen_rand_all();
            self.idx = 0;
        }
        let r: u32 = self.state[self.idx].u32t[0];
        self.idx += 1;
        r
    }
}

} // verus!
