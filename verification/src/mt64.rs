//! The 64-bit Mersenne Twister: a 312-word state that is regenerated in one
//! batch whenever the read cursor runs off its end, and a tempering transform
//! on every word handed out.
//!
//! Scalar seeding masks each word with `0x5555_5555_5555_5555`, which clears
//! every other bit. The published algorithm keeps all 64 bits. The narrower
//! mask is a deliberate choice: widening it would change every sequence that
//! a caller has recorded for a given key.
//!
//! Array seeding needs a key of at least one word; an empty key is not a
//! valid input.

use vstd::prelude::*;
use crate::generator::{Generator, after};
use crate::modular::{wrap64, lemma_mul_add_wraps64, lemma_mul_wraps64, lemma_add_add_wraps64, lemma_sub_wraps64};

verus! {

/// Number of words in the state.
pub const N: usize = 312;

/// Distance between a word and the word it is combined with in a twist.
pub const M: usize = 156;

/// The twist matrix, applied when the bit shifted out is set.
pub const MATRIX_A: u64 = 0xB5026F5AA96619E9;

/// The bits of a word that a twist takes from the word itself.
pub const UPPER_MASK: u64 = 0xFFFFFFFF80000000;

/// The bits of a word that a twist takes from its successor.
pub const LOWER_MASK: u64 = 0x7FFFFFFF;

/// The abstract state: the 312 words and the read cursor.
///
/// A cursor of 312 means that the words are used up; 313 means that no
/// seeding has taken place, so the next draw seeds with 5489 first.
pub struct MtState {
    pub words: Seq<u64>,
    pub cursor: nat,
}

/// The states a generator can be in.
pub open spec fn mt_valid(s: MtState) -> bool {
    s.words.len() == 312 && s.cursor <= 313
}

/// Word `i > 0` of a scalar-seeded state, from the word before it.
pub open spec fn scalar_next(prev: u64, i: nat) -> u64 {
    wrap64(6364136223846793005 * (prev ^ (prev >> 30)) + i) & 0x5555555555555555
}

/// Word `i` of the state seeded from the scalar `seed`.
pub open spec fn scalar_word(seed: u64, i: nat) -> u64
    decreases i,
{
    if i == 0 {
        seed
    } else {
        scalar_next(scalar_word(seed, (i - 1) as nat), i)
    }
}

/// The 312 words seeded from the scalar `seed`.
pub open spec fn scalar_words(seed: u64) -> Seq<u64> {
    Seq::new(312, |i: int| scalar_word(seed, i as nat))
}

/// Where an array-seeding pass stands: the words so far, the word index `i`
/// in `1..312` and the key index `j`.
pub struct Mixing {
    pub words: Seq<u64>,
    pub i: int,
    pub j: int,
}

/// The word that the first pass writes at `i`.
pub open spec fn key_mixed(cur: u64, prev: u64, key_word: u64, j: int) -> u64 {
    wrap64((cur ^ wrap64((prev ^ (prev >> 30)) * 1664525)) + key_word + j) & 0xffffffff
}

/// The word that the second pass writes at `i`.
pub open spec fn index_mixed(cur: u64, prev: u64, i: int) -> u64 {
    wrap64((cur ^ wrap64((prev ^ (prev >> 30)) * 1566083941)) - i) & 0xffffffff
}

/// Moves the word index on by one; past the last word it wraps to 1 and
/// copies the last word into word 0.
pub open spec fn advance_index(words: Seq<u64>, i: int) -> (Seq<u64>, int) {
    if i + 1 >= 312 {
        (words.update(0, words[311]), 1)
    } else {
        (words, i + 1)
    }
}

/// One step of the first pass, which folds in one key word.
pub open spec fn key_step(s: Mixing, key: Seq<u64>) -> Mixing {
    let mixed = key_mixed(s.words[s.i], s.words[s.i - 1], key[s.j], s.j);
    let (words, i) = advance_index(s.words.update(s.i, mixed), s.i);
    Mixing { words, i, j: if s.j + 1 >= key.len() { 0 } else { s.j + 1 } }
}

/// `n` steps of the first pass.
pub open spec fn key_pass(s: Mixing, key: Seq<u64>, n: nat) -> Mixing
    decreases n,
{
    if n == 0 {
        s
    } else {
        key_step(key_pass(s, key, (n - 1) as nat), key)
    }
}

/// One step of the second pass, which folds in the word index.
pub open spec fn index_step(s: Mixing) -> Mixing {
    let mixed = index_mixed(s.words[s.i], s.words[s.i - 1], s.i);
    let (words, i) = advance_index(s.words.update(s.i, mixed), s.i);
    Mixing { words, i, j: s.j }
}

/// `n` steps of the second pass.
pub open spec fn index_pass(s: Mixing, n: nat) -> Mixing
    decreases n,
{
    if n == 0 {
        s
    } else {
        index_step(index_pass(s, (n - 1) as nat))
    }
}

/// The 312 words seeded from the key sequence `key`: scalar seeding with
/// 19650218, then one pass over `max(312, key.len())` key words, the key
/// taken cyclically, then one pass over 311 words.
pub open spec fn array_words(key: Seq<u64>) -> Seq<u64> {
    let start = Mixing { words: scalar_words(19650218), i: 1, j: 0 };
    let rounds = if key.len() > 312 { key.len() } else { 312 };
    index_pass(key_pass(start, key, rounds), 311).words
}

/// The word that a twist merges from a word's upper bits and the lower
/// bits of its successor.
pub open spec fn merged(upper: u64, lower: u64) -> u64 {
    (upper & UPPER_MASK) | (lower & LOWER_MASK)
}

/// The new word at position `k` of a twist in progress on `words`: the word
/// 156 places ahead (wrapping), xored with the merged word shifted right by
/// one, and with the matrix constant where the bit shifted out was set.
pub open spec fn twisted(words: Seq<u64>, k: int) -> u64 {
    let y = merged(words[k], words[(k + 1) % 312]);
    words[(k + 156) % 312] ^ (y >> 1) ^ (if y & 1 == 1 { MATRIX_A } else { 0 })
}

/// The words after the first `k` positions have been twisted in place, in
/// ascending order, each position reading the words as they then stand.
pub open spec fn twist_prefix(words: Seq<u64>, k: nat) -> Seq<u64>
    decreases k,
{
    if k == 0 {
        words
    } else {
        let before = twist_prefix(words, (k - 1) as nat);
        before.update(k - 1, twisted(before, k - 1))
    }
}

/// One batch regeneration of all 312 words.
pub open spec fn twist(words: Seq<u64>) -> Seq<u64> {
    twist_prefix(words, 312)
}

/// The tempering transform applied to every word that is handed out.
pub open spec fn temper(y: u64) -> u64 {
    let a = y ^ (y >> 11);
    let b = a ^ ((a << 7) & 0x9d2c5680);
    let c = b ^ ((b << 15) & 0xefc60000);
    c ^ (c >> 18)
}

/// The words that a draw reads from: those of `s` while the cursor is inside
/// them, else their regeneration (after seeding with 5489 if nothing was
/// seeded).
pub open spec fn mt_words_read(s: MtState) -> Seq<u64> {
    if s.cursor < 312 {
        s.words
    } else if s.cursor == 313 {
        twist(scalar_words(5489))
    } else {
        twist(s.words)
    }
}

/// The state after one draw.
pub open spec fn mt_step(s: MtState) -> MtState {
    MtState { words: mt_words_read(s), cursor: if s.cursor < 312 { s.cursor + 1 } else { 1 } }
}

/// The value drawn in state `s`.
pub open spec fn mt_output(s: MtState) -> u64 {
    temper(mt_words_read(s)[if s.cursor < 312 { s.cursor as int } else { 0 }])
}

/// A twist in progress keeps the number of words.
pub proof fn lemma_twist_prefix_len(words: Seq<u64>, k: nat)
    requires
        k <= words.len(),
    ensures
        twist_prefix(words, k).len() == words.len(),
    decreases k,
{
    if k > 0 {
        lemma_twist_prefix_len(words, (k - 1) as nat);
    }
}

/// A position that the sweep has passed keeps the word written there; a
/// position that it has not reached still holds its old word.
proof fn lemma_twist_prefix_at(words: Seq<u64>, j: nat, i: int)
    requires
        words.len() == 312,
        j <= 312,
        0 <= i < 312,
    ensures
        twist_prefix(words, j)[i] == if i < j {
            twist_prefix(words, (i + 1) as nat)[i]
        } else {
            words[i]
        },
    decreases j,
{
    if j > 0 {
        lemma_twist_prefix_at(words, (j - 1) as nat, i);
        lemma_twist_prefix_len(words, (j - 1) as nat);
    }
}

/// The twist as a recurrence on words: new word `k` combines old word `k`
/// with its successor and with the word 156 places ahead, where the
/// successor of the last word is new word 0 and the words ahead of the
/// second half are new words.
pub proof fn lemma_twist_recurrence(words: Seq<u64>, k: int)
    requires
        words.len() == 312,
        0 <= k < 312,
    ensures
        twist(words)[k] == ({
            let ahead = if k < 156 {
                words[k + 156]
            } else {
                twist(words)[k - 156]
            };
            let successor = if k < 311 {
                words[k + 1]
            } else {
                twist(words)[0]
            };
            let y = merged(words[k], successor);
            ahead ^ (y >> 1) ^ (if y & 1 == 1 {
                MATRIX_A
            } else {
                0
            })
        }),
{
    let before = twist_prefix(words, k as nat);
    lemma_twist_prefix_at(words, 312, k);
    lemma_twist_prefix_len(words, k as nat);
    assert(twist(words)[k] == twisted(before, k));
    lemma_twist_prefix_at(words, k as nat, k);
    lemma_twist_prefix_at(words, k as nat, (k + 1) % 312);
    lemma_twist_prefix_at(words, k as nat, (k + 156) % 312);
    lemma_twist_prefix_at(words, 312, 0);
    lemma_twist_prefix_at(words, 312, (k + 156) % 312);
}

/// Tempering loses nothing: two words with the same tempered value are the
/// same word.
pub proof fn lemma_temper_injective(a: u64, b: u64)
    by (bit_vector)
    ensures
        temper(a) == temper(b) ==> a == b,
{
}

/// The 64-bit Mersenne Twister.
pub struct Mt19937 {
    state: [u64; N],
    index: usize,
}

impl View for Mt19937 {
    type V = MtState;

    closed spec fn view(&self) -> MtState {
        MtState { words: self.state@, cursor: self.index as nat }
    }
}

impl Mt19937 {
    #[verifier::type_invariant]
    spec fn inv(&self) -> bool {
        self.index <= N + 1
    }

    /// Seeds every word from the scalar `s` and marks the words as used up.
    fn init_genrand(&mut self, s: u64)
        ensures
            final(self).state@ == scalar_words(s),
            final(self).index == N,
    {
        proof {
            use_type_invariant(&*self);
        }
        self.state[0] = s;
        self.index = 1;
        while self.index < N
            invariant
                1 <= self.index <= N,
                forall|k: int| 0 <= k < self.index ==> self.state@[k] == scalar_word(s, k as nat),
            decreases N - self.index,
        {
            let prev: u64 = self.state[self.index - 1];
            proof {
                lemma_mul_add_wraps64(6364136223846793005u64, prev ^ (prev >> 30), self.index as u64);
            }
            self.state[self.index] = 6364136223846793005u64.wrapping_mul(
                prev ^ (prev >> 30),
            ).wrapping_add(self.index as u64) & 0x5555555555555555u64;
            self.index += 1;
        }
        assert(self.state@ =~= scalar_words(s));
    }

    /// Seeds the generator from a non-empty key sequence of any length.
    pub fn with_array(init_key: Vec<u64>) -> (g: Self)
        requires
            init_key@.len() > 0,
        ensures
            g@ == (MtState { words: array_words(init_key@), cursor: 312 }),
            mt_valid(g@),
    {
        let key_len: usize = init_key.len();
        let mut mt = Self { state: [0; N], index: 0 };
        mt.init_genrand(19650218);
        let ghost start = Mixing { words: scalar_words(19650218), i: 1, j: 0 };
        let mut i: usize = 1;
        let mut j: usize = 0;
        let k: usize = if N > key_len { N } else { key_len };
        for n in 0..k
            invariant
                key_len == init_key@.len(),
                key_len > 0,
                mt.index == N,
                1 <= i < N,
                j < key_len,
                key_pass(start, init_key@, n as nat) == (Mixing { words: mt.state@, i: i as int, j: j as int }),
        {
            let prev: u64 = mt.state[i - 1];
            proof {
                lemma_mul_wraps64(prev ^ (prev >> 30), 1664525);
                lemma_add_add_wraps64(
                    mt.state[i as int] ^ (prev ^ (prev >> 30)).wrapping_mul(1664525),
                    init_key[j as int],
                    j as u64,
                );
            }
            mt.state[i] = (mt.state[i] ^ (prev ^ (prev >> 30)).wrapping_mul(1664525)).wrapping_add(
                init_key[j],
            ).wrapping_add(j as u64) & 0xffffffff;
            i += 1;
            j += 1;
            if i >= N {
                mt.state[0] = mt.state[N - 1];
                i = 1;
            }
            if j >= key_len {
                j = 0;
            }
        }
        let ghost keyed = key_pass(start, init_key@, k as nat);
        for n in 0..(N - 1)
            invariant
                mt.index == N,
                1 <= i < N,
                index_pass(keyed, n as nat) == (Mixing { words: mt.state@, i: i as int, j: j as int }),
        {
            let prev: u64 = mt.state[i - 1];
            proof {
                lemma_mul_wraps64(prev ^ (prev >> 30), 1566083941);
                lemma_sub_wraps64(
                    mt.state[i as int] ^ (prev ^ (prev >> 30)).wrapping_mul(1566083941),
                    i as u64,
                );
            }
            mt.state[i] = (mt.state[i] ^ (prev ^ (prev >> 30)).wrapping_mul(1566083941)).wrapping_sub(
                i as u64,
            ) & 0xffffffff;
            i += 1;
            if i >= N {
                mt.state[0] = mt.state[N - 1];
                i = 1;
            }
        }
        mt
    }

    /// Draws the next value: regenerates all words first if the cursor has run
    /// off their end, then tempers the word under the cursor and moves the
    /// cursor on by one.
    pub fn generate(&mut self) -> (r: u64)
        ensures
            mt_valid(old(self)@),
            mt_valid(final(self)@),
            final(self)@ == mt_step(old(self)@),
            r == mt_output(old(self)@),
    {
        proof {
            use_type_invariant(&*self);
        }
        if self.index >= N {
            if self.index == N + 1 {
                self.init_genrand(5489);
            }
            let ghost start = self.state@;
            for kk in 0..(N - M)
                invariant
                    self.index <= N + 1,
                    self.state@ == twist_prefix(start, kk as nat),
            {
                let y: u64 = (self.state[kk] & UPPER_MASK) | (self.state[kk + 1] & LOWER_MASK);
                self.state[kk] = self.state[kk + M] ^ (y >> 1) ^ (if y & 1 == 1 {
                    MATRIX_A
                } else {
                    0
                });
            }
            for kk in (N - M)..(N - 1)
                invariant
                    self.index <= N + 1,
                    self.state@ == twist_prefix(start, kk as nat),
            {
                let y: u64 = (self.state[kk] & UPPER_MASK) | (self.state[kk + 1] & LOWER_MASK);
                self.state[kk] = self.state[kk + M - N] ^ (y >> 1) ^ (if y & 1 == 1 {
                    MATRIX_A
                } else {
                    0
                });
            }
            let y: u64 = (self.state[N - 1] & UPPER_MASK) | (self.state[0] & LOWER_MASK);
            self.state[N - 1] = self.state[M - 1] ^ (y >> 1) ^ (if y & 1 == 1 {
                MATRIX_A
            } else {
                0
            });
            self.index = 0;
            assert(self.state@ == twist_prefix(start, 312));
        }
        let mut y: u64 = self.state[self.index];
        self.index += 1;
        y ^= y >> 11;
        y ^= (y << 7) & 0x9d2c5680;
        y ^= (y << 15) & 0xefc60000;
        y ^= y >> 18;
        y
    }
}

impl Generator for Mt19937 {
    type Output = u64;

    open spec fn valid(s: MtState) -> bool {
        mt_valid(s)
    }

    open spec fn step(s: MtState) -> MtState {
        mt_step(s)
    }

    open spec fn output(s: MtState) -> u64 {
        mt_output(s)
    }

    proof fn lemma_step_valid(s: MtState) {
        lemma_twist_prefix_len(s.words, 312);
        lemma_twist_prefix_len(scalar_words(5489), 312);
    }

    fn draw(&mut self) -> (r: u64) {
        self.generate()
    }
}

/// Batch boundary, first part: when the words are used up, the next 312 draws
/// trigger exactly one regeneration. After `k` of them the words are the
/// one twist of the old words and the cursor stands at `k`; draw `k` handed
/// out word `k - 1` of that twist, tempered.
pub proof fn lemma_first_batch(s: MtState, k: nat)
    requires
        s.words.len() == 312,
        s.cursor == 312,
        1 <= k <= 312,
    ensures
        after::<Mt19937>(s, k) == (MtState { words: twist(s.words), cursor: k }),
        mt_output(after::<Mt19937>(s, (k - 1) as nat)) == temper(twist(s.words)[k - 1]),
    decreases k,
{
    if k == 1 {
        assert(after::<Mt19937>(s, 0) == s);
    } else {
        lemma_first_batch(s, (k - 1) as nat);
    }
}

/// Batch boundary, second part: the 313th draw regenerates the words once
/// more and hands out word 0 of the second twist, tempered.
pub proof fn lemma_second_batch(s: MtState)
    requires
        s.words.len() == 312,
        s.cursor == 312,
    ensures
        after::<Mt19937>(s, 313) == (MtState { words: twist(twist(s.words)), cursor: 1 }),
        mt_output(after::<Mt19937>(s, 312)) == temper(twist(twist(s.words))[0]),
{
    lemma_first_batch(s, 312);
}

} // verus!
