//! What every generator has in common: a state, a transition, and an output
//! drawn from the state before the transition.

use vstd::prelude::*;

verus! {

/// A deterministic generator: a finite-state machine whose every draw maps the
/// current abstract state to one output and one successor state.
pub trait Generator: View + Sized {
    /// The raw integer type of one draw.
    type Output;

    /// The states that a live generator can be in.
    spec fn valid(s: Self::V) -> bool;

    /// The state that follows `s`.
    spec fn step(s: Self::V) -> Self::V;

    /// The value drawn when the generator is in state `s`.
    spec fn output(s: Self::V) -> Self::Output;

    /// A draw never leaves the valid states.
    proof fn lemma_step_valid(s: Self::V)
        requires
            Self::valid(s),
        ensures
            Self::valid(Self::step(s)),
    ;

    /// Draws one value and moves to the next state. A live generator is
    /// always in a valid state.
    fn draw(&mut self) -> (r: Self::Output)
        ensures
            Self::valid(old(self)@),
            r == Self::output(old(self)@),
            final(self)@ == Self::step(old(self)@),
    ;
}

/// The state reached from `s` by `n` draws.
pub open spec fn after<G: Generator>(s: G::V, n: nat) -> G::V
    decreases n,
{
    if n == 0 {
        s
    } else {
        G::step(after::<G>(s, (n - 1) as nat))
    }
}

/// The first `n` values drawn from state `s`, in order.
pub open spec fn outputs<G: Generator>(s: G::V, n: nat) -> Seq<G::Output> {
    Seq::new(n, |i: int| G::output(after::<G>(s, i as nat)))
}

/// Every state reached from a valid state is valid.
pub proof fn lemma_after_valid<G: Generator>(s: G::V, n: nat)
    requires
        G::valid(s),
    ensures
        G::valid(after::<G>(s, n)),
    decreases n,
{
    if n > 0 {
        lemma_after_valid::<G>(s, (n - 1) as nat);
        G::lemma_step_valid(after::<G>(s, (n - 1) as nat));
    }
}

/// Drawing `m` times and then `n` times reaches the state of `m + n` draws.
pub proof fn lemma_after_add<G: Generator>(s: G::V, m: nat, n: nat)
    ensures
        after::<G>(after::<G>(s, m), n) == after::<G>(s, m + n),
    decreases n,
{
    if n > 0 {
        lemma_after_add::<G>(s, m, (n - 1) as nat);
    }
}

/// Bulk draws continue each other: the first `m + n` values are the first
/// `m`, followed by the first `n` drawn from the state that those `m` leave.
pub proof fn lemma_outputs_append<G: Generator>(s: G::V, m: nat, n: nat)
    ensures
        outputs::<G>(s, m + n) == outputs::<G>(s, m) + outputs::<G>(after::<G>(s, m), n),
{
    let joined = outputs::<G>(s, m) + outputs::<G>(after::<G>(s, m), n);
    assert forall|i: int| 0 <= i < m + n implies #[trigger] outputs::<G>(s, m + n)[i] == joined[i] by {
        if i >= m {
            lemma_after_add::<G>(s, m, (i - m) as nat);
        }
    }
    assert(outputs::<G>(s, m + n) =~= joined);
}

/// Determinism: two generators in the same state hand out the same values
/// in the same order and end in the same state, however many are drawn.
pub proof fn lemma_deterministic<G: Generator>(a: G, b: G, n: nat)
    requires
        a@ == b@,
    ensures
        outputs::<G>(a@, n) == outputs::<G>(b@, n),
        after::<G>(a@, n) == after::<G>(b@, n),
{
}

/// Draws `count` values in a row; the result is what `count` single draws give.
pub fn draw_list<G: Generator>(g: &mut G, count: usize) -> (v: Vec<G::Output>)
    ensures
        v@ == outputs::<G>(old(g)@, count as nat),
        final(g)@ == after::<G>(old(g)@, count as nat),
{
    let mut v: Vec<G::Output> = Vec::new();
    let mut i: usize = 0;
    while i < count
        invariant
            i <= count,
            g@ == after::<G>(old(g)@, i as nat),
            v@ == outputs::<G>(old(g)@, i as nat),
        decreases count - i,
    {
        let r = g.draw();
        v.push(r);
        i += 1;
    }
    v
}

} // verus!
