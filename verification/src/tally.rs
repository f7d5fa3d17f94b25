//! The Tally Store: one homomorphic accumulator per option.
//!
//! The store's view is the sequence of plaintext counts its accumulators
//! stand for.  Accumulators start as encryptions of zero, are only ever
//! grown by homomorphic addition, and their number never changes for the
//! lifetime of the store.  Because accumulation is pointwise wrapping
//! addition — a commutative monoid — the final counts do not depend on the
//! order in which ballots are admitted; the lemmas at the end of this
//! module state that.

use vstd::prelude::*;

use crate::capability::{he_add, trivial_encrypt, wrap_add, Ciphertext};
use vstd::arithmetic::div_mod::{lemma_add_mod_noop, lemma_add_mod_noop_right, lemma_small_mod};

verus! {

/// The plaintexts a sequence of ciphertexts stands for.
pub open spec fn plaintexts_of(cs: Seq<Ciphertext>) -> Seq<u64> {
    Seq::new(cs.len(), |i: int| cs[i]@)
}

/// A tally of `n` options with no ballots admitted.
pub open spec fn zero_tally(n: nat) -> Seq<u64> {
    Seq::new(n, |i: int| 0u64)
}

/// One ballot admitted: pointwise wrapping addition of its contributions.
pub open spec fn seq_wrap_add(tally: Seq<u64>, contribution: Seq<u64>) -> Seq<u64> {
    Seq::new(tally.len(), |i: int| wrap_add(tally[i], contribution[i]))
}

/// A sequence of ballots admitted in order.
pub open spec fn tally_after(init: Seq<u64>, ballots: Seq<Seq<u64>>) -> Seq<u64>
    decreases ballots.len(),
{
    if ballots.len() == 0 {
        init
    } else {
        tally_after(seq_wrap_add(init, ballots[0]), ballots.drop_first())
    }
}

/// The exact (unwrapped) sum of the ballots' contributions to option `i`.
pub open spec fn sum_at(ballots: Seq<Seq<u64>>, i: int) -> int
    decreases ballots.len(),
{
    if ballots.len() == 0 {
        0
    } else {
        ballots[0][i] + sum_at(ballots.drop_first(), i)
    }
}

/// The accumulators, one per option, each owned exclusively by this store.
pub struct TallyStore {
    counts: Vec<Ciphertext>,
}

impl View for TallyStore {
    type V = Seq<u64>;

    /// The plaintext count standing behind each option's accumulator.
    closed spec fn view(&self) -> Seq<u64> {
        plaintexts_of(self.counts@)
    }
}

impl TallyStore {
    /// Creates a store of `num_options` accumulators, each an encryption of
    /// zero.
    pub fn new(server_key: &tfhe::ServerKey, num_options: usize) -> (r: Self)
        ensures
            r@ == zero_tally(num_options as nat),
    {
        let mut counts: Vec<Ciphertext> = Vec::new();
        let mut i: usize = 0;
        while i < num_options
            invariant
                i <= num_options,
                counts@.len() == i,
                forall|j: int| 0 <= j < i ==> counts@[j]@ == 0u64,
            decreases num_options - i,
        {
            counts.push(trivial_encrypt(server_key, 0));
            i = i + 1;
        }
        let store = TallyStore { counts };
        proof {
            assert(store@ =~= zero_tally(num_options as nat));
        }
        store
    }

    /// How many options this store tallies.
    pub fn num_options(&self) -> (r: usize)
        ensures
            r == self@.len(),
    {
        self.counts.len()
    }

    /// Homomorphically adds one contribution into the accumulator at
    /// `option_index`; the other accumulators are untouched.
    pub fn accumulate_option(
        &mut self,
        server_key: &tfhe::ServerKey,
        option_index: usize,
        vote: &Ciphertext,
    )
        requires
            option_index < old(self)@.len(),
        ensures
            final(self)@ == old(self)@.update(
                option_index as int,
                wrap_add(old(self)@[option_index as int], vote@),
            ),
    {
        let sum = he_add(server_key, &self.counts[option_index], vote);
        self.counts[option_index] = sum;
        proof {
            assert(self@ =~= old(self)@.update(
                option_index as int,
                wrap_add(old(self)@[option_index as int], vote@),
            ));
        }
    }

    /// Adds one admitted ballot's contribution into each option's
    /// accumulator.  This is the single mutation point of the store.
    pub fn accumulate(&mut self, server_key: &tfhe::ServerKey, votes: &Vec<Ciphertext>)
        requires
            votes@.len() == old(self)@.len(),
        ensures
            final(self)@ == seq_wrap_add(old(self)@, plaintexts_of(votes@)),
    {
        let n: usize = self.counts.len();
        let mut i: usize = 0;
        while i < n
            invariant
                n == old(self)@.len(),
                votes@.len() == n,
                self@.len() == n,
                i <= n,
                forall|j: int| 0 <= j < i ==> self@[j] == wrap_add(old(self)@[j], votes@[j]@),
                forall|j: int| i <= j < n ==> self@[j] == old(self)@[j],
            decreases n - i,
        {
            self.accumulate_option(server_key, i, &votes[i]);
            i = i + 1;
        }
        proof {
            assert(self@ =~= seq_wrap_add(old(self)@, plaintexts_of(votes@)));
        }
    }

    /// The current accumulators, for the finalizer to read; no mutation.
    pub fn read_snapshot(&self) -> (r: &Vec<Ciphertext>)
        ensures
            plaintexts_of(r@) == self@,
    {
        &self.counts
    }
}

// ---------------------------------------------------------------------------
// Accumulation is a commutative monoid on the plaintext counts.
// ---------------------------------------------------------------------------

/// A ballot admitted into a fresh tally leaves exactly its contributions:
/// zero is the identity of accumulation.
pub proof fn lemma_accumulate_into_fresh(contribution: Seq<u64>, n: nat)
    requires
        contribution.len() == n,
    ensures
        seq_wrap_add(zero_tally(n), contribution) == contribution,
{
    let m: int = 0x1_0000_0000_0000_0000;
    assert forall|i: int| 0 <= i < n implies seq_wrap_add(zero_tally(n), contribution)[i]
        == contribution[i] by {
        lemma_small_mod(contribution[i] as nat, m as nat);
    }
    assert(seq_wrap_add(zero_tally(n), contribution) =~= contribution);
}

/// A tally with no ballots admitted decrypts to zero for every option:
/// what `TallyStore::new` establishes, read through `read_snapshot` or a
/// finalize, is zero everywhere.
pub proof fn lemma_fresh_tally_zero(n: nat, i: int)
    requires
        0 <= i < n,
    ensures
        zero_tally(n)[i] == 0u64,
{
}

/// Round trip: one accepted single-option ballot of value `v` on a fresh
/// tally finalizes to exactly `v`.
pub proof fn lemma_single_option_round_trip(v: u64)
    ensures
        seq_wrap_add(zero_tally(1), seq![v]) == seq![v],
{
    lemma_accumulate_into_fresh(seq![v], 1);
}

/// Admitting two ballots in either order yields the same tally.
pub proof fn lemma_admission_commutes(tally: Seq<u64>, a: Seq<u64>, b: Seq<u64>)
    ensures
        seq_wrap_add(seq_wrap_add(tally, a), b) == seq_wrap_add(seq_wrap_add(tally, b), a),
{
    let m: int = 0x1_0000_0000_0000_0000;
    assert forall|i: int| 0 <= i < tally.len() implies seq_wrap_add(seq_wrap_add(tally, a), b)[i]
        == seq_wrap_add(seq_wrap_add(tally, b), a)[i] by {
        let t = tally[i];
        let x = a[i];
        let y = b[i];
        lemma_wrap_add_mod_left(t, x, y);
        lemma_wrap_add_mod_left(t, y, x);
    }
    assert(seq_wrap_add(seq_wrap_add(tally, a), b) =~= seq_wrap_add(seq_wrap_add(tally, b), a));
}

/// `wrap_add(wrap_add(t, x), y)` is the exact sum `t + x + y` reduced once.
proof fn lemma_wrap_add_mod_left(t: u64, x: u64, y: u64)
    ensures
        wrap_add(wrap_add(t, x), y) == (t + x + y) % 0x1_0000_0000_0000_0000,
{
    let m: int = 0x1_0000_0000_0000_0000;
    lemma_add_mod_noop(t + x, y as int, m);
    lemma_small_mod(y as nat, m as nat);
}

/// The tally after a run of ballots is, at each option, the initial count
/// plus the exact sum of the contributions, wrapped.
pub proof fn lemma_tally_after_closed_form(init: Seq<u64>, ballots: Seq<Seq<u64>>, i: int)
    requires
        0 <= i < init.len(),
    ensures
        tally_after(init, ballots).len() == init.len(),
        tally_after(init, ballots)[i] == (init[i] + sum_at(ballots, i))
            % 0x1_0000_0000_0000_0000,
    decreases ballots.len(),
{
    let m: int = 0x1_0000_0000_0000_0000;
    if ballots.len() == 0 {
        lemma_small_mod(init[i] as nat, m as nat);
    } else {
        let next = seq_wrap_add(init, ballots[0]);
        lemma_tally_after_closed_form(next, ballots.drop_first(), i);
        let s = sum_at(ballots.drop_first(), i);
        assert(next[i] == (init[i] + ballots[0][i]) % m);
        lemma_add_mod_noop(init[i] + ballots[0][i], s, m);
        lemma_add_mod_noop_right((init[i] + ballots[0][i]) % m, s, m);
        assert((next[i] + s) % m == (init[i] + ballots[0][i] + s) % m);
    }
}

/// The exact sum over a sequence of ballots, minus one ballot.
proof fn lemma_sum_at_remove(ballots: Seq<Seq<u64>>, j: int, i: int)
    requires
        0 <= j < ballots.len(),
    ensures
        sum_at(ballots.remove(j), i) == sum_at(ballots, i) - ballots[j][i],
    decreases ballots.len(),
{
    if j == 0 {
        assert(ballots.remove(0) =~= ballots.drop_first());
    } else {
        lemma_sum_at_remove(ballots.drop_first(), j - 1, i);
        assert(ballots.remove(j).drop_first() =~= ballots.drop_first().remove(j - 1));
        assert(ballots.remove(j)[0] == ballots[0]);
    }
}

/// The exact sum of the contributions does not depend on the order of the
/// ballots: two runs with the same ballots sum alike.
proof fn lemma_sum_at_permutation(bs1: Seq<Seq<u64>>, bs2: Seq<Seq<u64>>, i: int)
    requires
        bs1.to_multiset() == bs2.to_multiset(),
    ensures
        sum_at(bs1, i) == sum_at(bs2, i),
    decreases bs1.len(),
{
    broadcast use vstd::seq_lib::group_to_multiset_ensures;

    bs1.to_multiset_ensures();
    bs2.to_multiset_ensures();
    if bs1.len() == 0 {
        assert(bs2.len() == 0);
    } else {
        let x = bs1[0];
        assert(bs1.to_multiset().count(x) > 0);
        assert(bs2.to_multiset().count(x) > 0);
        assert(bs2.contains(x));
        let j = choose|j: int| 0 <= j < bs2.len() && bs2[j] == x;
        assert(bs1.drop_first() =~= bs1.remove(0));
        assert(bs1.remove(0).to_multiset() =~= bs1.to_multiset().remove(x));
        assert(bs2.remove(j).to_multiset() =~= bs2.to_multiset().remove(x));
        lemma_sum_at_permutation(bs1.drop_first(), bs2.remove(j), i);
        lemma_sum_at_remove(bs2, j, i);
    }
}

/// Admitting the same ballots in any order — any interleaving of
/// independent callers, since each accumulation is one exclusive step —
/// yields the same final tally: `tally_after` chains the per-admission
/// update that acceptance guarantees, and two runs over the same multiset
/// of ballots end alike.
pub proof fn lemma_tally_independent_of_order(
    init: Seq<u64>,
    bs1: Seq<Seq<u64>>,
    bs2: Seq<Seq<u64>>,
)
    requires
        bs1.to_multiset() == bs2.to_multiset(),
    ensures
        tally_after(init, bs1) == tally_after(init, bs2),
{
    assert forall|i: int| 0 <= i < init.len() implies tally_after(init, bs1)[i] == tally_after(
        init,
        bs2,
    )[i] by {
        lemma_tally_after_closed_form(init, bs1, i);
        lemma_tally_after_closed_form(init, bs2, i);
        lemma_sum_at_permutation(bs1, bs2, i);
    }
    lemma_tally_after_len(init, bs1);
    lemma_tally_after_len(init, bs2);
    assert(tally_after(init, bs1) =~= tally_after(init, bs2));
}

/// Admission never changes the number of options.
proof fn lemma_tally_after_len(init: Seq<u64>, ballots: Seq<Seq<u64>>)
    ensures
        tally_after(init, ballots).len() == init.len(),
    decreases ballots.len(),
{
    if ballots.len() > 0 {
        lemma_tally_after_len(seq_wrap_add(init, ballots[0]), ballots.drop_first());
    }
}

} // verus!
