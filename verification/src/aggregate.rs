//! Running many independent trials and summing the wins per strategy.
//! The reduction is plain component-wise addition, so it is associative
//! and commutative: the totals do not depend on how the trials were
//! partitioned across parallel workers.

use crate::trial::monty_hall;
use rayon::iter::IntoParallelIterator;
use rayon::iter::ParallelIterator;
use vstd::prelude::*;

verus! {

/// How many outcomes in `s` are wins.
pub open spec fn count_wins(s: Seq<bool>) -> nat
    decreases s.len(),
{
    if s.len() == 0 {
        0
    } else {
        count_wins(s.drop_last()) + (if s.last() {
            1nat
        } else {
            0nat
        })
    }
}

/// The per-trial outcomes of the keep-the-pick strategy.
pub open spec fn no_switch_outcomes(s: Seq<(bool, bool)>) -> Seq<bool> {
    s.map_values(|p: (bool, bool)| p.0)
}

/// The per-trial outcomes of the switching strategy.
pub open spec fn switch_outcomes(s: Seq<(bool, bool)>) -> Seq<bool> {
    s.map_values(|p: (bool, bool)| p.1)
}

/// A run of trials never yields more wins than it has trials.
pub proof fn lemma_count_wins_le_len(s: Seq<bool>)
    ensures
        count_wins(s) <= s.len(),
    decreases s.len(),
{
    if s.len() > 0 {
        lemma_count_wins_le_len(s.drop_last());
    }
}

/// Splitting a run of outcomes anywhere and tallying the two parts
/// separately gives the same total as tallying the whole run: the
/// reduction is associative under any partition.
pub proof fn lemma_count_wins_concat(a: Seq<bool>, b: Seq<bool>)
    ensures
        count_wins(a + b) == count_wins(a) + count_wins(b),
    decreases b.len(),
{
    if b.len() == 0 {
        assert(a + b =~= a);
    } else {
        lemma_count_wins_concat(a, b.drop_last());
        assert((a + b).drop_last() =~= a + b.drop_last());
        assert((a + b).last() == b.last());
    }
}

/// The order in which two partial runs are combined does not change the
/// total: the reduction is commutative.
pub proof fn lemma_count_wins_commutes(a: Seq<bool>, b: Seq<bool>)
    ensures
        count_wins(a + b) == count_wins(b + a),
{
    lemma_count_wins_concat(a, b);
    lemma_count_wins_concat(b, a);
}

/// Tally a fixed sequence of per-trial outcome pairs (no-switch outcome,
/// switch outcome) into the two win totals.
pub fn tally_pairs(outcomes: &Vec<(bool, bool)>) -> (r: (u64, u64))
    ensures
        r.0 == count_wins(no_switch_outcomes(outcomes@)),
        r.1 == count_wins(switch_outcomes(outcomes@)),
        r.0 <= outcomes@.len(),
        r.1 <= outcomes@.len(),
{
    let n = outcomes.len();
    let mut wins_no_switch: u64 = 0;
    let mut wins_switch: u64 = 0;
    let mut i: usize = 0;
    while i < n
        invariant
            i <= n,
            n == outcomes@.len(),
            wins_no_switch == count_wins(no_switch_outcomes(outcomes@.take(i as int))),
            wins_switch == count_wins(switch_outcomes(outcomes@.take(i as int))),
            wins_no_switch <= i,
            wins_switch <= i,
        decreases n - i,
    {
        let (a, b) = outcomes[i];
        proof {
            let prefix = outcomes@.take(i + 1);
            assert(no_switch_outcomes(prefix).drop_last() =~= no_switch_outcomes(
                outcomes@.take(i as int),
            ));
            assert(switch_outcomes(prefix).drop_last() =~= switch_outcomes(
                outcomes@.take(i as int),
            ));
            assert(no_switch_outcomes(prefix).last() == a);
            assert(switch_outcomes(prefix).last() == b);
        }
        if a {
            wins_no_switch = wins_no_switch + 1;
        }
        if b {
            wins_switch = wins_switch + 1;
        }
        i = i + 1;
    }
    proof {
        assert(outcomes@.take(n as int) =~= outcomes@);
    }
    (wins_no_switch, wins_switch)
}

/// One independent trial pair: the outcome of a round played without
/// switching and the outcome of a round played with switching, each
/// counted as 0 or 1.
pub fn trial_pair() -> (r: (u64, u64))
    ensures
        r.0 <= 1,
        r.1 <= 1,
{
    let no_switch: u64 = if monty_hall(false) {
        1
    } else {
        0
    };
    let with_switch: u64 = if monty_hall(true) {
        1
    } else {
        0
    };
    (no_switch, with_switch)
}

/// The reduction step: partial win totals add component-wise.
pub fn combine_wins(a: (u64, u64), b: (u64, u64)) -> (r: (u64, u64))
    requires
        a.0 + b.0 <= u64::MAX,
        a.1 + b.1 <= u64::MAX,
    ensures
        r.0 == a.0 + b.0,
        r.1 == a.1 + b.1,
{
    (a.0 + b.0, a.1 + b.1)
}

/// The identity of the reduction: no trials, no wins.
pub fn empty_tally() -> (r: (u64, u64))
    ensures
        r.0 == 0,
        r.1 == 0,
{
    (0, 0)
}

/// Relies on rayon's IntoParallelIterator::into_par_iter,
/// ParallelIterator::map and ParallelIterator::reduce over the range
/// 0..trial_count: every item of the range is mapped through `trial_pair`
/// exactly once, and the partial pairs are folded from the `empty_tally`
/// identity with `combine_wins`, so each total is a sum of `trial_count`
/// addends that are each at most 1. An empty range yields the identity.
#[verifier::external_body]
fn run_parallel(trial_count: u32) -> (r: (u64, u64))
    ensures
        r.0 <= trial_count,
        r.1 <= trial_count,
{
    (0..trial_count)
        .into_par_iter()
        .map(|_| trial_pair())
        .reduce(|| empty_tally(), |a, b| combine_wins(a, b))
}

/// Drive `trial_count` independent trial pairs across the available
/// parallel workers and sum the wins per strategy. Neither total can
/// exceed the trial count, and a zero trial count yields zero wins for
/// both strategies.
pub fn run(trial_count: u32) -> (r: (u64, u64))
    ensures
        r.0 <= trial_count,
        r.1 <= trial_count,
        trial_count == 0 ==> r.0 == 0 && r.1 == 0,
{
    run_parallel(trial_count)
}

/// The win rate as hundredths of a percent, rounded toward zero. A zero
/// trial count is defined to give a rate of zero: reporting never divides
/// by zero.
pub fn win_rate_basis_points(wins: u64, trial_count: u32) -> (r: u64)
    requires
        wins <= trial_count,
    ensures
        trial_count == 0 ==> r == 0,
        trial_count > 0 ==> r == wins * 10000 / (trial_count as int),
{
    if trial_count == 0 {
        0
    } else {
        (wins * 10000) / (trial_count as u64)
    }
}

} // verus!
