//! Dividing an amount among weighted parties by largest remainder.
//!
//! Every party first receives its exact share rounded down. The units that
//! are left go, one each, to the parties whose shares lost most by rounding;
//! of two that lost the same, the one that comes first is served first.

use crate::amounts::Amounts;
use crate::relations::{fair_shares, total_of};
use crate::types::{Error, MilestoneEscrow};
use vstd::arithmetic::div_mod::{
    lemma_fundamental_div_mod, lemma_fundamental_div_mod_converse, lemma_mod_bound,
};
use vstd::prelude::*;

verus! {

/// The sum of the first `n` elements.
pub open spec fn sum_to(s: Seq<int>, n: nat) -> int
    decreases n,
{
    if n == 0 {
        0
    } else {
        sum_to(s, (n - 1) as nat) + s[n - 1]
    }
}

/// The sum of all elements.
pub open spec fn sum(s: Seq<int>) -> int {
    sum_to(s, s.len())
}

/// A sequence of machine integers as mathematical integers.
pub open spec fn ints(s: Seq<i128>) -> Seq<int> {
    Seq::new(s.len(), |i: int| s[i] as int)
}

/// A sequence of mathematical integers as machine integers.
pub open spec fn as_amounts(s: Seq<int>) -> Seq<i128> {
    Seq::new(s.len(), |i: int| s[i] as i128)
}

/// Party `i`'s exact share of `total`, rounded down.
pub open spec fn floor_share(total: int, weights: Seq<int>, i: int) -> int {
    (total * weights[i]) / sum(weights)
}

/// What rounding took from party `i`, in units of one over the sum of weights.
pub open spec fn lost_share(total: int, weights: Seq<int>, i: int) -> int {
    (total * weights[i]) % sum(weights)
}

/// All shares, rounded down.
pub open spec fn floor_shares(total: int, weights: Seq<int>) -> Seq<int> {
    Seq::new(weights.len(), |i: int| floor_share(total, weights, i))
}

/// What rounding took from each party.
pub open spec fn lost_shares(total: int, weights: Seq<int>) -> Seq<int> {
    Seq::new(weights.len(), |i: int| lost_share(total, weights, i))
}

/// Party `j` is served before party `i`.
pub open spec fn served_before(lost: Seq<int>, j: int, i: int) -> bool {
    lost[j] > lost[i] || (lost[j] == lost[i] && j < i)
}

/// How many of the first `n` parties are served before party `i`.
pub open spec fn rank_among(lost: Seq<int>, i: int, n: nat) -> nat
    decreases n,
{
    if n == 0 {
        0
    } else {
        rank_among(lost, i, (n - 1) as nat) + if served_before(lost, n - 1, i) {
            1nat
        } else {
            0nat
        }
    }
}

/// How many parties are served before party `i`.
pub open spec fn rank(lost: Seq<int>, i: int) -> nat {
    rank_among(lost, i, lost.len())
}

/// The units that are left when every share is rounded down.
pub open spec fn residue(total: int, weights: Seq<int>) -> int {
    total - sum(floor_shares(total, weights))
}

/// What each party receives.
pub open spec fn allocation(total: int, weights: Seq<int>) -> Seq<int> {
    Seq::new(
        weights.len(),
        |i: int|
            floor_share(total, weights, i) + if rank(lost_shares(total, weights), i) < residue(
                total,
                weights,
            ) {
                1int
            } else {
                0int
            },
    )
}

/// No weight is negative, and not all of them are zero.
pub open spec fn weights_proper(weights: Seq<int>) -> bool {
    &&& forall|i: int| 0 <= i < weights.len() ==> (#[trigger] weights[i]) >= 0
    &&& sum(weights) > 0
}

/// The weights are proper, and their sum is in range.
pub open spec fn weights_valid(weights: Seq<int>) -> bool {
    weights_proper(weights) && sum(weights) <= i128::MAX
}

/// No product of `total` and a weight is out of range.
pub open spec fn products_fit(total: int, weights: Seq<int>) -> bool {
    forall|i: int| 0 <= i < weights.len() ==> total * (#[trigger] weights[i]) <= i128::MAX
}

/// Why an amount cannot be divided by `weights`; `misweighted` is the answer to
/// weights that are not proper, `overweight` to a sum that is out of range.
pub open spec fn allocation_refusal(
    total: int,
    weights: Seq<int>,
    misweighted: Error,
    overweight: Error,
) -> Option<Error> {
    if !weights_proper(weights) {
        Some(misweighted)
    } else if !weights_valid(weights) {
        Some(overweight)
    } else if !products_fit(total, weights) {
        Some(Error::InvalidAmount)
    } else {
        None
    }
}

// ── the service order ────────────────────────────────────────────────────────

/// How many of the first `n` flags are up.
pub open spec fn count_up(taken: Seq<bool>, n: nat) -> nat
    decreases n,
{
    if n == 0 {
        0
    } else {
        count_up(taken, (n - 1) as nat) + if taken[n - 1] {
            1nat
        } else {
            0nat
        }
    }
}

/// The parties in `taken` are exactly the first `k` in service order, `k` being
/// their number.
pub open spec fn served_first(lost: Seq<int>, taken: Seq<bool>, k: nat) -> bool {
    &&& taken.len() == lost.len()
    &&& count_up(taken, taken.len()) == k
    &&& forall|j: int, i: int|
        #![trigger taken[j], taken[i]]
        0 <= j < taken.len() && 0 <= i < taken.len() && taken[j] && !taken[i] ==> served_before(
            lost,
            j,
            i,
        )
}

/// Party `best` is the next in service order when those in `taken` were served.
pub open spec fn next_served(lost: Seq<int>, taken: Seq<bool>, best: int) -> bool {
    &&& 0 <= best < taken.len()
    &&& !taken[best]
    &&& forall|i: int|
        0 <= i < taken.len() && !(#[trigger] taken[i]) && i != best ==> served_before(
            lost,
            best,
            i,
        )
}

proof fn lemma_none_up(taken: Seq<bool>, n: nat)
    requires
        n <= taken.len(),
        forall|i: int| 0 <= i < n ==> !(#[trigger] taken[i]),
    ensures
        count_up(taken, n) == 0,
    decreases n,
{
    if n > 0 {
        lemma_none_up(taken, (n - 1) as nat);
    }
}

/// Nobody has been served yet.
pub proof fn lemma_start(lost: Seq<int>, taken: Seq<bool>)
    requires
        taken.len() == lost.len(),
        forall|i: int| 0 <= i < taken.len() ==> !(#[trigger] taken[i]),
    ensures
        served_first(lost, taken, 0),
{
    lemma_none_up(taken, taken.len());
}

proof fn lemma_count_le_rank(lost: Seq<int>, taken: Seq<bool>, i: int, n: nat)
    requires
        n <= taken.len(),
        forall|j: int| 0 <= j < n && #[trigger] taken[j] ==> served_before(lost, j, i),
    ensures
        count_up(taken, n) <= rank_among(lost, i, n),
    decreases n,
{
    if n > 0 {
        lemma_count_le_rank(lost, taken, i, (n - 1) as nat);
    }
}

proof fn lemma_rank_le_count(lost: Seq<int>, taken: Seq<bool>, i: int, n: nat)
    requires
        n <= taken.len(),
        forall|j: int| 0 <= j < n && !(#[trigger] taken[j]) ==> !served_before(lost, j, i),
    ensures
        rank_among(lost, i, n) <= count_up(taken, n),
    decreases n,
{
    if n > 0 {
        lemma_rank_le_count(lost, taken, i, (n - 1) as nat);
    }
}

proof fn lemma_count_update(taken: Seq<bool>, at: int, n: nat)
    requires
        0 <= at < taken.len(),
        n <= taken.len(),
        !taken[at],
    ensures
        count_up(taken.update(at, true), n) == count_up(taken, n) + if at < n {
            1nat
        } else {
            0nat
        },
    decreases n,
{
    if n > 0 {
        lemma_count_update(taken, at, (n - 1) as nat);
    }
}

/// Whoever is next has the rank that is due, and can be served.
pub proof fn lemma_serve_next(lost: Seq<int>, taken: Seq<bool>, k: nat, best: int)
    requires
        served_first(lost, taken, k),
        next_served(lost, taken, best),
    ensures
        rank(lost, best) == k,
        served_first(lost, taken.update(best, true), k + 1),
{
    lemma_count_le_rank(lost, taken, best, taken.len());
    lemma_rank_le_count(lost, taken, best, taken.len());
    lemma_count_update(taken, best, taken.len());
}

/// Whoever has not been served has a rank of at least `k`.
pub proof fn lemma_unserved(lost: Seq<int>, taken: Seq<bool>, k: nat, i: int)
    requires
        served_first(lost, taken, k),
        0 <= i < taken.len(),
        !taken[i],
    ensures
        rank(lost, i) >= k,
{
    lemma_count_le_rank(lost, taken, i, taken.len());
}

proof fn lemma_all_up(taken: Seq<bool>, n: nat)
    requires
        n <= taken.len(),
    ensures
        count_up(taken, n) <= n,
        count_up(taken, n) == n ==> forall|i: int| 0 <= i < n ==> #[trigger] taken[i],
        count_up(taken, n) < n ==> exists|i: int| 0 <= i < n && !(#[trigger] taken[i]),
    decreases n,
{
    if n > 0 {
        lemma_all_up(taken, (n - 1) as nat);
        if taken[n - 1] && count_up(taken, (n - 1) as nat) < n - 1 {
            let i = choose|i: int| 0 <= i < n - 1 && !(#[trigger] taken[i]);
            assert(!taken[i]);
        }
    }
}

/// As long as fewer than all were served, somebody is left.
pub proof fn lemma_somebody_left(lost: Seq<int>, taken: Seq<bool>, k: nat)
    requires
        served_first(lost, taken, k),
    ensures
        k <= taken.len(),
        k < taken.len() ==> exists|i: int| 0 <= i < taken.len() && !(#[trigger] taken[i]),
        k == taken.len() ==> forall|i: int| 0 <= i < taken.len() ==> #[trigger] taken[i],
{
    lemma_all_up(taken, taken.len());
}

/// The flags of three parties, counted one by one.
pub proof fn lemma_up_to_three(taken: Seq<bool>, k: nat)
    requires
        taken.len() == 3,
        count_up(taken, 3) == k,
    ensures
        k == (if taken[0] { 1nat } else { 0 }) + (if taken[1] { 1nat } else { 0 }) + (if taken[2] {
            1nat
        } else {
            0
        }),
{
    reveal_with_fuel(count_up, 4);
}

/// Whoever has been served has a rank below `k`.
pub proof fn lemma_served(lost: Seq<int>, taken: Seq<bool>, k: nat, i: int)
    requires
        served_first(lost, taken, k),
        0 <= i < taken.len(),
        taken[i],
    ensures
        rank(lost, i) < k,
{
    let others = taken.update(i, false);
    assert(others.update(i, true) =~= taken);
    lemma_count_update(others, i, others.len());
    assert forall|j: int| 0 <= j < others.len() && !(#[trigger] others[j]) implies !served_before(
        lost,
        j,
        i,
    ) by {
        if j != i {
            assert(!taken[j]);
            assert(served_before(lost, i, j));
        }
    }
    lemma_rank_le_count(lost, others, i, others.len());
}

proof fn lemma_best_among(lost: Seq<int>, taken: Seq<bool>, n: nat) -> (best: int)
    requires
        taken.len() == lost.len(),
        n <= taken.len(),
        exists|i: int| 0 <= i < n && !(#[trigger] taken[i]),
    ensures
        0 <= best < n,
        !taken[best],
        forall|i: int|
            0 <= i < n && !(#[trigger] taken[i]) && i != best ==> served_before(lost, best, i),
    decreases n,
{
    let last = n - 1;
    if exists|i: int| 0 <= i < last && !(#[trigger] taken[i]) {
        let best = lemma_best_among(lost, taken, last as nat);
        if !taken[last] && lost[last] > lost[best] {
            last
        } else {
            best
        }
    } else {
        last
    }
}

/// For every `k` up to their number there are `k` parties served first.
proof fn lemma_first_exist(lost: Seq<int>, k: nat) -> (taken: Seq<bool>)
    requires
        k <= lost.len(),
    ensures
        served_first(lost, taken, k),
    decreases k,
{
    if k == 0 {
        let taken = Seq::new(lost.len(), |i: int| false);
        lemma_start(lost, taken);
        taken
    } else {
        let before = lemma_first_exist(lost, (k - 1) as nat);
        lemma_somebody_left(lost, before, (k - 1) as nat);
        let best = lemma_best_among(lost, before, before.len());
        lemma_serve_next(lost, before, (k - 1) as nat, best);
        before.update(best, true)
    }
}

// ── the arithmetic of the shares ─────────────────────────────────────────────

proof fn lemma_one_share(total: int, weights: Seq<int>, i: int)
    requires
        total >= 0,
        weights_valid(weights),
        0 <= i < weights.len(),
    ensures
        floor_share(total, weights, i) * sum(weights) + lost_share(total, weights, i) == total
            * weights[i],
        0 <= lost_share(total, weights, i) < sum(weights),
        floor_share(total, weights, i) >= 0,
{
    let whole = sum(weights);
    let product = total * weights[i];
    assert(product >= 0) by (nonlinear_arith)
        requires
            total >= 0,
            weights[i] >= 0,
            product == total * weights[i],
    ;
    lemma_fundamental_div_mod(product, whole);
    lemma_mod_bound(product, whole);
    assert(product / whole >= 0) by (nonlinear_arith)
        requires
            product >= 0,
            whole > 0,
    ;
    assert(whole * (product / whole) == (product / whole) * whole) by (nonlinear_arith);
}

proof fn lemma_share_sums(total: int, weights: Seq<int>, n: nat)
    requires
        total >= 0,
        weights_valid(weights),
        n <= weights.len(),
    ensures
        sum_to(floor_shares(total, weights), n) * sum(weights) + sum_to(
            lost_shares(total, weights),
            n,
        ) == total * sum_to(weights, n),
        0 <= sum_to(lost_shares(total, weights), n) <= n * (sum(weights) - 1),
        0 <= sum_to(floor_shares(total, weights), n),
        0 <= sum_to(weights, n),
    decreases n,
{
    let whole = sum(weights);
    if n > 0 {
        let m = (n - 1) as nat;
        lemma_share_sums(total, weights, m);
        lemma_one_share(total, weights, n - 1);
        let floors = sum_to(floor_shares(total, weights), m);
        let floor = floor_share(total, weights, n - 1);
        assert((floors + floor) * whole == floors * whole + floor * whole) by (nonlinear_arith);
        let before = sum_to(weights, m);
        let weight = weights[n - 1];
        assert(total * (before + weight) == total * before + total * weight) by (nonlinear_arith);
        assert(n * (whole - 1) == m * (whole - 1) + (whole - 1)) by (nonlinear_arith)
            requires
                n == m + 1,
        ;
    } else {
        assert(0 * whole == 0 && total * 0 == 0 && 0 * (whole - 1) == 0) by (nonlinear_arith);
    }
}

proof fn lemma_prefix_le_whole(weights: Seq<int>, n: nat, m: nat)
    requires
        forall|i: int| 0 <= i < weights.len() ==> (#[trigger] weights[i]) >= 0,
        n <= m <= weights.len(),
    ensures
        sum_to(weights, n) <= sum_to(weights, m),
    decreases m,
{
    if n < m {
        lemma_prefix_le_whole(weights, n, (m - 1) as nat);
    }
}

/// The shares of the first `n` parties, rounded down, are within the total.
proof fn lemma_floors_within(total: int, weights: Seq<int>, n: nat)
    requires
        total >= 0,
        weights_valid(weights),
        n <= weights.len(),
    ensures
        0 <= sum_to(floor_shares(total, weights), n) <= total,
{
    let whole = sum(weights);
    let floors = sum_to(floor_shares(total, weights), n);
    let part = sum_to(weights, n);
    lemma_share_sums(total, weights, n);
    lemma_prefix_le_whole(weights, n, weights.len());
    assert(floors <= total) by (nonlinear_arith)
        requires
            floors * whole <= total * part,
            0 <= part <= whole,
            total >= 0,
            whole > 0,
    ;
}

/// No share, rounded down, exceeds the sum of them all.
proof fn lemma_floor_within(total: int, weights: Seq<int>, i: int)
    requires
        total >= 0,
        weights_valid(weights),
        0 <= i < weights.len(),
    ensures
        floor_share(total, weights, i) <= sum(floor_shares(total, weights)),
{
    let floors = floor_shares(total, weights);
    assert forall|j: int| 0 <= j < floors.len() implies (#[trigger] floors[j]) >= 0 by {
        lemma_one_share(total, weights, j);
    }
    lemma_prefix_le_whole(floors, (i + 1) as nat, floors.len());
    lemma_share_sums(total, weights, i as nat);
}

/// Fewer units are left over than there are parties.
pub proof fn lemma_residue_bound(total: int, weights: Seq<int>)
    requires
        total >= 0,
        weights_valid(weights),
    ensures
        0 <= residue(total, weights) < weights.len(),
        residue(total, weights) * sum(weights) == sum(lost_shares(total, weights)),
{
    let whole = sum(weights);
    let n = weights.len();
    let left = residue(total, weights);
    let floors = sum(floor_shares(total, weights));
    lemma_share_sums(total, weights, n);
    lemma_floors_within(total, weights, n);
    assert((total - floors) * whole == total * whole - floors * whole) by (nonlinear_arith);
    assert(left < n) by (nonlinear_arith)
        requires
            left * whole <= n * (whole - 1),
            whole > 0,
            n >= 0,
            n > 0 || whole <= 0,
    ;
}

// ── the laws of the division ─────────────────────────────────────────────────

proof fn lemma_allocation_sum(
    total: int,
    weights: Seq<int>,
    taken: Seq<bool>,
    n: nat,
)
    requires
        total >= 0,
        weights_valid(weights),
        residue(total, weights) >= 0,
        served_first(lost_shares(total, weights), taken, residue(total, weights) as nat),
        n <= weights.len(),
    ensures
        sum_to(allocation(total, weights), n) == sum_to(floor_shares(total, weights), n) + count_up(
            taken,
            n,
        ),
    decreases n,
{
    if n > 0 {
        let lost = lost_shares(total, weights);
        let k = residue(total, weights) as nat;
        lemma_allocation_sum(total, weights, taken, (n - 1) as nat);
        if taken[n - 1] {
            lemma_served(lost, taken, k, n - 1);
        } else {
            lemma_unserved(lost, taken, k, n - 1);
        }
    }
}

/// Conservation: the parts sum to the whole, for every total and every valid
/// weights. No unit is lost and none is made up.
pub proof fn lemma_allocation_conserves(total: int, weights: Seq<int>)
    requires
        total >= 0,
        weights_valid(weights),
    ensures
        sum(allocation(total, weights)) == total,
{
    lemma_residue_bound(total, weights);
    let taken = lemma_first_exist(
        lost_shares(total, weights),
        residue(total, weights) as nat,
    );
    lemma_allocation_sum(total, weights, taken, weights.len());
}

/// How many of the first `n` elements are positive.
spec fn positives(s: Seq<int>, n: nat) -> nat
    decreases n,
{
    if n == 0 {
        0
    } else {
        positives(s, (n - 1) as nat) + if s[n - 1] > 0 {
            1nat
        } else {
            0nat
        }
    }
}

proof fn lemma_lost_by_positives(total: int, weights: Seq<int>, i: int, n: nat)
    requires
        total >= 0,
        weights_valid(weights),
        0 <= i < weights.len(),
        lost_share(total, weights, i) == 0,
        n <= weights.len(),
    ensures
        sum_to(lost_shares(total, weights), n) <= (sum(weights) - 1) * positives(
            lost_shares(total, weights),
            n,
        ),
        positives(lost_shares(total, weights), n) <= rank_among(
            lost_shares(total, weights),
            i,
            n,
        ),
    decreases n,
{
    let whole = sum(weights);
    let lost = lost_shares(total, weights);
    if n > 0 {
        lemma_lost_by_positives(total, weights, i, (n - 1) as nat);
        lemma_one_share(total, weights, n - 1);
        let before = positives(lost, (n - 1) as nat) as int;
        assert((whole - 1) * (before + 1) == (whole - 1) * before + (whole - 1))
            by (nonlinear_arith);
    } else {
        assert((whole - 1) * 0 == 0) by (nonlinear_arith);
    }
}

/// A party whose share is exact receives none of the units that are left.
proof fn lemma_exact_share_gets_no_more(total: int, weights: Seq<int>, i: int)
    requires
        total >= 0,
        weights_valid(weights),
        0 <= i < weights.len(),
        lost_share(total, weights, i) == 0,
    ensures
        allocation(total, weights)[i] == floor_share(total, weights, i),
{
    let whole = sum(weights);
    let lost = lost_shares(total, weights);
    let left = residue(total, weights);
    let above = positives(lost, weights.len()) as int;
    lemma_residue_bound(total, weights);
    lemma_lost_by_positives(total, weights, i, weights.len());
    assert(left <= above) by (nonlinear_arith)
        requires
            left * whole <= (whole - 1) * above,
            whole > 0,
            above >= 0,
    ;
}

/// Bounded error: what a party receives is not negative, and less than one
/// unit away from its exact share `total * weight / sum(weights)`.
pub proof fn lemma_allocation_error_is_bounded(total: int, weights: Seq<int>, i: int)
    requires
        total >= 0,
        weights_valid(weights),
        0 <= i < weights.len(),
    ensures
        allocation(total, weights)[i] >= 0,
        total * weights[i] - sum(weights) < allocation(total, weights)[i] * sum(weights) < total
            * weights[i] + sum(weights),
{
    lemma_one_share(total, weights, i);
    let whole = sum(weights);
    let floor = floor_share(total, weights, i);
    assert((floor + 1) * whole == floor * whole + whole) by (nonlinear_arith);
    if lost_share(total, weights, i) == 0 {
        lemma_exact_share_gets_no_more(total, weights, i);
    }
}

/// Zero weights: a party with the weight 0 receives exactly 0.
pub proof fn lemma_zero_weight_gets_nothing(total: int, weights: Seq<int>, i: int)
    requires
        total >= 0,
        weights_valid(weights),
        0 <= i < weights.len(),
        weights[i] == 0,
    ensures
        allocation(total, weights)[i] == 0,
{
    lemma_one_share(total, weights, i);
    let whole = sum(weights);
    let floor = floor_share(total, weights, i);
    let lost = lost_share(total, weights, i);
    assert(total * 0 == 0) by (nonlinear_arith);
    assert(floor == 0 && lost == 0) by (nonlinear_arith)
        requires
            floor * whole + lost == 0,
            floor >= 0,
            lost >= 0,
            whole > 0,
    ;
    lemma_exact_share_gets_no_more(total, weights, i);
}

proof fn lemma_rank_follows_order(lost: Seq<int>, j: int, i: int, n: nat)
    requires
        n <= lost.len(),
        0 <= j < lost.len(),
        0 <= i < lost.len(),
        served_before(lost, j, i),
    ensures
        rank_among(lost, j, n) <= rank_among(lost, i, n),
    decreases n,
{
    if n > 0 {
        lemma_rank_follows_order(lost, j, i, (n - 1) as nat);
    }
}

/// Ties: of two parties with the same weight, the one that comes first
/// receives as much as the other or one unit more.
pub proof fn lemma_ties_favour_the_first(total: int, weights: Seq<int>, j: int, i: int)
    requires
        total >= 0,
        weights_valid(weights),
        0 <= j < i < weights.len(),
        weights[j] == weights[i],
    ensures
        allocation(total, weights)[i] <= allocation(total, weights)[j] <= allocation(
            total,
            weights,
        )[i] + 1,
{
    let lost = lost_shares(total, weights);
    lemma_rank_follows_order(lost, j, i, lost.len());
}

/// Largest remainders first: where one party's share is rounded up and another's is
/// rounded down, the first has lost more to rounding, or as much and comes first.
pub proof fn lemma_largest_remainders_are_served(total: int, weights: Seq<int>, i: int, j: int)
    requires
        total >= 0,
        weights_valid(weights),
        0 <= i < weights.len(),
        0 <= j < weights.len(),
        allocation(total, weights)[i] * sum(weights) > total * weights[i],
        allocation(total, weights)[j] * sum(weights) < total * weights[j],
    ensures
        (total * weights[j]) % sum(weights) <= (total * weights[i]) % sum(weights),
        (total * weights[j]) % sum(weights) == (total * weights[i]) % sum(weights) ==> i < j,
{
    let whole = sum(weights);
    let lost = lost_shares(total, weights);
    lemma_one_share(total, weights, i);
    lemma_one_share(total, weights, j);
    let floor = floor_share(total, weights, j);
    assert((floor + 1) * whole == floor * whole + whole) by (nonlinear_arith);
    if served_before(lost, j, i) {
        lemma_rank_follows_order(lost, j, i, lost.len());
    }
}

/// The whole is divided fairly, and every part is in range.
pub proof fn lemma_allocation_is_fair(total: i128, weights: Seq<i128>)
    requires
        total >= 0,
        weights_valid(ints(weights)),
    ensures
        fair_shares(as_amounts(allocation(total as int, ints(weights))), total as int, weights),
{
    let w = ints(weights);
    let parts = allocation(total as int, w);
    let shares = as_amounts(parts);
    let whole = sum(w);
    lemma_total_is_the_sum(weights);
    lemma_allocation_conserves(total as int, w);
    assert forall|i: int| 0 <= i < weights.len() implies 0 <= #[trigger] parts[i] <= total by {
        lemma_allocation_error_is_bounded(total as int, w, i);
        lemma_one_share(total as int, w, i);
        lemma_weight_within_sum(w, i, w.len());
        let part = parts[i];
        let t = total as int;
        let weight = w[i];
        assert(part <= t) by (nonlinear_arith)
            requires
                part * whole < t * weight + whole,
                0 <= weight <= whole,
                whole > 0,
                t >= 0,
        ;
    }
    assert(ints(shares) =~= parts);
    lemma_total_is_the_sum(shares);
    assert forall|i: int| 0 <= i < weights.len() implies total * weights[i] - whole < (#[trigger]
        shares[i]) * whole < total * weights[i] + whole by {
        lemma_allocation_error_is_bounded(total as int, w, i);
        assert(parts[i] == shares[i]);
    }
    assert forall|i: int, j: int|
        #![trigger shares[i], shares[j]]
        0 <= i < weights.len() && 0 <= j < weights.len() && shares[i] * whole > total * weights[i]
            && shares[j] * whole < total * weights[j] implies (total * weights[j]) % whole <= (total
        * weights[i]) % whole && ((total * weights[j]) % whole == (total * weights[i]) % whole
        ==> i < j) by {
        assert(parts[i] == shares[i] && parts[j] == shares[j]);
        lemma_largest_remainders_are_served(total as int, w, i, j);
    }
}

/// The sum of amounts is their total.
pub proof fn lemma_total_is_the_sum(amounts: Seq<i128>)
    ensures
        sum(ints(amounts)) == total_of(amounts),
    decreases amounts.len(),
{
    if amounts.len() > 0 {
        let less = amounts.drop_last();
        lemma_total_is_the_sum(less);
        lemma_same_prefix(ints(amounts), ints(less), less.len());
    }
}

proof fn lemma_same_prefix(a: Seq<int>, b: Seq<int>, n: nat)
    requires
        n <= a.len(),
        n <= b.len(),
        forall|i: int| 0 <= i < n ==> a[i] == b[i],
    ensures
        sum_to(a, n) == sum_to(b, n),
    decreases n,
{
    if n > 0 {
        lemma_same_prefix(a, b, (n - 1) as nat);
    }
}

proof fn lemma_weight_within_sum(weights: Seq<int>, i: int, n: nat)
    requires
        n <= weights.len(),
        0 <= i < weights.len(),
        forall|k: int| 0 <= k < weights.len() ==> (#[trigger] weights[k]) >= 0,
    ensures
        0 <= sum_to(weights, n),
        i < n ==> weights[i] <= sum_to(weights, n),
    decreases n,
{
    if n > 0 {
        lemma_weight_within_sum(weights, i, (n - 1) as nat);
    }
}

/// The weights, each multiplied by `factor`.
pub open spec fn scaled(weights: Seq<int>, factor: int) -> Seq<int> {
    Seq::new(weights.len(), |i: int| factor * weights[i])
}

proof fn lemma_scaled_sum(weights: Seq<int>, factor: int, n: nat)
    requires
        n <= weights.len(),
    ensures
        sum_to(scaled(weights, factor), n) == factor * sum_to(weights, n),
    decreases n,
{
    if n > 0 {
        lemma_scaled_sum(weights, factor, (n - 1) as nat);
        let before = sum_to(weights, (n - 1) as nat);
        let last = weights[n - 1];
        assert(factor * (before + last) == factor * before + factor * last) by (nonlinear_arith);
    } else {
        assert(factor * 0 == 0) by (nonlinear_arith);
    }
}

/// Scaling the weights changes no share, and scales what rounding took from it.
proof fn lemma_scaled_share(total: int, weights: Seq<int>, factor: int, i: int)
    requires
        total >= 0,
        weights_proper(weights),
        factor > 0,
        0 <= i < weights.len(),
    ensures
        floor_share(total, scaled(weights, factor), i) == floor_share(total, weights, i),
        lost_share(total, scaled(weights, factor), i) == factor * lost_share(total, weights, i),
{
    let whole = sum(weights);
    let product = total * weights[i];
    lemma_scaled_sum(weights, factor, weights.len());
    assert(total * (factor * weights[i]) == factor * product) by (nonlinear_arith)
        requires
            product == total * weights[i],
    ;
    assert(product >= 0) by (nonlinear_arith)
        requires
            total >= 0,
            weights[i] >= 0,
            product == total * weights[i],
    ;
    let quotient = product / whole;
    let remainder = product % whole;
    lemma_fundamental_div_mod(product, whole);
    lemma_mod_bound(product, whole);
    assert(factor * product == quotient * (factor * whole) + factor * remainder)
        by (nonlinear_arith)
        requires
            product == whole * quotient + remainder,
    ;
    assert(0 <= factor * remainder < factor * whole) by (nonlinear_arith)
        requires
            factor > 0,
            0 <= remainder < whole,
    ;
    lemma_fundamental_div_mod_converse(
        factor * product,
        factor * whole,
        quotient,
        factor * remainder,
    );
}

proof fn lemma_scaled_rank(lost: Seq<int>, other: Seq<int>, factor: int, i: int, n: nat)
    requires
        factor > 0,
        lost.len() == other.len(),
        forall|j: int| 0 <= j < lost.len() ==> #[trigger] other[j] == factor * lost[j],
        0 <= i < lost.len(),
        n <= lost.len(),
    ensures
        rank_among(other, i, n) == rank_among(lost, i, n),
    decreases n,
{
    if n > 0 {
        lemma_scaled_rank(lost, other, factor, i, (n - 1) as nat);
        let a = lost[n - 1];
        let b = lost[i];
        assert(other[n - 1] == factor * a && other[i] == factor * b);
        assert((factor * a > factor * b <==> a > b) && (factor * a == factor * b <==> a == b))
            by (nonlinear_arith)
            requires
                factor > 0,
        ;
    }
}

proof fn lemma_scaled_allocation(total: int, weights: Seq<int>, factor: int)
    requires
        total >= 0,
        weights_proper(weights),
        factor > 0,
    ensures
        allocation(total, scaled(weights, factor)) == allocation(total, weights),
{
    let more = scaled(weights, factor);
    assert forall|i: int| 0 <= i < weights.len() implies floor_share(total, more, i)
        == floor_share(total, weights, i) && lost_share(total, more, i) == factor * lost_share(
        total,
        weights,
        i,
    ) by {
        lemma_scaled_share(total, weights, factor, i);
    }
    assert(floor_shares(total, more) =~= floor_shares(total, weights));
    assert forall|i: int| 0 <= i < weights.len() implies rank(lost_shares(total, more), i) == rank(
        lost_shares(total, weights),
        i,
    ) by {
        lemma_scaled_rank(
            lost_shares(total, weights),
            lost_shares(total, more),
            factor,
            i,
            weights.len(),
        );
    }
    assert(allocation(total, more) =~= allocation(total, weights));
}

/// Only the ratios of the weights matter: weights in the same proportions divide
/// every total in the same way.
pub proof fn lemma_only_ratios_matter(total: int, a: Seq<int>, b: Seq<int>, p: int, q: int)
    requires
        total >= 0,
        weights_proper(a),
        weights_proper(b),
        a.len() == b.len(),
        p > 0,
        q > 0,
        forall|i: int| 0 <= i < a.len() ==> p * (#[trigger] a[i]) == q * b[i],
    ensures
        allocation(total, a) == allocation(total, b),
{
    assert(scaled(a, p) =~= scaled(b, q));
    lemma_scaled_allocation(total, a, p);
    lemma_scaled_allocation(total, b, q);
}

// ── the division itself ──────────────────────────────────────────────────────

/// The first party among those with the largest remainder.
fn largest(remainders: &Amounts) -> (best: u32)
    requires
        remainders@.len() > 0,
    ensures
        best < remainders@.len(),
        forall|i: int| 0 <= i < remainders@.len() ==> remainders@[i] <= remainders@[best as int],
        forall|i: int| 0 <= i < best ==> remainders@[i] < remainders@[best as int],
{
    let mut best: u32 = 0;
    let mut index: u32 = 1;
    while index < remainders.len()
        invariant
            best < index <= remainders@.len(),
            forall|i: int| 0 <= i < index ==> remainders@[i] <= remainders@[best as int],
            forall|i: int| 0 <= i < best ==> remainders@[i] < remainders@[best as int],
        decreases remainders@.len() - index,
    {
        if remainders.at(index) > remainders.at(best) {
            best = index;
        }
        index = index + 1;
    }
    best
}

impl MilestoneEscrow {
    /// Whether some weight is negative.
    fn has_negative(weights: &Amounts) -> (r: bool)
        ensures
            r == exists|i: int| 0 <= i < weights@.len() && (#[trigger] ints(weights@)[i]) < 0,
    {
        let ghost all = ints(weights@);
        let mut index: u32 = 0;
        while index < weights.len()
            invariant
                index <= weights@.len(),
                all == ints(weights@),
                forall|i: int| 0 <= i < index ==> (#[trigger] all[i]) >= 0,
            decreases weights@.len() - index,
        {
            let weight: i128 = weights.at(index);
            assert(all[index as int] == weight);
            if weight < 0 {
                return true;
            }
            index = index + 1;
        }
        false
    }

    /// The sum of `weights`; or `misweighted` where they are not proper, and
    /// `overweight` where their sum is out of range.
    fn sum_of_weights(
        weights: &Amounts,
        misweighted: Error,
        overweight: Error,
    ) -> (r: Result<i128, Error>)
        ensures
            r == if !weights_proper(ints(weights@)) {
                Err(misweighted)
            } else if !weights_valid(ints(weights@)) {
                Err(overweight)
            } else {
                Ok(sum(ints(weights@)) as i128)
            },
    {
        let ghost all = ints(weights@);
        if Self::has_negative(weights) {
            return Err(misweighted);
        }
        let mut total: i128 = 0;
        let mut index: u32 = 0;
        while index < weights.len()
            invariant
                index <= weights@.len(),
                all == ints(weights@),
                total == sum_to(all, index as nat),
                total >= 0,
                forall|i: int| 0 <= i < all.len() ==> (#[trigger] all[i]) >= 0,
            decreases weights@.len() - index,
        {
            let weight: i128 = weights.at(index);
            assert(all[index as int] == weight);
            match total.checked_add(weight) {
                Some(more) => {
                    total = more;
                },
                None => {
                    proof {
                        lemma_prefix_le_whole(all, (index + 1) as nat, all.len());
                    }
                    return Err(overweight);
                },
            }
            index = index + 1;
        }
        if total <= 0 {
            return Err(misweighted);
        }
        Ok(total)
    }

    /// Divides `total_amount` by `weights`.
    pub(crate) fn allocate_by_weights(
        total_amount: i128,
        weights: &Amounts,
        misweighted: Error,
        overweight: Error,
    ) -> (r: Result<Amounts, Error>)
        requires
            total_amount >= 0,
        ensures
            match r {
                Ok(allocations) => {
                    &&& allocation_refusal(
                        total_amount as int,
                        ints(weights@),
                        misweighted,
                        overweight,
                    ) is None
                    &&& ints(allocations@) == allocation(total_amount as int, ints(weights@))
                    &&& allocations@ == as_amounts(
                        allocation(total_amount as int, ints(weights@)),
                    )
                },
                Err(error) => allocation_refusal(
                    total_amount as int,
                    ints(weights@),
                    misweighted,
                    overweight,
                ) == Some(error),
            },
    {
        let ghost all = ints(weights@);
        let ghost total = total_amount as int;
        let weight_sum: i128 = match Self::sum_of_weights(
            weights,
            misweighted,
            overweight,
        ) {
            Ok(weight_sum) => weight_sum,
            Err(error) => {
                return Err(error);
            },
        };
        let mut allocations = weights.new_beside();
        let mut remainders = weights.new_beside();
        let mut allocated: i128 = 0;
        let mut index: u32 = 0;
        let count: u32 = weights.len();
        while index < count
            invariant
                index <= count == weights@.len(),
                all == ints(weights@),
                total == total_amount >= 0,
                weights_valid(all),
                weight_sum == sum(all),
                allocations@.len() == index,
                remainders@.len() == index,
                allocated == sum_to(floor_shares(total, all), index as nat),
                forall|i: int| 0 <= i < index ==> total * (#[trigger] all[i]) <= i128::MAX,
                forall|i: int|
                    0 <= i < index ==> #[trigger] allocations@[i] == floor_share(total, all, i),
                forall|i: int|
                    0 <= i < index ==> #[trigger] remainders@[i] == lost_share(total, all, i),
            decreases count - index,
        {
            let weight: i128 = weights.at(index);
            assert(all[index as int] == weight);
            let weighted: i128 = match total_amount.checked_mul(weight) {
                Some(weighted) => weighted,
                None => {
                    assert(total * weight >= 0) by (nonlinear_arith)
                        requires
                            total >= 0,
                            weight >= 0,
                    ;
                    return Err(Error::InvalidAmount);
                },
            };
            proof {
                lemma_one_share(total, all, index as int);
                lemma_floors_within(total, all, (index + 1) as nat);
                assert(total * weight >= 0) by (nonlinear_arith)
                    requires
                        total >= 0,
                        weight >= 0,
                ;
            }
            let base: i128 = weighted / weight_sum;
            let rem: i128 = weighted % weight_sum;
            allocations.push_back(base);
            remainders.push_back(rem);
            allocated = allocated + base;
            index = index + 1;
        }
        proof {
            lemma_floors_within(total, all, all.len());
        }
        let remaining: i128 = total_amount - allocated;
        let ghost lost = lost_shares(total, all);
        let ghost mut taken = Seq::new(all.len(), |i: int| false);
        let mut given: i128 = 0;
        proof {
            lemma_residue_bound(total, all);
            lemma_start(lost, taken);
        }
        while given < remaining
            invariant
                0 <= given <= remaining == residue(total, all) < all.len(),
                total == total_amount >= 0,
                weights_valid(all),
                lost == lost_shares(total, all),
                allocations@.len() == all.len(),
                remainders@.len() == all.len(),
                served_first(lost, taken, given as nat),
                forall|i: int|
                    0 <= i < all.len() ==> #[trigger] allocations@[i] == floor_share(total, all, i)
                        + if taken[i] {
                        1int
                    } else {
                        0int
                    },
                forall|i: int|
                    0 <= i < all.len() ==> #[trigger] remainders@[i] == if taken[i] {
                        i128::MIN as int
                    } else {
                        lost[i]
                    },
            decreases remaining - given,
        {
            proof {
                lemma_somebody_left(lost, taken, given as nat);
            }
            let best: u32 = largest(&remainders);
            proof {
                let left = choose|i: int| 0 <= i < taken.len() && !(#[trigger] taken[i]);
                assert(remainders@[left] <= remainders@[best as int]);
                lemma_one_share(total, all, left);
                lemma_one_share(total, all, best as int);
                assert forall|i: int|
                    0 <= i < taken.len() && !(#[trigger] taken[i]) && i
                        != best implies served_before(lost, best as int, i) by {
                    assert(remainders@[i] <= remainders@[best as int]);
                }
                lemma_serve_next(lost, taken, given as nat, best as int);
                lemma_floors_within(total, all, all.len());
                lemma_floor_within(total, all, best as int);
            }
            let current: i128 = allocations.at(best);
            allocations.set(best, current + 1);
            remainders.set(best, i128::MIN);
            proof {
                taken = taken.update(best as int, true);
            }
            given = given + 1;
        }
        proof {
            assert forall|i: int| 0 <= i < all.len() implies ints(allocations@)[i] == allocation(
                total,
                all,
            )[i] by {
                assert(allocations@[i] == allocations@[i]);
                if taken[i] {
                    lemma_served(lost, taken, given as nat, i);
                } else {
                    lemma_unserved(lost, taken, given as nat, i);
                }
            }
            assert(ints(allocations@) =~= allocation(total, all));
            assert forall|i: int| 0 <= i < all.len() implies allocations@[i] == as_amounts(
                allocation(total, all),
            )[i] by {
                assert(ints(allocations@)[i] == allocations@[i]);
            }
            assert(allocations@ =~= as_amounts(allocation(total, all)));
        }
        Ok(allocations)
    }
}

} // verus!
