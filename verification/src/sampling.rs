//! Choosing the next token from the decoder's scores.
//!
//! The decoder's output is handed over as one non-negative integer score
//! per token of the vocabulary, a higher score for a more probable token.
//! For greedy decoding any such scores will do; for sampling they are the
//! probabilities, after the temperature has been applied, on a common
//! integer scale.

use vstd::prelude::*;
use vstd::seq_lib::lemma_multiset_commutative;
use vstd::seq_lib::group_to_multiset_ensures;
use vstd::seq_lib::to_multiset_build;
use vstd::multiset::group_multiset_axioms;
use vstd::relations::{sorted_by, total_ordering};
use vstd::seq_lib::lemma_sorted_unique;
use crate::ratio::Ratio;

verus! {

/// The place of a single-precision value among all such values, given the
/// bits of the value: its magnitude where the sign bit is clear, and below
/// zero by its magnitude and one where it is set. Values that are numbers
/// are ordered as their places are, negative zero below positive zero.
pub open spec fn spec_float_rank(bits: u32) -> int {
    if bits >= 0x8000_0000 {
        -((bits - 0x8000_0000) as int) - 1
    } else {
        bits as int
    }
}

/// The score of a logit, given the bits of its single-precision value: the
/// place of the value among all such values, lifted into the unsigned
/// range. A higher logit has a higher score, and no two logits share one,
/// so that the best score belongs to the best logit.
pub fn score_of_bits(bits: u32) -> (score: u32)
    ensures
        score == spec_float_rank(bits) + 0x8000_0000,
{
    if bits & 0x8000_0000 != 0 {
        assert(bits & 0x8000_0000 != 0 ==> bits >= 0x8000_0000 && !bits == 0xFFFF_FFFF - bits)
            by (bit_vector);
        !bits
    } else {
        assert(bits & 0x8000_0000 == 0 ==> bits < 0x8000_0000 && bits | 0x8000_0000 == bits
            + 0x8000_0000) by (bit_vector);
        bits | 0x8000_0000
    }
}

/// Scores keep the order of the values that they are made from.
pub proof fn lemma_scores_keep_order(first: u32, second: u32)
    ensures
        spec_float_rank(first) < spec_float_rank(second) <==> spec_float_rank(first) + 0x8000_0000
            < spec_float_rank(second) + 0x8000_0000,
        spec_float_rank(first) == spec_float_rank(second) <==> first == second,
        0 <= spec_float_rank(first) + 0x8000_0000 <= u32::MAX,
{
}

/// Whether token `i` comes before token `j` when the tokens are ordered by
/// descending score, the lower index first among equal scores.
pub open spec fn spec_precedes(scores: Seq<u32>, i: int, j: int) -> bool {
    scores[i] > scores[j] || (scores[i] == scores[j] && i < j)
}

/// Whether `best` is the token that comes before every other: the one with
/// the highest score, and the lowest index among those.
pub open spec fn spec_is_best(scores: Seq<u32>, best: int) -> bool {
    &&& 0 <= best < scores.len()
    &&& forall|j: int|
        0 <= j < scores.len() && j != best ==> #[trigger] spec_precedes(scores, best, j)
}

/// No two tokens are the best.
pub proof fn lemma_best_unique(scores: Seq<u32>, a: int, b: int)
    requires
        spec_is_best(scores, a),
        spec_is_best(scores, b),
    ensures
        a == b,
{
    if a != b {
        assert(spec_precedes(scores, a, b));
        assert(spec_precedes(scores, b, a));
    }
}

/// The token with the highest score, the lowest index among equal scores;
/// `None` where there are no scores.
pub fn argmax(scores: &Vec<u32>) -> (r: Option<usize>)
    ensures
        r is None <==> scores@.len() == 0,
        r matches Some(best) ==> spec_is_best(scores@, best as int),
{
    if scores.len() == 0 {
        return None;
    }
    let mut best: usize = 0;
    let mut i: usize = 1;
    while i < scores.len()
        invariant
            1 <= i <= scores@.len(),
            best < i,
            forall|j: int| 0 <= j < i && j != best ==> #[trigger] spec_precedes(
                scores@,
                best as int,
                j,
            ),
        decreases scores@.len() - i,
    {
        if scores[i] > scores[best] {
            assert forall|j: int| 0 <= j < i + 1 && j != i implies #[trigger] spec_precedes(
                scores@,
                i as int,
                j,
            ) by {
                if j != best {
                    assert(spec_precedes(scores@, best as int, j));
                }
            }
            best = i;
        }
        i = i + 1;
    }
    Some(best)
}

/// The indices `lo..hi`, in ascending order.
pub open spec fn spec_indices(lo: int, hi: int) -> Seq<usize> {
    Seq::new((hi - lo) as nat, |k: int| (lo + k) as usize)
}

/// Whether the tokens of `order` stand in order of descending score, the
/// lower index first among equal scores.
pub open spec fn spec_is_ordered(scores: Seq<u32>, order: Seq<usize>) -> bool {
    forall|a: int, b: int|
        0 <= a < b < order.len() ==> spec_precedes(
            scores,
            #[trigger] order[a] as int,
            #[trigger] order[b] as int,
        )
}

/// Whether `order` is the ranking of the vocabulary: every token once, in
/// order of descending score.
pub open spec fn spec_is_ranking(scores: Seq<u32>, order: Seq<usize>) -> bool {
    &&& order.len() == scores.len()
    &&& forall|a: int| 0 <= a < order.len() ==> #[trigger] order[a] < scores.len()
    &&& order.to_multiset() == spec_indices(0, scores.len() as int).to_multiset()
    &&& spec_is_ordered(scores, order)
}

/// Merges two ordered runs of tokens into one. Every token of `left` has a
/// lower index than every token of `right`.
fn merge(scores: &Vec<u32>, left: &Vec<usize>, right: &Vec<usize>) -> (out: Vec<usize>)
    requires
        spec_is_ordered(scores@, left@),
        spec_is_ordered(scores@, right@),
        forall|a: int| 0 <= a < left@.len() ==> #[trigger] left@[a] < scores@.len(),
        forall|b: int| 0 <= b < right@.len() ==> #[trigger] right@[b] < scores@.len(),
        forall|a: int, b: int|
            0 <= a < left@.len() && 0 <= b < right@.len() ==> #[trigger] left@[a]
                < #[trigger] right@[b],
    ensures
        out@.len() == left@.len() + right@.len(),
        spec_is_ordered(scores@, out@),
        out@.to_multiset() == left@.to_multiset().add(right@.to_multiset()),
        forall|a: int| 0 <= a < out@.len() ==> #[trigger] out@[a] < scores@.len(),
{
    broadcast use group_to_multiset_ensures;
    broadcast use group_multiset_axioms;

    let mut out: Vec<usize> = Vec::new();
    let mut i: usize = 0;
    let mut j: usize = 0;
    assert(left@.take(0).to_multiset().add(right@.take(0).to_multiset()) =~= out@.to_multiset());
    while i < left.len() || j < right.len()
        invariant
            i <= left@.len(),
            j <= right@.len(),
            out@.len() == i + j,
            spec_is_ordered(scores@, left@),
            spec_is_ordered(scores@, right@),
            forall|a: int| 0 <= a < left@.len() ==> #[trigger] left@[a] < scores@.len(),
            forall|b: int| 0 <= b < right@.len() ==> #[trigger] right@[b] < scores@.len(),
            forall|a: int, b: int|
                0 <= a < left@.len() && 0 <= b < right@.len() ==> #[trigger] left@[a]
                    < #[trigger] right@[b],
            spec_is_ordered(scores@, out@),
            forall|a: int, b: int|
                0 <= a < out@.len() && i <= b < left@.len() ==> spec_precedes(
                    scores@,
                    #[trigger] out@[a] as int,
                    #[trigger] left@[b] as int,
                ),
            forall|a: int, b: int|
                0 <= a < out@.len() && j <= b < right@.len() ==> spec_precedes(
                    scores@,
                    #[trigger] out@[a] as int,
                    #[trigger] right@[b] as int,
                ),
            out@.to_multiset() == left@.take(i as int).to_multiset().add(
                right@.take(j as int).to_multiset(),
            ),
            forall|a: int| 0 <= a < out@.len() ==> #[trigger] out@[a] < scores@.len(),
        decreases left@.len() - i + right@.len() - j,
    {
        let from_left: bool = if i == left.len() {
            false
        } else if j == right.len() {
            true
        } else {
            scores[left[i]] >= scores[right[j]]
        };
        let ghost before = out@;
        if from_left {
            let token: usize = left[i];
            proof {
                assert(left@.take(i + 1) =~= left@.take(i as int).push(token));
                assert forall|b: int| j <= b < right@.len() implies spec_precedes(
                    scores@,
                    token as int,
                    #[trigger] right@[b] as int,
                ) by {
                    if b > j {
                        assert(spec_precedes(scores@, right@[j as int] as int, right@[b] as int));
                    }
                }
            }
            out.push(token);
            i = i + 1;
            proof {
                let taken = left@.take(i - 1);
                assert(out@ =~= before.push(token));
                to_multiset_build(before, token);
                to_multiset_build(taken, token);
                assert(out@.to_multiset() =~= before.to_multiset().insert(token));
                assert(left@.take(i as int).to_multiset() =~= taken.to_multiset().insert(token));
                assert(out@.to_multiset() =~= left@.take(i as int).to_multiset().add(
                    right@.take(j as int).to_multiset(),
                ));
            }
        } else {
            let token: usize = right[j];
            proof {
                assert(right@.take(j + 1) =~= right@.take(j as int).push(token));
                assert forall|b: int| i <= b < left@.len() implies spec_precedes(
                    scores@,
                    token as int,
                    #[trigger] left@[b] as int,
                ) by {
                    if b > i {
                        assert(spec_precedes(scores@, left@[i as int] as int, left@[b] as int));
                    }
                }
            }
            out.push(token);
            j = j + 1;
            proof {
                let taken = right@.take(j - 1);
                assert(out@ =~= before.push(token));
                to_multiset_build(before, token);
                to_multiset_build(taken, token);
                assert(out@.to_multiset() =~= before.to_multiset().insert(token));
                assert(right@.take(j as int).to_multiset() =~= taken.to_multiset().insert(token));
                assert(out@.to_multiset() =~= left@.take(i as int).to_multiset().add(
                    right@.take(j as int).to_multiset(),
                ));
            }
        }
    }
    proof {
        assert(left@.take(i as int) =~= left@);
        assert(right@.take(j as int) =~= right@);
    }
    out
}

/// The tokens `lo..hi` in order of descending score.
fn rank_range(scores: &Vec<u32>, lo: usize, hi: usize) -> (out: Vec<usize>)
    requires
        lo <= hi <= scores@.len(),
    ensures
        out@.len() == hi - lo,
        spec_is_ordered(scores@, out@),
        out@.to_multiset() == spec_indices(lo as int, hi as int).to_multiset(),
        forall|a: int| 0 <= a < out@.len() ==> lo <= #[trigger] out@[a] < hi,
    decreases hi - lo,
{
    broadcast use group_to_multiset_ensures;
    broadcast use group_multiset_axioms;

    let mut out: Vec<usize> = Vec::new();
    if hi - lo == 0 {
        assert(out@ =~= spec_indices(lo as int, hi as int));
        out
    } else if hi - lo == 1 {
        out.push(lo);
        assert(out@ =~= spec_indices(lo as int, hi as int));
        out
    } else {
        let mid: usize = lo + (hi - lo) / 2;
        let left = rank_range(scores, lo, mid);
        let right = rank_range(scores, mid, hi);
        let merged = merge(scores, &left, &right);
        proof {
            assert(spec_indices(lo as int, hi as int) =~= spec_indices(lo as int, mid as int)
                + spec_indices(mid as int, hi as int));
            lemma_multiset_commutative(
                spec_indices(lo as int, mid as int),
                spec_indices(mid as int, hi as int),
            );
            assert forall|a: int| 0 <= a < merged@.len() implies lo <= #[trigger] merged@[a]
                < hi by {
                let t = merged@[a];
                assert(merged@.to_multiset().contains(t));
                if left@.to_multiset().contains(t) {
                    let k = choose|k: int| 0 <= k < left@.len() && left@[k] == t;
                    assert(lo <= left@[k] < mid);
                } else {
                    assert(right@.to_multiset().contains(t));
                    let k = choose|k: int| 0 <= k < right@.len() && right@[k] == t;
                    assert(mid <= right@[k] < hi);
                }
            }
        }
        merged
    }
}

/// The ranking of the vocabulary: every token once, in order of descending
/// score, the lower index first among equal scores.
pub fn rank(scores: &Vec<u32>) -> (order: Vec<usize>)
    ensures
        spec_is_ranking(scores@, order@),
{
    rank_range(scores, 0, scores.len())
}

/// A vocabulary has one ranking only.
pub proof fn lemma_ranking_unique(scores: Seq<u32>, first: Seq<usize>, second: Seq<usize>)
    requires
        spec_is_ranking(scores, first),
        spec_is_ranking(scores, second),
    ensures
        first == second,
{
    let leq = |a: usize, b: usize| a == b || spec_precedes(scores, a as int, b as int);
    assert(total_ordering(leq));
    assert(sorted_by(first, leq));
    assert(sorted_by(second, leq));
    lemma_sorted_unique(first, second, leq);
}

/// The sum of all scores.
pub open spec fn spec_total(scores: Seq<u32>) -> nat
    decreases scores.len(),
{
    if scores.len() == 0 {
        0
    } else {
        spec_total(scores.drop_last()) + scores.last() as nat
    }
}

/// The sum of the scores of the first `k` tokens of `order`.
pub open spec fn spec_mass(scores: Seq<u32>, order: Seq<usize>, k: int) -> nat
    decreases k,
{
    if k <= 0 {
        0
    } else {
        spec_mass(scores, order, k - 1) + scores[order[k - 1] as int] as nat
    }
}

/// Whether the first `k` tokens of `order` hold at least the fraction
/// `top_p` of all scores.
pub open spec fn spec_reaches(scores: Seq<u32>, order: Seq<usize>, k: int, top_p: Ratio) -> bool {
    spec_mass(scores, order, k) * top_p.denom >= top_p.numer * spec_total(scores)
}

/// Whether the first `size` tokens of `order` are the nucleus: without a
/// threshold all tokens, with one the shortest run of at least one token
/// that reaches it, and all tokens where no run does.
pub open spec fn spec_is_nucleus(
    scores: Seq<u32>,
    order: Seq<usize>,
    top_p: Option<Ratio>,
    size: int,
) -> bool {
    match top_p {
        None => size == order.len(),
        Some(p) => {
            &&& order.len() == 0 ==> size == 0
            &&& order.len() > 0 ==> 1 <= size <= order.len()
            &&& size == order.len() || spec_reaches(scores, order, size, p)
            &&& forall|k: int| 1 <= k < size ==> !#[trigger] spec_reaches(scores, order, k, p)
        },
    }
}

/// The point of the nucleus that a draw lands on: the draw reduced modulo
/// the sum of the scores in the nucleus.
pub open spec fn spec_target(scores: Seq<u32>, order: Seq<usize>, size: int, draw: u64) -> nat {
    let mass = spec_mass(scores, order, size);
    if mass == 0 {
        0
    } else {
        (draw as nat) % mass
    }
}

/// Whether position `pos` of `order` is the one that `draw` picks from the
/// nucleus of `size` tokens. Each token owns a stretch as long as its score
/// of the range below the sum of the scores in the nucleus, in the order of
/// the ranking, and the token whose stretch holds the target is picked.
/// Where all scores in the nucleus are zero the first token is picked.
pub open spec fn spec_is_pick(
    scores: Seq<u32>,
    order: Seq<usize>,
    size: int,
    draw: u64,
    pos: int,
) -> bool {
    &&& 0 <= pos < size
    &&& if spec_mass(scores, order, size) == 0 {
        pos == 0
    } else {
        spec_mass(scores, order, pos) <= spec_target(scores, order, size, draw) < spec_mass(
            scores,
            order,
            pos + 1,
        )
    }
}

/// The scores of `k` tokens sum to at most `k` times the highest score
/// there can be.
pub proof fn lemma_mass_bounded(scores: Seq<u32>, order: Seq<usize>, k: int)
    requires
        0 <= k,
    ensures
        spec_mass(scores, order, k) <= k * 0xFFFF_FFFF,
    decreases k,
{
    if k > 0 {
        lemma_mass_bounded(scores, order, k - 1);
    }
}

/// The sum of the scores of the first tokens of `order` grows with their
/// number.
pub proof fn lemma_mass_monotone(scores: Seq<u32>, order: Seq<usize>, i: int, j: int)
    requires
        0 <= i <= j,
    ensures
        spec_mass(scores, order, i) <= spec_mass(scores, order, j),
    decreases j - i,
{
    if i < j {
        lemma_mass_monotone(scores, order, i, j - 1);
    }
}

/// All scores sum to at most their number times the highest score there
/// can be.
pub proof fn lemma_total_bounded(scores: Seq<u32>)
    ensures
        spec_total(scores) <= scores.len() * 0xFFFF_FFFF,
    decreases scores.len(),
{
    if scores.len() > 0 {
        lemma_total_bounded(scores.drop_last());
    }
}

/// The sum of all scores.
pub fn total(scores: &Vec<u32>) -> (sum: u128)
    ensures
        sum == spec_total(scores@),
        sum <= scores@.len() * 0xFFFF_FFFF,
{
    let mut sum: u128 = 0;
    let mut i: usize = 0;
    while i < scores.len()
        invariant
            i <= scores@.len(),
            sum == spec_total(scores@.take(i as int)),
            sum <= i * 0xFFFF_FFFF,
        decreases scores@.len() - i,
    {
        proof {
            assert(scores@.take(i + 1).drop_last() =~= scores@.take(i as int));
        }
        sum = sum + scores[i] as u128;
        i = i + 1;
    }
    proof {
        assert(scores@.take(i as int) =~= scores@);
    }
    sum
}

/// The number of tokens at the head of `order` that form the nucleus.
pub fn nucleus_size(scores: &Vec<u32>, order: &Vec<usize>, top_p: Option<Ratio>) -> (size: usize)
    requires
        order@.len() == scores@.len(),
        forall|a: int| 0 <= a < order@.len() ==> #[trigger] order@[a] < scores@.len(),
    ensures
        spec_is_nucleus(scores@, order@, top_p, size as int),
{
    let p: Ratio = match top_p {
        None => {
            return order.len();
        },
        Some(p) => p,
    };
    let all: u128 = total(scores);
    let numer: u128 = p.numer as u128;
    let denom: u128 = p.denom as u128;
    let count: usize = scores.len();
    assert(numer * all <= 0xFFFF_FFFF * (0xFFFF_FFFF_FFFF_FFFF * 0xFFFF_FFFF)) by (nonlinear_arith)
        requires
            numer <= 0xFFFF_FFFF,
            all <= count * 0xFFFF_FFFF,
            count <= 0xFFFF_FFFF_FFFF_FFFF,
    ;
    let wanted: u128 = numer * all;
    let mut mass: u128 = 0;
    let mut k: usize = 0;
    while k < order.len()
        invariant
            k <= order@.len(),
            order@.len() == scores@.len(),
            forall|a: int| 0 <= a < order@.len() ==> #[trigger] order@[a] < scores@.len(),
            top_p == Some(p),
            mass == spec_mass(scores@, order@, k as int),
            wanted == p.numer * spec_total(scores@),
            denom == p.denom,
            forall|c: int| 1 <= c <= k ==> !#[trigger] spec_reaches(scores@, order@, c, p),
        decreases order@.len() - k,
    {
        proof {
            lemma_mass_bounded(scores@, order@, k + 1);
            assert(spec_mass(scores@, order@, k + 1) * denom <= 0xFFFF_FFFF_FFFF_FFFF
                * 0xFFFF_FFFF * 0xFFFF_FFFF) by (nonlinear_arith)
                requires
                    spec_mass(scores@, order@, k + 1) <= (k + 1) * 0xFFFF_FFFF,
                    k + 1 <= 0xFFFF_FFFF_FFFF_FFFF,
                    denom <= 0xFFFF_FFFF,
            ;
        }
        mass = mass + scores[order[k]] as u128;
        k = k + 1;
        if mass * denom >= wanted {
            assert(spec_reaches(scores@, order@, k as int, p));
            return k;
        }
        assert(!spec_reaches(scores@, order@, k as int, p));
    }
    k
}

/// The position in `order` that `draw` picks from the nucleus formed by
/// its first `size` tokens.
pub fn pick(scores: &Vec<u32>, order: &Vec<usize>, size: usize, draw: u64) -> (pos: usize)
    requires
        1 <= size <= order@.len(),
        forall|a: int| 0 <= a < order@.len() ==> #[trigger] order@[a] < scores@.len(),
    ensures
        spec_is_pick(scores@, order@, size as int, draw, pos as int),
{
    let mut whole: u128 = 0;
    let mut k: usize = 0;
    while k < size
        invariant
            k <= size <= order@.len(),
            forall|a: int| 0 <= a < order@.len() ==> #[trigger] order@[a] < scores@.len(),
            whole == spec_mass(scores@, order@, k as int),
        decreases size - k,
    {
        proof {
            lemma_mass_bounded(scores@, order@, k + 1);
        }
        whole = whole + scores[order[k]] as u128;
        k = k + 1;
    }
    if whole == 0 {
        return 0;
    }
    let target: u128 = draw as u128 % whole;
    let mut below: u128 = 0;
    let mut pos: usize = 0;
    loop
        invariant
            pos < size <= order@.len(),
            forall|a: int| 0 <= a < order@.len() ==> #[trigger] order@[a] < scores@.len(),
            whole == spec_mass(scores@, order@, size as int),
            whole > 0,
            target == spec_target(scores@, order@, size as int, draw),
            below == spec_mass(scores@, order@, pos as int),
            below <= target < whole,
        decreases size - pos,
    {
        proof {
            lemma_mass_bounded(scores@, order@, pos + 1);
        }
        let above: u128 = below + scores[order[pos]] as u128;
        if target < above {
            return pos;
        }
        below = above;
        pos = pos + 1;
    }
}

/// How the next token is chosen from the scores.
#[derive(Clone, Copy, Debug, PartialEq, Eq, Structural)]
pub struct SamplingPolicy {
    /// The temperature; at zero the best token is always taken.
    pub temperature: Ratio,
    /// The fraction of all scores that the nucleus must reach; without it
    /// the whole vocabulary is drawn from.
    pub top_p: Option<Ratio>,
}

impl SamplingPolicy {
    /// The policy that always takes the best token.
    pub fn greedy() -> (p: SamplingPolicy)
        ensures
            p.spec_is_greedy(),
            p.temperature.wf(),
            p.top_p is None,
    {
        SamplingPolicy { temperature: Ratio { numer: 0, denom: 1 }, top_p: None }
    }

    /// Whether the policy always takes the best token.
    pub open spec fn spec_is_greedy(self) -> bool {
        self.temperature.spec_is_zero()
    }

    /// Whether the policy always takes the best token.
    pub fn is_greedy(&self) -> (g: bool)
        ensures
            g == self.spec_is_greedy(),
    {
        self.temperature.is_zero()
    }
}

/// Whether `token` is what `policy` chooses from `scores` with `draw`: the
/// best token at temperature zero, otherwise the token that the draw picks
/// from the nucleus of the ranking.
pub open spec fn spec_is_sampled(
    policy: SamplingPolicy,
    scores: Seq<u32>,
    draw: u64,
    token: int,
) -> bool {
    if policy.spec_is_greedy() {
        spec_is_best(scores, token)
    } else {
        exists|order: Seq<usize>, size: int, pos: int|
            {
                &&& spec_is_ranking(scores, order)
                &&& spec_is_nucleus(scores, order, policy.top_p, size)
                &&& #[trigger] spec_is_pick(scores, order, size, draw, pos)
                &&& token == order[pos]
            }
    }
}

/// The best token of `scores`.
pub open spec fn spec_best(scores: Seq<u32>) -> int {
    choose|best: int| spec_is_best(scores, best)
}

/// The token that `policy` chooses from `scores` with `draw`.
pub open spec fn spec_sampled(policy: SamplingPolicy, scores: Seq<u32>, draw: u64) -> int {
    if policy.spec_is_greedy() {
        spec_best(scores)
    } else {
        choose|token: int| spec_is_sampled(policy, scores, draw, token)
    }
}

/// Chooses the next token from `scores`; `None` where there are no scores.
///
/// At temperature zero the token with the highest score is taken, and the
/// draw is not looked at. Otherwise the tokens are ranked by descending
/// score, the ranking is cut to the nucleus, and `draw`, a number that the
/// caller takes from its source of randomness, picks a token of the
/// nucleus with a chance in proportion to its score.
pub fn sample(policy: &SamplingPolicy, scores: &Vec<u32>, draw: u64) -> (r: Option<usize>)
    ensures
        r is None <==> scores@.len() == 0,
        r matches Some(token) ==> token < scores@.len() && spec_is_sampled(
            *policy,
            scores@,
            draw,
            token as int,
        ) && token == spec_sampled(*policy, scores@, draw),
{
    if policy.is_greedy() {
        let best = argmax(scores);
        proof {
            if let Some(b) = best {
                lemma_best_unique(scores@, b as int, spec_best(scores@));
            }
        }
        return best;
    }
    if scores.len() == 0 {
        return None;
    }
    let order = rank(scores);
    let size: usize = nucleus_size(scores, &order, policy.top_p);
    let pos: usize = pick(scores, &order, size, draw);
    let token: usize = order[pos];
    proof {
        assert(spec_is_pick(scores@, order@, size as int, draw, pos as int));
        assert(spec_is_sampled(*policy, scores@, draw, token as int));
        assert(spec_is_sampled(*policy, scores@, draw, spec_sampled(*policy, scores@, draw)));
        lemma_sampled_unique(
            *policy,
            scores@,
            draw,
            draw,
            token as int,
            spec_sampled(*policy, scores@, draw),
        );
    }
    Some(token)
}

/// The same scores and the same draw give the same token; at temperature
/// zero the same scores do, whatever the draw.
pub proof fn lemma_sampled_unique(
    policy: SamplingPolicy,
    scores: Seq<u32>,
    draw: u64,
    other_draw: u64,
    first: int,
    second: int,
)
    requires
        spec_is_sampled(policy, scores, draw, first),
        spec_is_sampled(policy, scores, other_draw, second),
        draw == other_draw || policy.spec_is_greedy(),
    ensures
        first == second,
{
    if policy.spec_is_greedy() {
        lemma_best_unique(scores, first, second);
    } else {
        let (order, size, pos) = choose|order: Seq<usize>, size: int, pos: int|
            {
                &&& spec_is_ranking(scores, order)
                &&& spec_is_nucleus(scores, order, policy.top_p, size)
                &&& #[trigger] spec_is_pick(scores, order, size, draw, pos)
                &&& first == order[pos]
            };
        let (other_order, other_size, other_pos) = choose|order: Seq<usize>, size: int, pos: int|
            {
                &&& spec_is_ranking(scores, order)
                &&& spec_is_nucleus(scores, order, policy.top_p, size)
                &&& #[trigger] spec_is_pick(scores, order, size, draw, pos)
                &&& second == order[pos]
            };
        lemma_ranking_unique(scores, order, other_order);
        if size < other_size {
            assert(spec_reaches(scores, order, size, policy.top_p->0));
        } else if other_size < size {
            assert(spec_reaches(scores, order, other_size, policy.top_p->0));
        }
        assert(size == other_size);
        if pos < other_pos {
            lemma_mass_monotone(scores, order, pos + 1, other_pos);
        } else if other_pos < pos {
            lemma_mass_monotone(scores, order, other_pos + 1, pos);
        }
    }
}

} // verus!
