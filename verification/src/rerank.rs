//! Reranking results and their return to input order.
//!
//! A reranking computation hands back one result per passage, each naming
//! the passage by its index in the request, in whatever order suited the
//! computation (usually best score first). A reply lists scores in the
//! order of the passages of the request.

use crate::errors::{missing_message, PgError, UnwrapPgErrExt};
use crate::scalar::Scalar;
use vstd::prelude::*;
use vstd::set_lib::{lemma_int_range, lemma_subset_equality, set_int_range};

verus! {

/// One result of a reranking computation: the score of the passage at
/// `index` in the request.
#[derive(Clone, Copy, Debug, PartialEq, Eq, Structural)]
pub struct Reranking {
    pub index: usize,
    pub score: Scalar,
}

/// Whether the result at position `j` is listed before the one at position
/// `k`: by passage index, and among results of one index by position.
pub open spec fn comes_before(results: Seq<Reranking>, j: int, k: int) -> bool {
    results[j].index < results[k].index || (results[j].index == results[k].index && j < k)
}

/// Whether `order` lists positions among the first `n` of `results`, each
/// before the next in the sense of `comes_before`, and has `n` entries.
pub open spec fn lists_first(results: Seq<Reranking>, n: int, order: Seq<usize>) -> bool {
    &&& order.len() == n
    &&& forall|a: int| 0 <= a < order.len() ==> (#[trigger] order[a]) < n
    &&& forall|a: int, b: int|
        0 <= a < b < order.len() ==> comes_before(
            results,
            (#[trigger] order[a]) as int,
            (#[trigger] order[b]) as int,
        )
}

/// Whether `order` is the input order of `results`: the positions of all
/// results, by ascending passage index, results of equal index in the order
/// in which they stand in `results`.
pub open spec fn lists_in_input_order(results: Seq<Reranking>, order: Seq<usize>) -> bool {
    lists_first(results, results.len() as int, order)
}

/// The scores of `results` taken in the sequence that `order` gives.
pub open spec fn scores_along(results: Seq<Reranking>, order: Seq<usize>) -> Seq<Scalar> {
    Seq::new(order.len(), |a: int| results[order[a] as int].score)
}

/// Whether `scores` are the scores of `results` in input order.
pub open spec fn in_input_order(results: Seq<Reranking>, scores: Seq<Scalar>) -> bool {
    exists|order: Seq<usize>| #[trigger]
        lists_in_input_order(results, order) && scores == scores_along(results, order)
}

/// The input order of `results`. There is exactly one: see
/// `lemma_input_order_is_unique`.
pub open spec fn input_order_of(results: Seq<Reranking>) -> Seq<usize> {
    choose|order: Seq<usize>| lists_in_input_order(results, order)
}

/// The scores of `results` in input order.
pub open spec fn scores_in_input_order(results: Seq<Reranking>) -> Seq<Scalar> {
    scores_along(results, input_order_of(results))
}

/// An input order lists every position: no result is left out.
proof fn lemma_input_order_is_onto(results: Seq<Reranking>, order: Seq<usize>, j: int)
    requires
        lists_in_input_order(results, order),
        0 <= j < results.len(),
    ensures
        exists|a: int| 0 <= a < order.len() && #[trigger] order[a] == j,
{
    let n = results.len() as int;
    let places = order.map_values(|p: usize| p as int);
    assert forall|a: int, b: int|
        0 <= a < places.len() && 0 <= b < places.len() && a != b implies #[trigger] places[a]
        != #[trigger] places[b] by {
        if a < b {
            assert(comes_before(results, order[a] as int, order[b] as int));
        } else {
            assert(comes_before(results, order[b] as int, order[a] as int));
        }
    }
    assert(places.no_duplicates());
    places.unique_seq_to_set();
    lemma_int_range(0, n);
    assert forall|v: int| places.to_set().contains(v) implies set_int_range(0, n).contains(v) by {
        let a = choose|a: int| 0 <= a < places.len() && places[a] == v;
        assert(order[a] < n);
    }
    assert(places.to_set().subset_of(set_int_range(0, n)));
    vstd::seq_lib::seq_to_set_is_finite(places);
    lemma_subset_equality(places.to_set(), set_int_range(0, n));
    assert(set_int_range(0, n).contains(j));
    assert(places.to_set().contains(j));
    let a = choose|a: int| 0 <= a < places.len() && places[a] == j;
    assert(order[a] == j);
}

/// Two input orders of the same results agree up to and including place
/// `a`.
proof fn lemma_input_orders_agree(
    results: Seq<Reranking>,
    first: Seq<usize>,
    second: Seq<usize>,
    a: int,
)
    requires
        lists_in_input_order(results, first),
        lists_in_input_order(results, second),
        0 <= a < results.len(),
    ensures
        forall|c: int| 0 <= c <= a ==> first[c] == second[c],
    decreases a,
{
    if a > 0 {
        lemma_input_orders_agree(results, first, second, a - 1);
    }
    let j = first[a] as int;
    let k = second[a] as int;
    if j != k {
        lemma_input_order_is_onto(results, second, j);
        let b = choose|b: int| 0 <= b < second.len() && #[trigger] second[b] == j;
        lemma_input_order_is_onto(results, first, k);
        let c = choose|c: int| 0 <= c < first.len() && #[trigger] first[c] == k;
        if b < a {
            assert(first[b] == second[b]);
            assert(comes_before(results, first[b] as int, first[a] as int));
        } else if c < a {
            assert(first[c] == second[c]);
            assert(comes_before(results, second[c] as int, second[a] as int));
        } else {
            assert(comes_before(results, second[a] as int, second[b] as int));
            assert(comes_before(results, first[a] as int, first[c] as int));
        }
        assert(false);
    }
}

/// The input order is unique: results can be listed by passage index, and
/// by position among equal indices, in one way only. So the scores in input
/// order are a function of the results.
pub proof fn lemma_input_order_is_unique(
    results: Seq<Reranking>,
    first: Seq<usize>,
    second: Seq<usize>,
)
    requires
        lists_in_input_order(results, first),
        lists_in_input_order(results, second),
    ensures
        first == second,
        first == input_order_of(results),
{
    if results.len() > 0 {
        lemma_input_orders_agree(results, first, second, results.len() - 1);
        lemma_input_orders_agree(results, first, input_order_of(results), results.len() - 1);
    }
    assert(first =~= second);
    assert(first =~= input_order_of(results));
}

/// Whether `results` holds one result for each passage of a request with
/// as many passages as there are results: every index names a passage, and
/// no two results name the same one.
pub open spec fn one_result_per_passage(results: Seq<Reranking>) -> bool {
    &&& forall|k: int| 0 <= k < results.len() ==> (#[trigger] results[k]).index < results.len()
    &&& forall|j: int, k: int|
        0 <= j < k < results.len() ==> (#[trigger] results[j]).index != (
        #[trigger] results[k]).index
}

/// With one result per passage, passage indices rise strictly along the
/// input order.
proof fn lemma_indices_rise(results: Seq<Reranking>, order: Seq<usize>, a: int, b: int)
    requires
        lists_in_input_order(results, order),
        one_result_per_passage(results),
        0 <= a < b < order.len(),
    ensures
        results[order[a] as int].index < results[order[b] as int].index,
{
    let j = order[a] as int;
    let k = order[b] as int;
    assert(comes_before(results, j, k));
    if results[j].index == results[k].index {
        assert(j < k);
        assert(results[j].index != results[k].index);
    }
}

proof fn lemma_index_at_least(results: Seq<Reranking>, order: Seq<usize>, a: int)
    requires
        lists_in_input_order(results, order),
        one_result_per_passage(results),
        0 <= a < order.len(),
    ensures
        results[order[a] as int].index >= a,
    decreases a,
{
    if a > 0 {
        lemma_index_at_least(results, order, a - 1);
        lemma_indices_rise(results, order, a - 1, a);
    }
}

proof fn lemma_index_at_most(results: Seq<Reranking>, order: Seq<usize>, a: int)
    requires
        lists_in_input_order(results, order),
        one_result_per_passage(results),
        0 <= a < order.len(),
    ensures
        results[order[a] as int].index <= a,
    decreases order.len() - a,
{
    if a + 1 < order.len() {
        lemma_index_at_most(results, order, a + 1);
        lemma_indices_rise(results, order, a, a + 1);
    } else {
        assert(results[order[a] as int].index < results.len());
    }
}

/// Order preservation. Whatever order a computation returns its results
/// in, if it returns one result per passage then the scores in input order
/// are as many as the passages, and the score at each place is the score of
/// the passage at that place in the request.
pub proof fn lemma_scores_follow_passages(results: Seq<Reranking>, scores: Seq<Scalar>)
    requires
        in_input_order(results, scores),
        one_result_per_passage(results),
    ensures
        scores.len() == results.len(),
        forall|k: int|
            0 <= k < results.len() ==> scores[(#[trigger] results[k]).index as int]
                == results[k].score,
{
    let order = choose|order: Seq<usize>| #[trigger]
        lists_in_input_order(results, order) && scores == scores_along(results, order);
    assert forall|k: int| 0 <= k < results.len() implies scores[(
    #[trigger] results[k]).index as int] == results[k].score by {
        let i = results[k].index as int;
        lemma_index_at_least(results, order, i);
        lemma_index_at_most(results, order, i);
        let j = order[i] as int;
        assert(results[j].index == results[k].index);
        if j < k {
            assert(results[j].index != results[k].index);
        }
        if k < j {
            assert(results[k].index != results[j].index);
        }
        assert(j == k);
    }
}

/// Computes the input order of `results`: the positions of the results by
/// ascending passage index. The sort is stable.
pub fn input_order(results: &Vec<Reranking>) -> (order: Vec<usize>)
    ensures
        lists_in_input_order(results@, order@),
        order@ == input_order_of(results@),
{
    let mut order: Vec<usize> = Vec::new();
    let mut i: usize = 0;
    while i < results.len()
        invariant
            i <= results.len(),
            lists_first(results@, i as int, order@),
        decreases results.len() - i,
    {
        let mut p: usize = order.len();
        while p > 0 && results[order[p - 1]].index > results[i].index
            invariant
                p <= order.len(),
                i < results.len(),
                lists_first(results@, i as int, order@),
                forall|b: int|
                    p <= b < order.len() ==> results@[(#[trigger] order@[b]) as int].index
                        > results@[i as int].index,
            decreases p,
        {
            p -= 1;
        }
        let ghost before = order@;
        order.insert(p, i);
        proof {
            let after = order@;
            let rs = results@;
            assert forall|a: int| 0 <= a < after.len() implies (#[trigger] after[a]) < i + 1 by {
                if a < p {
                    assert(after[a] == before[a]);
                } else if a > p {
                    assert(after[a] == before[a - 1]);
                }
            }
            assert forall|a: int, b: int| 0 <= a < b < after.len() implies comes_before(
                rs,
                (#[trigger] after[a]) as int,
                (#[trigger] after[b]) as int,
            ) by {
                if b < p {
                    assert(after[a] == before[a] && after[b] == before[b]);
                } else if b == p {
                    assert(after[a] == before[a]);
                    assert(after[b] == i);
                    if a < p - 1 {
                        assert(comes_before(rs, before[a] as int, before[p - 1] as int));
                    }
                    assert(rs[before[p - 1] as int].index <= rs[i as int].index);
                } else if a < p {
                    assert(after[a] == before[a] && after[b] == before[b - 1]);
                } else if a == p {
                    assert(after[a] == i);
                    assert(after[b] == before[b - 1]);
                } else {
                    assert(after[a] == before[a - 1] && after[b] == before[b - 1]);
                }
            }
        }
        i += 1;
    }
    proof {
        lemma_input_order_is_unique(results@, order@, order@);
    }
    order
}

/// The scores of `results`, returned to input order.
pub fn rerank_scores(results: &Vec<Reranking>) -> (scores: Vec<Scalar>)
    ensures
        scores@ == scores_in_input_order(results@),
        in_input_order(results@, scores@),
        scores@.len() == results@.len(),
        one_result_per_passage(results@) ==> forall|k: int|
            0 <= k < results@.len() ==> scores@[(#[trigger] results@[k]).index as int]
                == results@[k].score,
{
    let order = input_order(results);
    let mut scores: Vec<Scalar> = Vec::new();
    let mut a: usize = 0;
    while a < order.len()
        invariant
            a <= order.len(),
            lists_in_input_order(results@, order@),
            scores@.len() == a,
            forall|c: int| 0 <= c < a ==> #[trigger] scores@[c] == results@[order@[c] as int].score,
        decreases order.len() - a,
    {
        scores.push(results[order[a]].score);
        a += 1;
    }
    proof {
        assert(scores@ =~= scores_along(results@, order@));
        if one_result_per_passage(results@) {
            lemma_scores_follow_passages(results@, scores@);
        }
    }
    scores
}

/// The passage indices of `results`, in the order of the results, each
/// narrowed to 32 bits as the host's integer arrays require.
pub fn rerank_indices(results: &Vec<Reranking>) -> (indices: Vec<i32>)
    ensures
        indices@.len() == results@.len(),
        forall|k: int|
            0 <= k < results@.len() ==> #[trigger] indices@[k] == results@[k].index as i32,
{
    let mut indices: Vec<i32> = Vec::new();
    let mut k: usize = 0;
    while k < results.len()
        invariant
            k <= results.len(),
            indices@.len() == k,
            forall|c: int| 0 <= c < k ==> #[trigger] indices@[c] == results@[c].index as i32,
        decreases results.len() - k,
    {
        indices.push(#[verifier::truncate] (results[k].index as i32));
        k += 1;
    }
    indices
}

/// The first of `scalars`, if there is one.
fn first(scalars: &Vec<Scalar>) -> (r: Option<Scalar>)
    ensures
        r == if scalars@.len() > 0 {
            Some(scalars@[0])
        } else {
            None
        },
{
    if scalars.len() > 0 {
        Some(scalars[0])
    } else {
        None
    }
}

/// The score of the single passage of a request, out of the scores of the
/// reply: the first score, and an error for the host if the reply holds
/// none.
pub fn rerank_score(scores: &Vec<Scalar>) -> (r: Result<Scalar, PgError>)
    ensures
        scores@.len() > 0 ==> r == Ok::<Scalar, PgError>(scores@[0]),
        scores@.len() == 0 ==> r is Err && r->Err_0.message@ == missing_message(
            "No reranking scores returned"@,
        ),
{
    first(scores).unwrap_or_pg_err("No reranking scores returned")
}

/// The distances that stand for `scores`: each score negated, so that a
/// better passage lies nearer.
pub fn rerank_distances(scores: &Vec<Scalar>) -> (distances: Vec<Scalar>)
    ensures
        distances@.len() == scores@.len(),
        forall|k: int| 0 <= k < scores@.len() ==> #[trigger] distances@[k] == scores@[k].negation(),
{
    let mut distances: Vec<Scalar> = Vec::new();
    let mut k: usize = 0;
    while k < scores.len()
        invariant
            k <= scores.len(),
            distances@.len() == k,
            forall|c: int| 0 <= c < k ==> #[trigger] distances@[c] == scores@[c].negation(),
        decreases scores.len() - k,
    {
        distances.push(scores[k].negated());
        k += 1;
    }
    distances
}

/// The distance of the single passage of a request, out of the scores of
/// the reply: the first score negated, and an error for the host if the
/// reply holds none.
pub fn rerank_distance(scores: &Vec<Scalar>) -> (r: Result<Scalar, PgError>)
    ensures
        scores@.len() > 0 ==> r == Ok::<Scalar, PgError>(scores@[0].negation()),
        scores@.len() == 0 ==> r is Err && r->Err_0.message@ == missing_message(
            "No reranking distances returned"@,
        ),
{
    let distances = rerank_distances(scores);
    first(&distances).unwrap_or_pg_err("No reranking distances returned")
}

} // verus!
