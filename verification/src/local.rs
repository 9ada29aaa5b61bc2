//! Inference inside the caller's own process.
//!
//! A host that does without a worker loads the model into its own process
//! and asks it directly. These are the rules for what it makes of the
//! model's answers; the errors are errors for the host.

use crate::errors::{missing_message, PgError, UnwrapPgErrExt};
use crate::rerank::{
    lemma_input_order_is_unique, rerank_scores, scores_in_input_order, Reranking,
};
use crate::scalar::Scalar;
use vstd::prelude::*;

verus! {

/// The embedding of the one text that was given to the model, out of the
/// vectors that it computed: the first vector, unchanged, and an error for
/// the host if there is none.
pub fn embedding(vectors: Vec<Vec<Scalar>>) -> (r: Result<Vec<Scalar>, PgError>)
    ensures
        vectors@.len() > 0 ==> r is Ok && r->Ok_0@ == vectors@[0]@,
        vectors@.len() == 0 ==> r is Err && r->Err_0.message@ == missing_message(
            "Unexpectedly empty result vector"@,
        ),
{
    let mut vectors = vectors;
    let first = if vectors.len() > 0 {
        Some(vectors.swap_remove(0))
    } else {
        None
    };
    first.unwrap_or_pg_err("Unexpectedly empty result vector")
}

/// The distance of the one document that was given to the model, out of
/// its results: the score of the first result in input order, negated, and
/// an error for the host if there is none.
pub fn rerank_score(results: &Vec<Reranking>) -> (r: Result<Scalar, PgError>)
    ensures
        results@.len() > 0 ==> r == Ok::<Scalar, PgError>(
            scores_in_input_order(results@)[0].negation(),
        ),
        results@.len() == 1 ==> r == Ok::<Scalar, PgError>(results@[0].score.negation()),
        results@.len() == 0 ==> r is Err && r->Err_0.message@ == missing_message(
            "Unexpectedly empty reranking vector"@,
        ),
{
    let scores = rerank_scores(results);
    let first = if scores.len() > 0 {
        Some(scores[0].negated())
    } else {
        None
    };
    proof {
        if results@.len() == 1 {
            // One result can be listed in one way only.
            let alone: Seq<usize> = seq![0usize];
            lemma_input_order_is_unique(results@, alone, alone);
        }
    }
    first.unwrap_or_pg_err("Unexpectedly empty reranking vector")
}

} // verus!
