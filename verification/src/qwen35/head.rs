//! Choosing a token: the last hidden row, the greatest logit, and the exact
//! rerank of four candidates.
//!
//! Scores are the bits of 32-bit floats. Computing them is outside of the
//! library; which rows are scored and which score wins is decided here.

use vstd::arithmetic::mul::{lemma_mul_inequality, lemma_mul_is_distributive_add_other_way};
use vstd::prelude::*;

use crate::error::{answers, either, rows_shape_text, Error, Fault};
use crate::float_bits::{
    equal, finite, float_eq, float_gt, greater, is_finite, rank, NEGATIVE_INFINITY,
};
use crate::qwen35::mlp_lane::{check_row, row_fault};
use crate::tensor::{copy_dims, product_of_two, DType, Tensor};

verus! {

/// What stops the last row from being taken.
pub open spec fn last_row_fault(hidden: Tensor, hidden_size: usize) -> Fault {
    let dims = hidden.dims();
    if dims.len() != 2 || dims[0] == 0 || dims[1] != hidden_size {
        Some(rows_shape_text(hidden_size as int, dims))
    } else if hidden.element_type() != DType::F32 {
        Some(Error::NotF32 { dtype: hidden.element_type().name() }.text())
    } else {
        None
    }
}

/// The elements of the last row.
pub open spec fn last_row(hidden: Tensor) -> Seq<u32> {
    let rows = hidden.dims()[0] as int;
    let columns = hidden.dims()[1] as int;
    hidden.data().subrange((rows - 1) * columns, rows * columns)
}

/// Takes the last row, so that only that row meets the vocabulary.
pub fn last_hidden_row(hidden: &Tensor, hidden_size: usize) -> (r: Result<Tensor, Error>)
    ensures
        answers(r, last_row_fault(*hidden, hidden_size)),
        r matches Ok(row) ==> row.is_f32(seq![1usize, hidden_size], last_row(*hidden)),
{
    let dims = hidden.shape();
    if dims.len() != 2 || dims[0] == 0 || dims[1] != hidden_size {
        return Err(
            Error::RowsShape { columns: hidden_size, got: copy_dims(dims.as_slice()) },
        );
    }
    let values = match hidden.as_f32() {
        Ok(values) => values,
        Err(e) => return Err(e),
    };
    let rows: usize = dims[0];
    let total: usize = values.len();
    proof {
        product_of_two(rows, hidden_size);
        assert(hidden.dims() =~= seq![rows, hidden_size]);
        assert(total == rows * hidden_size);
        assert((rows - 1) * hidden_size + hidden_size == rows * hidden_size) by (nonlinear_arith);
        assert((rows - 1) * hidden_size >= 0) by (nonlinear_arith)
            requires
                rows >= 1,
        ;
    }
    let start: usize = total - hidden_size;
    let mut row: Vec<u32> = Vec::with_capacity(hidden_size);
    let mut i: usize = 0;
    while i < hidden_size
        invariant
            i <= hidden_size,
            start + hidden_size == total,
            total == values@.len(),
            row@ == values@.subrange(start as int, start + i),
        decreases hidden_size - i,
    {
        row.push(values[start + i]);
        proof {
            assert(row@ =~= values@.subrange(start as int, start + i + 1));
        }
        i = i + 1;
    }
    let shape: Vec<usize> = vec![1, hidden_size];
    proof {
        assert(shape@ =~= seq![1usize, hidden_size]);
        product_of_two(1, hidden_size);
    }
    Tensor::from_f32(shape, row)
}

/// The score at `i` is the greatest one above negative infinity, and the first
/// of its kind. Patterns that are no number lose.
pub open spec fn is_first_best(scores: Seq<u32>, i: int) -> bool {
    &&& 0 <= i < scores.len()
    &&& float_gt(scores[i], NEGATIVE_INFINITY)
    &&& forall|j: int|
        0 <= j < scores.len() && float_gt(#[trigger] scores[j], NEGATIVE_INFINITY) ==> if j < i {
            rank(scores[j]) < rank(scores[i])
        } else {
            rank(scores[j]) <= rank(scores[i])
        }
}

/// No score is above negative infinity.
pub open spec fn has_no_best(scores: Seq<u32>) -> bool {
    forall|j: int|
        0 <= j < scores.len() ==> !float_gt(#[trigger] scores[j], NEGATIVE_INFINITY)
}

/// The token of the greatest logit; the lowest of them on a tie, and token 0
/// where no logit is above negative infinity.
pub fn argmax_f32_row(logits: &Tensor, vocab_size: usize) -> (r: Result<u32, Error>)
    ensures
        answers(r, row_fault(*logits, vocab_size)),
        r matches Ok(token) ==> if has_no_best(logits.data()) {
            token == 0
        } else {
            exists|i: int| #[trigger] is_first_best(logits.data(), i) && token == i as u32
        },
{
    if let Err(e) = check_row(logits, vocab_size) {
        return Err(e);
    }
    let scores = match logits.as_f32() {
        Ok(scores) => scores,
        Err(e) => return Err(e),
    };
    let mut best: u32 = NEGATIVE_INFINITY;
    let mut best_index: usize = 0;
    let mut i: usize = 0;
    while i < scores.len()
        invariant
            i <= scores@.len(),
            if best == NEGATIVE_INFINITY {
                &&& best_index == 0
                &&& has_no_best(scores@.take(i as int))
            } else {
                &&& is_first_best(scores@.take(i as int), best_index as int)
                &&& best == scores@[best_index as int]
            },
        decreases scores@.len() - i,
    {
        let ghost seen = scores@.take(i as int);
        let ghost more = scores@.take(i + 1);
        let score: u32 = scores[i];
        proof {
            assert forall|j: int| 0 <= j < i implies #[trigger] more[j] == seen[j] by {}
            assert(more[i as int] == score);
            assert(!float_gt(NEGATIVE_INFINITY, NEGATIVE_INFINITY));
        }
        if greater(score, best) {
            best = score;
            best_index = i;
            proof {
                assert forall|j: int|
                    0 <= j < more.len() && float_gt(
                        #[trigger] more[j],
                        NEGATIVE_INFINITY,
                    ) implies if j < i {
                    rank(more[j]) < rank(more[i as int])
                } else {
                    rank(more[j]) <= rank(more[i as int])
                } by {
                    if j < i {
                        assert(more[j] == seen[j]);
                        assert(float_gt(seen[j], NEGATIVE_INFINITY));
                    }
                }
                assert(is_first_best(more, i as int));
            }
        } else {
            proof {
                if best == NEGATIVE_INFINITY {
                    assert forall|j: int| 0 <= j < more.len() implies !float_gt(
                        #[trigger] more[j],
                        NEGATIVE_INFINITY,
                    ) by {
                        if j < i {
                            assert(more[j] == seen[j]);
                        }
                    }
                } else {
                    assert(more[best_index as int] == seen[best_index as int]);
                    assert forall|j: int|
                        0 <= j < more.len() && float_gt(
                            #[trigger] more[j],
                            NEGATIVE_INFINITY,
                        ) implies if j < best_index {
                        rank(more[j]) < rank(more[best_index as int])
                    } else {
                        rank(more[j]) <= rank(more[best_index as int])
                    } by {
                        if j < i {
                            assert(more[j] == seen[j]);
                            assert(float_gt(seen[j], NEGATIVE_INFINITY));
                        }
                    }
                    assert(is_first_best(more, best_index as int));
                }
            }
        }
        i = i + 1;
    }
    proof {
        assert(scores@.take(i as int) =~= scores@);
        if best != NEGATIVE_INFINITY {
            assert(is_first_best(scores@, best_index as int));
            assert(float_gt(scores@[best_index as int], NEGATIVE_INFINITY));
        }
    }
    Ok(best_index as u32)
}

/// What stops a rerank before any candidate is scored.
pub open spec fn rerank_shape_fault(
    embedding_elements: usize,
    hidden_elements: usize,
    vocab_size: usize,
    hidden_size: usize,
) -> Fault {
    if hidden_elements == hidden_size && vocab_size * hidden_size > usize::MAX {
        Some(Error::RerankOverflow.text())
    } else if hidden_elements != hidden_size || embedding_elements != vocab_size * hidden_size {
        Some(
            Error::RerankShape {
                vocab_size,
                hidden_size,
                embedding: embedding_elements,
                hidden: hidden_elements,
            }.text(),
        )
    } else {
        None
    }
}

/// Checks the sizes of a rerank.
pub fn check_rerank_shape(
    embedding_elements: usize,
    hidden_elements: usize,
    vocab_size: usize,
    hidden_size: usize,
) -> (r: Result<(), Error>)
    ensures
        answers(
            r,
            rerank_shape_fault(embedding_elements, hidden_elements, vocab_size, hidden_size),
        ),
{
    if hidden_elements != hidden_size {
        return Err(
            Error::RerankShape {
                vocab_size,
                hidden_size,
                embedding: embedding_elements,
                hidden: hidden_elements,
            },
        );
    }
    match vocab_size.checked_mul(hidden_size) {
        None => Err(Error::RerankOverflow),
        Some(expected) => if embedding_elements != expected {
            Err(
                Error::RerankShape {
                    vocab_size,
                    hidden_size,
                    embedding: embedding_elements,
                    hidden: hidden_elements,
                },
            )
        } else {
            Ok(())
        },
    }
}

/// The elements of the embedding that a candidate is scored with, from the
/// first to the one behind the last; `None` outside of the vocabulary.
pub fn candidate_row(
    embedding_elements: usize,
    vocab_size: usize,
    hidden_size: usize,
    token: u32,
) -> (r: Option<(usize, usize)>)
    requires
        embedding_elements == vocab_size * hidden_size,
    ensures
        match r {
            Some((start, end)) => {
                &&& token < vocab_size
                &&& start == token * hidden_size
                &&& end == start + hidden_size
                &&& end <= embedding_elements
            },
            None => token >= vocab_size,
        },
{
    let row: usize = token as usize;
    if row >= vocab_size {
        return None;
    }
    proof {
        lemma_mul_inequality(row + 1, vocab_size as int, hidden_size as int);
        lemma_mul_is_distributive_add_other_way(hidden_size as int, row as int, 1);
    }
    let start: usize = row * hidden_size;
    Some((start, start + hidden_size))
}

/// What is wrong with one of the candidates from `from` on.
pub open spec fn candidates_fault(
    vocab_size: usize,
    candidates: Seq<u32>,
    scores: Seq<u32>,
    from: nat,
) -> Fault
    decreases candidates.len() - from,
{
    if from >= candidates.len() {
        None
    } else {
        let token = candidates[from as int];
        if token >= vocab_size {
            Some(Error::RerankOutside { index: from as usize, token, vocab_size }.text())
        } else if candidates.take(from as int).contains(token) {
            Some(Error::RerankDuplicate { token }.text())
        } else if !is_finite(scores[from as int]) {
            Some(Error::RerankNonFinite { token }.text())
        } else {
            candidates_fault(vocab_size, candidates, scores, from + 1)
        }
    }
}

/// The candidate at `i` wins: its score is the greatest, and its token is the
/// lowest among equal scores.
pub open spec fn wins(candidates: Seq<u32>, scores: Seq<u32>, i: int) -> bool {
    &&& 0 <= i < candidates.len()
    &&& forall|j: int|
        0 <= j < candidates.len() ==> {
            ||| rank(#[trigger] scores[j]) < rank(scores[i])
            ||| rank(scores[j]) == rank(scores[i]) && candidates[i] <= candidates[j]
        }
}

/// Picks the best of four candidates by their exact scores. The score of a
/// candidate outside of the vocabulary is not read.
pub fn rerank_tied_f32_candidates(
    embedding_elements: usize,
    hidden_elements: usize,
    vocab_size: usize,
    hidden_size: usize,
    candidates: [u32; 4],
    scores: [u32; 4],
) -> (r: Result<u32, Error>)
    ensures
        answers(
            r,
            either(
                rerank_shape_fault(embedding_elements, hidden_elements, vocab_size, hidden_size),
                candidates_fault(vocab_size, candidates@, scores@, 0),
            ),
        ),
        r matches Ok(token) ==> exists|i: int| #[trigger]
            wins(candidates@, scores@, i) && token == candidates@[i],
{
    if let Err(e) = check_rerank_shape(
        embedding_elements,
        hidden_elements,
        vocab_size,
        hidden_size,
    ) {
        return Err(e);
    }
    let mut best_score: u32 = NEGATIVE_INFINITY;
    let mut best_token: u32 = u32::MAX;
    let ghost mut best: int = 0;
    let mut i: usize = 0;
    while i < 4
        invariant
            i <= 4,
            rerank_shape_fault(embedding_elements, hidden_elements, vocab_size, hidden_size)
                is None,
            candidates_fault(vocab_size, candidates@, scores@, 0) == candidates_fault(
                vocab_size,
                candidates@,
                scores@,
                i as nat,
            ),
            i == 0 ==> best_score == NEGATIVE_INFINITY && best_token == u32::MAX,
            i > 0 ==> {
                &&& 0 <= best < i
                &&& best_score == scores@[best]
                &&& best_token == candidates@[best]
                &&& is_finite(best_score)
                &&& forall|j: int|
                    0 <= j < i ==> {
                        ||| rank(#[trigger] scores@[j]) < rank(scores@[best])
                        ||| rank(scores@[j]) == rank(scores@[best]) && candidates@[best]
                            <= candidates@[j]
                    }
            },
        decreases 4 - i,
    {
        let token: u32 = candidates[i];
        if token as usize >= vocab_size {
            return Err(Error::RerankOutside { index: i, token, vocab_size });
        }
        let mut seen: bool = false;
        let mut k: usize = 0;
        while k < i
            invariant
                k <= i,
                i < 4,
                seen == candidates@.take(k as int).contains(token),
            decreases i - k,
        {
            proof {
                crate::names::one_more_item(candidates@, k as int, token);
            }
            if candidates[k] == token {
                seen = true;
            }
            k = k + 1;
        }
        if seen {
            return Err(Error::RerankDuplicate { token });
        }
        let score: u32 = scores[i];
        if !finite(score) {
            return Err(Error::RerankNonFinite { token });
        }
        if greater(score, best_score) || (equal(score, best_score) && token < best_token) {
            best_score = score;
            best_token = token;
            proof {
                best = i as int;
            }
        }
        i = i + 1;
    }
    proof {
        assert(wins(candidates@, scores@, best));
    }
    Ok(best_token)
}

/// The order of the candidates does not matter: where two lists hold the same
/// candidates with the same scores, the same token wins.
pub proof fn rerank_does_not_depend_on_order(
    candidates: Seq<u32>,
    scores: Seq<u32>,
    i: int,
    other_candidates: Seq<u32>,
    other_scores: Seq<u32>,
    k: int,
    places: Seq<int>,
)
    requires
        wins(candidates, scores, i),
        wins(other_candidates, other_scores, k),
        scores.len() == candidates.len(),
        other_scores.len() == other_candidates.len(),
        places.len() == candidates.len(),
        other_candidates.len() == candidates.len(),
        forall|j: int|
            0 <= j < places.len() ==> 0 <= #[trigger] places[j] < other_candidates.len()
                && other_candidates[places[j]] == candidates[j] && other_scores[places[j]]
                == scores[j],
        forall|j: int| 0 <= j < places.len() ==> #[trigger] places.contains(j),
    ensures
        candidates[i] == other_candidates[k],
{
    assert(places.contains(k));
    let back = choose|j: int| 0 <= j < places.len() && places[j] == k;
    assert(other_candidates[places[back]] == candidates[back]);
    assert(other_scores[places[back]] == scores[back]);
    assert(other_candidates[places[i]] == candidates[i]);
    assert(other_scores[places[i]] == scores[i]);
    assert(rank(scores[back]) <= rank(scores[i]));
    assert(rank(other_scores[places[i]]) <= rank(other_scores[k]));
}

/// Among candidates with equal scores the lowest token wins.
pub proof fn ties_go_to_the_lowest_token(candidates: Seq<u32>, scores: Seq<u32>, i: int, j: int)
    requires
        wins(candidates, scores, i),
        0 <= j < candidates.len(),
        float_eq(scores[i], scores[j]),
    ensures
        candidates[i] <= candidates[j],
{
}

/// Where the best token of the whole vocabulary is among the candidates, and the
/// candidates are scored as in the whole row, the rerank picks that token: both
/// settle exact ties in the same way.
pub proof fn rerank_agrees_with_the_full_head(
    logits: Seq<u32>,
    best: int,
    candidates: Seq<u32>,
    scores: Seq<u32>,
    i: int,
    place: int,
)
    requires
        is_first_best(logits, best),
        wins(candidates, scores, i),
        scores.len() == candidates.len(),
        forall|j: int|
            0 <= j < candidates.len() ==> (#[trigger] candidates[j]) < logits.len() && scores[j]
                == logits[candidates[j] as int] && is_finite(scores[j]),
        0 <= place < candidates.len(),
        candidates[place] == best,
    ensures
        candidates[i] == best,
{
    let winner = candidates[i] as int;
    assert(candidates[place] < logits.len());
    assert(float_gt(logits[winner], NEGATIVE_INFINITY));
    assert(rank(scores[place]) <= rank(scores[i]));
}

} // verus!
