//! The token that is chosen is that of the greatest number.

use vstd::prelude::*;

use crate::float_bits::{float_gt, is_finite, rank, NEGATIVE_INFINITY};
use crate::float_laws::{
    number, patterns_are_ordered_as_numbers, what_is_not_finite_is_beyond_every_number,
};
use crate::qwen35::head::{candidates_fault, has_no_best, is_first_best, last_row, wins};
use crate::tensor::Tensor;

verus! {

/// The best logit of a row of finite ones is the greatest number of the row, and
/// every logit before it is a smaller number. A row of finite logits has a best.
pub proof fn the_best_logit_is_the_greatest_number(logits: Seq<u32>, best: int)
    requires
        logits.len() > 0,
        forall|j: int| 0 <= j < logits.len() ==> is_finite(#[trigger] logits[j]),
    ensures
        !has_no_best(logits),
        is_first_best(logits, best) <==> {
            &&& 0 <= best < logits.len()
            &&& forall|j: int|
                0 <= j < logits.len() ==> number(#[trigger] logits[j]) <= number(logits[best])
            &&& forall|j: int| 0 <= j < best ==> number(#[trigger] logits[j]) < number(logits[best])
        },
{
    what_is_not_finite_is_beyond_every_number(0, logits[0]);
    assert forall|j: int| 0 <= j < logits.len() implies float_gt(
        #[trigger] logits[j],
        NEGATIVE_INFINITY,
    ) by {
        what_is_not_finite_is_beyond_every_number(0, logits[j]);
    }
    if 0 <= best < logits.len() {
        assert forall|j: int| 0 <= j < logits.len() implies {
            &&& number(#[trigger] logits[j]) < number(logits[best]) <==> rank(
                logits[j],
            ) < rank(logits[best])
            &&& number(logits[j]) == number(logits[best]) <==> rank(logits[j])
                == rank(logits[best])
        } by {
            patterns_are_ordered_as_numbers(logits[best], logits[j]);
        }
    }
}

/// A row has one best logit at most.
pub proof fn a_row_has_one_best(logits: Seq<u32>, i: int, j: int)
    requires
        is_first_best(logits, i),
        is_first_best(logits, j),
    ensures
        i == j,
        !has_no_best(logits),
{
    assert(float_gt(logits[i], NEGATIVE_INFINITY));
    assert(float_gt(logits[j], NEGATIVE_INFINITY));
}

/// A candidate wins exactly where no candidate has a greater score, and none
/// with an equal score has a lower token.
pub proof fn the_winner_has_the_greatest_score(candidates: Seq<u32>, scores: Seq<u32>, i: int)
    requires
        scores.len() == candidates.len(),
        forall|j: int| 0 <= j < scores.len() ==> is_finite(#[trigger] scores[j]),
    ensures
        wins(candidates, scores, i) <==> {
            &&& 0 <= i < candidates.len()
            &&& forall|j: int|
                0 <= j < scores.len() ==> number(#[trigger] scores[j]) <= number(scores[i])
            &&& forall|j: int|
                0 <= j < scores.len() && number(#[trigger] scores[j]) == number(scores[i])
                    ==> candidates[i] <= candidates[j]
        },
{
    if 0 <= i < candidates.len() {
        assert forall|j: int| 0 <= j < scores.len() implies {
            &&& number(#[trigger] scores[j]) < number(scores[i]) <==> rank(
                scores[j],
            ) < rank(scores[i])
            &&& number(scores[j]) == number(scores[i]) <==> rank(scores[j])
                == rank(scores[i])
        } by {
            patterns_are_ordered_as_numbers(scores[i], scores[j]);
        }
    }
}

/// Candidates are accepted exactly where every token is in the vocabulary, no
/// token comes twice, and every score is finite.
pub proof fn candidates_are_known_and_distinct(
    vocab_size: usize,
    candidates: Seq<u32>,
    scores: Seq<u32>,
)
    requires
        scores.len() == candidates.len(),
    ensures
        candidates_fault(vocab_size, candidates, scores, 0) is None <==> {
            &&& forall|j: int| 0 <= j < candidates.len() ==> (#[trigger] candidates[j]) < vocab_size
            &&& candidates.no_duplicates()
            &&& forall|j: int| 0 <= j < scores.len() ==> is_finite(#[trigger] scores[j])
        },
{
    candidates_are_known_from(vocab_size, candidates, scores, 0);
    if candidates_fault(vocab_size, candidates, scores, 0) is None {
        assert forall|i: int, j: int|
            0 <= i < candidates.len() && 0 <= j < candidates.len() && i != j implies candidates[i]
            != candidates[j] by {
            let (low, high) = if i < j { (i, j) } else { (j, i) };
            assert(candidates.take(high)[low] == candidates[low]);
            assert(!candidates.take(high).contains(candidates[high]));
        }
        assert forall|j: int| 0 <= j < scores.len() implies is_finite(#[trigger] scores[j]) by {
            assert(candidates[j] < vocab_size);
        }
    }
    if candidates.no_duplicates() {
        assert forall|j: int| 0 <= j < candidates.len() implies !candidates.take(j).contains(
            #[trigger] candidates[j],
        ) by {
            if candidates.take(j).contains(candidates[j]) {
                let i = choose|i: int|
                    0 <= i < candidates.take(j).len() && candidates.take(j)[i] == candidates[j];
                assert(candidates[i] == candidates[j]);
            }
        }
    }
}

proof fn candidates_are_known_from(
    vocab_size: usize,
    candidates: Seq<u32>,
    scores: Seq<u32>,
    from: nat,
)
    requires
        scores.len() == candidates.len(),
        from <= candidates.len(),
    ensures
        candidates_fault(vocab_size, candidates, scores, from) is None <==> forall|j: int|
            from <= j < candidates.len() ==> {
                &&& (#[trigger] candidates[j]) < vocab_size
                &&& !candidates.take(j).contains(candidates[j])
                &&& is_finite(scores[j])
            },
    decreases candidates.len() - from,
{
    if from < candidates.len() {
        candidates_are_known_from(vocab_size, candidates, scores, from + 1);
    }
}

/// The last row of a matrix ends where the matrix ends: its elements are those
/// of the last row number, column by column.
pub proof fn the_last_row_is_at_the_end(hidden: Tensor, column: int)
    requires
        hidden.dims().len() == 2,
        hidden.dims()[0] > 0,
        hidden.data().len() == hidden.dims()[0] * hidden.dims()[1],
        0 <= column < hidden.dims()[1],
    ensures
        last_row(hidden).len() == hidden.dims()[1],
        last_row(hidden)[column] == hidden.data()[hidden.data().len() - hidden.dims()[1]
            + column],
{
    let rows = hidden.dims()[0] as int;
    let columns = hidden.dims()[1] as int;
    assert((rows - 1) * columns + columns == rows * columns && (rows - 1) * columns >= 0)
        by (nonlinear_arith)
        requires
            rows >= 1,
            columns >= 0,
    ;
}

} // verus!
