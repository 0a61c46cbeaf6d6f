//! What is counted, chosen and refused behind the body of a forward, and in the
//! feed-forward blocks of the accelerator.

use vstd::prelude::*;

use crate::float_bits::{float_gt, is_finite, is_nan, NEGATIVE_INFINITY};
use crate::float_laws::{
    number, patterns_are_ordered_as_numbers, what_is_not_finite_is_beyond_every_number,
};
use crate::qwen35::choice_laws::candidates_are_known_and_distinct;
use crate::qwen35::config::Qwen35TextConfig;
use crate::qwen35::head::{has_no_best, is_first_best, last_row_fault};
use crate::qwen35::metal::GdnCoreProfileV1;
use crate::qwen35::mlp_lane::{
    present, row_fault, selection_fault, Qwen35MetalW8BodyLayer, Qwen35MetalW8MlpBlockLayer,
    Selection,
};
use crate::qwen35::model::GeneralQwen35;
use crate::qwen35::post_body::TokenRoute;
use crate::qwen35::profile::{
    fused_shape_fault, has_fused_shape, production_fault, Qwen35MetalW8LmHeadPhase,
    Qwen35PackedW8LinearLayerReferenceProfile,
};
use crate::qwen35::tail_lane::{Qwen35MetalW8MlpStack3BoundaryTailHeadV1, TailOutput};
use crate::tensor::{DType, Tensor};

verus! {

/// The fused tail picks the tokens where there is one; else the accelerated head,
/// and without either the caller.
pub proof fn the_accelerator_picks_where_there_is_one(model: GeneralQwen35)
    ensures
        model.lane is TailHead <==> model.decode_route_of() == TokenRoute::Tail,
        model.lane !is TailHead && model.head is Some <==> model.decode_route_of()
            == TokenRoute::Head,
        model.lane !is TailHead && model.head is None <==> model.decode_route_of()
            == TokenRoute::Logits,
{
}

/// A token of the head is counted for the phase that it was picked in, and for
/// that one alone; the times add up, and nothing else of the model changes.
pub proof fn a_token_is_counted_for_its_phase(
    model: GeneralQwen35,
    phase: Qwen35MetalW8LmHeadPhase,
    topk_elapsed_ns: u128,
    rerank_elapsed_ns: u128,
)
    requires
        model.head is Some,
        model.head->Some_0.stats.prefill_calls < usize::MAX,
        model.head->Some_0.stats.decode_calls < usize::MAX,
        model.head->Some_0.stats.topk_elapsed_ns + topk_elapsed_ns <= u128::MAX,
        model.head->Some_0.stats.rerank_elapsed_ns + rerank_elapsed_ns <= u128::MAX,
    ensures
        ({
            let after = model.counted(phase, topk_elapsed_ns, rerank_elapsed_ns);
            let old_stats = model.head->Some_0.stats;
            let stats = after.head->Some_0.stats;
            &&& after.head is Some
            &&& stats.prefill_calls + stats.decode_calls == old_stats.prefill_calls
                + old_stats.decode_calls + 1
            &&& phase == Qwen35MetalW8LmHeadPhase::Prefill ==> stats.decode_calls
                == old_stats.decode_calls
            &&& phase == Qwen35MetalW8LmHeadPhase::Decode ==> stats.prefill_calls
                == old_stats.prefill_calls
            &&& stats.teacher_calls == old_stats.teacher_calls
            &&& stats.topk_elapsed_ns == old_stats.topk_elapsed_ns + topk_elapsed_ns
            &&& stats.rerank_elapsed_ns == old_stats.rerank_elapsed_ns + rerank_elapsed_ns
            &&& after.lane == model.lane
            &&& after.state == model.state
            &&& after.config == model.config
            &&& after.weights == model.weights
            &&& after.body == model.body
            &&& after.mlp_blocks == model.mlp_blocks
            &&& after.stack3_head_terminal == model.stack3_head_terminal
        }),
{
}

/// A forced step is counted as one, and as nothing else.
pub proof fn a_forced_step_is_counted_as_one(
    model: GeneralQwen35,
    topk_elapsed_ns: u128,
    rerank_elapsed_ns: u128,
)
    requires
        model.head is Some,
        model.head->Some_0.stats.teacher_calls < usize::MAX,
        model.head->Some_0.stats.topk_elapsed_ns + topk_elapsed_ns <= u128::MAX,
        model.head->Some_0.stats.rerank_elapsed_ns + rerank_elapsed_ns <= u128::MAX,
    ensures
        ({
            let after = model.taught(topk_elapsed_ns, rerank_elapsed_ns);
            let old_stats = model.head->Some_0.stats;
            let stats = after.head->Some_0.stats;
            &&& after.head is Some
            &&& stats.teacher_calls == old_stats.teacher_calls + 1
            &&& stats.prefill_calls == old_stats.prefill_calls
            &&& stats.decode_calls == old_stats.decode_calls
            &&& stats.topk_elapsed_ns == old_stats.topk_elapsed_ns + topk_elapsed_ns
            &&& stats.rerank_elapsed_ns == old_stats.rerank_elapsed_ns + rerank_elapsed_ns
            &&& after.lane == model.lane
            &&& after.state == model.state
        }),
{
}

/// A step of the tail is counted as a decode step or as a forced step, and a
/// prefill projection as one; the transactions stay as they are.
pub proof fn a_tail_step_is_counted_for_its_kind(
    model: GeneralQwen35,
    rerank_elapsed_ns: u128,
    decoded: bool,
    forced: bool,
)
    requires
        model.lane is TailHead,
        model.lane->TailHead_0.decode_calls < usize::MAX,
        model.lane->TailHead_0.teacher_calls < usize::MAX,
        model.lane->TailHead_0.prefill_cpu_head_calls < usize::MAX,
        model.lane->TailHead_0.rerank_elapsed_ns + rerank_elapsed_ns <= u128::MAX,
    ensures
        ({
            let old_lane = model.lane->TailHead_0;
            let after = model.tail_counted(rerank_elapsed_ns, decoded, forced);
            let lane = after.lane->TailHead_0;
            &&& after.lane is TailHead
            &&& lane.decode_calls == old_lane.decode_calls + if decoded {
                1int
            } else {
                0
            }
            &&& lane.teacher_calls == old_lane.teacher_calls + if forced {
                1int
            } else {
                0
            }
            &&& lane.rerank_elapsed_ns == old_lane.rerank_elapsed_ns + rerank_elapsed_ns
            &&& lane.schedule == old_lane.schedule
            &&& lane.terminal_error == old_lane.terminal_error
            &&& after.state == model.state
        }),
        ({
            let old_lane = model.lane->TailHead_0;
            let lane = model.prefilled().lane->TailHead_0;
            &&& model.prefilled().lane is TailHead
            &&& lane.prefill_cpu_head_calls == old_lane.prefill_cpu_head_calls + 1
            &&& lane.decode_calls == old_lane.decode_calls
            &&& lane.teacher_calls == old_lane.teacher_calls
            &&& lane.schedule == old_lane.schedule
            &&& lane.terminal_error == old_lane.terminal_error
        }),
{
}

/// A generation is started exactly where the prompt and all new tokens fit in the
/// context.
pub proof fn a_generation_fits_in_the_context(
    model: GeneralQwen35,
    prompt_len: int,
    max_new_tokens: int,
)
    requires
        0 <= prompt_len <= usize::MAX,
        0 <= max_new_tokens <= usize::MAX,
    ensures
        model.budget_error(prompt_len, max_new_tokens) is None <==> prompt_len + max_new_tokens
            <= model.state.max_context,
{
}

/// What picks the token of a row of any logits: it is no NaN; it is not below any
/// other number; an infinite logit wins over every finite one; and where all
/// logits are NaN or negative infinity, token zero is picked.
pub proof fn a_token_is_picked_from_any_row(logits: Tensor, token: u32)
    requires
        GeneralQwen35::is_argmax(logits, token),
        0 < logits.data().len() <= u32::MAX,
    ensures
        token < logits.data().len(),
        ({
            let row = logits.data();
            let best = row[token as int];
            ||| {
                &&& token == 0
                &&& forall|j: int|
                    0 <= j < row.len() ==> is_nan(#[trigger] row[j]) || row[j] == 0xff80_0000
            }
            ||| {
                &&& !is_nan(best)
                &&& best != 0xff80_0000
                &&& forall|j: int|
                    0 <= j < row.len() && #[trigger] row[j] == 0x7f80_0000 ==> best == 0x7f80_0000
                        && token <= j
                &&& is_finite(best) ==> forall|j: int|
                    0 <= j < row.len() && is_finite(#[trigger] row[j]) ==> {
                        &&& number(row[j]) <= number(best)
                        &&& j < token ==> number(row[j]) < number(best)
                    }
            }
        }),
{
    let row = logits.data();
    if has_no_best(row) {
        assert forall|j: int| 0 <= j < row.len() implies is_nan(#[trigger] row[j]) || row[j]
            == 0xff80_0000 by {
            assert(!float_gt(row[j], NEGATIVE_INFINITY));
            if !is_nan(row[j]) && is_finite(row[j]) {
                what_is_not_finite_is_beyond_every_number(0, row[j]);
            }
        }
    } else {
        let i = choose|i: int| #[trigger] is_first_best(row, i) && token == i as u32;
        assert(token == i);
        let best = row[i];
        assert forall|j: int| 0 <= j < row.len() && #[trigger] row[j] == 0x7f80_0000 implies best
            == 0x7f80_0000 && token <= j by {
            assert(float_gt(row[j], NEGATIVE_INFINITY));
        }
        if is_finite(best) {
            assert forall|j: int| 0 <= j < row.len() && is_finite(#[trigger] row[j]) implies ({
                &&& number(row[j]) <= number(best)
                &&& j < token ==> number(row[j]) < number(best)
            }) by {
                what_is_not_finite_is_beyond_every_number(0, row[j]);
                patterns_are_ordered_as_numbers(best, row[j]);
            }
        }
    }
}

/// Candidates are scored again exactly where the embedding and the hidden row
/// are 32-bit floats of the sizes of the model, and where the candidates are
/// tokens of it, each once, with finite scores.
pub proof fn a_rerank_needs_the_sizes_of_the_model(
    model: GeneralQwen35,
    normalized: Tensor,
    candidates: [u32; 4],
    scores: [u32; 4],
)
    requires
        model.weights.token_embedding.data().len() <= usize::MAX,
        normalized.data().len() <= usize::MAX,
    ensures
        model.rerank_fault(normalized, candidates, scores) is None <==> {
            let text = model.config.text;
            &&& model.weights.token_embedding.element_type() == DType::F32
            &&& normalized.element_type() == DType::F32
            &&& normalized.data().len() == text.hidden_size
            &&& model.weights.token_embedding.data().len() == text.vocab_size * text.hidden_size
            &&& forall|j: int| 0 <= j < 4 ==> (#[trigger] candidates@[j]) < text.vocab_size
            &&& candidates@.no_duplicates()
            &&& forall|j: int| 0 <= j < 4 ==> is_finite(#[trigger] scores@[j])
        },
{
    candidates_are_known_and_distinct(model.config.text.vocab_size, candidates@, scores@);
}

/// A row is one row of 32-bit floats of its width, and the last row is taken from
/// at least one row of that width.
pub proof fn a_row_is_one_row_of_floats(tensor: Tensor, width: usize)
    ensures
        row_fault(tensor, width) is None <==> tensor.dims() == seq![1usize, width]
            && tensor.element_type() == DType::F32,
        last_row_fault(tensor, width) is None <==> {
            &&& tensor.dims().len() == 2
            &&& tensor.dims()[0] > 0
            &&& tensor.dims()[1] == width
            &&& tensor.element_type() == DType::F32
        },
{
}

/// A feed-forward block succeeds with a whole row, counts exactly the rows it
/// gave, and stays the block of its layer.
pub proof fn a_block_counts_the_rows_it_gave(
    block: Qwen35MetalW8MlpBlockLayer,
    output: Result<Vec<u32>, String>,
    elapsed_ns: u128,
)
    requires
        block.decode_calls < usize::MAX,
        block.block_elapsed_ns + elapsed_ns <= u128::MAX,
    ensures
        ({
            let whole = output is Ok && output->Ok_0@.len() == block.hidden_size;
            let after = block.after_run(output, elapsed_ns);
            &&& block.run_fault(output) is None <==> whole
            &&& after.decode_calls == block.decode_calls + if whole {
                1int
            } else {
                0
            }
            &&& after.block_elapsed_ns == block.block_elapsed_ns + if whole {
                elapsed_ns as int
            } else {
                0
            }
            &&& after.layer_index == block.layer_index
            &&& after.hidden_size == block.hidden_size
            &&& after.ledger == block.ledger
        }),
{
}

/// A stacked gate and up projection succeeds with two halves of one width, and
/// counts exactly those; a malformed one costs its time too.
pub proof fn a_projection_counts_the_halves_it_gave(
    layer: Qwen35MetalW8BodyLayer,
    output: Result<Vec<u32>, String>,
    elapsed_ns: u128,
)
    requires
        layer.decode_calls < usize::MAX,
        layer.projection_elapsed_ns + elapsed_ns <= u128::MAX,
    ensures
        ({
            let whole = output is Ok && output->Ok_0@.len() > 0 && output->Ok_0@.len() % 2 == 0;
            let after = layer.after_run(output, elapsed_ns);
            &&& layer.run_fault(output) is None <==> whole
            &&& after.decode_calls == layer.decode_calls + if whole {
                1int
            } else {
                0
            }
            &&& after.projection_elapsed_ns == layer.projection_elapsed_ns + if output is Ok {
                elapsed_ns as int
            } else {
                0
            }
            &&& after.layer_index == layer.layer_index
            &&& after.columns == layer.columns
        }),
{
}

/// The tail succeeds with a whole normed row.
pub proof fn a_tail_gives_a_whole_row(output: Result<TailOutput, String>, hidden_size: usize)
    ensures
        Qwen35MetalW8MlpStack3BoundaryTailHeadV1::run_fault(output, hidden_size) is None <==> (
        output is Ok && output->Ok_0.normalized_hidden@.len() == hidden_size),
{
}

proof fn selections_are_distinct_from(
    lane: Selection,
    indices: Seq<usize>,
    layers: usize,
    from: nat,
)
    requires
        from <= indices.len(),
    ensures
        selection_fault(lane, indices, layers, from) is None <==> forall|j: int|
            from <= j < indices.len() ==> (#[trigger] indices[j]) < layers && forall|i: int|
                0 <= i < j ==> #[trigger] indices[i] != indices[j],
    decreases indices.len() - from,
{
    if from < indices.len() {
        selections_are_distinct_from(lane, indices, layers, from + 1);
        let here = indices[from as int];
        let front = indices.take(from as int);
        if front.contains(here) {
            let i = choose|i: int| 0 <= i < front.len() && front[i] == here;
            assert(indices[i] == here);
        } else {
            assert forall|i: int| 0 <= i < from implies #[trigger] indices[i] != here by {
                assert(front[i] == indices[i]);
            }
        }
    }
}

/// A selection of layers is accepted exactly where every layer exists and none is
/// selected twice.
pub proof fn a_selection_is_of_distinct_layers(
    lane: Selection,
    indices: Seq<usize>,
    layers: usize,
)
    ensures
        selection_fault(lane, indices, layers, 0) is None <==> {
            &&& forall|j: int| 0 <= j < indices.len() ==> (#[trigger] indices[j]) < layers
            &&& indices.no_duplicates()
        },
{
    selections_are_distinct_from(lane, indices, layers, 0);
    if selection_fault(lane, indices, layers, 0) is None {
        assert forall|i: int, j: int|
            0 <= i < indices.len() && 0 <= j < indices.len() && i != j implies indices[i]
            != indices[j] by {
            if i < j {
                assert(indices[j] < layers);
            } else {
                assert(indices[i] < layers);
            }
        }
    }
}

/// The entries that are there are given in the order of the layers, and none is
/// left out: each present entry stands behind as many entries as are present in
/// front of it.
pub proof fn present_entries_keep_their_order<T>(layers: Seq<Option<T>>, i: int)
    requires
        0 <= i < layers.len(),
        layers[i] is Some,
    ensures
        present(layers.take(i)).len() < present(layers).len(),
        present(layers)[present(layers.take(i)).len() as int] == layers[i]->Some_0,
        present(layers).len() <= layers.len(),
    decreases layers.len(),
{
    let shorter = layers.drop_last();
    if i < layers.len() - 1 {
        assert(shorter.take(i) =~= layers.take(i));
        present_entries_keep_their_order(shorter, i);
    } else {
        assert(layers.take(i) =~= shorter);
        presence_is_bounded(shorter);
    }
}

proof fn presence_is_bounded<T>(layers: Seq<Option<T>>)
    ensures
        present(layers).len() <= layers.len(),
    decreases layers.len(),
{
    if layers.len() > 0 {
        presence_is_bounded(layers.drop_last());
    }
}

/// The fused core runs one shape; the staged core is never run in production.
pub proof fn a_core_runs_its_own_shape(config: Qwen35TextConfig, profile: GdnCoreProfileV1)
    ensures
        fused_shape_fault(config) is None <==> {
            &&& config.hidden_size == 1024
            &&& config.linear_num_key_heads == 16
            &&& config.linear_num_value_heads == 16
            &&& config.linear_key_head_dim == 128
            &&& config.linear_value_head_dim == 128
            &&& config.linear_conv_kernel_dim == 4
            &&& config.rms_norm_eps_bits == 0x3586_37bd
        },
        fused_shape_fault(config) is None <==> has_fused_shape(config),
        production_fault(profile) is Some <==> profile == GdnCoreProfileV1::QkStagedFourDispatch,
{
}

/// The four profiles of the reference differ in which of two projections has the
/// finer groups.
pub proof fn a_profile_tells_its_fine_projections(
    profile: Qwen35PackedW8LinearLayerReferenceProfile,
)
    ensures
        profile.name() == if profile.fine_output() && profile.fine_down() {
            "gdn-out-and-mlp-down-g32"@
        } else if profile.fine_output() {
            "gdn-out-g32"@
        } else if profile.fine_down() {
            "mlp-down-g32"@
        } else {
            "g64"@
        },
{
}

/// An error behind the body makes the lanes terminal that cannot go on: the
/// stacks that share a head, and the tail.
pub proof fn an_error_behind_the_body_stays(model: GeneralQwen35)
    ensures
        ({
            let after = model.post_body_failed();
            &&& model.stack3_head_terminal is Some ==> after.stack3_head_terminal == Some(true)
            &&& model.lane is TailHead ==> after.lane is TailHead
                && after.lane->TailHead_0.terminal_error
            &&& model.lane is Stacks && model.stack3_head_terminal is Some ==> after.lane is Stacks
                && after.lane->Stacks_0.terminal_error
            &&& model.lane !is TailHead && model.stack3_head_terminal is None ==> after == model
            &&& after.state == model.state
            &&& after.head == model.head
        }),
{
}

} // verus!
