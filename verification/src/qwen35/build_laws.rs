//! What a model is built with, and which models a lane can run.

use vstd::prelude::*;

use crate::qwen35::boundary_lane::{is_scheduled, schedule_fault};
use crate::qwen35::config::{Qwen35Config, Qwen35LayerType, Qwen35TextConfig};
use crate::qwen35::forward_laws::full_layers_in_front;
use crate::qwen35::layer_laws::a_state_has_one_place_for_each_layer;
use crate::qwen35::loader::Qwen35TextWeights;
use crate::qwen35::metal::{GdnCoreProfileV1, LmHeadBufferLedger, MlpBlockBufferLedger};
use crate::qwen35::mlp_lane::MlpBuildFailure;
use crate::qwen35::model::{model_fault, tail_config_fault, GeneralQwen35};
use crate::qwen35::state::Qwen35HybridState;
use crate::tensor::Device;

verus! {

/// A model that was built stands at the start of a stream, within the context that
/// was asked for and the positions that the model knows; it has exactly the parts
/// of the accelerator that were asked for, at their layers, and none was called.
pub proof fn a_model_is_built_as_asked(
    model: GeneralQwen35,
    config: Qwen35Config,
    weights: Qwen35TextWeights,
    max_context: usize,
    head: Option<Result<LmHeadBufferLedger, String>>,
    body: Option<(Seq<usize>, Seq<Result<(), String>>)>,
    mlp_blocks: Option<(Seq<usize>, Seq<Result<MlpBlockBufferLedger, MlpBuildFailure>>)>,
    i: int,
)
    requires
        model.is_built(config, weights, max_context, head, body, mlp_blocks),
        0 <= i < config.text.n_layers,
    ensures
        model.config == config,
        model.state.position == 0,
        model.state.max_context <= max_context,
        model.state.max_context <= config.text.max_position_embeddings,
        model.state.max_context == max_context || model.state.max_context
            == config.text.max_position_embeddings,
        model.state.kv.max_context == model.state.max_context,
        model.head is Some <==> head is Some,
        model.head matches Some(made) ==> {
            &&& head == Some(Ok::<LmHeadBufferLedger, String>(made.ledger))
            &&& made.stats.prefill_calls == 0
            &&& made.stats.decode_calls == 0
            &&& made.stats.teacher_calls == 0
            &&& made.stats.topk_elapsed_ns == 0
            &&& made.stats.rerank_elapsed_ns == 0
        },
        body matches Some((layers, _)) ==> (model.body matches Some(made)
            && match made.layers@[i] {
            Some(layer) => {
                &&& layers.contains(i as usize)
                &&& layer.layer_index == i
                &&& layer.columns == config.text.hidden_size
                &&& layer.decode_calls == 0
                &&& layer.projection_elapsed_ns == 0
            },
            None => !layers.contains(i as usize),
        }),
        mlp_blocks matches Some((layers, built)) ==> (model.mlp_blocks matches Some(made)
            && match made.layers@[i] {
            Some(block) => {
                &&& layers.contains(i as usize)
                &&& block.layer_index == i
                &&& block.hidden_size == config.text.hidden_size
                &&& built[i] == Ok::<MlpBlockBufferLedger, MlpBuildFailure>(block.ledger)
                &&& block.decode_calls == 0
                &&& block.block_elapsed_ns == 0
            },
            None => !layers.contains(i as usize) || built[i] is Err,
        }),
        body is None ==> model.body is None,
        mlp_blocks is None ==> model.mlp_blocks is None,
{
}

/// A model is built on the CPU only, with weights for each layer and room for a
/// token; a head is accelerated only where it is the embedding.
pub proof fn a_model_needs_its_weights(
    config: Qwen35Config,
    weights: Qwen35TextWeights,
    device: Device,
    max_context: usize,
    head: Option<Result<LmHeadBufferLedger, String>>,
    body: Option<(Seq<usize>, Seq<Result<(), String>>)>,
    mlp_blocks: Option<(Seq<usize>, Seq<Result<MlpBlockBufferLedger, MlpBuildFailure>>)>,
)
    requires
        model_fault(config, weights, device, max_context, head, body, mlp_blocks) is None,
    ensures
        device == Device::Cpu,
        max_context > 0,
        weights.layers@.len() == config.text.n_layers,
        config.text.layer_types@.len() == config.text.n_layers,
        head is Some ==> {
            &&& config.text.tie_word_embeddings
            &&& weights.lm_head_weight is None
            &&& head->Some_0 is Ok
        },
        body matches Some((layers, _)) ==> layers.len() > 0,
        mlp_blocks matches Some((layers, _)) ==> layers.len() > 0,
{
}

/// The schedule runs a model of twenty-four layers, of which every fourth has full
/// attention and the others have linear attention, and no other model.
pub proof fn the_schedule_has_full_attention_at_every_fourth_layer(
    config: Qwen35TextConfig,
    i: int,
)
    requires
        is_scheduled(config),
        0 <= i < 24,
    ensures
        config.n_layers == 24,
        config.layer_types@.len() == 24,
        config.layer_types@[i] == Qwen35LayerType::FullAttention <==> i % 4 == 3,
        config.layer_types@[i] == Qwen35LayerType::LinearAttention <==> i % 4 != 3,
{
    assert(config.layer_types@[i] == crate::qwen35::boundary_lane::scheduled_kind(i));
}

/// The lane with the tail runs a scheduled model whose embedding is its output
/// projection too.
pub proof fn the_tail_needs_a_tied_and_scheduled_model(
    text: Qwen35TextConfig,
    profile: GdnCoreProfileV1,
)
    requires
        tail_config_fault(text, profile) is None,
    ensures
        text.tie_word_embeddings,
        schedule_fault(text) is None,
        profile != GdnCoreProfileV1::QkStagedFourDispatch,
{
}

/// A state is made for the heads of the model and for its layers, with nothing in
/// it.
pub proof fn a_state_is_made_for_its_model(
    state: Qwen35HybridState,
    config: Qwen35TextConfig,
    requested: usize,
    layer: int,
)
    requires
        state.is_made_for(config, requested),
        0 <= layer < config.layer_types@.len(),
    ensures
        state.position == 0,
        state.max_context <= requested,
        state.max_context <= config.max_position_embeddings,
        state.max_context == requested || state.max_context == config.max_position_embeddings,
        state.kv.n_kv_heads == config.n_kv_heads,
        state.kv.head_dim == config.head_dim,
        state.kv.max_context == state.max_context,
        state.kv.layers == full_layers_in_front(
            config.layer_types@,
            config.layer_types@.len() as int,
        ),
        match state.linear@[layer] {
            Some(kept) => {
                &&& config.layer_types@[layer] == Qwen35LayerType::LinearAttention
                &&& kept.query_conv is None
                &&& kept.key_conv is None
                &&& kept.value_conv is None
                &&& kept.recurrent is None
            },
            None => config.layer_types@[layer] == Qwen35LayerType::FullAttention,
        },
{
    a_state_has_one_place_for_each_layer(state, config.layer_types@, layer);
}

} // verus!
