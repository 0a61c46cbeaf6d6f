//! Every tensor keeps its role: what a checkpoint holds under a name is what the
//! field of that name holds, and what the CPU left under a role is what the
//! accelerator gets under it.

use vstd::prelude::*;

use crate::qwen35::config::{Qwen35LayerType, Qwen35TextConfig};
use crate::qwen35::linear_lane::{is_seed_of, seed_fault, GdnDecodeState};
use crate::qwen35::loader::{
    layer_loaded, text_loaded, Qwen35AttentionWeights, Qwen35TextWeights,
};
use crate::qwen35::state::Qwen35LinearState;
use crate::tensor::{DType, Tensor};
use crate::text::decimal;

verus! {

/// The name of a tensor of a layer: the layer number between the name of the
/// stack and the name of the tensor within the layer.
pub open spec fn layer_tensor(i: int, name: Seq<char>) -> Seq<char> {
    "model.language_model.layers."@ + decimal(i as nat) + name
}

/// Each field of a loaded layer is the tensor that the checkpoint holds under the
/// name of the field, and the attention is of the kind that the configuration
/// lists for the layer.
pub proof fn every_field_of_a_layer_has_its_own_tensor(
    tensors: Map<Seq<char>, Tensor>,
    text: Qwen35TextConfig,
    weights: Qwen35TextWeights,
    i: int,
)
    requires
        text_loaded(tensors, text, weights),
        0 <= i < text.layer_types@.len(),
    ensures
        weights.layers@.len() == text.layer_types@.len(),
        ({
            let layer = weights.layers@[i];
            &&& layer.input_norm_weight == tensors[layer_tensor(i, ".input_layernorm.weight"@)]
            &&& layer.post_attention_norm_weight == tensors[layer_tensor(
                i,
                ".post_attention_layernorm.weight"@,
            )]
            &&& layer.mlp.gate_proj_weight == tensors[layer_tensor(i, ".mlp.gate_proj.weight"@)]
            &&& layer.mlp.up_proj_weight == tensors[layer_tensor(i, ".mlp.up_proj.weight"@)]
            &&& layer.mlp.down_proj_weight == tensors[layer_tensor(i, ".mlp.down_proj.weight"@)]
            &&& (layer.attention is Linear) == (text.layer_types@[i]
                == Qwen35LayerType::LinearAttention)
            &&& (layer.attention is Full) == (text.layer_types@[i]
                == Qwen35LayerType::FullAttention)
            &&& layer.attention matches Qwen35AttentionWeights::Linear(w) ==> {
                &&& w.a_log == tensors[layer_tensor(i, ".linear_attn.A_log"@)]
                &&& w.conv1d_weight == tensors[layer_tensor(i, ".linear_attn.conv1d.weight"@)]
                &&& w.dt_bias == tensors[layer_tensor(i, ".linear_attn.dt_bias"@)]
                &&& w.in_proj_a_weight == tensors[layer_tensor(
                    i,
                    ".linear_attn.in_proj_a.weight"@,
                )]
                &&& w.in_proj_b_weight == tensors[layer_tensor(
                    i,
                    ".linear_attn.in_proj_b.weight"@,
                )]
                &&& w.in_proj_qkv_weight == tensors[layer_tensor(
                    i,
                    ".linear_attn.in_proj_qkv.weight"@,
                )]
                &&& w.in_proj_z_weight == tensors[layer_tensor(
                    i,
                    ".linear_attn.in_proj_z.weight"@,
                )]
                &&& w.norm_weight == tensors[layer_tensor(i, ".linear_attn.norm.weight"@)]
                &&& w.out_proj_weight == tensors[layer_tensor(i, ".linear_attn.out_proj.weight"@)]
            }
            &&& layer.attention matches Qwen35AttentionWeights::Full(w) ==> {
                &&& w.q_proj_weight == tensors[layer_tensor(i, ".self_attn.q_proj.weight"@)]
                &&& w.k_proj_weight == tensors[layer_tensor(i, ".self_attn.k_proj.weight"@)]
                &&& w.v_proj_weight == tensors[layer_tensor(i, ".self_attn.v_proj.weight"@)]
                &&& w.o_proj_weight == tensors[layer_tensor(i, ".self_attn.o_proj.weight"@)]
                &&& w.q_norm_weight == tensors[layer_tensor(i, ".self_attn.q_norm.weight"@)]
                &&& w.k_norm_weight == tensors[layer_tensor(i, ".self_attn.k_norm.weight"@)]
            }
        }),
{
    let layer = weights.layers@[i];
    assert(layer_loaded(tensors, text.layer_types@[i], i, layer));
}

/// Each field beside the layers is the tensor that the checkpoint holds under its
/// name. There is an output projection of its own exactly where the embeddings
/// are not tied.
pub proof fn every_field_beside_the_layers_has_its_own_tensor(
    tensors: Map<Seq<char>, Tensor>,
    text: Qwen35TextConfig,
    weights: Qwen35TextWeights,
)
    requires
        text_loaded(tensors, text, weights),
    ensures
        weights.token_embedding == tensors["model.language_model.embed_tokens.weight"@],
        weights.output_norm_weight == tensors["model.language_model.norm.weight"@],
        (weights.lm_head_weight is None) == text.tie_word_embeddings,
        weights.lm_head_weight matches Some(head) ==> head == tensors["lm_head.weight"@],
{
}

/// What is handed over to an accelerator has each history of the CPU under its
/// own role, and the recurrent matrix, with nothing changed.
pub proof fn a_seed_keeps_every_role(
    seed: GdnDecodeState,
    config: Qwen35TextConfig,
    state: Qwen35LinearState,
)
    requires
        is_seed_of(seed, config, state),
    ensures
        state.query_conv matches Some(query) && seed.query_conv@ == query.data(),
        state.key_conv matches Some(key) && seed.key_conv@ == key.data(),
        state.value_conv matches Some(value) && seed.value_conv@ == value.data(),
        state.recurrent matches Some(recurrent) && seed.recurrent@ == recurrent.data(),
        seed.dimensions.hidden_size == config.hidden_size,
        seed.dimensions.key_heads == config.linear_num_key_heads,
        seed.dimensions.value_heads == config.linear_num_value_heads,
        seed.dimensions.key_dim == config.linear_key_head_dim,
        seed.dimensions.value_dim == config.linear_value_head_dim,
        seed.dimensions.conv_kernel_size == config.linear_conv_kernel_dim,
        seed.dimensions.rms_norm_eps_bits == config.rms_norm_eps_bits,
{
}

/// Two states that differ in one role give seeds that differ in that role and, as
/// far as the others agree, in no other.
pub proof fn seeds_differ_where_the_states_do(
    a: GdnDecodeState,
    b: GdnDecodeState,
    config: Qwen35TextConfig,
    left: Qwen35LinearState,
    right: Qwen35LinearState,
)
    requires
        is_seed_of(a, config, left),
        is_seed_of(b, config, right),
    ensures
        a.query_conv@ == b.query_conv@ <==> left.query_conv->Some_0.data()
            == right.query_conv->Some_0.data(),
        a.key_conv@ == b.key_conv@ <==> left.key_conv->Some_0.data()
            == right.key_conv->Some_0.data(),
        a.value_conv@ == b.value_conv@ <==> left.value_conv->Some_0.data()
            == right.value_conv->Some_0.data(),
        a.recurrent@ == b.recurrent@ <==> left.recurrent->Some_0.data()
            == right.recurrent->Some_0.data(),
{
}

/// A state can be handed over exactly where all four of its parts are there and
/// hold 32-bit floats.
pub proof fn a_whole_state_can_be_handed_over(state: Qwen35LinearState)
    ensures
        seed_fault(state) is None <==> {
            &&& state.query_conv matches Some(query) && query.element_type() == DType::F32
            &&& state.key_conv matches Some(key) && key.element_type() == DType::F32
            &&& state.value_conv matches Some(value) && value.element_type() == DType::F32
            &&& state.recurrent matches Some(recurrent) && recurrent.element_type() == DType::F32
        },
{
}

} // verus!
