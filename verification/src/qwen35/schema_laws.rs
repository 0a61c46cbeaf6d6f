//! What a checkpoint holds: the name, the shape and the element type of every
//! tensor, and which checkpoints are taken.

use vstd::prelude::*;

use crate::qwen35::config::{Qwen35LayerType, Qwen35TextConfig};
use crate::qwen35::loader::part_names_are_distinct;
use crate::qwen35::role_laws::layer_tensor;
use crate::qwen35::weights::{
    is_unknown_name, is_valid_checkpoint, layer_parts, layer_specs, layers_specs, named_dtype,
    part_name, spec_names, text_specs, weight_problem, LayerPart, Qwen35WeightMetadata,
    WeightSpecView,
};
use crate::tensor::DType;

verus! {

/// A checkpoint must hold a tensor with this name, shape and element type.
pub open spec fn asks_for(
    specs: Seq<WeightSpecView>,
    name: Seq<char>,
    shape: Seq<int>,
    dtype: DType,
) -> bool {
    exists|k: int|
        {
            &&& 0 <= k < specs.len()
            &&& (#[trigger] specs[k]).name == name
            &&& specs[k].shape.map_values(|n: usize| n as int) == shape
            &&& specs[k].dtype == dtype
        }
}

proof fn layers_are_listed(
    text: Qwen35TextConfig,
    n: nat,
    i: int,
    p: int,
    dtype: DType,
    state_dtype: DType,
)
    requires
        0 <= i < n,
        0 <= p < layer_specs(text, i, dtype, state_dtype).len(),
    ensures
        exists|k: int|
            0 <= k < layers_specs(text, n, dtype, state_dtype).len() && #[trigger] layers_specs(
                text,
                n,
                dtype,
                state_dtype,
            )[k] == layer_specs(text, i, dtype, state_dtype)[p],
    decreases n,
{
    let shorter = layers_specs(text, (n - 1) as nat, dtype, state_dtype);
    let all = layers_specs(text, n, dtype, state_dtype);
    if i < n - 1 {
        layers_are_listed(text, (n - 1) as nat, i, p, dtype, state_dtype);
        let k = choose|k: int|
            0 <= k < shorter.len() && #[trigger] shorter[k] == layer_specs(
                text,
                i,
                dtype,
                state_dtype,
            )[p];
        assert(all[k] == shorter[k]);
    } else {
        assert(all[shorter.len() + p] == layer_specs(text, i, dtype, state_dtype)[p]);
    }
}

proof fn a_part_is_asked_for(
    text: Qwen35TextConfig,
    i: int,
    p: int,
    name: Seq<char>,
    shape: Seq<int>,
    dtype: DType,
    state_dtype: DType,
)
    requires
        0 <= i < text.layer_types@.len(),
        0 <= p < layer_parts(text.layer_types@[i]).len(),
        part_name(i, layer_parts(text.layer_types@[i])[p]) == name,
        layer_parts(text.layer_types@[i])[p].shape(text).map_values(|n: usize| n as int) == shape,
    ensures
        asks_for(
            text_specs(text, dtype, state_dtype),
            name,
            shape,
            if layer_parts(text.layer_types@[i])[p].is_state() {
                state_dtype
            } else {
                dtype
            },
        ),
{
    let n = text.layer_types@.len();
    layers_are_listed(text, n, i, p, dtype, state_dtype);
    let layers = layers_specs(text, n, dtype, state_dtype);
    let specs = text_specs(text, dtype, state_dtype);
    let wanted = layer_specs(text, i, dtype, state_dtype)[p];
    let k = choose|k: int| 0 <= k < layers.len() && #[trigger] layers[k] == wanted;
    assert(specs[k + 1] == layers[k]);
}

/// Every layer has its two norms and its feed-forward block, with the sizes of
/// the configuration.
pub proof fn every_layer_has_norms_and_a_feed_forward(
    text: Qwen35TextConfig,
    i: int,
    dtype: DType,
    state_dtype: DType,
)
    requires
        0 <= i < text.layer_types@.len(),
    ensures
        ({
            let specs = text_specs(text, dtype, state_dtype);
            let hidden = text.hidden_size as int;
            let inner = text.intermediate_size as int;
            &&& asks_for(specs, layer_tensor(i, ".input_layernorm.weight"@), seq![hidden], dtype)
            &&& asks_for(
                specs,
                layer_tensor(i, ".post_attention_layernorm.weight"@),
                seq![hidden],
                dtype,
            )
            &&& asks_for(
                specs,
                layer_tensor(i, ".mlp.gate_proj.weight"@),
                seq![inner, hidden],
                dtype,
            )
            &&& asks_for(
                specs,
                layer_tensor(i, ".mlp.up_proj.weight"@),
                seq![inner, hidden],
                dtype,
            )
            &&& asks_for(
                specs,
                layer_tensor(i, ".mlp.down_proj.weight"@),
                seq![hidden, inner],
                dtype,
            )
        }),
{
    let hidden = text.hidden_size as int;
    let inner = text.intermediate_size as int;
    let linear = text.layer_types@[i] == Qwen35LayerType::LinearAttention;
    let post: int = if linear { 10 } else { 7 };
    let as_int = |n: usize| n as int;
    assert(seq![text.hidden_size].map_values(as_int) =~= seq![hidden]);
    assert(seq![text.intermediate_size, text.hidden_size].map_values(as_int) =~= seq![
        inner,
        hidden,
    ]);
    assert(seq![text.hidden_size, text.intermediate_size].map_values(as_int) =~= seq![
        hidden,
        inner,
    ]);
    a_part_is_asked_for(
        text,
        i,
        0,
        layer_tensor(i, ".input_layernorm.weight"@),
        seq![hidden],
        dtype,
        state_dtype,
    );
    a_part_is_asked_for(
        text,
        i,
        post,
        layer_tensor(i, ".post_attention_layernorm.weight"@),
        seq![hidden],
        dtype,
        state_dtype,
    );
    a_part_is_asked_for(
        text,
        i,
        post + 1,
        layer_tensor(i, ".mlp.gate_proj.weight"@),
        seq![inner, hidden],
        dtype,
        state_dtype,
    );
    a_part_is_asked_for(
        text,
        i,
        post + 2,
        layer_tensor(i, ".mlp.up_proj.weight"@),
        seq![inner, hidden],
        dtype,
        state_dtype,
    );
    a_part_is_asked_for(
        text,
        i,
        post + 3,
        layer_tensor(i, ".mlp.down_proj.weight"@),
        seq![hidden, inner],
        dtype,
        state_dtype,
    );
}

/// A linear-attention layer has a joined query, key and value projection, the
/// projections `z`, `a` and `b`, and the parameters of its recurrence; the decay
/// and the norm have the element type of the recurrent state.
pub proof fn a_linear_layer_has_its_recurrence(
    text: Qwen35TextConfig,
    i: int,
    dtype: DType,
    state_dtype: DType,
)
    requires
        0 <= i < text.layer_types@.len(),
        text.layer_types@[i] == Qwen35LayerType::LinearAttention,
        text.widths_fit(),
    ensures
        ({
            let specs = text_specs(text, dtype, state_dtype);
            let hidden = text.hidden_size as int;
            let heads = text.linear_num_value_heads as int;
            let keys = text.linear_num_key_heads * text.linear_key_head_dim;
            let values = heads * text.linear_value_head_dim;
            &&& asks_for(specs, layer_tensor(i, ".linear_attn.A_log"@), seq![heads], state_dtype)
            &&& asks_for(specs, layer_tensor(i, ".linear_attn.dt_bias"@), seq![heads], dtype)
            &&& asks_for(
                specs,
                layer_tensor(i, ".linear_attn.conv1d.weight"@),
                seq![keys + keys + values, 1, text.linear_conv_kernel_dim as int],
                dtype,
            )
            &&& asks_for(
                specs,
                layer_tensor(i, ".linear_attn.in_proj_a.weight"@),
                seq![heads, hidden],
                dtype,
            )
            &&& asks_for(
                specs,
                layer_tensor(i, ".linear_attn.in_proj_b.weight"@),
                seq![heads, hidden],
                dtype,
            )
            &&& asks_for(
                specs,
                layer_tensor(i, ".linear_attn.in_proj_qkv.weight"@),
                seq![keys + keys + values, hidden],
                dtype,
            )
            &&& asks_for(
                specs,
                layer_tensor(i, ".linear_attn.in_proj_z.weight"@),
                seq![values, hidden],
                dtype,
            )
            &&& asks_for(
                specs,
                layer_tensor(i, ".linear_attn.norm.weight"@),
                seq![text.linear_value_head_dim as int],
                state_dtype,
            )
            &&& asks_for(
                specs,
                layer_tensor(i, ".linear_attn.out_proj.weight"@),
                seq![hidden, values],
                dtype,
            )
        }),
{
    let hidden = text.hidden_size as int;
    let heads = text.linear_num_value_heads as int;
    let keys = text.linear_num_key_heads * text.linear_key_head_dim;
    let values = heads * text.linear_value_head_dim;
    let as_int = |n: usize| n as int;
    let parts = layer_parts(Qwen35LayerType::LinearAttention);
    assert(0 <= keys && 0 <= values) by (nonlinear_arith)
        requires
            keys == text.linear_num_key_heads * text.linear_key_head_dim,
            values == text.linear_num_value_heads * text.linear_value_head_dim,
    ;
    assert(text.qkv_width() == keys + keys + values);
    assert(LayerPart::ALog.shape(text).map_values(as_int) =~= seq![heads]);
    assert(LayerPart::DtBias.shape(text).map_values(as_int) =~= seq![heads]);
    assert(LayerPart::Conv1d.shape(text).map_values(as_int) =~= seq![
        keys + keys + values,
        1,
        text.linear_conv_kernel_dim as int,
    ]);
    assert(LayerPart::InProjA.shape(text).map_values(as_int) =~= seq![heads, hidden]);
    assert(LayerPart::InProjB.shape(text).map_values(as_int) =~= seq![heads, hidden]);
    assert(LayerPart::InProjQkv.shape(text).map_values(as_int) =~= seq![
        keys + keys + values,
        hidden,
    ]);
    assert(LayerPart::InProjZ.shape(text).map_values(as_int) =~= seq![values, hidden]);
    assert(LayerPart::GdnNorm.shape(text).map_values(as_int) =~= seq![
        text.linear_value_head_dim as int,
    ]);
    assert(LayerPart::OutProj.shape(text).map_values(as_int) =~= seq![hidden, values]);
    assert forall|p: int| 1 <= p < 10 implies asks_for(
        text_specs(text, dtype, state_dtype),
        #[trigger] part_name(i, parts[p]),
        parts[p].shape(text).map_values(as_int),
        if parts[p].is_state() {
            state_dtype
        } else {
            dtype
        },
    ) by {
        a_part_is_asked_for(
            text,
            i,
            p,
            part_name(i, parts[p]),
            parts[p].shape(text).map_values(as_int),
            dtype,
            state_dtype,
        );
    }
    assert(part_name(i, parts[1]) == layer_tensor(i, ".linear_attn.A_log"@));
    assert(part_name(i, parts[2]) == layer_tensor(i, ".linear_attn.conv1d.weight"@));
    assert(part_name(i, parts[3]) == layer_tensor(i, ".linear_attn.dt_bias"@));
    assert(part_name(i, parts[4]) == layer_tensor(i, ".linear_attn.in_proj_a.weight"@));
    assert(part_name(i, parts[5]) == layer_tensor(i, ".linear_attn.in_proj_b.weight"@));
    assert(part_name(i, parts[6]) == layer_tensor(i, ".linear_attn.in_proj_qkv.weight"@));
    assert(part_name(i, parts[7]) == layer_tensor(i, ".linear_attn.in_proj_z.weight"@));
    assert(part_name(i, parts[8]) == layer_tensor(i, ".linear_attn.norm.weight"@));
    assert(part_name(i, parts[9]) == layer_tensor(i, ".linear_attn.out_proj.weight"@));
}

/// A full-attention layer has its four projections and two norms; the query
/// projection is twice as wide where it holds the output gate too.
pub proof fn a_full_layer_has_its_projections(
    text: Qwen35TextConfig,
    i: int,
    dtype: DType,
    state_dtype: DType,
)
    requires
        0 <= i < text.layer_types@.len(),
        text.layer_types@[i] == Qwen35LayerType::FullAttention,
        text.widths_fit(),
    ensures
        ({
            let specs = text_specs(text, dtype, state_dtype);
            let hidden = text.hidden_size as int;
            let queries = text.n_attention_heads * text.head_dim;
            let keys = text.n_kv_heads * text.head_dim;
            let rows = if text.attn_output_gate {
                queries + queries
            } else {
                queries
            };
            &&& asks_for(
                specs,
                layer_tensor(i, ".self_attn.q_proj.weight"@),
                seq![rows, hidden],
                dtype,
            )
            &&& asks_for(
                specs,
                layer_tensor(i, ".self_attn.k_proj.weight"@),
                seq![keys, hidden],
                dtype,
            )
            &&& asks_for(
                specs,
                layer_tensor(i, ".self_attn.v_proj.weight"@),
                seq![keys, hidden],
                dtype,
            )
            &&& asks_for(
                specs,
                layer_tensor(i, ".self_attn.o_proj.weight"@),
                seq![hidden, queries],
                dtype,
            )
            &&& asks_for(
                specs,
                layer_tensor(i, ".self_attn.q_norm.weight"@),
                seq![text.head_dim as int],
                dtype,
            )
            &&& asks_for(
                specs,
                layer_tensor(i, ".self_attn.k_norm.weight"@),
                seq![text.head_dim as int],
                dtype,
            )
        }),
{
    let hidden = text.hidden_size as int;
    let queries = text.n_attention_heads * text.head_dim;
    let keys = text.n_kv_heads * text.head_dim;
    let rows = if text.attn_output_gate {
        queries + queries
    } else {
        queries
    };
    let as_int = |n: usize| n as int;
    let parts = layer_parts(Qwen35LayerType::FullAttention);
    assert(0 <= queries && 0 <= keys) by (nonlinear_arith)
        requires
            queries == text.n_attention_heads * text.head_dim,
            keys == text.n_kv_heads * text.head_dim,
    ;
    assert(LayerPart::QProj.shape(text).map_values(as_int) =~= seq![rows, hidden]);
    assert(LayerPart::KProj.shape(text).map_values(as_int) =~= seq![keys, hidden]);
    assert(LayerPart::VProj.shape(text).map_values(as_int) =~= seq![keys, hidden]);
    assert(LayerPart::OProj.shape(text).map_values(as_int) =~= seq![hidden, queries]);
    assert(LayerPart::QNorm.shape(text).map_values(as_int) =~= seq![text.head_dim as int]);
    assert(LayerPart::KNorm.shape(text).map_values(as_int) =~= seq![text.head_dim as int]);
    assert forall|p: int| 1 <= p < 7 implies asks_for(
        text_specs(text, dtype, state_dtype),
        #[trigger] part_name(i, parts[p]),
        parts[p].shape(text).map_values(as_int),
        dtype,
    ) by {
        a_part_is_asked_for(
            text,
            i,
            p,
            part_name(i, parts[p]),
            parts[p].shape(text).map_values(as_int),
            dtype,
            state_dtype,
        );
    }
    assert(part_name(i, parts[1]) == layer_tensor(i, ".self_attn.q_proj.weight"@));
    assert(part_name(i, parts[2]) == layer_tensor(i, ".self_attn.k_proj.weight"@));
    assert(part_name(i, parts[3]) == layer_tensor(i, ".self_attn.v_proj.weight"@));
    assert(part_name(i, parts[4]) == layer_tensor(i, ".self_attn.o_proj.weight"@));
    assert(part_name(i, parts[5]) == layer_tensor(i, ".self_attn.q_norm.weight"@));
    assert(part_name(i, parts[6]) == layer_tensor(i, ".self_attn.k_norm.weight"@));
}

/// Beside the layers there are the embedding and the final norm, and an output
/// projection exactly where the embedding does not serve as one.
pub proof fn the_stack_has_an_embedding_and_a_norm(
    text: Qwen35TextConfig,
    dtype: DType,
    state_dtype: DType,
)
    ensures
        ({
            let specs = text_specs(text, dtype, state_dtype);
            let rows = seq![text.vocab_size as int, text.hidden_size as int];
            &&& asks_for(specs, "model.language_model.embed_tokens.weight"@, rows, dtype)
            &&& asks_for(
                specs,
                "model.language_model.norm.weight"@,
                seq![text.hidden_size as int],
                dtype,
            )
            &&& !text.tie_word_embeddings ==> asks_for(specs, "lm_head.weight"@, rows, dtype)
        }),
{
    let specs = text_specs(text, dtype, state_dtype);
    let n = layers_specs(text, text.layer_types@.len(), dtype, state_dtype).len() as int;
    let as_int = |n: usize| n as int;
    assert(seq![text.vocab_size, text.hidden_size].map_values(as_int) =~= seq![
        text.vocab_size as int,
        text.hidden_size as int,
    ]);
    assert(seq![text.hidden_size].map_values(as_int) =~= seq![text.hidden_size as int]);
    assert(specs[0].name == "model.language_model.embed_tokens.weight"@);
    assert(specs[n + 1].name == "model.language_model.norm.weight"@);
    if !text.tie_word_embeddings {
        assert(specs[n + 2].name == "lm_head.weight"@);
    }
}

/// The three element types that a configuration can name.
pub proof fn a_configuration_names_its_element_types(name: Seq<char>, dtype: DType)
    ensures
        named_dtype("float32"@) == Some(DType::F32),
        named_dtype("float16"@) == Some(DType::F16),
        named_dtype("bfloat16"@) == Some(DType::BF16),
        named_dtype(name) == Some(dtype) ==> {
            ||| name == "float32"@ && dtype == DType::F32
            ||| name == "float16"@ && dtype == DType::F16
            ||| name == "bfloat16"@ && dtype == DType::BF16
        },
{
    reveal_strlit("float32");
    reveal_strlit("float16");
    reveal_strlit("bfloat16");
    assert("float32"@[5] == '3');
    assert("float16"@[5] == '1');
    assert("float32"@.len() == 7 && "float16"@.len() == 7 && "bfloat16"@.len() == 8);
}

/// A tensor is accepted where it is there, has the shape that is asked for and
/// holds floats, of the very type where that is asked for too.
pub proof fn a_tensor_is_accepted_as_it_is_asked_for(
    spec: WeightSpecView,
    metadata: Map<Seq<char>, Qwen35WeightMetadata>,
    exact: bool,
)
    ensures
        weight_problem(spec, metadata, exact) is None <==> {
            &&& metadata.contains_key(spec.name)
            &&& metadata[spec.name].shape@ == spec.shape
            &&& metadata[spec.name].dtype == DType::F32 || metadata[spec.name].dtype == DType::F16
                || metadata[spec.name].dtype == DType::BF16
            &&& exact ==> metadata[spec.name].dtype == spec.dtype
        },
{
}

/// A checkpoint that is taken holds every tensor that is asked for, and nothing
/// beside them but tensors of the vision tower and of the prediction head.
pub proof fn a_checkpoint_is_taken_whole(
    specs: Seq<WeightSpecView>,
    metadata: Map<Seq<char>, Qwen35WeightMetadata>,
    exact: bool,
    name: Seq<char>,
    k: int,
)
    requires
        is_valid_checkpoint(specs, metadata, exact),
        metadata.contains_key(name),
        0 <= k < specs.len(),
    ensures
        metadata.contains_key(specs[k].name),
        metadata[specs[k].name].shape@ == specs[k].shape,
        exact ==> metadata[specs[k].name].dtype == specs[k].dtype,
        ({
            ||| exists|j: int| 0 <= j < specs.len() && (#[trigger] specs[j]).name == name
            ||| "model.visual."@.is_prefix_of(name)
            ||| "mtp."@.is_prefix_of(name)
        }),
{
    assert(weight_problem(specs[k], metadata, exact) is None);
    assert(!is_unknown_name(specs, name));
    if spec_names(specs).contains(name) {
        let j = choose|j: int| 0 <= j < spec_names(specs).len() && spec_names(specs)[j] == name;
        assert(specs[j].name == name);
    }
}

/// No two tensors of the layers share a name.
pub proof fn a_name_tells_layer_and_part(i: int, j: int, a: LayerPart, b: LayerPart)
    requires
        0 <= i,
        0 <= j,
        i != j || a != b,
    ensures
        layer_tensor(i, a.suffix()@) != layer_tensor(j, b.suffix()@),
{
    if part_name(i, a) == part_name(j, b) {
        part_names_are_distinct(i, a, j, b);
    }
}

} // verus!
