//! Where each element of a checkpoint goes when the weights are laid out for a
//! run on the CPU.

use vstd::prelude::*;

use crate::qwen35::config::{Qwen35LayerType, Qwen35TextConfig};
use crate::qwen35::loader::{
    Qwen35AttentionWeights, Qwen35FullAttentionWeights, Qwen35LinearAttentionWeights,
    Qwen35MlpWeights, Qwen35TextWeights,
};
use crate::qwen35::packing::{at, is_transposed, query_cell};
use crate::qwen35::runtime::{
    RuntimeAttentionWeights, RuntimeFullWeights, RuntimeLinearWeights,
    RuntimeMlpWeights, RuntimeWeights,
};
use crate::tensor::{DType, Tensor};

verus! {

/// The element in a row and a column of a matrix that is stored row by row.
pub open spec fn element(data: Seq<u32>, columns: int, row: int, column: int) -> u32 {
    data[row * columns + column]
}

/// A matrix is the transpose of consecutive rows of another: what stands in row
/// `first + o` and column `i` of the source stands in row `i` and column `o`.
pub open spec fn turns(out: Tensor, source: Tensor, first: int, rows: int, columns: int) -> bool {
    &&& out.dims() == seq![columns as usize, rows as usize]
    &&& out.element_type() == DType::F32
    &&& out.data().len() == columns * rows
    &&& forall|i: int, o: int|
        0 <= i < columns && 0 <= o < rows ==> #[trigger] element(out.data(), rows, i, o)
            == element(source.floats(), columns, first + o, i)
}

proof fn transposed_rows_turn(out: Tensor, source: Tensor, first: int, rows: int, columns: int)
    requires
        is_transposed(out, source, first, rows, columns),
        0 <= first,
        0 <= rows,
        first + rows <= usize::MAX,
    ensures
        turns(out, source, first, rows, columns),
{
    assert forall|i: int, o: int| 0 <= i < columns && 0 <= o < rows implies #[trigger] element(
        out.data(),
        rows,
        i,
        o,
    ) == element(source.floats(), columns, first + o, i) by {
        assert(at(out.data(), rows, i, o) == at(source.floats(), columns, first + o, i));
    }
}

/// Each projection of a linear-attention layer holds its own rows of the
/// checkpoint: of the joined projection the queries come first, then the keys,
/// then the values, and the convolution is cut in the same way. Nothing else of
/// the layer is moved.
pub proof fn linear_projections_keep_their_rows(
    packed: RuntimeLinearWeights,
    weights: Qwen35LinearAttentionWeights,
    config: Qwen35TextConfig,
)
    requires
        packed.packs(weights, config),
        config.widths_fit(),
    ensures
        ({
            let keys = config.linear_num_key_heads * config.linear_key_head_dim;
            let values = config.linear_num_value_heads * config.linear_value_head_dim;
            let hidden = config.hidden_size as int;
            let kernel = config.linear_conv_kernel_dim as int;
            let joined = weights.in_proj_qkv_weight;
            let conv = weights.conv1d_weight;
            &&& turns(packed.query_projection, joined, 0, keys, hidden)
            &&& turns(packed.key_projection, joined, keys, keys, hidden)
            &&& turns(packed.value_projection, joined, keys + keys, values, hidden)
            &&& turns(packed.z_projection, weights.in_proj_z_weight, 0, values, hidden)
            &&& turns(
                packed.a_projection,
                weights.in_proj_a_weight,
                0,
                config.linear_num_value_heads as int,
                hidden,
            )
            &&& turns(
                packed.b_projection,
                weights.in_proj_b_weight,
                0,
                config.linear_num_value_heads as int,
                hidden,
            )
            &&& turns(packed.output_projection, weights.out_proj_weight, 0, hidden, values)
            &&& packed.query_conv_weight.data() == conv.floats().subrange(0, keys * kernel)
            &&& packed.key_conv_weight.data() == conv.floats().subrange(
                keys * kernel,
                (keys + keys) * kernel,
            )
            &&& packed.value_conv_weight.data() == conv.floats().subrange(
                (keys + keys) * kernel,
                (keys + keys + values) * kernel,
            )
            &&& packed.query_conv_weight.dims() == seq![keys as usize, 1usize, kernel as usize]
            &&& packed.key_conv_weight.dims() == seq![keys as usize, 1usize, kernel as usize]
            &&& packed.value_conv_weight.dims() == seq![values as usize, 1usize, kernel as usize]
            &&& packed.a_log.data() == weights.a_log.floats()
            &&& packed.dt_bias.data() == weights.dt_bias.floats()
            &&& packed.norm_weight.data() == weights.norm_weight.floats()
        }),
{
    let keys = config.linear_num_key_heads * config.linear_key_head_dim;
    let values = config.linear_num_value_heads * config.linear_value_head_dim;
    let hidden = config.hidden_size as int;
    let joined = weights.in_proj_qkv_weight;
    assert(keys >= 0 && values >= 0) by (nonlinear_arith)
        requires
            keys == config.linear_num_key_heads * config.linear_key_head_dim,
            values == config.linear_num_value_heads * config.linear_value_head_dim,
    ;
    assert(0 * config.linear_conv_kernel_dim == 0) by (nonlinear_arith);
    assert((2 * keys) == keys + keys);
    transposed_rows_turn(packed.query_projection, joined, 0, keys, hidden);
    transposed_rows_turn(packed.key_projection, joined, keys, keys, hidden);
    transposed_rows_turn(packed.value_projection, joined, keys + keys, values, hidden);
    transposed_rows_turn(packed.z_projection, weights.in_proj_z_weight, 0, values, hidden);
    transposed_rows_turn(
        packed.a_projection,
        weights.in_proj_a_weight,
        0,
        config.linear_num_value_heads as int,
        hidden,
    );
    transposed_rows_turn(
        packed.b_projection,
        weights.in_proj_b_weight,
        0,
        config.linear_num_value_heads as int,
        hidden,
    );
    transposed_rows_turn(packed.output_projection, weights.out_proj_weight, 0, hidden, values);
}

/// Each projection of a feed-forward block is the transpose of its own weight.
pub proof fn feed_forward_projections_keep_their_rows(
    packed: RuntimeMlpWeights,
    weights: Qwen35MlpWeights,
    config: Qwen35TextConfig,
)
    requires
        packed.packs(weights, config),
    ensures
        ({
            let hidden = config.hidden_size as int;
            let intermediate = config.intermediate_size as int;
            &&& turns(packed.gate_projection, weights.gate_proj_weight, 0, intermediate, hidden)
            &&& turns(packed.up_projection, weights.up_proj_weight, 0, intermediate, hidden)
            &&& turns(packed.down_projection, weights.down_proj_weight, 0, hidden, intermediate)
        }),
{
    let hidden = config.hidden_size as int;
    let intermediate = config.intermediate_size as int;
    transposed_rows_turn(
        packed.gate_projection,
        weights.gate_proj_weight,
        0,
        intermediate,
        hidden,
    );
    transposed_rows_turn(packed.up_projection, weights.up_proj_weight, 0, intermediate, hidden);
    transposed_rows_turn(
        packed.down_projection,
        weights.down_proj_weight,
        0,
        hidden,
        intermediate,
    );
}

/// Each projection of a full-attention layer holds its own rows of the
/// checkpoint. Where attention has an output gate, each head of the joined query
/// projection holds its query rows first and its gate rows behind them.
pub proof fn full_projections_keep_their_rows(
    packed: RuntimeFullWeights,
    weights: Qwen35FullAttentionWeights,
    config: Qwen35TextConfig,
)
    requires
        packed.packs(weights, config),
        config.widths_fit(),
    ensures
        ({
            let hidden = config.hidden_size as int;
            let heads = config.n_attention_heads as int;
            let size = config.head_dim as int;
            let queries = config.n_attention_heads * config.head_dim;
            let shared = config.n_kv_heads * config.head_dim;
            &&& turns(packed.key_projection, weights.k_proj_weight, 0, shared, hidden)
            &&& turns(packed.value_projection, weights.v_proj_weight, 0, shared, hidden)
            &&& turns(packed.output_projection, weights.o_proj_weight, 0, hidden, queries)
            &&& packed.query_norm_weight.data() == weights.q_norm_weight.floats()
            &&& packed.key_norm_weight.data() == weights.k_norm_weight.floats()
            &&& packed.gate_projection is Some == config.attn_output_gate
            &&& !config.attn_output_gate ==> turns(
                packed.query_projection,
                weights.q_proj_weight,
                0,
                queries,
                hidden,
            )
            &&& config.attn_output_gate ==> forall|i: int, head: int, d: int|
                #![trigger element(packed.query_projection.data(), queries, i, head * size + d)]
                0 <= i < hidden && 0 <= head < heads && 0 <= d < size ==> {
                    &&& element(packed.query_projection.data(), queries, i, head * size + d)
                        == element(
                        weights.q_proj_weight.floats(),
                        hidden,
                        head * 2 * size + d,
                        i,
                    )
                    &&& element(
                        packed.gate_projection->Some_0.data(),
                        queries,
                        i,
                        head * size + d,
                    ) == element(
                        weights.q_proj_weight.floats(),
                        hidden,
                        head * 2 * size + size + d,
                        i,
                    )
                }
        }),
{
    let hidden = config.hidden_size as int;
    let heads = config.n_attention_heads as int;
    let size = config.head_dim as int;
    let queries = config.n_attention_heads * config.head_dim;
    let shared = config.n_kv_heads * config.head_dim;
    assert(queries >= 0 && shared >= 0) by (nonlinear_arith)
        requires
            queries == config.n_attention_heads * config.head_dim,
            shared == config.n_kv_heads * config.head_dim,
    ;
    transposed_rows_turn(packed.key_projection, weights.k_proj_weight, 0, shared, hidden);
    transposed_rows_turn(packed.value_projection, weights.v_proj_weight, 0, shared, hidden);
    transposed_rows_turn(packed.output_projection, weights.o_proj_weight, 0, hidden, queries);
    if config.attn_output_gate {
        assert forall|i: int, head: int, d: int|
            #![trigger element(packed.query_projection.data(), queries, i, head * size + d)]
            0 <= i < hidden && 0 <= head < heads && 0 <= d < size implies {
            &&& element(packed.query_projection.data(), queries, i, head * size + d) == element(
                weights.q_proj_weight.floats(),
                hidden,
                head * 2 * size + d,
                i,
            )
            &&& element(packed.gate_projection->Some_0.data(), queries, i, head * size + d)
                == element(
                weights.q_proj_weight.floats(),
                hidden,
                head * 2 * size + size + d,
                i,
            )
        } by {
            assert(query_cell(packed.query_projection.data(), queries, size, i, head, d) == at(
                weights.q_proj_weight.floats(),
                hidden,
                head * 2 * size + 0 + d,
                i,
            ));
            assert(query_cell(
                packed.gate_projection->Some_0.data(),
                queries,
                size,
                i,
                head,
                d,
            ) == at(weights.q_proj_weight.floats(), hidden, head * 2 * size + size + d, i));
        }
    } else {
        transposed_rows_turn(packed.query_projection, weights.q_proj_weight, 0, queries, hidden);
    }
}

/// Each layer is laid out from the layer of the same number, and each part of it
/// from the part of the same role.
pub proof fn every_layer_is_laid_out_from_its_own(
    packed: RuntimeWeights,
    weights: Qwen35TextWeights,
    config: Qwen35TextConfig,
    i: int,
)
    requires
        packed.packs(weights, config),
        weights.layers@.len() == config.layer_types@.len(),
        0 <= i < weights.layers@.len(),
    ensures
        packed.layers@.len() == weights.layers@.len(),
        packed.token_embedding.data() == weights.token_embedding.floats(),
        packed.token_embedding.dims() == weights.token_embedding.dims(),
        packed.output_norm_weight.data() == weights.output_norm_weight.floats(),
        packed.lm_head is Some == weights.lm_head_weight is Some,
        packed.lm_head matches Some(head) ==> turns(
            head,
            weights.lm_head_weight->Some_0,
            0,
            config.vocab_size as int,
            config.hidden_size as int,
        ),
        packed.layers@[i].input_norm_weight.data() == weights.layers@[i].input_norm_weight.floats(),
        packed.layers@[i].post_attention_norm_weight.data()
            == weights.layers@[i].post_attention_norm_weight.floats(),
        packed.layers@[i].mlp.packs(weights.layers@[i].mlp, config),
        match (packed.layers@[i].attention, weights.layers@[i].attention) {
            (RuntimeAttentionWeights::Linear(p), Qwen35AttentionWeights::Linear(w)) => p.packs(
                w,
                config,
            ) && config.layer_types@[i] == Qwen35LayerType::LinearAttention,
            (RuntimeAttentionWeights::Full(p), Qwen35AttentionWeights::Full(w)) => p.packs(
                w,
                config,
            ) && config.layer_types@[i] == Qwen35LayerType::FullAttention,
            _ => false,
        },
{
    assert(packed.layers@[i].packs(weights.layers@[i], config));
    if packed.lm_head is Some {
        transposed_rows_turn(
            packed.lm_head->Some_0,
            weights.lm_head_weight->Some_0,
            0,
            config.vocab_size as int,
            config.hidden_size as int,
        );
    }
}

} // verus!
