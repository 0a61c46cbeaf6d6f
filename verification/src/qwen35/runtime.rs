//! The weights in the layout that the CPU runtime multiplies with.
//!
//! Checkpoint matrices arrive as `[out, in]`. Each is widened to 32-bit floats
//! and transposed to `[in, out]` once, when the model is built.

use vstd::prelude::*;

use crate::error::{answers, either, Error, Fault, FaultOrder};
use crate::qwen35::config::{Qwen35LayerType, Qwen35TextConfig};
use crate::qwen35::loader::{
    Qwen35AttentionWeights, Qwen35FullAttentionWeights, Qwen35LayerWeights,
    Qwen35LinearAttentionWeights, Qwen35MlpWeights, Qwen35TextWeights,
};
use crate::qwen35::packing::{
    conv_rows_fault, cpu_f32_fault, gated_query_fault, into_cpu_f32, is_conv_slice, is_query_half,
    is_transposed, slice_conv_rows, transpose_interleaved_q_gate, transpose_rows,
    transpose_rows_fault,
};
use crate::tensor::Tensor;

verus! {

/// The weights of one linear-attention layer.
#[derive(Debug, PartialEq, Eq)]
pub struct RuntimeLinearWeights {
    pub a_log: Tensor,
    pub dt_bias: Tensor,
    pub query_projection: Tensor,
    pub key_projection: Tensor,
    pub value_projection: Tensor,
    pub z_projection: Tensor,
    pub a_projection: Tensor,
    pub b_projection: Tensor,
    pub query_conv_weight: Tensor,
    pub key_conv_weight: Tensor,
    pub value_conv_weight: Tensor,
    pub norm_weight: Tensor,
    pub output_projection: Tensor,
}

impl RuntimeLinearWeights {
    /// The first thing that stops the weights from being packed.
    pub open spec fn fault(
        weights: Qwen35LinearAttentionWeights,
        config: Qwen35TextConfig,
    ) -> Fault {
        let key_width = config.key_width();
        let value_width = config.value_width();
        cpu_f32_fault(weights.a_log, "GDN A_log")
            .or_fault(cpu_f32_fault(weights.dt_bias, "GDN dt_bias"))
            .or_fault(
                transpose_rows_fault(
                    weights.in_proj_qkv_weight,
                    0,
                    key_width,
                    config.hidden_size as int,
                ),
            )
            .or_fault(
                transpose_rows_fault(
                    weights.in_proj_qkv_weight,
                    key_width,
                    key_width,
                    config.hidden_size as int,
                ),
            )
            .or_fault(
                transpose_rows_fault(
                    weights.in_proj_qkv_weight,
                    2 * key_width,
                    value_width,
                    config.hidden_size as int,
                ),
            )
            .or_fault(
                transpose_rows_fault(
                    weights.in_proj_z_weight,
                    0,
                    value_width,
                    config.hidden_size as int,
                ),
            )
            .or_fault(
                transpose_rows_fault(
                    weights.in_proj_a_weight,
                    0,
                    config.linear_num_value_heads as int,
                    config.hidden_size as int,
                ),
            )
            .or_fault(
                transpose_rows_fault(
                    weights.in_proj_b_weight,
                    0,
                    config.linear_num_value_heads as int,
                    config.hidden_size as int,
                ),
            )
            .or_fault(
                conv_rows_fault(
                    weights.conv1d_weight,
                    0,
                    key_width,
                    config.linear_conv_kernel_dim as int,
                ),
            )
            .or_fault(
                conv_rows_fault(
                    weights.conv1d_weight,
                    key_width,
                    key_width,
                    config.linear_conv_kernel_dim as int,
                ),
            )
            .or_fault(
                conv_rows_fault(
                    weights.conv1d_weight,
                    2 * key_width,
                    value_width,
                    config.linear_conv_kernel_dim as int,
                ),
            )
            .or_fault(cpu_f32_fault(weights.norm_weight, "GDN output norm"))
            .or_fault(
                transpose_rows_fault(
                    weights.out_proj_weight,
                    0,
                    config.hidden_size as int,
                    value_width,
                ),
            )
    }

    /// The runtime weights are those of the checkpoint.
    pub open spec fn packs(
        self,
        weights: Qwen35LinearAttentionWeights,
        config: Qwen35TextConfig,
    ) -> bool {
        let key_width = config.key_width();
        let value_width = config.value_width();
        &&& self.a_log.is_f32(weights.a_log.dims(), weights.a_log.floats())
        &&& self.dt_bias.is_f32(weights.dt_bias.dims(), weights.dt_bias.floats())
        &&& is_transposed(
            self.query_projection,
            weights.in_proj_qkv_weight,
            0,
            key_width,
            config.hidden_size as int,
        )
        &&& is_transposed(
            self.key_projection,
            weights.in_proj_qkv_weight,
            key_width,
            key_width,
            config.hidden_size as int,
        )
        &&& is_transposed(
            self.value_projection,
            weights.in_proj_qkv_weight,
            2 * key_width,
            value_width,
            config.hidden_size as int,
        )
        &&& is_transposed(
            self.z_projection,
            weights.in_proj_z_weight,
            0,
            value_width,
            config.hidden_size as int,
        )
        &&& is_transposed(
            self.a_projection,
            weights.in_proj_a_weight,
            0,
            config.linear_num_value_heads as int,
            config.hidden_size as int,
        )
        &&& is_transposed(
            self.b_projection,
            weights.in_proj_b_weight,
            0,
            config.linear_num_value_heads as int,
            config.hidden_size as int,
        )
        &&& is_conv_slice(
            self.query_conv_weight,
            weights.conv1d_weight,
            0,
            key_width,
            config.linear_conv_kernel_dim as int,
        )
        &&& is_conv_slice(
            self.key_conv_weight,
            weights.conv1d_weight,
            key_width,
            key_width,
            config.linear_conv_kernel_dim as int,
        )
        &&& is_conv_slice(
            self.value_conv_weight,
            weights.conv1d_weight,
            2 * key_width,
            value_width,
            config.linear_conv_kernel_dim as int,
        )
        &&& self.norm_weight.is_f32(weights.norm_weight.dims(), weights.norm_weight.floats())
        &&& is_transposed(
            self.output_projection,
            weights.out_proj_weight,
            0,
            config.hidden_size as int,
            value_width,
        )
    }

    /// Packs the weights.
    pub fn pack(weights: Qwen35LinearAttentionWeights, config: &Qwen35TextConfig) -> (r: Result<
        RuntimeLinearWeights,
        Error,
    >)
        requires
            config.widths_fit(),
        ensures
            answers(r, RuntimeLinearWeights::fault(weights, *config)),
            r matches Ok(packed) ==> packed.packs(weights, *config),
    {
        proof {
            config_widths(*config);
        }
        let key_width: usize = config.linear_key_width();
        let value_width: usize = config.linear_value_width();
        let a_log = match into_cpu_f32(weights.a_log, "GDN A_log") {
            Ok(tensor) => tensor,
            Err(e) => return Err(e),
        };
        let dt_bias = match into_cpu_f32(weights.dt_bias, "GDN dt_bias") {
            Ok(tensor) => tensor,
            Err(e) => return Err(e),
        };
        let query_projection = match transpose_rows(
            &weights.in_proj_qkv_weight,
            0,
            key_width,
            config.hidden_size,
        ) {
            Ok(tensor) => tensor,
            Err(e) => return Err(e),
        };
        let key_projection = match transpose_rows(
            &weights.in_proj_qkv_weight,
            key_width,
            key_width,
            config.hidden_size,
        ) {
            Ok(tensor) => tensor,
            Err(e) => return Err(e),
        };
        let value_projection = match transpose_rows(
            &weights.in_proj_qkv_weight,
            2 * key_width,
            value_width,
            config.hidden_size,
        ) {
            Ok(tensor) => tensor,
            Err(e) => return Err(e),
        };
        let z_projection = match transpose_rows(
            &weights.in_proj_z_weight,
            0,
            value_width,
            config.hidden_size,
        ) {
            Ok(tensor) => tensor,
            Err(e) => return Err(e),
        };
        let a_projection = match transpose_rows(
            &weights.in_proj_a_weight,
            0,
            config.linear_num_value_heads,
            config.hidden_size,
        ) {
            Ok(tensor) => tensor,
            Err(e) => return Err(e),
        };
        let b_projection = match transpose_rows(
            &weights.in_proj_b_weight,
            0,
            config.linear_num_value_heads,
            config.hidden_size,
        ) {
            Ok(tensor) => tensor,
            Err(e) => return Err(e),
        };
        let query_conv_weight = match slice_conv_rows(
            &weights.conv1d_weight,
            0,
            key_width,
            config.linear_conv_kernel_dim,
        ) {
            Ok(tensor) => tensor,
            Err(e) => return Err(e),
        };
        let key_conv_weight = match slice_conv_rows(
            &weights.conv1d_weight,
            key_width,
            key_width,
            config.linear_conv_kernel_dim,
        ) {
            Ok(tensor) => tensor,
            Err(e) => return Err(e),
        };
        let value_conv_weight = match slice_conv_rows(
            &weights.conv1d_weight,
            2 * key_width,
            value_width,
            config.linear_conv_kernel_dim,
        ) {
            Ok(tensor) => tensor,
            Err(e) => return Err(e),
        };
        let norm_weight = match into_cpu_f32(weights.norm_weight, "GDN output norm") {
            Ok(tensor) => tensor,
            Err(e) => return Err(e),
        };
        let output_projection = match transpose_rows(
            &weights.out_proj_weight,
            0,
            config.hidden_size,
            value_width,
        ) {
            Ok(tensor) => tensor,
            Err(e) => return Err(e),
        };
        Ok(
            RuntimeLinearWeights {
                a_log,
                dt_bias,
                query_projection,
                key_projection,
                value_projection,
                z_projection,
                a_projection,
                b_projection,
                query_conv_weight,
                key_conv_weight,
                value_conv_weight,
                norm_weight,
                output_projection,
            },
        )
    }
}

/// The weights of one feed-forward block.
#[derive(Debug, PartialEq, Eq)]
pub struct RuntimeMlpWeights {
    pub gate_projection: Tensor,
    pub up_projection: Tensor,
    pub down_projection: Tensor,
}

impl RuntimeMlpWeights {
    /// The first thing that stops the weights from being packed.
    pub open spec fn fault(weights: Qwen35MlpWeights, config: Qwen35TextConfig) -> Fault {
        either(
            transpose_rows_fault(
                weights.gate_proj_weight,
                0,
                config.intermediate_size as int,
                config.hidden_size as int,
            ),
            either(
            transpose_rows_fault(
                weights.up_proj_weight,
                0,
                config.intermediate_size as int,
                config.hidden_size as int,
            ),
            transpose_rows_fault(
                weights.down_proj_weight,
                0,
                config.hidden_size as int,
                config.intermediate_size as int,
            ),
        ),
        )
    }

    /// The runtime weights are those of the checkpoint.
    pub open spec fn packs(self, weights: Qwen35MlpWeights, config: Qwen35TextConfig) -> bool {
        &&& is_transposed(
            self.gate_projection,
            weights.gate_proj_weight,
            0,
            config.intermediate_size as int,
            config.hidden_size as int,
        )
        &&& is_transposed(
            self.up_projection,
            weights.up_proj_weight,
            0,
            config.intermediate_size as int,
            config.hidden_size as int,
        )
        &&& is_transposed(
            self.down_projection,
            weights.down_proj_weight,
            0,
            config.hidden_size as int,
            config.intermediate_size as int,
        )
    }

    /// Packs the weights.
    pub fn pack(weights: Qwen35MlpWeights, config: &Qwen35TextConfig) -> (r: Result<
        RuntimeMlpWeights,
        Error,
    >)
        requires
            config.widths_fit(),
        ensures
            answers(r, RuntimeMlpWeights::fault(weights, *config)),
            r matches Ok(packed) ==> packed.packs(weights, *config),
    {
        let gate_projection = match transpose_rows(
            &weights.gate_proj_weight,
            0,
            config.intermediate_size,
            config.hidden_size,
        ) {
            Ok(tensor) => tensor,
            Err(e) => return Err(e),
        };
        let up_projection = match transpose_rows(
            &weights.up_proj_weight,
            0,
            config.intermediate_size,
            config.hidden_size,
        ) {
            Ok(tensor) => tensor,
            Err(e) => return Err(e),
        };
        let down_projection = match transpose_rows(
            &weights.down_proj_weight,
            0,
            config.hidden_size,
            config.intermediate_size,
        ) {
            Ok(tensor) => tensor,
            Err(e) => return Err(e),
        };
        Ok(
            RuntimeMlpWeights {
                gate_projection,
                up_projection,
                down_projection,
            },
        )
    }
}

proof fn config_widths(config: Qwen35TextConfig)
    requires
        config.widths_fit(),
    ensures
        0 <= config.key_width(),
        0 <= config.value_width(),
        2 * config.key_width() <= usize::MAX,
        config.value_width() <= usize::MAX,
        0 <= config.query_width() <= usize::MAX,
{
    assert(0 <= config.linear_num_key_heads * config.linear_key_head_dim) by (nonlinear_arith);
    assert(0 <= config.linear_num_value_heads * config.linear_value_head_dim) by (nonlinear_arith);
    assert(0 <= config.n_attention_heads * config.head_dim) by (nonlinear_arith);
}

/// The weights of one full-attention layer.
#[derive(Debug, PartialEq, Eq)]
pub struct RuntimeFullWeights {
    pub query_projection: Tensor,
    /// Present where attention has an output gate.
    pub gate_projection: Option<Tensor>,
    pub key_projection: Tensor,
    pub value_projection: Tensor,
    pub output_projection: Tensor,
    pub query_norm_weight: Tensor,
    pub key_norm_weight: Tensor,
}

impl RuntimeFullWeights {
    /// What stops the query projection from being packed.
    pub open spec fn query_fault(
        weights: Qwen35FullAttentionWeights,
        config: Qwen35TextConfig,
    ) -> Fault {
        if config.attn_output_gate {
            gated_query_fault(
                weights.q_proj_weight,
                config.n_attention_heads as int,
                config.head_dim as int,
                config.hidden_size as int,
            )
        } else {
            transpose_rows_fault(
                weights.q_proj_weight,
                0,
                config.query_width(),
                config.hidden_size as int,
            )
        }
    }

    /// The first thing that stops the weights from being packed.
    pub open spec fn fault(weights: Qwen35FullAttentionWeights, config: Qwen35TextConfig) -> Fault {
        let hidden = config.hidden_size as int;
        RuntimeFullWeights::query_fault(weights, config)
            .or_fault(transpose_rows_fault(weights.k_proj_weight, 0, config.kv_width(), hidden))
            .or_fault(transpose_rows_fault(weights.v_proj_weight, 0, config.kv_width(), hidden))
            .or_fault(transpose_rows_fault(weights.o_proj_weight, 0, hidden, config.query_width()))
            .or_fault(cpu_f32_fault(weights.q_norm_weight, "attention Q norm"))
            .or_fault(cpu_f32_fault(weights.k_norm_weight, "attention K norm"))
    }

    /// The runtime weights are those of the checkpoint.
    pub open spec fn packs(
        self,
        weights: Qwen35FullAttentionWeights,
        config: Qwen35TextConfig,
    ) -> bool {
        let hidden = config.hidden_size as int;
        let heads = config.n_attention_heads as int;
        let head_dim = config.head_dim as int;
        &&& if config.attn_output_gate {
            &&& is_query_half(
                self.query_projection,
                weights.q_proj_weight,
                heads,
                head_dim,
                hidden,
                0,
            )
            &&& self.gate_projection is Some
            &&& is_query_half(
                self.gate_projection->Some_0,
                weights.q_proj_weight,
                heads,
                head_dim,
                hidden,
                head_dim,
            )
        } else {
            &&& is_transposed(
                self.query_projection,
                weights.q_proj_weight,
                0,
                config.query_width(),
                hidden,
            )
            &&& self.gate_projection is None
        }
        &&& is_transposed(self.key_projection, weights.k_proj_weight, 0, config.kv_width(), hidden)
        &&& is_transposed(
            self.value_projection,
            weights.v_proj_weight,
            0,
            config.kv_width(),
            hidden,
        )
        &&& is_transposed(
            self.output_projection,
            weights.o_proj_weight,
            0,
            hidden,
            config.query_width(),
        )
        &&& self.query_norm_weight.is_f32(
            weights.q_norm_weight.dims(),
            weights.q_norm_weight.floats(),
        )
        &&& self.key_norm_weight.is_f32(
            weights.k_norm_weight.dims(),
            weights.k_norm_weight.floats(),
        )
    }

    /// Packs the weights.
    pub fn pack(weights: Qwen35FullAttentionWeights, config: &Qwen35TextConfig) -> (r: Result<
        RuntimeFullWeights,
        Error,
    >)
        requires
            config.widths_fit(),
        ensures
            answers(r, RuntimeFullWeights::fault(weights, *config)),
            r matches Ok(packed) ==> packed.packs(weights, *config),
    {
        proof {
            config_widths(*config);
        }
        let query_width: usize = config.full_query_width();
        let kv_width: usize = config.full_kv_width();
        let (query_projection, gate_projection) = if config.attn_output_gate {
            match transpose_interleaved_q_gate(
                &weights.q_proj_weight,
                config.n_attention_heads,
                config.head_dim,
                config.hidden_size,
            ) {
                Ok((query, gate)) => (query, Some(gate)),
                Err(e) => return Err(e),
            }
        } else {
            match transpose_rows(&weights.q_proj_weight, 0, query_width, config.hidden_size) {
                Ok(query) => (query, None),
                Err(e) => return Err(e),
            }
        };
        let key_projection = match transpose_rows(
            &weights.k_proj_weight,
            0,
            kv_width,
            config.hidden_size,
        ) {
            Ok(tensor) => tensor,
            Err(e) => return Err(e),
        };
        let value_projection = match transpose_rows(
            &weights.v_proj_weight,
            0,
            kv_width,
            config.hidden_size,
        ) {
            Ok(tensor) => tensor,
            Err(e) => return Err(e),
        };
        let output_projection = match transpose_rows(
            &weights.o_proj_weight,
            0,
            config.hidden_size,
            query_width,
        ) {
            Ok(tensor) => tensor,
            Err(e) => return Err(e),
        };
        let query_norm_weight = match into_cpu_f32(weights.q_norm_weight, "attention Q norm") {
            Ok(tensor) => tensor,
            Err(e) => return Err(e),
        };
        let key_norm_weight = match into_cpu_f32(weights.k_norm_weight, "attention K norm") {
            Ok(tensor) => tensor,
            Err(e) => return Err(e),
        };
        Ok(
            RuntimeFullWeights {
                query_projection,
                gate_projection,
                key_projection,
                value_projection,
                output_projection,
                query_norm_weight,
                key_norm_weight,
            },
        )
    }
}

/// The attention weights of a layer.
#[derive(Debug, PartialEq, Eq)]
pub enum RuntimeAttentionWeights {
    Linear(RuntimeLinearWeights),
    Full(RuntimeFullWeights),
}

impl RuntimeAttentionWeights {
    /// The kind of layer that the weights belong to.
    pub open spec fn kind(self) -> Qwen35LayerType {
        match self {
            RuntimeAttentionWeights::Linear(_) => Qwen35LayerType::LinearAttention,
            RuntimeAttentionWeights::Full(_) => Qwen35LayerType::FullAttention,
        }
    }

    /// The kind of layer that the weights belong to.
    pub fn layer_type(&self) -> (kind: Qwen35LayerType)
        ensures
            kind == self.kind(),
    {
        match self {
            RuntimeAttentionWeights::Linear(_) => Qwen35LayerType::LinearAttention,
            RuntimeAttentionWeights::Full(_) => Qwen35LayerType::FullAttention,
        }
    }
}

/// The weights of one layer.
#[derive(Debug, PartialEq, Eq)]
pub struct RuntimeLayerWeights {
    pub input_norm_weight: Tensor,
    pub attention: RuntimeAttentionWeights,
    pub post_attention_norm_weight: Tensor,
    pub mlp: RuntimeMlpWeights,
}

impl RuntimeLayerWeights {
    /// The first thing that stops a layer from being packed.
    pub open spec fn fault(
        layer: Qwen35LayerWeights,
        layer_type: Qwen35LayerType,
        config: Qwen35TextConfig,
        index: usize,
    ) -> Fault {
        let attention = match (layer.attention, layer_type) {
            (Qwen35AttentionWeights::Linear(weights), Qwen35LayerType::LinearAttention) =>
                RuntimeLinearWeights::fault(weights, config),
            (Qwen35AttentionWeights::Full(weights), Qwen35LayerType::FullAttention) =>
                RuntimeFullWeights::fault(weights, config),
            _ => Some(Error::AttentionMismatch { layer_index: index }.text()),
        };
        attention
            .or_fault(cpu_f32_fault(layer.input_norm_weight, "input norm"))
            .or_fault(cpu_f32_fault(layer.post_attention_norm_weight, "post-attention norm"))
            .or_fault(RuntimeMlpWeights::fault(layer.mlp, config))
    }

    /// The runtime layer is that of the checkpoint.
    pub open spec fn packs(self, layer: Qwen35LayerWeights, config: Qwen35TextConfig) -> bool {
        &&& self.input_norm_weight.is_f32(
            layer.input_norm_weight.dims(),
            layer.input_norm_weight.floats(),
        )
        &&& self.post_attention_norm_weight.is_f32(
            layer.post_attention_norm_weight.dims(),
            layer.post_attention_norm_weight.floats(),
        )
        &&& self.mlp.packs(layer.mlp, config)
        &&& match (self.attention, layer.attention) {
            (RuntimeAttentionWeights::Linear(packed), Qwen35AttentionWeights::Linear(weights)) =>
                packed.packs(weights, config),
            (RuntimeAttentionWeights::Full(packed), Qwen35AttentionWeights::Full(weights)) =>
                packed.packs(weights, config),
            _ => false,
        }
    }

    /// Packs one layer.
    pub fn pack(
        layer: Qwen35LayerWeights,
        layer_type: Qwen35LayerType,
        config: &Qwen35TextConfig,
        index: usize,
    ) -> (r: Result<RuntimeLayerWeights, Error>)
        requires
            config.widths_fit(),
        ensures
            answers(r, RuntimeLayerWeights::fault(layer, layer_type, *config, index)),
            r matches Ok(packed) ==> packed.packs(layer, *config) && packed.attention.kind()
                == layer_type,
    {
        let attention = match (layer.attention, layer_type) {
            (Qwen35AttentionWeights::Linear(weights), Qwen35LayerType::LinearAttention) => {
                match RuntimeLinearWeights::pack(weights, config) {
                    Ok(packed) => RuntimeAttentionWeights::Linear(packed),
                    Err(e) => return Err(e),
                }
            },
            (Qwen35AttentionWeights::Full(weights), Qwen35LayerType::FullAttention) => {
                match RuntimeFullWeights::pack(weights, config) {
                    Ok(packed) => RuntimeAttentionWeights::Full(packed),
                    Err(e) => return Err(e),
                }
            },
            _ => return Err(Error::AttentionMismatch { layer_index: index }),
        };
        let input_norm_weight = match into_cpu_f32(layer.input_norm_weight, "input norm") {
            Ok(tensor) => tensor,
            Err(e) => return Err(e),
        };
        let post_attention_norm_weight = match into_cpu_f32(
            layer.post_attention_norm_weight,
            "post-attention norm",
        ) {
            Ok(tensor) => tensor,
            Err(e) => return Err(e),
        };
        let mlp = match RuntimeMlpWeights::pack(layer.mlp, config) {
            Ok(mlp) => mlp,
            Err(e) => return Err(e),
        };
        Ok(
            RuntimeLayerWeights {
                input_norm_weight,
                attention,
                post_attention_norm_weight,
                mlp,
            },
        )
    }
}

/// The weights of the text stack.
#[derive(Debug, PartialEq, Eq)]
pub struct RuntimeWeights {
    pub token_embedding: Tensor,
    pub layers: Vec<RuntimeLayerWeights>,
    pub output_norm_weight: Tensor,
    /// An output projection of its own as `[hidden, vocab]`. `None` means that
    /// the output is tied to the embedding, which stays `[vocab, hidden]`.
    pub lm_head: Option<Tensor>,
}

/// The first fault among the layers from `from` on.
pub open spec fn layers_fault(
    layers: Seq<Qwen35LayerWeights>,
    config: Qwen35TextConfig,
    from: nat,
) -> Fault
    decreases layers.len() - from,
{
    if from >= layers.len() || from >= config.layer_types@.len() {
        None
    } else {
        either(
            RuntimeLayerWeights::fault(
                layers[from as int],
                config.layer_types@[from as int],
                config,
                from as usize,
            ),
            layers_fault(layers, config, from + 1),
        )
    }
}

impl RuntimeWeights {
    /// The first thing that stops the weights from being packed.
    pub open spec fn fault(weights: Qwen35TextWeights, config: Qwen35TextConfig) -> Fault {
        let head = match weights.lm_head_weight {
            Some(weight) => transpose_rows_fault(
                weight,
                0,
                config.vocab_size as int,
                config.hidden_size as int,
            ),
            None => None,
        };
        cpu_f32_fault(weights.token_embedding, "token embedding")
            .or_fault(head)
            .or_fault(cpu_f32_fault(weights.output_norm_weight, "output norm"))
            .or_fault(layers_fault(weights.layers@, config, 0))
    }

    /// The runtime weights are those of the checkpoint.
    pub open spec fn packs(self, weights: Qwen35TextWeights, config: Qwen35TextConfig) -> bool {
        &&& self.token_embedding.is_f32(
            weights.token_embedding.dims(),
            weights.token_embedding.floats(),
        )
        &&& self.output_norm_weight.is_f32(
            weights.output_norm_weight.dims(),
            weights.output_norm_weight.floats(),
        )
        &&& (self.lm_head is Some) == (weights.lm_head_weight is Some)
        &&& self.lm_head is Some ==> is_transposed(
            self.lm_head->Some_0,
            weights.lm_head_weight->Some_0,
            0,
            config.vocab_size as int,
            config.hidden_size as int,
        )
        &&& self.layers@.len() == if weights.layers@.len() <= config.layer_types@.len() {
            weights.layers@.len()
        } else {
            config.layer_types@.len()
        }
        &&& forall|i: int|
            0 <= i < self.layers@.len() ==> (#[trigger] self.layers@[i]).packs(
                weights.layers@[i],
                config,
            ) && self.layers@[i].attention.kind() == config.layer_types@[i]
    }

    /// Packs the checkpoint once, when a model is built. The embedding of a
    /// tied model is not copied into a second output projection.
    pub fn pack(weights: Qwen35TextWeights, config: &Qwen35TextConfig) -> (r: Result<
        RuntimeWeights,
        Error,
    >)
        requires
            config.widths_fit(),
        ensures
            answers(r, RuntimeWeights::fault(weights, *config)),
            r matches Ok(packed) ==> packed.packs(weights, *config),
    {
        let ghost fault = RuntimeWeights::fault(weights, *config);
        let token_embedding = match into_cpu_f32(weights.token_embedding, "token embedding") {
            Ok(tensor) => tensor,
            Err(e) => return Err(e),
        };
        let lm_head = match &weights.lm_head_weight {
            Some(weight) => match transpose_rows(weight, 0, config.vocab_size, config.hidden_size) {
                Ok(tensor) => Some(tensor),
                Err(e) => return Err(e),
            },
            None => None,
        };
        let output_norm_weight = match into_cpu_f32(weights.output_norm_weight, "output norm") {
            Ok(tensor) => tensor,
            Err(e) => return Err(e),
        };
        let ghost sources = weights.layers@;
        let total: usize = weights.layers.len();
        let mut remaining = weights.layers;
        let mut layers: Vec<RuntimeLayerWeights> = Vec::new();
        let mut index: usize = 0;
        while index < total && index < config.layer_types.len()
            invariant
                index <= total,
                index <= config.layer_types@.len(),
                total == sources.len(),
                config.widths_fit(),
                remaining@ == sources.skip(index as int),
                fault == RuntimeWeights::fault(weights, *config),
                fault == layers_fault(sources, *config, 0),
                layers_fault(sources, *config, 0) == layers_fault(sources, *config, index as nat),
                layers@.len() == index,
                forall|i: int|
                    0 <= i < index ==> (#[trigger] layers@[i]).packs(sources[i], *config)
                        && layers@[i].attention.kind() == config.layer_types@[i],
            decreases total - index,
        {
            let layer = remaining.remove(0);
            proof {
                assert(layer == sources[index as int]);
                assert(remaining@ =~= sources.skip(index + 1));
            }
            match RuntimeLayerWeights::pack(layer, config.layer_types[index], config, index) {
                Ok(packed) => layers.push(packed),
                Err(e) => return Err(e),
            }
            index = index + 1;
        }
        Ok(RuntimeWeights { token_embedding, layers, output_norm_weight, lm_head })
    }
}

} // verus!
