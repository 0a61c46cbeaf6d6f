//! What the accelerator is given to pack, and what stops it.
//!
//! The caller hands the sources below to the accelerator and reports back
//! where packing failed, if it did. Checks and failures are told in the order
//! in which packing meets them.

use vstd::prelude::*;

use crate::error::{
    answers, either, gdn_weight_shape_text, linear_layer_weight_shape_text, Error, Fault,
    FaultOrder,
};
use crate::qwen35::config::{Qwen35LayerType, Qwen35TextConfig};
use crate::qwen35::loader::{
    Qwen35AttentionWeights, Qwen35LayerWeights, Qwen35LinearAttentionWeights, Qwen35MlpWeights,
    Qwen35TextWeights,
};
use crate::qwen35::metal::{GdnDimensions, W8GroupSize};
use crate::qwen35::packing::{f32_fault, f32_values};
use crate::qwen35::profile::Qwen35PackedW8LinearLayerReferenceProfile;
use crate::tensor::{copy_dims, DType, Device, Tensor};

verus! {

/// The sizes of the recurrent block of a model.
pub open spec fn dimensions_of(config: Qwen35TextConfig) -> GdnDimensions {
    GdnDimensions {
        hidden_size: config.hidden_size,
        key_heads: config.linear_num_key_heads,
        value_heads: config.linear_num_value_heads,
        key_dim: config.linear_key_head_dim,
        value_dim: config.linear_value_head_dim,
        conv_kernel_size: config.linear_conv_kernel_dim,
        rms_norm_eps_bits: config.rms_norm_eps_bits,
    }
}

/// The sizes of the recurrent block of a model.
pub fn gdn_dimensions(config: &Qwen35TextConfig) -> (dimensions: GdnDimensions)
    ensures
        dimensions == dimensions_of(*config),
{
    GdnDimensions {
        hidden_size: config.hidden_size,
        key_heads: config.linear_num_key_heads,
        value_heads: config.linear_num_value_heads,
        key_dim: config.linear_key_head_dim,
        value_dim: config.linear_value_head_dim,
        conv_kernel_size: config.linear_conv_kernel_dim,
        rms_norm_eps_bits: config.rms_norm_eps_bits,
    }
}

/// The rows of the joined input projection of a recurrent block.
pub open spec fn input_rows(config: Qwen35TextConfig) -> int {
    config.qkv_width() + config.value_width() + 2 * config.linear_num_value_heads
}

/// The joined input projection does not fit.
pub open spec fn input_overflows(config: Qwen35TextConfig) -> bool {
    input_rows(config) * config.hidden_size > usize::MAX
}

fn check_input_size(config: &Qwen35TextConfig) -> (fits: bool)
    requires
        config.widths_fit(),
    ensures
        fits == !input_overflows(*config),
{
    let rows: u128 = config.linear_qkv_width() as u128 + config.linear_value_width() as u128
        + 2 * config.linear_num_value_heads as u128;
    proof {
        assert(rows == input_rows(*config));
        assert(rows * config.hidden_size <= 0x4_0000_0000_0000_0000 * 0x1_0000_0000_0000_0000)
            by (nonlinear_arith)
            requires
                rows <= 0x4_0000_0000_0000_0000,
                config.hidden_size <= 0x1_0000_0000_0000_0000,
        ;
    }
    match rows.checked_mul(config.hidden_size as u128) {
        Some(elements) => elements <= usize::MAX as u128,
        None => false,
    }
}

/// The weights of a recurrent block as 32-bit floats. The rows of the input
/// projection are those of the query/key/value, gate, `a` and `b` projections.
#[derive(Debug, PartialEq, Eq)]
pub struct GdnF32Weights {
    pub input_projection: Vec<u32>,
    pub output_projection: Vec<u32>,
    pub conv_weight: Vec<u32>,
    pub a_log: Vec<u32>,
    pub dt_bias: Vec<u32>,
    pub norm_weight: Vec<u32>,
}

impl GdnF32Weights {
    /// The values are those of the checkpoint.
    pub open spec fn holds(self, attention: Qwen35LinearAttentionWeights) -> bool {
        &&& self.input_projection@ == attention.in_proj_qkv_weight.floats()
            + attention.in_proj_z_weight.floats() + attention.in_proj_a_weight.floats()
            + attention.in_proj_b_weight.floats()
        &&& self.output_projection@ == attention.out_proj_weight.floats()
        &&& self.conv_weight@ == attention.conv1d_weight.floats()
        &&& self.a_log@ == attention.a_log.floats()
        &&& self.dt_bias@ == attention.dt_bias.floats()
        &&& self.norm_weight@ == attention.norm_weight.floats()
    }
}

/// The weights of a feed-forward block as 32-bit floats.
#[derive(Debug, PartialEq, Eq)]
pub struct MlpF32Weights {
    pub gate: Vec<u32>,
    pub up: Vec<u32>,
    pub down: Vec<u32>,
}

impl MlpF32Weights {
    /// The values are those of the checkpoint.
    pub open spec fn holds(self, mlp: Qwen35MlpWeights) -> bool {
        &&& self.gate@ == mlp.gate_proj_weight.floats()
        &&& self.up@ == mlp.up_proj_weight.floats()
        &&& self.down@ == mlp.down_proj_weight.floats()
    }
}

/// The two norms of a layer as 32-bit floats. They are centred at zero: one is
/// added to each before they multiply.
#[derive(Debug, PartialEq, Eq)]
pub struct NormF32Weights {
    pub input: Vec<u32>,
    pub post_attention: Vec<u32>,
}

impl NormF32Weights {
    /// The values are those of the checkpoint.
    pub open spec fn holds(self, layer: Qwen35LayerWeights) -> bool {
        &&& self.input@ == layer.input_norm_weight.floats()
        &&& self.post_attention@ == layer.post_attention_norm_weight.floats()
    }
}

pub fn check_f32(tensor: &Tensor, label: &'static str) -> (r: Result<(), Error>)
    ensures
        answers(r, f32_fault(*tensor, label)),
{
    if tensor.device() != Device::Cpu {
        return Err(Error::NotOnCpuBeforePacking { label });
    }
    if tensor.dtype() == DType::I8 {
        return Err(Error::UnsupportedDtype { label, dtype: tensor.dtype().as_str() });
    }
    Ok(())
}

/// A weight has another shape than the block asks for.
pub open spec fn gdn_shape_fault(
    label: &'static str,
    tensor: Tensor,
    expected: Seq<usize>,
) -> Fault {
    if tensor.dims() == expected {
        None
    } else {
        Some(gdn_weight_shape_text(label, expected, tensor.dims()))
    }
}

fn check_gdn_shape(label: &'static str, tensor: &Tensor, expected: Vec<usize>) -> (r: Result<
    (),
    Error,
>)
    ensures
        answers(r, gdn_shape_fault(label, *tensor, expected@)),
{
    if !tensor.has_shape(expected.as_slice()) {
        let got = copy_dims(tensor.shape().as_slice());
        return Err(Error::GdnWeightShape { label, expected, got });
    }
    Ok(())
}

/// A weight has another shape than the block asks for.
pub open spec fn linear_layer_shape_fault(
    label: &'static str,
    tensor: Tensor,
    expected: Seq<usize>,
) -> Fault {
    if tensor.dims() == expected {
        None
    } else {
        Some(linear_layer_weight_shape_text(label, expected, tensor.dims()))
    }
}

fn check_linear_layer_shape(
    label: &'static str,
    tensor: &Tensor,
    expected: Vec<usize>,
) -> (r: Result<
    (),
    Error,
>)
    ensures
        answers(r, linear_layer_shape_fault(label, *tensor, expected@)),
{
    if !tensor.has_shape(expected.as_slice()) {
        let got = copy_dims(tensor.shape().as_slice());
        return Err(Error::LinearLayerWeightShape { label, expected, got });
    }
    Ok(())
}

/// Widens the weights of a recurrent block.
fn gdn_floats(attention: &Qwen35LinearAttentionWeights, label: &'static str) -> (r: Result<
    GdnF32Weights,
    Error,
>)
    requires
        f32_fault(attention.in_proj_qkv_weight, label) is None,
        f32_fault(attention.in_proj_z_weight, label) is None,
        f32_fault(attention.in_proj_a_weight, label) is None,
        f32_fault(attention.in_proj_b_weight, label) is None,
        f32_fault(attention.out_proj_weight, label) is None,
        f32_fault(attention.conv1d_weight, label) is None,
        f32_fault(attention.a_log, label) is None,
        f32_fault(attention.dt_bias, label) is None,
        f32_fault(attention.norm_weight, label) is None,
    ensures
        r matches Ok(source) && source.holds(*attention),
{
    let mut qkv = match f32_values(&attention.in_proj_qkv_weight, label) {
        Ok(values) => values,
        Err(e) => return Err(e),
    };
    let mut z = match f32_values(&attention.in_proj_z_weight, label) {
        Ok(values) => values,
        Err(e) => return Err(e),
    };
    let mut a = match f32_values(&attention.in_proj_a_weight, label) {
        Ok(values) => values,
        Err(e) => return Err(e),
    };
    let mut b = match f32_values(&attention.in_proj_b_weight, label) {
        Ok(values) => values,
        Err(e) => return Err(e),
    };
    let output_projection = match f32_values(&attention.out_proj_weight, label) {
        Ok(values) => values,
        Err(e) => return Err(e),
    };
    let conv_weight = match f32_values(&attention.conv1d_weight, label) {
        Ok(values) => values,
        Err(e) => return Err(e),
    };
    let a_log = match f32_values(&attention.a_log, label) {
        Ok(values) => values,
        Err(e) => return Err(e),
    };
    let dt_bias = match f32_values(&attention.dt_bias, label) {
        Ok(values) => values,
        Err(e) => return Err(e),
    };
    let norm_weight = match f32_values(&attention.norm_weight, label) {
        Ok(values) => values,
        Err(e) => return Err(e),
    };
    let mut input_projection: Vec<u32> = Vec::new();
    input_projection.append(&mut qkv);
    input_projection.append(&mut z);
    input_projection.append(&mut a);
    input_projection.append(&mut b);
    proof {
        assert(input_projection@ =~= attention.in_proj_qkv_weight.floats()
            + attention.in_proj_z_weight.floats() + attention.in_proj_a_weight.floats()
            + attention.in_proj_b_weight.floats());
    }
    Ok(
        GdnF32Weights {
            input_projection,
            output_projection,
            conv_weight,
            a_log,
            dt_bias,
            norm_weight,
        },
    )
}

/// What stops the recurrent part of a layer from being packed.
pub open spec fn gdn_weights_fault(
    attention: Qwen35LinearAttentionWeights,
    config: Qwen35TextConfig,
) -> Fault {
    let overflow = if input_overflows(config) {
        Some(Error::GdnOverflow.text())
    } else {
        None
    };
    gdn_shape_fault(
        "in_proj_qkv",
        attention.in_proj_qkv_weight,
        seq![config.qkv_width() as usize, config.hidden_size],
    )
        .or_fault(
            gdn_shape_fault(
                "in_proj_z",
                attention.in_proj_z_weight,
                seq![config.value_width() as usize, config.hidden_size],
            ),
        )
        .or_fault(
            gdn_shape_fault(
                "in_proj_a",
                attention.in_proj_a_weight,
                seq![config.linear_num_value_heads, config.hidden_size],
            ),
        )
        .or_fault(
            gdn_shape_fault(
                "in_proj_b",
                attention.in_proj_b_weight,
                seq![config.linear_num_value_heads, config.hidden_size],
            ),
        )
        .or_fault(
            gdn_shape_fault(
                "out_proj",
                attention.out_proj_weight,
                seq![config.hidden_size, config.value_width() as usize],
            ),
        )
        .or_fault(
            gdn_shape_fault(
                "conv1d",
                attention.conv1d_weight,
                seq![config.qkv_width() as usize, 1usize, config.linear_conv_kernel_dim],
            ),
        )
        .or_fault(gdn_shape_fault("A_log", attention.a_log, seq![config.linear_num_value_heads]))
        .or_fault(
            gdn_shape_fault("dt_bias", attention.dt_bias, seq![config.linear_num_value_heads]),
        )
        .or_fault(
            gdn_shape_fault("norm", attention.norm_weight, seq![config.linear_value_head_dim]),
        )
        .or_fault(f32_fault(attention.in_proj_qkv_weight, "Metal W8 GDN in_proj_qkv"))
        .or_fault(f32_fault(attention.in_proj_z_weight, "Metal W8 GDN in_proj_z"))
        .or_fault(f32_fault(attention.in_proj_a_weight, "Metal W8 GDN in_proj_a"))
        .or_fault(f32_fault(attention.in_proj_b_weight, "Metal W8 GDN in_proj_b"))
        .or_fault(overflow)
        .or_fault(f32_fault(attention.out_proj_weight, "Metal W8 GDN out_proj"))
        .or_fault(f32_fault(attention.conv1d_weight, "Metal W8 GDN conv1d"))
        .or_fault(f32_fault(attention.a_log, "Metal W8 GDN A_log"))
        .or_fault(f32_fault(attention.dt_bias, "Metal W8 GDN dt_bias"))
        .or_fault(f32_fault(attention.norm_weight, "Metal W8 GDN norm"))
}

/// What stops a selected layer, and its recurrent part, from being packed.
pub open spec fn gdn_fault(
    weights: Qwen35TextWeights,
    config: Qwen35TextConfig,
    layer_index: usize,
) -> Fault {
    let layers = weights.layers@;
    if layer_index >= layers.len() {
        Some(Error::GdnOutside { layer_index, layers: layers.len() as usize }.text())
    } else if config.kind(layer_index as int) != Some(Qwen35LayerType::LinearAttention) {
        Some(Error::GdnNotLinear { layer_index }.text())
    } else {
        match layers[layer_index as int].attention {
            Qwen35AttentionWeights::Linear(attention) => gdn_weights_fault(
                attention,
                config,
            ),
            Qwen35AttentionWeights::Full(_) => Some(
                Error::GdnCheckpointNotLinear { layer_index }.text(),
            ),
        }
    }
}

fn check_gdn_weights(
    attention: &Qwen35LinearAttentionWeights,
    config: &Qwen35TextConfig,
) -> (r: Result<(), Error>)
    requires
        config.widths_fit(),
    ensures
        answers(r, gdn_weights_fault(*attention, *config)),
{
    let expected: Vec<usize> = vec![config.linear_qkv_width(), config.hidden_size];
    proof {
        assert(expected@ =~= seq![config.qkv_width() as usize, config.hidden_size]);
    }
    if let Err(e) = check_gdn_shape("in_proj_qkv", &attention.in_proj_qkv_weight, expected) {
        return Err(e);
    }
    let expected: Vec<usize> = vec![config.linear_value_width(), config.hidden_size];
    proof {
        assert(expected@ =~= seq![config.value_width() as usize, config.hidden_size]);
    }
    if let Err(e) = check_gdn_shape("in_proj_z", &attention.in_proj_z_weight, expected) {
        return Err(e);
    }
    let expected: Vec<usize> = vec![config.linear_num_value_heads, config.hidden_size];
    proof {
        assert(expected@ =~= seq![config.linear_num_value_heads, config.hidden_size]);
    }
    if let Err(e) = check_gdn_shape("in_proj_a", &attention.in_proj_a_weight, expected) {
        return Err(e);
    }
    let expected: Vec<usize> = vec![config.linear_num_value_heads, config.hidden_size];
    proof {
        assert(expected@ =~= seq![config.linear_num_value_heads, config.hidden_size]);
    }
    if let Err(e) = check_gdn_shape("in_proj_b", &attention.in_proj_b_weight, expected) {
        return Err(e);
    }
    let expected: Vec<usize> = vec![config.hidden_size, config.linear_value_width()];
    proof {
        assert(expected@ =~= seq![config.hidden_size, config.value_width() as usize]);
    }
    if let Err(e) = check_gdn_shape("out_proj", &attention.out_proj_weight, expected) {
        return Err(e);
    }
    let expected: Vec<usize> = vec![config.linear_qkv_width(), 1, config.linear_conv_kernel_dim];
    proof {
        assert(
            expected@ =~= seq![config.qkv_width() as usize, 1usize, config.linear_conv_kernel_dim]
        );
    }
    if let Err(e) = check_gdn_shape("conv1d", &attention.conv1d_weight, expected) {
        return Err(e);
    }
    let expected: Vec<usize> = vec![config.linear_num_value_heads];
    proof {
        assert(expected@ =~= seq![config.linear_num_value_heads]);
    }
    if let Err(e) = check_gdn_shape("A_log", &attention.a_log, expected) {
        return Err(e);
    }
    let expected: Vec<usize> = vec![config.linear_num_value_heads];
    proof {
        assert(expected@ =~= seq![config.linear_num_value_heads]);
    }
    if let Err(e) = check_gdn_shape("dt_bias", &attention.dt_bias, expected) {
        return Err(e);
    }
    let expected: Vec<usize> = vec![config.linear_value_head_dim];
    proof {
        assert(expected@ =~= seq![config.linear_value_head_dim]);
    }
    if let Err(e) = check_gdn_shape("norm", &attention.norm_weight, expected) {
        return Err(e);
    }
    if let Err(e) = check_f32(&attention.in_proj_qkv_weight, "Metal W8 GDN in_proj_qkv") {
        return Err(e);
    }
    if let Err(e) = check_f32(&attention.in_proj_z_weight, "Metal W8 GDN in_proj_z") {
        return Err(e);
    }
    if let Err(e) = check_f32(&attention.in_proj_a_weight, "Metal W8 GDN in_proj_a") {
        return Err(e);
    }
    if let Err(e) = check_f32(&attention.in_proj_b_weight, "Metal W8 GDN in_proj_b") {
        return Err(e);
    }
    if !check_input_size(config) {
        return Err(Error::GdnOverflow);
    }
    if let Err(e) = check_f32(&attention.out_proj_weight, "Metal W8 GDN out_proj") {
        return Err(e);
    }
    if let Err(e) = check_f32(&attention.conv1d_weight, "Metal W8 GDN conv1d") {
        return Err(e);
    }
    if let Err(e) = check_f32(&attention.a_log, "Metal W8 GDN A_log") {
        return Err(e);
    }
    if let Err(e) = check_f32(&attention.dt_bias, "Metal W8 GDN dt_bias") {
        return Err(e);
    }
    if let Err(e) = check_f32(&attention.norm_weight, "Metal W8 GDN norm") {
        return Err(e);
    }
    Ok(())
}

/// Checks a selected layer and its recurrent part.
pub fn check_gdn(
    weights: &Qwen35TextWeights,
    config: &Qwen35TextConfig,
    layer_index: usize,
) -> (r: Result<(), Error>)
    requires
        config.widths_fit(),
    ensures
        answers(r, gdn_fault(*weights, *config, layer_index)),
{
    if layer_index >= weights.layers.len() {
        return Err(Error::GdnOutside { layer_index, layers: weights.layers.len() });
    }
    match config.layer_type(layer_index) {
        Some(Qwen35LayerType::LinearAttention) => {},
        _ => return Err(Error::GdnNotLinear { layer_index }),
    }
    match &weights.layers[layer_index].attention {
        Qwen35AttentionWeights::Linear(attention) => check_gdn_weights(
            attention,
            config,
        ),
        Qwen35AttentionWeights::Full(_) => Err(Error::GdnCheckpointNotLinear { layer_index }),
    }
}

/// The recurrent part of a layer, as the accelerator packs it.
pub fn gdn_source(
    weights: &Qwen35TextWeights,
    config: &Qwen35TextConfig,
    layer_index: usize,
) -> (r: Result<GdnF32Weights, Error>)
    requires
        config.widths_fit(),
    ensures
        answers(r, gdn_fault(*weights, *config, layer_index)),
        r matches Ok(source) ==> (weights.layers@[layer_index as int].attention matches
            Qwen35AttentionWeights::Linear(attention) && source.holds(attention)),
{
    if let Err(e) = check_gdn(weights, config, layer_index) {
        return Err(e);
    }
    match &weights.layers[layer_index].attention {
        Qwen35AttentionWeights::Linear(attention) => gdn_floats(
            attention,
            "Metal W8 GDN in_proj_qkv",
        ),
        Qwen35AttentionWeights::Full(_) => Err(Error::GdnCheckpointNotLinear { layer_index }),
    }
}

/// What stops the recurrent part of a layer from being packed.
pub open spec fn linear_layer_weights_fault(
    layer: Qwen35LayerWeights,
    attention: Qwen35LinearAttentionWeights,
    config: Qwen35TextConfig,
) -> Fault {
    let overflow = if input_overflows(config) {
        Some(Error::LinearLayerOverflow.text())
    } else {
        None
    };
    linear_layer_shape_fault(
        "in_proj_qkv",
        attention.in_proj_qkv_weight,
        seq![config.qkv_width() as usize, config.hidden_size],
    )
        .or_fault(
            linear_layer_shape_fault(
                "in_proj_z",
                attention.in_proj_z_weight,
                seq![config.value_width() as usize, config.hidden_size],
            ),
        )
        .or_fault(
            linear_layer_shape_fault(
                "in_proj_a",
                attention.in_proj_a_weight,
                seq![config.linear_num_value_heads, config.hidden_size],
            ),
        )
        .or_fault(
            linear_layer_shape_fault(
                "in_proj_b",
                attention.in_proj_b_weight,
                seq![config.linear_num_value_heads, config.hidden_size],
            ),
        )
        .or_fault(
            linear_layer_shape_fault(
                "out_proj",
                attention.out_proj_weight,
                seq![config.hidden_size, config.value_width() as usize],
            ),
        )
        .or_fault(
            linear_layer_shape_fault(
                "conv1d",
                attention.conv1d_weight,
                seq![config.qkv_width() as usize, 1usize, config.linear_conv_kernel_dim],
            ),
        )
        .or_fault(
            linear_layer_shape_fault("A_log", attention.a_log, seq![config.linear_num_value_heads]),
        )
        .or_fault(
            linear_layer_shape_fault(
                "dt_bias",
                attention.dt_bias,
                seq![config.linear_num_value_heads],
            ),
        )
        .or_fault(
            linear_layer_shape_fault(
                "GDN norm",
                attention.norm_weight,
                seq![config.linear_value_head_dim],
            ),
        )
        .or_fault(
            linear_layer_shape_fault(
                "input RMSNorm",
                layer.input_norm_weight,
                seq![config.hidden_size],
            ),
        )
        .or_fault(
            linear_layer_shape_fault(
                "post-attention RMSNorm",
                layer.post_attention_norm_weight,
                seq![config.hidden_size],
            ),
        )
        .or_fault(
            linear_layer_shape_fault(
                "MLP gate",
                layer.mlp.gate_proj_weight,
                seq![config.intermediate_size, config.hidden_size],
            ),
        )
        .or_fault(
            linear_layer_shape_fault(
                "MLP up",
                layer.mlp.up_proj_weight,
                seq![config.intermediate_size, config.hidden_size],
            ),
        )
        .or_fault(
            linear_layer_shape_fault(
                "MLP down",
                layer.mlp.down_proj_weight,
                seq![config.hidden_size, config.intermediate_size],
            ),
        )
        .or_fault(f32_fault(attention.in_proj_qkv_weight, "Metal W8 linear layer in_proj_qkv"))
        .or_fault(f32_fault(attention.in_proj_z_weight, "Metal W8 linear layer in_proj_z"))
        .or_fault(f32_fault(attention.in_proj_a_weight, "Metal W8 linear layer in_proj_a"))
        .or_fault(f32_fault(attention.in_proj_b_weight, "Metal W8 linear layer in_proj_b"))
        .or_fault(overflow)
        .or_fault(f32_fault(attention.out_proj_weight, "Metal W8 linear layer out_proj"))
        .or_fault(f32_fault(attention.conv1d_weight, "Metal W8 linear layer conv1d"))
        .or_fault(f32_fault(attention.a_log, "Metal W8 linear layer A_log"))
        .or_fault(f32_fault(attention.dt_bias, "Metal W8 linear layer dt_bias"))
        .or_fault(f32_fault(attention.norm_weight, "Metal W8 linear layer GDN norm"))
}

/// What stops a selected layer, and its recurrent part, from being packed.
pub open spec fn linear_layer_fault(
    weights: Qwen35TextWeights,
    config: Qwen35TextConfig,
    layer_index: usize,
) -> Fault {
    let layers = weights.layers@;
    if layer_index >= layers.len() {
        Some(Error::LinearLayerOutside { layer_index, layers: layers.len() as usize }.text())
    } else if config.kind(layer_index as int) != Some(Qwen35LayerType::LinearAttention) {
        Some(Error::LinearLayerNotLinear { layer_index }.text())
    } else {
        match layers[layer_index as int].attention {
            Qwen35AttentionWeights::Linear(attention) => linear_layer_weights_fault(
                layers[layer_index as int],
                attention,
                config,
            ),
            Qwen35AttentionWeights::Full(_) => Some(
                Error::LinearLayerCheckpointNotLinear { layer_index }.text(),
            ),
        }
    }
}

fn check_linear_layer_weights(
    layer: &Qwen35LayerWeights,
    attention: &Qwen35LinearAttentionWeights,
    config: &Qwen35TextConfig,
) -> (r: Result<(), Error>)
    requires
        config.widths_fit(),
    ensures
        answers(r, linear_layer_weights_fault(*layer, *attention, *config)),
{
    let expected: Vec<usize> = vec![config.linear_qkv_width(), config.hidden_size];
    proof {
        assert(expected@ =~= seq![config.qkv_width() as usize, config.hidden_size]);
    }
    if let Err(e) = check_linear_layer_shape(
        "in_proj_qkv",
        &attention.in_proj_qkv_weight,
        expected,
    ) {
        return Err(e);
    }
    let expected: Vec<usize> = vec![config.linear_value_width(), config.hidden_size];
    proof {
        assert(expected@ =~= seq![config.value_width() as usize, config.hidden_size]);
    }
    if let Err(e) = check_linear_layer_shape("in_proj_z", &attention.in_proj_z_weight, expected) {
        return Err(e);
    }
    let expected: Vec<usize> = vec![config.linear_num_value_heads, config.hidden_size];
    proof {
        assert(expected@ =~= seq![config.linear_num_value_heads, config.hidden_size]);
    }
    if let Err(e) = check_linear_layer_shape("in_proj_a", &attention.in_proj_a_weight, expected) {
        return Err(e);
    }
    let expected: Vec<usize> = vec![config.linear_num_value_heads, config.hidden_size];
    proof {
        assert(expected@ =~= seq![config.linear_num_value_heads, config.hidden_size]);
    }
    if let Err(e) = check_linear_layer_shape("in_proj_b", &attention.in_proj_b_weight, expected) {
        return Err(e);
    }
    let expected: Vec<usize> = vec![config.hidden_size, config.linear_value_width()];
    proof {
        assert(expected@ =~= seq![config.hidden_size, config.value_width() as usize]);
    }
    if let Err(e) = check_linear_layer_shape("out_proj", &attention.out_proj_weight, expected) {
        return Err(e);
    }
    let expected: Vec<usize> = vec![config.linear_qkv_width(), 1, config.linear_conv_kernel_dim];
    proof {
        assert(
            expected@ =~= seq![config.qkv_width() as usize, 1usize, config.linear_conv_kernel_dim]
        );
    }
    if let Err(e) = check_linear_layer_shape("conv1d", &attention.conv1d_weight, expected) {
        return Err(e);
    }
    let expected: Vec<usize> = vec![config.linear_num_value_heads];
    proof {
        assert(expected@ =~= seq![config.linear_num_value_heads]);
    }
    if let Err(e) = check_linear_layer_shape("A_log", &attention.a_log, expected) {
        return Err(e);
    }
    let expected: Vec<usize> = vec![config.linear_num_value_heads];
    proof {
        assert(expected@ =~= seq![config.linear_num_value_heads]);
    }
    if let Err(e) = check_linear_layer_shape("dt_bias", &attention.dt_bias, expected) {
        return Err(e);
    }
    let expected: Vec<usize> = vec![config.linear_value_head_dim];
    proof {
        assert(expected@ =~= seq![config.linear_value_head_dim]);
    }
    if let Err(e) = check_linear_layer_shape("GDN norm", &attention.norm_weight, expected) {
        return Err(e);
    }
    let expected: Vec<usize> = vec![config.hidden_size];
    proof {
        assert(expected@ =~= seq![config.hidden_size]);
    }
    if let Err(e) = check_linear_layer_shape("input RMSNorm", &layer.input_norm_weight, expected) {
        return Err(e);
    }
    let expected: Vec<usize> = vec![config.hidden_size];
    proof {
        assert(expected@ =~= seq![config.hidden_size]);
    }
    if let Err(e) = check_linear_layer_shape(
        "post-attention RMSNorm",
        &layer.post_attention_norm_weight,
        expected,
    ) {
        return Err(e);
    }
    let expected: Vec<usize> = vec![config.intermediate_size, config.hidden_size];
    proof {
        assert(expected@ =~= seq![config.intermediate_size, config.hidden_size]);
    }
    if let Err(e) = check_linear_layer_shape("MLP gate", &layer.mlp.gate_proj_weight, expected) {
        return Err(e);
    }
    let expected: Vec<usize> = vec![config.intermediate_size, config.hidden_size];
    proof {
        assert(expected@ =~= seq![config.intermediate_size, config.hidden_size]);
    }
    if let Err(e) = check_linear_layer_shape("MLP up", &layer.mlp.up_proj_weight, expected) {
        return Err(e);
    }
    let expected: Vec<usize> = vec![config.hidden_size, config.intermediate_size];
    proof {
        assert(expected@ =~= seq![config.hidden_size, config.intermediate_size]);
    }
    if let Err(e) = check_linear_layer_shape("MLP down", &layer.mlp.down_proj_weight, expected) {
        return Err(e);
    }
    if let Err(e) = check_f32(&attention.in_proj_qkv_weight, "Metal W8 linear layer in_proj_qkv") {
        return Err(e);
    }
    if let Err(e) = check_f32(&attention.in_proj_z_weight, "Metal W8 linear layer in_proj_z") {
        return Err(e);
    }
    if let Err(e) = check_f32(&attention.in_proj_a_weight, "Metal W8 linear layer in_proj_a") {
        return Err(e);
    }
    if let Err(e) = check_f32(&attention.in_proj_b_weight, "Metal W8 linear layer in_proj_b") {
        return Err(e);
    }
    if !check_input_size(config) {
        return Err(Error::LinearLayerOverflow);
    }
    if let Err(e) = check_f32(&attention.out_proj_weight, "Metal W8 linear layer out_proj") {
        return Err(e);
    }
    if let Err(e) = check_f32(&attention.conv1d_weight, "Metal W8 linear layer conv1d") {
        return Err(e);
    }
    if let Err(e) = check_f32(&attention.a_log, "Metal W8 linear layer A_log") {
        return Err(e);
    }
    if let Err(e) = check_f32(&attention.dt_bias, "Metal W8 linear layer dt_bias") {
        return Err(e);
    }
    if let Err(e) = check_f32(&attention.norm_weight, "Metal W8 linear layer GDN norm") {
        return Err(e);
    }
    Ok(())
}

/// Checks a selected layer and its recurrent part.
pub fn check_linear_layer(
    weights: &Qwen35TextWeights,
    config: &Qwen35TextConfig,
    layer_index: usize,
) -> (r: Result<(), Error>)
    requires
        config.widths_fit(),
    ensures
        answers(r, linear_layer_fault(*weights, *config, layer_index)),
{
    if layer_index >= weights.layers.len() {
        return Err(Error::LinearLayerOutside { layer_index, layers: weights.layers.len() });
    }
    match config.layer_type(layer_index) {
        Some(Qwen35LayerType::LinearAttention) => {},
        _ => return Err(Error::LinearLayerNotLinear { layer_index }),
    }
    match &weights.layers[layer_index].attention {
        Qwen35AttentionWeights::Linear(attention) => check_linear_layer_weights(
            &weights.layers[layer_index],
            attention,
            config,
        ),
        Qwen35AttentionWeights::Full(_) => Err(
            Error::LinearLayerCheckpointNotLinear { layer_index },
        ),
    }
}

/// The recurrent part of a layer, as the accelerator packs it.
pub fn linear_layer_source(
    weights: &Qwen35TextWeights,
    config: &Qwen35TextConfig,
    layer_index: usize,
) -> (r: Result<GdnF32Weights, Error>)
    requires
        config.widths_fit(),
    ensures
        answers(r, linear_layer_fault(*weights, *config, layer_index)),
        r matches Ok(source) ==> (weights.layers@[layer_index as int].attention matches
            Qwen35AttentionWeights::Linear(attention) && source.holds(attention)),
{
    if let Err(e) = check_linear_layer(weights, config, layer_index) {
        return Err(e);
    }
    match &weights.layers[layer_index].attention {
        Qwen35AttentionWeights::Linear(attention) => gdn_floats(
            attention,
            "Metal W8 linear layer in_proj_qkv",
        ),
        Qwen35AttentionWeights::Full(_) => Err(
            Error::LinearLayerCheckpointNotLinear { layer_index },
        ),
    }
}

/// What stops the feed-forward part of a linear layer from being packed.
pub open spec fn linear_layer_mlp_fault(mlp: Qwen35MlpWeights) -> Fault {
    either(
        f32_fault(mlp.gate_proj_weight, "Metal W8 linear layer MLP gate"),
        either(
            f32_fault(mlp.up_proj_weight, "Metal W8 linear layer MLP up"),
            f32_fault(mlp.down_proj_weight, "Metal W8 linear layer MLP down"),
        ),
    )
}

/// What stops the norms of a linear layer from being read.
pub open spec fn linear_layer_norm_fault(layer: Qwen35LayerWeights) -> Fault {
    either(
        f32_fault(layer.input_norm_weight, "Metal W8 linear layer input RMSNorm"),
        f32_fault(
            layer.post_attention_norm_weight,
            "Metal W8 linear layer post-attention RMSNorm",
        ),
    )
}

/// The feed-forward part of a linear layer, as the accelerator packs it.
pub fn linear_layer_mlp_source(layer: &Qwen35LayerWeights) -> (r: Result<MlpF32Weights, Error>)
    ensures
        answers(r, linear_layer_mlp_fault(layer.mlp)),
        r matches Ok(source) ==> source.holds(layer.mlp),
{
    let gate = match f32_values(&layer.mlp.gate_proj_weight, "Metal W8 linear layer MLP gate") {
        Ok(values) => values,
        Err(e) => return Err(e),
    };
    let up = match f32_values(&layer.mlp.up_proj_weight, "Metal W8 linear layer MLP up") {
        Ok(values) => values,
        Err(e) => return Err(e),
    };
    let down = match f32_values(&layer.mlp.down_proj_weight, "Metal W8 linear layer MLP down") {
        Ok(values) => values,
        Err(e) => return Err(e),
    };
    Ok(MlpF32Weights { gate, up, down })
}

/// The norms of a linear layer, still centred at zero.
pub fn linear_layer_norm_source(layer: &Qwen35LayerWeights) -> (r: Result<NormF32Weights, Error>)
    ensures
        answers(r, linear_layer_norm_fault(*layer)),
        r matches Ok(source) ==> source.input@ == layer.input_norm_weight.floats()
            && source.post_attention@ == layer.post_attention_norm_weight.floats(),
        r matches Ok(source) ==> source.holds(*layer),
{
    let input = match f32_values(
        &layer.input_norm_weight,
        "Metal W8 linear layer input RMSNorm",
    ) {
        Ok(values) => values,
        Err(e) => return Err(e),
    };
    let post_attention = match f32_values(
        &layer.post_attention_norm_weight,
        "Metal W8 linear layer post-attention RMSNorm",
    ) {
        Ok(values) => values,
        Err(e) => return Err(e),
    };
    Ok(NormF32Weights { input, post_attention })
}

fn check_linear_layer_mlp(layer: &Qwen35LayerWeights) -> (r: Result<(), Error>)
    ensures
        answers(r, linear_layer_mlp_fault(layer.mlp)),
{
    if let Err(e) = check_f32(&layer.mlp.gate_proj_weight, "Metal W8 linear layer MLP gate") {
        return Err(e);
    }
    if let Err(e) = check_f32(&layer.mlp.up_proj_weight, "Metal W8 linear layer MLP up") {
        return Err(e);
    }
    check_f32(&layer.mlp.down_proj_weight, "Metal W8 linear layer MLP down")
}

fn check_linear_layer_norms(layer: &Qwen35LayerWeights) -> (r: Result<(), Error>)
    ensures
        answers(r, linear_layer_norm_fault(*layer)),
{
    if let Err(e) = check_f32(&layer.input_norm_weight, "Metal W8 linear layer input RMSNorm") {
        return Err(e);
    }
    check_f32(
        &layer.post_attention_norm_weight,
        "Metal W8 linear layer post-attention RMSNorm",
    )
}

/// Where the accelerator failed to pack a linear layer, and why.
#[derive(Debug, PartialEq, Eq)]
pub enum LayerPackFailure {
    Gdn { cause: String },
    Mlp { cause: String },
    Assembly { cause: String },
}

/// A linear layer that the accelerator has packed.
#[derive(Clone, Copy, Debug, PartialEq, Eq, Structural)]
pub struct Qwen35PackedW8LinearLayerWeights {
    pub dimensions: GdnDimensions,
    pub gdn_output_group_size: W8GroupSize,
    pub mlp_down_group_size: W8GroupSize,
}

/// What stops a linear layer from being packed, when the accelerator reported
/// `failure`: the checks of a part come before its packing.
pub open spec fn packed_layer_fault(
    weights: Qwen35TextWeights,
    config: Qwen35TextConfig,
    layer_index: usize,
    failure: Option<LayerPackFailure>,
) -> Fault {
    let layer = weights.layers@[layer_index as int];
    let gdn = match failure {
        Some(LayerPackFailure::Gdn { cause }) => Some(
            Error::LinearLayerGdnPacking { layer_index, cause }.text(),
        ),
        _ => None,
    };
    let mlp = match failure {
        Some(LayerPackFailure::Mlp { cause }) => Some(
            Error::LinearLayerMlpPacking { layer_index, cause }.text(),
        ),
        _ => None,
    };
    let assembly = match failure {
        Some(LayerPackFailure::Assembly { cause }) => Some(
            Error::LinearLayerAssembly { layer_index, cause }.text(),
        ),
        _ => None,
    };
    linear_layer_fault(weights, config, layer_index)
        .or_fault(gdn)
        .or_fault(linear_layer_mlp_fault(layer.mlp))
        .or_fault(mlp)
        .or_fault(linear_layer_norm_fault(layer))
        .or_fault(assembly)
}

/// Decides on a linear layer that was handed to the accelerator: it is packed
/// where every check passes and the accelerator reported no failure.
pub fn pack_qwen35_w8_linear_layer(
    weights: &Qwen35TextWeights,
    config: &Qwen35TextConfig,
    layer_index: usize,
    profile: Qwen35PackedW8LinearLayerReferenceProfile,
    failure: Option<LayerPackFailure>,
) -> (r: Result<Qwen35PackedW8LinearLayerWeights, Error>)
    requires
        config.widths_fit(),
    ensures
        answers(r, packed_layer_fault(*weights, *config, layer_index, failure)),
        failure is Some ==> r is Err,
        r matches Ok(packed) ==> {
            &&& packed.dimensions == dimensions_of(*config)
            &&& packed.gdn_output_group_size == if profile.fine_output() {
                W8GroupSize::G32
            } else {
                W8GroupSize::G64
            }
            &&& packed.mlp_down_group_size == if profile.fine_down() {
                W8GroupSize::G32
            } else {
                W8GroupSize::G64
            }
        },
{
    if let Err(e) = check_linear_layer(weights, config, layer_index) {
        return Err(e);
    }
    let layer = &weights.layers[layer_index];
    match failure {
        Some(LayerPackFailure::Gdn { cause }) => {
            return Err(Error::LinearLayerGdnPacking { layer_index, cause });
        },
        Some(LayerPackFailure::Mlp { cause }) => {
            if let Err(e) = check_linear_layer_mlp(layer) {
                return Err(e);
            }
            return Err(Error::LinearLayerMlpPacking { layer_index, cause });
        },
        Some(LayerPackFailure::Assembly { cause }) => {
            if let Err(e) = check_linear_layer_mlp(layer) {
                return Err(e);
            }
            if let Err(e) = check_linear_layer_norms(layer) {
                return Err(e);
            }
            return Err(Error::LinearLayerAssembly { layer_index, cause });
        },
        None => {
            if let Err(e) = check_linear_layer_mlp(layer) {
                return Err(e);
            }
            if let Err(e) = check_linear_layer_norms(layer) {
                return Err(e);
            }
        },
    }
    Ok(
        Qwen35PackedW8LinearLayerWeights {
            dimensions: gdn_dimensions(config),
            gdn_output_group_size: profile.gdn_output_group_size(),
            mlp_down_group_size: profile.mlp_down_group_size(),
        },
    )
}

/// What stops a feed-forward block from being packed.
pub open spec fn mlp_block_fault(
    weights: Qwen35TextWeights,
    config: Qwen35TextConfig,
    layer_index: usize,
) -> Fault {
    let layers = weights.layers@;
    let hidden_size = config.hidden_size;
    let intermediate_size = config.intermediate_size;
    if layer_index >= layers.len() {
        Some(Error::MlpOutside { layer_index, layers: layers.len() as usize }.text())
    } else {
        let mlp = layers[layer_index as int].mlp;
        if mlp.gate_proj_weight.dims() != seq![intermediate_size, hidden_size]
            || mlp.up_proj_weight.dims() != seq![intermediate_size, hidden_size]
            || mlp.down_proj_weight.dims() != seq![hidden_size, intermediate_size] {
            Some(Error::MlpShape { layer_index, intermediate_size, hidden_size }.text())
        } else {
            either(
                f32_fault(mlp.gate_proj_weight, "Metal W8 MLP block gate"),
                either(
                    f32_fault(mlp.up_proj_weight, "Metal W8 MLP block up"),
                    f32_fault(mlp.down_proj_weight, "Metal W8 MLP block down"),
                ),
            )
        }
    }
}

fn check_mlp_shape(
    weights: &Qwen35TextWeights,
    config: &Qwen35TextConfig,
    layer_index: usize,
) -> (r: Result<(), Error>)
    ensures
        r is Err ==> answers(r, mlp_block_fault(*weights, *config, layer_index)),
        r is Ok ==> layer_index < weights.layers@.len() && mlp_block_fault(
            *weights,
            *config,
            layer_index,
        ) == either(
            f32_fault(
                weights.layers@[layer_index as int].mlp.gate_proj_weight,
                "Metal W8 MLP block gate",
            ),
            either(
                f32_fault(
                    weights.layers@[layer_index as int].mlp.up_proj_weight,
                    "Metal W8 MLP block up",
                ),
                f32_fault(
                    weights.layers@[layer_index as int].mlp.down_proj_weight,
                    "Metal W8 MLP block down",
                ),
            ),
        ),
{
    if layer_index >= weights.layers.len() {
        return Err(Error::MlpOutside { layer_index, layers: weights.layers.len() });
    }
    let mlp = &weights.layers[layer_index].mlp;
    let hidden_size: usize = config.hidden_size;
    let intermediate_size: usize = config.intermediate_size;
    let gate_up: [usize; 2] = [intermediate_size, hidden_size];
    let down: [usize; 2] = [hidden_size, intermediate_size];
    proof {
        assert(gate_up@ =~= seq![intermediate_size, hidden_size]);
        assert(down@ =~= seq![hidden_size, intermediate_size]);
    }
    if !mlp.gate_proj_weight.has_shape(gate_up.as_slice()) || !mlp.up_proj_weight.has_shape(
        gate_up.as_slice(),
    ) || !mlp.down_proj_weight.has_shape(down.as_slice()) {
        return Err(Error::MlpShape { layer_index, intermediate_size, hidden_size });
    }
    Ok(())
}

/// A feed-forward block, as the accelerator packs it.
pub fn mlp_block_source(
    weights: &Qwen35TextWeights,
    config: &Qwen35TextConfig,
    layer_index: usize,
) -> (r: Result<MlpF32Weights, Error>)
    ensures
        answers(r, mlp_block_fault(*weights, *config, layer_index)),
        r matches Ok(source) ==> source.holds(weights.layers@[layer_index as int].mlp),
{
    if let Err(e) = check_mlp_shape(weights, config, layer_index) {
        return Err(e);
    }
    let mlp = &weights.layers[layer_index].mlp;
    let gate = match f32_values(&mlp.gate_proj_weight, "Metal W8 MLP block gate") {
        Ok(values) => values,
        Err(e) => return Err(e),
    };
    let up = match f32_values(&mlp.up_proj_weight, "Metal W8 MLP block up") {
        Ok(values) => values,
        Err(e) => return Err(e),
    };
    let down = match f32_values(&mlp.down_proj_weight, "Metal W8 MLP block down") {
        Ok(values) => values,
        Err(e) => return Err(e),
    };
    Ok(MlpF32Weights { gate, up, down })
}

/// What stops a feed-forward block, when packing it failed with `failure`.
pub open spec fn packed_mlp_fault(
    weights: Qwen35TextWeights,
    config: Qwen35TextConfig,
    layer_index: usize,
    failure: Option<String>,
) -> Fault {
    let packing = match failure {
        Some(cause) => Some(Error::MlpPacking { layer_index, cause }.text()),
        None => None,
    };
    either(mlp_block_fault(weights, config, layer_index), packing)
}

/// Decides on a feed-forward block that was handed to the accelerator.
pub fn pack_qwen35_w8_mlp_block(
    weights: &Qwen35TextWeights,
    config: &Qwen35TextConfig,
    layer_index: usize,
    failure: Option<String>,
) -> (r: Result<(), Error>)
    ensures
        answers(r, packed_mlp_fault(*weights, *config, layer_index, failure)),
        failure is Some ==> r is Err,
{
    if let Err(e) = check_mlp_shape(weights, config, layer_index) {
        return Err(e);
    }
    let mlp = &weights.layers[layer_index].mlp;
    if let Err(e) = check_f32(&mlp.gate_proj_weight, "Metal W8 MLP block gate") {
        return Err(e);
    }
    if let Err(e) = check_f32(&mlp.up_proj_weight, "Metal W8 MLP block up") {
        return Err(e);
    }
    if let Err(e) = check_f32(&mlp.down_proj_weight, "Metal W8 MLP block down") {
        return Err(e);
    }
    match failure {
        Some(cause) => Err(Error::MlpPacking { layer_index, cause }),
        None => Ok(()),
    }
}

/// What stops both feed-forward input projections of a layer from being stacked.
pub open spec fn gate_up_fault(
    weights: Qwen35TextWeights,
    config: Qwen35TextConfig,
    layer_index: usize,
) -> Fault {
    let layers = weights.layers@;
    let hidden_size = config.hidden_size;
    let intermediate_size = config.intermediate_size;
    if layer_index >= layers.len() {
        Some(Error::BodyOutside { layer_index, layers: layers.len() as usize }.text())
    } else {
        let mlp = layers[layer_index as int].mlp;
        let overflow = if intermediate_size * hidden_size * 2 > usize::MAX {
            Some(Error::BodyOverflow.text())
        } else {
            None
        };
        if mlp.gate_proj_weight.dims() != seq![intermediate_size, hidden_size]
            || mlp.up_proj_weight.dims() != seq![intermediate_size, hidden_size] {
            Some(Error::BodyShape { layer_index, intermediate_size, hidden_size }.text())
        } else {
            either(
                f32_fault(mlp.gate_proj_weight, "Metal W8 MLP gate"),
                either(f32_fault(mlp.up_proj_weight, "Metal W8 MLP up"), overflow),
            )
        }
    }
}

/// The values of both feed-forward input projections, one behind the other.
pub open spec fn is_gate_up(stacked: Seq<u32>, mlp: Qwen35MlpWeights) -> bool {
    stacked == mlp.gate_proj_weight.floats() + mlp.up_proj_weight.floats()
}

/// Both feed-forward input projections of a layer, stacked: gate rows come
/// first.
pub fn gate_up_source(
    weights: &Qwen35TextWeights,
    config: &Qwen35TextConfig,
    layer_index: usize,
) -> (r: Result<Vec<u32>, Error>)
    ensures
        answers(r, gate_up_fault(*weights, *config, layer_index)),
        r matches Ok(stacked) ==> stacked@
            == weights.layers@[layer_index as int].mlp.gate_proj_weight.floats()
            + weights.layers@[layer_index as int].mlp.up_proj_weight.floats(),
        r matches Ok(stacked) ==> is_gate_up(stacked@, weights.layers@[layer_index as int].mlp),
{
    if let Err(e) = check_gate_up(weights, config, layer_index) {
        return Err(e);
    }
    let mlp = &weights.layers[layer_index].mlp;
    let mut gate = match f32_values(&mlp.gate_proj_weight, "Metal W8 MLP gate") {
        Ok(values) => values,
        Err(e) => return Err(e),
    };
    let mut up = match f32_values(&mlp.up_proj_weight, "Metal W8 MLP up") {
        Ok(values) => values,
        Err(e) => return Err(e),
    };
    gate.append(&mut up);
    Ok(gate)
}

/// Checks both feed-forward input projections of a layer.
pub fn check_gate_up(
    weights: &Qwen35TextWeights,
    config: &Qwen35TextConfig,
    layer_index: usize,
) -> (r: Result<(), Error>)
    ensures
        answers(r, gate_up_fault(*weights, *config, layer_index)),
{
    if layer_index >= weights.layers.len() {
        return Err(Error::BodyOutside { layer_index, layers: weights.layers.len() });
    }
    let mlp = &weights.layers[layer_index].mlp;
    let hidden_size: usize = config.hidden_size;
    let intermediate_size: usize = config.intermediate_size;
    let expected: [usize; 2] = [intermediate_size, hidden_size];
    proof {
        assert(expected@ =~= seq![intermediate_size, hidden_size]);
        assert(0 <= intermediate_size * hidden_size) by (nonlinear_arith);
    }
    if !mlp.gate_proj_weight.has_shape(expected.as_slice()) || !mlp.up_proj_weight.has_shape(
        expected.as_slice(),
    ) {
        return Err(Error::BodyShape { layer_index, intermediate_size, hidden_size });
    }
    if let Err(e) = check_f32(&mlp.gate_proj_weight, "Metal W8 MLP gate") {
        return Err(e);
    }
    if let Err(e) = check_f32(&mlp.up_proj_weight, "Metal W8 MLP up") {
        return Err(e);
    }
    match intermediate_size.checked_mul(hidden_size) {
        Some(count) => match count.checked_mul(2) {
            Some(_) => Ok(()),
            None => Err(Error::BodyOverflow),
        },
        None => Err(Error::BodyOverflow),
    }
}

} // verus!
