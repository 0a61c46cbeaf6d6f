//! What the vision tower is configured with, takes and gives.

use vstd::prelude::*;

use crate::qwen35::config::Qwen35Config;
use crate::qwen35::vision::{is_tower_config, Qwen35VisionEncoder, VisionOutput};
use crate::qwen3vl::config::Qwen3VLConfig;
use crate::tensor::{DType, Device, Tensor};

verus! {

/// The tower has the sizes and the special tokens of the model, each under its
/// own name, and heads that share its width.
pub proof fn a_tower_has_the_sizes_of_the_model(tower: Qwen3VLConfig, config: Qwen35Config)
    requires
        is_tower_config(tower, config),
        config.vision.num_heads > 0,
        config.vision.hidden_size as int % config.vision.num_heads as int == 0,
    ensures
        tower.text.hidden_size == config.text.hidden_size,
        tower.text.intermediate_size == config.text.intermediate_size,
        tower.text.n_layers == config.text.n_layers,
        tower.text.n_heads == config.text.n_attention_heads,
        tower.text.n_kv_heads == config.text.n_kv_heads,
        tower.text.head_dim == config.text.head_dim,
        tower.text.vocab_size == config.text.vocab_size,
        tower.text.rms_norm_eps_bits == config.text.rms_norm_eps_bits,
        tower.text.rope_theta_bits == config.text.rope_theta_bits,
        tower.text.mrope_section == config.text.mrope_section,
        tower.text.mrope_interleaved == config.text.mrope_interleaved,
        !tower.text.tie_word_embeddings,
        tower.vision.depth == config.vision.depth,
        tower.vision.hidden_size == config.vision.hidden_size,
        tower.vision.intermediate_size == config.vision.intermediate_size,
        tower.vision.num_heads == config.vision.num_heads,
        tower.vision.num_heads * tower.vision.head_dim == tower.vision.hidden_size,
        tower.vision.patch_size == config.vision.patch_size,
        tower.vision.temporal_patch_size == config.vision.temporal_patch_size,
        tower.vision.in_channels == config.vision.in_channels,
        tower.vision.spatial_merge_size == config.vision.spatial_merge_size,
        tower.vision.num_position_embeddings == config.vision.num_position_embeddings,
        tower.vision.out_hidden_size == config.vision.out_hidden_size,
        tower.vision.deepstack_visual_indexes@ == config.vision.deepstack_visual_indexes@,
        tower.image_token_id == config.image_token_id,
        tower.video_token_id == config.video_token_id,
        tower.vision_start_token_id == config.vision_start_token_id,
        tower.vision_end_token_id == config.vision_end_token_id,
{
    vstd::arithmetic::div_mod::lemma_fundamental_div_mod(
        config.vision.hidden_size as int,
        config.vision.num_heads as int,
    );
}

/// Pixels are taken as one row for each patch of the grid, with the values of all
/// channels and frames of the patch, as brain floats on the CPU.
pub proof fn pixels_come_patch_by_patch(
    encoder: Qwen35VisionEncoder,
    pixels: Tensor,
    grid: [u32; 3],
    rows: int,
    values: int,
)
    requires
        rows == grid@[0] * grid@[1] * grid@[2],
        values == encoder.config.vision.in_channels * encoder.config.vision.temporal_patch_size
            * encoder.config.vision.patch_size * encoder.config.vision.patch_size,
        grid@[0] * grid@[1] <= usize::MAX,
        rows <= usize::MAX,
        encoder.config.vision.in_channels * encoder.config.vision.temporal_patch_size
            <= usize::MAX,
        encoder.config.vision.in_channels * encoder.config.vision.temporal_patch_size
            * encoder.config.vision.patch_size <= usize::MAX,
        values <= usize::MAX,
    ensures
        encoder.pixels_fault(pixels, grid) is None <==> {
            &&& pixels.dims() == seq![rows as usize, values as usize]
            &&& pixels.element_type() == DType::BF16
            &&& pixels.place() == Device::Cpu
        },
{
}

/// The tower owes one row for every merged square of patches, and nothing beside
/// them.
pub proof fn a_tower_gives_a_row_for_each_merged_square(
    encoder: Qwen35VisionEncoder,
    grid: [u32; 3],
    output: VisionOutput,
    merged: (int, int),
)
    requires
        encoder.config.vision.spatial_merge_size > 0,
        grid@[1] == merged.0 * encoder.config.vision.spatial_merge_size,
        grid@[2] == merged.1 * encoder.config.vision.spatial_merge_size,
    ensures
        encoder.output_fault(grid, Ok(output)) is None <==> {
            &&& output.deepstack == 0
            &&& output.primary.element_type() == DType::BF16
            &&& output.primary.dims() == seq![
                (grid@[0] * merged.0 * merged.1) as usize,
                encoder.config.vision.out_hidden_size,
            ]
        },
{
    let merge = encoder.config.vision.spatial_merge_size as int;
    let square = merge * merge;
    let rows = grid@[0] * merged.0 * merged.1;
    assert(square > 0) by (nonlinear_arith)
        requires
            square == merge * merge,
            merge > 0,
    ;
    let frames = grid@[0] as int;
    let height = grid@[1] as int;
    let width = grid@[2] as int;
    assert(frames * height * width == rows * square) by (nonlinear_arith)
        requires
            height == merged.0 * merge,
            width == merged.1 * merge,
            square == merge * merge,
            rows == frames * merged.0 * merged.1,
    ;
    vstd::arithmetic::div_mod::lemma_fundamental_div_mod_converse(
        frames * height * width,
        square,
        rows,
        0,
    );
}

/// A model with deepstack outputs has no encoder of this kind.
pub proof fn a_model_with_deepstack_has_no_encoder(config: Qwen35Config)
    ensures
        Qwen35VisionEncoder::config_fault(config) is None
            <==> config.vision.deepstack_visual_indexes@.len() == 0,
{
}

} // verus!
