use apxinf_model::error::Error;
use apxinf_model::names::NameMap;
use apxinf_model::qwen35::config::{Qwen35Config, Qwen35TextConfig, Qwen35VisionConfig};
use apxinf_model::qwen35::vision::{qwen3vl_config, Qwen35VisionEncoder, VisionOutput};
use apxinf_model::qwen3vl::vision_weights::{Qwen3VLMerger, Qwen3VLVisionWeights};
use apxinf_model::tensor::{DType, Device, Tensor};

fn config() -> Qwen35Config {
    Qwen35Config {
        text: Qwen35TextConfig {
            hidden_size: 8,
            intermediate_size: 12,
            n_layers: 0,
            n_attention_heads: 2,
            n_kv_heads: 1,
            head_dim: 8,
            rotary_dim: 4,
            vocab_size: 16,
            max_position_embeddings: 64,
            rms_norm_eps_bits: 1.0e-6f32.to_bits(),
            rope_theta_bits: 10_000.0f32.to_bits(),
            rope_theta_text: "10000".to_string(),
            mrope_section: [1, 1, 0],
            mrope_interleaved: true,
            tie_word_embeddings: true,
            attn_output_gate: true,
            layer_types: Vec::new(),
            linear_num_key_heads: 2,
            linear_num_value_heads: 2,
            linear_key_head_dim: 4,
            linear_value_head_dim: 4,
            linear_conv_kernel_dim: 4,
            dtype: "bfloat16".to_string(),
            recurrent_state_dtype: "float32".to_string(),
        },
        vision: Qwen35VisionConfig {
            depth: 0,
            hidden_size: 8,
            intermediate_size: 8,
            num_heads: 2,
            patch_size: 2,
            temporal_patch_size: 2,
            in_channels: 3,
            spatial_merge_size: 2,
            num_position_embeddings: 4,
            out_hidden_size: 8,
            deepstack_visual_indexes: Vec::new(),
        },
        image_token_id: 12,
        video_token_id: 13,
        vision_start_token_id: 14,
        vision_end_token_id: 15,
    }
}

fn filled(shape: &[usize]) -> Tensor {
    let count: usize = shape.iter().product();
    Tensor::new(shape.to_vec(), DType::BF16, Device::Cpu, vec![1; count]).unwrap()
}

fn merger() -> Qwen3VLMerger {
    Qwen3VLMerger {
        norm_w: filled(&[2]),
        norm_b: filled(&[2]),
        fc1_w: filled(&[2, 2]),
        fc1_b: filled(&[2]),
        fc2_w: filled(&[2, 2]),
        fc2_b: filled(&[2]),
    }
}

fn encoder(merge: usize) -> Qwen35VisionEncoder {
    let mut config = config();
    config.vision.spatial_merge_size = merge;
    Qwen35VisionEncoder {
        config: qwen3vl_config(&config),
        weights: Qwen3VLVisionWeights {
            patch_embed_weight: filled(&[2, 2]),
            patch_embed_bias: filled(&[2]),
            pos_embed: filled(&[2, 2]),
            blocks: Vec::new(),
            merger: merger(),
            deepstack_mergers: Vec::new(),
        },
    }
}

fn tower(rows: usize, deepstack: usize) -> Result<VisionOutput, String> {
    Ok(VisionOutput {
        primary: filled(&[rows, 8]),
        deepstack,
    })
}

#[test]
fn an_encoder_with_deepstack_outputs_is_refused_before_anything_else() {
    let mut config = config();
    config.vision.deepstack_visual_indexes = vec![3];
    config.vision.num_heads = 0;
    assert_eq!(
        Qwen35VisionEncoder::load(&config, Err("no such file".to_string())).unwrap_err(),
        Error::VisionDeepstack
    );
    assert_eq!(
        Qwen35VisionEncoder::check_config(&config),
        Err(Error::VisionDeepstack)
    );
}

#[test]
fn a_checkpoint_that_cannot_be_read_is_reported() {
    assert_eq!(
        Qwen35VisionEncoder::load(&config(), Err("no such file".to_string()))
            .unwrap_err()
            .message(),
        "load Qwen3.5 vision tensors: no such file"
    );
    assert_eq!(
        Qwen35VisionEncoder::load(&config(), Ok(NameMap::new()))
            .unwrap_err()
            .message(),
        "missing patch_embed.proj.weight"
    );
}

#[test]
fn the_tower_has_the_sizes_of_the_model() {
    let tower = qwen3vl_config(&config());
    assert_eq!(tower.vision.head_dim, 4);
    assert_eq!(tower.text.n_heads, 2);
    assert!(!tower.text.tie_word_embeddings);
    assert_eq!(tower.image_token_id, 12);
}

#[test]
fn pixels_become_one_row_for_each_merged_square() {
    // Patches of 3 * 2 * 2 * 2 values on a grid of 1 * 4 * 6.
    let pixels = filled(&[24, 24]);
    let rows = encoder(2)
        .encode_cpu(&pixels, [1, 4, 6], tower(6, 0))
        .unwrap();
    assert_eq!(rows.shape(), &vec![6, 8]);
    assert_eq!(
        encoder(2)
            .encode_cpu(&pixels, [1, 4, 6], tower(5, 0))
            .unwrap_err()
            .message(),
        "Qwen3.5 vision primary must be BF16 [6,8], got bf16 [5, 8]"
    );
}

#[test]
fn the_merge_size_is_not_looked_at_before_there_are_rows() {
    let encoder = encoder(0);
    let pixels = filled(&[24, 24]);
    assert!(matches!(
        encoder.encode_cpu(&filled(&[24, 23]), [1, 4, 6], tower(6, 0)),
        Err(Error::VisionPixels { .. })
    ));
    assert_eq!(
        encoder
            .encode_cpu(&pixels, [1, 4, 6], Err("no device".to_string()))
            .unwrap_err()
            .message(),
        "no device"
    );
    assert_eq!(
        encoder
            .encode_cpu(&pixels, [1, 4, 6], tower(6, 1))
            .unwrap_err(),
        Error::VisionUnexpectedDeepstack
    );
}

#[test]
fn a_grid_or_a_patch_that_is_too_large_is_refused() {
    let side = u32::MAX;
    assert_eq!(
        encoder(2).check_pixels(&filled(&[1, 24]), [side, side, side]),
        Err(Error::VisionPatchCount)
    );
    let mut wide = encoder(2);
    wide.config.vision.patch_size = usize::MAX;
    assert_eq!(
        wide.check_pixels(&filled(&[1, 24]), [side, side, side]),
        Err(Error::VisionPatchWidth)
    );
    assert_eq!(
        encoder(2).check_pixels(&filled(&[24, 24]), [1, 4, 6]),
        Ok(24)
    );
}
