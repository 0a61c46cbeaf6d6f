use apxinf_model::names::NameMap;
use apxinf_model::qwen3vl::config::Qwen3VLConfig;
use apxinf_model::qwen3vl::layout::{reshape_5d_to_2d, transpose_2d, Tower};
use apxinf_model::qwen3vl::vision_weights::Qwen3VLVisionWeights;
use apxinf_model::qwen3vl::weights::Qwen3VLTextWeights;
use apxinf_model::tensor::{DType, Device, Tensor};

const MIN_CONFIG: &str = r#"{
        "image_token_id": 151655,
        "video_token_id": 151656,
        "vision_start_token_id": 151652,
        "vision_end_token_id": 151653,
        "text_config": {
            "hidden_size": 2048,
            "intermediate_size": 6144,
            "num_hidden_layers": 28,
            "num_attention_heads": 16,
            "num_key_value_heads": 8,
            "head_dim": 128,
            "vocab_size": 151936,
            "max_position_embeddings": 262144,
            "rms_norm_eps": 1e-6,
            "rope_theta": 5000000,
            "tie_word_embeddings": true,
            "rope_scaling": {
                "mrope_interleaved": true,
                "mrope_section": [24, 20, 20]
            }
        }
    }"#;

#[test]
fn parses_qwen3vl_2b_config() {
    let cfg = Qwen3VLConfig::from_json_str(MIN_CONFIG).unwrap();
    assert_eq!(cfg.text.n_layers, 28);
    assert_eq!(cfg.text.head_dim, 128);
    assert_eq!(cfg.text.n_heads, 16);
    assert_eq!(cfg.text.n_kv_heads, 8);
    assert_eq!(cfg.text.mrope_section, [24, 20, 20]);
    assert!(cfg.text.mrope_interleaved);
    assert!(cfg.text.tie_word_embeddings);
    assert_eq!(f32::from_bits(cfg.text.rope_theta_bits), 5_000_000.0);
    assert_eq!(cfg.image_token_id, 151655);
}

#[test]
fn what_a_configuration_leaves_out_has_its_usual_value() {
    let cfg = Qwen3VLConfig::from_json_str(
        r#"{"text_config": {"rope_scaling": {"mrope_section": [1, "x", null]}}}"#,
    )
    .unwrap();
    assert_eq!(cfg.text.mrope_section, [1, 20, 20]);
    assert_eq!(cfg.text.hidden_size, 2048);
    assert_eq!(cfg.text.intermediate_size, 6144);
    assert_eq!(cfg.text.vocab_size, 151936);
    assert_eq!(cfg.text.max_position_embeddings, 262144);
    assert_eq!(f32::from_bits(cfg.text.rms_norm_eps_bits), 1e-6);
    assert_eq!(f32::from_bits(cfg.text.rope_theta_bits), 5_000_000.0);
    assert_eq!(cfg.vision.depth, 24);
    assert_eq!(cfg.vision.hidden_size, 1024);
    assert_eq!(cfg.vision.intermediate_size, 4096);
    assert_eq!(cfg.vision.patch_size, 16);
    assert_eq!(cfg.vision.temporal_patch_size, 2);
    assert_eq!(cfg.vision.in_channels, 3);
    assert_eq!(cfg.vision.spatial_merge_size, 2);
    assert_eq!(cfg.vision.num_position_embeddings, 2304);
    assert_eq!(cfg.vision.out_hidden_size, 2048);
    assert_eq!(cfg.vision.deepstack_visual_indexes, vec![5, 11, 17]);
    assert_eq!(cfg.vision.head_dim, 0);
    assert_eq!(cfg.vision.head_dim(), 64);
    assert_eq!(cfg.video_token_id, 151656);
    assert_eq!(cfg.vision_start_token_id, 151652);
    assert_eq!(cfg.vision_end_token_id, 151653);
}

#[test]
fn the_vision_section_is_read_where_it_is_there() {
    let cfg = Qwen3VLConfig::from_json_str(
        r#"{
            "text_config": {
                "rms_norm_eps": 0.1,
                "tie_word_embeddings": false,
                "rope_scaling": {"mrope_section": [2, 3, 4], "mrope_interleaved": false}
            },
            "vision_config": {
                "depth": 2,
                "head_dim": 7,
                "deepstack_visual_indexes": [8, "no", 24, -1]
            },
            "image_token_id": 9
        }"#,
    )
    .unwrap();
    assert_eq!(f32::from_bits(cfg.text.rms_norm_eps_bits), 0.1);
    assert!(!cfg.text.tie_word_embeddings);
    assert!(!cfg.text.mrope_interleaved);
    assert_eq!(cfg.vision.depth, 2);
    assert_eq!(cfg.vision.head_dim(), 7);
    assert_eq!(cfg.vision.deepstack_visual_indexes, vec![8, 24]);
    assert_eq!(cfg.image_token_id, 9);
}

#[test]
fn every_broken_configuration_has_its_own_message() {
    let message = |text: &str| Qwen3VLConfig::from_json_str(text).unwrap_err().message();
    assert!(message("{").starts_with("qwen3vl config json: "));
    assert!(message("{").contains("EOF while parsing an object"));
    assert_eq!(message("{}"), "qwen3vl config: missing text_config");
    assert_eq!(
        message(r#"{"text_config": [1]}"#),
        "qwen3vl config: missing text_config"
    );
    assert_eq!(
        message(r#"{"text_config": {}}"#),
        "qwen3vl config: missing rope_scaling.mrope_section"
    );
    assert_eq!(
        message(r#"{"text_config": {"rope_scaling": {"mrope_section": [1, 2]}}}"#),
        "qwen3vl config: mrope_section must be [T,H,W] (3 entries), got 2"
    );
}

fn numbered(shape: &[usize], start: u32) -> Tensor {
    let count: usize = shape.iter().product();
    let elements = (0..count as u32).map(|i| start + i).collect();
    Tensor::new(shape.to_vec(), DType::BF16, Device::Cpu, elements).unwrap()
}

#[test]
fn a_matrix_is_transposed_without_changing_its_type() {
    let once = transpose_2d(&numbered(&[2, 3], 0), Tower::Text).unwrap();
    assert_eq!(once.shape(), &vec![3, 2]);
    assert_eq!(once.dtype(), DType::BF16);
    assert_eq!(once.elements(), &vec![0, 3, 1, 4, 2, 5]);
    let twice = transpose_2d(&once, Tower::Text).unwrap();
    assert_eq!(twice.elements(), &vec![0, 1, 2, 3, 4, 5]);
}

#[test]
fn layouts_reject_other_ranks_types_and_sizes() {
    let cube = numbered(&[1, 2, 3], 0);
    let bytes = Tensor::new(vec![1, 2], DType::I8, Device::Cpu, vec![1, 2]).unwrap();
    assert_eq!(
        transpose_2d(&cube, Tower::Text).unwrap_err().message(),
        "transpose_2d expected 2D tensor, got 3D"
    );
    assert_eq!(
        transpose_2d(&cube, Tower::Vision).unwrap_err().message(),
        "transpose_2d expected 2D, got 3D"
    );
    assert_eq!(
        transpose_2d(&bytes, Tower::Text).unwrap_err().message(),
        "Qwen3-VL weight transpose does not support i8"
    );
    assert_eq!(
        transpose_2d(&bytes, Tower::Vision).unwrap_err().message(),
        "Qwen3-VL vision transpose does not support i8"
    );
    let flat = reshape_5d_to_2d(&cube, 3, 2).unwrap();
    assert_eq!(flat.shape(), &vec![3, 2]);
    assert_eq!(flat.elements(), &vec![0, 1, 2, 3, 4, 5]);
    assert_eq!(
        reshape_5d_to_2d(&cube, 2, 2).unwrap_err().message(),
        "reshape_5d_to_2d: 6 elements != 2x2"
    );
    assert_eq!(
        reshape_5d_to_2d(&bytes, 1, 2).unwrap_err().message(),
        "Qwen3-VL vision reshape does not support i8"
    );
}

const TEXT_PARTS: [(&str, bool); 11] = [
    ("input_layernorm", false),
    ("self_attn.q_proj", true),
    ("self_attn.k_proj", true),
    ("self_attn.v_proj", true),
    ("self_attn.o_proj", true),
    ("self_attn.q_norm", false),
    ("self_attn.k_norm", false),
    ("post_attention_layernorm", false),
    ("mlp.gate_proj", true),
    ("mlp.up_proj", true),
    ("mlp.down_proj", true),
];

fn text_config(layers: usize) -> Qwen3VLConfig {
    let mut config = Qwen3VLConfig::from_json_str(MIN_CONFIG).unwrap();
    config.text.n_layers = layers;
    config
}

fn text_checkpoint(layers: usize, left_out: &str) -> NameMap<Tensor> {
    let mut tensors = NameMap::new();
    let mut put = |name: String, tensor: Tensor| {
        if name != left_out {
            tensors.insert(name, tensor);
        }
    };
    for layer in 0..layers {
        for (index, (part, matrix)) in TEXT_PARTS.iter().enumerate() {
            let start = (100 * layer + 10 * index) as u32;
            let shape: &[usize] = if *matrix { &[2, 3] } else { &[3] };
            put(
                format!("model.language_model.layers.{layer}.{part}.weight"),
                numbered(shape, start),
            );
        }
    }
    put(
        "model.language_model.embed_tokens.weight".to_string(),
        numbered(&[4, 2], 1000),
    );
    put(
        "model.language_model.norm.weight".to_string(),
        numbered(&[2], 2000),
    );
    tensors
}

#[test]
fn the_text_stack_is_loaded_with_transposed_projections() {
    let weights =
        Qwen3VLTextWeights::from_map(&text_config(2), &text_checkpoint(2, "")).unwrap();
    assert_eq!(weights.layers.len(), 2);
    let layer = &weights.layers[1];
    assert_eq!(layer.attn_norm_weight.elements(), &vec![100, 101, 102]);
    assert_eq!(layer.wq.shape(), &vec![3, 2]);
    assert_eq!(layer.wq.elements(), &vec![110, 113, 111, 114, 112, 115]);
    assert_eq!(layer.wk.elements()[0], 120);
    assert_eq!(layer.wv.elements()[0], 130);
    assert_eq!(layer.wo.elements()[0], 140);
    assert_eq!(layer.q_norm_weight.elements(), &vec![150, 151, 152]);
    assert_eq!(layer.k_norm_weight.elements(), &vec![160, 161, 162]);
    assert_eq!(layer.ffn_norm_weight.elements(), &vec![170, 171, 172]);
    assert_eq!(layer.w_gate.elements()[1], 183);
    assert_eq!(layer.w_up.elements()[1], 193);
    assert_eq!(layer.w_down.elements()[1], 203);
    assert!(layer.qkv_packed.is_none());
    assert!(layer.gate_up_packed.is_none());
    assert_eq!(weights.token_embedding.elements()[0], 1000);
    assert_eq!(weights.output_norm_weight.elements(), &vec![2000, 2001]);
}

#[test]
fn a_missing_text_weight_is_named() {
    for name in [
        "model.language_model.layers.1.mlp.up_proj.weight",
        "model.language_model.layers.0.self_attn.k_norm.weight",
        "model.language_model.embed_tokens.weight",
        "model.language_model.norm.weight",
    ] {
        let error =
            Qwen3VLTextWeights::from_map(&text_config(2), &text_checkpoint(2, name)).unwrap_err();
        assert_eq!(error.message(), format!("missing {name}"));
    }
}

const BLOCK_PARTS: [(&str, bool); 12] = [
    ("norm1.weight", false),
    ("norm1.bias", false),
    ("attn.qkv.weight", true),
    ("attn.qkv.bias", false),
    ("attn.proj.weight", true),
    ("attn.proj.bias", false),
    ("norm2.weight", false),
    ("norm2.bias", false),
    ("mlp.linear_fc1.weight", true),
    ("mlp.linear_fc1.bias", false),
    ("mlp.linear_fc2.weight", true),
    ("mlp.linear_fc2.bias", false),
];

const MERGER_PARTS: [(&str, bool); 6] = [
    ("norm.weight", false),
    ("norm.bias", false),
    ("linear_fc1.weight", true),
    ("linear_fc1.bias", false),
    ("linear_fc2.weight", true),
    ("linear_fc2.bias", false),
];

fn vision_checkpoint(depth: usize, left_out: &str) -> NameMap<Tensor> {
    let mut tensors = NameMap::new();
    let mut put = |name: String, tensor: Tensor| {
        if name != left_out {
            tensors.insert(name, tensor);
        }
    };
    let shape = |matrix: bool| -> &'static [usize] {
        if matrix {
            &[2, 3]
        } else {
            &[3]
        }
    };
    for block in 0..depth {
        for (index, (part, matrix)) in BLOCK_PARTS.iter().enumerate() {
            put(
                format!("model.visual.blocks.{block}.{part}"),
                numbered(shape(*matrix), (200 * block + 10 * index) as u32),
            );
        }
    }
    put(
        "model.visual.patch_embed.proj.weight".to_string(),
        numbered(&[1024, 3, 2, 16, 16], 0),
    );
    put(
        "model.visual.patch_embed.proj.bias".to_string(),
        numbered(&[2], 3000),
    );
    put(
        "model.visual.pos_embed.weight".to_string(),
        numbered(&[2, 2], 4000),
    );
    for (merger, prefix) in [
        "model.visual.merger",
        "model.visual.deepstack_merger_list.0",
        "model.visual.deepstack_merger_list.1",
        "model.visual.deepstack_merger_list.2",
    ]
    .iter()
    .enumerate()
    {
        for (index, (part, matrix)) in MERGER_PARTS.iter().enumerate() {
            put(
                format!("{prefix}.{part}"),
                numbered(shape(*matrix), (5000 + 100 * merger + 10 * index) as u32),
            );
        }
    }
    tensors
}

fn vision_config(depth: usize) -> Qwen3VLConfig {
    let mut config = Qwen3VLConfig::from_json_str(MIN_CONFIG).unwrap();
    config.vision.depth = depth;
    config
}

#[test]
fn the_vision_tower_is_loaded_with_its_mergers() {
    let weights =
        Qwen3VLVisionWeights::from_map(&vision_config(2), &vision_checkpoint(2, "")).unwrap();
    assert_eq!(weights.blocks.len(), 2);
    assert_eq!(weights.deepstack_mergers.len(), 3);
    let block = &weights.blocks[1];
    assert_eq!(block.norm1_w.elements(), &vec![200, 201, 202]);
    assert_eq!(block.norm1_b.elements(), &vec![210, 211, 212]);
    assert_eq!(block.qkv_w.elements(), &vec![220, 223, 221, 224, 222, 225]);
    assert_eq!(block.qkv_b.elements(), &vec![230, 231, 232]);
    assert_eq!(block.proj_w.elements()[1], 243);
    assert_eq!(block.proj_b.elements()[0], 250);
    assert_eq!(block.norm2_w.elements()[0], 260);
    assert_eq!(block.norm2_b.elements()[0], 270);
    assert_eq!(block.fc1_w.elements()[1], 283);
    assert_eq!(block.fc1_b.elements()[0], 290);
    assert_eq!(block.fc2_w.elements()[1], 303);
    assert_eq!(block.fc2_b.elements()[0], 310);
    assert_eq!(weights.merger.norm_w.elements()[0], 5000);
    assert_eq!(weights.merger.fc2_w.elements()[1], 5043);
    assert_eq!(weights.deepstack_mergers[2].norm_b.elements()[0], 5310);
    assert_eq!(weights.deepstack_mergers[0].fc1_w.elements()[1], 5123);
    assert_eq!(weights.patch_embed_weight.shape(), &vec![1536, 1024]);
    assert_eq!(weights.patch_embed_weight.elements()[1], 1536);
    assert_eq!(weights.patch_embed_weight.elements()[1024], 1);
    assert_eq!(weights.patch_embed_bias.elements(), &vec![3000, 3001]);
    assert_eq!(weights.pos_embed.shape(), &vec![2, 2]);
}

#[test]
fn a_missing_vision_weight_is_named() {
    for (name, named) in [
        (
            "model.visual.blocks.1.attn.qkv.bias",
            "model.visual.blocks.1.attn.qkv.bias",
        ),
        (
            "model.visual.patch_embed.proj.weight",
            "patch_embed.proj.weight",
        ),
        ("model.visual.patch_embed.proj.bias", "patch_embed.proj.bias"),
        ("model.visual.pos_embed.weight", "pos_embed.weight"),
        (
            "model.visual.merger.norm.weight",
            "model.visual.merger.norm.weight",
        ),
        (
            "model.visual.deepstack_merger_list.2.linear_fc2.bias",
            "model.visual.deepstack_merger_list.2.linear_fc2.bias",
        ),
    ] {
        let error = Qwen3VLVisionWeights::from_map(&vision_config(2), &vision_checkpoint(2, name))
            .unwrap_err();
        assert_eq!(error.message(), format!("missing {named}"));
    }
}
