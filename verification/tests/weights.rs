use apxinf_model::names::NameMap;
use apxinf_model::qwen35::config::{
    Qwen35Config, Qwen35LayerType, Qwen35TextConfig, Qwen35VisionConfig,
};
use apxinf_model::qwen35::loader::{Qwen35AttentionWeights, Qwen35TextWeights};
use apxinf_model::qwen35::packing::transpose_interleaved_q_gate;
use apxinf_model::qwen35::weights::{
    Qwen35WeightMetadata, Qwen35WeightSchema, Qwen35WeightSpec,
};
use apxinf_model::tensor::{DType, Device, Tensor};

fn config() -> Qwen35Config {
    Qwen35Config {
        text: Qwen35TextConfig {
            hidden_size: 8,
            intermediate_size: 12,
            n_layers: 4,
            n_attention_heads: 2,
            n_kv_heads: 1,
            head_dim: 8,
            rotary_dim: 4,
            vocab_size: 16,
            max_position_embeddings: 64,
            rms_norm_eps_bits: 1.0e-6f32.to_bits(),
            rope_theta_bits: 10_000.0f32.to_bits(),
            rope_theta_text: "10000".to_string(),
            mrope_section: [1, 1, 0],
            mrope_interleaved: true,
            tie_word_embeddings: true,
            attn_output_gate: true,
            layer_types: vec![
                Qwen35LayerType::LinearAttention,
                Qwen35LayerType::LinearAttention,
                Qwen35LayerType::LinearAttention,
                Qwen35LayerType::FullAttention,
            ],
            linear_num_key_heads: 2,
            linear_num_value_heads: 2,
            linear_key_head_dim: 4,
            linear_value_head_dim: 4,
            linear_conv_kernel_dim: 4,
            dtype: "bfloat16".to_string(),
            recurrent_state_dtype: "float32".to_string(),
        },
        vision: Qwen35VisionConfig {
            depth: 1,
            hidden_size: 8,
            intermediate_size: 8,
            num_heads: 2,
            patch_size: 2,
            temporal_patch_size: 2,
            in_channels: 3,
            spatial_merge_size: 2,
            num_position_embeddings: 4,
            out_hidden_size: 8,
            deepstack_visual_indexes: Vec::new(),
        },
        image_token_id: 12,
        video_token_id: 13,
        vision_start_token_id: 14,
        vision_end_token_id: 15,
    }
}

fn fixture() -> (Qwen35Config, Qwen35WeightSchema) {
    let config = config();
    let schema = Qwen35WeightSchema::new(&config).unwrap();
    (config, schema)
}

fn synthetic_metadata(schema: &Qwen35WeightSchema) -> NameMap<Qwen35WeightMetadata> {
    let mut metadata = NameMap::new();
    for spec in schema.specs() {
        metadata.insert(
            spec.name.clone(),
            Qwen35WeightMetadata::new(spec.shape.clone(), spec.checkpoint_dtype),
        );
    }
    metadata
}

fn spec<'a>(schema: &'a Qwen35WeightSchema, name: &str) -> &'a Qwen35WeightSpec {
    schema
        .specs()
        .iter()
        .find(|spec| spec.name == name)
        .unwrap()
}

#[test]
fn schema_matches_linear_and_gated_full_attention_shapes() {
    let (_, schema) = fixture();
    assert_eq!(
        spec(
            &schema,
            "model.language_model.layers.0.linear_attn.in_proj_qkv.weight"
        )
        .shape,
        vec![24, 8]
    );
    assert_eq!(
        spec(
            &schema,
            "model.language_model.layers.0.linear_attn.conv1d.weight"
        )
        .shape,
        vec![24, 1, 4]
    );
    assert_eq!(
        spec(
            &schema,
            "model.language_model.layers.0.linear_attn.norm.weight"
        )
        .checkpoint_dtype,
        DType::F32
    );
    assert_eq!(
        spec(
            &schema,
            "model.language_model.layers.3.self_attn.q_proj.weight"
        )
        .shape,
        vec![32, 8]
    );
    assert_eq!(
        spec(
            &schema,
            "model.language_model.layers.3.self_attn.o_proj.weight"
        )
        .shape,
        vec![8, 16]
    );
}

#[test]
fn validates_synthetic_metadata_and_reports_explicitly_ignored_towers() {
    let (_, schema) = fixture();
    let mut metadata = synthetic_metadata(&schema);
    metadata.insert(
        "model.visual.patch_embed.proj.weight".to_string(),
        Qwen35WeightMetadata::new(vec![8, 3, 2, 2, 2], DType::BF16),
    );
    metadata.insert(
        "mtp.layers.0.self_attn.q_proj.weight".to_string(),
        Qwen35WeightMetadata::new(vec![32, 8], DType::BF16),
    );
    let report = schema.validate_checkpoint_metadata(&metadata).unwrap();
    assert_eq!(report.text_tensors, schema.specs().len());
    assert_eq!(report.ignored_vision_tensors, 1);
    assert_eq!(report.ignored_mtp_tensors, 1);
}

#[test]
fn shape_error_names_the_exact_checkpoint_tensor() {
    let (_, schema) = fixture();
    let mut metadata = synthetic_metadata(&schema);
    let name = "model.language_model.layers.0.linear_attn.conv1d.weight";
    let dtype = metadata.get(name).unwrap().dtype;
    metadata.insert(
        name.to_string(),
        Qwen35WeightMetadata::new(vec![24, 4], dtype),
    );
    let error = schema.validate_metadata(&metadata).unwrap_err();
    assert!(error.message().contains(name));
    assert!(error.message().contains("[24, 1, 4]"));
    assert!(error.message().contains("[24, 4]"));
}

#[test]
fn missing_and_unexpected_text_weights_fail_closed() {
    let (_, schema) = fixture();
    let mut metadata = synthetic_metadata(&schema);
    metadata.remove("model.language_model.layers.0.linear_attn.A_log");
    let error = schema.validate_metadata(&metadata).unwrap_err();
    assert!(error.message().contains("linear_attn.A_log"));

    let mut metadata = synthetic_metadata(&schema);
    metadata.insert(
        "model.language_model.layers.0.linear_attn.new_projection.weight".to_string(),
        Qwen35WeightMetadata::new(vec![1], DType::BF16),
    );
    let error = schema.validate_metadata(&metadata).unwrap_err();
    assert!(error.message().contains("unexpected tensor"));
    assert!(error.message().contains("new_projection.weight"));
}

#[test]
fn runtime_validation_allows_cpu_upcast_but_checkpoint_audit_is_exact() {
    let (_, schema) = fixture();
    let mut metadata = NameMap::new();
    for spec in schema.specs() {
        metadata.insert(
            spec.name.clone(),
            Qwen35WeightMetadata::new(spec.shape.clone(), DType::F32),
        );
    }
    schema.validate_metadata(&metadata).unwrap();
    let error = schema.validate_checkpoint_metadata(&metadata).unwrap_err();
    assert!(error.message().contains("expected checkpoint dtype bf16"));
}

#[test]
fn loader_consumes_a_small_synthetic_text_checkpoint() {
    let (config, schema) = fixture();
    let mut tensors = NameMap::new();
    for spec in schema.specs() {
        let count = spec.shape.iter().product();
        tensors.insert(
            spec.name.clone(),
            Tensor::new(
                spec.shape.clone(),
                spec.checkpoint_dtype,
                Device::Cpu,
                vec![0; count],
            )
            .unwrap(),
        );
    }
    let weights = Qwen35TextWeights::from_map(&config, tensors).unwrap();
    assert_eq!(weights.layers.len(), 4);
    assert!(matches!(
        &weights.layers[0].attention,
        Qwen35AttentionWeights::Linear(_)
    ));
    assert!(matches!(
        &weights.layers[3].attention,
        Qwen35AttentionWeights::Full(_)
    ));
    assert!(weights.lm_head_weight.is_none());
}

#[test]
fn unknown_configured_types_are_refused() {
    let mut config = config();
    config.text.dtype = "float8".to_string();
    let error = Qwen35WeightSchema::new(&config).unwrap_err();
    assert_eq!(
        error.message(),
        "qwen3.5 checkpoint: unsupported configured dtype `float8`"
    );
}

#[test]
fn an_integer_tensor_is_no_text_weight() {
    let (_, schema) = fixture();
    let mut metadata = synthetic_metadata(&schema);
    metadata.insert(
        "model.language_model.norm.weight".to_string(),
        Qwen35WeightMetadata::new(vec![8], DType::I8),
    );
    let error = schema.validate_metadata(&metadata).unwrap_err();
    assert_eq!(
        error.message(),
        "qwen3.5 checkpoint model.language_model.norm.weight: unsupported dtype i8"
    );
}

#[test]
fn q_projection_is_deinterleaved_per_head() {
    let values = [0.0f32, 1.0, 2.0, 3.0, 4.0, 5.0, 6.0, 7.0];
    let raw = Tensor::from_f32(
        vec![8, 1],
        values.iter().map(|value| value.to_bits()).collect(),
    )
    .unwrap();
    let (query, gate) = transpose_interleaved_q_gate(&raw, 2, 2, 1).unwrap();
    let floats = |tensor: &Tensor| {
        tensor
            .as_f32()
            .unwrap()
            .iter()
            .map(|bits| f32::from_bits(*bits))
            .collect::<Vec<_>>()
    };
    assert_eq!(floats(&query), [0.0, 1.0, 4.0, 5.0]);
    assert_eq!(floats(&gate), [2.0, 3.0, 6.0, 7.0]);
}

#[test]
fn widths_that_do_not_fit_are_noticed() {
    assert!(config().text.fits());
    let fits = |change: fn(&mut Qwen35TextConfig)| {
        let mut config = config();
        change(&mut config.text);
        config.text.fits()
    };
    assert!(!fits(|text| text.linear_num_key_heads = usize::MAX));
    assert!(!fits(|text| text.linear_num_value_heads = usize::MAX));
    assert!(!fits(|text| text.n_attention_heads = usize::MAX / 8));
    assert!(fits(|text| {
        text.n_attention_heads = usize::MAX / 8;
        text.attn_output_gate = false;
    }));
    assert!(!fits(|text| text.n_kv_heads = usize::MAX / 7));
}
