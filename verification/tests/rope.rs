use apxinf_model::error::Error;
use apxinf_model::qwen35::config::{Qwen35LayerType, Qwen35TextConfig};
use apxinf_model::qwen35::rope::Qwen35TextRopeTable;
use apxinf_model::tensor::Tensor;

fn config() -> Qwen35TextConfig {
    Qwen35TextConfig {
        hidden_size: 8,
        intermediate_size: 12,
        n_layers: 4,
        n_attention_heads: 2,
        n_kv_heads: 1,
        head_dim: 8,
        rotary_dim: 4,
        vocab_size: 16,
        max_position_embeddings: 64,
        rms_norm_eps_bits: 1.0e-6f32.to_bits(),
        rope_theta_bits: 10_000.0f32.to_bits(),
        rope_theta_text: "10000".to_string(),
        mrope_section: [1, 1, 0],
        mrope_interleaved: true,
        tie_word_embeddings: true,
        attn_output_gate: true,
        layer_types: vec![Qwen35LayerType::FullAttention; 4],
        linear_num_key_heads: 2,
        linear_num_value_heads: 2,
        linear_key_head_dim: 4,
        linear_value_head_dim: 4,
        linear_conv_kernel_dim: 4,
        dtype: "bfloat16".to_string(),
        recurrent_state_dtype: "float32".to_string(),
    }
}

fn shared_rope_input(sequence_length: usize, n_heads: usize, head_dim: usize) -> Tensor {
    let count = sequence_length * n_heads * head_dim;
    let values = (0..count)
        .map(|index| {
            let phase = ((index as u32).wrapping_mul(37).wrapping_add(11) % 101) as f32;
            ((phase - 50.0) * 0.03125).to_bits()
        })
        .collect();
    Tensor::from_f32(vec![sequence_length, n_heads, head_dim], values).unwrap()
}

fn trig_table(config: &Qwen35TextConfig, table: &Qwen35TextRopeTable) -> Vec<(f32, f32)> {
    let pairs = table.rotary_dim / 2;
    let theta = f32::from_bits(config.rope_theta_bits);
    let mut entries = vec![(0.0, 0.0); table.table_len];
    for pair in 0..pairs {
        let inverse = 1.0f32 / theta.powf(2.0 * pair as f32 / table.rotary_dim as f32);
        for token in 0..table.sequence_length {
            let position = (table.start_pos as u64 + token as u64) as f32;
            entries[token * pairs + pair] = (position * inverse).sin_cos();
        }
    }
    entries
}

/// Turns every pair that the layout names, where it stands.
fn apply(
    config: &Qwen35TextConfig,
    table: &Qwen35TextRopeTable,
    tensor: Tensor,
    heads: usize,
) -> Result<Tensor, Error> {
    table.check_input(&tensor, heads)?;
    let trig = trig_table(config, table);
    let shape = tensor.shape().clone();
    let mut elements = tensor.into_elements();
    for token in 0..table.sequence_length {
        for head in 0..heads {
            for pair in 0..table.rotary_dim / 2 {
                let (entry, first, second) = table.pair(elements.len(), heads, token, head, pair);
                let (sin, cos) = trig[entry];
                let x = f32::from_bits(elements[first]);
                let y = f32::from_bits(elements[second]);
                elements[first] = (x * cos - y * sin).to_bits();
                elements[second] = (x * sin + y * cos).to_bits();
            }
        }
    }
    Tensor::from_f32(shape, elements)
}

/// Rotates the first half of the rotary part of each head against the second.
fn rotated_by_rows(config: &Qwen35TextConfig, input: &Tensor, start_pos: u32) -> Vec<u32> {
    let half = config.rotary_dim / 2;
    let heads = input.shape()[1];
    let theta = f32::from_bits(config.rope_theta_bits);
    let mut rows = Vec::new();
    for (index, row) in input.elements().chunks(config.head_dim).enumerate() {
        let position = (start_pos as u64 + (index / heads) as u64) as f32;
        let values: Vec<f32> = row.iter().map(|bits| f32::from_bits(*bits)).collect();
        let angle = |pair: usize| {
            (position * (1.0f32 / theta.powf(2.0 * pair as f32 / config.rotary_dim as f32)))
                .sin_cos()
        };
        for place in 0..config.head_dim {
            let value = if place < half {
                let (sin, cos) = angle(place);
                values[place] * cos - values[place + half] * sin
            } else if place < config.rotary_dim {
                let (sin, cos) = angle(place - half);
                values[place - half] * sin + values[place] * cos
            } else {
                values[place]
            };
            rows.push(value.to_bits());
        }
    }
    rows
}

fn assert_shared_rope_matches_cpu_oracle_bitwise(sequence_length: usize, start_pos: u32) {
    let config = config();
    let table = Qwen35TextRopeTable::new(&config, sequence_length, start_pos).unwrap();
    for n_heads in [config.n_attention_heads, config.n_kv_heads] {
        let input = shared_rope_input(sequence_length, n_heads, config.head_dim);
        let expected = rotated_by_rows(&config, &input, start_pos);
        let actual = apply(&config, &table, input, n_heads).unwrap();
        assert_eq!(actual.elements(), &expected);
    }
}

#[test]
fn qwen35_shared_rope_matches_cpu_oracle_bitwise_for_decode_one() {
    assert_shared_rope_matches_cpu_oracle_bitwise(1, 73);
}

#[test]
fn qwen35_shared_rope_matches_cpu_oracle_bitwise_for_prefill_thirteen() {
    assert_shared_rope_matches_cpu_oracle_bitwise(13, 7);
}

#[test]
fn qwen35_shared_rope_preserves_unique_reshaped_tensor_allocation() {
    let config = config();
    let sequence_length = 1;
    let n_heads = config.n_attention_heads;
    let tensor = shared_rope_input(sequence_length, n_heads, config.head_dim);
    let allocation_before = tensor.as_f32().unwrap().as_ptr();

    let table = Qwen35TextRopeTable::new(&config, sequence_length, 73).unwrap();
    let tensor = apply(&config, &table, tensor, n_heads).unwrap();

    assert_eq!(tensor.as_f32().unwrap().as_ptr(), allocation_before);
}

#[test]
fn qwen35_shared_rope_rejects_an_incompatible_shape() {
    let config = config();
    let table = Qwen35TextRopeTable::new(&config, 1, 0).unwrap();
    let tensor = Tensor::from_f32(
        vec![2, config.n_attention_heads, config.head_dim],
        vec![0; 2 * config.n_attention_heads * config.head_dim],
    )
    .unwrap();

    let error = apply(&config, &table, tensor, config.n_attention_heads).unwrap_err();

    assert!(matches!(error, Error::RopeShape { .. }));
}

#[test]
fn a_rope_table_needs_tokens_an_even_width_and_a_base() {
    let table = Qwen35TextRopeTable::new(&config(), 13, 7).unwrap();
    assert_eq!(table.table_len, 26);
    assert_eq!(table.pair(13 * 2 * 8, 2, 12, 1, 1), (25, 201, 203));

    let fails = |change: fn(&mut Qwen35TextConfig), tokens: usize| {
        let mut config = config();
        change(&mut config);
        Qwen35TextRopeTable::new(&config, tokens, 0).unwrap_err()
    };
    assert!(matches!(fails(|_| {}, 0), Error::RopeEmpty));
    assert!(matches!(
        fails(|config| config.rotary_dim = 3, 1),
        Error::RopeDimension { .. }
    ));
    assert!(matches!(
        fails(|config| config.rotary_dim = 0, 1),
        Error::RopeDimension { .. }
    ));
    assert!(matches!(
        fails(|config| config.rotary_dim = 10, 1),
        Error::RopeDimension { .. }
    ));
    assert!(matches!(
        fails(|config| config.rope_theta_bits = f32::INFINITY.to_bits(), 1),
        Error::RopeTheta { .. }
    ));
    assert!(matches!(
        fails(|config| config.rope_theta_bits = (-1.0f32).to_bits(), 1),
        Error::RopeTheta { .. }
    ));
    assert!(matches!(fails(|_| {}, usize::MAX), Error::RopeOverflow));
}

#[test]
fn a_base_that_is_not_finite_and_positive_is_shown() {
    for (theta, shown) in [
        (0.0f32, "0"),
        (-0.0, "-0"),
        (-0.1, "-0.1"),
        (-10_000.0, "-10000"),
        (f32::INFINITY, "inf"),
        (f32::NEG_INFINITY, "-inf"),
        (f32::NAN, "NaN"),
    ] {
        let mut config = config();
        config.rope_theta_bits = theta.to_bits();
        config.rope_theta_text = format!("{theta}");
        let error = Qwen35TextRopeTable::new(&config, 1, 0).unwrap_err();
        assert_eq!(
            error.message(),
            format!("qwen3.5 shared text RoPE requires finite positive theta; got {shown}")
        );
    }
}
