use apxinf_model::float_bits::{equal, finite, greater, narrow, widen_f16};
use apxinf_model::qwen35::head::{argmax_f32_row, rerank_tied_f32_candidates};
use apxinf_model::qwen35::mlp_lane::tensor_from_owned_metal_output_row;
use apxinf_model::tensor::{DType, Device, Tensor};

fn widened(dtype: DType, bits: Vec<u32>) -> Vec<u32> {
    Tensor::new(vec![bits.len()], dtype, Device::Cpu, bits)
        .unwrap()
        .to_f32_vec()
        .unwrap()
}

#[test]
fn bfloat_patterns_widen_to_the_same_number() {
    let wide = widened(DType::BF16, (0..=0xffff).collect());
    assert_eq!(f32::from_bits(wide[0x3f80]), 1.0);
    assert_eq!(f32::from_bits(wide[0xc040]), -3.0);
    assert_eq!(wide[0x0001], 0x0001_0000);
    assert!(f32::from_bits(wide[0x7f80]).is_infinite());
    assert!(f32::from_bits(wide[0x7f81]).is_nan());
    for bits in 0..=u16::MAX {
        let expected = half::bf16::from_bits(bits).to_f32();
        if expected.is_nan() {
            assert!(f32::from_bits(wide[bits as usize]).is_nan());
        } else {
            assert_eq!(wide[bits as usize], expected.to_bits());
        }
    }
}

#[test]
fn half_patterns_widen_to_the_same_number() {
    for bits in 0..=u16::MAX {
        let expected = half::f16::from_bits(bits).to_f32();
        if expected.is_nan() {
            assert!(f32::from_bits(widen_f16(bits)).is_nan());
        } else {
            assert_eq!(widen_f16(bits), expected.to_bits());
        }
    }
}

#[test]
fn doubles_narrow_as_a_cast_does() {
    let mut values = vec![
        0.0,
        -0.0,
        1.0,
        -1.5,
        1e-6,
        5_000_000.0,
        0.1,
        1e-45,
        7e-46,
        7.1e-46,
        1e-46,
        1.1754942e-38,
        1.17549435e-38,
        3.4028234e38,
        3.4028235677973366e38,
        3.5e38,
        1e300,
        f64::INFINITY,
        f64::NEG_INFINITY,
        f64::MIN_POSITIVE,
        16_777_217.0,
        16_777_219.0,
    ];
    let mut state = 0x9e37_79b9_7f4a_7c15u64;
    for _ in 0..20_000 {
        state ^= state << 13;
        state ^= state >> 7;
        state ^= state << 17;
        values.push(f64::from_bits(state));
        let near = 1023 - 160 + state % 320;
        values.push(f64::from_bits((state & 0x800f_ffff_ffff_ffff) | (near << 52)));
    }
    for value in values {
        if value.is_nan() {
            assert!(f32::from_bits(narrow(value.to_bits())).is_nan());
        } else {
            assert_eq!(narrow(value.to_bits()), (value as f32).to_bits(), "{value:e}");
        }
    }
}

#[test]
fn patterns_compare_as_their_numbers() {
    let values = [
        0.0f32,
        -0.0,
        1.0,
        -1.0,
        f32::INFINITY,
        f32::NEG_INFINITY,
        f32::NAN,
        1e-45,
    ];
    for a in values {
        assert_eq!(finite(a.to_bits()), a.is_finite());
        for b in values {
            assert_eq!(greater(a.to_bits(), b.to_bits()), a > b);
            assert_eq!(equal(a.to_bits(), b.to_bits()), a == b);
        }
    }
}

fn scored(embedding: &[f32], hidden: &[f32], candidates: [u32; 4]) -> [u32; 4] {
    candidates.map(|token| {
        let row = token as usize * hidden.len();
        (0..hidden.len())
            .map(|c| embedding[row + c] * hidden[c])
            .sum::<f32>()
            .to_bits()
    })
}

#[test]
fn f32_candidate_rerank_is_order_independent_and_uses_lowest_tie() {
    let hidden = [1.0f32, 2.0];
    let embedding = [
        0.0, 0.0, // token 0: 0
        1.0, 1.0, // token 1: 3 (tie, lower token)
        2.0, 0.5, // token 2: 3
        0.5, 0.5, // token 3: 1.5
    ];
    for candidates in [[3, 2, 0, 1], [1, 2, 3, 0], [2, 1, 0, 3]] {
        let scores = scored(&embedding, &hidden, candidates);
        assert_eq!(
            rerank_tied_f32_candidates(8, 2, 4, 2, candidates, scores).unwrap(),
            1
        );
    }
}

#[test]
fn a_rerank_needs_matching_sizes_known_tokens_and_finite_scores() {
    let zeros = [0u32; 4];
    assert!(rerank_tied_f32_candidates(7, 2, 4, 2, [0, 1, 2, 3], zeros).is_err());
    assert!(rerank_tied_f32_candidates(8, 3, 4, 2, [0, 1, 2, 3], zeros).is_err());
    assert!(rerank_tied_f32_candidates(8, 2, 4, 2, [0, 1, 2, 4], zeros).is_err());
    let nan = f32::NAN.to_bits();
    assert!(rerank_tied_f32_candidates(8, 2, 4, 2, [0, 1, 2, 3], [0, 0, nan, 0]).is_err());
}

#[test]
fn metal_owned_output_tensor_reuses_the_original_f32_allocation() {
    let output: Vec<u32> = [1.0f32, -2.0, 3.5, -4.25]
        .iter()
        .map(|value| value.to_bits())
        .collect();
    let original = output.as_ptr();

    let tensor = tensor_from_owned_metal_output_row(output.len(), output).unwrap();

    assert_eq!(tensor.shape(), &vec![1, 4]);
    let values: Vec<f32> = tensor
        .as_f32()
        .unwrap()
        .iter()
        .map(|bits| f32::from_bits(*bits))
        .collect();
    assert_eq!(values, [1.0, -2.0, 3.5, -4.25]);
    assert_eq!(tensor.as_f32().unwrap().as_ptr(), original);
    assert!(tensor_from_owned_metal_output_row(3, vec![0; 4]).is_err());
}

#[test]
fn a_rerank_agrees_with_the_argmax_of_the_whole_row() {
    let logits = [0.5f32, 2.0, -1.0, 2.0, 1.5, 0.0];
    let bits: Vec<u32> = logits.iter().map(|value| value.to_bits()).collect();
    let row = Tensor::from_f32(vec![1, 6], bits.clone()).unwrap();
    assert_eq!(argmax_f32_row(&row, 6), Ok(1));
    for candidates in [[3, 1, 0, 4], [1, 3, 4, 5], [5, 4, 3, 1]] {
        let scores = candidates.map(|token| bits[token as usize]);
        assert_eq!(
            rerank_tied_f32_candidates(12, 2, 6, 2, candidates, scores),
            Ok(1)
        );
    }
    let nothing = Tensor::from_f32(vec![1, 2], vec![f32::NAN.to_bits(); 2]).unwrap();
    assert_eq!(argmax_f32_row(&nothing, 2), Ok(0));
    assert!(argmax_f32_row(&row, 5).is_err());
}
