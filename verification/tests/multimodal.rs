use apxinf_model::qwen35::multimodal::compute_mrope_positions;

fn groups(parts: &[(u8, usize)]) -> Vec<u8> {
    let mut types = Vec::new();
    for (modality, count) in parts {
        for _ in 0..*count {
            types.push(*modality);
        }
    }
    types
}

#[test]
fn matches_transformers_single_28x28_image_contract() {
    let modality_types = groups(&[(0, 46), (1, 196), (0, 28)]);
    let result = compute_mrope_positions(&modality_types, &[[1, 28, 28]], 2).unwrap();
    assert_eq!(result.positions.len(), 270);
    assert_eq!(result.positions[45], [45, 45, 45]);
    assert_eq!(result.positions[46], [46, 46, 46]);
    assert_eq!(result.positions[241], [46, 59, 59]);
    assert_eq!(result.positions[242], [60, 60, 60]);
    assert_eq!(result.positions[269], [87, 87, 87]);
    assert_eq!(result.decode_delta, -182);
}

#[test]
fn rejects_image_token_count_drift() {
    let modality_types = groups(&[(0, 4), (1, 195)]);
    let error = compute_mrope_positions(&modality_types, &[[1, 28, 28]], 2).unwrap_err();
    assert!(error.message().contains("expected 196"));
}

#[test]
fn text_positions_count_up_and_need_no_shift() {
    let result = compute_mrope_positions(&[0, 0, 0], &[], 2).unwrap();
    assert_eq!(result.positions, vec![[0, 0, 0], [1, 1, 1], [2, 2, 2]]);
    assert_eq!(result.decode_delta, 0);
}

#[test]
fn image_positions_walk_time_then_height_then_width() {
    let result = compute_mrope_positions(&groups(&[(0, 1), (1, 8), (0, 1)]), &[[2, 4, 4]], 2)
        .unwrap();
    assert_eq!(
        result.positions,
        vec![
            [0, 0, 0],
            [1, 1, 1],
            [1, 1, 2],
            [1, 2, 1],
            [1, 2, 2],
            [2, 1, 1],
            [2, 1, 2],
            [2, 2, 1],
            [2, 2, 2],
            [3, 3, 3],
        ]
    );
    assert_eq!(result.decode_delta, 4 - 10);
}

#[test]
fn every_misuse_of_grids_has_its_own_message() {
    let message = |types: &[u8], grids: &[[u32; 3]], merge: u32| {
        compute_mrope_positions(types, grids, merge)
            .unwrap_err()
            .message()
    };
    assert_eq!(
        message(&[], &[], 2),
        "Qwen3.5 mRoPE requires non-empty modality types and non-zero merge size"
    );
    assert_eq!(
        message(&[0], &[], 0),
        "Qwen3.5 mRoPE requires non-empty modality types and non-zero merge size"
    );
    assert_eq!(
        message(&[1], &[], 2),
        "Qwen3.5 mRoPE image group has no matching grid"
    );
    assert_eq!(
        message(&[1], &[[1, 3, 2]], 2),
        "Qwen3.5 mRoPE invalid image grid [1, 3, 2] for merge 2"
    );
    assert_eq!(
        message(&[0, 2], &[], 2),
        "Qwen3.5 mRoPE modality 2 is unsupported; native v1 supports text and one image"
    );
    assert_eq!(
        message(&[0], &[[1, 2, 2]], 2),
        "Qwen3.5 mRoPE consumed 0 image grids, got 1"
    );
}

#[test]
fn a_grid_that_no_image_reaches_may_be_of_any_size() {
    let huge = [u32::MAX, u32::MAX, u32::MAX];
    assert_eq!(
        compute_mrope_positions(&[0, 0], &[huge], 1)
            .unwrap_err()
            .message(),
        "Qwen3.5 mRoPE consumed 0 image grids, got 1"
    );
    assert_eq!(
        compute_mrope_positions(&[0, 7], &[huge], 1)
            .unwrap_err()
            .message(),
        "Qwen3.5 mRoPE modality 7 is unsupported; native v1 supports text and one image"
    );
}

#[test]
fn a_grid_that_an_image_reaches_is_checked_before_its_cells_are_counted() {
    let huge = [u32::MAX, u32::MAX, u32::MAX];
    assert!(compute_mrope_positions(&[1], &[huge], 2)
        .unwrap_err()
        .message()
        .starts_with("Qwen3.5 mRoPE invalid image grid"));
    let large = [1 << 20, 1 << 21, 1 << 20];
    assert!(compute_mrope_positions(&[1, 1], &[large], 2)
        .unwrap_err()
        .message()
        .contains("expected 576460752303423488"));
}
