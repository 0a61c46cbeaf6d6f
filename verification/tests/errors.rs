use apxinf_model::error::Error;

#[test]
fn messages_about_tensors_positions_and_pixels() {
    assert_eq!(
        Error::Reported {
            cause: "no memory".to_string(),
        }
        .message(),
        "no memory"
    );
    assert_eq!(
        Error::ElementCount {
            elements: 7,
            shape: vec![10, 11],
        }
        .message(),
        "tensor of shape [10, 11] was given 7 elements"
    );
    assert_eq!(
        Error::NotF32 {
            dtype: "i8",
        }
        .message(),
        "tensor holds i8 values, not f32"
    );
    assert_eq!(
        Error::RowShape {
            columns: 7,
            got: vec![10, 11],
        }
        .message(),
        "shape mismatch: expected [1, 7], got [10, 11]"
    );
    assert_eq!(
        Error::RowsShape {
            columns: 7,
            got: vec![10, 11],
        }
        .message(),
        "shape mismatch: expected [non-zero rows, 7], got [10, 11]"
    );
    assert_eq!(
        Error::RerankShape {
            vocab_size: 7,
            hidden_size: 10,
            embedding: 13,
            hidden: 16,
        }
        .message(),
        "shape mismatch: expected embedding=[7, 10], hidden=[10], got embedding elements=13, hidden elements=16"
    );
    assert_eq!(
        Error::GdnWeightShape {
            label: "norm",
            expected: vec![10, 11],
            got: vec![13, 14],
        }
        .message(),
        "shape mismatch: expected Metal W8 GDN norm [10, 11], got [13, 14]"
    );
    assert_eq!(
        Error::LinearLayerWeightShape {
            label: "norm",
            expected: vec![10, 11],
            got: vec![13, 14],
        }
        .message(),
        "shape mismatch: expected Metal W8 linear layer norm [10, 11], got [13, 14]"
    );
    assert_eq!(
        Error::BoundaryNormShape {
            hidden_size: 7,
            got: vec![10, 11],
        }
        .message(),
        "shape mismatch: expected Metal W8 MLP→Stack3 boundary v1 post-attention RMSNorm [7], got [10, 11]"
    );
    assert_eq!(
        Error::TransposeRowsShape {
            row_start: 7,
            row_end: 10,
            expected_input: 13,
            got: vec![16, 17],
        }
        .message(),
        "shape mismatch: expected [at least 10, 13] with rows 7..10, got [16, 17]"
    );
    assert_eq!(
        Error::ConvRowsShape {
            row_start: 7,
            row_end: 10,
            kernel_size: 13,
            got: vec![16, 17],
        }
        .message(),
        "shape mismatch: expected [at least 10, 1, 13] with rows 7..10, got [16, 17]"
    );
    assert_eq!(
        Error::GatedQueryShape {
            rows: 7,
            hidden_size: 10,
            got: vec![13, 14],
        }
        .message(),
        "shape mismatch: expected [7, 10], got [13, 14]"
    );
    assert_eq!(
        Error::RopeShape {
            sequence_length: 7,
            heads: 10,
            head_dim: 13,
            got: vec![16, 17],
        }
        .message(),
        "shape mismatch: expected [7, 10, 13], got qwen3.5 shared text RoPE input [16, 17]"
    );
    assert_eq!(
        Error::NotOnCpuBeforePacking {
            label: "norm",
        }
        .message(),
        "qwen3.5 norm: checkpoint tensor must be on CPU before packing"
    );
    assert_eq!(
        Error::NotOnCpu {
            label: "norm",
        }
        .message(),
        "qwen3.5 norm: checkpoint tensor must be on CPU"
    );
    assert_eq!(
        Error::UnsupportedDtype {
            label: "norm",
            dtype: "i8",
        }
        .message(),
        "qwen3.5 norm: unsupported dtype i8"
    );
    assert_eq!(
        Error::GatedQueryOverflow.message(),
        "qwen3.5 q_proj dimensions overflow"
    );
    assert_eq!(
        Error::MropeEmpty.message(),
        "Qwen3.5 mRoPE requires non-empty modality types and non-zero merge size"
    );
    assert_eq!(
        Error::MropeMissingGrid.message(),
        "Qwen3.5 mRoPE image group has no matching grid"
    );
    assert_eq!(
        Error::MropeInvalidGrid {
            temporal: 7,
            height: 10,
            width: 13,
            merge: 16,
        }
        .message(),
        "Qwen3.5 mRoPE invalid image grid [7, 10, 13] for merge 16"
    );
    assert_eq!(
        Error::MropeGroupLength {
            tokens: 7,
            expected: 10,
            temporal: 13,
            height: 16,
            width: 19,
        }
        .message(),
        "Qwen3.5 mRoPE image group has 7 tokens, expected 10 from grid [13, 16, 19]"
    );
    assert_eq!(
        Error::MropeModality {
            modality: 7,
        }
        .message(),
        "Qwen3.5 mRoPE modality 7 is unsupported; native v1 supports text and one image"
    );
    assert_eq!(
        Error::MropeLeftoverGrids {
            consumed: 7,
            grids: 10,
        }
        .message(),
        "Qwen3.5 mRoPE consumed 7 image grids, got 10"
    );
    assert_eq!(
        Error::ZeroContext.message(),
        "qwen3.5: max context must be greater than zero"
    );
}

#[test]
fn messages_about_checkpoints_and_configurations() {
    assert_eq!(
        Error::NoLinearState {
            layer_index: 7,
        }
        .message(),
        "qwen3.5: layer 7 has no linear-attention state"
    );
    assert_eq!(
        Error::NoKvCache {
            layer_index: 7,
        }
        .message(),
        "qwen3.5: layer 7 has no full-attention KV cache"
    );
    assert_eq!(
        Error::StartPosition {
            start_pos: 7,
            position: 10,
        }
        .message(),
        "qwen3.5: start_pos 7 does not match cached position 10"
    );
    assert_eq!(
        Error::KvPosition {
            kv_position: 7,
            position: 10,
        }
        .message(),
        "qwen3.5: KV position 7 disagrees with hybrid position 10"
    );
    assert_eq!(
        Error::ContextOverflow.message(),
        "qwen3.5: context length overflow"
    );
    assert_eq!(
        Error::ContextExceeded {
            end: 7,
            max_context: 10,
        }
        .message(),
        "qwen3.5: context end 7 exceeds configured maximum 10"
    );
    assert_eq!(
        Error::VisionDeepstack.message(),
        "Qwen3.5 vision encoder does not support deepstack outputs"
    );
    assert_eq!(
        Error::VisionLoad {
            cause: "no memory".to_string(),
        }
        .message(),
        "load Qwen3.5 vision tensors: no memory"
    );
    assert_eq!(
        Error::VisionPatchWidth.message(),
        "Qwen3.5 vision patch width overflow"
    );
    assert_eq!(
        Error::VisionPatchCount.message(),
        "Qwen3.5 vision patch count overflow"
    );
    assert_eq!(
        Error::VisionPixels {
            patch_count: 7,
            patch_width: 10,
            dtype: "i8",
            got: vec![16, 17],
            device: "cuda:0".to_string(),
        }
        .message(),
        "Qwen3.5 pixel_values must be CPU BF16 [7,10], got i8 [16, 17] on cuda:0"
    );
    assert_eq!(
        Error::VisionUnexpectedDeepstack.message(),
        "Qwen3.5 vision encoder produced unexpected deepstack outputs"
    );
    assert_eq!(
        Error::VisionPrimary {
            expected_rows: 7,
            out_hidden_size: 10,
            dtype: "i8",
            got: vec![16, 17],
        }
        .message(),
        "Qwen3.5 vision primary must be BF16 [7,10], got i8 [16, 17]"
    );
    assert_eq!(
        Error::CheckpointMissing {
            name: "model.norm.weight".to_string(),
        }
        .message(),
        "qwen3.5 checkpoint: missing model.norm.weight"
    );
    assert_eq!(
        Error::CheckpointShape {
            name: "model.norm.weight".to_string(),
            expected: vec![10, 11],
            got: vec![13, 14],
        }
        .message(),
        "qwen3.5 checkpoint model.norm.weight: expected shape [10, 11], got [13, 14]"
    );
    assert_eq!(
        Error::CheckpointDtype {
            name: "model.norm.weight".to_string(),
            dtype: "i8",
        }
        .message(),
        "qwen3.5 checkpoint model.norm.weight: unsupported dtype i8"
    );
    assert_eq!(
        Error::CheckpointExactDtype {
            name: "model.norm.weight".to_string(),
            expected: "bf16",
            got: "f16",
        }
        .message(),
        "qwen3.5 checkpoint model.norm.weight: expected checkpoint dtype bf16, got f16"
    );
    assert_eq!(
        Error::CheckpointUnexpected {
            name: "model.norm.weight".to_string(),
        }
        .message(),
        "qwen3.5 checkpoint: unexpected tensor model.norm.weight; only model.visual.* and mtp.* are explicitly ignored by the text-only loader"
    );
    assert_eq!(
        Error::ConfiguredDtype {
            name: "model.norm.weight".to_string(),
        }
        .message(),
        "qwen3.5 checkpoint: unsupported configured dtype `model.norm.weight`"
    );
    assert_eq!(
        Error::Qwen3VlJson {
            cause: "no memory".to_string(),
        }
        .message(),
        "qwen3vl config json: no memory"
    );
    assert_eq!(
        Error::Qwen3VlTextConfig.message(),
        "qwen3vl config: missing text_config"
    );
    assert_eq!(
        Error::Qwen3VlMropeSection.message(),
        "qwen3vl config: missing rope_scaling.mrope_section"
    );
    assert_eq!(
        Error::Qwen3VlMropeLength {
            entries: 7,
        }
        .message(),
        "qwen3vl config: mrope_section must be [T,H,W] (3 entries), got 7"
    );
    assert_eq!(
        Error::MissingWeight {
            name: "model.norm.weight".to_string(),
        }
        .message(),
        "missing model.norm.weight"
    );
}

#[test]
fn messages_about_lanes_and_forwards() {
    assert_eq!(
        Error::TransposeRank {
            rank: 7,
        }
        .message(),
        "transpose_2d expected 2D tensor, got 7D"
    );
    assert_eq!(
        Error::TransposeDtype {
            dtype: "i8",
        }
        .message(),
        "Qwen3-VL weight transpose does not support i8"
    );
    assert_eq!(
        Error::VisionTransposeRank {
            rank: 7,
        }
        .message(),
        "transpose_2d expected 2D, got 7D"
    );
    assert_eq!(
        Error::VisionTransposeDtype {
            dtype: "i8",
        }
        .message(),
        "Qwen3-VL vision transpose does not support i8"
    );
    assert_eq!(
        Error::VisionReshapeCount {
            elements: 7,
            rows: 10,
            cols: 13,
        }
        .message(),
        "reshape_5d_to_2d: 7 elements != 10x13"
    );
    assert_eq!(
        Error::VisionReshapeDtype {
            dtype: "i8",
        }
        .message(),
        "Qwen3-VL vision reshape does not support i8"
    );
    assert_eq!(
        Error::QkStagedProfile.message(),
        "qwen3.5 Metal W8 production route rejects the diagnostic-only qk-staged GDN core control"
    );
    assert_eq!(
        Error::FusedShape {
            hidden: 7,
            key_heads: 10,
            value_heads: 13,
            key_dim: 16,
            value_dim: 19,
            conv: 22,
            eps_bits: 0x3586_37bd,
        }
        .message(),
        "qwen3.5 Metal W8 gdn-core-fused-v1 production route is fixed to H=1024/KH=16/VH=16/KD=128/VD=128/conv=4/eps=1e-6, got H=7/KH=10/VH=13/KD=16/VD=19/conv=22/eps_bits=0x358637bd"
    );
    assert_eq!(
        Error::StackRunLength {
            route: "all-stack3-v1",
            length: 10,
            run_start: 13,
        }
        .message(),
        "qwen3.5 Metal W8 all-stack3-v1 requires linear-attention runs of exactly three layers, got 10 at 13"
    );
    assert_eq!(
        Error::StackRunsMissing {
            route: "all-stack3-v1",
        }
        .message(),
        "qwen3.5 Metal W8 all-stack3-v1 requires both linear stacks and full-attention layers"
    );
    assert_eq!(
        Error::TailHeadUntied.message(),
        "qwen3.5 Metal W8 boundary + tail-head v1 requires tied word embeddings"
    );
    assert_eq!(
        Error::ConfigLayers {
            got: 7,
            expected: 10,
        }
        .message(),
        "qwen3.5: configuration lists 7 layer types, expected 10"
    );
    assert_eq!(
        Error::ConfigWidths.message(),
        "qwen3.5: configuration widths exceed the machine size"
    );
    assert_eq!(
        Error::CpuOnly.message(),
        "Qwen3.5 native runtime currently supports CPU only; Metal/Accelerate kernels are the next backend slice"
    );
    assert_eq!(
        Error::WeightLayers {
            got: 7,
            expected: 10,
        }
        .message(),
        "qwen3.5: received 7 weight layers, expected 10"
    );
    assert_eq!(
        Error::LmHeadUntied.message(),
        "qwen3.5 Metal W8 lm_head requires a checkpoint with tied word embeddings"
    );
    assert_eq!(
        Error::LmHeadBuild {
            cause: "no memory".to_string(),
        }
        .message(),
        "qwen3.5 Metal W8 lm_head: no memory"
    );
    assert_eq!(
        Error::Stack3HeadTerminal.message(),
        "qwen3.5 Metal W8 Stack3 + lm_head v2 lane is terminal after a post-body error; reset required"
    );
    assert_eq!(
        Error::LinearLayerTerminal {
            layer_index: 7,
        }
        .message(),
        "qwen3.5 Metal W8 linear layer 7 is terminal after a decode error; reset required"
    );
    assert_eq!(
        Error::ReferenceTerminal {
            layer_index: 7,
        }
        .message(),
        "qwen3.5 packed W8 linear-layer reference 7 is terminal after a decode error; reset required"
    );
    assert_eq!(
        Error::AllLinearTerminal.message(),
        "qwen3.5 Metal W8 all-linear-layers precision-v2 lane is terminal after a decode error; reset required"
    );
    assert_eq!(
        Error::StacksTerminal.message(),
        "qwen3.5 Metal W8 stack3-v1 lane is terminal after a decode error; reset required"
    );
    assert_eq!(
        Error::BoundaryBodyTerminal.message(),
        "qwen3.5 Metal W8 MLP→Stack3 boundary body v1 lane is terminal after an error; reset required"
    );
    assert_eq!(
        Error::TailHeadTerminal.message(),
        "qwen3.5 Metal W8 boundary + tail-head v1 lane is terminal after an error; reset required"
    );
    assert_eq!(
        Error::Stack3HeadPostBody {
            stage: "decode head",
            cause: Box::new(Error::BodyEmpty),
        }
        .message(),
        "qwen3.5 Metal W8 Stack3 + lm_head v2 decode head failed after body state advancement: qwen3.5 Metal W8 body requires at least one selected layer; entire lane is terminal, reset required"
    );
    assert_eq!(
        Error::TailHeadPostBody {
            stage: "decode head",
            cause: Box::new(Error::BodyEmpty),
        }
        .message(),
        "qwen3.5 Metal W8 boundary + tail-head v1 decode head failed after body state advancement: qwen3.5 Metal W8 body requires at least one selected layer; entire lane is terminal, reset required"
    );
}

#[test]
fn messages_about_budgets_rotations_and_recurrent_blocks() {
    assert_eq!(
        Error::TailTransaction {
            cause: "no memory".to_string(),
        }
        .message(),
        "qwen3.5 Metal W8 tail-head v1 transaction failed: no memory"
    );
    assert_eq!(
        Error::ReferenceOwnsState {
            layer_index: 7,
        }
        .message(),
        "qwen3.5 packed W8 linear-layer reference 7 owns decode state; only single-token decode is valid until reset"
    );
    assert_eq!(
        Error::LinearLayerOwnsState {
            layer_index: 7,
        }
        .message(),
        "qwen3.5 Metal W8 linear layer 7 owns decode state; only single-token decode is valid until reset"
    );
    assert_eq!(
        Error::AllLinearOwnsState {
            layer_index: 7,
        }
        .message(),
        "qwen3.5 Metal W8 all-linear precision-v2 layer 7 owns decode state; only single-token decode is valid until reset"
    );
    assert_eq!(
        Error::GdnOwnsState {
            layer_index: 7,
        }
        .message(),
        "qwen3.5 Metal W8 GDN layer 7 owns decode state; only single-token decode is valid until reset"
    );
    assert_eq!(
        Error::Stack3OwnsState.message(),
        "qwen3.5 Metal W8 Stack3 body owns decode state; only single-token decode is valid until reset"
    );
    assert_eq!(
        Error::LayerKindMismatch {
            layer_index: 7,
        }
        .message(),
        "qwen3.5: runtime/checkpoint layer kind mismatch at layer 7"
    );
    assert_eq!(
        Error::BoundaryOutsideBody {
            layer_index: 7,
        }
        .message(),
        "qwen3.5 Metal W8 MLP→Stack3 boundary body v1 layer 7 is outside the runtime body"
    );
    assert_eq!(
        Error::BoundaryNotFull {
            layer_index: 7,
        }
        .message(),
        "qwen3.5 Metal W8 MLP→Stack3 boundary body v1 expected full attention at layer 7"
    );
    assert_eq!(
        Error::BoundaryScheduleChanged {
            layer_index: 7,
        }
        .message(),
        "qwen3.5 Metal W8 MLP→Stack3 boundary body v1 schedule changed at full-attention layer 7"
    );
    assert_eq!(
        Error::EmptyTokens.message(),
        "qwen3.5 forward: empty token_ids"
    );
    assert_eq!(
        Error::TokenOutsideVocabulary {
            token: 7,
            vocab_size: 10,
        }
        .message(),
        "qwen3.5: token id 7 is outside vocabulary size 10"
    );
    assert_eq!(
        Error::TailHeadNoOwner {
            layer_index: 7,
        }
        .message(),
        "qwen3.5 Metal W8 boundary + tail-head v1 has no decode owner for layer 7"
    );
    assert_eq!(
        Error::BoundaryBodyNoOwner {
            layer_index: 7,
        }
        .message(),
        "qwen3.5 Metal W8 MLP→Stack3 boundary body v1 has no decode owner for layer 7"
    );
    assert_eq!(
        Error::BoundaryBodyPartial {
            cause: Box::new(Error::BodyEmpty),
        }
        .message(),
        "qwen3.5 Metal W8 MLP→Stack3 boundary body v1 advanced partial CPU/KV or Metal state before a later body failure: qwen3.5 Metal W8 body requires at least one selected layer; entire lane is terminal, reset required"
    );
    assert_eq!(
        Error::TailHeadPartial {
            cause: Box::new(Error::BodyEmpty),
        }
        .message(),
        "qwen3.5 Metal W8 boundary + tail-head v1 advanced partial CPU/KV or Metal state before a later body failure: qwen3.5 Metal W8 body requires at least one selected layer; entire lane is terminal, reset required"
    );
    assert_eq!(
        Error::LanePartial {
            lane: "linear-layer",
            cause: Box::new(Error::BodyEmpty),
        }
        .message(),
        "qwen3.5 complete W8 linear-layer lane committed decode state before a later body failure: qwen3.5 Metal W8 body requires at least one selected layer; lane is terminal, reset required"
    );
    assert_eq!(
        Error::HeadTopK {
            phase: "decode",
            cause: "no memory".to_string(),
        }
        .message(),
        "qwen3.5 Metal W8 top-4 decode failed after state advancement: no memory"
    );
    assert_eq!(
        Error::HeadRerank {
            phase: "decode",
            cause: Box::new(Error::BodyEmpty),
        }
        .message(),
        "qwen3.5 Metal W8 F32 decode rerank failed after state advancement: qwen3.5 Metal W8 body requires at least one selected layer"
    );
    assert_eq!(
        Error::TeacherTopK {
            cause: "no memory".to_string(),
        }
        .message(),
        "qwen3.5 Metal W8 top-4 teacher gate failed after state advancement: no memory"
    );
    assert_eq!(
        Error::TeacherNeedsHead.message(),
        "qwen3.5 teacher gate requires an enabled Metal W8 lm_head"
    );
    assert_eq!(
        Error::RerankOverflow.message(),
        "qwen3.5 F32 rerank dimensions overflow"
    );
    assert_eq!(
        Error::RerankOutside {
            index: 7,
            token: 10,
            vocab_size: 13,
        }
        .message(),
        "qwen3.5 F32 rerank candidate 7 token 10 is outside vocabulary 13"
    );
    assert_eq!(
        Error::RerankDuplicate {
            token: 7,
        }
        .message(),
        "qwen3.5 F32 rerank received duplicate candidate token 7"
    );
}

#[test]
fn messages_about_linear_layers_and_stacks() {
    assert_eq!(
        Error::RerankNonFinite {
            token: 7,
        }
        .message(),
        "qwen3.5 F32 rerank produced a non-finite score for token 7"
    );
    assert_eq!(
        Error::NestedConfig.message(),
        "GeneralQwen35 uses the nested qwen3_5 config; load it through AutoModel or GeneralQwen35::from_weights"
    );
    assert_eq!(
        Error::ImageInput.message(),
        "this model does not support image input"
    );
    assert_eq!(
        Error::BudgetOverflow.message(),
        "qwen3.5 generation: requested context length overflow"
    );
    assert_eq!(
        Error::BudgetExceeded {
            prompt_len: 7,
            max_new_tokens: 10,
            max_context: 13,
        }
        .message(),
        "qwen3.5 generation: prompt length 7 + generation budget 10 exceeds configured maximum 13"
    );
    assert_eq!(
        Error::RopeEmpty.message(),
        "qwen3.5 shared text RoPE requires a non-empty sequence"
    );
    assert_eq!(
        Error::RopeDimension {
            rotary_dim: 7,
            head_dim: 10,
        }
        .message(),
        "qwen3.5 shared text RoPE requires a non-zero, even rotary_dim <= head_dim; got 7 and 10"
    );
    assert_eq!(
        Error::RopeTheta {
            theta: "-0.5".to_string(),
        }
        .message(),
        "qwen3.5 shared text RoPE requires finite positive theta; got -0.5"
    );
    assert_eq!(
        Error::RopeOverflow.message(),
        "qwen3.5 shared text RoPE table length overflow"
    );
    assert_eq!(
        Error::GdnOutside {
            layer_index: 7,
            layers: 10,
        }
        .message(),
        "qwen3.5 Metal W8 GDN layer 7 is outside 0..10"
    );
    assert_eq!(
        Error::GdnNotLinear {
            layer_index: 7,
        }
        .message(),
        "qwen3.5 Metal W8 GDN layer 7 is not linear attention"
    );
    assert_eq!(
        Error::GdnCheckpointNotLinear {
            layer_index: 7,
        }
        .message(),
        "qwen3.5 Metal W8 GDN layer 7 checkpoint is not linear attention"
    );
    assert_eq!(
        Error::GdnOverflow.message(),
        "qwen3.5 Metal W8 GDN dimensions overflow"
    );
    assert_eq!(
        Error::GdnPacking {
            layer_index: 7,
            cause: "no memory".to_string(),
        }
        .message(),
        "qwen3.5 Metal W8 GDN layer 7 packing failed: no memory"
    );
    assert_eq!(
        Error::GdnConstruction {
            layer_index: 7,
            cause: "no memory".to_string(),
        }
        .message(),
        "qwen3.5 Metal W8 GDN layer 7 construction failed: no memory"
    );
    assert_eq!(
        Error::GdnSeed {
            layer_index: 7,
            cause: "no memory".to_string(),
        }
        .message(),
        "qwen3.5 Metal W8 GDN layer 7 prefill state seed failed: no memory"
    );
    assert_eq!(
        Error::GdnReset {
            layer_index: 7,
            cause: "no memory".to_string(),
        }
        .message(),
        "qwen3.5 Metal W8 GDN layer 7 reset failed: no memory"
    );
    assert_eq!(
        Error::GdnFailed {
            layer_index: 7,
            cause: "no memory".to_string(),
        }
        .message(),
        "qwen3.5 Metal W8 GDN layer 7 failed terminally: no memory"
    );
    assert_eq!(
        Error::GdnStateMissing {
            label: "norm",
        }
        .message(),
        "qwen3.5 Metal W8 GDN CPU prefill did not produce norm state"
    );
    assert_eq!(
        Error::GdnStateSeed {
            cause: "no memory".to_string(),
        }
        .message(),
        "qwen3.5 Metal W8 GDN state seed: no memory"
    );
    assert_eq!(
        Error::LinearLayerOutside {
            layer_index: 7,
            layers: 10,
        }
        .message(),
        "qwen3.5 Metal W8 linear layer 7 is outside 0..10"
    );
    assert_eq!(
        Error::LinearLayerNotLinear {
            layer_index: 7,
        }
        .message(),
        "qwen3.5 Metal W8 linear layer 7 is not linear attention"
    );
    assert_eq!(
        Error::LinearLayerCheckpointNotLinear {
            layer_index: 7,
        }
        .message(),
        "qwen3.5 Metal W8 linear layer 7 checkpoint is not linear attention"
    );
    assert_eq!(
        Error::LinearLayerOverflow.message(),
        "qwen3.5 Metal W8 linear layer dimensions overflow"
    );
}

#[test]
fn messages_about_boundaries() {
    assert_eq!(
        Error::LinearLayerGdnPacking {
            layer_index: 7,
            cause: "no memory".to_string(),
        }
        .message(),
        "qwen3.5 Metal W8 linear layer 7 GDN packing failed: no memory"
    );
    assert_eq!(
        Error::LinearLayerMlpPacking {
            layer_index: 7,
            cause: "no memory".to_string(),
        }
        .message(),
        "qwen3.5 Metal W8 linear layer 7 MLP packing failed: no memory"
    );
    assert_eq!(
        Error::LinearLayerAssembly {
            layer_index: 7,
            cause: "no memory".to_string(),
        }
        .message(),
        "qwen3.5 Metal W8 linear layer 7 assembly failed: no memory"
    );
    assert_eq!(
        Error::LinearLayerConstruction {
            layer_index: 7,
            cause: "no memory".to_string(),
        }
        .message(),
        "qwen3.5 Metal W8 linear layer 7 construction failed: no memory"
    );
    assert_eq!(
        Error::PrecisionLedger {
            layer_index: 7,
            cause: "no memory".to_string(),
        }
        .message(),
        "qwen3.5 Metal W8 precision-v2 linear layer 7 ledger failed: no memory"
    );
    assert_eq!(
        Error::PrecisionConstruction {
            layer_index: 7,
            cause: "no memory".to_string(),
        }
        .message(),
        "qwen3.5 Metal W8 precision-v2 linear layer 7 construction failed: no memory"
    );
    assert_eq!(
        Error::LinearLayerSeed {
            layer_index: 7,
            cause: "no memory".to_string(),
        }
        .message(),
        "qwen3.5 Metal W8 linear layer 7 prefill state seed failed: no memory"
    );
    assert_eq!(
        Error::LinearLayerReset {
            layer_index: 7,
            cause: "no memory".to_string(),
        }
        .message(),
        "qwen3.5 Metal W8 linear layer 7 reset failed: no memory"
    );
    assert_eq!(
        Error::LinearLayerNotSeeded {
            layer_index: 7,
        }
        .message(),
        "qwen3.5 Metal W8 linear layer 7 decode state was not seeded by CPU prefill; reset required"
    );
    assert_eq!(
        Error::LinearLayerFailed {
            layer_index: 7,
            cause: "no memory".to_string(),
        }
        .message(),
        "qwen3.5 Metal W8 linear layer 7 failed terminally: no memory; reset required"
    );
    assert_eq!(
        Error::LinearLayerOutput {
            layer_index: 7,
            cause: Box::new(Error::BodyEmpty),
        }
        .message(),
        "qwen3.5 Metal W8 linear layer 7 produced an invalid output terminally: qwen3.5 Metal W8 body requires at least one selected layer; reset required"
    );
    assert_eq!(
        Error::AllLinearLayers {
            got: 7,
            expected: 10,
        }
        .message(),
        "qwen3.5 all-linear precision-v2 received 7 weight layers for 10 configured layer types"
    );
    assert_eq!(
        Error::AllLinearEmpty.message(),
        "qwen3.5 all-linear precision-v2 requires at least one linear-attention layer"
    );
    assert_eq!(
        Error::Stack3Ledger {
            cause: "no memory".to_string(),
        }
        .message(),
        "qwen3.5 Metal W8 stack3-v1 quantization ledger failed: no memory"
    );
    assert_eq!(
        Error::Stack3Construction {
            layer_indices: [7, 8, 9],
            profile: "fused-128",
            cause: "no memory".to_string(),
        }
        .message(),
        "qwen3.5 Metal W8 stack3-v1 layers [7, 8, 9] profile fused-128 construction failed: no memory"
    );
    assert_eq!(
        Error::Stack3InvalidSeed {
            layer_indices: [7, 8, 9],
            slot: 10,
        }
        .message(),
        "qwen3.5 Metal W8 stack3-v1 [7, 8, 9] received an invalid or duplicate prefill seed for slot 10; reset required"
    );
    assert_eq!(
        Error::Stack3Seed {
            layer_indices: [7, 8, 9],
            cause: "no memory".to_string(),
        }
        .message(),
        "qwen3.5 Metal W8 stack3-v1 [7, 8, 9] prefill seed failed terminally: no memory; reset required"
    );
    assert_eq!(
        Error::Stack3Reset {
            layer_indices: [7, 8, 9],
            cause: "no memory".to_string(),
        }
        .message(),
        "qwen3.5 Metal W8 stack3-v1 [7, 8, 9] reset failed: no memory"
    );
    assert_eq!(
        Error::Stack3Terminal {
            layer_indices: [7, 8, 9],
        }
        .message(),
        "qwen3.5 Metal W8 stack3-v1 [7, 8, 9] is terminal after a decode error; reset required"
    );
    assert_eq!(
        Error::Stack3NotSeeded {
            layer_indices: [7, 8, 9],
        }
        .message(),
        "qwen3.5 Metal W8 stack3-v1 [7, 8, 9] was not fully seeded by CPU prefill; reset required"
    );
    assert_eq!(
        Error::Stack3Failed {
            layer_indices: [7, 8, 9],
            cause: "no memory".to_string(),
        }
        .message(),
        "qwen3.5 Metal W8 stack3-v1 [7, 8, 9] failed terminally: no memory; reset required"
    );
    assert_eq!(
        Error::Stack3Output {
            layer_indices: [7, 8, 9],
            cause: Box::new(Error::BodyEmpty),
        }
        .message(),
        "qwen3.5 Metal W8 stack3-v1 [7, 8, 9] produced an invalid final output terminally: qwen3.5 Metal W8 body requires at least one selected layer; reset required"
    );
    assert_eq!(
        Error::Stack3HeadLedgerOverflow {
            label: "norm",
        }
        .message(),
        "qwen3.5 Stack3 + lm_head v2 norm overflow"
    );
    assert_eq!(
        Error::StacksSelection.message(),
        "qwen3.5 Metal W8 stack3-v1 requires matching weights and at least one stack"
    );
}

#[test]
fn messages_about_tails_and_references() {
    assert_eq!(
        Error::StacksExceed {
            layer_indices: [7, 8, 9],
            layers: 10,
        }
        .message(),
        "qwen3.5 Metal W8 stack3-v1 layers [7, 8, 9] exceed 0..10"
    );
    assert_eq!(
        Error::StacksNotLinear {
            layer_index: 7,
        }
        .message(),
        "qwen3.5 Metal W8 stack3-v1 layer 7 is not linear attention"
    );
    assert_eq!(
        Error::StacksDuplicate {
            layer_index: 7,
        }
        .message(),
        "qwen3.5 Metal W8 stack3-v1 layer 7 was selected more than once"
    );
    assert_eq!(
        Error::StacksNotSelected {
            layer_index: 7,
        }
        .message(),
        "qwen3.5 Metal W8 stack3-v1 layer 7 is not selected"
    );
    assert_eq!(
        Error::BoundaryRequiresFull {
            layer_index: 7,
        }
        .message(),
        "qwen3.5 Metal W8 MLP→Stack3 boundary v1 requires full-attention layer at index 7"
    );
    assert_eq!(
        Error::BoundaryLedger {
            cause: "no memory".to_string(),
        }
        .message(),
        "qwen3.5 Metal W8 MLP→Stack3 boundary v1 quantization ledger failed: no memory"
    );
    assert_eq!(
        Error::BoundaryAssembly {
            layer_index: 7,
            cause: "no memory".to_string(),
        }
        .message(),
        "qwen3.5 Metal W8 MLP→Stack3 boundary v1 layer 7 assembly failed: no memory"
    );
    assert_eq!(
        Error::BoundaryConstruction {
            layer_index: 7,
            profile: "fused-128",
            cause: "no memory".to_string(),
        }
        .message(),
        "qwen3.5 Metal W8 MLP→Stack3 boundary v1 layer 7 profile fused-128 construction failed: no memory"
    );
    assert_eq!(
        Error::BoundaryInvalidSeed {
            layer_index: 7,
            slot: 10,
        }
        .message(),
        "qwen3.5 Metal W8 MLP→Stack3 boundary v1 layer 7 received an invalid or duplicate prefill seed for slot 10; reset required"
    );
    assert_eq!(
        Error::BoundarySeed {
            layer_index: 7,
            cause: "no memory".to_string(),
        }
        .message(),
        "qwen3.5 Metal W8 MLP→Stack3 boundary v1 layer 7 prefill seed failed terminally: no memory; reset required"
    );
    assert_eq!(
        Error::BoundaryReset {
            layer_index: 7,
            cause: "no memory".to_string(),
        }
        .message(),
        "qwen3.5 Metal W8 MLP→Stack3 boundary v1 layer 7 reset failed: no memory"
    );
    assert_eq!(
        Error::BoundaryTerminal {
            layer_index: 7,
        }
        .message(),
        "qwen3.5 Metal W8 MLP→Stack3 boundary v1 layer 7 is terminal after a decode error; reset required"
    );
    assert_eq!(
        Error::BoundaryNotSeeded {
            layer_index: 7,
        }
        .message(),
        "qwen3.5 Metal W8 MLP→Stack3 boundary v1 layer 7 was not fully seeded by CPU prefill; reset required"
    );
    assert_eq!(
        Error::BoundaryFailed {
            layer_index: 7,
            cause: "no memory".to_string(),
        }
        .message(),
        "qwen3.5 Metal W8 MLP→Stack3 boundary v1 layer 7 failed terminally: no memory; reset required"
    );
    assert_eq!(
        Error::BoundaryOutput {
            layer_index: 7,
            cause: Box::new(Error::BodyEmpty),
        }
        .message(),
        "qwen3.5 Metal W8 MLP→Stack3 boundary v1 layer 7 produced an invalid final output terminally: qwen3.5 Metal W8 body requires at least one selected layer; reset required"
    );
    assert_eq!(
        Error::BoundaryWeightLayers {
            got: 7,
        }
        .message(),
        "qwen3.5 Metal W8 MLP→Stack3 boundary body v1 requires exactly 24 weight layers, got 7"
    );
    assert_eq!(
        Error::BoundaryLayers {
            config: 7,
            layer_types: 10,
        }
        .message(),
        "qwen3.5 Metal W8 MLP→Stack3 boundary body v1 requires exactly 24 layers, got config=7 and layer_types=10"
    );
    assert_eq!(
        Error::BoundaryLayerKind {
            kind: "full-attention",
            layer_index: 10,
        }
        .message(),
        "qwen3.5 Metal W8 MLP→Stack3 boundary body v1 requires full-attention layer at index 10"
    );
    assert_eq!(
        Error::BoundaryNotOwned {
            layer_index: 7,
        }
        .message(),
        "qwen3.5 Metal W8 MLP→Stack3 boundary body v1 layer 7 is not owned"
    );
    assert_eq!(
        Error::TailHeadLayers.message(),
        "qwen3.5 Metal W8 boundary + tail-head v1 requires 24 layers and tied word embeddings"
    );
    assert_eq!(
        Error::TailHeadShape.message(),
        "qwen3.5 Metal W8 tail-head v1 RMS or tied embedding shape changed"
    );
    assert_eq!(
        Error::TailHeadEmbedding {
            cause: "no memory".to_string(),
        }
        .message(),
        "qwen3.5 Metal W8 tail-head v1 tied embedding packing failed: no memory"
    );
    assert_eq!(
        Error::TailHeadAssembly {
            cause: "no memory".to_string(),
        }
        .message(),
        "qwen3.5 Metal W8 tail-head v1 assembly failed: no memory"
    );
    assert_eq!(
        Error::TailHeadConstruction {
            cause: "no memory".to_string(),
        }
        .message(),
        "qwen3.5 Metal W8 tail-head v1 construction failed: no memory"
    );
}

#[test]
fn messages_about_projections_and_blocks() {
    assert_eq!(
        Error::TailHeadNotOwned {
            layer_index: 7,
        }
        .message(),
        "qwen3.5 Metal W8 boundary + tail-head v1 layer 7 is not owned"
    );
    assert_eq!(
        Error::TailHeadReset {
            cause: "no memory".to_string(),
        }
        .message(),
        "qwen3.5 Metal W8 boundary + tail-head v1 reset failed: no memory"
    );
    assert_eq!(
        Error::TailHeadLedgerOverflow {
            label: "norm",
        }
        .message(),
        "qwen3.5 Metal W8 boundary + tail-head v1 norm overflow"
    );
    assert_eq!(
        Error::TailHeadProfiles.message(),
        "qwen3.5 Metal W8 boundary + tail-head v1 requires one consistent production GDN core profile across the initial stack and all five boundaries"
    );
    assert_eq!(
        Error::TailHeadTopology {
            profile: "fused-128",
            dispatches: 10,
            barriers: 13,
            expected_dispatches: 16,
            expected_barriers: 19,
        }
        .message(),
        "qwen3.5 Metal W8 boundary + tail-head v1 profile fused-128 topology is 10 dispatches/13 barriers, expected 16/19"
    );
    assert_eq!(
        Error::TailHeadSubmissions {
            command_buffers: 7,
            encoders: 10,
            commits: 13,
            waits: 16,
        }
        .message(),
        "qwen3.5 Metal W8 boundary + tail-head v1 submission topology is 7 command buffers/10 encoders/13 commits/16 waits, expected 7/24/7/7"
    );
    assert_eq!(
        Error::BoundaryLedgerOverflow {
            label: "norm",
        }
        .message(),
        "qwen3.5 Metal W8 MLP→Stack3 boundary body v1 norm overflow"
    );
    assert_eq!(
        Error::ReferenceLedger {
            layer_index: 7,
            cause: "no memory".to_string(),
        }
        .message(),
        "qwen3.5 packed W8 linear layer 7 precision ledger failed: no memory"
    );
    assert_eq!(
        Error::ReferenceNotSeeded {
            layer_index: 7,
        }
        .message(),
        "qwen3.5 packed W8 linear-layer reference 7 was not seeded by CPU prefill; reset required"
    );
    assert_eq!(
        Error::ReferenceFailed {
            layer_index: 7,
            cause: "no memory".to_string(),
        }
        .message(),
        "qwen3.5 packed W8 linear-layer reference 7 failed terminally: no memory; reset required"
    );
    assert_eq!(
        Error::ReferenceOutput {
            layer_index: 7,
            cause: Box::new(Error::BodyEmpty),
        }
        .message(),
        "qwen3.5 packed W8 linear-layer reference 7 produced an invalid output terminally: qwen3.5 Metal W8 body requires at least one selected layer; reset required"
    );
    assert_eq!(
        Error::BodyEmpty.message(),
        "qwen3.5 Metal W8 body requires at least one selected layer"
    );
    assert_eq!(
        Error::BodyOutside {
            layer_index: 7,
            layers: 10,
        }
        .message(),
        "qwen3.5 Metal W8 body layer 7 is outside 0..10"
    );
    assert_eq!(
        Error::BodyDuplicate {
            layer_index: 7,
        }
        .message(),
        "qwen3.5 Metal W8 body layer 7 was selected more than once"
    );
    assert_eq!(
        Error::BodyShape {
            layer_index: 7,
            intermediate_size: 10,
            hidden_size: 13,
        }
        .message(),
        "qwen3.5 Metal W8 body layer 7 requires gate/up shape [10, 13]"
    );
    assert_eq!(
        Error::BodyOverflow.message(),
        "qwen3.5 Metal W8 gate+up dimensions overflow"
    );
    assert_eq!(
        Error::BodyPacking {
            layer_index: 7,
            cause: "no memory".to_string(),
        }
        .message(),
        "qwen3.5 Metal W8 body layer 7 gate+up packing failed: no memory"
    );
    assert_eq!(
        Error::BodyFailed {
            layer_index: 7,
            cause: "no memory".to_string(),
        }
        .message(),
        "qwen3.5 Metal W8 body layer 7 gate+up failed: no memory"
    );
    assert_eq!(
        Error::BodyWidth {
            layer_index: 7,
            width: 10,
        }
        .message(),
        "qwen3.5 Metal W8 body layer 7 returned invalid gate+up width 10"
    );
    assert_eq!(
        Error::MlpEmpty.message(),
        "qwen3.5 Metal W8 MLP block requires at least one selected layer"
    );
    assert_eq!(
        Error::MlpOutside {
            layer_index: 7,
            layers: 10,
        }
        .message(),
        "qwen3.5 Metal W8 MLP block layer 7 is outside 0..10"
    );
    assert_eq!(
        Error::MlpDuplicate {
            layer_index: 7,
        }
        .message(),
        "qwen3.5 Metal W8 MLP block layer 7 was selected more than once"
    );
    assert_eq!(
        Error::MlpShape {
            layer_index: 7,
            intermediate_size: 10,
            hidden_size: 13,
        }
        .message(),
        "qwen3.5 Metal W8 MLP block layer 7 requires gate/up [10, 13] and down [13, 10]"
    );
    assert_eq!(
        Error::MlpPacking {
            layer_index: 7,
            cause: "no memory".to_string(),
        }
        .message(),
        "qwen3.5 Metal W8 MLP block layer 7 packing failed: no memory"
    );
}

#[test]
fn messages_about_rest() {
    assert_eq!(
        Error::MlpConstruction {
            layer_index: 7,
            cause: "no memory".to_string(),
        }
        .message(),
        "qwen3.5 Metal W8 MLP block layer 7 construction failed: no memory"
    );
    assert_eq!(
        Error::MlpFailed {
            layer_index: 7,
            cause: "no memory".to_string(),
        }
        .message(),
        "qwen3.5 Metal W8 MLP block layer 7 failed: no memory"
    );
    assert_eq!(
        Error::AttentionMismatch {
            layer_index: 7,
        }
        .message(),
        "qwen3.5: checkpoint/config attention mismatch at layer 7"
    );
}
