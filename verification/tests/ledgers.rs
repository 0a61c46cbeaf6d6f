use apxinf_model::qwen35::ledger::{
    Qwen35MetalW8LinearLayerStack3BufferLedger, Qwen35MetalW8LinearLayerStacksV1AggregateLedger,
    Qwen35MetalW8MlpBlockBufferLedger, Qwen35MetalW8MlpStack3BoundaryBodyV1AggregateLedger,
    Qwen35MetalW8MlpStack3BoundaryRegionBufferLedgerV1,
    Qwen35MetalW8MlpStack3BoundaryTailHeadV1AggregateLedger,
    Qwen35MetalW8Stack3LmHeadV2AggregateLedger,
};
use apxinf_model::qwen35::metal::{
    FunctionChains, GdnCoreProfileV1, LinearLayerStack3BufferLedger, LmHeadBufferLedger,
    MlpBlockBufferLedger, MlpStack3BoundaryBufferLedgerV1, TailMlpHeadBufferLedgerV1,
};
use apxinf_model::qwen35::profile::{
    qwen35_boundary_mechanism_for_gdn_core_profile_v1,
    qwen35_boundary_tail_head_mechanism_for_gdn_core_profile_v1,
    qwen35_gdn_core_profile_v1_label, qwen35_stack3_mechanism_for_gdn_core_profile_v1,
};

const CHAINS: FunctionChains = FunctionChains {
    legacy_four_dispatch: "conv>gates>recurrent>norm",
    qk_staged_four_dispatch: "conv>gates>staged>norm",
    fused_128: "fused",
};

fn mlp_ledger(hidden: usize) -> MlpBlockBufferLedger {
    MlpBlockBufferLedger {
        scope: "resident-mtlbuffer-only",
        allocated_buffers: 8,
        shared_buffers: 6,
        private_buffers: 2,
        packed_weight_bytes: 11_010_048,
        packed_scale_bytes: 688_128,
        activation_bytes: 51_200,
        total_persistent_bytes: 11_749_376,
        host_input_bytes_per_decode: hidden * 4,
        host_output_bytes_per_decode: hidden * 4,
        state_host_transfer_bytes_per_decode: 0,
        command_buffers_per_decode: 1,
        compute_encoders_per_decode: 3,
        commits_per_decode: 1,
        waits_per_decode: 1,
    }
}

fn stack_ledger(
    hidden: usize,
    profile: GdnCoreProfileV1,
    dispatches: usize,
    barriers: usize,
) -> LinearLayerStack3BufferLedger {
    LinearLayerStack3BufferLedger {
        gdn_core_profile: profile,
        gdn_function_chain: CHAINS.expected_function_chain(profile),
        allocated_buffers: 76,
        shared_buffers: 68,
        private_buffers: 8,
        packed_weight_bytes: 64_585_728,
        packed_scale_bytes: 4_429_824,
        f32_parameter_bytes: 321_408,
        active_state_bytes: 3_440_640,
        scratch_state_bytes: 3_440_640,
        activation_bytes: 133_248,
        total_persistent_bytes: 76_351_488,
        host_input_bytes_per_decode: hidden * 4,
        host_output_bytes_per_decode: hidden * 4,
        state_host_transfer_bytes_per_decode: 0,
        command_buffers_per_decode: 1,
        compute_encoders_per_decode: 3,
        kernel_dispatches_per_decode: dispatches,
        explicit_buffer_barriers_per_decode: barriers,
        gdn_core_seams_per_decode: 3,
        gdn_core_kernel_dispatches_per_decode: 12,
        gdn_core_explicit_buffer_barriers_per_decode: 12,
        gdn_core_recurrent_or_fused_threads_per_threadgroup: 256,
        gdn_core_threadgroups_per_decode: 126,
        gdn_core_launched_threads_per_decode: 30_864,
        gdn_core_source_declared_threadgroup_memory_bytes: 0,
        gdn_core_expected_pipeline_static_threadgroup_memory_bytes: 0,
        gdn_core_internal_threadgroup_barrier_sites_per_threadgroup: 0,
        commits_per_decode: 1,
        waits_per_decode: 1,
        intermediate_host_finite_checks_per_decode: 0,
        final_output_finite_checks_per_decode: 1,
    }
}

fn boundary_ledger(
    hidden: usize,
    profile: GdnCoreProfileV1,
    dispatches: usize,
    barriers: usize,
) -> MlpStack3BoundaryBufferLedgerV1 {
    MlpStack3BoundaryBufferLedgerV1 {
        gdn_core_profile: profile,
        gdn_function_chain: CHAINS.expected_function_chain(profile),
        scope: "resident-mtlbuffer-only",
        exclusions: "boundary exclusions",
        abi_version: 1,
        stack_depth: 3,
        allocated_buffers: 81,
        shared_buffers: 73,
        private_buffers: 8,
        packed_weight_bytes: 75_595_776,
        packed_scale_bytes: 5_117_952,
        f32_parameter_bytes: 325_504,
        active_state_bytes: 3_440_640,
        scratch_state_bytes: 3_440_640,
        activation_bytes: 133_248,
        total_persistent_bytes: 88_053_760,
        host_input_bytes_per_decode: hidden * 4,
        host_output_bytes_per_decode: hidden * 4,
        state_host_transfer_bytes_per_decode: 0,
        command_buffers_per_decode: 1,
        compute_encoders_per_decode: 4,
        kernel_dispatches_per_decode: dispatches,
        explicit_buffer_barriers_per_decode: barriers,
        gdn_core_seams_per_decode: 3,
        gdn_core_kernel_dispatches_per_decode: 12,
        gdn_core_explicit_buffer_barriers_per_decode: 12,
        gdn_core_recurrent_or_fused_threads_per_threadgroup: 256,
        gdn_core_threadgroups_per_decode: 126,
        gdn_core_launched_threads_per_decode: 30_864,
        gdn_core_source_declared_threadgroup_memory_bytes: 0,
        gdn_core_expected_pipeline_static_threadgroup_memory_bytes: 0,
        gdn_core_internal_threadgroup_barrier_sites_per_threadgroup: 0,
        commits_per_decode: 1,
        waits_per_decode: 1,
        intermediate_host_finite_checks_per_decode: 0,
        final_output_finite_checks_per_decode: 1,
    }
}

fn head_ledger(hidden: usize, total_persistent_bytes: usize) -> LmHeadBufferLedger {
    LmHeadBufferLedger {
        allocated_buffers: 5,
        shared_buffers: 4,
        private_buffers: 1,
        total_persistent_bytes,
        host_input_bytes_per_call: hidden * 4,
        host_output_bytes_per_call: 16,
        state_host_transfer_bytes_per_call: 0,
        command_buffers_per_call: 1,
        compute_encoders_per_call: 2,
        commits_per_call: 1,
        waits_per_call: 1,
    }
}

fn tail_ledger(hidden: usize, total_persistent_bytes: usize) -> TailMlpHeadBufferLedgerV1 {
    TailMlpHeadBufferLedgerV1 {
        allocated_buffers: 13,
        shared_buffers: 10,
        private_buffers: 3,
        total_persistent_bytes,
        host_input_bytes_per_decode: hidden * 4,
        host_output_bytes_per_decode: hidden * 4 + 16,
        state_host_transfer_bytes_per_decode: 0,
        command_buffers_per_decode: 1,
        compute_encoders_per_decode: 1,
        kernel_dispatches_per_decode: 8,
        buffer_barriers_per_decode: 7,
        commits_per_decode: 1,
        waits_per_decode: 1,
    }
}

fn stacks() -> Vec<Qwen35MetalW8LinearLayerStack3BufferLedger> {
    [
        [0, 1, 2],
        [4, 5, 6],
        [8, 9, 10],
        [12, 13, 14],
        [16, 17, 18],
        [20, 21, 22],
    ]
    .map(|layer_indices| Qwen35MetalW8LinearLayerStack3BufferLedger {
        layer_indices,
        ledger: stack_ledger(1024, GdnCoreProfileV1::LegacyFourDispatch, 39, 36),
    })
    .to_vec()
}

fn initial(
    profile: GdnCoreProfileV1,
    dispatches: usize,
    barriers: usize,
) -> Qwen35MetalW8LinearLayerStack3BufferLedger {
    Qwen35MetalW8LinearLayerStack3BufferLedger {
        layer_indices: [0, 1, 2],
        ledger: stack_ledger(1024, profile, dispatches, barriers),
    }
}

fn boundaries(
    profile: GdnCoreProfileV1,
    dispatches: usize,
    barriers: usize,
) -> Vec<Qwen35MetalW8MlpStack3BoundaryRegionBufferLedgerV1> {
    [
        (3, [4, 5, 6]),
        (7, [8, 9, 10]),
        (11, [12, 13, 14]),
        (15, [16, 17, 18]),
        (19, [20, 21, 22]),
    ]
    .map(|(boundary_mlp_layer_index, stack_layer_indices)| {
        Qwen35MetalW8MlpStack3BoundaryRegionBufferLedgerV1 {
            boundary_mlp_layer_index,
            stack_layer_indices,
            ledger: boundary_ledger(1024, profile, dispatches, barriers),
        }
    })
    .to_vec()
}

fn final_mlp() -> Qwen35MetalW8MlpBlockBufferLedger {
    Qwen35MetalW8MlpBlockBufferLedger {
        layer_index: 23,
        ledger: mlp_ledger(1024),
    }
}

#[test]
fn metal_stack3_v1_qwen35_08b_static_ledger_closes_to_the_frozen_target() {
    let mlps = [3, 7, 11, 15, 19, 23]
        .map(|layer_index| Qwen35MetalW8MlpBlockBufferLedger {
            layer_index,
            ledger: mlp_ledger(1024),
        })
        .to_vec();
    let aggregate = Qwen35MetalW8LinearLayerStacksV1AggregateLedger::new(stacks(), mlps);

    assert_eq!(aggregate.total_persistent_mtlbuffer_bytes, 528_605_184);
    assert_eq!(aggregate.allocated_buffers, 504);
    assert_eq!(aggregate.shared_buffers, 444);
    assert_eq!(aggregate.private_buffers, 60);
    assert_eq!(aggregate.host_to_device_bytes_per_decode, 49_152);
    assert_eq!(aggregate.device_to_host_bytes_per_decode, 49_152);
    assert_eq!(aggregate.command_buffers_per_decode, 12);
    assert_eq!(aggregate.compute_encoders_per_decode, 36);
    assert_eq!(aggregate.commits_per_decode, 12);
    assert_eq!(aggregate.waits_per_decode, 12);
    assert_eq!(aggregate.intermediate_host_finite_checks_per_decode, 0);
    assert_eq!(aggregate.final_output_finite_checks_per_decode, 6);
}

#[test]
fn metal_mlp_stack3_boundary_body_v1_qwen35_08b_static_ledger_is_exact() {
    let profile = GdnCoreProfileV1::LegacyFourDispatch;
    let aggregate = Qwen35MetalW8MlpStack3BoundaryBodyV1AggregateLedger::new(
        initial(profile, 39, 36),
        boundaries(profile, 44, 40),
        final_mlp(),
    )
    .unwrap();

    assert_eq!(aggregate.total_persistent_mtlbuffer_bytes, 528_369_664);
    assert_eq!(aggregate.allocated_buffers, 489);
    assert_eq!(aggregate.shared_buffers, 439);
    assert_eq!(aggregate.private_buffers, 50);
    assert_eq!(aggregate.host_to_device_bytes_per_decode, 28_672);
    assert_eq!(aggregate.device_to_host_bytes_per_decode, 28_672);
    assert_eq!(aggregate.state_host_transfer_bytes_per_decode, 0);
    assert_eq!(aggregate.command_buffers_per_decode, 7);
    assert_eq!(aggregate.compute_encoders_per_decode, 26);
    assert_eq!(aggregate.kernel_dispatches_per_decode, 262);
    assert_eq!(aggregate.commits_per_decode, 7);
    assert_eq!(aggregate.waits_per_decode, 7);
    assert_eq!(aggregate.intermediate_host_finite_checks_per_decode, 0);
    assert_eq!(aggregate.final_output_finite_checks_per_decode, 6);
}

#[test]
fn a_boundary_body_ledger_that_does_not_fit_is_refused() {
    let profile = GdnCoreProfileV1::LegacyFourDispatch;
    let mut huge = final_mlp();
    huge.ledger.total_persistent_bytes = usize::MAX;
    assert!(Qwen35MetalW8MlpStack3BoundaryBodyV1AggregateLedger::new(
        initial(profile, 39, 36),
        boundaries(profile, 44, 40),
        huge,
    )
    .is_err());
}

#[test]
fn metal_boundary_tail_head_v1_qwen35_08b_profile_ledgers_are_exact() {
    for (
        profile,
        initial_dispatches,
        initial_barriers,
        boundary_dispatches,
        boundary_barriers,
        expected_dispatches,
        expected_barriers,
    ) in [
        (
            GdnCoreProfileV1::LegacyFourDispatch,
            39,
            36,
            44,
            40,
            267,
            243,
        ),
        (GdnCoreProfileV1::Fused128, 30, 27, 35, 31, 213, 189),
    ] {
        let aggregate = Qwen35MetalW8MlpStack3BoundaryTailHeadV1AggregateLedger::new(
            initial(profile, initial_dispatches, initial_barriers),
            boundaries(profile, boundary_dispatches, boundary_barriers),
            23,
            tail_ledger(1024, 282_923_024),
            &CHAINS,
        )
        .unwrap();

        assert_eq!(aggregate.gdn_core_profile, profile);
        assert_eq!(
            aggregate.gdn_function_chain,
            CHAINS.expected_function_chain(profile)
        );
        assert_eq!(aggregate.total_persistent_mtlbuffer_bytes, 799_543_312);
        assert_eq!(aggregate.allocated_buffers, 494);
        assert_eq!(aggregate.shared_buffers, 443);
        assert_eq!(aggregate.private_buffers, 51);
        assert_eq!(aggregate.host_to_device_bytes_per_decode, 28_672);
        assert_eq!(aggregate.device_to_host_bytes_per_decode, 28_688);
        assert_eq!(aggregate.state_host_transfer_bytes_per_decode, 0);
        assert_eq!(aggregate.command_buffers_per_decode, 7);
        assert_eq!(aggregate.compute_encoders_per_decode, 24);
        assert_eq!(aggregate.kernel_dispatches_per_decode, expected_dispatches);
        assert_eq!(
            aggregate.explicit_buffer_barriers_per_decode,
            expected_barriers
        );
        assert_eq!(aggregate.commits_per_decode, 7);
        assert_eq!(aggregate.waits_per_decode, 7);
        assert!(aggregate.exclusions.contains("F32 tied embedding"));
        assert!(aggregate.exclusions.contains("four-candidate rerank"));
    }
}

#[test]
fn a_tail_ledger_with_mixed_profiles_is_refused() {
    assert!(Qwen35MetalW8MlpStack3BoundaryTailHeadV1AggregateLedger::new(
        initial(GdnCoreProfileV1::LegacyFourDispatch, 39, 36),
        boundaries(GdnCoreProfileV1::Fused128, 35, 31),
        23,
        tail_ledger(1024, 282_923_024),
        &CHAINS,
    )
    .is_err());
}

#[test]
fn metal_stack3_head_v2_static_ledger_adds_the_existing_tied_head_once() {
    let body = Qwen35MetalW8LinearLayerStacksV1AggregateLedger {
        scope: "resident-mtlbuffer-only",
        exclusions: "body exclusions",
        includes_lm_head: false,
        stacks: Vec::new(),
        full_attention_mlp_layers: Vec::new(),
        total_persistent_mtlbuffer_bytes: 528_605_184,
        allocated_buffers: 504,
        shared_buffers: 444,
        private_buffers: 60,
        host_to_device_bytes_per_decode: 49_152,
        device_to_host_bytes_per_decode: 49_152,
        state_host_transfer_bytes_per_decode: 0,
        command_buffers_per_decode: 12,
        compute_encoders_per_decode: 36,
        commits_per_decode: 12,
        waits_per_decode: 12,
        intermediate_host_finite_checks_per_decode: 0,
        final_output_finite_checks_per_decode: 6,
    };

    let aggregate =
        Qwen35MetalW8Stack3LmHeadV2AggregateLedger::new(body, head_ledger(1024, 271_169_552))
            .unwrap();

    assert_eq!(aggregate.scope, "resident-mtlbuffer-only");
    assert!(aggregate.includes_lm_head);
    assert_eq!(aggregate.body.total_persistent_mtlbuffer_bytes, 528_605_184);
    assert_eq!(aggregate.lm_head.total_persistent_bytes, 271_169_552);
    assert_eq!(aggregate.total_persistent_mtlbuffer_bytes, 799_774_736);
    assert_eq!(aggregate.allocated_buffers, 509);
    assert_eq!(aggregate.shared_buffers, 448);
    assert_eq!(aggregate.private_buffers, 61);
    assert_eq!(aggregate.host_to_device_bytes_per_call, 53_248);
    assert_eq!(aggregate.device_to_host_bytes_per_call, 49_168);
    assert_eq!(aggregate.state_host_transfer_bytes_per_call, 0);
    assert_eq!(aggregate.command_buffers_per_call, 13);
    assert_eq!(aggregate.compute_encoders_per_call, 38);
    assert_eq!(aggregate.commits_per_call, 13);
    assert_eq!(aggregate.waits_per_call, 13);
    assert_eq!(aggregate.intermediate_host_finite_checks_per_call, 0);
    assert_eq!(aggregate.final_output_finite_checks_per_call, 6);
    assert!(aggregate.exclusions.contains("host F32 tied embedding"));
    assert!(aggregate.exclusions.contains("F32 rerank"));
}

#[test]
fn every_core_profile_names_its_mechanisms() {
    let legacy = GdnCoreProfileV1::LegacyFourDispatch;
    let fused = GdnCoreProfileV1::Fused128;
    assert_eq!(
        qwen35_boundary_tail_head_mechanism_for_gdn_core_profile_v1(legacy),
        "metal-w8-mlp-stack3-boundary-tail-head-v1"
    );
    assert_eq!(
        qwen35_boundary_tail_head_mechanism_for_gdn_core_profile_v1(fused),
        "metal-w8-mlp-stack3-boundary-tail-head-gdn-core-fused-v1"
    );
    assert_eq!(
        qwen35_stack3_mechanism_for_gdn_core_profile_v1(fused),
        "metal-w8-linear-layer-stack3-gdn-core-fused-v1"
    );
    assert_eq!(
        qwen35_boundary_mechanism_for_gdn_core_profile_v1(fused),
        "metal-w8-mlp-stack3-boundary-gdn-core-fused-v1"
    );
    assert_eq!(
        qwen35_gdn_core_profile_v1_label(GdnCoreProfileV1::QkStagedFourDispatch),
        "qk-staged-four-dispatch-control"
    );
}
