use apxinf_model::error::Error;
use apxinf_model::names::NameMap;
use apxinf_model::qwen35::boundary_lane::{BoundaryBuilt, ScheduleAnswers, ScheduleResets, Transaction};
use apxinf_model::qwen35::config::{
    Qwen35Config, Qwen35LayerType, Qwen35TextConfig, Qwen35VisionConfig,
};
use apxinf_model::qwen35::forward::{ForwardRun, Work};
use apxinf_model::qwen35::head::argmax_f32_row;
use apxinf_model::qwen35::lane::Lane;
use apxinf_model::qwen35::linear_lane::{
    gdn_decode_state_from_cpu, DecodeReport, GdnBuildFailure, GdnDecodeState,
    LinearLayerBuildFailure, LinearLayerBuilt, Qwen35MetalW8GdnStats, Qwen35MetalW8LinearLayerStats,
};
use apxinf_model::qwen35::loader::Qwen35TextWeights;
use apxinf_model::qwen35::metal::{
    FunctionChains, GdnCoreProfileV1, GdnMetalStats, LinearLayerBufferLedger, LinearLayerMetalStats,
    LinearLayerQuantizationLedger, LinearLayerStack3BufferLedger, LinearLayerStack3MetalStats,
    LmHeadBufferLedger, MlpBlockBufferLedger, MlpStack3BoundaryBufferLedgerV1,
    MlpStack3BoundaryMetalStatsV1, TailMlpHeadBufferLedgerV1, TailMlpHeadMetalStatsV1, W8GroupSize,
};
use apxinf_model::qwen35::mlp_lane::{MlpBuildFailure, Qwen35MetalW8BodyStats};
use apxinf_model::qwen35::model::{
    validate_tail_config, GeneralQwen35, Qwen35MetalW8LmHeadStats,
};
use apxinf_model::qwen35::post_body::{Qwen35MetalTeacherStep, TailStage, TokenRoute};
use apxinf_model::qwen35::profile::{
    packing_profile, stack_packing_profile, Qwen35MetalW8LinearLayerPrecisionProfile,
    Qwen35MetalW8LmHeadPhase, Qwen35PackedW8LinearLayerReferenceProfile,
};
use apxinf_model::qwen35::receipt::{PathValue, Record};
use apxinf_model::qwen35::reset::LaneResets;
use apxinf_model::qwen35::stack_lane::{Stack3BuildFailure, Stack3Built, Stack3Counters};
use apxinf_model::qwen35::state::Qwen35LinearState;
use apxinf_model::qwen35::tail_lane::{production_profile, TailBuilt, TailOutput};
use apxinf_model::qwen35::w8_pack::LayerPackFailure;
use apxinf_model::qwen35::weights::Qwen35WeightSchema;
use apxinf_model::tensor::{Device, Tensor};

// A small model and a rig that does its outside work: the CPU backend passes
// activations through, and the accelerator counts what it is asked for.

const CHAINS: FunctionChains = FunctionChains {
    legacy_four_dispatch: "conv>gates>recurrent>norm",
    qk_staged_four_dispatch: "conv>gates>staged>norm",
    fused_128: "fused",
};

struct Sizes {
    hidden: usize,
    intermediate: usize,
    linear_dim: usize,
    layers: usize,
    tied: bool,
}

const MINI: Sizes = Sizes {
    hidden: 8,
    intermediate: 12,
    linear_dim: 4,
    layers: 4,
    tied: true,
};

const WIDE: Sizes = Sizes {
    hidden: 64,
    intermediate: 64,
    linear_dim: 32,
    layers: 4,
    tied: true,
};

const DEEP: Sizes = Sizes {
    hidden: 64,
    intermediate: 64,
    linear_dim: 32,
    layers: 24,
    tied: true,
};

fn config(sizes: &Sizes) -> Qwen35Config {
    let layer_types = (0..sizes.layers)
        .map(|layer| {
            if layer % 4 == 3 {
                Qwen35LayerType::FullAttention
            } else {
                Qwen35LayerType::LinearAttention
            }
        })
        .collect();
    Qwen35Config {
        text: Qwen35TextConfig {
            hidden_size: sizes.hidden,
            intermediate_size: sizes.intermediate,
            n_layers: sizes.layers,
            n_attention_heads: 2,
            n_kv_heads: 1,
            head_dim: 8,
            rotary_dim: 4,
            vocab_size: 16,
            max_position_embeddings: 64,
            rms_norm_eps_bits: 1.0e-6f32.to_bits(),
            rope_theta_bits: 10_000.0f32.to_bits(),
            rope_theta_text: "10000".to_string(),
            mrope_section: [1, 1, 0],
            mrope_interleaved: true,
            tie_word_embeddings: sizes.tied,
            attn_output_gate: true,
            layer_types,
            linear_num_key_heads: 2,
            linear_num_value_heads: 2,
            linear_key_head_dim: sizes.linear_dim,
            linear_value_head_dim: sizes.linear_dim,
            linear_conv_kernel_dim: 4,
            dtype: "bfloat16".to_string(),
            recurrent_state_dtype: "float32".to_string(),
        },
        vision: Qwen35VisionConfig {
            depth: 1,
            hidden_size: 8,
            intermediate_size: 8,
            num_heads: 2,
            patch_size: 2,
            temporal_patch_size: 2,
            in_channels: 3,
            spatial_merge_size: 2,
            num_position_embeddings: 4,
            out_hidden_size: 8,
            deepstack_visual_indexes: Vec::new(),
        },
        image_token_id: 12,
        video_token_id: 13,
        vision_start_token_id: 14,
        vision_end_token_id: 15,
    }
}

fn tensor_values(name: &str, count: usize) -> Vec<u32> {
    let constant = if name.ends_with("linear_attn.A_log") {
        Some(-1.25f32)
    } else if name.ends_with("linear_attn.dt_bias") {
        Some(-0.5)
    } else if name.ends_with("linear_attn.norm.weight") {
        Some(0.9)
    } else {
        None
    };
    let salt = name
        .bytes()
        .fold(0u32, |sum, byte| sum.wrapping_add(byte as u32));
    (0..count)
        .map(|index| match constant {
            Some(value) => value.to_bits(),
            None => {
                let phase = ((index as u32).wrapping_mul(17).wrapping_add(salt) % 29) as f32;
                ((phase - 14.0) * 0.0025).to_bits()
            }
        })
        .collect()
}

fn tensors(config: &Qwen35Config) -> NameMap<Tensor> {
    let schema = Qwen35WeightSchema::new(config).unwrap();
    let mut tensors = NameMap::new();
    for spec in schema.specs() {
        let count = spec.shape.iter().product();
        tensors.insert(
            spec.name.clone(),
            Tensor::from_f32(spec.shape.clone(), tensor_values(&spec.name, count)).unwrap(),
        );
    }
    tensors
}

fn weights(config: &Qwen35Config) -> Qwen35TextWeights {
    Qwen35TextWeights::from_map(config, tensors(config)).unwrap()
}

fn quantization(fine_output: bool, fine_down: bool) -> LinearLayerQuantizationLedger {
    let size = |fine: bool| {
        if fine {
            W8GroupSize::G32
        } else {
            W8GroupSize::G64
        }
    };
    LinearLayerQuantizationLedger {
        gdn_input_group_size: W8GroupSize::G64,
        gdn_output_group_size: size(fine_output),
        mlp_gate_group_size: W8GroupSize::G64,
        mlp_up_group_size: W8GroupSize::G64,
        mlp_down_group_size: size(fine_down),
        gdn_input_scale_bytes: 64,
        gdn_output_scale_bytes: if fine_output { 64 } else { 32 },
        mlp_gate_scale_bytes: 32,
        mlp_up_scale_bytes: 32,
        mlp_down_scale_bytes: if fine_down { 64 } else { 32 },
    }
}

fn linear_ledger(hidden: usize) -> LinearLayerBufferLedger {
    LinearLayerBufferLedger {
        allocated_buffers: 32,
        shared_buffers: 24,
        private_buffers: 8,
        total_persistent_bytes: 1000,
        host_input_bytes_per_decode: hidden * 4,
        host_output_bytes_per_decode: hidden * 4,
        state_host_transfer_bytes_per_decode: 0,
        command_buffers_per_decode: 1,
        compute_encoders_per_decode: 1,
        commits_per_decode: 1,
        waits_per_decode: 1,
    }
}

fn mlp_ledger(hidden: usize) -> MlpBlockBufferLedger {
    MlpBlockBufferLedger {
        scope: "resident-mtlbuffer-only",
        allocated_buffers: 8,
        shared_buffers: 6,
        private_buffers: 2,
        packed_weight_bytes: 11_010_048,
        packed_scale_bytes: 688_128,
        activation_bytes: 51_200,
        total_persistent_bytes: 11_749_376,
        host_input_bytes_per_decode: hidden * 4,
        host_output_bytes_per_decode: hidden * 4,
        state_host_transfer_bytes_per_decode: 0,
        command_buffers_per_decode: 1,
        compute_encoders_per_decode: 3,
        commits_per_decode: 1,
        waits_per_decode: 1,
    }
}

fn stack_ledger(
    hidden: usize,
    profile: GdnCoreProfileV1,
    dispatches: usize,
    barriers: usize,
) -> LinearLayerStack3BufferLedger {
    LinearLayerStack3BufferLedger {
        gdn_core_profile: profile,
        gdn_function_chain: CHAINS.expected_function_chain(profile),
        allocated_buffers: 76,
        shared_buffers: 68,
        private_buffers: 8,
        packed_weight_bytes: 64_585_728,
        packed_scale_bytes: 4_429_824,
        f32_parameter_bytes: 321_408,
        active_state_bytes: 3_440_640,
        scratch_state_bytes: 3_440_640,
        activation_bytes: 133_248,
        total_persistent_bytes: 76_351_488,
        host_input_bytes_per_decode: hidden * 4,
        host_output_bytes_per_decode: hidden * 4,
        state_host_transfer_bytes_per_decode: 0,
        command_buffers_per_decode: 1,
        compute_encoders_per_decode: 3,
        kernel_dispatches_per_decode: dispatches,
        explicit_buffer_barriers_per_decode: barriers,
        gdn_core_seams_per_decode: 3,
        gdn_core_kernel_dispatches_per_decode: 12,
        gdn_core_explicit_buffer_barriers_per_decode: 12,
        gdn_core_recurrent_or_fused_threads_per_threadgroup: 256,
        gdn_core_threadgroups_per_decode: 126,
        gdn_core_launched_threads_per_decode: 30_864,
        gdn_core_source_declared_threadgroup_memory_bytes: 0,
        gdn_core_expected_pipeline_static_threadgroup_memory_bytes: 0,
        gdn_core_internal_threadgroup_barrier_sites_per_threadgroup: 0,
        commits_per_decode: 1,
        waits_per_decode: 1,
        intermediate_host_finite_checks_per_decode: 0,
        final_output_finite_checks_per_decode: 1,
    }
}

fn boundary_ledger(
    hidden: usize,
    profile: GdnCoreProfileV1,
    dispatches: usize,
    barriers: usize,
) -> MlpStack3BoundaryBufferLedgerV1 {
    MlpStack3BoundaryBufferLedgerV1 {
        gdn_core_profile: profile,
        gdn_function_chain: CHAINS.expected_function_chain(profile),
        scope: "resident-mtlbuffer-only",
        exclusions: "boundary exclusions",
        abi_version: 1,
        stack_depth: 3,
        allocated_buffers: 81,
        shared_buffers: 73,
        private_buffers: 8,
        packed_weight_bytes: 75_595_776,
        packed_scale_bytes: 5_117_952,
        f32_parameter_bytes: 325_504,
        active_state_bytes: 3_440_640,
        scratch_state_bytes: 3_440_640,
        activation_bytes: 133_248,
        total_persistent_bytes: 88_053_760,
        host_input_bytes_per_decode: hidden * 4,
        host_output_bytes_per_decode: hidden * 4,
        state_host_transfer_bytes_per_decode: 0,
        command_buffers_per_decode: 1,
        compute_encoders_per_decode: 4,
        kernel_dispatches_per_decode: dispatches,
        explicit_buffer_barriers_per_decode: barriers,
        gdn_core_seams_per_decode: 3,
        gdn_core_kernel_dispatches_per_decode: 12,
        gdn_core_explicit_buffer_barriers_per_decode: 12,
        gdn_core_recurrent_or_fused_threads_per_threadgroup: 256,
        gdn_core_threadgroups_per_decode: 126,
        gdn_core_launched_threads_per_decode: 30_864,
        gdn_core_source_declared_threadgroup_memory_bytes: 0,
        gdn_core_expected_pipeline_static_threadgroup_memory_bytes: 0,
        gdn_core_internal_threadgroup_barrier_sites_per_threadgroup: 0,
        commits_per_decode: 1,
        waits_per_decode: 1,
        intermediate_host_finite_checks_per_decode: 0,
        final_output_finite_checks_per_decode: 1,
    }
}

fn head_ledger(hidden: usize, total_persistent_bytes: usize) -> LmHeadBufferLedger {
    LmHeadBufferLedger {
        allocated_buffers: 5,
        shared_buffers: 4,
        private_buffers: 1,
        total_persistent_bytes,
        host_input_bytes_per_call: hidden * 4,
        host_output_bytes_per_call: 16,
        state_host_transfer_bytes_per_call: 0,
        command_buffers_per_call: 1,
        compute_encoders_per_call: 2,
        commits_per_call: 1,
        waits_per_call: 1,
    }
}

fn tail_ledger(hidden: usize, total_persistent_bytes: usize) -> TailMlpHeadBufferLedgerV1 {
    TailMlpHeadBufferLedgerV1 {
        allocated_buffers: 13,
        shared_buffers: 10,
        private_buffers: 3,
        total_persistent_bytes,
        host_input_bytes_per_decode: hidden * 4,
        host_output_bytes_per_decode: hidden * 4 + 16,
        state_host_transfer_bytes_per_decode: 0,
        command_buffers_per_decode: 1,
        compute_encoders_per_decode: 1,
        kernel_dispatches_per_decode: 8,
        buffer_barriers_per_decode: 7,
        commits_per_decode: 1,
        waits_per_decode: 1,
    }
}

fn stack_counters() -> Stack3Counters<LinearLayerStack3MetalStats> {
    Stack3Counters {
        execution: LinearLayerStack3MetalStats::default(),
        last_gdn_core_receipt: None,
    }
}

fn boundary_counters() -> Stack3Counters<MlpStack3BoundaryMetalStatsV1> {
    Stack3Counters {
        execution: MlpStack3BoundaryMetalStatsV1::default(),
        last_gdn_core_receipt: None,
    }
}

fn built_stack(hidden: usize) -> Result<Stack3Built, Stack3BuildFailure> {
    Ok(Stack3Built {
        ledger: stack_ledger(hidden, GdnCoreProfileV1::LegacyFourDispatch, 39, 36),
        quantization: [quantization(true, false); 3],
        counters: stack_counters(),
    })
}

fn schedule(hidden: usize) -> ScheduleAnswers {
    ScheduleAnswers {
        initial_stack: built_stack(hidden),
        boundaries: (0..5)
            .map(|_| {
                Ok(BoundaryBuilt {
                    ledger: boundary_ledger(hidden, GdnCoreProfileV1::LegacyFourDispatch, 44, 40),
                    quantization: [quantization(true, false); 3],
                    counters: boundary_counters(),
                })
            })
            .collect(),
    }
}

fn built_mlps(layers: usize, hidden: usize) -> Vec<Result<MlpBlockBufferLedger, MlpBuildFailure>> {
    (0..layers).map(|_| Ok(mlp_ledger(hidden))).collect()
}

/// Where the outside work fails next.
#[derive(Clone, Copy, PartialEq, Eq)]
enum Fault {
    Never,
    Gdn,
    LinearLayer,
    Reference,
    Stack(usize),
    InitialStack,
    Boundary(usize),
    AfterFinalMlp,
    AfterLayer(usize),
    Tail,
    Head,
    Rerank,
    Seed,
    PreparedSeed,
    ShortRow,
}

/// A block of the accelerator that hands an output row to the host.
#[derive(Clone, Copy, Debug, PartialEq, Eq)]
enum Site {
    Gdn,
    LinearLayer,
    LinearLayerStack3,
    MlpStack3Boundary,
    TailHead,
}

/// Whether a tensor of the work stands at an address.
fn stands_at(work: &Work, address: usize) -> bool {
    let tensors: Vec<&Tensor> = match work {
        Work::InputNorm { hidden }
        | Work::Reference { hidden }
        | Work::LinearLayer { hidden }
        | Work::Stack { hidden, .. }
        | Work::InitialStack { hidden }
        | Work::FullResidual { hidden, .. }
        | Work::Finished { hidden } => vec![hidden],
        Work::Residual { hidden, attention } => vec![hidden, attention],
        _ => Vec::new(),
    };
    tensors
        .iter()
        .any(|tensor| tensor.elements().as_ptr() as usize == address)
}

struct Rig {
    model: GeneralQwen35,
    /// The output row that is on its way, and where it stands.
    handed: Option<(Site, usize)>,
    /// The output rows that arrived without being copied.
    kept: Vec<Site>,
    kv_position: usize,
    fault: Fault,
    gdn: GdnMetalStats,
    linear: Vec<LinearLayerMetalStats>,
    stacks: Vec<LinearLayerStack3MetalStats>,
    boundaries: Vec<MlpStack3BoundaryMetalStatsV1>,
    tail: TailMlpHeadMetalStatsV1,
}

fn zeros(like: &Tensor) -> Tensor {
    Tensor::from_f32(like.shape().clone(), vec![0; like.elements().len()]).unwrap()
}

fn row(elements: &[u32]) -> Tensor {
    Tensor::from_f32(vec![1, elements.len()], elements.to_vec()).unwrap()
}

impl Rig {
    fn of(model: GeneralQwen35) -> Rig {
        let layers = model.config.text.n_layers;
        Rig {
            model,
            handed: None,
            kept: Vec::new(),
            kv_position: 0,
            fault: Fault::Never,
            gdn: GdnMetalStats::default(),
            linear: vec![LinearLayerMetalStats::default(); layers],
            stacks: vec![LinearLayerStack3MetalStats::default(); 6],
            boundaries: vec![MlpStack3BoundaryMetalStatsV1::default(); 5],
            tail: TailMlpHeadMetalStatsV1::default(),
        }
    }

    fn cpu(sizes: &Sizes, max_context: usize) -> Rig {
        let config = config(sizes);
        let tensors = tensors(&config);
        Rig::of(GeneralQwen35::from_weights(config, tensors, Device::Cpu, max_context).unwrap())
    }

    fn gdn() -> Rig {
        let config = config(&WIDE);
        let weights = weights(&config);
        Rig::of(
            GeneralQwen35::from_weights_with_metal_w8_gdn_layer(
                config,
                weights,
                Device::Cpu,
                16,
                0,
                Ok(GdnMetalStats::default()),
            )
            .unwrap(),
        )
    }

    fn linear_layer() -> Rig {
        let config = config(&WIDE);
        let weights = weights(&config);
        Rig::of(
            GeneralQwen35::from_weights_with_metal_w8_linear_layer(
                config,
                weights,
                Device::Cpu,
                16,
                0,
                Ok(LinearLayerBuilt {
                    ledger: linear_ledger(64),
                    quantization: quantization(false, false),
                    stats: LinearLayerMetalStats::default(),
                }),
            )
            .unwrap(),
        )
    }

    fn precise_linear_layer() -> Rig {
        let config = config(&WIDE);
        let weights = weights(&config);
        Rig::of(
            GeneralQwen35::from_weights_with_metal_w8_linear_layer_precision_v2(
                config,
                weights,
                Device::Cpu,
                16,
                0,
                Qwen35MetalW8LinearLayerPrecisionProfile::GdnOutG32V2,
                Ok(LinearLayerBuilt {
                    ledger: linear_ledger(64),
                    quantization: quantization(true, false),
                    stats: LinearLayerMetalStats::default(),
                }),
            )
            .unwrap(),
        )
    }

    fn reference() -> Rig {
        let config = config(&WIDE);
        let weights = weights(&config);
        Rig::of(
            GeneralQwen35::from_weights_with_packed_w8_linear_layer_reference(
                config,
                weights,
                Device::Cpu,
                16,
                0,
                Ok(quantization(false, false)),
            )
            .unwrap(),
        )
    }

    fn all_linear() -> Rig {
        let config = config(&DEEP);
        let weights = weights(&config);
        let built = (0..24)
            .map(|_| {
                Ok(LinearLayerBuilt {
                    ledger: linear_ledger(64),
                    quantization: quantization(true, false),
                    stats: LinearLayerMetalStats::default(),
                })
            })
            .collect();
        Rig::of(
            GeneralQwen35::from_weights_with_metal_w8_all_linear_layers_precision_v2(
                config,
                weights,
                Device::Cpu,
                16,
                Qwen35MetalW8LinearLayerPrecisionProfile::GdnOutG32V2,
                built,
                built_mlps(24, 64),
            )
            .unwrap(),
        )
    }

    fn one_stack() -> Rig {
        let config = config(&DEEP);
        let weights = weights(&config);
        Rig::of(
            GeneralQwen35::from_weights_with_metal_w8_linear_layer_stack3_v1(
                config,
                weights,
                Device::Cpu,
                16,
                0,
                CHAINS,
                vec![built_stack(64)],
            )
            .unwrap(),
        )
    }

    fn stacks() -> Rig {
        let config = config(&DEEP);
        let weights = weights(&config);
        Rig::of(
            GeneralQwen35::from_weights_with_metal_w8_all_linear_layer_stacks_v1(
                config,
                weights,
                Device::Cpu,
                16,
                CHAINS,
                (0..6).map(|_| built_stack(64)).collect(),
                built_mlps(24, 64),
            )
            .unwrap(),
        )
    }

    fn stacks_and_head() -> Rig {
        let config = config(&DEEP);
        let weights = weights(&config);
        Rig::of(
            GeneralQwen35::from_weights_with_metal_w8_all_linear_layer_stacks_and_lm_head_v2(
                config,
                weights,
                Device::Cpu,
                16,
                CHAINS,
                (0..6).map(|_| built_stack(64)).collect(),
                Ok(head_ledger(64, 5000)),
                built_mlps(24, 64),
            )
            .unwrap(),
        )
    }

    fn boundary_body() -> Rig {
        let config = config(&DEEP);
        let weights = weights(&config);
        Rig::of(
            GeneralQwen35::from_weights_with_metal_w8_mlp_stack3_boundary_body_v1(
                config,
                weights,
                Device::Cpu,
                16,
                CHAINS,
                schedule(64),
                Ok(mlp_ledger(64)),
            )
            .unwrap(),
        )
    }

    fn tail_head() -> Rig {
        let config = config(&DEEP);
        let weights = weights(&config);
        Rig::of(
            GeneralQwen35::from_weights_with_metal_w8_mlp_stack3_boundary_tail_head_v1(
                config,
                weights,
                Device::Cpu,
                16,
                CHAINS,
                schedule(64),
                Ok(TailBuilt {
                    ledger: tail_ledger(64, 7000),
                    stats: TailMlpHeadMetalStatsV1::default(),
                }),
            )
            .unwrap(),
        )
    }

    fn body_layers(layers: &[usize]) -> Result<Rig, Error> {
        let config = config(&WIDE);
        let weights = weights(&config);
        GeneralQwen35::from_weights_with_metal_w8_body_layers(
            config,
            weights,
            Device::Cpu,
            16,
            layers.to_vec(),
            vec![Ok(()), Ok(()), Ok(()), Ok(())],
        )
        .map(Rig::of)
    }

    fn mlp_layers(layers: &[usize]) -> Result<Rig, Error> {
        let config = config(&WIDE);
        let weights = weights(&config);
        GeneralQwen35::from_weights_with_metal_w8_mlp_block_layers(
            config,
            weights,
            Device::Cpu,
            16,
            layers.to_vec(),
            built_mlps(4, 64),
        )
        .map(Rig::of)
    }

    fn position(&self) -> usize {
        self.model.state_ref().position()
    }

    fn hand(
        &mut self,
        site: Site,
        failed: bool,
        mut output: Vec<u32>,
    ) -> Result<Vec<u32>, String> {
        if failed {
            return Err("injected".to_string());
        }
        if self.take_fault(Fault::ShortRow) {
            output.pop();
            return Ok(output);
        }
        self.handed = Some((site, output.as_ptr() as usize));
        Ok(output)
    }

    fn seeded(&mut self, fault: Fault) -> Result<(), String> {
        if self.take_fault(fault) {
            Err("injected".to_string())
        } else {
            Ok(())
        }
    }

    fn take_fault(&mut self, fault: Fault) -> bool {
        let hit = self.fault == fault;
        if hit {
            self.fault = Fault::Never;
        }
        hit
    }

    fn embed(&self, tokens: &[u32]) -> Tensor {
        let hidden = self.model.config.text.hidden_size;
        let table = self.model.weights.token_embedding.elements();
        let mut elements = Vec::new();
        for token in tokens {
            let start = *token as usize * hidden;
            elements.extend_from_slice(&table[start..start + hidden]);
        }
        Tensor::from_f32(vec![tokens.len(), hidden], elements).unwrap()
    }

    fn recurrent_state(&self, layer: usize, end: usize) -> Qwen35LinearState {
        let text = &self.model.config.text;
        let filled = |shape: Vec<usize>, value: f32| {
            let count = shape.iter().product();
            Some(Tensor::from_f32(shape, vec![value.to_bits(); count]).unwrap())
        };
        let salt = (100 * layer + end) as f32;
        Qwen35LinearState {
            query_conv: filled(vec![4, 2 * text.linear_key_head_dim], salt),
            key_conv: filled(vec![4, 2 * text.linear_key_head_dim], salt + 0.25),
            value_conv: filled(vec![4, 2 * text.linear_value_head_dim], salt + 0.5),
            recurrent: filled(
                vec![2, text.linear_key_head_dim, text.linear_value_head_dim],
                salt + 0.75,
            ),
        }
    }

    fn run_linear(&mut self, layer: usize, input: &Tensor) -> DecodeReport<LinearLayerMetalStats> {
        let failed = self.take_fault(Fault::LinearLayer);
        let bytes = 4 * self.model.config.text.hidden_size;
        let stats = &mut self.linear[layer];
        stats.decode_calls += 1;
        stats.command_buffers += 1;
        stats.compute_encoders += 1;
        stats.commits += 1;
        stats.waits += 1;
        stats.host_to_device_bytes += bytes;
        if failed {
            stats.failed_decodes += 1;
        } else {
            stats.successful_decodes += 1;
            stats.device_to_host_bytes += bytes;
            stats.committed_state_version += 1;
        }
        let stats = *stats;
        DecodeReport {
            output: self.hand(Site::LinearLayer, failed, input.elements().clone()),
            elapsed_ns: 7,
            stats,
        }
    }

    fn run_stack(
        &mut self,
        stack: usize,
        failed: bool,
        input: &Tensor,
    ) -> DecodeReport<Stack3Counters<LinearLayerStack3MetalStats>> {
        let bytes = 4 * self.model.config.text.hidden_size;
        let stats = &mut self.stacks[stack];
        stats.decode_calls += 1;
        stats.command_buffers += 1;
        stats.compute_encoders += 3;
        stats.commits += 1;
        stats.waits += 1;
        stats.host_to_device_bytes += bytes;
        stats.last_state_commit_mask = if failed { 0 } else { 0b111 };
        if failed {
            stats.failed_decodes += 1;
        } else {
            stats.successful_decodes += 1;
            stats.device_to_host_bytes += bytes;
            stats.state_commits += 3;
            stats.committed_stack_version += 1;
        }
        let execution = *stats;
        DecodeReport {
            output: self.hand(Site::LinearLayerStack3, failed, input.elements().clone()),
            elapsed_ns: 7,
            stats: Stack3Counters {
                execution,
                last_gdn_core_receipt: None,
            },
        }
    }

    fn run_boundary(
        &mut self,
        boundary: usize,
        input: &Tensor,
    ) -> DecodeReport<Stack3Counters<MlpStack3BoundaryMetalStatsV1>> {
        let failed = self.take_fault(Fault::Boundary(boundary));
        let bytes = 4 * self.model.config.text.hidden_size;
        let stats = &mut self.boundaries[boundary];
        stats.decode_calls += 1;
        stats.command_buffers += 1;
        stats.compute_encoders += 4;
        stats.commits += 1;
        stats.waits += 1;
        stats.host_to_device_bytes += bytes;
        stats.last_state_commit_mask = if failed { 0 } else { 0b111 };
        if failed {
            stats.failed_decodes += 1;
        } else {
            stats.successful_decodes += 1;
            stats.device_to_host_bytes += bytes;
            stats.state_commits += 3;
            stats.committed_stack_version += 1;
        }
        let execution = *stats;
        DecodeReport {
            output: self.hand(Site::MlpStack3Boundary, failed, input.elements().clone()),
            elapsed_ns: 7,
            stats: Stack3Counters {
                execution,
                last_gdn_core_receipt: None,
            },
        }
    }

    fn step(&mut self, tokens: &[u32], run: ForwardRun, behind_final: bool) -> Result<ForwardRun, Error> {
        let layer = run.layer_index;
        let end = run.frame.start_pos as usize + run.frame.sequence_length;
        match &run.work {
            Work::Embed => {
                let embedded = self.embed(tokens);
                self.model.on_embedding(run, Ok(embedded))
            }
            Work::InputNorm { hidden } => {
                let normed = hidden.copy();
                self.model.on_input_norm(run, Ok(normed))
            }
            Work::Reference { hidden } => {
                let failed = self.take_fault(Fault::Reference);
                let output = if failed {
                    Err("injected".to_string())
                } else {
                    let state = self.recurrent_state(layer, end);
                    let state = gdn_decode_state_from_cpu(&self.model.config.text, &state).unwrap();
                    Ok((hidden.elements().clone(), state))
                };
                self.model.on_reference(run, output, 7)
            }
            Work::LinearLayer { hidden } => {
                let input = hidden.copy();
                let report = self.run_linear(layer, &input);
                self.model.on_linear_layer(run, report)
            }
            Work::Stack { stack, hidden } => {
                let stack = *stack;
                let input = hidden.copy();
                let failed = self.take_fault(Fault::Stack(stack));
                let report = self.run_stack(stack, failed, &input);
                self.model.on_stack(run, report)
            }
            Work::InitialStack { hidden } => {
                let input = hidden.copy();
                let failed = self.take_fault(Fault::InitialStack);
                let report = self.run_stack(0, failed, &input);
                self.model.on_stack(run, report)
            }
            Work::FullResidual { hidden, .. } => {
                let residual = hidden.copy();
                self.model.on_full_residual(run, Ok(residual))
            }
            Work::Boundary { boundary, residual } => {
                let input = residual.copy();
                let report = self.run_boundary(*boundary, &input);
                self.model.on_boundary(run, report)
            }
            Work::LinearAttention { normed, .. } => {
                let attention = zeros(normed);
                let state = self.recurrent_state(layer, end);
                self.model.on_linear_attention(run, Ok((attention, state)))
            }
            Work::GdnDecode { normed, .. } => {
                let failed = self.take_fault(Fault::Gdn);
                if !failed {
                    self.gdn.decode_calls += 1;
                    self.gdn.command_buffers += 1;
                    self.gdn.waits += 1;
                    self.gdn.committed_state_version += 1;
                }
                let row = zeros(normed).into_elements();
                let report = DecodeReport {
                    output: self.hand(Site::Gdn, failed, row),
                    elapsed_ns: 7,
                    stats: self.gdn,
                };
                self.model.on_gdn_decode(run, report)
            }
            Work::FullAttention { normed, .. } => {
                let attention = zeros(normed);
                self.model.on_full_attention(run, Ok(attention))
            }
            Work::PrepareSeed { .. } => {
                let prepared = self.seeded(Fault::PreparedSeed);
                self.model.on_prepared_seed(run, prepared)
            }
            Work::SeedBlock { .. } => {
                let seeded = self.seeded(Fault::Seed);
                match self.model.lane {
                    Lane::Gdn(_) => self.model.on_gdn_seed(run, seeded, self.gdn),
                    _ => self.model.on_linear_seed(run, seeded, self.linear[layer]),
                }
            }
            Work::SeedStack { stack, .. } => {
                let counters = Stack3Counters {
                    execution: self.stacks[*stack],
                    last_gdn_core_receipt: None,
                };
                let seeded = self.seeded(Fault::Seed);
                self.model.on_stack_seed(run, seeded, counters)
            }
            Work::SeedScheduled { transaction, .. } => {
                let transaction = *transaction;
                let seeded = self.seeded(Fault::Seed);
                match transaction {
                    Transaction::InitialStack => {
                        self.model.on_stack_seed(run, seeded, stack_counters())
                    }
                    Transaction::Boundary(_) => {
                        self.model.on_boundary_seed(run, seeded, boundary_counters())
                    }
                }
            }
            Work::Residual { hidden, .. } => {
                let sum = (hidden.copy(), hidden.copy());
                self.model.on_residual(run, Ok(sum))
            }
            Work::Mlp { normed, .. } => {
                let mlp = zeros(normed);
                self.model.on_mlp(run, Ok(mlp))
            }
            Work::MlpBlock { normed, .. } => {
                let mlp = zeros(normed).into_elements();
                self.model.on_mlp_block(run, Ok(mlp), 7)
            }
            Work::GateUp { .. } => {
                let halves = vec![0; 2 * self.model.config.text.intermediate_size];
                self.model.on_gate_up(run, Ok(halves), 7)
            }
            Work::ActivateDown { residual, .. } => {
                let mlp = zeros(residual);
                self.model.on_mlp(run, Ok(mlp))
            }
            Work::AddMlp { residual, .. } => {
                let sum = residual.copy();
                if behind_final && self.take_fault(Fault::AfterFinalMlp) {
                    return self
                        .model
                        .on_add_mlp(run, Err("injected behind the final MLP".to_string()));
                }
                if self.take_fault(Fault::AfterLayer(layer)) {
                    return self
                        .model
                        .on_add_mlp(run, Err(format!("injected after layer {layer}")));
                }
                self.model.on_add_mlp(run, Ok(sum))
            }
            Work::FinalNorm { residual } => {
                let normed = residual.copy();
                self.model.on_final_norm(run, Ok(normed))
            }
            Work::FinalMlp { normed, .. } => {
                let mlp = zeros(normed).into_elements();
                self.model.on_final_mlp(run, Ok(mlp), 7)
            }
            Work::Finished { .. } => Ok(run),
        }
    }

    fn forward_hidden(&mut self, tokens: &[u32], start_pos: u32) -> Result<Tensor, Error> {
        let mut run = self
            .model
            .forward_hidden(tokens, start_pos, self.kv_position)?;
        let mut behind_final = false;
        let mut steps_left = 10 * (self.model.config.text.n_layers + 1);
        loop {
            if let Work::Finished { hidden } = run.work {
                self.kv_position += tokens.len();
                return Ok(hidden);
            }
            let is_final = matches!(run.work, Work::FinalMlp { .. });
            assert!(steps_left > 0, "a forward has to end");
            steps_left -= 1;
            run = self.step(tokens, run, behind_final)?;
            if let Some((site, address)) = self.handed.take() {
                assert!(stands_at(&run.work, address), "{site:?} copied its row");
                self.kept.push(site);
            }
            behind_final = behind_final || is_final;
        }
    }

    fn project(&self, hidden: &Tensor) -> Tensor {
        let text = &self.model.config.text;
        let table = self.model.weights.token_embedding.elements();
        let width = text.hidden_size;
        let rows = hidden.elements().len() / width;
        let mut logits = Vec::new();
        for r in 0..rows {
            for token in 0..text.vocab_size {
                let mut sum = 0.0f32;
                for c in 0..width {
                    sum += f32::from_bits(hidden.elements()[r * width + c])
                        * f32::from_bits(table[token * width + c]);
                }
                logits.push(sum.to_bits());
            }
        }
        Tensor::from_f32(vec![rows, text.vocab_size], logits).unwrap()
    }

    fn forward(&mut self, tokens: &[u32], start_pos: u32) -> Result<Tensor, Error> {
        let hidden = self.forward_hidden(tokens, start_pos)?;
        let logits = match self.model.forward_route(start_pos) {
            TokenRoute::Tail => {
                let stage = TailStage::Projection;
                self.model.check_tail_input(&hidden, stage)?;
                let output = self.run_tail(&hidden);
                let output = self
                    .model
                    .run_boundary_tail_head_v1(output, 5, self.tail, stage)?;
                self.keep_tail(&output.normalized_hidden);
                self.project(&output.normalized_hidden)
            }
            _ => self.project(&hidden),
        };
        self.model.finish_forward(Ok(logits))
    }

    /// The four best tokens of a row, the worst of them first.
    fn candidates(&self, hidden: &Tensor) -> [u32; 4] {
        let logits = self.project(hidden);
        let mut tokens: Vec<u32> = (0..self.model.vocab_size() as u32).collect();
        tokens.sort_by(|a, b| {
            let score = |token: &u32| f32::from_bits(logits.elements()[*token as usize]);
            score(b).total_cmp(&score(a))
        });
        [tokens[3], tokens[2], tokens[1], tokens[0]]
    }

    fn scores(&mut self, hidden: &Tensor, candidates: [u32; 4]) -> [u32; 4] {
        if self.take_fault(Fault::Rerank) {
            return [f32::NAN.to_bits(); 4];
        }
        let logits = self.project(hidden);
        candidates.map(|token| logits.elements()[token as usize])
    }

    fn head_token(&mut self, hidden: Tensor, phase: Qwen35MetalW8LmHeadPhase) -> Result<u32, Error> {
        let row = self.model.check_head_input(Ok(hidden), phase)?;
        let found = if self.take_fault(Fault::Head) {
            Err("injected".to_string())
        } else {
            Ok(self.candidates(&row))
        };
        let candidates = self.model.take_candidates(found, phase)?;
        let scores = self.scores(&row, candidates);
        self.model
            .metal_w8_reranked_token(&row, candidates, scores, phase, 5, 3)
    }

    fn prefill_for_generation(&mut self, tokens: &[u32]) -> Result<Tensor, Error> {
        self.model.check_input(false)?;
        let hidden = self.forward_hidden(tokens, 0)?;
        let last = self.model.last_prefill_row(&hidden)?;
        let logits = self.project(&last);
        self.model.finish_prefill(Ok(logits))
    }

    fn prefill_token(&mut self, tokens: &[u32]) -> Result<u32, Error> {
        match self.model.prefill_route() {
            TokenRoute::Head => {
                let hidden = self.forward_hidden(tokens, 0)?;
                let last = self.model.last_head_row(&hidden)?;
                self.head_token(last, Qwen35MetalW8LmHeadPhase::Prefill)
            }
            _ => {
                let logits = self.prefill_for_generation(tokens)?;
                argmax_f32_row(&logits, self.model.vocab_size())
            }
        }
    }

    fn run_tail(&mut self, residual: &Tensor) -> Result<TailOutput, String> {
        let failed = self.take_fault(Fault::Tail);
        let hidden = self.model.config.text.hidden_size;
        self.tail.decode_calls += 1;
        self.tail.command_buffers += 1;
        self.tail.compute_encoders += 1;
        self.tail.kernel_dispatches += 8;
        self.tail.commits += 1;
        self.tail.waits += 1;
        self.tail.host_to_device_bytes += 4 * hidden;
        if failed {
            self.tail.failed_decodes += 1;
            self.tail.terminal_error = true;
            return Err("injected".to_string());
        }
        self.tail.successful_decodes += 1;
        self.tail.device_to_host_bytes += 4 * hidden + 16;
        self.tail.output_commits += 2;
        self.tail.last_output_commit_mask = 0b11;
        let candidate_token_ids = self.candidates(residual);
        let normalized_hidden = self.hand(Site::TailHead, false, residual.elements().clone())?;
        Ok(TailOutput {
            normalized_hidden,
            candidate_token_ids,
        })
    }

    fn keep_tail(&mut self, normalized: &Tensor) {
        if let Some((site, address)) = self.handed.take() {
            assert_eq!(normalized.elements().as_ptr() as usize, address);
            self.kept.push(site);
        }
    }

    fn decode_token(&mut self, token: u32, position: u32) -> Result<u32, Error> {
        let hidden = self.forward_hidden(&[token], position)?;
        match self.model.decode_route() {
            TokenRoute::Logits => {
                let logits = self.project(&hidden);
                let logits = self.model.finish_forward(Ok(logits))?;
                argmax_f32_row(&logits, self.model.vocab_size())
            }
            TokenRoute::Head => self.head_token(hidden, Qwen35MetalW8LmHeadPhase::Decode),
            TokenRoute::Tail => {
                let stage = TailStage::Decode;
                self.model.check_tail_input(&hidden, stage)?;
                let output = self.run_tail(&hidden);
                let output = self
                    .model
                    .run_boundary_tail_head_v1(output, 5, self.tail, stage)?;
                self.keep_tail(&output.normalized_hidden);
                let scores = self.scores(&output.normalized_hidden, output.candidates);
                self.model.finish_tail_decode(&output, scores, 3)
            }
        }
    }

    fn teacher_step(&mut self, token: u32, position: u32) -> Result<Qwen35MetalTeacherStep, Error> {
        let route = self.model.teacher_route()?;
        let hidden = self.forward_hidden(&[token], position)?;
        match route {
            TokenRoute::Tail => {
                let stage = TailStage::Teacher;
                self.model.check_tail_input(&hidden, stage)?;
                let output = self.run_tail(&hidden);
                let output = self
                    .model
                    .run_boundary_tail_head_v1(output, 5, self.tail, stage)?;
                self.keep_tail(&output.normalized_hidden);
                let logits = self.project(&output.normalized_hidden);
                let scores = self.scores(&output.normalized_hidden, output.candidates);
                self.model
                    .finish_tail_teacher(&output, Ok(logits), scores, 3)
            }
            _ => {
                let logits = self.project(&hidden);
                let (row, cpu_token) = self.model.check_teacher_input(Ok(hidden), Ok(logits))?;
                let found = if self.take_fault(Fault::Head) {
                    Err("injected".to_string())
                } else {
                    Ok(self.candidates(&row))
                };
                let candidates = self.model.take_teacher_candidates(found)?;
                let scores = self.scores(&row, candidates);
                self.model
                    .finish_teacher_head(cpu_token, &row, candidates, scores, 5, 3)
            }
        }
    }

    fn generate(&mut self, tokens: &[u32], budget: usize) -> Result<Vec<u32>, Error> {
        self.model.validate_generation_budget(tokens.len(), budget)?;
        let mut generated = Vec::new();
        if budget == 0 {
            return Ok(generated);
        }
        generated.push(self.prefill_token(tokens)?);
        while generated.len() < budget {
            let position = tokens.len() + generated.len() - 1;
            let token = generated[generated.len() - 1];
            generated.push(self.decode_token(token, position as u32)?);
        }
        Ok(generated)
    }

    fn reset(&mut self) {
        self.kv_position = 0;
        self.gdn = GdnMetalStats::default();
        self.linear = vec![LinearLayerMetalStats::default(); self.linear.len()];
        self.stacks = vec![LinearLayerStack3MetalStats::default(); 6];
        self.boundaries = vec![MlpStack3BoundaryMetalStatsV1::default(); 5];
        self.tail = TailMlpHeadMetalStatsV1::default();
        let schedule = || ScheduleResets {
            initial_stack: (Ok(()), stack_counters()),
            boundaries: (0..5).map(|_| (Ok(()), boundary_counters())).collect(),
        };
        let answers = match &self.model.lane {
            Lane::Cpu | Lane::PackedReference(_) => LaneResets::Nothing,
            Lane::Gdn(_) => LaneResets::Gdn {
                outcome: Ok(()),
                stats: self.gdn,
            },
            Lane::LinearLayer(_) => LaneResets::LinearLayer {
                outcome: Ok(()),
                stats: LinearLayerMetalStats::default(),
            },
            Lane::AllLinear(lane) => LaneResets::AllLinear {
                outcomes: lane
                    .layers
                    .iter()
                    .map(|_| (Ok(()), LinearLayerMetalStats::default()))
                    .collect(),
            },
            Lane::Stacks(lane) => LaneResets::Stacks {
                outcomes: lane
                    .stacks
                    .iter()
                    .map(|_| (Ok(()), stack_counters()))
                    .collect(),
            },
            Lane::BoundaryBody(_) => LaneResets::BoundaryBody {
                outcomes: schedule(),
            },
            Lane::TailHead(_) => LaneResets::TailHead {
                outcomes: schedule(),
                tail: (Ok(()), TailMlpHeadMetalStatsV1::default()),
            },
        };
        self.model.reset(Ok(()), answers);
    }

    fn seed_of(&self, layer: usize) -> GdnDecodeState {
        gdn_decode_state_from_cpu(
            &self.model.config.text,
            self.model.state_ref().linear_state(layer).unwrap(),
        )
        .unwrap()
    }

    fn receipt(&self) -> Record {
        self.model.generation_path_receipt().unwrap()
    }
}

fn field<'a>(record: &'a Record, key: &str) -> &'a PathValue {
    for (name, value) in &record.fields {
        if *name == key {
            return value;
        }
    }
    panic!("no field {key}")
}

fn text(record: &Record, key: &str) -> &'static str {
    match field(record, key) {
        PathValue::Text(text) => text,
        other => panic!("{key} is {other:?}"),
    }
}

fn flag(record: &Record, key: &str) -> bool {
    match field(record, key) {
        PathValue::Flag(flag) => *flag,
        other => panic!("{key} is {other:?}"),
    }
}

fn number(record: &Record, key: &str) -> u128 {
    match field(record, key) {
        PathValue::Number(number) => *number,
        other => panic!("{key} is {other:?}"),
    }
}

fn part<'a>(record: &'a Record, key: &str) -> &'a Record {
    match field(record, key) {
        PathValue::Record(record) => record,
        other => panic!("{key} is {other:?}"),
    }
}

fn records<'a>(record: &'a Record, key: &str) -> Vec<&'a Record> {
    match field(record, key) {
        PathValue::List(items) => items
            .iter()
            .map(|item| match item {
                PathValue::Record(record) => record,
                other => panic!("{key} holds {other:?}"),
            })
            .collect(),
        other => panic!("{key} is {other:?}"),
    }
}

fn numbers(record: &Record, key: &str) -> Vec<u128> {
    match field(record, key) {
        PathValue::List(items) => items
            .iter()
            .map(|item| match item {
                PathValue::Number(number) => *number,
                other => panic!("{key} holds {other:?}"),
            })
            .collect(),
        other => panic!("{key} is {other:?}"),
    }
}

fn says(error: &Error, words: &[&str]) {
    let message = error.message();
    for word in words {
        assert!(message.contains(word), "{message:?} does not say {word:?}");
    }
}

#[test]
fn metal_w8_gdn_is_explicit_seeds_exactly_and_tracks_two_decode_steps() {
    let mut cpu = Rig::cpu(&WIDE, 16);
    assert!(cpu.model.metal_w8_gdn_stats().is_none());
    let mut diagnostic = Rig::gdn();

    let cpu_prefill = cpu.forward_hidden(&[1, 2], 0).unwrap();
    let diagnostic_prefill = diagnostic.forward_hidden(&[1, 2], 0).unwrap();
    assert_eq!(diagnostic_prefill, cpu_prefill);
    let prefill_stats = diagnostic.model.metal_w8_gdn_stats().unwrap();
    assert_eq!(prefill_stats.prefill_seed_calls, 1);
    assert_eq!(prefill_stats.decode_calls, 0);
    assert_eq!(prefill_stats.command_buffers, 0);
    assert_eq!(prefill_stats.waits, 0);

    for (token, position) in [(3, 2), (4, 3)] {
        let cpu_hidden = cpu.forward_hidden(&[token], position).unwrap();
        let diagnostic_hidden = diagnostic.forward_hidden(&[token], position).unwrap();
        assert_eq!(diagnostic_hidden, cpu_hidden);
    }
    let stats = diagnostic.model.metal_w8_gdn_stats().unwrap();
    assert_eq!(stats.layer_index, 0);
    assert_eq!(stats.prefill_seed_calls, 1);
    assert_eq!(stats.decode_calls, 2);
    assert_eq!(stats.command_buffers, 2);
    assert_eq!(stats.waits, 2);
    assert_eq!(stats.committed_state_version, 2);
    assert!(stats.block_elapsed_ns > 0);
}

#[test]
fn metal_w8_gdn_seed_is_the_state_of_the_cpu() {
    let mut diagnostic = Rig::gdn();
    let mut run = diagnostic.model.forward_hidden(&[1, 2], 0, 0).unwrap();
    loop {
        if let Work::SeedBlock { state, .. } = &run.work {
            assert_eq!(state, &diagnostic.seed_of(0));
            return;
        }
        run = diagnostic.step(&[1, 2], run, false).unwrap();
    }
}

#[test]
fn metal_w8_gdn_reset_clears_state_and_requires_a_new_prefill_seed() {
    let mut diagnostic = Rig::gdn();
    diagnostic.forward_hidden(&[1, 2], 0).unwrap();
    diagnostic.forward_hidden(&[3], 2).unwrap();
    assert_eq!(diagnostic.position(), 3);

    diagnostic.reset();

    assert_eq!(diagnostic.position(), 0);
    assert_eq!(
        diagnostic.model.metal_w8_gdn_stats().unwrap(),
        Qwen35MetalW8GdnStats {
            layer_index: 0,
            prefill_seed_calls: 0,
            decode_calls: 0,
            command_buffers: 0,
            waits: 0,
            committed_state_version: 0,
            block_elapsed_ns: 0,
        }
    );
    diagnostic.forward_hidden(&[1, 2], 0).unwrap();
    assert_eq!(
        diagnostic
            .model
            .metal_w8_gdn_stats()
            .unwrap()
            .prefill_seed_calls,
        1
    );
}

#[test]
fn metal_w8_gdn_error_is_terminal_and_does_not_commit_or_advance() {
    let mut cpu = Rig::cpu(&WIDE, 16);
    let mut diagnostic = Rig::gdn();
    cpu.forward_hidden(&[1, 2], 0).unwrap();
    diagnostic.forward_hidden(&[1, 2], 0).unwrap();
    let before_state = diagnostic.seed_of(0);
    let before_stats = diagnostic.model.metal_w8_gdn_stats().unwrap();
    diagnostic.fault = Fault::Gdn;

    let error = diagnostic.forward_hidden(&[3], 2).unwrap_err();

    says(&error, &["injected"]);
    assert_eq!(diagnostic.position(), 2);
    assert_eq!(diagnostic.model.metal_w8_gdn_stats().unwrap(), before_stats);
    assert_eq!(diagnostic.seed_of(0), before_state);

    let cpu_hidden = cpu.forward_hidden(&[3], 2).unwrap();
    let diagnostic_hidden = diagnostic.forward_hidden(&[3], 2).unwrap();
    assert_eq!(diagnostic_hidden, cpu_hidden);
    assert_eq!(diagnostic.position(), 3);
    assert_eq!(
        diagnostic.model.metal_w8_gdn_stats().unwrap().decode_calls,
        1
    );
}

#[test]
fn metal_w8_gdn_constructor_rejects_full_attention_selection() {
    let config = config(&WIDE);
    let weights = weights(&config);
    let error = GeneralQwen35::from_weights_with_metal_w8_gdn_layer(
        config,
        weights,
        Device::Cpu,
        16,
        3,
        Ok(GdnMetalStats::default()),
    )
    .err()
    .expect("a full-attention layer cannot silently become a GDN lane");
    says(&error, &["not linear attention"]);
}

#[test]
fn metal_w8_linear_layer_is_explicit_seeds_prefill_and_owns_two_decode_steps() {
    let mut cpu = Rig::cpu(&WIDE, 16);
    assert!(cpu.model.metal_w8_linear_layer_stats().is_none());
    let mut diagnostic = Rig::linear_layer();

    let cpu_prefill = cpu.forward_hidden(&[1, 2], 0).unwrap();
    let diagnostic_prefill = diagnostic.forward_hidden(&[1, 2], 0).unwrap();
    assert_eq!(diagnostic_prefill, cpu_prefill);
    let cpu_state_after_prefill = diagnostic.seed_of(0);
    let prefill = diagnostic.model.metal_w8_linear_layer_stats().unwrap();
    assert_eq!(prefill.prefill_seed_calls, 1);
    assert_eq!(prefill.decode_calls, 0);
    assert_eq!(prefill.command_buffers, 0);
    assert_eq!(prefill.waits, 0);

    for (token, position) in [(3, 2), (4, 3)] {
        let cpu_hidden = cpu.forward_hidden(&[token], position).unwrap();
        let diagnostic_hidden = diagnostic.forward_hidden(&[token], position).unwrap();
        assert_eq!(diagnostic_hidden, cpu_hidden);
    }

    assert_eq!(
        diagnostic.seed_of(0),
        cpu_state_after_prefill,
        "selected CPU layer state must remain frozen after Metal takes ownership"
    );
    let stats = diagnostic.model.metal_w8_linear_layer_stats().unwrap();
    assert_eq!(stats.layer_index, 0);
    assert_eq!(stats.prefill_seed_calls, 1);
    assert_eq!(stats.decode_calls, 2);
    assert_eq!(stats.successful_decodes, 2);
    assert_eq!(stats.failed_decodes, 0);
    assert_eq!(stats.command_buffers, 2);
    assert_eq!(stats.compute_encoders, 2);
    assert_eq!(stats.commits, 2);
    assert_eq!(stats.waits, 2);
    assert_eq!(stats.host_to_device_bytes, 2 * 64 * 4);
    assert_eq!(stats.device_to_host_bytes, 2 * 64 * 4);
    assert_eq!(stats.committed_state_version, 2);
    assert!(!stats.terminal_error);
    assert!(stats.block_elapsed_ns > 0);
    assert_eq!(
        diagnostic.model.metal_w8_linear_layer_buffer_ledger(),
        Some(linear_ledger(64))
    );
}

#[test]
fn metal_precision_v2_gdn_out_g32_is_explicit_and_reports_its_exact_mechanism() {
    let mut cpu = Rig::cpu(&WIDE, 16);
    assert!(cpu
        .model
        .metal_w8_linear_layer_precision_v2_stats()
        .is_none());
    assert!(Rig::linear_layer()
        .model
        .metal_w8_linear_layer_precision_v2_stats()
        .is_none());
    let mut diagnostic = Rig::precise_linear_layer();

    let cpu_prefill = cpu.forward_hidden(&[1, 2], 0).unwrap();
    let diagnostic_prefill = diagnostic.forward_hidden(&[1, 2], 0).unwrap();
    assert_eq!(diagnostic_prefill, cpu_prefill);
    let prefill = diagnostic
        .model
        .metal_w8_linear_layer_precision_v2_stats()
        .unwrap();
    assert_eq!(
        prefill.profile,
        Qwen35MetalW8LinearLayerPrecisionProfile::GdnOutG32V2
    );
    assert_eq!(prefill.profile.as_str(), "gdn-out-g32-v2");
    assert_eq!(prefill.mechanism, "metal-w8-linear-layer-precision-v2");
    assert_eq!(prefill.quantization.gdn_input_group_size, W8GroupSize::G64);
    assert_eq!(prefill.quantization.gdn_output_group_size, W8GroupSize::G32);
    assert_eq!(prefill.quantization.mlp_down_group_size, W8GroupSize::G64);
    assert_eq!(prefill.execution.prefill_seed_calls, 1);
    assert_eq!(prefill.execution.decode_calls, 0);

    let cpu_hidden = cpu.forward_hidden(&[3], 2).unwrap();
    let diagnostic_hidden = diagnostic.forward_hidden(&[3], 2).unwrap();
    assert_eq!(diagnostic_hidden, cpu_hidden);
    let decoded = diagnostic
        .model
        .metal_w8_linear_layer_precision_v2_stats()
        .unwrap();
    assert_eq!(decoded.execution.decode_calls, 1);
    assert_eq!(decoded.execution.successful_decodes, 1);
    assert_eq!(decoded.execution.command_buffers, 1);
    assert_eq!(decoded.execution.compute_encoders, 1);
    assert_eq!(decoded.execution.commits, 1);
    assert_eq!(decoded.execution.waits, 1);
    assert_eq!(decoded.execution.committed_state_version, 1);
    assert!(!decoded.execution.terminal_error);
}

#[test]
fn metal_precision_v2_all_linear_layers_hit_18_without_duplicate_mlp_selection() {
    let ordinary = Rig::cpu(&DEEP, 16);
    assert!(ordinary
        .model
        .metal_w8_all_linear_layers_precision_v2_stats()
        .is_none());
    assert!(ordinary.model.metal_w8_mlp_block_layer_stats().is_empty());
    let mut diagnostic = Rig::all_linear();
    let linear_indices: Vec<usize> = (0..24).filter(|layer| layer % 4 != 3).collect();
    let full_indices: Vec<usize> = (0..24).filter(|layer| layer % 4 == 3).collect();

    let initial = diagnostic
        .model
        .metal_w8_all_linear_layers_precision_v2_stats()
        .unwrap();
    assert_eq!(
        initial.profile,
        Qwen35MetalW8LinearLayerPrecisionProfile::GdnOutG32V2
    );
    assert_eq!(initial.mechanism, "metal-w8-all-linear-layers-precision-v2");
    assert_eq!(
        initial.full_attention_mlp_mechanism,
        "metal-w8-mlp-block-g64"
    );
    assert_eq!(initial.linear_layers.len(), 18);
    assert_eq!(
        initial
            .linear_layers
            .iter()
            .map(|stats| stats.execution.layer_index)
            .collect::<Vec<_>>(),
        linear_indices
    );
    assert_eq!(
        initial
            .full_attention_mlp_layers
            .iter()
            .map(|stats| stats.layer_index)
            .collect::<Vec<_>>(),
        full_indices
    );
    assert!(initial
        .linear_layers
        .iter()
        .all(|stats| stats.execution.decode_calls == 0
            && stats.quantization.gdn_input_group_size == W8GroupSize::G64
            && stats.quantization.gdn_output_group_size == W8GroupSize::G32
            && stats.quantization.mlp_gate_group_size == W8GroupSize::G64
            && stats.quantization.mlp_up_group_size == W8GroupSize::G64
            && stats.quantization.mlp_down_group_size == W8GroupSize::G64));
    assert!(initial
        .full_attention_mlp_layers
        .iter()
        .all(|stats| stats.decode_calls == 0));
    assert!(!initial.terminal_error);
    let receipt = diagnostic.receipt();
    assert_eq!(
        text(&receipt, "format"),
        "apxinf-qwen35-all-linear-layers-generation-path-v2"
    );
    assert_eq!(text(&receipt, "profile"), "gdn-out-g32-v2");
    assert_eq!(records(&receipt, "linear_layers").len(), 18);
    assert_eq!(
        number(records(&receipt, "linear_layers")[3], "layer_index"),
        4
    );
    assert_eq!(
        number(records(&receipt, "linear_layers")[3], "gdn_output_group_size"),
        32
    );
    assert_eq!(records(&receipt, "full_attention_mlp_layers").len(), 6);
    assert!(!flag(&receipt, "terminal_error"));
    let ledgers = diagnostic
        .model
        .metal_w8_all_linear_layers_precision_v2_buffer_ledgers()
        .unwrap();
    assert_eq!(ledgers.len(), 18);
    assert_eq!(
        ledgers
            .iter()
            .map(|entry| entry.layer_index)
            .collect::<Vec<_>>(),
        linear_indices
    );
    assert!(ledgers.iter().all(|entry| {
        entry.ledger.allocated_buffers == 32
            && entry.ledger.command_buffers_per_decode == 1
            && entry.ledger.compute_encoders_per_decode == 1
            && entry.ledger.commits_per_decode == 1
            && entry.ledger.waits_per_decode == 1
            && entry.ledger.state_host_transfer_bytes_per_decode == 0
    }));
    let aggregate = diagnostic
        .model
        .metal_w8_all_linear_layers_precision_v2_aggregate_ledger()
        .unwrap();
    assert_eq!(aggregate.scope, "resident-mtlbuffer-only");
    assert!(!aggregate.includes_lm_head);
    assert_eq!(aggregate.linear_layers.len(), 18);
    assert_eq!(aggregate.full_attention_mlp_layers.len(), 6);
    assert_eq!(aggregate.allocated_buffers, 624);
    assert_eq!(aggregate.shared_buffers, 468);
    assert_eq!(aggregate.private_buffers, 156);
    assert_eq!(aggregate.host_to_device_bytes_per_decode, 6_144);
    assert_eq!(aggregate.device_to_host_bytes_per_decode, 6_144);
    assert_eq!(aggregate.state_host_transfer_bytes_per_decode, 0);
    assert_eq!(aggregate.command_buffers_per_decode, 24);
    assert_eq!(aggregate.compute_encoders_per_decode, 36);
    assert_eq!(aggregate.commits_per_decode, 24);
    assert_eq!(aggregate.waits_per_decode, 24);
    assert_eq!(
        aggregate.total_persistent_mtlbuffer_bytes,
        aggregate
            .linear_layers
            .iter()
            .map(|entry| entry.ledger.total_persistent_bytes)
            .sum::<usize>()
            + aggregate
                .full_attention_mlp_layers
                .iter()
                .map(|entry| entry.ledger.total_persistent_bytes)
                .sum::<usize>()
    );

    diagnostic.forward_hidden(&[1, 2], 0).unwrap();
    let seeded = diagnostic
        .model
        .metal_w8_all_linear_layers_precision_v2_stats()
        .unwrap();
    assert!(seeded.linear_layers.iter().all(|stats| {
        stats.execution.prefill_seed_calls == 1 && stats.execution.decode_calls == 0
    }));
    assert!(seeded
        .full_attention_mlp_layers
        .iter()
        .all(|stats| stats.decode_calls == 0));

    let output = diagnostic.forward_hidden(&[3], 2).unwrap();
    assert_eq!(output.shape(), &vec![1, 64]);
    assert!(output
        .elements()
        .iter()
        .all(|bits| f32::from_bits(*bits).is_finite()));
    let decoded = diagnostic
        .model
        .metal_w8_all_linear_layers_precision_v2_stats()
        .unwrap();
    assert!(decoded.linear_layers.iter().all(|stats| {
        let execution = stats.execution;
        execution.prefill_seed_calls == 1
            && execution.decode_calls == 1
            && execution.successful_decodes == 1
            && execution.failed_decodes == 0
            && execution.command_buffers == 1
            && execution.compute_encoders == 1
            && execution.commits == 1
            && execution.waits == 1
            && execution.committed_state_version == 1
    }));
    assert!(decoded
        .full_attention_mlp_layers
        .iter()
        .all(|stats| stats.decode_calls == 1));
    assert!(!decoded.terminal_error);
}

#[test]
fn metal_stack3_v1_explicit_slice_runs_layers_zero_one_two_as_one_transaction() {
    let ordinary = Rig::cpu(&DEEP, 16);
    assert!(ordinary
        .model
        .metal_w8_linear_layer_stacks_v1_stats()
        .is_none());
    let mut diagnostic = Rig::one_stack();

    let initial = diagnostic
        .model
        .metal_w8_linear_layer_stacks_v1_stats()
        .unwrap();
    assert_eq!(initial.mechanism, "metal-w8-linear-layer-stack3-v1");
    assert_eq!(initial.stacks.len(), 1);
    assert_eq!(initial.stacks[0].layer_indices, [0, 1, 2]);
    assert_eq!(initial.stacks[0].prefill_seed_calls, [0, 0, 0]);
    assert_eq!(initial.stacks[0].execution.decode_calls, 0);
    assert_eq!(
        initial.stacks[0].intermediate_host_finite_checks_per_decode,
        0
    );
    assert_eq!(initial.stacks[0].final_output_finite_checks_per_decode, 1);
    assert!(initial.full_attention_mlp_layers.is_empty());
    assert!(!initial.terminal_error);

    diagnostic.forward_hidden(&[1, 2], 0).unwrap();
    let seeded = diagnostic
        .model
        .metal_w8_linear_layer_stacks_v1_stats()
        .unwrap();
    assert_eq!(seeded.stacks[0].prefill_seed_calls, [1, 1, 1]);
    assert_eq!(seeded.stacks[0].execution.decode_calls, 0);

    let output = diagnostic.forward_hidden(&[3], 2).unwrap();
    assert_eq!(output.shape(), &vec![1, 64]);
    let decoded = diagnostic
        .model
        .metal_w8_linear_layer_stacks_v1_stats()
        .unwrap();
    let execution = decoded.stacks[0].execution;
    assert_eq!(execution.decode_calls, 1);
    assert_eq!(execution.successful_decodes, 1);
    assert_eq!(execution.failed_decodes, 0);
    assert_eq!(execution.command_buffers, 1);
    assert_eq!(execution.compute_encoders, 3);
    assert_eq!(execution.commits, 1);
    assert_eq!(execution.waits, 1);
    assert_eq!(execution.state_commits, 3);
    assert_eq!(execution.last_state_commit_mask, 0b111);
    assert_eq!(execution.committed_stack_version, 1);
    assert!(!decoded.terminal_error);
}

#[test]
fn metal_mlp_stack3_boundary_body_v1_is_explicit_and_owns_the_exact_schedule() {
    let ordinary = Rig::cpu(&DEEP, 16);
    assert!(ordinary
        .model
        .metal_w8_mlp_stack3_boundary_body_v1_stats()
        .is_none());
    assert!(ordinary
        .model
        .metal_w8_mlp_stack3_boundary_body_v1_aggregate_ledger()
        .is_none());

    let diagnostic = Rig::boundary_body();

    let stats = diagnostic
        .model
        .metal_w8_mlp_stack3_boundary_body_v1_stats()
        .unwrap();
    assert_eq!(stats.mechanism, "metal-w8-mlp-stack3-boundary-body-v1");
    assert_eq!(stats.initial_stack.layer_indices, [0, 1, 2]);
    assert_eq!(
        stats
            .boundaries
            .iter()
            .map(|region| (region.boundary_mlp_layer_index, region.stack_layer_indices))
            .collect::<Vec<_>>(),
        vec![
            (3, [4, 5, 6]),
            (7, [8, 9, 10]),
            (11, [12, 13, 14]),
            (15, [16, 17, 18]),
            (19, [20, 21, 22]),
        ]
    );
    assert_eq!(stats.final_mlp.layer_index, 23);
    assert_eq!(stats.initial_stack.execution.decode_calls, 0);
    assert!(stats
        .boundaries
        .iter()
        .all(|region| region.execution.decode_calls == 0));
    assert_eq!(stats.final_mlp.decode_calls, 0);
    assert!(!stats.terminal_error);

    let model = &diagnostic.model;
    assert!(model.metal_w8_linear_layer_stacks_v1_stats().is_none());
    assert!(model.metal_w8_mlp_block_layer_stats().is_empty());
    assert!(model
        .metal_w8_all_linear_layers_precision_v2_stats()
        .is_none());
    assert!(model.metal_w8_lm_head_stats().is_none());
}

#[test]
fn metal_boundary_tail_head_v1_is_explicit_tied_only_and_owns_layer_23_exclusively() {
    let ordinary = Rig::cpu(&DEEP, 16);
    assert!(ordinary
        .model
        .metal_w8_mlp_stack3_boundary_tail_head_v1_stats()
        .is_none());

    let diagnostic = Rig::tail_head();
    let stats = diagnostic
        .model
        .metal_w8_mlp_stack3_boundary_tail_head_v1_stats()
        .unwrap();
    assert_eq!(stats.mechanism, "metal-w8-mlp-stack3-boundary-tail-head-v1");
    assert_eq!(stats.gdn_core_profile, GdnCoreProfileV1::LegacyFourDispatch);
    assert_eq!(stats.gdn_function_chain, CHAINS.legacy_four_dispatch);
    assert_eq!(
        stats.initial_stack.mechanism,
        "metal-w8-linear-layer-stack3-v1"
    );
    assert_eq!(stats.initial_stack.kernel_dispatches_per_decode, 39);
    assert_eq!(stats.initial_stack.explicit_buffer_barriers_per_decode, 36);
    assert!(stats.boundaries.iter().all(|region| {
        region.mechanism == "metal-w8-mlp-stack3-boundary-v1"
            && region.gdn_core_profile == GdnCoreProfileV1::LegacyFourDispatch
            && region.kernel_dispatches_per_decode == 44
            && region.explicit_buffer_barriers_per_decode == 40
    }));
    assert_eq!(stats.initial_stack.layer_indices, [0, 1, 2]);
    assert_eq!(stats.boundaries.len(), 5);
    assert_eq!(stats.tail_layer_index, 23);
    assert_eq!(stats.tail, Default::default());
    let model = &diagnostic.model;
    assert!(model.metal_w8_mlp_stack3_boundary_body_v1_stats().is_none());
    assert!(model.metal_w8_linear_layer_stacks_v1_stats().is_none());
    assert!(model.metal_w8_mlp_block_layer_stats().is_empty());
    assert!(model.metal_w8_lm_head_stats().is_none());

    let untied_config = config(&Sizes {
        tied: false,
        ..DEEP
    });
    let untied_weights = weights(&untied_config);
    let error = GeneralQwen35::from_weights_with_metal_w8_mlp_stack3_boundary_tail_head_v1(
        untied_config,
        untied_weights,
        Device::Cpu,
        16,
        CHAINS,
        schedule(64),
        Ok(TailBuilt {
            ledger: tail_ledger(64, 7000),
            stats: TailMlpHeadMetalStatsV1::default(),
        }),
    )
    .err()
    .expect("tail-head v1 must reject untied output weights");
    says(&error, &["tied word embeddings"]);
}

#[test]
fn metal_boundary_tail_head_v1_uses_cpu_prefill_then_two_exact_reranked_decode_steps() {
    let mut cpu = Rig::cpu(&DEEP, 16);
    let mut diagnostic = Rig::tail_head();

    let cpu_prefill = cpu.prefill_for_generation(&[1, 2]).unwrap();
    let diagnostic_prefill = diagnostic.prefill_for_generation(&[1, 2]).unwrap();
    assert_eq!(diagnostic_prefill, cpu_prefill);
    let seeded = diagnostic
        .model
        .metal_w8_mlp_stack3_boundary_tail_head_v1_stats()
        .unwrap();
    assert_eq!(seeded.prefill_body_calls, 1);
    assert_eq!(seeded.prefill_cpu_head_calls, 1);
    assert_eq!(seeded.initial_stack.prefill_seed_calls, [1, 1, 1]);
    assert!(seeded
        .boundaries
        .iter()
        .all(|region| region.prefill_seed_calls == [1, 1, 1]));
    assert_eq!(seeded.tail.decode_calls, 0);

    for (token, position) in [(3, 2), (4, 3)] {
        let cpu_hidden = cpu.forward_hidden(&[token], position).unwrap();
        let cpu_logits = cpu.project(&cpu_hidden);
        let expected = argmax_f32_row(&cpu_logits, cpu.model.vocab_size()).unwrap();
        let comparison = diagnostic.teacher_step(token, position).unwrap();
        assert_eq!(
            comparison.accelerator_candidate_elapsed_ns(),
            comparison.topk_elapsed_ns
        );
        assert!(comparison.accelerator_candidate_elapsed_ns() > 0);
        assert_eq!(comparison.cpu_token, expected);
        assert!(comparison.w8_candidates.contains(&comparison.cpu_token));
        assert_eq!(comparison.reranked_token, comparison.cpu_token);
        assert_eq!(comparison.argmaxes(), (expected, expected));
    }

    let decoded = diagnostic
        .model
        .metal_w8_mlp_stack3_boundary_tail_head_v1_stats()
        .unwrap();
    assert_eq!(decoded.initial_stack.execution.successful_decodes, 2);
    assert!(decoded
        .boundaries
        .iter()
        .all(|region| region.execution.successful_decodes == 2));
    assert_eq!(decoded.tail.decode_calls, 2);
    assert_eq!(decoded.tail.successful_decodes, 2);
    assert_eq!(decoded.tail.failed_decodes, 0);
    assert_eq!(decoded.decode_calls, 0);
    assert_eq!(decoded.teacher_calls, 2);
    assert!(!decoded.terminal_error);
}

#[test]
fn metal_boundary_tail_head_v1_generation_uses_cpu_prefill_and_exactly_two_tail_decodes() {
    let mut cpu = Rig::cpu(&DEEP, 16);
    let mut diagnostic = Rig::tail_head();

    let cpu_tokens = cpu.generate(&[1, 2], 3).unwrap();
    let diagnostic_tokens = diagnostic.generate(&[1, 2], 3).unwrap();

    assert_eq!(diagnostic_tokens, cpu_tokens);
    let stats = diagnostic
        .model
        .metal_w8_mlp_stack3_boundary_tail_head_v1_stats()
        .unwrap();
    assert_eq!(stats.prefill_body_calls, 1);
    assert_eq!(stats.prefill_cpu_head_calls, 1);
    assert_eq!(stats.decode_calls, 2);
    assert_eq!(stats.teacher_calls, 0);
    assert_eq!(stats.tail.decode_calls, 2);
    assert_eq!(stats.tail.successful_decodes, 2);
    assert_eq!(stats.tail.output_commits, 4);
    assert!(!stats.terminal_error);
    let receipt = diagnostic.receipt();
    assert_eq!(number(&receipt, "prefill_body_calls"), 1);
    assert_eq!(number(part(&receipt, "prefill_head"), "calls"), 1);
    assert_eq!(number(part(&receipt, "prefill_head"), "tail_transactions"), 0);
    assert_eq!(number(part(&receipt, "decode_head"), "calls"), 2);
    assert_eq!(number(part(&receipt, "decode_head"), "teacher_calls"), 0);
    assert_eq!(number(part(&receipt, "decode_head"), "tail_transactions"), 2);
    assert_eq!(
        number(part(&receipt, "initial_stack"), "last_state_commit_mask"),
        0b111
    );
    assert!(records(&receipt, "boundaries")
        .iter()
        .all(|region| number(region, "last_state_commit_mask") == 0b111));
}

#[test]
fn metal_boundary_tail_head_v1_reports_an_independent_exact_ledger_and_receipt() {
    let diagnostic = Rig::tail_head();

    let aggregate = diagnostic
        .model
        .metal_w8_mlp_stack3_boundary_tail_head_v1_aggregate_ledger()
        .unwrap();
    assert!(aggregate.includes_lm_head);
    assert_eq!(aggregate.initial_stack.layer_indices, [0, 1, 2]);
    assert_eq!(aggregate.boundaries.len(), 5);
    assert_eq!(aggregate.tail_layer_index, 23);
    assert_eq!(aggregate.allocated_buffers, 494);
    assert_eq!(aggregate.shared_buffers, 443);
    assert_eq!(aggregate.private_buffers, 51);
    assert_eq!(aggregate.host_to_device_bytes_per_decode, 7 * 64 * 4);
    assert_eq!(
        aggregate.device_to_host_bytes_per_decode,
        7 * 64 * 4 + 4 * std::mem::size_of::<u32>()
    );
    assert_eq!(aggregate.state_host_transfer_bytes_per_decode, 0);
    assert_eq!(aggregate.command_buffers_per_decode, 7);
    assert_eq!(aggregate.compute_encoders_per_decode, 24);
    assert_eq!(aggregate.kernel_dispatches_per_decode, 267);
    assert_eq!(aggregate.explicit_buffer_barriers_per_decode, 243);
    assert_eq!(
        aggregate.gdn_core_profile,
        GdnCoreProfileV1::LegacyFourDispatch
    );
    assert_eq!(aggregate.commits_per_decode, 7);
    assert_eq!(aggregate.waits_per_decode, 7);

    let receipt = diagnostic.receipt();
    assert_eq!(
        text(&receipt, "format"),
        "apxinf-qwen35-mlp-stack3-boundary-tail-head-generation-path-v1"
    );
    assert_eq!(
        text(&receipt, "mechanism"),
        "metal-w8-mlp-stack3-boundary-tail-head-v1"
    );
    assert_eq!(text(&receipt, "gdn_core_profile"), "legacy-four-dispatch");
    assert_eq!(
        text(&receipt, "gdn_function_chain"),
        CHAINS.legacy_four_dispatch
    );
    assert!(flag(&receipt, "cpu_prefill_all_24_layers"));
    assert_eq!(
        text(part(&receipt, "prefill_head"), "mechanism"),
        "cpu-f32-tied"
    );
    assert_eq!(
        text(part(&receipt, "decode_head"), "mechanism"),
        "metal-w8-tail-v1"
    );
    assert_eq!(number(part(&receipt, "decode_head"), "calls"), 0);
    let totals = part(&receipt, "aggregate");
    assert_eq!(number(totals, "allocated_buffers"), 494);
    assert_eq!(number(totals, "compute_encoders_per_decode"), 24);
    assert_eq!(number(totals, "kernel_dispatches_per_decode"), 267);
    assert_eq!(number(totals, "explicit_buffer_barriers_per_decode"), 243);
    assert!(!flag(&receipt, "terminal_error"));
    assert!(matches!(
        field(part(&receipt, "initial_stack"), "last_gdn_core_receipt"),
        PathValue::Null
    ));
}

#[test]
fn metal_boundary_tail_head_v1_body_fault_submits_zero_tail_work_and_reset_recovers() {
    let mut diagnostic = Rig::tail_head();
    diagnostic.forward_hidden(&[1, 2], 0).unwrap();
    diagnostic.fault = Fault::InitialStack;

    let error = diagnostic.decode_token(3, 2).unwrap_err();
    says(&error, &["terminal"]);
    let failed = diagnostic
        .model
        .metal_w8_mlp_stack3_boundary_tail_head_v1_stats()
        .unwrap();
    assert!(failed.terminal_error);
    assert_eq!(failed.initial_stack.execution.failed_decodes, 1);
    assert!(failed
        .boundaries
        .iter()
        .all(|region| region.execution.decode_calls == 0));
    assert_eq!(failed.tail.decode_calls, 0);
    let failed_receipt = diagnostic.receipt();
    assert_eq!(
        number(part(&failed_receipt, "initial_stack"), "last_state_commit_mask"),
        0
    );
    assert!(records(&failed_receipt, "boundaries")
        .iter()
        .all(|region| number(region, "last_state_commit_mask") == 0));

    let retry = diagnostic.decode_token(3, 2).unwrap_err();
    says(&retry, &["reset required"]);
    assert_eq!(
        diagnostic
            .model
            .metal_w8_mlp_stack3_boundary_tail_head_v1_stats()
            .unwrap(),
        failed,
        "terminal retry must submit no body or tail work"
    );

    diagnostic.reset();
    let reset = diagnostic
        .model
        .metal_w8_mlp_stack3_boundary_tail_head_v1_stats()
        .unwrap();
    assert!(!reset.terminal_error);
    assert_eq!(reset.initial_stack.execution, Default::default());
    assert!(reset
        .boundaries
        .iter()
        .all(|region| region.execution == Default::default()));
    assert_eq!(reset.tail, Default::default());
    let reset_receipt = diagnostic.receipt();
    assert_eq!(
        number(part(&reset_receipt, "initial_stack"), "last_state_commit_mask"),
        0
    );
    assert!(records(&reset_receipt, "boundaries")
        .iter()
        .all(|region| number(region, "last_state_commit_mask") == 0));
    diagnostic.forward_hidden(&[1, 2], 0).unwrap();
    diagnostic.decode_token(3, 2).unwrap();
    let recovered = diagnostic
        .model
        .metal_w8_mlp_stack3_boundary_tail_head_v1_stats()
        .unwrap();
    assert_eq!(recovered.tail.successful_decodes, 1);
    assert!(!recovered.terminal_error);
}

#[test]
fn metal_boundary_tail_head_v1_tail_post_execution_fault_is_terminal_and_retry_is_zero_work() {
    let mut diagnostic = Rig::tail_head();
    diagnostic.forward_hidden(&[1, 2], 0).unwrap();
    diagnostic.fault = Fault::Tail;

    let error = diagnostic.decode_token(3, 2).unwrap_err();
    says(&error, &["terminal"]);
    let failed = diagnostic
        .model
        .metal_w8_mlp_stack3_boundary_tail_head_v1_stats()
        .unwrap();
    assert!(failed.terminal_error);
    assert_eq!(failed.initial_stack.execution.successful_decodes, 1);
    assert!(failed
        .boundaries
        .iter()
        .all(|region| region.execution.successful_decodes == 1));
    assert_eq!(failed.tail.decode_calls, 1);
    assert_eq!(failed.tail.successful_decodes, 0);
    assert_eq!(failed.tail.failed_decodes, 1);
    assert_eq!(failed.tail.device_to_host_bytes, 0);
    assert_eq!(failed.tail.output_commits, 0);
    assert!(failed.tail.terminal_error);
    let failed_receipt = diagnostic.receipt();
    assert_eq!(
        number(part(&failed_receipt, "initial_stack"), "last_state_commit_mask"),
        0b111
    );
    assert!(records(&failed_receipt, "boundaries")
        .iter()
        .all(|region| number(region, "last_state_commit_mask") == 0b111));

    let retry = diagnostic.decode_token(3, 2).unwrap_err();
    says(&retry, &["reset required"]);
    assert_eq!(
        diagnostic
            .model
            .metal_w8_mlp_stack3_boundary_tail_head_v1_stats()
            .unwrap(),
        failed
    );

    diagnostic.reset();
    diagnostic.forward_hidden(&[1, 2], 0).unwrap();
    diagnostic.decode_token(3, 2).unwrap();
    let recovered = diagnostic
        .model
        .metal_w8_mlp_stack3_boundary_tail_head_v1_stats()
        .unwrap();
    assert_eq!(recovered.tail.successful_decodes, 1);
    assert!(!recovered.terminal_error);
}

#[test]
fn metal_boundary_tail_head_v1_malformed_tail_outputs_are_terminal_retry_zero_and_resettable() {
    for short in [false, true] {
        let mut diagnostic = Rig::tail_head();
        diagnostic.forward_hidden(&[1, 2], 0).unwrap();
        let error = if short {
            let hidden = diagnostic.forward_hidden(&[3], 2).unwrap();
            let stage = TailStage::Decode;
            diagnostic.model.check_tail_input(&hidden, stage).unwrap();
            diagnostic.tail.decode_calls += 1;
            diagnostic.tail.failed_decodes += 1;
            diagnostic.tail.terminal_error = true;
            diagnostic
                .model
                .run_boundary_tail_head_v1(
                    Ok(TailOutput {
                        normalized_hidden: vec![0; 63],
                        candidate_token_ids: [0, 1, 2, 3],
                    }),
                    5,
                    diagnostic.tail,
                    stage,
                )
                .unwrap_err()
        } else {
            diagnostic.fault = Fault::Tail;
            diagnostic.decode_token(3, 2).unwrap_err()
        };

        says(&error, &["terminal"]);
        let failed = diagnostic
            .model
            .metal_w8_mlp_stack3_boundary_tail_head_v1_stats()
            .unwrap();
        assert!(failed.terminal_error);
        assert_eq!(failed.tail.decode_calls, 1);
        assert_eq!(failed.tail.failed_decodes, 1);
        assert_eq!(failed.tail.device_to_host_bytes, 0);
        assert_eq!(failed.tail.output_commits, 0);
        assert!(failed.tail.terminal_error);

        let retry = diagnostic.decode_token(3, 2).unwrap_err();
        says(&retry, &["reset required"]);
        assert_eq!(
            diagnostic
                .model
                .metal_w8_mlp_stack3_boundary_tail_head_v1_stats()
                .unwrap(),
            failed
        );

        diagnostic.reset();
        diagnostic.forward_hidden(&[1, 2], 0).unwrap();
        diagnostic.decode_token(3, 2).unwrap();
        assert!(
            !diagnostic
                .model
                .metal_w8_mlp_stack3_boundary_tail_head_v1_stats()
                .unwrap()
                .terminal_error
        );
    }
}

#[test]
fn metal_boundary_tail_head_v1_rerank_fault_latches_after_tail_and_reset_recovers() {
    let mut diagnostic = Rig::tail_head();
    diagnostic.forward_hidden(&[1, 2], 0).unwrap();
    diagnostic.fault = Fault::Rerank;

    let error = diagnostic.decode_token(3, 2).unwrap_err();
    says(&error, &["rerank", "terminal"]);
    let failed = diagnostic
        .model
        .metal_w8_mlp_stack3_boundary_tail_head_v1_stats()
        .unwrap();
    assert!(failed.terminal_error);
    assert_eq!(failed.tail.decode_calls, 1);
    assert_eq!(failed.tail.successful_decodes, 1);
    assert_eq!(failed.tail.output_commits, 2);
    assert!(!failed.tail.terminal_error);
    assert_eq!(failed.decode_calls, 0);
    assert_eq!(failed.rerank_elapsed_ns, 0);

    let retry = diagnostic.decode_token(3, 2).unwrap_err();
    says(&retry, &["reset required"]);
    assert_eq!(
        diagnostic
            .model
            .metal_w8_mlp_stack3_boundary_tail_head_v1_stats()
            .unwrap(),
        failed
    );

    diagnostic.reset();
    diagnostic.forward_hidden(&[1, 2], 0).unwrap();
    diagnostic.decode_token(3, 2).unwrap();
    let recovered = diagnostic
        .model
        .metal_w8_mlp_stack3_boundary_tail_head_v1_stats()
        .unwrap();
    assert_eq!(recovered.decode_calls, 1);
    assert_eq!(recovered.tail.successful_decodes, 1);
    assert!(!recovered.terminal_error);
}

#[test]
fn metal_boundary_tail_head_v1_partial_prefill_is_terminal_retry_zero_and_resettable() {
    let mut diagnostic = Rig::tail_head();
    diagnostic.fault = Fault::AfterLayer(1);

    let error = diagnostic.forward_hidden(&[1, 2], 0).unwrap_err();
    says(&error, &["injected after layer 1", "reset required"]);
    assert_eq!(diagnostic.position(), 0);
    let failed = diagnostic
        .model
        .metal_w8_mlp_stack3_boundary_tail_head_v1_stats()
        .unwrap();
    assert!(failed.terminal_error);
    assert_eq!(failed.initial_stack.prefill_seed_calls, [1, 1, 0]);
    assert_eq!(failed.prefill_body_calls, 0);
    assert_eq!(failed.tail.decode_calls, 0);

    let retry = diagnostic.forward_hidden(&[1, 2], 0).unwrap_err();
    says(&retry, &["reset required"]);
    assert_eq!(
        diagnostic
            .model
            .metal_w8_mlp_stack3_boundary_tail_head_v1_stats()
            .unwrap(),
        failed
    );

    diagnostic.reset();
    diagnostic.forward_hidden(&[1, 2], 0).unwrap();
    let recovered = diagnostic
        .model
        .metal_w8_mlp_stack3_boundary_tail_head_v1_stats()
        .unwrap();
    assert!(!recovered.terminal_error);
    assert_eq!(recovered.initial_stack.prefill_seed_calls, [1, 1, 1]);
    assert_eq!(recovered.prefill_body_calls, 1);
}

#[test]
fn metal_boundary_tail_head_v1_keeps_legacy_lanes_and_receipt_formats_isolated() {
    let legacy_boundary = Rig::boundary_body();
    assert!(legacy_boundary
        .model
        .metal_w8_mlp_stack3_boundary_tail_head_v1_stats()
        .is_none());
    assert_eq!(
        text(&legacy_boundary.receipt(), "format"),
        "apxinf-qwen35-mlp-stack3-boundary-body-generation-path-v1"
    );

    let legacy_stack_head = Rig::stacks_and_head();
    assert!(legacy_stack_head
        .model
        .metal_w8_mlp_stack3_boundary_tail_head_v1_stats()
        .is_none());
    assert_eq!(
        text(&legacy_stack_head.receipt(), "format"),
        "apxinf-qwen35-stack3-lm-head-generation-path-v2"
    );
}

const OWNED_STACKS: [[usize; 3]; 6] = [
    [0, 1, 2],
    [4, 5, 6],
    [8, 9, 10],
    [12, 13, 14],
    [16, 17, 18],
    [20, 21, 22],
];

#[test]
fn metal_mlp_stack3_boundary_body_v1_prefills_once_and_runs_two_exact_decode_schedules() {
    let mut cpu = Rig::cpu(&DEEP, 16);
    let mut diagnostic = Rig::boundary_body();

    let cpu_prefill = cpu.forward_hidden(&[1, 2], 0).unwrap();
    let diagnostic_prefill = diagnostic.forward_hidden(&[1, 2], 0).unwrap();
    assert_eq!(diagnostic_prefill, cpu_prefill);
    let seeded = diagnostic
        .model
        .metal_w8_mlp_stack3_boundary_body_v1_stats()
        .unwrap();
    assert_eq!(seeded.initial_stack.prefill_seed_calls, [1, 1, 1]);
    assert!(seeded
        .boundaries
        .iter()
        .all(|region| region.prefill_seed_calls == [1, 1, 1]));
    assert_eq!(seeded.initial_stack.execution.decode_calls, 0);
    assert!(seeded
        .boundaries
        .iter()
        .all(|region| region.execution.decode_calls == 0));
    assert_eq!(seeded.final_mlp.decode_calls, 0);
    let cpu_seed_states = OWNED_STACKS.map(|indices| indices.map(|layer| diagnostic.seed_of(layer)));
    let before_invalid_decode = diagnostic
        .model
        .metal_w8_mlp_stack3_boundary_body_v1_stats()
        .unwrap();
    let invalid_decode = diagnostic.forward_hidden(&[3, 4], 2).unwrap_err();
    says(&invalid_decode, &["single-token decode"]);
    assert_eq!(diagnostic.position(), 2);
    assert_eq!(
        diagnostic
            .model
            .metal_w8_mlp_stack3_boundary_body_v1_stats()
            .unwrap(),
        before_invalid_decode,
        "multi-token decode must be rejected before any transaction"
    );

    for (token, position) in [(3, 2), (4, 3)] {
        let cpu_hidden = cpu.forward_hidden(&[token], position).unwrap();
        let diagnostic_hidden = diagnostic.forward_hidden(&[token], position).unwrap();
        assert_eq!(diagnostic_hidden, cpu_hidden);
    }

    let decoded = diagnostic
        .model
        .metal_w8_mlp_stack3_boundary_body_v1_stats()
        .unwrap();
    assert_eq!(decoded.initial_stack.execution.decode_calls, 2);
    assert_eq!(decoded.initial_stack.execution.successful_decodes, 2);
    assert_eq!(decoded.initial_stack.execution.committed_stack_version, 2);
    assert_eq!(
        decoded.initial_stack.execution.host_to_device_bytes,
        2 * 64 * 4
    );
    assert_eq!(
        decoded.initial_stack.execution.device_to_host_bytes,
        2 * 64 * 4
    );
    assert!(decoded.boundaries.iter().all(|region| {
        region.execution.decode_calls == 2
            && region.execution.successful_decodes == 2
            && region.execution.failed_decodes == 0
            && region.execution.command_buffers == 2
            && region.execution.compute_encoders == 8
            && region.execution.commits == 2
            && region.execution.waits == 2
            && region.execution.state_commits == 6
            && region.execution.last_state_commit_mask == 0b111
            && region.execution.committed_stack_version == 2
            && region.execution.host_to_device_bytes == 2 * 64 * 4
            && region.execution.device_to_host_bytes == 2 * 64 * 4
    }));
    assert_eq!(decoded.final_mlp.decode_calls, 2);
    assert!(!decoded.terminal_error);
    for (indices, expected_states) in OWNED_STACKS.iter().zip(cpu_seed_states.iter()) {
        let frozen = indices.map(|layer| diagnostic.seed_of(layer));
        assert_eq!(
            &frozen, expected_states,
            "CPU recurrent state for Metal-owned layers must stay frozen after prefill"
        );
    }
}

#[test]
fn metal_mlp_stack3_boundary_body_v1_reports_one_exact_aggregate_and_receipt() {
    let diagnostic = Rig::boundary_body();

    let aggregate = diagnostic
        .model
        .metal_w8_mlp_stack3_boundary_body_v1_aggregate_ledger()
        .unwrap();
    assert_eq!(aggregate.scope, "resident-mtlbuffer-only");
    assert!(!aggregate.includes_lm_head);
    assert_eq!(aggregate.initial_stack.layer_indices, [0, 1, 2]);
    assert_eq!(aggregate.boundaries.len(), 5);
    assert_eq!(aggregate.final_mlp.layer_index, 23);
    assert_eq!(aggregate.allocated_buffers, 489);
    assert_eq!(aggregate.shared_buffers, 439);
    assert_eq!(aggregate.private_buffers, 50);
    assert_eq!(aggregate.host_to_device_bytes_per_decode, 7 * 64 * 4);
    assert_eq!(aggregate.device_to_host_bytes_per_decode, 7 * 64 * 4);
    assert_eq!(aggregate.state_host_transfer_bytes_per_decode, 0);
    assert_eq!(aggregate.command_buffers_per_decode, 7);
    assert_eq!(aggregate.compute_encoders_per_decode, 26);
    assert_eq!(aggregate.kernel_dispatches_per_decode, 262);
    assert_eq!(aggregate.commits_per_decode, 7);
    assert_eq!(aggregate.waits_per_decode, 7);
    assert_eq!(aggregate.intermediate_host_finite_checks_per_decode, 0);
    assert_eq!(aggregate.final_output_finite_checks_per_decode, 6);
    assert_eq!(
        aggregate.total_persistent_mtlbuffer_bytes,
        aggregate.initial_stack.ledger.total_persistent_bytes
            + aggregate
                .boundaries
                .iter()
                .map(|entry| entry.ledger.total_persistent_bytes)
                .sum::<usize>()
            + aggregate.final_mlp.ledger.total_persistent_bytes
    );

    let receipt = diagnostic.receipt();
    assert_eq!(
        text(&receipt, "format"),
        "apxinf-qwen35-mlp-stack3-boundary-body-generation-path-v1"
    );
    assert_eq!(
        text(&receipt, "mechanism"),
        "metal-w8-mlp-stack3-boundary-body-v1"
    );
    assert_eq!(
        numbers(part(&receipt, "initial_stack"), "layer_indices"),
        vec![0, 1, 2]
    );
    assert_eq!(
        numbers(part(&receipt, "initial_stack"), "gdn_output_group_sizes"),
        vec![32, 32, 32]
    );
    assert_eq!(records(&receipt, "boundaries").len(), 5);
    assert_eq!(number(part(&receipt, "final_mlp"), "layer_index"), 23);
    assert!(!flag(&receipt, "terminal_error"));
}

#[test]
fn metal_mlp_stack3_boundary_body_v1_latches_the_whole_lane_after_a_later_fault() {
    let mut diagnostic = Rig::boundary_body();
    diagnostic.forward_hidden(&[1, 2], 0).unwrap();
    diagnostic.fault = Fault::Boundary(0);

    let error = diagnostic.forward_hidden(&[3], 2).unwrap_err();
    says(&error, &["lane is terminal"]);
    let failed = diagnostic
        .model
        .metal_w8_mlp_stack3_boundary_body_v1_stats()
        .unwrap();
    assert!(failed.terminal_error);
    assert_eq!(failed.initial_stack.execution.successful_decodes, 1);
    assert_eq!(failed.initial_stack.execution.committed_stack_version, 1);
    assert_eq!(failed.boundaries[0].execution.decode_calls, 1);
    assert_eq!(failed.boundaries[0].execution.successful_decodes, 0);
    assert_eq!(failed.boundaries[0].execution.failed_decodes, 1);
    assert_eq!(failed.boundaries[0].execution.state_commits, 0);
    assert_eq!(failed.boundaries[0].execution.device_to_host_bytes, 0);
    assert_eq!(failed.boundaries[0].execution.committed_stack_version, 0);
    assert!(failed.boundaries[0].terminal_error);
    assert!(failed.boundaries[1..]
        .iter()
        .all(|region| region.execution.decode_calls == 0));
    assert_eq!(failed.final_mlp.decode_calls, 0);

    let retry = diagnostic.forward_hidden(&[3], 2).unwrap_err();
    says(&retry, &["terminal"]);
    assert_eq!(
        diagnostic
            .model
            .metal_w8_mlp_stack3_boundary_body_v1_stats()
            .unwrap(),
        failed,
        "terminal retry must submit no additional work"
    );

    diagnostic.reset();
    let reset = diagnostic
        .model
        .metal_w8_mlp_stack3_boundary_body_v1_stats()
        .unwrap();
    assert!(!reset.terminal_error);
    assert_eq!(reset.initial_stack.prefill_seed_calls, [0, 0, 0]);
    assert_eq!(reset.initial_stack.execution.decode_calls, 0);
    assert!(reset.boundaries.iter().all(|region| {
        region.prefill_seed_calls == [0, 0, 0] && region.execution.decode_calls == 0
    }));
    assert_eq!(reset.final_mlp.decode_calls, 0);

    diagnostic.forward_hidden(&[1, 2], 0).unwrap();
    diagnostic.forward_hidden(&[3], 2).unwrap();
    let recovered = diagnostic
        .model
        .metal_w8_mlp_stack3_boundary_body_v1_stats()
        .unwrap();
    assert!(!recovered.terminal_error);
    assert_eq!(recovered.initial_stack.execution.successful_decodes, 1);
    assert!(recovered
        .boundaries
        .iter()
        .all(|region| region.execution.successful_decodes == 1));
    assert_eq!(recovered.final_mlp.decode_calls, 1);
}

#[test]
fn metal_mlp_stack3_boundary_body_v1_every_region_fault_is_terminal_and_retry_is_zero_work() {
    for fault_region in 0..5 {
        let mut diagnostic = Rig::boundary_body();
        diagnostic.forward_hidden(&[1, 2], 0).unwrap();
        diagnostic.fault = Fault::Boundary(fault_region);

        let error = diagnostic.forward_hidden(&[3], 2).unwrap_err();
        says(&error, &["entire lane is terminal"]);
        let failed = diagnostic
            .model
            .metal_w8_mlp_stack3_boundary_body_v1_stats()
            .unwrap();
        assert!(failed.terminal_error);
        assert_eq!(failed.initial_stack.execution.successful_decodes, 1);
        for (region_index, region) in failed.boundaries.iter().enumerate() {
            if region_index < fault_region {
                assert_eq!(region.execution.successful_decodes, 1);
                assert_eq!(region.execution.committed_stack_version, 1);
            } else if region_index == fault_region {
                assert_eq!(region.execution.decode_calls, 1);
                assert_eq!(region.execution.failed_decodes, 1);
                assert_eq!(region.execution.state_commits, 0);
                assert_eq!(region.execution.device_to_host_bytes, 0);
                assert_eq!(region.execution.committed_stack_version, 0);
            } else {
                assert_eq!(region.execution.decode_calls, 0);
            }
        }
        assert_eq!(failed.final_mlp.decode_calls, 0);

        let retry = diagnostic.forward_hidden(&[3], 2).unwrap_err();
        says(&retry, &["reset required"]);
        assert_eq!(
            diagnostic
                .model
                .metal_w8_mlp_stack3_boundary_body_v1_stats()
                .unwrap(),
            failed,
            "region {fault_region} terminal retry must submit no work"
        );

        diagnostic.reset();
        let reset = diagnostic
            .model
            .metal_w8_mlp_stack3_boundary_body_v1_stats()
            .unwrap();
        assert!(!reset.terminal_error);
        assert_eq!(reset.initial_stack.execution, Default::default());
        assert!(reset
            .boundaries
            .iter()
            .all(|region| region.execution == Default::default()));
        assert_eq!(reset.final_mlp.decode_calls, 0);
    }
}

#[test]
fn metal_mlp_stack3_boundary_body_v1_initial_stack_fault_latches_retry_and_resets() {
    let mut diagnostic = Rig::boundary_body();
    diagnostic.forward_hidden(&[1, 2], 0).unwrap();
    diagnostic.fault = Fault::InitialStack;

    let error = diagnostic.forward_hidden(&[3], 2).unwrap_err();
    says(&error, &["entire lane is terminal"]);
    let failed = diagnostic
        .model
        .metal_w8_mlp_stack3_boundary_body_v1_stats()
        .unwrap();
    assert!(failed.terminal_error);
    assert_eq!(failed.initial_stack.execution.decode_calls, 1);
    assert_eq!(failed.initial_stack.execution.successful_decodes, 0);
    assert_eq!(failed.initial_stack.execution.failed_decodes, 1);
    assert_eq!(failed.initial_stack.execution.state_commits, 0);
    assert_eq!(failed.initial_stack.execution.device_to_host_bytes, 0);
    assert_eq!(failed.initial_stack.execution.committed_stack_version, 0);
    assert!(failed.initial_stack.terminal_error);
    assert!(failed
        .boundaries
        .iter()
        .all(|region| region.execution.decode_calls == 0));
    assert_eq!(failed.final_mlp.decode_calls, 0);

    let retry = diagnostic.forward_hidden(&[3], 2).unwrap_err();
    says(&retry, &["reset required"]);
    assert_eq!(
        diagnostic
            .model
            .metal_w8_mlp_stack3_boundary_body_v1_stats()
            .unwrap(),
        failed,
        "initial Stack3 terminal retry must submit no work"
    );

    diagnostic.reset();
    diagnostic.forward_hidden(&[1, 2], 0).unwrap();
    diagnostic.forward_hidden(&[3], 2).unwrap();
    let recovered = diagnostic
        .model
        .metal_w8_mlp_stack3_boundary_body_v1_stats()
        .unwrap();
    assert!(!recovered.terminal_error);
    assert_eq!(recovered.initial_stack.execution.successful_decodes, 1);
    assert!(recovered
        .boundaries
        .iter()
        .all(|region| region.execution.successful_decodes == 1));
    assert_eq!(recovered.final_mlp.decode_calls, 1);
}

#[test]
fn metal_mlp_stack3_boundary_body_v1_final_mlp_fault_latches_retry_and_resets() {
    let mut diagnostic = Rig::boundary_body();
    diagnostic.forward_hidden(&[1, 2], 0).unwrap();
    diagnostic.fault = Fault::AfterFinalMlp;

    let error = diagnostic.forward_hidden(&[3], 2).unwrap_err();
    says(&error, &["final MLP", "entire lane is terminal"]);
    let failed = diagnostic
        .model
        .metal_w8_mlp_stack3_boundary_body_v1_stats()
        .unwrap();
    assert!(failed.terminal_error);
    assert_eq!(failed.initial_stack.execution.successful_decodes, 1);
    assert!(failed
        .boundaries
        .iter()
        .all(|region| region.execution.successful_decodes == 1));
    assert_eq!(failed.final_mlp.decode_calls, 1);

    let retry = diagnostic.forward_hidden(&[3], 2).unwrap_err();
    says(&retry, &["reset required"]);
    assert_eq!(
        diagnostic
            .model
            .metal_w8_mlp_stack3_boundary_body_v1_stats()
            .unwrap(),
        failed,
        "final MLP terminal retry must submit no work"
    );

    diagnostic.reset();
    diagnostic.forward_hidden(&[1, 2], 0).unwrap();
    diagnostic.forward_hidden(&[3], 2).unwrap();
    let recovered = diagnostic
        .model
        .metal_w8_mlp_stack3_boundary_body_v1_stats()
        .unwrap();
    assert!(!recovered.terminal_error);
    assert_eq!(recovered.initial_stack.execution.successful_decodes, 1);
    assert!(recovered
        .boundaries
        .iter()
        .all(|region| region.execution.successful_decodes == 1));
    assert_eq!(recovered.final_mlp.decode_calls, 1);
}

#[test]
fn metal_mlp_stack3_boundary_body_v1_partial_prefill_is_terminal_until_reset() {
    let mut diagnostic = Rig::boundary_body();
    diagnostic.fault = Fault::AfterLayer(1);

    let error = diagnostic.forward_hidden(&[1, 2], 0).unwrap_err();

    says(&error, &["injected after layer 1", "reset required"]);
    assert_eq!(diagnostic.position(), 0);
    let failed = diagnostic
        .model
        .metal_w8_mlp_stack3_boundary_body_v1_stats()
        .unwrap();
    assert!(failed.terminal_error);
    assert_eq!(failed.initial_stack.prefill_seed_calls, [1, 1, 0]);
    assert_eq!(failed.initial_stack.execution.decode_calls, 0);
    assert!(failed.boundaries.iter().all(|region| {
        region.prefill_seed_calls == [0, 0, 0] && region.execution.decode_calls == 0
    }));
    assert_eq!(failed.final_mlp.decode_calls, 0);

    let retry = diagnostic.forward_hidden(&[1, 2], 0).unwrap_err();
    says(&retry, &["reset required"]);
    assert_eq!(
        diagnostic
            .model
            .metal_w8_mlp_stack3_boundary_body_v1_stats()
            .unwrap(),
        failed,
        "dirty partial prefill retry must submit no work"
    );

    diagnostic.reset();
    diagnostic.forward_hidden(&[1, 2], 0).unwrap();
    let recovered = diagnostic
        .model
        .metal_w8_mlp_stack3_boundary_body_v1_stats()
        .unwrap();
    assert!(!recovered.terminal_error);
    assert_eq!(recovered.initial_stack.prefill_seed_calls, [1, 1, 1]);
    assert!(recovered
        .boundaries
        .iter()
        .all(|region| region.prefill_seed_calls == [1, 1, 1]));
}

#[test]
fn metal_mlp_stack3_boundary_body_v1_rejects_a_changed_full_attention_index() {
    let mut config = config(&DEEP);
    let weights = weights(&config);
    config.text.layer_types[3] = Qwen35LayerType::LinearAttention;

    let error = GeneralQwen35::from_weights_with_metal_w8_mlp_stack3_boundary_body_v1(
        config,
        weights,
        Device::Cpu,
        16,
        CHAINS,
        schedule(64),
        Ok(mlp_ledger(64)),
    )
    .err()
    .expect("changed full-attention index must fail closed");

    says(&error, &["requires full-attention layer at index 3"]);
}

#[test]
fn metal_stack3_v1_all_six_runs_have_the_exact_body_ledger_and_no_duplicate_mlp() {
    let mut diagnostic = Rig::stacks();
    let expected_full = [3, 7, 11, 15, 19, 23];

    let initial = diagnostic
        .model
        .metal_w8_linear_layer_stacks_v1_stats()
        .unwrap();
    assert_eq!(initial.stacks.len(), 6);
    assert_eq!(
        initial
            .stacks
            .iter()
            .map(|stack| stack.layer_indices)
            .collect::<Vec<_>>(),
        OWNED_STACKS
    );
    assert_eq!(
        initial
            .full_attention_mlp_layers
            .iter()
            .map(|stats| stats.layer_index)
            .collect::<Vec<_>>(),
        expected_full
    );
    let ledgers = diagnostic
        .model
        .metal_w8_linear_layer_stack3_v1_buffer_ledgers()
        .unwrap();
    assert_eq!(ledgers.len(), 6);
    assert!(ledgers.iter().all(|entry| {
        entry.ledger.allocated_buffers == 76
            && entry.ledger.shared_buffers == 68
            && entry.ledger.private_buffers == 8
            && entry.ledger.command_buffers_per_decode == 1
            && entry.ledger.compute_encoders_per_decode == 3
            && entry.ledger.commits_per_decode == 1
            && entry.ledger.waits_per_decode == 1
            && entry.ledger.intermediate_host_finite_checks_per_decode == 0
            && entry.ledger.final_output_finite_checks_per_decode == 1
    }));
    let aggregate = diagnostic
        .model
        .metal_w8_linear_layer_stacks_v1_aggregate_ledger()
        .unwrap();
    assert_eq!(aggregate.scope, "resident-mtlbuffer-only");
    assert!(!aggregate.includes_lm_head);
    assert_eq!(aggregate.stacks.len(), 6);
    assert_eq!(aggregate.full_attention_mlp_layers.len(), 6);
    assert_eq!(aggregate.allocated_buffers, 504);
    assert_eq!(aggregate.shared_buffers, 444);
    assert_eq!(aggregate.private_buffers, 60);
    assert_eq!(aggregate.host_to_device_bytes_per_decode, 3_072);
    assert_eq!(aggregate.device_to_host_bytes_per_decode, 3_072);
    assert_eq!(aggregate.state_host_transfer_bytes_per_decode, 0);
    assert_eq!(aggregate.command_buffers_per_decode, 12);
    assert_eq!(aggregate.compute_encoders_per_decode, 36);
    assert_eq!(aggregate.commits_per_decode, 12);
    assert_eq!(aggregate.waits_per_decode, 12);
    assert_eq!(aggregate.intermediate_host_finite_checks_per_decode, 0);
    assert_eq!(aggregate.final_output_finite_checks_per_decode, 6);
    assert_eq!(
        aggregate.total_persistent_mtlbuffer_bytes,
        aggregate
            .stacks
            .iter()
            .map(|entry| entry.ledger.total_persistent_bytes)
            .sum::<usize>()
            + aggregate
                .full_attention_mlp_layers
                .iter()
                .map(|entry| entry.ledger.total_persistent_bytes)
                .sum::<usize>()
    );
    let receipt = diagnostic.receipt();
    assert_eq!(
        text(&receipt, "format"),
        "apxinf-qwen35-linear-layer-stacks-generation-path-v1"
    );
    assert_eq!(records(&receipt, "stacks").len(), 6);
    assert_eq!(records(&receipt, "full_attention_mlp_layers").len(), 6);
    assert!(flag(&receipt, "metal_w8_full_attention_mlp_blocks"));
    assert!(!flag(
        &Rig::one_stack().receipt(),
        "metal_w8_full_attention_mlp_blocks"
    ));

    diagnostic.forward_hidden(&[1, 2], 0).unwrap();
    diagnostic.forward_hidden(&[3], 2).unwrap();
    let decoded = diagnostic
        .model
        .metal_w8_linear_layer_stacks_v1_stats()
        .unwrap();
    assert!(decoded.stacks.iter().all(|stack| {
        stack.prefill_seed_calls == [1, 1, 1]
            && stack.execution.decode_calls == 1
            && stack.execution.successful_decodes == 1
            && stack.execution.state_commits == 3
            && stack.execution.last_state_commit_mask == 0b111
    }));
    assert!(decoded
        .full_attention_mlp_layers
        .iter()
        .all(|stats| stats.decode_calls == 1));
    assert!(!decoded.terminal_error);
}

#[test]
fn metal_stack3_head_v2_constructor_is_an_explicit_composite_kill_switch() {
    let legacy = Rig::stacks();
    assert!(legacy.model.metal_w8_lm_head_stats().is_none());

    let diagnostic = Rig::stacks_and_head();

    let body = diagnostic
        .model
        .metal_w8_linear_layer_stacks_v1_stats()
        .unwrap();
    assert_eq!(body.stacks.len(), 6);
    assert_eq!(body.full_attention_mlp_layers.len(), 6);
    assert!(diagnostic.model.metal_w8_lm_head_stats().is_some());
}

#[test]
fn metal_stack3_head_v2_model_exposes_body_plus_head_ledger_components() {
    let diagnostic = Rig::stacks_and_head();

    let aggregate = diagnostic
        .model
        .metal_w8_stack3_lm_head_v2_aggregate_ledger()
        .unwrap();

    assert_eq!(aggregate.body.stacks.len(), 6);
    assert_eq!(aggregate.body.full_attention_mlp_layers.len(), 6);
    assert_eq!(aggregate.lm_head.allocated_buffers, 5);
    assert_eq!(
        aggregate.total_persistent_mtlbuffer_bytes,
        aggregate.body.total_persistent_mtlbuffer_bytes + aggregate.lm_head.total_persistent_bytes
    );
    assert_eq!(
        aggregate.command_buffers_per_call,
        aggregate.body.command_buffers_per_decode + 1
    );
    assert_eq!(
        aggregate.compute_encoders_per_call,
        aggregate.body.compute_encoders_per_decode + 2
    );
    assert!(Rig::stacks()
        .model
        .metal_w8_stack3_lm_head_v2_aggregate_ledger()
        .is_none());
}

#[test]
fn metal_stack3_head_v2_uses_a_new_generation_receipt_with_head_stats() {
    let diagnostic = Rig::stacks_and_head();

    let receipt = diagnostic.receipt();

    assert_eq!(
        text(&receipt, "format"),
        "apxinf-qwen35-stack3-lm-head-generation-path-v2"
    );
    assert_eq!(text(&receipt, "mechanism"), "metal-w8-stack3-lm-head-v2");
    assert!(flag(&receipt, "metal_w8_complete_linear_layer_stacks"));
    assert!(flag(&receipt, "metal_w8_full_attention_mlp_blocks"));
    assert!(flag(&receipt, "metal_w8_tied_lm_head_topk4_f32_rerank"));
    assert_eq!(records(&receipt, "stacks").len(), 6);
    assert_eq!(records(&receipt, "full_attention_mlp_layers").len(), 6);
    let head = part(&receipt, "lm_head");
    assert_eq!(text(head, "mechanism"), "metal-w8-top4-f32-rerank");
    assert_eq!(number(head, "prefill_calls"), 0);
    assert_eq!(number(head, "decode_calls"), 0);
    assert_eq!(number(head, "teacher_calls"), 0);
    assert!(!flag(&receipt, "terminal_error"));
}

#[test]
fn metal_stack3_head_v2_head_failure_latches_retry_and_reset_clears_every_lane() {
    let mut diagnostic = Rig::stacks_and_head();
    diagnostic.prefill_for_generation(&[1, 2]).unwrap();
    assert_eq!(diagnostic.position(), 2);
    assert_eq!(
        diagnostic.model.metal_w8_lm_head_stats().unwrap(),
        Qwen35MetalW8LmHeadStats::default()
    );
    diagnostic.fault = Fault::Head;

    let error = diagnostic
        .teacher_step(3, 2)
        .err()
        .expect("the injected post-body head failure must be returned");

    says(
        &error,
        &["Stack3 + lm_head v2", "terminal", "reset required"],
    );
    assert_eq!(diagnostic.position(), 3);
    let failed_body = diagnostic
        .model
        .metal_w8_linear_layer_stacks_v1_stats()
        .unwrap();
    assert!(failed_body.terminal_error);
    assert!(failed_body
        .stacks
        .iter()
        .all(|stack| stack.execution.decode_calls == 1));
    assert!(failed_body
        .full_attention_mlp_layers
        .iter()
        .all(|layer| layer.decode_calls == 1));
    let failed_head = diagnostic.model.metal_w8_lm_head_stats().unwrap();
    assert_eq!(failed_head, Qwen35MetalW8LmHeadStats::default());
    assert!(flag(&diagnostic.receipt(), "terminal_error"));

    let retry_error = diagnostic
        .teacher_step(4, 3)
        .err()
        .expect("a terminal composite retry must fail before body work");
    says(&retry_error, &["reset required"]);
    assert_eq!(diagnostic.position(), 3);
    assert_eq!(
        diagnostic
            .model
            .metal_w8_linear_layer_stacks_v1_stats()
            .unwrap(),
        failed_body
    );
    assert_eq!(
        diagnostic.model.metal_w8_lm_head_stats().unwrap(),
        failed_head
    );

    diagnostic.reset();

    assert_eq!(diagnostic.position(), 0);
    let reset_body = diagnostic
        .model
        .metal_w8_linear_layer_stacks_v1_stats()
        .unwrap();
    assert!(!reset_body.terminal_error);
    assert!(reset_body.stacks.iter().all(|stack| {
        stack.prefill_seed_calls == [0, 0, 0]
            && stack.execution.decode_calls == 0
            && !stack.terminal_error
    }));
    assert!(reset_body
        .full_attention_mlp_layers
        .iter()
        .all(|layer| layer.decode_calls == 0));
    assert_eq!(
        diagnostic.model.metal_w8_lm_head_stats().unwrap(),
        Qwen35MetalW8LmHeadStats::default()
    );
    assert!(!flag(&diagnostic.receipt(), "terminal_error"));
    assert_eq!(diagnostic.model.prefill_route(), TokenRoute::Head);
    diagnostic.prefill_token(&[1, 2]).unwrap();
    assert_eq!(
        diagnostic
            .model
            .metal_w8_lm_head_stats()
            .unwrap()
            .prefill_calls,
        1
    );
}

#[test]
fn metal_stack3_head_v2_body_failure_never_reaches_the_head() {
    let mut diagnostic = Rig::stacks_and_head();
    diagnostic.prefill_for_generation(&[1, 2]).unwrap();
    diagnostic.fault = Fault::Stack(0);

    let error = diagnostic
        .teacher_step(3, 2)
        .err()
        .expect("the injected body failure must be returned");

    says(&error, &["Stack3 + lm_head v2", "terminal"]);
    assert_eq!(
        diagnostic.model.metal_w8_lm_head_stats().unwrap(),
        Qwen35MetalW8LmHeadStats::default()
    );
    assert!(flag(&diagnostic.receipt(), "terminal_error"));
}

#[test]
fn metal_stack3_head_v2_teacher_step_binds_candidate_f32_top4_and_rerank() {
    let mut diagnostic = Rig::stacks_and_head();
    diagnostic.prefill_for_generation(&[1, 2]).unwrap();

    let comparison = diagnostic.teacher_step(3, 2).unwrap();

    assert_eq!(comparison.reranked_token, comparison.cpu_token);
    assert!(comparison.w8_candidates.contains(&comparison.cpu_token));
    let head = diagnostic.model.metal_w8_lm_head_stats().unwrap();
    assert_eq!(head.prefill_calls, 0);
    assert_eq!(head.decode_calls, 0);
    assert_eq!(head.teacher_calls, 1);
    let body = diagnostic
        .model
        .metal_w8_linear_layer_stacks_v1_stats()
        .unwrap();
    assert!(body
        .stacks
        .iter()
        .all(|stack| stack.execution.decode_calls == 1));
    assert!(body
        .full_attention_mlp_layers
        .iter()
        .all(|layer| layer.decode_calls == 1));
}

#[test]
fn metal_stack3_head_v2_free_run_uses_the_shared_head_fast_path() {
    let mut cpu = Rig::cpu(&DEEP, 16);
    let mut diagnostic = Rig::stacks_and_head();

    let cpu_tokens = cpu.generate(&[1, 2], 3).unwrap();
    let diagnostic_tokens = diagnostic.generate(&[1, 2], 3).unwrap();

    assert_eq!(diagnostic_tokens, cpu_tokens);
    assert_eq!(diagnostic_tokens.len(), 3);
    let head = diagnostic.model.metal_w8_lm_head_stats().unwrap();
    assert_eq!(head.prefill_calls, 1);
    assert_eq!(head.decode_calls, 2);
    assert_eq!(head.teacher_calls, 0);
    let body = diagnostic
        .model
        .metal_w8_linear_layer_stacks_v1_stats()
        .unwrap();
    assert!(body.stacks.iter().all(|stack| {
        stack.prefill_seed_calls == [1, 1, 1] && stack.execution.decode_calls == 2
    }));
    assert!(body
        .full_attention_mlp_layers
        .iter()
        .all(|layer| layer.decode_calls == 2));
}

#[test]
fn metal_stack3_v1_fault_keeps_all_three_states_atomic_and_latches_the_body_lane() {
    let mut diagnostic = Rig::stacks();
    diagnostic.forward_hidden(&[1, 2], 0).unwrap();
    diagnostic.fault = Fault::Stack(0);

    let error = diagnostic.forward_hidden(&[3], 2).unwrap_err();

    says(
        &error,
        &["stack3-v1", "injected", "terminal", "reset required"],
    );
    assert_eq!(diagnostic.position(), 2);
    let failed = diagnostic
        .model
        .metal_w8_linear_layer_stacks_v1_stats()
        .unwrap();
    assert!(failed.terminal_error);
    assert_eq!(failed.stacks[0].execution.decode_calls, 1);
    assert_eq!(failed.stacks[0].execution.successful_decodes, 0);
    assert_eq!(failed.stacks[0].execution.failed_decodes, 1);
    assert_eq!(failed.stacks[0].execution.state_commits, 0);
    assert_eq!(failed.stacks[0].execution.last_state_commit_mask, 0);
    assert_eq!(failed.stacks[0].execution.committed_stack_version, 0);
    assert!(failed.stacks[1..]
        .iter()
        .all(|stack| stack.execution.decode_calls == 0));
    assert!(failed
        .full_attention_mlp_layers
        .iter()
        .all(|stats| stats.decode_calls == 0));

    let retry = diagnostic.forward_hidden(&[3], 2).unwrap_err();
    says(&retry, &["reset required"]);
    assert_eq!(
        diagnostic
            .model
            .metal_w8_linear_layer_stacks_v1_stats()
            .unwrap(),
        failed,
        "terminal preflight must reject without another submission"
    );

    diagnostic.reset();
    let reset = diagnostic
        .model
        .metal_w8_linear_layer_stacks_v1_stats()
        .unwrap();
    assert!(!reset.terminal_error);
    assert!(reset.stacks.iter().all(|stack| {
        stack.prefill_seed_calls == [0, 0, 0]
            && stack.execution == Default::default()
            && !stack.terminal_error
    }));
    diagnostic.forward_hidden(&[1, 2], 0).unwrap();
    diagnostic.forward_hidden(&[3], 2).unwrap();
    assert!(diagnostic
        .model
        .metal_w8_linear_layer_stacks_v1_stats()
        .unwrap()
        .stacks
        .iter()
        .all(|stack| stack.execution.committed_stack_version == 1));
}

#[test]
fn metal_stack3_v1_latches_the_whole_lane_when_full_layer_three_fails_after_stack_zero_commits() {
    let mut diagnostic = Rig::stacks();
    diagnostic.forward_hidden(&[1, 2], 0).unwrap();
    diagnostic.fault = Fault::AfterLayer(3);

    let error = diagnostic.forward_hidden(&[3], 2).unwrap_err();

    says(
        &error,
        &[
            "stack3-v1",
            "injected after layer 3",
            "terminal",
            "reset required",
        ],
    );
    assert_eq!(diagnostic.position(), 2);
    let failed = diagnostic
        .model
        .metal_w8_linear_layer_stacks_v1_stats()
        .unwrap();
    assert!(failed.terminal_error);
    assert_eq!(failed.stacks[0].execution.successful_decodes, 1);
    assert_eq!(failed.stacks[0].execution.failed_decodes, 0);
    assert_eq!(failed.stacks[0].execution.state_commits, 3);
    assert_eq!(failed.stacks[0].execution.last_state_commit_mask, 0b111);
    assert_eq!(failed.stacks[0].execution.committed_stack_version, 1);
    assert!(failed.stacks[1..]
        .iter()
        .all(|stack| stack.execution.decode_calls == 0));
    assert_eq!(failed.full_attention_mlp_layers[0].layer_index, 3);
    assert_eq!(failed.full_attention_mlp_layers[0].decode_calls, 1);
    assert!(failed.full_attention_mlp_layers[1..]
        .iter()
        .all(|stats| stats.decode_calls == 0));

    let retry = diagnostic.forward_hidden(&[3], 2).unwrap_err();
    says(&retry, &["reset required"]);
    assert_eq!(diagnostic.position(), 2);
    assert_eq!(
        diagnostic
            .model
            .metal_w8_linear_layer_stacks_v1_stats()
            .unwrap(),
        failed,
        "terminal preflight must reject retry before any stack or full MLP advances twice"
    );

    diagnostic.reset();
    assert_eq!(diagnostic.position(), 0);
    let reset = diagnostic
        .model
        .metal_w8_linear_layer_stacks_v1_stats()
        .unwrap();
    assert!(!reset.terminal_error);
    assert!(reset.stacks.iter().all(|stack| {
        stack.prefill_seed_calls == [0, 0, 0]
            && stack.execution == Default::default()
            && !stack.terminal_error
    }));
    assert!(reset
        .full_attention_mlp_layers
        .iter()
        .all(|stats| stats.decode_calls == 0));

    diagnostic.forward_hidden(&[1, 2], 0).unwrap();
    diagnostic.forward_hidden(&[3], 2).unwrap();
    let recovered = diagnostic
        .model
        .metal_w8_linear_layer_stacks_v1_stats()
        .unwrap();
    assert!(!recovered.terminal_error);
    assert!(recovered.stacks.iter().all(|stack| {
        stack.execution.successful_decodes == 1
            && stack.execution.state_commits == 3
            && stack.execution.committed_stack_version == 1
    }));
    assert!(recovered
        .full_attention_mlp_layers
        .iter()
        .all(|stats| stats.decode_calls == 1));
}

#[test]
fn metal_stack3_v1_partial_prefill_is_terminal_until_reset() {
    let mut diagnostic = Rig::stacks();
    diagnostic.fault = Fault::AfterLayer(1);

    let error = diagnostic.forward_hidden(&[1, 2], 0).unwrap_err();

    says(&error, &["injected after layer 1", "reset required"]);
    assert_eq!(diagnostic.position(), 0);
    let failed = diagnostic
        .model
        .metal_w8_linear_layer_stacks_v1_stats()
        .unwrap();
    assert!(failed.terminal_error);
    assert_eq!(failed.stacks[0].prefill_seed_calls, [1, 1, 0]);
    assert_eq!(failed.stacks[0].execution.decode_calls, 0);
    assert!(failed.stacks[1..]
        .iter()
        .all(|stack| stack.prefill_seed_calls == [0, 0, 0]));
    let retry = diagnostic.forward_hidden(&[1, 2], 0).unwrap_err();
    says(&retry, &["reset required"]);
    assert_eq!(
        diagnostic
            .model
            .metal_w8_linear_layer_stacks_v1_stats()
            .unwrap(),
        failed
    );

    diagnostic.reset();
    diagnostic.forward_hidden(&[1, 2], 0).unwrap();
    assert!(diagnostic
        .model
        .metal_w8_linear_layer_stacks_v1_stats()
        .unwrap()
        .stacks
        .iter()
        .all(|stack| stack.prefill_seed_calls == [1, 1, 1]));
}

#[test]
fn metal_precision_v2_all_linear_layers_latch_the_whole_lane_after_partial_commit() {
    let mut diagnostic = Rig::all_linear();
    diagnostic.forward_hidden(&[1, 2], 0).unwrap();
    diagnostic.fault = Fault::AfterLayer(3);

    let error = diagnostic.forward_hidden(&[3], 2).unwrap_err();

    says(
        &error,
        &[
            "all-linear",
            "injected after layer 3",
            "terminal",
            "reset required",
        ],
    );
    assert_eq!(diagnostic.position(), 2);
    let failed = diagnostic
        .model
        .metal_w8_all_linear_layers_precision_v2_stats()
        .unwrap();
    assert!(failed.terminal_error);
    assert!(failed.linear_layers[..3].iter().all(|stats| {
        stats.execution.successful_decodes == 1
            && stats.execution.failed_decodes == 0
            && stats.execution.committed_state_version == 1
    }));
    assert!(failed.linear_layers[3..]
        .iter()
        .all(|stats| stats.execution.decode_calls == 0));
    assert_eq!(failed.full_attention_mlp_layers[0].layer_index, 3);
    assert_eq!(failed.full_attention_mlp_layers[0].decode_calls, 1);

    let retry = diagnostic.forward_hidden(&[3], 2).unwrap_err();
    says(&retry, &["reset required"]);
    assert_eq!(
        diagnostic
            .model
            .metal_w8_all_linear_layers_precision_v2_stats()
            .unwrap(),
        failed,
        "terminal preflight must reject retry before any lane advances twice"
    );

    diagnostic.reset();
    let reset = diagnostic
        .model
        .metal_w8_all_linear_layers_precision_v2_stats()
        .unwrap();
    assert!(!reset.terminal_error);
    assert!(reset.linear_layers.iter().all(|stats| {
        stats.execution.prefill_seed_calls == 0
            && stats.execution.decode_calls == 0
            && stats.execution.failed_decodes == 0
            && stats.execution.committed_state_version == 0
            && !stats.execution.terminal_error
    }));
    assert!(reset
        .full_attention_mlp_layers
        .iter()
        .all(|stats| stats.decode_calls == 0));
    diagnostic.forward_hidden(&[1, 2], 0).unwrap();
    diagnostic.forward_hidden(&[3], 2).unwrap();
    let recovered = diagnostic
        .model
        .metal_w8_all_linear_layers_precision_v2_stats()
        .unwrap();
    assert!(!recovered.terminal_error);
    assert!(recovered.linear_layers.iter().all(|stats| {
        stats.execution.successful_decodes == 1 && stats.execution.committed_state_version == 1
    }));
}

#[test]
fn metal_precision_v2_all_linear_layers_fail_closed_after_partial_prefill() {
    let mut diagnostic = Rig::all_linear();
    diagnostic.fault = Fault::AfterLayer(3);

    let error = diagnostic.forward_hidden(&[1, 2], 0).unwrap_err();

    says(&error, &["injected after layer 3", "reset required"]);
    assert_eq!(diagnostic.position(), 0);
    let failed = diagnostic
        .model
        .metal_w8_all_linear_layers_precision_v2_stats()
        .unwrap();
    assert!(failed.terminal_error);
    assert!(failed.linear_layers[..3].iter().all(|stats| {
        stats.execution.prefill_seed_calls == 1
            && stats.execution.decode_calls == 0
            && stats.execution.committed_state_version == 0
    }));
    assert!(failed.linear_layers[3..]
        .iter()
        .all(|stats| stats.execution.prefill_seed_calls == 0));

    let retry = diagnostic.forward_hidden(&[1, 2], 0).unwrap_err();
    says(&retry, &["reset required"]);
    assert_eq!(
        diagnostic
            .model
            .metal_w8_all_linear_layers_precision_v2_stats()
            .unwrap(),
        failed,
        "a dirty partial prefill must not be replayed before reset"
    );

    diagnostic.reset();
    diagnostic.forward_hidden(&[1, 2], 0).unwrap();
    assert_eq!(diagnostic.position(), 2);
    let recovered = diagnostic
        .model
        .metal_w8_all_linear_layers_precision_v2_stats()
        .unwrap();
    assert!(!recovered.terminal_error);
    assert!(recovered
        .linear_layers
        .iter()
        .all(|stats| stats.execution.prefill_seed_calls == 1));
}

#[test]
fn metal_precision_v2_fault_is_terminal_transactional_and_resettable() {
    let mut diagnostic = Rig::precise_linear_layer();
    diagnostic.forward_hidden(&[1, 2], 0).unwrap();
    let state_before = diagnostic.seed_of(0);
    diagnostic.fault = Fault::LinearLayer;

    let error = diagnostic.forward_hidden(&[3], 2).unwrap_err();

    says(&error, &["injected", "reset required"]);
    assert_eq!(diagnostic.position(), 2);
    assert_eq!(diagnostic.seed_of(0), state_before);
    let failed = diagnostic
        .model
        .metal_w8_linear_layer_precision_v2_stats()
        .unwrap();
    assert_eq!(failed.execution.decode_calls, 1);
    assert_eq!(failed.execution.successful_decodes, 0);
    assert_eq!(failed.execution.failed_decodes, 1);
    assert_eq!(failed.execution.committed_state_version, 0);
    assert!(failed.execution.terminal_error);

    let retry = diagnostic.forward_hidden(&[3], 2).unwrap_err();
    says(&retry, &["reset required"]);
    assert_eq!(
        diagnostic
            .model
            .metal_w8_linear_layer_precision_v2_stats()
            .unwrap(),
        failed
    );

    diagnostic.reset();
    let reset = diagnostic
        .model
        .metal_w8_linear_layer_precision_v2_stats()
        .unwrap();
    assert_eq!(reset.profile, failed.profile);
    assert_eq!(reset.execution.decode_calls, 0);
    assert_eq!(reset.execution.failed_decodes, 0);
    assert_eq!(reset.execution.committed_state_version, 0);
    assert!(!reset.execution.terminal_error);
    diagnostic.forward_hidden(&[1, 2], 0).unwrap();
    diagnostic.forward_hidden(&[3], 2).unwrap();
    assert_eq!(diagnostic.position(), 3);
}

#[test]
fn metal_w8_linear_layer_fault_is_terminal_and_commits_no_state_or_position() {
    let mut diagnostic = Rig::linear_layer();
    diagnostic.forward_hidden(&[1, 2], 0).unwrap();
    let cpu_state_before = diagnostic.seed_of(0);
    diagnostic.fault = Fault::LinearLayer;

    let error = diagnostic.forward_hidden(&[3], 2).unwrap_err();

    says(&error, &["injected", "reset required"]);
    assert_eq!(diagnostic.position(), 2);
    assert_eq!(diagnostic.seed_of(0), cpu_state_before);
    let failed = diagnostic.model.metal_w8_linear_layer_stats().unwrap();
    assert_eq!(failed.prefill_seed_calls, 1);
    assert_eq!(failed.decode_calls, 1);
    assert_eq!(failed.successful_decodes, 0);
    assert_eq!(failed.failed_decodes, 1);
    assert_eq!(failed.command_buffers, 1);
    assert_eq!(failed.compute_encoders, 1);
    assert_eq!(failed.commits, 1);
    assert_eq!(failed.waits, 1);
    assert_eq!(failed.host_to_device_bytes, 64 * 4);
    assert_eq!(failed.device_to_host_bytes, 0);
    assert_eq!(failed.committed_state_version, 0);
    assert!(failed.terminal_error);
    assert!(failed.block_elapsed_ns > 0);

    let retry_error = diagnostic.forward_hidden(&[3], 2).unwrap_err();
    says(&retry_error, &["reset required"]);
    assert_eq!(diagnostic.position(), 2);
    assert_eq!(
        diagnostic.model.metal_w8_linear_layer_stats().unwrap(),
        failed
    );
}

#[test]
fn metal_w8_linear_layer_latches_terminal_when_a_later_layer_fails() {
    let mut diagnostic = Rig::linear_layer();
    diagnostic.forward_hidden(&[1, 2], 0).unwrap();
    let before = diagnostic.model.metal_w8_linear_layer_stats().unwrap();
    diagnostic.fault = Fault::AfterLayer(1);

    let error = diagnostic.forward_hidden(&[3], 2).unwrap_err();

    says(&error, &["injected after layer 1", "reset required"]);
    assert_eq!(diagnostic.position(), 2);
    let failed = diagnostic.model.metal_w8_linear_layer_stats().unwrap();
    assert_eq!(failed.decode_calls, before.decode_calls + 1);
    assert_eq!(failed.successful_decodes, before.successful_decodes + 1);
    assert_eq!(
        failed.committed_state_version,
        before.committed_state_version + 1
    );
    assert!(failed.terminal_error);

    let retry_error = diagnostic.forward_hidden(&[3], 2).unwrap_err();
    says(&retry_error, &["reset required"]);
    assert_eq!(diagnostic.position(), 2);
    assert_eq!(
        diagnostic.model.metal_w8_linear_layer_stats().unwrap(),
        failed,
        "terminal preflight must reject the retry before the lane advances again"
    );

    diagnostic.reset();
    diagnostic.forward_hidden(&[1, 2], 0).unwrap();
    diagnostic.forward_hidden(&[3], 2).unwrap();
    assert_eq!(diagnostic.position(), 3);
    assert!(
        !diagnostic
            .model
            .metal_w8_linear_layer_stats()
            .unwrap()
            .terminal_error
    );
}

#[test]
fn metal_w8_linear_layer_reset_clears_ownership_receipts_and_fault_latch() {
    let mut diagnostic = Rig::linear_layer();
    diagnostic.forward_hidden(&[1, 2], 0).unwrap();
    diagnostic.forward_hidden(&[3], 2).unwrap();
    assert_eq!(diagnostic.position(), 3);
    assert_eq!(
        diagnostic
            .model
            .metal_w8_linear_layer_stats()
            .unwrap()
            .committed_state_version,
        1
    );

    diagnostic.reset();

    assert_eq!(diagnostic.position(), 0);
    let reset = diagnostic.model.metal_w8_linear_layer_stats().unwrap();
    assert_eq!(
        reset,
        Qwen35MetalW8LinearLayerStats {
            layer_index: 0,
            prefill_seed_calls: 0,
            decode_calls: 0,
            successful_decodes: 0,
            failed_decodes: 0,
            command_buffers: 0,
            compute_encoders: 0,
            commits: 0,
            waits: 0,
            host_to_device_bytes: 0,
            device_to_host_bytes: 0,
            committed_state_version: 0,
            terminal_error: false,
            block_elapsed_ns: 0,
        }
    );

    diagnostic.forward_hidden(&[1, 2], 0).unwrap();
    diagnostic.forward_hidden(&[3], 2).unwrap();
    let fresh = diagnostic.model.metal_w8_linear_layer_stats().unwrap();
    assert_eq!(fresh.prefill_seed_calls, 1);
    assert_eq!(fresh.decode_calls, 1);
    assert_eq!(fresh.committed_state_version, 1);
    assert!(!fresh.terminal_error);
}

#[test]
fn metal_w8_linear_layer_constructor_rejects_full_attention_selection() {
    let config = config(&WIDE);
    let weights = weights(&config);
    let error = GeneralQwen35::from_weights_with_metal_w8_linear_layer(
        config,
        weights,
        Device::Cpu,
        16,
        3,
        Ok(LinearLayerBuilt {
            ledger: linear_ledger(64),
            quantization: quantization(false, false),
            stats: LinearLayerMetalStats::default(),
        }),
    )
    .err()
    .expect("a full-attention layer cannot silently become a complete linear layer lane");
    says(&error, &["not linear attention"]);
}

fn packed_state(rig: &Rig) -> Option<&GdnDecodeState> {
    match &rig.model.lane {
        Lane::PackedReference(reference) => reference.state.as_ref(),
        _ => None,
    }
}

#[test]
fn packed_w8_linear_layer_reference_is_explicit_seeds_and_owns_decode() {
    let mut cpu = Rig::cpu(&WIDE, 16);
    assert!(cpu.model.packed_w8_linear_layer_reference_stats().is_none());
    let mut reference = Rig::reference();

    let cpu_prefill = cpu.forward_hidden(&[1, 2], 0).unwrap();
    let reference_prefill = reference.forward_hidden(&[1, 2], 0).unwrap();
    assert_eq!(reference_prefill, cpu_prefill);
    let cpu_state_after_prefill = reference.seed_of(0);
    assert_eq!(packed_state(&reference).unwrap(), &cpu_state_after_prefill);
    let prefill = reference
        .model
        .packed_w8_linear_layer_reference_stats()
        .unwrap();
    assert_eq!(prefill.prefill_seed_calls, 1);
    assert_eq!(prefill.decode_calls, 0);

    for (token, position) in [(3, 2), (4, 3)] {
        let cpu_hidden = cpu.forward_hidden(&[token], position).unwrap();
        let reference_hidden = reference.forward_hidden(&[token], position).unwrap();
        assert_eq!(reference_hidden, cpu_hidden);
    }

    assert_eq!(
        reference.seed_of(0),
        cpu_state_after_prefill,
        "selected CPU layer state must remain frozen after the packed reference takes ownership"
    );
    let stats = reference
        .model
        .packed_w8_linear_layer_reference_stats()
        .unwrap();
    assert_eq!(stats.layer_index, 0);
    assert_eq!(stats.prefill_seed_calls, 1);
    assert_eq!(stats.decode_calls, 2);
    assert_eq!(stats.successful_decodes, 2);
    assert_eq!(stats.failed_decodes, 0);
    assert_eq!(stats.committed_state_version, 2);
    assert!(!stats.terminal_error);
    assert!(stats.block_elapsed_ns > 0);
}

#[test]
fn packed_reference_precision_profiles_only_change_the_selected_projection_groups() {
    let legacy = Rig::reference()
        .model
        .packed_w8_linear_layer_reference_stats()
        .unwrap();
    assert_eq!(
        legacy.profile,
        Qwen35PackedW8LinearLayerReferenceProfile::G64
    );

    for (profile, name, gdn_output_group, mlp_down_group) in [
        (
            Qwen35PackedW8LinearLayerReferenceProfile::G64,
            "g64",
            W8GroupSize::G64,
            W8GroupSize::G64,
        ),
        (
            Qwen35PackedW8LinearLayerReferenceProfile::GdnOutG32,
            "gdn-out-g32",
            W8GroupSize::G32,
            W8GroupSize::G64,
        ),
        (
            Qwen35PackedW8LinearLayerReferenceProfile::MlpDownG32,
            "mlp-down-g32",
            W8GroupSize::G64,
            W8GroupSize::G32,
        ),
        (
            Qwen35PackedW8LinearLayerReferenceProfile::GdnOutAndMlpDownG32,
            "gdn-out-and-mlp-down-g32",
            W8GroupSize::G32,
            W8GroupSize::G32,
        ),
    ] {
        assert_eq!(profile.as_str(), name);
        assert_eq!(profile.gdn_output_group_size(), gdn_output_group);
        assert_eq!(profile.mlp_down_group_size(), mlp_down_group);
        let config = config(&WIDE);
        let weights = weights(&config);
        let stats = GeneralQwen35::from_weights_with_packed_w8_linear_layer_reference_profile(
            config,
            weights,
            Device::Cpu,
            16,
            0,
            profile,
            Ok(quantization(
                profile.gdn_output_group_size() == W8GroupSize::G32,
                profile.mlp_down_group_size() == W8GroupSize::G32,
            )),
        )
        .unwrap()
        .packed_w8_linear_layer_reference_stats()
        .unwrap();
        let ledger = stats.quantization;
        assert_eq!(stats.profile, profile);
        assert_eq!(ledger.gdn_input_group_size, W8GroupSize::G64);
        assert_eq!(ledger.gdn_output_group_size, gdn_output_group);
        assert_eq!(ledger.mlp_gate_group_size, W8GroupSize::G64);
        assert_eq!(ledger.mlp_up_group_size, W8GroupSize::G64);
        assert_eq!(ledger.mlp_down_group_size, mlp_down_group);
        assert_eq!(
            ledger.gdn_output_scale_bytes,
            legacy.quantization.gdn_output_scale_bytes
                * if gdn_output_group == W8GroupSize::G32 {
                    2
                } else {
                    1
                }
        );
        assert_eq!(
            ledger.mlp_down_scale_bytes,
            legacy.quantization.mlp_down_scale_bytes
                * if mlp_down_group == W8GroupSize::G32 {
                    2
                } else {
                    1
                }
        );
        assert_eq!(
            ledger.gdn_input_scale_bytes,
            legacy.quantization.gdn_input_scale_bytes
        );
        assert_eq!(
            ledger.mlp_gate_scale_bytes,
            legacy.quantization.mlp_gate_scale_bytes
        );
        assert_eq!(
            ledger.mlp_up_scale_bytes,
            legacy.quantization.mlp_up_scale_bytes
        );
    }
}

#[test]
fn packed_w8_linear_layer_reference_fault_is_terminal_and_transactional() {
    let mut reference = Rig::reference();
    reference.forward_hidden(&[1, 2], 0).unwrap();
    let cpu_state_before = reference.seed_of(0);
    reference.fault = Fault::Reference;

    let error = reference.forward_hidden(&[3], 2).unwrap_err();

    says(&error, &["injected", "reset required"]);
    assert_eq!(reference.position(), 2);
    assert_eq!(packed_state(&reference).unwrap(), &cpu_state_before);
    assert_eq!(reference.seed_of(0), cpu_state_before);
    let failed = reference
        .model
        .packed_w8_linear_layer_reference_stats()
        .unwrap();
    assert_eq!(failed.decode_calls, 1);
    assert_eq!(failed.successful_decodes, 0);
    assert_eq!(failed.failed_decodes, 1);
    assert_eq!(failed.committed_state_version, 0);
    assert!(failed.terminal_error);

    let retry_error = reference.forward_hidden(&[3], 2).unwrap_err();
    says(&retry_error, &["reset required"]);
    assert_eq!(reference.position(), 2);
    assert_eq!(
        reference
            .model
            .packed_w8_linear_layer_reference_stats()
            .unwrap(),
        failed
    );
}

#[test]
fn packed_w8_linear_layer_reference_latches_terminal_when_a_later_layer_fails() {
    let mut reference = Rig::reference();
    reference.forward_hidden(&[1, 2], 0).unwrap();
    let before = reference
        .model
        .packed_w8_linear_layer_reference_stats()
        .unwrap();
    reference.fault = Fault::AfterLayer(1);

    let error = reference.forward_hidden(&[3], 2).unwrap_err();

    says(&error, &["injected after layer 1", "reset required"]);
    assert_eq!(reference.position(), 2);
    let failed = reference
        .model
        .packed_w8_linear_layer_reference_stats()
        .unwrap();
    assert_eq!(failed.decode_calls, before.decode_calls + 1);
    assert_eq!(failed.successful_decodes, before.successful_decodes + 1);
    assert_eq!(
        failed.committed_state_version,
        before.committed_state_version + 1
    );
    assert!(failed.terminal_error);

    let retry_error = reference.forward_hidden(&[3], 2).unwrap_err();
    says(&retry_error, &["reset required"]);
    assert_eq!(reference.position(), 2);
    assert_eq!(
        reference
            .model
            .packed_w8_linear_layer_reference_stats()
            .unwrap(),
        failed,
        "terminal preflight must reject the retry before the lane advances again"
    );

    reference.reset();
    reference.forward_hidden(&[1, 2], 0).unwrap();
    reference.forward_hidden(&[3], 2).unwrap();
    assert_eq!(reference.position(), 3);
    assert!(
        !reference
            .model
            .packed_w8_linear_layer_reference_stats()
            .unwrap()
            .terminal_error
    );
}

#[test]
fn packed_w8_linear_layer_reference_reset_clears_state_and_receipts() {
    let mut reference = Rig::reference();
    reference.forward_hidden(&[1, 2], 0).unwrap();
    reference.forward_hidden(&[3], 2).unwrap();

    reference.reset();

    assert_eq!(reference.position(), 0);
    let reset = reference
        .model
        .packed_w8_linear_layer_reference_stats()
        .unwrap();
    assert_eq!(reset.prefill_seed_calls, 0);
    assert_eq!(reset.decode_calls, 0);
    assert_eq!(reset.successful_decodes, 0);
    assert_eq!(reset.failed_decodes, 0);
    assert_eq!(reset.committed_state_version, 0);
    assert!(!reset.terminal_error);
    assert_eq!(reset.block_elapsed_ns, 0);
    assert!(packed_state(&reference).is_none());

    reference.forward_hidden(&[1, 2], 0).unwrap();
    reference.forward_hidden(&[3], 2).unwrap();
    let fresh = reference
        .model
        .packed_w8_linear_layer_reference_stats()
        .unwrap();
    assert_eq!(fresh.prefill_seed_calls, 1);
    assert_eq!(fresh.decode_calls, 1);
    assert_eq!(fresh.committed_state_version, 1);
}

#[test]
fn packed_w8_linear_layer_reference_rejects_full_attention_selection() {
    let config = config(&WIDE);
    let weights = weights(&config);
    let error = GeneralQwen35::from_weights_with_packed_w8_linear_layer_reference(
        config,
        weights,
        Device::Cpu,
        16,
        3,
        Ok(quantization(false, false)),
    )
    .err()
    .expect("a full-attention layer cannot silently become a packed reference lane");
    says(&error, &["not linear attention"]);
}

#[test]
fn tied_embeddings_do_not_materialize_a_second_lm_head() {
    let model = Rig::cpu(&MINI, 16).model;

    assert!(model.config_ref().text.tie_word_embeddings);
    assert!(model.weights.lm_head.is_none());
    assert_eq!(
        model.weights.token_embedding.shape(),
        &vec![
            model.config_ref().text.vocab_size,
            model.config_ref().text.hidden_size
        ]
    );
}

#[test]
fn metal_w8_body_is_explicit_and_only_runs_for_selected_decode_layer() {
    let mut cpu = Rig::cpu(&WIDE, 16);
    assert!(cpu.model.metal_w8_body_stats().is_none());
    let mut metal = Rig::body_layers(&[0]).unwrap();

    let cpu_prefill = cpu.forward(&[1, 2], 0).unwrap();
    let metal_prefill = metal.forward(&[1, 2], 0).unwrap();
    assert_eq!(metal_prefill, cpu_prefill);
    assert_eq!(metal.model.metal_w8_body_stats().unwrap().decode_calls, 0);

    let cpu_decode = cpu.forward(&[3], 2).unwrap();
    let metal_decode = metal.forward(&[3], 2).unwrap();
    assert_eq!(metal_decode, cpu_decode);
    let stats = metal.model.metal_w8_body_stats().unwrap();
    assert_eq!(stats.layer_index, 0);
    assert_eq!(stats.decode_calls, 1);
    assert!(stats.projection_elapsed_ns > 0);
}

#[test]
fn metal_w8_mlp_block_is_explicit_and_only_runs_for_selected_decode_layer() {
    let mut cpu = Rig::cpu(&WIDE, 16);
    assert!(cpu.model.metal_w8_mlp_block_layer_stats().is_empty());
    let mut metal = Rig::mlp_layers(&[0]).unwrap();

    let cpu_prefill = cpu.forward(&[1, 2], 0).unwrap();
    let metal_prefill = metal.forward(&[1, 2], 0).unwrap();
    assert_eq!(metal_prefill, cpu_prefill);
    assert_eq!(
        metal.model.metal_w8_mlp_block_stats().unwrap().decode_calls,
        0
    );

    let cpu_decode = cpu.forward(&[3], 2).unwrap();
    let metal_decode = metal.forward(&[3], 2).unwrap();
    assert_eq!(metal_decode, cpu_decode);
    let stats = metal.model.metal_w8_mlp_block_stats().unwrap();
    assert_eq!(stats.layer_index, 0);
    assert_eq!(stats.decode_calls, 1);
    assert!(stats.block_elapsed_ns > 0);
}

#[test]
fn metal_w8_mlp_block_layer_set_hits_every_selected_layer_once_per_decode() {
    let mut rig = Rig::mlp_layers(&[0, 2]).unwrap();
    assert!(rig.model.metal_w8_mlp_block_stats().is_none());
    rig.forward(&[1, 2], 0).unwrap();
    assert!(rig
        .model
        .metal_w8_mlp_block_layer_stats()
        .iter()
        .all(|stats| stats.decode_calls == 0));

    rig.forward(&[3], 2).unwrap();
    let stats = rig.model.metal_w8_mlp_block_layer_stats();
    assert_eq!(
        stats
            .iter()
            .map(|stats| stats.layer_index)
            .collect::<Vec<_>>(),
        vec![0, 2]
    );
    assert!(stats.iter().all(|stats| stats.decode_calls == 1));
    assert!(stats.iter().all(|stats| stats.block_elapsed_ns > 0));
}

#[test]
fn metal_w8_combined_prefill_and_decode_hit_each_lane_exactly() {
    let mut cpu = Rig::cpu(&WIDE, 16);
    let config = config(&WIDE);
    let weights = weights(&config);
    let mut combined = Rig::of(
        GeneralQwen35::from_weights_with_metal_w8_mlp_blocks_and_lm_head(
            config,
            weights,
            Device::Cpu,
            16,
            Ok(head_ledger(64, 5000)),
            built_mlps(4, 64),
        )
        .unwrap(),
    );

    let cpu_prefill = cpu.prefill_for_generation(&[1, 2]).unwrap();
    let cpu_prefill_token = argmax_f32_row(&cpu_prefill, cpu.model.vocab_size()).unwrap();
    assert_eq!(combined.model.prefill_route(), TokenRoute::Head);
    let combined_prefill_token = combined.prefill_token(&[1, 2]).unwrap();
    assert_eq!(combined_prefill_token, cpu_prefill_token);
    assert!(combined
        .model
        .metal_w8_mlp_block_layer_stats()
        .iter()
        .all(|stats| stats.decode_calls == 0));
    let head_stats = combined.model.metal_w8_lm_head_stats().unwrap();
    assert_eq!(head_stats.prefill_calls, 1);
    assert_eq!(head_stats.decode_calls, 0);
    assert_eq!(head_stats.teacher_calls, 0);

    let cpu_decode = cpu.forward(&[3], 2).unwrap();
    let cpu_decode_token = argmax_f32_row(&cpu_decode, cpu.model.vocab_size()).unwrap();
    assert_eq!(combined.model.decode_route(), TokenRoute::Head);
    let combined_decode_token = combined.decode_token(3, 2).unwrap();
    assert_eq!(combined_decode_token, cpu_decode_token);
    let block_stats = combined.model.metal_w8_mlp_block_layer_stats();
    assert_eq!(block_stats.len(), 4);
    assert!(block_stats.iter().all(|stats| stats.decode_calls == 1));
    let head_stats = combined.model.metal_w8_lm_head_stats().unwrap();
    assert_eq!(head_stats.prefill_calls, 1);
    assert_eq!(head_stats.decode_calls, 1);
    assert_eq!(head_stats.teacher_calls, 0);
    assert!(head_stats.topk_elapsed_ns > 0);
    assert!(head_stats.rerank_elapsed_ns > 0);
    let receipt = combined.receipt();
    assert!(flag(&receipt, "metal_w8_mlp_block"));
    assert!(flag(&receipt, "metal_w8_lm_head"));
    assert_eq!(records(&receipt, "mlp_block_layers").len(), 4);
    assert!(records(&receipt, "mlp_block_layers")
        .iter()
        .all(|layer| number(layer, "decode_calls") == 1));
    assert_eq!(number(part(&receipt, "lm_head"), "prefill_calls"), 1);
    assert_eq!(number(part(&receipt, "lm_head"), "decode_calls"), 1);
}

#[test]
fn registry_metal_options_select_mlp_only_or_combined_without_double_build() {
    let model = |with_head: bool| {
        let config = config(&WIDE);
        let weights = weights(&config);
        GeneralQwen35::from_weights_with_backend_metal_options(
            config,
            weights,
            Device::Cpu,
            16,
            if with_head {
                Some(Ok(head_ledger(64, 5000)))
            } else {
                None
            },
            Some(built_mlps(4, 64)),
        )
        .unwrap()
    };
    let mlp_receipt = model(false).generation_path_receipt().unwrap();
    assert!(flag(&mlp_receipt, "metal_w8_mlp_block"));
    assert!(!flag(&mlp_receipt, "metal_w8_lm_head"));
    assert_eq!(records(&mlp_receipt, "mlp_block_layers").len(), 4);
    assert!(matches!(field(&mlp_receipt, "lm_head"), PathValue::Null));

    let combined_receipt = model(true).generation_path_receipt().unwrap();
    assert!(flag(&combined_receipt, "metal_w8_mlp_block"));
    assert!(flag(&combined_receipt, "metal_w8_lm_head"));
    assert_eq!(records(&combined_receipt, "mlp_block_layers").len(), 4);
    assert!(matches!(
        field(&combined_receipt, "lm_head"),
        PathValue::Record(_)
    ));
}

#[test]
fn metal_w8_mlp_block_layer_set_rejects_invalid_selections() {
    let empty = Rig::mlp_layers(&[])
        .err()
        .expect("an empty MLP block layer set must fail closed");
    says(&empty, &["at least one selected layer"]);

    let duplicate = Rig::mlp_layers(&[1, 1])
        .err()
        .expect("a duplicate MLP block layer set must fail closed");
    says(&duplicate, &["selected more than once"]);

    let config = config(&WIDE);
    let weights = weights(&config);
    let invalid_layer = config.text.n_layers;
    let outside = GeneralQwen35::from_weights_with_metal_w8_mlp_block_layer(
        config,
        weights,
        Device::Cpu,
        16,
        invalid_layer,
        built_mlps(4, 64),
    )
    .err()
    .expect("an out-of-range MLP block layer must fail closed");
    says(&outside, &["outside 0..4"]);
}

#[test]
fn metal_w8_body_rejects_an_out_of_range_layer_without_fallback() {
    let config = config(&WIDE);
    let weights = weights(&config);
    let invalid_layer = config.text.n_layers;
    let error = GeneralQwen35::from_weights_with_metal_w8_body_layer(
        config,
        weights,
        Device::Cpu,
        16,
        invalid_layer,
        vec![Ok(()), Ok(()), Ok(()), Ok(())],
    )
    .err()
    .expect("an invalid Metal body layer must fail closed");
    says(&error, &["outside 0..4"]);
}

#[test]
fn metal_w8_body_does_not_treat_a_one_token_prefill_as_decode() {
    let mut rig = Rig::body_layers(&[0]).unwrap();
    rig.forward(&[1], 0).unwrap();
    assert_eq!(rig.model.metal_w8_body_stats().unwrap().decode_calls, 0);
}

#[test]
fn metal_w8_body_layer_set_hits_every_selected_layer_once_per_decode() {
    let mut rig = Rig::body_layers(&[0, 2]).unwrap();
    rig.forward(&[1, 2], 0).unwrap();
    assert_eq!(
        rig.model.metal_w8_body_layer_stats(),
        vec![
            Qwen35MetalW8BodyStats {
                layer_index: 0,
                decode_calls: 0,
                projection_elapsed_ns: 0,
            },
            Qwen35MetalW8BodyStats {
                layer_index: 2,
                decode_calls: 0,
                projection_elapsed_ns: 0,
            },
        ]
    );
    rig.forward(&[3], 2).unwrap();
    let stats = rig.model.metal_w8_body_layer_stats();
    assert_eq!(
        stats
            .iter()
            .map(|stats| stats.layer_index)
            .collect::<Vec<_>>(),
        vec![0, 2]
    );
    assert!(stats.iter().all(|stats| stats.decode_calls == 1));
    assert!(stats.iter().all(|stats| stats.projection_elapsed_ns > 0));
}

#[test]
fn metal_w8_body_layer_set_rejects_empty_and_duplicate_selections() {
    let empty = Rig::body_layers(&[])
        .err()
        .expect("an empty body layer set must fail closed");
    says(&empty, &["at least one selected layer"]);

    let duplicate = Rig::body_layers(&[1, 1])
        .err()
        .expect("a duplicate body layer set must fail closed");
    says(&duplicate, &["selected more than once"]);
}

#[test]
fn untied_lm_head_keeps_the_packed_projection_path() {
    let mut rig = Rig::cpu(
        &Sizes {
            tied: false,
            ..MINI
        },
        16,
    );

    let text = &rig.model.config_ref().text;
    let (hidden_size, vocab_size) = (text.hidden_size, text.vocab_size);
    let lm_head = rig.model.weights.lm_head.as_ref().unwrap();
    assert_eq!(lm_head.shape(), &vec![hidden_size, vocab_size]);
    let logits = rig.forward(&[1, 2], 0).unwrap();
    assert_eq!(logits.shape(), &vec![2, vocab_size]);
}

#[test]
fn prefill_then_decode_matches_one_shot_hybrid_state() {
    let mut incremental = Rig::cpu(&MINI, 16);
    let mut one_shot = Rig::cpu(&MINI, 16);

    incremental.forward(&[1, 2, 3], 0).unwrap();
    let decode_logits = incremental.forward(&[4], 3).unwrap();
    let full_logits = one_shot.forward(&[1, 2, 3, 4], 0).unwrap();
    let vocab = one_shot.model.vocab_size();
    let full_last = row(&full_logits.elements()[3 * vocab..4 * vocab]);
    assert_eq!(decode_logits, full_last);

    assert_eq!(incremental.position(), 4);
    assert_eq!(one_shot.position(), 4);
    let text = &incremental.model.config_ref().text;
    for layer in 0..text.n_layers {
        let Some(left) = incremental.model.state_ref().linear_state(layer) else {
            continue;
        };
        let right = one_shot.model.state_ref().linear_state(layer).unwrap();
        assert_eq!(
            left.recurrent().unwrap().shape(),
            &vec![
                text.linear_num_value_heads,
                text.linear_key_head_dim,
                text.linear_value_head_dim,
            ]
        );
        assert_eq!(left.recurrent().unwrap(), right.recurrent().unwrap());
        let suffix_widths = [
            text.linear_key_width(),
            text.linear_key_width(),
            text.linear_value_width(),
        ];
        for ((left, right), width) in left
            .convolution_suffixes()
            .into_iter()
            .zip(right.convolution_suffixes())
            .zip(suffix_widths)
        {
            assert_eq!(
                left.unwrap().shape(),
                &vec![text.linear_conv_kernel_dim, width]
            );
            assert_eq!(left.unwrap(), right.unwrap());
        }
    }
}

#[test]
fn generation_prefill_projects_only_the_last_row() {
    let mut full = Rig::cpu(&MINI, 16);
    let mut generation = Rig::cpu(&MINI, 16);
    let mut streaming = Rig::cpu(&MINI, 16);
    let tokens = [1, 2, 3];

    let full_logits = full.forward(&tokens, 0).unwrap();
    let last_logits = generation.prefill_for_generation(&tokens).unwrap();
    let vocab = full.model.vocab_size();

    assert_eq!(full_logits.shape(), &vec![tokens.len(), vocab]);
    assert_eq!(last_logits.shape(), &vec![1, vocab]);
    assert_eq!(full.position(), tokens.len());
    assert_eq!(generation.position(), tokens.len());

    let expected_last =
        row(&full_logits.elements()[(tokens.len() - 1) * vocab..tokens.len() * vocab]);
    assert_eq!(last_logits, expected_last);

    let generated = streaming.generate(&tokens, 1).unwrap();
    assert_eq!(generated.len(), 1);
    assert_eq!(streaming.position(), tokens.len());
}

fn assert_untouched(rig: &Rig) {
    assert_eq!(rig.position(), 0);
    for layer in 0..rig.model.config_ref().text.n_layers {
        let Some(state) = rig.model.state_ref().linear_state(layer) else {
            continue;
        };
        assert!(state.recurrent().is_none());
        assert!(state
            .convolution_suffixes()
            .into_iter()
            .all(|suffix| suffix.is_none()));
    }
}

#[test]
fn zero_generation_budget_skips_prefill_and_state_mutation() {
    let mut rig = Rig::cpu(&MINI, 16);

    let generated = rig.generate(&[1, 2, 3], 0).unwrap();

    assert!(generated.is_empty());
    assert_untouched(&rig);
}

#[test]
fn over_budget_generation_fails_before_state_mutation() {
    let mut rig = Rig::cpu(&MINI, 4);

    let error = rig
        .generate(&[1, 2, 3], 2)
        .err()
        .expect("over-budget request should fail");

    says(&error, &["exceeds configured maximum 4"]);
    assert_untouched(&rig);
}

#[test]
fn reset_restores_fresh_forward_and_bounds_are_checked() {
    let mut rig = Rig::cpu(&MINI, 4);
    let first = rig.forward(&[2, 5], 0).unwrap();
    assert!(rig.forward(&[7], 0).is_err());
    assert!(rig.forward(&[7, 8, 9], 2).is_err());
    rig.reset();
    let after_reset = rig.forward(&[2, 5], 0).unwrap();
    assert_eq!(first, after_reset);
}

#[test]
fn a_forward_rejects_images_tokens_and_positions_that_it_cannot_run() {
    let mut rig = Rig::cpu(&MINI, 4);
    assert!(rig.model.check_input(true).is_err());
    assert!(rig.model.check_input(false).is_ok());
    assert!(rig.forward(&[], 0).is_err());
    says(
        &rig.forward(&[1, 16], 0).unwrap_err(),
        &["token id 16 is outside vocabulary size 16"],
    );
    rig.forward(&[1], 0).unwrap();
    says(
        &rig.forward(&[1], 0).unwrap_err(),
        &["start_pos 0 does not match cached position 1"],
    );
    says(
        &rig.forward(&[1, 2, 3, 4], 1).unwrap_err(),
        &["context end 5 exceeds configured maximum 4"],
    );
    rig.kv_position = 0;
    says(
        &rig.forward(&[1], 1).unwrap_err(),
        &["KV position 0 disagrees with hybrid position 1"],
    );
    assert_eq!(rig.position(), 1);
    let error = rig
        .teacher_step(1, 1)
        .err()
        .expect("a forced step needs an accelerator");
    assert!(!error.message().is_empty());
}

#[test]
fn metal_boundary_tail_head_gdn_core_fused_v1_is_explicit_fixed_shape_and_qk_closed() {
    let ordinary = Rig::cpu(&MINI, 16);
    assert!(ordinary
        .model
        .metal_w8_mlp_stack3_boundary_tail_head_v1_stats()
        .is_none());
    assert!(ordinary
        .model
        .metal_w8_mlp_stack3_boundary_tail_head_v1_aggregate_ledger()
        .is_none());
    let ordinary_receipt = ordinary.receipt();
    assert_eq!(
        text(&ordinary_receipt, "format"),
        "apxinf-qwen35-generation-path-v1"
    );
    assert!(!flag(&ordinary_receipt, "metal_w8_mlp_block"));
    assert!(!flag(&ordinary_receipt, "metal_w8_lm_head"));
    assert!(ordinary_receipt
        .fields
        .iter()
        .all(|(name, _)| *name != "gdn_core_profile"));

    let tail = || {
        Ok(TailBuilt {
            ledger: tail_ledger(8, 7000),
            stats: TailMlpHeadMetalStatsV1::default(),
        })
    };
    let small = config(&MINI);
    let small_weights = weights(&small);
    let shape_error =
        GeneralQwen35::from_weights_with_metal_w8_mlp_stack3_boundary_tail_head_gdn_core_fused_v1(
            small,
            small_weights,
            Device::Cpu,
            16,
            CHAINS,
            schedule(8),
            tail(),
        )
        .err()
        .expect("small-shape fused production route must fail closed");
    says(
        &shape_error,
        &["fixed to H=1024/KH=16/VH=16/KD=128/VD=128/conv=4/eps=1e-6"],
    );

    let small = config(&MINI);
    let small_weights = weights(&small);
    let qk_error =
        GeneralQwen35::from_weights_with_metal_w8_mlp_stack3_boundary_tail_head_gdn_core_profile_v1(
            small,
            small_weights,
            Device::Cpu,
            16,
            GdnCoreProfileV1::QkStagedFourDispatch,
            CHAINS,
            schedule(8),
            tail(),
        )
        .err()
        .expect("diagnostic-only qk-staged control must not enter the production route");
    says(&qk_error, &["diagnostic-only qk-staged"]);
}

#[test]
fn metal_runtime_callsites_transfer_each_owned_host_output_allocation() {
    let mut gdn = Rig::gdn();
    gdn.forward_hidden(&[1, 2], 0).unwrap();
    assert_eq!(gdn.kept, []);
    gdn.forward_hidden(&[3], 2).unwrap();
    assert_eq!(gdn.kept, [Site::Gdn]);

    let mut linear = Rig::linear_layer();
    linear.forward_hidden(&[1, 2], 0).unwrap();
    assert_eq!(linear.kept, []);
    linear.forward_hidden(&[3], 2).unwrap();
    assert_eq!(linear.kept, [Site::LinearLayer]);

    let mut boundary_tail = Rig::tail_head();
    boundary_tail.prefill_for_generation(&[1, 2]).unwrap();
    assert_eq!(boundary_tail.kept, []);
    boundary_tail.teacher_step(3, 2).unwrap();
    assert_eq!(
        boundary_tail.kept,
        [
            Site::LinearLayerStack3,
            Site::MlpStack3Boundary,
            Site::MlpStack3Boundary,
            Site::MlpStack3Boundary,
            Site::MlpStack3Boundary,
            Site::MlpStack3Boundary,
            Site::TailHead,
        ]
    );
}

#[test]
fn a_recurrent_block_that_cannot_be_built_is_refused() {
    let build = |layer: usize, answer: Result<GdnMetalStats, GdnBuildFailure>| {
        let config = config(&WIDE);
        let weights = weights(&config);
        GeneralQwen35::from_weights_with_metal_w8_gdn_layer(
            config,
            weights,
            Device::Cpu,
            16,
            layer,
            answer,
        )
        .err()
        .unwrap()
    };
    let cause = || "no device".to_string();
    assert_eq!(
        build(4, Ok(GdnMetalStats::default())),
        Error::GdnOutside {
            layer_index: 4,
            layers: 4
        }
    );
    assert_eq!(
        build(3, Ok(GdnMetalStats::default())),
        Error::GdnNotLinear { layer_index: 3 }
    );
    assert_eq!(
        build(1, Err(GdnBuildFailure::Packing { cause: cause() })),
        Error::GdnPacking {
            layer_index: 1,
            cause: cause()
        }
    );
    assert_eq!(
        build(1, Err(GdnBuildFailure::Construction { cause: cause() })),
        Error::GdnConstruction {
            layer_index: 1,
            cause: cause()
        }
    );
    assert_eq!(
        build(3, Err(GdnBuildFailure::Construction { cause: cause() })),
        Error::GdnNotLinear { layer_index: 3 },
        "what is wrong with the selection comes first"
    );
}

#[test]
fn a_linear_layer_that_cannot_be_built_is_refused() {
    let cause = || "no device".to_string();
    let plain = |failure: LinearLayerBuildFailure| {
        let config = config(&WIDE);
        let weights = weights(&config);
        GeneralQwen35::from_weights_with_metal_w8_linear_layer(
            config,
            weights,
            Device::Cpu,
            16,
            2,
            Err(failure),
        )
        .err()
        .unwrap()
    };
    let precise = |failure: LinearLayerBuildFailure| {
        let config = config(&WIDE);
        let weights = weights(&config);
        GeneralQwen35::from_weights_with_metal_w8_linear_layer_precision_v2(
            config,
            weights,
            Device::Cpu,
            16,
            2,
            Qwen35MetalW8LinearLayerPrecisionProfile::GdnOutG32V2,
            Err(failure),
        )
        .err()
        .unwrap()
    };
    let packing = |failure: LayerPackFailure| LinearLayerBuildFailure::Packing { failure };
    assert_eq!(
        plain(packing(LayerPackFailure::Gdn { cause: cause() })),
        Error::LinearLayerGdnPacking {
            layer_index: 2,
            cause: cause()
        }
    );
    assert_eq!(
        plain(packing(LayerPackFailure::Mlp { cause: cause() })),
        Error::LinearLayerMlpPacking {
            layer_index: 2,
            cause: cause()
        }
    );
    assert_eq!(
        plain(packing(LayerPackFailure::Assembly { cause: cause() })),
        Error::LinearLayerAssembly {
            layer_index: 2,
            cause: cause()
        }
    );
    assert_eq!(
        plain(LinearLayerBuildFailure::Construction { cause: cause() }),
        Error::LinearLayerConstruction {
            layer_index: 2,
            cause: cause()
        }
    );
    assert_eq!(
        precise(LinearLayerBuildFailure::Ledger { cause: cause() }),
        Error::PrecisionLedger {
            layer_index: 2,
            cause: cause()
        }
    );
    assert_eq!(
        precise(LinearLayerBuildFailure::Construction { cause: cause() }),
        Error::PrecisionConstruction {
            layer_index: 2,
            cause: cause()
        }
    );
}

#[test]
fn a_stack_that_cannot_be_built_is_refused() {
    let build = |first: usize, answer: Result<Stack3Built, Stack3BuildFailure>| {
        let config = config(&DEEP);
        let weights = weights(&config);
        GeneralQwen35::from_weights_with_metal_w8_linear_layer_stack3_v1(
            config,
            weights,
            Device::Cpu,
            16,
            first,
            CHAINS,
            vec![answer],
        )
        .err()
        .unwrap()
    };
    let cause = || "no device".to_string();
    assert_eq!(
        build(24, built_stack(64)),
        Error::StacksExceed {
            layer_indices: [24, 25, 26],
            layers: 24
        }
    );
    assert_eq!(
        build(1, built_stack(64)),
        Error::StacksNotLinear { layer_index: 3 }
    );
    assert_eq!(
        build(4, Err(Stack3BuildFailure::Ledger { cause: cause() })),
        Error::Stack3Ledger { cause: cause() }
    );
    says(
        &build(4, Err(Stack3BuildFailure::Construction { cause: cause() })),
        &["stack3-v1 layers [4, 5, 6]", "construction failed: no device"],
    );
}

#[test]
fn a_head_needs_a_tied_embedding_and_an_accelerator() {
    let build = |tied: bool, answer: Result<LmHeadBufferLedger, String>| {
        let config = config(&Sizes { tied, ..MINI });
        let weights = weights(&config);
        GeneralQwen35::from_weights_with_metal_w8(config, weights, Device::Cpu, 16, answer)
            .err()
            .unwrap()
    };
    assert_eq!(
        build(false, Ok(head_ledger(8, 100))),
        Error::LmHeadUntied
    );
    assert_eq!(
        build(true, Err("no device".to_string())),
        Error::LmHeadBuild {
            cause: "no device".to_string()
        }
    );
}

#[test]
fn a_model_runs_on_the_cpu_with_some_context() {
    let build = |device: Device, max_context: usize, layers: usize| {
        let config = config(&MINI);
        let mut weights = weights(&config);
        weights.layers.truncate(layers);
        GeneralQwen35::new(config, weights, device, max_context)
    };
    assert_eq!(build(Device::Cuda(0), 16, 4).err().unwrap(), Error::CpuOnly);
    assert_eq!(
        build(Device::Cpu, 16, 3).err().unwrap(),
        Error::WeightLayers {
            got: 3,
            expected: 4
        }
    );
    assert_eq!(build(Device::Cpu, 0, 4).err().unwrap(), Error::ZeroContext);
    let model = build(Device::Cpu, 1000, 4).unwrap();
    assert_eq!(
        model.state_ref().max_context(),
        model.config_ref().text.max_position_embeddings
    );
    assert_eq!(
        model.validate_generation_budget(1, usize::MAX),
        Err(Error::BudgetOverflow)
    );
}

#[test]
fn a_lane_that_owns_the_state_decodes_one_token_at_a_time() {
    for (mut rig, part) in [
        (Rig::gdn(), "GDN layer 0"),
        (Rig::linear_layer(), "linear layer 0"),
        (Rig::all_linear(), "all-linear precision-v2 layer 0"),
        (Rig::stacks(), "Stack3 body"),
        (Rig::boundary_body(), "Stack3 body"),
        (Rig::tail_head(), "Stack3 body"),
        (Rig::reference(), "packed W8 linear-layer reference 0"),
    ] {
        rig.forward_hidden(&[1, 2], 0).unwrap();
        rig.forward_hidden(&[3], 2).unwrap();
        says(
            &rig.forward_hidden(&[4, 5], 3).unwrap_err(),
            &[part, "owns decode state; only single-token decode is valid until reset"],
        );
        assert_eq!(rig.position(), 3);
    }
}

#[test]
fn a_refused_seed_stops_the_prefill() {
    for (mut rig, part) in [
        (Rig::gdn(), "GDN layer 0 prefill state seed failed: injected"),
        (
            Rig::linear_layer(),
            "linear layer 0 prefill state seed failed: injected",
        ),
        (
            Rig::stacks(),
            "stack3-v1 [0, 1, 2] prefill seed failed terminally: injected; reset required",
        ),
        (
            Rig::boundary_body(),
            "stack3-v1 [0, 1, 2] prefill seed failed terminally: injected; reset required",
        ),
    ] {
        rig.fault = Fault::Seed;
        says(&rig.forward_hidden(&[1, 2], 0).unwrap_err(), &[part]);
        assert_eq!(rig.position(), 0);
        rig.reset();
        rig.forward_hidden(&[1, 2], 0).unwrap();
        rig.forward_hidden(&[3], 2).unwrap();
    }
    let mut rig = Rig::gdn();
    rig.fault = Fault::PreparedSeed;
    says(
        &rig.forward_hidden(&[1, 2], 0).unwrap_err(),
        &["GDN state seed: injected"],
    );
}

#[test]
fn a_short_output_row_is_terminal() {
    for (mut rig, part) in [
        (Rig::linear_layer(), "linear layer 0 produced an invalid output"),
        (Rig::stacks(), "stack3-v1 [0, 1, 2] produced an invalid final output"),
        (
            Rig::boundary_body(),
            "stack3-v1 [0, 1, 2] produced an invalid final output",
        ),
    ] {
        rig.forward_hidden(&[1, 2], 0).unwrap();
        rig.fault = Fault::ShortRow;
        says(
            &rig.forward_hidden(&[3], 2).unwrap_err(),
            &[part, "[1, 64]", "63 elements", "reset required"],
        );
        says(
            &rig.forward_hidden(&[3], 2).unwrap_err(),
            &["terminal", "reset required"],
        );
        rig.reset();
        rig.forward_hidden(&[1, 2], 0).unwrap();
        rig.forward_hidden(&[3], 2).unwrap();
    }
}

#[test]
fn a_lane_that_could_not_be_cleared_stays_terminal() {
    let mut rig = Rig::linear_layer();
    rig.forward_hidden(&[1, 2], 0).unwrap();
    rig.fault = Fault::LinearLayer;
    rig.forward_hidden(&[3], 2).unwrap_err();
    rig.model.reset(
        Ok(()),
        LaneResets::LinearLayer {
            outcome: Err("no device".to_string()),
            stats: rig.linear[0],
        },
    );
    rig.kv_position = 0;
    assert_eq!(rig.position(), 0);
    says(
        &rig.forward_hidden(&[1, 2], 0).unwrap_err(),
        &["linear layer 0 is terminal"],
    );
    rig.reset();
    rig.forward_hidden(&[1, 2], 0).unwrap();
}

#[test]
fn an_invalid_configuration_is_refused_by_every_route() {
    let short = || {
        let mut config = config(&DEEP);
        config.text.layer_types.pop();
        config
    };
    let overflowing = || {
        let mut config = config(&DEEP);
        config.text.linear_num_key_heads = usize::MAX;
        config
    };
    let layers = Error::ConfigLayers {
        got: 23,
        expected: 24,
    };
    assert_eq!(short().text.validate(), Err(layers));
    assert_eq!(overflowing().text.validate(), Err(Error::ConfigWidths));
    assert_eq!(config(&DEEP).text.validate(), Ok(()));
    for (config_of, message) in [
        (
            short as fn() -> Qwen35Config,
            "qwen3.5: configuration lists 23 layer types, expected 24",
        ),
        (
            overflowing,
            "qwen3.5: configuration widths exceed the machine size",
        ),
    ] {
        let valid = config(&DEEP);
        let checks = [
            Qwen35WeightSchema::new(&config_of()).err().unwrap(),
            Qwen35TextWeights::from_map(&config_of(), tensors(&valid))
                .err()
                .unwrap(),
            GeneralQwen35::from_weights(config_of(), tensors(&valid), Device::Cpu, 16)
                .err()
                .unwrap(),
            GeneralQwen35::new(config_of(), weights(&valid), Device::Cuda(0), 0)
                .err()
                .unwrap(),
            GeneralQwen35::from_weights_with_metal_w8(
                config_of(),
                weights(&valid),
                Device::Cpu,
                16,
                Err("no device".to_string()),
            )
            .err()
            .unwrap(),
            GeneralQwen35::from_weights_with_metal_w8_gdn_layer(
                config_of(),
                weights(&valid),
                Device::Cpu,
                16,
                3,
                Ok(GdnMetalStats::default()),
            )
            .err()
            .unwrap(),
            GeneralQwen35::from_weights_with_metal_w8_linear_layer_stack3_v1(
                config_of(),
                weights(&valid),
                Device::Cpu,
                16,
                1,
                CHAINS,
                vec![built_stack(64)],
            )
            .err()
            .unwrap(),
        ];
        for error in &checks {
            assert_eq!(error.message(), message);
        }
    }
}

#[test]
fn what_a_route_asks_of_the_layers_comes_before_the_widths() {
    let mut wide = config(&MINI);
    wide.text.linear_num_key_heads = usize::MAX;
    wide.text.layer_types[3] = Qwen35LayerType::LinearAttention;
    let valid = config(&MINI);
    says(
        &GeneralQwen35::from_weights_with_metal_w8_all_linear_layer_stacks_v1(
            wide,
            weights(&valid),
            Device::Cpu,
            16,
            CHAINS,
            Vec::new(),
            built_mlps(4, 8),
        )
        .err()
        .unwrap(),
        &["all-stack3-v1 requires linear-attention runs of exactly three layers, got 4 at 0"],
    );
    let tail = |change: fn(&mut Qwen35TextConfig)| {
        let mut config = config(&DEEP);
        config.text.linear_num_key_heads = usize::MAX;
        change(&mut config.text);
        let valid = self::config(&DEEP);
        GeneralQwen35::from_weights_with_metal_w8_mlp_stack3_boundary_tail_head_v1(
            config,
            weights(&valid),
            Device::Cpu,
            16,
            CHAINS,
            schedule(64),
            Ok(TailBuilt {
                ledger: tail_ledger(64, 7000),
                stats: TailMlpHeadMetalStatsV1::default(),
            }),
        )
        .err()
        .unwrap()
    };
    assert_eq!(
        tail(|text| text.tie_word_embeddings = false),
        Error::TailHeadUntied
    );
    assert!(matches!(
        tail(|text| text.layer_types[3] = Qwen35LayerType::LinearAttention),
        Error::BoundaryLayerKind { layer_index: 3, .. }
    ));
    assert_eq!(tail(|_| ()), Error::ConfigWidths);
    let profile = GdnCoreProfileV1::LegacyFourDispatch;
    let mut untied = config(&DEEP).text;
    assert_eq!(validate_tail_config(&untied, profile), Ok(()));
    untied.tie_word_embeddings = false;
    assert_eq!(
        validate_tail_config(&untied, profile),
        Err(Error::TailHeadUntied)
    );
}

#[test]
fn a_forward_turns_its_tokens_by_their_own_positions() {
    let mut rig = Rig::cpu(&MINI, 16);
    let prompt = rig.model.forward_hidden(&[1, 2, 3], 0, 0).unwrap();
    assert_eq!(prompt.frame.rope.start_pos, 0);
    assert_eq!(prompt.frame.rope.sequence_length, 3);
    assert_eq!(prompt.frame.rope.head_dim, 8);
    assert_eq!(prompt.frame.rope.rotary_dim, 4);
    rig.forward_hidden(&[1, 2, 3], 0).unwrap();
    let decode = rig.model.forward_hidden(&[4], 3, 3).unwrap();
    assert_eq!(decode.frame.rope.start_pos, 3);
    assert_eq!(decode.frame.rope.sequence_length, 1);
}

#[test]
fn only_the_tail_ends_a_forward_of_a_stream_that_has_begun() {
    for rig in [
        Rig::cpu(&MINI, 16),
        Rig::stacks_and_head(),
        Rig::boundary_body(),
    ] {
        assert_eq!(rig.model.forward_route(0), TokenRoute::Logits);
        assert_eq!(rig.model.forward_route(1), TokenRoute::Logits);
    }
    let mut rig = Rig::tail_head();
    assert_eq!(rig.model.forward_route(0), TokenRoute::Logits);
    assert_eq!(rig.model.forward_route(1), TokenRoute::Tail);
    rig.forward(&[1, 2], 0).unwrap();
    assert_eq!(rig.tail.decode_calls, 0);
    let logits = rig.forward(&[3], 2).unwrap();
    assert_eq!(logits.shape(), &vec![1, 16]);
    assert_eq!(rig.tail.decode_calls, 1);
    rig.fault = Fault::Tail;
    says(
        &rig.forward(&[4], 3).unwrap_err(),
        &[TailStage::Projection.label(), "terminal"],
    );
    assert_eq!(TailStage::Decode.label(), "decode tail/rerank");
    assert_eq!(TailStage::Teacher.label(), "teacher tail/rerank");
}

#[test]
fn layers_are_packed_by_the_profile_of_their_lane() {
    let precise = Qwen35MetalW8LinearLayerPrecisionProfile::GdnOutG32V2;
    assert_eq!(
        packing_profile(None),
        Qwen35PackedW8LinearLayerReferenceProfile::G64
    );
    assert_eq!(
        packing_profile(Some(precise)),
        Qwen35PackedW8LinearLayerReferenceProfile::GdnOutG32
    );
    assert_eq!(
        stack_packing_profile(),
        Qwen35PackedW8LinearLayerReferenceProfile::GdnOutG32
    );
    assert_eq!(
        production_profile(&config(&DEEP).text, GdnCoreProfileV1::Fused128),
        None
    );
}

#[test]
fn a_reset_counts_from_zero_on_every_lane() {
    for mut rig in [
        Rig::gdn(),
        Rig::linear_layer(),
        Rig::all_linear(),
        Rig::stacks(),
        Rig::boundary_body(),
        Rig::tail_head(),
        Rig::reference(),
    ] {
        rig.forward_hidden(&[1, 2], 0).unwrap();
        rig.decode_token(3, 2).unwrap();
        rig.reset();
        let fresh = |calls: &[usize; 3], elapsed_ns: u128, seeded: bool| {
            assert_eq!((calls, elapsed_ns, seeded), (&[0, 0, 0], 0, false));
        };
        let schedule = match &rig.model.lane {
            Lane::Gdn(layer) => {
                assert_eq!((layer.prefill_seed_calls, layer.block_elapsed_ns), (0, 0));
                None
            }
            Lane::LinearLayer(layer) => {
                assert_eq!((layer.prefill_seed_calls, layer.block_elapsed_ns), (0, 0));
                assert!(!layer.seeded);
                None
            }
            Lane::AllLinear(lane) => {
                for layer in lane.layers.iter().flatten() {
                    assert_eq!((layer.prefill_seed_calls, layer.block_elapsed_ns), (0, 0));
                    assert!(!layer.seeded);
                }
                None
            }
            Lane::Stacks(lane) => {
                for stack in &lane.stacks {
                    let custody = &stack.custody;
                    fresh(
                        &custody.prefill_seed_calls,
                        custody.block_elapsed_ns,
                        custody.seeded,
                    );
                }
                None
            }
            Lane::BoundaryBody(body) => {
                assert_eq!(body.final_mlp.decode_calls, 0);
                assert_eq!(body.final_mlp.block_elapsed_ns, 0);
                Some(&body.schedule)
            }
            Lane::TailHead(lane) => {
                assert_eq!((lane.prefill_body_calls, lane.decode_calls), (0, 0));
                assert_eq!(lane.rerank_elapsed_ns, 0);
                Some(&lane.schedule)
            }
            Lane::PackedReference(reference) => {
                assert_eq!((reference.prefill_seed_calls, reference.decode_calls), (0, 0));
                assert_eq!(reference.block_elapsed_ns, 0);
                assert!(reference.state.is_none());
                None
            }
            Lane::Cpu => None,
        };
        if let Some(schedule) = schedule {
            let custody = &schedule.initial_stack.custody;
            fresh(
                &custody.prefill_seed_calls,
                custody.block_elapsed_ns,
                custody.seeded,
            );
            for region in &schedule.boundaries {
                let custody = &region.custody;
                fresh(
                    &custody.prefill_seed_calls,
                    custody.block_elapsed_ns,
                    custody.seeded,
                );
            }
        }
        if matches!(rig.model.lane, Lane::AllLinear(_) | Lane::Stacks(_)) {
            for block in &rig.model.metal_w8_mlp_block_layer_stats() {
                assert_eq!((block.decode_calls, block.block_elapsed_ns), (0, 0));
            }
        }
    }
}

#[test]
fn a_stream_gives_the_same_however_it_is_cut() {
    let tokens = [1, 2, 3, 4, 5];
    let mut one_shot = Rig::cpu(&MINI, 16);
    let full = one_shot.forward(&tokens, 0).unwrap();
    for cut in [vec![2, 1, 1, 1], vec![1, 4], vec![4, 1], vec![1, 1, 1, 1, 1]] {
        let mut rig = Rig::cpu(&MINI, 16);
        let mut start = 0;
        let mut logits = Vec::new();
        for length in cut {
            let part = rig
                .forward(&tokens[start..start + length], start as u32)
                .unwrap();
            logits.extend_from_slice(part.elements());
            start += length;
        }
        assert_eq!(&logits, full.elements());
        assert_eq!(rig.position(), one_shot.position());
        assert_eq!(rig.model.state_ref(), one_shot.model.state_ref());
    }
}
