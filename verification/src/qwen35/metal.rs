//! What an accelerator reports: block sizes, counters and buffer ledgers.
//!
//! The accelerator itself is outside of the library. Its blocks are built and
//! run by the caller, who hands these plain values in.

use vstd::prelude::*;

verus! {

/// How the recurrent core of a linear-attention layer is dispatched.
#[derive(Clone, Copy, Debug, PartialEq, Eq, Structural)]
pub enum GdnCoreProfileV1 {
    LegacyFourDispatch,
    QkStagedFourDispatch,
    Fused128,
}

/// The kernel names that each core profile runs, as the accelerator names them.
#[derive(Clone, Copy, Debug, PartialEq, Eq)]
pub struct FunctionChains {
    pub legacy_four_dispatch: &'static str,
    pub qk_staged_four_dispatch: &'static str,
    pub fused_128: &'static str,
}

impl FunctionChains {
    /// The kernels of a profile.
    pub open spec fn of(self, profile: GdnCoreProfileV1) -> &'static str {
        match profile {
            GdnCoreProfileV1::LegacyFourDispatch => self.legacy_four_dispatch,
            GdnCoreProfileV1::QkStagedFourDispatch => self.qk_staged_four_dispatch,
            GdnCoreProfileV1::Fused128 => self.fused_128,
        }
    }

    /// The kernels of a profile.
    pub fn expected_function_chain(&self, profile: GdnCoreProfileV1) -> (chain: &'static str)
        ensures
            chain == self.of(profile),
    {
        match profile {
            GdnCoreProfileV1::LegacyFourDispatch => self.legacy_four_dispatch,
            GdnCoreProfileV1::QkStagedFourDispatch => self.qk_staged_four_dispatch,
            GdnCoreProfileV1::Fused128 => self.fused_128,
        }
    }
}

/// How many columns of a packed row share one scale.
#[derive(Clone, Copy, Debug, PartialEq, Eq, Structural)]
pub enum W8GroupSize {
    G32,
    G64,
}

impl W8GroupSize {
    /// The number of columns.
    pub open spec fn count(self) -> usize {
        match self {
            W8GroupSize::G32 => 32,
            W8GroupSize::G64 => 64,
        }
    }

    /// The number of columns.
    pub fn columns(self) -> (columns: usize)
        ensures
            columns == self.count(),
    {
        match self {
            W8GroupSize::G32 => 32,
            W8GroupSize::G64 => 64,
        }
    }
}

/// The number of candidates that the accelerated head publishes.
pub const W8_TOP_K: usize = 4;

/// The sizes of a recurrent block.
#[derive(Clone, Copy, Debug, PartialEq, Eq, Structural)]
pub struct GdnDimensions {
    pub hidden_size: usize,
    pub key_heads: usize,
    pub value_heads: usize,
    pub key_dim: usize,
    pub value_dim: usize,
    pub conv_kernel_size: usize,
    pub rms_norm_eps_bits: u32,
}

/// The group sizes and scale bytes of a packed linear layer.
#[derive(Clone, Copy, Debug, PartialEq, Eq, Structural)]
pub struct LinearLayerQuantizationLedger {
    pub gdn_input_group_size: W8GroupSize,
    pub gdn_output_group_size: W8GroupSize,
    pub mlp_gate_group_size: W8GroupSize,
    pub mlp_up_group_size: W8GroupSize,
    pub mlp_down_group_size: W8GroupSize,
    pub gdn_input_scale_bytes: usize,
    pub gdn_output_scale_bytes: usize,
    pub mlp_gate_scale_bytes: usize,
    pub mlp_up_scale_bytes: usize,
    pub mlp_down_scale_bytes: usize,
}

/// The counters of a recurrent block.
#[derive(Clone, Copy, Debug, PartialEq, Eq, Structural)]
pub struct GdnMetalStats {
    pub decode_calls: usize,
    pub command_buffers: usize,
    pub waits: usize,
    pub committed_state_version: u64,
}

impl Default for GdnMetalStats {
    fn default() -> (r: GdnMetalStats)
        ensures
            r == (GdnMetalStats {
                decode_calls: 0,
                command_buffers: 0,
                waits: 0,
                committed_state_version: 0,
            }),
    {
        GdnMetalStats {
            decode_calls: 0,
            command_buffers: 0,
            waits: 0,
            committed_state_version: 0,
        }
    }
}

/// The counters of a linear-layer block.
#[derive(Clone, Copy, Debug, PartialEq, Eq, Structural)]
pub struct LinearLayerMetalStats {
    pub decode_calls: usize,
    pub successful_decodes: usize,
    pub failed_decodes: usize,
    pub command_buffers: usize,
    pub compute_encoders: usize,
    pub commits: usize,
    pub waits: usize,
    pub host_to_device_bytes: usize,
    pub device_to_host_bytes: usize,
    pub committed_state_version: u64,
}

impl Default for LinearLayerMetalStats {
    fn default() -> (r: LinearLayerMetalStats)
        ensures
            r == (LinearLayerMetalStats {
                decode_calls: 0,
                successful_decodes: 0,
                failed_decodes: 0,
                command_buffers: 0,
                compute_encoders: 0,
                commits: 0,
                waits: 0,
                host_to_device_bytes: 0,
                device_to_host_bytes: 0,
                committed_state_version: 0,
            }),
    {
        LinearLayerMetalStats {
            decode_calls: 0,
            successful_decodes: 0,
            failed_decodes: 0,
            command_buffers: 0,
            compute_encoders: 0,
            commits: 0,
            waits: 0,
            host_to_device_bytes: 0,
            device_to_host_bytes: 0,
            committed_state_version: 0,
        }
    }
}

/// The counters of a transaction over three layers.
#[derive(Clone, Copy, Debug, PartialEq, Eq, Structural)]
pub struct LinearLayerStack3MetalStats {
    pub decode_calls: usize,
    pub successful_decodes: usize,
    pub failed_decodes: usize,
    pub command_buffers: usize,
    pub compute_encoders: usize,
    pub commits: usize,
    pub waits: usize,
    pub host_to_device_bytes: usize,
    pub device_to_host_bytes: usize,
    pub state_commits: usize,
    pub last_state_commit_mask: u32,
    pub committed_stack_version: u64,
}

impl Default for LinearLayerStack3MetalStats {
    fn default() -> (r: LinearLayerStack3MetalStats)
        ensures
            r == (LinearLayerStack3MetalStats {
                decode_calls: 0,
                successful_decodes: 0,
                failed_decodes: 0,
                command_buffers: 0,
                compute_encoders: 0,
                commits: 0,
                waits: 0,
                host_to_device_bytes: 0,
                device_to_host_bytes: 0,
                state_commits: 0,
                last_state_commit_mask: 0,
                committed_stack_version: 0,
            }),
    {
        LinearLayerStack3MetalStats {
            decode_calls: 0,
            successful_decodes: 0,
            failed_decodes: 0,
            command_buffers: 0,
            compute_encoders: 0,
            commits: 0,
            waits: 0,
            host_to_device_bytes: 0,
            device_to_host_bytes: 0,
            state_commits: 0,
            last_state_commit_mask: 0,
            committed_stack_version: 0,
        }
    }
}

/// The counters of a transaction over a feed-forward block and three layers.
#[derive(Clone, Copy, Debug, PartialEq, Eq, Structural)]
pub struct MlpStack3BoundaryMetalStatsV1 {
    pub decode_calls: usize,
    pub successful_decodes: usize,
    pub failed_decodes: usize,
    pub command_buffers: usize,
    pub compute_encoders: usize,
    pub commits: usize,
    pub waits: usize,
    pub host_to_device_bytes: usize,
    pub device_to_host_bytes: usize,
    pub state_commits: usize,
    pub last_state_commit_mask: u32,
    pub committed_stack_version: u64,
}

impl Default for MlpStack3BoundaryMetalStatsV1 {
    fn default() -> (r: MlpStack3BoundaryMetalStatsV1)
        ensures
            r == (MlpStack3BoundaryMetalStatsV1 {
                decode_calls: 0,
                successful_decodes: 0,
                failed_decodes: 0,
                command_buffers: 0,
                compute_encoders: 0,
                commits: 0,
                waits: 0,
                host_to_device_bytes: 0,
                device_to_host_bytes: 0,
                state_commits: 0,
                last_state_commit_mask: 0,
                committed_stack_version: 0,
            }),
    {
        MlpStack3BoundaryMetalStatsV1 {
            decode_calls: 0,
            successful_decodes: 0,
            failed_decodes: 0,
            command_buffers: 0,
            compute_encoders: 0,
            commits: 0,
            waits: 0,
            host_to_device_bytes: 0,
            device_to_host_bytes: 0,
            state_commits: 0,
            last_state_commit_mask: 0,
            committed_stack_version: 0,
        }
    }
}

/// The counters of the transaction over the last feed-forward block and the head.
#[derive(Clone, Copy, Debug, PartialEq, Eq, Structural)]
pub struct TailMlpHeadMetalStatsV1 {
    pub decode_calls: usize,
    pub successful_decodes: usize,
    pub failed_decodes: usize,
    pub command_buffers: usize,
    pub compute_encoders: usize,
    pub kernel_dispatches: usize,
    pub commits: usize,
    pub waits: usize,
    pub host_to_device_bytes: usize,
    pub device_to_host_bytes: usize,
    pub output_commits: usize,
    pub last_output_commit_mask: u32,
    pub terminal_error: bool,
}

impl Default for TailMlpHeadMetalStatsV1 {
    fn default() -> (r: TailMlpHeadMetalStatsV1)
        ensures
            r == (TailMlpHeadMetalStatsV1 {
                decode_calls: 0,
                successful_decodes: 0,
                failed_decodes: 0,
                command_buffers: 0,
                compute_encoders: 0,
                kernel_dispatches: 0,
                commits: 0,
                waits: 0,
                host_to_device_bytes: 0,
                device_to_host_bytes: 0,
                output_commits: 0,
                last_output_commit_mask: 0,
                terminal_error: false,
            }),
    {
        TailMlpHeadMetalStatsV1 {
            decode_calls: 0,
            successful_decodes: 0,
            failed_decodes: 0,
            command_buffers: 0,
            compute_encoders: 0,
            kernel_dispatches: 0,
            commits: 0,
            waits: 0,
            host_to_device_bytes: 0,
            device_to_host_bytes: 0,
            output_commits: 0,
            last_output_commit_mask: 0,
            terminal_error: false,
        }
    }
}

/// What the last decode reported of its recurrent cores.
#[derive(Clone, Copy, Debug, PartialEq, Eq)]
pub struct GdnCoreProductionReceiptV1 {
    pub profile: GdnCoreProfileV1,
    pub function_chain: &'static str,
    pub gdn_core_seams: u64,
    pub kernel_dispatches: u64,
    pub explicit_buffer_barriers: u64,
    pub recurrent_or_fused_threads_per_threadgroup: u64,
    pub threadgroups: u64,
    pub launched_threads: u64,
    pub pipeline_thread_execution_width: u64,
    pub source_declared_threadgroup_memory_bytes: u64,
    pub pipeline_static_threadgroup_memory_bytes: u64,
    pub internal_threadgroup_barrier_sites_per_threadgroup: u64,
    pub fixed_shape_validated: bool,
    pub rms_norm_eps_bits: u32,
    pub persistent_output_groups_per_row: u64,
    pub core_kernel_output_groups_per_row: u64,
}

/// The buffers of a linear-layer block and its traffic per decode.
#[derive(Clone, Copy, Debug, PartialEq, Eq, Structural)]
pub struct LinearLayerBufferLedger {
    pub allocated_buffers: usize,
    pub shared_buffers: usize,
    pub private_buffers: usize,
    pub total_persistent_bytes: usize,
    pub host_input_bytes_per_decode: usize,
    pub host_output_bytes_per_decode: usize,
    pub state_host_transfer_bytes_per_decode: usize,
    pub command_buffers_per_decode: usize,
    pub compute_encoders_per_decode: usize,
    pub commits_per_decode: usize,
    pub waits_per_decode: usize,
}

/// The buffers of a feed-forward block and its traffic per decode.
#[derive(Clone, Copy, Debug, PartialEq, Eq)]
pub struct MlpBlockBufferLedger {
    pub scope: &'static str,
    pub allocated_buffers: usize,
    pub shared_buffers: usize,
    pub private_buffers: usize,
    pub packed_weight_bytes: usize,
    pub packed_scale_bytes: usize,
    pub activation_bytes: usize,
    pub total_persistent_bytes: usize,
    pub host_input_bytes_per_decode: usize,
    pub host_output_bytes_per_decode: usize,
    pub state_host_transfer_bytes_per_decode: usize,
    pub command_buffers_per_decode: usize,
    pub compute_encoders_per_decode: usize,
    pub commits_per_decode: usize,
    pub waits_per_decode: usize,
}

/// The buffers of a transaction over three layers.
#[derive(Clone, Copy, Debug, PartialEq, Eq)]
pub struct LinearLayerStack3BufferLedger {
    pub gdn_core_profile: GdnCoreProfileV1,
    pub gdn_function_chain: &'static str,
    pub allocated_buffers: usize,
    pub shared_buffers: usize,
    pub private_buffers: usize,
    pub packed_weight_bytes: usize,
    pub packed_scale_bytes: usize,
    pub f32_parameter_bytes: usize,
    pub active_state_bytes: usize,
    pub scratch_state_bytes: usize,
    pub activation_bytes: usize,
    pub total_persistent_bytes: usize,
    pub host_input_bytes_per_decode: usize,
    pub host_output_bytes_per_decode: usize,
    pub state_host_transfer_bytes_per_decode: usize,
    pub command_buffers_per_decode: usize,
    pub compute_encoders_per_decode: usize,
    pub kernel_dispatches_per_decode: usize,
    pub explicit_buffer_barriers_per_decode: usize,
    pub gdn_core_seams_per_decode: usize,
    pub gdn_core_kernel_dispatches_per_decode: usize,
    pub gdn_core_explicit_buffer_barriers_per_decode: usize,
    pub gdn_core_recurrent_or_fused_threads_per_threadgroup: usize,
    pub gdn_core_threadgroups_per_decode: usize,
    pub gdn_core_launched_threads_per_decode: usize,
    pub gdn_core_source_declared_threadgroup_memory_bytes: usize,
    pub gdn_core_expected_pipeline_static_threadgroup_memory_bytes: usize,
    pub gdn_core_internal_threadgroup_barrier_sites_per_threadgroup: usize,
    pub commits_per_decode: usize,
    pub waits_per_decode: usize,
    pub intermediate_host_finite_checks_per_decode: usize,
    pub final_output_finite_checks_per_decode: usize,
}

/// The buffers of a transaction over a feed-forward block and three layers.
#[derive(Clone, Copy, Debug, PartialEq, Eq)]
pub struct MlpStack3BoundaryBufferLedgerV1 {
    pub gdn_core_profile: GdnCoreProfileV1,
    pub gdn_function_chain: &'static str,
    pub scope: &'static str,
    pub exclusions: &'static str,
    pub abi_version: u32,
    pub stack_depth: usize,
    pub allocated_buffers: usize,
    pub shared_buffers: usize,
    pub private_buffers: usize,
    pub packed_weight_bytes: usize,
    pub packed_scale_bytes: usize,
    pub f32_parameter_bytes: usize,
    pub active_state_bytes: usize,
    pub scratch_state_bytes: usize,
    pub activation_bytes: usize,
    pub total_persistent_bytes: usize,
    pub host_input_bytes_per_decode: usize,
    pub host_output_bytes_per_decode: usize,
    pub state_host_transfer_bytes_per_decode: usize,
    pub command_buffers_per_decode: usize,
    pub compute_encoders_per_decode: usize,
    pub kernel_dispatches_per_decode: usize,
    pub explicit_buffer_barriers_per_decode: usize,
    pub gdn_core_seams_per_decode: usize,
    pub gdn_core_kernel_dispatches_per_decode: usize,
    pub gdn_core_explicit_buffer_barriers_per_decode: usize,
    pub gdn_core_recurrent_or_fused_threads_per_threadgroup: usize,
    pub gdn_core_threadgroups_per_decode: usize,
    pub gdn_core_launched_threads_per_decode: usize,
    pub gdn_core_source_declared_threadgroup_memory_bytes: usize,
    pub gdn_core_expected_pipeline_static_threadgroup_memory_bytes: usize,
    pub gdn_core_internal_threadgroup_barrier_sites_per_threadgroup: usize,
    pub commits_per_decode: usize,
    pub waits_per_decode: usize,
    pub intermediate_host_finite_checks_per_decode: usize,
    pub final_output_finite_checks_per_decode: usize,
}

/// The buffers of the transaction over the last feed-forward block and the head.
#[derive(Clone, Copy, Debug, PartialEq, Eq, Structural)]
pub struct TailMlpHeadBufferLedgerV1 {
    pub allocated_buffers: usize,
    pub shared_buffers: usize,
    pub private_buffers: usize,
    pub total_persistent_bytes: usize,
    pub host_input_bytes_per_decode: usize,
    pub host_output_bytes_per_decode: usize,
    pub state_host_transfer_bytes_per_decode: usize,
    pub command_buffers_per_decode: usize,
    pub compute_encoders_per_decode: usize,
    pub kernel_dispatches_per_decode: usize,
    pub buffer_barriers_per_decode: usize,
    pub commits_per_decode: usize,
    pub waits_per_decode: usize,
}

/// The buffers of the accelerated head and its traffic per call.
#[derive(Clone, Copy, Debug, PartialEq, Eq, Structural)]
pub struct LmHeadBufferLedger {
    pub allocated_buffers: usize,
    pub shared_buffers: usize,
    pub private_buffers: usize,
    pub total_persistent_bytes: usize,
    pub host_input_bytes_per_call: usize,
    pub host_output_bytes_per_call: usize,
    pub state_host_transfer_bytes_per_call: usize,
    pub command_buffers_per_call: usize,
    pub compute_encoders_per_call: usize,
    pub commits_per_call: usize,
    pub waits_per_call: usize,
}

} // verus!
