//! What a lane tells of itself, and what clearing it one part after the other
//! leaves.

use vstd::prelude::*;

use crate::qwen35::boundary_lane::{
    effective, BoundarySchedule, Qwen35MetalW8MlpStack3BoundaryRegionV1, ScheduleResets,
};
use crate::qwen35::config::Qwen35TextConfig;
use crate::qwen35::linear_lane::{
    Qwen35MetalW8AllLinearLayersPrecisionV2, Qwen35MetalW8GdnLayer, Qwen35MetalW8LinearLayer,
    Qwen35PackedW8LinearLayerReference,
};
use crate::qwen35::loader::Qwen35TextWeights;
use crate::qwen35::metal::{
    FunctionChains, GdnCoreProfileV1, LinearLayerMetalStats, LinearLayerStack3MetalStats,
    MlpStack3BoundaryMetalStatsV1, W8GroupSize,
};
use crate::qwen35::mlp_lane::present;
use crate::qwen35::post_laws::present_entries_keep_their_order;
use crate::qwen35::profile::{
    boundary_mechanism, profile_label, stack3_mechanism, tail_head_mechanism,
};
use crate::qwen35::stack_lane::{Qwen35MetalW8LinearLayerStack3V1, Stack3Counters};
use crate::qwen35::stacks_lane::{stack_layer, Qwen35MetalW8LinearLayerStacksV1};
use crate::qwen35::tail_lane::{asked_profile, tail_profile_fault, tail_shapes_fit};

verus! {

/// The counters of a recurrent block are its own and those of the accelerator.
pub proof fn a_recurrent_block_tells_its_counters(layer: Qwen35MetalW8GdnLayer)
    ensures
        layer.stats_of().layer_index == layer.layer_index,
        layer.stats_of().prefill_seed_calls == layer.prefill_seed_calls,
        layer.stats_of().decode_calls == layer.execution.decode_calls,
        layer.stats_of().command_buffers == layer.execution.command_buffers,
        layer.stats_of().waits == layer.execution.waits,
        layer.stats_of().committed_state_version == layer.execution.committed_state_version,
        layer.stats_of().block_elapsed_ns == layer.block_elapsed_ns,
        layer.owns_state() <==> layer.execution.committed_state_version > 0,
{
}

/// The counters of a complete linear layer are its own and those of the
/// accelerator.
pub proof fn a_linear_layer_tells_its_counters(layer: Qwen35MetalW8LinearLayer)
    ensures
        ({
            let stats = layer.stats_of();
            &&& stats.layer_index == layer.layer_index
            &&& stats.prefill_seed_calls == layer.prefill_seed_calls
            &&& stats.decode_calls == layer.execution.decode_calls
            &&& stats.successful_decodes == layer.execution.successful_decodes
            &&& stats.failed_decodes == layer.execution.failed_decodes
            &&& stats.command_buffers == layer.execution.command_buffers
            &&& stats.compute_encoders == layer.execution.compute_encoders
            &&& stats.commits == layer.execution.commits
            &&& stats.waits == layer.execution.waits
            &&& stats.host_to_device_bytes == layer.execution.host_to_device_bytes
            &&& stats.device_to_host_bytes == layer.execution.device_to_host_bytes
            &&& stats.committed_state_version == layer.execution.committed_state_version
            &&& stats.terminal_error == layer.terminal_error
            &&& stats.block_elapsed_ns == layer.block_elapsed_ns
        }),
        layer.precision_profile is Some && layer.quantization is Some ==> {
            &&& layer.precise_stats_of().execution == layer.stats_of()
            &&& layer.precision_profile == Some(layer.precise_stats_of().profile)
            &&& layer.quantization == Some(layer.precise_stats_of().quantization)
        },
{
}

/// The counters of the reference are its own.
pub proof fn the_reference_tells_its_counters(reference: Qwen35PackedW8LinearLayerReference)
    ensures
        ({
            let stats = reference.stats_of();
            &&& stats.layer_index == reference.layer_index
            &&& stats.profile == reference.profile
            &&& stats.quantization == reference.quantization
            &&& stats.prefill_seed_calls == reference.prefill_seed_calls
            &&& stats.decode_calls == reference.decode_calls
            &&& stats.successful_decodes == reference.successful_decodes
            &&& stats.failed_decodes == reference.failed_decodes
            &&& stats.committed_state_version == reference.committed_state_version
            &&& stats.terminal_error == reference.terminal_error
            &&& stats.block_elapsed_ns == reference.block_elapsed_ns
        }),
{
}

/// The counters of a stack are those of its states, of the accelerator and of its
/// ledger.
pub proof fn a_stack_tells_its_states_and_runs(stack: Qwen35MetalW8LinearLayerStack3V1)
    ensures
        ({
            let stats = stack.stats_of();
            &&& stats.layer_indices == stack.layer_indices
            &&& stats.gdn_core_profile == stack.gdn_core_profile
            &&& stats.gdn_function_chain == stack.gdn_function_chain
            &&& stats.quantization == stack.quantization
            &&& stats.prefill_seed_calls == stack.custody.prefill_seed_calls
            &&& stats.execution == stack.counters.execution
            &&& stats.last_gdn_core_receipt == stack.counters.last_gdn_core_receipt
            &&& stats.kernel_dispatches_per_decode == stack.ledger.kernel_dispatches_per_decode
            &&& stats.explicit_buffer_barriers_per_decode
                == stack.ledger.explicit_buffer_barriers_per_decode
            &&& stats.terminal_error == stack.custody.terminal_error
            &&& stats.block_elapsed_ns == stack.custody.block_elapsed_ns
        }),
        stack.ledger_of().layer_indices == stack.layer_indices,
        stack.ledger_of().ledger == stack.ledger,
{
}

/// The counters of a boundary are those of its states, of the accelerator and of
/// its ledger.
pub proof fn a_boundary_tells_its_states_and_runs(region: Qwen35MetalW8MlpStack3BoundaryRegionV1)
    ensures
        ({
            let stats = region.stats_of();
            &&& stats.boundary_mlp_layer_index == region.boundary_mlp_layer_index
            &&& stats.stack_layer_indices == region.stack_layer_indices
            &&& stats.gdn_core_profile == region.gdn_core_profile
            &&& stats.gdn_function_chain == region.gdn_function_chain
            &&& stats.quantization == region.quantization
            &&& stats.prefill_seed_calls == region.custody.prefill_seed_calls
            &&& stats.execution == region.counters.execution
            &&& stats.last_gdn_core_receipt == region.counters.last_gdn_core_receipt
            &&& stats.kernel_dispatches_per_decode == region.ledger.kernel_dispatches_per_decode
            &&& stats.explicit_buffer_barriers_per_decode
                == region.ledger.explicit_buffer_barriers_per_decode
            &&& stats.terminal_error == region.custody.terminal_error
            &&& stats.block_elapsed_ns == region.custody.block_elapsed_ns
        }),
        region.ledger_of().boundary_mlp_layer_index == region.boundary_mlp_layer_index,
        region.ledger_of().stack_layer_indices == region.stack_layer_indices,
        region.ledger_of().ledger == region.ledger,
{
}

/// A lane of all linear layers tells of each of its layers, in their order.
pub proof fn all_linear_layers_are_told_in_order(
    lane: Qwen35MetalW8AllLinearLayersPrecisionV2,
    i: int,
)
    requires
        0 <= i < lane.layers@.len(),
        lane.layers@[i] is Some,
    ensures
        ({
            let place = present(lane.layers@.take(i)).len() as int;
            let layer = lane.layers@[i]->Some_0;
            &&& place < lane.layer_stats_of().len()
            &&& lane.layer_stats_of()[place].execution == layer.stats_of()
            &&& place < lane.ledgers_of().len()
            &&& lane.ledgers_of()[place].layer_index == layer.layer_index
            &&& lane.ledgers_of()[place].ledger == layer.ledger
        }),
{
    present_entries_keep_their_order(lane.layers@, i);
}

proof fn the_first_uncleared_layer(
    layers: Seq<Option<Qwen35MetalW8LinearLayer>>,
    outcomes: Seq<(Result<(), String>, LinearLayerMetalStats)>,
    from: nat,
)
    requires
        from <= layers.len(),
    ensures
        ({
            let stop = Qwen35MetalW8AllLinearLayersPrecisionV2::first_uncleared(
                layers,
                outcomes,
                from,
            );
            &&& from <= stop <= layers.len()
            &&& forall|i: int|
                from <= i < stop && (#[trigger] layers[i]) is Some ==> outcomes[i].0 is Ok
            &&& stop < layers.len() ==> layers[stop as int] is Some && outcomes[stop as int].0
                is Err
        }),
    decreases layers.len() - from,
{
    if from < layers.len() && !(layers[from as int] is Some && outcomes[from as int].0 is Err) {
        the_first_uncleared_layer(layers, outcomes, from + 1);
    }
}

/// Clearing the layers stops at the first that could not be cleared: the layers in
/// front of it are clear, those behind it are as they were, and the lane is
/// terminal exactly where there is such a layer.
pub proof fn a_reset_of_layers_stops_at_a_failure(
    lane: Qwen35MetalW8AllLinearLayersPrecisionV2,
    outcomes: Seq<(Result<(), String>, LinearLayerMetalStats)>,
    after: Qwen35MetalW8AllLinearLayersPrecisionV2,
    i: int,
)
    requires
        lane.resets(outcomes, after),
        0 <= i < lane.layers@.len(),
        lane.layers@[i] is Some,
    ensures
        outcomes[i].0 is Err ==> after.terminal_error,
        after.terminal_error ==> exists|j: int|
            0 <= j < lane.layers@.len() && (#[trigger] lane.layers@[j]) is Some
                && outcomes[j].0 is Err,
        !after.terminal_error ==> {
            let layer = after.layers@[i]->Some_0;
            &&& after.layers@[i] is Some
            &&& !layer.seeded
            &&& !layer.terminal_error
            &&& layer.prefill_seed_calls == 0
            &&& layer.block_elapsed_ns == 0
            &&& layer.execution == outcomes[i].1
            &&& layer.layer_index == lane.layers@[i]->Some_0.layer_index
        },
        (exists|j: int|
            0 <= j < i && (#[trigger] lane.layers@[j]) is Some && outcomes[j].0 is Err)
            ==> after.layers@[i] == lane.layers@[i],
{
    the_first_uncleared_layer(lane.layers@, outcomes, 0);
}

proof fn the_first_uncleared_stack(
    outcomes: Seq<(Result<(), String>, Stack3Counters<LinearLayerStack3MetalStats>)>,
    stacks: nat,
    from: nat,
)
    requires
        from <= stacks,
    ensures
        ({
            let stop = Qwen35MetalW8LinearLayerStacksV1::first_uncleared(outcomes, stacks, from);
            &&& from <= stop <= stacks
            &&& forall|s: int| from <= s < stop ==> (#[trigger] outcomes[s]).0 is Ok
            &&& stop < stacks ==> outcomes[stop as int].0 is Err
        }),
    decreases stacks - from,
{
    if from < stacks && outcomes[from as int].0 is Ok {
        the_first_uncleared_stack(outcomes, stacks, from + 1);
    }
}

/// Clearing the stacks stops at the first that could not be cleared, and the lane
/// is terminal exactly where there is such a stack.
pub proof fn a_reset_of_stacks_stops_at_a_failure(
    lane: Qwen35MetalW8LinearLayerStacksV1,
    outcomes: Seq<(Result<(), String>, Stack3Counters<LinearLayerStack3MetalStats>)>,
    after: Qwen35MetalW8LinearLayerStacksV1,
    s: int,
    place: int,
)
    requires
        lane.resets(outcomes, after),
        0 <= s < lane.stacks@.len(),
        0 <= place < 3,
    ensures
        outcomes[s].0 is Err ==> after.terminal_error,
        after.terminal_error ==> exists|t: int|
            0 <= t < lane.stacks@.len() && (#[trigger] outcomes[t]).0 is Err,
        after.stacks@[s].layer_indices == lane.stacks@[s].layer_indices,
        !after.terminal_error ==> {
            let custody = after.stacks@[s].custody;
            &&& !custody.seeded
            &&& !custody.terminal_error
            &&& custody.pending@[place] is None
            &&& custody.prefill_seed_calls@[place] == 0
            &&& custody.block_elapsed_ns == 0
            &&& after.stacks@[s].counters == outcomes[s].1
        },
        (exists|t: int| 0 <= t < s && (#[trigger] outcomes[t]).0 is Err) ==> after.stacks@[s]
            == lane.stacks@[s],
{
    the_first_uncleared_stack(outcomes, lane.stacks@.len(), 0);
}

proof fn the_first_uncleared_boundary(
    outcomes: Seq<(Result<(), String>, Stack3Counters<MlpStack3BoundaryMetalStatsV1>)>,
    boundaries: nat,
    from: nat,
)
    requires
        from <= boundaries,
    ensures
        ({
            let stop = BoundarySchedule::first_uncleared(outcomes, boundaries, from);
            &&& from <= stop <= boundaries
            &&& forall|b: int| from <= b < stop ==> (#[trigger] outcomes[b]).0 is Ok
            &&& stop < boundaries ==> outcomes[stop as int].0 is Err
        }),
    decreases boundaries - from,
{
    if from < boundaries && outcomes[from as int].0 is Ok {
        the_first_uncleared_boundary(outcomes, boundaries, from + 1);
    }
}

/// The transactions of a schedule are all cleared exactly where none failed; then
/// none holds a state or met an error. Clearing stops at the first failure.
pub proof fn a_reset_of_the_schedule_stops_at_a_failure(
    schedule: BoundarySchedule,
    outcomes: ScheduleResets,
    after: BoundarySchedule,
    b: int,
    place: int,
)
    requires
        schedule.resets(outcomes, after),
        0 <= b < schedule.boundaries@.len(),
        0 <= place < 3,
    ensures
        schedule.all_cleared(outcomes) <==> {
            &&& outcomes.initial_stack.0 is Ok
            &&& forall|c: int|
                0 <= c < schedule.boundaries@.len() ==> (
                #[trigger] outcomes.boundaries@[c]).0 is Ok
        },
        schedule.all_cleared(outcomes) ==> {
            let custody = after.boundaries@[b].custody;
            &&& !custody.seeded
            &&& !custody.terminal_error
            &&& custody.pending@[place] is None
            &&& !after.initial_stack.custody.seeded
            &&& !after.initial_stack.custody.terminal_error
            &&& after.initial_stack.custody.pending@[place] is None
        },
        outcomes.initial_stack.0 is Err ==> after.boundaries@[b] == schedule.boundaries@[b],
        (exists|c: int| 0 <= c < b && (#[trigger] outcomes.boundaries@[c]).0 is Err)
            ==> after.boundaries@[b] == schedule.boundaries@[b],
{
    the_first_uncleared_boundary(outcomes.boundaries@, schedule.boundaries@.len(), 0);
}

/// The layers of a stack follow each other.
pub proof fn layers_of_a_stack_follow_each_other(first: usize, place: int)
    requires
        0 <= place < 3,
        first + 2 <= usize::MAX,
    ensures
        stack_layer(first, place) == first + place,
{
}

/// A core profile has its own kernels, its own name and its own mechanisms.
pub proof fn a_core_profile_has_its_own_names(chains: FunctionChains)
    ensures
        chains.of(GdnCoreProfileV1::LegacyFourDispatch) == chains.legacy_four_dispatch,
        chains.of(GdnCoreProfileV1::QkStagedFourDispatch) == chains.qk_staged_four_dispatch,
        chains.of(GdnCoreProfileV1::Fused128) == chains.fused_128,
        profile_label(GdnCoreProfileV1::LegacyFourDispatch) == "legacy-four-dispatch",
        profile_label(GdnCoreProfileV1::Fused128) == "gdn-core-fused-v1",
        stack3_mechanism(GdnCoreProfileV1::LegacyFourDispatch)
            == "metal-w8-linear-layer-stack3-v1",
        stack3_mechanism(GdnCoreProfileV1::Fused128)
            == "metal-w8-linear-layer-stack3-gdn-core-fused-v1",
        boundary_mechanism(GdnCoreProfileV1::LegacyFourDispatch)
            == "metal-w8-mlp-stack3-boundary-v1",
        boundary_mechanism(GdnCoreProfileV1::Fused128)
            == "metal-w8-mlp-stack3-boundary-gdn-core-fused-v1",
        tail_head_mechanism(GdnCoreProfileV1::LegacyFourDispatch)
            == "metal-w8-mlp-stack3-boundary-tail-head-v1",
        tail_head_mechanism(GdnCoreProfileV1::Fused128)
            == "metal-w8-mlp-stack3-boundary-tail-head-gdn-core-fused-v1",
        W8GroupSize::G32.count() == 32,
        W8GroupSize::G64.count() == 64,
{
}

/// A profile is asked for by name only at the shape of the fused core, and the
/// fused core only there; without a name the plain core runs.
pub proof fn a_fused_core_is_asked_for_at_its_shape(
    config: Qwen35TextConfig,
    profile: GdnCoreProfileV1,
)
    requires
        tail_profile_fault(config, profile) is None,
    ensures
        profile != GdnCoreProfileV1::QkStagedFourDispatch,
        profile == GdnCoreProfileV1::Fused128 ==> {
            &&& config.hidden_size == 1024
            &&& config.linear_key_head_dim == 128
            &&& config.linear_value_head_dim == 128
            &&& asked_profile(config, profile) == Some(profile)
        },
        asked_profile(config, profile) is None ==> effective(asked_profile(config, profile))
            == GdnCoreProfileV1::LegacyFourDispatch,
        effective(Some(profile)) == profile,
{
}

/// The tail takes a norm of the last layer, the final norm and the embedding, of
/// the sizes of the model.
pub proof fn a_tail_has_the_sizes_of_the_model(
    weights: Qwen35TextWeights,
    config: Qwen35TextConfig,
)
    ensures
        tail_shapes_fit(weights, config) <==> {
            &&& weights.layers@[23].post_attention_norm_weight.dims() == seq![config.hidden_size]
            &&& weights.output_norm_weight.dims() == seq![config.hidden_size]
            &&& weights.token_embedding.dims() == seq![config.vocab_size, config.hidden_size]
        },
{
}

} // verus!
