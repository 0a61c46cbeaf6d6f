//! A receipt tells every counter under its own name.

use vstd::prelude::*;

use crate::qwen35::boundary_lane::{
    Qwen35MetalW8MlpStack3BoundaryBodyV1Stats, Qwen35MetalW8MlpStack3BoundaryRegionV1Stats,
};
use crate::qwen35::ledger::{
    Qwen35MetalW8MlpStack3BoundaryBodyV1AggregateLedger,
    Qwen35MetalW8MlpStack3BoundaryTailHeadV1AggregateLedger,
};
use crate::qwen35::linear_lane::{
    Qwen35MetalW8AllLinearLayersPrecisionV2Stats, Qwen35MetalW8LinearLayerPrecisionV2Stats,
};
use crate::qwen35::metal::GdnCoreProductionReceiptV1;
use crate::qwen35::mlp_lane::Qwen35MetalW8MlpBlockStats;
use crate::qwen35::model::Qwen35MetalW8LmHeadStats;
use crate::qwen35::receipt::{
    all_linear_receipt_of, block_record_of, body_receipt_of, body_region_record_of,
    body_stack_record_of, body_totals_record_of, core_record_of, decode_head_record_of,
    final_mlp_record_of, head_record_of, layer_record_of, plain_receipt_of,
    prefill_head_record_of, stack3_head_receipt_of, stack3_head_record_of, stack_record_of,
    stacks_receipt_of, tail_receipt_of, tail_region_record_of, tail_stack_record_of,
    tail_totals_record_of, PathView,
};
use crate::qwen35::stack_lane::Qwen35MetalW8LinearLayerStack3V1Stats;
use crate::qwen35::stacks_lane::Qwen35MetalW8LinearLayerStacksV1Stats;
use crate::qwen35::tail_lane::Qwen35MetalW8MlpStack3BoundaryTailHeadV1Stats;

verus! {

/// A record tells a number under a name.
pub open spec fn tells_number(
    record: Seq<(&'static str, PathView)>,
    name: &'static str,
    number: nat,
) -> bool {
    exists|k: int|
        0 <= k < record.len() && (#[trigger] record[k]) == (name, PathView::Number(number))
}

/// A record tells a truth value under a name.
pub open spec fn tells_flag(
    record: Seq<(&'static str, PathView)>,
    name: &'static str,
    flag: bool,
) -> bool {
    exists|k: int| 0 <= k < record.len() && (#[trigger] record[k]) == (name, PathView::Flag(flag))
}

/// A record tells a part under a name.
pub open spec fn tells_part(
    record: Seq<(&'static str, PathView)>,
    name: &'static str,
    part: PathView,
) -> bool {
    exists|k: int| 0 <= k < record.len() && (#[trigger] record[k]) == (name, part)
}

/// A recurrent core tells its run under the names of its counters.
pub proof fn a_core_tells_its_run(stats: GdnCoreProductionReceiptV1)
    ensures
        tells_number(core_record_of(stats), "gdn_core_seams", stats.gdn_core_seams as nat),
        tells_number(core_record_of(stats), "kernel_dispatches", stats.kernel_dispatches as nat),
        tells_number(
            core_record_of(stats),
            "explicit_buffer_barriers",
            stats.explicit_buffer_barriers as nat,
        ),
        tells_number(
            core_record_of(stats),
            "recurrent_or_fused_threads_per_threadgroup",
            stats.recurrent_or_fused_threads_per_threadgroup as nat,
        ),
        tells_number(core_record_of(stats), "threadgroups", stats.threadgroups as nat),
        tells_number(core_record_of(stats), "launched_threads", stats.launched_threads as nat),
        tells_number(
            core_record_of(stats),
            "pipeline_thread_execution_width",
            stats.pipeline_thread_execution_width as nat,
        ),
        tells_number(
            core_record_of(stats),
            "source_declared_threadgroup_memory_bytes",
            stats.source_declared_threadgroup_memory_bytes as nat,
        ),
        tells_number(
            core_record_of(stats),
            "pipeline_static_threadgroup_memory_bytes",
            stats.pipeline_static_threadgroup_memory_bytes as nat,
        ),
        tells_number(
            core_record_of(stats),
            "internal_threadgroup_barrier_sites_per_threadgroup",
            stats.internal_threadgroup_barrier_sites_per_threadgroup as nat,
        ),
        tells_flag(core_record_of(stats), "fixed_shape_validated", stats.fixed_shape_validated),
        tells_number(core_record_of(stats), "rms_norm_eps_bits", stats.rms_norm_eps_bits as nat),
        tells_number(
            core_record_of(stats),
            "persistent_output_groups_per_row",
            stats.persistent_output_groups_per_row as nat,
        ),
        tells_number(
            core_record_of(stats),
            "core_kernel_output_groups_per_row",
            stats.core_kernel_output_groups_per_row as nat,
        ),
{
    let record = core_record_of(stats);
    assert(record[2].0 == "gdn_core_seams");
    assert(record[3].0 == "kernel_dispatches");
    assert(record[4].0 == "explicit_buffer_barriers");
    assert(record[5].0 == "recurrent_or_fused_threads_per_threadgroup");
    assert(record[6].0 == "threadgroups");
    assert(record[7].0 == "launched_threads");
    assert(record[8].0 == "pipeline_thread_execution_width");
    assert(record[9].0 == "source_declared_threadgroup_memory_bytes");
    assert(record[10].0 == "pipeline_static_threadgroup_memory_bytes");
    assert(record[11].0 == "internal_threadgroup_barrier_sites_per_threadgroup");
    assert(record[12].0 == "fixed_shape_validated");
    assert(record[13].0 == "rms_norm_eps_bits");
    assert(record[14].0 == "persistent_output_groups_per_row");
    assert(record[15].0 == "core_kernel_output_groups_per_row");
}

/// The first stack in front of a tail tells each counter under its own name.
pub proof fn the_first_stack_in_front_of_a_tail_tells_its_counters(
    stats: Qwen35MetalW8LinearLayerStack3V1Stats,
)
    ensures
        tells_number(
            tail_stack_record_of(stats),
            "kernel_dispatches_per_decode",
            stats.kernel_dispatches_per_decode as nat,
        ),
        tells_number(
            tail_stack_record_of(stats),
            "explicit_buffer_barriers_per_decode",
            stats.explicit_buffer_barriers_per_decode as nat,
        ),
        tells_number(
            tail_stack_record_of(stats),
            "decode_calls",
            stats.execution.decode_calls as nat,
        ),
        tells_number(
            tail_stack_record_of(stats),
            "successful_decodes",
            stats.execution.successful_decodes as nat,
        ),
        tells_number(
            tail_stack_record_of(stats),
            "failed_decodes",
            stats.execution.failed_decodes as nat,
        ),
        tells_number(
            tail_stack_record_of(stats),
            "command_buffers",
            stats.execution.command_buffers as nat,
        ),
        tells_number(
            tail_stack_record_of(stats),
            "compute_encoders",
            stats.execution.compute_encoders as nat,
        ),
        tells_number(tail_stack_record_of(stats), "commits", stats.execution.commits as nat),
        tells_number(tail_stack_record_of(stats), "waits", stats.execution.waits as nat),
        tells_number(
            tail_stack_record_of(stats),
            "host_to_device_bytes",
            stats.execution.host_to_device_bytes as nat,
        ),
        tells_number(
            tail_stack_record_of(stats),
            "device_to_host_bytes",
            stats.execution.device_to_host_bytes as nat,
        ),
        tells_number(
            tail_stack_record_of(stats),
            "state_commits",
            stats.execution.state_commits as nat,
        ),
        tells_number(
            tail_stack_record_of(stats),
            "last_state_commit_mask",
            stats.execution.last_state_commit_mask as nat,
        ),
        tells_number(
            tail_stack_record_of(stats),
            "committed_stack_version",
            stats.execution.committed_stack_version as nat,
        ),
        tells_flag(tail_stack_record_of(stats), "terminal_error", stats.terminal_error),
        tells_number(
            tail_stack_record_of(stats),
            "block_elapsed_ns",
            stats.block_elapsed_ns as nat,
        ),
{
    let record = tail_stack_record_of(stats);
    assert(record[5].0 == "kernel_dispatches_per_decode");
    assert(record[6].0 == "explicit_buffer_barriers_per_decode");
    assert(record[8].0 == "decode_calls");
    assert(record[9].0 == "successful_decodes");
    assert(record[10].0 == "failed_decodes");
    assert(record[11].0 == "command_buffers");
    assert(record[12].0 == "compute_encoders");
    assert(record[13].0 == "commits");
    assert(record[14].0 == "waits");
    assert(record[15].0 == "host_to_device_bytes");
    assert(record[16].0 == "device_to_host_bytes");
    assert(record[17].0 == "state_commits");
    assert(record[18].0 == "last_state_commit_mask");
    assert(record[19].0 == "committed_stack_version");
    assert(record[20].0 == "terminal_error");
    assert(record[21].0 == "block_elapsed_ns");
}

/// A boundary in front of a tail tells each counter under its own name.
pub proof fn a_boundary_in_front_of_a_tail_tells_its_counters(
    stats: Qwen35MetalW8MlpStack3BoundaryRegionV1Stats,
)
    ensures
        tells_number(
            tail_region_record_of(stats),
            "boundary_mlp_layer_index",
            stats.boundary_mlp_layer_index as nat,
        ),
        tells_number(
            tail_region_record_of(stats),
            "kernel_dispatches_per_decode",
            stats.kernel_dispatches_per_decode as nat,
        ),
        tells_number(
            tail_region_record_of(stats),
            "explicit_buffer_barriers_per_decode",
            stats.explicit_buffer_barriers_per_decode as nat,
        ),
        tells_number(
            tail_region_record_of(stats),
            "decode_calls",
            stats.execution.decode_calls as nat,
        ),
        tells_number(
            tail_region_record_of(stats),
            "successful_decodes",
            stats.execution.successful_decodes as nat,
        ),
        tells_number(
            tail_region_record_of(stats),
            "failed_decodes",
            stats.execution.failed_decodes as nat,
        ),
        tells_number(
            tail_region_record_of(stats),
            "command_buffers",
            stats.execution.command_buffers as nat,
        ),
        tells_number(
            tail_region_record_of(stats),
            "compute_encoders",
            stats.execution.compute_encoders as nat,
        ),
        tells_number(tail_region_record_of(stats), "commits", stats.execution.commits as nat),
        tells_number(tail_region_record_of(stats), "waits", stats.execution.waits as nat),
        tells_number(
            tail_region_record_of(stats),
            "host_to_device_bytes",
            stats.execution.host_to_device_bytes as nat,
        ),
        tells_number(
            tail_region_record_of(stats),
            "device_to_host_bytes",
            stats.execution.device_to_host_bytes as nat,
        ),
        tells_number(
            tail_region_record_of(stats),
            "state_commits",
            stats.execution.state_commits as nat,
        ),
        tells_number(
            tail_region_record_of(stats),
            "last_state_commit_mask",
            stats.execution.last_state_commit_mask as nat,
        ),
        tells_number(
            tail_region_record_of(stats),
            "committed_stack_version",
            stats.execution.committed_stack_version as nat,
        ),
        tells_flag(tail_region_record_of(stats), "terminal_error", stats.terminal_error),
        tells_number(
            tail_region_record_of(stats),
            "block_elapsed_ns",
            stats.block_elapsed_ns as nat,
        ),
{
    let record = tail_region_record_of(stats);
    assert(record[0].0 == "boundary_mlp_layer_index");
    assert(record[6].0 == "kernel_dispatches_per_decode");
    assert(record[7].0 == "explicit_buffer_barriers_per_decode");
    assert(record[9].0 == "decode_calls");
    assert(record[10].0 == "successful_decodes");
    assert(record[11].0 == "failed_decodes");
    assert(record[12].0 == "command_buffers");
    assert(record[13].0 == "compute_encoders");
    assert(record[14].0 == "commits");
    assert(record[15].0 == "waits");
    assert(record[16].0 == "host_to_device_bytes");
    assert(record[17].0 == "device_to_host_bytes");
    assert(record[18].0 == "state_commits");
    assert(record[19].0 == "last_state_commit_mask");
    assert(record[20].0 == "committed_stack_version");
    assert(record[21].0 == "terminal_error");
    assert(record[22].0 == "block_elapsed_ns");
}

/// The first stack of a boundary body tells each counter under its own name.
pub proof fn the_first_stack_of_a_body_tells_its_counters(
    stats: Qwen35MetalW8LinearLayerStack3V1Stats,
)
    ensures
        tells_number(
            body_stack_record_of(stats),
            "decode_calls",
            stats.execution.decode_calls as nat,
        ),
        tells_number(
            body_stack_record_of(stats),
            "successful_decodes",
            stats.execution.successful_decodes as nat,
        ),
        tells_number(
            body_stack_record_of(stats),
            "failed_decodes",
            stats.execution.failed_decodes as nat,
        ),
        tells_number(
            body_stack_record_of(stats),
            "command_buffers",
            stats.execution.command_buffers as nat,
        ),
        tells_number(
            body_stack_record_of(stats),
            "compute_encoders",
            stats.execution.compute_encoders as nat,
        ),
        tells_number(body_stack_record_of(stats), "commits", stats.execution.commits as nat),
        tells_number(body_stack_record_of(stats), "waits", stats.execution.waits as nat),
        tells_number(
            body_stack_record_of(stats),
            "host_to_device_bytes",
            stats.execution.host_to_device_bytes as nat,
        ),
        tells_number(
            body_stack_record_of(stats),
            "device_to_host_bytes",
            stats.execution.device_to_host_bytes as nat,
        ),
        tells_number(
            body_stack_record_of(stats),
            "state_commits",
            stats.execution.state_commits as nat,
        ),
        tells_number(
            body_stack_record_of(stats),
            "last_state_commit_mask",
            stats.execution.last_state_commit_mask as nat,
        ),
        tells_number(
            body_stack_record_of(stats),
            "committed_stack_version",
            stats.execution.committed_stack_version as nat,
        ),
        tells_flag(body_stack_record_of(stats), "terminal_error", stats.terminal_error),
        tells_number(
            body_stack_record_of(stats),
            "block_elapsed_ns",
            stats.block_elapsed_ns as nat,
        ),
{
    let record = body_stack_record_of(stats);
    assert(record[4].0 == "decode_calls");
    assert(record[5].0 == "successful_decodes");
    assert(record[6].0 == "failed_decodes");
    assert(record[7].0 == "command_buffers");
    assert(record[8].0 == "compute_encoders");
    assert(record[9].0 == "commits");
    assert(record[10].0 == "waits");
    assert(record[11].0 == "host_to_device_bytes");
    assert(record[12].0 == "device_to_host_bytes");
    assert(record[13].0 == "state_commits");
    assert(record[14].0 == "last_state_commit_mask");
    assert(record[15].0 == "committed_stack_version");
    assert(record[16].0 == "terminal_error");
    assert(record[17].0 == "block_elapsed_ns");
}

/// A boundary of a body tells each counter under its own name.
pub proof fn a_boundary_of_a_body_tells_its_counters(
    stats: Qwen35MetalW8MlpStack3BoundaryRegionV1Stats,
)
    ensures
        tells_number(
            body_region_record_of(stats),
            "boundary_mlp_layer_index",
            stats.boundary_mlp_layer_index as nat,
        ),
        tells_number(
            body_region_record_of(stats),
            "decode_calls",
            stats.execution.decode_calls as nat,
        ),
        tells_number(
            body_region_record_of(stats),
            "successful_decodes",
            stats.execution.successful_decodes as nat,
        ),
        tells_number(
            body_region_record_of(stats),
            "failed_decodes",
            stats.execution.failed_decodes as nat,
        ),
        tells_number(
            body_region_record_of(stats),
            "command_buffers",
            stats.execution.command_buffers as nat,
        ),
        tells_number(
            body_region_record_of(stats),
            "compute_encoders",
            stats.execution.compute_encoders as nat,
        ),
        tells_number(body_region_record_of(stats), "commits", stats.execution.commits as nat),
        tells_number(body_region_record_of(stats), "waits", stats.execution.waits as nat),
        tells_number(
            body_region_record_of(stats),
            "host_to_device_bytes",
            stats.execution.host_to_device_bytes as nat,
        ),
        tells_number(
            body_region_record_of(stats),
            "device_to_host_bytes",
            stats.execution.device_to_host_bytes as nat,
        ),
        tells_number(
            body_region_record_of(stats),
            "state_commits",
            stats.execution.state_commits as nat,
        ),
        tells_number(
            body_region_record_of(stats),
            "last_state_commit_mask",
            stats.execution.last_state_commit_mask as nat,
        ),
        tells_number(
            body_region_record_of(stats),
            "committed_stack_version",
            stats.execution.committed_stack_version as nat,
        ),
        tells_flag(body_region_record_of(stats), "terminal_error", stats.terminal_error),
        tells_number(
            body_region_record_of(stats),
            "block_elapsed_ns",
            stats.block_elapsed_ns as nat,
        ),
{
    let record = body_region_record_of(stats);
    assert(record[0].0 == "boundary_mlp_layer_index");
    assert(record[5].0 == "decode_calls");
    assert(record[6].0 == "successful_decodes");
    assert(record[7].0 == "failed_decodes");
    assert(record[8].0 == "command_buffers");
    assert(record[9].0 == "compute_encoders");
    assert(record[10].0 == "commits");
    assert(record[11].0 == "waits");
    assert(record[12].0 == "host_to_device_bytes");
    assert(record[13].0 == "device_to_host_bytes");
    assert(record[14].0 == "state_commits");
    assert(record[15].0 == "last_state_commit_mask");
    assert(record[16].0 == "committed_stack_version");
    assert(record[17].0 == "terminal_error");
    assert(record[18].0 == "block_elapsed_ns");
}

/// A stack tells each counter under its own name.
pub proof fn a_stack_tells_its_counters(stats: Qwen35MetalW8LinearLayerStack3V1Stats)
    ensures
        tells_number(stack_record_of(stats), "decode_calls", stats.execution.decode_calls as nat),
        tells_number(
            stack_record_of(stats),
            "successful_decodes",
            stats.execution.successful_decodes as nat,
        ),
        tells_number(
            stack_record_of(stats),
            "failed_decodes",
            stats.execution.failed_decodes as nat,
        ),
        tells_number(
            stack_record_of(stats),
            "command_buffers",
            stats.execution.command_buffers as nat,
        ),
        tells_number(
            stack_record_of(stats),
            "compute_encoders",
            stats.execution.compute_encoders as nat,
        ),
        tells_number(stack_record_of(stats), "commits", stats.execution.commits as nat),
        tells_number(stack_record_of(stats), "waits", stats.execution.waits as nat),
        tells_number(
            stack_record_of(stats),
            "host_to_device_bytes",
            stats.execution.host_to_device_bytes as nat,
        ),
        tells_number(
            stack_record_of(stats),
            "device_to_host_bytes",
            stats.execution.device_to_host_bytes as nat,
        ),
        tells_number(stack_record_of(stats), "state_commits", stats.execution.state_commits as nat),
        tells_number(
            stack_record_of(stats),
            "last_state_commit_mask",
            stats.execution.last_state_commit_mask as nat,
        ),
        tells_number(
            stack_record_of(stats),
            "committed_stack_version",
            stats.execution.committed_stack_version as nat,
        ),
        tells_number(
            stack_record_of(stats),
            "intermediate_host_finite_checks_per_decode",
            stats.intermediate_host_finite_checks_per_decode as nat,
        ),
        tells_number(
            stack_record_of(stats),
            "final_output_finite_checks_per_decode",
            stats.final_output_finite_checks_per_decode as nat,
        ),
        tells_flag(stack_record_of(stats), "terminal_error", stats.terminal_error),
        tells_number(stack_record_of(stats), "block_elapsed_ns", stats.block_elapsed_ns as nat),
{
    let record = stack_record_of(stats);
    assert(record[4].0 == "decode_calls");
    assert(record[5].0 == "successful_decodes");
    assert(record[6].0 == "failed_decodes");
    assert(record[7].0 == "command_buffers");
    assert(record[8].0 == "compute_encoders");
    assert(record[9].0 == "commits");
    assert(record[10].0 == "waits");
    assert(record[11].0 == "host_to_device_bytes");
    assert(record[12].0 == "device_to_host_bytes");
    assert(record[13].0 == "state_commits");
    assert(record[14].0 == "last_state_commit_mask");
    assert(record[15].0 == "committed_stack_version");
    assert(record[16].0 == "intermediate_host_finite_checks_per_decode");
    assert(record[17].0 == "final_output_finite_checks_per_decode");
    assert(record[18].0 == "terminal_error");
    assert(record[19].0 == "block_elapsed_ns");
}

/// A feed-forward block tells each counter under its own name.
pub proof fn a_block_tells_its_counters(stats: Qwen35MetalW8MlpBlockStats)
    ensures
        tells_number(block_record_of(stats), "layer_index", stats.layer_index as nat),
        tells_number(block_record_of(stats), "decode_calls", stats.decode_calls as nat),
        tells_number(block_record_of(stats), "block_elapsed_ns", stats.block_elapsed_ns as nat),
{
    let record = block_record_of(stats);
    assert(record[0].0 == "layer_index");
    assert(record[1].0 == "decode_calls");
    assert(record[2].0 == "block_elapsed_ns");
}

/// A complete linear layer tells each counter under its own name.
pub proof fn a_layer_tells_its_counters(stats: Qwen35MetalW8LinearLayerPrecisionV2Stats)
    ensures
        tells_number(layer_record_of(stats), "layer_index", stats.execution.layer_index as nat),
        tells_number(
            layer_record_of(stats),
            "gdn_output_group_size",
            stats.quantization.gdn_output_group_size.count() as nat,
        ),
        tells_number(
            layer_record_of(stats),
            "prefill_seed_calls",
            stats.execution.prefill_seed_calls as nat,
        ),
        tells_number(layer_record_of(stats), "decode_calls", stats.execution.decode_calls as nat),
        tells_number(
            layer_record_of(stats),
            "successful_decodes",
            stats.execution.successful_decodes as nat,
        ),
        tells_number(
            layer_record_of(stats),
            "failed_decodes",
            stats.execution.failed_decodes as nat,
        ),
        tells_number(
            layer_record_of(stats),
            "command_buffers",
            stats.execution.command_buffers as nat,
        ),
        tells_number(
            layer_record_of(stats),
            "compute_encoders",
            stats.execution.compute_encoders as nat,
        ),
        tells_number(layer_record_of(stats), "commits", stats.execution.commits as nat),
        tells_number(layer_record_of(stats), "waits", stats.execution.waits as nat),
        tells_number(
            layer_record_of(stats),
            "host_to_device_bytes",
            stats.execution.host_to_device_bytes as nat,
        ),
        tells_number(
            layer_record_of(stats),
            "device_to_host_bytes",
            stats.execution.device_to_host_bytes as nat,
        ),
        tells_number(
            layer_record_of(stats),
            "committed_state_version",
            stats.execution.committed_state_version as nat,
        ),
        tells_flag(layer_record_of(stats), "terminal_error", stats.execution.terminal_error),
        tells_number(
            layer_record_of(stats),
            "block_elapsed_ns",
            stats.execution.block_elapsed_ns as nat,
        ),
{
    let record = layer_record_of(stats);
    assert(record[0].0 == "layer_index");
    assert(record[3].0 == "gdn_output_group_size");
    assert(record[4].0 == "prefill_seed_calls");
    assert(record[5].0 == "decode_calls");
    assert(record[6].0 == "successful_decodes");
    assert(record[7].0 == "failed_decodes");
    assert(record[8].0 == "command_buffers");
    assert(record[9].0 == "compute_encoders");
    assert(record[10].0 == "commits");
    assert(record[11].0 == "waits");
    assert(record[12].0 == "host_to_device_bytes");
    assert(record[13].0 == "device_to_host_bytes");
    assert(record[14].0 == "committed_state_version");
    assert(record[15].0 == "terminal_error");
    assert(record[16].0 == "block_elapsed_ns");
}

/// The head tells each counter under its own name.
pub proof fn a_head_tells_its_counters(stats: Qwen35MetalW8LmHeadStats)
    ensures
        tells_number(head_record_of(stats), "prefill_calls", stats.prefill_calls as nat),
        tells_number(head_record_of(stats), "decode_calls", stats.decode_calls as nat),
        tells_number(head_record_of(stats), "teacher_calls", stats.teacher_calls as nat),
        tells_number(head_record_of(stats), "topk_elapsed_ns", stats.topk_elapsed_ns as nat),
        tells_number(head_record_of(stats), "rerank_elapsed_ns", stats.rerank_elapsed_ns as nat),
{
    let record = head_record_of(stats);
    assert(record[0].0 == "prefill_calls");
    assert(record[1].0 == "decode_calls");
    assert(record[2].0 == "teacher_calls");
    assert(record[3].0 == "topk_elapsed_ns");
    assert(record[4].0 == "rerank_elapsed_ns");
}

/// The head of a model with stacks tells each counter under its own name.
pub proof fn a_head_of_stacks_tells_its_counters(stats: Qwen35MetalW8LmHeadStats)
    ensures
        tells_number(stack3_head_record_of(stats), "prefill_calls", stats.prefill_calls as nat),
        tells_number(stack3_head_record_of(stats), "decode_calls", stats.decode_calls as nat),
        tells_number(stack3_head_record_of(stats), "teacher_calls", stats.teacher_calls as nat),
        tells_number(stack3_head_record_of(stats), "topk_elapsed_ns", stats.topk_elapsed_ns as nat),
        tells_number(
            stack3_head_record_of(stats),
            "rerank_elapsed_ns",
            stats.rerank_elapsed_ns as nat,
        ),
{
    let record = stack3_head_record_of(stats);
    assert(record[1].0 == "prefill_calls");
    assert(record[2].0 == "decode_calls");
    assert(record[3].0 == "teacher_calls");
    assert(record[4].0 == "topk_elapsed_ns");
    assert(record[5].0 == "rerank_elapsed_ns");
}

/// The final feed-forward block tells each counter under its own name.
pub proof fn the_final_block_tells_its_counters(stats: Qwen35MetalW8MlpBlockStats)
    ensures
        tells_number(final_mlp_record_of(stats), "layer_index", stats.layer_index as nat),
        tells_number(final_mlp_record_of(stats), "decode_calls", stats.decode_calls as nat),
        tells_number(final_mlp_record_of(stats), "block_elapsed_ns", stats.block_elapsed_ns as nat),
{
    let record = final_mlp_record_of(stats);
    assert(record[0].0 == "layer_index");
    assert(record[2].0 == "decode_calls");
    assert(record[3].0 == "block_elapsed_ns");
}

/// The prefill in front of a tail is projected on the CPU and counted there.
pub proof fn the_prefill_head_tells_its_calls(stats: Qwen35MetalW8MlpStack3BoundaryTailHeadV1Stats)
    ensures
        tells_number(prefill_head_record_of(stats), "calls", stats.prefill_cpu_head_calls as nat),
        tells_number(prefill_head_record_of(stats), "tail_transactions", 0),
{
    let record = prefill_head_record_of(stats);
    assert(record[1].0 == "calls");
    assert(record[2].0 == "tail_transactions");
}

/// The tail tells each counter under its own name.
pub proof fn the_tail_tells_its_counters(stats: Qwen35MetalW8MlpStack3BoundaryTailHeadV1Stats)
    ensures
        tells_number(decode_head_record_of(stats), "layer_index", stats.tail_layer_index as nat),
        tells_number(decode_head_record_of(stats), "calls", stats.decode_calls as nat),
        tells_number(decode_head_record_of(stats), "teacher_calls", stats.teacher_calls as nat),
        tells_number(
            decode_head_record_of(stats),
            "tail_transactions",
            stats.tail.decode_calls as nat,
        ),
        tells_number(
            decode_head_record_of(stats),
            "successful_transactions",
            stats.tail.successful_decodes as nat,
        ),
        tells_number(
            decode_head_record_of(stats),
            "failed_transactions",
            stats.tail.failed_decodes as nat,
        ),
        tells_number(
            decode_head_record_of(stats),
            "command_buffers",
            stats.tail.command_buffers as nat,
        ),
        tells_number(
            decode_head_record_of(stats),
            "compute_encoders",
            stats.tail.compute_encoders as nat,
        ),
        tells_number(
            decode_head_record_of(stats),
            "kernel_dispatches",
            stats.tail.kernel_dispatches as nat,
        ),
        tells_number(decode_head_record_of(stats), "commits", stats.tail.commits as nat),
        tells_number(decode_head_record_of(stats), "waits", stats.tail.waits as nat),
        tells_number(
            decode_head_record_of(stats),
            "host_to_device_bytes",
            stats.tail.host_to_device_bytes as nat,
        ),
        tells_number(
            decode_head_record_of(stats),
            "device_to_host_bytes",
            stats.tail.device_to_host_bytes as nat,
        ),
        tells_number(
            decode_head_record_of(stats),
            "output_commits",
            stats.tail.output_commits as nat,
        ),
        tells_number(
            decode_head_record_of(stats),
            "last_output_commit_mask",
            stats.tail.last_output_commit_mask as nat,
        ),
        tells_number(
            decode_head_record_of(stats),
            "rerank_elapsed_ns",
            stats.rerank_elapsed_ns as nat,
        ),
        tells_flag(decode_head_record_of(stats), "terminal_error", stats.tail.terminal_error),
{
    let record = decode_head_record_of(stats);
    assert(record[1].0 == "layer_index");
    assert(record[2].0 == "calls");
    assert(record[3].0 == "teacher_calls");
    assert(record[4].0 == "tail_transactions");
    assert(record[5].0 == "successful_transactions");
    assert(record[6].0 == "failed_transactions");
    assert(record[7].0 == "command_buffers");
    assert(record[8].0 == "compute_encoders");
    assert(record[9].0 == "kernel_dispatches");
    assert(record[10].0 == "commits");
    assert(record[11].0 == "waits");
    assert(record[12].0 == "host_to_device_bytes");
    assert(record[13].0 == "device_to_host_bytes");
    assert(record[14].0 == "output_commits");
    assert(record[15].0 == "last_output_commit_mask");
    assert(record[16].0 == "rerank_elapsed_ns");
    assert(record[17].0 == "terminal_error");
}

/// The totals of the lane with the tail are told line by line.
pub proof fn the_totals_of_the_tail_lane_are_told(
    stats: Qwen35MetalW8MlpStack3BoundaryTailHeadV1AggregateLedger,
)
    ensures
        tells_flag(tail_totals_record_of(stats), "includes_lm_head", stats.includes_lm_head),
        tells_number(
            tail_totals_record_of(stats),
            "persistent_mtlbuffer_bytes",
            stats.total_persistent_mtlbuffer_bytes as nat,
        ),
        tells_number(
            tail_totals_record_of(stats),
            "allocated_buffers",
            stats.allocated_buffers as nat,
        ),
        tells_number(tail_totals_record_of(stats), "shared_buffers", stats.shared_buffers as nat),
        tells_number(tail_totals_record_of(stats), "private_buffers", stats.private_buffers as nat),
        tells_number(
            tail_totals_record_of(stats),
            "host_to_device_bytes_per_decode",
            stats.host_to_device_bytes_per_decode as nat,
        ),
        tells_number(
            tail_totals_record_of(stats),
            "device_to_host_bytes_per_decode",
            stats.device_to_host_bytes_per_decode as nat,
        ),
        tells_number(
            tail_totals_record_of(stats),
            "state_host_transfer_bytes_per_decode",
            stats.state_host_transfer_bytes_per_decode as nat,
        ),
        tells_number(
            tail_totals_record_of(stats),
            "command_buffers_per_decode",
            stats.command_buffers_per_decode as nat,
        ),
        tells_number(
            tail_totals_record_of(stats),
            "compute_encoders_per_decode",
            stats.compute_encoders_per_decode as nat,
        ),
        tells_number(
            tail_totals_record_of(stats),
            "kernel_dispatches_per_decode",
            stats.kernel_dispatches_per_decode as nat,
        ),
        tells_number(
            tail_totals_record_of(stats),
            "explicit_buffer_barriers_per_decode",
            stats.explicit_buffer_barriers_per_decode as nat,
        ),
        tells_number(
            tail_totals_record_of(stats),
            "commits_per_decode",
            stats.commits_per_decode as nat,
        ),
        tells_number(
            tail_totals_record_of(stats),
            "waits_per_decode",
            stats.waits_per_decode as nat,
        ),
{
    let record = tail_totals_record_of(stats);
    assert(record[1].0 == "includes_lm_head");
    assert(record[2].0 == "persistent_mtlbuffer_bytes");
    assert(record[3].0 == "allocated_buffers");
    assert(record[4].0 == "shared_buffers");
    assert(record[5].0 == "private_buffers");
    assert(record[6].0 == "host_to_device_bytes_per_decode");
    assert(record[7].0 == "device_to_host_bytes_per_decode");
    assert(record[8].0 == "state_host_transfer_bytes_per_decode");
    assert(record[9].0 == "command_buffers_per_decode");
    assert(record[10].0 == "compute_encoders_per_decode");
    assert(record[11].0 == "kernel_dispatches_per_decode");
    assert(record[12].0 == "explicit_buffer_barriers_per_decode");
    assert(record[15].0 == "commits_per_decode");
    assert(record[16].0 == "waits_per_decode");
}

/// The totals of the boundary body are told line by line.
pub proof fn the_totals_of_the_body_are_told(
    stats: Qwen35MetalW8MlpStack3BoundaryBodyV1AggregateLedger,
)
    ensures
        tells_flag(body_totals_record_of(stats), "includes_lm_head", stats.includes_lm_head),
        tells_number(
            body_totals_record_of(stats),
            "persistent_mtlbuffer_bytes",
            stats.total_persistent_mtlbuffer_bytes as nat,
        ),
        tells_number(
            body_totals_record_of(stats),
            "allocated_buffers",
            stats.allocated_buffers as nat,
        ),
        tells_number(body_totals_record_of(stats), "shared_buffers", stats.shared_buffers as nat),
        tells_number(body_totals_record_of(stats), "private_buffers", stats.private_buffers as nat),
        tells_number(
            body_totals_record_of(stats),
            "host_to_device_bytes_per_decode",
            stats.host_to_device_bytes_per_decode as nat,
        ),
        tells_number(
            body_totals_record_of(stats),
            "device_to_host_bytes_per_decode",
            stats.device_to_host_bytes_per_decode as nat,
        ),
        tells_number(
            body_totals_record_of(stats),
            "state_host_transfer_bytes_per_decode",
            stats.state_host_transfer_bytes_per_decode as nat,
        ),
        tells_number(
            body_totals_record_of(stats),
            "command_buffers_per_decode",
            stats.command_buffers_per_decode as nat,
        ),
        tells_number(
            body_totals_record_of(stats),
            "compute_encoders_per_decode",
            stats.compute_encoders_per_decode as nat,
        ),
        tells_number(
            body_totals_record_of(stats),
            "kernel_dispatches_per_decode",
            stats.kernel_dispatches_per_decode as nat,
        ),
        tells_number(
            body_totals_record_of(stats),
            "commits_per_decode",
            stats.commits_per_decode as nat,
        ),
        tells_number(
            body_totals_record_of(stats),
            "waits_per_decode",
            stats.waits_per_decode as nat,
        ),
{
    let record = body_totals_record_of(stats);
    assert(record[1].0 == "includes_lm_head");
    assert(record[2].0 == "persistent_mtlbuffer_bytes");
    assert(record[3].0 == "allocated_buffers");
    assert(record[4].0 == "shared_buffers");
    assert(record[5].0 == "private_buffers");
    assert(record[6].0 == "host_to_device_bytes_per_decode");
    assert(record[7].0 == "device_to_host_bytes_per_decode");
    assert(record[8].0 == "state_host_transfer_bytes_per_decode");
    assert(record[9].0 == "command_buffers_per_decode");
    assert(record[10].0 == "compute_encoders_per_decode");
    assert(record[11].0 == "kernel_dispatches_per_decode");
    assert(record[12].0 == "commits_per_decode");
    assert(record[13].0 == "waits_per_decode");
}

/// The receipt of a tail tells the error, the prefills and the parts of the lane.
pub proof fn the_receipt_of_a_tail_tells_its_parts(
    stats: Qwen35MetalW8MlpStack3BoundaryTailHeadV1Stats,
    totals: Qwen35MetalW8MlpStack3BoundaryTailHeadV1AggregateLedger,
)
    ensures
        ({
            let receipt = tail_receipt_of(stats, totals);
            &&& tells_flag(receipt, "terminal_error", stats.terminal_error)
            &&& tells_number(receipt, "prefill_body_calls", stats.prefill_body_calls as nat)
            &&& tells_part(
                receipt,
                "initial_stack",
                PathView::Record(tail_stack_record_of(stats.initial_stack)),
            )
            &&& tells_part(
                receipt,
                "prefill_head",
                PathView::Record(prefill_head_record_of(stats)),
            )
            &&& tells_part(receipt, "decode_head", PathView::Record(decode_head_record_of(stats)))
            &&& tells_part(receipt, "aggregate", PathView::Record(tail_totals_record_of(totals)))
        }),
{
    reveal(tail_receipt_of);
    let receipt = tail_receipt_of(stats, totals);
    assert(receipt[12].0 == "initial_stack");
    assert(receipt[14].0 == "prefill_body_calls");
    assert(receipt[15].0 == "prefill_head");
    assert(receipt[16].0 == "decode_head");
    assert(receipt[17].0 == "aggregate");
    assert(receipt[18].0 == "terminal_error");
}

/// The receipt of a boundary body tells the error and the parts of the lane.
pub proof fn the_receipt_of_a_body_tells_its_parts(
    stats: Qwen35MetalW8MlpStack3BoundaryBodyV1Stats,
    totals: Qwen35MetalW8MlpStack3BoundaryBodyV1AggregateLedger,
)
    ensures
        ({
            let receipt = body_receipt_of(stats, totals);
            &&& tells_flag(receipt, "terminal_error", stats.terminal_error)
            &&& tells_flag(receipt, "metal_w8_lm_head", false)
            &&& tells_part(
                receipt,
                "initial_stack",
                PathView::Record(body_stack_record_of(stats.initial_stack)),
            )
            &&& tells_part(
                receipt,
                "final_mlp",
                PathView::Record(final_mlp_record_of(stats.final_mlp)),
            )
            &&& tells_part(receipt, "aggregate", PathView::Record(body_totals_record_of(totals)))
        }),
{
    reveal(body_receipt_of);
    let receipt = body_receipt_of(stats, totals);
    assert(receipt[5].0 == "metal_w8_lm_head");
    assert(receipt[10].0 == "initial_stack");
    assert(receipt[12].0 == "final_mlp");
    assert(receipt[13].0 == "aggregate");
    assert(receipt[14].0 == "terminal_error");
}

/// The receipt of stacks with a head is terminal where either is, and tells the
/// counters of the head.
pub proof fn the_receipt_of_stacks_with_a_head_tells_both(
    stats: Qwen35MetalW8LinearLayerStacksV1Stats,
    head: Qwen35MetalW8LmHeadStats,
    terminal: bool,
)
    ensures
        ({
            let receipt = stack3_head_receipt_of(stats, head, terminal);
            &&& tells_flag(receipt, "terminal_error", terminal || stats.terminal_error)
            &&& tells_part(receipt, "lm_head", PathView::Record(stack3_head_record_of(head)))
        }),
{
    reveal(stack3_head_receipt_of);
    let receipt = stack3_head_receipt_of(stats, head, terminal);
    assert(receipt[11].0 == "lm_head");
    assert(receipt[12].0 == "terminal_error");
}

/// The receipts of the other lanes tell whether there is a head and whether an
/// error was met.
pub proof fn the_other_receipts_tell_head_and_error(
    stacks: Qwen35MetalW8LinearLayerStacksV1Stats,
    layers: Qwen35MetalW8AllLinearLayersPrecisionV2Stats,
    blocks: Vec<Qwen35MetalW8MlpBlockStats>,
    head: Option<Qwen35MetalW8LmHeadStats>,
    has_head: bool,
    has_blocks: bool,
)
    ensures
        tells_flag(stacks_receipt_of(stacks, has_head), "metal_w8_lm_head", has_head),
        tells_flag(stacks_receipt_of(stacks, has_head), "terminal_error", stacks.terminal_error),
        tells_flag(all_linear_receipt_of(layers, has_head), "metal_w8_lm_head", has_head),
        tells_flag(
            all_linear_receipt_of(layers, has_head),
            "terminal_error",
            layers.terminal_error,
        ),
        tells_flag(plain_receipt_of(has_blocks, blocks, head), "metal_w8_mlp_block", has_blocks),
        tells_flag(plain_receipt_of(has_blocks, blocks, head), "metal_w8_lm_head", head is Some),
{
    reveal(stacks_receipt_of);
    reveal(all_linear_receipt_of);
    reveal(plain_receipt_of);
    assert(stacks_receipt_of(stacks, has_head)[5].0 == "metal_w8_lm_head");
    assert(stacks_receipt_of(stacks, has_head)[10].0 == "terminal_error");
    assert(all_linear_receipt_of(layers, has_head)[6].0 == "metal_w8_lm_head");
    assert(all_linear_receipt_of(layers, has_head)[9].0 == "terminal_error");
    assert(plain_receipt_of(has_blocks, blocks, head)[1].0 == "metal_w8_mlp_block");
    assert(plain_receipt_of(has_blocks, blocks, head)[2].0 == "metal_w8_lm_head");
}

} // verus!
