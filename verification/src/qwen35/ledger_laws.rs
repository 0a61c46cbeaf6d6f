//! Every total of a ledger is the sum of the same line over all parts.

use vstd::prelude::*;

use crate::qwen35::ledger::{
    line_sum, LedgerEntry, LedgerLine, Qwen35MetalW8AllLinearLayersPrecisionV2AggregateLedger,
    Qwen35MetalW8LinearLayerBufferLedger, Qwen35MetalW8LinearLayerStack3BufferLedger,
    Qwen35MetalW8LinearLayerStacksV1AggregateLedger, Qwen35MetalW8MlpBlockBufferLedger,
    Qwen35MetalW8MlpStack3BoundaryBodyV1AggregateLedger,
    Qwen35MetalW8MlpStack3BoundaryRegionBufferLedgerV1,
    Qwen35MetalW8MlpStack3BoundaryTailHeadV1AggregateLedger,
    Qwen35MetalW8Stack3LmHeadV2AggregateLedger,
};
use crate::qwen35::metal::GdnCoreProfileV1;

verus! {

/// A line of all parts, added up.
pub open spec fn total_of<L>(parts: Seq<L>, line: spec_fn(L) -> int) -> int
    decreases parts.len(),
{
    if parts.len() == 0 {
        0
    } else {
        total_of(parts.drop_last(), line) + line(parts.last())
    }
}

proof fn a_sum_is_the_total<L: LedgerEntry>(
    parts: Seq<L>,
    line: LedgerLine,
    field: spec_fn(L) -> int,
)
    requires
        forall|part: L| #[trigger] part.value(line) == field(part),
    ensures
        line_sum(parts, line) == total_of(parts, field),
        total_of(parts, field) >= 0,
    decreases parts.len(),
{
    if parts.len() > 0 {
        a_sum_is_the_total(parts.drop_last(), line, field);
        assert(parts.last().value(line) == field(parts.last()));
    }
}

/// A total that stops at the largest size.
pub open spec fn at_most_the_largest(total: int) -> int {
    if total > usize::MAX {
        usize::MAX as int
    } else {
        total
    }
}

/// The totals of the lane of all linear layers are those of its layers and of its
/// feed-forward blocks.
pub proof fn the_ledger_of_all_linear_layers_adds_up(
    ledger: Qwen35MetalW8AllLinearLayersPrecisionV2AggregateLedger,
)
    requires
        ledger.adds_up(),
    ensures
        ledger.total_persistent_mtlbuffer_bytes == at_most_the_largest(
            total_of(
                ledger.linear_layers@,
                |part: Qwen35MetalW8LinearLayerBufferLedger|
                    part.ledger.total_persistent_bytes as int,
            ) + total_of(
                ledger.full_attention_mlp_layers@,
                |part: Qwen35MetalW8MlpBlockBufferLedger| part.ledger.total_persistent_bytes as int,
            ),
        ),
        ledger.allocated_buffers == at_most_the_largest(
            total_of(
                ledger.linear_layers@,
                |part: Qwen35MetalW8LinearLayerBufferLedger| part.ledger.allocated_buffers as int,
            ) + total_of(
                ledger.full_attention_mlp_layers@,
                |part: Qwen35MetalW8MlpBlockBufferLedger| part.ledger.allocated_buffers as int,
            ),
        ),
        ledger.shared_buffers == at_most_the_largest(
            total_of(
                ledger.linear_layers@,
                |part: Qwen35MetalW8LinearLayerBufferLedger| part.ledger.shared_buffers as int,
            ) + total_of(
                ledger.full_attention_mlp_layers@,
                |part: Qwen35MetalW8MlpBlockBufferLedger| part.ledger.shared_buffers as int,
            ),
        ),
        ledger.private_buffers == at_most_the_largest(
            total_of(
                ledger.linear_layers@,
                |part: Qwen35MetalW8LinearLayerBufferLedger| part.ledger.private_buffers as int,
            ) + total_of(
                ledger.full_attention_mlp_layers@,
                |part: Qwen35MetalW8MlpBlockBufferLedger| part.ledger.private_buffers as int,
            ),
        ),
        ledger.host_to_device_bytes_per_decode == at_most_the_largest(
            total_of(
                ledger.linear_layers@,
                |part: Qwen35MetalW8LinearLayerBufferLedger|
                    part.ledger.host_input_bytes_per_decode as int,
            ) + total_of(
                ledger.full_attention_mlp_layers@,
                |part: Qwen35MetalW8MlpBlockBufferLedger|
                    part.ledger.host_input_bytes_per_decode as int,
            ),
        ),
        ledger.device_to_host_bytes_per_decode == at_most_the_largest(
            total_of(
                ledger.linear_layers@,
                |part: Qwen35MetalW8LinearLayerBufferLedger|
                    part.ledger.host_output_bytes_per_decode as int,
            ) + total_of(
                ledger.full_attention_mlp_layers@,
                |part: Qwen35MetalW8MlpBlockBufferLedger|
                    part.ledger.host_output_bytes_per_decode as int,
            ),
        ),
        ledger.state_host_transfer_bytes_per_decode == at_most_the_largest(
            total_of(
                ledger.linear_layers@,
                |part: Qwen35MetalW8LinearLayerBufferLedger|
                    part.ledger.state_host_transfer_bytes_per_decode as int,
            ) + total_of(
                ledger.full_attention_mlp_layers@,
                |part: Qwen35MetalW8MlpBlockBufferLedger|
                    part.ledger.state_host_transfer_bytes_per_decode as int,
            ),
        ),
        ledger.command_buffers_per_decode == at_most_the_largest(
            total_of(
                ledger.linear_layers@,
                |part: Qwen35MetalW8LinearLayerBufferLedger|
                    part.ledger.command_buffers_per_decode as int,
            ) + total_of(
                ledger.full_attention_mlp_layers@,
                |part: Qwen35MetalW8MlpBlockBufferLedger|
                    part.ledger.command_buffers_per_decode as int,
            ),
        ),
        ledger.compute_encoders_per_decode == at_most_the_largest(
            total_of(
                ledger.linear_layers@,
                |part: Qwen35MetalW8LinearLayerBufferLedger|
                    part.ledger.compute_encoders_per_decode as int,
            ) + total_of(
                ledger.full_attention_mlp_layers@,
                |part: Qwen35MetalW8MlpBlockBufferLedger|
                    part.ledger.compute_encoders_per_decode as int,
            ),
        ),
        ledger.commits_per_decode == at_most_the_largest(
            total_of(
                ledger.linear_layers@,
                |part: Qwen35MetalW8LinearLayerBufferLedger| part.ledger.commits_per_decode as int,
            ) + total_of(
                ledger.full_attention_mlp_layers@,
                |part: Qwen35MetalW8MlpBlockBufferLedger| part.ledger.commits_per_decode as int,
            ),
        ),
        ledger.waits_per_decode == at_most_the_largest(
            total_of(
                ledger.linear_layers@,
                |part: Qwen35MetalW8LinearLayerBufferLedger| part.ledger.waits_per_decode as int,
            ) + total_of(
                ledger.full_attention_mlp_layers@,
                |part: Qwen35MetalW8MlpBlockBufferLedger| part.ledger.waits_per_decode as int,
            ),
        ),
{
    a_sum_is_the_total(
        ledger.linear_layers@,
        LedgerLine::TotalPersistentBytes,
        |part: Qwen35MetalW8LinearLayerBufferLedger| part.ledger.total_persistent_bytes as int,
    );
    a_sum_is_the_total(
        ledger.full_attention_mlp_layers@,
        LedgerLine::TotalPersistentBytes,
        |part: Qwen35MetalW8MlpBlockBufferLedger| part.ledger.total_persistent_bytes as int,
    );
    a_sum_is_the_total(
        ledger.linear_layers@,
        LedgerLine::AllocatedBuffers,
        |part: Qwen35MetalW8LinearLayerBufferLedger| part.ledger.allocated_buffers as int,
    );
    a_sum_is_the_total(
        ledger.full_attention_mlp_layers@,
        LedgerLine::AllocatedBuffers,
        |part: Qwen35MetalW8MlpBlockBufferLedger| part.ledger.allocated_buffers as int,
    );
    a_sum_is_the_total(
        ledger.linear_layers@,
        LedgerLine::SharedBuffers,
        |part: Qwen35MetalW8LinearLayerBufferLedger| part.ledger.shared_buffers as int,
    );
    a_sum_is_the_total(
        ledger.full_attention_mlp_layers@,
        LedgerLine::SharedBuffers,
        |part: Qwen35MetalW8MlpBlockBufferLedger| part.ledger.shared_buffers as int,
    );
    a_sum_is_the_total(
        ledger.linear_layers@,
        LedgerLine::PrivateBuffers,
        |part: Qwen35MetalW8LinearLayerBufferLedger| part.ledger.private_buffers as int,
    );
    a_sum_is_the_total(
        ledger.full_attention_mlp_layers@,
        LedgerLine::PrivateBuffers,
        |part: Qwen35MetalW8MlpBlockBufferLedger| part.ledger.private_buffers as int,
    );
    a_sum_is_the_total(
        ledger.linear_layers@,
        LedgerLine::HostInputBytes,
        |part: Qwen35MetalW8LinearLayerBufferLedger| part.ledger.host_input_bytes_per_decode as int,
    );
    a_sum_is_the_total(
        ledger.full_attention_mlp_layers@,
        LedgerLine::HostInputBytes,
        |part: Qwen35MetalW8MlpBlockBufferLedger| part.ledger.host_input_bytes_per_decode as int,
    );
    a_sum_is_the_total(
        ledger.linear_layers@,
        LedgerLine::HostOutputBytes,
        |part: Qwen35MetalW8LinearLayerBufferLedger|
            part.ledger.host_output_bytes_per_decode as int,
    );
    a_sum_is_the_total(
        ledger.full_attention_mlp_layers@,
        LedgerLine::HostOutputBytes,
        |part: Qwen35MetalW8MlpBlockBufferLedger| part.ledger.host_output_bytes_per_decode as int,
    );
    a_sum_is_the_total(
        ledger.linear_layers@,
        LedgerLine::StateTransferBytes,
        |part: Qwen35MetalW8LinearLayerBufferLedger|
            part.ledger.state_host_transfer_bytes_per_decode as int,
    );
    a_sum_is_the_total(
        ledger.full_attention_mlp_layers@,
        LedgerLine::StateTransferBytes,
        |part: Qwen35MetalW8MlpBlockBufferLedger|
            part.ledger.state_host_transfer_bytes_per_decode as int,
    );
    a_sum_is_the_total(
        ledger.linear_layers@,
        LedgerLine::CommandBuffers,
        |part: Qwen35MetalW8LinearLayerBufferLedger| part.ledger.command_buffers_per_decode as int,
    );
    a_sum_is_the_total(
        ledger.full_attention_mlp_layers@,
        LedgerLine::CommandBuffers,
        |part: Qwen35MetalW8MlpBlockBufferLedger| part.ledger.command_buffers_per_decode as int,
    );
    a_sum_is_the_total(
        ledger.linear_layers@,
        LedgerLine::ComputeEncoders,
        |part: Qwen35MetalW8LinearLayerBufferLedger| part.ledger.compute_encoders_per_decode as int,
    );
    a_sum_is_the_total(
        ledger.full_attention_mlp_layers@,
        LedgerLine::ComputeEncoders,
        |part: Qwen35MetalW8MlpBlockBufferLedger| part.ledger.compute_encoders_per_decode as int,
    );
    a_sum_is_the_total(
        ledger.linear_layers@,
        LedgerLine::Commits,
        |part: Qwen35MetalW8LinearLayerBufferLedger| part.ledger.commits_per_decode as int,
    );
    a_sum_is_the_total(
        ledger.full_attention_mlp_layers@,
        LedgerLine::Commits,
        |part: Qwen35MetalW8MlpBlockBufferLedger| part.ledger.commits_per_decode as int,
    );
    a_sum_is_the_total(
        ledger.linear_layers@,
        LedgerLine::Waits,
        |part: Qwen35MetalW8LinearLayerBufferLedger| part.ledger.waits_per_decode as int,
    );
    a_sum_is_the_total(
        ledger.full_attention_mlp_layers@,
        LedgerLine::Waits,
        |part: Qwen35MetalW8MlpBlockBufferLedger| part.ledger.waits_per_decode as int,
    );
}

/// The totals of the lane of stacks are those of its stacks and of its feed-forward
/// blocks; only stacks check on the host.
pub proof fn the_ledger_of_stacks_adds_up(
    ledger: Qwen35MetalW8LinearLayerStacksV1AggregateLedger,
)
    requires
        ledger.adds_up(),
    ensures
        ledger.total_persistent_mtlbuffer_bytes == at_most_the_largest(
            total_of(
                ledger.stacks@,
                |part: Qwen35MetalW8LinearLayerStack3BufferLedger|
                    part.ledger.total_persistent_bytes as int,
            ) + total_of(
                ledger.full_attention_mlp_layers@,
                |part: Qwen35MetalW8MlpBlockBufferLedger| part.ledger.total_persistent_bytes as int,
            ),
        ),
        ledger.allocated_buffers == at_most_the_largest(
            total_of(
                ledger.stacks@,
                |part: Qwen35MetalW8LinearLayerStack3BufferLedger|
                    part.ledger.allocated_buffers as int,
            ) + total_of(
                ledger.full_attention_mlp_layers@,
                |part: Qwen35MetalW8MlpBlockBufferLedger| part.ledger.allocated_buffers as int,
            ),
        ),
        ledger.shared_buffers == at_most_the_largest(
            total_of(
                ledger.stacks@,
                |part: Qwen35MetalW8LinearLayerStack3BufferLedger|
                    part.ledger.shared_buffers as int,
            ) + total_of(
                ledger.full_attention_mlp_layers@,
                |part: Qwen35MetalW8MlpBlockBufferLedger| part.ledger.shared_buffers as int,
            ),
        ),
        ledger.private_buffers == at_most_the_largest(
            total_of(
                ledger.stacks@,
                |part: Qwen35MetalW8LinearLayerStack3BufferLedger|
                    part.ledger.private_buffers as int,
            ) + total_of(
                ledger.full_attention_mlp_layers@,
                |part: Qwen35MetalW8MlpBlockBufferLedger| part.ledger.private_buffers as int,
            ),
        ),
        ledger.host_to_device_bytes_per_decode == at_most_the_largest(
            total_of(
                ledger.stacks@,
                |part: Qwen35MetalW8LinearLayerStack3BufferLedger|
                    part.ledger.host_input_bytes_per_decode as int,
            ) + total_of(
                ledger.full_attention_mlp_layers@,
                |part: Qwen35MetalW8MlpBlockBufferLedger|
                    part.ledger.host_input_bytes_per_decode as int,
            ),
        ),
        ledger.device_to_host_bytes_per_decode == at_most_the_largest(
            total_of(
                ledger.stacks@,
                |part: Qwen35MetalW8LinearLayerStack3BufferLedger|
                    part.ledger.host_output_bytes_per_decode as int,
            ) + total_of(
                ledger.full_attention_mlp_layers@,
                |part: Qwen35MetalW8MlpBlockBufferLedger|
                    part.ledger.host_output_bytes_per_decode as int,
            ),
        ),
        ledger.state_host_transfer_bytes_per_decode == at_most_the_largest(
            total_of(
                ledger.stacks@,
                |part: Qwen35MetalW8LinearLayerStack3BufferLedger|
                    part.ledger.state_host_transfer_bytes_per_decode as int,
            ) + total_of(
                ledger.full_attention_mlp_layers@,
                |part: Qwen35MetalW8MlpBlockBufferLedger|
                    part.ledger.state_host_transfer_bytes_per_decode as int,
            ),
        ),
        ledger.command_buffers_per_decode == at_most_the_largest(
            total_of(
                ledger.stacks@,
                |part: Qwen35MetalW8LinearLayerStack3BufferLedger|
                    part.ledger.command_buffers_per_decode as int,
            ) + total_of(
                ledger.full_attention_mlp_layers@,
                |part: Qwen35MetalW8MlpBlockBufferLedger|
                    part.ledger.command_buffers_per_decode as int,
            ),
        ),
        ledger.compute_encoders_per_decode == at_most_the_largest(
            total_of(
                ledger.stacks@,
                |part: Qwen35MetalW8LinearLayerStack3BufferLedger|
                    part.ledger.compute_encoders_per_decode as int,
            ) + total_of(
                ledger.full_attention_mlp_layers@,
                |part: Qwen35MetalW8MlpBlockBufferLedger|
                    part.ledger.compute_encoders_per_decode as int,
            ),
        ),
        ledger.commits_per_decode == at_most_the_largest(
            total_of(
                ledger.stacks@,
                |part: Qwen35MetalW8LinearLayerStack3BufferLedger|
                    part.ledger.commits_per_decode as int,
            ) + total_of(
                ledger.full_attention_mlp_layers@,
                |part: Qwen35MetalW8MlpBlockBufferLedger| part.ledger.commits_per_decode as int,
            ),
        ),
        ledger.waits_per_decode == at_most_the_largest(
            total_of(
                ledger.stacks@,
                |part: Qwen35MetalW8LinearLayerStack3BufferLedger|
                    part.ledger.waits_per_decode as int,
            ) + total_of(
                ledger.full_attention_mlp_layers@,
                |part: Qwen35MetalW8MlpBlockBufferLedger| part.ledger.waits_per_decode as int,
            ),
        ),
        ledger.intermediate_host_finite_checks_per_decode == at_most_the_largest(
            total_of(
                ledger.stacks@,
                |part: Qwen35MetalW8LinearLayerStack3BufferLedger|
                    part.ledger.intermediate_host_finite_checks_per_decode as int,
            ),
        ),
        ledger.final_output_finite_checks_per_decode == at_most_the_largest(
            total_of(
                ledger.stacks@,
                |part: Qwen35MetalW8LinearLayerStack3BufferLedger|
                    part.ledger.final_output_finite_checks_per_decode as int,
            ),
        ),
{
    a_sum_is_the_total(
        ledger.stacks@,
        LedgerLine::TotalPersistentBytes,
        |part: Qwen35MetalW8LinearLayerStack3BufferLedger|
            part.ledger.total_persistent_bytes as int,
    );
    a_sum_is_the_total(
        ledger.full_attention_mlp_layers@,
        LedgerLine::TotalPersistentBytes,
        |part: Qwen35MetalW8MlpBlockBufferLedger| part.ledger.total_persistent_bytes as int,
    );
    a_sum_is_the_total(
        ledger.stacks@,
        LedgerLine::AllocatedBuffers,
        |part: Qwen35MetalW8LinearLayerStack3BufferLedger| part.ledger.allocated_buffers as int,
    );
    a_sum_is_the_total(
        ledger.full_attention_mlp_layers@,
        LedgerLine::AllocatedBuffers,
        |part: Qwen35MetalW8MlpBlockBufferLedger| part.ledger.allocated_buffers as int,
    );
    a_sum_is_the_total(
        ledger.stacks@,
        LedgerLine::SharedBuffers,
        |part: Qwen35MetalW8LinearLayerStack3BufferLedger| part.ledger.shared_buffers as int,
    );
    a_sum_is_the_total(
        ledger.full_attention_mlp_layers@,
        LedgerLine::SharedBuffers,
        |part: Qwen35MetalW8MlpBlockBufferLedger| part.ledger.shared_buffers as int,
    );
    a_sum_is_the_total(
        ledger.stacks@,
        LedgerLine::PrivateBuffers,
        |part: Qwen35MetalW8LinearLayerStack3BufferLedger| part.ledger.private_buffers as int,
    );
    a_sum_is_the_total(
        ledger.full_attention_mlp_layers@,
        LedgerLine::PrivateBuffers,
        |part: Qwen35MetalW8MlpBlockBufferLedger| part.ledger.private_buffers as int,
    );
    a_sum_is_the_total(
        ledger.stacks@,
        LedgerLine::HostInputBytes,
        |part: Qwen35MetalW8LinearLayerStack3BufferLedger|
            part.ledger.host_input_bytes_per_decode as int,
    );
    a_sum_is_the_total(
        ledger.full_attention_mlp_layers@,
        LedgerLine::HostInputBytes,
        |part: Qwen35MetalW8MlpBlockBufferLedger| part.ledger.host_input_bytes_per_decode as int,
    );
    a_sum_is_the_total(
        ledger.stacks@,
        LedgerLine::HostOutputBytes,
        |part: Qwen35MetalW8LinearLayerStack3BufferLedger|
            part.ledger.host_output_bytes_per_decode as int,
    );
    a_sum_is_the_total(
        ledger.full_attention_mlp_layers@,
        LedgerLine::HostOutputBytes,
        |part: Qwen35MetalW8MlpBlockBufferLedger| part.ledger.host_output_bytes_per_decode as int,
    );
    a_sum_is_the_total(
        ledger.stacks@,
        LedgerLine::StateTransferBytes,
        |part: Qwen35MetalW8LinearLayerStack3BufferLedger|
            part.ledger.state_host_transfer_bytes_per_decode as int,
    );
    a_sum_is_the_total(
        ledger.full_attention_mlp_layers@,
        LedgerLine::StateTransferBytes,
        |part: Qwen35MetalW8MlpBlockBufferLedger|
            part.ledger.state_host_transfer_bytes_per_decode as int,
    );
    a_sum_is_the_total(
        ledger.stacks@,
        LedgerLine::CommandBuffers,
        |part: Qwen35MetalW8LinearLayerStack3BufferLedger|
            part.ledger.command_buffers_per_decode as int,
    );
    a_sum_is_the_total(
        ledger.full_attention_mlp_layers@,
        LedgerLine::CommandBuffers,
        |part: Qwen35MetalW8MlpBlockBufferLedger| part.ledger.command_buffers_per_decode as int,
    );
    a_sum_is_the_total(
        ledger.stacks@,
        LedgerLine::ComputeEncoders,
        |part: Qwen35MetalW8LinearLayerStack3BufferLedger|
            part.ledger.compute_encoders_per_decode as int,
    );
    a_sum_is_the_total(
        ledger.full_attention_mlp_layers@,
        LedgerLine::ComputeEncoders,
        |part: Qwen35MetalW8MlpBlockBufferLedger| part.ledger.compute_encoders_per_decode as int,
    );
    a_sum_is_the_total(
        ledger.stacks@,
        LedgerLine::Commits,
        |part: Qwen35MetalW8LinearLayerStack3BufferLedger| part.ledger.commits_per_decode as int,
    );
    a_sum_is_the_total(
        ledger.full_attention_mlp_layers@,
        LedgerLine::Commits,
        |part: Qwen35MetalW8MlpBlockBufferLedger| part.ledger.commits_per_decode as int,
    );
    a_sum_is_the_total(
        ledger.stacks@,
        LedgerLine::Waits,
        |part: Qwen35MetalW8LinearLayerStack3BufferLedger| part.ledger.waits_per_decode as int,
    );
    a_sum_is_the_total(
        ledger.full_attention_mlp_layers@,
        LedgerLine::Waits,
        |part: Qwen35MetalW8MlpBlockBufferLedger| part.ledger.waits_per_decode as int,
    );
    a_sum_is_the_total(
        ledger.stacks@,
        LedgerLine::IntermediateChecks,
        |part: Qwen35MetalW8LinearLayerStack3BufferLedger|
            part.ledger.intermediate_host_finite_checks_per_decode as int,
    );
    a_sum_is_the_total(
        ledger.stacks@,
        LedgerLine::FinalChecks,
        |part: Qwen35MetalW8LinearLayerStack3BufferLedger|
            part.ledger.final_output_finite_checks_per_decode as int,
    );
}

/// The totals of the boundary body are those of the initial stack, of the five
/// boundaries and of the final feed-forward block, which dispatches three kernels.
pub proof fn the_ledger_of_the_boundary_body_adds_up(
    ledger: Qwen35MetalW8MlpStack3BoundaryBodyV1AggregateLedger,
)
    requires
        ledger.adds_up(),
    ensures
        ledger.total_persistent_mtlbuffer_bytes
            == ledger.initial_stack.ledger.total_persistent_bytes + total_of(
            ledger.boundaries@,
            |part: Qwen35MetalW8MlpStack3BoundaryRegionBufferLedgerV1|
                part.ledger.total_persistent_bytes as int,
        ) + ledger.final_mlp.ledger.total_persistent_bytes,
        ledger.allocated_buffers == ledger.initial_stack.ledger.allocated_buffers + total_of(
            ledger.boundaries@,
            |part: Qwen35MetalW8MlpStack3BoundaryRegionBufferLedgerV1|
                part.ledger.allocated_buffers as int,
        ) + ledger.final_mlp.ledger.allocated_buffers,
        ledger.shared_buffers == ledger.initial_stack.ledger.shared_buffers + total_of(
            ledger.boundaries@,
            |part: Qwen35MetalW8MlpStack3BoundaryRegionBufferLedgerV1|
                part.ledger.shared_buffers as int,
        ) + ledger.final_mlp.ledger.shared_buffers,
        ledger.private_buffers == ledger.initial_stack.ledger.private_buffers + total_of(
            ledger.boundaries@,
            |part: Qwen35MetalW8MlpStack3BoundaryRegionBufferLedgerV1|
                part.ledger.private_buffers as int,
        ) + ledger.final_mlp.ledger.private_buffers,
        ledger.host_to_device_bytes_per_decode
            == ledger.initial_stack.ledger.host_input_bytes_per_decode + total_of(
            ledger.boundaries@,
            |part: Qwen35MetalW8MlpStack3BoundaryRegionBufferLedgerV1|
                part.ledger.host_input_bytes_per_decode as int,
        ) + ledger.final_mlp.ledger.host_input_bytes_per_decode,
        ledger.device_to_host_bytes_per_decode
            == ledger.initial_stack.ledger.host_output_bytes_per_decode + total_of(
            ledger.boundaries@,
            |part: Qwen35MetalW8MlpStack3BoundaryRegionBufferLedgerV1|
                part.ledger.host_output_bytes_per_decode as int,
        ) + ledger.final_mlp.ledger.host_output_bytes_per_decode,
        ledger.state_host_transfer_bytes_per_decode
            == ledger.initial_stack.ledger.state_host_transfer_bytes_per_decode + total_of(
            ledger.boundaries@,
            |part: Qwen35MetalW8MlpStack3BoundaryRegionBufferLedgerV1|
                part.ledger.state_host_transfer_bytes_per_decode as int,
        ) + ledger.final_mlp.ledger.state_host_transfer_bytes_per_decode,
        ledger.command_buffers_per_decode
            == ledger.initial_stack.ledger.command_buffers_per_decode + total_of(
            ledger.boundaries@,
            |part: Qwen35MetalW8MlpStack3BoundaryRegionBufferLedgerV1|
                part.ledger.command_buffers_per_decode as int,
        ) + ledger.final_mlp.ledger.command_buffers_per_decode,
        ledger.compute_encoders_per_decode
            == ledger.initial_stack.ledger.compute_encoders_per_decode + total_of(
            ledger.boundaries@,
            |part: Qwen35MetalW8MlpStack3BoundaryRegionBufferLedgerV1|
                part.ledger.compute_encoders_per_decode as int,
        ) + ledger.final_mlp.ledger.compute_encoders_per_decode,
        ledger.commits_per_decode == ledger.initial_stack.ledger.commits_per_decode + total_of(
            ledger.boundaries@,
            |part: Qwen35MetalW8MlpStack3BoundaryRegionBufferLedgerV1|
                part.ledger.commits_per_decode as int,
        ) + ledger.final_mlp.ledger.commits_per_decode,
        ledger.waits_per_decode == ledger.initial_stack.ledger.waits_per_decode + total_of(
            ledger.boundaries@,
            |part: Qwen35MetalW8MlpStack3BoundaryRegionBufferLedgerV1|
                part.ledger.waits_per_decode as int,
        ) + ledger.final_mlp.ledger.waits_per_decode,
        ledger.kernel_dispatches_per_decode
            == ledger.initial_stack.ledger.kernel_dispatches_per_decode + total_of(
            ledger.boundaries@,
            |part: Qwen35MetalW8MlpStack3BoundaryRegionBufferLedgerV1|
                part.ledger.kernel_dispatches_per_decode as int,
        ) + 3,
        ledger.intermediate_host_finite_checks_per_decode
            == ledger.initial_stack.ledger.intermediate_host_finite_checks_per_decode + total_of(
            ledger.boundaries@,
            |part: Qwen35MetalW8MlpStack3BoundaryRegionBufferLedgerV1|
                part.ledger.intermediate_host_finite_checks_per_decode as int,
        ),
        ledger.final_output_finite_checks_per_decode
            == ledger.initial_stack.ledger.final_output_finite_checks_per_decode + total_of(
            ledger.boundaries@,
            |part: Qwen35MetalW8MlpStack3BoundaryRegionBufferLedgerV1|
                part.ledger.final_output_finite_checks_per_decode as int,
        ),
{
    a_sum_is_the_total(
        ledger.boundaries@,
        LedgerLine::TotalPersistentBytes,
        |part: Qwen35MetalW8MlpStack3BoundaryRegionBufferLedgerV1|
            part.ledger.total_persistent_bytes as int,
    );
    a_sum_is_the_total(
        ledger.boundaries@,
        LedgerLine::AllocatedBuffers,
        |part: Qwen35MetalW8MlpStack3BoundaryRegionBufferLedgerV1|
            part.ledger.allocated_buffers as int,
    );
    a_sum_is_the_total(
        ledger.boundaries@,
        LedgerLine::SharedBuffers,
        |part: Qwen35MetalW8MlpStack3BoundaryRegionBufferLedgerV1|
            part.ledger.shared_buffers as int,
    );
    a_sum_is_the_total(
        ledger.boundaries@,
        LedgerLine::PrivateBuffers,
        |part: Qwen35MetalW8MlpStack3BoundaryRegionBufferLedgerV1|
            part.ledger.private_buffers as int,
    );
    a_sum_is_the_total(
        ledger.boundaries@,
        LedgerLine::HostInputBytes,
        |part: Qwen35MetalW8MlpStack3BoundaryRegionBufferLedgerV1|
            part.ledger.host_input_bytes_per_decode as int,
    );
    a_sum_is_the_total(
        ledger.boundaries@,
        LedgerLine::HostOutputBytes,
        |part: Qwen35MetalW8MlpStack3BoundaryRegionBufferLedgerV1|
            part.ledger.host_output_bytes_per_decode as int,
    );
    a_sum_is_the_total(
        ledger.boundaries@,
        LedgerLine::StateTransferBytes,
        |part: Qwen35MetalW8MlpStack3BoundaryRegionBufferLedgerV1|
            part.ledger.state_host_transfer_bytes_per_decode as int,
    );
    a_sum_is_the_total(
        ledger.boundaries@,
        LedgerLine::CommandBuffers,
        |part: Qwen35MetalW8MlpStack3BoundaryRegionBufferLedgerV1|
            part.ledger.command_buffers_per_decode as int,
    );
    a_sum_is_the_total(
        ledger.boundaries@,
        LedgerLine::ComputeEncoders,
        |part: Qwen35MetalW8MlpStack3BoundaryRegionBufferLedgerV1|
            part.ledger.compute_encoders_per_decode as int,
    );
    a_sum_is_the_total(
        ledger.boundaries@,
        LedgerLine::Commits,
        |part: Qwen35MetalW8MlpStack3BoundaryRegionBufferLedgerV1|
            part.ledger.commits_per_decode as int,
    );
    a_sum_is_the_total(
        ledger.boundaries@,
        LedgerLine::Waits,
        |part: Qwen35MetalW8MlpStack3BoundaryRegionBufferLedgerV1|
            part.ledger.waits_per_decode as int,
    );
    a_sum_is_the_total(
        ledger.boundaries@,
        LedgerLine::KernelDispatches,
        |part: Qwen35MetalW8MlpStack3BoundaryRegionBufferLedgerV1|
            part.ledger.kernel_dispatches_per_decode as int,
    );
    a_sum_is_the_total(
        ledger.boundaries@,
        LedgerLine::IntermediateChecks,
        |part: Qwen35MetalW8MlpStack3BoundaryRegionBufferLedgerV1|
            part.ledger.intermediate_host_finite_checks_per_decode as int,
    );
    a_sum_is_the_total(
        ledger.boundaries@,
        LedgerLine::FinalChecks,
        |part: Qwen35MetalW8MlpStack3BoundaryRegionBufferLedgerV1|
            part.ledger.final_output_finite_checks_per_decode as int,
    );
}

/// The totals of the lane with the tail are those of the initial stack, of the
/// boundaries and of the tail.
pub proof fn the_ledger_of_the_tail_lane_adds_up(
    ledger: Qwen35MetalW8MlpStack3BoundaryTailHeadV1AggregateLedger,
)
    requires
        ledger.adds_up(),
    ensures
        ledger.total_persistent_mtlbuffer_bytes
            == ledger.initial_stack.ledger.total_persistent_bytes + total_of(
            ledger.boundaries@,
            |part: Qwen35MetalW8MlpStack3BoundaryRegionBufferLedgerV1|
                part.ledger.total_persistent_bytes as int,
        ) + ledger.tail.total_persistent_bytes,
        ledger.allocated_buffers == ledger.initial_stack.ledger.allocated_buffers + total_of(
            ledger.boundaries@,
            |part: Qwen35MetalW8MlpStack3BoundaryRegionBufferLedgerV1|
                part.ledger.allocated_buffers as int,
        ) + ledger.tail.allocated_buffers,
        ledger.shared_buffers == ledger.initial_stack.ledger.shared_buffers + total_of(
            ledger.boundaries@,
            |part: Qwen35MetalW8MlpStack3BoundaryRegionBufferLedgerV1|
                part.ledger.shared_buffers as int,
        ) + ledger.tail.shared_buffers,
        ledger.private_buffers == ledger.initial_stack.ledger.private_buffers + total_of(
            ledger.boundaries@,
            |part: Qwen35MetalW8MlpStack3BoundaryRegionBufferLedgerV1|
                part.ledger.private_buffers as int,
        ) + ledger.tail.private_buffers,
        ledger.host_to_device_bytes_per_decode
            == ledger.initial_stack.ledger.host_input_bytes_per_decode + total_of(
            ledger.boundaries@,
            |part: Qwen35MetalW8MlpStack3BoundaryRegionBufferLedgerV1|
                part.ledger.host_input_bytes_per_decode as int,
        ) + ledger.tail.host_input_bytes_per_decode,
        ledger.device_to_host_bytes_per_decode
            == ledger.initial_stack.ledger.host_output_bytes_per_decode + total_of(
            ledger.boundaries@,
            |part: Qwen35MetalW8MlpStack3BoundaryRegionBufferLedgerV1|
                part.ledger.host_output_bytes_per_decode as int,
        ) + ledger.tail.host_output_bytes_per_decode,
        ledger.state_host_transfer_bytes_per_decode
            == ledger.initial_stack.ledger.state_host_transfer_bytes_per_decode + total_of(
            ledger.boundaries@,
            |part: Qwen35MetalW8MlpStack3BoundaryRegionBufferLedgerV1|
                part.ledger.state_host_transfer_bytes_per_decode as int,
        ) + ledger.tail.state_host_transfer_bytes_per_decode,
        ledger.command_buffers_per_decode
            == ledger.initial_stack.ledger.command_buffers_per_decode + total_of(
            ledger.boundaries@,
            |part: Qwen35MetalW8MlpStack3BoundaryRegionBufferLedgerV1|
                part.ledger.command_buffers_per_decode as int,
        ) + ledger.tail.command_buffers_per_decode,
        ledger.compute_encoders_per_decode
            == ledger.initial_stack.ledger.compute_encoders_per_decode + total_of(
            ledger.boundaries@,
            |part: Qwen35MetalW8MlpStack3BoundaryRegionBufferLedgerV1|
                part.ledger.compute_encoders_per_decode as int,
        ) + ledger.tail.compute_encoders_per_decode,
        ledger.commits_per_decode == ledger.initial_stack.ledger.commits_per_decode + total_of(
            ledger.boundaries@,
            |part: Qwen35MetalW8MlpStack3BoundaryRegionBufferLedgerV1|
                part.ledger.commits_per_decode as int,
        ) + ledger.tail.commits_per_decode,
        ledger.waits_per_decode == ledger.initial_stack.ledger.waits_per_decode + total_of(
            ledger.boundaries@,
            |part: Qwen35MetalW8MlpStack3BoundaryRegionBufferLedgerV1|
                part.ledger.waits_per_decode as int,
        ) + ledger.tail.waits_per_decode,
        ledger.kernel_dispatches_per_decode
            == ledger.initial_stack.ledger.kernel_dispatches_per_decode + total_of(
            ledger.boundaries@,
            |part: Qwen35MetalW8MlpStack3BoundaryRegionBufferLedgerV1|
                part.ledger.kernel_dispatches_per_decode as int,
        ) + ledger.tail.kernel_dispatches_per_decode,
        ledger.explicit_buffer_barriers_per_decode
            == ledger.initial_stack.ledger.explicit_buffer_barriers_per_decode + total_of(
            ledger.boundaries@,
            |part: Qwen35MetalW8MlpStack3BoundaryRegionBufferLedgerV1|
                part.ledger.explicit_buffer_barriers_per_decode as int,
        ) + ledger.tail.buffer_barriers_per_decode,
{
    a_sum_is_the_total(
        ledger.boundaries@,
        LedgerLine::TotalPersistentBytes,
        |part: Qwen35MetalW8MlpStack3BoundaryRegionBufferLedgerV1|
            part.ledger.total_persistent_bytes as int,
    );
    a_sum_is_the_total(
        ledger.boundaries@,
        LedgerLine::AllocatedBuffers,
        |part: Qwen35MetalW8MlpStack3BoundaryRegionBufferLedgerV1|
            part.ledger.allocated_buffers as int,
    );
    a_sum_is_the_total(
        ledger.boundaries@,
        LedgerLine::SharedBuffers,
        |part: Qwen35MetalW8MlpStack3BoundaryRegionBufferLedgerV1|
            part.ledger.shared_buffers as int,
    );
    a_sum_is_the_total(
        ledger.boundaries@,
        LedgerLine::PrivateBuffers,
        |part: Qwen35MetalW8MlpStack3BoundaryRegionBufferLedgerV1|
            part.ledger.private_buffers as int,
    );
    a_sum_is_the_total(
        ledger.boundaries@,
        LedgerLine::HostInputBytes,
        |part: Qwen35MetalW8MlpStack3BoundaryRegionBufferLedgerV1|
            part.ledger.host_input_bytes_per_decode as int,
    );
    a_sum_is_the_total(
        ledger.boundaries@,
        LedgerLine::HostOutputBytes,
        |part: Qwen35MetalW8MlpStack3BoundaryRegionBufferLedgerV1|
            part.ledger.host_output_bytes_per_decode as int,
    );
    a_sum_is_the_total(
        ledger.boundaries@,
        LedgerLine::StateTransferBytes,
        |part: Qwen35MetalW8MlpStack3BoundaryRegionBufferLedgerV1|
            part.ledger.state_host_transfer_bytes_per_decode as int,
    );
    a_sum_is_the_total(
        ledger.boundaries@,
        LedgerLine::CommandBuffers,
        |part: Qwen35MetalW8MlpStack3BoundaryRegionBufferLedgerV1|
            part.ledger.command_buffers_per_decode as int,
    );
    a_sum_is_the_total(
        ledger.boundaries@,
        LedgerLine::ComputeEncoders,
        |part: Qwen35MetalW8MlpStack3BoundaryRegionBufferLedgerV1|
            part.ledger.compute_encoders_per_decode as int,
    );
    a_sum_is_the_total(
        ledger.boundaries@,
        LedgerLine::Commits,
        |part: Qwen35MetalW8MlpStack3BoundaryRegionBufferLedgerV1|
            part.ledger.commits_per_decode as int,
    );
    a_sum_is_the_total(
        ledger.boundaries@,
        LedgerLine::Waits,
        |part: Qwen35MetalW8MlpStack3BoundaryRegionBufferLedgerV1|
            part.ledger.waits_per_decode as int,
    );
    a_sum_is_the_total(
        ledger.boundaries@,
        LedgerLine::KernelDispatches,
        |part: Qwen35MetalW8MlpStack3BoundaryRegionBufferLedgerV1|
            part.ledger.kernel_dispatches_per_decode as int,
    );
    a_sum_is_the_total(
        ledger.boundaries@,
        LedgerLine::BufferBarriers,
        |part: Qwen35MetalW8MlpStack3BoundaryRegionBufferLedgerV1|
            part.ledger.explicit_buffer_barriers_per_decode as int,
    );
}

/// A decode of the lane with the tail is seven submissions of twenty-four encoders,
/// with fewer kernels where the recurrent core is fused; the parts run one core.
pub proof fn the_tail_lane_has_one_topology(
    ledger: Qwen35MetalW8MlpStack3BoundaryTailHeadV1AggregateLedger,
    chains: crate::qwen35::metal::FunctionChains,
)
    requires
        ledger.adds_up(),
        Qwen35MetalW8MlpStack3BoundaryTailHeadV1AggregateLedger::fault(
            ledger.initial_stack,
            ledger.boundaries@,
            ledger.tail,
            chains,
        ) is None,
    ensures
        ledger.command_buffers_per_decode == 7,
        ledger.compute_encoders_per_decode == 24,
        ledger.commits_per_decode == 7,
        ledger.waits_per_decode == 7,
        ledger.gdn_core_profile == GdnCoreProfileV1::Fused128 ==> {
            &&& ledger.kernel_dispatches_per_decode == 213
            &&& ledger.explicit_buffer_barriers_per_decode == 189
        },
        ledger.gdn_core_profile == GdnCoreProfileV1::LegacyFourDispatch ==> {
            &&& ledger.kernel_dispatches_per_decode == 267
            &&& ledger.explicit_buffer_barriers_per_decode == 243
        },
        ledger.gdn_core_profile != GdnCoreProfileV1::QkStagedFourDispatch,
        ledger.boundaries@.len() == 5,
        forall|b: int|
            0 <= b < 5 ==> (#[trigger] ledger.boundaries@[b]).ledger.gdn_core_profile
                == ledger.gdn_core_profile,
{
}

/// The totals of stacks and head together are those of both.
pub proof fn the_ledger_of_stacks_and_head_adds_up(
    ledger: Qwen35MetalW8Stack3LmHeadV2AggregateLedger,
)
    requires
        ledger.adds_up(),
    ensures
        ledger.includes_lm_head,
        ledger.total_persistent_mtlbuffer_bytes == ledger.body.total_persistent_mtlbuffer_bytes
            + ledger.lm_head.total_persistent_bytes,
        ledger.allocated_buffers == ledger.body.allocated_buffers
            + ledger.lm_head.allocated_buffers,
        ledger.shared_buffers == ledger.body.shared_buffers + ledger.lm_head.shared_buffers,
        ledger.private_buffers == ledger.body.private_buffers + ledger.lm_head.private_buffers,
        ledger.host_to_device_bytes_per_call == ledger.body.host_to_device_bytes_per_decode
            + ledger.lm_head.host_input_bytes_per_call,
        ledger.device_to_host_bytes_per_call == ledger.body.device_to_host_bytes_per_decode
            + ledger.lm_head.host_output_bytes_per_call,
        ledger.command_buffers_per_call == ledger.body.command_buffers_per_decode
            + ledger.lm_head.command_buffers_per_call,
        ledger.compute_encoders_per_call == ledger.body.compute_encoders_per_decode
            + ledger.lm_head.compute_encoders_per_call,
        ledger.commits_per_call == ledger.body.commits_per_decode
            + ledger.lm_head.commits_per_call,
        ledger.waits_per_call == ledger.body.waits_per_decode + ledger.lm_head.waits_per_call,
{
}

} // verus!
