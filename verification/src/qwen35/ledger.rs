//! Buffer ledgers: what the accelerated parts of a model keep resident and
//! move per decode, added up over the model.

use vstd::prelude::*;

use crate::error::{answers, Error, Fault, FaultOrder};
use crate::qwen35::metal::{
    FunctionChains, GdnCoreProfileV1, LinearLayerBufferLedger, LinearLayerStack3BufferLedger,
    LmHeadBufferLedger, MlpBlockBufferLedger, MlpStack3BoundaryBufferLedgerV1,
    TailMlpHeadBufferLedgerV1,
};
use crate::qwen35::profile::{
    production_fault, profile_label, qwen35_gdn_core_profile_v1_label,
    validate_qwen35_production_gdn_core_profile_v1,
};
use crate::text::same_text;

verus! {

/// One line of a ledger.
#[derive(Clone, Copy, Debug, PartialEq, Eq, Structural)]
pub enum LedgerLine {
    TotalPersistentBytes,
    AllocatedBuffers,
    SharedBuffers,
    PrivateBuffers,
    HostInputBytes,
    HostOutputBytes,
    StateTransferBytes,
    CommandBuffers,
    ComputeEncoders,
    KernelDispatches,
    BufferBarriers,
    Commits,
    Waits,
    IntermediateChecks,
    FinalChecks,
}

impl LedgerLine {
    /// The name of the line in messages.
    pub open spec fn label(self) -> &'static str {
        match self {
            LedgerLine::TotalPersistentBytes => "total_persistent_bytes",
            LedgerLine::AllocatedBuffers => "allocated_buffers",
            LedgerLine::SharedBuffers => "shared_buffers",
            LedgerLine::PrivateBuffers => "private_buffers",
            LedgerLine::HostInputBytes => "host_input_bytes_per_decode",
            LedgerLine::HostOutputBytes => "host_output_bytes_per_decode",
            LedgerLine::StateTransferBytes => "state_host_transfer_bytes_per_decode",
            LedgerLine::CommandBuffers => "command_buffers_per_decode",
            LedgerLine::ComputeEncoders => "compute_encoders_per_decode",
            LedgerLine::KernelDispatches => "kernel_dispatches_per_decode",
            LedgerLine::BufferBarriers => "explicit_buffer_barriers_per_decode",
            LedgerLine::Commits => "commits_per_decode",
            LedgerLine::Waits => "waits_per_decode",
            LedgerLine::IntermediateChecks => "intermediate_host_finite_checks_per_decode",
            LedgerLine::FinalChecks => "final_output_finite_checks_per_decode",
        }
    }

    fn label_text(self) -> (text: &'static str)
        ensures
            text == self.label(),
    {
        match self {
            LedgerLine::TotalPersistentBytes => "total_persistent_bytes",
            LedgerLine::AllocatedBuffers => "allocated_buffers",
            LedgerLine::SharedBuffers => "shared_buffers",
            LedgerLine::PrivateBuffers => "private_buffers",
            LedgerLine::HostInputBytes => "host_input_bytes_per_decode",
            LedgerLine::HostOutputBytes => "host_output_bytes_per_decode",
            LedgerLine::StateTransferBytes => "state_host_transfer_bytes_per_decode",
            LedgerLine::CommandBuffers => "command_buffers_per_decode",
            LedgerLine::ComputeEncoders => "compute_encoders_per_decode",
            LedgerLine::KernelDispatches => "kernel_dispatches_per_decode",
            LedgerLine::BufferBarriers => "explicit_buffer_barriers_per_decode",
            LedgerLine::Commits => "commits_per_decode",
            LedgerLine::Waits => "waits_per_decode",
            LedgerLine::IntermediateChecks => "intermediate_host_finite_checks_per_decode",
            LedgerLine::FinalChecks => "final_output_finite_checks_per_decode",
        }
    }
}

/// A part of a model whose ledger can be read line by line. A line that the
/// ledger does not have is zero.
pub trait LedgerEntry: Sized {
    spec fn value(self, line: LedgerLine) -> usize;

    fn read(&self, line: LedgerLine) -> (n: usize)
        ensures
            n == self.value(line),
    ;
}

/// The ledger of one complete linear layer.
#[derive(Clone, Copy, Debug, PartialEq, Eq)]
pub struct Qwen35MetalW8LinearLayerBufferLedger {
    pub layer_index: usize,
    pub ledger: LinearLayerBufferLedger,
}

impl LedgerEntry for Qwen35MetalW8LinearLayerBufferLedger {
    open spec fn value(self, line: LedgerLine) -> usize {
        match line {
            LedgerLine::TotalPersistentBytes => self.ledger.total_persistent_bytes,
            LedgerLine::AllocatedBuffers => self.ledger.allocated_buffers,
            LedgerLine::SharedBuffers => self.ledger.shared_buffers,
            LedgerLine::PrivateBuffers => self.ledger.private_buffers,
            LedgerLine::HostInputBytes => self.ledger.host_input_bytes_per_decode,
            LedgerLine::HostOutputBytes => self.ledger.host_output_bytes_per_decode,
            LedgerLine::StateTransferBytes => self.ledger.state_host_transfer_bytes_per_decode,
            LedgerLine::CommandBuffers => self.ledger.command_buffers_per_decode,
            LedgerLine::ComputeEncoders => self.ledger.compute_encoders_per_decode,
            LedgerLine::Commits => self.ledger.commits_per_decode,
            LedgerLine::Waits => self.ledger.waits_per_decode,
            _ => 0,
        }
    }

    fn read(&self, line: LedgerLine) -> (n: usize) {
        match line {
            LedgerLine::TotalPersistentBytes => self.ledger.total_persistent_bytes,
            LedgerLine::AllocatedBuffers => self.ledger.allocated_buffers,
            LedgerLine::SharedBuffers => self.ledger.shared_buffers,
            LedgerLine::PrivateBuffers => self.ledger.private_buffers,
            LedgerLine::HostInputBytes => self.ledger.host_input_bytes_per_decode,
            LedgerLine::HostOutputBytes => self.ledger.host_output_bytes_per_decode,
            LedgerLine::StateTransferBytes => self.ledger.state_host_transfer_bytes_per_decode,
            LedgerLine::CommandBuffers => self.ledger.command_buffers_per_decode,
            LedgerLine::ComputeEncoders => self.ledger.compute_encoders_per_decode,
            LedgerLine::Commits => self.ledger.commits_per_decode,
            LedgerLine::Waits => self.ledger.waits_per_decode,
            _ => 0,
        }
    }
}

/// The ledger of one feed-forward block.
#[derive(Clone, Copy, Debug, PartialEq, Eq)]
pub struct Qwen35MetalW8MlpBlockBufferLedger {
    pub layer_index: usize,
    pub ledger: MlpBlockBufferLedger,
}

impl LedgerEntry for Qwen35MetalW8MlpBlockBufferLedger {
    open spec fn value(self, line: LedgerLine) -> usize {
        match line {
            LedgerLine::TotalPersistentBytes => self.ledger.total_persistent_bytes,
            LedgerLine::AllocatedBuffers => self.ledger.allocated_buffers,
            LedgerLine::SharedBuffers => self.ledger.shared_buffers,
            LedgerLine::PrivateBuffers => self.ledger.private_buffers,
            LedgerLine::HostInputBytes => self.ledger.host_input_bytes_per_decode,
            LedgerLine::HostOutputBytes => self.ledger.host_output_bytes_per_decode,
            LedgerLine::StateTransferBytes => self.ledger.state_host_transfer_bytes_per_decode,
            LedgerLine::CommandBuffers => self.ledger.command_buffers_per_decode,
            LedgerLine::ComputeEncoders => self.ledger.compute_encoders_per_decode,
            LedgerLine::Commits => self.ledger.commits_per_decode,
            LedgerLine::Waits => self.ledger.waits_per_decode,
            _ => 0,
        }
    }

    fn read(&self, line: LedgerLine) -> (n: usize) {
        match line {
            LedgerLine::TotalPersistentBytes => self.ledger.total_persistent_bytes,
            LedgerLine::AllocatedBuffers => self.ledger.allocated_buffers,
            LedgerLine::SharedBuffers => self.ledger.shared_buffers,
            LedgerLine::PrivateBuffers => self.ledger.private_buffers,
            LedgerLine::HostInputBytes => self.ledger.host_input_bytes_per_decode,
            LedgerLine::HostOutputBytes => self.ledger.host_output_bytes_per_decode,
            LedgerLine::StateTransferBytes => self.ledger.state_host_transfer_bytes_per_decode,
            LedgerLine::CommandBuffers => self.ledger.command_buffers_per_decode,
            LedgerLine::ComputeEncoders => self.ledger.compute_encoders_per_decode,
            LedgerLine::Commits => self.ledger.commits_per_decode,
            LedgerLine::Waits => self.ledger.waits_per_decode,
            _ => 0,
        }
    }
}

/// The ledger of one stack of three linear layers.
#[derive(Clone, Copy, Debug, PartialEq, Eq)]
pub struct Qwen35MetalW8LinearLayerStack3BufferLedger {
    pub layer_indices: [usize; 3],
    pub ledger: LinearLayerStack3BufferLedger,
}

impl LedgerEntry for Qwen35MetalW8LinearLayerStack3BufferLedger {
    open spec fn value(self, line: LedgerLine) -> usize {
        match line {
            LedgerLine::TotalPersistentBytes => self.ledger.total_persistent_bytes,
            LedgerLine::AllocatedBuffers => self.ledger.allocated_buffers,
            LedgerLine::SharedBuffers => self.ledger.shared_buffers,
            LedgerLine::PrivateBuffers => self.ledger.private_buffers,
            LedgerLine::HostInputBytes => self.ledger.host_input_bytes_per_decode,
            LedgerLine::HostOutputBytes => self.ledger.host_output_bytes_per_decode,
            LedgerLine::StateTransferBytes => self.ledger.state_host_transfer_bytes_per_decode,
            LedgerLine::CommandBuffers => self.ledger.command_buffers_per_decode,
            LedgerLine::ComputeEncoders => self.ledger.compute_encoders_per_decode,
            LedgerLine::KernelDispatches => self.ledger.kernel_dispatches_per_decode,
            LedgerLine::BufferBarriers => self.ledger.explicit_buffer_barriers_per_decode,
            LedgerLine::Commits => self.ledger.commits_per_decode,
            LedgerLine::Waits => self.ledger.waits_per_decode,
            LedgerLine::IntermediateChecks => self.ledger.intermediate_host_finite_checks_per_decode,
            LedgerLine::FinalChecks => self.ledger.final_output_finite_checks_per_decode,
        }
    }

    fn read(&self, line: LedgerLine) -> (n: usize) {
        match line {
            LedgerLine::TotalPersistentBytes => self.ledger.total_persistent_bytes,
            LedgerLine::AllocatedBuffers => self.ledger.allocated_buffers,
            LedgerLine::SharedBuffers => self.ledger.shared_buffers,
            LedgerLine::PrivateBuffers => self.ledger.private_buffers,
            LedgerLine::HostInputBytes => self.ledger.host_input_bytes_per_decode,
            LedgerLine::HostOutputBytes => self.ledger.host_output_bytes_per_decode,
            LedgerLine::StateTransferBytes => self.ledger.state_host_transfer_bytes_per_decode,
            LedgerLine::CommandBuffers => self.ledger.command_buffers_per_decode,
            LedgerLine::ComputeEncoders => self.ledger.compute_encoders_per_decode,
            LedgerLine::KernelDispatches => self.ledger.kernel_dispatches_per_decode,
            LedgerLine::BufferBarriers => self.ledger.explicit_buffer_barriers_per_decode,
            LedgerLine::Commits => self.ledger.commits_per_decode,
            LedgerLine::Waits => self.ledger.waits_per_decode,
            LedgerLine::IntermediateChecks => self.ledger.intermediate_host_finite_checks_per_decode,
            LedgerLine::FinalChecks => self.ledger.final_output_finite_checks_per_decode,
        }
    }
}

/// The ledger of one feed-forward block and the stack behind it.
#[derive(Clone, Copy, Debug, PartialEq, Eq)]
pub struct Qwen35MetalW8MlpStack3BoundaryRegionBufferLedgerV1 {
    pub boundary_mlp_layer_index: usize,
    pub stack_layer_indices: [usize; 3],
    pub ledger: MlpStack3BoundaryBufferLedgerV1,
}

impl LedgerEntry for Qwen35MetalW8MlpStack3BoundaryRegionBufferLedgerV1 {
    open spec fn value(self, line: LedgerLine) -> usize {
        match line {
            LedgerLine::TotalPersistentBytes => self.ledger.total_persistent_bytes,
            LedgerLine::AllocatedBuffers => self.ledger.allocated_buffers,
            LedgerLine::SharedBuffers => self.ledger.shared_buffers,
            LedgerLine::PrivateBuffers => self.ledger.private_buffers,
            LedgerLine::HostInputBytes => self.ledger.host_input_bytes_per_decode,
            LedgerLine::HostOutputBytes => self.ledger.host_output_bytes_per_decode,
            LedgerLine::StateTransferBytes => self.ledger.state_host_transfer_bytes_per_decode,
            LedgerLine::CommandBuffers => self.ledger.command_buffers_per_decode,
            LedgerLine::ComputeEncoders => self.ledger.compute_encoders_per_decode,
            LedgerLine::KernelDispatches => self.ledger.kernel_dispatches_per_decode,
            LedgerLine::BufferBarriers => self.ledger.explicit_buffer_barriers_per_decode,
            LedgerLine::Commits => self.ledger.commits_per_decode,
            LedgerLine::Waits => self.ledger.waits_per_decode,
            LedgerLine::IntermediateChecks => self.ledger.intermediate_host_finite_checks_per_decode,
            LedgerLine::FinalChecks => self.ledger.final_output_finite_checks_per_decode,
        }
    }

    fn read(&self, line: LedgerLine) -> (n: usize) {
        match line {
            LedgerLine::TotalPersistentBytes => self.ledger.total_persistent_bytes,
            LedgerLine::AllocatedBuffers => self.ledger.allocated_buffers,
            LedgerLine::SharedBuffers => self.ledger.shared_buffers,
            LedgerLine::PrivateBuffers => self.ledger.private_buffers,
            LedgerLine::HostInputBytes => self.ledger.host_input_bytes_per_decode,
            LedgerLine::HostOutputBytes => self.ledger.host_output_bytes_per_decode,
            LedgerLine::StateTransferBytes => self.ledger.state_host_transfer_bytes_per_decode,
            LedgerLine::CommandBuffers => self.ledger.command_buffers_per_decode,
            LedgerLine::ComputeEncoders => self.ledger.compute_encoders_per_decode,
            LedgerLine::KernelDispatches => self.ledger.kernel_dispatches_per_decode,
            LedgerLine::BufferBarriers => self.ledger.explicit_buffer_barriers_per_decode,
            LedgerLine::Commits => self.ledger.commits_per_decode,
            LedgerLine::Waits => self.ledger.waits_per_decode,
            LedgerLine::IntermediateChecks => self.ledger.intermediate_host_finite_checks_per_decode,
            LedgerLine::FinalChecks => self.ledger.final_output_finite_checks_per_decode,
        }
    }
}

impl LedgerEntry for TailMlpHeadBufferLedgerV1 {
    open spec fn value(self, line: LedgerLine) -> usize {
        match line {
            LedgerLine::TotalPersistentBytes => self.total_persistent_bytes,
            LedgerLine::AllocatedBuffers => self.allocated_buffers,
            LedgerLine::SharedBuffers => self.shared_buffers,
            LedgerLine::PrivateBuffers => self.private_buffers,
            LedgerLine::HostInputBytes => self.host_input_bytes_per_decode,
            LedgerLine::HostOutputBytes => self.host_output_bytes_per_decode,
            LedgerLine::StateTransferBytes => self.state_host_transfer_bytes_per_decode,
            LedgerLine::CommandBuffers => self.command_buffers_per_decode,
            LedgerLine::ComputeEncoders => self.compute_encoders_per_decode,
            LedgerLine::KernelDispatches => self.kernel_dispatches_per_decode,
            LedgerLine::BufferBarriers => self.buffer_barriers_per_decode,
            LedgerLine::Commits => self.commits_per_decode,
            LedgerLine::Waits => self.waits_per_decode,
            _ => 0,
        }
    }

    fn read(&self, line: LedgerLine) -> (n: usize) {
        match line {
            LedgerLine::TotalPersistentBytes => self.total_persistent_bytes,
            LedgerLine::AllocatedBuffers => self.allocated_buffers,
            LedgerLine::SharedBuffers => self.shared_buffers,
            LedgerLine::PrivateBuffers => self.private_buffers,
            LedgerLine::HostInputBytes => self.host_input_bytes_per_decode,
            LedgerLine::HostOutputBytes => self.host_output_bytes_per_decode,
            LedgerLine::StateTransferBytes => self.state_host_transfer_bytes_per_decode,
            LedgerLine::CommandBuffers => self.command_buffers_per_decode,
            LedgerLine::ComputeEncoders => self.compute_encoders_per_decode,
            LedgerLine::KernelDispatches => self.kernel_dispatches_per_decode,
            LedgerLine::BufferBarriers => self.buffer_barriers_per_decode,
            LedgerLine::Commits => self.commits_per_decode,
            LedgerLine::Waits => self.waits_per_decode,
            _ => 0,
        }
    }
}

/// The sum of one line over the entries.
pub open spec fn line_sum<L: LedgerEntry>(entries: Seq<L>, line: LedgerLine) -> int
    decreases entries.len(),
{
    if entries.len() == 0 {
        0
    } else {
        line_sum(entries.drop_last(), line) + entries.last().value(line)
    }
}

/// A sum that stops at the largest size.
pub open spec fn capped(n: int) -> usize {
    if n > usize::MAX {
        usize::MAX
    } else {
        n as usize
    }
}

proof fn sum_step<L: LedgerEntry>(entries: Seq<L>, i: int, line: LedgerLine)
    requires
        0 <= i < entries.len(),
    ensures
        line_sum(entries.take(i + 1), line) == line_sum(entries.take(i), line) + entries[i].value(
            line,
        ),
{
    assert(entries.take(i + 1).drop_last() =~= entries.take(i));
}

proof fn sums_grow<L: LedgerEntry>(entries: Seq<L>, i: int, line: LedgerLine)
    requires
        0 <= i <= entries.len(),
    ensures
        0 <= line_sum(entries.take(i), line) <= line_sum(entries, line),
    decreases entries.len() - i,
{
    if i == entries.len() {
        assert(entries.take(i) =~= entries);
        sum_is_natural(entries, line);
    } else {
        sums_grow(entries, i + 1, line);
        sum_step(entries, i, line);
        sum_is_natural(entries.take(i), line);
    }
}

proof fn sum_is_natural<L: LedgerEntry>(entries: Seq<L>, line: LedgerLine)
    ensures
        0 <= line_sum(entries, line),
    decreases entries.len(),
{
    if entries.len() > 0 {
        sum_is_natural(entries.drop_last(), line);
    }
}

/// The order in which parts are listed does not change the totals: moving one
/// part from the front to the back leaves every sum as it is.
pub proof fn sums_do_not_depend_on_order<L: LedgerEntry>(
    a: Seq<L>,
    b: Seq<L>,
    line: LedgerLine,
)
    ensures
        line_sum(a + b, line) == line_sum(a, line) + line_sum(b, line),
        line_sum(a + b, line) == line_sum(b + a, line),
    decreases a.len() + b.len(),
{
    sum_of_joined(a, b, line);
    sum_of_joined(b, a, line);
}

proof fn sum_of_joined<L: LedgerEntry>(a: Seq<L>, b: Seq<L>, line: LedgerLine)
    ensures
        line_sum(a + b, line) == line_sum(a, line) + line_sum(b, line),
    decreases b.len(),
{
    if b.len() == 0 {
        assert(a + b =~= a);
    } else {
        assert((a + b).drop_last() =~= a + b.drop_last());
        sum_of_joined(a, b.drop_last(), line);
    }
}

/// Adds one line of the entries to a total that stops at the largest size.
fn saturating_line<L: LedgerEntry>(
    start: usize,
    entries: &Vec<L>,
    line: LedgerLine,
    Ghost(exact): Ghost<int>,
) -> (total: usize)
    requires
        exact >= 0,
        start == capped(exact),
    ensures
        total == capped(exact + line_sum(entries@, line)),
{
    let mut total: usize = start;
    let mut i: usize = 0;
    proof {
        assert(entries@.take(0) =~= Seq::<L>::empty());
    }
    while i < entries.len()
        invariant
            i <= entries@.len(),
            exact >= 0,
            total == capped(exact + line_sum(entries@.take(i as int), line)),
        decreases entries@.len() - i,
    {
        proof {
            sum_step(entries@, i as int, line);
            sum_is_natural(entries@.take(i as int), line);
        }
        total = total.saturating_add(entries[i].read(line));
        i = i + 1;
    }
    proof {
        assert(entries@.take(i as int) =~= entries@);
    }
    total
}

/// One line over two lists of entries.
fn saturating_total<A: LedgerEntry, B: LedgerEntry>(
    first: &Vec<A>,
    second: &Vec<B>,
    line: LedgerLine,
) -> (total: usize)
    ensures
        total == capped(line_sum(first@, line) + line_sum(second@, line)),
{
    let head: usize = saturating_line(0, first, line, Ghost(0));
    proof {
        sum_is_natural(first@, line);
    }
    saturating_line(head, second, line, Ghost(line_sum(first@, line)))
}

/// Adds one line of a part, of the entries and of a last part; `None` where
/// the total does not fit.
fn checked_total<A: LedgerEntry, B: LedgerEntry, C: LedgerEntry>(
    first: &A,
    middle: &Vec<B>,
    last: &C,
    line: LedgerLine,
) -> (total: Option<usize>)
    ensures
        match total {
            Some(n) => n == joined_sum(*first, middle@, *last, line),
            None => joined_sum(*first, middle@, *last, line) > usize::MAX,
        },
{
    let mut sum: usize = first.read(line);
    let mut i: usize = 0;
    proof {
        assert(middle@.take(0) =~= Seq::<B>::empty());
    }
    while i < middle.len()
        invariant
            i <= middle@.len(),
            sum == first.value(line) + line_sum(middle@.take(i as int), line),
        decreases middle@.len() - i,
    {
        proof {
            sum_step(middle@, i as int, line);
            sums_grow(middle@, i + 1, line);
        }
        match sum.checked_add(middle[i].read(line)) {
            Some(next) => {
                sum = next;
            },
            None => {
                return None;
            },
        }
        i = i + 1;
    }
    proof {
        assert(middle@.take(i as int) =~= middle@);
    }
    sum.checked_add(last.read(line))
}

/// One line over a part, the entries and a last part.
pub open spec fn joined_sum<A: LedgerEntry, B: LedgerEntry, C: LedgerEntry>(
    first: A,
    middle: Seq<B>,
    last: C,
    line: LedgerLine,
) -> int {
    first.value(line) + line_sum(middle, line) + last.value(line)
}

/// The ledger of the lane that runs every linear layer by itself.
#[derive(Debug, PartialEq, Eq)]
pub struct Qwen35MetalW8AllLinearLayersPrecisionV2AggregateLedger {
    pub scope: &'static str,
    pub exclusions: &'static str,
    pub includes_lm_head: bool,
    pub linear_layers: Vec<Qwen35MetalW8LinearLayerBufferLedger>,
    pub full_attention_mlp_layers: Vec<Qwen35MetalW8MlpBlockBufferLedger>,
    pub total_persistent_mtlbuffer_bytes: usize,
    pub allocated_buffers: usize,
    pub shared_buffers: usize,
    pub private_buffers: usize,
    pub host_to_device_bytes_per_decode: usize,
    pub device_to_host_bytes_per_decode: usize,
    pub state_host_transfer_bytes_per_decode: usize,
    pub command_buffers_per_decode: usize,
    pub compute_encoders_per_decode: usize,
    pub commits_per_decode: usize,
    pub waits_per_decode: usize,
}

impl Qwen35MetalW8AllLinearLayersPrecisionV2AggregateLedger {
    /// The ledger adds up its parts line by line; totals stop at the largest
    /// size.
    pub open spec fn adds_up(self) -> bool {
        let parts = self.linear_layers@;
        let mlps = self.full_attention_mlp_layers@;
        &&& self.scope@ == "resident-mtlbuffer-only"@
        &&& self.exclusions@
            == "CPU F32 weights, host Vec allocations, Metal pipelines/libraries/queues, driver allocations, KV cache, and lm_head"@
        &&& !self.includes_lm_head
        &&& self.total_persistent_mtlbuffer_bytes == capped(
            line_sum(parts, LedgerLine::TotalPersistentBytes)
                + line_sum(mlps, LedgerLine::TotalPersistentBytes),
        )
        &&& self.allocated_buffers == capped(
            line_sum(parts, LedgerLine::AllocatedBuffers)
                + line_sum(mlps, LedgerLine::AllocatedBuffers),
        )
        &&& self.shared_buffers == capped(
            line_sum(parts, LedgerLine::SharedBuffers) + line_sum(mlps, LedgerLine::SharedBuffers),
        )
        &&& self.private_buffers == capped(
            line_sum(parts, LedgerLine::PrivateBuffers)
                + line_sum(mlps, LedgerLine::PrivateBuffers),
        )
        &&& self.host_to_device_bytes_per_decode == capped(
            line_sum(parts, LedgerLine::HostInputBytes)
                + line_sum(mlps, LedgerLine::HostInputBytes),
        )
        &&& self.device_to_host_bytes_per_decode == capped(
            line_sum(parts, LedgerLine::HostOutputBytes)
                + line_sum(mlps, LedgerLine::HostOutputBytes),
        )
        &&& self.state_host_transfer_bytes_per_decode == capped(
            line_sum(parts, LedgerLine::StateTransferBytes)
                + line_sum(mlps, LedgerLine::StateTransferBytes),
        )
        &&& self.command_buffers_per_decode == capped(
            line_sum(parts, LedgerLine::CommandBuffers)
                + line_sum(mlps, LedgerLine::CommandBuffers),
        )
        &&& self.compute_encoders_per_decode == capped(
            line_sum(parts, LedgerLine::ComputeEncoders)
                + line_sum(mlps, LedgerLine::ComputeEncoders),
        )
        &&& self.commits_per_decode == capped(
            line_sum(parts, LedgerLine::Commits) + line_sum(mlps, LedgerLine::Commits),
        )
        &&& self.waits_per_decode == capped(
            line_sum(parts, LedgerLine::Waits) + line_sum(mlps, LedgerLine::Waits),
        )
    }

    /// Adds up the ledgers of a lane.
    pub fn new(
        linear_layers: Vec<Qwen35MetalW8LinearLayerBufferLedger>,
        full_attention_mlp_layers: Vec<Qwen35MetalW8MlpBlockBufferLedger>,
    ) -> (r: Qwen35MetalW8AllLinearLayersPrecisionV2AggregateLedger)
        ensures
            r.linear_layers == linear_layers,
            r.full_attention_mlp_layers == full_attention_mlp_layers,
            r.adds_up(),
    {
        let scope = "resident-mtlbuffer-only";
        let exclusions =
            "CPU F32 weights, host Vec allocations, Metal pipelines/libraries/queues, driver allocations, KV cache, and lm_head";
        let total_persistent_mtlbuffer_bytes: usize = saturating_total(
            &linear_layers,
            &full_attention_mlp_layers,
            LedgerLine::TotalPersistentBytes,
        );
        let allocated_buffers: usize = saturating_total(
            &linear_layers,
            &full_attention_mlp_layers,
            LedgerLine::AllocatedBuffers,
        );
        let shared_buffers: usize = saturating_total(
            &linear_layers,
            &full_attention_mlp_layers,
            LedgerLine::SharedBuffers,
        );
        let private_buffers: usize = saturating_total(
            &linear_layers,
            &full_attention_mlp_layers,
            LedgerLine::PrivateBuffers,
        );
        let host_to_device_bytes_per_decode: usize = saturating_total(
            &linear_layers,
            &full_attention_mlp_layers,
            LedgerLine::HostInputBytes,
        );
        let device_to_host_bytes_per_decode: usize = saturating_total(
            &linear_layers,
            &full_attention_mlp_layers,
            LedgerLine::HostOutputBytes,
        );
        let state_host_transfer_bytes_per_decode: usize = saturating_total(
            &linear_layers,
            &full_attention_mlp_layers,
            LedgerLine::StateTransferBytes,
        );
        let command_buffers_per_decode: usize = saturating_total(
            &linear_layers,
            &full_attention_mlp_layers,
            LedgerLine::CommandBuffers,
        );
        let compute_encoders_per_decode: usize = saturating_total(
            &linear_layers,
            &full_attention_mlp_layers,
            LedgerLine::ComputeEncoders,
        );
        let commits_per_decode: usize = saturating_total(
            &linear_layers,
            &full_attention_mlp_layers,
            LedgerLine::Commits,
        );
        let waits_per_decode: usize = saturating_total(
            &linear_layers,
            &full_attention_mlp_layers,
            LedgerLine::Waits,
        );
        Qwen35MetalW8AllLinearLayersPrecisionV2AggregateLedger {
            scope,
            exclusions,
            includes_lm_head: false,
            linear_layers,
            full_attention_mlp_layers,
            total_persistent_mtlbuffer_bytes,
            allocated_buffers,
            shared_buffers,
            private_buffers,
            host_to_device_bytes_per_decode,
            device_to_host_bytes_per_decode,
            state_host_transfer_bytes_per_decode,
            command_buffers_per_decode,
            compute_encoders_per_decode,
            commits_per_decode,
            waits_per_decode,
        }
    }
}

/// The ledger of the lane that runs linear layers in stacks of three.
#[derive(Debug, PartialEq, Eq)]
pub struct Qwen35MetalW8LinearLayerStacksV1AggregateLedger {
    pub scope: &'static str,
    pub exclusions: &'static str,
    pub includes_lm_head: bool,
    pub stacks: Vec<Qwen35MetalW8LinearLayerStack3BufferLedger>,
    pub full_attention_mlp_layers: Vec<Qwen35MetalW8MlpBlockBufferLedger>,
    pub total_persistent_mtlbuffer_bytes: usize,
    pub allocated_buffers: usize,
    pub shared_buffers: usize,
    pub private_buffers: usize,
    pub host_to_device_bytes_per_decode: usize,
    pub device_to_host_bytes_per_decode: usize,
    pub state_host_transfer_bytes_per_decode: usize,
    pub command_buffers_per_decode: usize,
    pub compute_encoders_per_decode: usize,
    pub commits_per_decode: usize,
    pub waits_per_decode: usize,
    pub intermediate_host_finite_checks_per_decode: usize,
    pub final_output_finite_checks_per_decode: usize,
}

impl Qwen35MetalW8LinearLayerStacksV1AggregateLedger {
    /// The ledger adds up its parts line by line; totals stop at the largest
    /// size.
    pub open spec fn adds_up(self) -> bool {
        let parts = self.stacks@;
        let mlps = self.full_attention_mlp_layers@;
        &&& self.scope@ == "resident-mtlbuffer-only"@
        &&& self.exclusions@
            == "CPU F32 weights, host Vec allocations, Metal pipelines/libraries/queues, driver allocations, KV cache, and lm_head"@
        &&& !self.includes_lm_head
        &&& self.total_persistent_mtlbuffer_bytes == capped(
            line_sum(parts, LedgerLine::TotalPersistentBytes)
                + line_sum(mlps, LedgerLine::TotalPersistentBytes),
        )
        &&& self.allocated_buffers == capped(
            line_sum(parts, LedgerLine::AllocatedBuffers)
                + line_sum(mlps, LedgerLine::AllocatedBuffers),
        )
        &&& self.shared_buffers == capped(
            line_sum(parts, LedgerLine::SharedBuffers) + line_sum(mlps, LedgerLine::SharedBuffers),
        )
        &&& self.private_buffers == capped(
            line_sum(parts, LedgerLine::PrivateBuffers)
                + line_sum(mlps, LedgerLine::PrivateBuffers),
        )
        &&& self.host_to_device_bytes_per_decode == capped(
            line_sum(parts, LedgerLine::HostInputBytes)
                + line_sum(mlps, LedgerLine::HostInputBytes),
        )
        &&& self.device_to_host_bytes_per_decode == capped(
            line_sum(parts, LedgerLine::HostOutputBytes)
                + line_sum(mlps, LedgerLine::HostOutputBytes),
        )
        &&& self.state_host_transfer_bytes_per_decode == capped(
            line_sum(parts, LedgerLine::StateTransferBytes)
                + line_sum(mlps, LedgerLine::StateTransferBytes),
        )
        &&& self.command_buffers_per_decode == capped(
            line_sum(parts, LedgerLine::CommandBuffers)
                + line_sum(mlps, LedgerLine::CommandBuffers),
        )
        &&& self.compute_encoders_per_decode == capped(
            line_sum(parts, LedgerLine::ComputeEncoders)
                + line_sum(mlps, LedgerLine::ComputeEncoders),
        )
        &&& self.commits_per_decode == capped(
            line_sum(parts, LedgerLine::Commits) + line_sum(mlps, LedgerLine::Commits),
        )
        &&& self.waits_per_decode == capped(
            line_sum(parts, LedgerLine::Waits) + line_sum(mlps, LedgerLine::Waits),
        )
        &&& self.intermediate_host_finite_checks_per_decode == capped(
            line_sum(parts, LedgerLine::IntermediateChecks),
        )
        &&& self.final_output_finite_checks_per_decode == capped(
            line_sum(parts, LedgerLine::FinalChecks),
        )
    }

    /// Adds up the ledgers of a lane.
    pub fn new(
        stacks: Vec<Qwen35MetalW8LinearLayerStack3BufferLedger>,
        full_attention_mlp_layers: Vec<Qwen35MetalW8MlpBlockBufferLedger>,
    ) -> (r: Qwen35MetalW8LinearLayerStacksV1AggregateLedger)
        ensures
            r.stacks == stacks,
            r.full_attention_mlp_layers == full_attention_mlp_layers,
            r.adds_up(),
    {
        let scope = "resident-mtlbuffer-only";
        let exclusions =
            "CPU F32 weights, host Vec allocations, Metal pipelines/libraries/queues, driver allocations, KV cache, and lm_head";
        let total_persistent_mtlbuffer_bytes: usize = saturating_total(
            &stacks,
            &full_attention_mlp_layers,
            LedgerLine::TotalPersistentBytes,
        );
        let allocated_buffers: usize = saturating_total(
            &stacks,
            &full_attention_mlp_layers,
            LedgerLine::AllocatedBuffers,
        );
        let shared_buffers: usize = saturating_total(
            &stacks,
            &full_attention_mlp_layers,
            LedgerLine::SharedBuffers,
        );
        let private_buffers: usize = saturating_total(
            &stacks,
            &full_attention_mlp_layers,
            LedgerLine::PrivateBuffers,
        );
        let host_to_device_bytes_per_decode: usize = saturating_total(
            &stacks,
            &full_attention_mlp_layers,
            LedgerLine::HostInputBytes,
        );
        let device_to_host_bytes_per_decode: usize = saturating_total(
            &stacks,
            &full_attention_mlp_layers,
            LedgerLine::HostOutputBytes,
        );
        let state_host_transfer_bytes_per_decode: usize = saturating_total(
            &stacks,
            &full_attention_mlp_layers,
            LedgerLine::StateTransferBytes,
        );
        let command_buffers_per_decode: usize = saturating_total(
            &stacks,
            &full_attention_mlp_layers,
            LedgerLine::CommandBuffers,
        );
        let compute_encoders_per_decode: usize = saturating_total(
            &stacks,
            &full_attention_mlp_layers,
            LedgerLine::ComputeEncoders,
        );
        let commits_per_decode: usize = saturating_total(
            &stacks,
            &full_attention_mlp_layers,
            LedgerLine::Commits,
        );
        let waits_per_decode: usize = saturating_total(
            &stacks,
            &full_attention_mlp_layers,
            LedgerLine::Waits,
        );
        let intermediate_host_finite_checks_per_decode: usize = saturating_line(
            0,
            &stacks,
            LedgerLine::IntermediateChecks,
            Ghost(0),
        );
        let final_output_finite_checks_per_decode: usize = saturating_line(
            0,
            &stacks,
            LedgerLine::FinalChecks,
            Ghost(0),
        );
        Qwen35MetalW8LinearLayerStacksV1AggregateLedger {
            scope,
            exclusions,
            includes_lm_head: false,
            stacks,
            full_attention_mlp_layers,
            total_persistent_mtlbuffer_bytes,
            allocated_buffers,
            shared_buffers,
            private_buffers,
            host_to_device_bytes_per_decode,
            device_to_host_bytes_per_decode,
            state_host_transfer_bytes_per_decode,
            command_buffers_per_decode,
            compute_encoders_per_decode,
            commits_per_decode,
            waits_per_decode,
            intermediate_host_finite_checks_per_decode,
            final_output_finite_checks_per_decode,
        }
    }
}

/// The ledger of the lane of stacks together with the accelerated head.
#[derive(Debug, PartialEq, Eq)]
pub struct Qwen35MetalW8Stack3LmHeadV2AggregateLedger {
    pub scope: &'static str,
    pub exclusions: &'static str,
    pub includes_lm_head: bool,
    pub body: Qwen35MetalW8LinearLayerStacksV1AggregateLedger,
    pub lm_head: LmHeadBufferLedger,
    pub total_persistent_mtlbuffer_bytes: usize,
    pub allocated_buffers: usize,
    pub shared_buffers: usize,
    pub private_buffers: usize,
    pub host_to_device_bytes_per_call: usize,
    pub device_to_host_bytes_per_call: usize,
    pub state_host_transfer_bytes_per_call: usize,
    pub command_buffers_per_call: usize,
    pub compute_encoders_per_call: usize,
    pub commits_per_call: usize,
    pub waits_per_call: usize,
    pub intermediate_host_finite_checks_per_call: usize,
    pub final_output_finite_checks_per_call: usize,
}

/// The fault of a total of the Stack3 and head ledger that does not fit.
pub open spec fn head_overflow(total: int, label: &'static str) -> Fault {
    if total > usize::MAX {
        Some(Error::Stack3HeadLedgerOverflow { label }.text())
    } else {
        None
    }
}

fn add_head(left: usize, right: usize, label: &'static str) -> (r: Result<usize, Error>)
    ensures
        answers(r, head_overflow(left + right, label)),
        r matches Ok(n) ==> n == left + right,
{
    match left.checked_add(right) {
        Some(n) => Ok(n),
        None => Err(Error::Stack3HeadLedgerOverflow { label }),
    }
}

impl Qwen35MetalW8Stack3LmHeadV2AggregateLedger {
    /// The first total that does not fit.
    pub open spec fn fault(
        body: Qwen35MetalW8LinearLayerStacksV1AggregateLedger,
        lm_head: LmHeadBufferLedger,
    ) -> Fault {
        head_overflow(
            body.total_persistent_mtlbuffer_bytes + lm_head.total_persistent_bytes,
            "persistent bytes",
        )
            .or_fault(
                head_overflow(body.allocated_buffers + lm_head.allocated_buffers, "buffer count"),
            )
            .or_fault(
                head_overflow(body.shared_buffers + lm_head.shared_buffers, "shared buffer count"),
            )
            .or_fault(
                head_overflow(
                    body.private_buffers + lm_head.private_buffers,
                    "private buffer count",
                ),
            )
            .or_fault(
                head_overflow(
                    body.host_to_device_bytes_per_decode + lm_head.host_input_bytes_per_call,
                    "host-to-device bytes",
                ),
            )
            .or_fault(
                head_overflow(
                    body.device_to_host_bytes_per_decode + lm_head.host_output_bytes_per_call,
                    "device-to-host bytes",
                ),
            )
            .or_fault(
                head_overflow(
                    body.state_host_transfer_bytes_per_decode
                        + lm_head.state_host_transfer_bytes_per_call,
                    "state transfer bytes",
                ),
            )
            .or_fault(
                head_overflow(
                    body.command_buffers_per_decode + lm_head.command_buffers_per_call,
                    "command buffers",
                ),
            )
            .or_fault(
                head_overflow(
                    body.compute_encoders_per_decode + lm_head.compute_encoders_per_call,
                    "compute encoders",
                ),
            )
            .or_fault(head_overflow(body.commits_per_decode + lm_head.commits_per_call, "commits"))
            .or_fault(head_overflow(body.waits_per_decode + lm_head.waits_per_call, "waits"))
    }

    /// Every total is that of the body and of the head together.
    pub open spec fn adds_up(self) -> bool {
        &&& self.scope@ == "resident-mtlbuffer-only"@
        &&& self.exclusions@
            == "host F32 tied embedding and exact four-candidate F32 rerank, other CPU F32 weights, host allocations, Metal pipelines/libraries/queues, command objects, driver allocations, and KV cache"@
        &&& self.includes_lm_head
        &&& self.total_persistent_mtlbuffer_bytes == self.body.total_persistent_mtlbuffer_bytes
            + self.lm_head.total_persistent_bytes
        &&& self.allocated_buffers == self.body.allocated_buffers + self.lm_head.allocated_buffers
        &&& self.shared_buffers == self.body.shared_buffers + self.lm_head.shared_buffers
        &&& self.private_buffers == self.body.private_buffers + self.lm_head.private_buffers
        &&& self.host_to_device_bytes_per_call == self.body.host_to_device_bytes_per_decode
            + self.lm_head.host_input_bytes_per_call
        &&& self.device_to_host_bytes_per_call == self.body.device_to_host_bytes_per_decode
            + self.lm_head.host_output_bytes_per_call
        &&& self.state_host_transfer_bytes_per_call
            == self.body.state_host_transfer_bytes_per_decode
            + self.lm_head.state_host_transfer_bytes_per_call
        &&& self.command_buffers_per_call == self.body.command_buffers_per_decode
            + self.lm_head.command_buffers_per_call
        &&& self.compute_encoders_per_call == self.body.compute_encoders_per_decode
            + self.lm_head.compute_encoders_per_call
        &&& self.commits_per_call == self.body.commits_per_decode + self.lm_head.commits_per_call
        &&& self.waits_per_call == self.body.waits_per_decode + self.lm_head.waits_per_call
        &&& self.intermediate_host_finite_checks_per_call
            == self.body.intermediate_host_finite_checks_per_decode
        &&& self.final_output_finite_checks_per_call
            == self.body.final_output_finite_checks_per_decode
    }

    /// Adds the head to the body.
    pub fn new(
        body: Qwen35MetalW8LinearLayerStacksV1AggregateLedger,
        lm_head: LmHeadBufferLedger,
    ) -> (r: Result<Qwen35MetalW8Stack3LmHeadV2AggregateLedger, Error>)
        ensures
            answers(r, Qwen35MetalW8Stack3LmHeadV2AggregateLedger::fault(body, lm_head)),
            r matches Ok(ledger) ==> ledger.body == body && ledger.lm_head == lm_head
                && ledger.adds_up(),
    {
        let total_persistent_mtlbuffer_bytes: usize = match add_head(
            body.total_persistent_mtlbuffer_bytes,
            lm_head.total_persistent_bytes,
            "persistent bytes",
        ) {
            Ok(n) => n,
            Err(e) => return Err(e),
        };
        let allocated_buffers: usize = match add_head(
            body.allocated_buffers,
            lm_head.allocated_buffers,
            "buffer count",
        ) {
            Ok(n) => n,
            Err(e) => return Err(e),
        };
        let shared_buffers: usize = match add_head(
            body.shared_buffers,
            lm_head.shared_buffers,
            "shared buffer count",
        ) {
            Ok(n) => n,
            Err(e) => return Err(e),
        };
        let private_buffers: usize = match add_head(
            body.private_buffers,
            lm_head.private_buffers,
            "private buffer count",
        ) {
            Ok(n) => n,
            Err(e) => return Err(e),
        };
        let host_to_device_bytes_per_call: usize = match add_head(
            body.host_to_device_bytes_per_decode,
            lm_head.host_input_bytes_per_call,
            "host-to-device bytes",
        ) {
            Ok(n) => n,
            Err(e) => return Err(e),
        };
        let device_to_host_bytes_per_call: usize = match add_head(
            body.device_to_host_bytes_per_decode,
            lm_head.host_output_bytes_per_call,
            "device-to-host bytes",
        ) {
            Ok(n) => n,
            Err(e) => return Err(e),
        };
        let state_host_transfer_bytes_per_call: usize = match add_head(
            body.state_host_transfer_bytes_per_decode,
            lm_head.state_host_transfer_bytes_per_call,
            "state transfer bytes",
        ) {
            Ok(n) => n,
            Err(e) => return Err(e),
        };
        let command_buffers_per_call: usize = match add_head(
            body.command_buffers_per_decode,
            lm_head.command_buffers_per_call,
            "command buffers",
        ) {
            Ok(n) => n,
            Err(e) => return Err(e),
        };
        let compute_encoders_per_call: usize = match add_head(
            body.compute_encoders_per_decode,
            lm_head.compute_encoders_per_call,
            "compute encoders",
        ) {
            Ok(n) => n,
            Err(e) => return Err(e),
        };
        let commits_per_call: usize = match add_head(
            body.commits_per_decode,
            lm_head.commits_per_call,
            "commits",
        ) {
            Ok(n) => n,
            Err(e) => return Err(e),
        };
        let waits_per_call: usize = match add_head(
            body.waits_per_decode,
            lm_head.waits_per_call,
            "waits",
        ) {
            Ok(n) => n,
            Err(e) => return Err(e),
        };
        let intermediate_host_finite_checks_per_call: usize =
            body.intermediate_host_finite_checks_per_decode;
        let final_output_finite_checks_per_call: usize = body.final_output_finite_checks_per_decode;
        Ok(
            Qwen35MetalW8Stack3LmHeadV2AggregateLedger {
                scope: "resident-mtlbuffer-only",
                exclusions:
                    "host F32 tied embedding and exact four-candidate F32 rerank, other CPU F32 weights, host allocations, Metal pipelines/libraries/queues, command objects, driver allocations, and KV cache",
                includes_lm_head: true,
                body,
                lm_head,
                total_persistent_mtlbuffer_bytes,
                allocated_buffers,
                shared_buffers,
                private_buffers,
                host_to_device_bytes_per_call,
                device_to_host_bytes_per_call,
                state_host_transfer_bytes_per_call,
                command_buffers_per_call,
                compute_encoders_per_call,
                commits_per_call,
                waits_per_call,
                intermediate_host_finite_checks_per_call,
                final_output_finite_checks_per_call,
            },
        )
    }
}

/// The ledger of the boundary and tail-head lane.
#[derive(Debug, PartialEq, Eq)]
pub struct Qwen35MetalW8MlpStack3BoundaryTailHeadV1AggregateLedger {
    pub scope: &'static str,
    pub exclusions: &'static str,
    pub includes_lm_head: bool,
    pub gdn_core_profile: GdnCoreProfileV1,
    pub gdn_function_chain: &'static str,
    pub initial_stack: Qwen35MetalW8LinearLayerStack3BufferLedger,
    pub boundaries: Vec<Qwen35MetalW8MlpStack3BoundaryRegionBufferLedgerV1>,
    pub tail_layer_index: usize,
    pub tail: TailMlpHeadBufferLedgerV1,
    pub total_persistent_mtlbuffer_bytes: usize,
    pub allocated_buffers: usize,
    pub shared_buffers: usize,
    pub private_buffers: usize,
    pub host_to_device_bytes_per_decode: usize,
    pub device_to_host_bytes_per_decode: usize,
    pub state_host_transfer_bytes_per_decode: usize,
    pub command_buffers_per_decode: usize,
    pub compute_encoders_per_decode: usize,
    pub kernel_dispatches_per_decode: usize,
    pub explicit_buffer_barriers_per_decode: usize,
    pub commits_per_decode: usize,
    pub waits_per_decode: usize,
}

/// The fault of a total of the tail-head ledger that does not fit.
pub open spec fn tail_overflow(
    initial: Qwen35MetalW8LinearLayerStack3BufferLedger,
    boundaries: Seq<Qwen35MetalW8MlpStack3BoundaryRegionBufferLedgerV1>,
    tail: TailMlpHeadBufferLedgerV1,
    line: LedgerLine,
) -> Fault {
    if joined_sum(initial, boundaries, tail, line) > usize::MAX {
        Some(Error::TailHeadLedgerOverflow { label: line.label() }.text())
    } else {
        None
    }
}

fn add_tail(
    initial: &Qwen35MetalW8LinearLayerStack3BufferLedger,
    boundaries: &Vec<Qwen35MetalW8MlpStack3BoundaryRegionBufferLedgerV1>,
    tail: &TailMlpHeadBufferLedgerV1,
    line: LedgerLine,
) -> (r: Result<usize, Error>)
    ensures
        answers(r, tail_overflow(*initial, boundaries@, *tail, line)),
        r matches Ok(n) ==> n == joined_sum(*initial, boundaries@, *tail, line),
{
    match checked_total(initial, boundaries, tail, line) {
        Some(n) => Ok(n),
        None => Err(Error::TailHeadLedgerOverflow { label: line.label_text() }),
    }
}

/// The number of kernels and barriers of one decode of the tail-head lane.
pub open spec fn tail_topology(profile: GdnCoreProfileV1) -> (usize, usize) {
    match profile {
        GdnCoreProfileV1::Fused128 => (213, 189),
        _ => (267, 243),
    }
}

/// All parts run the same recurrent core, and there are five boundaries.
pub open spec fn profiles_agree(
    initial: Qwen35MetalW8LinearLayerStack3BufferLedger,
    boundaries: Seq<Qwen35MetalW8MlpStack3BoundaryRegionBufferLedgerV1>,
    chains: FunctionChains,
) -> bool {
    let profile = initial.ledger.gdn_core_profile;
    &&& initial.ledger.gdn_function_chain@ == chains.of(profile)@
    &&& boundaries.len() == 5
    &&& forall|i: int|
        0 <= i < boundaries.len() ==> (#[trigger] boundaries[i]).ledger.gdn_core_profile == profile
            && boundaries[i].ledger.gdn_function_chain@ == chains.of(profile)@
}

fn check_profiles(
    initial: &Qwen35MetalW8LinearLayerStack3BufferLedger,
    boundaries: &Vec<Qwen35MetalW8MlpStack3BoundaryRegionBufferLedgerV1>,
    chains: &FunctionChains,
) -> (agree: bool)
    ensures
        agree == profiles_agree(*initial, boundaries@, *chains),
{
    let profile: GdnCoreProfileV1 = initial.ledger.gdn_core_profile;
    let chain = chains.expected_function_chain(profile);
    if !same_text(initial.ledger.gdn_function_chain, chain) || boundaries.len() != 5 {
        return false;
    }
    let mut i: usize = 0;
    while i < boundaries.len()
        invariant
            i <= boundaries@.len(),
            profile == initial.ledger.gdn_core_profile,
            chain == chains.of(profile),
            forall|j: int|
                0 <= j < i ==> (#[trigger] boundaries@[j]).ledger.gdn_core_profile == profile
                    && boundaries@[j].ledger.gdn_function_chain@ == chain@,
        decreases boundaries@.len() - i,
    {
        if boundaries[i].ledger.gdn_core_profile != profile || !same_text(
            boundaries[i].ledger.gdn_function_chain,
            chain,
        ) {
            return false;
        }
        i = i + 1;
    }
    true
}

impl Qwen35MetalW8MlpStack3BoundaryTailHeadV1AggregateLedger {
    /// What stops the ledger from being made: a diagnostic or mixed core, a
    /// total that does not fit, or another topology than that of the lane.
    pub open spec fn fault(
        initial_stack: Qwen35MetalW8LinearLayerStack3BufferLedger,
        boundaries: Seq<Qwen35MetalW8MlpStack3BoundaryRegionBufferLedgerV1>,
        tail: TailMlpHeadBufferLedgerV1,
        chains: FunctionChains,
    ) -> Fault {
        let profile = initial_stack.ledger.gdn_core_profile;
        let total = |line: LedgerLine| joined_sum(initial_stack, boundaries, tail, line);
        let overflow = |line: LedgerLine| tail_overflow(initial_stack, boundaries, tail, line);
        let profiles = if profiles_agree(initial_stack, boundaries, chains) {
            None
        } else {
            Some(Error::TailHeadProfiles.text())
        };
        let dispatches = total(LedgerLine::KernelDispatches);
        let barriers = total(LedgerLine::BufferBarriers);
        let topology = if (dispatches, barriers) == (
            tail_topology(profile).0 as int,
            tail_topology(profile).1 as int,
        ) {
            None
        } else {
            Some(
                Error::TailHeadTopology {
                    profile: profile_label(profile),
                    dispatches: dispatches as usize,
                    barriers: barriers as usize,
                    expected_dispatches: tail_topology(profile).0,
                    expected_barriers: tail_topology(profile).1,
                }.text(),
            )
        };
        let submissions = if total(LedgerLine::CommandBuffers) == 7 && total(
            LedgerLine::ComputeEncoders,
        ) == 24 && total(LedgerLine::Commits) == 7 && total(LedgerLine::Waits) == 7 {
            None
        } else {
            Some(
                Error::TailHeadSubmissions {
                    command_buffers: total(LedgerLine::CommandBuffers) as usize,
                    encoders: total(LedgerLine::ComputeEncoders) as usize,
                    commits: total(LedgerLine::Commits) as usize,
                    waits: total(LedgerLine::Waits) as usize,
                }.text(),
            )
        };
        production_fault(profile)
            .or_fault(profiles)
            .or_fault(overflow(LedgerLine::KernelDispatches))
            .or_fault(overflow(LedgerLine::BufferBarriers))
            .or_fault(topology)
            .or_fault(overflow(LedgerLine::CommandBuffers))
            .or_fault(overflow(LedgerLine::ComputeEncoders))
            .or_fault(overflow(LedgerLine::Commits))
            .or_fault(overflow(LedgerLine::Waits))
            .or_fault(submissions)
            .or_fault(overflow(LedgerLine::TotalPersistentBytes))
            .or_fault(overflow(LedgerLine::AllocatedBuffers))
            .or_fault(overflow(LedgerLine::SharedBuffers))
            .or_fault(overflow(LedgerLine::PrivateBuffers))
            .or_fault(overflow(LedgerLine::HostInputBytes))
            .or_fault(overflow(LedgerLine::HostOutputBytes))
            .or_fault(overflow(LedgerLine::StateTransferBytes))
    }

    /// Every total is that of all parts together.
    pub open spec fn adds_up(self) -> bool {
        let profile = self.initial_stack.ledger.gdn_core_profile;
        &&& self.scope@ == "resident-mtlbuffer-only"@
        &&& self.exclusions@
            == "CPU F32 weights, host F32 tied embedding and exact four-candidate rerank, host allocations, Metal pipelines/libraries/queues, command objects, driver allocations, full attention/KV, model loader, and prefill CPU head"@
        &&& self.includes_lm_head
        &&& self.gdn_core_profile == profile
        &&& self.total_persistent_mtlbuffer_bytes == joined_sum(
            self.initial_stack,
            self.boundaries@,
            self.tail,
            LedgerLine::TotalPersistentBytes,
        )
        &&& self.allocated_buffers == joined_sum(
            self.initial_stack,
            self.boundaries@,
            self.tail,
            LedgerLine::AllocatedBuffers,
        )
        &&& self.shared_buffers == joined_sum(
            self.initial_stack,
            self.boundaries@,
            self.tail,
            LedgerLine::SharedBuffers,
        )
        &&& self.private_buffers == joined_sum(
            self.initial_stack,
            self.boundaries@,
            self.tail,
            LedgerLine::PrivateBuffers,
        )
        &&& self.host_to_device_bytes_per_decode == joined_sum(
            self.initial_stack,
            self.boundaries@,
            self.tail,
            LedgerLine::HostInputBytes,
        )
        &&& self.device_to_host_bytes_per_decode == joined_sum(
            self.initial_stack,
            self.boundaries@,
            self.tail,
            LedgerLine::HostOutputBytes,
        )
        &&& self.state_host_transfer_bytes_per_decode == joined_sum(
            self.initial_stack,
            self.boundaries@,
            self.tail,
            LedgerLine::StateTransferBytes,
        )
        &&& self.kernel_dispatches_per_decode == joined_sum(
            self.initial_stack,
            self.boundaries@,
            self.tail,
            LedgerLine::KernelDispatches,
        )
        &&& self.explicit_buffer_barriers_per_decode == joined_sum(
            self.initial_stack,
            self.boundaries@,
            self.tail,
            LedgerLine::BufferBarriers,
        )
        &&& self.command_buffers_per_decode == joined_sum(
            self.initial_stack,
            self.boundaries@,
            self.tail,
            LedgerLine::CommandBuffers,
        )
        &&& self.compute_encoders_per_decode == joined_sum(
            self.initial_stack,
            self.boundaries@,
            self.tail,
            LedgerLine::ComputeEncoders,
        )
        &&& self.commits_per_decode == joined_sum(
            self.initial_stack,
            self.boundaries@,
            self.tail,
            LedgerLine::Commits,
        )
        &&& self.waits_per_decode == joined_sum(
            self.initial_stack,
            self.boundaries@,
            self.tail,
            LedgerLine::Waits,
        )
    }

    /// Adds up the ledgers of the lane.
    pub fn new(
        initial_stack: Qwen35MetalW8LinearLayerStack3BufferLedger,
        boundaries: Vec<Qwen35MetalW8MlpStack3BoundaryRegionBufferLedgerV1>,
        tail_layer_index: usize,
        tail: TailMlpHeadBufferLedgerV1,
        chains: &FunctionChains,
    ) -> (r: Result<Qwen35MetalW8MlpStack3BoundaryTailHeadV1AggregateLedger, Error>)
        ensures
            answers(
                r,
                Qwen35MetalW8MlpStack3BoundaryTailHeadV1AggregateLedger::fault(
                    initial_stack,
                    boundaries@,
                    tail,
                    *chains,
                ),
            ),
            r matches Ok(ledger) ==> {
                &&& ledger.initial_stack == initial_stack
                &&& ledger.boundaries == boundaries
                &&& ledger.tail_layer_index == tail_layer_index
                &&& ledger.tail == tail
                &&& ledger.gdn_function_chain == chains.of(initial_stack.ledger.gdn_core_profile)
                &&& ledger.adds_up()
            },
    {
        let gdn_core_profile: GdnCoreProfileV1 = initial_stack.ledger.gdn_core_profile;
        if let Err(e) = validate_qwen35_production_gdn_core_profile_v1(gdn_core_profile) {
            return Err(e);
        }
        if !check_profiles(&initial_stack, &boundaries, chains) {
            return Err(Error::TailHeadProfiles);
        }
        let kernel_dispatches_per_decode: usize = match add_tail(
            &initial_stack,
            &boundaries,
            &tail,
            LedgerLine::KernelDispatches,
        ) {
            Ok(n) => n,
            Err(e) => return Err(e),
        };
        let explicit_buffer_barriers_per_decode: usize = match add_tail(
            &initial_stack,
            &boundaries,
            &tail,
            LedgerLine::BufferBarriers,
        ) {
            Ok(n) => n,
            Err(e) => return Err(e),
        };
        let (expected_dispatches, expected_barriers): (usize, usize) = match gdn_core_profile {
            GdnCoreProfileV1::Fused128 => (213, 189),
            _ => (267, 243),
        };
        if kernel_dispatches_per_decode != expected_dispatches
            || explicit_buffer_barriers_per_decode != expected_barriers {
            return Err(
                Error::TailHeadTopology {
                    profile: qwen35_gdn_core_profile_v1_label(gdn_core_profile),
                    dispatches: kernel_dispatches_per_decode,
                    barriers: explicit_buffer_barriers_per_decode,
                    expected_dispatches,
                    expected_barriers,
                },
            );
        }
        let command_buffers_per_decode: usize = match add_tail(
            &initial_stack,
            &boundaries,
            &tail,
            LedgerLine::CommandBuffers,
        ) {
            Ok(n) => n,
            Err(e) => return Err(e),
        };
        let compute_encoders_per_decode: usize = match add_tail(
            &initial_stack,
            &boundaries,
            &tail,
            LedgerLine::ComputeEncoders,
        ) {
            Ok(n) => n,
            Err(e) => return Err(e),
        };
        let commits_per_decode: usize = match add_tail(
            &initial_stack,
            &boundaries,
            &tail,
            LedgerLine::Commits,
        ) {
            Ok(n) => n,
            Err(e) => return Err(e),
        };
        let waits_per_decode: usize = match add_tail(
            &initial_stack,
            &boundaries,
            &tail,
            LedgerLine::Waits,
        ) {
            Ok(n) => n,
            Err(e) => return Err(e),
        };
        if command_buffers_per_decode != 7 || compute_encoders_per_decode != 24
            || commits_per_decode != 7 || waits_per_decode != 7 {
            return Err(
                Error::TailHeadSubmissions {
                    command_buffers: command_buffers_per_decode,
                    encoders: compute_encoders_per_decode,
                    commits: commits_per_decode,
                    waits: waits_per_decode,
                },
            );
        }
        let total_persistent_mtlbuffer_bytes: usize = match add_tail(
            &initial_stack,
            &boundaries,
            &tail,
            LedgerLine::TotalPersistentBytes,
        ) {
            Ok(n) => n,
            Err(e) => return Err(e),
        };
        let allocated_buffers: usize = match add_tail(
            &initial_stack,
            &boundaries,
            &tail,
            LedgerLine::AllocatedBuffers,
        ) {
            Ok(n) => n,
            Err(e) => return Err(e),
        };
        let shared_buffers: usize = match add_tail(
            &initial_stack,
            &boundaries,
            &tail,
            LedgerLine::SharedBuffers,
        ) {
            Ok(n) => n,
            Err(e) => return Err(e),
        };
        let private_buffers: usize = match add_tail(
            &initial_stack,
            &boundaries,
            &tail,
            LedgerLine::PrivateBuffers,
        ) {
            Ok(n) => n,
            Err(e) => return Err(e),
        };
        let host_to_device_bytes_per_decode: usize = match add_tail(
            &initial_stack,
            &boundaries,
            &tail,
            LedgerLine::HostInputBytes,
        ) {
            Ok(n) => n,
            Err(e) => return Err(e),
        };
        let device_to_host_bytes_per_decode: usize = match add_tail(
            &initial_stack,
            &boundaries,
            &tail,
            LedgerLine::HostOutputBytes,
        ) {
            Ok(n) => n,
            Err(e) => return Err(e),
        };
        let state_host_transfer_bytes_per_decode: usize = match add_tail(
            &initial_stack,
            &boundaries,
            &tail,
            LedgerLine::StateTransferBytes,
        ) {
            Ok(n) => n,
            Err(e) => return Err(e),
        };
        let gdn_function_chain = chains.expected_function_chain(gdn_core_profile);
        Ok(
            Qwen35MetalW8MlpStack3BoundaryTailHeadV1AggregateLedger {
                scope: "resident-mtlbuffer-only",
                exclusions:
                    "CPU F32 weights, host F32 tied embedding and exact four-candidate rerank, host allocations, Metal pipelines/libraries/queues, command objects, driver allocations, full attention/KV, model loader, and prefill CPU head",
                includes_lm_head: true,
                gdn_core_profile,
                gdn_function_chain,
                initial_stack,
                boundaries,
                tail_layer_index,
                tail,
                total_persistent_mtlbuffer_bytes,
                allocated_buffers,
                shared_buffers,
                private_buffers,
                host_to_device_bytes_per_decode,
                device_to_host_bytes_per_decode,
                state_host_transfer_bytes_per_decode,
                kernel_dispatches_per_decode,
                explicit_buffer_barriers_per_decode,
                command_buffers_per_decode,
                compute_encoders_per_decode,
                commits_per_decode,
                waits_per_decode,
            },
        )
    }
}

/// The ledger of the boundary body.
#[derive(Debug, PartialEq, Eq)]
pub struct Qwen35MetalW8MlpStack3BoundaryBodyV1AggregateLedger {
    pub scope: &'static str,
    pub exclusions: &'static str,
    pub includes_lm_head: bool,
    pub initial_stack: Qwen35MetalW8LinearLayerStack3BufferLedger,
    pub boundaries: Vec<Qwen35MetalW8MlpStack3BoundaryRegionBufferLedgerV1>,
    pub final_mlp: Qwen35MetalW8MlpBlockBufferLedger,
    pub total_persistent_mtlbuffer_bytes: usize,
    pub allocated_buffers: usize,
    pub shared_buffers: usize,
    pub private_buffers: usize,
    pub host_to_device_bytes_per_decode: usize,
    pub device_to_host_bytes_per_decode: usize,
    pub state_host_transfer_bytes_per_decode: usize,
    pub command_buffers_per_decode: usize,
    pub compute_encoders_per_decode: usize,
    pub kernel_dispatches_per_decode: usize,
    pub commits_per_decode: usize,
    pub waits_per_decode: usize,
    pub intermediate_host_finite_checks_per_decode: usize,
    pub final_output_finite_checks_per_decode: usize,
}

/// The fault of a total of the boundary ledger that does not fit.
pub open spec fn boundary_overflow(total: int, label: &'static str) -> Fault {
    if total > usize::MAX {
        Some(Error::BoundaryLedgerOverflow { label }.text())
    } else {
        None
    }
}

/// The first count that does not fit while the boundaries from `from` on are
/// added one after the other.
pub open spec fn boundary_counts_fault(
    initial: Qwen35MetalW8LinearLayerStack3BufferLedger,
    boundaries: Seq<Qwen35MetalW8MlpStack3BoundaryRegionBufferLedgerV1>,
    from: nat,
) -> Fault
    decreases boundaries.len() - from,
{
    if from >= boundaries.len() {
        None
    } else {
        let upto = |line: LedgerLine|
            initial.value(line) + line_sum(boundaries.take(from as int + 1), line);
        boundary_overflow(upto(LedgerLine::KernelDispatches), "kernel dispatch count")
            .or_fault(
                boundary_overflow(
                    upto(LedgerLine::IntermediateChecks),
                    "intermediate finite-check count",
                ),
            )
            .or_fault(boundary_overflow(upto(LedgerLine::FinalChecks), "final finite-check count"))
            .or_fault(boundary_counts_fault(initial, boundaries, from + 1))
    }
}

fn add_boundary(left: usize, right: usize, label: &'static str) -> (r: Result<usize, Error>)
    ensures
        answers(r, boundary_overflow(left + right, label)),
        r matches Ok(n) ==> n == left + right,
{
    match left.checked_add(right) {
        Some(n) => Ok(n),
        None => Err(Error::BoundaryLedgerOverflow { label }),
    }
}

fn add_body(
    initial: &Qwen35MetalW8LinearLayerStack3BufferLedger,
    boundaries: &Vec<Qwen35MetalW8MlpStack3BoundaryRegionBufferLedgerV1>,
    final_mlp: &Qwen35MetalW8MlpBlockBufferLedger,
    line: LedgerLine,
) -> (r: Result<usize, Error>)
    ensures
        answers(
            r,
            boundary_overflow(
                joined_sum(*initial, boundaries@, *final_mlp, line),
                line.label(),
            ),
        ),
        r matches Ok(n) ==> n == joined_sum(*initial, boundaries@, *final_mlp, line),
{
    match checked_total(initial, boundaries, final_mlp, line) {
        Some(n) => Ok(n),
        None => Err(Error::BoundaryLedgerOverflow { label: line.label_text() }),
    }
}

/// Kernel dispatches, intermediate and final checks of the stack and the
/// boundaries.
fn boundary_counts(
    initial: &Qwen35MetalW8LinearLayerStack3BufferLedger,
    boundaries: &Vec<Qwen35MetalW8MlpStack3BoundaryRegionBufferLedgerV1>,
) -> (r: Result<(usize, usize, usize), Error>)
    ensures
        answers(r, boundary_counts_fault(*initial, boundaries@, 0)),
        r matches Ok(counts) ==> {
            &&& counts.0 == initial.value(LedgerLine::KernelDispatches) + line_sum(
                boundaries@,
                LedgerLine::KernelDispatches,
            )
            &&& counts.1 == initial.value(LedgerLine::IntermediateChecks) + line_sum(
                boundaries@,
                LedgerLine::IntermediateChecks,
            )
            &&& counts.2 == initial.value(LedgerLine::FinalChecks) + line_sum(
                boundaries@,
                LedgerLine::FinalChecks,
            )
        },
{
    let mut dispatches: usize = initial.ledger.kernel_dispatches_per_decode;
    let mut intermediate: usize = initial.ledger.intermediate_host_finite_checks_per_decode;
    let mut last: usize = initial.ledger.final_output_finite_checks_per_decode;
    let mut i: usize = 0;
    proof {
        assert(
            boundaries@.take(
                0,
            ) =~= Seq::<Qwen35MetalW8MlpStack3BoundaryRegionBufferLedgerV1>::empty()
        );
    }
    while i < boundaries.len()
        invariant
            i <= boundaries@.len(),
            boundary_counts_fault(*initial, boundaries@, 0) == boundary_counts_fault(
                *initial,
                boundaries@,
                i as nat,
            ),
            dispatches == initial.value(LedgerLine::KernelDispatches) + line_sum(
                boundaries@.take(i as int),
                LedgerLine::KernelDispatches,
            ),
            intermediate == initial.value(LedgerLine::IntermediateChecks) + line_sum(
                boundaries@.take(i as int),
                LedgerLine::IntermediateChecks,
            ),
            last == initial.value(LedgerLine::FinalChecks) + line_sum(
                boundaries@.take(i as int),
                LedgerLine::FinalChecks,
            ),
        decreases boundaries@.len() - i,
    {
        proof {
            sum_step(boundaries@, i as int, LedgerLine::KernelDispatches);
            sum_step(boundaries@, i as int, LedgerLine::IntermediateChecks);
            sum_step(boundaries@, i as int, LedgerLine::FinalChecks);
        }
        let ledger: &MlpStack3BoundaryBufferLedgerV1 = &boundaries[i].ledger;
        dispatches = match add_boundary(
            dispatches,
            ledger.kernel_dispatches_per_decode,
            "kernel dispatch count",
        ) {
            Ok(n) => n,
            Err(e) => return Err(e),
        };
        intermediate = match add_boundary(
            intermediate,
            ledger.intermediate_host_finite_checks_per_decode,
            "intermediate finite-check count",
        ) {
            Ok(n) => n,
            Err(e) => return Err(e),
        };
        last = match add_boundary(
            last,
            ledger.final_output_finite_checks_per_decode,
            "final finite-check count",
        ) {
            Ok(n) => n,
            Err(e) => return Err(e),
        };
        i = i + 1;
    }
    proof {
        assert(boundaries@.take(i as int) =~= boundaries@);
    }
    Ok((dispatches, intermediate, last))
}

impl Qwen35MetalW8MlpStack3BoundaryBodyV1AggregateLedger {
    /// The first total that does not fit. The last feed-forward block adds
    /// three kernel dispatches.
    pub open spec fn fault(
        initial_stack: Qwen35MetalW8LinearLayerStack3BufferLedger,
        boundaries: Seq<Qwen35MetalW8MlpStack3BoundaryRegionBufferLedgerV1>,
        final_mlp: Qwen35MetalW8MlpBlockBufferLedger,
    ) -> Fault {
        let overflow = |line: LedgerLine|
            boundary_overflow(joined_sum(initial_stack, boundaries, final_mlp, line), line.label());
        let dispatches = initial_stack.value(LedgerLine::KernelDispatches) + line_sum(
            boundaries,
            LedgerLine::KernelDispatches,
        ) + 3;
        boundary_counts_fault(initial_stack, boundaries, 0)
            .or_fault(boundary_overflow(dispatches, "kernel dispatch count"))
            .or_fault(overflow(LedgerLine::TotalPersistentBytes))
            .or_fault(overflow(LedgerLine::AllocatedBuffers))
            .or_fault(overflow(LedgerLine::SharedBuffers))
            .or_fault(overflow(LedgerLine::PrivateBuffers))
            .or_fault(overflow(LedgerLine::HostInputBytes))
            .or_fault(overflow(LedgerLine::HostOutputBytes))
            .or_fault(overflow(LedgerLine::StateTransferBytes))
            .or_fault(overflow(LedgerLine::CommandBuffers))
            .or_fault(overflow(LedgerLine::ComputeEncoders))
            .or_fault(overflow(LedgerLine::Commits))
            .or_fault(overflow(LedgerLine::Waits))
    }

    /// Every total is that of all parts together.
    pub open spec fn adds_up(self) -> bool {
        let initial = self.initial_stack;
        let boundaries = self.boundaries@;
        &&& self.scope@ == "resident-mtlbuffer-only"@
        &&& self.exclusions@
            == "CPU F32 weights, host allocations, Metal pipelines/libraries/queues, command objects, driver allocations, full attention/KV, output norm, and lm_head"@
        &&& !self.includes_lm_head
        &&& self.kernel_dispatches_per_decode == initial.value(LedgerLine::KernelDispatches)
            + line_sum(boundaries, LedgerLine::KernelDispatches) + 3
        &&& self.intermediate_host_finite_checks_per_decode == initial.value(
            LedgerLine::IntermediateChecks,
        ) + line_sum(boundaries, LedgerLine::IntermediateChecks)
        &&& self.final_output_finite_checks_per_decode == initial.value(LedgerLine::FinalChecks)
            + line_sum(boundaries, LedgerLine::FinalChecks)
        &&& self.total_persistent_mtlbuffer_bytes == joined_sum(
            initial,
            boundaries,
            self.final_mlp,
            LedgerLine::TotalPersistentBytes,
        )
        &&& self.allocated_buffers == joined_sum(
            initial,
            boundaries,
            self.final_mlp,
            LedgerLine::AllocatedBuffers,
        )
        &&& self.shared_buffers == joined_sum(
            initial,
            boundaries,
            self.final_mlp,
            LedgerLine::SharedBuffers,
        )
        &&& self.private_buffers == joined_sum(
            initial,
            boundaries,
            self.final_mlp,
            LedgerLine::PrivateBuffers,
        )
        &&& self.host_to_device_bytes_per_decode == joined_sum(
            initial,
            boundaries,
            self.final_mlp,
            LedgerLine::HostInputBytes,
        )
        &&& self.device_to_host_bytes_per_decode == joined_sum(
            initial,
            boundaries,
            self.final_mlp,
            LedgerLine::HostOutputBytes,
        )
        &&& self.state_host_transfer_bytes_per_decode == joined_sum(
            initial,
            boundaries,
            self.final_mlp,
            LedgerLine::StateTransferBytes,
        )
        &&& self.command_buffers_per_decode == joined_sum(
            initial,
            boundaries,
            self.final_mlp,
            LedgerLine::CommandBuffers,
        )
        &&& self.compute_encoders_per_decode == joined_sum(
            initial,
            boundaries,
            self.final_mlp,
            LedgerLine::ComputeEncoders,
        )
        &&& self.commits_per_decode == joined_sum(
            initial,
            boundaries,
            self.final_mlp,
            LedgerLine::Commits,
        )
        &&& self.waits_per_decode == joined_sum(
            initial,
            boundaries,
            self.final_mlp,
            LedgerLine::Waits,
        )
    }

    /// Adds up the ledgers of the body.
    pub fn new(
        initial_stack: Qwen35MetalW8LinearLayerStack3BufferLedger,
        boundaries: Vec<Qwen35MetalW8MlpStack3BoundaryRegionBufferLedgerV1>,
        final_mlp: Qwen35MetalW8MlpBlockBufferLedger,
    ) -> (r: Result<Qwen35MetalW8MlpStack3BoundaryBodyV1AggregateLedger, Error>)
        ensures
            answers(
                r,
                Qwen35MetalW8MlpStack3BoundaryBodyV1AggregateLedger::fault(
                    initial_stack,
                    boundaries@,
                    final_mlp,
                ),
            ),
            r matches Ok(ledger) ==> {
                &&& ledger.initial_stack == initial_stack
                &&& ledger.boundaries == boundaries
                &&& ledger.final_mlp == final_mlp
                &&& ledger.adds_up()
            },
    {
        let (
            dispatches,
            intermediate_host_finite_checks_per_decode,
            final_output_finite_checks_per_decode,
        ): (usize, usize, usize) = match boundary_counts(&initial_stack, &boundaries) {
            Ok(counts) => counts,
            Err(e) => return Err(e),
        };
        let kernel_dispatches_per_decode: usize = match add_boundary(
            dispatches,
            3,
            "kernel dispatch count",
        ) {
            Ok(n) => n,
            Err(e) => return Err(e),
        };
        let total_persistent_mtlbuffer_bytes: usize = match add_body(
            &initial_stack,
            &boundaries,
            &final_mlp,
            LedgerLine::TotalPersistentBytes,
        ) {
            Ok(n) => n,
            Err(e) => return Err(e),
        };
        let allocated_buffers: usize = match add_body(
            &initial_stack,
            &boundaries,
            &final_mlp,
            LedgerLine::AllocatedBuffers,
        ) {
            Ok(n) => n,
            Err(e) => return Err(e),
        };
        let shared_buffers: usize = match add_body(
            &initial_stack,
            &boundaries,
            &final_mlp,
            LedgerLine::SharedBuffers,
        ) {
            Ok(n) => n,
            Err(e) => return Err(e),
        };
        let private_buffers: usize = match add_body(
            &initial_stack,
            &boundaries,
            &final_mlp,
            LedgerLine::PrivateBuffers,
        ) {
            Ok(n) => n,
            Err(e) => return Err(e),
        };
        let host_to_device_bytes_per_decode: usize = match add_body(
            &initial_stack,
            &boundaries,
            &final_mlp,
            LedgerLine::HostInputBytes,
        ) {
            Ok(n) => n,
            Err(e) => return Err(e),
        };
        let device_to_host_bytes_per_decode: usize = match add_body(
            &initial_stack,
            &boundaries,
            &final_mlp,
            LedgerLine::HostOutputBytes,
        ) {
            Ok(n) => n,
            Err(e) => return Err(e),
        };
        let state_host_transfer_bytes_per_decode: usize = match add_body(
            &initial_stack,
            &boundaries,
            &final_mlp,
            LedgerLine::StateTransferBytes,
        ) {
            Ok(n) => n,
            Err(e) => return Err(e),
        };
        let command_buffers_per_decode: usize = match add_body(
            &initial_stack,
            &boundaries,
            &final_mlp,
            LedgerLine::CommandBuffers,
        ) {
            Ok(n) => n,
            Err(e) => return Err(e),
        };
        let compute_encoders_per_decode: usize = match add_body(
            &initial_stack,
            &boundaries,
            &final_mlp,
            LedgerLine::ComputeEncoders,
        ) {
            Ok(n) => n,
            Err(e) => return Err(e),
        };
        let commits_per_decode: usize = match add_body(
            &initial_stack,
            &boundaries,
            &final_mlp,
            LedgerLine::Commits,
        ) {
            Ok(n) => n,
            Err(e) => return Err(e),
        };
        let waits_per_decode: usize = match add_body(
            &initial_stack,
            &boundaries,
            &final_mlp,
            LedgerLine::Waits,
        ) {
            Ok(n) => n,
            Err(e) => return Err(e),
        };
        Ok(
            Qwen35MetalW8MlpStack3BoundaryBodyV1AggregateLedger {
                scope: "resident-mtlbuffer-only",
                exclusions:
                    "CPU F32 weights, host allocations, Metal pipelines/libraries/queues, command objects, driver allocations, full attention/KV, output norm, and lm_head",
                includes_lm_head: false,
                initial_stack,
                boundaries,
                final_mlp,
                total_persistent_mtlbuffer_bytes,
                allocated_buffers,
                shared_buffers,
                private_buffers,
                host_to_device_bytes_per_decode,
                device_to_host_bytes_per_decode,
                state_host_transfer_bytes_per_decode,
                command_buffers_per_decode,
                compute_encoders_per_decode,
                commits_per_decode,
                waits_per_decode,
                kernel_dispatches_per_decode,
                intermediate_host_finite_checks_per_decode,
                final_output_finite_checks_per_decode,
            },
        )
    }
}

} // verus!
