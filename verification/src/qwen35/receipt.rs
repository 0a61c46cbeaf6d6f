//! What a model tells about the path that its tokens took.

use vstd::prelude::*;

use crate::qwen35::boundary_lane::{
    Qwen35MetalW8MlpStack3BoundaryBodyV1Stats, Qwen35MetalW8MlpStack3BoundaryRegionV1Stats,
};
use crate::qwen35::ledger::{
    Qwen35MetalW8MlpStack3BoundaryBodyV1AggregateLedger,
    Qwen35MetalW8MlpStack3BoundaryTailHeadV1AggregateLedger,
};
use crate::qwen35::linear_lane::{
    Qwen35MetalW8AllLinearLayersPrecisionV2Stats, Qwen35MetalW8LinearLayerPrecisionV2Stats,
};
use crate::qwen35::metal::{GdnCoreProductionReceiptV1, LinearLayerQuantizationLedger};
use crate::qwen35::mlp_lane::Qwen35MetalW8MlpBlockStats;
use crate::qwen35::model::{GeneralQwen35, Qwen35MetalW8LmHeadStats};
use crate::qwen35::profile::{profile_label, qwen35_gdn_core_profile_v1_label};
use crate::qwen35::stack_lane::Qwen35MetalW8LinearLayerStack3V1Stats;
use crate::qwen35::stacks_lane::Qwen35MetalW8LinearLayerStacksV1Stats;
use crate::qwen35::tail_lane::Qwen35MetalW8MlpStack3BoundaryTailHeadV1Stats;

verus! {

/// A value of a receipt.
#[derive(Debug)]
pub enum PathValue {
    Null,
    Flag(bool),
    Number(u128),
    Text(&'static str),
    List(Vec<PathValue>),
    Record(Record),
}

/// A record of a receipt: values under names.
#[derive(Debug)]
pub struct Record {
    pub fields: Vec<(&'static str, PathValue)>,
}

/// What a value of a receipt says.
pub enum PathView {
    Null,
    Flag(bool),
    Number(nat),
    Text(&'static str),
    List(Seq<PathView>),
    Record(Seq<(&'static str, PathView)>),
}

impl PathValue {
    /// What the value says.
    pub open spec fn view(self) -> PathView
        decreases self,
    {
        match self {
            PathValue::Null => PathView::Null,
            PathValue::Flag(flag) => PathView::Flag(flag),
            PathValue::Number(number) => PathView::Number(number as nat),
            PathValue::Text(text) => PathView::Text(text),
            PathValue::List(items) => PathView::List(
                Seq::new(
                    items@.len(),
                    |i: int|
                        if 0 <= i < items@.len() {
                            items@[i].view()
                        } else {
                            PathView::Null
                        },
                ),
            ),
            PathValue::Record(record) => PathView::Record(record.view()),
        }
    }
}

impl Record {
    /// The names and what stands under them, in their order.
    pub open spec fn view(self) -> Seq<(&'static str, PathView)>
        decreases self,
    {
        Seq::new(
            self.fields@.len(),
            |i: int|
                if 0 <= i < self.fields@.len() {
                    (self.fields@[i].0, self.fields@[i].1.view())
                } else {
                    ("", PathView::Null)
                },
        )
    }

    /// No field yet.
    pub fn new() -> (record: Record)
        ensures
            record@ == Seq::<(&'static str, PathView)>::empty(),
    {
        let record = Record { fields: Vec::new() };
        proof {
            assert(record@ =~= Seq::<(&'static str, PathView)>::empty());
        }
        record
    }

    /// Adds a field.
    pub fn value(&mut self, key: &'static str, value: PathValue)
        ensures
            final(self)@ == old(self)@.push((key, value@)),
    {
        let ghost before = self@;
        self.fields.push((key, value));
        proof {
            assert(self@ =~= before.push((key, value@)));
        }
    }

    /// Adds a number.
    pub fn number(&mut self, key: &'static str, number: u128)
        ensures
            final(self)@ == old(self)@.push((key, PathView::Number(number as nat))),
    {
        self.value(key, PathValue::Number(number));
    }

    /// Adds a flag.
    pub fn flag(&mut self, key: &'static str, flag: bool)
        ensures
            final(self)@ == old(self)@.push((key, PathView::Flag(flag))),
    {
        self.value(key, PathValue::Flag(flag));
    }

    /// Adds a text.
    pub fn text(&mut self, key: &'static str, text: &'static str)
        ensures
            final(self)@ == old(self)@.push((key, PathView::Text(text))),
    {
        self.value(key, PathValue::Text(text));
    }

    /// Adds a record.
    pub fn record(&mut self, key: &'static str, record: Record)
        ensures
            final(self)@ == old(self)@.push((key, PathView::Record(record@))),
    {
        self.value(key, PathValue::Record(record));
    }

    /// Adds a list.
    pub fn list(&mut self, key: &'static str, items: Vec<PathValue>)
        ensures
            final(self)@ == old(self)@.push((key, PathView::List(views(items@)))),
    {
        let value = PathValue::List(items);
        proof {
            assert(value@ is List);
            assert(value@->List_0 =~= views(items@));
        }
        self.value(key, value);
    }
}

/// What the values of a list say.
pub open spec fn views(items: Seq<PathValue>) -> Seq<PathView> {
    items.map_values(|item: PathValue| item.view())
}

/// Three numbers.
pub open spec fn triple_of(numbers: [usize; 3]) -> PathView {
    PathView::List(
        seq![
            PathView::Number(numbers@[0] as nat),
            PathView::Number(numbers@[1] as nat),
            PathView::Number(numbers@[2] as nat),
        ],
    )
}

/// Three numbers.
fn triple(numbers: [usize; 3]) -> (value: PathValue)
    ensures
        value@ == triple_of(numbers),
{
    let items = vec![
        PathValue::Number(numbers[0] as u128),
        PathValue::Number(numbers[1] as u128),
        PathValue::Number(numbers[2] as u128),
    ];
    proof {
        assert(items@[0]@ == PathView::Number(numbers@[0] as nat));
        assert(items@[1]@ == PathView::Number(numbers@[1] as nat));
        assert(items@[2]@ == PathView::Number(numbers@[2] as nat));
    }
    let value = PathValue::List(items);
    proof {
        assert(value@->List_0 =~= triple_of(numbers)->List_0);
    }
    value
}

/// The group sizes of the three output projections.
pub open spec fn group_sizes_of(ledgers: [LinearLayerQuantizationLedger; 3]) -> PathView {
    PathView::List(
        seq![
            PathView::Number(ledgers@[0].gdn_output_group_size.count() as nat),
            PathView::Number(ledgers@[1].gdn_output_group_size.count() as nat),
            PathView::Number(ledgers@[2].gdn_output_group_size.count() as nat),
        ],
    )
}

/// The group sizes of the three output projections.
fn group_sizes(ledgers: [LinearLayerQuantizationLedger; 3]) -> (value: PathValue)
    ensures
        value@ == group_sizes_of(ledgers),
{
    let items = vec![
        PathValue::Number(ledgers[0].gdn_output_group_size.columns() as u128),
        PathValue::Number(ledgers[1].gdn_output_group_size.columns() as u128),
        PathValue::Number(ledgers[2].gdn_output_group_size.columns() as u128),
    ];
    proof {
        assert(items@[0]@ == PathView::Number(ledgers@[0].gdn_output_group_size.count() as nat));
        assert(items@[1]@ == PathView::Number(ledgers@[1].gdn_output_group_size.count() as nat));
        assert(items@[2]@ == PathView::Number(ledgers@[2].gdn_output_group_size.count() as nat));
    }
    let value = PathValue::List(items);
    proof {
        assert(value@->List_0 =~= group_sizes_of(ledgers)->List_0);
    }
    value
}

/// What the last recurrent core told about its production run.
pub open spec fn core_record_of(
    stats: GdnCoreProductionReceiptV1,
) -> Seq<(&'static str, PathView)> {
    seq![
        ("profile", PathView::Text(profile_label(stats.profile))),
        ("function_chain", PathView::Text(stats.function_chain)),
        ("gdn_core_seams", PathView::Number(stats.gdn_core_seams as nat)),
        ("kernel_dispatches", PathView::Number(stats.kernel_dispatches as nat)),
        ("explicit_buffer_barriers", PathView::Number(stats.explicit_buffer_barriers as nat)),
        (
            "recurrent_or_fused_threads_per_threadgroup",
            PathView::Number(stats.recurrent_or_fused_threads_per_threadgroup as nat),
        ),
        ("threadgroups", PathView::Number(stats.threadgroups as nat)),
        ("launched_threads", PathView::Number(stats.launched_threads as nat)),
        (
            "pipeline_thread_execution_width",
            PathView::Number(stats.pipeline_thread_execution_width as nat),
        ),
        (
            "source_declared_threadgroup_memory_bytes",
            PathView::Number(stats.source_declared_threadgroup_memory_bytes as nat),
        ),
        (
            "pipeline_static_threadgroup_memory_bytes",
            PathView::Number(stats.pipeline_static_threadgroup_memory_bytes as nat),
        ),
        (
            "internal_threadgroup_barrier_sites_per_threadgroup",
            PathView::Number(stats.internal_threadgroup_barrier_sites_per_threadgroup as nat),
        ),
        ("fixed_shape_validated", PathView::Flag(stats.fixed_shape_validated)),
        ("rms_norm_eps_bits", PathView::Number(stats.rms_norm_eps_bits as nat)),
        (
            "persistent_output_groups_per_row",
            PathView::Number(stats.persistent_output_groups_per_row as nat),
        ),
        (
            "core_kernel_output_groups_per_row",
            PathView::Number(stats.core_kernel_output_groups_per_row as nat),
        ),
    ]
}

/// What the last recurrent core told about its production run.
fn core_record(stats: GdnCoreProductionReceiptV1) -> (record: Record)
    ensures
        record@ == core_record_of(stats),
{
    let mut record = Record::new();
    record.text("profile", qwen35_gdn_core_profile_v1_label(stats.profile));
    record.text("function_chain", stats.function_chain);
    record.number("gdn_core_seams", stats.gdn_core_seams as u128);
    record.number("kernel_dispatches", stats.kernel_dispatches as u128);
    record.number("explicit_buffer_barriers", stats.explicit_buffer_barriers as u128);
    record.number(
        "recurrent_or_fused_threads_per_threadgroup",
        stats.recurrent_or_fused_threads_per_threadgroup as u128,
    );
    record.number("threadgroups", stats.threadgroups as u128);
    record.number("launched_threads", stats.launched_threads as u128);
    record.number("pipeline_thread_execution_width", stats.pipeline_thread_execution_width as u128);
    record.number(
        "source_declared_threadgroup_memory_bytes",
        stats.source_declared_threadgroup_memory_bytes as u128,
    );
    record.number(
        "pipeline_static_threadgroup_memory_bytes",
        stats.pipeline_static_threadgroup_memory_bytes as u128,
    );
    record.number(
        "internal_threadgroup_barrier_sites_per_threadgroup",
        stats.internal_threadgroup_barrier_sites_per_threadgroup as u128,
    );
    record.flag("fixed_shape_validated", stats.fixed_shape_validated);
    record.number("rms_norm_eps_bits", stats.rms_norm_eps_bits as u128);
    record.number(
        "persistent_output_groups_per_row",
        stats.persistent_output_groups_per_row as u128,
    );
    record.number(
        "core_kernel_output_groups_per_row",
        stats.core_kernel_output_groups_per_row as u128,
    );
    record
}

/// What the last recurrent core told; null before the first decode.
pub open spec fn core_of(receipt: Option<GdnCoreProductionReceiptV1>) -> PathView {
    match receipt {
        Some(receipt) => PathView::Record(core_record_of(receipt)),
        None => PathView::Null,
    }
}

/// What the last recurrent core told; null before the first decode.
pub fn qwen35_gdn_core_production_receipt_v1_json(
    receipt: Option<GdnCoreProductionReceiptV1>,
) -> (value:
    PathValue)
    ensures
        value@ == core_of(receipt),
{
    match receipt {
        Some(receipt) => PathValue::Record(core_record(receipt)),
        None => PathValue::Null,
    }
}

/// The first stack, in front of a tail.
pub open spec fn tail_stack_record_of(
    stats: Qwen35MetalW8LinearLayerStack3V1Stats,
) -> Seq<(&'static str, PathView)> {
    seq![
        ("layer_indices", triple_of(stats.layer_indices)),
        ("mechanism", PathView::Text(stats.mechanism)),
        ("gdn_core_profile", PathView::Text(profile_label(stats.gdn_core_profile))),
        ("gdn_function_chain", PathView::Text(stats.gdn_function_chain)),
        ("last_gdn_core_receipt", core_of(stats.last_gdn_core_receipt)),
        (
            "kernel_dispatches_per_decode",
            PathView::Number(stats.kernel_dispatches_per_decode as nat),
        ),
        (
            "explicit_buffer_barriers_per_decode",
            PathView::Number(stats.explicit_buffer_barriers_per_decode as nat),
        ),
        ("prefill_seed_calls", triple_of(stats.prefill_seed_calls)),
        ("decode_calls", PathView::Number(stats.execution.decode_calls as nat)),
        ("successful_decodes", PathView::Number(stats.execution.successful_decodes as nat)),
        ("failed_decodes", PathView::Number(stats.execution.failed_decodes as nat)),
        ("command_buffers", PathView::Number(stats.execution.command_buffers as nat)),
        ("compute_encoders", PathView::Number(stats.execution.compute_encoders as nat)),
        ("commits", PathView::Number(stats.execution.commits as nat)),
        ("waits", PathView::Number(stats.execution.waits as nat)),
        ("host_to_device_bytes", PathView::Number(stats.execution.host_to_device_bytes as nat)),
        ("device_to_host_bytes", PathView::Number(stats.execution.device_to_host_bytes as nat)),
        ("state_commits", PathView::Number(stats.execution.state_commits as nat)),
        ("last_state_commit_mask", PathView::Number(stats.execution.last_state_commit_mask as nat)),
        (
            "committed_stack_version",
            PathView::Number(stats.execution.committed_stack_version as nat),
        ),
        ("terminal_error", PathView::Flag(stats.terminal_error)),
        ("block_elapsed_ns", PathView::Number(stats.block_elapsed_ns as nat)),
    ]
}

/// The first stack, in front of a tail.
fn tail_stack_record(stats: Qwen35MetalW8LinearLayerStack3V1Stats) -> (record: Record)
    ensures
        record@ == tail_stack_record_of(stats),
{
    let mut record = Record::new();
    record.value("layer_indices", triple(stats.layer_indices));
    record.text("mechanism", stats.mechanism);
    record.text("gdn_core_profile", qwen35_gdn_core_profile_v1_label(stats.gdn_core_profile));
    record.text("gdn_function_chain", stats.gdn_function_chain);
    record.value(
        "last_gdn_core_receipt",
        qwen35_gdn_core_production_receipt_v1_json(stats.last_gdn_core_receipt),
    );
    record.number("kernel_dispatches_per_decode", stats.kernel_dispatches_per_decode as u128);
    record.number(
        "explicit_buffer_barriers_per_decode",
        stats.explicit_buffer_barriers_per_decode as u128,
    );
    record.value("prefill_seed_calls", triple(stats.prefill_seed_calls));
    record.number("decode_calls", stats.execution.decode_calls as u128);
    record.number("successful_decodes", stats.execution.successful_decodes as u128);
    record.number("failed_decodes", stats.execution.failed_decodes as u128);
    record.number("command_buffers", stats.execution.command_buffers as u128);
    record.number("compute_encoders", stats.execution.compute_encoders as u128);
    record.number("commits", stats.execution.commits as u128);
    record.number("waits", stats.execution.waits as u128);
    record.number("host_to_device_bytes", stats.execution.host_to_device_bytes as u128);
    record.number("device_to_host_bytes", stats.execution.device_to_host_bytes as u128);
    record.number("state_commits", stats.execution.state_commits as u128);
    record.number("last_state_commit_mask", stats.execution.last_state_commit_mask as u128);
    record.number("committed_stack_version", stats.execution.committed_stack_version as u128);
    record.flag("terminal_error", stats.terminal_error);
    record.number("block_elapsed_ns", stats.block_elapsed_ns as u128);
    record
}

/// A boundary region, in front of a tail.
pub open spec fn tail_region_record_of(
    stats: Qwen35MetalW8MlpStack3BoundaryRegionV1Stats,
) -> Seq<(&'static str, PathView)> {
    seq![
        ("boundary_mlp_layer_index", PathView::Number(stats.boundary_mlp_layer_index as nat)),
        ("stack_layer_indices", triple_of(stats.stack_layer_indices)),
        ("mechanism", PathView::Text(stats.mechanism)),
        ("gdn_core_profile", PathView::Text(profile_label(stats.gdn_core_profile))),
        ("gdn_function_chain", PathView::Text(stats.gdn_function_chain)),
        ("last_gdn_core_receipt", core_of(stats.last_gdn_core_receipt)),
        (
            "kernel_dispatches_per_decode",
            PathView::Number(stats.kernel_dispatches_per_decode as nat),
        ),
        (
            "explicit_buffer_barriers_per_decode",
            PathView::Number(stats.explicit_buffer_barriers_per_decode as nat),
        ),
        ("prefill_seed_calls", triple_of(stats.prefill_seed_calls)),
        ("decode_calls", PathView::Number(stats.execution.decode_calls as nat)),
        ("successful_decodes", PathView::Number(stats.execution.successful_decodes as nat)),
        ("failed_decodes", PathView::Number(stats.execution.failed_decodes as nat)),
        ("command_buffers", PathView::Number(stats.execution.command_buffers as nat)),
        ("compute_encoders", PathView::Number(stats.execution.compute_encoders as nat)),
        ("commits", PathView::Number(stats.execution.commits as nat)),
        ("waits", PathView::Number(stats.execution.waits as nat)),
        ("host_to_device_bytes", PathView::Number(stats.execution.host_to_device_bytes as nat)),
        ("device_to_host_bytes", PathView::Number(stats.execution.device_to_host_bytes as nat)),
        ("state_commits", PathView::Number(stats.execution.state_commits as nat)),
        ("last_state_commit_mask", PathView::Number(stats.execution.last_state_commit_mask as nat)),
        (
            "committed_stack_version",
            PathView::Number(stats.execution.committed_stack_version as nat),
        ),
        ("terminal_error", PathView::Flag(stats.terminal_error)),
        ("block_elapsed_ns", PathView::Number(stats.block_elapsed_ns as nat)),
    ]
}

/// A boundary region, in front of a tail.
fn tail_region_record(stats: Qwen35MetalW8MlpStack3BoundaryRegionV1Stats) -> (record: Record)
    ensures
        record@ == tail_region_record_of(stats),
{
    let mut record = Record::new();
    record.number("boundary_mlp_layer_index", stats.boundary_mlp_layer_index as u128);
    record.value("stack_layer_indices", triple(stats.stack_layer_indices));
    record.text("mechanism", stats.mechanism);
    record.text("gdn_core_profile", qwen35_gdn_core_profile_v1_label(stats.gdn_core_profile));
    record.text("gdn_function_chain", stats.gdn_function_chain);
    record.value(
        "last_gdn_core_receipt",
        qwen35_gdn_core_production_receipt_v1_json(stats.last_gdn_core_receipt),
    );
    record.number("kernel_dispatches_per_decode", stats.kernel_dispatches_per_decode as u128);
    record.number(
        "explicit_buffer_barriers_per_decode",
        stats.explicit_buffer_barriers_per_decode as u128,
    );
    record.value("prefill_seed_calls", triple(stats.prefill_seed_calls));
    record.number("decode_calls", stats.execution.decode_calls as u128);
    record.number("successful_decodes", stats.execution.successful_decodes as u128);
    record.number("failed_decodes", stats.execution.failed_decodes as u128);
    record.number("command_buffers", stats.execution.command_buffers as u128);
    record.number("compute_encoders", stats.execution.compute_encoders as u128);
    record.number("commits", stats.execution.commits as u128);
    record.number("waits", stats.execution.waits as u128);
    record.number("host_to_device_bytes", stats.execution.host_to_device_bytes as u128);
    record.number("device_to_host_bytes", stats.execution.device_to_host_bytes as u128);
    record.number("state_commits", stats.execution.state_commits as u128);
    record.number("last_state_commit_mask", stats.execution.last_state_commit_mask as u128);
    record.number("committed_stack_version", stats.execution.committed_stack_version as u128);
    record.flag("terminal_error", stats.terminal_error);
    record.number("block_elapsed_ns", stats.block_elapsed_ns as u128);
    record
}

/// The first stack of a boundary body.
pub open spec fn body_stack_record_of(
    stats: Qwen35MetalW8LinearLayerStack3V1Stats,
) -> Seq<(&'static str, PathView)> {
    seq![
        ("layer_indices", triple_of(stats.layer_indices)),
        ("mechanism", PathView::Text(stats.mechanism)),
        ("gdn_output_group_sizes", group_sizes_of(stats.quantization)),
        ("prefill_seed_calls", triple_of(stats.prefill_seed_calls)),
        ("decode_calls", PathView::Number(stats.execution.decode_calls as nat)),
        ("successful_decodes", PathView::Number(stats.execution.successful_decodes as nat)),
        ("failed_decodes", PathView::Number(stats.execution.failed_decodes as nat)),
        ("command_buffers", PathView::Number(stats.execution.command_buffers as nat)),
        ("compute_encoders", PathView::Number(stats.execution.compute_encoders as nat)),
        ("commits", PathView::Number(stats.execution.commits as nat)),
        ("waits", PathView::Number(stats.execution.waits as nat)),
        ("host_to_device_bytes", PathView::Number(stats.execution.host_to_device_bytes as nat)),
        ("device_to_host_bytes", PathView::Number(stats.execution.device_to_host_bytes as nat)),
        ("state_commits", PathView::Number(stats.execution.state_commits as nat)),
        ("last_state_commit_mask", PathView::Number(stats.execution.last_state_commit_mask as nat)),
        (
            "committed_stack_version",
            PathView::Number(stats.execution.committed_stack_version as nat),
        ),
        ("terminal_error", PathView::Flag(stats.terminal_error)),
        ("block_elapsed_ns", PathView::Number(stats.block_elapsed_ns as nat)),
    ]
}

/// The first stack of a boundary body.
fn body_stack_record(stats: Qwen35MetalW8LinearLayerStack3V1Stats) -> (record: Record)
    ensures
        record@ == body_stack_record_of(stats),
{
    let mut record = Record::new();
    record.value("layer_indices", triple(stats.layer_indices));
    record.text("mechanism", stats.mechanism);
    record.value("gdn_output_group_sizes", group_sizes(stats.quantization));
    record.value("prefill_seed_calls", triple(stats.prefill_seed_calls));
    record.number("decode_calls", stats.execution.decode_calls as u128);
    record.number("successful_decodes", stats.execution.successful_decodes as u128);
    record.number("failed_decodes", stats.execution.failed_decodes as u128);
    record.number("command_buffers", stats.execution.command_buffers as u128);
    record.number("compute_encoders", stats.execution.compute_encoders as u128);
    record.number("commits", stats.execution.commits as u128);
    record.number("waits", stats.execution.waits as u128);
    record.number("host_to_device_bytes", stats.execution.host_to_device_bytes as u128);
    record.number("device_to_host_bytes", stats.execution.device_to_host_bytes as u128);
    record.number("state_commits", stats.execution.state_commits as u128);
    record.number("last_state_commit_mask", stats.execution.last_state_commit_mask as u128);
    record.number("committed_stack_version", stats.execution.committed_stack_version as u128);
    record.flag("terminal_error", stats.terminal_error);
    record.number("block_elapsed_ns", stats.block_elapsed_ns as u128);
    record
}

/// A region of a boundary body.
pub open spec fn body_region_record_of(
    stats: Qwen35MetalW8MlpStack3BoundaryRegionV1Stats,
) -> Seq<(&'static str, PathView)> {
    seq![
        ("boundary_mlp_layer_index", PathView::Number(stats.boundary_mlp_layer_index as nat)),
        ("stack_layer_indices", triple_of(stats.stack_layer_indices)),
        ("mechanism", PathView::Text(stats.mechanism)),
        ("gdn_output_group_sizes", group_sizes_of(stats.quantization)),
        ("prefill_seed_calls", triple_of(stats.prefill_seed_calls)),
        ("decode_calls", PathView::Number(stats.execution.decode_calls as nat)),
        ("successful_decodes", PathView::Number(stats.execution.successful_decodes as nat)),
        ("failed_decodes", PathView::Number(stats.execution.failed_decodes as nat)),
        ("command_buffers", PathView::Number(stats.execution.command_buffers as nat)),
        ("compute_encoders", PathView::Number(stats.execution.compute_encoders as nat)),
        ("commits", PathView::Number(stats.execution.commits as nat)),
        ("waits", PathView::Number(stats.execution.waits as nat)),
        ("host_to_device_bytes", PathView::Number(stats.execution.host_to_device_bytes as nat)),
        ("device_to_host_bytes", PathView::Number(stats.execution.device_to_host_bytes as nat)),
        ("state_commits", PathView::Number(stats.execution.state_commits as nat)),
        ("last_state_commit_mask", PathView::Number(stats.execution.last_state_commit_mask as nat)),
        (
            "committed_stack_version",
            PathView::Number(stats.execution.committed_stack_version as nat),
        ),
        ("terminal_error", PathView::Flag(stats.terminal_error)),
        ("block_elapsed_ns", PathView::Number(stats.block_elapsed_ns as nat)),
    ]
}

/// A region of a boundary body.
fn body_region_record(stats: Qwen35MetalW8MlpStack3BoundaryRegionV1Stats) -> (record: Record)
    ensures
        record@ == body_region_record_of(stats),
{
    let mut record = Record::new();
    record.number("boundary_mlp_layer_index", stats.boundary_mlp_layer_index as u128);
    record.value("stack_layer_indices", triple(stats.stack_layer_indices));
    record.text("mechanism", stats.mechanism);
    record.value("gdn_output_group_sizes", group_sizes(stats.quantization));
    record.value("prefill_seed_calls", triple(stats.prefill_seed_calls));
    record.number("decode_calls", stats.execution.decode_calls as u128);
    record.number("successful_decodes", stats.execution.successful_decodes as u128);
    record.number("failed_decodes", stats.execution.failed_decodes as u128);
    record.number("command_buffers", stats.execution.command_buffers as u128);
    record.number("compute_encoders", stats.execution.compute_encoders as u128);
    record.number("commits", stats.execution.commits as u128);
    record.number("waits", stats.execution.waits as u128);
    record.number("host_to_device_bytes", stats.execution.host_to_device_bytes as u128);
    record.number("device_to_host_bytes", stats.execution.device_to_host_bytes as u128);
    record.number("state_commits", stats.execution.state_commits as u128);
    record.number("last_state_commit_mask", stats.execution.last_state_commit_mask as u128);
    record.number("committed_stack_version", stats.execution.committed_stack_version as u128);
    record.flag("terminal_error", stats.terminal_error);
    record.number("block_elapsed_ns", stats.block_elapsed_ns as u128);
    record
}

/// A stack of the lane of stacks.
pub open spec fn stack_record_of(
    stats: Qwen35MetalW8LinearLayerStack3V1Stats,
) -> Seq<(&'static str, PathView)> {
    seq![
        ("layer_indices", triple_of(stats.layer_indices)),
        ("mechanism", PathView::Text(stats.mechanism)),
        ("gdn_output_group_sizes", group_sizes_of(stats.quantization)),
        ("prefill_seed_calls", triple_of(stats.prefill_seed_calls)),
        ("decode_calls", PathView::Number(stats.execution.decode_calls as nat)),
        ("successful_decodes", PathView::Number(stats.execution.successful_decodes as nat)),
        ("failed_decodes", PathView::Number(stats.execution.failed_decodes as nat)),
        ("command_buffers", PathView::Number(stats.execution.command_buffers as nat)),
        ("compute_encoders", PathView::Number(stats.execution.compute_encoders as nat)),
        ("commits", PathView::Number(stats.execution.commits as nat)),
        ("waits", PathView::Number(stats.execution.waits as nat)),
        ("host_to_device_bytes", PathView::Number(stats.execution.host_to_device_bytes as nat)),
        ("device_to_host_bytes", PathView::Number(stats.execution.device_to_host_bytes as nat)),
        ("state_commits", PathView::Number(stats.execution.state_commits as nat)),
        ("last_state_commit_mask", PathView::Number(stats.execution.last_state_commit_mask as nat)),
        (
            "committed_stack_version",
            PathView::Number(stats.execution.committed_stack_version as nat),
        ),
        (
            "intermediate_host_finite_checks_per_decode",
            PathView::Number(stats.intermediate_host_finite_checks_per_decode as nat),
        ),
        (
            "final_output_finite_checks_per_decode",
            PathView::Number(stats.final_output_finite_checks_per_decode as nat),
        ),
        ("terminal_error", PathView::Flag(stats.terminal_error)),
        ("block_elapsed_ns", PathView::Number(stats.block_elapsed_ns as nat)),
    ]
}

/// A stack of the lane of stacks.
fn stack_record(stats: Qwen35MetalW8LinearLayerStack3V1Stats) -> (record: Record)
    ensures
        record@ == stack_record_of(stats),
{
    let mut record = Record::new();
    record.value("layer_indices", triple(stats.layer_indices));
    record.text("mechanism", stats.mechanism);
    record.value("gdn_output_group_sizes", group_sizes(stats.quantization));
    record.value("prefill_seed_calls", triple(stats.prefill_seed_calls));
    record.number("decode_calls", stats.execution.decode_calls as u128);
    record.number("successful_decodes", stats.execution.successful_decodes as u128);
    record.number("failed_decodes", stats.execution.failed_decodes as u128);
    record.number("command_buffers", stats.execution.command_buffers as u128);
    record.number("compute_encoders", stats.execution.compute_encoders as u128);
    record.number("commits", stats.execution.commits as u128);
    record.number("waits", stats.execution.waits as u128);
    record.number("host_to_device_bytes", stats.execution.host_to_device_bytes as u128);
    record.number("device_to_host_bytes", stats.execution.device_to_host_bytes as u128);
    record.number("state_commits", stats.execution.state_commits as u128);
    record.number("last_state_commit_mask", stats.execution.last_state_commit_mask as u128);
    record.number("committed_stack_version", stats.execution.committed_stack_version as u128);
    record.number(
        "intermediate_host_finite_checks_per_decode",
        stats.intermediate_host_finite_checks_per_decode as u128,
    );
    record.number(
        "final_output_finite_checks_per_decode",
        stats.final_output_finite_checks_per_decode as u128,
    );
    record.flag("terminal_error", stats.terminal_error);
    record.number("block_elapsed_ns", stats.block_elapsed_ns as u128);
    record
}

/// A feed-forward block.
pub open spec fn block_record_of(
    stats: Qwen35MetalW8MlpBlockStats,
) -> Seq<(&'static str, PathView)> {
    seq![
        ("layer_index", PathView::Number(stats.layer_index as nat)),
        ("decode_calls", PathView::Number(stats.decode_calls as nat)),
        ("block_elapsed_ns", PathView::Number(stats.block_elapsed_ns as nat)),
    ]
}

/// A feed-forward block.
fn block_record(stats: Qwen35MetalW8MlpBlockStats) -> (record: Record)
    ensures
        record@ == block_record_of(stats),
{
    let mut record = Record::new();
    record.number("layer_index", stats.layer_index as u128);
    record.number("decode_calls", stats.decode_calls as u128);
    record.number("block_elapsed_ns", stats.block_elapsed_ns as u128);
    record
}

/// A layer of the lane of all linear layers.
pub open spec fn layer_record_of(
    stats: Qwen35MetalW8LinearLayerPrecisionV2Stats,
) -> Seq<(&'static str, PathView)> {
    seq![
        ("layer_index", PathView::Number(stats.execution.layer_index as nat)),
        ("profile", PathView::Text("gdn-out-g32-v2")),
        ("mechanism", PathView::Text(stats.mechanism)),
        (
            "gdn_output_group_size",
            PathView::Number(stats.quantization.gdn_output_group_size.count() as nat),
        ),
        ("prefill_seed_calls", PathView::Number(stats.execution.prefill_seed_calls as nat)),
        ("decode_calls", PathView::Number(stats.execution.decode_calls as nat)),
        ("successful_decodes", PathView::Number(stats.execution.successful_decodes as nat)),
        ("failed_decodes", PathView::Number(stats.execution.failed_decodes as nat)),
        ("command_buffers", PathView::Number(stats.execution.command_buffers as nat)),
        ("compute_encoders", PathView::Number(stats.execution.compute_encoders as nat)),
        ("commits", PathView::Number(stats.execution.commits as nat)),
        ("waits", PathView::Number(stats.execution.waits as nat)),
        ("host_to_device_bytes", PathView::Number(stats.execution.host_to_device_bytes as nat)),
        ("device_to_host_bytes", PathView::Number(stats.execution.device_to_host_bytes as nat)),
        (
            "committed_state_version",
            PathView::Number(stats.execution.committed_state_version as nat),
        ),
        ("terminal_error", PathView::Flag(stats.execution.terminal_error)),
        ("block_elapsed_ns", PathView::Number(stats.execution.block_elapsed_ns as nat)),
    ]
}

/// A layer of the lane of all linear layers.
fn layer_record(stats: Qwen35MetalW8LinearLayerPrecisionV2Stats) -> (record: Record)
    ensures
        record@ == layer_record_of(stats),
{
    let mut record = Record::new();
    record.number("layer_index", stats.execution.layer_index as u128);
    record.text("profile", stats.profile.as_str());
    record.text("mechanism", stats.mechanism);
    record.number(
        "gdn_output_group_size",
        stats.quantization.gdn_output_group_size.columns() as u128,
    );
    record.number("prefill_seed_calls", stats.execution.prefill_seed_calls as u128);
    record.number("decode_calls", stats.execution.decode_calls as u128);
    record.number("successful_decodes", stats.execution.successful_decodes as u128);
    record.number("failed_decodes", stats.execution.failed_decodes as u128);
    record.number("command_buffers", stats.execution.command_buffers as u128);
    record.number("compute_encoders", stats.execution.compute_encoders as u128);
    record.number("commits", stats.execution.commits as u128);
    record.number("waits", stats.execution.waits as u128);
    record.number("host_to_device_bytes", stats.execution.host_to_device_bytes as u128);
    record.number("device_to_host_bytes", stats.execution.device_to_host_bytes as u128);
    record.number("committed_state_version", stats.execution.committed_state_version as u128);
    record.flag("terminal_error", stats.execution.terminal_error);
    record.number("block_elapsed_ns", stats.execution.block_elapsed_ns as u128);
    record
}

/// The head.
pub open spec fn head_record_of(stats: Qwen35MetalW8LmHeadStats) -> Seq<(&'static str, PathView)> {
    seq![
        ("prefill_calls", PathView::Number(stats.prefill_calls as nat)),
        ("decode_calls", PathView::Number(stats.decode_calls as nat)),
        ("teacher_calls", PathView::Number(stats.teacher_calls as nat)),
        ("topk_elapsed_ns", PathView::Number(stats.topk_elapsed_ns as nat)),
        ("rerank_elapsed_ns", PathView::Number(stats.rerank_elapsed_ns as nat)),
    ]
}

/// The head.
fn head_record(stats: Qwen35MetalW8LmHeadStats) -> (record: Record)
    ensures
        record@ == head_record_of(stats),
{
    let mut record = Record::new();
    record.number("prefill_calls", stats.prefill_calls as u128);
    record.number("decode_calls", stats.decode_calls as u128);
    record.number("teacher_calls", stats.teacher_calls as u128);
    record.number("topk_elapsed_ns", stats.topk_elapsed_ns as u128);
    record.number("rerank_elapsed_ns", stats.rerank_elapsed_ns as u128);
    record
}

/// The head behind the stacks.
pub open spec fn stack3_head_record_of(
    stats: Qwen35MetalW8LmHeadStats,
) -> Seq<(&'static str, PathView)> {
    seq![
        ("mechanism", PathView::Text("metal-w8-top4-f32-rerank")),
        ("prefill_calls", PathView::Number(stats.prefill_calls as nat)),
        ("decode_calls", PathView::Number(stats.decode_calls as nat)),
        ("teacher_calls", PathView::Number(stats.teacher_calls as nat)),
        ("topk_elapsed_ns", PathView::Number(stats.topk_elapsed_ns as nat)),
        ("rerank_elapsed_ns", PathView::Number(stats.rerank_elapsed_ns as nat)),
    ]
}

/// The head behind the stacks.
fn stack3_head_record(stats: Qwen35MetalW8LmHeadStats) -> (record: Record)
    ensures
        record@ == stack3_head_record_of(stats),
{
    let mut record = Record::new();
    record.text("mechanism", "metal-w8-top4-f32-rerank");
    record.number("prefill_calls", stats.prefill_calls as u128);
    record.number("decode_calls", stats.decode_calls as u128);
    record.number("teacher_calls", stats.teacher_calls as u128);
    record.number("topk_elapsed_ns", stats.topk_elapsed_ns as u128);
    record.number("rerank_elapsed_ns", stats.rerank_elapsed_ns as u128);
    record
}

/// The last feed-forward block of a boundary body.
pub open spec fn final_mlp_record_of(
    stats: Qwen35MetalW8MlpBlockStats,
) -> Seq<(&'static str, PathView)> {
    seq![
        ("layer_index", PathView::Number(stats.layer_index as nat)),
        ("mechanism", PathView::Text("metal-w8-mlp-block-g64")),
        ("decode_calls", PathView::Number(stats.decode_calls as nat)),
        ("block_elapsed_ns", PathView::Number(stats.block_elapsed_ns as nat)),
    ]
}

/// The last feed-forward block of a boundary body.
fn final_mlp_record(stats: Qwen35MetalW8MlpBlockStats) -> (record: Record)
    ensures
        record@ == final_mlp_record_of(stats),
{
    let mut record = Record::new();
    record.number("layer_index", stats.layer_index as u128);
    record.text("mechanism", "metal-w8-mlp-block-g64");
    record.number("decode_calls", stats.decode_calls as u128);
    record.number("block_elapsed_ns", stats.block_elapsed_ns as u128);
    record
}

/// The head of the prefills, on the host.
pub open spec fn prefill_head_record_of(
    stats: Qwen35MetalW8MlpStack3BoundaryTailHeadV1Stats,
) -> Seq<(&'static str, PathView)> {
    seq![
        ("mechanism", PathView::Text("cpu-f32-tied")),
        ("calls", PathView::Number(stats.prefill_cpu_head_calls as nat)),
        ("tail_transactions", PathView::Number(0)),
    ]
}

/// The head of the prefills, on the host.
fn prefill_head_record(stats: &Qwen35MetalW8MlpStack3BoundaryTailHeadV1Stats) -> (record: Record)
    ensures
        record@ == prefill_head_record_of(*stats),
{
    let mut record = Record::new();
    record.text("mechanism", "cpu-f32-tied");
    record.number("calls", stats.prefill_cpu_head_calls as u128);
    record.number("tail_transactions", 0);
    record
}

/// The head of the decodes, in the tail.
pub open spec fn decode_head_record_of(
    stats: Qwen35MetalW8MlpStack3BoundaryTailHeadV1Stats,
) -> Seq<(&'static str, PathView)> {
    seq![
        ("mechanism", PathView::Text("metal-w8-tail-v1")),
        ("layer_index", PathView::Number(stats.tail_layer_index as nat)),
        ("calls", PathView::Number(stats.decode_calls as nat)),
        ("teacher_calls", PathView::Number(stats.teacher_calls as nat)),
        ("tail_transactions", PathView::Number(stats.tail.decode_calls as nat)),
        ("successful_transactions", PathView::Number(stats.tail.successful_decodes as nat)),
        ("failed_transactions", PathView::Number(stats.tail.failed_decodes as nat)),
        ("command_buffers", PathView::Number(stats.tail.command_buffers as nat)),
        ("compute_encoders", PathView::Number(stats.tail.compute_encoders as nat)),
        ("kernel_dispatches", PathView::Number(stats.tail.kernel_dispatches as nat)),
        ("commits", PathView::Number(stats.tail.commits as nat)),
        ("waits", PathView::Number(stats.tail.waits as nat)),
        ("host_to_device_bytes", PathView::Number(stats.tail.host_to_device_bytes as nat)),
        ("device_to_host_bytes", PathView::Number(stats.tail.device_to_host_bytes as nat)),
        ("output_commits", PathView::Number(stats.tail.output_commits as nat)),
        ("last_output_commit_mask", PathView::Number(stats.tail.last_output_commit_mask as nat)),
        ("rerank_elapsed_ns", PathView::Number(stats.rerank_elapsed_ns as nat)),
        ("terminal_error", PathView::Flag(stats.tail.terminal_error)),
    ]
}

/// The head of the decodes, in the tail.
fn decode_head_record(stats: &Qwen35MetalW8MlpStack3BoundaryTailHeadV1Stats) -> (record: Record)
    ensures
        record@ == decode_head_record_of(*stats),
{
    let mut record = Record::new();
    record.text("mechanism", "metal-w8-tail-v1");
    record.number("layer_index", stats.tail_layer_index as u128);
    record.number("calls", stats.decode_calls as u128);
    record.number("teacher_calls", stats.teacher_calls as u128);
    record.number("tail_transactions", stats.tail.decode_calls as u128);
    record.number("successful_transactions", stats.tail.successful_decodes as u128);
    record.number("failed_transactions", stats.tail.failed_decodes as u128);
    record.number("command_buffers", stats.tail.command_buffers as u128);
    record.number("compute_encoders", stats.tail.compute_encoders as u128);
    record.number("kernel_dispatches", stats.tail.kernel_dispatches as u128);
    record.number("commits", stats.tail.commits as u128);
    record.number("waits", stats.tail.waits as u128);
    record.number("host_to_device_bytes", stats.tail.host_to_device_bytes as u128);
    record.number("device_to_host_bytes", stats.tail.device_to_host_bytes as u128);
    record.number("output_commits", stats.tail.output_commits as u128);
    record.number("last_output_commit_mask", stats.tail.last_output_commit_mask as u128);
    record.number("rerank_elapsed_ns", stats.rerank_elapsed_ns as u128);
    record.flag("terminal_error", stats.tail.terminal_error);
    record
}

/// The totals of the lane with the tail.
pub open spec fn tail_totals_record_of(
    stats: Qwen35MetalW8MlpStack3BoundaryTailHeadV1AggregateLedger,
) -> Seq<(&'static str, PathView)> {
    seq![
        ("scope", PathView::Text(stats.scope)),
        ("includes_lm_head", PathView::Flag(stats.includes_lm_head)),
        (
            "persistent_mtlbuffer_bytes",
            PathView::Number(stats.total_persistent_mtlbuffer_bytes as nat),
        ),
        ("allocated_buffers", PathView::Number(stats.allocated_buffers as nat)),
        ("shared_buffers", PathView::Number(stats.shared_buffers as nat)),
        ("private_buffers", PathView::Number(stats.private_buffers as nat)),
        (
            "host_to_device_bytes_per_decode",
            PathView::Number(stats.host_to_device_bytes_per_decode as nat),
        ),
        (
            "device_to_host_bytes_per_decode",
            PathView::Number(stats.device_to_host_bytes_per_decode as nat),
        ),
        (
            "state_host_transfer_bytes_per_decode",
            PathView::Number(stats.state_host_transfer_bytes_per_decode as nat),
        ),
        ("command_buffers_per_decode", PathView::Number(stats.command_buffers_per_decode as nat)),
        ("compute_encoders_per_decode", PathView::Number(stats.compute_encoders_per_decode as nat)),
        (
            "kernel_dispatches_per_decode",
            PathView::Number(stats.kernel_dispatches_per_decode as nat),
        ),
        (
            "explicit_buffer_barriers_per_decode",
            PathView::Number(stats.explicit_buffer_barriers_per_decode as nat),
        ),
        ("gdn_core_profile", PathView::Text(profile_label(stats.gdn_core_profile))),
        ("gdn_function_chain", PathView::Text(stats.gdn_function_chain)),
        ("commits_per_decode", PathView::Number(stats.commits_per_decode as nat)),
        ("waits_per_decode", PathView::Number(stats.waits_per_decode as nat)),
    ]
}

/// The totals of the lane with the tail.
fn tail_totals_record(
    stats: &Qwen35MetalW8MlpStack3BoundaryTailHeadV1AggregateLedger,
) -> (record: Record)
    ensures
        record@ == tail_totals_record_of(*stats),
{
    let mut record = Record::new();
    record.text("scope", stats.scope);
    record.flag("includes_lm_head", stats.includes_lm_head);
    record.number("persistent_mtlbuffer_bytes", stats.total_persistent_mtlbuffer_bytes as u128);
    record.number("allocated_buffers", stats.allocated_buffers as u128);
    record.number("shared_buffers", stats.shared_buffers as u128);
    record.number("private_buffers", stats.private_buffers as u128);
    record.number("host_to_device_bytes_per_decode", stats.host_to_device_bytes_per_decode as u128);
    record.number("device_to_host_bytes_per_decode", stats.device_to_host_bytes_per_decode as u128);
    record.number(
        "state_host_transfer_bytes_per_decode",
        stats.state_host_transfer_bytes_per_decode as u128,
    );
    record.number("command_buffers_per_decode", stats.command_buffers_per_decode as u128);
    record.number("compute_encoders_per_decode", stats.compute_encoders_per_decode as u128);
    record.number("kernel_dispatches_per_decode", stats.kernel_dispatches_per_decode as u128);
    record.number(
        "explicit_buffer_barriers_per_decode",
        stats.explicit_buffer_barriers_per_decode as u128,
    );
    record.text("gdn_core_profile", qwen35_gdn_core_profile_v1_label(stats.gdn_core_profile));
    record.text("gdn_function_chain", stats.gdn_function_chain);
    record.number("commits_per_decode", stats.commits_per_decode as u128);
    record.number("waits_per_decode", stats.waits_per_decode as u128);
    record
}

/// The totals of the boundary body.
pub open spec fn body_totals_record_of(
    stats: Qwen35MetalW8MlpStack3BoundaryBodyV1AggregateLedger,
) -> Seq<(&'static str, PathView)> {
    seq![
        ("scope", PathView::Text(stats.scope)),
        ("includes_lm_head", PathView::Flag(stats.includes_lm_head)),
        (
            "persistent_mtlbuffer_bytes",
            PathView::Number(stats.total_persistent_mtlbuffer_bytes as nat),
        ),
        ("allocated_buffers", PathView::Number(stats.allocated_buffers as nat)),
        ("shared_buffers", PathView::Number(stats.shared_buffers as nat)),
        ("private_buffers", PathView::Number(stats.private_buffers as nat)),
        (
            "host_to_device_bytes_per_decode",
            PathView::Number(stats.host_to_device_bytes_per_decode as nat),
        ),
        (
            "device_to_host_bytes_per_decode",
            PathView::Number(stats.device_to_host_bytes_per_decode as nat),
        ),
        (
            "state_host_transfer_bytes_per_decode",
            PathView::Number(stats.state_host_transfer_bytes_per_decode as nat),
        ),
        ("command_buffers_per_decode", PathView::Number(stats.command_buffers_per_decode as nat)),
        ("compute_encoders_per_decode", PathView::Number(stats.compute_encoders_per_decode as nat)),
        (
            "kernel_dispatches_per_decode",
            PathView::Number(stats.kernel_dispatches_per_decode as nat),
        ),
        ("commits_per_decode", PathView::Number(stats.commits_per_decode as nat)),
        ("waits_per_decode", PathView::Number(stats.waits_per_decode as nat)),
    ]
}

/// The totals of the boundary body.
fn body_totals_record(
    stats: &Qwen35MetalW8MlpStack3BoundaryBodyV1AggregateLedger,
) -> (record: Record)
    ensures
        record@ == body_totals_record_of(*stats),
{
    let mut record = Record::new();
    record.text("scope", stats.scope);
    record.flag("includes_lm_head", stats.includes_lm_head);
    record.number("persistent_mtlbuffer_bytes", stats.total_persistent_mtlbuffer_bytes as u128);
    record.number("allocated_buffers", stats.allocated_buffers as u128);
    record.number("shared_buffers", stats.shared_buffers as u128);
    record.number("private_buffers", stats.private_buffers as u128);
    record.number("host_to_device_bytes_per_decode", stats.host_to_device_bytes_per_decode as u128);
    record.number("device_to_host_bytes_per_decode", stats.device_to_host_bytes_per_decode as u128);
    record.number(
        "state_host_transfer_bytes_per_decode",
        stats.state_host_transfer_bytes_per_decode as u128,
    );
    record.number("command_buffers_per_decode", stats.command_buffers_per_decode as u128);
    record.number("compute_encoders_per_decode", stats.compute_encoders_per_decode as u128);
    record.number("kernel_dispatches_per_decode", stats.kernel_dispatches_per_decode as u128);
    record.number("commits_per_decode", stats.commits_per_decode as u128);
    record.number("waits_per_decode", stats.waits_per_decode as u128);
    record
}

/// A record for every entry, in their order.
pub open spec fn tail_region_records_of(
    stats: Seq<Qwen35MetalW8MlpStack3BoundaryRegionV1Stats>,
) -> Seq<PathView> {
    stats.map_values(
        |entry: Qwen35MetalW8MlpStack3BoundaryRegionV1Stats| PathView::Record(
            tail_region_record_of(entry),
        ),
    )
}

/// A record for every entry, in their order.
fn tail_region_records(
    stats: &Vec<Qwen35MetalW8MlpStack3BoundaryRegionV1Stats>,
) -> (records: Vec<PathValue>)
    ensures
        views(records@) == tail_region_records_of(stats@),
{
    let mut records: Vec<PathValue> = Vec::new();
    let mut i: usize = 0;
    while i < stats.len()
        invariant
            i <= stats@.len(),
            records@.len() == i,
            forall|k: int|
                0 <= k < i ==> (#[trigger] records@[k])@ == PathView::Record(
                    tail_region_record_of(stats@[k]),
                ),
        decreases stats@.len() - i,
    {
        records.push(PathValue::Record(tail_region_record(stats[i])));
        i = i + 1;
    }
    proof {
        assert(views(records@) =~= tail_region_records_of(stats@));
    }
    records
}

/// A record for every entry, in their order.
pub open spec fn body_region_records_of(
    stats: Seq<Qwen35MetalW8MlpStack3BoundaryRegionV1Stats>,
) -> Seq<PathView> {
    stats.map_values(
        |entry: Qwen35MetalW8MlpStack3BoundaryRegionV1Stats| PathView::Record(
            body_region_record_of(entry),
        ),
    )
}

/// A record for every entry, in their order.
fn body_region_records(
    stats: &Vec<Qwen35MetalW8MlpStack3BoundaryRegionV1Stats>,
) -> (records: Vec<PathValue>)
    ensures
        views(records@) == body_region_records_of(stats@),
{
    let mut records: Vec<PathValue> = Vec::new();
    let mut i: usize = 0;
    while i < stats.len()
        invariant
            i <= stats@.len(),
            records@.len() == i,
            forall|k: int|
                0 <= k < i ==> (#[trigger] records@[k])@ == PathView::Record(
                    body_region_record_of(stats@[k]),
                ),
        decreases stats@.len() - i,
    {
        records.push(PathValue::Record(body_region_record(stats[i])));
        i = i + 1;
    }
    proof {
        assert(views(records@) =~= body_region_records_of(stats@));
    }
    records
}

/// A record for every entry, in their order.
pub open spec fn stack_records_of(
    stats: Seq<Qwen35MetalW8LinearLayerStack3V1Stats>,
) -> Seq<PathView> {
    stats.map_values(
        |entry: Qwen35MetalW8LinearLayerStack3V1Stats| PathView::Record(stack_record_of(entry)),
    )
}

/// A record for every entry, in their order.
fn stack_records(stats: &Vec<Qwen35MetalW8LinearLayerStack3V1Stats>) -> (records: Vec<PathValue>)
    ensures
        views(records@) == stack_records_of(stats@),
{
    let mut records: Vec<PathValue> = Vec::new();
    let mut i: usize = 0;
    while i < stats.len()
        invariant
            i <= stats@.len(),
            records@.len() == i,
            forall|k: int|
                0 <= k < i ==> (#[trigger] records@[k])@ == PathView::Record(
                    stack_record_of(stats@[k]),
                ),
        decreases stats@.len() - i,
    {
        records.push(PathValue::Record(stack_record(stats[i])));
        i = i + 1;
    }
    proof {
        assert(views(records@) =~= stack_records_of(stats@));
    }
    records
}

/// A record for every entry, in their order.
pub open spec fn block_records_of(stats: Seq<Qwen35MetalW8MlpBlockStats>) -> Seq<PathView> {
    stats.map_values(|entry: Qwen35MetalW8MlpBlockStats| PathView::Record(block_record_of(entry)))
}

/// A record for every entry, in their order.
fn block_records(stats: &Vec<Qwen35MetalW8MlpBlockStats>) -> (records: Vec<PathValue>)
    ensures
        views(records@) == block_records_of(stats@),
{
    let mut records: Vec<PathValue> = Vec::new();
    let mut i: usize = 0;
    while i < stats.len()
        invariant
            i <= stats@.len(),
            records@.len() == i,
            forall|k: int|
                0 <= k < i ==> (#[trigger] records@[k])@ == PathView::Record(
                    block_record_of(stats@[k]),
                ),
        decreases stats@.len() - i,
    {
        records.push(PathValue::Record(block_record(stats[i])));
        i = i + 1;
    }
    proof {
        assert(views(records@) =~= block_records_of(stats@));
    }
    records
}

/// A record for every entry, in their order.
pub open spec fn layer_records_of(
    stats: Seq<Qwen35MetalW8LinearLayerPrecisionV2Stats>,
) -> Seq<PathView> {
    stats.map_values(
        |entry: Qwen35MetalW8LinearLayerPrecisionV2Stats| PathView::Record(layer_record_of(entry)),
    )
}

/// A record for every entry, in their order.
fn layer_records(stats: &Vec<Qwen35MetalW8LinearLayerPrecisionV2Stats>) -> (records: Vec<PathValue>)
    ensures
        views(records@) == layer_records_of(stats@),
{
    let mut records: Vec<PathValue> = Vec::new();
    let mut i: usize = 0;
    while i < stats.len()
        invariant
            i <= stats@.len(),
            records@.len() == i,
            forall|k: int|
                0 <= k < i ==> (#[trigger] records@[k])@ == PathView::Record(
                    layer_record_of(stats@[k]),
                ),
        decreases stats@.len() - i,
    {
        records.push(PathValue::Record(layer_record(stats[i])));
        i = i + 1;
    }
    proof {
        assert(views(records@) =~= layer_records_of(stats@));
    }
    records
}

/// The head; null without one.
pub open spec fn optional_head_of(head: Option<Qwen35MetalW8LmHeadStats>) -> PathView {
    match head {
        Some(head) => PathView::Record(head_record_of(head)),
        None => PathView::Null,
    }
}

/// The head; null without one.
fn optional_head(head: Option<Qwen35MetalW8LmHeadStats>) -> (value: PathValue)
    ensures
        value@ == optional_head_of(head),
{
    match head {
        Some(head) => PathValue::Record(head_record(head)),
        None => PathValue::Null,
    }
}

/// The path of a model with a tail.
#[verifier::opaque]
pub open spec fn tail_receipt_of(
    stats: Qwen35MetalW8MlpStack3BoundaryTailHeadV1Stats,
    totals: Qwen35MetalW8MlpStack3BoundaryTailHeadV1AggregateLedger,
) -> Seq<(&'static str, PathView)> {
    seq![
        (
            "format",
            PathView::Text("apxinf-qwen35-mlp-stack3-boundary-tail-head-generation-path-v1"),
        ),
        ("mechanism", PathView::Text(stats.mechanism)),
        ("gdn_core_profile", PathView::Text(profile_label(stats.gdn_core_profile))),
        ("gdn_function_chain", PathView::Text(stats.gdn_function_chain)),
        ("cpu_full_attention_and_kv", PathView::Flag(true)),
        ("cpu_prefill_all_24_layers", PathView::Flag(true)),
        ("metal_w8_initial_complete_linear_layer_stack3", PathView::Flag(true)),
        ("metal_w8_mlp_stack3_boundaries", PathView::Flag(true)),
        ("metal_w8_tail_layer23_mlp_final_rms_top4", PathView::Flag(true)),
        ("standalone_layer23_mlp", PathView::Flag(false)),
        ("standalone_metal_lm_head", PathView::Flag(false)),
        ("f32_tied_four_candidate_rerank", PathView::Flag(true)),
        ("initial_stack", PathView::Record(tail_stack_record_of(stats.initial_stack))),
        ("boundaries", PathView::List(tail_region_records_of(stats.boundaries@))),
        ("prefill_body_calls", PathView::Number(stats.prefill_body_calls as nat)),
        ("prefill_head", PathView::Record(prefill_head_record_of(stats))),
        ("decode_head", PathView::Record(decode_head_record_of(stats))),
        ("aggregate", PathView::Record(tail_totals_record_of(totals))),
        ("terminal_error", PathView::Flag(stats.terminal_error)),
    ]
}

/// The path of a model with a tail.
pub fn tail_receipt(
    stats: &Qwen35MetalW8MlpStack3BoundaryTailHeadV1Stats,
    totals: &Qwen35MetalW8MlpStack3BoundaryTailHeadV1AggregateLedger,
) -> (record: Record)
    ensures
        record@ == tail_receipt_of(*stats, *totals),
{
    let mut record = Record::new();
    record.text("format", "apxinf-qwen35-mlp-stack3-boundary-tail-head-generation-path-v1");
    record.text("mechanism", stats.mechanism);
    record.text("gdn_core_profile", qwen35_gdn_core_profile_v1_label(stats.gdn_core_profile));
    record.text("gdn_function_chain", stats.gdn_function_chain);
    record.flag("cpu_full_attention_and_kv", true);
    record.flag("cpu_prefill_all_24_layers", true);
    record.flag("metal_w8_initial_complete_linear_layer_stack3", true);
    record.flag("metal_w8_mlp_stack3_boundaries", true);
    record.flag("metal_w8_tail_layer23_mlp_final_rms_top4", true);
    record.flag("standalone_layer23_mlp", false);
    record.flag("standalone_metal_lm_head", false);
    record.flag("f32_tied_four_candidate_rerank", true);
    record.record("initial_stack", tail_stack_record(stats.initial_stack));
    record.list("boundaries", tail_region_records(&stats.boundaries));
    record.number("prefill_body_calls", stats.prefill_body_calls as u128);
    record.record("prefill_head", prefill_head_record(stats));
    record.record("decode_head", decode_head_record(stats));
    record.record("aggregate", tail_totals_record(totals));
    record.flag("terminal_error", stats.terminal_error);
    proof {
        reveal(tail_receipt_of);
    }
    record
}

/// The path of a model with a boundary body.
#[verifier::opaque]
pub open spec fn body_receipt_of(
    stats: Qwen35MetalW8MlpStack3BoundaryBodyV1Stats,
    totals: Qwen35MetalW8MlpStack3BoundaryBodyV1AggregateLedger,
) -> Seq<(&'static str, PathView)> {
    seq![
        ("format", PathView::Text("apxinf-qwen35-mlp-stack3-boundary-body-generation-path-v1")),
        ("mechanism", PathView::Text(stats.mechanism)),
        ("metal_w8_initial_complete_linear_layer_stack3", PathView::Flag(true)),
        ("metal_w8_mlp_stack3_boundaries", PathView::Flag(true)),
        ("metal_w8_final_standalone_mlp", PathView::Flag(true)),
        ("metal_w8_lm_head", PathView::Flag(false)),
        ("cpu_full_attention_and_kv", PathView::Flag(true)),
        ("cpu_prefill_all_24_layers", PathView::Flag(true)),
        ("intermediate_host_finite_checks", PathView::Flag(false)),
        ("final_output_finite_checks", PathView::Flag(true)),
        ("initial_stack", PathView::Record(body_stack_record_of(stats.initial_stack))),
        ("boundaries", PathView::List(body_region_records_of(stats.boundaries@))),
        ("final_mlp", PathView::Record(final_mlp_record_of(stats.final_mlp))),
        ("aggregate", PathView::Record(body_totals_record_of(totals))),
        ("terminal_error", PathView::Flag(stats.terminal_error)),
    ]
}

/// The path of a model with a boundary body.
pub fn body_receipt(
    stats: &Qwen35MetalW8MlpStack3BoundaryBodyV1Stats,
    totals: &Qwen35MetalW8MlpStack3BoundaryBodyV1AggregateLedger,
) -> (record: Record)
    ensures
        record@ == body_receipt_of(*stats, *totals),
{
    let mut record = Record::new();
    record.text("format", "apxinf-qwen35-mlp-stack3-boundary-body-generation-path-v1");
    record.text("mechanism", stats.mechanism);
    record.flag("metal_w8_initial_complete_linear_layer_stack3", true);
    record.flag("metal_w8_mlp_stack3_boundaries", true);
    record.flag("metal_w8_final_standalone_mlp", true);
    record.flag("metal_w8_lm_head", false);
    record.flag("cpu_full_attention_and_kv", true);
    record.flag("cpu_prefill_all_24_layers", true);
    record.flag("intermediate_host_finite_checks", false);
    record.flag("final_output_finite_checks", true);
    record.record("initial_stack", body_stack_record(stats.initial_stack));
    record.list("boundaries", body_region_records(&stats.boundaries));
    record.record("final_mlp", final_mlp_record(stats.final_mlp));
    record.record("aggregate", body_totals_record(totals));
    record.flag("terminal_error", stats.terminal_error);
    proof {
        reveal(body_receipt_of);
    }
    record
}

/// The path of a model with stacks, feed-forward blocks and a head.
#[verifier::opaque]
pub open spec fn stack3_head_receipt_of(
    stats: Qwen35MetalW8LinearLayerStacksV1Stats,
    head: Qwen35MetalW8LmHeadStats,
    terminal: bool,
) -> Seq<(&'static str, PathView)> {
    seq![
        ("format", PathView::Text("apxinf-qwen35-stack3-lm-head-generation-path-v2")),
        ("mechanism", PathView::Text("metal-w8-stack3-lm-head-v2")),
        ("stack3_mechanism", PathView::Text(stats.mechanism)),
        ("full_attention_mlp_mechanism", PathView::Text(stats.full_attention_mlp_mechanism)),
        ("metal_w8_complete_linear_layer_stacks", PathView::Flag(true)),
        ("metal_w8_full_attention_mlp_blocks", PathView::Flag(true)),
        ("metal_w8_tied_lm_head_topk4_f32_rerank", PathView::Flag(true)),
        ("intermediate_host_finite_checks", PathView::Flag(false)),
        ("final_output_finite_checks", PathView::Flag(true)),
        ("stacks", PathView::List(stack_records_of(stats.stacks@))),
        (
            "full_attention_mlp_layers",
            PathView::List(block_records_of(stats.full_attention_mlp_layers@)),
        ),
        ("lm_head", PathView::Record(stack3_head_record_of(head))),
        ("terminal_error", PathView::Flag(terminal || stats.terminal_error)),
    ]
}

/// The path of a model with stacks, feed-forward blocks and a head.
pub fn stack3_head_receipt(
    stats: &Qwen35MetalW8LinearLayerStacksV1Stats,
    head: Qwen35MetalW8LmHeadStats,
    terminal: bool,
) -> (record: Record)
    ensures
        record@ == stack3_head_receipt_of(*stats, head, terminal),
{
    let mut record = Record::new();
    record.text("format", "apxinf-qwen35-stack3-lm-head-generation-path-v2");
    record.text("mechanism", "metal-w8-stack3-lm-head-v2");
    record.text("stack3_mechanism", stats.mechanism);
    record.text("full_attention_mlp_mechanism", stats.full_attention_mlp_mechanism);
    record.flag("metal_w8_complete_linear_layer_stacks", true);
    record.flag("metal_w8_full_attention_mlp_blocks", true);
    record.flag("metal_w8_tied_lm_head_topk4_f32_rerank", true);
    record.flag("intermediate_host_finite_checks", false);
    record.flag("final_output_finite_checks", true);
    record.list("stacks", stack_records(&stats.stacks));
    record.list("full_attention_mlp_layers", block_records(&stats.full_attention_mlp_layers));
    record.record("lm_head", stack3_head_record(head));
    record.flag("terminal_error", terminal || stats.terminal_error);
    proof {
        reveal(stack3_head_receipt_of);
    }
    record
}

/// The path of a model with stacks.
#[verifier::opaque]
pub open spec fn stacks_receipt_of(
    stats: Qwen35MetalW8LinearLayerStacksV1Stats,
    has_head: bool,
) -> Seq<(&'static str, PathView)> {
    seq![
        ("format", PathView::Text("apxinf-qwen35-linear-layer-stacks-generation-path-v1")),
        ("mechanism", PathView::Text(stats.mechanism)),
        ("full_attention_mlp_mechanism", PathView::Text(stats.full_attention_mlp_mechanism)),
        ("metal_w8_complete_linear_layer_stacks", PathView::Flag(true)),
        (
            "metal_w8_full_attention_mlp_blocks",
            PathView::Flag(stats.full_attention_mlp_layers@.len() > 0),
        ),
        ("metal_w8_lm_head", PathView::Flag(has_head)),
        ("intermediate_host_finite_checks", PathView::Flag(false)),
        ("final_output_finite_checks", PathView::Flag(true)),
        ("stacks", PathView::List(stack_records_of(stats.stacks@))),
        (
            "full_attention_mlp_layers",
            PathView::List(block_records_of(stats.full_attention_mlp_layers@)),
        ),
        ("terminal_error", PathView::Flag(stats.terminal_error)),
    ]
}

/// The path of a model with stacks.
pub fn stacks_receipt(
    stats: &Qwen35MetalW8LinearLayerStacksV1Stats,
    has_head: bool,
) -> (record: Record)
    ensures
        record@ == stacks_receipt_of(*stats, has_head),
{
    let mut record = Record::new();
    record.text("format", "apxinf-qwen35-linear-layer-stacks-generation-path-v1");
    record.text("mechanism", stats.mechanism);
    record.text("full_attention_mlp_mechanism", stats.full_attention_mlp_mechanism);
    record.flag("metal_w8_complete_linear_layer_stacks", true);
    record.flag("metal_w8_full_attention_mlp_blocks", stats.full_attention_mlp_layers.len() > 0);
    record.flag("metal_w8_lm_head", has_head);
    record.flag("intermediate_host_finite_checks", false);
    record.flag("final_output_finite_checks", true);
    record.list("stacks", stack_records(&stats.stacks));
    record.list("full_attention_mlp_layers", block_records(&stats.full_attention_mlp_layers));
    record.flag("terminal_error", stats.terminal_error);
    proof {
        reveal(stacks_receipt_of);
    }
    record
}

/// The path of a model with all linear layers.
#[verifier::opaque]
pub open spec fn all_linear_receipt_of(
    stats: Qwen35MetalW8AllLinearLayersPrecisionV2Stats,
    has_head: bool,
) -> Seq<(&'static str, PathView)> {
    seq![
        ("format", PathView::Text("apxinf-qwen35-all-linear-layers-generation-path-v2")),
        ("profile", PathView::Text("gdn-out-g32-v2")),
        ("mechanism", PathView::Text(stats.mechanism)),
        ("full_attention_mlp_mechanism", PathView::Text(stats.full_attention_mlp_mechanism)),
        ("metal_w8_complete_linear_layers", PathView::Flag(true)),
        ("metal_w8_full_attention_mlp_blocks", PathView::Flag(true)),
        ("metal_w8_lm_head", PathView::Flag(has_head)),
        ("linear_layers", PathView::List(layer_records_of(stats.linear_layers@))),
        (
            "full_attention_mlp_layers",
            PathView::List(block_records_of(stats.full_attention_mlp_layers@)),
        ),
        ("terminal_error", PathView::Flag(stats.terminal_error)),
    ]
}

/// The path of a model with all linear layers.
pub fn all_linear_receipt(
    stats: &Qwen35MetalW8AllLinearLayersPrecisionV2Stats,
    has_head: bool,
) -> (record: Record)
    ensures
        record@ == all_linear_receipt_of(*stats, has_head),
{
    let mut record = Record::new();
    record.text("format", "apxinf-qwen35-all-linear-layers-generation-path-v2");
    record.text("profile", stats.profile.as_str());
    record.text("mechanism", stats.mechanism);
    record.text("full_attention_mlp_mechanism", stats.full_attention_mlp_mechanism);
    record.flag("metal_w8_complete_linear_layers", true);
    record.flag("metal_w8_full_attention_mlp_blocks", true);
    record.flag("metal_w8_lm_head", has_head);
    record.list("linear_layers", layer_records(&stats.linear_layers));
    record.list("full_attention_mlp_layers", block_records(&stats.full_attention_mlp_layers));
    record.flag("terminal_error", stats.terminal_error);
    proof {
        reveal(all_linear_receipt_of);
    }
    record
}

/// The path of a model with none of the lanes of a whole layer.
#[verifier::opaque]
pub open spec fn plain_receipt_of(
    has_blocks: bool,
    blocks: Vec<Qwen35MetalW8MlpBlockStats>,
    head: Option<Qwen35MetalW8LmHeadStats>,
) -> Seq<(&'static str, PathView)> {
    seq![
        ("format", PathView::Text("apxinf-qwen35-generation-path-v1")),
        ("metal_w8_mlp_block", PathView::Flag(has_blocks)),
        ("metal_w8_lm_head", PathView::Flag(head is Some)),
        ("mlp_block_layers", PathView::List(block_records_of(blocks@))),
        ("lm_head", optional_head_of(head)),
    ]
}

/// The path of a model with none of the lanes of a whole layer.
pub fn plain_receipt(
    has_blocks: bool,
    blocks: &Vec<Qwen35MetalW8MlpBlockStats>,
    head: Option<Qwen35MetalW8LmHeadStats>,
) -> (record: Record)
    ensures
        record@ == plain_receipt_of(has_blocks, *blocks, head),
{
    let mut record = Record::new();
    record.text("format", "apxinf-qwen35-generation-path-v1");
    record.flag("metal_w8_mlp_block", has_blocks);
    record.flag("metal_w8_lm_head", head.is_some());
    record.list("mlp_block_layers", block_records(blocks));
    record.value("lm_head", optional_head(head));
    proof {
        reveal(plain_receipt_of);
    }
    record
}

impl GeneralQwen35 {
    /// The path is the one that the counters and the totals of the tail tell.
    pub open spec fn tells_tail_path(
        self,
        stats: Qwen35MetalW8MlpStack3BoundaryTailHeadV1Stats,
        totals: Qwen35MetalW8MlpStack3BoundaryTailHeadV1AggregateLedger,
        path: Option<Record>,
    ) -> bool {
        &&& self.has_tail_stats(stats)
        &&& self.has_tail_totals(totals)
        &&& path is Some
        &&& path->Some_0@ == tail_receipt_of(stats, totals)
    }

    /// The path is the one that the counters and the totals of the body tell.
    pub open spec fn tells_body_path(
        self,
        stats: Qwen35MetalW8MlpStack3BoundaryBodyV1Stats,
        totals: Qwen35MetalW8MlpStack3BoundaryBodyV1AggregateLedger,
        path: Option<Record>,
    ) -> bool {
        &&& self.has_body_stats(stats)
        &&& self.has_body_totals(totals)
        &&& path is Some
        &&& path->Some_0@ == body_receipt_of(stats, totals)
    }

    /// The path is the one that the counters of the stacks tell, with those of the
    /// head where the model was built with both.
    pub open spec fn tells_stacks_path(
        self,
        stats: Qwen35MetalW8LinearLayerStacksV1Stats,
        path: Option<Record>,
    ) -> bool {
        &&& self.has_stacks_stats(stats)
        &&& path is Some
        &&& path->Some_0@ == match self.stack3_head_terminal {
            Some(terminal) => stack3_head_receipt_of(
                stats,
                self.head_stats_of()->Some_0,
                terminal,
            ),
            None => stacks_receipt_of(stats, self.head is Some),
        }
    }

    /// The path is the one that the counters of all linear layers tell.
    pub open spec fn tells_all_linear_path(
        self,
        stats: Qwen35MetalW8AllLinearLayersPrecisionV2Stats,
        path: Option<Record>,
    ) -> bool {
        &&& self.has_all_linear_stats(stats)
        &&& path is Some
        &&& path->Some_0@ == all_linear_receipt_of(stats, self.head is Some)
    }

    /// The path is the one that the counters of the blocks and the head tell.
    pub open spec fn tells_plain_path(
        self,
        blocks: Vec<Qwen35MetalW8MlpBlockStats>,
        path: Option<Record>,
    ) -> bool {
        &&& blocks@ == self.block_stats_of()
        &&& path is Some
        &&& path->Some_0@ == plain_receipt_of(self.mlp_blocks is Some, blocks, self.head_stats_of())
    }

    /// Tells the path that the tokens took; `None` where the totals of a boundary
    /// body or of a tail cannot be told.
    pub fn generation_path_receipt(&self) -> (r: Option<Record>)
        requires
            self.wf(),
        ensures
            r is None == {
                ||| self.lane is TailHead && self.tail_totals_fault() is Some
                ||| self.lane is BoundaryBody && self.body_totals_fault() is Some
            },
            r is Some && self.lane is TailHead ==> exists|
                stats: Qwen35MetalW8MlpStack3BoundaryTailHeadV1Stats,
                totals: Qwen35MetalW8MlpStack3BoundaryTailHeadV1AggregateLedger,
            | #[trigger]
                self.tells_tail_path(stats, totals, r),
            r is Some && self.lane is BoundaryBody ==> exists|
                stats: Qwen35MetalW8MlpStack3BoundaryBodyV1Stats,
                totals: Qwen35MetalW8MlpStack3BoundaryBodyV1AggregateLedger,
            | #[trigger]
                self.tells_body_path(stats, totals, r),
            self.lane is Stacks ==> exists|stats: Qwen35MetalW8LinearLayerStacksV1Stats| #[trigger]
                self.tells_stacks_path(stats, r),
            self.lane is AllLinear ==> exists|stats: Qwen35MetalW8AllLinearLayersPrecisionV2Stats|
                #[trigger]
                self.tells_all_linear_path(stats, r),
            self.lane is Cpu || self.lane is Gdn || self.lane is LinearLayer
                || self.lane is PackedReference ==> exists|blocks: Vec<Qwen35MetalW8MlpBlockStats>|
                #[trigger]
                self.tells_plain_path(blocks, r),
    {
        if let Some(stats) = self.metal_w8_mlp_stack3_boundary_tail_head_v1_stats() {
            let totals = match self.metal_w8_mlp_stack3_boundary_tail_head_v1_aggregate_ledger() {
                Some(totals) => totals,
                None => return None,
            };
            let receipt = Some(tail_receipt(&stats, &totals));
            proof {
                assert(self.tells_tail_path(stats, totals, receipt));
            }
            return receipt;
        }
        if let Some(stats) = self.metal_w8_mlp_stack3_boundary_body_v1_stats() {
            let totals = match self.metal_w8_mlp_stack3_boundary_body_v1_aggregate_ledger() {
                Some(totals) => totals,
                None => return None,
            };
            let receipt = Some(body_receipt(&stats, &totals));
            proof {
                assert(self.tells_body_path(stats, totals, receipt));
            }
            return receipt;
        }
        if let Some(stats) = self.metal_w8_linear_layer_stacks_v1_stats() {
            let receipt = Some(
                match (self.stack3_head_terminal, self.metal_w8_lm_head_stats()) {
                    (Some(terminal), Some(head)) => stack3_head_receipt(&stats, head, terminal),
                    _ => stacks_receipt(&stats, self.head.is_some()),
                },
            );
            proof {
                assert(self.tells_stacks_path(stats, receipt));
            }
            return receipt;
        }
        if let Some(stats) = self.metal_w8_all_linear_layers_precision_v2_stats() {
            let receipt = Some(all_linear_receipt(&stats, self.head.is_some()));
            proof {
                assert(self.tells_all_linear_path(stats, receipt));
            }
            return receipt;
        }
        let blocks = self.metal_w8_mlp_block_layer_stats();
        let receipt = Some(plain_receipt(
            self.mlp_blocks.is_some(),
            &blocks,
            self.metal_w8_lm_head_stats(),
        ));
        proof {
            assert(self.tells_plain_path(blocks, receipt));
        }
        receipt
    }
}

} // verus!
