//! What is answered: which error a refused input gives, and what an answer of the
//! accelerator changes.

use vstd::prelude::*;

use crate::error::{Error, Fault};
use crate::qwen35::config::{Qwen35LayerType, Qwen35TextConfig};
use crate::qwen35::forward::Work;
use crate::qwen35::lane::{Lane, Owner, SeedStep};
use crate::qwen35::layer_laws::the_full_layers_are_listed;
use crate::qwen35::linear_lane::DecodeReport;
use crate::qwen35::loader::tensors_are_valid;
use crate::qwen35::metal::{
    LinearLayerStack3MetalStats, MlpStack3BoundaryMetalStatsV1, TailMlpHeadMetalStatsV1,
};
use crate::qwen35::mlp_lane::{
    present, Qwen35MetalW8Body, Qwen35MetalW8BodyLayer, Qwen35MetalW8MlpBlockLayer,
    Qwen35MetalW8MlpBlocks,
};
use crate::qwen35::model::{every_block, full_blocks, GeneralQwen35};
use crate::qwen35::multimodal::{cells, is_mrope_error, walk, MropeFault};
use crate::qwen35::post_laws::present_entries_keep_their_order;
use crate::qwen35::rope::Qwen35TextRopeTable;
use crate::qwen35::stack_lane::Stack3Counters;
use crate::qwen35::tail_lane::Qwen35MetalW8MlpStack3BoundaryTailHeadV1Stats;
use crate::qwen35::weights::{
    configured_specs, is_checkpoint_error, is_dtype_error, metadata_of, named_dtype, text_specs,
    validated, Qwen35WeightMetadata, Qwen35WeightValidation, WeightSpecView,
};
use crate::tensor::{DType, Tensor};

verus! {

/// A refused checkpoint is refused for a reason that is there: a tensor that is
/// asked for is missing, has another shape or another element type, or a tensor is
/// there that belongs to no part of the model.
pub proof fn a_checkpoint_is_refused_for_a_reason(
    specs: Seq<WeightSpecView>,
    metadata: Map<Seq<char>, Qwen35WeightMetadata>,
    exact: bool,
    e: Error,
)
    requires
        is_checkpoint_error(specs, metadata, exact, e),
    ensures
        match e {
            Error::CheckpointMissing { name } => {
                &&& !metadata.contains_key(name@)
                &&& exists|i: int| 0 <= i < specs.len() && (#[trigger] specs[i]).name == name@
            },
            Error::CheckpointShape { name, expected, got } => {
                &&& metadata.contains_key(name@)
                &&& got@ == metadata[name@].shape@
                &&& got@ != expected@
                &&& exists|i: int|
                    0 <= i < specs.len() && (#[trigger] specs[i]).name == name@ && specs[i].shape
                        == expected@
            },
            Error::CheckpointDtype { name, dtype } => {
                &&& metadata.contains_key(name@)
                &&& metadata[name@].dtype == DType::I8
                &&& dtype == "i8"
            },
            Error::CheckpointExactDtype { name, expected, got } => {
                &&& exact
                &&& metadata.contains_key(name@)
                &&& got == metadata[name@].dtype.name()
                &&& exists|i: int|
                    0 <= i < specs.len() && (#[trigger] specs[i]).name == name@
                        && specs[i].dtype != metadata[name@].dtype && expected
                        == specs[i].dtype.name()
            },
            Error::CheckpointUnexpected { name } => {
                &&& metadata.contains_key(name@)
                &&& forall|i: int| 0 <= i < specs.len() ==> (#[trigger] specs[i]).name != name@
                &&& !"model.visual."@.is_prefix_of(name@)
                &&& !"mtp."@.is_prefix_of(name@)
            },
            _ => false,
        },
{
    if let Error::CheckpointUnexpected { name } = e {
        let names = crate::qwen35::weights::spec_names(specs);
        assert forall|i: int| 0 <= i < specs.len() implies (#[trigger] specs[i]).name != name@ by {
            assert(names[i] == specs[i].name);
        }
    }
}

/// A valid checkpoint is counted: the tensors that were asked for, and the two
/// kinds that were passed over.
pub proof fn a_valid_checkpoint_is_counted(
    specs: Seq<WeightSpecView>,
    metadata: Map<Seq<char>, Qwen35WeightMetadata>,
    exact: bool,
    counts: Qwen35WeightValidation,
)
    requires
        validated(specs, metadata, exact, Ok(counts)),
    ensures
        counts.text_tensors == specs.len(),
        counts.ignored_vision_tensors == metadata.dom().filter(
            |name: Seq<char>| "model.visual."@.is_prefix_of(name),
        ).len(),
        counts.ignored_mtp_tensors == metadata.dom().filter(
            |name: Seq<char>| "mtp."@.is_prefix_of(name),
        ).len(),
{
    assert((|name: Seq<char>| crate::qwen35::weights::is_vision_name(name)) =~= (
    |name: Seq<char>| "model.visual."@.is_prefix_of(name)));
    assert((|name: Seq<char>| crate::qwen35::weights::is_mtp_name(name)) =~= (
    |name: Seq<char>| "mtp."@.is_prefix_of(name)));
}

/// The weights have the element type that the configuration names for them, and
/// the recurrent parameters the one that it names for the state; the error of an
/// unknown name tells the name.
pub proof fn element_types_are_those_of_the_configuration(
    text: Qwen35TextConfig,
    weights: DType,
    state: DType,
    e: Error,
)
    ensures
        named_dtype(text.dtype@) == Some(weights) && named_dtype(text.recurrent_state_dtype@)
            == Some(state) ==> configured_specs(text) == text_specs(text, weights, state),
        is_dtype_error(text, e) ==> (e matches Error::ConfiguredDtype { name } && (
        named_dtype(text.dtype@) is None ==> name@ == text.dtype@) && (named_dtype(
            text.dtype@,
        ) is Some ==> name@ == text.recurrent_state_dtype@)),
{
}

/// What is known of a loaded tensor is its own shape and element type.
pub proof fn a_tensor_is_described_as_it_is(
    tensors: Map<Seq<char>, Tensor>,
    metadata: Map<Seq<char>, Qwen35WeightMetadata>,
    name: Seq<char>,
)
    requires
        metadata_of(tensors, metadata),
    ensures
        metadata.contains_key(name) <==> tensors.contains_key(name),
        tensors.contains_key(name) ==> metadata[name].shape@ == tensors[name].dims()
            && metadata[name].dtype == tensors[name].element_type(),
{
    assert(metadata.dom().contains(name) == tensors.dom().contains(name));
}

/// Loaded tensors hold every tensor of the schema in its shape.
pub proof fn loaded_tensors_have_their_shapes(
    text: Qwen35TextConfig,
    tensors: Map<Seq<char>, Tensor>,
    i: int,
)
    requires
        tensors_are_valid(text, tensors),
        0 <= i < configured_specs(text).len(),
    ensures
        tensors.contains_key(configured_specs(text)[i].name),
        tensors[configured_specs(text)[i].name].dims() == configured_specs(text)[i].shape,
        tensors[configured_specs(text)[i].name].element_type() != DType::I8,
{
}

/// Positions are refused for a reason that is there: a modality that is neither
/// text nor image, an image without a grid, a grid without cells or with sides that
/// cannot be merged, or an image with another number of tokens than cells.
pub proof fn positions_are_refused_for_a_reason(
    types: Seq<u8>,
    grids: Seq<[u32; 3]>,
    merge: u32,
    start: int,
    image: int,
    current: int,
    fault: MropeFault,
)
    requires
        merge > 0,
        0 <= start <= types.len(),
        0 <= image,
        walk(types, grids, merge as int, start, image, current) == Err::<
            crate::qwen35::multimodal::MropeWalk,
            MropeFault,
        >(fault),
    ensures
        match fault {
            MropeFault::Modality { modality } => modality > 1 && exists|i: int|
                start <= i < types.len() && #[trigger] types[i] == modality,
            MropeFault::MissingGrid => exists|i: int|
                start <= i < types.len() && #[trigger] types[i] == 1,
            MropeFault::InvalidGrid { image: at } => {
                &&& image <= at < grids.len()
                &&& {
                    ||| grids[at][0] == 0
                    ||| grids[at][1] as int / merge as int == 0
                    ||| grids[at][2] as int / merge as int == 0
                    ||| grids[at][1] as int % merge as int != 0
                    ||| grids[at][2] as int % merge as int != 0
                }
            },
            MropeFault::GroupLength { tokens, image: at } => {
                &&& image <= at < grids.len()
                &&& tokens != grids[at][0] * (grids[at][1] as int / merge as int) * (
                grids[at][2] as int / merge as int)
            },
        },
    decreases types.len() - start,
{
    let end = crate::qwen35::multimodal::run_end(types, start);
    if 0 <= start < end <= types.len() {
        assert(types[start] == types[start]);
        let m = merge as int;
        if types[start] == 0 {
            positions_are_refused_for_a_reason(
                types,
                grids,
                merge,
                end,
                image,
                current + (end - start),
                fault,
            );
        } else if types[start] == 1 && image < grids.len()
            && crate::qwen35::multimodal::is_valid_grid(grids[image], m) && end - start == cells(
            grids[image],
            m,
        ) {
            let (_, height, width) = crate::qwen35::multimodal::merged(grids[image], m);
            let side = if height < width {
                width
            } else {
                height
            };
            positions_are_refused_for_a_reason(
                types,
                grids,
                merge,
                end,
                image + 1,
                current + side,
                fault,
            );
        }
    }
}

/// The error of refused positions names the grid with its sides in their order.
pub proof fn refused_positions_name_their_grid(
    grids: Seq<[u32; 3]>,
    merge: u32,
    image: int,
    tokens: int,
    e: Error,
)
    ensures
        is_mrope_error(MropeFault::InvalidGrid { image }, grids, merge, e) ==> e == (
        Error::MropeInvalidGrid {
            temporal: grids[image][0],
            height: grids[image][1],
            width: grids[image][2],
            merge,
        }),
        is_mrope_error(MropeFault::GroupLength { tokens, image }, grids, merge, e) ==> (
        e matches Error::MropeGroupLength { tokens: t, expected, temporal, height, width } && t
            == tokens as usize && temporal == grids[image][0] && height == grids[image][1]
            && width == grids[image][2] && expected == (grids[image][0] * (grids[image][1] as int
            / merge as int) * (grids[image][2] as int / merge as int)) as usize),
        is_mrope_error(MropeFault::MissingGrid, grids, merge, e) ==> e == Error::MropeMissingGrid,
{
}

/// The head takes one row of the width of the model, and logits are one row of the
/// width of the vocabulary.
pub proof fn rows_behind_the_body_have_their_widths(
    model: GeneralQwen35,
    normalized: Result<Tensor, String>,
    logits: Result<Tensor, String>,
)
    ensures
        model.head_input_fault(normalized) is None <==> (normalized matches Ok(row) && row.dims()
            == seq![1usize, model.config.text.hidden_size] && row.element_type() == DType::F32),
        model.logits_fault(logits) is None <==> (logits matches Ok(row) && row.dims() == seq![
            1usize,
            model.config.text.vocab_size,
        ] && row.element_type() == DType::F32),
        model.teacher_input_fault(normalized, logits) is None <==> (model.logits_fault(
            logits,
        ) is None && (normalized matches Ok(row) && row.element_type() == DType::F32)),
{
}

/// A step behind the body ends with its fault or not at all: a fault is an error,
/// leaves the stream and makes the tail terminal; without one the step succeeds.
pub proof fn a_step_behind_the_body_ends_with_its_fault<T>(
    model: GeneralQwen35,
    fault: Fault,
    stage: &'static str,
    after: GeneralQwen35,
    r: Result<T, Error>,
)
    ensures
        model.tail_ends(fault, stage, after, r) ==> {
            &&& r is Ok <==> fault is None
            &&& fault is Some ==> after.state == model.state && (model.lane is TailHead
                ==> after.lane is TailHead && after.lane->TailHead_0.terminal_error)
        },
        model.ends(fault, stage, after, r) ==> {
            &&& r is Ok <==> fault is None
            &&& fault is Some ==> after.state == model.state && (
            model.stack3_head_terminal is Some ==> after.stack3_head_terminal == Some(true))
        },
{
}

/// A run of the tail replaces its counters and nothing else.
pub proof fn a_tail_run_replaces_its_counters(model: GeneralQwen35, stats: TailMlpHeadMetalStatsV1)
    requires
        model.lane is TailHead,
    ensures
        ({
            let after = model.with_tail_stats(stats);
            &&& after.lane is TailHead
            &&& after.lane->TailHead_0.tail == stats
            &&& after.lane->TailHead_0.schedule == model.lane->TailHead_0.schedule
            &&& after.lane->TailHead_0.decode_calls == model.lane->TailHead_0.decode_calls
            &&& after.lane->TailHead_0.terminal_error == model.lane->TailHead_0.terminal_error
            &&& after.state == model.state
            &&& after.config == model.config
        }),
{
}

/// A run of a stack is kept in that stack, with the counters of the accelerator;
/// the other stacks stay as they are.
pub proof fn a_run_is_kept_in_its_stack(
    model: GeneralQwen35,
    stack: usize,
    report: DecodeReport<Stack3Counters<LinearLayerStack3MetalStats>>,
    lane: Lane,
)
    requires
        model.lane is Stacks,
        stack < model.lane->Stacks_0.stacks@.len(),
        model.runs_stack(Owner::Stack(stack), report, lane),
    ensures
        lane is Stacks,
        lane->Stacks_0.stacks@[stack as int].counters == report.stats,
        lane->Stacks_0.stacks@[stack as int].custody.seeded
            == model.lane->Stacks_0.stacks@[stack as int].custody.seeded,
        report.output is Err ==> lane->Stacks_0.stacks@[stack as int].custody.terminal_error,
        forall|other: int|
            0 <= other < model.lane->Stacks_0.stacks@.len() && other != stack
                ==> #[trigger] lane->Stacks_0.stacks@[other]
                == model.lane->Stacks_0.stacks@[other],
{
}

/// A run of a boundary is kept in that boundary; the other transactions stay as
/// they are.
pub proof fn a_run_is_kept_in_its_boundary(
    model: GeneralQwen35,
    boundary: usize,
    report: DecodeReport<Stack3Counters<MlpStack3BoundaryMetalStatsV1>>,
    lane: Lane,
)
    requires
        model.lane is BoundaryBody || model.lane is TailHead,
        boundary < model.lane.schedule_of().boundaries@.len(),
        model.runs_boundary(boundary, report, lane),
    ensures
        lane.schedule_of().boundaries@[boundary as int].counters == report.stats,
        report.output is Err ==> lane.schedule_of().boundaries@[
            boundary as int
        ].custody.terminal_error,
        lane.schedule_of().initial_stack == model.lane.schedule_of().initial_stack,
        forall|other: int|
            0 <= other < model.lane.schedule_of().boundaries@.len() && other != boundary
                ==> #[trigger] lane.schedule_of().boundaries@[other]
                == model.lane.schedule_of().boundaries@[other],
{
}

/// States that were handed over make ready the stack or the boundary that they
/// were pending in, and no other.
pub proof fn states_are_handed_to_their_transaction(
    model: GeneralQwen35,
    stack: usize,
    boundary: usize,
    outcome: Result<(), String>,
    stack_counters: Stack3Counters<LinearLayerStack3MetalStats>,
    boundary_counters: Stack3Counters<MlpStack3BoundaryMetalStatsV1>,
    lane: Lane,
)
    ensures
        model.lane is Stacks && stack < model.lane->Stacks_0.stacks@.len() && model.hands_over(
            Owner::Stack(stack),
            outcome,
            stack_counters,
            lane,
        ) ==> {
            &&& lane is Stacks
            &&& outcome is Ok ==> lane->Stacks_0.stacks@[stack as int].custody.seeded
            &&& outcome is Err ==> lane->Stacks_0.stacks@[stack as int].custody.terminal_error
            &&& lane->Stacks_0.stacks@[stack as int].counters == stack_counters
            &&& forall|other: int|
                0 <= other < model.lane->Stacks_0.stacks@.len() && other != stack
                    ==> #[trigger] lane->Stacks_0.stacks@[other]
                    == model.lane->Stacks_0.stacks@[other]
        },
        (model.lane is BoundaryBody || model.lane is TailHead) && model.hands_over(
            Owner::InitialStack,
            outcome,
            stack_counters,
            lane,
        ) ==> {
            &&& outcome is Ok ==> lane.schedule_of().initial_stack.custody.seeded
            &&& outcome is Err ==> lane.schedule_of().initial_stack.custody.terminal_error
            &&& lane.schedule_of().initial_stack.counters == stack_counters
            &&& lane.schedule_of().boundaries == model.lane.schedule_of().boundaries
        },
        (model.lane is BoundaryBody || model.lane is TailHead) && boundary
            < model.lane.schedule_of().boundaries@.len() && model.hands_over_boundary(
            boundary,
            outcome,
            boundary_counters,
            lane,
        ) ==> {
            let region = lane.schedule_of().boundaries@[boundary as int];
            &&& outcome is Ok ==> region.custody.seeded
            &&& outcome is Err ==> region.custody.terminal_error
            &&& region.counters == boundary_counters
            &&& lane.schedule_of().initial_stack == model.lane.schedule_of().initial_stack
        },
{
}

/// A block that ran is put back at its layer, and the other blocks stay.
pub proof fn a_block_is_put_back_in_its_place(
    model: GeneralQwen35,
    layer_index: usize,
    block: Qwen35MetalW8MlpBlockLayer,
    layer: Qwen35MetalW8BodyLayer,
    after: GeneralQwen35,
)
    ensures
        model.mlp_blocks is Some && layer_index < model.mlp_blocks->Some_0.layers@.len()
            && model.puts_block(layer_index, block, after) ==> {
            &&& after.block_of(layer_index) == Some(block)
            &&& after.body == model.body
            &&& after.lane == model.lane
            &&& after.state == model.state
            &&& forall|i: int|
                0 <= i < model.mlp_blocks->Some_0.layers@.len() && i != layer_index
                    ==> #[trigger] after.mlp_blocks->Some_0.layers@[i]
                    == model.mlp_blocks->Some_0.layers@[i]
        },
        model.body is Some && layer_index < model.body->Some_0.layers@.len() && model.puts_gate_up(
            layer_index,
            layer,
            after,
        ) ==> {
            &&& after.gate_up_of(layer_index) == Some(layer)
            &&& after.mlp_blocks == model.mlp_blocks
            &&& after.lane == model.lane
            &&& after.state == model.state
            &&& forall|i: int|
                0 <= i < model.body->Some_0.layers@.len() && i != layer_index
                    ==> #[trigger] after.body->Some_0.layers@[i] == model.body->Some_0.layers@[i]
        },
{
}

/// A prepared state goes where the lane wants it: to the block of the layer, to
/// the stack or transaction that is complete with it, or nowhere more.
pub proof fn a_prepared_state_goes_where_it_is_wanted(
    step: SeedStep,
    hidden: Tensor,
    attention: Tensor,
)
    ensures
        match GeneralQwen35::seed_work(step, hidden, attention) {
            Work::Residual { .. } => step is Kept,
            Work::SeedBlock { state, .. } => step == (SeedStep::Block { state }),
            Work::SeedStack { stack, .. } => step == (SeedStep::Stack { stack }),
            Work::SeedScheduled { transaction, .. } => step == (SeedStep::Scheduled {
                transaction,
            }),
            _ => false,
        },
{
}

/// A tensor is rotated where it has a row of heads for each token of the table.
pub proof fn a_tensor_is_rotated_head_by_head(
    table: Qwen35TextRopeTable,
    tensor: Tensor,
    heads: usize,
)
    ensures
        table.input_fault(tensor, heads) is None <==> {
            &&& tensor.dims() == seq![table.sequence_length, heads, table.head_dim]
            &&& tensor.element_type() == DType::F32
        },
{
}

/// The feed-forward blocks beside a lane are those of the full-attention layers, or
/// those of all layers.
pub proof fn blocks_are_asked_for_at_their_layers<A>(
    text: Qwen35TextConfig,
    answers: Seq<A>,
    every: Option<Vec<A>>,
    layer: usize,
)
    requires
        text.layer_types@.len() <= usize::MAX,
    ensures
        full_blocks(text, answers) matches Some((layers, given)) ==> {
            &&& given == answers
            &&& layers.contains(layer) <==> (layer < text.layer_types@.len()
                && text.layer_types@[layer as int] == Qwen35LayerType::FullAttention)
        },
        every_block(text, every) matches Some((layers, given)) ==> {
            &&& every matches Some(all) && given == all@
            &&& layers.contains(layer) <==> layer < text.n_layers
        },
        every is None ==> every_block(text, every) is None,
{
    the_full_layers_are_listed(text.layer_types@, layer);
    let all = crate::qwen35::layers::all_layers(text.n_layers as nat);
    if layer < text.n_layers {
        assert(all[layer as int] == layer);
    }
}

/// The blocks and projections of a model tell their counters in the order of the
/// layers.
pub proof fn blocks_are_told_in_order(
    blocks: Qwen35MetalW8MlpBlocks,
    body: Qwen35MetalW8Body,
    i: int,
)
    ensures
        0 <= i < blocks.layers@.len() && blocks.layers@[i] is Some ==> {
            let place = present(blocks.layers@.take(i)).len() as int;
            let block = blocks.layers@[i]->Some_0;
            &&& place < blocks.stats_of().len()
            &&& blocks.stats_of()[place].layer_index == block.layer_index
            &&& blocks.stats_of()[place].decode_calls == block.decode_calls
            &&& blocks.stats_of()[place].block_elapsed_ns == block.block_elapsed_ns
            &&& blocks.ledgers_of()[place].layer_index == block.layer_index
            &&& blocks.ledgers_of()[place].ledger == block.ledger
        },
        0 <= i < body.layers@.len() && body.layers@[i] is Some ==> {
            let place = present(body.layers@.take(i)).len() as int;
            let layer = body.layers@[i]->Some_0;
            &&& place < body.stats_of().len()
            &&& body.stats_of()[place].layer_index == layer.layer_index
            &&& body.stats_of()[place].decode_calls == layer.decode_calls
            &&& body.stats_of()[place].projection_elapsed_ns == layer.projection_elapsed_ns
        },
{
    if 0 <= i < blocks.layers@.len() && blocks.layers@[i] is Some {
        present_entries_keep_their_order(blocks.layers@, i);
    }
    if 0 <= i < body.layers@.len() && body.layers@[i] is Some {
        present_entries_keep_their_order(body.layers@, i);
    }
}

/// The lane with the tail tells its own counters.
pub proof fn the_tail_lane_tells_its_counters(
    model: GeneralQwen35,
    stats: Qwen35MetalW8MlpStack3BoundaryTailHeadV1Stats,
    b: int,
)
    requires
        model.has_tail_stats(stats),
    ensures
        model.lane is TailHead,
        ({
            let lane = model.lane->TailHead_0;
            &&& stats.prefill_body_calls == lane.prefill_body_calls
            &&& stats.prefill_cpu_head_calls == lane.prefill_cpu_head_calls
            &&& stats.decode_calls == lane.decode_calls
            &&& stats.teacher_calls == lane.teacher_calls
            &&& stats.rerank_elapsed_ns == lane.rerank_elapsed_ns
            &&& stats.tail == lane.tail
            &&& stats.tail_layer_index == lane.tail_layer_index
            &&& stats.gdn_core_profile == lane.gdn_core_profile
            &&& stats.initial_stack.execution == lane.schedule.initial_stack.counters.execution
            &&& stats.boundaries@.len() == lane.schedule.boundaries@.len()
            &&& 0 <= b < lane.schedule.boundaries@.len() ==> {
                &&& stats.boundaries@[b].execution
                    == lane.schedule.boundaries@[b].counters.execution
                &&& stats.boundaries@[b].terminal_error
                    == lane.schedule.boundaries@[b].custody.terminal_error
            }
            &&& lane.terminal_error || lane.tail.terminal_error
                || lane.schedule.initial_stack.custody.terminal_error ==> stats.terminal_error
            &&& 0 <= b < lane.schedule.boundaries@.len()
                && lane.schedule.boundaries@[b].custody.terminal_error ==> stats.terminal_error
        }),
{
}

} // verus!
