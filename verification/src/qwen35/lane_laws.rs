//! Which part of the accelerator runs a layer, which state it gets, and what a
//! run that failed leaves.

use vstd::prelude::*;

use crate::qwen35::boundary_lane::Transaction;
use crate::qwen35::config::{Qwen35LayerType, Qwen35TextConfig};
use crate::qwen35::lane::{Lane, Owner, SeedStep};
use crate::qwen35::linear_lane::{
    DecodeReport, GdnDecodeState, Qwen35MetalW8LinearLayer,
    Qwen35PackedW8LinearLayerReference,
};
use crate::qwen35::loader::{Qwen35LinearAttentionWeights, Qwen35MlpWeights};
use crate::qwen35::metal::{GdnDimensions, LinearLayerMetalStats};
use crate::qwen35::model::GeneralQwen35;
use crate::qwen35::stack_lane::Stack3Custody;
use crate::qwen35::w8_pack::{dimensions_of, GdnF32Weights, MlpF32Weights};
use crate::tensor::{DType, Tensor};

verus! {

/// A lane of one layer runs that layer and no other.
pub proof fn one_layer_runs_on_its_lane(lane: Lane, layer_index: usize)
    ensures
        lane matches Lane::LinearLayer(layer) ==> (lane.owner_of(layer_index)
            == Owner::LinearLayer <==> layer_index == layer.layer_index),
        lane matches Lane::PackedReference(layer) ==> (lane.owner_of(layer_index)
            == Owner::Reference <==> layer_index == layer.layer_index),
        lane is LinearLayer || lane is PackedReference ==> {
            ||| lane.owner_of(layer_index) == Owner::Cpu
            ||| lane.takes_seed(layer_index)
        },
        lane matches Lane::Gdn(layer) ==> {
            &&& lane.owner_of(layer_index) == Owner::Cpu
            &&& lane.takes_seed(layer_index) <==> layer_index == layer.layer_index
        },
{
}

/// The lane of all linear layers runs the linear-attention layers of the model
/// and leaves the others to the CPU.
pub proof fn all_linear_layers_run_on_their_lane(
    lane: Lane,
    config: Qwen35TextConfig,
    layer_index: usize,
)
    requires
        lane is AllLinear,
        lane.fits(config),
        layer_index < config.layer_types@.len(),
    ensures
        lane.owner_of(layer_index) == if config.layer_types@[layer_index as int]
            == Qwen35LayerType::LinearAttention {
            Owner::AllLinearLayer
        } else {
            Owner::Cpu
        },
        lane.takes_seed(layer_index) <==> config.layer_types@[layer_index as int]
            == Qwen35LayerType::LinearAttention,
{
}

/// A stack runs from the first of its layers, and no layer outside the stacks is
/// taken from the CPU.
pub proof fn a_stack_runs_from_its_first_layer(
    lane: Lane,
    config: Qwen35TextConfig,
    layer_index: usize,
)
    requires
        lane is Stacks,
        lane.fits(config),
    ensures
        match lane.owner_of(layer_index) {
            Owner::Stack(stack) => {
                let layers = lane->Stacks_0.stacks@[stack as int].layer_indices@;
                &&& stack < lane->Stacks_0.stacks@.len()
                &&& layers[0] == layer_index
                &&& layers[1] == layer_index + 1
                &&& layers[2] == layer_index + 2
                &&& forall|l: int|
                    layer_index <= l < layer_index + 3 ==> #[trigger] config.layer_types@[l]
                        == Qwen35LayerType::LinearAttention
            },
            Owner::Cpu => forall|stack: int|
                0 <= stack < lane->Stacks_0.stacks@.len()
                    ==> (#[trigger] lane->Stacks_0.stacks@[stack]).layer_indices@[0] != layer_index,
            _ => false,
        },
{
    let stacks = lane->Stacks_0;
    match lane.owner_of(layer_index) {
        Owner::Stack(stack) => {
            let layers = stacks.stacks@[stack as int].layer_indices@;
            assert(stacks.layer_to_stack@[layer_index as int] is Some);
            assert forall|l: int| layer_index <= l < layer_index + 3 implies #[trigger]
                config.layer_types@[l] == Qwen35LayerType::LinearAttention by {
                assert(layers[l - layer_index] == l);
            }
        },
        _ => {
            assert forall|stack: int|
                0 <= stack < stacks.stacks@.len() implies (
            #[trigger] stacks.stacks@[stack]).layer_indices@[0] != layer_index by {
                assert(stacks.slot_of(stacks.stacks@[stack].layer_indices@[0] as int) == Some(
                    (stack as usize, 0usize),
                ));
                assert(stack as usize == stack) by {
                    assert(stacks.stacks.len() == stacks.stacks@.len());
                }
            }
        },
    }
}

/// In the schedule of twenty-four layers the initial stack runs from layer 0, the
/// five boundaries from layers 3, 7, 11, 15 and 19, and the last layer is 23; the
/// layers between are passed inside those.
pub proof fn the_schedule_runs_at_its_layers(lane: Lane, layer_index: usize)
    requires
        lane is BoundaryBody || lane is TailHead,
        layer_index < 24,
    ensures
        lane.owner_of(layer_index) == if layer_index == 0 {
            Owner::InitialStack
        } else if layer_index == 3 {
            Owner::Boundary(0)
        } else if layer_index == 7 {
            Owner::Boundary(1)
        } else if layer_index == 11 {
            Owner::Boundary(2)
        } else if layer_index == 15 {
            Owner::Boundary(3)
        } else if layer_index == 19 {
            Owner::Boundary(4)
        } else if layer_index == 23 {
            Owner::FinalLayer
        } else {
            Owner::Nobody
        },
        lane.takes_seed(layer_index) <==> layer_index % 4 != 3,
{
}

/// The state of a layer is kept in the stack of the layer, at the place of the
/// layer in it; nothing else of the lane changes, and the stack is handed over
/// with the third state.
pub proof fn a_state_waits_in_the_stack_of_its_layer(
    lane: Lane,
    config: Qwen35TextConfig,
    stack: usize,
    place: usize,
    state: GdnDecodeState,
    after: Lane,
    step: SeedStep,
)
    requires
        lane is Stacks,
        lane.fits(config),
        stack < lane->Stacks_0.stacks@.len(),
        place < 3,
        lane.seeds(
            lane->Stacks_0.stacks@[stack as int].layer_indices@[place as int],
            state,
            after,
            Ok(step),
        ),
    ensures
        ({
            let before = lane->Stacks_0.stacks@;
            let pending = before[stack as int].custody.pending@;
            &&& after is Stacks
            &&& after->Stacks_0.stacks@.len() == before.len()
            &&& pending[place as int] is None
            &&& after->Stacks_0.stacks@[stack as int].custody.pending@ == pending.update(
                place as int,
                Some(state),
            )
            &&& forall|other: int|
                0 <= other < before.len() && other != stack
                    ==> #[trigger] after->Stacks_0.stacks@[other] == before[other]
            &&& step == if forall|p: int|
                0 <= p < 3 && p != place ==> (#[trigger] pending[p]) is Some {
                SeedStep::Stack { stack }
            } else {
                SeedStep::Kept
            }
        }),
{
    let layer = lane->Stacks_0.stacks@[stack as int].layer_indices@[place as int];
    assert(lane->Stacks_0.slot_of(layer as int) == Some((stack, place)));
    let pending = lane->Stacks_0.stacks@[stack as int].custody.pending@;
    let filled = after->Stacks_0.stacks@[stack as int].custody.pending@;
    assert(filled[0] == pending.update(place as int, Some(state))[0]);
    assert(filled[1] == pending.update(place as int, Some(state))[1]);
    assert(filled[2] == pending.update(place as int, Some(state))[2]);
    if forall|p: int| 0 <= p < 3 && p != place ==> (#[trigger] pending[p]) is Some {
        assert(0 != place ==> pending[0] is Some);
        assert(1 != place ==> pending[1] is Some);
        assert(2 != place ==> pending[2] is Some);
    }
}

/// The state of a layer of the schedule is kept in the transaction that runs the
/// layer, at the place of the layer in it; the other transactions stay as they
/// are.
pub proof fn a_state_waits_in_the_transaction_of_its_layer(
    lane: Lane,
    config: Qwen35TextConfig,
    layer_index: usize,
    state: GdnDecodeState,
    after: Lane,
    step: SeedStep,
)
    requires
        lane is BoundaryBody || lane is TailHead,
        lane.fits(config),
        layer_index < 23,
        layer_index % 4 != 3,
        lane.seeds(layer_index, state, after, Ok(step)),
    ensures
        ({
            let before = lane.schedule_of();
            let schedule = after.schedule_of();
            &&& forall|place: int|
                0 <= place < 3 ==> (#[trigger] schedule.initial_stack.custody.pending@[place]) == if
                before.initial_stack.layer_indices@[place] == layer_index {
                    Some(state)
                } else {
                    before.initial_stack.custody.pending@[place]
                }
            &&& schedule.boundaries@.len() == before.boundaries@.len()
            &&& forall|b: int, place: int|
                0 <= b < 5 && 0 <= place < 3 ==> (
                #[trigger] schedule.boundaries@[b].custody.pending@[place]) == if
                before.boundaries@[b].stack_layer_indices@[place] == layer_index {
                    Some(state)
                } else {
                    before.boundaries@[b].custody.pending@[place]
                }
            &&& match step {
                SeedStep::Kept => true,
                SeedStep::Scheduled { transaction } => transaction == if layer_index < 3 {
                    Transaction::InitialStack
                } else if layer_index < 7 {
                    Transaction::Boundary(0)
                } else if layer_index < 11 {
                    Transaction::Boundary(1)
                } else if layer_index < 15 {
                    Transaction::Boundary(2)
                } else if layer_index < 19 {
                    Transaction::Boundary(3)
                } else {
                    Transaction::Boundary(4)
                },
                _ => false,
            }
        }),
{
    let before = lane.schedule_of();
    let schedule = after.schedule_of();
    let (owner, at) = lane.seeded_owner(layer_index);
    assert forall|place: int| 0 <= place < 3 implies (
    #[trigger] schedule.initial_stack.custody.pending@[place]) == if
    before.initial_stack.layer_indices@[place] == layer_index {
        Some(state)
    } else {
        before.initial_stack.custody.pending@[place]
    } by {
        assert(before.initial_stack.layer_indices@[place] == place);
    }
    assert forall|b: int, place: int| 0 <= b < 5 && 0 <= place < 3 implies (
    #[trigger] schedule.boundaries@[b].custody.pending@[place]) == if
    before.boundaries@[b].stack_layer_indices@[place] == layer_index {
        Some(state)
    } else {
        before.boundaries@[b].custody.pending@[place]
    } by {
        assert(before.boundaries@[b].boundary_mlp_layer_index == 4 * b + 3);
        assert(before.boundaries@[b].stack_layer_indices@[place] == 4 * b + 4 + place);
    }
}

/// Behind a stack the forward goes on three layers further; behind the initial
/// stack, on layer 3.
pub proof fn a_stack_is_passed_in_three_layers(model: GeneralQwen35, stack: usize)
    requires
        model.wf(),
    ensures
        model.lane is Stacks && stack < model.lane->Stacks_0.stacks@.len() ==> model.layer_behind(
            Owner::Stack(stack),
        ) == model.lane->Stacks_0.stacks@[stack as int].layer_indices@[0] + 3,
        model.lane is BoundaryBody || model.lane is TailHead ==> model.layer_behind(
            Owner::InitialStack,
        ) == 3,
        model.lane is BoundaryBody || model.lane is TailHead ==> forall|b: int|
            0 <= b < 5 ==> (#[trigger] model.lane.schedule_of().boundaries@[b]).stack_layer_indices@[2]
                + 1 == model.lane.schedule_of().boundaries@[b].boundary_mlp_layer_index + 4,
{
    if model.lane is Stacks && stack < model.lane->Stacks_0.stacks@.len() {
        let config = model.config.text;
        let layers = model.lane->Stacks_0.stacks@[stack as int].layer_indices@;
        assert(layers[2] < config.layer_types@.len());
        assert(config.layer_types.len() == config.layer_types@.len());
    }
}

/// A transaction takes a row only after it got its states, never after an error;
/// a row that it is refused for want of states makes it terminal.
pub proof fn a_transaction_runs_when_it_is_seeded(custody: Stack3Custody, hidden: Tensor)
    ensures
        custody.begin_fault(hidden) is None <==> {
            &&& !custody.terminal_error
            &&& custody.seeded
            &&& hidden.dims() == seq![1usize, custody.hidden_size]
            &&& hidden.element_type() == DType::F32
        },
        custody.after_begin(hidden).terminal_error <==> {
            ||| custody.terminal_error
            ||| !custody.seeded && hidden.dims() == seq![1usize, custody.hidden_size]
        },
        custody.after_begin(hidden).pending == custody.pending,
        custody.after_begin(hidden).seeded == custody.seeded,
        custody.after_begin(hidden).block_elapsed_ns == custody.block_elapsed_ns,
{
}

/// A run of a transaction succeeds with a whole row and is terminal with anything
/// else; it never gives a terminal transaction back, and never takes states.
pub proof fn a_transaction_that_fails_is_terminal(
    custody: Stack3Custody,
    output: Result<Vec<u32>, String>,
    elapsed_ns: u128,
)
    ensures
        custody.run_fault(output) is None <==> (output is Ok && output->Ok_0@.len()
            == custody.hidden_size),
        ({
            let after = custody.after_run(output, elapsed_ns);
            &&& after.terminal_error <==> {
                ||| custody.terminal_error
                ||| output is Err
                ||| output->Ok_0@.len() != custody.hidden_size
            }
            &&& after.seeded == custody.seeded
            &&& after.pending == custody.pending
            &&& after.owner == custody.owner
            &&& after.hidden_size == custody.hidden_size
            &&& after.prefill_seed_calls == custody.prefill_seed_calls
            &&& output is Ok && output->Ok_0@.len() == custody.hidden_size
                && custody.block_elapsed_ns + elapsed_ns <= u128::MAX ==> after.block_elapsed_ns
                == custody.block_elapsed_ns + elapsed_ns
        }),
{
}

/// A complete linear layer runs only where it was seeded and met no error, and a
/// run that fails or returns no whole row makes it terminal.
pub proof fn a_linear_layer_that_fails_is_terminal(
    layer: Qwen35MetalW8LinearLayer,
    hidden: Tensor,
    report: DecodeReport<LinearLayerMetalStats>,
)
    ensures
        layer.begin_fault(hidden) is None <==> {
            &&& !layer.terminal_error
            &&& layer.seeded
            &&& hidden.dims() == seq![1usize, layer.dimensions.hidden_size]
            &&& hidden.element_type() == DType::F32
        },
        layer.run_fault(report.output) is None <==> (report.output is Ok
            && report.output->Ok_0@.len() == layer.dimensions.hidden_size),
        layer.after_run(report).terminal_error <==> {
            ||| layer.terminal_error
            ||| report.output is Err
            ||| report.output->Ok_0@.len() != layer.dimensions.hidden_size
        },
        layer.after_run(report).execution == report.stats,
        layer.after_run(report).layer_index == layer.layer_index,
        layer.after_run(report).seeded == layer.seeded,
{
}

/// The reference commits the new state exactly with a whole row; otherwise it
/// keeps the state it had, and is terminal. Its counts add up.
pub proof fn the_reference_commits_with_a_whole_row(
    reference: Qwen35PackedW8LinearLayerReference,
    hidden: Tensor,
    output: Result<(Vec<u32>, GdnDecodeState), String>,
    elapsed_ns: u128,
)
    requires
        reference.decode_calls == reference.successful_decodes + reference.failed_decodes,
        reference.committed_state_version == reference.successful_decodes,
        reference.decode_calls < usize::MAX,
    ensures
        reference.begin_fault(hidden) is None <==> {
            &&& !reference.terminal_error
            &&& reference.state is Some
            &&& hidden.dims() == seq![1usize, reference.dimensions.hidden_size]
            &&& hidden.element_type() == DType::F32
        },
        ({
            let after = reference.after_run(output, elapsed_ns);
            let whole = output is Ok && output->Ok_0.0@.len() == reference.dimensions.hidden_size;
            &&& after.decode_calls == reference.decode_calls + 1
            &&& after.decode_calls == after.successful_decodes + after.failed_decodes
            &&& after.committed_state_version == after.successful_decodes
            &&& after.state == if whole {
                Some(output->Ok_0.1)
            } else {
                reference.state
            }
            &&& after.terminal_error == (reference.terminal_error || !whole)
            &&& after.successful_decodes == reference.successful_decodes + if whole {
                1int
            } else {
                0
            }
        }),
{
}

/// The recurrent block gets the sizes of the configuration, each under its own
/// name.
pub proof fn the_accelerator_gets_the_sizes(config: Qwen35TextConfig, sizes: GdnDimensions)
    requires
        sizes == dimensions_of(config),
    ensures
        sizes.hidden_size == config.hidden_size,
        sizes.key_heads == config.linear_num_key_heads,
        sizes.value_heads == config.linear_num_value_heads,
        sizes.key_dim == config.linear_key_head_dim,
        sizes.value_dim == config.linear_value_head_dim,
        sizes.conv_kernel_size == config.linear_conv_kernel_dim,
        sizes.rms_norm_eps_bits == config.rms_norm_eps_bits,
{
}

/// The joined input projection of the accelerator has the rows of the query, key
/// and value projection first, then those of the projections `z`, `a` and `b`;
/// each other weight stands alone.
pub proof fn the_accelerator_gets_every_projection(
    source: GdnF32Weights,
    attention: Qwen35LinearAttentionWeights,
)
    requires
        source.holds(attention),
    ensures
        ({
            let qkv = attention.in_proj_qkv_weight.floats();
            let z = attention.in_proj_z_weight.floats();
            let a = attention.in_proj_a_weight.floats();
            let b = attention.in_proj_b_weight.floats();
            let joined = source.input_projection@;
            let to_z = qkv.len() as int;
            let to_a = to_z + z.len();
            let to_b = to_a + a.len();
            &&& joined.len() == to_b + b.len()
            &&& joined.subrange(0, to_z) == qkv
            &&& joined.subrange(to_z, to_a) == z
            &&& joined.subrange(to_a, to_b) == a
            &&& joined.subrange(to_b, joined.len() as int) == b
        }),
        source.output_projection@ == attention.out_proj_weight.floats(),
        source.conv_weight@ == attention.conv1d_weight.floats(),
        source.a_log@ == attention.a_log.floats(),
        source.dt_bias@ == attention.dt_bias.floats(),
        source.norm_weight@ == attention.norm_weight.floats(),
{
}

/// The feed-forward block of the accelerator has each of the three projections in
/// its own place.
pub proof fn the_accelerator_gets_the_feed_forward(source: MlpF32Weights, mlp: Qwen35MlpWeights)
    requires
        source.holds(mlp),
    ensures
        source.gate@ == mlp.gate_proj_weight.floats(),
        source.up@ == mlp.up_proj_weight.floats(),
        source.down@ == mlp.down_proj_weight.floats(),
{
}

/// A lane of many layers that was latched answers with its error; one that was
/// not partly moved on is left as it is.
pub proof fn a_latched_lane_is_terminal(lane: Lane, versions: (Option<u64>, Option<u64>))
    ensures
        lane is AllLinear || lane is Stacks || lane is BoundaryBody || lane is TailHead
            ==> lane.latched(versions).terminal_error() is Some,
        lane matches Lane::LinearLayer(layer) ==> (lane.latched(versions).terminal_error() is Some
            <==> {
            ||| layer.terminal_error
            ||| versions.0 is Some && versions.0->Some_0 < layer.execution.committed_state_version
        }),
        lane matches Lane::PackedReference(layer) ==> (lane.latched(
            versions,
        ).terminal_error() is Some <==> {
            ||| layer.terminal_error
            ||| versions.1 is Some && versions.1->Some_0 < layer.committed_state_version
        }),
        lane is Cpu || lane is Gdn ==> lane.latched(versions) == lane,
{
}

} // verus!
