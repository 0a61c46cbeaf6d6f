//! Where a forward begins, who runs its layers, what a failed one leaves, and
//! which weights the accelerator takes.

use vstd::prelude::*;

use crate::error::Error;
use crate::qwen35::config::{Qwen35LayerType, Qwen35TextConfig};
use crate::qwen35::forward::{ForwardRun, Frame, Work};
use crate::qwen35::lane::{Lane, Owner};
use crate::qwen35::linear_lane::{Qwen35MetalW8GdnLayer, Qwen35MetalW8LinearLayer};
use crate::qwen35::loader::{Qwen35LayerWeights, Qwen35MlpWeights, Qwen35TextWeights};
use crate::qwen35::metal::{GdnMetalStats, LinearLayerMetalStats};
use crate::qwen35::model::GeneralQwen35;
use crate::qwen35::stack_lane::Stack3Custody;
use crate::qwen35::w8_pack::{
    gate_up_fault, gdn_fault, is_gate_up, linear_layer_fault, mlp_block_fault, NormF32Weights,
};
use crate::tensor::{DType, Device, Tensor};

verus! {

/// A forward begins with the embedding of its tokens, in front of the first layer,
/// and with rotations for the very positions of the tokens.
pub proof fn a_forward_begins_in_front_of_the_layers(
    model: GeneralQwen35,
    tokens: Seq<u32>,
    start_pos: u32,
    run: ForwardRun,
)
    requires
        model.begins(tokens, start_pos, run),
    ensures
        run.work is Embed,
        run.layer_index == 0,
        run.frame.start_pos == start_pos,
        run.frame.start_pos == model.state.position,
        run.frame.sequence_length == tokens.len(),
        run.frame.rope.start_pos == start_pos,
        run.frame.rope.sequence_length == tokens.len(),
        run.frame.rope.head_dim == model.config.text.head_dim,
        run.frame.rope.rotary_dim == model.config.text.rotary_dim,
        run.frame.rope.table_len == tokens.len() * (model.config.text.rotary_dim / 2),
        model.lane matches Lane::LinearLayer(layer) ==> run.frame.versions_before.0 == Some(
            layer.execution.committed_state_version,
        ),
        model.lane matches Lane::PackedReference(layer) ==> run.frame.versions_before.1 == Some(
            layer.committed_state_version,
        ),
{
}

/// A prefill runs every layer on the CPU, whatever the lane.
pub proof fn a_prefill_runs_on_the_cpu(
    model: GeneralQwen35,
    frame: Frame,
    layer_index: usize,
    hidden: Tensor,
    after: GeneralQwen35,
    r: Result<ForwardRun, Error>,
)
    requires
        model.enters(frame, layer_index, hidden, after, r),
        frame.start_pos == 0,
        layer_index < model.config.text.n_layers,
    ensures
        r == Ok::<ForwardRun, Error>(
            ForwardRun { frame, layer_index, work: Work::InputNorm { hidden } },
        ),
        after == model,
{
}

/// A decode of one token runs a layer where its lane has it: on the layer itself,
/// on the reference, on the stack that starts with the layer, or behind the
/// attention of the CPU on the schedule.
pub proof fn a_decode_runs_where_the_lane_has_the_layer(
    model: GeneralQwen35,
    frame: Frame,
    layer_index: usize,
    hidden: Tensor,
    after: GeneralQwen35,
    next: ForwardRun,
)
    requires
        model.wf(),
        model.enters(frame, layer_index, hidden, after, Ok(next)),
        frame.start_pos > 0,
        hidden.dims() == seq![1usize, model.config.text.hidden_size],
        layer_index < model.config.text.n_layers,
    ensures
        next.layer_index == layer_index,
        next.frame == frame,
        match model.lane {
            Lane::Cpu => next.work is InputNorm,
            Lane::Gdn(_) => next.work is InputNorm,
            Lane::LinearLayer(layer) => (next.work is LinearLayer) == (layer.layer_index
                == layer_index) && (next.work is LinearLayer || next.work is InputNorm),
            Lane::PackedReference(layer) => (next.work is Reference) == (layer.layer_index
                == layer_index) && (next.work is Reference || next.work is InputNorm),
            Lane::AllLinear(_) => (next.work is LinearLayer)
                == (model.config.text.layer_types@[layer_index as int]
                == Qwen35LayerType::LinearAttention) && (next.work is LinearLayer
                || next.work is InputNorm),
            Lane::Stacks(lane) => match next.work {
                Work::Stack { stack, .. } => stack < lane.stacks@.len()
                    && lane.stacks@[stack as int].layer_indices@[0] == layer_index,
                Work::InputNorm { .. } => true,
                _ => false,
            },
            _ => match next.work {
                Work::InitialStack { .. } => layer_index == 0,
                Work::FullResidual { .. } => layer_index % 4 == 3,
                _ => false,
            },
        },
{
    match model.lane {
        Lane::Stacks(lane) => {
            if let Owner::Stack(stack) = model.lane.owner_of(layer_index) {
                assert(lane.layer_to_stack@[layer_index as int] == Some((stack, 0usize)));
            }
        },
        _ => {},
    }
}

/// Behind a prefix, several tokens at once are refused for a layer whose state the
/// lane has taken, and for no other.
pub proof fn a_taken_state_takes_one_token_at_a_time(lane: Lane, layer_index: usize)
    ensures
        lane.owns_error(layer_index) is Some <==> match lane {
            Lane::LinearLayer(layer) => layer.layer_index == layer_index && (layer.seeded
                || layer.terminal_error),
            Lane::PackedReference(layer) => layer.layer_index == layer_index && (
            layer.state is Some || layer.terminal_error),
            Lane::AllLinear(all) => layer_index < all.layers@.len() && (
            all.layers@[layer_index as int] matches Some(layer) && (layer.seeded
                || layer.terminal_error)),
            _ => false,
        },
{
}

/// A forward that fails leaves the stream where it stood, with its weights and
/// states, and is an error; where the lane had moved on, the lane is terminal.
pub proof fn a_failed_forward_does_not_move_the_stream(
    model: GeneralQwen35,
    frame: Frame,
    text: Seq<char>,
    after: GeneralQwen35,
    r: Result<ForwardRun, Error>,
)
    requires
        model.fails(frame, text, after, r),
    ensures
        r is Err,
        after.state == model.state,
        after.config == model.config,
        after.weights == model.weights,
        after.head == model.head,
        after.body == model.body,
        after.mlp_blocks == model.mlp_blocks,
        model.stack3_head_terminal is Some ==> after.stack3_head_terminal == Some(true),
        model.lane is AllLinear || model.lane is Stacks || model.lane is BoundaryBody
            || model.lane is TailHead ==> after.lane.terminal_error() is Some,
        model.lane is Cpu || model.lane is Gdn ==> after.lane == model.lane && r->Err_0.text()
            == text,
{
}

/// The answer of a complete linear layer is kept at that layer, and the other
/// layers stay as they are.
pub proof fn a_layer_is_put_back_in_its_place(
    lane: Lane,
    layer_index: usize,
    layer: Qwen35MetalW8LinearLayer,
    after: Lane,
)
    requires
        lane.has_linear(layer_index),
        lane.puts_linear(layer_index, layer, after),
    ensures
        after.has_linear(layer_index),
        after.linear_of(layer_index) == layer,
        lane matches Lane::AllLinear(all) ==> (after matches Lane::AllLinear(put) && {
            &&& put.layers@.len() == all.layers@.len()
            &&& forall|i: int|
                0 <= i < all.layers@.len() && i != layer_index ==> #[trigger] put.layers@[i]
                    == all.layers@[i]
            &&& put.terminal_error == all.terminal_error
        }),
{
}

/// A state that the accelerator took makes a layer ready and clears its error; one
/// that it refused leaves the layer as it was.
pub proof fn a_seeded_layer_is_ready(
    layer: Qwen35MetalW8LinearLayer,
    outcome: Result<(), String>,
    execution: LinearLayerMetalStats,
)
    requires
        layer.prefill_seed_calls < usize::MAX,
    ensures
        ({
            let after = layer.after_seed(outcome, execution);
            &&& after.execution == execution
            &&& after.layer_index == layer.layer_index
            &&& outcome is Ok ==> {
                &&& after.seeded
                &&& !after.terminal_error
                &&& after.prefill_seed_calls == layer.prefill_seed_calls + 1
                &&& after.block_elapsed_ns == 0
            }
            &&& outcome is Err ==> {
                &&& after.seeded == layer.seeded
                &&& after.terminal_error == layer.terminal_error
                &&& after.prefill_seed_calls == layer.prefill_seed_calls
            }
        }),
{
}

/// The recurrent block counts a state that it took, and the time of the rows it
/// gave.
pub proof fn a_recurrent_block_counts_its_seeds(
    layer: Qwen35MetalW8GdnLayer,
    outcome: Result<(), String>,
    execution: GdnMetalStats,
)
    requires
        layer.prefill_seed_calls < usize::MAX,
    ensures
        ({
            let after = layer.after_seed(outcome, execution);
            &&& after.execution == execution
            &&& after.layer_index == layer.layer_index
            &&& after.prefill_seed_calls == layer.prefill_seed_calls + if outcome is Ok {
                1int
            } else {
                0
            }
        }),
{
}

/// Three states that the accelerator took make a transaction ready and are no
/// longer pending; three that it refused make it terminal.
pub proof fn a_transaction_is_ready_with_its_states(
    custody: Stack3Custody,
    outcome: Result<(), String>,
    after: Stack3Custody,
)
    requires
        custody.completes(outcome, after),
    ensures
        after.owner == custody.owner,
        after.hidden_size == custody.hidden_size,
        outcome is Ok ==> {
            &&& after.seeded
            &&& after.pending@[0] is None && after.pending@[1] is None && after.pending@[2] is None
            &&& after.terminal_error == custody.terminal_error
        },
        outcome is Err ==> {
            &&& after.terminal_error
            &&& after.seeded == custody.seeded
            &&& after.pending == custody.pending
        },
{
}

/// A lane that was not used holds no state, counted nothing and met no error.
pub proof fn an_unused_lane_holds_nothing(lane: Lane, i: int, place: int)
    requires
        lane.is_unused(),
        0 <= place < 3,
    ensures
        lane matches Lane::LinearLayer(layer) ==> {
            &&& !layer.seeded
            &&& !layer.terminal_error
            &&& layer.prefill_seed_calls == 0
            &&& layer.block_elapsed_ns == 0
        },
        lane matches Lane::Gdn(layer) ==> {
            &&& layer.prefill_seed_calls == 0
            &&& layer.block_elapsed_ns == 0
        },
        lane matches Lane::PackedReference(layer) ==> {
            &&& layer.state is None
            &&& !layer.terminal_error
            &&& layer.prefill_seed_calls == 0
            &&& layer.decode_calls == 0
            &&& layer.successful_decodes == 0
            &&& layer.failed_decodes == 0
            &&& layer.committed_state_version == 0
            &&& layer.block_elapsed_ns == 0
        },
        lane matches Lane::AllLinear(all) ==> {
            &&& !all.terminal_error
            &&& 0 <= i < all.layers@.len() && all.layers@[i] is Some ==> {
                &&& !all.layers@[i]->Some_0.seeded
                &&& !all.layers@[i]->Some_0.terminal_error
                &&& all.layers@[i]->Some_0.prefill_seed_calls == 0
                &&& all.layers@[i]->Some_0.block_elapsed_ns == 0
            }
        },
        lane matches Lane::Stacks(stacks) ==> {
            &&& !stacks.terminal_error
            &&& 0 <= i < stacks.stacks@.len() ==> {
                &&& !stacks.stacks@[i].custody.seeded
                &&& !stacks.stacks@[i].custody.terminal_error
                &&& stacks.stacks@[i].custody.pending@[place] is None
                &&& stacks.stacks@[i].custody.block_elapsed_ns == 0
            }
        },
        lane is BoundaryBody || lane is TailHead ==> {
            let schedule = lane.schedule_of();
            &&& !schedule.initial_stack.custody.seeded
            &&& !schedule.initial_stack.custody.terminal_error
            &&& schedule.initial_stack.custody.pending@[place] is None
            &&& 0 <= i < schedule.boundaries@.len() ==> {
                &&& !schedule.boundaries@[i].custody.seeded
                &&& !schedule.boundaries@[i].custody.terminal_error
                &&& schedule.boundaries@[i].custody.pending@[place] is None
            }
        },
        lane matches Lane::BoundaryBody(body) ==> !body.terminal_error
            && body.final_mlp.decode_calls == 0,
        lane matches Lane::TailHead(tail) ==> {
            &&& !tail.terminal_error
            &&& tail.decode_calls == 0
            &&& tail.teacher_calls == 0
            &&& tail.prefill_body_calls == 0
            &&& tail.prefill_cpu_head_calls == 0
        },
{
}

/// The stacked projection has the rows of the first projection in front of those
/// of the second.
pub proof fn stacked_projections_keep_their_order(stacked: Seq<u32>, mlp: Qwen35MlpWeights)
    requires
        is_gate_up(stacked, mlp),
    ensures
        ({
            let first = mlp.gate_proj_weight.floats();
            let second = mlp.up_proj_weight.floats();
            &&& stacked.len() == first.len() + second.len()
            &&& stacked.subrange(0, first.len() as int) == first
            &&& stacked.subrange(first.len() as int, stacked.len() as int) == second
        }),
{
}

/// The accelerator gets the input norm as input norm and the post-attention norm
/// as post-attention norm.
pub proof fn norms_keep_their_roles(source: NormF32Weights, layer: Qwen35LayerWeights)
    requires
        source.holds(layer),
    ensures
        source.input@ == layer.input_norm_weight.floats(),
        source.post_attention@ == layer.post_attention_norm_weight.floats(),
{
}

/// A tensor can be packed where it is on the CPU and holds floats.
pub open spec fn is_packable(tensor: Tensor, dims: Seq<usize>) -> bool {
    &&& tensor.dims() == dims
    &&& tensor.place() == Device::Cpu
    &&& tensor.element_type() == DType::F32 || tensor.element_type() == DType::F16
        || tensor.element_type() == DType::BF16
}

/// The recurrent part of a layer is packed exactly where the layer is a
/// linear-attention layer whose weights have the shapes of the model.
pub proof fn a_recurrent_block_is_packed_with_the_shapes_of_the_model(
    weights: Qwen35TextWeights,
    config: Qwen35TextConfig,
    layer_index: usize,
)
    requires
        config.widths_fit(),
        layer_index < weights.layers@.len(),
        weights.layers@[layer_index as int].attention is Linear,
        config.kind(layer_index as int) == Some(Qwen35LayerType::LinearAttention),
    ensures
        gdn_fault(weights, config, layer_index) is None <==> {
            let attention = weights.layers@[layer_index as int].attention->Linear_0;
            let hidden = config.hidden_size;
            let heads = config.linear_num_value_heads;
            let keys = config.linear_num_key_heads * config.linear_key_head_dim;
            let values = (heads * config.linear_value_head_dim) as usize;
            let joined = (keys + keys + heads * config.linear_value_head_dim) as usize;
            &&& is_packable(attention.in_proj_qkv_weight, seq![joined, hidden])
            &&& is_packable(attention.in_proj_z_weight, seq![values, hidden])
            &&& is_packable(attention.in_proj_a_weight, seq![heads, hidden])
            &&& is_packable(attention.in_proj_b_weight, seq![heads, hidden])
            &&& is_packable(attention.out_proj_weight, seq![hidden, values])
            &&& is_packable(
                attention.conv1d_weight,
                seq![joined, 1usize, config.linear_conv_kernel_dim],
            )
            &&& is_packable(attention.a_log, seq![heads])
            &&& is_packable(attention.dt_bias, seq![heads])
            &&& is_packable(attention.norm_weight, seq![config.linear_value_head_dim])
            &&& (keys + keys + 2 * (heads * config.linear_value_head_dim) + 2 * heads) * hidden
                <= usize::MAX
        },
{
}

/// A layer that is not linear attention, or does not exist, is never packed as a
/// recurrent block.
pub proof fn only_linear_layers_are_packed_as_recurrent_blocks(
    weights: Qwen35TextWeights,
    config: Qwen35TextConfig,
    layer_index: usize,
)
    requires
        gdn_fault(weights, config, layer_index) is None || linear_layer_fault(
            weights,
            config,
            layer_index,
        ) is None,
    ensures
        layer_index < weights.layers@.len(),
        config.layer_types@[layer_index as int] == Qwen35LayerType::LinearAttention,
        weights.layers@[layer_index as int].attention is Linear,
{
}

/// A feed-forward block is packed exactly where its three projections have the
/// shapes of the model; for the stacked projection the first two suffice.
pub proof fn a_feed_forward_block_is_packed_with_the_shapes_of_the_model(
    weights: Qwen35TextWeights,
    config: Qwen35TextConfig,
    layer_index: usize,
)
    requires
        layer_index < weights.layers@.len(),
        config.intermediate_size * config.hidden_size * 2 <= usize::MAX,
    ensures
        ({
            let mlp = weights.layers@[layer_index as int].mlp;
            let into = seq![config.intermediate_size, config.hidden_size];
            let back = seq![config.hidden_size, config.intermediate_size];
            &&& mlp_block_fault(weights, config, layer_index) is None <==> {
                &&& is_packable(mlp.gate_proj_weight, into)
                &&& is_packable(mlp.up_proj_weight, into)
                &&& is_packable(mlp.down_proj_weight, back)
            }
            &&& gate_up_fault(weights, config, layer_index) is None <==> {
                &&& is_packable(mlp.gate_proj_weight, into)
                &&& is_packable(mlp.up_proj_weight, into)
            }
        }),
{
}

} // verus!
