//! What holds of a model over several calls.

use vstd::prelude::*;

use crate::qwen35::boundary_lane::{
    boundary_layer, follows, BoundarySchedule, ScheduleAnswers, ScheduleResets, FINAL_LAYER,
    SCHEDULED_LAYERS,
};
use crate::qwen35::config::Qwen35TextConfig;
use crate::qwen35::forward::{tokens_fault, Frame};
use crate::qwen35::lane::{Lane, Owner};
use crate::qwen35::linear_lane::{GdnDecodeState, Qwen35MetalW8AllLinearLayersPrecisionV2};
use crate::qwen35::loader::Qwen35TextWeights;
use crate::qwen35::metal::{
    GdnCoreProfileV1, LinearLayerMetalStats, LinearLayerStack3MetalStats,
    MlpStack3BoundaryMetalStatsV1,
};
use crate::qwen35::model::{no_head_calls, GeneralQwen35};
use crate::qwen35::reset::LaneResets;
use crate::qwen35::rope::rope_fault;
use crate::qwen35::stack_lane::{Stack3Counters, Stack3Custody};
use crate::qwen35::stacks_lane::Qwen35MetalW8LinearLayerStacksV1;
use crate::qwen35::tail_lane::{
    Qwen35MetalW8MlpStack3BoundaryTailHeadV1, TailBuildFailure, TailBuilt,
};

verus! {

/// A terminal model refuses every forward, whatever the tokens, before any work
/// is done.
pub proof fn a_terminal_model_refuses_every_forward(
    model: GeneralQwen35,
    tokens: Seq<u32>,
    start_pos: u32,
    kv_position: usize,
)
    requires
        model.terminal_fault() is Some,
    ensures
        model.forward_fault(tokens, start_pos, kv_position) is Some,
{
}

/// A forward that fails after the state of a lane was partly moved on leaves the
/// model terminal, and leaves the position of the stream, the caches and the
/// recurrent states as they were at that point.
pub proof fn a_failed_forward_is_not_resumed(
    model: GeneralQwen35,
    versions_before: (Option<u64>, Option<u64>),
)
    requires
        model.wf(),
    ensures
        model.latched(versions_before).state == model.state,
        model.lane.advanced(versions_before) ==> model.latched(versions_before).terminal_fault()
            is Some,
{
    let after = model.latched(versions_before);
    if model.lane.advanced(versions_before) {
        match model.lane {
            Lane::AllLinear(lane) => {
                assert(after.lane->AllLinear_0.terminal());
            },
            Lane::Stacks(lane) => {
                assert(after.lane->Stacks_0.terminal());
            },
            Lane::BoundaryBody(body) => {
                assert(after.lane->BoundaryBody_0.terminal());
            },
            Lane::TailHead(lane) => {
                assert(after.lane->TailHead_0.terminal());
            },
            _ => {},
        }
    }
}

/// A whole forward moves the stream on by its tokens, once, and never past the
/// context.
pub proof fn a_whole_forward_moves_the_stream_once(model: GeneralQwen35, frame: Frame)
    requires
        model.wf(),
        model.state.position + frame.sequence_length <= model.state.max_context,
    ensures
        model.advanced(frame).state.position == model.state.position + frame.sequence_length,
        model.advanced(frame).state.position <= model.advanced(frame).state.max_context,
        model.advanced(frame).state.linear == model.state.linear,
{
}

/// An error behind the body makes a lane that owns the head terminal.
pub proof fn an_error_behind_the_body_is_terminal(model: GeneralQwen35)
    requires
        model.wf(),
        model.stack3_head_terminal is Some || model.lane is TailHead,
    ensures
        model.post_body_failed().terminal_fault() is Some,
        model.post_body_failed().state == model.state,
{
    let after = model.post_body_failed();
    if model.lane is TailHead {
        assert(after.lane->TailHead_0.terminal());
    }
}

/// A decode of the fixed schedule starts with the initial stack, then comes to
/// each boundary and to the final layer, and never to a layer without an owner:
/// what comes behind a transaction is again the first layer of one.
pub proof fn the_schedule_has_an_owner_at_every_step(
    lane: Lane,
    config: Qwen35TextConfig,
    layer_index: usize,
)
    requires
        lane.fits(config),
        lane is BoundaryBody || lane is TailHead,
        layer_index == 0 || layer_index % 4 == 3,
        layer_index < SCHEDULED_LAYERS,
    ensures
        match lane.owner_of(layer_index) {
            Owner::InitialStack => {
                let layers = lane.schedule_of().initial_stack.layer_indices@;
                &&& layer_index == 0
                &&& layers[0] == 0
                &&& (layers[2] + 1) % 4 == 3
            },
            Owner::Boundary(boundary) => {
                let layers = lane.schedule_of().boundaries@[boundary as int].stack_layer_indices@;
                &&& lane.has_owner(Owner::Boundary(boundary), layer_index)
                &&& layers[0] == layer_index + 1
                &&& layers[1] == layer_index + 2
                &&& layers[2] == layer_index + 3
                &&& (layers[2] + 1) % 4 == 3
                &&& layers[2] + 1 < SCHEDULED_LAYERS
            },
            Owner::FinalLayer => layer_index == FINAL_LAYER && layer_index + 1
                == SCHEDULED_LAYERS,
            _ => false,
        },
{
    if let Owner::Boundary(boundary) = lane.owner_of(layer_index) {
        let region = lane.schedule_of().boundaries@[boundary as int];
        assert(region.boundary_mlp_layer_index == boundary_layer(boundary as int));
        assert(follows(region.stack_layer_indices, boundary as int));
    }
}

/// A decode of stacks goes on behind the three layers of a stack, so that none
/// of them runs twice.
pub proof fn a_stack_is_passed_as_a_whole(
    lane: Qwen35MetalW8LinearLayerStacksV1,
    config: Qwen35TextConfig,
    layer_index: usize,
)
    requires
        lane.fits(config),
        lane.start_of(layer_index as int) is Some,
    ensures
        ({
            let stack = lane.start_of(layer_index as int)->Some_0;
            let layers = lane.stacks@[stack as int].layer_indices@;
            &&& layers[0] == layer_index
            &&& layers[1] == layer_index + 1
            &&& layers[2] == layer_index + 2
            &&& layers[2] < config.layer_types@.len()
        }),
{
    let (stack, place) = lane.slot_of(layer_index as int)->Some_0;
    assert(lane.layer_to_stack@[layer_index as int] == Some((stack, place)));
    assert(crate::qwen35::stacks_lane::is_stack_of(lane.stacks@[stack as int], config));
}

/// Three states for the three places complete a transaction that was not seeded
/// before, in any order.
pub proof fn three_states_complete_a_transaction(
    fresh: Stack3Custody,
    a: usize,
    b: usize,
    c: usize,
    states: (GdnDecodeState, GdnDecodeState, GdnDecodeState),
    first: Stack3Custody,
    second: Stack3Custody,
    third: Stack3Custody,
)
    requires
        fresh.is_fresh(),
        a < 3,
        b < 3,
        c < 3,
        a != b,
        b != c,
        a != c,
        fresh.seeds(a, states.0, first),
        first.seeds(b, states.1, second),
        second.seeds(c, states.2, third),
    ensures
        !first.is_complete(),
        !second.is_complete(),
        third.is_complete(),
        !third.terminal_error,
        third.pending@[a as int] == Some(states.0),
        third.pending@[b as int] == Some(states.1),
        third.pending@[c as int] == Some(states.2),
{
    assert(fresh.pending@[a as int] is None);
    assert(fresh.pending@[b as int] is None);
    assert(fresh.pending@[c as int] is None);
    assert(first.pending@[c as int] is None);
}

/// A second state for the same place makes the transaction terminal.
pub proof fn a_second_state_is_refused(
    custody: Stack3Custody,
    place: usize,
    states: (GdnDecodeState, GdnDecodeState),
    first: Stack3Custody,
    second: Stack3Custody,
)
    requires
        place < 3,
        custody.seeds(place, states.0, first),
        first.seeds(place, states.1, second),
    ensures
        second.terminal_error,
{
}

/// The staged control profile is never accepted for the lane with the tail.
pub proof fn a_staged_core_is_never_in_production(
    weights: Qwen35TextWeights,
    config: Qwen35TextConfig,
    schedule: ScheduleAnswers,
    tail: Result<TailBuilt, TailBuildFailure>,
)
    ensures
        Qwen35MetalW8MlpStack3BoundaryTailHeadV1::fault(
            weights,
            config,
            GdnCoreProfileV1::QkStagedFourDispatch,
            schedule,
            tail,
        ) is Some,
{
}

proof fn all_layers_cleared(
    lane: Qwen35MetalW8AllLinearLayersPrecisionV2,
    outcomes: Seq<(Result<(), String>, LinearLayerMetalStats)>,
    from: nat,
)
    requires
        from <= lane.layers@.len(),
        forall|i: int|
            0 <= i < lane.layers@.len() && (#[trigger] lane.layers@[i]) is Some ==> outcomes[i].0
                is Ok,
    ensures
        Qwen35MetalW8AllLinearLayersPrecisionV2::first_uncleared(lane.layers@, outcomes, from)
            == lane.layers@.len(),
    decreases lane.layers@.len() - from,
{
    if from < lane.layers@.len() {
        assert(lane.layers@[from as int] is Some ==> outcomes[from as int].0 is Ok);
        all_layers_cleared(lane, outcomes, from + 1);
    }
}

proof fn all_stacks_cleared(
    outcomes: Seq<(Result<(), String>, Stack3Counters<LinearLayerStack3MetalStats>)>,
    stacks: nat,
    from: nat,
)
    requires
        from <= stacks,
        forall|s: int| 0 <= s < stacks ==> (#[trigger] outcomes[s]).0 is Ok,
    ensures
        Qwen35MetalW8LinearLayerStacksV1::first_uncleared(outcomes, stacks, from) == stacks,
    decreases stacks - from,
{
    if from < stacks {
        assert(outcomes[from as int].0 is Ok);
        all_stacks_cleared(outcomes, stacks, from + 1);
    }
}

proof fn all_boundaries_cleared(
    outcomes: Seq<(Result<(), String>, Stack3Counters<MlpStack3BoundaryMetalStatsV1>)>,
    boundaries: nat,
    from: nat,
)
    requires
        from <= boundaries,
        forall|b: int| 0 <= b < boundaries ==> (#[trigger] outcomes[b]).0 is Ok,
    ensures
        BoundarySchedule::first_uncleared(outcomes, boundaries, from) == boundaries,
    decreases boundaries - from,
{
    if from < boundaries {
        assert(outcomes[from as int].0 is Ok);
        all_boundaries_cleared(outcomes, boundaries, from + 1);
    }
}

proof fn cleared_schedule_is_unused(
    schedule: BoundarySchedule,
    outcomes: ScheduleResets,
    after: BoundarySchedule,
)
    requires
        schedule.resets(outcomes, after),
        outcomes.initial_stack.0 is Ok,
        forall|b: int|
            0 <= b < schedule.boundaries@.len() ==> (#[trigger] outcomes.boundaries@[b]).0 is Ok,
    ensures
        schedule.all_cleared(outcomes),
        after.is_unused(),
        after.counts(outcomes),
        !after.terminal(),
{
    all_boundaries_cleared(outcomes.boundaries@, schedule.boundaries@.len(), 0);
    assert forall|b: int| 0 <= b < after.boundaries@.len() implies (
    #[trigger] after.boundaries@[b]).custody.is_fresh() && after.boundaries@[b].counters
        == outcomes.boundaries@[b].1 by {
        assert(outcomes.boundaries@[b].0 is Ok);
    }
}

/// A reset whose blocks were all cleared starts the stream anew: nothing is
/// left of the old one, and a prompt that fits is accepted again. The
/// configuration, the weights and the context stay. The lane has no seed, no
/// call and no time counted, and of the accelerator it has the counters that it
/// answered with. The feed-forward blocks that the lane owns, and the head on
/// the route of stacks with the head, count from zero too.
pub proof fn a_reset_starts_anew(
    model: GeneralQwen35,
    answers: LaneResets,
    after: GeneralQwen35,
    tokens: Seq<u32>,
)
    requires
        model.wf(),
        answers.answer(model.lane),
        answers.all_cleared(model.lane),
        model.resets(Ok(()), answers, after),
    ensures
        after.config == model.config,
        after.weights == model.weights,
        after.state.max_context == model.state.max_context,
        after.state.is_fresh(),
        after.lane.is_unused(),
        after.lane.counts(answers),
        model.lane.owns_blocks() && after.mlp_blocks is Some ==> forall|i: int|
            0 <= i < after.mlp_blocks->Some_0.layers@.len()
                ==> match #[trigger] after.mlp_blocks->Some_0.layers@[i] {
                Some(block) => block.decode_calls == 0 && block.block_elapsed_ns == 0,
                None => true,
            },
        model.stack3_head_terminal is Some ==> after.stack3_head_terminal == Some(false)
            && after.head is Some && after.head->Some_0.stats == no_head_calls(),
        after.terminal_fault() is None,
        0 < tokens.len() <= after.state.max_context && tokens_fault(
            tokens,
            after.config.text.vocab_size,
            0,
        ) is None && rope_fault(after.config.text, tokens.len() as usize) is None
            ==> after.forward_fault(tokens, 0, 0) is None,
{
    match model.lane {
        Lane::AllLinear(lane) => {
            let outcomes = answers->AllLinear_outcomes@;
            let cleared = after.lane->AllLinear_0;
            all_layers_cleared(lane, outcomes, 0);
            assert forall|i: int|
                0 <= i < cleared.layers@.len() && (#[trigger] cleared.layers@[i])
                    is Some implies cleared.layers@[i]->Some_0
                == lane.layers@[i]->Some_0.cleared(outcomes[i].1) by {
                assert(lane.layers@[i] is Some);
                assert(outcomes[i].0 is Ok);
            }
            assert(!cleared.terminal());
        },
        Lane::Stacks(lane) => {
            let outcomes = answers->Stacks_outcomes@;
            let cleared = after.lane->Stacks_0;
            all_stacks_cleared(outcomes, lane.stacks@.len(), 0);
            assert forall|s: int| 0 <= s < cleared.stacks@.len() implies (
            #[trigger] cleared.stacks@[s]).custody.is_fresh() && cleared.stacks@[s].counters
                == outcomes[s].1 by {
                assert(outcomes[s].0 is Ok);
            }
            assert(!cleared.terminal());
        },
        Lane::BoundaryBody(body) => {
            cleared_schedule_is_unused(
                body.schedule,
                answers->BoundaryBody_outcomes,
                after.lane->BoundaryBody_0.schedule,
            );
        },
        Lane::TailHead(lane) => {
            cleared_schedule_is_unused(
                lane.schedule,
                answers->TailHead_outcomes,
                after.lane->TailHead_0.schedule,
            );
        },
        _ => {},
    }
    if model.lane.owns_blocks() && after.mlp_blocks is Some {
        let blocks = after.mlp_blocks->Some_0.layers@;
        let before = model.mlp_blocks->Some_0.layers@;
        assert forall|i: int| 0 <= i < blocks.len() implies match #[trigger] blocks[i] {
            Some(block) => block.decode_calls == 0 && block.block_elapsed_ns == 0,
            None => true,
        } by {
            assert(before[i] is Some || before[i] is None);
        }
    }
}

} // verus!
