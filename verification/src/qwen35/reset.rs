//! Starting a stream anew.

use vstd::pervasive::unreached;
use vstd::prelude::*;

use crate::qwen35::boundary_lane::ScheduleResets;
use crate::qwen35::config::Qwen35LayerType;
use crate::qwen35::lane::Lane;
use crate::qwen35::metal::{
    GdnMetalStats, LinearLayerMetalStats, LinearLayerStack3MetalStats, TailMlpHeadMetalStatsV1,
};
use crate::qwen35::mlp_lane::{Qwen35MetalW8MlpBlockLayer, Qwen35MetalW8MlpBlocks};
use crate::qwen35::model::{no_head_calls, GeneralQwen35, LmHead, Qwen35MetalW8LmHeadStats};
use crate::qwen35::stack_lane::Stack3Counters;
use crate::qwen35::stacks_lane::is_stack_of;
use crate::qwen35::state::{full_layers_before, Qwen35HybridState};

verus! {

/// The answers of the accelerator to clearing the states of a lane.
#[derive(Debug, PartialEq, Eq)]
#[allow(inconsistent_fields)]
pub enum LaneResets {
    /// There is no state to clear outside of the library.
    Nothing,
    Gdn { outcome: Result<(), String>, stats: GdnMetalStats },
    LinearLayer { outcome: Result<(), String>, stats: LinearLayerMetalStats },
    /// One answer for each layer of the model.
    AllLinear { outcomes: Vec<(Result<(), String>, LinearLayerMetalStats)> },
    /// One answer for each stack.
    Stacks { outcomes: Vec<(Result<(), String>, Stack3Counters<LinearLayerStack3MetalStats>)> },
    BoundaryBody { outcomes: ScheduleResets },
    TailHead { outcomes: ScheduleResets, tail: (Result<(), String>, TailMlpHeadMetalStatsV1) },
}

impl LaneResets {
    /// The answers are those of a lane of this kind, one for each block.
    pub open spec fn answer(self, lane: Lane) -> bool {
        match lane {
            Lane::Cpu | Lane::PackedReference(_) => self is Nothing,
            Lane::Gdn(_) => self is Gdn,
            Lane::LinearLayer(_) => self is LinearLayer,
            Lane::AllLinear(lane) => self matches LaneResets::AllLinear { outcomes }
                && outcomes@.len() >= lane.layers@.len(),
            Lane::Stacks(lane) => self matches LaneResets::Stacks { outcomes } && outcomes@.len()
                >= lane.stacks@.len(),
            Lane::BoundaryBody(body) => self matches LaneResets::BoundaryBody { outcomes }
                && outcomes.boundaries@.len() >= body.schedule.boundaries@.len(),
            Lane::TailHead(lane) => self matches LaneResets::TailHead { outcomes, .. }
                && outcomes.boundaries@.len() >= lane.schedule.boundaries@.len(),
        }
    }

    /// Every block was cleared.
    pub open spec fn all_cleared(self, lane: Lane) -> bool {
        match lane {
            Lane::Cpu | Lane::PackedReference(_) => true,
            Lane::Gdn(_) => self->Gdn_outcome is Ok,
            Lane::LinearLayer(_) => self->LinearLayer_outcome is Ok,
            Lane::AllLinear(lane) => forall|i: int|
                0 <= i < lane.layers@.len() && (#[trigger] lane.layers@[i]) is Some
                    ==> self->AllLinear_outcomes@[i].0 is Ok,
            Lane::Stacks(lane) => forall|s: int|
                0 <= s < lane.stacks@.len() ==> (
                #[trigger] self->Stacks_outcomes@[s]).0 is Ok,
            Lane::BoundaryBody(body) => {
                &&& self->BoundaryBody_outcomes.initial_stack.0 is Ok
                &&& forall|b: int|
                    0 <= b < body.schedule.boundaries@.len() ==> (
                    #[trigger] self->BoundaryBody_outcomes.boundaries@[b]).0 is Ok
            },
            Lane::TailHead(lane) => {
                &&& self->TailHead_outcomes.initial_stack.0 is Ok
                &&& forall|b: int|
                    0 <= b < lane.schedule.boundaries@.len() ==> (
                    #[trigger] self->TailHead_outcomes.boundaries@[b]).0 is Ok
                &&& self->tail.0 is Ok
                &&& !self->tail.1.terminal_error
            },
        }
    }
}

impl Lane {
    /// The lane counted no seed, no call and no time, holds no state, and met no
    /// error.
    pub open spec fn is_unused(self) -> bool {
        match self {
            Lane::Cpu => true,
            Lane::Gdn(layer) => layer == layer.cleared(layer.execution),
            Lane::LinearLayer(layer) => layer == layer.cleared(layer.execution),
            Lane::AllLinear(lane) => {
                &&& !lane.terminal_error
                &&& forall|i: int|
                    0 <= i < lane.layers@.len() ==> match #[trigger] lane.layers@[i] {
                        Some(layer) => layer == layer.cleared(layer.execution),
                        None => true,
                    }
            },
            Lane::Stacks(lane) => {
                &&& !lane.terminal_error
                &&& forall|s: int|
                    0 <= s < lane.stacks@.len() ==> (
                    #[trigger] lane.stacks@[s]).custody.is_fresh()
            },
            Lane::BoundaryBody(body) => {
                &&& !body.terminal_error
                &&& body.schedule.is_unused()
                &&& body.final_mlp.decode_calls == 0
                &&& body.final_mlp.block_elapsed_ns == 0
            },
            Lane::TailHead(lane) => lane.is_unused() && lane.schedule.is_unused(),
            Lane::PackedReference(reference) => reference == reference.cleared(),
        }
    }

    /// The counters of the accelerator are those that it answered with.
    pub open spec fn counts(self, answers: LaneResets) -> bool {
        match self {
            Lane::Cpu | Lane::PackedReference(_) => true,
            Lane::Gdn(layer) => layer.execution == answers->Gdn_stats,
            Lane::LinearLayer(layer) => layer.execution == answers->LinearLayer_stats,
            Lane::AllLinear(lane) => forall|i: int|
                0 <= i < lane.layers@.len() ==> match #[trigger] lane.layers@[i] {
                    Some(layer) => layer.execution == answers->AllLinear_outcomes@[i].1,
                    None => true,
                },
            Lane::Stacks(lane) => forall|s: int|
                0 <= s < lane.stacks@.len() ==> (#[trigger] lane.stacks@[s]).counters
                    == answers->Stacks_outcomes@[s].1,
            Lane::BoundaryBody(body) => body.schedule.counts(answers->BoundaryBody_outcomes),
            Lane::TailHead(lane) => {
                &&& lane.schedule.counts(answers->TailHead_outcomes)
                &&& lane.tail == answers->tail.1
            },
        }
    }

    /// What clearing the states of a lane leaves.
    pub open spec fn resets(self, answers: LaneResets, after: Lane) -> bool {
        match self {
            Lane::Cpu => after == self,
            Lane::Gdn(layer) => after == Lane::Gdn(
                layer.after_reset(answers->Gdn_outcome, answers->Gdn_stats),
            ),
            Lane::LinearLayer(layer) => after == Lane::LinearLayer(
                layer.after_reset(answers->LinearLayer_outcome, answers->LinearLayer_stats),
            ),
            Lane::PackedReference(reference) => after == Lane::PackedReference(
                reference.cleared(),
            ),
            Lane::AllLinear(lane) => after matches Lane::AllLinear(cleared) && lane.resets(
                answers->AllLinear_outcomes@,
                cleared,
            ),
            Lane::Stacks(lane) => after matches Lane::Stacks(cleared) && lane.resets(
                answers->Stacks_outcomes@,
                cleared,
            ),
            Lane::BoundaryBody(body) => after matches Lane::BoundaryBody(cleared) && body.resets(
                answers->BoundaryBody_outcomes,
                cleared,
            ),
            Lane::TailHead(lane) => after matches Lane::TailHead(cleared) && lane.resets(
                answers->TailHead_outcomes,
                answers->tail,
                cleared,
            ),
        }
    }

    /// Takes the answers of the accelerator to clearing the states of a lane.
    /// Errors stay in the lane, which is then terminal or keeps its state.
    pub fn reset(&mut self, answers: LaneResets)
        requires
            answers.answer(*old(self)),
        ensures
            old(self).resets(answers, *final(self)),
    {
        match self {
            Lane::Cpu => {},
            Lane::Gdn(layer) => match answers {
                LaneResets::Gdn { outcome, stats } => {
                    let _ = layer.reset(outcome, stats);
                },
                _ => unreached(),
            },
            Lane::LinearLayer(layer) => match answers {
                LaneResets::LinearLayer { outcome, stats } => {
                    let _ = layer.reset(outcome, stats);
                },
                _ => unreached(),
            },
            Lane::PackedReference(reference) => reference.reset(),
            Lane::AllLinear(lane) => match answers {
                LaneResets::AllLinear { outcomes } => {
                    let _ = lane.reset(outcomes);
                },
                _ => unreached(),
            },
            Lane::Stacks(lane) => match answers {
                LaneResets::Stacks { outcomes } => {
                    let _ = lane.reset(outcomes);
                },
                _ => unreached(),
            },
            Lane::BoundaryBody(body) => match answers {
                LaneResets::BoundaryBody { outcomes } => {
                    let _ = body.reset(outcomes);
                },
                _ => unreached(),
            },
            Lane::TailHead(lane) => match answers {
                LaneResets::TailHead { outcomes, tail } => {
                    let _ = lane.reset(outcomes, tail);
                },
                _ => unreached(),
            },
        }
    }

    /// The lane counts the feed-forward blocks of the model as its own.
    pub open spec fn owns_blocks(self) -> bool {
        self is AllLinear || (self matches Lane::Stacks(lane)
            && lane.owns_full_attention_mlp_blocks)
    }

    fn takes_blocks(&self) -> (r: bool)
        ensures
            r == self.owns_blocks(),
    {
        match self {
            Lane::AllLinear(_) => true,
            Lane::Stacks(lane) => lane.owns_full_attention_mlp_blocks,
            _ => false,
        }
    }
}

proof fn reset_lane_fits(
    lane: Lane,
    config: crate::qwen35::config::Qwen35TextConfig,
    answers: LaneResets,
    after: Lane,
)
    requires
        lane.fits(config),
        answers.answer(lane),
        lane.resets(answers, after),
    ensures
        after.fits(config),
{
    match lane {
        Lane::AllLinear(a) => {
            let b = after->AllLinear_0;
            assert forall|i: int| 0 <= i < b.layers@.len() implies match #[trigger] b.layers@[i] {
                Some(layer) => {
                    &&& config.layer_types@[i] == Qwen35LayerType::LinearAttention
                    &&& layer.layer_index == i
                    &&& layer.dimensions == crate::qwen35::w8_pack::dimensions_of(config)
                    &&& layer.precision_profile == Some(b.profile)
                    &&& layer.quantization is Some
                },
                None => config.layer_types@[i] != Qwen35LayerType::LinearAttention,
            } by {
                assert(a.layers@[i] is Some || a.layers@[i] is None);
            }
        },
        Lane::Stacks(a) => {
            let b = after->Stacks_0;
            assert forall|s: int| 0 <= s < b.stacks@.len() implies is_stack_of(
                #[trigger] b.stacks@[s],
                config,
            ) && b.stacks@[s].layer_indices == a.stacks@[s].layer_indices by {
                assert(is_stack_of(a.stacks@[s], config));
            }
            assert forall|s: int, p: int| 0 <= s < b.stacks@.len() && 0 <= p < 3 implies b.slot_of(
                (#[trigger] b.stacks@[s].layer_indices@[p]) as int,
            ) == Some((s as usize, p as usize)) by {
                assert(b.stacks@[s].layer_indices == a.stacks@[s].layer_indices);
                assert(a.slot_of(a.stacks@[s].layer_indices@[p] as int) == Some(
                    (s as usize, p as usize),
                ));
            }
            assert forall|l: int| 0 <= l < b.layer_to_stack@.len() implies match #[trigger] b.layer_to_stack@[l] {
                Some((s, p)) => {
                    &&& s < b.stacks@.len()
                    &&& p < 3
                    &&& b.stacks@[s as int].layer_indices@[p as int] == l
                },
                None => true,
            } by {
                assert(a.layer_to_stack@[l] == b.layer_to_stack@[l]);
                if let Some((s, p)) = b.layer_to_stack@[l] {
                    assert(b.stacks@[s as int].layer_indices == a.stacks@[s as int].layer_indices);
                }
            }
        },
        Lane::BoundaryBody(_) | Lane::TailHead(_) => {
            let a = lane.schedule_of();
            let b = after.schedule_of();
            assert forall|k: int| 0 <= k < crate::qwen35::boundary_lane::BOUNDARIES implies ({
                let region = #[trigger] b.boundaries@[k];
                &&& region.boundary_mlp_layer_index
                    == crate::qwen35::boundary_lane::boundary_layer(k)
                &&& crate::qwen35::boundary_lane::follows(region.stack_layer_indices, k)
                &&& region.is_owned()
                &&& region.dimensions == crate::qwen35::w8_pack::dimensions_of(config)
            }) by {
                assert(a.boundaries@[k].is_owned());
            }
            assert(b.fits(config));
        },
        _ => {},
    }
}

impl GeneralQwen35 {
    /// What a reset leaves.
    pub open spec fn resets(
        self,
        kv_cleared: Result<(), String>,
        answers: LaneResets,
        after: Self,
    ) -> bool {
        &&& after.config == self.config
        &&& after.weights == self.weights
        &&& after.body == self.body
        &&& self.lane.resets(answers, after.lane)
        &&& if kv_cleared is Ok {
            &&& after.state.is_fresh()
            &&& after.state.linear@.len() == self.state.linear@.len()
            &&& after.state == (Qwen35HybridState {
                linear: after.state.linear,
                position: 0,
                ..self.state
            })
        } else {
            after.state == self.state
        }
        &&& match (self.mlp_blocks, after.mlp_blocks) {
            (Some(before), Some(blocks)) => if self.lane.owns_blocks() {
                blocks.layers@ == before.layers@.map_values(
                    |block: Option<Qwen35MetalW8MlpBlockLayer>|
                        Qwen35MetalW8MlpBlocks::forgotten(block),
                )
            } else {
                blocks == before
            },
            (None, None) => true,
            _ => false,
        }
        &&& after.stack3_head_terminal == if self.stack3_head_terminal is Some {
            Some(false)
        } else {
            None
        }
        &&& after.head == match self.head {
            Some(head) if self.stack3_head_terminal is Some => Some(
                LmHead { stats: no_head_calls(), ..head },
            ),
            other => other,
        }
    }

    /// Starts the stream anew, once the key/value cache and the blocks of the
    /// lane were asked to clear their states. Errors of the lane are not
    /// returned: a lane that could not be cleared refuses the next forward.
    pub fn reset(&mut self, kv_cleared: Result<(), String>, answers: LaneResets)
        requires
            old(self).wf(),
            answers.answer(old(self).lane),
        ensures
            final(self).wf(),
            old(self).resets(kv_cleared, answers, *final(self)),
    {
        let ghost before = *self;
        let ghost given = answers;
        let _ = self.state.reset(kv_cleared);
        let takes_blocks = self.lane.takes_blocks();
        self.lane.reset(answers);
        proof {
            reset_lane_fits(before.lane, before.config.text, given, self.lane);
        }
        if takes_blocks {
            if let Some(blocks) = &mut self.mlp_blocks {
                blocks.reset_stats();
            }
        }
        if self.stack3_head_terminal.is_some() {
            self.stack3_head_terminal = Some(false);
            if let Some(head) = &mut self.head {
                head.stats = Qwen35MetalW8LmHeadStats::default();
            }
        }
        proof {
            let kinds = self.config.text.layer_types@;
            assert forall|i: int| 0 <= i < kinds.len() implies ({
                &&& (#[trigger] self.state.linear@[i] is Some) == (kinds[i]
                    == Qwen35LayerType::LinearAttention)
                &&& self.state.full_cache_indices@[i] == if kinds[i]
                    == Qwen35LayerType::FullAttention {
                    Some(full_layers_before(kinds, i) as usize)
                } else {
                    None
                }
            }) by {
                assert((before.state.linear@[i] is Some) == (kinds[i]
                    == Qwen35LayerType::LinearAttention));
            }
            assert(self.state.fits(kinds));
            if self.mlp_blocks is Some && before.lane.owns_blocks() {
                let old_layers = before.mlp_blocks->Some_0.layers@;
                let new_layers = self.mlp_blocks->Some_0.layers@;
                assert forall|i: int|
                    0 <= i < self.config.text.n_layers && (#[trigger] new_layers[i]) is Some implies
                    new_layers[i]->Some_0.layer_index == i && new_layers[i]->Some_0.hidden_size
                    == self.config.text.hidden_size by {
                    assert(old_layers[i] is Some);
                }
            }
        }
    }
}

} // verus!
