//! The boundary schedule with a fused tail: the last feed-forward block, the
//! final norm and the four best tokens in one transaction.

use vstd::pervasive::unreached;
use vstd::prelude::*;

use crate::error::{answers, either, Error, Fault, FaultOrder};
use crate::qwen35::boundary_lane::{
    is_scheduled, schedule_fault, validate_config_schedule, BoundarySchedule,
    Qwen35MetalW8MlpStack3BoundaryRegionV1Stats, ScheduleAnswers, ScheduleResets, BOUNDARIES,
    FINAL_LAYER, SCHEDULED_LAYERS,
};
use crate::qwen35::config::Qwen35TextConfig;
use crate::qwen35::ledger::Qwen35MetalW8MlpStack3BoundaryTailHeadV1AggregateLedger;
use crate::qwen35::loader::Qwen35TextWeights;
use crate::qwen35::metal::{
    FunctionChains, GdnCoreProfileV1, TailMlpHeadBufferLedgerV1, TailMlpHeadMetalStatsV1,
};
use crate::qwen35::mlp_lane::{output_fault, tensor_from_owned_metal_output_row};
use crate::qwen35::packing::f32_fault;
use crate::qwen35::profile::{
    fused_shape_fault, has_fused_shape, production_fault,
    qwen35_boundary_tail_head_mechanism_for_gdn_core_profile_v1,
    qwen35_matches_gdn_core_fused_v1_shape, tail_head_mechanism,
    validate_qwen35_gdn_core_fused_v1_shape, validate_qwen35_production_gdn_core_profile_v1,
};
use crate::qwen35::stack_lane::Qwen35MetalW8LinearLayerStack3V1Stats;
use crate::qwen35::w8_pack::{check_f32, pack_qwen35_w8_mlp_block, packed_mlp_fault};
use crate::tensor::Tensor;

verus! {

/// Counters of the boundary and tail-head lane.
#[derive(Debug, PartialEq, Eq)]
pub struct Qwen35MetalW8MlpStack3BoundaryTailHeadV1Stats {
    pub mechanism: &'static str,
    pub gdn_core_profile: GdnCoreProfileV1,
    pub gdn_function_chain: &'static str,
    pub initial_stack: Qwen35MetalW8LinearLayerStack3V1Stats,
    pub boundaries: Vec<Qwen35MetalW8MlpStack3BoundaryRegionV1Stats>,
    pub tail_layer_index: usize,
    pub tail: TailMlpHeadMetalStatsV1,
    pub prefill_body_calls: usize,
    pub prefill_cpu_head_calls: usize,
    pub decode_calls: usize,
    pub teacher_calls: usize,
    pub rerank_elapsed_ns: u128,
    pub terminal_error: bool,
}

/// Where the accelerator failed to build the tail, and why.
#[derive(Debug, PartialEq, Eq)]
pub enum TailBuildFailure {
    Mlp { cause: String },
    Embedding { cause: String },
    Assembly { cause: String },
    Construction { cause: String },
}

/// A tail that the accelerator has built.
#[derive(Clone, Copy, Debug, PartialEq, Eq, Structural)]
pub struct TailBuilt {
    pub ledger: TailMlpHeadBufferLedgerV1,
    pub stats: TailMlpHeadMetalStatsV1,
}

/// What the tail returned for one row.
#[derive(Debug, PartialEq, Eq)]
pub struct TailOutput {
    pub normalized_hidden: Vec<u32>,
    pub candidate_token_ids: [u32; 4],
}

/// The normalized row and the candidates of the tail.
#[derive(Debug)]
pub struct Qwen35BoundaryTailHeadOutputV1 {
    pub normalized_hidden: Tensor,
    pub candidates: [u32; 4],
    pub tail_elapsed_ns: u128,
}

/// The schedule with a fused tail.
#[derive(Debug, PartialEq, Eq)]
pub struct Qwen35MetalW8MlpStack3BoundaryTailHeadV1 {
    pub gdn_core_profile: GdnCoreProfileV1,
    pub chains: FunctionChains,
    pub schedule: BoundarySchedule,
    pub tail_layer_index: usize,
    pub tail_ledger: TailMlpHeadBufferLedgerV1,
    pub tail: TailMlpHeadMetalStatsV1,
    pub prefill_body_calls: usize,
    pub prefill_cpu_head_calls: usize,
    pub decode_calls: usize,
    pub teacher_calls: usize,
    pub rerank_elapsed_ns: u128,
    pub terminal_error: bool,
}

/// A profile is not for production, or the configuration does not fit it.
pub open spec fn tail_profile_fault(config: Qwen35TextConfig, profile: GdnCoreProfileV1) -> Fault {
    either(
        production_fault(profile),
        if profile == GdnCoreProfileV1::Fused128 {
            fused_shape_fault(config)
        } else {
            None
        },
    )
}

/// Checks that a profile is for production and that the configuration fits it.
pub fn validate_tail_profile(config: &Qwen35TextConfig, profile: GdnCoreProfileV1) -> (r: Result<
    (),
    Error,
>)
    ensures
        answers(r, tail_profile_fault(*config, profile)),
{
    if let Err(e) = validate_qwen35_production_gdn_core_profile_v1(profile) {
        return Err(e);
    }
    if profile == GdnCoreProfileV1::Fused128 {
        return validate_qwen35_gdn_core_fused_v1_shape(config);
    }
    Ok(())
}

/// The profile of the transactions: the accelerator is asked for one by name
/// only at the frozen shape.
pub open spec fn asked_profile(config: Qwen35TextConfig, profile: GdnCoreProfileV1) -> Option<
    GdnCoreProfileV1,
> {
    if has_fused_shape(config) {
        Some(profile)
    } else {
        None
    }
}

/// The profile that the accelerator is asked for by name.
pub fn production_profile(config: &Qwen35TextConfig, profile: GdnCoreProfileV1) -> (asked: Option<
    GdnCoreProfileV1,
>)
    ensures
        asked == asked_profile(*config, profile),
{
    if qwen35_matches_gdn_core_fused_v1_shape(config) {
        Some(profile)
    } else {
        None
    }
}

/// The norms and the embedding of the tail have the configured shapes.
pub open spec fn tail_shapes_fit(weights: Qwen35TextWeights, config: Qwen35TextConfig) -> bool {
    &&& weights.layers@[FINAL_LAYER as int].post_attention_norm_weight.dims()
        == seq![config.hidden_size]
    &&& weights.output_norm_weight.dims() == seq![config.hidden_size]
    &&& weights.token_embedding.dims() == seq![config.vocab_size, config.hidden_size]
}

fn check_tail_shapes(weights: &Qwen35TextWeights, config: &Qwen35TextConfig) -> (r: bool)
    requires
        weights.layers@.len() == SCHEDULED_LAYERS,
    ensures
        r == tail_shapes_fit(*weights, *config),
{
    let row: [usize; 1] = [config.hidden_size];
    let table: [usize; 2] = [config.vocab_size, config.hidden_size];
    proof {
        assert(row@ =~= seq![config.hidden_size]);
        assert(table@ =~= seq![config.vocab_size, config.hidden_size]);
    }
    weights.layers[FINAL_LAYER].post_attention_norm_weight.has_shape(row.as_slice())
        && weights.output_norm_weight.has_shape(row.as_slice())
        && weights.token_embedding.has_shape(table.as_slice())
}

/// What stops the tail, when the accelerator answered with `answer`.
pub open spec fn tail_fault(
    weights: Qwen35TextWeights,
    config: Qwen35TextConfig,
    answer: Result<TailBuilt, TailBuildFailure>,
) -> Fault {
    let shapes = if tail_shapes_fit(weights, config) {
        None
    } else {
        Some(Error::TailHeadShape.text())
    };
    let mlp = match answer {
        Err(TailBuildFailure::Mlp { cause }) => Some(cause),
        _ => None,
    };
    let built = match answer {
        Err(TailBuildFailure::Embedding { cause }) => Some(
            Error::TailHeadEmbedding { cause }.text(),
        ),
        Err(TailBuildFailure::Assembly { cause }) => Some(
            Error::TailHeadAssembly { cause }.text(),
        ),
        Err(TailBuildFailure::Construction { cause }) => Some(
            Error::TailHeadConstruction { cause }.text(),
        ),
        _ => None,
    };
    shapes
        .or_fault(
            f32_fault(
                weights.layers@[FINAL_LAYER as int].post_attention_norm_weight,
                "Metal W8 tail-head v1 post-attention RMSNorm",
            ),
        )
        .or_fault(f32_fault(weights.output_norm_weight, "Metal W8 tail-head v1 final RMSNorm"))
        .or_fault(packed_mlp_fault(weights, config, FINAL_LAYER, mlp))
        .or_fault(f32_fault(weights.token_embedding, "Metal W8 tail-head v1 tied embedding"))
        .or_fault(built)
}

fn take_tail(
    weights: &Qwen35TextWeights,
    config: &Qwen35TextConfig,
    answer: Result<TailBuilt, TailBuildFailure>,
) -> (r: Result<TailBuilt, Error>)
    requires
        weights.layers@.len() == SCHEDULED_LAYERS,
    ensures
        answers(r, tail_fault(*weights, *config, answer)),
        r matches Ok(tail) ==> answer == Ok::<TailBuilt, TailBuildFailure>(tail),
{
    if !check_tail_shapes(weights, config) {
        return Err(Error::TailHeadShape);
    }
    if let Err(e) = check_f32(
        &weights.layers[FINAL_LAYER].post_attention_norm_weight,
        "Metal W8 tail-head v1 post-attention RMSNorm",
    ) {
        return Err(e);
    }
    if let Err(e) = check_f32(&weights.output_norm_weight, "Metal W8 tail-head v1 final RMSNorm") {
        return Err(e);
    }
    match answer {
        Err(TailBuildFailure::Mlp { cause }) => {
            match pack_qwen35_w8_mlp_block(weights, config, FINAL_LAYER, Some(cause)) {
                Err(e) => Err(e),
                Ok(_) => unreached(),
            }
        },
        Err(failure) => {
            if let Err(e) = pack_qwen35_w8_mlp_block(weights, config, FINAL_LAYER, None) {
                return Err(e);
            }
            if let Err(e) = check_f32(
                &weights.token_embedding,
                "Metal W8 tail-head v1 tied embedding",
            ) {
                return Err(e);
            }
            Err(
                match failure {
                    TailBuildFailure::Embedding { cause } => Error::TailHeadEmbedding { cause },
                    TailBuildFailure::Assembly { cause } => Error::TailHeadAssembly { cause },
                    TailBuildFailure::Construction { cause } => Error::TailHeadConstruction {
                        cause,
                    },
                    TailBuildFailure::Mlp { .. } => unreached(),
                },
            )
        },
        Ok(tail) => {
            if let Err(e) = pack_qwen35_w8_mlp_block(weights, config, FINAL_LAYER, None) {
                return Err(e);
            }
            if let Err(e) = check_f32(
                &weights.token_embedding,
                "Metal W8 tail-head v1 tied embedding",
            ) {
                return Err(e);
            }
            Ok(tail)
        },
    }
}

impl Qwen35MetalW8MlpStack3BoundaryTailHeadV1 {
    /// What stops the lane.
    pub open spec fn fault(
        weights: Qwen35TextWeights,
        config: Qwen35TextConfig,
        profile: GdnCoreProfileV1,
        schedule: ScheduleAnswers,
        tail: Result<TailBuilt, TailBuildFailure>,
    ) -> Fault {
        let layers = if weights.layers@.len() == SCHEDULED_LAYERS && weights.lm_head_weight is None {
            None
        } else {
            Some(Error::TailHeadLayers.text())
        };
        tail_profile_fault(config, profile)
            .or_fault(schedule_fault(config))
            .or_fault(layers)
            .or_fault(
                BoundarySchedule::fault(weights, config, asked_profile(config, profile), schedule),
            )
            .or_fault(tail_fault(weights, config, tail))
    }

    /// The transactions are those of the schedule.
    pub open spec fn fits(self, config: Qwen35TextConfig) -> bool {
        &&& is_scheduled(config)
        &&& self.schedule.fits(config)
        &&& self.tail_layer_index == FINAL_LAYER
    }

    /// Nothing was counted, and no error was met.
    pub open spec fn is_unused(self) -> bool {
        &&& self.prefill_body_calls == 0
        &&& self.prefill_cpu_head_calls == 0
        &&& self.decode_calls == 0
        &&& self.teacher_calls == 0
        &&& self.rerank_elapsed_ns == 0
        &&& !self.terminal_error
    }

    /// The parts are those that the accelerator built, and nothing ran.
    pub open spec fn is_packed(
        self,
        config: Qwen35TextConfig,
        profile: GdnCoreProfileV1,
        chains: FunctionChains,
        schedule: ScheduleAnswers,
        tail: Result<TailBuilt, TailBuildFailure>,
    ) -> bool {
        &&& self.fits(config)
        &&& self.is_unused()
        &&& self.gdn_core_profile == profile
        &&& self.chains == chains
        &&& self.schedule.is_built(config, asked_profile(config, profile), chains, schedule)
        &&& tail matches Ok(built) && self.tail_ledger == built.ledger && self.tail == built.stats
    }

    /// Takes the transactions that the accelerator was asked to build under a
    /// profile.
    pub fn pack_with_gdn_core_profile_v1(
        weights: &Qwen35TextWeights,
        config: &Qwen35TextConfig,
        profile: GdnCoreProfileV1,
        chains: FunctionChains,
        schedule: ScheduleAnswers,
        tail: Result<TailBuilt, TailBuildFailure>,
    ) -> (r: Result<Qwen35MetalW8MlpStack3BoundaryTailHeadV1, Error>)
        requires
            config.widths_fit(),
            schedule.boundaries@.len() >= BOUNDARIES,
        ensures
            answers(
                r,
                Qwen35MetalW8MlpStack3BoundaryTailHeadV1::fault(
                    *weights,
                    *config,
                    profile,
                    schedule,
                    tail,
                ),
            ),
            r matches Ok(lane) ==> lane.is_packed(*config, profile, chains, schedule, tail),
    {
        if let Err(e) = validate_tail_profile(config, profile) {
            return Err(e);
        }
        if let Err(e) = validate_config_schedule(config) {
            return Err(e);
        }
        if weights.layers.len() != SCHEDULED_LAYERS || weights.lm_head_weight.is_some() {
            return Err(Error::TailHeadLayers);
        }
        let production = production_profile(config, profile);
        let schedule = match BoundarySchedule::pack(weights, config, production, chains, schedule) {
            Ok(schedule) => schedule,
            Err(e) => return Err(e),
        };
        let tail = match take_tail(weights, config, tail) {
            Ok(tail) => tail,
            Err(e) => return Err(e),
        };
        Ok(
            Qwen35MetalW8MlpStack3BoundaryTailHeadV1 {
                gdn_core_profile: profile,
                chains,
                schedule,
                tail_layer_index: FINAL_LAYER,
                tail_ledger: tail.ledger,
                tail: tail.stats,
                prefill_body_calls: 0,
                prefill_cpu_head_calls: 0,
                decode_calls: 0,
                teacher_calls: 0,
                rerank_elapsed_ns: 0,
                terminal_error: false,
            },
        )
    }

    /// The counters.
    pub fn stats(&self) -> (r: Qwen35MetalW8MlpStack3BoundaryTailHeadV1Stats)
        ensures
            r.mechanism == tail_head_mechanism(self.gdn_core_profile),
            r.gdn_core_profile == self.gdn_core_profile,
            r.gdn_function_chain == self.chains.of(self.gdn_core_profile),
            r.initial_stack == self.schedule.initial_stack.stats_of(),
            r.boundaries@ == self.schedule.boundary_stats_of(),
            r.tail_layer_index == self.tail_layer_index,
            r.tail == self.tail,
            r.prefill_body_calls == self.prefill_body_calls,
            r.prefill_cpu_head_calls == self.prefill_cpu_head_calls,
            r.decode_calls == self.decode_calls,
            r.teacher_calls == self.teacher_calls,
            r.rerank_elapsed_ns == self.rerank_elapsed_ns,
            r.terminal_error == self.terminal(),
    {
        Qwen35MetalW8MlpStack3BoundaryTailHeadV1Stats {
            mechanism: qwen35_boundary_tail_head_mechanism_for_gdn_core_profile_v1(
                self.gdn_core_profile,
            ),
            gdn_core_profile: self.gdn_core_profile,
            gdn_function_chain: self.chains.expected_function_chain(self.gdn_core_profile),
            initial_stack: self.schedule.initial_stack.stats(),
            boundaries: self.schedule.boundary_stats(),
            tail_layer_index: self.tail_layer_index,
            tail: self.tail,
            prefill_body_calls: self.prefill_body_calls,
            prefill_cpu_head_calls: self.prefill_cpu_head_calls,
            decode_calls: self.decode_calls,
            teacher_calls: self.teacher_calls,
            rerank_elapsed_ns: self.rerank_elapsed_ns,
            terminal_error: self.is_terminal(),
        }
    }

    /// The lane, one of its transactions or the tail met an error.
    pub open spec fn terminal(self) -> bool {
        self.terminal_error || self.schedule.terminal() || self.tail.terminal_error
    }

    /// Whether the lane, one of its transactions or the tail met an error.
    pub fn is_terminal(&self) -> (r: bool)
        ensures
            r == self.terminal(),
    {
        self.terminal_error || self.schedule.is_terminal() || self.tail.terminal_error
    }

    /// Makes the lane terminal.
    pub fn latch_terminal(&mut self)
        ensures
            *final(self) == (Qwen35MetalW8MlpStack3BoundaryTailHeadV1 {
                terminal_error: true,
                ..*old(self)
            }),
    {
        self.terminal_error = true;
    }

    /// Every transaction and the tail were cleared.
    pub open spec fn all_cleared(self, outcomes: ScheduleResets, tail: Result<(), String>) -> bool {
        self.schedule.all_cleared(outcomes) && tail is Ok
    }

    /// What clearing the transactions and then the tail leaves.
    pub open spec fn resets(
        self,
        outcomes: ScheduleResets,
        tail: (Result<(), String>, TailMlpHeadMetalStatsV1),
        after: Self,
    ) -> bool {
        &&& self.schedule.resets(outcomes, after.schedule)
        &&& after.terminal_error == !self.all_cleared(outcomes, tail.0)
        &&& after.tail == if self.schedule.all_cleared(outcomes) {
            tail.1
        } else {
            self.tail
        }
        &&& self.all_cleared(outcomes, tail.0) ==> after.is_unused()
        &&& after == (Qwen35MetalW8MlpStack3BoundaryTailHeadV1 {
            schedule: after.schedule,
            tail: after.tail,
            prefill_body_calls: after.prefill_body_calls,
            prefill_cpu_head_calls: after.prefill_cpu_head_calls,
            decode_calls: after.decode_calls,
            teacher_calls: after.teacher_calls,
            rerank_elapsed_ns: after.rerank_elapsed_ns,
            terminal_error: after.terminal_error,
            ..self
        })
        &&& !self.all_cleared(outcomes, tail.0) ==> after
            == (Qwen35MetalW8MlpStack3BoundaryTailHeadV1 {
            schedule: after.schedule,
            tail: after.tail,
            terminal_error: true,
            ..self
        })
    }

    /// Takes the answers of the accelerator to clearing the transactions and
    /// then the tail.
    pub fn reset(
        &mut self,
        outcomes: ScheduleResets,
        tail: (Result<(), String>, TailMlpHeadMetalStatsV1),
    ) -> (r: Result<(), Error>)
        requires
            outcomes.boundaries@.len() >= old(self).schedule.boundaries@.len(),
        ensures
            old(self).resets(outcomes, tail, *final(self)),
            r == if !old(self).schedule.all_cleared(outcomes) {
                Err::<(), Error>(old(self).schedule.reset_error(outcomes))
            } else {
                match tail.0 {
                    Err(cause) => Err(Error::TailHeadReset { cause }),
                    Ok(_) => Ok(()),
                }
            },
    {
        if let Err(e) = self.schedule.reset(outcomes) {
            self.terminal_error = true;
            return Err(e);
        }
        self.tail = tail.1;
        if let Err(cause) = tail.0 {
            self.terminal_error = true;
            return Err(Error::TailHeadReset { cause });
        }
        self.prefill_body_calls = 0;
        self.prefill_cpu_head_calls = 0;
        self.decode_calls = 0;
        self.teacher_calls = 0;
        self.rerank_elapsed_ns = 0;
        self.terminal_error = false;
        Ok(())
    }

    /// The totals of the transactions and the tail.
    pub fn aggregate_ledger(&self) -> (r: Result<
        Qwen35MetalW8MlpStack3BoundaryTailHeadV1AggregateLedger,
        Error,
    >)
        ensures
            answers(
                r,
                Qwen35MetalW8MlpStack3BoundaryTailHeadV1AggregateLedger::fault(
                    self.schedule.initial_stack.ledger_of(),
                    self.schedule.boundary_ledgers_of(),
                    self.tail_ledger,
                    self.chains,
                ),
            ),
            r matches Ok(ledger) ==> {
                &&& ledger.initial_stack == self.schedule.initial_stack.ledger_of()
                &&& ledger.boundaries@ == self.schedule.boundary_ledgers_of()
                &&& ledger.tail_layer_index == self.tail_layer_index
                &&& ledger.tail == self.tail_ledger
                &&& ledger.gdn_function_chain == self.chains.of(ledger.gdn_core_profile)
                &&& ledger.adds_up()
            },
    {
        Qwen35MetalW8MlpStack3BoundaryTailHeadV1AggregateLedger::new(
            self.schedule.initial_stack.buffer_ledger(),
            self.schedule.boundary_ledgers(),
            self.tail_layer_index,
            self.tail_ledger,
            &self.chains,
        )
    }

    /// What is wrong with a tail that returned `output` for a row of the width.
    pub open spec fn run_fault(output: Result<TailOutput, String>, hidden_size: usize) -> Fault {
        match output {
            Err(cause) => Some(Error::TailTransaction { cause }.text()),
            Ok(values) => output_fault(values.normalized_hidden@, hidden_size),
        }
    }

    /// Takes what the tail returned for one row of the width.
    pub fn finish_tail(
        &mut self,
        output: Result<TailOutput, String>,
        elapsed_ns: u128,
        stats: TailMlpHeadMetalStatsV1,
        hidden_size: usize,
    ) -> (r: Result<Qwen35BoundaryTailHeadOutputV1, Error>)
        ensures
            *final(self) == (Qwen35MetalW8MlpStack3BoundaryTailHeadV1 {
                tail: stats,
                ..*old(self)
            }),
            answers(r, Qwen35MetalW8MlpStack3BoundaryTailHeadV1::run_fault(output, hidden_size)),
            r matches Ok(taken) ==> output matches Ok(values) && {
                &&& taken.normalized_hidden.is_f32(
                    seq![1usize, hidden_size],
                    values.normalized_hidden@,
                )
                &&& taken.candidates == values.candidate_token_ids
                &&& taken.tail_elapsed_ns == elapsed_ns
            },
    {
        self.tail = stats;
        match output {
            Err(cause) => Err(Error::TailTransaction { cause }),
            Ok(values) => {
                let candidates = values.candidate_token_ids;
                match tensor_from_owned_metal_output_row(hidden_size, values.normalized_hidden) {
                    Err(e) => Err(e),
                    Ok(normalized_hidden) => Ok(
                        Qwen35BoundaryTailHeadOutputV1 {
                            normalized_hidden,
                            candidates,
                            tail_elapsed_ns: elapsed_ns,
                        },
                    ),
                }
            },
        }
    }
}

} // verus!
