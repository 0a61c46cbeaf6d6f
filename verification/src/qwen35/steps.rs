//! The steps of a forward: what the caller reports, and what comes next.

use vstd::pervasive::unreached;
use vstd::prelude::*;

use crate::error::Error;
use crate::qwen35::boundary_lane::{BoundarySchedule, Transaction};
use crate::qwen35::config::{Qwen35LayerType, Qwen35TextConfig};
use crate::qwen35::flow::{
    attention_of, entry_of, hands_on, mlp_of, normed_of, residual_of,
};
use crate::qwen35::forward::{scheduled_owner, ForwardRun, Frame, Work};
use crate::qwen35::lane::{
    linear_layers_keep_the_fit, transactions_keep_the_fit, Lane, Owner, SeedStep,
};
use crate::qwen35::linear_lane::{
    gdn_decode_state_from_cpu, is_seed_of, seed_fault, DecodeReport, GdnDecodeState,
};
use crate::qwen35::metal::{
    GdnMetalStats, LinearLayerMetalStats, LinearLayerStack3MetalStats,
    MlpStack3BoundaryMetalStatsV1,
};
use crate::qwen35::mlp_lane::{
    check_row, is_row, row_fault, Qwen35MetalW8BodyLayer, Qwen35MetalW8MlpBlockLayer,
};
use crate::qwen35::model::GeneralQwen35;
use crate::qwen35::stack_lane::Stack3Counters;
use crate::qwen35::state::{Qwen35HybridState, Qwen35LinearState};
use crate::tensor::Tensor;

verus! {

/// A tensor is one row of 32-bit floats.
pub open spec fn is_row_of(tensor: Tensor, width: usize, values: Seq<u32>) -> bool {
    tensor.is_f32(seq![1usize, width], values)
}

/// The stack that some work is about: a selected one, or the initial one.
pub open spec fn stack_owner(work: Work) -> Owner {
    match work {
        Work::Stack { stack, .. } => Owner::Stack(stack),
        Work::SeedStack { stack, .. } => Owner::Stack(stack),
        _ => Owner::InitialStack,
    }
}

impl GeneralQwen35 {
    /// The forward comes to a layer with the row that an accelerator returned.
    pub open spec fn continues(
        self,
        frame: Frame,
        layer_index: usize,
        values: Seq<u32>,
        after: Self,
        r: Result<ForwardRun, Error>,
    ) -> bool {
        exists|hidden: Tensor|
            {
                &&& #[trigger] is_row_of(hidden, self.config.text.hidden_size, values)
                &&& self.enters(frame, layer_index, hidden, after, r)
            }
    }

    /// Takes the embedded tokens.
    pub fn on_embedding(&mut self, run: ForwardRun, embedded: Result<Tensor, String>) -> (r: Result<
        ForwardRun,
        Error,
    >)
        requires
            old(self).wf(),
            old(self).runs(run),
            run.work is Embed,
        ensures
            final(self).wf(),
            r matches Ok(next) ==> next.work is Finished || final(self).runs(next),
            r matches Ok(next) ==> next.comes_behind(run, old(self).config.text.n_layers),
            r matches Ok(next) ==> next.layer_index == 0 && embedded is Ok && entry_of(next.work) == Some(embedded->Ok_0),
            match embedded {
                Err(cause) => old(self).fails(run.frame, cause@, *final(self), r),
                Ok(hidden) => old(self).enters(run.frame, 0, hidden, *final(self), r),
            },
    {
        match embedded {
            Err(cause) => Err(self.fail(run.frame, Error::Reported { cause })),
            Ok(hidden) => self.enter(run.frame, 0, hidden),
        }
    }

    /// Attention of a layer is to run on its normed input.
    pub open spec fn attends(
        self,
        frame: Frame,
        layer_index: usize,
        hidden: Tensor,
        normed: Tensor,
        after: Self,
        r: Result<ForwardRun, Error>,
    ) -> bool {
        if self.config.text.layer_types@[layer_index as int] == Qwen35LayerType::FullAttention {
            self.goes_on(
                frame,
                layer_index,
                Work::FullAttention {
                    hidden,
                    normed,
                    cache_index: self.state.cache_slot(layer_index as int)->Some_0,
                },
                after,
                r,
            )
        } else {
            match self.lane {
                Lane::Gdn(gdn) if gdn.layer_index == layer_index => if self.decodes(frame, normed) {
                    match row_fault(normed, gdn.dimensions.hidden_size) {
                        Some(text) => self.fails(frame, text, after, r),
                        None => self.goes_on(
                            frame,
                            layer_index,
                            Work::GdnDecode { hidden, normed },
                            after,
                            r,
                        ),
                    }
                } else if gdn.owns_state() {
                    self.fails(frame, Error::GdnOwnsState { layer_index }.text(), after, r)
                } else {
                    self.goes_on(
                        frame,
                        layer_index,
                        Work::LinearAttention { hidden, normed },
                        after,
                        r,
                    )
                },
                _ => self.goes_on(
                    frame,
                    layer_index,
                    Work::LinearAttention { hidden, normed },
                    after,
                    r,
                ),
            }
        }
    }

    /// Takes the normed input of a layer.
    pub fn on_input_norm(&mut self, run: ForwardRun, normed: Result<Tensor, String>) -> (r: Result<
        ForwardRun,
        Error,
    >)
        requires
            old(self).wf(),
            old(self).runs(run),
            run.work is InputNorm,
        ensures
            final(self).wf(),
            r matches Ok(next) ==> final(self).runs(next),
            r matches Ok(next) ==> next.comes_behind(run, old(self).config.text.n_layers),
            r matches Ok(next) ==> next.layer_index == run.layer_index && hands_on(run.work, next.work),
            r matches Ok(next) ==> normed is Ok && normed_of(next.work) == Some(normed->Ok_0),
            match normed {
                Err(cause) => old(self).fails(run.frame, cause@, *final(self), r),
                Ok(normed) => old(self).attends(
                    run.frame,
                    run.layer_index,
                    run.work->InputNorm_hidden,
                    normed,
                    *final(self),
                    r,
                ),
            },
    {
        let frame = run.frame;
        let layer_index: usize = run.layer_index;
        let hidden = match run.work {
            Work::InputNorm { hidden } => hidden,
            _ => unreached(),
        };
        let normed = match normed {
            Err(cause) => return Err(self.fail(frame, Error::Reported { cause })),
            Ok(normed) => normed,
        };
        if self.config.text.layer_types[layer_index] == Qwen35LayerType::FullAttention {
            proof {
                assert(self.state.linear@[layer_index as int] is None);
            }
            return match self.state.full_cache_index(layer_index) {
                Err(_) => unreached(),
                Ok(cache_index) => Ok(
                    ForwardRun {
                        frame,
                        layer_index,
                        work: Work::FullAttention { hidden, normed, cache_index },
                    },
                ),
            };
        }
        let decode = frame.start_pos > 0 && is_row(&normed, self.config.text.hidden_size);
        let refused: Option<Error> = match &self.lane {
            Lane::Gdn(gdn) => if gdn.layer_index == layer_index {
                if decode {
                    match check_row(&normed, gdn.dimensions.hidden_size) {
                        Err(e) => Some(e),
                        Ok(_) => {
                            return Ok(
                                ForwardRun {
                                    frame,
                                    layer_index,
                                    work: Work::GdnDecode { hidden, normed },
                                },
                            );
                        },
                    }
                } else if gdn.owns_recurrent_state() {
                    Some(Error::GdnOwnsState { layer_index })
                } else {
                    None
                }
            } else {
                None
            },
            _ => None,
        };
        match refused {
            Some(e) => Err(self.fail(frame, e)),
            None => Ok(
                ForwardRun {
                    frame,
                    layer_index,
                    work: Work::LinearAttention { hidden, normed },
                },
            ),
        }
    }

    /// Takes what the recurrent block returned for one row.
    pub fn on_gdn_decode(&mut self, run: ForwardRun, report: DecodeReport<GdnMetalStats>) -> (r:
        Result<ForwardRun, Error>)
        requires
            old(self).wf(),
            old(self).runs(run),
            run.work is GdnDecode,
        ensures
            final(self).wf(),
            r matches Ok(next) ==> final(self).runs(next),
            r matches Ok(next) ==> next.comes_behind(run, old(self).config.text.n_layers),
            r matches Ok(next) ==> next.layer_index == run.layer_index && hands_on(run.work, next.work),
            r matches Ok(next) ==> report.output is Ok && (attention_of(next.work) matches Some(row) && row.is_f32(
                seq![1usize, old(self).config.text.hidden_size],
                report.output->Ok_0@,
            )),
            ({
                let gdn = old(self).lane->Gdn_0;
                let mid = old(self).with_lane(Lane::Gdn(gdn.after_run(report)));
                match gdn.run_fault(report.output) {
                    Some(text) => mid.fails(run.frame, text, *final(self), r),
                    None => exists|attention: Tensor|
                        {
                            &&& #[trigger] is_row_of(
                                attention,
                                gdn.dimensions.hidden_size,
                                report.output->Ok_0@,
                            )
                            &&& mid.goes_on(
                                run.frame,
                                run.layer_index,
                                Work::Residual { hidden: run.work->GdnDecode_hidden, attention },
                                *final(self),
                                r,
                            )
                        },
                }
            }),
    {
        let frame = run.frame;
        let layer_index: usize = run.layer_index;
        let hidden = match run.work {
            Work::GdnDecode { hidden, .. } => hidden,
            _ => unreached(),
        };
        let ghost given = report;
        let ghost gdn = self.lane->Gdn_0;
        let finished = match &mut self.lane {
            Lane::Gdn(gdn) => gdn.finish(report),
            _ => unreached(),
        };
        match finished {
            Err(e) => Err(self.fail(frame, e)),
            Ok(attention) => {
                proof {
                    assert(is_row_of(
                        attention,
                        gdn.dimensions.hidden_size,
                        given.output->Ok_0@,
                    ));
                }
                Ok(ForwardRun { frame, layer_index, work: Work::Residual { hidden, attention } })
            },
        }
    }

    /// The model after linear attention on the CPU left a state.
    pub open spec fn keeps_state(
        self,
        layer_index: usize,
        state: Qwen35LinearState,
        after: Self,
    ) -> bool {
        &&& after.state.linear@ == self.state.linear@.update(layer_index as int, Some(state))
        &&& after == (GeneralQwen35 {
            state: Qwen35HybridState { linear: after.state.linear, ..self.state },
            ..self
        })
    }

    /// Linear attention on the CPU left an output and a state. A lane that owns
    /// the layer is to be seeded with the state.
    pub open spec fn recurs(
        self,
        frame: Frame,
        layer_index: usize,
        hidden: Tensor,
        attention: Tensor,
        state: Qwen35LinearState,
        after: Self,
        r: Result<ForwardRun, Error>,
    ) -> bool {
        exists|mid: GeneralQwen35|
            {
                &&& #[trigger] self.keeps_state(layer_index, state, mid)
                &&& if !self.lane.takes_seed(layer_index) {
                    mid.goes_on(
                        frame,
                        layer_index,
                        Work::Residual { hidden, attention },
                        after,
                        r,
                    )
                } else {
                    match seed_fault(state) {
                        Some(text) => mid.fails(frame, text, after, r),
                        None => exists|seed: GdnDecodeState|
                            {
                                &&& #[trigger] is_seed_of(seed, self.config.text, state)
                                &&& mid.goes_on(
                                    frame,
                                    layer_index,
                                    Work::PrepareSeed { hidden, attention, state: seed },
                                    after,
                                    r,
                                )
                            },
                    }
                }
            }
    }

    /// Takes the attention and the state that linear attention on the CPU left.
    pub fn on_linear_attention(
        &mut self,
        run: ForwardRun,
        outcome: Result<(Tensor, Qwen35LinearState), String>,
    ) -> (r: Result<ForwardRun, Error>)
        requires
            old(self).wf(),
            old(self).runs(run),
            run.work is LinearAttention,
        ensures
            final(self).wf(),
            r matches Ok(next) ==> final(self).runs(next),
            r matches Ok(next) ==> next.comes_behind(run, old(self).config.text.n_layers),
            r matches Ok(next) ==> next.layer_index == run.layer_index && hands_on(run.work, next.work),
            r matches Ok(next) ==> outcome is Ok && attention_of(next.work) == Some(outcome->Ok_0.0),
            r matches Ok(next) ==> outcome is Ok && final(self).state.linear@[run.layer_index as int] == Some(outcome->Ok_0.1),
            match outcome {
                Err(cause) => old(self).fails(run.frame, cause@, *final(self), r),
                Ok((attention, state)) => old(self).recurs(
                    run.frame,
                    run.layer_index,
                    run.work->LinearAttention_hidden,
                    attention,
                    state,
                    *final(self),
                    r,
                ),
            },
    {
        let frame = run.frame;
        let layer_index: usize = run.layer_index;
        let hidden = match run.work {
            Work::LinearAttention { hidden, .. } => hidden,
            _ => unreached(),
        };
        let (attention, state) = match outcome {
            Err(cause) => return Err(self.fail(frame, Error::Reported { cause })),
            Ok(left) => left,
        };
        let ghost left = state;
        let ghost before = *self;
        let seeded = self.lane.is_seeded_by(layer_index);
        let seed: Option<Result<GdnDecodeState, Error>> = if seeded {
            Some(gdn_decode_state_from_cpu(&self.config.text, &state))
        } else {
            None
        };
        let kept = self.state.linear_state_mut(layer_index, state);
        let ghost mid = *self;
        proof {
            assert(before.state.linear@[layer_index as int] is Some);
            assert(kept is Ok);
            assert(before.keeps_state(layer_index, left, mid));
            kept_state_fits(before, layer_index, left, mid);
        }
        if let Err(e) = kept {
            return Err(self.fail(frame, e));
        }
        match seed {
            None => Ok(
                ForwardRun { frame, layer_index, work: Work::Residual { hidden, attention } },
            ),
            Some(Err(e)) => Err(self.fail(frame, e)),
            Some(Ok(seed)) => {
                proof {
                    assert(is_seed_of(seed, before.config.text, left));
                }
                Ok(
                    ForwardRun {
                        frame,
                        layer_index,
                        work: Work::PrepareSeed { hidden, attention, state: seed },
                    },
                )
            },
        }
    }

    /// The work after a state was taken over by the lane.
    pub open spec fn seed_work(step: SeedStep, hidden: Tensor, attention: Tensor) -> Work {
        match step {
            SeedStep::Kept => Work::Residual { hidden, attention },
            SeedStep::Block { state } => Work::SeedBlock { hidden, attention, state },
            SeedStep::Stack { stack } => Work::SeedStack { hidden, attention, stack },
            SeedStep::Scheduled { transaction } => Work::SeedScheduled {
                hidden,
                attention,
                transaction,
            },
        }
    }

    /// Takes the answer of the accelerator to making a state of its own.
    pub fn on_prepared_seed(&mut self, run: ForwardRun, prepared: Result<(), String>) -> (r: Result<
        ForwardRun,
        Error,
    >)
        requires
            old(self).wf(),
            old(self).runs(run),
            run.work is PrepareSeed,
        ensures
            final(self).wf(),
            r matches Ok(next) ==> final(self).runs(next),
            r matches Ok(next) ==> next.comes_behind(run, old(self).config.text.n_layers),
            r matches Ok(next) ==> next.layer_index == run.layer_index && hands_on(run.work, next.work),
            match prepared {
                Err(cause) => old(self).fails(
                    run.frame,
                    Error::GdnStateSeed { cause }.text(),
                    *final(self),
                    r,
                ),
                Ok(_) => exists|lane: Lane, step: Result<SeedStep, Error>|
                    {
                        &&& #[trigger] old(self).lane.seeds(
                            run.layer_index,
                            run.work->PrepareSeed_state,
                            lane,
                            step,
                        )
                        &&& match step {
                            Err(e) => old(self).with_lane(lane).fails(
                                run.frame,
                                e.text(),
                                *final(self),
                                r,
                            ),
                            Ok(step) => old(self).with_lane(lane).goes_on(
                                run.frame,
                                run.layer_index,
                                GeneralQwen35::seed_work(
                                    step,
                                    run.work->PrepareSeed_hidden,
                                    run.work->PrepareSeed_attention,
                                ),
                                *final(self),
                                r,
                            ),
                        }
                    },
            },
    {
        let frame = run.frame;
        let layer_index: usize = run.layer_index;
        let (hidden, attention, state) = match run.work {
            Work::PrepareSeed { hidden, attention, state } => (hidden, attention, state),
            _ => unreached(),
        };
        if let Err(cause) = prepared {
            return Err(self.fail(frame, Error::GdnStateSeed { cause }));
        }
        let ghost before = *self;
        let ghost given = state;
        let step = self.lane.seed(layer_index, state);
        let ghost taken = step;
        proof {
            assert(before.lane.seeds(layer_index, given, self.lane, taken));
            seeded_lane_fits(before.lane, before.config.text, layer_index, given, self.lane, taken);
            assert(*self == before.with_lane(self.lane));
        }
        match step {
            Err(e) => Err(self.fail(frame, e)),
            Ok(SeedStep::Kept) => Ok(
                ForwardRun { frame, layer_index, work: Work::Residual { hidden, attention } },
            ),
            Ok(SeedStep::Block { state }) => Ok(
                ForwardRun {
                    frame,
                    layer_index,
                    work: Work::SeedBlock { hidden, attention, state },
                },
            ),
            Ok(SeedStep::Stack { stack }) => Ok(
                ForwardRun {
                    frame,
                    layer_index,
                    work: Work::SeedStack { hidden, attention, stack },
                },
            ),
            Ok(SeedStep::Scheduled { transaction }) => Ok(
                ForwardRun {
                    frame,
                    layer_index,
                    work: Work::SeedScheduled { hidden, attention, transaction },
                },
            ),
        }
    }

    /// Takes the answer of the recurrent block to its state.
    pub fn on_gdn_seed(
        &mut self,
        run: ForwardRun,
        outcome: Result<(), String>,
        stats: GdnMetalStats,
    ) -> (r: Result<ForwardRun, Error>)
        requires
            old(self).wf(),
            old(self).runs(run),
            run.work is SeedBlock,
            old(self).lane is Gdn,
        ensures
            final(self).wf(),
            r matches Ok(next) ==> final(self).runs(next),
            r matches Ok(next) ==> next.comes_behind(run, old(self).config.text.n_layers),
            r matches Ok(next) ==> next.layer_index == run.layer_index && hands_on(run.work, next.work),
            ({
                let gdn = old(self).lane->Gdn_0;
                let mid = old(self).with_lane(Lane::Gdn(gdn.after_seed(outcome, stats)));
                match outcome {
                    Err(cause) => mid.fails(
                        run.frame,
                        Error::GdnSeed { layer_index: gdn.layer_index, cause }.text(),
                        *final(self),
                        r,
                    ),
                    Ok(_) => mid.goes_on(
                        run.frame,
                        run.layer_index,
                        Work::Residual {
                            hidden: run.work->SeedBlock_hidden,
                            attention: run.work->SeedBlock_attention,
                        },
                        *final(self),
                        r,
                    ),
                }
            }),
    {
        let frame = run.frame;
        let layer_index: usize = run.layer_index;
        let (hidden, attention) = match run.work {
            Work::SeedBlock { hidden, attention, .. } => (hidden, attention),
            _ => unreached(),
        };
        let accepted = match &mut self.lane {
            Lane::Gdn(gdn) => gdn.seed_after_cpu_prefill(outcome, stats),
            _ => unreached(),
        };
        match accepted {
            Err(e) => Err(self.fail(frame, e)),
            Ok(_) => Ok(
                ForwardRun { frame, layer_index, work: Work::Residual { hidden, attention } },
            ),
        }
    }

    /// Takes the answer of a complete linear layer to its state.
    pub fn on_linear_seed(
        &mut self,
        run: ForwardRun,
        outcome: Result<(), String>,
        stats: LinearLayerMetalStats,
    ) -> (r: Result<ForwardRun, Error>)
        requires
            old(self).wf(),
            old(self).runs(run),
            run.work is SeedBlock,
            old(self).lane !is Gdn,
        ensures
            final(self).wf(),
            r matches Ok(next) ==> final(self).runs(next),
            r matches Ok(next) ==> next.comes_behind(run, old(self).config.text.n_layers),
            r matches Ok(next) ==> next.layer_index == run.layer_index && hands_on(run.work, next.work),
            ({
                let layer = old(self).lane.linear_of(run.layer_index);
                exists|lane: Lane|
                    {
                        &&& #[trigger] old(self).lane.puts_linear(
                            run.layer_index,
                            layer.after_seed(outcome, stats),
                            lane,
                        )
                        &&& match outcome {
                            Err(cause) => old(self).with_lane(lane).fails(
                                run.frame,
                                Error::LinearLayerSeed {
                                    layer_index: layer.layer_index,
                                    cause,
                                }.text(),
                                *final(self),
                                r,
                            ),
                            Ok(_) => old(self).with_lane(lane).goes_on(
                                run.frame,
                                run.layer_index,
                                Work::Residual {
                                    hidden: run.work->SeedBlock_hidden,
                                    attention: run.work->SeedBlock_attention,
                                },
                                *final(self),
                                r,
                            ),
                        }
                    }
            }),
    {
        let frame = run.frame;
        let layer_index: usize = run.layer_index;
        let (hidden, attention) = match run.work {
            Work::SeedBlock { hidden, attention, .. } => (hidden, attention),
            _ => unreached(),
        };
        let ghost before = *self;
        let accepted = self.lane.accept_linear_seed(layer_index, outcome, stats);
        proof {
            let layer = before.lane.linear_of(layer_index).after_seed(outcome, stats);
            assert(before.lane.puts_linear(layer_index, layer, self.lane));
            linear_layers_keep_the_fit(
                before.lane,
                before.config.text,
                layer_index,
                layer,
                self.lane,
            );
            assert(*self == before.with_lane(self.lane));
        }
        match accepted {
            Err(e) => Err(self.fail(frame, e)),
            Ok(_) => Ok(
                ForwardRun { frame, layer_index, work: Work::Residual { hidden, attention } },
            ),
        }
    }

    /// The states of a stack were handed over.
    pub open spec fn hands_over(
        self,
        owner: Owner,
        outcome: Result<(), String>,
        counters: Stack3Counters<LinearLayerStack3MetalStats>,
        lane: Lane,
    ) -> bool {
        &&& self.lane.differs_at(owner, lane)
        &&& lane.stack_counters(owner) == counters
        &&& self.lane.custody_of(owner).completes(outcome, lane.custody_of(owner))
    }

    /// Takes the answer of a stack, or of the initial stack, to its three states.
    pub fn on_stack_seed(
        &mut self,
        run: ForwardRun,
        outcome: Result<(), String>,
        counters: Stack3Counters<LinearLayerStack3MetalStats>,
    ) -> (r: Result<ForwardRun, Error>)
        requires
            old(self).wf(),
            old(self).runs(run),
            run.work is SeedStack || (run.work matches Work::SeedScheduled { transaction, .. }
                && transaction is InitialStack),
        ensures
            final(self).wf(),
            r matches Ok(next) ==> final(self).runs(next),
            r matches Ok(next) ==> next.comes_behind(run, old(self).config.text.n_layers),
            r matches Ok(next) ==> next.layer_index == run.layer_index && hands_on(run.work, next.work),
            ({
                let owner = stack_owner(run.work);
                let (hidden, attention) = match run.work {
                    Work::SeedStack { hidden, attention, .. } => (hidden, attention),
                    _ => (
                        run.work->SeedScheduled_hidden,
                        run.work->SeedScheduled_attention,
                    ),
                };
                exists|lane: Lane|
                    {
                        &&& #[trigger] old(self).hands_over(owner, outcome, counters, lane)
                        &&& match outcome {
                            Err(cause) => old(self).with_lane(lane).fails(
                                run.frame,
                                old(self).lane.custody_of(owner).owner.seed(cause).text(),
                                *final(self),
                                r,
                            ),
                            Ok(_) => old(self).with_lane(lane).goes_on(
                                run.frame,
                                run.layer_index,
                                Work::Residual { hidden, attention },
                                *final(self),
                                r,
                            ),
                        }
                    }
            }),
    {
        let frame = run.frame;
        let layer_index: usize = run.layer_index;
        let (owner, hidden, attention): (Owner, Tensor, Tensor) = match run.work {
            Work::SeedStack { hidden, attention, stack } => (
                Owner::Stack(stack),
                hidden,
                attention,
            ),
            Work::SeedScheduled { hidden, attention, .. } => (
                Owner::InitialStack,
                hidden,
                attention,
            ),
            _ => unreached(),
        };
        let ghost before = *self;
        let ghost answer = outcome;
        let ghost left = counters;
        let accepted = self.lane.accept_stack_seed(owner, outcome, counters);
        proof {
            assert(before.hands_over(owner, answer, left, self.lane));
            transactions_keep_the_fit(before.lane, before.config.text, owner, self.lane);
            assert(*self == before.with_lane(self.lane));
        }
        match accepted {
            Err(e) => Err(self.fail(frame, e)),
            Ok(_) => Ok(
                ForwardRun { frame, layer_index, work: Work::Residual { hidden, attention } },
            ),
        }
    }

    /// The states of a boundary were handed over.
    pub open spec fn hands_over_boundary(
        self,
        boundary: usize,
        outcome: Result<(), String>,
        counters: Stack3Counters<MlpStack3BoundaryMetalStatsV1>,
        lane: Lane,
    ) -> bool {
        let owner = Owner::Boundary(boundary);
        &&& self.lane.differs_at(owner, lane)
        &&& lane.schedule_of().boundaries@[boundary as int].counters == counters
        &&& self.lane.custody_of(owner).completes(outcome, lane.custody_of(owner))
    }

    /// Takes the answer of a boundary to its three states.
    pub fn on_boundary_seed(
        &mut self,
        run: ForwardRun,
        outcome: Result<(), String>,
        counters: Stack3Counters<MlpStack3BoundaryMetalStatsV1>,
    ) -> (r: Result<ForwardRun, Error>)
        requires
            old(self).wf(),
            old(self).runs(run),
            run.work matches Work::SeedScheduled { transaction, .. } && transaction is Boundary,
        ensures
            final(self).wf(),
            r matches Ok(next) ==> final(self).runs(next),
            r matches Ok(next) ==> next.comes_behind(run, old(self).config.text.n_layers),
            r matches Ok(next) ==> next.layer_index == run.layer_index && hands_on(run.work, next.work),
            ({
                let boundary = run.work->SeedScheduled_transaction->Boundary_0;
                let owner = Owner::Boundary(boundary);
                exists|lane: Lane|
                    {
                        &&& #[trigger] old(self).hands_over_boundary(
                            boundary,
                            outcome,
                            counters,
                            lane,
                        )
                        &&& match outcome {
                            Err(cause) => old(self).with_lane(lane).fails(
                                run.frame,
                                old(self).lane.custody_of(owner).owner.seed(cause).text(),
                                *final(self),
                                r,
                            ),
                            Ok(_) => old(self).with_lane(lane).goes_on(
                                run.frame,
                                run.layer_index,
                                Work::Residual {
                                    hidden: run.work->SeedScheduled_hidden,
                                    attention: run.work->SeedScheduled_attention,
                                },
                                *final(self),
                                r,
                            ),
                        }
                    }
            }),
    {
        let frame = run.frame;
        let layer_index: usize = run.layer_index;
        let (hidden, attention, boundary): (Tensor, Tensor, usize) = match run.work {
            Work::SeedScheduled { hidden, attention, transaction } => match transaction {
                Transaction::Boundary(boundary) => (hidden, attention, boundary),
                Transaction::InitialStack => unreached(),
            },
            _ => unreached(),
        };
        let ghost before = *self;
        let ghost answer = outcome;
        let ghost left = counters;
        let accepted = self.lane.accept_boundary_seed(boundary, outcome, counters);
        proof {
            assert(before.hands_over_boundary(boundary, answer, left, self.lane));
            transactions_keep_the_fit(
                before.lane,
                before.config.text,
                Owner::Boundary(boundary),
                self.lane,
            );
            assert(*self == before.with_lane(self.lane));
        }
        match accepted {
            Err(e) => Err(self.fail(frame, e)),
            Ok(_) => Ok(
                ForwardRun { frame, layer_index, work: Work::Residual { hidden, attention } },
            ),
        }
    }

    /// Takes the output of full attention.
    pub fn on_full_attention(&mut self, run: ForwardRun, attention: Result<Tensor, String>) -> (r:
        Result<ForwardRun, Error>)
        requires
            old(self).wf(),
            old(self).runs(run),
            run.work is FullAttention,
        ensures
            final(self).wf(),
            r matches Ok(next) ==> final(self).runs(next),
            r matches Ok(next) ==> next.comes_behind(run, old(self).config.text.n_layers),
            r matches Ok(next) ==> next.layer_index == run.layer_index && hands_on(run.work, next.work),
            r matches Ok(next) ==> attention is Ok && attention_of(next.work) == Some(attention->Ok_0),
            match attention {
                Err(cause) => old(self).fails(run.frame, cause@, *final(self), r),
                Ok(attention) => old(self).goes_on(
                    run.frame,
                    run.layer_index,
                    Work::Residual { hidden: run.work->FullAttention_hidden, attention },
                    *final(self),
                    r,
                ),
            },
    {
        let frame = run.frame;
        let layer_index: usize = run.layer_index;
        let hidden = match run.work {
            Work::FullAttention { hidden, .. } => hidden,
            _ => unreached(),
        };
        match attention {
            Err(cause) => Err(self.fail(frame, Error::Reported { cause })),
            Ok(attention) => Ok(
                ForwardRun { frame, layer_index, work: Work::Residual { hidden, attention } },
            ),
        }
    }

    /// The accelerated feed-forward block of a layer.
    pub open spec fn block_of(self, layer_index: usize) -> Option<Qwen35MetalW8MlpBlockLayer> {
        match self.mlp_blocks {
            Some(blocks) => blocks.block_of(layer_index as int),
            None => None,
        }
    }

    fn block(&self, layer_index: usize) -> (r: Option<Qwen35MetalW8MlpBlockLayer>)
        ensures
            r == self.block_of(layer_index),
    {
        match &self.mlp_blocks {
            Some(blocks) => blocks.layer(layer_index),
            None => None,
        }
    }

    /// The accelerated gate and up projection of a layer.
    pub open spec fn gate_up_of(self, layer_index: usize) -> Option<Qwen35MetalW8BodyLayer> {
        match self.body {
            Some(body) => body.layer_of(layer_index as int),
            None => None,
        }
    }

    fn gate_up(&self, layer_index: usize) -> (r: Option<Qwen35MetalW8BodyLayer>)
        ensures
            r == self.gate_up_of(layer_index),
    {
        match &self.body {
            Some(body) => body.layer(layer_index),
            None => None,
        }
    }

    /// The feed-forward block of a layer is to run: the accelerated block, the
    /// accelerated gate and up projection, or the CPU.
    pub open spec fn feeds(
        self,
        frame: Frame,
        layer_index: usize,
        residual: Tensor,
        normed: Tensor,
        after: Self,
        r: Result<ForwardRun, Error>,
    ) -> bool {
        let single = frame.start_pos > 0 && normed.dims()[0] == 1;
        if single && self.block_of(layer_index) is Some {
            match row_fault(normed, self.block_of(layer_index)->Some_0.hidden_size) {
                Some(text) => self.fails(frame, text, after, r),
                None => self.goes_on(
                    frame,
                    layer_index,
                    Work::MlpBlock { residual, normed },
                    after,
                    r,
                ),
            }
        } else if single && self.gate_up_of(layer_index) is Some {
            match row_fault(normed, self.gate_up_of(layer_index)->Some_0.columns) {
                Some(text) => self.fails(frame, text, after, r),
                None => self.goes_on(
                    frame,
                    layer_index,
                    Work::GateUp { residual, normed },
                    after,
                    r,
                ),
            }
        } else {
            self.goes_on(frame, layer_index, Work::Mlp { residual, normed }, after, r)
        }
    }

    /// Takes the residual and the post-attention norm of it.
    pub fn on_residual(&mut self, run: ForwardRun, outcome: Result<(Tensor, Tensor), String>) -> (r:
        Result<ForwardRun, Error>)
        requires
            old(self).wf(),
            old(self).runs(run),
            run.work is Residual,
            outcome matches Ok((_, normed)) ==> normed.dims().len() > 0,
        ensures
            final(self).wf(),
            r matches Ok(next) ==> final(self).runs(next),
            r matches Ok(next) ==> next.comes_behind(run, old(self).config.text.n_layers),
            r matches Ok(next) ==> next.layer_index == run.layer_index && outcome is Ok,
            r matches Ok(next) ==> residual_of(next.work) == Some(outcome->Ok_0.0),
            r matches Ok(next) ==> normed_of(next.work) == Some(outcome->Ok_0.1),
            match outcome {
                Err(cause) => old(self).fails(run.frame, cause@, *final(self), r),
                Ok((residual, normed)) => old(self).feeds(
                    run.frame,
                    run.layer_index,
                    residual,
                    normed,
                    *final(self),
                    r,
                ),
            },
    {
        let frame = run.frame;
        let layer_index: usize = run.layer_index;
        let (residual, normed) = match outcome {
            Err(cause) => return Err(self.fail(frame, Error::Reported { cause })),
            Ok(pair) => pair,
        };
        let single = frame.start_pos > 0 && normed.shape()[0] == 1;
        if single {
            if let Some(block) = self.block(layer_index) {
                return match check_row(&normed, block.hidden_size) {
                    Err(e) => Err(self.fail(frame, e)),
                    Ok(_) => Ok(
                        ForwardRun {
                            frame,
                            layer_index,
                            work: Work::MlpBlock { residual, normed },
                        },
                    ),
                };
            }
            if let Some(body) = self.gate_up(layer_index) {
                return match check_row(&normed, body.columns) {
                    Err(e) => Err(self.fail(frame, e)),
                    Ok(_) => Ok(
                        ForwardRun { frame, layer_index, work: Work::GateUp { residual, normed } },
                    ),
                };
            }
        }
        Ok(ForwardRun { frame, layer_index, work: Work::Mlp { residual, normed } })
    }

    /// Takes the output of the feed-forward block on the CPU.
    pub fn on_mlp(&mut self, run: ForwardRun, mlp: Result<Tensor, String>) -> (r: Result<
        ForwardRun,
        Error,
    >)
        requires
            old(self).wf(),
            old(self).runs(run),
            run.work is Mlp || run.work is ActivateDown,
        ensures
            final(self).wf(),
            r matches Ok(next) ==> final(self).runs(next),
            r matches Ok(next) ==> next.comes_behind(run, old(self).config.text.n_layers),
            r matches Ok(next) ==> next.layer_index == run.layer_index && hands_on(run.work, next.work),
            r matches Ok(next) ==> mlp is Ok && mlp_of(next.work) == Some(mlp->Ok_0),
            match mlp {
                Err(cause) => old(self).fails(run.frame, cause@, *final(self), r),
                Ok(mlp) => old(self).goes_on(
                    run.frame,
                    run.layer_index,
                    Work::AddMlp {
                        residual: match run.work {
                            Work::Mlp { residual, .. } => residual,
                            _ => run.work->ActivateDown_residual,
                        },
                        mlp,
                    },
                    *final(self),
                    r,
                ),
            },
    {
        let frame = run.frame;
        let layer_index: usize = run.layer_index;
        let residual = match run.work {
            Work::Mlp { residual, .. } => residual,
            Work::ActivateDown { residual, .. } => residual,
            _ => unreached(),
        };
        match mlp {
            Err(cause) => Err(self.fail(frame, Error::Reported { cause })),
            Ok(mlp) => Ok(
                ForwardRun { frame, layer_index, work: Work::AddMlp { residual, mlp } },
            ),
        }
    }

    /// The model with another feed-forward block at a layer.
    pub open spec fn puts_block(
        self,
        layer_index: usize,
        block: Qwen35MetalW8MlpBlockLayer,
        after: Self,
    ) -> bool {
        &&& after.mlp_blocks is Some
        &&& after.mlp_blocks->Some_0.layers@ == self.mlp_blocks->Some_0.layers@.update(
            layer_index as int,
            Some(block),
        )
        &&& after == (GeneralQwen35 { mlp_blocks: after.mlp_blocks, ..self })
    }

    /// Takes what the accelerated feed-forward block returned for one row.
    pub fn on_mlp_block(
        &mut self,
        run: ForwardRun,
        output: Result<Vec<u32>, String>,
        elapsed_ns: u128,
    ) -> (r: Result<ForwardRun, Error>)
        requires
            old(self).wf(),
            old(self).runs(run),
            run.work is MlpBlock,
        ensures
            final(self).wf(),
            r matches Ok(next) ==> final(self).runs(next),
            r matches Ok(next) ==> next.comes_behind(run, old(self).config.text.n_layers),
            r matches Ok(next) ==> next.layer_index == run.layer_index && hands_on(run.work, next.work),
            r matches Ok(next) ==> output is Ok && (mlp_of(next.work) matches Some(row) && row.is_f32(
                seq![1usize, old(self).config.text.hidden_size],
                output->Ok_0@,
            )),
            ({
                let block = old(self).block_of(run.layer_index)->Some_0;
                exists|mid: GeneralQwen35|
                    {
                        &&& #[trigger] old(self).puts_block(
                            run.layer_index,
                            block.after_run(output, elapsed_ns),
                            mid,
                        )
                        &&& match block.run_fault(output) {
                            Some(text) => mid.fails(run.frame, text, *final(self), r),
                            None => exists|mlp: Tensor|
                                {
                                    &&& #[trigger] is_row_of(mlp, block.hidden_size, output->Ok_0@)
                                    &&& mid.goes_on(
                                        run.frame,
                                        run.layer_index,
                                        Work::AddMlp { residual: run.work->MlpBlock_residual, mlp },
                                        *final(self),
                                        r,
                                    )
                                },
                        }
                    }
            }),
    {
        let frame = run.frame;
        let layer_index: usize = run.layer_index;
        let residual = match run.work {
            Work::MlpBlock { residual, .. } => residual,
            _ => unreached(),
        };
        let ghost before = *self;
        let mut block = match self.block(layer_index) {
            Some(block) => block,
            None => unreached(),
        };
        let ghost given = output;
        let finished = block.finish(output, elapsed_ns);
        if let Some(blocks) = &mut self.mlp_blocks {
            blocks.layer_mut(layer_index, block);
        }
        let ghost mid = *self;
        proof {
            let b = before.block_of(layer_index)->Some_0;
            assert(block == b.after_run(given, elapsed_ns));
            assert(before.puts_block(layer_index, b.after_run(given, elapsed_ns), mid));
            let old_layers = before.mlp_blocks->Some_0.layers@;
            let new_layers = mid.mlp_blocks->Some_0.layers@;
            assert(old_layers[layer_index as int] is Some);
            assert forall|i: int|
                0 <= i < mid.config.text.n_layers && (#[trigger] new_layers[i]) is Some implies
                new_layers[i]->Some_0.layer_index == i && new_layers[i]->Some_0.hidden_size
                == mid.config.text.hidden_size by {
                assert(old_layers[i] is Some);
            }
            assert(mid.wf());
        }
        match finished {
            Err(e) => Err(self.fail(frame, e)),
            Ok(mlp) => {
                proof {
                    let b = before.block_of(layer_index)->Some_0;
                    assert(is_row_of(mlp, b.hidden_size, given->Ok_0@));
                }
                Ok(ForwardRun { frame, layer_index, work: Work::AddMlp { residual, mlp } })
            },
        }
    }

    /// The model with another gate and up projection at a layer.
    pub open spec fn puts_gate_up(
        self,
        layer_index: usize,
        layer: Qwen35MetalW8BodyLayer,
        after: Self,
    ) -> bool {
        &&& after.body is Some
        &&& after.body->Some_0.layers@ == self.body->Some_0.layers@.update(
            layer_index as int,
            Some(layer),
        )
        &&& after == (GeneralQwen35 { body: after.body, ..self })
    }

    /// Takes what the accelerated gate and up projection returned for one row.
    pub fn on_gate_up(
        &mut self,
        run: ForwardRun,
        output: Result<Vec<u32>, String>,
        elapsed_ns: u128,
    ) -> (r: Result<ForwardRun, Error>)
        requires
            old(self).wf(),
            old(self).runs(run),
            run.work is GateUp,
        ensures
            final(self).wf(),
            r matches Ok(next) ==> final(self).runs(next),
            r matches Ok(next) ==> next.comes_behind(run, old(self).config.text.n_layers),
            r matches Ok(next) ==> next.layer_index == run.layer_index && hands_on(run.work, next.work),
            r matches Ok(next) ==> output is Ok && (next.work matches Work::ActivateDown { gate, up, .. } && ({
                let values = output->Ok_0@;
                let half = values.len() as int / 2;
                &&& gate.is_f32(seq![1usize, half as usize], values.subrange(0, half))
                &&& up.is_f32(
                    seq![1usize, half as usize],
                    values.subrange(half, values.len() as int),
                )
            })),
            ({
                let layer = old(self).gate_up_of(run.layer_index)->Some_0;
                exists|mid: GeneralQwen35|
                    {
                        &&& #[trigger] old(self).puts_gate_up(
                            run.layer_index,
                            layer.after_run(output, elapsed_ns),
                            mid,
                        )
                        &&& match layer.run_fault(output) {
                            Some(text) => mid.fails(run.frame, text, *final(self), r),
                            None => {
                                let values = output->Ok_0@;
                                let half = values.len() as int / 2;
                                exists|gate: Tensor, up: Tensor|
                                    {
                                        &&& #[trigger] is_row_of(
                                            gate,
                                            half as usize,
                                            values.take(half),
                                        )
                                        &&& #[trigger] is_row_of(
                                            up,
                                            half as usize,
                                            values.skip(half),
                                        )
                                        &&& mid.goes_on(
                                            run.frame,
                                            run.layer_index,
                                            Work::ActivateDown {
                                                residual: run.work->GateUp_residual,
                                                gate,
                                                up,
                                            },
                                            *final(self),
                                            r,
                                        )
                                    }
                            },
                        }
                    }
            }),
    {
        let frame = run.frame;
        let layer_index: usize = run.layer_index;
        let residual = match run.work {
            Work::GateUp { residual, .. } => residual,
            _ => unreached(),
        };
        let ghost before = *self;
        let mut layer = match self.gate_up(layer_index) {
            Some(layer) => layer,
            None => unreached(),
        };
        let ghost given = output;
        let finished = layer.finish(output, elapsed_ns);
        if let Some(body) = &mut self.body {
            body.layer_mut(layer_index, layer);
        }
        let ghost mid = *self;
        proof {
            let b = before.gate_up_of(layer_index)->Some_0;
            assert(layer == b.after_run(given, elapsed_ns));
            assert(before.puts_gate_up(layer_index, b.after_run(given, elapsed_ns), mid));
            let old_layers = before.body->Some_0.layers@;
            let new_layers = mid.body->Some_0.layers@;
            assert(old_layers[layer_index as int] is Some);
            assert forall|i: int|
                0 <= i < mid.config.text.n_layers && (#[trigger] new_layers[i]) is Some implies
                new_layers[i]->Some_0.layer_index == i && new_layers[i]->Some_0.columns
                == mid.config.text.hidden_size by {
                assert(old_layers[i] is Some);
            }
            assert(mid.wf());
        }
        match finished {
            Err(e) => Err(self.fail(frame, e)),
            Ok((gate, up)) => {
                proof {
                    let values = given->Ok_0@;
                    let half = values.len() as int / 2;
                    assert(is_row_of(gate, half as usize, values.take(half)));
                    assert(is_row_of(up, half as usize, values.skip(half)));
                }
                Ok(
                    ForwardRun {
                        frame,
                        layer_index,
                        work: Work::ActivateDown { residual, gate, up },
                    },
                )
            },
        }
    }

    /// Takes the sum of the residual and the feed-forward output, and goes on to
    /// the next layer.
    pub fn on_add_mlp(&mut self, run: ForwardRun, sum: Result<Tensor, String>) -> (r: Result<
        ForwardRun,
        Error,
    >)
        requires
            old(self).wf(),
            old(self).runs(run),
            run.work is AddMlp,
        ensures
            final(self).wf(),
            r matches Ok(next) ==> next.work is Finished || final(self).runs(next),
            r matches Ok(next) ==> next.comes_behind(run, old(self).config.text.n_layers),
            r matches Ok(next) ==> next.layer_index == run.layer_index + 1 && sum is Ok && entry_of(next.work) == Some(sum->Ok_0),
            match sum {
                Err(cause) => old(self).fails(run.frame, cause@, *final(self), r),
                Ok(hidden) => old(self).enters(
                    run.frame,
                    (run.layer_index + 1) as usize,
                    hidden,
                    *final(self),
                    r,
                ),
            },
    {
        match sum {
            Err(cause) => Err(self.fail(run.frame, Error::Reported { cause })),
            Ok(hidden) => self.enter(run.frame, run.layer_index + 1, hidden),
        }
    }

    /// Takes what an accelerated complete linear layer returned for one row.
    pub fn on_linear_layer(
        &mut self,
        run: ForwardRun,
        report: DecodeReport<LinearLayerMetalStats>,
    ) -> (r: Result<ForwardRun, Error>)
        requires
            old(self).wf(),
            old(self).runs(run),
            run.work is LinearLayer,
        ensures
            final(self).wf(),
            r matches Ok(next) ==> next.work is Finished || final(self).runs(next),
            r matches Ok(next) ==> next.comes_behind(run, old(self).config.text.n_layers),
            r matches Ok(next) ==> next.layer_index == run.layer_index + 1 && report.output is Ok && (entry_of(next.work) matches Some(row) && row.is_f32(
                seq![1usize, old(self).config.text.hidden_size],
                report.output->Ok_0@,
            )),
            ({
                let layer = old(self).lane.linear_of(run.layer_index);
                exists|lane: Lane|
                    {
                        let mid = old(self).with_lane(lane);
                        &&& #[trigger] old(self).lane.puts_linear(
                            run.layer_index,
                            layer.after_run(report),
                            lane,
                        )
                        &&& match layer.run_fault(report.output) {
                            Some(text) => mid.fails(run.frame, text, *final(self), r),
                            None => mid.continues(
                                run.frame,
                                (run.layer_index + 1) as usize,
                                report.output->Ok_0@,
                                *final(self),
                                r,
                            ),
                        }
                    }
            }),
    {
        let layer_index: usize = run.layer_index;
        let ghost before = *self;
        let ghost given = report;
        let finished = self.lane.finish_linear(layer_index, report);
        let ghost mid = *self;
        proof {
            let layer = before.lane.linear_of(layer_index);
            assert(before.lane.puts_linear(layer_index, layer.after_run(given), mid.lane));
            linear_layers_keep_the_fit(
                before.lane,
                before.config.text,
                layer_index,
                layer.after_run(given),
                mid.lane,
            );
            assert(mid == before.with_lane(mid.lane));
            linear_dimensions(before.lane, before.config.text, layer_index);
        }
        match finished {
            Err(e) => Err(self.fail(run.frame, e)),
            Ok(hidden) => {
                proof {
                    assert(is_row_of(hidden, mid.config.text.hidden_size, given.output->Ok_0@));
                }
                self.enter(run.frame, layer_index + 1, hidden)
            },
        }
    }

    /// Takes what the packed reference returned for one row.
    pub fn on_reference(
        &mut self,
        run: ForwardRun,
        output: Result<(Vec<u32>, GdnDecodeState), String>,
        elapsed_ns: u128,
    ) -> (r: Result<ForwardRun, Error>)
        requires
            old(self).wf(),
            old(self).runs(run),
            run.work is Reference,
        ensures
            final(self).wf(),
            r matches Ok(next) ==> next.work is Finished || final(self).runs(next),
            r matches Ok(next) ==> next.comes_behind(run, old(self).config.text.n_layers),
            r matches Ok(next) ==> next.layer_index == run.layer_index + 1 && output is Ok && (entry_of(next.work) matches Some(row) && row.is_f32(
                seq![1usize, old(self).config.text.hidden_size],
                output->Ok_0.0@,
            )),
            ({
                let reference = old(self).lane->PackedReference_0;
                let mid = old(self).with_lane(
                    Lane::PackedReference(reference.after_run(output, elapsed_ns)),
                );
                match reference.run_fault(output) {
                    Some(text) => mid.fails(run.frame, text, *final(self), r),
                    None => mid.continues(
                        run.frame,
                        (run.layer_index + 1) as usize,
                        output->Ok_0.0@,
                        *final(self),
                        r,
                    ),
                }
            }),
    {
        let ghost before = *self;
        let ghost given = output;
        let finished = match &mut self.lane {
            Lane::PackedReference(reference) => reference.finish(output, elapsed_ns),
            _ => unreached(),
        };
        let ghost mid = *self;
        match finished {
            Err(e) => Err(self.fail(run.frame, e)),
            Ok(hidden) => {
                proof {
                    assert(is_row_of(hidden, mid.config.text.hidden_size, given->Ok_0.0@));
                }
                self.enter(run.frame, run.layer_index + 1, hidden)
            },
        }
    }

    /// A stack, or the initial stack, has run.
    pub open spec fn runs_stack(
        self,
        owner: Owner,
        report: DecodeReport<Stack3Counters<LinearLayerStack3MetalStats>>,
        lane: Lane,
    ) -> bool {
        &&& self.lane.differs_at(owner, lane)
        &&& lane.stack_counters(owner) == report.stats
        &&& lane.custody_of(owner) == self.lane.custody_of(owner).after_run(
            report.output,
            report.elapsed_ns,
        )
    }

    /// The layer behind a stack, or behind the initial stack.
    pub open spec fn layer_behind(self, owner: Owner) -> usize {
        let layers = match owner {
            Owner::Stack(stack) => self.lane->Stacks_0.stacks@[stack as int].layer_indices@,
            _ => self.lane.schedule_of().initial_stack.layer_indices@,
        };
        (layers[2] + 1) as usize
    }

    /// Takes what a stack, or the initial stack, returned for one row, and goes
    /// on behind its three layers.
    pub fn on_stack(
        &mut self,
        run: ForwardRun,
        report: DecodeReport<Stack3Counters<LinearLayerStack3MetalStats>>,
    ) -> (r: Result<ForwardRun, Error>)
        requires
            old(self).wf(),
            old(self).runs(run),
            run.work is Stack || run.work is InitialStack,
        ensures
            final(self).wf(),
            r matches Ok(next) ==> next.work is Finished || final(self).runs(next),
            r matches Ok(next) ==> next.comes_behind(run, old(self).config.text.n_layers),
            r matches Ok(next) ==> next.layer_index == run.layer_index + 3 && report.output is Ok && (entry_of(next.work) matches Some(row) && row.is_f32(
                seq![1usize, old(self).config.text.hidden_size],
                report.output->Ok_0@,
            )),
            ({
                let owner = stack_owner(run.work);
                exists|lane: Lane|
                    {
                        let mid = old(self).with_lane(lane);
                        &&& #[trigger] old(self).runs_stack(owner, report, lane)
                        &&& match old(self).lane.custody_of(owner).run_fault(report.output) {
                            Some(text) => mid.fails(run.frame, text, *final(self), r),
                            None => mid.continues(
                                run.frame,
                                old(self).layer_behind(owner),
                                report.output->Ok_0@,
                                *final(self),
                                r,
                            ),
                        }
                    }
            }),
    {
        let ghost before = *self;
        let ghost given = report;
        let (owner, behind): (Owner, usize) = match run.work {
            Work::Stack { stack, .. } => match &self.lane {
                Lane::Stacks(lane) => {
                    proof {
                        assert(crate::qwen35::stacks_lane::is_stack_of(
                            lane.stacks@[stack as int],
                            self.config.text,
                        ));
                    }
                    (Owner::Stack(stack), lane.stacks[stack].layer_indices[2] + 1)
                },
                _ => unreached(),
            },
            _ => match &self.lane {
                Lane::BoundaryBody(body) => (
                    Owner::InitialStack,
                    body.schedule.initial_stack.layer_indices[2] + 1,
                ),
                Lane::TailHead(lane) => (
                    Owner::InitialStack,
                    lane.schedule.initial_stack.layer_indices[2] + 1,
                ),
                _ => unreached(),
            },
        };
        let finished = self.lane.finish_stack(owner, report);
        let ghost mid = *self;
        proof {
            assert(before.runs_stack(owner, given, mid.lane));
            transactions_keep_the_fit(before.lane, before.config.text, owner, mid.lane);
            assert(mid == before.with_lane(mid.lane));
            custody_dimensions(before.lane, before.config.text, owner);
        }
        match finished {
            Err(e) => Err(self.fail(run.frame, e)),
            Ok(hidden) => {
                proof {
                    assert(is_row_of(hidden, mid.config.text.hidden_size, given.output->Ok_0@));
                }
                self.enter(run.frame, behind, hidden)
            },
        }
    }

    /// Takes the residual of full attention of a layer of the schedule: a
    /// boundary runs next on it; behind the final layer the final feed-forward
    /// block runs, or the tail takes the residual as it is.
    pub fn on_full_residual(&mut self, run: ForwardRun, residual: Result<Tensor, String>) -> (r:
        Result<ForwardRun, Error>)
        requires
            old(self).wf(),
            old(self).runs(run),
            run.work is FullResidual,
        ensures
            final(self).wf(),
            r matches Ok(next) ==> next.work is Finished || final(self).runs(next),
            r matches Ok(next) ==> next.comes_behind(run, old(self).config.text.n_layers),
            r matches Ok(next) ==> residual is Ok && match next.work {
                Work::Boundary { residual: r, .. } => r == residual->Ok_0 && next.layer_index
                    == run.layer_index,
                Work::FinalNorm { residual: r } => r == residual->Ok_0 && next.layer_index
                    == run.layer_index,
                _ => entry_of(next.work) == Some(residual->Ok_0) && next.layer_index
                    == run.layer_index + 1,
            },
            match residual {
                Err(cause) => old(self).fails(run.frame, cause@, *final(self), r),
                Ok(residual) => match BoundarySchedule::boundary_of(run.layer_index as int) {
                    Some(boundary) => old(self).starts(
                        run.frame,
                        run.layer_index,
                        Owner::Boundary(boundary),
                        residual,
                        Work::Boundary { boundary, residual },
                        *final(self),
                        r,
                    ),
                    None => if old(self).lane is TailHead {
                        old(self).enters(
                            run.frame,
                            (run.layer_index + 1) as usize,
                            residual,
                            *final(self),
                            r,
                        )
                    } else {
                        old(self).goes_on(
                            run.frame,
                            run.layer_index,
                            Work::FinalNorm { residual },
                            *final(self),
                            r,
                        )
                    },
                },
            },
    {
        let frame = run.frame;
        let layer_index: usize = run.layer_index;
        let residual = match residual {
            Err(cause) => return Err(self.fail(frame, Error::Reported { cause })),
            Ok(residual) => residual,
        };
        match BoundarySchedule::boundary_index(layer_index) {
            Some(boundary) => {
                if let Err(e) = self.start(
                    frame,
                    layer_index,
                    Owner::Boundary(boundary),
                    &residual,
                ) {
                    return Err(e);
                }
                Ok(ForwardRun { frame, layer_index, work: Work::Boundary { boundary, residual } })
            },
            None => match &self.lane {
                Lane::TailHead(_) => self.enter(frame, layer_index + 1, residual),
                _ => Ok(ForwardRun { frame, layer_index, work: Work::FinalNorm { residual } }),
            },
        }
    }

    /// A boundary has run.
    pub open spec fn runs_boundary(
        self,
        boundary: usize,
        report: DecodeReport<Stack3Counters<MlpStack3BoundaryMetalStatsV1>>,
        lane: Lane,
    ) -> bool {
        let owner = Owner::Boundary(boundary);
        &&& self.lane.differs_at(owner, lane)
        &&& lane.schedule_of().boundaries@[boundary as int].counters == report.stats
        &&& lane.custody_of(owner) == self.lane.custody_of(owner).after_run(
            report.output,
            report.elapsed_ns,
        )
    }

    /// Takes what a boundary returned for one row, and goes on behind its stack.
    pub fn on_boundary(
        &mut self,
        run: ForwardRun,
        report: DecodeReport<Stack3Counters<MlpStack3BoundaryMetalStatsV1>>,
    ) -> (r: Result<ForwardRun, Error>)
        requires
            old(self).wf(),
            old(self).runs(run),
            run.work is Boundary,
        ensures
            final(self).wf(),
            r matches Ok(next) ==> next.work is Finished || final(self).runs(next),
            r matches Ok(next) ==> next.comes_behind(run, old(self).config.text.n_layers),
            r matches Ok(next) ==> next.layer_index == run.layer_index + 4 && report.output is Ok && (entry_of(next.work) matches Some(row) && row.is_f32(
                seq![1usize, old(self).config.text.hidden_size],
                report.output->Ok_0@,
            )),
            ({
                let boundary = run.work->Boundary_boundary;
                let owner = Owner::Boundary(boundary);
                let region = old(self).lane.schedule_of().boundaries@[boundary as int];
                exists|lane: Lane|
                    {
                        let mid = old(self).with_lane(lane);
                        &&& #[trigger] old(self).runs_boundary(boundary, report, lane)
                        &&& match old(self).lane.custody_of(owner).run_fault(report.output) {
                            Some(text) => mid.fails(run.frame, text, *final(self), r),
                            None => mid.continues(
                                run.frame,
                                (region.stack_layer_indices@[2] + 1) as usize,
                                report.output->Ok_0@,
                                *final(self),
                                r,
                            ),
                        }
                    }
            }),
    {
        let ghost before = *self;
        let ghost given = report;
        let boundary: usize = match run.work {
            Work::Boundary { boundary, .. } => boundary,
            _ => unreached(),
        };
        proof {
            let schedule = self.lane.schedule_of();
            assert(schedule.boundaries@[boundary as int].boundary_mlp_layer_index
                == crate::qwen35::boundary_lane::boundary_layer(boundary as int));
        }
        let behind: usize = match &self.lane {
            Lane::BoundaryBody(body) => body.schedule.boundaries[boundary].stack_layer_indices[2]
                + 1,
            Lane::TailHead(lane) => lane.schedule.boundaries[boundary].stack_layer_indices[2] + 1,
            _ => unreached(),
        };
        let finished = self.lane.finish_boundary(boundary, report);
        let ghost mid = *self;
        proof {
            assert(before.runs_boundary(boundary, given, mid.lane));
            transactions_keep_the_fit(
                before.lane,
                before.config.text,
                Owner::Boundary(boundary),
                mid.lane,
            );
            assert(mid == before.with_lane(mid.lane));
            custody_dimensions(before.lane, before.config.text, Owner::Boundary(boundary));
        }
        match finished {
            Err(e) => Err(self.fail(run.frame, e)),
            Ok(hidden) => {
                proof {
                    assert(is_row_of(hidden, mid.config.text.hidden_size, given.output->Ok_0@));
                }
                self.enter(run.frame, behind, hidden)
            },
        }
    }

    /// Takes the post-attention norm of the final layer.
    pub fn on_final_norm(&mut self, run: ForwardRun, normed: Result<Tensor, String>) -> (r: Result<
        ForwardRun,
        Error,
    >)
        requires
            old(self).wf(),
            old(self).runs(run),
            run.work is FinalNorm,
        ensures
            final(self).wf(),
            r matches Ok(next) ==> final(self).runs(next),
            r matches Ok(next) ==> next.comes_behind(run, old(self).config.text.n_layers),
            r matches Ok(next) ==> next.layer_index == run.layer_index && hands_on(run.work, next.work),
            r matches Ok(next) ==> normed is Ok && normed_of(next.work) == Some(normed->Ok_0),
            match normed {
                Err(cause) => old(self).fails(run.frame, cause@, *final(self), r),
                Ok(normed) => match row_fault(
                    normed,
                    old(self).lane->BoundaryBody_0.final_mlp.hidden_size,
                ) {
                    Some(text) => old(self).fails(run.frame, text, *final(self), r),
                    None => old(self).goes_on(
                        run.frame,
                        run.layer_index,
                        Work::FinalMlp { residual: run.work->FinalNorm_residual, normed },
                        *final(self),
                        r,
                    ),
                },
            },
    {
        let frame = run.frame;
        let layer_index: usize = run.layer_index;
        let residual = match run.work {
            Work::FinalNorm { residual } => residual,
            _ => unreached(),
        };
        let normed = match normed {
            Err(cause) => return Err(self.fail(frame, Error::Reported { cause })),
            Ok(normed) => normed,
        };
        let checked = match &self.lane {
            Lane::BoundaryBody(body) => check_row(&normed, body.final_mlp.hidden_size),
            _ => unreached(),
        };
        match checked {
            Err(e) => Err(self.fail(frame, e)),
            Ok(_) => Ok(
                ForwardRun { frame, layer_index, work: Work::FinalMlp { residual, normed } },
            ),
        }
    }

    /// Takes what the final accelerated feed-forward block returned for one row.
    pub fn on_final_mlp(
        &mut self,
        run: ForwardRun,
        output: Result<Vec<u32>, String>,
        elapsed_ns: u128,
    ) -> (r: Result<ForwardRun, Error>)
        requires
            old(self).wf(),
            old(self).runs(run),
            run.work is FinalMlp,
        ensures
            final(self).wf(),
            r matches Ok(next) ==> final(self).runs(next),
            r matches Ok(next) ==> next.comes_behind(run, old(self).config.text.n_layers),
            r matches Ok(next) ==> next.layer_index == run.layer_index && hands_on(run.work, next.work),
            r matches Ok(next) ==> output is Ok && (mlp_of(next.work) matches Some(row) && row.is_f32(
                seq![1usize, old(self).config.text.hidden_size],
                output->Ok_0@,
            )),
            ({
                let body = old(self).lane->BoundaryBody_0;
                let mid = old(self).with_lane(
                    Lane::BoundaryBody(
                        (crate::qwen35::boundary_lane::Qwen35MetalW8MlpStack3BoundaryBodyV1 {
                            final_mlp: body.final_mlp.after_run(output, elapsed_ns),
                            ..body
                        }),
                    ),
                );
                match body.final_mlp.run_fault(output) {
                    Some(text) => mid.fails(run.frame, text, *final(self), r),
                    None => exists|mlp: Tensor|
                        {
                            &&& #[trigger] is_row_of(mlp, body.final_mlp.hidden_size, output->Ok_0@)
                            &&& mid.goes_on(
                                run.frame,
                                run.layer_index,
                                Work::AddMlp { residual: run.work->FinalMlp_residual, mlp },
                                *final(self),
                                r,
                            )
                        },
                }
            }),
    {
        let frame = run.frame;
        let layer_index: usize = run.layer_index;
        let residual = match run.work {
            Work::FinalMlp { residual, .. } => residual,
            _ => unreached(),
        };
        let ghost given = output;
        let ghost block = self.lane->BoundaryBody_0.final_mlp;
        let finished = match &mut self.lane {
            Lane::BoundaryBody(body) => body.final_mlp.finish(output, elapsed_ns),
            _ => unreached(),
        };
        match finished {
            Err(e) => Err(self.fail(frame, e)),
            Ok(mlp) => {
                proof {
                    assert(is_row_of(mlp, block.hidden_size, given->Ok_0@));
                }
                Ok(ForwardRun { frame, layer_index, work: Work::AddMlp { residual, mlp } })
            },
        }
    }
}

proof fn kept_state_fits(
    model: GeneralQwen35,
    layer_index: usize,
    state: Qwen35LinearState,
    after: GeneralQwen35,
)
    requires
        model.wf(),
        layer_index < model.config.text.n_layers,
        model.config.text.layer_types@[layer_index as int] == Qwen35LayerType::LinearAttention,
        model.keeps_state(layer_index, state, after),
    ensures
        after.wf(),
{
    let kinds = model.config.text.layer_types@;
    assert forall|i: int| 0 <= i < kinds.len() implies ({
        &&& (#[trigger] after.state.linear@[i] is Some) == (kinds[i]
            == Qwen35LayerType::LinearAttention)
        &&& after.state.full_cache_indices@[i] == if kinds[i] == Qwen35LayerType::FullAttention {
            Some(crate::qwen35::state::full_layers_before(kinds, i) as usize)
        } else {
            None
        }
    }) by {
        assert(model.state.linear@[i] is Some == (kinds[i] == Qwen35LayerType::LinearAttention));
    }
    assert(after.state.fits(kinds));
}

proof fn seeded_lane_fits(
    lane: Lane,
    config: Qwen35TextConfig,
    layer_index: usize,
    state: GdnDecodeState,
    after: Lane,
    step: Result<SeedStep, Error>,
)
    requires
        lane.fits(config),
        lane.takes_seed(layer_index),
        lane.seeds(layer_index, state, after, step),
    ensures
        after.fits(config),
        match step {
            Ok(SeedStep::Block { .. }) => after is Gdn || after.has_linear(layer_index),
            Ok(SeedStep::Stack { stack }) => after.has_owner(Owner::Stack(stack), 0),
            Ok(SeedStep::Scheduled { transaction }) => after.has_owner(
                scheduled_owner(transaction),
                0,
            ),
            _ => true,
        },
{
    match lane {
        Lane::Stacks(stacks) => {
            let (owner, place) = lane.seeded_owner(layer_index);
            assert(stacks.layer_to_stack@[layer_index as int] is Some);
            transactions_keep_the_fit(lane, config, owner, after);
        },
        Lane::BoundaryBody(_) | Lane::TailHead(_) => {
            let (owner, place) = lane.seeded_owner(layer_index);
            transactions_keep_the_fit(lane, config, owner, after);
        },
        _ => {},
    }
}

proof fn linear_dimensions(lane: Lane, config: Qwen35TextConfig, layer_index: usize)
    requires
        lane.fits(config),
        lane.has_linear(layer_index),
    ensures
        lane.linear_of(layer_index).dimensions.hidden_size == config.hidden_size,
{
    if let Lane::AllLinear(a) = lane {
        assert(a.layers@[layer_index as int] is Some);
    }
}

proof fn custody_dimensions(lane: Lane, config: Qwen35TextConfig, owner: Owner)
    requires
        lane.fits(config),
        lane.has_owner(owner, 0),
        owner is Stack || owner is InitialStack || owner is Boundary,
    ensures
        lane.custody_of(owner).hidden_size == config.hidden_size,
{
    match owner {
        Owner::Stack(s) => {
            assert(crate::qwen35::stacks_lane::is_stack_of(
                lane->Stacks_0.stacks@[s as int],
                config,
            ));
        },
        Owner::Boundary(b) => {
            assert(lane.schedule_of().boundaries@[b as int].is_owned());
        },
        _ => {},
    }
}

} // verus!
