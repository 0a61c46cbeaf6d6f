//! Behind the body: projections, the accelerated head, the tail, and what an
//! error there leaves.
//!
//! The body has moved the stream on by then. An error can therefore not be
//! retried, and on a lane that owns decode state it makes the lane terminal.

use vstd::pervasive::unreached;
use vstd::prelude::*;

use crate::error::{
    answers, either, head_rerank_text, head_top_k_text, stack3_head_post_body_text,
    tail_head_post_body_text, Error, Fault, FaultOrder,
};
use crate::qwen35::head::{
    argmax_f32_row, candidates_fault, has_no_best, is_first_best, last_hidden_row, last_row,
    last_row_fault, rerank_shape_fault, rerank_tied_f32_candidates, wins,
};
use crate::qwen35::lane::Lane;
use crate::qwen35::metal::TailMlpHeadMetalStatsV1;
use crate::qwen35::mlp_lane::{check_row, row_fault};
use crate::qwen35::model::{GeneralQwen35, LmHead, Qwen35MetalW8LmHeadStats};
use crate::qwen35::profile::Qwen35MetalW8LmHeadPhase;
use crate::qwen35::stacks_lane::Qwen35MetalW8LinearLayerStacksV1;
use crate::qwen35::steps::is_row_of;
use crate::qwen35::tail_lane::{
    Qwen35BoundaryTailHeadOutputV1, Qwen35MetalW8MlpStack3BoundaryTailHeadV1, TailOutput,
};
use crate::tensor::{DType, Tensor};

verus! {

/// The tokens that the CPU and the accelerator picked for one forced step.
#[derive(Clone, Copy, Debug, PartialEq, Eq)]
pub struct Qwen35MetalTeacherStep {
    pub cpu_token: u32,
    pub w8_candidates: [u32; 4],
    pub reranked_token: u32,
    /// The time until the candidates were there.
    pub topk_elapsed_ns: u128,
    /// The time of the exact rerank alone.
    pub rerank_elapsed_ns: u128,
}

impl Qwen35MetalTeacherStep {
    /// The time until the candidates were there.
    pub fn accelerator_candidate_elapsed_ns(&self) -> (elapsed_ns: u128)
        ensures
            elapsed_ns == self.topk_elapsed_ns,
    {
        self.topk_elapsed_ns
    }

    /// The tokens of the CPU and of the reranked accelerator.
    pub fn argmaxes(&self) -> (tokens: (u32, u32))
        ensures
            tokens == (self.cpu_token, self.reranked_token),
    {
        (self.cpu_token, self.reranked_token)
    }
}

/// Who picks the token of a decode step.
#[derive(Clone, Copy, Debug, PartialEq, Eq, Structural)]
pub enum TokenRoute {
    /// The caller, from the logits.
    Logits,
    /// The accelerated head.
    Head,
    /// The fused tail.
    Tail,
}

/// The step that asks the fused tail, as an error behind it is reported.
#[derive(Clone, Copy, Debug, PartialEq, Eq, Structural)]
pub enum TailStage {
    /// A forward, whose logits the CPU projects.
    Projection,
    /// A decode step.
    Decode,
    /// A forced step.
    Teacher,
}

impl TailStage {
    /// The name of the stage.
    pub open spec fn name(self) -> &'static str {
        match self {
            TailStage::Projection => "CPU/F32 projection",
            TailStage::Decode => "decode tail/rerank",
            TailStage::Teacher => "teacher tail/rerank",
        }
    }

    /// The name of the stage.
    pub fn label(self) -> (label: &'static str)
        ensures
            label == self.name(),
    {
        match self {
            TailStage::Projection => "CPU/F32 projection",
            TailStage::Decode => "decode tail/rerank",
            TailStage::Teacher => "teacher tail/rerank",
        }
    }
}

/// A tensor does not hold 32-bit floats.
pub open spec fn f32_type_fault(tensor: Tensor) -> Fault {
    if tensor.element_type() == DType::F32 {
        None
    } else {
        Some(Error::NotF32 { dtype: tensor.element_type().name() }.text())
    }
}

impl GeneralQwen35 {
    /// Who picks the token of a decode step.
    pub open spec fn decode_route_of(self) -> TokenRoute {
        if self.lane is TailHead {
            TokenRoute::Tail
        } else if self.head is Some {
            TokenRoute::Head
        } else {
            TokenRoute::Logits
        }
    }

    /// Who picks the token of a decode step. A requested accelerator is never
    /// passed over: once the body has moved on, its errors are the caller's.
    pub fn decode_route(&self) -> (route: TokenRoute)
        ensures
            route == self.decode_route_of(),
    {
        match &self.lane {
            Lane::TailHead(_) => TokenRoute::Tail,
            _ => if self.head.is_some() {
                TokenRoute::Head
            } else {
                TokenRoute::Logits
            },
        }
    }

    /// Who ends the body of a forward: the tail on its lane, once the stream has
    /// begun, else the caller, who projects the logits.
    pub fn forward_route(&self, start_pos: u32) -> (route: TokenRoute)
        ensures
            route == if start_pos > 0 && self.lane is TailHead {
                TokenRoute::Tail
            } else {
                TokenRoute::Logits
            },
    {
        match &self.lane {
            Lane::TailHead(_) => if start_pos > 0 {
                TokenRoute::Tail
            } else {
                TokenRoute::Logits
            },
            _ => TokenRoute::Logits,
        }
    }

    /// Who picks the token behind a prefill: the accelerated head where there is
    /// one, else the caller from the logits.
    pub fn prefill_route(&self) -> (route: TokenRoute)
        ensures
            route == if self.head is Some {
                TokenRoute::Head
            } else {
                TokenRoute::Logits
            },
    {
        if self.head.is_some() {
            TokenRoute::Head
        } else {
            TokenRoute::Logits
        }
    }

    /// Who picks the tokens of a forced step, which needs an accelerator.
    pub fn teacher_route(&self) -> (r: Result<TokenRoute, Error>)
        ensures
            r == if self.decode_route_of() == TokenRoute::Logits {
                Err::<TokenRoute, Error>(Error::TeacherNeedsHead)
            } else {
                Ok(self.decode_route_of())
            },
    {
        match self.decode_route() {
            TokenRoute::Logits => Err(Error::TeacherNeedsHead),
            route => Ok(route),
        }
    }

    /// Checks that no image was handed to the text model.
    pub fn check_input(&self, has_image: bool) -> (r: Result<(), Error>)
        ensures
            r == if has_image {
                Err::<(), Error>(Error::ImageInput)
            } else {
                Ok(())
            },
    {
        if has_image {
            Err(Error::ImageInput)
        } else {
            Ok(())
        }
    }

    /// The model after an error behind the body, on the route of stacks with the
    /// head.
    pub open spec fn stack3_head_failed(self) -> Self {
        if self.stack3_head_terminal is Some {
            GeneralQwen35 {
                stack3_head_terminal: Some(true),
                lane: match self.lane {
                    Lane::Stacks(lane) => Lane::Stacks(
                        Qwen35MetalW8LinearLayerStacksV1 { terminal_error: true, ..lane },
                    ),
                    other => other,
                },
                ..self
            }
        } else {
            self
        }
    }

    /// What is said of an error behind the body, on the route of stacks with the
    /// head.
    pub open spec fn stack3_head_text(self, stage: &'static str, text: Seq<char>) -> Seq<char> {
        if self.stack3_head_terminal is Some {
            stack3_head_post_body_text(stage, text)
        } else {
            text
        }
    }

    /// Ends a step behind the body. On the route of stacks with the head an
    /// error makes the whole lane terminal.
    pub fn finish_stack3_lm_head_v2_post_body<T>(
        &mut self,
        result: Result<T, Error>,
        stage: &'static str,
    ) -> (r: Result<T, Error>)
        requires
            old(self).wf(),
        ensures
            final(self).wf(),
            match result {
                Ok(value) => *final(self) == *old(self) && r == Ok::<T, Error>(value),
                Err(e) => {
                    &&& *final(self) == old(self).stack3_head_failed()
                    &&& r is Err
                    &&& r->Err_0.text() == old(self).stack3_head_text(stage, e.text())
                },
            },
    {
        match result {
            Ok(value) => Ok(value),
            Err(error) => {
                if self.stack3_head_terminal.is_some() {
                    self.stack3_head_terminal = Some(true);
                    proof {
                        assert(self.lane is Stacks);
                    }
                    let ghost before = self.lane;
                    if let Lane::Stacks(lane) = &mut self.lane {
                        lane.latch_terminal();
                    }
                    proof {
                        stacks_fit(before, self.config.text, self.lane);
                    }
                    Err(Error::Stack3HeadPostBody { stage, cause: Box::new(error) })
                } else {
                    Err(error)
                }
            },
        }
    }

    /// The model after an error behind the body, on the lane with the tail.
    pub open spec fn tail_failed(self) -> Self {
        match self.lane {
            Lane::TailHead(lane) => self.with_lane(
                Lane::TailHead(
                    Qwen35MetalW8MlpStack3BoundaryTailHeadV1 { terminal_error: true, ..lane },
                ),
            ),
            _ => self,
        }
    }

    /// What is said of an error behind the body, on the lane with the tail.
    pub open spec fn tail_text(self, stage: &'static str, text: Seq<char>) -> Seq<char> {
        if self.lane is TailHead {
            tail_head_post_body_text(stage, text)
        } else {
            text
        }
    }

    /// Ends a step behind the body. On the lane with the tail an error makes the
    /// whole lane terminal.
    pub fn finish_boundary_tail_head_v1_post_body<T>(
        &mut self,
        result: Result<T, Error>,
        stage: &'static str,
    ) -> (r: Result<T, Error>)
        requires
            old(self).wf(),
        ensures
            final(self).wf(),
            match result {
                Ok(value) => *final(self) == *old(self) && r == Ok::<T, Error>(value),
                Err(e) => {
                    &&& *final(self) == old(self).tail_failed()
                    &&& r is Err
                    &&& r->Err_0.text() == old(self).tail_text(stage, e.text())
                },
            },
    {
        match result {
            Ok(value) => Ok(value),
            Err(error) => match &mut self.lane {
                Lane::TailHead(lane) => {
                    lane.latch_terminal();
                    Err(Error::TailHeadPostBody { stage, cause: Box::new(error) })
                },
                _ => Err(error),
            },
        }
    }

    /// The model after an error behind the body.
    pub open spec fn post_body_failed(self) -> Self {
        self.stack3_head_failed().tail_failed()
    }

    /// What is said of an error behind the body.
    pub open spec fn post_body_text(self, stage: &'static str, text: Seq<char>) -> Seq<char> {
        self.stack3_head_failed().tail_text(stage, self.stack3_head_text(stage, text))
    }

    fn finish_post_body<T>(&mut self, result: Result<T, Error>, stage: &'static str) -> (r: Result<
        T,
        Error,
    >)
        requires
            old(self).wf(),
        ensures
            final(self).wf(),
            match result {
                Ok(value) => *final(self) == *old(self) && r == Ok::<T, Error>(value),
                Err(e) => {
                    &&& *final(self) == old(self).post_body_failed()
                    &&& r is Err
                    &&& r->Err_0.text() == old(self).post_body_text(stage, e.text())
                },
            },
    {
        let result = self.finish_stack3_lm_head_v2_post_body(result, stage);
        self.finish_boundary_tail_head_v1_post_body(result, stage)
    }

    /// Takes the logits of a forward.
    pub fn finish_forward(&mut self, logits: Result<Tensor, String>) -> (r: Result<Tensor, Error>)
        requires
            old(self).wf(),
        ensures
            final(self).wf(),
            match logits {
                Ok(logits) => *final(self) == *old(self) && r == Ok::<Tensor, Error>(logits),
                Err(cause) => {
                    &&& *final(self) == old(self).post_body_failed()
                    &&& r is Err
                    &&& r->Err_0.text() == old(self).post_body_text(
                        TailStage::Projection.name(),
                        cause@,
                    )
                },
            },
    {
        let result = match logits {
            Ok(logits) => Ok(logits),
            Err(cause) => Err(Error::Reported { cause }),
        };
        self.finish_post_body(result, TailStage::Projection.label())
    }

    /// Takes the last row behind a prefill, so that only that row is projected.
    pub fn last_prefill_row(&mut self, hidden: &Tensor) -> (r: Result<Tensor, Error>)
        requires
            old(self).wf(),
        ensures
            final(self).wf(),
            match last_row_fault(*hidden, old(self).config.text.hidden_size) {
                None => {
                    &&& *final(self) == *old(self)
                    &&& r is Ok
                    &&& is_row_of(
                        r->Ok_0,
                        old(self).config.text.hidden_size,
                        last_row(*hidden),
                    )
                },
                Some(text) => {
                    &&& *final(self) == old(self).post_body_failed()
                    &&& r is Err
                    &&& r->Err_0.text() == old(self).post_body_text(
                        "CPU/F32 prefill projection",
                        text,
                    )
                },
            },
    {
        let result = last_hidden_row(hidden, self.config.text.hidden_size);
        self.finish_post_body(result, "CPU/F32 prefill projection")
    }

    /// The model after the logits of a prefill were there.
    pub open spec fn prefilled(self) -> Self {
        match self.lane {
            Lane::TailHead(lane) => self.with_lane(
                Lane::TailHead(
                    Qwen35MetalW8MlpStack3BoundaryTailHeadV1 {
                        prefill_cpu_head_calls: lane.prefill_cpu_head_calls.saturating_add(1),
                        ..lane
                    },
                ),
            ),
            _ => self,
        }
    }

    /// Takes the logits of the last row of a prefill.
    pub fn finish_prefill(&mut self, logits: Result<Tensor, String>) -> (r: Result<Tensor, Error>)
        requires
            old(self).wf(),
        ensures
            final(self).wf(),
            match logits {
                Ok(logits) => *final(self) == old(self).prefilled() && r == Ok::<Tensor, Error>(
                    logits,
                ),
                Err(cause) => {
                    &&& *final(self) == old(self).post_body_failed()
                    &&& r is Err
                    &&& r->Err_0.text() == old(self).post_body_text(
                        "CPU/F32 prefill projection",
                        cause@,
                    )
                },
            },
    {
        match logits {
            Ok(logits) => {
                if let Lane::TailHead(lane) = &mut self.lane {
                    lane.prefill_cpu_head_calls = lane.prefill_cpu_head_calls.saturating_add(1);
                }
                Ok(logits)
            },
            Err(cause) => self.finish_post_body(
                Err(Error::Reported { cause }),
                "CPU/F32 prefill projection",
            ),
        }
    }

    /// What is wrong with the scores of the candidates.
    pub open spec fn rerank_fault(
        self,
        normalized: Tensor,
        candidates: [u32; 4],
        scores: [u32; 4],
    ) -> Fault {
        let text = self.config.text;
        f32_type_fault(self.weights.token_embedding)
            .or_fault(f32_type_fault(normalized))
            .or_fault(
                rerank_shape_fault(
                    self.weights.token_embedding.data().len() as usize,
                    normalized.data().len() as usize,
                    text.vocab_size,
                    text.hidden_size,
                ),
            )
            .or_fault(candidates_fault(text.vocab_size, candidates@, scores@, 0))
    }

    /// Picks the best candidate by the exact scores of the tied embedding.
    pub fn rerank(&self, normalized: &Tensor, candidates: [u32; 4], scores: [u32; 4]) -> (r: Result<
        u32,
        Error,
    >)
        ensures
            answers(r, self.rerank_fault(*normalized, candidates, scores)),
            r matches Ok(token) ==> exists|i: int| #[trigger]
                wins(candidates@, scores@, i) && token == candidates@[i],
    {
        let embedding: usize = match self.weights.token_embedding.as_f32() {
            Ok(values) => values.len(),
            Err(e) => return Err(e),
        };
        let hidden: usize = match normalized.as_f32() {
            Ok(values) => values.len(),
            Err(e) => return Err(e),
        };
        rerank_tied_f32_candidates(
            embedding,
            hidden,
            self.config.text.vocab_size,
            self.config.text.hidden_size,
            candidates,
            scores,
        )
    }

    /// Ends a step behind the body with a fault or with a value.
    pub open spec fn ends<T>(
        self,
        fault: Fault,
        stage: &'static str,
        after: Self,
        r: Result<T, Error>,
    ) -> bool {
        match fault {
            Some(text) => {
                &&& after == self.stack3_head_failed()
                &&& r is Err
                &&& r->Err_0.text() == self.stack3_head_text(stage, text)
            },
            None => r is Ok,
        }
    }

    /// The stage that an error of the head is reported at.
    pub open spec fn head_stage(phase: Qwen35MetalW8LmHeadPhase) -> &'static str {
        match phase {
            Qwen35MetalW8LmHeadPhase::Prefill => "prefill head",
            Qwen35MetalW8LmHeadPhase::Decode => "decode head",
        }
    }

    fn stage_of(phase: Qwen35MetalW8LmHeadPhase) -> (stage: &'static str)
        ensures
            stage == GeneralQwen35::head_stage(phase),
    {
        match phase {
            Qwen35MetalW8LmHeadPhase::Prefill => "prefill head",
            Qwen35MetalW8LmHeadPhase::Decode => "decode head",
        }
    }

    /// Takes the last row behind a prefill for the accelerated head.
    pub fn last_head_row(&mut self, hidden: &Tensor) -> (r: Result<Tensor, Error>)
        requires
            old(self).wf(),
        ensures
            final(self).wf(),
            old(self).ends(
                last_row_fault(*hidden, old(self).config.text.hidden_size),
                "prefill head",
                *final(self),
                r,
            ),
            r matches Ok(row) ==> *final(self) == *old(self) && is_row_of(
                row,
                old(self).config.text.hidden_size,
                last_row(*hidden),
            ),
    {
        let result = last_hidden_row(hidden, self.config.text.hidden_size);
        self.finish_stack3_lm_head_v2_post_body(result, "prefill head")
    }

    /// What is wrong with the normalized row for the head.
    pub open spec fn head_input_fault(self, normalized: Result<Tensor, String>) -> Fault {
        match normalized {
            Err(cause) => Some(cause@),
            Ok(normalized) => row_fault(normalized, self.config.text.hidden_size),
        }
    }

    /// Takes the normalized row that the head is to run on.
    pub fn check_head_input(
        &mut self,
        normalized: Result<Tensor, String>,
        phase: Qwen35MetalW8LmHeadPhase,
    ) -> (r: Result<Tensor, Error>)
        requires
            old(self).wf(),
        ensures
            final(self).wf(),
            old(self).ends(
                old(self).head_input_fault(normalized),
                GeneralQwen35::head_stage(phase),
                *final(self),
                r,
            ),
            r matches Ok(row) ==> *final(self) == *old(self) && normalized == Ok::<Tensor, String>(
                row,
            ),
    {
        let result = match normalized {
            Err(cause) => Err(Error::Reported { cause }),
            Ok(normalized) => match check_row(&normalized, self.config.text.hidden_size) {
                Err(e) => Err(e),
                Ok(_) => Ok(normalized),
            },
        };
        self.finish_stack3_lm_head_v2_post_body(result, GeneralQwen35::stage_of(phase))
    }

    /// Takes the four candidates of the head.
    pub fn take_candidates(
        &mut self,
        candidates: Result<[u32; 4], String>,
        phase: Qwen35MetalW8LmHeadPhase,
    ) -> (r: Result<[u32; 4], Error>)
        requires
            old(self).wf(),
        ensures
            final(self).wf(),
            old(self).ends(
                match candidates {
                    Err(cause) => Some(head_top_k_text(phase.name(), cause@)),
                    Ok(_) => None,
                },
                GeneralQwen35::head_stage(phase),
                *final(self),
                r,
            ),
            r matches Ok(taken) ==> *final(self) == *old(self) && candidates == Ok::<
                [u32; 4],
                String,
            >(taken),
    {
        let result = match candidates {
            Err(cause) => Err(Error::HeadTopK { phase: phase.label(), cause }),
            Ok(candidates) => Ok(candidates),
        };
        self.finish_stack3_lm_head_v2_post_body(result, GeneralQwen35::stage_of(phase))
    }

    /// The model after the head has picked a token.
    pub open spec fn counted(
        self,
        phase: Qwen35MetalW8LmHeadPhase,
        topk_elapsed_ns: u128,
        rerank_elapsed_ns: u128,
    ) -> Self {
        let head = self.head->Some_0;
        let stats = head.stats;
        GeneralQwen35 {
            head: Some(
                LmHead {
                    stats: Qwen35MetalW8LmHeadStats {
                        prefill_calls: if phase == Qwen35MetalW8LmHeadPhase::Prefill {
                            stats.prefill_calls.saturating_add(1)
                        } else {
                            stats.prefill_calls
                        },
                        decode_calls: if phase == Qwen35MetalW8LmHeadPhase::Decode {
                            stats.decode_calls.saturating_add(1)
                        } else {
                            stats.decode_calls
                        },
                        topk_elapsed_ns: stats.topk_elapsed_ns.saturating_add(topk_elapsed_ns),
                        rerank_elapsed_ns: stats.rerank_elapsed_ns.saturating_add(
                            rerank_elapsed_ns,
                        ),
                        ..stats
                    },
                    ..head
                },
            ),
            ..self
        }
    }

    /// Picks the token of the head from the exact scores of its candidates.
    pub fn metal_w8_reranked_token(
        &mut self,
        normalized: &Tensor,
        candidates: [u32; 4],
        scores: [u32; 4],
        phase: Qwen35MetalW8LmHeadPhase,
        topk_elapsed_ns: u128,
        rerank_elapsed_ns: u128,
    ) -> (r: Result<u32, Error>)
        requires
            old(self).wf(),
            old(self).head is Some,
        ensures
            final(self).wf(),
            old(self).ends(
                match old(self).rerank_fault(*normalized, candidates, scores) {
                    Some(text) => Some(head_rerank_text(phase.name(), text)),
                    None => None,
                },
                GeneralQwen35::head_stage(phase),
                *final(self),
                r,
            ),
            r matches Ok(token) ==> {
                &&& *final(self) == old(self).counted(phase, topk_elapsed_ns, rerank_elapsed_ns)
                &&& exists|i: int| #[trigger]
                    wins(candidates@, scores@, i) && token == candidates@[i]
            },
    {
        match self.rerank(normalized, candidates, scores) {
            Err(e) => self.finish_stack3_lm_head_v2_post_body(
                Err(Error::HeadRerank { phase: phase.label(), cause: Box::new(e) }),
                GeneralQwen35::stage_of(phase),
            ),
            Ok(token) => {
                if let Some(head) = &mut self.head {
                    match phase {
                        Qwen35MetalW8LmHeadPhase::Prefill => {
                            head.stats.prefill_calls = head.stats.prefill_calls.saturating_add(1);
                        },
                        Qwen35MetalW8LmHeadPhase::Decode => {
                            head.stats.decode_calls = head.stats.decode_calls.saturating_add(1);
                        },
                    }
                    head.stats.topk_elapsed_ns =
                    head.stats.topk_elapsed_ns.saturating_add(topk_elapsed_ns);
                    head.stats.rerank_elapsed_ns =
                    head.stats.rerank_elapsed_ns.saturating_add(rerank_elapsed_ns);
                }
                Ok(token)
            },
        }
    }

    /// What is wrong with the logits of a forced step.
    pub open spec fn logits_fault(self, logits: Result<Tensor, String>) -> Fault {
        match logits {
            Err(cause) => Some(cause@),
            Ok(logits) => row_fault(logits, self.config.text.vocab_size),
        }
    }

    /// The token is the greatest of the logits.
    pub open spec fn is_argmax(logits: Tensor, token: u32) -> bool {
        if has_no_best(logits.data()) {
            token == 0
        } else {
            exists|i: int| #[trigger] is_first_best(logits.data(), i) && token == i as u32
        }
    }

    fn cpu_token(&self, logits: Result<Tensor, String>) -> (r: Result<u32, Error>)
        ensures
            answers(r, self.logits_fault(logits)),
            r matches Ok(token) ==> logits is Ok && GeneralQwen35::is_argmax(
                logits->Ok_0,
                token,
            ),
    {
        match logits {
            Err(cause) => Err(Error::Reported { cause }),
            Ok(logits) => argmax_f32_row(&logits, self.config.text.vocab_size),
        }
    }

    /// What is wrong with the input of a forced step on the head: the
    /// normalized row, the logits, or the type of the row.
    pub open spec fn teacher_input_fault(
        self,
        normalized: Result<Tensor, String>,
        logits: Result<Tensor, String>,
    ) -> Fault {
        match normalized {
            Err(cause) => Some(cause@),
            Ok(normalized) => either(self.logits_fault(logits), f32_type_fault(normalized)),
        }
    }

    /// Takes the normalized row and the logits of a forced step on the head, and
    /// picks the token of the CPU.
    pub fn check_teacher_input(
        &mut self,
        normalized: Result<Tensor, String>,
        logits: Result<Tensor, String>,
    ) -> (r: Result<(Tensor, u32), Error>)
        requires
            old(self).wf(),
        ensures
            final(self).wf(),
            old(self).ends(
                old(self).teacher_input_fault(normalized, logits),
                "teacher head",
                *final(self),
                r,
            ),
            r matches Ok(taken) ==> {
                &&& *final(self) == *old(self)
                &&& normalized == Ok::<Tensor, String>(taken.0)
                &&& logits is Ok
                &&& GeneralQwen35::is_argmax(logits->Ok_0, taken.1)
            },
    {
        let result = match normalized {
            Err(cause) => Err(Error::Reported { cause }),
            Ok(normalized) => match self.cpu_token(logits) {
                Err(e) => Err(e),
                Ok(token) => match normalized.as_f32() {
                    Err(e) => Err(e),
                    Ok(_) => Ok((normalized, token)),
                },
            },
        };
        self.finish_stack3_lm_head_v2_post_body(result, "teacher head")
    }

    /// Takes the four candidates of a forced step on the head.
    pub fn take_teacher_candidates(&mut self, candidates: Result<[u32; 4], String>) -> (r: Result<
        [u32; 4],
        Error,
    >)
        requires
            old(self).wf(),
        ensures
            final(self).wf(),
            old(self).ends(
                match candidates {
                    Err(cause) => Some(Error::TeacherTopK { cause }.text()),
                    Ok(_) => None,
                },
                "teacher head",
                *final(self),
                r,
            ),
            r matches Ok(taken) ==> *final(self) == *old(self) && candidates == Ok::<
                [u32; 4],
                String,
            >(taken),
    {
        let result = match candidates {
            Err(cause) => Err(Error::TeacherTopK { cause }),
            Ok(candidates) => Ok(candidates),
        };
        self.finish_stack3_lm_head_v2_post_body(result, "teacher head")
    }

    /// The model after a forced step on the head.
    pub open spec fn taught(self, topk_elapsed_ns: u128, rerank_elapsed_ns: u128) -> Self {
        let head = self.head->Some_0;
        let stats = head.stats;
        GeneralQwen35 {
            head: Some(
                LmHead {
                    stats: Qwen35MetalW8LmHeadStats {
                        teacher_calls: stats.teacher_calls.saturating_add(1),
                        topk_elapsed_ns: stats.topk_elapsed_ns.saturating_add(topk_elapsed_ns),
                        rerank_elapsed_ns: stats.rerank_elapsed_ns.saturating_add(
                            rerank_elapsed_ns,
                        ),
                        ..stats
                    },
                    ..head
                },
            ),
            ..self
        }
    }

    /// Ends a forced step on the head.
    pub fn finish_teacher_head(
        &mut self,
        cpu_token: u32,
        normalized: &Tensor,
        candidates: [u32; 4],
        scores: [u32; 4],
        topk_elapsed_ns: u128,
        rerank_elapsed_ns: u128,
    ) -> (r: Result<Qwen35MetalTeacherStep, Error>)
        requires
            old(self).wf(),
            old(self).head is Some,
        ensures
            final(self).wf(),
            old(self).ends(
                old(self).rerank_fault(*normalized, candidates, scores),
                "teacher head",
                *final(self),
                r,
            ),
            r matches Ok(step) ==> {
                &&& *final(self) == old(self).taught(topk_elapsed_ns, rerank_elapsed_ns)
                &&& step == (Qwen35MetalTeacherStep {
                    cpu_token,
                    w8_candidates: candidates,
                    reranked_token: step.reranked_token,
                    topk_elapsed_ns,
                    rerank_elapsed_ns,
                })
                &&& exists|i: int| #[trigger]
                    wins(candidates@, scores@, i) && step.reranked_token == candidates@[i]
            },
    {
        match self.rerank(normalized, candidates, scores) {
            Err(e) => self.finish_stack3_lm_head_v2_post_body(Err(e), "teacher head"),
            Ok(reranked_token) => {
                if let Some(head) = &mut self.head {
                    head.stats.teacher_calls = head.stats.teacher_calls.saturating_add(1);
                    head.stats.topk_elapsed_ns =
                    head.stats.topk_elapsed_ns.saturating_add(topk_elapsed_ns);
                    head.stats.rerank_elapsed_ns =
                    head.stats.rerank_elapsed_ns.saturating_add(rerank_elapsed_ns);
                }
                Ok(
                    Qwen35MetalTeacherStep {
                        cpu_token,
                        w8_candidates: candidates,
                        reranked_token,
                        topk_elapsed_ns,
                        rerank_elapsed_ns,
                    },
                )
            },
        }
    }

    /// Ends a step of the tail with a fault or with a value.
    pub open spec fn tail_ends<T>(
        self,
        fault: Fault,
        stage: &'static str,
        after: Self,
        r: Result<T, Error>,
    ) -> bool {
        match fault {
            Some(text) => {
                &&& after == self.tail_failed()
                &&& r is Err
                &&& r->Err_0.text() == self.tail_text(stage, text)
            },
            None => r is Ok,
        }
    }

    /// Checks the residual that the tail is to run on. An error is reported at
    /// `stage`.
    pub fn check_tail_input(&mut self, residual: &Tensor, stage: TailStage) -> (r: Result<
        (),
        Error,
    >)
        requires
            old(self).wf(),
            old(self).lane is TailHead,
        ensures
            final(self).wf(),
            old(self).tail_ends(
                row_fault(*residual, old(self).config.text.hidden_size),
                stage.name(),
                *final(self),
                r,
            ),
            r is Ok ==> *final(self) == *old(self),
    {
        let result = check_row(residual, self.config.text.hidden_size);
        self.finish_boundary_tail_head_v1_post_body(result, stage.label())
    }

    /// The model with the counters that the tail reported.
    pub open spec fn with_tail_stats(self, stats: TailMlpHeadMetalStatsV1) -> Self {
        self.with_lane(
            Lane::TailHead(
                Qwen35MetalW8MlpStack3BoundaryTailHeadV1 { tail: stats, ..self.lane->TailHead_0 },
            ),
        )
    }

    /// Takes what the tail returned for one row. An error is reported at
    /// `stage`.
    pub fn run_boundary_tail_head_v1(
        &mut self,
        output: Result<TailOutput, String>,
        elapsed_ns: u128,
        stats: TailMlpHeadMetalStatsV1,
        stage: TailStage,
    ) -> (r: Result<Qwen35BoundaryTailHeadOutputV1, Error>)
        requires
            old(self).wf(),
            old(self).lane is TailHead,
        ensures
            final(self).wf(),
            old(self).with_tail_stats(stats).tail_ends(
                Qwen35MetalW8MlpStack3BoundaryTailHeadV1::run_fault(
                    output,
                    old(self).config.text.hidden_size,
                ),
                stage.name(),
                *final(self),
                r,
            ),
            r matches Ok(taken) ==> {
                &&& *final(self) == old(self).with_tail_stats(stats)
                &&& output is Ok
                &&& is_row_of(
                    taken.normalized_hidden,
                    old(self).config.text.hidden_size,
                    output->Ok_0.normalized_hidden@,
                )
                &&& taken.candidates == output->Ok_0.candidate_token_ids
                &&& taken.tail_elapsed_ns == elapsed_ns
            },
    {
        let hidden_size: usize = self.config.text.hidden_size;
        let result = match &mut self.lane {
            Lane::TailHead(lane) => lane.finish_tail(output, elapsed_ns, stats, hidden_size),
            _ => unreached(),
        };
        self.finish_boundary_tail_head_v1_post_body(result, stage.label())
    }

    /// The model after the tail has picked a token.
    pub open spec fn tail_counted(
        self,
        rerank_elapsed_ns: u128,
        decode_calls: bool,
        teacher_calls: bool,
    ) -> Self {
        let lane = self.lane->TailHead_0;
        self.with_lane(
            Lane::TailHead(
                Qwen35MetalW8MlpStack3BoundaryTailHeadV1 {
                    rerank_elapsed_ns: lane.rerank_elapsed_ns.saturating_add(rerank_elapsed_ns),
                    decode_calls: if decode_calls {
                        lane.decode_calls.saturating_add(1)
                    } else {
                        lane.decode_calls
                    },
                    teacher_calls: if teacher_calls {
                        lane.teacher_calls.saturating_add(1)
                    } else {
                        lane.teacher_calls
                    },
                    ..lane
                },
            ),
        )
    }

    /// Picks the token of a decode step of the tail from the exact scores of its
    /// candidates.
    pub fn finish_tail_decode(
        &mut self,
        output: &Qwen35BoundaryTailHeadOutputV1,
        scores: [u32; 4],
        rerank_elapsed_ns: u128,
    ) -> (r: Result<u32, Error>)
        requires
            old(self).wf(),
            old(self).lane is TailHead,
        ensures
            final(self).wf(),
            old(self).tail_ends(
                old(self).rerank_fault(output.normalized_hidden, output.candidates, scores),
                TailStage::Decode.name(),
                *final(self),
                r,
            ),
            r matches Ok(token) ==> {
                &&& *final(self) == old(self).tail_counted(rerank_elapsed_ns, true, false)
                &&& exists|i: int| #[trigger]
                    wins(output.candidates@, scores@, i) && token == output.candidates@[i]
            },
    {
        match self.rerank(&output.normalized_hidden, output.candidates, scores) {
            Err(e) => self.finish_boundary_tail_head_v1_post_body(
                Err(e),
                TailStage::Decode.label(),
            ),
            Ok(token) => {
                if let Lane::TailHead(lane) = &mut self.lane {
                    lane.rerank_elapsed_ns =
                    lane.rerank_elapsed_ns.saturating_add(rerank_elapsed_ns);
                    lane.decode_calls = lane.decode_calls.saturating_add(1);
                }
                Ok(token)
            },
        }
    }

    /// Ends a forced step of the tail.
    pub fn finish_tail_teacher(
        &mut self,
        output: &Qwen35BoundaryTailHeadOutputV1,
        logits: Result<Tensor, String>,
        scores: [u32; 4],
        rerank_elapsed_ns: u128,
    ) -> (r: Result<Qwen35MetalTeacherStep, Error>)
        requires
            old(self).wf(),
            old(self).lane is TailHead,
        ensures
            final(self).wf(),
            old(self).tail_ends(
                either(
                    old(self).logits_fault(logits),
                    old(self).rerank_fault(output.normalized_hidden, output.candidates, scores),
                ),
                TailStage::Teacher.name(),
                *final(self),
                r,
            ),
            r matches Ok(step) ==> {
                &&& *final(self) == old(self).tail_counted(rerank_elapsed_ns, false, true)
                &&& logits is Ok
                &&& GeneralQwen35::is_argmax(logits->Ok_0, step.cpu_token)
                &&& step == (Qwen35MetalTeacherStep {
                    cpu_token: step.cpu_token,
                    w8_candidates: output.candidates,
                    reranked_token: step.reranked_token,
                    topk_elapsed_ns: output.tail_elapsed_ns,
                    rerank_elapsed_ns,
                })
                &&& exists|i: int| #[trigger]
                    wins(output.candidates@, scores@, i) && step.reranked_token
                        == output.candidates@[i]
            },
    {
        let cpu_token: u32 = match self.cpu_token(logits) {
            Err(e) => {
                return self.finish_boundary_tail_head_v1_post_body(
                    Err(e),
                    TailStage::Teacher.label(),
                );
            },
            Ok(token) => token,
        };
        match self.rerank(&output.normalized_hidden, output.candidates, scores) {
            Err(e) => self.finish_boundary_tail_head_v1_post_body(
                Err(e),
                TailStage::Teacher.label(),
            ),
            Ok(reranked_token) => {
                if let Lane::TailHead(lane) = &mut self.lane {
                    lane.rerank_elapsed_ns =
                    lane.rerank_elapsed_ns.saturating_add(rerank_elapsed_ns);
                    lane.teacher_calls = lane.teacher_calls.saturating_add(1);
                }
                Ok(
                    Qwen35MetalTeacherStep {
                        cpu_token,
                        w8_candidates: output.candidates,
                        reranked_token,
                        topk_elapsed_ns: output.tail_elapsed_ns,
                        rerank_elapsed_ns,
                    },
                )
            },
        }
    }

    /// What stops a generation of this length.
    pub open spec fn budget_error(self, prompt_len: int, max_new_tokens: int) -> Option<Error> {
        if prompt_len + max_new_tokens > usize::MAX {
            Some(Error::BudgetOverflow)
        } else if prompt_len + max_new_tokens > self.state.max_context {
            Some(
                Error::BudgetExceeded {
                    prompt_len: prompt_len as usize,
                    max_new_tokens: max_new_tokens as usize,
                    max_context: self.state.max_context,
                },
            )
        } else {
            None
        }
    }

    /// Checks that a prompt and its generation fit the context.
    pub fn validate_generation_budget(
        &self,
        prompt_len: usize,
        max_new_tokens: usize,
    ) -> (r: Result<
        (),
        Error,
    >)
        ensures
            r == match self.budget_error(prompt_len as int, max_new_tokens as int) {
                Some(e) => Err::<(), Error>(e),
                None => Ok(()),
            },
    {
        match prompt_len.checked_add(max_new_tokens) {
            None => Err(Error::BudgetOverflow),
            Some(required) => {
                let max_context: usize = self.state.max_context();
                if required > max_context {
                    Err(Error::BudgetExceeded { prompt_len, max_new_tokens, max_context })
                } else {
                    Ok(())
                }
            },
        }
    }

    /// A flat configuration does not describe this model.
    pub fn load() -> (r: Result<GeneralQwen35, Error>)
        ensures
            r == Err::<GeneralQwen35, Error>(Error::NestedConfig),
    {
        Err(Error::NestedConfig)
    }
}

proof fn stacks_fit(before: Lane, config: crate::qwen35::config::Qwen35TextConfig, after: Lane)
    requires
        before.fits(config),
        before is Stacks,
        after == Lane::Stacks(
            Qwen35MetalW8LinearLayerStacksV1 { terminal_error: true, ..before->Stacks_0 },
        ),
    ensures
        after.fits(config),
{
    let a = before->Stacks_0;
    let b = after->Stacks_0;
    assert forall|l: int| b.slot_of(l) == a.slot_of(l) by {}
    assert(b.fits(config));
}

} // verus!
