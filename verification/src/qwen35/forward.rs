//! One forward of the body, step by step.
//!
//! The library decides what comes next and keeps the states; the caller does
//! the work that a step names (backend kernels, accelerator blocks) and reports
//! what came of it. A forward that has begun either finishes, and then the
//! stream moves on once, or fails, and then a lane whose state was partly moved
//! on is terminal until it is reset.

use vstd::prelude::*;

use crate::error::{answers, either, Error, Fault, FaultOrder};
use crate::qwen35::boundary_lane::{
    boundary_layer, BoundarySchedule, Transaction, FINAL_LAYER,
};
use crate::qwen35::config::{Qwen35LayerType, Qwen35TextConfig};
use crate::qwen35::lane::{
    linear_layers_keep_the_fit, partial_error, partial_text, transactions_keep_the_fit, Lane, Owner,
};
use crate::qwen35::linear_lane::GdnDecodeState;
use crate::qwen35::mlp_lane::is_row;
use crate::qwen35::model::GeneralQwen35;
use crate::qwen35::rope::{rope_fault, Qwen35TextRopeTable};
use crate::qwen35::state::Qwen35HybridState;
use crate::qwen35::tail_lane::Qwen35MetalW8MlpStack3BoundaryTailHeadV1;
use crate::tensor::Tensor;

verus! {

/// What stays the same during one forward.
#[derive(Clone, Copy, Debug, PartialEq, Eq)]
pub struct Frame {
    pub start_pos: u32,
    pub sequence_length: usize,
    pub rope: Qwen35TextRopeTable,
    pub versions_before: (Option<u64>, Option<u64>),
}

/// What the caller is to do next.
#[derive(Debug)]
pub enum Work {
    /// Look the tokens up.
    Embed,
    /// Apply the input norm of the layer.
    InputNorm { hidden: Tensor },
    /// Run the packed reference of the layer.
    Reference { hidden: Tensor },
    /// Run the accelerated complete linear layer.
    LinearLayer { hidden: Tensor },
    /// Run an accelerated stack.
    Stack { stack: usize, hidden: Tensor },
    /// Run the first transaction of the schedule.
    InitialStack { hidden: Tensor },
    /// Apply the input norm, full attention and the residual of the layer.
    FullResidual { hidden: Tensor, cache_index: usize },
    /// Run a boundary on the residual.
    Boundary { boundary: usize, residual: Tensor },
    /// Run linear attention on the CPU, from the state of the layer.
    LinearAttention { hidden: Tensor, normed: Tensor },
    /// Run the accelerated recurrent block.
    GdnDecode { hidden: Tensor, normed: Tensor },
    /// Run full attention on the CPU.
    FullAttention { hidden: Tensor, normed: Tensor, cache_index: usize },
    /// Make a state of the accelerator from this one.
    PrepareSeed { hidden: Tensor, attention: Tensor, state: GdnDecodeState },
    /// Hand the state to the block of the layer.
    SeedBlock { hidden: Tensor, attention: Tensor, state: GdnDecodeState },
    /// Hand the three pending states to a stack.
    SeedStack { hidden: Tensor, attention: Tensor, stack: usize },
    /// Hand the three pending states to a transaction of the schedule.
    SeedScheduled { hidden: Tensor, attention: Tensor, transaction: Transaction },
    /// Add the attention, and apply the post-attention norm.
    Residual { hidden: Tensor, attention: Tensor },
    /// Run the feed-forward block on the CPU.
    Mlp { residual: Tensor, normed: Tensor },
    /// Run the accelerated feed-forward block.
    MlpBlock { residual: Tensor, normed: Tensor },
    /// Run the accelerated gate and up projection.
    GateUp { residual: Tensor, normed: Tensor },
    /// Apply the activation and the down projection on the CPU.
    ActivateDown { residual: Tensor, gate: Tensor, up: Tensor },
    /// Add the output of the feed-forward block.
    AddMlp { residual: Tensor, mlp: Tensor },
    /// Apply the post-attention norm of the final layer.
    FinalNorm { residual: Tensor },
    /// Run the final accelerated feed-forward block.
    FinalMlp { residual: Tensor, normed: Tensor },
    /// Nothing: the body is done.
    Finished { hidden: Tensor },
}

/// A forward under way.
#[derive(Debug)]
pub struct ForwardRun {
    pub frame: Frame,
    pub layer_index: usize,
    pub work: Work,
}

/// How far a piece of work is within its layer.
pub open spec fn stage(work: Work) -> int {
    match work {
        Work::Embed => 0,
        Work::InputNorm { .. } | Work::FullResidual { .. } => 1,
        Work::Reference { .. } | Work::LinearLayer { .. } => 1,
        Work::Stack { .. } | Work::InitialStack { .. } => 1,
        Work::LinearAttention { .. } | Work::GdnDecode { .. } | Work::FullAttention { .. } => 2,
        Work::Boundary { .. } | Work::FinalNorm { .. } | Work::PrepareSeed { .. } => 3,
        Work::SeedBlock { .. } | Work::SeedStack { .. } | Work::SeedScheduled { .. } => 4,
        Work::Residual { .. } | Work::FinalMlp { .. } => 5,
        Work::Mlp { .. } | Work::MlpBlock { .. } | Work::GateUp { .. } => 6,
        Work::ActivateDown { .. } => 7,
        Work::AddMlp { .. } => 8,
        Work::Finished { .. } => 9,
    }
}

impl ForwardRun {
    /// A bound on the steps that are left in a model with `n_layers` layers.
    pub open spec fn steps_left(self, n_layers: usize) -> int {
        10 * (n_layers - self.layer_index) + 10 - stage(self.work)
    }

    /// The run is a later part of the same forward, nearer to its end.
    pub open spec fn comes_behind(self, earlier: ForwardRun, n_layers: usize) -> bool {
        &&& self.frame == earlier.frame
        &&& earlier.layer_index <= self.layer_index <= n_layers
        &&& 0 <= self.steps_left(n_layers) < earlier.steps_left(n_layers)
    }
}

/// A token from `from` on lies outside of the vocabulary.
pub open spec fn tokens_fault(tokens: Seq<u32>, vocab_size: usize, from: nat) -> Fault
    decreases tokens.len() - from,
{
    if from >= tokens.len() {
        None
    } else if tokens[from as int] >= vocab_size {
        Some(Error::TokenOutsideVocabulary { token: tokens[from as int], vocab_size }.text())
    } else {
        tokens_fault(tokens, vocab_size, from + 1)
    }
}

/// The text of an error that may be there.
pub open spec fn error_fault(error: Option<Error>) -> Fault {
    match error {
        Some(e) => Some(e.text()),
        None => None,
    }
}

fn check_tokens(tokens: &[u32], vocab_size: usize) -> (r: Result<(), Error>)
    ensures
        answers(r, tokens_fault(tokens@, vocab_size, 0)),
{
    let mut i: usize = 0;
    while i < tokens.len()
        invariant
            i <= tokens@.len(),
            tokens_fault(tokens@, vocab_size, 0) == tokens_fault(tokens@, vocab_size, i as nat),
        decreases tokens@.len() - i,
    {
        if tokens[i] as usize >= vocab_size {
            return Err(Error::TokenOutsideVocabulary { token: tokens[i], vocab_size });
        }
        i = i + 1;
    }
    Ok(())
}

impl GeneralQwen35 {
    /// The model with another lane.
    pub open spec fn with_lane(self, lane: Lane) -> Self {
        GeneralQwen35 { lane, ..self }
    }

    /// The lane, or a step behind the body, met an error.
    pub open spec fn terminal_fault(self) -> Fault {
        if self.stack3_head_terminal == Some(true) {
            Some(Error::Stack3HeadTerminal.text())
        } else {
            error_fault(self.lane.terminal_error())
        }
    }

    /// Checks that no error was met since the last reset.
    pub fn ensure_complete_linear_layer_lane_is_not_terminal(&self) -> (r: Result<(), Error>)
        ensures
            answers(r, self.terminal_fault()),
    {
        if let Some(terminal) = self.stack3_head_terminal {
            if terminal {
                return Err(Error::Stack3HeadTerminal);
            }
        }
        self.lane.check_not_terminal()
    }

    /// What stops a forward before any work is done.
    pub open spec fn forward_fault(
        self,
        tokens: Seq<u32>,
        start_pos: u32,
        kv_position: usize,
    ) -> Fault {
        let empty = if tokens.len() == 0 {
            Some(Error::EmptyTokens.text())
        } else {
            None
        };
        let several = if self.lane.owns_stacks() && start_pos > 0 && tokens.len() != 1 {
            Some(Error::Stack3OwnsState.text())
        } else {
            None
        };
        empty
            .or_fault(tokens_fault(tokens, self.config.text.vocab_size, 0))
            .or_fault(self.terminal_fault())
            .or_fault(several)
            .or_fault(
                error_fault(
                    self.state.forward_error(
                        start_pos as int,
                        tokens.len() as int,
                        kv_position as int,
                    ),
                ),
            )
            .or_fault(rope_fault(self.config.text, tokens.len() as usize))
    }

    /// A forward under way belongs to this model, and the work that it waits for
    /// has its part in the model.
    pub open spec fn runs(self, run: ForwardRun) -> bool {
        let layer = run.layer_index;
        &&& self.state.position == run.frame.start_pos
        &&& self.state.position + run.frame.sequence_length <= self.state.max_context
        &&& run.frame.sequence_length > 0
        &&& layer <= self.config.text.n_layers
        &&& run.work !is Finished ==> layer < self.config.text.n_layers || run.work is Embed
        &&& match run.work {
            Work::Embed => layer == 0,
            Work::Reference { .. } => self.lane is PackedReference,
            Work::LinearLayer { .. } => self.lane.has_linear(layer),
            Work::Stack { stack, .. } => {
                &&& self.lane.has_owner(Owner::Stack(stack), 0)
                &&& self.lane->Stacks_0.stacks@[stack as int].layer_indices@[0] == layer
            },
            Work::InitialStack { .. } => self.lane.has_owner(Owner::InitialStack, 0) && layer == 0,
            Work::FullResidual { .. } => {
                &&& self.lane is BoundaryBody || self.lane is TailHead
                &&& BoundarySchedule::boundary_of(layer as int) is Some || layer == FINAL_LAYER
            },
            Work::Boundary { boundary, .. } => {
                &&& self.lane.has_owner(Owner::Boundary(boundary), 0)
                &&& layer == boundary_layer(boundary as int)
            },
            Work::LinearAttention { .. } => self.config.text.layer_types@[layer as int]
                == Qwen35LayerType::LinearAttention,
            Work::GdnDecode { .. } => self.lane is Gdn,
            Work::PrepareSeed { .. } => self.lane.takes_seed(layer),
            Work::SeedBlock { .. } => self.lane is Gdn || self.lane.has_linear(layer),
            Work::SeedStack { stack, .. } => self.lane.has_owner(Owner::Stack(stack), 0),
            Work::SeedScheduled { transaction, .. } => self.lane.has_owner(
                scheduled_owner(transaction),
                0,
            ),
            Work::MlpBlock { .. } => self.mlp_blocks matches Some(blocks) && blocks.block_of(
                layer as int,
            ) is Some,
            Work::GateUp { .. } => self.body matches Some(body) && body.layer_of(layer as int)
                is Some,
            Work::FinalNorm { .. } => self.lane is BoundaryBody,
            Work::FinalMlp { .. } => self.lane is BoundaryBody,
            _ => true,
        }
    }

    /// A forward of the tokens from a position has begun, with the table of
    /// rotations for these positions.
    pub open spec fn begins(self, tokens: Seq<u32>, start_pos: u32, run: ForwardRun) -> bool {
        &&& self.runs(run)
        &&& run.layer_index == 0
        &&& run.work is Embed
        &&& run.frame.start_pos == start_pos
        &&& run.frame.sequence_length == tokens.len()
        &&& run.frame.versions_before == self.lane.versions()
        &&& run.frame.rope.is_valid()
        &&& run.frame.rope.start_pos == start_pos
        &&& run.frame.rope.sequence_length == tokens.len()
        &&& run.frame.rope.head_dim == self.config.text.head_dim
        &&& run.frame.rope.rotary_dim == self.config.text.rotary_dim
    }

    /// Begins a forward of the tokens. `kv_position` is the number of tokens in
    /// the key/value cache. A refused forward changes nothing.
    pub fn forward_hidden(&self, tokens: &[u32], start_pos: u32, kv_position: usize) -> (r: Result<
        ForwardRun,
        Error,
    >)
        requires
            self.wf(),
        ensures
            answers(r, self.forward_fault(tokens@, start_pos, kv_position)),
            r matches Ok(run) ==> self.begins(tokens@, start_pos, run),
    {
        let sequence_length: usize = tokens.len();
        if sequence_length == 0 {
            return Err(Error::EmptyTokens);
        }
        if let Err(e) = check_tokens(tokens, self.config.text.vocab_size) {
            return Err(e);
        }
        if let Err(e) = self.ensure_complete_linear_layer_lane_is_not_terminal() {
            return Err(e);
        }
        if self.lane.takes_stacks() && start_pos > 0 && sequence_length != 1 {
            return Err(Error::Stack3OwnsState);
        }
        if let Err(e) = self.state.validate_forward(start_pos, sequence_length, kv_position) {
            return Err(e);
        }
        let rope = match Qwen35TextRopeTable::new(&self.config.text, sequence_length, start_pos) {
            Ok(rope) => rope,
            Err(e) => return Err(e),
        };
        Ok(
            ForwardRun {
                frame: Frame {
                    start_pos,
                    sequence_length,
                    rope,
                    versions_before: self.lane.complete_linear_layer_lane_versions(),
                },
                layer_index: 0,
                work: Work::Embed,
            },
        )
    }

    /// The model after a failed forward.
    pub open spec fn latched(self, versions_before: (Option<u64>, Option<u64>)) -> Self {
        GeneralQwen35 {
            lane: self.lane.latched(versions_before),
            stack3_head_terminal: if self.stack3_head_terminal is Some {
                Some(true)
            } else {
                None
            },
            ..self
        }
    }

    /// What a failed forward says.
    pub open spec fn failure_text(
        self,
        versions_before: (Option<u64>, Option<u64>),
        text: Seq<char>,
    ) -> Seq<char> {
        if self.lane.advanced(versions_before) {
            partial_text(self.lane, self.stack3_head_terminal is Some, text)
        } else {
            text
        }
    }

    /// The forward fails with a text, from this model on.
    pub open spec fn fails(
        self,
        frame: Frame,
        text: Seq<char>,
        after: Self,
        r: Result<ForwardRun, Error>,
    ) -> bool {
        &&& after == self.latched(frame.versions_before)
        &&& r is Err
        &&& r->Err_0.text() == self.failure_text(frame.versions_before, text)
    }

    /// The forward goes on with some work, from this model on.
    pub open spec fn goes_on(
        self,
        frame: Frame,
        layer_index: usize,
        work: Work,
        after: Self,
        r: Result<ForwardRun, Error>,
    ) -> bool {
        after == self && r == Ok::<ForwardRun, Error>(ForwardRun { frame, layer_index, work })
    }

    /// Ends a forward with an error.
    pub(crate) fn fail(&mut self, frame: Frame, error: Error) -> (e: Error)
        requires
            old(self).wf(),
        ensures
            *final(self) == old(self).latched(frame.versions_before),
            e.text() == old(self).failure_text(frame.versions_before, error.text()),
            final(self).wf(),
    {
        let with_head = self.stack3_head_terminal.is_some();
        proof {
            latched_lane_fits(self.lane, self.config.text, frame.versions_before);
        }
        if self.lane.latch_after_partial_commit(frame.versions_before) {
            if with_head {
                self.stack3_head_terminal = Some(true);
            }
            partial_error(&self.lane, with_head, error)
        } else {
            error
        }
    }

    /// The model after a whole forward.
    pub open spec fn advanced(self, frame: Frame) -> Self {
        GeneralQwen35 {
            state: Qwen35HybridState {
                position: (self.state.position + frame.sequence_length) as usize,
                ..self.state
            },
            lane: match self.lane {
                Lane::TailHead(lane) if frame.start_pos == 0 => Lane::TailHead(
                    Qwen35MetalW8MlpStack3BoundaryTailHeadV1 {
                        prefill_body_calls: lane.prefill_body_calls.saturating_add(1),
                        ..lane
                    },
                ),
                other => other,
            },
            ..self
        }
    }

    /// One token behind a prefix.
    pub open spec fn decodes(self, frame: Frame, hidden: Tensor) -> bool {
        frame.start_pos > 0 && hidden.dims() == seq![1usize, self.config.text.hidden_size]
    }

    /// The work of an owner that runs a layer from its start.
    pub open spec fn owned_work(owner: Owner, hidden: Tensor) -> Work {
        match owner {
            Owner::Reference => Work::Reference { hidden },
            Owner::Stack(stack) => Work::Stack { stack, hidden },
            Owner::InitialStack => Work::InitialStack { hidden },
            _ => Work::LinearLayer { hidden },
        }
    }

    /// What stops full attention of a layer of the schedule.
    pub open spec fn residual_error(self, layer_index: usize) -> Option<Error> {
        if layer_index >= self.weights.layers@.len() {
            Some(Error::BoundaryOutsideBody { layer_index })
        } else if self.weights.layers@[layer_index as int].attention.kind()
            != Qwen35LayerType::FullAttention {
            Some(Error::BoundaryNotFull { layer_index })
        } else if self.config.text.kind(layer_index as int) != Some(
            Qwen35LayerType::FullAttention,
        ) {
            Some(Error::BoundaryScheduleChanged { layer_index })
        } else if self.state.cache_slot(layer_index as int) is None {
            Some(Error::NoKvCache { layer_index })
        } else {
            None
        }
    }

    /// The cache slot for full attention of a layer of the schedule.
    pub fn full_attention_slot_for_mlp_stack3_boundary_body_v1(&self, layer_index: usize) -> (r:
        Result<usize, Error>)
        ensures
            r == match self.residual_error(layer_index) {
                Some(e) => Err::<usize, Error>(e),
                None => Ok(self.state.cache_slot(layer_index as int)->Some_0),
            },
    {
        if layer_index >= self.weights.layers.len() {
            return Err(Error::BoundaryOutsideBody { layer_index });
        }
        if self.weights.layers[layer_index].attention.layer_type()
            != Qwen35LayerType::FullAttention {
            return Err(Error::BoundaryNotFull { layer_index });
        }
        let configured = match self.config.text.layer_type(layer_index) {
            Some(kind) => kind == Qwen35LayerType::FullAttention,
            None => false,
        };
        if !configured {
            return Err(Error::BoundaryScheduleChanged { layer_index });
        }
        self.state.full_cache_index(layer_index)
    }

    /// The forward comes to a layer with its input.
    pub open spec fn enters(
        self,
        frame: Frame,
        layer_index: usize,
        hidden: Tensor,
        after: Self,
        r: Result<ForwardRun, Error>,
    ) -> bool {
        if layer_index >= self.config.text.n_layers {
            self.advanced(frame).goes_on(
                frame,
                layer_index,
                Work::Finished { hidden },
                after,
                r,
            )
        } else {
            let owner = if self.decodes(frame, hidden) {
                self.lane.owner_of(layer_index)
            } else {
                Owner::Cpu
            };
            match owner {
                Owner::Cpu => if frame.start_pos > 0 && self.lane.owns_error(layer_index) is Some {
                    self.fails(
                        frame,
                        self.lane.owns_error(layer_index)->Some_0.text(),
                        after,
                        r,
                    )
                } else {
                    self.goes_on(frame, layer_index, Work::InputNorm { hidden }, after, r)
                },
                Owner::Nobody => self.fails(
                    frame,
                    if self.lane is TailHead {
                        Error::TailHeadNoOwner { layer_index }.text()
                    } else {
                        Error::BoundaryBodyNoOwner { layer_index }.text()
                    },
                    after,
                    r,
                ),
                Owner::Boundary(_) | Owner::FinalLayer => match self.residual_error(layer_index) {
                    Some(e) => self.fails(frame, e.text(), after, r),
                    None => self.goes_on(
                        frame,
                        layer_index,
                        Work::FullResidual {
                            hidden,
                            cache_index: self.state.cache_slot(layer_index as int)->Some_0,
                        },
                        after,
                        r,
                    ),
                },
                _ => self.starts(
                    frame,
                    layer_index,
                    owner,
                    hidden,
                    GeneralQwen35::owned_work(owner, hidden),
                    after,
                    r,
                ),
            }
        }
    }

    /// An owner is asked to run on an input.
    pub open spec fn starts(
        self,
        frame: Frame,
        layer_index: usize,
        owner: Owner,
        input: Tensor,
        work: Work,
        after: Self,
        r: Result<ForwardRun, Error>,
    ) -> bool {
        exists|begun: Lane|
            {
                &&& #[trigger] self.lane.begins(owner, layer_index, input, begun)
                &&& match self.lane.begin_fault(owner, layer_index, input) {
                    Some(text) => self.with_lane(begun).fails(frame, text, after, r),
                    None => self.with_lane(begun).goes_on(frame, layer_index, work, after, r),
                }
            }
    }

    /// Comes to a layer with its input.
    pub(crate) fn enter(&mut self, frame: Frame, layer_index: usize, hidden: Tensor) -> (r: Result<
        ForwardRun,
        Error,
    >)
        requires
            old(self).wf(),
            old(self).state.position == frame.start_pos,
            old(self).state.position + frame.sequence_length <= old(self).state.max_context,
            frame.sequence_length > 0,
            layer_index <= old(self).config.text.n_layers,
        ensures
            old(self).enters(frame, layer_index, hidden, *final(self), r),
            final(self).wf(),
            final(self).config == old(self).config,
            r matches Ok(run) ==> {
                &&& run.work is Finished || final(self).runs(run)
                &&& run.frame == frame
                &&& run.layer_index == layer_index
                &&& stage(run.work) == 1 || run.work is Finished
            },
    {
        if layer_index >= self.config.text.n_layers {
            self.state.advance(frame.sequence_length);
            if frame.start_pos == 0 {
                if let Lane::TailHead(lane) = &mut self.lane {
                    lane.prefill_body_calls = lane.prefill_body_calls.saturating_add(1);
                }
            }
            return Ok(ForwardRun { frame, layer_index, work: Work::Finished { hidden } });
        }
        let decode = frame.start_pos > 0 && is_row(&hidden, self.config.text.hidden_size);
        let owner = if decode {
            self.lane.owner(layer_index)
        } else {
            Owner::Cpu
        };
        match owner {
            Owner::Cpu => {
                if frame.start_pos > 0 {
                    if let Err(e) = self.lane.check_owns_no_state(layer_index) {
                        return Err(self.fail(frame, e));
                    }
                }
                Ok(ForwardRun { frame, layer_index, work: Work::InputNorm { hidden } })
            },
            Owner::Nobody => {
                let e = match &self.lane {
                    Lane::TailHead(_) => Error::TailHeadNoOwner { layer_index },
                    _ => Error::BoundaryBodyNoOwner { layer_index },
                };
                Err(self.fail(frame, e))
            },
            Owner::Boundary(_) | Owner::FinalLayer => {
                match self.full_attention_slot_for_mlp_stack3_boundary_body_v1(layer_index) {
                    Err(e) => Err(self.fail(frame, e)),
                    Ok(cache_index) => Ok(
                        ForwardRun {
                            frame,
                            layer_index,
                            work: Work::FullResidual { hidden, cache_index },
                        },
                    ),
                }
            },
            Owner::Reference => {
                if let Err(e) = self.start(frame, layer_index, owner, &hidden) {
                    return Err(e);
                }
                Ok(ForwardRun { frame, layer_index, work: Work::Reference { hidden } })
            },
            Owner::Stack(stack) => {
                if let Err(e) = self.start(frame, layer_index, owner, &hidden) {
                    return Err(e);
                }
                Ok(ForwardRun { frame, layer_index, work: Work::Stack { stack, hidden } })
            },
            Owner::InitialStack => {
                if let Err(e) = self.start(frame, layer_index, owner, &hidden) {
                    return Err(e);
                }
                Ok(ForwardRun { frame, layer_index, work: Work::InitialStack { hidden } })
            },
            Owner::LinearLayer | Owner::AllLinearLayer => {
                if let Err(e) = self.start(frame, layer_index, owner, &hidden) {
                    return Err(e);
                }
                Ok(ForwardRun { frame, layer_index, work: Work::LinearLayer { hidden } })
            },
        }
    }

    /// Asks an owner to run on an input.
    pub(crate) fn start(
        &mut self,
        frame: Frame,
        layer_index: usize,
        owner: Owner,
        input: &Tensor,
    ) -> (r:
        Result<(), Error>)
        requires
            old(self).wf(),
            old(self).lane.has_owner(owner, layer_index),
        ensures
            final(self).wf(),
            exists|begun: Lane|
                {
                    &&& #[trigger] old(self).lane.begins(owner, layer_index, *input, begun)
                    &&& match old(self).lane.begin_fault(owner, layer_index, *input) {
                        Some(text) => {
                            let mid = old(self).with_lane(begun);
                            &&& *final(self) == mid.latched(frame.versions_before)
                            &&& r is Err
                            &&& r->Err_0.text() == mid.failure_text(frame.versions_before, text)
                        },
                        None => *final(self) == old(self).with_lane(begun) && r is Ok,
                    }
                },
            r is Ok ==> final(self).lane.has_owner(owner, layer_index),
    {
        let ghost before = *self;
        let begun = self.lane.begin(owner, layer_index, input);
        proof {
            begun_lane_fits(before.lane, before.config.text, owner, layer_index, *input, self.lane);
        }
        let ghost mid = *self;
        proof {
            assert(before.lane.begins(owner, layer_index, *input, mid.lane));
            assert(mid == before.with_lane(mid.lane));
        }
        match begun {
            Ok(_) => Ok(()),
            Err(e) => Err(self.fail(frame, e)),
        }
    }
}

proof fn begun_lane_fits(
    lane: Lane,
    config: Qwen35TextConfig,
    owner: Owner,
    layer_index: usize,
    input: Tensor,
    after: Lane,
)
    requires
        lane.fits(config),
        lane.has_owner(owner, layer_index),
        lane.begins(owner, layer_index, input, after),
    ensures
        after.fits(config),
        after.has_owner(owner, layer_index),
{
    match owner {
        Owner::Reference => {},
        Owner::LinearLayer => {},
        Owner::AllLinearLayer => {
            linear_layers_keep_the_fit(
                lane,
                config,
                layer_index,
                lane.linear_of(layer_index).after_begin(input),
                after,
            );
        },
        _ => {
            transactions_keep_the_fit(lane, config, owner, after);
        },
    }
}

/// The owner of a transaction of the schedule.
pub open spec fn scheduled_owner(transaction: Transaction) -> Owner {
    match transaction {
        Transaction::InitialStack => Owner::InitialStack,
        Transaction::Boundary(boundary) => Owner::Boundary(boundary),
    }
}

proof fn latched_lane_fits(
    lane: Lane,
    config: Qwen35TextConfig,
    versions_before: (Option<u64>, Option<u64>),
)
    requires
        lane.fits(config),
    ensures
        lane.latched(versions_before).fits(config),
{
    let after = lane.latched(versions_before);
    match lane {
        Lane::AllLinear(a) => {
            assert(after->AllLinear_0.layers == a.layers);
            assert(after->AllLinear_0.fits(config));
        },
        Lane::Stacks(a) => {
            assert(after->Stacks_0.stacks == a.stacks);
            assert(after->Stacks_0.layer_to_stack == a.layer_to_stack);
            assert forall|l: int| after->Stacks_0.slot_of(l) == a.slot_of(l) by {}
            assert(after->Stacks_0.fits(config));
        },
        _ => {},
    }
}

} // verus!
