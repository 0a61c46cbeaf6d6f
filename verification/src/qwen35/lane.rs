//! The accelerated lane of a model: at most one of the kinds below.
//!
//! The lane decides who runs a layer of a single-token decode, takes custody of
//! the states that CPU prefill leaves, and remembers errors until a reset.

use vstd::pervasive::unreached;
use vstd::prelude::*;

use crate::error::{
    answers, boundary_body_partial_text, lane_partial_text, tail_head_partial_text, Error, Fault,
};
use crate::qwen35::boundary_lane::{
    boundary_layer, follows, BoundarySchedule, Qwen35MetalW8MlpStack3BoundaryBodyV1, Transaction,
    BOUNDARIES, FINAL_LAYER,
};
use crate::qwen35::config::{Qwen35LayerType, Qwen35TextConfig};
use crate::qwen35::linear_lane::{
    DecodeReport, GdnDecodeState, Qwen35MetalW8AllLinearLayersPrecisionV2, Qwen35MetalW8GdnLayer,
    Qwen35MetalW8LinearLayer, Qwen35PackedW8LinearLayerReference,
};
use crate::qwen35::metal::{
    GdnDimensions, LinearLayerMetalStats, LinearLayerStack3MetalStats,
    MlpStack3BoundaryMetalStatsV1,
};
use crate::qwen35::stack_lane::{Stack3Counters, Stack3Custody};
use crate::qwen35::stacks_lane::{is_stack_of, Qwen35MetalW8LinearLayerStacksV1};
use crate::qwen35::tail_lane::Qwen35MetalW8MlpStack3BoundaryTailHeadV1;
use crate::qwen35::w8_pack::dimensions_of;
use crate::tensor::Tensor;

verus! {

/// The accelerated lane of a model.
#[derive(Debug, PartialEq, Eq)]
pub enum Lane {
    Cpu,
    Gdn(Qwen35MetalW8GdnLayer),
    LinearLayer(Qwen35MetalW8LinearLayer),
    PackedReference(Qwen35PackedW8LinearLayerReference),
    AllLinear(Qwen35MetalW8AllLinearLayersPrecisionV2),
    Stacks(Qwen35MetalW8LinearLayerStacksV1),
    BoundaryBody(Qwen35MetalW8MlpStack3BoundaryBodyV1),
    TailHead(Qwen35MetalW8MlpStack3BoundaryTailHeadV1),
}

/// Who runs a layer of a single-token decode.
#[derive(Clone, Copy, Debug, PartialEq, Eq, Structural)]
pub enum Owner {
    Cpu,
    Reference,
    LinearLayer,
    AllLinearLayer,
    Stack(usize),
    InitialStack,
    /// CPU attention first, then the boundary.
    Boundary(usize),
    /// CPU attention first, then the final feed-forward block or nothing more.
    FinalLayer,
    Nobody,
}

/// What is to be done with the state that CPU prefill left for a layer.
#[derive(Debug, PartialEq, Eq)]
pub enum SeedStep {
    /// The lane has it; nothing more is to be done.
    Kept,
    /// It is to be handed to the block of the layer.
    Block { state: GdnDecodeState },
    /// The three states of a stack are to be handed over.
    Stack { stack: usize },
    /// The three states of a transaction of the schedule are to be handed over.
    Scheduled { transaction: Transaction },
}

/// A layer of the model is a linear-attention layer with the model's sizes.
pub open spec fn is_linear_layer(
    config: Qwen35TextConfig,
    layer_index: usize,
    dimensions: GdnDimensions,
) -> bool {
    &&& config.kind(layer_index as int) == Some(Qwen35LayerType::LinearAttention)
    &&& dimensions == dimensions_of(config)
}

impl Lane {
    /// The lane belongs to the model of this configuration.
    pub open spec fn fits(self, config: Qwen35TextConfig) -> bool {
        match self {
            Lane::Cpu => true,
            Lane::Gdn(layer) => is_linear_layer(config, layer.layer_index, layer.dimensions),
            Lane::LinearLayer(layer) => is_linear_layer(
                config,
                layer.layer_index,
                layer.dimensions,
            ),
            Lane::PackedReference(layer) => is_linear_layer(
                config,
                layer.layer_index,
                layer.dimensions,
            ),
            Lane::AllLinear(lane) => lane.fits(config),
            Lane::Stacks(lane) => lane.fits(config),
            Lane::BoundaryBody(body) => body.fits(config),
            Lane::TailHead(lane) => lane.fits(config),
        }
    }

    /// The error of a lane that is terminal. The recurrent block alone is never
    /// terminal as a lane.
    pub open spec fn terminal_error(self) -> Option<Error> {
        match self {
            Lane::Cpu => None,
            Lane::Gdn(_) => None,
            Lane::LinearLayer(layer) => if layer.terminal_error {
                Some(Error::LinearLayerTerminal { layer_index: layer.layer_index })
            } else {
                None
            },
            Lane::PackedReference(reference) => if reference.terminal_error {
                Some(Error::ReferenceTerminal { layer_index: reference.layer_index })
            } else {
                None
            },
            Lane::AllLinear(lane) => if lane.terminal() {
                Some(Error::AllLinearTerminal)
            } else {
                None
            },
            Lane::Stacks(lane) => if lane.terminal() {
                Some(Error::StacksTerminal)
            } else {
                None
            },
            Lane::BoundaryBody(body) => if body.terminal() {
                Some(Error::BoundaryBodyTerminal)
            } else {
                None
            },
            Lane::TailHead(lane) => if lane.terminal() {
                Some(Error::TailHeadTerminal)
            } else {
                None
            },
        }
    }

    /// Checks that the lane is not terminal.
    pub fn check_not_terminal(&self) -> (r: Result<(), Error>)
        ensures
            r == match self.terminal_error() {
                Some(e) => Err::<(), Error>(e),
                None => Ok(()),
            },
    {
        match self {
            Lane::Cpu => Ok(()),
            Lane::Gdn(_) => Ok(()),
            Lane::LinearLayer(layer) => if layer.terminal_error {
                Err(Error::LinearLayerTerminal { layer_index: layer.layer_index })
            } else {
                Ok(())
            },
            Lane::PackedReference(reference) => if reference.terminal_error {
                Err(Error::ReferenceTerminal { layer_index: reference.layer_index })
            } else {
                Ok(())
            },
            Lane::AllLinear(lane) => if lane.is_terminal() {
                Err(Error::AllLinearTerminal)
            } else {
                Ok(())
            },
            Lane::Stacks(lane) => if lane.is_terminal() {
                Err(Error::StacksTerminal)
            } else {
                Ok(())
            },
            Lane::BoundaryBody(body) => if body.is_terminal() {
                Err(Error::BoundaryBodyTerminal)
            } else {
                Ok(())
            },
            Lane::TailHead(lane) => if lane.is_terminal() {
                Err(Error::TailHeadTerminal)
            } else {
                Ok(())
            },
        }
    }

    /// The lane takes over whole stacks, so that only single tokens can be
    /// decoded once there is a prefix.
    pub open spec fn owns_stacks(self) -> bool {
        self is Stacks || self is BoundaryBody || self is TailHead
    }

    /// Whether the lane takes over whole stacks.
    pub fn takes_stacks(&self) -> (r: bool)
        ensures
            r == self.owns_stacks(),
    {
        match self {
            Lane::Stacks(_) => true,
            Lane::BoundaryBody(_) => true,
            Lane::TailHead(_) => true,
            _ => false,
        }
    }

    /// The state versions of the complete linear layer and of the reference.
    pub open spec fn versions(self) -> (Option<u64>, Option<u64>) {
        match self {
            Lane::LinearLayer(layer) => (Some(layer.execution.committed_state_version), None),
            Lane::PackedReference(reference) => (None, Some(reference.committed_state_version)),
            _ => (None, None),
        }
    }

    /// The state versions of the complete linear layer and of the reference.
    pub fn complete_linear_layer_lane_versions(&self) -> (r: (Option<u64>, Option<u64>))
        ensures
            r == self.versions(),
    {
        match self {
            Lane::LinearLayer(layer) => (Some(layer.execution.committed_state_version), None),
            Lane::PackedReference(reference) => (None, Some(reference.committed_state_version)),
            _ => (None, None),
        }
    }

    /// A failed forward leaves the lane with state that was partly moved on: a
    /// single layer that committed a newer version, and every lane of many
    /// layers, whose prefill and decode go layer by layer.
    pub open spec fn advanced(self, versions_before: (Option<u64>, Option<u64>)) -> bool {
        match self {
            Lane::Cpu => false,
            Lane::Gdn(_) => false,
            Lane::LinearLayer(layer) => versions_before.0 matches Some(before)
                && layer.execution.committed_state_version > before,
            Lane::PackedReference(reference) => versions_before.1 matches Some(before)
                && reference.committed_state_version > before,
            _ => true,
        }
    }

    /// The lane after a failed forward.
    pub open spec fn latched(self, versions_before: (Option<u64>, Option<u64>)) -> Lane {
        if !self.advanced(versions_before) {
            self
        } else {
            match self {
                Lane::Cpu => self,
                Lane::Gdn(_) => self,
                Lane::LinearLayer(layer) => Lane::LinearLayer(
                    Qwen35MetalW8LinearLayer { terminal_error: true, ..layer },
                ),
                Lane::PackedReference(reference) => Lane::PackedReference(
                    Qwen35PackedW8LinearLayerReference { terminal_error: true, ..reference },
                ),
                Lane::AllLinear(lane) => Lane::AllLinear(
                    Qwen35MetalW8AllLinearLayersPrecisionV2 { terminal_error: true, ..lane },
                ),
                Lane::Stacks(lane) => Lane::Stacks(
                    Qwen35MetalW8LinearLayerStacksV1 { terminal_error: true, ..lane },
                ),
                Lane::BoundaryBody(body) => Lane::BoundaryBody(
                    Qwen35MetalW8MlpStack3BoundaryBodyV1 { terminal_error: true, ..body },
                ),
                Lane::TailHead(lane) => Lane::TailHead(
                    Qwen35MetalW8MlpStack3BoundaryTailHeadV1 { terminal_error: true, ..lane },
                ),
            }
        }
    }

    /// Makes a lane terminal whose state was partly moved on by a failed
    /// forward, and says whether it was.
    pub fn latch_after_partial_commit(
        &mut self,
        versions_before: (Option<u64>, Option<u64>),
    ) -> (r: bool)
        ensures
            *final(self) == old(self).latched(versions_before),
            r == old(self).advanced(versions_before),
    {
        match self {
            Lane::Cpu => false,
            Lane::Gdn(_) => false,
            Lane::LinearLayer(layer) => match versions_before.0 {
                Some(before) => if layer.execution.committed_state_version > before {
                    layer.terminal_error = true;
                    true
                } else {
                    false
                },
                None => false,
            },
            Lane::PackedReference(reference) => match versions_before.1 {
                Some(before) => if reference.committed_state_version > before {
                    reference.terminal_error = true;
                    true
                } else {
                    false
                },
                None => false,
            },
            Lane::AllLinear(lane) => {
                lane.latch_terminal();
                true
            },
            Lane::Stacks(lane) => {
                lane.latch_terminal();
                true
            },
            Lane::BoundaryBody(body) => {
                body.latch_terminal();
                true
            },
            Lane::TailHead(lane) => {
                lane.latch_terminal();
                true
            },
        }
    }

    /// Who runs a layer of a single-token decode.
    pub open spec fn owner_of(self, layer_index: usize) -> Owner {
        match self {
            Lane::Cpu => Owner::Cpu,
            Lane::Gdn(_) => Owner::Cpu,
            Lane::LinearLayer(layer) => if layer.layer_index == layer_index {
                Owner::LinearLayer
            } else {
                Owner::Cpu
            },
            Lane::PackedReference(reference) => if reference.layer_index == layer_index {
                Owner::Reference
            } else {
                Owner::Cpu
            },
            Lane::AllLinear(lane) => if lane.layer_of(layer_index as int) is Some {
                Owner::AllLinearLayer
            } else {
                Owner::Cpu
            },
            Lane::Stacks(lane) => match lane.start_of(layer_index as int) {
                Some(stack) => Owner::Stack(stack),
                None => Owner::Cpu,
            },
            _ => if layer_index == 0 {
                Owner::InitialStack
            } else {
                match BoundarySchedule::boundary_of(layer_index as int) {
                    Some(boundary) => Owner::Boundary(boundary),
                    None => if layer_index == FINAL_LAYER {
                        Owner::FinalLayer
                    } else {
                        Owner::Nobody
                    },
                }
            },
        }
    }

    /// Who runs a layer of a single-token decode.
    pub fn owner(&self, layer_index: usize) -> (owner: Owner)
        ensures
            owner == self.owner_of(layer_index),
    {
        match self {
            Lane::Cpu => Owner::Cpu,
            Lane::Gdn(_) => Owner::Cpu,
            Lane::LinearLayer(layer) => if layer.layer_index == layer_index {
                Owner::LinearLayer
            } else {
                Owner::Cpu
            },
            Lane::PackedReference(reference) => if reference.layer_index == layer_index {
                Owner::Reference
            } else {
                Owner::Cpu
            },
            Lane::AllLinear(lane) => if lane.layer(layer_index).is_some() {
                Owner::AllLinearLayer
            } else {
                Owner::Cpu
            },
            Lane::Stacks(lane) => match lane.stack_start(layer_index) {
                Some(stack) => Owner::Stack(stack),
                None => Owner::Cpu,
            },
            _ => if layer_index == 0 {
                Owner::InitialStack
            } else {
                match BoundarySchedule::boundary_index(layer_index) {
                    Some(boundary) => Owner::Boundary(boundary),
                    None => if layer_index == FINAL_LAYER {
                        Owner::FinalLayer
                    } else {
                        Owner::Nobody
                    },
                }
            },
        }
    }

    /// A layer refuses several tokens at once, because the lane has its state.
    pub open spec fn owns_error(self, layer_index: usize) -> Option<Error> {
        match self {
            Lane::LinearLayer(layer) => if layer.layer_index == layer_index && (layer.seeded
                || layer.terminal_error) {
                Some(Error::LinearLayerOwnsState { layer_index })
            } else {
                None
            },
            Lane::PackedReference(reference) => if reference.layer_index == layer_index && (
            reference.state is Some || reference.terminal_error) {
                Some(Error::ReferenceOwnsState { layer_index })
            } else {
                None
            },
            Lane::AllLinear(lane) => match lane.layer_of(layer_index as int) {
                Some(layer) if layer.seeded || layer.terminal_error => Some(
                    Error::AllLinearOwnsState { layer_index },
                ),
                _ => None,
            },
            _ => None,
        }
    }

    /// Checks that a layer may run several tokens at once behind a prefix.
    pub fn check_owns_no_state(&self, layer_index: usize) -> (r: Result<(), Error>)
        ensures
            r == match self.owns_error(layer_index) {
                Some(e) => Err::<(), Error>(e),
                None => Ok(()),
            },
    {
        match self {
            Lane::LinearLayer(layer) => if layer.layer_index == layer_index && (layer.seeded
                || layer.terminal_error) {
                Err(Error::LinearLayerOwnsState { layer_index })
            } else {
                Ok(())
            },
            Lane::PackedReference(reference) => if reference.layer_index == layer_index && (
            reference.state.is_some() || reference.terminal_error) {
                Err(Error::ReferenceOwnsState { layer_index })
            } else {
                Ok(())
            },
            Lane::AllLinear(lane) => match lane.layer(layer_index) {
                Some(layer) => if layer.seeded || layer.terminal_error {
                    Err(Error::AllLinearOwnsState { layer_index })
                } else {
                    Ok(())
                },
                None => Ok(()),
            },
            _ => Ok(()),
        }
    }

    /// The owner is one that this lane names for the layer.
    pub open spec fn has_owner(self, owner: Owner, layer_index: usize) -> bool {
        match owner {
            Owner::Reference => self is PackedReference,
            Owner::LinearLayer => self is LinearLayer,
            Owner::AllLinearLayer => self matches Lane::AllLinear(lane) && lane.layer_of(
                layer_index as int,
            ) is Some,
            Owner::Stack(stack) => self matches Lane::Stacks(lane) && stack < lane.stacks@.len(),
            Owner::InitialStack => self is BoundaryBody || self is TailHead,
            Owner::Boundary(boundary) => match self {
                Lane::BoundaryBody(body) => boundary < body.schedule.boundaries@.len(),
                Lane::TailHead(lane) => boundary < lane.schedule.boundaries@.len(),
                _ => false,
            },
            _ => false,
        }
    }

    /// The transactions of the fixed schedule.
    pub open spec fn schedule_of(self) -> BoundarySchedule {
        match self {
            Lane::BoundaryBody(body) => body.schedule,
            Lane::TailHead(lane) => lane.schedule,
            _ => arbitrary(),
        }
    }

    /// Only the transactions of the schedule differ.
    pub open spec fn differs_in_schedule(self, after: Lane) -> bool {
        match (self, after) {
            (Lane::BoundaryBody(a), Lane::BoundaryBody(b)) => b
                == (Qwen35MetalW8MlpStack3BoundaryBodyV1 { schedule: b.schedule, ..a }),
            (Lane::TailHead(a), Lane::TailHead(b)) => b
                == (Qwen35MetalW8MlpStack3BoundaryTailHeadV1 { schedule: b.schedule, ..a }),
            _ => false,
        }
    }

    /// Only the entry of one layer differs.
    pub open spec fn differs_in_layer(
        self,
        layer_index: usize,
        layer: Qwen35MetalW8LinearLayer,
        after: Lane,
    ) -> bool {
        match (self, after) {
            (Lane::AllLinear(a), Lane::AllLinear(b)) => {
                &&& b.layers@ == a.layers@.update(layer_index as int, Some(layer))
                &&& b.profile == a.profile
                &&& b.terminal_error == a.terminal_error
            },
            _ => false,
        }
    }

    /// The custody of the three states that an owner runs on.
    pub open spec fn custody_of(self, owner: Owner) -> Stack3Custody {
        match owner {
            Owner::Stack(stack) => self->Stacks_0.stacks@[stack as int].custody,
            Owner::Boundary(boundary) => self.schedule_of().boundaries@[boundary as int].custody,
            _ => self.schedule_of().initial_stack.custody,
        }
    }

    /// Only one transaction differs.
    pub open spec fn differs_at(self, owner: Owner, after: Lane) -> bool {
        match owner {
            Owner::Stack(stack) => match (self, after) {
                (Lane::Stacks(a), Lane::Stacks(b)) => a.differs_at(stack as int, b),
                _ => false,
            },
            Owner::Boundary(boundary) => {
                &&& self.differs_in_schedule(after)
                &&& self.schedule_of().differs_at(
                    Transaction::Boundary(boundary),
                    after.schedule_of(),
                )
            },
            _ => {
                &&& self.differs_in_schedule(after)
                &&& self.schedule_of().differs_at(Transaction::InitialStack, after.schedule_of())
            },
        }
    }

    /// The counters of a transaction are the same.
    pub open spec fn same_counters(self, owner: Owner, after: Lane) -> bool {
        match owner {
            Owner::Stack(stack) => self->Stacks_0.stacks@[stack as int].counters
                == after->Stacks_0.stacks@[stack as int].counters,
            Owner::Boundary(boundary) =>
                self.schedule_of().boundaries@[boundary as int].counters
                == after.schedule_of().boundaries@[boundary as int].counters,
            _ => self.schedule_of().initial_stack.counters
                == after.schedule_of().initial_stack.counters,
        }
    }

    /// What stops an owner from running on `input`.
    pub open spec fn begin_fault(self, owner: Owner, layer_index: usize, input: Tensor) -> Fault {
        match owner {
            Owner::Reference => self->PackedReference_0.begin_fault(input),
            Owner::LinearLayer => self->LinearLayer_0.begin_fault(input),
            Owner::AllLinearLayer => self->AllLinear_0.layer_of(
                layer_index as int,
            )->Some_0.begin_fault(input),
            _ => self.custody_of(owner).begin_fault(input),
        }
    }

    /// What a refused or accepted start of an owner leaves.
    pub open spec fn begins(
        self,
        owner: Owner,
        layer_index: usize,
        input: Tensor,
        after: Lane,
    ) -> bool {
        match owner {
            Owner::Reference => after == Lane::PackedReference(
                self->PackedReference_0.after_begin(input),
            ),
            Owner::LinearLayer => after == Lane::LinearLayer(
                self->LinearLayer_0.after_begin(input),
            ),
            Owner::AllLinearLayer => self.differs_in_layer(
                layer_index,
                self->AllLinear_0.layer_of(layer_index as int)->Some_0.after_begin(input),
                after,
            ),
            _ => {
                &&& self.differs_at(owner, after)
                &&& self.same_counters(owner, after)
                &&& after.custody_of(owner) == self.custody_of(owner).after_begin(input)
            },
        }
    }

    /// Decides whether an owner may run on `input`.
    pub fn begin(&mut self, owner: Owner, layer_index: usize, input: &Tensor) -> (r: Result<
        (),
        Error,
    >)
        requires
            old(self).has_owner(owner, layer_index),
        ensures
            old(self).begins(owner, layer_index, *input, *final(self)),
            answers(r, old(self).begin_fault(owner, layer_index, *input)),
    {
        match self {
            Lane::PackedReference(reference) => reference.begin(input),
            Lane::LinearLayer(layer) => layer.begin(input),
            Lane::AllLinear(lane) => {
                match lane.layer(layer_index) {
                    Some(layer) => {
                        let mut layer = layer;
                        let r = layer.begin(input);
                        lane.layer_mut(layer_index, layer);
                        r
                    },
                    None => unreached(),
                }
            },
            Lane::Stacks(lane) => {
                match owner {
                    Owner::Stack(s) => {
                        let stack = &mut lane.stacks[s];
                        stack.custody.begin(input)
                    },
                    _ => unreached(),
                }
            },
            Lane::BoundaryBody(body) => {
                match owner {
                    Owner::Boundary(b) => {
                        let region = &mut body.schedule.boundaries[b];
                        region.custody.begin(input)
                    },
                    _ => body.schedule.initial_stack.custody.begin(input),
                }
            },
            Lane::TailHead(lane) => {
                match owner {
                    Owner::Boundary(b) => {
                        let region = &mut lane.schedule.boundaries[b];
                        region.custody.begin(input)
                    },
                    _ => lane.schedule.initial_stack.custody.begin(input),
                }
            },
            _ => unreached(),
        }
    }

    /// CPU prefill of the layer seeds the lane.
    pub open spec fn takes_seed(self, layer_index: usize) -> bool {
        match self {
            Lane::Cpu => false,
            Lane::Gdn(layer) => layer.layer_index == layer_index,
            Lane::LinearLayer(layer) => layer.layer_index == layer_index,
            Lane::PackedReference(reference) => reference.layer_index == layer_index,
            Lane::AllLinear(lane) => lane.layer_of(layer_index as int) is Some,
            Lane::Stacks(lane) => lane.slot_of(layer_index as int) is Some,
            _ => BoundarySchedule::slot_of(layer_index as int) is Some,
        }
    }

    /// Whether CPU prefill of the layer seeds the lane.
    pub fn is_seeded_by(&self, layer_index: usize) -> (r: bool)
        ensures
            r == self.takes_seed(layer_index),
    {
        match self {
            Lane::Cpu => false,
            Lane::Gdn(layer) => layer.layer_index == layer_index,
            Lane::LinearLayer(layer) => layer.layer_index == layer_index,
            Lane::PackedReference(reference) => reference.layer_index == layer_index,
            Lane::AllLinear(lane) => lane.layer(layer_index).is_some(),
            Lane::Stacks(lane) => lane.selected_slot(layer_index).is_some(),
            _ => BoundarySchedule::selected_linear_slot(layer_index).is_some(),
        }
    }

    /// The transaction and the place in it that a layer seeds.
    pub open spec fn seeded_owner(self, layer_index: usize) -> (Owner, usize) {
        match self {
            Lane::Stacks(lane) => {
                let (stack, place) = lane.slot_of(layer_index as int)->Some_0;
                (Owner::Stack(stack), place)
            },
            _ => match BoundarySchedule::slot_of(layer_index as int)->Some_0 {
                (Transaction::InitialStack, place) => (Owner::InitialStack, place),
                (Transaction::Boundary(boundary), place) => (Owner::Boundary(boundary), place),
            },
        }
    }

    /// What the state that CPU prefill left for a layer leaves.
    pub open spec fn seeds(
        self,
        layer_index: usize,
        state: GdnDecodeState,
        after: Lane,
        r: Result<SeedStep, Error>,
    ) -> bool {
        match self {
            Lane::PackedReference(reference) => {
                &&& after == Lane::PackedReference(
                    Qwen35PackedW8LinearLayerReference {
                        state: Some(state),
                        prefill_seed_calls: reference.prefill_seed_calls.saturating_add(1),
                        ..reference.cleared()
                    },
                )
                &&& r == Ok::<SeedStep, Error>(SeedStep::Kept)
            },
            Lane::Stacks(_) | Lane::BoundaryBody(_) | Lane::TailHead(_) => {
                let (owner, place) = self.seeded_owner(layer_index);
                &&& self.differs_at(owner, after)
                &&& self.same_counters(owner, after)
                &&& self.custody_of(owner).seeds(place, state, after.custody_of(owner))
                &&& r == if self.custody_of(owner).refuses(place) {
                    Err::<SeedStep, Error>(self.custody_of(owner).owner.invalid_seed(place))
                } else if !after.custody_of(owner).is_complete() {
                    Ok(SeedStep::Kept)
                } else {
                    Ok(
                        match owner {
                            Owner::Stack(stack) => SeedStep::Stack { stack },
                            Owner::Boundary(boundary) => SeedStep::Scheduled {
                                transaction: Transaction::Boundary(boundary),
                            },
                            _ => SeedStep::Scheduled { transaction: Transaction::InitialStack },
                        },
                    )
                }
            },
            _ => after == self && r == Ok::<SeedStep, Error>(SeedStep::Block { state }),
        }
    }

    /// Takes the state that CPU prefill left for a layer, and says who is to get
    /// it next.
    pub fn seed(&mut self, layer_index: usize, state: GdnDecodeState) -> (r: Result<
        SeedStep,
        Error,
    >)
        requires
            old(self).takes_seed(layer_index),
            match *old(self) {
                Lane::Stacks(lane) => lane.slot_of(layer_index as int)->Some_0.0
                    < lane.stacks@.len(),
                Lane::BoundaryBody(body) => body.schedule.boundaries@.len() == 5,
                Lane::TailHead(lane) => lane.schedule.boundaries@.len() == 5,
                _ => true,
            },
        ensures
            old(self).seeds(layer_index, state, *final(self), r),
    {
        match self {
            Lane::PackedReference(reference) => {
                reference.seed_after_cpu_prefill(state);
                Ok(SeedStep::Kept)
            },
            Lane::Stacks(lane) => match lane.seed_layer_after_cpu_prefill(layer_index, state) {
                Err(e) => Err(e),
                Ok(None) => Ok(SeedStep::Kept),
                Ok(Some(stack)) => Ok(SeedStep::Stack { stack }),
            },
            Lane::BoundaryBody(body) => {
                match BoundarySchedule::selected_linear_slot(layer_index) {
                    None => Err(Error::BoundaryNotOwned { layer_index }),
                    Some((transaction, place)) => match body.schedule.seed(
                        transaction,
                        place,
                        state,
                    ) {
                        Err(e) => Err(e),
                        Ok(complete) => Ok(
                            if complete {
                                SeedStep::Scheduled { transaction }
                            } else {
                                SeedStep::Kept
                            },
                        ),
                    },
                }
            },
            Lane::TailHead(lane) => {
                match BoundarySchedule::selected_linear_slot(layer_index) {
                    None => Err(Error::TailHeadNotOwned { layer_index }),
                    Some((transaction, place)) => match lane.schedule.seed(
                        transaction,
                        place,
                        state,
                    ) {
                        Err(e) => Err(e),
                        Ok(complete) => Ok(
                            if complete {
                                SeedStep::Scheduled { transaction }
                            } else {
                                SeedStep::Kept
                            },
                        ),
                    },
                }
            },
            _ => Ok(SeedStep::Block { state }),
        }
    }

    /// The lane has a complete linear layer for this layer.
    pub open spec fn has_linear(self, layer_index: usize) -> bool {
        match self {
            Lane::LinearLayer(_) => true,
            Lane::AllLinear(lane) => lane.layer_of(layer_index as int) is Some,
            _ => false,
        }
    }

    /// The complete linear layer for this layer.
    pub open spec fn linear_of(self, layer_index: usize) -> Qwen35MetalW8LinearLayer {
        match self {
            Lane::AllLinear(lane) => lane.layer_of(layer_index as int)->Some_0,
            _ => self->LinearLayer_0,
        }
    }

    /// Only the complete linear layer for this layer differs.
    pub open spec fn puts_linear(
        self,
        layer_index: usize,
        layer: Qwen35MetalW8LinearLayer,
        after: Lane,
    ) -> bool {
        match self {
            Lane::AllLinear(_) => self.differs_in_layer(layer_index, layer, after),
            _ => after == Lane::LinearLayer(layer),
        }
    }

    /// Takes what a complete linear layer returned for one row.
    pub fn finish_linear(
        &mut self,
        layer_index: usize,
        report: DecodeReport<LinearLayerMetalStats>,
    ) -> (r: Result<Tensor, Error>)
        requires
            old(self).has_linear(layer_index),
        ensures
            old(self).puts_linear(
                layer_index,
                old(self).linear_of(layer_index).after_run(report),
                *final(self),
            ),
            answers(r, old(self).linear_of(layer_index).run_fault(report.output)),
            r matches Ok(tensor) ==> report.output is Ok && tensor.is_f32(
                seq![1usize, old(self).linear_of(layer_index).dimensions.hidden_size],
                report.output->Ok_0@,
            ),
    {
        match self {
            Lane::LinearLayer(layer) => layer.finish(report),
            Lane::AllLinear(lane) => match lane.layer(layer_index) {
                Some(layer) => {
                    let mut layer = layer;
                    let r = layer.finish(report);
                    lane.layer_mut(layer_index, layer);
                    r
                },
                None => unreached(),
            },
            _ => unreached(),
        }
    }

    /// Takes the answer of the accelerator to the state of a complete linear
    /// layer.
    pub fn accept_linear_seed(
        &mut self,
        layer_index: usize,
        outcome: Result<(), String>,
        execution: LinearLayerMetalStats,
    ) -> (r: Result<(), Error>)
        requires
            old(self).has_linear(layer_index),
        ensures
            old(self).puts_linear(
                layer_index,
                old(self).linear_of(layer_index).after_seed(outcome, execution),
                *final(self),
            ),
            match outcome {
                Ok(_) => r is Ok,
                Err(cause) => r == Err::<(), Error>(
                    Error::LinearLayerSeed {
                        layer_index: old(self).linear_of(layer_index).layer_index,
                        cause,
                    },
                ),
            },
    {
        match self {
            Lane::LinearLayer(layer) => layer.seed_after_cpu_prefill(outcome, execution),
            Lane::AllLinear(lane) => match lane.layer(layer_index) {
                Some(layer) => {
                    let mut layer = layer;
                    let r = layer.seed_after_cpu_prefill(outcome, execution);
                    lane.layer_mut(layer_index, layer);
                    r
                },
                None => unreached(),
            },
            _ => unreached(),
        }
    }

    /// The counters of the stack or of the initial stack.
    pub open spec fn stack_counters(self, owner: Owner) -> Stack3Counters<
        LinearLayerStack3MetalStats,
    > {
        match owner {
            Owner::Stack(stack) => self->Stacks_0.stacks@[stack as int].counters,
            _ => self.schedule_of().initial_stack.counters,
        }
    }

    /// Takes what a stack, or the initial stack, returned for one row.
    pub fn finish_stack(
        &mut self,
        owner: Owner,
        report: DecodeReport<Stack3Counters<LinearLayerStack3MetalStats>>,
    ) -> (r: Result<Tensor, Error>)
        requires
            owner is Stack || owner is InitialStack,
            old(self).has_owner(owner, 0),
        ensures
            old(self).differs_at(owner, *final(self)),
            final(self).stack_counters(owner) == report.stats,
            final(self).custody_of(owner) == old(self).custody_of(owner).after_run(
                report.output,
                report.elapsed_ns,
            ),
            answers(r, old(self).custody_of(owner).run_fault(report.output)),
            r matches Ok(tensor) ==> report.output is Ok && tensor.is_f32(
                seq![1usize, old(self).custody_of(owner).hidden_size],
                report.output->Ok_0@,
            ),
    {
        match self {
            Lane::Stacks(lane) => match owner {
                Owner::Stack(s) => {
                    let stack = &mut lane.stacks[s];
                    stack.finish(report)
                },
                _ => unreached(),
            },
            Lane::BoundaryBody(body) => body.schedule.initial_stack.finish(report),
            Lane::TailHead(lane) => lane.schedule.initial_stack.finish(report),
            _ => unreached(),
        }
    }

    /// Takes the answer of the accelerator to the three states of a stack, or of
    /// the initial stack.
    pub fn accept_stack_seed(
        &mut self,
        owner: Owner,
        outcome: Result<(), String>,
        counters: Stack3Counters<LinearLayerStack3MetalStats>,
    ) -> (r: Result<(), Error>)
        requires
            owner is Stack || owner is InitialStack,
            old(self).has_owner(owner, 0),
        ensures
            old(self).differs_at(owner, *final(self)),
            final(self).stack_counters(owner) == counters,
            old(self).custody_of(owner).completes(outcome, final(self).custody_of(owner)),
            match outcome {
                Ok(_) => r is Ok,
                Err(cause) => r == Err::<(), Error>(
                    old(self).custody_of(owner).owner.seed(cause),
                ),
            },
    {
        match self {
            Lane::Stacks(lane) => match owner {
                Owner::Stack(s) => {
                    let stack = &mut lane.stacks[s];
                    stack.complete_seed(outcome, counters)
                },
                _ => unreached(),
            },
            Lane::BoundaryBody(body) => body.schedule.initial_stack.complete_seed(
                outcome,
                counters,
            ),
            Lane::TailHead(lane) => lane.schedule.initial_stack.complete_seed(outcome, counters),
            _ => unreached(),
        }
    }

    /// Takes what a boundary returned for one row.
    pub fn finish_boundary(
        &mut self,
        boundary: usize,
        report: DecodeReport<Stack3Counters<MlpStack3BoundaryMetalStatsV1>>,
    ) -> (r: Result<Tensor, Error>)
        requires
            old(self).has_owner(Owner::Boundary(boundary), 0),
        ensures
            old(self).differs_at(Owner::Boundary(boundary), *final(self)),
            final(self).schedule_of().boundaries@[boundary as int].counters == report.stats,
            final(self).custody_of(Owner::Boundary(boundary)) == old(self).custody_of(
                Owner::Boundary(boundary),
            ).after_run(report.output, report.elapsed_ns),
            answers(
                r,
                old(self).custody_of(Owner::Boundary(boundary)).run_fault(report.output),
            ),
            r matches Ok(tensor) ==> report.output is Ok && tensor.is_f32(
                seq![1usize, old(self).custody_of(Owner::Boundary(boundary)).hidden_size],
                report.output->Ok_0@,
            ),
    {
        match self {
            Lane::BoundaryBody(body) => {
                let region = &mut body.schedule.boundaries[boundary];
                region.finish(report)
            },
            Lane::TailHead(lane) => {
                let region = &mut lane.schedule.boundaries[boundary];
                region.finish(report)
            },
            _ => unreached(),
        }
    }

    /// Takes the answer of the accelerator to the three states of a boundary.
    pub fn accept_boundary_seed(
        &mut self,
        boundary: usize,
        outcome: Result<(), String>,
        counters: Stack3Counters<MlpStack3BoundaryMetalStatsV1>,
    ) -> (r: Result<(), Error>)
        requires
            old(self).has_owner(Owner::Boundary(boundary), 0),
        ensures
            old(self).differs_at(Owner::Boundary(boundary), *final(self)),
            final(self).schedule_of().boundaries@[boundary as int].counters == counters,
            old(self).custody_of(Owner::Boundary(boundary)).completes(
                outcome,
                final(self).custody_of(Owner::Boundary(boundary)),
            ),
            match outcome {
                Ok(_) => r is Ok,
                Err(cause) => r == Err::<(), Error>(
                    old(self).custody_of(Owner::Boundary(boundary)).owner.seed(cause),
                ),
            },
    {
        match self {
            Lane::BoundaryBody(body) => {
                let region = &mut body.schedule.boundaries[boundary];
                region.complete_seed(outcome, counters)
            },
            Lane::TailHead(lane) => {
                let region = &mut lane.schedule.boundaries[boundary];
                region.complete_seed(outcome, counters)
            },
            _ => unreached(),
        }
    }
}

/// A lane still fits where one transaction has changed and its custody belongs
/// to the same owner.
pub proof fn transactions_keep_the_fit(
    lane: Lane,
    config: Qwen35TextConfig,
    owner: Owner,
    after: Lane,
)
    requires
        lane.fits(config),
        lane.has_owner(owner, 0),
        owner is Stack || owner is InitialStack || owner is Boundary,
        lane.differs_at(owner, after),
        after.custody_of(owner).owner == lane.custody_of(owner).owner,
        after.custody_of(owner).hidden_size == lane.custody_of(owner).hidden_size,
    ensures
        after.fits(config),
{
    match (lane, after) {
        (Lane::Stacks(a), Lane::Stacks(b)) => {
            let at = owner->Stack_0 as int;
            assert forall|s: int| 0 <= s < b.stacks@.len() implies is_stack_of(
                #[trigger] b.stacks@[s],
                config,
            ) by {
                assert(is_stack_of(a.stacks@[s], config));
            }
            assert forall|s: int, p: int| 0 <= s < b.stacks@.len() && 0 <= p < 3 implies b.slot_of(
                (#[trigger] b.stacks@[s].layer_indices@[p]) as int,
            ) == Some((s as usize, p as usize)) by {
                assert(b.stacks@[s].layer_indices@[p] == a.stacks@[s].layer_indices@[p]);
            }
            assert forall|l: int| 0 <= l < b.layer_to_stack@.len() implies match #[trigger] b.layer_to_stack@[l] {
                Some((s, p)) => {
                    &&& s < b.stacks@.len()
                    &&& p < 3
                    &&& b.stacks@[s as int].layer_indices@[p as int] == l
                },
                None => true,
            } by {
                assert(a.layer_to_stack@[l] == b.layer_to_stack@[l]);
            }
        },
        _ => {
            let a = lane.schedule_of();
            let b = after.schedule_of();
            assert forall|k: int| 0 <= k < BOUNDARIES implies ({
                let region = #[trigger] b.boundaries@[k];
                &&& region.boundary_mlp_layer_index == boundary_layer(k)
                &&& follows(region.stack_layer_indices, k)
                &&& region.is_owned()
                &&& region.dimensions == dimensions_of(config)
            }) by {
                let region = a.boundaries@[k];
                assert(region.boundary_mlp_layer_index == boundary_layer(k));
            }
            assert(b.fits(config));
        },
    }
}

/// A lane still fits where a complete linear layer has changed and kept its
/// place.
pub proof fn linear_layers_keep_the_fit(
    lane: Lane,
    config: Qwen35TextConfig,
    layer_index: usize,
    layer: Qwen35MetalW8LinearLayer,
    after: Lane,
)
    requires
        lane.fits(config),
        lane.has_linear(layer_index),
        lane.puts_linear(layer_index, layer, after),
        layer.layer_index == lane.linear_of(layer_index).layer_index,
        layer.dimensions == lane.linear_of(layer_index).dimensions,
        layer.precision_profile == lane.linear_of(layer_index).precision_profile,
        layer.quantization == lane.linear_of(layer_index).quantization,
    ensures
        after.fits(config),
{
    if let Lane::AllLinear(a) = lane {
        let b = after->AllLinear_0;
        assert forall|i: int| 0 <= i < b.layers@.len() implies match #[trigger] b.layers@[i] {
            Some(layer) => {
                &&& config.layer_types@[i] == Qwen35LayerType::LinearAttention
                &&& layer.layer_index == i
                &&& layer.dimensions == dimensions_of(config)
                &&& layer.precision_profile == Some(b.profile)
                &&& layer.quantization is Some
            },
            None => config.layer_types@[i] != Qwen35LayerType::LinearAttention,
        } by {
            assert(a.layers@[i] is Some || a.layers@[i] is None);
        }
    }
}

/// What is said of a failed forward whose lane was partly moved on.
pub open spec fn partial_text(lane: Lane, with_head: bool, text: Seq<char>) -> Seq<char> {
    match lane {
        Lane::BoundaryBody(_) => boundary_body_partial_text(text),
        Lane::TailHead(_) => tail_head_partial_text(text),
        Lane::Stacks(_) => if with_head {
            lane_partial_text("Stack3 + lm_head v2", text)
        } else {
            lane_partial_text("stack3-v1", text)
        },
        Lane::AllLinear(_) => lane_partial_text("all-linear-layers precision-v2", text),
        _ => lane_partial_text("linear-layer", text),
    }
}

/// Says that a failed forward left the lane partly moved on.
pub fn partial_error(lane: &Lane, with_head: bool, error: Error) -> (e: Error)
    ensures
        e.text() == partial_text(*lane, with_head, error.text()),
{
    let cause = Box::new(error);
    match lane {
        Lane::BoundaryBody(_) => Error::BoundaryBodyPartial { cause },
        Lane::TailHead(_) => Error::TailHeadPartial { cause },
        Lane::Stacks(_) => if with_head {
            Error::LanePartial { lane: "Stack3 + lm_head v2", cause }
        } else {
            Error::LanePartial { lane: "stack3-v1", cause }
        },
        Lane::AllLinear(_) => Error::LanePartial { lane: "all-linear-layers precision-v2", cause },
        _ => Error::LanePartial { lane: "linear-layer", cause },
    }
}

} // verus!
