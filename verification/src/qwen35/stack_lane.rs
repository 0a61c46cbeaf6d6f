//! Accelerated stacks of three consecutive linear layers.
//!
//! A stack runs as one transaction: its three recurrent states are seeded
//! together, and a failed run commits none of them. An error leaves the stack
//! terminal until it is reset.

use vstd::pervasive::unreached;
use vstd::prelude::*;

use crate::error::{
    answers, boundary_output_text, either, stack3_output_text, Error, Fault,
};
use crate::qwen35::config::Qwen35TextConfig;
use crate::qwen35::ledger::Qwen35MetalW8LinearLayerStack3BufferLedger;
use crate::qwen35::linear_lane::{DecodeReport, GdnDecodeState};
use crate::qwen35::loader::Qwen35TextWeights;
use crate::qwen35::metal::{
    FunctionChains, GdnCoreProductionReceiptV1, GdnCoreProfileV1, GdnDimensions,
    LinearLayerQuantizationLedger, LinearLayerStack3BufferLedger, LinearLayerStack3MetalStats,
};
use crate::qwen35::mlp_lane::{
    check_row, is_row, output_fault, row_fault, tensor_from_owned_metal_output_row,
};
use crate::qwen35::profile::{
    production_fault, profile_label, qwen35_gdn_core_profile_v1_label,
    qwen35_stack3_mechanism_for_gdn_core_profile_v1, stack3_mechanism, stack_packing_profile,
    validate_qwen35_production_gdn_core_profile_v1,
};
use crate::qwen35::w8_pack::{
    dimensions_of, gdn_dimensions, pack_qwen35_w8_linear_layer, packed_layer_fault,
    LayerPackFailure,
};
use crate::tensor::Tensor;

verus! {

/// Who a transaction over three linear layers belongs to.
#[derive(Clone, Copy, Debug, PartialEq, Eq)]
pub enum Stack3Owner {
    Stack { layer_indices: [usize; 3] },
    Boundary { layer_index: usize },
}

impl Stack3Owner {
    /// The error of a state that comes out of turn.
    pub open spec fn invalid_seed(self, slot: usize) -> Error {
        match self {
            Stack3Owner::Stack { layer_indices } => Error::Stack3InvalidSeed {
                layer_indices,
                slot,
            },
            Stack3Owner::Boundary { layer_index } => Error::BoundaryInvalidSeed {
                layer_index,
                slot,
            },
        }
    }

    fn invalid_seed_error(self, slot: usize) -> (e: Error)
        ensures
            e == self.invalid_seed(slot),
    {
        match self {
            Stack3Owner::Stack { layer_indices } => Error::Stack3InvalidSeed {
                layer_indices,
                slot,
            },
            Stack3Owner::Boundary { layer_index } => Error::BoundaryInvalidSeed {
                layer_index,
                slot,
            },
        }
    }

    /// The error of states that the accelerator refused.
    pub open spec fn seed(self, cause: String) -> Error {
        match self {
            Stack3Owner::Stack { layer_indices } => Error::Stack3Seed { layer_indices, cause },
            Stack3Owner::Boundary { layer_index } => Error::BoundarySeed { layer_index, cause },
        }
    }

    fn seed_error(self, cause: String) -> (e: Error)
        ensures
            e == self.seed(cause),
    {
        match self {
            Stack3Owner::Stack { layer_indices } => Error::Stack3Seed { layer_indices, cause },
            Stack3Owner::Boundary { layer_index } => Error::BoundarySeed { layer_index, cause },
        }
    }

    /// The error of states that the accelerator did not clear.
    pub open spec fn reset(self, cause: String) -> Error {
        match self {
            Stack3Owner::Stack { layer_indices } => Error::Stack3Reset { layer_indices, cause },
            Stack3Owner::Boundary { layer_index } => Error::BoundaryReset { layer_index, cause },
        }
    }

    fn reset_error(self, cause: String) -> (e: Error)
        ensures
            e == self.reset(cause),
    {
        match self {
            Stack3Owner::Stack { layer_indices } => Error::Stack3Reset { layer_indices, cause },
            Stack3Owner::Boundary { layer_index } => Error::BoundaryReset { layer_index, cause },
        }
    }

    /// The error of a terminal transaction.
    pub open spec fn terminal(self) -> Error {
        match self {
            Stack3Owner::Stack { layer_indices } => Error::Stack3Terminal { layer_indices },
            Stack3Owner::Boundary { layer_index } => Error::BoundaryTerminal { layer_index },
        }
    }

    fn terminal_error(self) -> (e: Error)
        ensures
            e == self.terminal(),
    {
        match self {
            Stack3Owner::Stack { layer_indices } => Error::Stack3Terminal { layer_indices },
            Stack3Owner::Boundary { layer_index } => Error::BoundaryTerminal { layer_index },
        }
    }

    /// The error of a run before the three states are there.
    pub open spec fn not_seeded(self) -> Error {
        match self {
            Stack3Owner::Stack { layer_indices } => Error::Stack3NotSeeded { layer_indices },
            Stack3Owner::Boundary { layer_index } => Error::BoundaryNotSeeded { layer_index },
        }
    }

    fn not_seeded_error(self) -> (e: Error)
        ensures
            e == self.not_seeded(),
    {
        match self {
            Stack3Owner::Stack { layer_indices } => Error::Stack3NotSeeded { layer_indices },
            Stack3Owner::Boundary { layer_index } => Error::BoundaryNotSeeded { layer_index },
        }
    }

    /// The error of a run that failed.
    pub open spec fn failed(self, cause: String) -> Error {
        match self {
            Stack3Owner::Stack { layer_indices } => Error::Stack3Failed { layer_indices, cause },
            Stack3Owner::Boundary { layer_index } => Error::BoundaryFailed { layer_index, cause },
        }
    }

    fn failed_error(self, cause: String) -> (e: Error)
        ensures
            e == self.failed(cause),
    {
        match self {
            Stack3Owner::Stack { layer_indices } => Error::Stack3Failed { layer_indices, cause },
            Stack3Owner::Boundary { layer_index } => Error::BoundaryFailed { layer_index, cause },
        }
    }

    /// The error of a run with a malformed output.
    pub open spec fn output_text(self, cause: Seq<char>) -> Seq<char> {
        match self {
            Stack3Owner::Stack { layer_indices } => stack3_output_text(layer_indices@, cause),
            Stack3Owner::Boundary { layer_index } => boundary_output_text(
                layer_index as int,
                cause,
            ),
        }
    }

    fn output_error(self, cause: Error) -> (e: Error)
        ensures
            e.text() == self.output_text(cause.text()),
    {
        match self {
            Stack3Owner::Stack { layer_indices } => Error::Stack3Output {
                layer_indices,
                cause: Box::new(cause),
            },
            Stack3Owner::Boundary { layer_index } => Error::BoundaryOutput {
                layer_index,
                cause: Box::new(cause),
            },
        }
    }
}

/// The custody of the three recurrent states of a transaction.
#[derive(Debug, PartialEq, Eq)]
pub struct Stack3Custody {
    pub owner: Stack3Owner,
    pub hidden_size: usize,
    /// States that CPU prefill left, until all three are there.
    pub pending: [Option<GdnDecodeState>; 3],
    pub prefill_seed_calls: [usize; 3],
    pub block_elapsed_ns: u128,
    pub seeded: bool,
    pub terminal_error: bool,
}

impl Stack3Custody {
    /// No state was seeded, and nothing ran.
    pub open spec fn is_fresh(self) -> bool {
        &&& forall|slot: int| 0 <= slot < 3 ==> (#[trigger] self.pending@[slot]) is None
        &&& forall|slot: int| 0 <= slot < 3 ==> #[trigger] self.prefill_seed_calls@[slot] == 0
        &&& self.block_elapsed_ns == 0
        &&& !self.seeded
        &&& !self.terminal_error
    }

    /// Takes custody of nothing yet.
    pub fn new(owner: Stack3Owner, hidden_size: usize) -> (custody: Stack3Custody)
        ensures
            custody.is_fresh(),
            custody.owner == owner,
            custody.hidden_size == hidden_size,
    {
        Stack3Custody {
            owner,
            hidden_size,
            pending: [None, None, None],
            prefill_seed_calls: [0, 0, 0],
            block_elapsed_ns: 0,
            seeded: false,
            terminal_error: false,
        }
    }

    /// A state for this slot comes out of turn.
    pub open spec fn refuses(self, slot: usize) -> bool {
        self.terminal_error || self.seeded || slot >= 3 || self.pending@[slot as int] is Some
    }

    /// All three states are there.
    pub open spec fn is_complete(self) -> bool {
        self.pending@[0] is Some && self.pending@[1] is Some && self.pending@[2] is Some
    }

    /// What a state for a slot leaves: one that comes out of turn makes the
    /// transaction terminal.
    pub open spec fn seeds(self, slot: usize, state: GdnDecodeState, after: Self) -> bool {
        if self.refuses(slot) {
            after == (Stack3Custody { terminal_error: true, ..self })
        } else {
            &&& after.pending@ == self.pending@.update(slot as int, Some(state))
            &&& after.prefill_seed_calls@ == self.prefill_seed_calls@.update(
                slot as int,
                self.prefill_seed_calls@[slot as int].saturating_add(1),
            )
            &&& after == (Stack3Custody {
                pending: after.pending,
                prefill_seed_calls: after.prefill_seed_calls,
                ..self
            })
        }
    }

    /// Takes the state that CPU prefill left for a slot. The result says whether
    /// all three are there, so that they are to be handed to the accelerator.
    pub fn seed_layer_after_cpu_prefill(&mut self, slot: usize, state: GdnDecodeState) -> (r:
        Result<bool, Error>)
        ensures
            old(self).seeds(slot, state, *final(self)),
            r == if old(self).refuses(slot) {
                Err::<bool, Error>(old(self).owner.invalid_seed(slot))
            } else {
                Ok(final(self).is_complete())
            },
    {
        if self.terminal_error || self.seeded || slot >= 3 || self.pending[slot].is_some() {
            self.terminal_error = true;
            return Err(self.owner.invalid_seed_error(slot));
        }
        self.pending[slot] = Some(state);
        let calls: usize = self.prefill_seed_calls[slot].saturating_add(1);
        self.prefill_seed_calls[slot] = calls;
        Ok(self.pending[0].is_some() && self.pending[1].is_some() && self.pending[2].is_some())
    }

    /// What the answer of the accelerator to the three states leaves.
    pub open spec fn completes(self, outcome: Result<(), String>, after: Self) -> bool {
        match outcome {
            Ok(_) => {
                &&& forall|slot: int| 0 <= slot < 3 ==> (#[trigger] after.pending@[slot]) is None
                &&& after == (Stack3Custody {
                    pending: after.pending,
                    block_elapsed_ns: 0,
                    seeded: true,
                    ..self
                })
            },
            Err(_) => after == (Stack3Custody { terminal_error: true, ..self }),
        }
    }

    /// Takes the answer of the accelerator to the three states.
    pub fn complete_seed(&mut self, outcome: Result<(), String>) -> (r: Result<(), Error>)
        ensures
            old(self).completes(outcome, *final(self)),
            match outcome {
                Ok(_) => r is Ok,
                Err(cause) => r == Err::<(), Error>(old(self).owner.seed(cause)),
            },
    {
        match outcome {
            Err(cause) => {
                self.terminal_error = true;
                Err(self.owner.seed_error(cause))
            },
            Ok(_) => {
                self.pending = [None, None, None];
                self.block_elapsed_ns = 0;
                self.seeded = true;
                Ok(())
            },
        }
    }

    /// What stops the transaction from running on `hidden`.
    pub open spec fn begin_fault(self, hidden: Tensor) -> Fault {
        if self.terminal_error {
            Some(self.owner.terminal().text())
        } else if hidden.dims() != seq![1usize, self.hidden_size] {
            row_fault(hidden, self.hidden_size)
        } else if !self.seeded {
            Some(self.owner.not_seeded().text())
        } else {
            row_fault(hidden, self.hidden_size)
        }
    }

    /// What a refused or accepted start leaves.
    pub open spec fn after_begin(self, hidden: Tensor) -> Self {
        Stack3Custody {
            terminal_error: self.terminal_error || (hidden.dims()
                == seq![1usize, self.hidden_size] && !self.seeded),
            ..self
        }
    }

    /// Decides whether the transaction may run on `hidden`.
    pub fn begin(&mut self, hidden: &Tensor) -> (r: Result<(), Error>)
        ensures
            *final(self) == old(self).after_begin(*hidden),
            answers(r, old(self).begin_fault(*hidden)),
    {
        if self.terminal_error {
            return Err(self.owner.terminal_error());
        }
        if !is_row(hidden, self.hidden_size) {
            return check_row(hidden, self.hidden_size);
        }
        if !self.seeded {
            self.terminal_error = true;
            return Err(self.owner.not_seeded_error());
        }
        check_row(hidden, self.hidden_size)
    }

    /// What is wrong with a run that returned `output`.
    pub open spec fn run_fault(self, output: Result<Vec<u32>, String>) -> Fault {
        match output {
            Err(cause) => Some(self.owner.failed(cause).text()),
            Ok(values) => match output_fault(values@, self.hidden_size) {
                Some(text) => Some(self.owner.output_text(text)),
                None => None,
            },
        }
    }

    /// What a run leaves: a failed or malformed one makes it terminal.
    pub open spec fn after_run(self, output: Result<Vec<u32>, String>, elapsed_ns: u128) -> Self {
        Stack3Custody {
            terminal_error: self.terminal_error || self.run_fault(output) is Some,
            block_elapsed_ns: match output {
                Ok(values) if values@.len() != self.hidden_size => self.block_elapsed_ns,
                _ => self.block_elapsed_ns.saturating_add(elapsed_ns),
            },
            ..self
        }
    }

    /// Takes what the accelerator returned for one row.
    pub fn finish(&mut self, output: Result<Vec<u32>, String>, elapsed_ns: u128) -> (r: Result<
        Tensor,
        Error,
    >)
        ensures
            *final(self) == old(self).after_run(output, elapsed_ns),
            answers(r, old(self).run_fault(output)),
            r matches Ok(tensor) ==> output is Ok && tensor.is_f32(
                seq![1usize, old(self).hidden_size],
                output->Ok_0@,
            ),
    {
        match output {
            Err(cause) => {
                self.block_elapsed_ns = self.block_elapsed_ns.saturating_add(elapsed_ns);
                self.terminal_error = true;
                Err(self.owner.failed_error(cause))
            },
            Ok(values) => match tensor_from_owned_metal_output_row(self.hidden_size, values) {
                Err(e) => {
                    self.terminal_error = true;
                    Err(self.owner.output_error(e))
                },
                Ok(tensor) => {
                    self.block_elapsed_ns = self.block_elapsed_ns.saturating_add(elapsed_ns);
                    Ok(tensor)
                },
            },
        }
    }

    /// What clearing the states leaves.
    pub open spec fn resets(self, outcome: Result<(), String>, after: Self) -> bool {
        match outcome {
            Ok(_) => {
                &&& after.is_fresh()
                &&& after.owner == self.owner
                &&& after.hidden_size == self.hidden_size
            },
            Err(_) => after == self,
        }
    }

    /// Takes the answer of the accelerator to clearing the states.
    pub fn reset(&mut self, outcome: Result<(), String>) -> (r: Result<(), Error>)
        ensures
            old(self).resets(outcome, *final(self)),
            match outcome {
                Ok(_) => r is Ok,
                Err(cause) => r == Err::<(), Error>(old(self).owner.reset(cause)),
            },
    {
        match outcome {
            Err(cause) => Err(self.owner.reset_error(cause)),
            Ok(_) => {
                self.pending = [None, None, None];
                self.prefill_seed_calls = [0, 0, 0];
                self.block_elapsed_ns = 0;
                self.seeded = false;
                self.terminal_error = false;
                Ok(())
            },
        }
    }
}

/// The counters of a transaction, as the accelerator reports them.
#[derive(Debug, PartialEq, Eq)]
pub struct Stack3Counters<S> {
    pub execution: S,
    pub last_gdn_core_receipt: Option<GdnCoreProductionReceiptV1>,
}

/// One of three consecutive layers.
#[derive(Clone, Copy, Debug, PartialEq, Eq, Structural)]
pub enum Stack3Slot {
    First,
    Second,
    Third,
}

impl Stack3Slot {
    /// The place in the stack.
    pub open spec fn place(self) -> int {
        match self {
            Stack3Slot::First => 0,
            Stack3Slot::Second => 1,
            Stack3Slot::Third => 2,
        }
    }

    fn index(self) -> (i: usize)
        ensures
            i == self.place(),
    {
        match self {
            Stack3Slot::First => 0,
            Stack3Slot::Second => 1,
            Stack3Slot::Third => 2,
        }
    }
}

/// What stops layer `place` of a stack from being packed.
pub open spec fn slot_fault(
    weights: Qwen35TextWeights,
    config: Qwen35TextConfig,
    layer_indices: [usize; 3],
    failure: Option<(Stack3Slot, LayerPackFailure)>,
    place: int,
) -> Fault {
    packed_layer_fault(
        weights,
        config,
        layer_indices@[place],
        match failure {
            Some((slot, failure)) if slot.place() == place => Some(failure),
            _ => None,
        },
    )
}

/// What stops the three layers of a stack from being packed, when packing one
/// of them failed.
pub open spec fn slots_fault(
    weights: Qwen35TextWeights,
    config: Qwen35TextConfig,
    layer_indices: [usize; 3],
    failure: Option<(Stack3Slot, LayerPackFailure)>,
) -> Fault {
    either(
        slot_fault(weights, config, layer_indices, failure, 0),
        either(
            slot_fault(weights, config, layer_indices, failure, 1),
            slot_fault(weights, config, layer_indices, failure, 2),
        ),
    )
}

/// Decides on three layers that were handed to the accelerator one by one.
pub fn pack_slots(
    weights: &Qwen35TextWeights,
    config: &Qwen35TextConfig,
    layer_indices: [usize; 3],
    failure: Option<(Stack3Slot, LayerPackFailure)>,
) -> (r: Result<(), Error>)
    requires
        config.widths_fit(),
    ensures
        answers(r, slots_fault(*weights, *config, layer_indices, failure)),
        failure is Some ==> r is Err,
{
    let profile = stack_packing_profile();
    let (failed, mut cause): (usize, Option<LayerPackFailure>) = match failure {
        Some((slot, failure)) => (slot.index(), Some(failure)),
        None => (3, None),
    };
    let mut place: usize = 0;
    let ghost fault = slots_fault(*weights, *config, layer_indices, failure);
    while place < 3
        invariant
            place <= 3,
            config.widths_fit(),
            fault == slots_fault(*weights, *config, layer_indices, failure),
            match failure {
                Some((slot, given)) => failed == slot.place() && (failed >= place ==> cause == Some(
                    given,
                )),
                None => failed == 3 && cause is None,
            },
            failed < place ==> failure is None,
            0 < place ==> slot_fault(*weights, *config, layer_indices, failure, 0) is None,
            1 < place ==> slot_fault(*weights, *config, layer_indices, failure, 1) is None,
            2 < place ==> slot_fault(*weights, *config, layer_indices, failure, 2) is None,
        decreases 3 - place,
    {
        let here: Option<LayerPackFailure> = if place == failed {
            cause.take()
        } else {
            None
        };
        if let Err(e) = pack_qwen35_w8_linear_layer(
            weights,
            config,
            layer_indices[place],
            profile,
            here,
        ) {
            return Err(e);
        }
        proof {
            assert(slot_fault(*weights, *config, layer_indices, failure, place as int) is None);
            assert(here is None);
        }
        place = place + 1;
    }
    Ok(())
}

/// Counters and layout of one stack.
#[derive(Clone, Copy, Debug, PartialEq, Eq)]
pub struct Qwen35MetalW8LinearLayerStack3V1Stats {
    pub layer_indices: [usize; 3],
    pub mechanism: &'static str,
    pub gdn_core_profile: GdnCoreProfileV1,
    pub gdn_function_chain: &'static str,
    pub quantization: [LinearLayerQuantizationLedger; 3],
    pub prefill_seed_calls: [usize; 3],
    pub execution: LinearLayerStack3MetalStats,
    pub last_gdn_core_receipt: Option<GdnCoreProductionReceiptV1>,
    pub kernel_dispatches_per_decode: usize,
    pub explicit_buffer_barriers_per_decode: usize,
    pub intermediate_host_finite_checks_per_decode: usize,
    pub final_output_finite_checks_per_decode: usize,
    pub terminal_error: bool,
    pub block_elapsed_ns: u128,
}

/// A stack that the accelerator has built.
#[derive(Debug, PartialEq, Eq)]
pub struct Stack3Built {
    pub ledger: LinearLayerStack3BufferLedger,
    pub quantization: [LinearLayerQuantizationLedger; 3],
    pub counters: Stack3Counters<LinearLayerStack3MetalStats>,
}

/// Where the accelerator failed to build a stack, and why.
#[derive(Debug, PartialEq, Eq)]
pub enum Stack3BuildFailure {
    Packing { slot: Stack3Slot, failure: LayerPackFailure },
    Ledger { cause: String },
    Construction { cause: String },
}

/// One accelerated stack of three consecutive linear layers.
#[derive(Debug, PartialEq, Eq)]
pub struct Qwen35MetalW8LinearLayerStack3V1 {
    pub layer_indices: [usize; 3],
    pub gdn_core_profile: GdnCoreProfileV1,
    pub gdn_function_chain: &'static str,
    pub dimensions: GdnDimensions,
    pub ledger: LinearLayerStack3BufferLedger,
    pub quantization: [LinearLayerQuantizationLedger; 3],
    pub custody: Stack3Custody,
    pub counters: Stack3Counters<LinearLayerStack3MetalStats>,
}

impl Qwen35MetalW8LinearLayerStack3V1 {
    /// What stops a stack, when the accelerator answered with `answer`.
    pub open spec fn fault(
        weights: Qwen35TextWeights,
        config: Qwen35TextConfig,
        layer_indices: [usize; 3],
        profile: GdnCoreProfileV1,
        answer: Result<Stack3Built, Stack3BuildFailure>,
    ) -> Fault {
        match answer {
            Ok(_) => slots_fault(weights, config, layer_indices, None),
            Err(Stack3BuildFailure::Packing { slot, failure }) => slots_fault(
                weights,
                config,
                layer_indices,
                Some((slot, failure)),
            ),
            Err(Stack3BuildFailure::Ledger { cause }) => either(
                slots_fault(weights, config, layer_indices, None),
                Some(Error::Stack3Ledger { cause }.text()),
            ),
            Err(Stack3BuildFailure::Construction { cause }) => either(
                slots_fault(weights, config, layer_indices, None),
                Some(
                    Error::Stack3Construction {
                        layer_indices,
                        profile: profile_label(profile),
                        cause,
                    }.text(),
                ),
            ),
        }
    }

    /// The stack is the one that the accelerator built, and nothing ran.
    pub open spec fn is_built(
        self,
        config: Qwen35TextConfig,
        layer_indices: [usize; 3],
        profile: GdnCoreProfileV1,
        chains: FunctionChains,
        built: Stack3Built,
    ) -> bool {
        &&& self.layer_indices == layer_indices
        &&& self.gdn_core_profile == profile
        &&& self.gdn_function_chain == chains.of(profile)
        &&& self.dimensions == dimensions_of(config)
        &&& self.ledger == built.ledger
        &&& self.quantization == built.quantization
        &&& self.counters == built.counters
        &&& self.custody.is_fresh()
        &&& self.is_owned()
    }

    /// The custody names the layers of the stack.
    pub open spec fn is_owned(self) -> bool {
        &&& self.custody.owner == (Stack3Owner::Stack { layer_indices: self.layer_indices })
        &&& self.custody.hidden_size == self.dimensions.hidden_size
    }

    /// Takes a stack that the accelerator was asked to build under a profile.
    pub fn pack_impl(
        weights: &Qwen35TextWeights,
        config: &Qwen35TextConfig,
        layer_indices: [usize; 3],
        profile: GdnCoreProfileV1,
        chains: FunctionChains,
        answer: Result<Stack3Built, Stack3BuildFailure>,
    ) -> (r: Result<Qwen35MetalW8LinearLayerStack3V1, Error>)
        requires
            config.widths_fit(),
        ensures
            answers(
                r,
                Qwen35MetalW8LinearLayerStack3V1::fault(
                    *weights,
                    *config,
                    layer_indices,
                    profile,
                    answer,
                ),
            ),
            r matches Ok(stack) ==> answer is Ok && stack.is_built(
                *config,
                layer_indices,
                profile,
                chains,
                answer->Ok_0,
            ),
    {
        match answer {
            Err(Stack3BuildFailure::Packing { slot, failure }) => {
                match pack_slots(weights, config, layer_indices, Some((slot, failure))) {
                    Err(e) => Err(e),
                    Ok(_) => unreached(),
                }
            },
            Err(Stack3BuildFailure::Ledger { cause }) => {
                match pack_slots(weights, config, layer_indices, None) {
                    Err(e) => Err(e),
                    Ok(_) => Err(Error::Stack3Ledger { cause }),
                }
            },
            Err(Stack3BuildFailure::Construction { cause }) => {
                match pack_slots(weights, config, layer_indices, None) {
                    Err(e) => Err(e),
                    Ok(_) => Err(
                        Error::Stack3Construction {
                            layer_indices,
                            profile: qwen35_gdn_core_profile_v1_label(profile),
                            cause,
                        },
                    ),
                }
            },
            Ok(built) => {
                match pack_slots(weights, config, layer_indices, None) {
                    Err(e) => Err(e),
                    Ok(_) => Ok(
                        Qwen35MetalW8LinearLayerStack3V1 {
                            layer_indices,
                            gdn_core_profile: profile,
                            gdn_function_chain: chains.expected_function_chain(profile),
                            dimensions: gdn_dimensions(config),
                            ledger: built.ledger,
                            quantization: built.quantization,
                            custody: Stack3Custody::new(
                                Stack3Owner::Stack { layer_indices },
                                gdn_dimensions(config).hidden_size,
                            ),
                            counters: built.counters,
                        },
                    ),
                }
            },
        }
    }

    /// Takes a stack that the accelerator was asked to build under a profile
    /// that is used in production.
    pub fn pack_with_gdn_core_profile_v1(
        weights: &Qwen35TextWeights,
        config: &Qwen35TextConfig,
        layer_indices: [usize; 3],
        profile: GdnCoreProfileV1,
        chains: FunctionChains,
        answer: Result<Stack3Built, Stack3BuildFailure>,
    ) -> (r: Result<Qwen35MetalW8LinearLayerStack3V1, Error>)
        requires
            config.widths_fit(),
        ensures
            answers(
                r,
                either(
                    production_fault(profile),
                    Qwen35MetalW8LinearLayerStack3V1::fault(
                        *weights,
                        *config,
                        layer_indices,
                        profile,
                        answer,
                    ),
                ),
            ),
            r matches Ok(stack) ==> answer is Ok && stack.is_built(
                *config,
                layer_indices,
                profile,
                chains,
                answer->Ok_0,
            ),
    {
        if let Err(e) = validate_qwen35_production_gdn_core_profile_v1(profile) {
            return Err(e);
        }
        Qwen35MetalW8LinearLayerStack3V1::pack_impl(
            weights,
            config,
            layer_indices,
            profile,
            chains,
            answer,
        )
    }

    /// Takes a stack that the accelerator was asked to build.
    pub fn pack(
        weights: &Qwen35TextWeights,
        config: &Qwen35TextConfig,
        layer_indices: [usize; 3],
        chains: FunctionChains,
        answer: Result<Stack3Built, Stack3BuildFailure>,
    ) -> (r: Result<Qwen35MetalW8LinearLayerStack3V1, Error>)
        requires
            config.widths_fit(),
        ensures
            answers(
                r,
                Qwen35MetalW8LinearLayerStack3V1::fault(
                    *weights,
                    *config,
                    layer_indices,
                    GdnCoreProfileV1::LegacyFourDispatch,
                    answer,
                ),
            ),
            r matches Ok(stack) ==> answer is Ok && stack.is_built(
                *config,
                layer_indices,
                GdnCoreProfileV1::LegacyFourDispatch,
                chains,
                answer->Ok_0,
            ),
    {
        Qwen35MetalW8LinearLayerStack3V1::pack_impl(
            weights,
            config,
            layer_indices,
            GdnCoreProfileV1::LegacyFourDispatch,
            chains,
            answer,
        )
    }

    /// The counters.
    pub open spec fn stats_of(self) -> Qwen35MetalW8LinearLayerStack3V1Stats {
        Qwen35MetalW8LinearLayerStack3V1Stats {
            layer_indices: self.layer_indices,
            mechanism: stack3_mechanism(self.gdn_core_profile),
            gdn_core_profile: self.gdn_core_profile,
            gdn_function_chain: self.gdn_function_chain,
            quantization: self.quantization,
            prefill_seed_calls: self.custody.prefill_seed_calls,
            execution: self.counters.execution,
            last_gdn_core_receipt: self.counters.last_gdn_core_receipt,
            kernel_dispatches_per_decode: self.ledger.kernel_dispatches_per_decode,
            explicit_buffer_barriers_per_decode: self.ledger.explicit_buffer_barriers_per_decode,
            intermediate_host_finite_checks_per_decode:
                self.ledger.intermediate_host_finite_checks_per_decode,
            final_output_finite_checks_per_decode:
                self.ledger.final_output_finite_checks_per_decode,
            terminal_error: self.custody.terminal_error,
            block_elapsed_ns: self.custody.block_elapsed_ns,
        }
    }

    /// The counters.
    pub fn stats(&self) -> (stats: Qwen35MetalW8LinearLayerStack3V1Stats)
        ensures
            stats == self.stats_of(),
    {
        Qwen35MetalW8LinearLayerStack3V1Stats {
            layer_indices: self.layer_indices,
            mechanism: qwen35_stack3_mechanism_for_gdn_core_profile_v1(self.gdn_core_profile),
            gdn_core_profile: self.gdn_core_profile,
            gdn_function_chain: self.gdn_function_chain,
            quantization: self.quantization,
            prefill_seed_calls: self.custody.prefill_seed_calls,
            execution: self.counters.execution,
            last_gdn_core_receipt: self.counters.last_gdn_core_receipt,
            kernel_dispatches_per_decode: self.ledger.kernel_dispatches_per_decode,
            explicit_buffer_barriers_per_decode: self.ledger.explicit_buffer_barriers_per_decode,
            intermediate_host_finite_checks_per_decode: self.ledger.intermediate_host_finite_checks_per_decode,
            final_output_finite_checks_per_decode: self.ledger.final_output_finite_checks_per_decode,
            terminal_error: self.custody.terminal_error,
            block_elapsed_ns: self.custody.block_elapsed_ns,
        }
    }

    /// The ledger entry.
    pub open spec fn ledger_of(self) -> Qwen35MetalW8LinearLayerStack3BufferLedger {
        Qwen35MetalW8LinearLayerStack3BufferLedger {
            layer_indices: self.layer_indices,
            ledger: self.ledger,
        }
    }

    /// The ledger entry.
    pub fn buffer_ledger(&self) -> (ledger: Qwen35MetalW8LinearLayerStack3BufferLedger)
        ensures
            ledger == self.ledger_of(),
    {
        Qwen35MetalW8LinearLayerStack3BufferLedger {
            layer_indices: self.layer_indices,
            ledger: self.ledger,
        }
    }

    /// What is kept while the stack runs.
    pub open spec fn same_build(self, other: Self) -> bool {
        other == (Qwen35MetalW8LinearLayerStack3V1 {
            custody: other.custody,
            counters: other.counters,
            ..self
        })
    }

    /// Takes what the accelerator returned for one row.
    pub fn finish(
        &mut self,
        report: DecodeReport<Stack3Counters<LinearLayerStack3MetalStats>>,
    ) -> (r: Result<Tensor, Error>)
        ensures
            *final(self) == (Qwen35MetalW8LinearLayerStack3V1 {
                custody: old(self).custody.after_run(report.output, report.elapsed_ns),
                counters: report.stats,
                ..*old(self)
            }),
            answers(r, old(self).custody.run_fault(report.output)),
            r matches Ok(tensor) ==> report.output is Ok && tensor.is_f32(
                seq![1usize, old(self).custody.hidden_size],
                report.output->Ok_0@,
            ),
    {
        self.counters = report.stats;
        self.custody.finish(report.output, report.elapsed_ns)
    }

    /// Takes the answer of the accelerator to the three states.
    pub fn complete_seed(
        &mut self,
        outcome: Result<(), String>,
        counters: Stack3Counters<LinearLayerStack3MetalStats>,
    ) -> (r: Result<(), Error>)
        ensures
            old(self).same_build(*final(self)),
            final(self).counters == counters,
            old(self).custody.completes(outcome, final(self).custody),
            match outcome {
                Ok(_) => r is Ok,
                Err(cause) => r == Err::<(), Error>(old(self).custody.owner.seed(cause)),
            },
    {
        self.counters = counters;
        self.custody.complete_seed(outcome)
    }

    /// Takes the answer of the accelerator to clearing the states.
    pub fn reset(
        &mut self,
        outcome: Result<(), String>,
        counters: Stack3Counters<LinearLayerStack3MetalStats>,
    ) -> (r: Result<(), Error>)
        ensures
            old(self).same_build(*final(self)),
            final(self).counters == counters,
            old(self).custody.resets(outcome, final(self).custody),
            match outcome {
                Ok(_) => r is Ok,
                Err(cause) => r == Err::<(), Error>(old(self).custody.owner.reset(cause)),
            },
    {
        self.counters = counters;
        self.custody.reset(outcome)
    }
}

} // verus!
