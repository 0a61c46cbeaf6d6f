//! Accelerated linear-attention layers that run one at a time: the recurrent
//! block alone, the complete layer, every complete layer, and the packed
//! reference on the CPU.
//!
//! CPU prefill is authoritative. It seeds the state of a lane; after that the
//! lane owns the state until it is reset, and an error makes it terminal.

use vstd::pervasive::unreached;
use vstd::prelude::*;

use crate::error::{
    answers, either, linear_layer_failed_text, linear_layer_output_text, reference_failed_text,
    reference_output_text, Error, Fault, FaultOrder,
};
use crate::qwen35::config::{Qwen35LayerType, Qwen35TextConfig};
use crate::qwen35::ledger::Qwen35MetalW8LinearLayerBufferLedger;
use crate::qwen35::loader::Qwen35TextWeights;
use crate::qwen35::metal::{
    GdnDimensions, GdnMetalStats, LinearLayerBufferLedger, LinearLayerMetalStats,
    LinearLayerQuantizationLedger,
};
use crate::qwen35::mlp_lane::{
    check_row, is_row, output_fault, present, present_step, row_fault,
    tensor_from_owned_metal_output_row, Qwen35MetalW8MlpBlockStats,
};
use crate::qwen35::profile::{
    packing_profile, Qwen35MetalW8LinearLayerPrecisionProfile,
    Qwen35PackedW8LinearLayerReferenceProfile,
};
use crate::qwen35::state::Qwen35LinearState;
use crate::qwen35::w8_pack::{
    check_gdn, dimensions_of, gdn_dimensions, gdn_fault, pack_qwen35_w8_linear_layer,
    packed_layer_fault, LayerPackFailure,
};
use crate::tensor::{DType, Tensor};

verus! {

/// What the accelerator returned for one row, how long that took, and its
/// counters afterwards.
#[derive(Debug, PartialEq, Eq)]
pub struct DecodeReport<S> {
    pub output: Result<Vec<u32>, String>,
    pub elapsed_ns: u128,
    pub stats: S,
}

/// The recurrent state of one layer, as it is handed to the accelerator.
#[derive(Debug, PartialEq, Eq)]
pub struct GdnDecodeState {
    pub dimensions: GdnDimensions,
    pub query_conv: Vec<u32>,
    pub key_conv: Vec<u32>,
    pub value_conv: Vec<u32>,
    pub recurrent: Vec<u32>,
}

/// What stops one part of the CPU state from being handed over.
pub open spec fn state_part_fault(part: Option<Tensor>, label: &'static str) -> Fault {
    match part {
        None => Some(Error::GdnStateMissing { label }.text()),
        Some(tensor) => if tensor.element_type() == DType::F32 {
            None
        } else {
            Some(Error::NotF32 { dtype: tensor.element_type().name() }.text())
        },
    }
}

fn state_part(part: Option<&Tensor>, label: &'static str) -> (r: Result<Vec<u32>, Error>)
    ensures
        answers(
            r,
            state_part_fault(
                match part {
                    Some(tensor) => Some(*tensor),
                    None => None,
                },
                label,
            ),
        ),
        r matches Ok(values) ==> part is Some && values@ == part->Some_0.data(),
{
    match part {
        None => Err(Error::GdnStateMissing { label }),
        Some(tensor) => match tensor.as_f32() {
            Err(e) => Err(e),
            Ok(values) => {
                let mut copy: Vec<u32> = Vec::with_capacity(values.len());
                let mut i: usize = 0;
                while i < values.len()
                    invariant
                        i <= values@.len(),
                        copy@ == values@.take(i as int),
                    decreases values@.len() - i,
                {
                    copy.push(values[i]);
                    proof {
                        assert(copy@ =~= values@.take(i + 1));
                    }
                    i = i + 1;
                }
                proof {
                    assert(copy@ =~= values@);
                }
                Ok(copy)
            },
        },
    }
}

/// What stops the CPU state of a layer from being handed over.
pub open spec fn seed_fault(state: Qwen35LinearState) -> Fault {
    state_part_fault(state.query_conv, "query convolution")
        .or_fault(state_part_fault(state.key_conv, "key convolution"))
        .or_fault(state_part_fault(state.value_conv, "value convolution"))
        .or_fault(state_part_fault(state.recurrent, "recurrent"))
}

/// The handed-over state is that of the CPU.
pub open spec fn is_seed_of(
    seed: GdnDecodeState,
    config: Qwen35TextConfig,
    state: Qwen35LinearState,
) -> bool {
    &&& seed.dimensions == dimensions_of(config)
    &&& state.query_conv is Some && seed.query_conv@ == state.query_conv->Some_0.data()
    &&& state.key_conv is Some && seed.key_conv@ == state.key_conv->Some_0.data()
    &&& state.value_conv is Some && seed.value_conv@ == state.value_conv->Some_0.data()
    &&& state.recurrent is Some && seed.recurrent@ == state.recurrent->Some_0.data()
}

/// Takes the CPU state of a layer to hand it to the accelerator.
pub fn gdn_decode_state_from_cpu(config: &Qwen35TextConfig, state: &Qwen35LinearState) -> (r:
    Result<GdnDecodeState, Error>)
    ensures
        answers(r, seed_fault(*state)),
        r matches Ok(seed) ==> is_seed_of(seed, *config, *state),
{
    let query_conv = match state_part(state.query_conv.as_ref(), "query convolution") {
        Ok(values) => values,
        Err(e) => return Err(e),
    };
    let key_conv = match state_part(state.key_conv.as_ref(), "key convolution") {
        Ok(values) => values,
        Err(e) => return Err(e),
    };
    let value_conv = match state_part(state.value_conv.as_ref(), "value convolution") {
        Ok(values) => values,
        Err(e) => return Err(e),
    };
    let recurrent = match state_part(state.recurrent.as_ref(), "recurrent") {
        Ok(values) => values,
        Err(e) => return Err(e),
    };
    Ok(
        GdnDecodeState {
            dimensions: gdn_dimensions(config),
            query_conv,
            key_conv,
            value_conv,
            recurrent,
        },
    )
}

/// Counters of one accelerated recurrent block. One successful decode is one
/// command buffer and one wait.
#[derive(Clone, Copy, Debug, PartialEq, Eq, Structural)]
pub struct Qwen35MetalW8GdnStats {
    pub layer_index: usize,
    pub prefill_seed_calls: usize,
    pub decode_calls: usize,
    pub command_buffers: usize,
    pub waits: usize,
    pub committed_state_version: u64,
    /// Input copy, submission, wait and output copy, as the host saw it.
    pub block_elapsed_ns: u128,
}

/// Where the accelerator failed to build a recurrent block, and why.
#[derive(Debug, PartialEq, Eq)]
pub enum GdnBuildFailure {
    Packing { cause: String },
    Construction { cause: String },
}

/// One accelerated recurrent block.
#[derive(Clone, Copy, Debug, PartialEq, Eq, Structural)]
pub struct Qwen35MetalW8GdnLayer {
    pub layer_index: usize,
    pub dimensions: GdnDimensions,
    pub prefill_seed_calls: usize,
    pub block_elapsed_ns: u128,
    pub execution: GdnMetalStats,
}

impl Qwen35MetalW8GdnLayer {
    /// What stops a block, when the accelerator answered with `answer`.
    pub open spec fn fault(
        weights: Qwen35TextWeights,
        config: Qwen35TextConfig,
        layer_index: usize,
        answer: Result<GdnMetalStats, GdnBuildFailure>,
    ) -> Fault {
        let built = match answer {
            Err(GdnBuildFailure::Packing { cause }) => Some(
                Error::GdnPacking { layer_index, cause }.text(),
            ),
            Err(GdnBuildFailure::Construction { cause }) => Some(
                Error::GdnConstruction { layer_index, cause }.text(),
            ),
            Ok(_) => None,
        };
        either(gdn_fault(weights, config, layer_index), built)
    }

    /// Takes a block that the accelerator was asked to build.
    pub fn pack(
        weights: &Qwen35TextWeights,
        config: &Qwen35TextConfig,
        layer_index: usize,
        answer: Result<GdnMetalStats, GdnBuildFailure>,
    ) -> (r: Result<Qwen35MetalW8GdnLayer, Error>)
        requires
            config.widths_fit(),
        ensures
            answers(r, Qwen35MetalW8GdnLayer::fault(*weights, *config, layer_index, answer)),
            r matches Ok(layer) ==> {
                &&& layer_index < weights.layers@.len()
                &&& config.kind(layer_index as int) == Some(Qwen35LayerType::LinearAttention)
                &&& answer is Ok
                &&& layer == (Qwen35MetalW8GdnLayer {
                    layer_index,
                    dimensions: dimensions_of(*config),
                    prefill_seed_calls: 0,
                    block_elapsed_ns: 0,
                    execution: answer->Ok_0,
                })
            },
    {
        if let Err(e) = check_gdn(weights, config, layer_index) {
            return Err(e);
        }
        match answer {
            Err(GdnBuildFailure::Packing { cause }) => Err(
                Error::GdnPacking { layer_index, cause },
            ),
            Err(GdnBuildFailure::Construction { cause }) => Err(
                Error::GdnConstruction { layer_index, cause },
            ),
            Ok(execution) => Ok(
                Qwen35MetalW8GdnLayer {
                    layer_index,
                    dimensions: gdn_dimensions(config),
                    prefill_seed_calls: 0,
                    block_elapsed_ns: 0,
                    execution,
                },
            ),
        }
    }

    /// What a seed leaves.
    pub open spec fn after_seed(
        self,
        outcome: Result<(), String>,
        execution: GdnMetalStats,
    ) -> Self {
        match outcome {
            Ok(_) => Qwen35MetalW8GdnLayer {
                prefill_seed_calls: self.prefill_seed_calls.saturating_add(1),
                block_elapsed_ns: 0,
                execution,
                ..self
            },
            Err(_) => Qwen35MetalW8GdnLayer { execution, ..self },
        }
    }

    /// Takes the answer of the accelerator to a seed.
    pub fn seed_after_cpu_prefill(
        &mut self,
        outcome: Result<(), String>,
        execution: GdnMetalStats,
    ) -> (r: Result<(), Error>)
        ensures
            *final(self) == old(self).after_seed(outcome, execution),
            match outcome {
                Ok(_) => r is Ok,
                Err(cause) => r == Err::<(), Error>(
                    Error::GdnSeed { layer_index: old(self).layer_index, cause },
                ),
            },
    {
        self.execution = execution;
        match outcome {
            Err(cause) => Err(Error::GdnSeed { layer_index: self.layer_index, cause }),
            Ok(_) => {
                self.prefill_seed_calls = self.prefill_seed_calls.saturating_add(1);
                self.block_elapsed_ns = 0;
                Ok(())
            },
        }
    }

    /// The block has committed a state of its own.
    pub open spec fn owns_state(self) -> bool {
        self.execution.committed_state_version > 0
    }

    /// Whether the block has committed a state of its own.
    pub fn owns_recurrent_state(&self) -> (r: bool)
        ensures
            r == self.owns_state(),
    {
        self.execution.committed_state_version > 0
    }

    /// The counters.
    pub open spec fn stats_of(self) -> Qwen35MetalW8GdnStats {
        Qwen35MetalW8GdnStats {
            layer_index: self.layer_index,
            prefill_seed_calls: self.prefill_seed_calls,
            decode_calls: self.execution.decode_calls,
            command_buffers: self.execution.command_buffers,
            waits: self.execution.waits,
            committed_state_version: self.execution.committed_state_version,
            block_elapsed_ns: self.block_elapsed_ns,
        }
    }

    /// The counters.
    pub fn stats(&self) -> (stats: Qwen35MetalW8GdnStats)
        ensures
            stats == self.stats_of(),
    {
        Qwen35MetalW8GdnStats {
            layer_index: self.layer_index,
            prefill_seed_calls: self.prefill_seed_calls,
            decode_calls: self.execution.decode_calls,
            command_buffers: self.execution.command_buffers,
            waits: self.execution.waits,
            committed_state_version: self.execution.committed_state_version,
            block_elapsed_ns: self.block_elapsed_ns,
        }
    }

    /// What is wrong with a run that returned `output`.
    pub open spec fn run_fault(self, output: Result<Vec<u32>, String>) -> Fault {
        match output {
            Err(cause) => Some(Error::GdnFailed { layer_index: self.layer_index, cause }.text()),
            Ok(values) => output_fault(values@, self.dimensions.hidden_size),
        }
    }

    /// What a run leaves: the time counts where a whole row came back.
    pub open spec fn after_run(self, report: DecodeReport<GdnMetalStats>) -> Self {
        Qwen35MetalW8GdnLayer {
            execution: report.stats,
            block_elapsed_ns: if self.run_fault(report.output) is None {
                self.block_elapsed_ns.saturating_add(report.elapsed_ns)
            } else {
                self.block_elapsed_ns
            },
            ..self
        }
    }

    /// Takes what the accelerator returned for one row.
    pub fn finish(&mut self, report: DecodeReport<GdnMetalStats>) -> (r: Result<Tensor, Error>)
        ensures
            *final(self) == old(self).after_run(report),
            answers(r, old(self).run_fault(report.output)),
            r matches Ok(tensor) ==> report.output is Ok && tensor.is_f32(
                seq![1usize, old(self).dimensions.hidden_size],
                report.output->Ok_0@,
            ),
    {
        self.execution = report.stats;
        match report.output {
            Err(cause) => Err(Error::GdnFailed { layer_index: self.layer_index, cause }),
            Ok(values) => match tensor_from_owned_metal_output_row(
                self.dimensions.hidden_size,
                values,
            ) {
                Err(e) => Err(e),
                Ok(tensor) => {
                    self.block_elapsed_ns = self.block_elapsed_ns.saturating_add(report.elapsed_ns);
                    Ok(tensor)
                },
            },
        }
    }

    /// The lane as it was built.
    pub open spec fn cleared(self, execution: GdnMetalStats) -> Self {
        Qwen35MetalW8GdnLayer { prefill_seed_calls: 0, block_elapsed_ns: 0, execution, ..self }
    }

    /// What clearing the block leaves.
    pub open spec fn after_reset(
        self,
        outcome: Result<(), String>,
        execution: GdnMetalStats,
    ) -> Self {
        match outcome {
            Ok(_) => self.cleared(execution),
            Err(_) => Qwen35MetalW8GdnLayer { execution, ..self },
        }
    }

    /// Takes the answer of the accelerator to clearing the block.
    pub fn reset(&mut self, outcome: Result<(), String>, execution: GdnMetalStats) -> (r: Result<
        (),
        Error,
    >)
        ensures
            *final(self) == old(self).after_reset(outcome, execution),
            match outcome {
                Ok(_) => r is Ok,
                Err(cause) => r == Err::<(), Error>(
                    Error::GdnReset { layer_index: old(self).layer_index, cause },
                ),
            },
    {
        self.execution = execution;
        match outcome {
            Err(cause) => Err(Error::GdnReset { layer_index: self.layer_index, cause }),
            Ok(_) => {
                self.prefill_seed_calls = 0;
                self.block_elapsed_ns = 0;
                Ok(())
            },
        }
    }
}

/// Counters of one accelerated complete linear layer.
#[derive(Clone, Copy, Debug, PartialEq, Eq, Structural)]
pub struct Qwen35MetalW8LinearLayerStats {
    pub layer_index: usize,
    pub prefill_seed_calls: usize,
    pub decode_calls: usize,
    pub successful_decodes: usize,
    pub failed_decodes: usize,
    pub command_buffers: usize,
    pub compute_encoders: usize,
    pub commits: usize,
    pub waits: usize,
    pub host_to_device_bytes: usize,
    pub device_to_host_bytes: usize,
    pub committed_state_version: u64,
    pub terminal_error: bool,
    pub block_elapsed_ns: u128,
}

/// Counters and precision of one layer of the versioned lane.
#[derive(Clone, Copy, Debug, PartialEq, Eq)]
pub struct Qwen35MetalW8LinearLayerPrecisionV2Stats {
    pub profile: Qwen35MetalW8LinearLayerPrecisionProfile,
    pub mechanism: &'static str,
    pub quantization: LinearLayerQuantizationLedger,
    pub execution: Qwen35MetalW8LinearLayerStats,
}

/// A complete linear layer that the accelerator has built.
#[derive(Clone, Copy, Debug, PartialEq, Eq, Structural)]
pub struct LinearLayerBuilt {
    pub ledger: LinearLayerBufferLedger,
    pub quantization: LinearLayerQuantizationLedger,
    pub stats: LinearLayerMetalStats,
}

/// Where the accelerator failed to build a complete linear layer, and why.
#[derive(Debug, PartialEq, Eq)]
pub enum LinearLayerBuildFailure {
    Packing { failure: LayerPackFailure },
    Ledger { cause: String },
    Construction { cause: String },
}

/// One accelerated complete linear layer.
#[derive(Clone, Copy, Debug, PartialEq, Eq, Structural)]
pub struct Qwen35MetalW8LinearLayer {
    pub layer_index: usize,
    pub dimensions: GdnDimensions,
    pub ledger: LinearLayerBufferLedger,
    pub prefill_seed_calls: usize,
    pub block_elapsed_ns: u128,
    pub seeded: bool,
    pub terminal_error: bool,
    pub precision_profile: Option<Qwen35MetalW8LinearLayerPrecisionProfile>,
    pub quantization: Option<LinearLayerQuantizationLedger>,
    pub execution: LinearLayerMetalStats,
}

impl Qwen35MetalW8LinearLayer {
    /// What stops a layer, when the accelerator answered with `answer`. The
    /// unversioned lane does not ask for the quantization.
    pub open spec fn fault(
        weights: Qwen35TextWeights,
        config: Qwen35TextConfig,
        layer_index: usize,
        precise: bool,
        answer: Result<LinearLayerBuilt, LinearLayerBuildFailure>,
    ) -> Fault {
        match answer {
            Ok(_) => packed_layer_fault(weights, config, layer_index, None),
            Err(LinearLayerBuildFailure::Packing { failure }) => packed_layer_fault(
                weights,
                config,
                layer_index,
                Some(failure),
            ),
            Err(LinearLayerBuildFailure::Ledger { cause }) => either(
                packed_layer_fault(weights, config, layer_index, None),
                Some(Error::PrecisionLedger { layer_index, cause }.text()),
            ),
            Err(LinearLayerBuildFailure::Construction { cause }) => either(
                packed_layer_fault(weights, config, layer_index, None),
                if precise {
                    Some(Error::PrecisionConstruction { layer_index, cause }.text())
                } else {
                    Some(Error::LinearLayerConstruction { layer_index, cause }.text())
                },
            ),
        }
    }

    /// A layer that was not seeded yet.
    pub open spec fn fresh(
        layer_index: usize,
        config: Qwen35TextConfig,
        profile: Option<Qwen35MetalW8LinearLayerPrecisionProfile>,
        built: LinearLayerBuilt,
    ) -> Qwen35MetalW8LinearLayer {
        Qwen35MetalW8LinearLayer {
            layer_index,
            dimensions: dimensions_of(config),
            ledger: built.ledger,
            prefill_seed_calls: 0,
            block_elapsed_ns: 0,
            seeded: false,
            terminal_error: false,
            precision_profile: profile,
            quantization: match profile {
                Some(_) => Some(built.quantization),
                None => None,
            },
            execution: built.stats,
        }
    }

    fn take(
        weights: &Qwen35TextWeights,
        config: &Qwen35TextConfig,
        layer_index: usize,
        profile: Option<Qwen35MetalW8LinearLayerPrecisionProfile>,
        answer: Result<LinearLayerBuilt, LinearLayerBuildFailure>,
    ) -> (r: Result<Qwen35MetalW8LinearLayer, Error>)
        requires
            config.widths_fit(),
        ensures
            answers(
                r,
                Qwen35MetalW8LinearLayer::fault(
                    *weights,
                    *config,
                    layer_index,
                    profile is Some,
                    answer,
                ),
            ),
            r matches Ok(layer) ==> {
                &&& layer_index < weights.layers@.len()
                &&& config.kind(layer_index as int) == Some(Qwen35LayerType::LinearAttention)
                &&& answer is Ok
                &&& layer == Qwen35MetalW8LinearLayer::fresh(
                    layer_index,
                    *config,
                    profile,
                    answer->Ok_0,
                )
            },
    {
        let packed_profile: Qwen35PackedW8LinearLayerReferenceProfile = packing_profile(profile);
        let late: Result<LinearLayerBuilt, Error> = match answer {
            Ok(built) => Ok(built),
            Err(LinearLayerBuildFailure::Packing { failure }) => {
                return match pack_qwen35_w8_linear_layer(
                    weights,
                    config,
                    layer_index,
                    packed_profile,
                    Some(failure),
                ) {
                    Err(e) => Err(e),
                    Ok(_) => unreached(),
                };
            },
            Err(LinearLayerBuildFailure::Ledger { cause }) => Err(
                Error::PrecisionLedger { layer_index, cause },
            ),
            Err(LinearLayerBuildFailure::Construction { cause }) => Err(
                match profile {
                    Some(_) => Error::PrecisionConstruction { layer_index, cause },
                    None => Error::LinearLayerConstruction { layer_index, cause },
                },
            ),
        };
        let packed = match pack_qwen35_w8_linear_layer(
            weights,
            config,
            layer_index,
            packed_profile,
            None,
        ) {
            Ok(packed) => packed,
            Err(e) => return Err(e),
        };
        let built = match late {
            Ok(built) => built,
            Err(e) => return Err(e),
        };
        Ok(
            Qwen35MetalW8LinearLayer {
                layer_index,
                dimensions: packed.dimensions,
                ledger: built.ledger,
                prefill_seed_calls: 0,
                block_elapsed_ns: 0,
                seeded: false,
                terminal_error: false,
                precision_profile: profile,
                quantization: match profile {
                    Some(_) => Some(built.quantization),
                    None => None,
                },
                execution: built.stats,
            },
        )
    }

    /// Takes a layer that the accelerator was asked to build with groups of 64
    /// columns.
    pub fn pack(
        weights: &Qwen35TextWeights,
        config: &Qwen35TextConfig,
        layer_index: usize,
        answer: Result<LinearLayerBuilt, LinearLayerBuildFailure>,
    ) -> (r: Result<Qwen35MetalW8LinearLayer, Error>)
        requires
            config.widths_fit(),
        ensures
            answers(
                r,
                Qwen35MetalW8LinearLayer::fault(*weights, *config, layer_index, false, answer),
            ),
            r matches Ok(layer) ==> {
                &&& layer_index < weights.layers@.len()
                &&& config.kind(layer_index as int) == Some(Qwen35LayerType::LinearAttention)
                &&& answer is Ok
                &&& layer == Qwen35MetalW8LinearLayer::fresh(
                    layer_index,
                    *config,
                    None,
                    answer->Ok_0,
                )
            },
    {
        Qwen35MetalW8LinearLayer::take(weights, config, layer_index, None, answer)
    }

    /// Takes a layer that the accelerator was asked to build with the finer
    /// groups of the profile.
    pub fn pack_precision_v2(
        weights: &Qwen35TextWeights,
        config: &Qwen35TextConfig,
        layer_index: usize,
        profile: Qwen35MetalW8LinearLayerPrecisionProfile,
        answer: Result<LinearLayerBuilt, LinearLayerBuildFailure>,
    ) -> (r: Result<Qwen35MetalW8LinearLayer, Error>)
        requires
            config.widths_fit(),
        ensures
            answers(
                r,
                Qwen35MetalW8LinearLayer::fault(*weights, *config, layer_index, true, answer),
            ),
            r matches Ok(layer) ==> {
                &&& layer_index < weights.layers@.len()
                &&& config.kind(layer_index as int) == Some(Qwen35LayerType::LinearAttention)
                &&& answer is Ok
                &&& layer == Qwen35MetalW8LinearLayer::fresh(
                    layer_index,
                    *config,
                    Some(profile),
                    answer->Ok_0,
                )
            },
    {
        Qwen35MetalW8LinearLayer::take(weights, config, layer_index, Some(profile), answer)
    }

    /// What a seed leaves.
    pub open spec fn after_seed(
        self,
        outcome: Result<(), String>,
        execution: LinearLayerMetalStats,
    ) -> Self {
        match outcome {
            Ok(_) => Qwen35MetalW8LinearLayer {
                prefill_seed_calls: self.prefill_seed_calls.saturating_add(1),
                block_elapsed_ns: 0,
                seeded: true,
                terminal_error: false,
                execution,
                ..self
            },
            Err(_) => Qwen35MetalW8LinearLayer { execution, ..self },
        }
    }

    /// Takes the answer of the accelerator to a seed.
    pub fn seed_after_cpu_prefill(
        &mut self,
        outcome: Result<(), String>,
        execution: LinearLayerMetalStats,
    ) -> (r: Result<(), Error>)
        ensures
            *final(self) == old(self).after_seed(outcome, execution),
            match outcome {
                Ok(_) => r is Ok,
                Err(cause) => r == Err::<(), Error>(
                    Error::LinearLayerSeed { layer_index: old(self).layer_index, cause },
                ),
            },
    {
        self.execution = execution;
        match outcome {
            Err(cause) => Err(Error::LinearLayerSeed { layer_index: self.layer_index, cause }),
            Ok(_) => {
                self.prefill_seed_calls = self.prefill_seed_calls.saturating_add(1);
                self.block_elapsed_ns = 0;
                self.seeded = true;
                self.terminal_error = false;
                Ok(())
            },
        }
    }

    /// What stops the layer from running on `hidden`.
    pub open spec fn begin_fault(self, hidden: Tensor) -> Fault {
        if self.terminal_error {
            Some(Error::LinearLayerTerminal { layer_index: self.layer_index }.text())
        } else if hidden.dims() != seq![1usize, self.dimensions.hidden_size] {
            row_fault(hidden, self.dimensions.hidden_size)
        } else if !self.seeded {
            Some(Error::LinearLayerNotSeeded { layer_index: self.layer_index }.text())
        } else {
            row_fault(hidden, self.dimensions.hidden_size)
        }
    }

    /// What a refused or accepted start leaves: a layer that was asked to run
    /// before it was seeded is terminal.
    pub open spec fn after_begin(self, hidden: Tensor) -> Self {
        Qwen35MetalW8LinearLayer {
            terminal_error: self.terminal_error || (hidden.dims()
                == seq![1usize, self.dimensions.hidden_size] && !self.seeded),
            ..self
        }
    }

    /// Decides whether the layer may run on `hidden`.
    pub fn begin(&mut self, hidden: &Tensor) -> (r: Result<(), Error>)
        ensures
            *final(self) == old(self).after_begin(*hidden),
            answers(r, old(self).begin_fault(*hidden)),
    {
        if self.terminal_error {
            return Err(Error::LinearLayerTerminal { layer_index: self.layer_index });
        }
        if !is_row(hidden, self.dimensions.hidden_size) {
            return check_row(hidden, self.dimensions.hidden_size);
        }
        if !self.seeded {
            self.terminal_error = true;
            return Err(Error::LinearLayerNotSeeded { layer_index: self.layer_index });
        }
        check_row(hidden, self.dimensions.hidden_size)
    }

    /// What is wrong with a run that returned `output`.
    pub open spec fn run_fault(self, output: Result<Vec<u32>, String>) -> Fault {
        match output {
            Err(cause) => Some(linear_layer_failed_text(self.layer_index as int, cause@)),
            Ok(values) => match output_fault(values@, self.dimensions.hidden_size) {
                Some(text) => Some(linear_layer_output_text(self.layer_index as int, text)),
                None => None,
            },
        }
    }

    /// What a run leaves: a failed or malformed one makes the layer terminal.
    pub open spec fn after_run(self, report: DecodeReport<LinearLayerMetalStats>) -> Self {
        Qwen35MetalW8LinearLayer {
            execution: report.stats,
            terminal_error: self.terminal_error || self.run_fault(report.output) is Some,
            block_elapsed_ns: match report.output {
                Ok(values) if values@.len() != self.dimensions.hidden_size => self.block_elapsed_ns,
                _ => self.block_elapsed_ns.saturating_add(report.elapsed_ns),
            },
            ..self
        }
    }

    /// Takes what the accelerator returned for one row.
    pub fn finish(&mut self, report: DecodeReport<LinearLayerMetalStats>) -> (r: Result<
        Tensor,
        Error,
    >)
        ensures
            *final(self) == old(self).after_run(report),
            answers(r, old(self).run_fault(report.output)),
            r matches Ok(tensor) ==> report.output is Ok && tensor.is_f32(
                seq![1usize, old(self).dimensions.hidden_size],
                report.output->Ok_0@,
            ),
    {
        self.execution = report.stats;
        match report.output {
            Err(cause) => {
                self.block_elapsed_ns = self.block_elapsed_ns.saturating_add(report.elapsed_ns);
                self.terminal_error = true;
                Err(Error::LinearLayerFailed { layer_index: self.layer_index, cause })
            },
            Ok(values) => match tensor_from_owned_metal_output_row(
                self.dimensions.hidden_size,
                values,
            ) {
                Err(e) => {
                    self.terminal_error = true;
                    Err(
                        Error::LinearLayerOutput {
                            layer_index: self.layer_index,
                            cause: Box::new(e),
                        },
                    )
                },
                Ok(tensor) => {
                    self.block_elapsed_ns = self.block_elapsed_ns.saturating_add(report.elapsed_ns);
                    Ok(tensor)
                },
            },
        }
    }

    /// The counters.
    pub open spec fn stats_of(self) -> Qwen35MetalW8LinearLayerStats {
        Qwen35MetalW8LinearLayerStats {
            layer_index: self.layer_index,
            prefill_seed_calls: self.prefill_seed_calls,
            decode_calls: self.execution.decode_calls,
            successful_decodes: self.execution.successful_decodes,
            failed_decodes: self.execution.failed_decodes,
            command_buffers: self.execution.command_buffers,
            compute_encoders: self.execution.compute_encoders,
            commits: self.execution.commits,
            waits: self.execution.waits,
            host_to_device_bytes: self.execution.host_to_device_bytes,
            device_to_host_bytes: self.execution.device_to_host_bytes,
            committed_state_version: self.execution.committed_state_version,
            terminal_error: self.terminal_error,
            block_elapsed_ns: self.block_elapsed_ns,
        }
    }

    /// The counters.
    pub fn stats(&self) -> (stats: Qwen35MetalW8LinearLayerStats)
        ensures
            stats == self.stats_of(),
    {
        Qwen35MetalW8LinearLayerStats {
            layer_index: self.layer_index,
            prefill_seed_calls: self.prefill_seed_calls,
            decode_calls: self.execution.decode_calls,
            successful_decodes: self.execution.successful_decodes,
            failed_decodes: self.execution.failed_decodes,
            command_buffers: self.execution.command_buffers,
            compute_encoders: self.execution.compute_encoders,
            commits: self.execution.commits,
            waits: self.execution.waits,
            host_to_device_bytes: self.execution.host_to_device_bytes,
            device_to_host_bytes: self.execution.device_to_host_bytes,
            committed_state_version: self.execution.committed_state_version,
            terminal_error: self.terminal_error,
            block_elapsed_ns: self.block_elapsed_ns,
        }
    }

    /// The counters with the precision, of a layer of the versioned lane.
    pub open spec fn precise_stats_of(self) -> Qwen35MetalW8LinearLayerPrecisionV2Stats {
        Qwen35MetalW8LinearLayerPrecisionV2Stats {
            profile: self.precision_profile->Some_0,
            mechanism: "metal-w8-linear-layer-precision-v2",
            quantization: self.quantization->Some_0,
            execution: self.stats_of(),
        }
    }

    /// The counters with the precision; `None` on the unversioned lane.
    pub fn precision_v2_stats(&self) -> (r: Option<Qwen35MetalW8LinearLayerPrecisionV2Stats>)
        ensures
            r == if self.precision_profile is Some && self.quantization is Some {
                Some(self.precise_stats_of())
            } else {
                None
            },
    {
        match (self.precision_profile, self.quantization) {
            (Some(profile), Some(quantization)) => Some(
                Qwen35MetalW8LinearLayerPrecisionV2Stats {
                    profile,
                    mechanism: profile.mechanism(),
                    quantization,
                    execution: self.stats(),
                },
            ),
            _ => None,
        }
    }

    /// The layer as it was built.
    pub open spec fn cleared(self, execution: LinearLayerMetalStats) -> Self {
        Qwen35MetalW8LinearLayer {
            prefill_seed_calls: 0,
            block_elapsed_ns: 0,
            seeded: false,
            terminal_error: false,
            execution,
            ..self
        }
    }

    /// What clearing the block leaves.
    pub open spec fn after_reset(
        self,
        outcome: Result<(), String>,
        execution: LinearLayerMetalStats,
    ) -> Self {
        match outcome {
            Ok(_) => self.cleared(execution),
            Err(_) => Qwen35MetalW8LinearLayer { execution, ..self },
        }
    }

    /// Takes the answer of the accelerator to clearing the block.
    pub fn reset(
        &mut self,
        outcome: Result<(), String>,
        execution: LinearLayerMetalStats,
    ) -> (r: Result<(), Error>)
        ensures
            *final(self) == old(self).after_reset(outcome, execution),
            match outcome {
                Ok(_) => r is Ok,
                Err(cause) => r == Err::<(), Error>(
                    Error::LinearLayerReset { layer_index: old(self).layer_index, cause },
                ),
            },
    {
        self.execution = execution;
        match outcome {
            Err(cause) => Err(Error::LinearLayerReset { layer_index: self.layer_index, cause }),
            Ok(_) => {
                self.prefill_seed_calls = 0;
                self.block_elapsed_ns = 0;
                self.seeded = false;
                self.terminal_error = false;
                Ok(())
            },
        }
    }
}

/// Counters of the lane that runs every linear layer by itself.
#[derive(Debug, PartialEq, Eq)]
pub struct Qwen35MetalW8AllLinearLayersPrecisionV2Stats {
    pub profile: Qwen35MetalW8LinearLayerPrecisionProfile,
    pub mechanism: &'static str,
    pub full_attention_mlp_mechanism: &'static str,
    pub linear_layers: Vec<Qwen35MetalW8LinearLayerPrecisionV2Stats>,
    pub full_attention_mlp_layers: Vec<Qwen35MetalW8MlpBlockStats>,
    pub terminal_error: bool,
}

/// Every linear layer of a model, each accelerated by itself.
#[derive(Debug, PartialEq, Eq)]
pub struct Qwen35MetalW8AllLinearLayersPrecisionV2 {
    pub profile: Qwen35MetalW8LinearLayerPrecisionProfile,
    pub layers: Vec<Option<Qwen35MetalW8LinearLayer>>,
    pub terminal_error: bool,
}

/// The first linear layer from `from` on that is not there.
pub open spec fn all_linear_fault(
    weights: Qwen35TextWeights,
    config: Qwen35TextConfig,
    answers: Seq<Result<LinearLayerBuilt, LinearLayerBuildFailure>>,
    from: nat,
) -> Fault
    decreases config.layer_types@.len() - from,
{
    if from >= config.layer_types@.len() {
        None
    } else if config.layer_types@[from as int] == Qwen35LayerType::LinearAttention {
        either(
            Qwen35MetalW8LinearLayer::fault(
                weights,
                config,
                from as usize,
                true,
                answers[from as int],
            ),
            all_linear_fault(weights, config, answers, from + 1),
        )
    } else {
        all_linear_fault(weights, config, answers, from + 1)
    }
}

/// Some layer is a linear-attention layer.
pub open spec fn has_linear_layer(config: Qwen35TextConfig) -> bool {
    config.layer_types@.contains(Qwen35LayerType::LinearAttention)
}

impl Qwen35MetalW8AllLinearLayersPrecisionV2 {
    /// What stops the lane, when the accelerator answered with `answers`.
    pub open spec fn fault(
        weights: Qwen35TextWeights,
        config: Qwen35TextConfig,
        answers: Seq<Result<LinearLayerBuilt, LinearLayerBuildFailure>>,
    ) -> Fault {
        if weights.layers@.len() != config.layer_types@.len() {
            Some(
                Error::AllLinearLayers {
                    got: weights.layers@.len() as usize,
                    expected: config.layer_types@.len() as usize,
                }.text(),
            )
        } else {
            either(
                all_linear_fault(weights, config, answers, 0),
                if has_linear_layer(config) {
                    None
                } else {
                    Some(Error::AllLinearEmpty.text())
                },
            )
        }
    }

    /// Each linear layer has an entry, and each entry knows its precision.
    pub open spec fn fits(self, config: Qwen35TextConfig) -> bool {
        &&& self.layers@.len() == config.layer_types@.len()
        &&& forall|i: int|
            0 <= i < self.layers@.len() ==> match #[trigger] self.layers@[i] {
                Some(layer) => {
                    &&& config.layer_types@[i] == Qwen35LayerType::LinearAttention
                    &&& layer.layer_index == i
                    &&& layer.dimensions == dimensions_of(config)
                    &&& layer.precision_profile == Some(self.profile)
                    &&& layer.quantization is Some
                },
                None => config.layer_types@[i] != Qwen35LayerType::LinearAttention,
            }
    }

    /// The layers are those that the accelerator built, and nothing ran.
    pub open spec fn is_packed(
        self,
        config: Qwen35TextConfig,
        profile: Qwen35MetalW8LinearLayerPrecisionProfile,
        built: Seq<Result<LinearLayerBuilt, LinearLayerBuildFailure>>,
    ) -> bool {
        &&& self.profile == profile
        &&& self.fits(config)
        &&& !self.terminal_error
        &&& forall|i: int|
            0 <= i < self.layers@.len() && (#[trigger] self.layers@[i]) is Some ==> built[i] is Ok
                && self.layers@[i] == Some(
                Qwen35MetalW8LinearLayer::fresh(
                    i as usize,
                    config,
                    Some(profile),
                    built[i]->Ok_0,
                ),
            )
    }

    /// Takes the linear layers. There is one answer of the accelerator for each
    /// layer; those of full-attention layers are not read.
    pub fn pack(
        weights: &Qwen35TextWeights,
        config: &Qwen35TextConfig,
        profile: Qwen35MetalW8LinearLayerPrecisionProfile,
        built: Vec<Result<LinearLayerBuilt, LinearLayerBuildFailure>>,
    ) -> (r: Result<Qwen35MetalW8AllLinearLayersPrecisionV2, Error>)
        requires
            config.widths_fit(),
            built@.len() >= config.layer_types@.len(),
        ensures
            answers(
                r,
                Qwen35MetalW8AllLinearLayersPrecisionV2::fault(*weights, *config, built@),
            ),
            r matches Ok(lane) ==> lane.is_packed(*config, profile, built@),
    {
        let n: usize = config.layer_types.len();
        if weights.layers.len() != n {
            return Err(Error::AllLinearLayers { got: weights.layers.len(), expected: n });
        }
        let ghost given = built@;
        let mut rest = built;
        let mut layers: Vec<Option<Qwen35MetalW8LinearLayer>> = Vec::with_capacity(n);
        let mut found: bool = false;
        let mut i: usize = 0;
        while i < n
            invariant
                i <= n,
                n == config.layer_types@.len(),
                n == weights.layers@.len(),
                config.widths_fit(),
                given == built@,
                given.len() >= n,
                rest@ == given.skip(i as int),
                all_linear_fault(*weights, *config, given, 0) == all_linear_fault(
                    *weights,
                    *config,
                    given,
                    i as nat,
                ),
                layers@.len() == i,
                found == config.layer_types@.take(i as int).contains(
                    Qwen35LayerType::LinearAttention,
                ),
                forall|j: int|
                    0 <= j < i ==> match #[trigger] layers@[j] {
                        Some(layer) => {
                            &&& config.layer_types@[j] == Qwen35LayerType::LinearAttention
                            &&& given[j] is Ok
                            &&& layer == Qwen35MetalW8LinearLayer::fresh(
                                j as usize,
                                *config,
                                Some(profile),
                                given[j]->Ok_0,
                            )
                        },
                        None => config.layer_types@[j] != Qwen35LayerType::LinearAttention,
                    },
            decreases n - i,
        {
            let answer = rest.remove(0);
            proof {
                assert(answer == given[i as int]);
                assert(rest@ =~= given.skip(i + 1));
                crate::names::one_more_item(
                    config.layer_types@,
                    i as int,
                    Qwen35LayerType::LinearAttention,
                );
            }
            if config.layer_types[i] == Qwen35LayerType::LinearAttention {
                found = true;
                match Qwen35MetalW8LinearLayer::pack_precision_v2(
                    weights,
                    config,
                    i,
                    profile,
                    answer,
                ) {
                    Ok(layer) => layers.push(Some(layer)),
                    Err(e) => return Err(e),
                }
            } else {
                layers.push(None);
            }
            i = i + 1;
        }
        proof {
            assert(config.layer_types@.take(n as int) =~= config.layer_types@);
        }
        if !found {
            return Err(Error::AllLinearEmpty);
        }
        Ok(Qwen35MetalW8AllLinearLayersPrecisionV2 { profile, layers, terminal_error: false })
    }

    /// The entry of a layer.
    pub open spec fn layer_of(self, layer_index: int) -> Option<Qwen35MetalW8LinearLayer> {
        if 0 <= layer_index < self.layers@.len() {
            self.layers@[layer_index]
        } else {
            None
        }
    }

    /// The entry of a layer.
    pub fn layer(&self, layer_index: usize) -> (r: Option<Qwen35MetalW8LinearLayer>)
        ensures
            r == self.layer_of(layer_index as int),
    {
        if layer_index < self.layers.len() {
            self.layers[layer_index]
        } else {
            None
        }
    }

    /// Puts an entry that has changed back in its place.
    pub fn layer_mut(&mut self, layer_index: usize, layer: Qwen35MetalW8LinearLayer)
        requires
            old(self).layer_of(layer_index as int) is Some,
        ensures
            final(self).layers@ == old(self).layers@.update(layer_index as int, Some(layer)),
            final(self).profile == old(self).profile,
            final(self).terminal_error == old(self).terminal_error,
    {
        self.layers[layer_index] = Some(layer);
    }

    /// The lane, or one of its layers, met an error.
    pub open spec fn terminal(self) -> bool {
        self.terminal_error || exists|i: int|
            0 <= i < self.layers@.len() && (#[trigger] self.layers@[i]) is Some
                && self.layers@[i]->Some_0.terminal_error
    }

    /// Whether the lane, or one of its layers, met an error.
    pub fn is_terminal(&self) -> (r: bool)
        ensures
            r == self.terminal(),
    {
        if self.terminal_error {
            return true;
        }
        let mut i: usize = 0;
        while i < self.layers.len()
            invariant
                i <= self.layers@.len(),
                !self.terminal_error,
                forall|j: int|
                    0 <= j < i ==> !((#[trigger] self.layers@[j]) is Some
                        && self.layers@[j]->Some_0.terminal_error),
            decreases self.layers@.len() - i,
        {
            if let Some(layer) = &self.layers[i] {
                if layer.terminal_error {
                    return true;
                }
            }
            i = i + 1;
        }
        false
    }

    /// Makes the lane terminal.
    pub fn latch_terminal(&mut self)
        ensures
            *final(self) == (Qwen35MetalW8AllLinearLayersPrecisionV2 {
                terminal_error: true,
                ..*old(self)
            }),
    {
        self.terminal_error = true;
    }

    /// The counters of the layers, in their order.
    pub open spec fn layer_stats_of(self) -> Seq<Qwen35MetalW8LinearLayerPrecisionV2Stats> {
        present(self.layers@).map_values(
            |layer: Qwen35MetalW8LinearLayer| layer.precise_stats_of(),
        )
    }

    /// The counters of the lane.
    pub fn stats(&self, full_attention_mlp_layers: Vec<Qwen35MetalW8MlpBlockStats>) -> (r:
        Qwen35MetalW8AllLinearLayersPrecisionV2Stats)
        requires
            forall|i: int|
                0 <= i < self.layers@.len() && (#[trigger] self.layers@[i]) is Some
                    ==> self.layers@[i]->Some_0.precision_profile is Some
                    && self.layers@[i]->Some_0.quantization is Some,
        ensures
            r.profile == self.profile,
            r.mechanism == "metal-w8-all-linear-layers-precision-v2",
            r.full_attention_mlp_mechanism == "metal-w8-mlp-block-g64",
            r.linear_layers@ == self.layer_stats_of(),
            r.full_attention_mlp_layers == full_attention_mlp_layers,
            r.terminal_error == self.terminal(),
    {
        let mut linear_layers: Vec<Qwen35MetalW8LinearLayerPrecisionV2Stats> = Vec::new();
        let mut i: usize = 0;
        let ghost view = |layer: Qwen35MetalW8LinearLayer| layer.precise_stats_of();
        proof {
            assert(self.layers@.take(0) =~= Seq::empty());
            assert(linear_layers@ =~= present(self.layers@.take(0)).map_values(view));
        }
        while i < self.layers.len()
            invariant
                i <= self.layers@.len(),
                view == (|layer: Qwen35MetalW8LinearLayer| layer.precise_stats_of()),
                forall|j: int|
                    0 <= j < self.layers@.len() && (#[trigger] self.layers@[j]) is Some
                        ==> self.layers@[j]->Some_0.precision_profile is Some
                        && self.layers@[j]->Some_0.quantization is Some,
                linear_layers@ == present(self.layers@.take(i as int)).map_values(view),
            decreases self.layers@.len() - i,
        {
            proof {
                present_step(self.layers@, i as int);
                assert(self.layers@[i as int] is Some || self.layers@[i as int] is None);
            }
            if let Some(layer) = &self.layers[i] {
                if let Some(stats) = layer.precision_v2_stats() {
                    linear_layers.push(stats);
                }
            }
            i = i + 1;
            proof {
                assert(linear_layers@ =~= present(self.layers@.take(i as int)).map_values(view));
            }
        }
        proof {
            assert(self.layers@.take(i as int) =~= self.layers@);
        }
        Qwen35MetalW8AllLinearLayersPrecisionV2Stats {
            profile: self.profile,
            mechanism: "metal-w8-all-linear-layers-precision-v2",
            full_attention_mlp_mechanism: "metal-w8-mlp-block-g64",
            linear_layers,
            full_attention_mlp_layers,
            terminal_error: self.is_terminal(),
        }
    }

    /// The ledgers of the layers, in their order.
    pub open spec fn ledgers_of(self) -> Seq<Qwen35MetalW8LinearLayerBufferLedger> {
        present(self.layers@).map_values(
            |layer: Qwen35MetalW8LinearLayer|
                Qwen35MetalW8LinearLayerBufferLedger {
                    layer_index: layer.layer_index,
                    ledger: layer.ledger,
                },
        )
    }

    /// The ledgers of the layers, in their order.
    pub fn buffer_ledgers(&self) -> (ledgers: Vec<Qwen35MetalW8LinearLayerBufferLedger>)
        ensures
            ledgers@ == self.ledgers_of(),
    {
        let mut ledgers: Vec<Qwen35MetalW8LinearLayerBufferLedger> = Vec::new();
        let mut i: usize = 0;
        let ghost view = |layer: Qwen35MetalW8LinearLayer|
            Qwen35MetalW8LinearLayerBufferLedger {
                layer_index: layer.layer_index,
                ledger: layer.ledger,
            };
        proof {
            assert(self.layers@.take(0) =~= Seq::empty());
            assert(ledgers@ =~= present(self.layers@.take(0)).map_values(view));
        }
        while i < self.layers.len()
            invariant
                i <= self.layers@.len(),
                view == (|layer: Qwen35MetalW8LinearLayer|
                    Qwen35MetalW8LinearLayerBufferLedger {
                        layer_index: layer.layer_index,
                        ledger: layer.ledger,
                    }),
                ledgers@ == present(self.layers@.take(i as int)).map_values(view),
            decreases self.layers@.len() - i,
        {
            proof {
                present_step(self.layers@, i as int);
            }
            if let Some(layer) = &self.layers[i] {
                ledgers.push(
                    Qwen35MetalW8LinearLayerBufferLedger {
                        layer_index: layer.layer_index,
                        ledger: layer.ledger,
                    },
                );
            }
            i = i + 1;
            proof {
                assert(ledgers@ =~= present(self.layers@.take(i as int)).map_values(view));
            }
        }
        proof {
            assert(self.layers@.take(i as int) =~= self.layers@);
        }
        ledgers
    }

    /// The first layer that could not be cleared.
    pub open spec fn first_uncleared(
        layers: Seq<Option<Qwen35MetalW8LinearLayer>>,
        outcomes: Seq<(Result<(), String>, LinearLayerMetalStats)>,
        from: nat,
    ) -> nat
        decreases layers.len() - from,
    {
        if from >= layers.len() {
            from
        } else if layers[from as int] is Some && outcomes[from as int].0 is Err {
            from
        } else {
            Qwen35MetalW8AllLinearLayersPrecisionV2::first_uncleared(layers, outcomes, from + 1)
        }
    }

    /// What clearing the layers one after the other leaves: the first failure
    /// ends the reset and leaves the lane terminal.
    pub open spec fn resets(
        self,
        outcomes: Seq<(Result<(), String>, LinearLayerMetalStats)>,
        after: Self,
    ) -> bool {
        let stop = Qwen35MetalW8AllLinearLayersPrecisionV2::first_uncleared(
            self.layers@,
            outcomes,
            0,
        );
        &&& after.profile == self.profile
        &&& after.layers@.len() == self.layers@.len()
        &&& after.terminal_error == (stop < self.layers@.len())
        &&& forall|i: int|
            0 <= i < self.layers@.len() ==> #[trigger] after.layers@[i] == if i > stop
                || self.layers@[i] is None {
                self.layers@[i]
            } else {
                Some(self.layers@[i]->Some_0.after_reset(outcomes[i].0, outcomes[i].1))
            }
    }

    /// Takes the answers of the accelerator to clearing the layers one after
    /// the other, one for each layer of the model.
    pub fn reset(&mut self, outcomes: Vec<(Result<(), String>, LinearLayerMetalStats)>) -> (r:
        Result<(), Error>)
        requires
            outcomes@.len() >= old(self).layers@.len(),
        ensures
            old(self).resets(outcomes@, *final(self)),
            ({
                let before = old(self).layers@;
                let stop = Qwen35MetalW8AllLinearLayersPrecisionV2::first_uncleared(
                    before,
                    outcomes@,
                    0,
                );
                if stop < before.len() {
                    r == Err::<(), Error>(
                        Error::LinearLayerReset {
                            layer_index: before[stop as int]->Some_0.layer_index,
                            cause: outcomes@[stop as int].0->Err_0,
                        },
                    )
                } else {
                    r is Ok
                }
            }),
    {
        let n: usize = self.layers.len();
        let ghost before = self.layers@;
        let ghost given = outcomes@;
        let ghost stop = Qwen35MetalW8AllLinearLayersPrecisionV2::first_uncleared(before, given, 0);
        let ghost profile = self.profile;
        let mut rest = outcomes;
        let mut i: usize = 0;
        while i < n
            invariant
                i <= n,
                n == before.len(),
                self.layers@.len() == n,
                self.profile == profile,
                given == outcomes@,
                given.len() >= n,
                rest@ == given.skip(i as int),
                before == old(self).layers@,
                profile == old(self).profile,
                stop == Qwen35MetalW8AllLinearLayersPrecisionV2::first_uncleared(before, given, 0),
                stop == Qwen35MetalW8AllLinearLayersPrecisionV2::first_uncleared(
                    before,
                    given,
                    i as nat,
                ),
                forall|j: int|
                    0 <= j < i ==> #[trigger] self.layers@[j] == if before[j] is None {
                        before[j]
                    } else {
                        Some(before[j]->Some_0.after_reset(given[j].0, given[j].1))
                    },
                forall|j: int| i <= j < n ==> #[trigger] self.layers@[j] == before[j],
                i <= stop,
            decreases n - i,
        {
            let (outcome, execution) = rest.remove(0);
            proof {
                assert((outcome, execution) == given[i as int]);
                assert(rest@ =~= given.skip(i + 1));
                first_uncleared_is_later(before, given, i as nat + 1);
            }
            if let Some(layer) = self.layers[i] {
                let mut layer = layer;
                let cleared = layer.reset(outcome, execution);
                self.layers[i] = Some(layer);
                if let Err(e) = cleared {
                    self.terminal_error = true;
                    return Err(e);
                }
            }
            i = i + 1;
        }
        self.terminal_error = false;
        Ok(())
    }
}

proof fn first_uncleared_is_later(
    layers: Seq<Option<Qwen35MetalW8LinearLayer>>,
    outcomes: Seq<(Result<(), String>, LinearLayerMetalStats)>,
    from: nat,
)
    ensures
        from <= Qwen35MetalW8AllLinearLayersPrecisionV2::first_uncleared(layers, outcomes, from),
    decreases layers.len() - from,
{
    if from < layers.len() {
        first_uncleared_is_later(layers, outcomes, from + 1);
    }
}

/// Counters of the packed reference.
#[derive(Clone, Copy, Debug, PartialEq, Eq, Structural)]
pub struct Qwen35PackedW8LinearLayerReferenceStats {
    pub layer_index: usize,
    pub profile: Qwen35PackedW8LinearLayerReferenceProfile,
    pub quantization: LinearLayerQuantizationLedger,
    pub prefill_seed_calls: usize,
    pub decode_calls: usize,
    pub successful_decodes: usize,
    pub failed_decodes: usize,
    pub committed_state_version: u64,
    pub terminal_error: bool,
    pub block_elapsed_ns: u128,
}

/// Where packing the reference failed, and why.
#[derive(Debug, PartialEq, Eq)]
pub enum ReferenceBuildFailure {
    Packing { failure: LayerPackFailure },
    Ledger { cause: String },
}

/// One complete linear layer in packed precision, run by the CPU.
#[derive(Debug, PartialEq, Eq)]
pub struct Qwen35PackedW8LinearLayerReference {
    pub layer_index: usize,
    pub profile: Qwen35PackedW8LinearLayerReferenceProfile,
    pub quantization: LinearLayerQuantizationLedger,
    pub dimensions: GdnDimensions,
    pub state: Option<GdnDecodeState>,
    pub prefill_seed_calls: usize,
    pub decode_calls: usize,
    pub successful_decodes: usize,
    pub failed_decodes: usize,
    pub committed_state_version: u64,
    pub terminal_error: bool,
    pub block_elapsed_ns: u128,
}

impl Qwen35PackedW8LinearLayerReference {
    /// What stops the reference, when packing answered with `answer`.
    pub open spec fn fault(
        weights: Qwen35TextWeights,
        config: Qwen35TextConfig,
        layer_index: usize,
        answer: Result<LinearLayerQuantizationLedger, ReferenceBuildFailure>,
    ) -> Fault {
        match answer {
            Ok(_) => packed_layer_fault(weights, config, layer_index, None),
            Err(ReferenceBuildFailure::Packing { failure }) => packed_layer_fault(
                weights,
                config,
                layer_index,
                Some(failure),
            ),
            Err(ReferenceBuildFailure::Ledger { cause }) => either(
                packed_layer_fault(weights, config, layer_index, None),
                Some(Error::ReferenceLedger { layer_index, cause }.text()),
            ),
        }
    }

    /// The reference as it was built.
    pub open spec fn cleared(self) -> Self {
        Qwen35PackedW8LinearLayerReference {
            state: None,
            prefill_seed_calls: 0,
            decode_calls: 0,
            successful_decodes: 0,
            failed_decodes: 0,
            committed_state_version: 0,
            terminal_error: false,
            block_elapsed_ns: 0,
            ..self
        }
    }

    /// The reference is the one that was packed, and nothing ran.
    pub open spec fn is_packed(
        self,
        config: Qwen35TextConfig,
        layer_index: usize,
        profile: Qwen35PackedW8LinearLayerReferenceProfile,
        answer: Result<LinearLayerQuantizationLedger, ReferenceBuildFailure>,
    ) -> bool {
        &&& self.layer_index == layer_index
        &&& self.profile == profile
        &&& answer matches Ok(quantization) && self.quantization == quantization
        &&& self.dimensions == dimensions_of(config)
        &&& self == self.cleared()
    }

    /// Takes a layer that was packed.
    pub fn pack(
        weights: &Qwen35TextWeights,
        config: &Qwen35TextConfig,
        layer_index: usize,
        profile: Qwen35PackedW8LinearLayerReferenceProfile,
        answer: Result<LinearLayerQuantizationLedger, ReferenceBuildFailure>,
    ) -> (r: Result<Qwen35PackedW8LinearLayerReference, Error>)
        requires
            config.widths_fit(),
        ensures
            answers(
                r,
                Qwen35PackedW8LinearLayerReference::fault(*weights, *config, layer_index, answer),
            ),
            r matches Ok(reference) ==> {
                &&& layer_index < weights.layers@.len()
                &&& config.kind(layer_index as int) == Some(Qwen35LayerType::LinearAttention)
                &&& reference.is_packed(*config, layer_index, profile, answer)
            },
    {
        let late: Result<LinearLayerQuantizationLedger, Error> = match answer {
            Ok(quantization) => Ok(quantization),
            Err(ReferenceBuildFailure::Packing { failure }) => {
                return match pack_qwen35_w8_linear_layer(
                    weights,
                    config,
                    layer_index,
                    profile,
                    Some(failure),
                ) {
                    Err(e) => Err(e),
                    Ok(_) => unreached(),
                };
            },
            Err(ReferenceBuildFailure::Ledger { cause }) => Err(
                Error::ReferenceLedger { layer_index, cause },
            ),
        };
        let packed = match pack_qwen35_w8_linear_layer(
            weights,
            config,
            layer_index,
            profile,
            None,
        ) {
            Ok(packed) => packed,
            Err(e) => return Err(e),
        };
        let quantization: LinearLayerQuantizationLedger = match late {
            Ok(quantization) => quantization,
            Err(e) => return Err(e),
        };
        Ok(
            Qwen35PackedW8LinearLayerReference {
                layer_index,
                profile,
                quantization,
                dimensions: packed.dimensions,
                state: None,
                prefill_seed_calls: 0,
                decode_calls: 0,
                successful_decodes: 0,
                failed_decodes: 0,
                committed_state_version: 0,
                terminal_error: false,
                block_elapsed_ns: 0,
            },
        )
    }

    /// Takes the state that CPU prefill left, and starts counting anew.
    pub fn seed_after_cpu_prefill(&mut self, state: GdnDecodeState)
        ensures
            *final(self) == (Qwen35PackedW8LinearLayerReference {
                state: Some(state),
                prefill_seed_calls: old(self).prefill_seed_calls.saturating_add(1),
                ..old(self).cleared()
            }),
    {
        self.state = Some(state);
        self.prefill_seed_calls = self.prefill_seed_calls.saturating_add(1);
        self.decode_calls = 0;
        self.successful_decodes = 0;
        self.failed_decodes = 0;
        self.committed_state_version = 0;
        self.terminal_error = false;
        self.block_elapsed_ns = 0;
    }

    /// What stops the reference from running on `hidden`.
    pub open spec fn begin_fault(self, hidden: Tensor) -> Fault {
        if self.terminal_error {
            Some(Error::ReferenceTerminal { layer_index: self.layer_index }.text())
        } else if hidden.dims() != seq![1usize, self.dimensions.hidden_size] {
            row_fault(hidden, self.dimensions.hidden_size)
        } else if self.state is None {
            Some(Error::ReferenceNotSeeded { layer_index: self.layer_index }.text())
        } else {
            row_fault(hidden, self.dimensions.hidden_size)
        }
    }

    /// What a refused or accepted start leaves.
    pub open spec fn after_begin(self, hidden: Tensor) -> Self {
        Qwen35PackedW8LinearLayerReference {
            terminal_error: self.terminal_error || (hidden.dims()
                == seq![1usize, self.dimensions.hidden_size] && self.state is None),
            ..self
        }
    }

    /// Decides whether the reference may run on `hidden`.
    pub fn begin(&mut self, hidden: &Tensor) -> (r: Result<(), Error>)
        ensures
            *final(self) == old(self).after_begin(*hidden),
            answers(r, old(self).begin_fault(*hidden)),
    {
        if self.terminal_error {
            return Err(Error::ReferenceTerminal { layer_index: self.layer_index });
        }
        if !is_row(hidden, self.dimensions.hidden_size) {
            return check_row(hidden, self.dimensions.hidden_size);
        }
        if self.state.is_none() {
            self.terminal_error = true;
            return Err(Error::ReferenceNotSeeded { layer_index: self.layer_index });
        }
        check_row(hidden, self.dimensions.hidden_size)
    }

    /// What is wrong with a run that returned `output`.
    pub open spec fn run_fault(
        self,
        output: Result<(Vec<u32>, GdnDecodeState), String>,
    ) -> Fault {
        match output {
            Err(cause) => Some(reference_failed_text(self.layer_index as int, cause@)),
            Ok((values, _)) => match output_fault(values@, self.dimensions.hidden_size) {
                Some(text) => Some(reference_output_text(self.layer_index as int, text)),
                None => None,
            },
        }
    }

    /// What a run leaves: the new state is kept only where a whole row came
    /// back; otherwise the old state stays and the reference is terminal.
    pub open spec fn after_run(
        self,
        output: Result<(Vec<u32>, GdnDecodeState), String>,
        elapsed_ns: u128,
    ) -> Self {
        let counted = Qwen35PackedW8LinearLayerReference {
            decode_calls: self.decode_calls.saturating_add(1),
            block_elapsed_ns: self.block_elapsed_ns.saturating_add(elapsed_ns),
            ..self
        };
        if self.run_fault(output) is Some {
            Qwen35PackedW8LinearLayerReference {
                failed_decodes: self.failed_decodes.saturating_add(1),
                terminal_error: true,
                ..counted
            }
        } else {
            Qwen35PackedW8LinearLayerReference {
                state: Some(output->Ok_0.1),
                successful_decodes: self.successful_decodes.saturating_add(1),
                committed_state_version: self.committed_state_version.saturating_add(1),
                ..counted
            }
        }
    }

    /// Takes what the reference returned for one row.
    pub fn finish(
        &mut self,
        output: Result<(Vec<u32>, GdnDecodeState), String>,
        elapsed_ns: u128,
    ) -> (r: Result<Tensor, Error>)
        ensures
            *final(self) == old(self).after_run(output, elapsed_ns),
            answers(r, old(self).run_fault(output)),
            r matches Ok(tensor) ==> output is Ok && tensor.is_f32(
                seq![1usize, old(self).dimensions.hidden_size],
                output->Ok_0.0@,
            ),
    {
        self.decode_calls = self.decode_calls.saturating_add(1);
        self.block_elapsed_ns = self.block_elapsed_ns.saturating_add(elapsed_ns);
        match output {
            Err(cause) => {
                self.failed_decodes = self.failed_decodes.saturating_add(1);
                self.terminal_error = true;
                Err(Error::ReferenceFailed { layer_index: self.layer_index, cause })
            },
            Ok((values, state)) => match tensor_from_owned_metal_output_row(
                self.dimensions.hidden_size,
                values,
            ) {
                Err(e) => {
                    self.failed_decodes = self.failed_decodes.saturating_add(1);
                    self.terminal_error = true;
                    Err(
                        Error::ReferenceOutput {
                            layer_index: self.layer_index,
                            cause: Box::new(e),
                        },
                    )
                },
                Ok(tensor) => {
                    self.state = Some(state);
                    self.successful_decodes = self.successful_decodes.saturating_add(1);
                    self.committed_state_version = self.committed_state_version.saturating_add(1);
                    Ok(tensor)
                },
            },
        }
    }

    /// The counters.
    pub open spec fn stats_of(self) -> Qwen35PackedW8LinearLayerReferenceStats {
        Qwen35PackedW8LinearLayerReferenceStats {
            layer_index: self.layer_index,
            profile: self.profile,
            quantization: self.quantization,
            prefill_seed_calls: self.prefill_seed_calls,
            decode_calls: self.decode_calls,
            successful_decodes: self.successful_decodes,
            failed_decodes: self.failed_decodes,
            committed_state_version: self.committed_state_version,
            terminal_error: self.terminal_error,
            block_elapsed_ns: self.block_elapsed_ns,
        }
    }

    /// The counters.
    pub fn stats(&self) -> (stats: Qwen35PackedW8LinearLayerReferenceStats)
        ensures
            stats == self.stats_of(),
    {
        Qwen35PackedW8LinearLayerReferenceStats {
            layer_index: self.layer_index,
            profile: self.profile,
            quantization: self.quantization,
            prefill_seed_calls: self.prefill_seed_calls,
            decode_calls: self.decode_calls,
            successful_decodes: self.successful_decodes,
            failed_decodes: self.failed_decodes,
            committed_state_version: self.committed_state_version,
            terminal_error: self.terminal_error,
            block_elapsed_ns: self.block_elapsed_ns,
        }
    }

    /// Forgets the state and the counters.
    pub fn reset(&mut self)
        ensures
            *final(self) == old(self).cleared(),
    {
        self.state = None;
        self.prefill_seed_calls = 0;
        self.decode_calls = 0;
        self.successful_decodes = 0;
        self.failed_decodes = 0;
        self.committed_state_version = 0;
        self.terminal_error = false;
        self.block_elapsed_ns = 0;
    }
}

} // verus!
