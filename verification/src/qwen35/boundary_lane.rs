//! The fixed schedule of 24 layers: a stack of three linear layers, then five
//! boundaries, each the feed-forward block of a full-attention layer fused with
//! the three linear layers behind it, then one more full-attention layer.

use vstd::pervasive::unreached;
use vstd::prelude::*;

use crate::error::{answers, boundary_norm_shape_text, either, Error, Fault, FaultOrder};
use crate::qwen35::config::{Qwen35LayerType, Qwen35TextConfig};
use crate::qwen35::ledger::{
    Qwen35MetalW8MlpBlockBufferLedger, Qwen35MetalW8MlpStack3BoundaryBodyV1AggregateLedger,
    Qwen35MetalW8MlpStack3BoundaryRegionBufferLedgerV1,
};
use crate::qwen35::linear_lane::{DecodeReport, GdnDecodeState};
use crate::qwen35::loader::Qwen35TextWeights;
use crate::qwen35::metal::{
    FunctionChains, GdnCoreProductionReceiptV1, GdnCoreProfileV1, GdnDimensions,
    LinearLayerQuantizationLedger, LinearLayerStack3MetalStats, MlpBlockBufferLedger,
    MlpStack3BoundaryBufferLedgerV1, MlpStack3BoundaryMetalStatsV1,
};
use crate::qwen35::mlp_lane::{
    MlpBuildFailure, Qwen35MetalW8MlpBlockLayer, Qwen35MetalW8MlpBlockStats,
};
use crate::qwen35::packing::f32_fault;
use crate::qwen35::profile::{
    boundary_mechanism, production_fault, profile_label,
    qwen35_boundary_mechanism_for_gdn_core_profile_v1, qwen35_gdn_core_profile_v1_label,
    validate_qwen35_production_gdn_core_profile_v1,
};
use crate::qwen35::stack_lane::{
    pack_slots, slots_fault, Qwen35MetalW8LinearLayerStack3V1,
    Qwen35MetalW8LinearLayerStack3V1Stats, Stack3BuildFailure, Stack3Built, Stack3Counters,
    Stack3Custody, Stack3Owner, Stack3Slot,
};
use crate::qwen35::w8_pack::{
    check_f32, dimensions_of, gdn_dimensions, pack_qwen35_w8_mlp_block, packed_mlp_fault,
    LayerPackFailure,
};
use crate::tensor::{copy_dims, Tensor};

verus! {

/// The layers of the schedule.
pub const SCHEDULED_LAYERS: usize = 24;

/// The boundaries of the schedule.
pub const BOUNDARIES: usize = 5;

/// The layer behind the last boundary.
pub const FINAL_LAYER: usize = 23;

/// The kind that the schedule asks of a layer.
pub open spec fn scheduled_kind(layer_index: int) -> Qwen35LayerType {
    if layer_index % 4 == 3 {
        Qwen35LayerType::FullAttention
    } else {
        Qwen35LayerType::LinearAttention
    }
}

/// The name of a layer kind in messages.
pub open spec fn kind_label(kind: Qwen35LayerType) -> &'static str {
    match kind {
        Qwen35LayerType::LinearAttention => "linear-attention",
        Qwen35LayerType::FullAttention => "full-attention",
    }
}

fn label_of(kind: Qwen35LayerType) -> (label: &'static str)
    ensures
        label == kind_label(kind),
{
    match kind {
        Qwen35LayerType::LinearAttention => "linear-attention",
        Qwen35LayerType::FullAttention => "full-attention",
    }
}

fn scheduled(layer_index: usize) -> (kind: Qwen35LayerType)
    ensures
        kind == scheduled_kind(layer_index as int),
{
    if layer_index % 4 == 3 {
        Qwen35LayerType::FullAttention
    } else {
        Qwen35LayerType::LinearAttention
    }
}

/// The full-attention layer of a boundary.
pub open spec fn boundary_layer(boundary: int) -> int {
    4 * boundary + 3
}

/// The layers of the stack of a boundary are the three behind it.
pub open spec fn follows(layers: [usize; 3], boundary: int) -> bool {
    &&& layers@[0] == boundary_layer(boundary) + 1
    &&& layers@[1] == boundary_layer(boundary) + 2
    &&& layers@[2] == boundary_layer(boundary) + 3
}

/// The first layer from `from` on that is not configured as scheduled.
pub open spec fn kinds_fault(config: Qwen35TextConfig, from: nat) -> Fault
    decreases SCHEDULED_LAYERS - from,
{
    if from >= SCHEDULED_LAYERS {
        None
    } else if config.layer_types@[from as int] != scheduled_kind(from as int) {
        Some(
            Error::BoundaryLayerKind {
                kind: kind_label(scheduled_kind(from as int)),
                layer_index: from as usize,
            }.text(),
        )
    } else {
        kinds_fault(config, from + 1)
    }
}

/// What keeps a configuration from the schedule.
pub open spec fn schedule_fault(config: Qwen35TextConfig) -> Fault {
    if config.n_layers != SCHEDULED_LAYERS || config.layer_types@.len() != SCHEDULED_LAYERS {
        Some(
            Error::BoundaryLayers {
                config: config.n_layers,
                layer_types: config.layer_types@.len() as usize,
            }.text(),
        )
    } else {
        kinds_fault(config, 0)
    }
}

/// The configuration has the 24 layers of the schedule.
pub open spec fn is_scheduled(config: Qwen35TextConfig) -> bool {
    &&& config.n_layers == SCHEDULED_LAYERS
    &&& config.layer_types@.len() == SCHEDULED_LAYERS
    &&& forall|i: int|
        0 <= i < SCHEDULED_LAYERS ==> #[trigger] config.layer_types@[i] == scheduled_kind(i)
}

/// Checks that a configuration has the layers of the schedule.
pub fn validate_config_schedule(config: &Qwen35TextConfig) -> (r: Result<(), Error>)
    ensures
        answers(r, schedule_fault(*config)),
        r is Ok <==> is_scheduled(*config),
{
    let layers: usize = config.layer_types.len();
    if config.n_layers != SCHEDULED_LAYERS || layers != SCHEDULED_LAYERS {
        return Err(Error::BoundaryLayers { config: config.n_layers, layer_types: layers });
    }
    let mut i: usize = 0;
    while i < SCHEDULED_LAYERS
        invariant
            i <= SCHEDULED_LAYERS,
            config.n_layers == SCHEDULED_LAYERS,
            config.layer_types@.len() == SCHEDULED_LAYERS,
            kinds_fault(*config, 0) == kinds_fault(*config, i as nat),
            forall|j: int| 0 <= j < i ==> #[trigger] config.layer_types@[j] == scheduled_kind(j),
        decreases SCHEDULED_LAYERS - i,
    {
        let kind = scheduled(i);
        if config.layer_types[i] != kind {
            return Err(Error::BoundaryLayerKind { kind: label_of(kind), layer_index: i });
        }
        i = i + 1;
    }
    Ok(())
}

/// The configuration and the checkpoint have the expected kind at a layer.
pub open spec fn has_kind(
    weights: Qwen35TextWeights,
    config: Qwen35TextConfig,
    layer_index: int,
    expected: Qwen35LayerType,
) -> bool {
    &&& config.kind(layer_index) == Some(expected)
    &&& layer_index < weights.layers@.len()
    &&& weights.layers@[layer_index].attention.kind() == expected
}

/// Checks the kind of a layer in the configuration and in the checkpoint.
pub fn require_layer_kind(
    weights: &Qwen35TextWeights,
    config: &Qwen35TextConfig,
    layer_index: usize,
    expected: Qwen35LayerType,
) -> (r: Result<(), Error>)
    ensures
        r == if has_kind(*weights, *config, layer_index as int, expected) {
            Ok::<(), Error>(())
        } else {
            Err(Error::BoundaryLayerKind { kind: kind_label(expected), layer_index })
        },
{
    let configured = match config.layer_type(layer_index) {
        Some(kind) => kind == expected,
        None => false,
    };
    if !configured || layer_index >= weights.layers.len()
        || weights.layers[layer_index].attention.layer_type() != expected {
        return Err(Error::BoundaryLayerKind { kind: label_of(expected), layer_index });
    }
    Ok(())
}

/// The first layer from `from` on whose weights are not of the scheduled kind.
pub open spec fn weights_fault(
    weights: Qwen35TextWeights,
    config: Qwen35TextConfig,
    from: nat,
) -> Fault
    decreases SCHEDULED_LAYERS - from,
{
    if from >= SCHEDULED_LAYERS {
        None
    } else if !has_kind(weights, config, from as int, scheduled_kind(from as int)) {
        Some(
            Error::BoundaryLayerKind {
                kind: kind_label(scheduled_kind(from as int)),
                layer_index: from as usize,
            }.text(),
        )
    } else {
        weights_fault(weights, config, from + 1)
    }
}

fn check_weights(weights: &Qwen35TextWeights, config: &Qwen35TextConfig) -> (r: Result<(), Error>)
    ensures
        answers(r, weights_fault(*weights, *config, 0)),
{
    let mut i: usize = 0;
    while i < SCHEDULED_LAYERS
        invariant
            i <= SCHEDULED_LAYERS,
            weights_fault(*weights, *config, 0) == weights_fault(*weights, *config, i as nat),
        decreases SCHEDULED_LAYERS - i,
    {
        if let Err(e) = require_layer_kind(weights, config, i, scheduled(i)) {
            return Err(e);
        }
        i = i + 1;
    }
    Ok(())
}

/// Counters and layout of one boundary.
#[derive(Clone, Copy, Debug, PartialEq, Eq)]
pub struct Qwen35MetalW8MlpStack3BoundaryRegionV1Stats {
    pub boundary_mlp_layer_index: usize,
    pub stack_layer_indices: [usize; 3],
    pub mechanism: &'static str,
    pub gdn_core_profile: GdnCoreProfileV1,
    pub gdn_function_chain: &'static str,
    pub quantization: [LinearLayerQuantizationLedger; 3],
    pub prefill_seed_calls: [usize; 3],
    pub execution: MlpStack3BoundaryMetalStatsV1,
    pub last_gdn_core_receipt: Option<GdnCoreProductionReceiptV1>,
    pub kernel_dispatches_per_decode: usize,
    pub explicit_buffer_barriers_per_decode: usize,
    pub terminal_error: bool,
    pub block_elapsed_ns: u128,
}

/// A boundary that the accelerator has built.
#[derive(Debug, PartialEq, Eq)]
pub struct BoundaryBuilt {
    pub ledger: MlpStack3BoundaryBufferLedgerV1,
    pub quantization: [LinearLayerQuantizationLedger; 3],
    pub counters: Stack3Counters<MlpStack3BoundaryMetalStatsV1>,
}

/// Where the accelerator failed to build a boundary, and why.
#[derive(Debug, PartialEq, Eq)]
pub enum BoundaryBuildFailure {
    Packing { slot: Stack3Slot, failure: LayerPackFailure },
    Ledger { cause: String },
    Mlp { cause: String },
    Assembly { cause: String },
    Construction { cause: String },
}

/// One accelerated boundary: a feed-forward block and the stack behind it.
#[derive(Debug, PartialEq, Eq)]
pub struct Qwen35MetalW8MlpStack3BoundaryRegionV1 {
    pub boundary_mlp_layer_index: usize,
    pub stack_layer_indices: [usize; 3],
    pub gdn_core_profile: GdnCoreProfileV1,
    pub gdn_function_chain: &'static str,
    pub dimensions: GdnDimensions,
    pub ledger: MlpStack3BoundaryBufferLedgerV1,
    pub quantization: [LinearLayerQuantizationLedger; 3],
    pub custody: Stack3Custody,
    pub counters: Stack3Counters<MlpStack3BoundaryMetalStatsV1>,
}

/// What stops the norm of a boundary layer.
pub open spec fn boundary_norm_fault(norm: Tensor, hidden_size: usize) -> Fault {
    if norm.dims() != seq![hidden_size] {
        Some(boundary_norm_shape_text(hidden_size as int, norm.dims()))
    } else {
        f32_fault(norm, "Metal W8 MLP→Stack3 boundary v1 post-attention RMSNorm")
    }
}

fn check_boundary_norm(norm: &Tensor, hidden_size: usize) -> (r: Result<(), Error>)
    ensures
        answers(r, boundary_norm_fault(*norm, hidden_size)),
{
    let expected: [usize; 1] = [hidden_size];
    proof {
        assert(expected@ =~= seq![hidden_size]);
    }
    if !norm.has_shape(expected.as_slice()) {
        return Err(
            Error::BoundaryNormShape { hidden_size, got: copy_dims(norm.shape().as_slice()) },
        );
    }
    check_f32(norm, "Metal W8 MLP→Stack3 boundary v1 post-attention RMSNorm")
}

impl Qwen35MetalW8MlpStack3BoundaryRegionV1 {
    /// What stops a boundary, when the accelerator answered with `answer`.
    pub open spec fn fault(
        weights: Qwen35TextWeights,
        config: Qwen35TextConfig,
        layer_index: usize,
        stack_layer_indices: [usize; 3],
        profile: GdnCoreProfileV1,
        answer: Result<BoundaryBuilt, BoundaryBuildFailure>,
    ) -> Fault {
        let kind = if has_kind(
            weights,
            config,
            layer_index as int,
            Qwen35LayerType::FullAttention,
        ) {
            None
        } else {
            Some(Error::BoundaryRequiresFull { layer_index }.text())
        };
        let packing = match answer {
            Err(BoundaryBuildFailure::Packing { slot, failure }) => Some((slot, failure)),
            _ => None,
        };
        let ledger = match answer {
            Err(BoundaryBuildFailure::Ledger { cause }) => Some(
                Error::BoundaryLedger { cause }.text(),
            ),
            _ => None,
        };
        let mlp = match answer {
            Err(BoundaryBuildFailure::Mlp { cause }) => Some(cause),
            _ => None,
        };
        let built = match answer {
            Err(BoundaryBuildFailure::Assembly { cause }) => Some(
                Error::BoundaryAssembly { layer_index, cause }.text(),
            ),
            Err(BoundaryBuildFailure::Construction { cause }) => Some(
                Error::BoundaryConstruction {
                    layer_index,
                    profile: profile_label(profile),
                    cause,
                }.text(),
            ),
            _ => None,
        };
        kind
            .or_fault(slots_fault(weights, config, stack_layer_indices, packing))
            .or_fault(ledger)
            .or_fault(packed_mlp_fault(weights, config, layer_index, mlp))
            .or_fault(
                boundary_norm_fault(
                    weights.layers@[layer_index as int].post_attention_norm_weight,
                    config.hidden_size,
                ),
            )
            .or_fault(built)
    }

    /// The boundary is the one that the accelerator built, and nothing ran.
    pub open spec fn is_built(
        self,
        config: Qwen35TextConfig,
        layer_index: usize,
        stack_layer_indices: [usize; 3],
        profile: GdnCoreProfileV1,
        chains: FunctionChains,
        built: BoundaryBuilt,
    ) -> bool {
        &&& self.boundary_mlp_layer_index == layer_index
        &&& self.stack_layer_indices == stack_layer_indices
        &&& self.gdn_core_profile == profile
        &&& self.gdn_function_chain == chains.of(profile)
        &&& self.dimensions == dimensions_of(config)
        &&& self.ledger == built.ledger
        &&& self.quantization == built.quantization
        &&& self.counters == built.counters
        &&& self.custody.is_fresh()
        &&& self.is_owned()
    }

    /// The custody names the boundary.
    pub open spec fn is_owned(self) -> bool {
        &&& self.custody.owner == (Stack3Owner::Boundary {
            layer_index: self.boundary_mlp_layer_index,
        })
        &&& self.custody.hidden_size == self.dimensions.hidden_size
    }

    /// Takes a boundary that the accelerator was asked to build under a profile.
    pub fn pack_impl(
        weights: &Qwen35TextWeights,
        config: &Qwen35TextConfig,
        layer_index: usize,
        stack_layer_indices: [usize; 3],
        profile: GdnCoreProfileV1,
        chains: FunctionChains,
        answer: Result<BoundaryBuilt, BoundaryBuildFailure>,
    ) -> (r: Result<Qwen35MetalW8MlpStack3BoundaryRegionV1, Error>)
        requires
            config.widths_fit(),
        ensures
            answers(
                r,
                Qwen35MetalW8MlpStack3BoundaryRegionV1::fault(
                    *weights,
                    *config,
                    layer_index,
                    stack_layer_indices,
                    profile,
                    answer,
                ),
            ),
            r matches Ok(region) ==> answer is Ok && region.is_built(
                *config,
                layer_index,
                stack_layer_indices,
                profile,
                chains,
                answer->Ok_0,
            ),
    {
        if require_layer_kind(
            weights,
            config,
            layer_index,
            Qwen35LayerType::FullAttention,
        ).is_err() {
            return Err(Error::BoundaryRequiresFull { layer_index });
        }
        let norm = &weights.layers[layer_index].post_attention_norm_weight;
        match answer {
            Err(BoundaryBuildFailure::Packing { slot, failure }) => {
                match pack_slots(weights, config, stack_layer_indices, Some((slot, failure))) {
                    Err(e) => Err(e),
                    Ok(_) => unreached(),
                }
            },
            Err(BoundaryBuildFailure::Ledger { cause }) => {
                if let Err(e) = pack_slots(weights, config, stack_layer_indices, None) {
                    return Err(e);
                }
                Err(Error::BoundaryLedger { cause })
            },
            Err(BoundaryBuildFailure::Mlp { cause }) => {
                if let Err(e) = pack_slots(weights, config, stack_layer_indices, None) {
                    return Err(e);
                }
                match pack_qwen35_w8_mlp_block(weights, config, layer_index, Some(cause)) {
                    Err(e) => Err(e),
                    Ok(_) => unreached(),
                }
            },
            Err(BoundaryBuildFailure::Assembly { cause }) => {
                if let Err(e) = pack_slots(weights, config, stack_layer_indices, None) {
                    return Err(e);
                }
                if let Err(e) = pack_qwen35_w8_mlp_block(weights, config, layer_index, None) {
                    return Err(e);
                }
                if let Err(e) = check_boundary_norm(norm, config.hidden_size) {
                    return Err(e);
                }
                Err(Error::BoundaryAssembly { layer_index, cause })
            },
            Err(BoundaryBuildFailure::Construction { cause }) => {
                if let Err(e) = pack_slots(weights, config, stack_layer_indices, None) {
                    return Err(e);
                }
                if let Err(e) = pack_qwen35_w8_mlp_block(weights, config, layer_index, None) {
                    return Err(e);
                }
                if let Err(e) = check_boundary_norm(norm, config.hidden_size) {
                    return Err(e);
                }
                Err(
                    Error::BoundaryConstruction {
                        layer_index,
                        profile: qwen35_gdn_core_profile_v1_label(profile),
                        cause,
                    },
                )
            },
            Ok(built) => {
                if let Err(e) = pack_slots(weights, config, stack_layer_indices, None) {
                    return Err(e);
                }
                if let Err(e) = pack_qwen35_w8_mlp_block(weights, config, layer_index, None) {
                    return Err(e);
                }
                if let Err(e) = check_boundary_norm(norm, config.hidden_size) {
                    return Err(e);
                }
                Ok(
                    Qwen35MetalW8MlpStack3BoundaryRegionV1 {
                        boundary_mlp_layer_index: layer_index,
                        stack_layer_indices,
                        gdn_core_profile: profile,
                        gdn_function_chain: chains.expected_function_chain(profile),
                        dimensions: gdn_dimensions(config),
                        ledger: built.ledger,
                        quantization: built.quantization,
                        custody: Stack3Custody::new(
                            Stack3Owner::Boundary { layer_index },
                            gdn_dimensions(config).hidden_size,
                        ),
                        counters: built.counters,
                    },
                )
            },
        }
    }

    /// Takes a boundary that the accelerator was asked to build under a profile
    /// that is used in production.
    pub fn pack_with_gdn_core_profile_v1(
        weights: &Qwen35TextWeights,
        config: &Qwen35TextConfig,
        layer_index: usize,
        stack_layer_indices: [usize; 3],
        profile: GdnCoreProfileV1,
        chains: FunctionChains,
        answer: Result<BoundaryBuilt, BoundaryBuildFailure>,
    ) -> (r: Result<Qwen35MetalW8MlpStack3BoundaryRegionV1, Error>)
        requires
            config.widths_fit(),
        ensures
            answers(
                r,
                either(
                    production_fault(profile),
                    Qwen35MetalW8MlpStack3BoundaryRegionV1::fault(
                        *weights,
                        *config,
                        layer_index,
                        stack_layer_indices,
                        profile,
                        answer,
                    ),
                ),
            ),
            r matches Ok(region) ==> answer is Ok && region.is_built(
                *config,
                layer_index,
                stack_layer_indices,
                profile,
                chains,
                answer->Ok_0,
            ),
    {
        if let Err(e) = validate_qwen35_production_gdn_core_profile_v1(profile) {
            return Err(e);
        }
        Qwen35MetalW8MlpStack3BoundaryRegionV1::pack_impl(
            weights,
            config,
            layer_index,
            stack_layer_indices,
            profile,
            chains,
            answer,
        )
    }

    /// Takes a boundary that the accelerator was asked to build.
    pub fn pack(
        weights: &Qwen35TextWeights,
        config: &Qwen35TextConfig,
        layer_index: usize,
        stack_layer_indices: [usize; 3],
        chains: FunctionChains,
        answer: Result<BoundaryBuilt, BoundaryBuildFailure>,
    ) -> (r: Result<Qwen35MetalW8MlpStack3BoundaryRegionV1, Error>)
        requires
            config.widths_fit(),
        ensures
            answers(
                r,
                Qwen35MetalW8MlpStack3BoundaryRegionV1::fault(
                    *weights,
                    *config,
                    layer_index,
                    stack_layer_indices,
                    GdnCoreProfileV1::LegacyFourDispatch,
                    answer,
                ),
            ),
            r matches Ok(region) ==> answer is Ok && region.is_built(
                *config,
                layer_index,
                stack_layer_indices,
                GdnCoreProfileV1::LegacyFourDispatch,
                chains,
                answer->Ok_0,
            ),
    {
        Qwen35MetalW8MlpStack3BoundaryRegionV1::pack_impl(
            weights,
            config,
            layer_index,
            stack_layer_indices,
            GdnCoreProfileV1::LegacyFourDispatch,
            chains,
            answer,
        )
    }

    /// The counters.
    pub open spec fn stats_of(self) -> Qwen35MetalW8MlpStack3BoundaryRegionV1Stats {
        Qwen35MetalW8MlpStack3BoundaryRegionV1Stats {
            boundary_mlp_layer_index: self.boundary_mlp_layer_index,
            stack_layer_indices: self.stack_layer_indices,
            mechanism: boundary_mechanism(self.gdn_core_profile),
            gdn_core_profile: self.gdn_core_profile,
            gdn_function_chain: self.gdn_function_chain,
            quantization: self.quantization,
            prefill_seed_calls: self.custody.prefill_seed_calls,
            execution: self.counters.execution,
            last_gdn_core_receipt: self.counters.last_gdn_core_receipt,
            kernel_dispatches_per_decode: self.ledger.kernel_dispatches_per_decode,
            explicit_buffer_barriers_per_decode: self.ledger.explicit_buffer_barriers_per_decode,
            terminal_error: self.custody.terminal_error,
            block_elapsed_ns: self.custody.block_elapsed_ns,
        }
    }

    /// The counters.
    pub fn stats(&self) -> (stats: Qwen35MetalW8MlpStack3BoundaryRegionV1Stats)
        ensures
            stats == self.stats_of(),
    {
        Qwen35MetalW8MlpStack3BoundaryRegionV1Stats {
            boundary_mlp_layer_index: self.boundary_mlp_layer_index,
            stack_layer_indices: self.stack_layer_indices,
            mechanism: qwen35_boundary_mechanism_for_gdn_core_profile_v1(self.gdn_core_profile),
            gdn_core_profile: self.gdn_core_profile,
            gdn_function_chain: self.gdn_function_chain,
            quantization: self.quantization,
            prefill_seed_calls: self.custody.prefill_seed_calls,
            execution: self.counters.execution,
            last_gdn_core_receipt: self.counters.last_gdn_core_receipt,
            kernel_dispatches_per_decode: self.ledger.kernel_dispatches_per_decode,
            explicit_buffer_barriers_per_decode: self.ledger.explicit_buffer_barriers_per_decode,
            terminal_error: self.custody.terminal_error,
            block_elapsed_ns: self.custody.block_elapsed_ns,
        }
    }

    /// The ledger entry.
    pub open spec fn ledger_of(self) -> Qwen35MetalW8MlpStack3BoundaryRegionBufferLedgerV1 {
        Qwen35MetalW8MlpStack3BoundaryRegionBufferLedgerV1 {
            boundary_mlp_layer_index: self.boundary_mlp_layer_index,
            stack_layer_indices: self.stack_layer_indices,
            ledger: self.ledger,
        }
    }

    /// What is kept while the boundary runs.
    pub open spec fn same_build(self, other: Self) -> bool {
        other == (Qwen35MetalW8MlpStack3BoundaryRegionV1 {
            custody: other.custody,
            counters: other.counters,
            ..self
        })
    }

    /// Takes what the accelerator returned for one row.
    pub fn finish(
        &mut self,
        report: DecodeReport<Stack3Counters<MlpStack3BoundaryMetalStatsV1>>,
    ) -> (r: Result<Tensor, Error>)
        ensures
            *final(self) == (Qwen35MetalW8MlpStack3BoundaryRegionV1 {
                custody: old(self).custody.after_run(report.output, report.elapsed_ns),
                counters: report.stats,
                ..*old(self)
            }),
            answers(r, old(self).custody.run_fault(report.output)),
            r matches Ok(tensor) ==> report.output is Ok && tensor.is_f32(
                seq![1usize, old(self).custody.hidden_size],
                report.output->Ok_0@,
            ),
    {
        self.counters = report.stats;
        self.custody.finish(report.output, report.elapsed_ns)
    }

    /// Takes the answer of the accelerator to the three states.
    pub fn complete_seed(
        &mut self,
        outcome: Result<(), String>,
        counters: Stack3Counters<MlpStack3BoundaryMetalStatsV1>,
    ) -> (r: Result<(), Error>)
        ensures
            old(self).same_build(*final(self)),
            final(self).counters == counters,
            old(self).custody.completes(outcome, final(self).custody),
            match outcome {
                Ok(_) => r is Ok,
                Err(cause) => r == Err::<(), Error>(old(self).custody.owner.seed(cause)),
            },
    {
        self.counters = counters;
        self.custody.complete_seed(outcome)
    }

    /// Takes the answer of the accelerator to clearing the states.
    pub fn reset(
        &mut self,
        outcome: Result<(), String>,
        counters: Stack3Counters<MlpStack3BoundaryMetalStatsV1>,
    ) -> (r: Result<(), Error>)
        ensures
            old(self).same_build(*final(self)),
            final(self).counters == counters,
            old(self).custody.resets(outcome, final(self).custody),
            match outcome {
                Ok(_) => r is Ok,
                Err(cause) => r == Err::<(), Error>(old(self).custody.owner.reset(cause)),
            },
    {
        self.counters = counters;
        self.custody.reset(outcome)
    }
}

/// The answers of the accelerator to the transactions of the schedule.
#[derive(Debug, PartialEq, Eq)]
pub struct ScheduleAnswers {
    pub initial_stack: Result<Stack3Built, Stack3BuildFailure>,
    pub boundaries: Vec<Result<BoundaryBuilt, BoundaryBuildFailure>>,
}

/// The answers of the accelerator to clearing the transactions of the schedule.
#[derive(Debug, PartialEq, Eq)]
pub struct ScheduleResets {
    pub initial_stack: (Result<(), String>, Stack3Counters<LinearLayerStack3MetalStats>),
    pub boundaries: Vec<(Result<(), String>, Stack3Counters<MlpStack3BoundaryMetalStatsV1>)>,
}

/// The transaction that a linear layer belongs to: the initial stack or one of
/// the boundaries.
#[derive(Clone, Copy, Debug, PartialEq, Eq, Structural)]
pub enum Transaction {
    InitialStack,
    Boundary(usize),
}

/// The transactions of the schedule.
#[derive(Debug, PartialEq, Eq)]
pub struct BoundarySchedule {
    pub initial_stack: Qwen35MetalW8LinearLayerStack3V1,
    pub boundaries: Vec<Qwen35MetalW8MlpStack3BoundaryRegionV1>,
}

/// The layers of the initial stack.
pub open spec fn is_initial(layers: [usize; 3]) -> bool {
    layers@[0] == 0 && layers@[1] == 1 && layers@[2] == 2
}

/// The array of the layers of the initial stack.
pub open spec fn initial_layers() -> [usize; 3] {
    choose|layers: [usize; 3]| is_initial(layers)
}

/// The array of the layers behind a boundary.
pub open spec fn boundary_stack(boundary: int) -> [usize; 3] {
    choose|layers: [usize; 3]| follows(layers, boundary)
}

fn initial() -> (layers: [usize; 3])
    ensures
        is_initial(layers),
        layers == initial_layers(),
{
    let layers: [usize; 3] = [0, 1, 2];
    proof {
        assert(is_initial(layers));
        assert(is_initial(initial_layers()));
        assert(layers =~= initial_layers());
    }
    layers
}

fn behind(boundary: usize) -> (layers: [usize; 3])
    requires
        boundary < BOUNDARIES,
    ensures
        follows(layers, boundary as int),
        layers == boundary_stack(boundary as int),
{
    let layers: [usize; 3] = [4 * boundary + 4, 4 * boundary + 5, 4 * boundary + 6];
    proof {
        assert(follows(layers, boundary as int));
        assert(follows(boundary_stack(boundary as int), boundary as int));
        assert(layers =~= boundary_stack(boundary as int));
    }
    layers
}

/// The profile that the transactions run under: the one chosen for production,
/// or the plain one.
pub open spec fn effective(production: Option<GdnCoreProfileV1>) -> GdnCoreProfileV1 {
    match production {
        Some(profile) => profile,
        None => GdnCoreProfileV1::LegacyFourDispatch,
    }
}

/// The chosen profile is not for production.
pub open spec fn chosen_fault(production: Option<GdnCoreProfileV1>) -> Fault {
    match production {
        Some(profile) => production_fault(profile),
        None => None,
    }
}

/// The first boundary from `from` on that is not there.
pub open spec fn boundaries_fault(
    weights: Qwen35TextWeights,
    config: Qwen35TextConfig,
    production: Option<GdnCoreProfileV1>,
    built: Seq<Result<BoundaryBuilt, BoundaryBuildFailure>>,
    from: nat,
) -> Fault
    decreases BOUNDARIES - from,
{
    if from >= BOUNDARIES {
        None
    } else {
        either(
            either(
                chosen_fault(production),
                Qwen35MetalW8MlpStack3BoundaryRegionV1::fault(
                    weights,
                    config,
                    boundary_layer(from as int) as usize,
                    boundary_stack(from as int),
                    effective(production),
                    built[from as int],
                ),
            ),
            boundaries_fault(weights, config, production, built, from + 1),
        )
    }
}

/// A boundary is the one that the accelerator built at a place of the schedule.
pub open spec fn is_built_at(
    region: Qwen35MetalW8MlpStack3BoundaryRegionV1,
    config: Qwen35TextConfig,
    production: Option<GdnCoreProfileV1>,
    chains: FunctionChains,
    answer: Result<BoundaryBuilt, BoundaryBuildFailure>,
    boundary: int,
) -> bool {
    answer is Ok && region.is_built(
        config,
        boundary_layer(boundary) as usize,
        boundary_stack(boundary),
        effective(production),
        chains,
        answer->Ok_0,
    )
}

impl BoundarySchedule {
    /// What stops the transactions.
    pub open spec fn fault(
        weights: Qwen35TextWeights,
        config: Qwen35TextConfig,
        production: Option<GdnCoreProfileV1>,
        answer: ScheduleAnswers,
    ) -> Fault {
        either(
            either(
                chosen_fault(production),
                Qwen35MetalW8LinearLayerStack3V1::fault(
                    weights,
                    config,
                    initial_layers(),
                    effective(production),
                    answer.initial_stack,
                ),
            ),
            boundaries_fault(weights, config, production, answer.boundaries@, 0),
        )
    }

    /// The transactions are those of the schedule.
    pub open spec fn fits(self, config: Qwen35TextConfig) -> bool {
        &&& is_initial(self.initial_stack.layer_indices)
        &&& self.initial_stack.is_owned()
        &&& self.initial_stack.dimensions == dimensions_of(config)
        &&& self.boundaries@.len() == BOUNDARIES
        &&& forall|b: int|
            0 <= b < BOUNDARIES ==> {
                let region = #[trigger] self.boundaries@[b];
                &&& region.boundary_mlp_layer_index == boundary_layer(b)
                &&& follows(region.stack_layer_indices, b)
                &&& region.is_owned()
                &&& region.dimensions == dimensions_of(config)
            }
    }

    /// The transactions are those that the accelerator built, and nothing ran.
    pub open spec fn is_built(
        self,
        config: Qwen35TextConfig,
        production: Option<GdnCoreProfileV1>,
        chains: FunctionChains,
        answer: ScheduleAnswers,
    ) -> bool {
        &&& answer.initial_stack is Ok
        &&& self.initial_stack.is_built(
            config,
            initial_layers(),
            effective(production),
            chains,
            answer.initial_stack->Ok_0,
        )
        &&& self.boundaries@.len() == BOUNDARIES
        &&& forall|b: int|
            0 <= b < BOUNDARIES ==> is_built_at(
                #[trigger] self.boundaries@[b],
                config,
                production,
                chains,
                answer.boundaries@[b],
                b,
            )
    }

    /// Takes the transactions that the accelerator was asked to build.
    pub fn pack(
        weights: &Qwen35TextWeights,
        config: &Qwen35TextConfig,
        production: Option<GdnCoreProfileV1>,
        chains: FunctionChains,
        answer: ScheduleAnswers,
    ) -> (r: Result<BoundarySchedule, Error>)
        requires
            config.widths_fit(),
            answer.boundaries@.len() >= BOUNDARIES,
        ensures
            answers(r, BoundarySchedule::fault(*weights, *config, production, answer)),
            r matches Ok(schedule) ==> schedule.fits(*config) && schedule.is_built(
                *config,
                production,
                chains,
                answer,
            ),
    {
        let first = match production {
            Some(profile) => Qwen35MetalW8LinearLayerStack3V1::pack_with_gdn_core_profile_v1(
                weights,
                config,
                initial(),
                profile,
                chains,
                answer.initial_stack,
            ),
            None => Qwen35MetalW8LinearLayerStack3V1::pack(
                weights,
                config,
                initial(),
                chains,
                answer.initial_stack,
            ),
        };
        let initial_stack = match first {
            Ok(stack) => stack,
            Err(e) => return Err(e),
        };
        let ghost given = answer.boundaries@;
        let mut rest = answer.boundaries;
        let mut boundaries: Vec<Qwen35MetalW8MlpStack3BoundaryRegionV1> = Vec::with_capacity(
            BOUNDARIES,
        );
        let mut b: usize = 0;
        while b < BOUNDARIES
            invariant
                b <= BOUNDARIES,
                config.widths_fit(),
                given == answer.boundaries@,
                given.len() >= BOUNDARIES,
                rest@ == given.skip(b as int),
                boundaries@.len() == b,
                chosen_fault(production) is None,
                BoundarySchedule::fault(*weights, *config, production, answer) == boundaries_fault(
                    *weights,
                    *config,
                    production,
                    given,
                    0,
                ),
                boundaries_fault(*weights, *config, production, given, 0) == boundaries_fault(
                    *weights,
                    *config,
                    production,
                    given,
                    b as nat,
                ),
                forall|j: int|
                    0 <= j < b ==> is_built_at(
                        #[trigger] boundaries@[j],
                        *config,
                        production,
                        chains,
                        given[j],
                        j,
                    ) && follows(boundaries@[j].stack_layer_indices, j),
            decreases BOUNDARIES - b,
        {
            let next = rest.remove(0);
            proof {
                assert(next == given[b as int]);
                assert(rest@ =~= given.skip(b + 1));
            }
            let packed = match production {
                Some(profile) => {
                    Qwen35MetalW8MlpStack3BoundaryRegionV1::pack_with_gdn_core_profile_v1(
                        weights,
                        config,
                        4 * b + 3,
                        behind(b),
                        profile,
                        chains,
                        next,
                    )
                },
                None => Qwen35MetalW8MlpStack3BoundaryRegionV1::pack(
                    weights,
                    config,
                    4 * b + 3,
                    behind(b),
                    chains,
                    next,
                ),
            };
            match packed {
                Ok(region) => boundaries.push(region),
                Err(e) => return Err(e),
            }
            b = b + 1;
        }
        Ok(BoundarySchedule { initial_stack, boundaries })
    }

    /// The transaction of a linear layer and the place in it.
    pub open spec fn slot_of(layer_index: int) -> Option<(Transaction, usize)> {
        if layer_index < 3 {
            Some((Transaction::InitialStack, layer_index as usize))
        } else if layer_index < FINAL_LAYER && layer_index % 4 != 3 {
            Some(
                (Transaction::Boundary((layer_index / 4 - 1) as usize), (layer_index % 4) as usize),
            )
        } else {
            None
        }
    }

    /// The transaction of a linear layer and the place in it.
    pub fn selected_linear_slot(layer_index: usize) -> (r: Option<(Transaction, usize)>)
        ensures
            r == BoundarySchedule::slot_of(layer_index as int),
    {
        if layer_index < 3 {
            Some((Transaction::InitialStack, layer_index))
        } else if layer_index < FINAL_LAYER && layer_index % 4 != 3 {
            Some((Transaction::Boundary(layer_index / 4 - 1), layer_index % 4))
        } else {
            None
        }
    }

    /// The boundary of a full-attention layer.
    pub open spec fn boundary_of(layer_index: int) -> Option<usize> {
        if layer_index < FINAL_LAYER && layer_index % 4 == 3 {
            Some((layer_index / 4) as usize)
        } else {
            None
        }
    }

    /// The boundary of a full-attention layer.
    pub fn boundary_index(layer_index: usize) -> (r: Option<usize>)
        ensures
            r == BoundarySchedule::boundary_of(layer_index as int),
    {
        if layer_index < FINAL_LAYER && layer_index % 4 == 3 {
            Some(layer_index / 4)
        } else {
            None
        }
    }

    /// The custody of a transaction.
    pub open spec fn custody_of(self, transaction: Transaction) -> Stack3Custody {
        match transaction {
            Transaction::InitialStack => self.initial_stack.custody,
            Transaction::Boundary(b) => self.boundaries@[b as int].custody,
        }
    }

    /// The transaction is one of the schedule.
    pub open spec fn has(self, transaction: Transaction) -> bool {
        transaction matches Transaction::Boundary(b) ==> b < self.boundaries@.len()
    }

    /// What is kept, but for the custody and the counters of one transaction.
    pub open spec fn differs_at(self, transaction: Transaction, after: Self) -> bool {
        match transaction {
            Transaction::InitialStack => {
                &&& self.initial_stack.same_build(after.initial_stack)
                &&& after.boundaries == self.boundaries
            },
            Transaction::Boundary(b) => {
                &&& after.initial_stack == self.initial_stack
                &&& after.boundaries@.len() == self.boundaries@.len()
                &&& self.boundaries@[b as int].same_build(after.boundaries@[b as int])
                &&& after.boundaries@ == self.boundaries@.update(
                    b as int,
                    after.boundaries@[b as int],
                )
            },
        }
    }

    /// The counters are the same.
    pub open spec fn same_counters(self, after: Self) -> bool {
        &&& after.initial_stack.counters == self.initial_stack.counters
        &&& forall|b: int|
            0 <= b < self.boundaries@.len() ==> (#[trigger] after.boundaries@[b]).counters
                == self.boundaries@[b].counters
    }

    /// Takes the state that CPU prefill left for a place of a transaction. The
    /// result says whether all three are there.
    pub fn seed(&mut self, transaction: Transaction, place: usize, state: GdnDecodeState) -> (r:
        Result<bool, Error>)
        requires
            old(self).has(transaction),
        ensures
            old(self).differs_at(transaction, *final(self)),
            old(self).same_counters(*final(self)),
            old(self).custody_of(transaction).seeds(
                place,
                state,
                final(self).custody_of(transaction),
            ),
            r == if old(self).custody_of(transaction).refuses(place) {
                Err::<bool, Error>(old(self).custody_of(transaction).owner.invalid_seed(place))
            } else {
                Ok(final(self).custody_of(transaction).is_complete())
            },
    {
        match transaction {
            Transaction::InitialStack => self.initial_stack.custody.seed_layer_after_cpu_prefill(
                place,
                state,
            ),
            Transaction::Boundary(b) => {
                let region = &mut self.boundaries[b];
                region.custody.seed_layer_after_cpu_prefill(place, state)
            },
        }
    }

    /// One of the transactions met an error.
    pub open spec fn terminal(self) -> bool {
        self.initial_stack.custody.terminal_error || exists|b: int|
            0 <= b < self.boundaries@.len()
                && (#[trigger] self.boundaries@[b]).custody.terminal_error
    }

    /// Whether one of the transactions met an error.
    pub fn is_terminal(&self) -> (r: bool)
        ensures
            r == self.terminal(),
    {
        if self.initial_stack.custody.terminal_error {
            return true;
        }
        let mut b: usize = 0;
        while b < self.boundaries.len()
            invariant
                b <= self.boundaries@.len(),
                !self.initial_stack.custody.terminal_error,
                forall|j: int|
                    0 <= j < b ==> !(#[trigger] self.boundaries@[j]).custody.terminal_error,
            decreases self.boundaries@.len() - b,
        {
            if self.boundaries[b].custody.terminal_error {
                return true;
            }
            b = b + 1;
        }
        false
    }

    /// The counters of the boundaries.
    pub open spec fn boundary_stats_of(self) -> Seq<Qwen35MetalW8MlpStack3BoundaryRegionV1Stats> {
        self.boundaries@.map_values(
            |region: Qwen35MetalW8MlpStack3BoundaryRegionV1| region.stats_of(),
        )
    }

    /// The counters of the boundaries.
    pub fn boundary_stats(&self) -> (stats: Vec<Qwen35MetalW8MlpStack3BoundaryRegionV1Stats>)
        ensures
            stats@ == self.boundary_stats_of(),
    {
        let mut stats: Vec<Qwen35MetalW8MlpStack3BoundaryRegionV1Stats> = Vec::new();
        let mut b: usize = 0;
        while b < self.boundaries.len()
            invariant
                b <= self.boundaries@.len(),
                stats@.len() == b,
                forall|j: int| 0 <= j < b ==> #[trigger] stats@[j] == self.boundaries@[j].stats_of(),
            decreases self.boundaries@.len() - b,
        {
            stats.push(self.boundaries[b].stats());
            b = b + 1;
        }
        proof {
            assert(stats@ =~= self.boundary_stats_of());
        }
        stats
    }

    /// The ledgers of the boundaries.
    pub open spec fn boundary_ledgers_of(self) -> Seq<
        Qwen35MetalW8MlpStack3BoundaryRegionBufferLedgerV1,
    > {
        self.boundaries@.map_values(
            |region: Qwen35MetalW8MlpStack3BoundaryRegionV1| region.ledger_of(),
        )
    }

    /// The ledgers of the boundaries.
    pub fn boundary_ledgers(&self) -> (ledgers: Vec<
        Qwen35MetalW8MlpStack3BoundaryRegionBufferLedgerV1,
    >)
        ensures
            ledgers@ == self.boundary_ledgers_of(),
    {
        let mut ledgers: Vec<Qwen35MetalW8MlpStack3BoundaryRegionBufferLedgerV1> = Vec::new();
        let mut b: usize = 0;
        while b < self.boundaries.len()
            invariant
                b <= self.boundaries@.len(),
                ledgers@.len() == b,
                forall|j: int|
                    0 <= j < b ==> #[trigger] ledgers@[j] == self.boundaries@[j].ledger_of(),
            decreases self.boundaries@.len() - b,
        {
            let region = &self.boundaries[b];
            ledgers.push(
                Qwen35MetalW8MlpStack3BoundaryRegionBufferLedgerV1 {
                    boundary_mlp_layer_index: region.boundary_mlp_layer_index,
                    stack_layer_indices: region.stack_layer_indices,
                    ledger: region.ledger,
                },
            );
            b = b + 1;
        }
        proof {
            assert(ledgers@ =~= self.boundary_ledgers_of());
        }
        ledgers
    }

    /// The first boundary from `from` on that the accelerator did not clear.
    pub open spec fn first_uncleared(
        outcomes: Seq<(Result<(), String>, Stack3Counters<MlpStack3BoundaryMetalStatsV1>)>,
        boundaries: nat,
        from: nat,
    ) -> nat
        decreases boundaries - from,
    {
        if from >= boundaries || outcomes[from as int].0 is Err {
            from
        } else {
            BoundarySchedule::first_uncleared(outcomes, boundaries, from + 1)
        }
    }

    /// Every transaction was cleared.
    pub open spec fn all_cleared(self, outcomes: ScheduleResets) -> bool {
        &&& outcomes.initial_stack.0 is Ok
        &&& BoundarySchedule::first_uncleared(
            outcomes.boundaries@,
            self.boundaries@.len(),
            0,
        ) >= self.boundaries@.len()
    }

    /// No transaction holds or counted anything, and no error was met.
    pub open spec fn is_unused(self) -> bool {
        &&& self.initial_stack.custody.is_fresh()
        &&& forall|b: int|
            0 <= b < self.boundaries@.len() ==> (
            #[trigger] self.boundaries@[b]).custody.is_fresh()
    }

    /// The accelerator counted what it answered with.
    pub open spec fn counts(self, outcomes: ScheduleResets) -> bool {
        &&& self.initial_stack.counters == outcomes.initial_stack.1
        &&& forall|b: int|
            0 <= b < self.boundaries@.len() ==> (#[trigger] self.boundaries@[b]).counters
                == outcomes.boundaries@[b].1
    }

    /// What clearing the transactions one after the other leaves: the first
    /// failure ends the reset.
    pub open spec fn resets(self, outcomes: ScheduleResets, after: Self) -> bool {
        let stop = BoundarySchedule::first_uncleared(
            outcomes.boundaries@,
            self.boundaries@.len(),
            0,
        );
        &&& self.initial_stack.same_build(after.initial_stack)
        &&& after.initial_stack.counters == outcomes.initial_stack.1
        &&& self.initial_stack.custody.resets(
            outcomes.initial_stack.0,
            after.initial_stack.custody,
        )
        &&& after.boundaries@.len() == self.boundaries@.len()
        &&& forall|b: int|
            0 <= b < self.boundaries@.len() ==> if outcomes.initial_stack.0 is Err || b > stop {
                #[trigger] after.boundaries@[b] == self.boundaries@[b]
            } else {
                &&& self.boundaries@[b].same_build(after.boundaries@[b])
                &&& after.boundaries@[b].counters == outcomes.boundaries@[b].1
                &&& self.boundaries@[b].custody.resets(
                    outcomes.boundaries@[b].0,
                    after.boundaries@[b].custody,
                )
            }
    }

    /// The error of the first transaction that was not cleared.
    pub open spec fn reset_error(self, outcomes: ScheduleResets) -> Error {
        match outcomes.initial_stack.0 {
            Err(cause) => self.initial_stack.custody.owner.reset(cause),
            Ok(_) => {
                let stop = BoundarySchedule::first_uncleared(
                    outcomes.boundaries@,
                    self.boundaries@.len(),
                    0,
                ) as int;
                self.boundaries@[stop].custody.owner.reset(outcomes.boundaries@[stop].0->Err_0)
            },
        }
    }

    /// Takes the answers of the accelerator to clearing the transactions one
    /// after the other, one for each of them.
    pub fn reset(&mut self, outcomes: ScheduleResets) -> (r: Result<(), Error>)
        requires
            outcomes.boundaries@.len() >= old(self).boundaries@.len(),
        ensures
            old(self).resets(outcomes, *final(self)),
            r == if old(self).all_cleared(outcomes) {
                Ok::<(), Error>(())
            } else {
                Err(old(self).reset_error(outcomes))
            },
    {
        let (outcome, counters) = outcomes.initial_stack;
        let ghost before = *self;
        if let Err(e) = self.initial_stack.reset(outcome, counters) {
            return Err(e);
        }
        let n: usize = self.boundaries.len();
        let ghost given = outcomes.boundaries@;
        let ghost stop = BoundarySchedule::first_uncleared(given, before.boundaries@.len(), 0);
        let ghost first = self.initial_stack;
        let mut rest = outcomes.boundaries;
        let mut i: usize = 0;
        while i < n
            invariant
                i <= n,
                n == before.boundaries@.len(),
                before == *old(self),
                given == outcomes.boundaries@,
                given.len() >= n,
                outcomes.initial_stack.0 is Ok,
                rest@ == given.skip(i as int),
                self.boundaries@.len() == n,
                self.initial_stack == first,
                before.initial_stack.same_build(first),
                first.counters == outcomes.initial_stack.1,
                before.initial_stack.custody.resets(outcomes.initial_stack.0, first.custody),
                stop == BoundarySchedule::first_uncleared(given, n as nat, 0),
                stop == BoundarySchedule::first_uncleared(given, n as nat, i as nat),
                i <= stop,
                forall|b: int|
                    i <= b < n ==> #[trigger] self.boundaries@[b] == before.boundaries@[b],
                forall|b: int|
                    0 <= b < i ==> {
                        &&& before.boundaries@[b].same_build(#[trigger] self.boundaries@[b])
                        &&& self.boundaries@[b].counters == given[b].1
                        &&& before.boundaries@[b].custody.resets(
                            given[b].0,
                            self.boundaries@[b].custody,
                        )
                    },
            decreases n - i,
        {
            let (outcome, counters) = rest.remove(0);
            proof {
                assert((outcome, counters) == given[i as int]);
                assert(rest@ =~= given.skip(i + 1));
                first_uncleared_is_later(given, n as nat, i as nat + 1);
            }
            let region = &mut self.boundaries[i];
            if let Err(e) = region.reset(outcome, counters) {
                return Err(e);
            }
            i = i + 1;
        }
        Ok(())
    }
}

proof fn first_uncleared_is_later(
    outcomes: Seq<(Result<(), String>, Stack3Counters<MlpStack3BoundaryMetalStatsV1>)>,
    boundaries: nat,
    from: nat,
)
    ensures
        from <= BoundarySchedule::first_uncleared(outcomes, boundaries, from),
    decreases boundaries - from,
{
    if from < boundaries && !(outcomes[from as int].0 is Err) {
        first_uncleared_is_later(outcomes, boundaries, from + 1);
    }
}

/// Every layer of the schedule has one owner: the initial stack, a boundary (as
/// its feed-forward layer or in its stack), or the final layer; and each
/// transaction names the layer at that place.
pub proof fn every_layer_has_one_owner(
    schedule: BoundarySchedule,
    config: Qwen35TextConfig,
    layer_index: int,
)
    requires
        schedule.fits(config),
        0 <= layer_index < SCHEDULED_LAYERS,
    ensures
        match BoundarySchedule::slot_of(layer_index) {
            Some((Transaction::InitialStack, place)) => {
                &&& BoundarySchedule::boundary_of(layer_index) is None
                &&& place < 3
                &&& schedule.initial_stack.layer_indices@[place as int] == layer_index
            },
            Some((Transaction::Boundary(b), place)) => {
                &&& BoundarySchedule::boundary_of(layer_index) is None
                &&& place < 3
                &&& b < BOUNDARIES
                &&& schedule.boundaries@[b as int].stack_layer_indices@[place as int]
                    == layer_index
            },
            None => match BoundarySchedule::boundary_of(layer_index) {
                Some(b) => {
                    &&& b < BOUNDARIES
                    &&& schedule.boundaries@[b as int].boundary_mlp_layer_index == layer_index
                },
                None => layer_index == FINAL_LAYER,
            },
        },
{
    if let Some((Transaction::Boundary(b), place)) = BoundarySchedule::slot_of(layer_index) {
        assert(follows(schedule.boundaries@[b as int].stack_layer_indices, b as int));
    }
    if let Some(b) = BoundarySchedule::boundary_of(layer_index) {
        assert(schedule.boundaries@[b as int].boundary_mlp_layer_index == boundary_layer(b as int));
    }
}

/// Counters of the boundary body.
#[derive(Debug, PartialEq, Eq)]
pub struct Qwen35MetalW8MlpStack3BoundaryBodyV1Stats {
    pub mechanism: &'static str,
    pub initial_stack: Qwen35MetalW8LinearLayerStack3V1Stats,
    pub boundaries: Vec<Qwen35MetalW8MlpStack3BoundaryRegionV1Stats>,
    pub final_mlp: Qwen35MetalW8MlpBlockStats,
    pub terminal_error: bool,
}

/// The whole body as transactions, with the last feed-forward block by itself.
#[derive(Debug, PartialEq, Eq)]
pub struct Qwen35MetalW8MlpStack3BoundaryBodyV1 {
    pub schedule: BoundarySchedule,
    pub final_mlp: Qwen35MetalW8MlpBlockLayer,
    pub terminal_error: bool,
}

impl Qwen35MetalW8MlpStack3BoundaryBodyV1 {
    /// What stops the body.
    pub open spec fn fault(
        weights: Qwen35TextWeights,
        config: Qwen35TextConfig,
        schedule: ScheduleAnswers,
        final_mlp: Result<MlpBlockBufferLedger, MlpBuildFailure>,
    ) -> Fault {
        let layers = if weights.layers@.len() == SCHEDULED_LAYERS {
            None
        } else {
            Some(Error::BoundaryWeightLayers { got: weights.layers@.len() as usize }.text())
        };
        schedule_fault(config)
            .or_fault(layers)
            .or_fault(weights_fault(weights, config, 0))
            .or_fault(BoundarySchedule::fault(weights, config, None, schedule))
            .or_fault(Qwen35MetalW8MlpBlockLayer::fault(weights, config, FINAL_LAYER, final_mlp))
    }

    /// The transactions and the final block are those of the schedule.
    pub open spec fn fits(self, config: Qwen35TextConfig) -> bool {
        &&& is_scheduled(config)
        &&& self.schedule.fits(config)
        &&& self.final_mlp.layer_index == FINAL_LAYER
        &&& self.final_mlp.hidden_size == config.hidden_size
    }

    /// The parts are those that the accelerator built, and nothing ran.
    pub open spec fn is_packed(
        self,
        config: Qwen35TextConfig,
        chains: FunctionChains,
        schedule: ScheduleAnswers,
        final_mlp: Result<MlpBlockBufferLedger, MlpBuildFailure>,
    ) -> bool {
        &&& self.fits(config)
        &&& self.schedule.is_built(config, None, chains, schedule)
        &&& final_mlp matches Ok(ledger) && self.final_mlp == Qwen35MetalW8MlpBlockLayer::fresh(
            FINAL_LAYER,
            config.hidden_size,
            ledger,
        )
        &&& !self.terminal_error
    }

    /// Takes the transactions that the accelerator was asked to build.
    pub fn pack(
        weights: &Qwen35TextWeights,
        config: &Qwen35TextConfig,
        chains: FunctionChains,
        schedule: ScheduleAnswers,
        final_mlp: Result<MlpBlockBufferLedger, MlpBuildFailure>,
    ) -> (r: Result<Qwen35MetalW8MlpStack3BoundaryBodyV1, Error>)
        requires
            config.widths_fit(),
            schedule.boundaries@.len() >= BOUNDARIES,
        ensures
            answers(
                r,
                Qwen35MetalW8MlpStack3BoundaryBodyV1::fault(
                    *weights,
                    *config,
                    schedule,
                    final_mlp,
                ),
            ),
            r matches Ok(body) ==> body.is_packed(*config, chains, schedule, final_mlp),
    {
        if let Err(e) = validate_config_schedule(config) {
            return Err(e);
        }
        let layers: usize = weights.layers.len();
        if layers != SCHEDULED_LAYERS {
            return Err(Error::BoundaryWeightLayers { got: layers });
        }
        if let Err(e) = check_weights(weights, config) {
            return Err(e);
        }
        let schedule = match BoundarySchedule::pack(weights, config, None, chains, schedule) {
            Ok(schedule) => schedule,
            Err(e) => return Err(e),
        };
        let final_mlp = match Qwen35MetalW8MlpBlockLayer::pack(
            weights,
            config,
            FINAL_LAYER,
            final_mlp,
        ) {
            Ok(block) => block,
            Err(e) => return Err(e),
        };
        Ok(Qwen35MetalW8MlpStack3BoundaryBodyV1 { schedule, final_mlp, terminal_error: false })
    }

    /// The counters.
    pub fn stats(&self) -> (r: Qwen35MetalW8MlpStack3BoundaryBodyV1Stats)
        ensures
            r.mechanism == "metal-w8-mlp-stack3-boundary-body-v1",
            r.initial_stack == self.schedule.initial_stack.stats_of(),
            r.boundaries@ == self.schedule.boundary_stats_of(),
            r.final_mlp == self.final_mlp.stats_of(),
            r.terminal_error == self.terminal(),
    {
        Qwen35MetalW8MlpStack3BoundaryBodyV1Stats {
            mechanism: "metal-w8-mlp-stack3-boundary-body-v1",
            initial_stack: self.schedule.initial_stack.stats(),
            boundaries: self.schedule.boundary_stats(),
            final_mlp: self.final_mlp.stats(),
            terminal_error: self.is_terminal(),
        }
    }

    /// The body, or one of its transactions, met an error.
    pub open spec fn terminal(self) -> bool {
        self.terminal_error || self.schedule.terminal()
    }

    /// Whether the body, or one of its transactions, met an error.
    pub fn is_terminal(&self) -> (r: bool)
        ensures
            r == self.terminal(),
    {
        self.terminal_error || self.schedule.is_terminal()
    }

    /// Makes the body terminal.
    pub fn latch_terminal(&mut self)
        ensures
            *final(self) == (Qwen35MetalW8MlpStack3BoundaryBodyV1 {
                terminal_error: true,
                ..*old(self)
            }),
    {
        self.terminal_error = true;
    }

    /// What clearing the transactions leaves.
    pub open spec fn resets(self, outcomes: ScheduleResets, after: Self) -> bool {
        &&& self.schedule.resets(outcomes, after.schedule)
        &&& after.terminal_error == !self.schedule.all_cleared(outcomes)
        &&& after.final_mlp == if self.schedule.all_cleared(outcomes) {
            Qwen35MetalW8MlpBlockLayer::fresh(
                self.final_mlp.layer_index,
                self.final_mlp.hidden_size,
                self.final_mlp.ledger,
            )
        } else {
            self.final_mlp
        }
    }

    /// Takes the answers of the accelerator to clearing the transactions.
    pub fn reset(&mut self, outcomes: ScheduleResets) -> (r: Result<(), Error>)
        requires
            outcomes.boundaries@.len() >= old(self).schedule.boundaries@.len(),
        ensures
            old(self).resets(outcomes, *final(self)),
            r == if old(self).schedule.all_cleared(outcomes) {
                Ok::<(), Error>(())
            } else {
                Err(old(self).schedule.reset_error(outcomes))
            },
    {
        if let Err(e) = self.schedule.reset(outcomes) {
            self.terminal_error = true;
            return Err(e);
        }
        self.final_mlp.reset_stats();
        self.terminal_error = false;
        Ok(())
    }

    /// The ledger entry of the final block.
    pub open spec fn final_ledger(self) -> Qwen35MetalW8MlpBlockBufferLedger {
        Qwen35MetalW8MlpBlockBufferLedger {
            layer_index: self.final_mlp.layer_index,
            ledger: self.final_mlp.ledger,
        }
    }

    /// The totals of the transactions and the final block.
    pub fn aggregate_ledger(&self) -> (r: Result<
        Qwen35MetalW8MlpStack3BoundaryBodyV1AggregateLedger,
        Error,
    >)
        ensures
            answers(
                r,
                Qwen35MetalW8MlpStack3BoundaryBodyV1AggregateLedger::fault(
                    self.schedule.initial_stack.ledger_of(),
                    self.schedule.boundary_ledgers_of(),
                    self.final_ledger(),
                ),
            ),
            r matches Ok(ledger) ==> {
                &&& ledger.initial_stack == self.schedule.initial_stack.ledger_of()
                &&& ledger.boundaries@ == self.schedule.boundary_ledgers_of()
                &&& ledger.final_mlp == self.final_ledger()
                &&& ledger.adds_up()
            },
    {
        Qwen35MetalW8MlpStack3BoundaryBodyV1AggregateLedger::new(
            self.schedule.initial_stack.buffer_ledger(),
            self.schedule.boundary_ledgers(),
            Qwen35MetalW8MlpBlockBufferLedger {
                layer_index: self.final_mlp.layer_index,
                ledger: self.final_mlp.ledger,
            },
        )
    }
}

} // verus!
