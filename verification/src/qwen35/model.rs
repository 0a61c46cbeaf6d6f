//! A model: its configuration, packed weights, stream state and accelerated
//! parts, and how each route builds it.
//!
//! Building and running blocks of an accelerator is outside of the library. The
//! caller builds them from the loaded weights and hands in what the accelerator
//! answered; the library decides whether the model is there.

use vstd::prelude::*;

use crate::error::{answers, either, Error, Fault, FaultOrder};
use crate::names::NameMap;
use crate::qwen35::boundary_lane::{
    schedule_fault, validate_config_schedule, Qwen35MetalW8MlpStack3BoundaryBodyV1,
    ScheduleAnswers, BOUNDARIES,
};
use crate::qwen35::config::{Qwen35Config, Qwen35TextConfig};
use crate::qwen35::lane::Lane;
use crate::qwen35::layers::{
    all_layers, every_layer, full_attention_layers, full_layers, run_starts, scan_stack_runs,
    stack_runs_fault, ALL_STACKS_ROUTE, STACKS_AND_HEAD_ROUTE,
};
use crate::qwen35::linear_lane::{
    GdnBuildFailure, LinearLayerBuildFailure, LinearLayerBuilt,
    Qwen35MetalW8AllLinearLayersPrecisionV2, Qwen35MetalW8GdnLayer, Qwen35MetalW8LinearLayer,
    Qwen35PackedW8LinearLayerReference, ReferenceBuildFailure,
};
use crate::qwen35::loader::{
    is_load_error, tensors_are_valid, text_loaded, Qwen35TextWeights,
};
use crate::qwen35::metal::{
    FunctionChains, GdnCoreProfileV1, GdnMetalStats, LinearLayerQuantizationLedger,
    LmHeadBufferLedger, MlpBlockBufferLedger,
};
use crate::qwen35::mlp_lane::{
    body_layers_fault, empty_fault, mlp_blocks_fault, selection_fault, MlpBuildFailure,
    Qwen35MetalW8Body, Qwen35MetalW8BodyLayer, Qwen35MetalW8MlpBlockLayer, Qwen35MetalW8MlpBlocks,
    Selection,
};
use crate::qwen35::profile::{
    Qwen35MetalW8LinearLayerPrecisionProfile, Qwen35PackedW8LinearLayerReferenceProfile,
};
use crate::qwen35::runtime::RuntimeWeights;
use crate::qwen35::stack_lane::{Stack3BuildFailure, Stack3Built};
use crate::qwen35::stacks_lane::Qwen35MetalW8LinearLayerStacksV1;
use crate::qwen35::state::Qwen35HybridState;
use crate::qwen35::tail_lane::{
    tail_profile_fault, validate_tail_profile, Qwen35MetalW8MlpStack3BoundaryTailHeadV1,
    TailBuildFailure, TailBuilt,
};
use crate::qwen35::w8_pack::dimensions_of;
use crate::tensor::{Device, Tensor};

verus! {

/// Counters of the accelerated head.
#[derive(Clone, Copy, Debug, PartialEq, Eq, Structural)]
pub struct Qwen35MetalW8LmHeadStats {
    pub prefill_calls: usize,
    pub decode_calls: usize,
    pub teacher_calls: usize,
    pub topk_elapsed_ns: u128,
    pub rerank_elapsed_ns: u128,
}

impl Default for Qwen35MetalW8LmHeadStats {
    /// Nothing was counted.
    fn default() -> (stats: Qwen35MetalW8LmHeadStats)
        ensures
            stats == no_head_calls(),
    {
        Qwen35MetalW8LmHeadStats {
            prefill_calls: 0,
            decode_calls: 0,
            teacher_calls: 0,
            topk_elapsed_ns: 0,
            rerank_elapsed_ns: 0,
        }
    }
}

/// The counters of a head that was not called.
pub open spec fn no_head_calls() -> Qwen35MetalW8LmHeadStats {
    Qwen35MetalW8LmHeadStats {
        prefill_calls: 0,
        decode_calls: 0,
        teacher_calls: 0,
        topk_elapsed_ns: 0,
        rerank_elapsed_ns: 0,
    }
}

/// The accelerated head that picks the four best tokens.
#[derive(Clone, Copy, Debug, PartialEq, Eq, Structural)]
pub struct LmHead {
    pub stats: Qwen35MetalW8LmHeadStats,
    pub ledger: LmHeadBufferLedger,
}

/// Selected layers, with the answers of the accelerator for all layers.
#[derive(Debug, PartialEq, Eq)]
pub struct LayerRequest<A> {
    pub layers: Vec<usize>,
    pub answers: Vec<A>,
}

impl<A> LayerRequest<A> {
    /// The selected layers and the answers.
    pub open spec fn request(self) -> (Seq<usize>, Seq<A>) {
        (self.layers@, self.answers@)
    }
}

/// A text model with the state of one stream.
#[derive(Debug)]
pub struct GeneralQwen35 {
    pub config: Qwen35Config,
    pub weights: RuntimeWeights,
    pub state: Qwen35HybridState,
    pub head: Option<LmHead>,
    pub body: Option<Qwen35MetalW8Body>,
    pub mlp_blocks: Option<Qwen35MetalW8MlpBlocks>,
    pub lane: Lane,
    /// Set on the route of stacks with the head: whether a step behind the body
    /// has failed since the last reset.
    pub stack3_head_terminal: Option<bool>,
}

/// The full-attention layers of a model.
pub open spec fn full_layers_of(text: Qwen35TextConfig) -> Seq<usize> {
    full_layers(text.layer_types@, text.layer_types@.len())
}

/// The full-attention layers with the answers for their feed-forward blocks, if
/// there is such a layer.
pub open spec fn full_blocks<A>(text: Qwen35TextConfig, answers: Seq<A>) -> Option<
    (Seq<usize>, Seq<A>),
> {
    if full_layers_of(text).len() == 0 {
        None
    } else {
        Some((full_layers_of(text), answers))
    }
}

/// All layers with the answers for their feed-forward blocks, if there are any.
pub open spec fn every_block<A>(text: Qwen35TextConfig, answers: Option<Vec<A>>) -> Option<
    (Seq<usize>, Seq<A>),
> {
    match answers {
        Some(answers) => Some((all_layers(text.n_layers as nat), answers@)),
        None => None,
    }
}

/// The tail was asked for with untied embeddings.
pub open spec fn untied_fault(text: Qwen35TextConfig) -> Fault {
    if text.tie_word_embeddings {
        None
    } else {
        Some(Error::TailHeadUntied.text())
    }
}

/// What stops the lane with the tail before any weights are looked at.
pub open spec fn tail_config_fault(text: Qwen35TextConfig, profile: GdnCoreProfileV1) -> Fault {
    tail_profile_fault(text, profile)
        .or_fault(untied_fault(text))
        .or_fault(schedule_fault(text))
}

/// Checks whether a model can have the lane with the tail under a profile. To be
/// asked before its checkpoint is taken apart.
pub fn validate_tail_config(text: &Qwen35TextConfig, profile: GdnCoreProfileV1) -> (r: Result<
    (),
    Error,
>)
    ensures
        answers(r, tail_config_fault(*text, profile)),
{
    if let Err(e) = validate_tail_profile(text, profile) {
        return Err(e);
    }
    if !text.tie_word_embeddings {
        return Err(Error::TailHeadUntied);
    }
    validate_config_schedule(text)
}

/// What stops the selected gate and up projections.
pub open spec fn body_fault(
    weights: Qwen35TextWeights,
    config: Qwen35TextConfig,
    request: Option<(Seq<usize>, Seq<Result<(), String>>)>,
) -> Fault {
    match request {
        None => None,
        Some((layers, built)) => if layers.len() == 0 {
            empty_fault(Selection::Body)
        } else {
            either(
                selection_fault(Selection::Body, layers, weights.layers@.len() as usize, 0),
                body_layers_fault(weights, config, layers, built, 0),
            )
        },
    }
}

/// What stops the selected feed-forward blocks.
pub open spec fn mlp_fault(
    weights: Qwen35TextWeights,
    config: Qwen35TextConfig,
    request: Option<(Seq<usize>, Seq<Result<MlpBlockBufferLedger, MlpBuildFailure>>)>,
) -> Fault {
    match request {
        None => None,
        Some((layers, built)) => if layers.len() == 0 {
            empty_fault(Selection::MlpBlock)
        } else {
            either(
                selection_fault(Selection::MlpBlock, layers, weights.layers@.len() as usize, 0),
                mlp_blocks_fault(weights, config, layers, built, 0),
            )
        },
    }
}

/// What stops the accelerated head.
pub open spec fn head_fault(
    weights: Qwen35TextWeights,
    config: Qwen35TextConfig,
    head: Option<Result<LmHeadBufferLedger, String>>,
) -> Fault {
    match head {
        None => None,
        Some(answer) => if !config.tie_word_embeddings || weights.lm_head_weight is Some {
            Some(Error::LmHeadUntied.text())
        } else {
            match answer {
                Err(cause) => Some(Error::LmHeadBuild { cause }.text()),
                Ok(_) => None,
            }
        },
    }
}

/// What stops a model, apart from its lane.
pub open spec fn model_fault(
    config: Qwen35Config,
    weights: Qwen35TextWeights,
    device: Device,
    max_context: usize,
    head: Option<Result<LmHeadBufferLedger, String>>,
    body: Option<(Seq<usize>, Seq<Result<(), String>>)>,
    mlp_blocks: Option<(Seq<usize>, Seq<Result<MlpBlockBufferLedger, MlpBuildFailure>>)>,
) -> Fault {
    let place = if device == Device::Cpu {
        None
    } else {
        Some(Error::CpuOnly.text())
    };
    let layers = if weights.layers@.len() == config.text.n_layers {
        None
    } else {
        Some(
            Error::WeightLayers {
                got: weights.layers@.len() as usize,
                expected: config.text.n_layers,
            }.text(),
        )
    };
    let context = if max_context == 0 {
        Some(Error::ZeroContext.text())
    } else {
        None
    };
    config.text.validity_fault()
        .or_fault(place)
        .or_fault(layers)
        .or_fault(body_fault(weights, config.text, body))
        .or_fault(mlp_fault(weights, config.text, mlp_blocks))
        .or_fault(RuntimeWeights::fault(weights, config.text))
        .or_fault(head_fault(weights, config.text, head))
        .or_fault(context)
}

impl GeneralQwen35 {
    /// The parts of the model fit each other.
    pub open spec fn wf(self) -> bool {
        let text = self.config.text;
        &&& text.is_valid()
        &&& self.weights.layers@.len() == text.n_layers
        &&& forall|i: int|
            0 <= i < text.n_layers ==> (#[trigger] self.weights.layers@[i]).attention.kind()
                == text.layer_types@[i]
        &&& self.state.fits(text.layer_types@)
        &&& self.lane.fits(text)
        &&& self.body is Some ==> {
            &&& self.body->Some_0.layers@.len() == text.n_layers
            &&& forall|i: int|
                0 <= i < text.n_layers && (#[trigger] self.body->Some_0.layers@[i]) is Some
                    ==> self.body->Some_0.layers@[i]->Some_0.layer_index == i
                    && self.body->Some_0.layers@[i]->Some_0.columns == text.hidden_size
        }
        &&& self.mlp_blocks is Some ==> {
            &&& self.mlp_blocks->Some_0.layers@.len() == text.n_layers
            &&& forall|i: int|
                0 <= i < text.n_layers && (#[trigger] self.mlp_blocks->Some_0.layers@[i]) is Some
                    ==> self.mlp_blocks->Some_0.layers@[i]->Some_0.layer_index == i
                    && self.mlp_blocks->Some_0.layers@[i]->Some_0.hidden_size == text.hidden_size
        }
        &&& self.stack3_head_terminal is Some ==> self.lane is Stacks && self.head is Some
    }

    /// The model is the one that was built from the weights, and nothing ran.
    pub open spec fn is_built(
        self,
        config: Qwen35Config,
        weights: Qwen35TextWeights,
        max_context: usize,
        head: Option<Result<LmHeadBufferLedger, String>>,
        body: Option<(Seq<usize>, Seq<Result<(), String>>)>,
        mlp_blocks: Option<(Seq<usize>, Seq<Result<MlpBlockBufferLedger, MlpBuildFailure>>)>,
    ) -> bool {
        &&& self.wf()
        &&& self.config == config
        &&& self.weights.packs(weights, config.text)
        &&& self.state.is_fresh()
        &&& self.state.max_context == if max_context <= config.text.max_position_embeddings {
            max_context
        } else {
            config.text.max_position_embeddings
        }
        &&& match head {
            Some(Ok(ledger)) => self.head == Some(LmHead { stats: no_head_calls(), ledger }),
            _ => self.head is None && head is None,
        }
        &&& (self.body is Some) == (body is Some)
        &&& body matches Some((layers, _)) ==> forall|i: int|
            0 <= i < config.text.n_layers ==> #[trigger] self.body->Some_0.layers@[i]
                == if layers.contains(i as usize) {
                Some(Qwen35MetalW8BodyLayer::fresh(i as usize, config.text.hidden_size))
            } else {
                None
            }
        &&& (self.mlp_blocks is Some) == (mlp_blocks is Some)
        &&& mlp_blocks matches Some((layers, built)) ==> forall|i: int|
            0 <= i < config.text.n_layers ==> #[trigger] self.mlp_blocks->Some_0.layers@[i]
                == if layers.contains(i as usize) && built[i] is Ok {
                Some(
                    Qwen35MetalW8MlpBlockLayer::fresh(
                        i as usize,
                        config.text.hidden_size,
                        built[i]->Ok_0,
                    ),
                )
            } else {
                None
            }
    }

    /// Builds a model without a lane. There is one answer of the accelerator for
    /// each layer of a request.
    pub fn new_with_metal_options(
        config: Qwen35Config,
        weights: Qwen35TextWeights,
        device: Device,
        max_context: usize,
        head: Option<Result<LmHeadBufferLedger, String>>,
        body: Option<LayerRequest<Result<(), String>>>,
        mlp_blocks: Option<LayerRequest<Result<MlpBlockBufferLedger, MlpBuildFailure>>>,
    ) -> (r: Result<GeneralQwen35, Error>)
        requires
            body matches Some(request) ==> request.answers@.len() >= weights.layers@.len(),
            mlp_blocks matches Some(request) ==> request.answers@.len() >= weights.layers@.len(),
        ensures
            ({
                let body = match body {
                    Some(request) => Some(request.request()),
                    None => None,
                };
                let mlp_blocks = match mlp_blocks {
                    Some(request) => Some(request.request()),
                    None => None,
                };
                &&& answers(
                    r,
                    model_fault(config, weights, device, max_context, head, body, mlp_blocks),
                )
                &&& r matches Ok(model) ==> {
                    &&& model.is_built(config, weights, max_context, head, body, mlp_blocks)
                    &&& model.lane == Lane::Cpu
                    &&& model.stack3_head_terminal is None
                }
            }),
    {
        if let Err(e) = config.text.validate() {
            return Err(e);
        }
        if device != Device::Cpu {
            return Err(Error::CpuOnly);
        }
        let layers: usize = weights.layers.len();
        if layers != config.text.n_layers {
            return Err(Error::WeightLayers { got: layers, expected: config.text.n_layers });
        }
        let body = match body {
            None => None,
            Some(request) => match Qwen35MetalW8Body::pack(
                &weights,
                &config.text,
                request.layers.as_slice(),
                request.answers,
            ) {
                Ok(body) => Some(body),
                Err(e) => return Err(e),
            },
        };
        let mlp_blocks = match mlp_blocks {
            None => None,
            Some(request) => match Qwen35MetalW8MlpBlocks::pack(
                &weights,
                &config.text,
                request.layers.as_slice(),
                request.answers,
            ) {
                Ok(blocks) => Some(blocks),
                Err(e) => return Err(e),
            },
        };
        let runtime = match RuntimeWeights::pack(weights, &config.text) {
            Ok(runtime) => runtime,
            Err(e) => return Err(e),
        };
        let head = match head {
            None => None,
            Some(answer) => {
                if !config.text.tie_word_embeddings || runtime.lm_head.is_some() {
                    return Err(Error::LmHeadUntied);
                }
                match answer {
                    Err(cause) => return Err(Error::LmHeadBuild { cause }),
                    Ok(ledger) => Some(
                        LmHead { stats: Qwen35MetalW8LmHeadStats::default(), ledger },
                    ),
                }
            },
        };
        let state = match Qwen35HybridState::new(&config.text, max_context) {
            Ok(state) => state,
            Err(e) => return Err(e),
        };
        Ok(
            GeneralQwen35 {
                config,
                weights: runtime,
                state,
                head,
                body,
                mlp_blocks,
                lane: Lane::Cpu,
                stack3_head_terminal: None,
            },
        )
    }

    /// Builds a model that runs on the CPU alone.
    pub fn new(
        config: Qwen35Config,
        weights: Qwen35TextWeights,
        device: Device,
        max_context: usize,
    ) -> (r: Result<GeneralQwen35, Error>)
        ensures
            answers(r, model_fault(config, weights, device, max_context, None, None, None)),
            r matches Ok(model) ==> {
                &&& model.is_built(config, weights, max_context, None, None, None)
                &&& model.lane == Lane::Cpu
                &&& model.stack3_head_terminal is None
            },
    {
        GeneralQwen35::new_with_metal_options(
            config,
            weights,
            device,
            max_context,
            None,
            None,
            None,
        )
    }

    /// Builds a model that runs on the CPU alone from the tensors of a
    /// checkpoint.
    pub fn from_weights(
        config: Qwen35Config,
        tensors: NameMap<Tensor>,
        device: Device,
        max_context: usize,
    ) -> (r: Result<GeneralQwen35, Error>)
        ensures
            match r {
                Ok(model) => exists|weights: Qwen35TextWeights|
                    {
                        &&& #[trigger] text_loaded(tensors@, config.text, weights)
                        &&& tensors_are_valid(config.text, tensors@)
                        &&& model_fault(
                            config,
                            weights,
                            device,
                            max_context,
                            None,
                            None,
                            None,
                        ) is None
                        &&& model.is_built(config, weights, max_context, None, None, None)
                        &&& model.lane == Lane::Cpu
                        &&& model.stack3_head_terminal is None
                    },
                Err(e) => {
                    ||| is_load_error(config.text, tensors@, e)
                    ||| exists|weights: Qwen35TextWeights|
                        {
                            &&& #[trigger] text_loaded(tensors@, config.text, weights)
                            &&& tensors_are_valid(config.text, tensors@)
                            &&& model_fault(
                                config,
                                weights,
                                device,
                                max_context,
                                None,
                                None,
                                None,
                            ) == Some(e.text())
                        }
                },
            },
    {
        let ghost all = tensors@;
        let weights = match Qwen35TextWeights::from_map(&config, tensors) {
            Ok(weights) => weights,
            Err(e) => return Err(e),
        };
        let ghost loaded = weights;
        proof {
            assert(text_loaded(all, config.text, loaded));
        }
        GeneralQwen35::new(config, weights, device, max_context)
    }

    /// Builds a model with the accelerated head.
    pub fn from_weights_with_metal_w8(
        config: Qwen35Config,
        weights: Qwen35TextWeights,
        device: Device,
        max_context: usize,
        head: Result<LmHeadBufferLedger, String>,
    ) -> (r: Result<GeneralQwen35, Error>)
        ensures
            answers(r, model_fault(config, weights, device, max_context, Some(head), None, None)),
            r matches Ok(model) ==> {
                &&& model.is_built(config, weights, max_context, Some(head), None, None)
                &&& model.lane == Lane::Cpu
                &&& model.stack3_head_terminal == None::<bool>
            },
    {
        GeneralQwen35::new_with_metal_options(
            config,
            weights,
            device,
            max_context,
            Some(head),
            None,
            None,
        )
    }

    /// Builds a model with one accelerated recurrent block.
    pub fn from_weights_with_metal_w8_gdn_layer(
        config: Qwen35Config,
        weights: Qwen35TextWeights,
        device: Device,
        max_context: usize,
        layer_index: usize,
        answer: Result<GdnMetalStats, GdnBuildFailure>,
    ) -> (r: Result<GeneralQwen35, Error>)
        ensures
            answers(
                r,
                config.text.validity_fault()
                    .or_fault(
                        Qwen35MetalW8GdnLayer::fault(weights, config.text, layer_index, answer),
                    )
                    .or_fault(model_fault(config, weights, device, max_context, None, None, None)),
            ),
            r matches Ok(model) ==> {
                &&& model.is_built(config, weights, max_context, None, None, None)
                &&& model.lane matches Lane::Gdn(lane) && answer matches Ok(execution) && lane == (
                    Qwen35MetalW8GdnLayer {
                        layer_index,
                        dimensions: dimensions_of(config.text),
                        prefill_seed_calls: 0,
                        block_elapsed_ns: 0,
                        execution,
                    }
                )
                &&& model.stack3_head_terminal == None::<bool>
            },
    {
        if let Err(e) = config.text.validate() {
            return Err(e);
        }
        let lane = match Qwen35MetalW8GdnLayer::pack(&weights, &config.text, layer_index, answer) {
            Ok(lane) => lane,
            Err(e) => return Err(e),
        };
        match GeneralQwen35::new_with_metal_options(
            config,
            weights,
            device,
            max_context,
            None,
            None,
            None,
        ) {
            Ok(model) => {
                let mut model = model;
                model.lane = Lane::Gdn(lane);
                Ok(model)
            },
            Err(e) => Err(e),
        }
    }

    /// Builds a model with one accelerated complete linear layer.
    pub fn from_weights_with_metal_w8_linear_layer(
        config: Qwen35Config,
        weights: Qwen35TextWeights,
        device: Device,
        max_context: usize,
        layer_index: usize,
        answer: Result<LinearLayerBuilt, LinearLayerBuildFailure>,
    ) -> (r: Result<GeneralQwen35, Error>)
        ensures
            answers(
                r,
                config.text.validity_fault()
                    .or_fault(
                        Qwen35MetalW8LinearLayer::fault(
                            weights,
                            config.text,
                            layer_index,
                            false,
                            answer,
                        ),
                    )
                    .or_fault(model_fault(config, weights, device, max_context, None, None, None)),
            ),
            r matches Ok(model) ==> {
                &&& model.is_built(config, weights, max_context, None, None, None)
                &&& answer is Ok
                &&& model.lane == Lane::LinearLayer(
                    Qwen35MetalW8LinearLayer::fresh(
                        layer_index,
                        config.text,
                        None,
                        answer->Ok_0,
                    ),
                )
                &&& model.stack3_head_terminal == None::<bool>
            },
    {
        if let Err(e) = config.text.validate() {
            return Err(e);
        }
        let lane = match Qwen35MetalW8LinearLayer::pack(
            &weights,
            &config.text,
            layer_index,
            answer,
        ) {
            Ok(lane) => lane,
            Err(e) => return Err(e),
        };
        match GeneralQwen35::new_with_metal_options(
            config,
            weights,
            device,
            max_context,
            None,
            None,
            None,
        ) {
            Ok(model) => {
                let mut model = model;
                model.lane = Lane::LinearLayer(lane);
                Ok(model)
            },
            Err(e) => Err(e),
        }
    }

    /// Builds a model with one accelerated complete linear layer of finer groups.
    pub fn from_weights_with_metal_w8_linear_layer_precision_v2(
        config: Qwen35Config,
        weights: Qwen35TextWeights,
        device: Device,
        max_context: usize,
        layer_index: usize,
        profile: Qwen35MetalW8LinearLayerPrecisionProfile,
        answer: Result<LinearLayerBuilt, LinearLayerBuildFailure>,
    ) -> (r: Result<GeneralQwen35, Error>)
        ensures
            answers(
                r,
                config.text.validity_fault()
                    .or_fault(
                        Qwen35MetalW8LinearLayer::fault(
                            weights,
                            config.text,
                            layer_index,
                            true,
                            answer,
                        ),
                    )
                    .or_fault(model_fault(config, weights, device, max_context, None, None, None)),
            ),
            r matches Ok(model) ==> {
                &&& model.is_built(config, weights, max_context, None, None, None)
                &&& answer is Ok
                &&& model.lane == Lane::LinearLayer(
                    Qwen35MetalW8LinearLayer::fresh(
                        layer_index,
                        config.text,
                        Some(profile),
                        answer->Ok_0,
                    ),
                )
                &&& model.stack3_head_terminal == None::<bool>
            },
    {
        if let Err(e) = config.text.validate() {
            return Err(e);
        }
        let lane = match Qwen35MetalW8LinearLayer::pack_precision_v2(
            &weights,
            &config.text,
            layer_index,
            profile,
            answer,
        ) {
            Ok(lane) => lane,
            Err(e) => return Err(e),
        };
        match GeneralQwen35::new_with_metal_options(
            config,
            weights,
            device,
            max_context,
            None,
            None,
            None,
        ) {
            Ok(model) => {
                let mut model = model;
                model.lane = Lane::LinearLayer(lane);
                Ok(model)
            },
            Err(e) => Err(e),
        }
    }

    /// Builds a model whose linear layers are all accelerated, each by itself. The
    /// full-attention layers get accelerated feed-forward blocks, so that no
    /// feed-forward block runs twice.
    pub fn from_weights_with_metal_w8_all_linear_layers_precision_v2(
        config: Qwen35Config,
        weights: Qwen35TextWeights,
        device: Device,
        max_context: usize,
        profile: Qwen35MetalW8LinearLayerPrecisionProfile,
        built: Vec<Result<LinearLayerBuilt, LinearLayerBuildFailure>>,
        mlp_answers: Vec<Result<MlpBlockBufferLedger, MlpBuildFailure>>,
    ) -> (r: Result<GeneralQwen35, Error>)
        requires
            built@.len() >= config.text.n_layers,
            mlp_answers@.len() >= weights.layers@.len(),
        ensures
            answers(
                r,
                config.text.validity_fault()
                    .or_fault(
                        Qwen35MetalW8AllLinearLayersPrecisionV2::fault(
                            weights,
                            config.text,
                            built@,
                        ),
                    )
                    .or_fault(
                        model_fault(
                            config,
                            weights,
                            device,
                            max_context,
                            None,
                            None,
                            full_blocks(config.text, mlp_answers@),
                        ),
                    ),
            ),
            r matches Ok(model) ==> {
                &&& model.is_built(
                    config,
                    weights,
                    max_context,
                    None,
                    None,
                    full_blocks(config.text, mlp_answers@),
                )
                &&& model.lane matches Lane::AllLinear(lane) && lane.is_packed(
                    config.text,
                    profile,
                    built@,
                )
                &&& model.stack3_head_terminal == None::<bool>
            },
    {
        let full = full_attention_layers(&config.text.layer_types);
        if let Err(e) = config.text.validate() {
            return Err(e);
        }
        let lane = match Qwen35MetalW8AllLinearLayersPrecisionV2::pack(
            &weights,
            &config.text,
            profile,
            built,
        ) {
            Ok(lane) => lane,
            Err(e) => return Err(e),
        };
        let request = if full.len() == 0 {
            None
        } else {
            Some(LayerRequest { layers: full, answers: mlp_answers })
        };
        match GeneralQwen35::new_with_metal_options(
            config,
            weights,
            device,
            max_context,
            None,
            None,
            request,
        ) {
            Ok(model) => {
                let mut model = model;
                model.lane = Lane::AllLinear(lane);
                Ok(model)
            },
            Err(e) => Err(e),
        }
    }

    /// Builds a model with one accelerated stack of three linear layers.
    pub fn from_weights_with_metal_w8_linear_layer_stack3_v1(
        config: Qwen35Config,
        weights: Qwen35TextWeights,
        device: Device,
        max_context: usize,
        first_layer_index: usize,
        chains: FunctionChains,
        built: Vec<Result<Stack3Built, Stack3BuildFailure>>,
    ) -> (r: Result<GeneralQwen35, Error>)
        requires
            built@.len() >= 1,
        ensures
            answers(
                r,
                config.text.validity_fault()
                    .or_fault(
                        Qwen35MetalW8LinearLayerStacksV1::fault(
                            weights,
                            config.text,
                            seq![first_layer_index],
                            built@,
                        ),
                    )
                    .or_fault(model_fault(config, weights, device, max_context, None, None, None)),
            ),
            r matches Ok(model) ==> {
                &&& model.is_built(config, weights, max_context, None, None, None)
                &&& model.lane matches Lane::Stacks(lane) && lane.is_packed(
                    config.text,
                    seq![first_layer_index],
                    false,
                    chains,
                    built@,
                )
                &&& model.stack3_head_terminal == None::<bool>
            },
    {
        let firsts: [usize; 1] = [first_layer_index];
        proof {
            assert(firsts@ =~= seq![first_layer_index]);
        }
        if let Err(e) = config.text.validate() {
            return Err(e);
        }
        let lane = match Qwen35MetalW8LinearLayerStacksV1::pack(
            &weights,
            &config.text,
            firsts.as_slice(),
            false,
            chains,
            built,
        ) {
            Ok(lane) => lane,
            Err(e) => return Err(e),
        };
        match GeneralQwen35::new_with_metal_options(
            config,
            weights,
            device,
            max_context,
            None,
            None,
            None,
        ) {
            Ok(model) => {
                let mut model = model;
                model.lane = Lane::Stacks(lane);
                Ok(model)
            },
            Err(e) => Err(e),
        }
    }

    /// Builds a model whose linear layers all run in stacks of three. The
    /// full-attention layers get accelerated feed-forward blocks.
    pub fn from_weights_with_metal_w8_all_linear_layer_stacks_v1(
        config: Qwen35Config,
        weights: Qwen35TextWeights,
        device: Device,
        max_context: usize,
        chains: FunctionChains,
        built: Vec<Result<Stack3Built, Stack3BuildFailure>>,
        mlp_answers: Vec<Result<MlpBlockBufferLedger, MlpBuildFailure>>,
    ) -> (r: Result<GeneralQwen35, Error>)
        requires
            built@.len() >= run_starts(config.text.layer_types@, 0).len(),
            mlp_answers@.len() >= weights.layers@.len(),
        ensures
            answers(
                r,
                stack_runs_fault(config.text.layer_types@, ALL_STACKS_ROUTE)
                    .or_fault(config.text.validity_fault())
                    .or_fault(
                        Qwen35MetalW8LinearLayerStacksV1::fault(
                            weights,
                            config.text,
                            run_starts(config.text.layer_types@, 0),
                            built@,
                        ),
                    )
                    .or_fault(
                        model_fault(
                            config,
                            weights,
                            device,
                            max_context,
                            None,
                            None,
                            Some((full_layers_of(config.text), mlp_answers@)),
                        ),
                    ),
            ),
            r matches Ok(model) ==> {
                &&& model.is_built(
                    config,
                    weights,
                    max_context,
                    None,
                    None,
                    Some((full_layers_of(config.text), mlp_answers@)),
                )
                &&& model.lane matches Lane::Stacks(lane) && lane.is_packed(
                    config.text,
                    run_starts(config.text.layer_types@, 0),
                    true,
                    chains,
                    built@,
                )
                &&& model.stack3_head_terminal == None::<bool>
            },
    {
        let (starts, full): (Vec<usize>, Vec<usize>) = match scan_stack_runs(
            &config.text.layer_types,
            ALL_STACKS_ROUTE,
        ) {
            Ok(found) => found,
            Err(e) => return Err(e),
        };
        if let Err(e) = config.text.validate() {
            return Err(e);
        }
        let lane = match Qwen35MetalW8LinearLayerStacksV1::pack(
            &weights,
            &config.text,
            starts.as_slice(),
            true,
            chains,
            built,
        ) {
            Ok(lane) => lane,
            Err(e) => return Err(e),
        };
        match GeneralQwen35::new_with_metal_options(
            config,
            weights,
            device,
            max_context,
            None,
            None,
            Some(LayerRequest { layers: full, answers: mlp_answers }),
        ) {
            Ok(model) => {
                let mut model = model;
                model.lane = Lane::Stacks(lane);
                Ok(model)
            },
            Err(e) => Err(e),
        }
    }

    /// Builds a model whose linear layers all run in stacks of three, with the
    /// accelerated head.
    pub fn from_weights_with_metal_w8_all_linear_layer_stacks_and_lm_head_v2(
        config: Qwen35Config,
        weights: Qwen35TextWeights,
        device: Device,
        max_context: usize,
        chains: FunctionChains,
        built: Vec<Result<Stack3Built, Stack3BuildFailure>>,
        head: Result<LmHeadBufferLedger, String>,
        mlp_answers: Vec<Result<MlpBlockBufferLedger, MlpBuildFailure>>,
    ) -> (r: Result<GeneralQwen35, Error>)
        requires
            built@.len() >= run_starts(config.text.layer_types@, 0).len(),
            mlp_answers@.len() >= weights.layers@.len(),
        ensures
            answers(
                r,
                stack_runs_fault(config.text.layer_types@, STACKS_AND_HEAD_ROUTE)
                    .or_fault(config.text.validity_fault())
                    .or_fault(
                        Qwen35MetalW8LinearLayerStacksV1::fault(
                            weights,
                            config.text,
                            run_starts(config.text.layer_types@, 0),
                            built@,
                        ),
                    )
                    .or_fault(
                        model_fault(
                            config,
                            weights,
                            device,
                            max_context,
                            Some(head),
                            None,
                            Some((full_layers_of(config.text), mlp_answers@)),
                        ),
                    ),
            ),
            r matches Ok(model) ==> {
                &&& model.is_built(
                    config,
                    weights,
                    max_context,
                    Some(head),
                    None,
                    Some((full_layers_of(config.text), mlp_answers@)),
                )
                &&& model.lane matches Lane::Stacks(lane) && lane.is_packed(
                    config.text,
                    run_starts(config.text.layer_types@, 0),
                    true,
                    chains,
                    built@,
                )
                &&& model.stack3_head_terminal == Some(false)
            },
    {
        let (starts, full): (Vec<usize>, Vec<usize>) = match scan_stack_runs(
            &config.text.layer_types,
            STACKS_AND_HEAD_ROUTE,
        ) {
            Ok(found) => found,
            Err(e) => return Err(e),
        };
        if let Err(e) = config.text.validate() {
            return Err(e);
        }
        let lane = match Qwen35MetalW8LinearLayerStacksV1::pack(
            &weights,
            &config.text,
            starts.as_slice(),
            true,
            chains,
            built,
        ) {
            Ok(lane) => lane,
            Err(e) => return Err(e),
        };
        match GeneralQwen35::new_with_metal_options(
            config,
            weights,
            device,
            max_context,
            Some(head),
            None,
            Some(LayerRequest { layers: full, answers: mlp_answers }),
        ) {
            Ok(model) => {
                let mut model = model;
                model.lane = Lane::Stacks(lane);
                model.stack3_head_terminal = Some(false);
                Ok(model)
            },
            Err(e) => Err(e),
        }
    }

    /// Builds a model whose body runs as the transactions of the fixed schedule.
    pub fn from_weights_with_metal_w8_mlp_stack3_boundary_body_v1(
        config: Qwen35Config,
        weights: Qwen35TextWeights,
        device: Device,
        max_context: usize,
        chains: FunctionChains,
        schedule: ScheduleAnswers,
        final_mlp: Result<MlpBlockBufferLedger, MlpBuildFailure>,
    ) -> (r: Result<GeneralQwen35, Error>)
        requires
            schedule.boundaries@.len() >= BOUNDARIES,
        ensures
            answers(
                r,
                schedule_fault(config.text)
                    .or_fault(config.text.validity_fault())
                    .or_fault(
                        Qwen35MetalW8MlpStack3BoundaryBodyV1::fault(
                            weights,
                            config.text,
                            schedule,
                            final_mlp,
                        ),
                    )
                    .or_fault(model_fault(config, weights, device, max_context, None, None, None)),
            ),
            r matches Ok(model) ==> {
                &&& model.is_built(config, weights, max_context, None, None, None)
                &&& model.lane matches Lane::BoundaryBody(lane) && lane.is_packed(
                    config.text,
                    chains,
                    schedule,
                    final_mlp,
                )
                &&& model.stack3_head_terminal == None::<bool>
            },
    {
        if let Err(e) = validate_config_schedule(&config.text) {
            return Err(e);
        }
        if let Err(e) = config.text.validate() {
            return Err(e);
        }
        let lane = match Qwen35MetalW8MlpStack3BoundaryBodyV1::pack(
            &weights,
            &config.text,
            chains,
            schedule,
            final_mlp,
        ) {
            Ok(lane) => lane,
            Err(e) => return Err(e),
        };
        match GeneralQwen35::new_with_metal_options(
            config,
            weights,
            device,
            max_context,
            None,
            None,
            None,
        ) {
            Ok(model) => {
                let mut model = model;
                model.lane = Lane::BoundaryBody(lane);
                Ok(model)
            },
            Err(e) => Err(e),
        }
    }

    /// Builds a model whose body and head run as the transactions of the fixed
    /// schedule under a core profile.
    pub fn from_weights_with_metal_w8_mlp_stack3_boundary_tail_head_gdn_core_profile_v1(
        config: Qwen35Config,
        weights: Qwen35TextWeights,
        device: Device,
        max_context: usize,
        profile: GdnCoreProfileV1,
        chains: FunctionChains,
        schedule: ScheduleAnswers,
        tail: Result<TailBuilt, TailBuildFailure>,
    ) -> (r: Result<GeneralQwen35, Error>)
        requires
            schedule.boundaries@.len() >= BOUNDARIES,
        ensures
            answers(
                r,
                tail_config_fault(config.text, profile)
                    .or_fault(config.text.validity_fault())
                    .or_fault(
                        Qwen35MetalW8MlpStack3BoundaryTailHeadV1::fault(
                            weights,
                            config.text,
                            profile,
                            schedule,
                            tail,
                        ),
                    )
                    .or_fault(model_fault(config, weights, device, max_context, None, None, None)),
            ),
            r matches Ok(model) ==> {
                &&& model.is_built(config, weights, max_context, None, None, None)
                &&& model.lane matches Lane::TailHead(lane) && lane.is_packed(
                    config.text,
                    profile,
                    chains,
                    schedule,
                    tail,
                )
                &&& model.stack3_head_terminal == None::<bool>
            },
    {
        if let Err(e) = validate_tail_config(&config.text, profile) {
            return Err(e);
        }
        if let Err(e) = config.text.validate() {
            return Err(e);
        }
        let lane = match Qwen35MetalW8MlpStack3BoundaryTailHeadV1::pack_with_gdn_core_profile_v1(
            &weights,
            &config.text,
            profile,
            chains,
            schedule,
            tail,
        ) {
            Ok(lane) => lane,
            Err(e) => return Err(e),
        };
        match GeneralQwen35::new_with_metal_options(
            config,
            weights,
            device,
            max_context,
            None,
            None,
            None,
        ) {
            Ok(model) => {
                let mut model = model;
                model.lane = Lane::TailHead(lane);
                Ok(model)
            },
            Err(e) => Err(e),
        }
    }

    /// Builds a model whose body and head run as the transactions of the fixed
    /// schedule.
    pub fn from_weights_with_metal_w8_mlp_stack3_boundary_tail_head_v1(
        config: Qwen35Config,
        weights: Qwen35TextWeights,
        device: Device,
        max_context: usize,
        chains: FunctionChains,
        schedule: ScheduleAnswers,
        tail: Result<TailBuilt, TailBuildFailure>,
    ) -> (r: Result<GeneralQwen35, Error>)
        requires
            schedule.boundaries@.len() >= BOUNDARIES,
        ensures
            answers(
                r,
                tail_config_fault(config.text, GdnCoreProfileV1::LegacyFourDispatch)
                    .or_fault(config.text.validity_fault())
                    .or_fault(
                        Qwen35MetalW8MlpStack3BoundaryTailHeadV1::fault(
                            weights,
                            config.text,
                            GdnCoreProfileV1::LegacyFourDispatch,
                            schedule,
                            tail,
                        ),
                    )
                    .or_fault(model_fault(config, weights, device, max_context, None, None, None)),
            ),
            r matches Ok(model) ==> {
                &&& model.is_built(config, weights, max_context, None, None, None)
                &&& model.lane matches Lane::TailHead(lane) && lane.is_packed(
                    config.text,
                    GdnCoreProfileV1::LegacyFourDispatch,
                    chains,
                    schedule,
                    tail,
                )
                &&& model.stack3_head_terminal == None::<bool>
            },
    {
        GeneralQwen35::from_weights_with_metal_w8_mlp_stack3_boundary_tail_head_gdn_core_profile_v1(
            config,
            weights,
            device,
            max_context,
            GdnCoreProfileV1::LegacyFourDispatch,
            chains,
            schedule,
            tail,
        )
    }

    /// Builds a model whose body and head run as the transactions of the fixed
    /// schedule with fused recurrent cores.
    pub fn from_weights_with_metal_w8_mlp_stack3_boundary_tail_head_gdn_core_fused_v1(
        config: Qwen35Config,
        weights: Qwen35TextWeights,
        device: Device,
        max_context: usize,
        chains: FunctionChains,
        schedule: ScheduleAnswers,
        tail: Result<TailBuilt, TailBuildFailure>,
    ) -> (r: Result<GeneralQwen35, Error>)
        requires
            schedule.boundaries@.len() >= BOUNDARIES,
        ensures
            answers(
                r,
                tail_config_fault(config.text, GdnCoreProfileV1::Fused128)
                    .or_fault(config.text.validity_fault())
                    .or_fault(
                        Qwen35MetalW8MlpStack3BoundaryTailHeadV1::fault(
                            weights,
                            config.text,
                            GdnCoreProfileV1::Fused128,
                            schedule,
                            tail,
                        ),
                    )
                    .or_fault(model_fault(config, weights, device, max_context, None, None, None)),
            ),
            r matches Ok(model) ==> {
                &&& model.is_built(config, weights, max_context, None, None, None)
                &&& model.lane matches Lane::TailHead(lane) && lane.is_packed(
                    config.text,
                    GdnCoreProfileV1::Fused128,
                    chains,
                    schedule,
                    tail,
                )
                &&& model.stack3_head_terminal == None::<bool>
            },
    {
        GeneralQwen35::from_weights_with_metal_w8_mlp_stack3_boundary_tail_head_gdn_core_profile_v1(
            config,
            weights,
            device,
            max_context,
            GdnCoreProfileV1::Fused128,
            chains,
            schedule,
            tail,
        )
    }

    /// Builds a model with one linear layer in packed precision, run by the CPU.
    pub fn from_weights_with_packed_w8_linear_layer_reference_profile(
        config: Qwen35Config,
        weights: Qwen35TextWeights,
        device: Device,
        max_context: usize,
        layer_index: usize,
        profile: Qwen35PackedW8LinearLayerReferenceProfile,
        answer: Result<LinearLayerQuantizationLedger, ReferenceBuildFailure>,
    ) -> (r: Result<GeneralQwen35, Error>)
        ensures
            answers(
                r,
                config.text.validity_fault()
                    .or_fault(
                        Qwen35PackedW8LinearLayerReference::fault(
                            weights,
                            config.text,
                            layer_index,
                            answer,
                        ),
                    )
                    .or_fault(model_fault(config, weights, device, max_context, None, None, None)),
            ),
            r matches Ok(model) ==> {
                &&& model.is_built(config, weights, max_context, None, None, None)
                &&& model.lane matches Lane::PackedReference(lane) && lane.is_packed(
                    config.text,
                    layer_index,
                    profile,
                    answer,
                )
                &&& model.stack3_head_terminal == None::<bool>
            },
    {
        if let Err(e) = config.text.validate() {
            return Err(e);
        }
        let lane = match Qwen35PackedW8LinearLayerReference::pack(
            &weights,
            &config.text,
            layer_index,
            profile,
            answer,
        ) {
            Ok(lane) => lane,
            Err(e) => return Err(e),
        };
        match GeneralQwen35::new_with_metal_options(
            config,
            weights,
            device,
            max_context,
            None,
            None,
            None,
        ) {
            Ok(model) => {
                let mut model = model;
                model.lane = Lane::PackedReference(lane);
                Ok(model)
            },
            Err(e) => Err(e),
        }
    }

    /// Builds a model with one linear layer in packed precision with groups of 64
    /// columns, run by the CPU.
    pub fn from_weights_with_packed_w8_linear_layer_reference(
        config: Qwen35Config,
        weights: Qwen35TextWeights,
        device: Device,
        max_context: usize,
        layer_index: usize,
        answer: Result<LinearLayerQuantizationLedger, ReferenceBuildFailure>,
    ) -> (r: Result<GeneralQwen35, Error>)
        ensures
            answers(
                r,
                config.text.validity_fault()
                    .or_fault(
                        Qwen35PackedW8LinearLayerReference::fault(
                            weights,
                            config.text,
                            layer_index,
                            answer,
                        ),
                    )
                    .or_fault(model_fault(config, weights, device, max_context, None, None, None)),
            ),
            r matches Ok(model) ==> {
                &&& model.is_built(config, weights, max_context, None, None, None)
                &&& model.lane matches Lane::PackedReference(lane) && lane.is_packed(
                    config.text,
                    layer_index,
                    Qwen35PackedW8LinearLayerReferenceProfile::G64,
                    answer,
                )
                &&& model.stack3_head_terminal == None::<bool>
            },
    {
        GeneralQwen35::from_weights_with_packed_w8_linear_layer_reference_profile(
            config,
            weights,
            device,
            max_context,
            layer_index,
            Qwen35PackedW8LinearLayerReferenceProfile::G64,
            answer,
        )
    }

    /// Builds a model with the selected gate and up projections accelerated.
    pub fn from_weights_with_metal_w8_body_layers(
        config: Qwen35Config,
        weights: Qwen35TextWeights,
        device: Device,
        max_context: usize,
        layers: Vec<usize>,
        built: Vec<Result<(), String>>,
    ) -> (r: Result<GeneralQwen35, Error>)
        requires
            built@.len() >= weights.layers@.len(),
        ensures
            answers(
                r,
                model_fault(
                    config,
                    weights,
                    device,
                    max_context,
                    None,
                    Some((layers@, built@)),
                    None,
                ),
            ),
            r matches Ok(model) ==> {
                &&& model.is_built(
                    config,
                    weights,
                    max_context,
                    None,
                    Some((layers@, built@)),
                    None,
                )
                &&& model.lane == Lane::Cpu
                &&& model.stack3_head_terminal == None::<bool>
            },
    {
        GeneralQwen35::new_with_metal_options(
            config,
            weights,
            device,
            max_context,
            None,
            Some(LayerRequest { layers, answers: built }),
            None,
        )
    }

    /// Builds a model with one accelerated gate and up projection.
    pub fn from_weights_with_metal_w8_body_layer(
        config: Qwen35Config,
        weights: Qwen35TextWeights,
        device: Device,
        max_context: usize,
        layer_index: usize,
        built: Vec<Result<(), String>>,
    ) -> (r: Result<GeneralQwen35, Error>)
        requires
            built@.len() >= weights.layers@.len(),
        ensures
            answers(
                r,
                model_fault(
                    config,
                    weights,
                    device,
                    max_context,
                    None,
                    Some((seq![layer_index], built@)),
                    None,
                ),
            ),
            r matches Ok(model) ==> {
                &&& model.is_built(
                    config,
                    weights,
                    max_context,
                    None,
                    Some((seq![layer_index], built@)),
                    None,
                )
                &&& model.lane == Lane::Cpu
                &&& model.stack3_head_terminal == None::<bool>
            },
    {
        let layers: Vec<usize> = vec![layer_index];
        proof {
            assert(layers@ =~= seq![layer_index]);
        }
        GeneralQwen35::from_weights_with_metal_w8_body_layers(
            config,
            weights,
            device,
            max_context,
            layers,
            built,
        )
    }

    /// Builds a model with the selected feed-forward blocks accelerated.
    pub fn from_weights_with_metal_w8_mlp_block_layers(
        config: Qwen35Config,
        weights: Qwen35TextWeights,
        device: Device,
        max_context: usize,
        layers: Vec<usize>,
        built: Vec<Result<MlpBlockBufferLedger, MlpBuildFailure>>,
    ) -> (r: Result<GeneralQwen35, Error>)
        requires
            built@.len() >= weights.layers@.len(),
        ensures
            answers(
                r,
                model_fault(
                    config,
                    weights,
                    device,
                    max_context,
                    None,
                    None,
                    Some((layers@, built@)),
                ),
            ),
            r matches Ok(model) ==> {
                &&& model.is_built(
                    config,
                    weights,
                    max_context,
                    None,
                    None,
                    Some((layers@, built@)),
                )
                &&& model.lane == Lane::Cpu
                &&& model.stack3_head_terminal == None::<bool>
            },
    {
        GeneralQwen35::new_with_metal_options(
            config,
            weights,
            device,
            max_context,
            None,
            None,
            Some(LayerRequest { layers, answers: built }),
        )
    }

    /// Builds a model with one accelerated feed-forward block.
    pub fn from_weights_with_metal_w8_mlp_block_layer(
        config: Qwen35Config,
        weights: Qwen35TextWeights,
        device: Device,
        max_context: usize,
        layer_index: usize,
        built: Vec<Result<MlpBlockBufferLedger, MlpBuildFailure>>,
    ) -> (r: Result<GeneralQwen35, Error>)
        requires
            built@.len() >= weights.layers@.len(),
        ensures
            answers(
                r,
                model_fault(
                    config,
                    weights,
                    device,
                    max_context,
                    None,
                    None,
                    Some((seq![layer_index], built@)),
                ),
            ),
            r matches Ok(model) ==> {
                &&& model.is_built(
                    config,
                    weights,
                    max_context,
                    None,
                    None,
                    Some((seq![layer_index], built@)),
                )
                &&& model.lane == Lane::Cpu
                &&& model.stack3_head_terminal == None::<bool>
            },
    {
        let layers: Vec<usize> = vec![layer_index];
        proof {
            assert(layers@ =~= seq![layer_index]);
        }
        GeneralQwen35::from_weights_with_metal_w8_mlp_block_layers(
            config,
            weights,
            device,
            max_context,
            layers,
            built,
        )
    }

    /// Builds a model with every feed-forward block and the head accelerated.
    pub fn from_weights_with_metal_w8_mlp_blocks_and_lm_head(
        config: Qwen35Config,
        weights: Qwen35TextWeights,
        device: Device,
        max_context: usize,
        head: Result<LmHeadBufferLedger, String>,
        built: Vec<Result<MlpBlockBufferLedger, MlpBuildFailure>>,
    ) -> (r: Result<GeneralQwen35, Error>)
        requires
            built@.len() >= weights.layers@.len(),
        ensures
            answers(
                r,
                model_fault(
                    config,
                    weights,
                    device,
                    max_context,
                    Some(head),
                    None,
                    Some((all_layers(config.text.n_layers as nat), built@)),
                ),
            ),
            r matches Ok(model) ==> {
                &&& model.is_built(
                    config,
                    weights,
                    max_context,
                    Some(head),
                    None,
                    Some((all_layers(config.text.n_layers as nat), built@)),
                )
                &&& model.lane == Lane::Cpu
                &&& model.stack3_head_terminal == None::<bool>
            },
    {
        let layers = every_layer(config.text.n_layers);
        GeneralQwen35::new_with_metal_options(
            config,
            weights,
            device,
            max_context,
            Some(head),
            None,
            Some(LayerRequest { layers, answers: built }),
        )
    }

    /// Builds a model with the accelerated head, with every feed-forward block
    /// accelerated, with both or with neither.
    pub fn from_weights_with_backend_metal_options(
        config: Qwen35Config,
        weights: Qwen35TextWeights,
        device: Device,
        max_context: usize,
        head: Option<Result<LmHeadBufferLedger, String>>,
        built: Option<Vec<Result<MlpBlockBufferLedger, MlpBuildFailure>>>,
    ) -> (r: Result<GeneralQwen35, Error>)
        requires
            built matches Some(answers) ==> answers@.len() >= weights.layers@.len(),
        ensures
            answers(
                r,
                model_fault(
                    config,
                    weights,
                    device,
                    max_context,
                    head,
                    None,
                    every_block(config.text, built),
                ),
            ),
            r matches Ok(model) ==> {
                &&& model.is_built(
                    config,
                    weights,
                    max_context,
                    head,
                    None,
                    every_block(config.text, built),
                )
                &&& model.lane == Lane::Cpu
                &&& model.stack3_head_terminal == None::<bool>
            },
    {
        let request = match built {
            Some(answers) => Some(
                LayerRequest { layers: every_layer(config.text.n_layers), answers },
            ),
            None => None,
        };
        GeneralQwen35::new_with_metal_options(
            config,
            weights,
            device,
            max_context,
            head,
            None,
            request,
        )
    }

    /// The configuration.
    pub fn config_ref(&self) -> (config: &Qwen35Config)
        ensures
            *config == self.config,
    {
        &self.config
    }

    /// The state of the stream.
    pub fn state_ref(&self) -> (state: &Qwen35HybridState)
        ensures
            *state == self.state,
    {
        &self.state
    }
}

} // verus!
