//! Precision and core profiles of the accelerated lanes, their names, and the
//! fixed schedule of the boundary lanes.

use vstd::prelude::*;

use crate::error::{answers, Error, Fault};
use crate::qwen35::config::Qwen35TextConfig;
use crate::qwen35::metal::{GdnCoreProfileV1, W8GroupSize};

verus! {

/// The precision of a complete linear layer of the versioned diagnostic lane.
#[derive(Clone, Copy, Debug, PartialEq, Eq, Structural)]
pub enum Qwen35MetalW8LinearLayerPrecisionProfile {
    GdnOutG32V2,
}

impl Qwen35MetalW8LinearLayerPrecisionProfile {
    /// The name of the profile.
    pub fn as_str(self) -> (text: &'static str)
        ensures
            text == "gdn-out-g32-v2",
    {
        match self {
            Qwen35MetalW8LinearLayerPrecisionProfile::GdnOutG32V2 => "gdn-out-g32-v2",
        }
    }

    /// The name of the lane.
    pub fn mechanism(self) -> (text: &'static str)
        ensures
            text == "metal-w8-linear-layer-precision-v2",
    {
        "metal-w8-linear-layer-precision-v2"
    }
}

/// Which projections of a packed linear layer use groups of 32 columns.
#[derive(Clone, Copy, Debug, PartialEq, Eq, Structural)]
pub enum Qwen35PackedW8LinearLayerReferenceProfile {
    G64,
    GdnOutG32,
    MlpDownG32,
    GdnOutAndMlpDownG32,
}

impl Qwen35PackedW8LinearLayerReferenceProfile {
    /// The name of the profile.
    pub open spec fn name(self) -> Seq<char> {
        match self {
            Qwen35PackedW8LinearLayerReferenceProfile::G64 => "g64"@,
            Qwen35PackedW8LinearLayerReferenceProfile::GdnOutG32 => "gdn-out-g32"@,
            Qwen35PackedW8LinearLayerReferenceProfile::MlpDownG32 => "mlp-down-g32"@,
            Qwen35PackedW8LinearLayerReferenceProfile::GdnOutAndMlpDownG32 =>
                "gdn-out-and-mlp-down-g32"@,
        }
    }

    /// The recurrent output projection uses groups of 32 columns.
    pub open spec fn fine_output(self) -> bool {
        self == Qwen35PackedW8LinearLayerReferenceProfile::GdnOutG32 || self
            == Qwen35PackedW8LinearLayerReferenceProfile::GdnOutAndMlpDownG32
    }

    /// The feed-forward down projection uses groups of 32 columns.
    pub open spec fn fine_down(self) -> bool {
        self == Qwen35PackedW8LinearLayerReferenceProfile::MlpDownG32 || self
            == Qwen35PackedW8LinearLayerReferenceProfile::GdnOutAndMlpDownG32
    }

    /// The name of the profile.
    pub fn as_str(self) -> (text: &'static str)
        ensures
            text@ == self.name(),
    {
        match self {
            Qwen35PackedW8LinearLayerReferenceProfile::G64 => "g64",
            Qwen35PackedW8LinearLayerReferenceProfile::GdnOutG32 => "gdn-out-g32",
            Qwen35PackedW8LinearLayerReferenceProfile::MlpDownG32 => "mlp-down-g32",
            Qwen35PackedW8LinearLayerReferenceProfile::GdnOutAndMlpDownG32 =>
                "gdn-out-and-mlp-down-g32",
        }
    }

    /// The groups of the recurrent output projection.
    pub fn gdn_output_group_size(self) -> (size: W8GroupSize)
        ensures
            size == if self.fine_output() {
                W8GroupSize::G32
            } else {
                W8GroupSize::G64
            },
    {
        match self {
            Qwen35PackedW8LinearLayerReferenceProfile::GdnOutG32
            | Qwen35PackedW8LinearLayerReferenceProfile::GdnOutAndMlpDownG32 => W8GroupSize::G32,
            Qwen35PackedW8LinearLayerReferenceProfile::G64
            | Qwen35PackedW8LinearLayerReferenceProfile::MlpDownG32 => W8GroupSize::G64,
        }
    }

    /// The groups of the feed-forward down projection.
    pub fn mlp_down_group_size(self) -> (size: W8GroupSize)
        ensures
            size == if self.fine_down() {
                W8GroupSize::G32
            } else {
                W8GroupSize::G64
            },
    {
        match self {
            Qwen35PackedW8LinearLayerReferenceProfile::MlpDownG32
            | Qwen35PackedW8LinearLayerReferenceProfile::GdnOutAndMlpDownG32 => W8GroupSize::G32,
            Qwen35PackedW8LinearLayerReferenceProfile::G64
            | Qwen35PackedW8LinearLayerReferenceProfile::GdnOutG32 => W8GroupSize::G64,
        }
    }
}

/// How a complete linear layer is packed: with finer groups for the recurrent
/// output under a precision profile, else with the coarse ones.
pub fn packing_profile(profile: Option<Qwen35MetalW8LinearLayerPrecisionProfile>) -> (packing:
    Qwen35PackedW8LinearLayerReferenceProfile)
    ensures
        packing == if profile is Some {
            Qwen35PackedW8LinearLayerReferenceProfile::GdnOutG32
        } else {
            Qwen35PackedW8LinearLayerReferenceProfile::G64
        },
{
    match profile {
        Some(Qwen35MetalW8LinearLayerPrecisionProfile::GdnOutG32V2) =>
            Qwen35PackedW8LinearLayerReferenceProfile::GdnOutG32,
        None => Qwen35PackedW8LinearLayerReferenceProfile::G64,
    }
}

/// How the layers of a stack, and those behind a boundary, are packed.
pub fn stack_packing_profile() -> (packing: Qwen35PackedW8LinearLayerReferenceProfile)
    ensures
        packing == Qwen35PackedW8LinearLayerReferenceProfile::GdnOutG32,
{
    Qwen35PackedW8LinearLayerReferenceProfile::GdnOutG32
}

/// The step of generation that asks the accelerated head for a token.
#[derive(Clone, Copy, Debug, PartialEq, Eq, Structural)]
pub enum Qwen35MetalW8LmHeadPhase {
    Prefill,
    Decode,
}

impl Qwen35MetalW8LmHeadPhase {
    /// The name of the step.
    pub open spec fn name(self) -> &'static str {
        match self {
            Qwen35MetalW8LmHeadPhase::Prefill => "prefill",
            Qwen35MetalW8LmHeadPhase::Decode => "decode",
        }
    }

    /// The name of the step.
    pub fn label(self) -> (text: &'static str)
        ensures
            text == self.name(),
    {
        match self {
            Qwen35MetalW8LmHeadPhase::Prefill => "prefill",
            Qwen35MetalW8LmHeadPhase::Decode => "decode",
        }
    }
}

/// The name of a core profile.
pub open spec fn profile_label(profile: GdnCoreProfileV1) -> &'static str {
    match profile {
        GdnCoreProfileV1::LegacyFourDispatch => "legacy-four-dispatch",
        GdnCoreProfileV1::QkStagedFourDispatch => "qk-staged-four-dispatch-control",
        GdnCoreProfileV1::Fused128 => "gdn-core-fused-v1",
    }
}

/// The name of a core profile.
pub fn qwen35_gdn_core_profile_v1_label(profile: GdnCoreProfileV1) -> (text: &'static str)
    ensures
        text == profile_label(profile),
{
    match profile {
        GdnCoreProfileV1::LegacyFourDispatch => "legacy-four-dispatch",
        GdnCoreProfileV1::QkStagedFourDispatch => "qk-staged-four-dispatch-control",
        GdnCoreProfileV1::Fused128 => "gdn-core-fused-v1",
    }
}

/// The name of a stack of three layers under a core profile.
pub open spec fn stack3_mechanism(profile: GdnCoreProfileV1) -> &'static str {
    match profile {
        GdnCoreProfileV1::LegacyFourDispatch => "metal-w8-linear-layer-stack3-v1",
        GdnCoreProfileV1::Fused128 => "metal-w8-linear-layer-stack3-gdn-core-fused-v1",
        GdnCoreProfileV1::QkStagedFourDispatch => "invalid-production-qk-staged-control",
    }
}

/// The name of a stack of three layers under a core profile.
pub fn qwen35_stack3_mechanism_for_gdn_core_profile_v1(profile: GdnCoreProfileV1) -> (text:
    &'static str)
    ensures
        text == stack3_mechanism(profile),
{
    match profile {
        GdnCoreProfileV1::LegacyFourDispatch => "metal-w8-linear-layer-stack3-v1",
        GdnCoreProfileV1::Fused128 => "metal-w8-linear-layer-stack3-gdn-core-fused-v1",
        GdnCoreProfileV1::QkStagedFourDispatch => "invalid-production-qk-staged-control",
    }
}

/// The name of a boundary under a core profile.
pub open spec fn boundary_mechanism(profile: GdnCoreProfileV1) -> &'static str {
    match profile {
        GdnCoreProfileV1::LegacyFourDispatch => "metal-w8-mlp-stack3-boundary-v1",
        GdnCoreProfileV1::Fused128 => "metal-w8-mlp-stack3-boundary-gdn-core-fused-v1",
        GdnCoreProfileV1::QkStagedFourDispatch => "invalid-production-qk-staged-control",
    }
}

/// The name of a boundary under a core profile.
pub fn qwen35_boundary_mechanism_for_gdn_core_profile_v1(profile: GdnCoreProfileV1) -> (text:
    &'static str)
    ensures
        text == boundary_mechanism(profile),
{
    match profile {
        GdnCoreProfileV1::LegacyFourDispatch => "metal-w8-mlp-stack3-boundary-v1",
        GdnCoreProfileV1::Fused128 => "metal-w8-mlp-stack3-boundary-gdn-core-fused-v1",
        GdnCoreProfileV1::QkStagedFourDispatch => "invalid-production-qk-staged-control",
    }
}

/// The name of the boundary and tail-head lane under a core profile.
pub open spec fn tail_head_mechanism(profile: GdnCoreProfileV1) -> &'static str {
    match profile {
        GdnCoreProfileV1::LegacyFourDispatch => "metal-w8-mlp-stack3-boundary-tail-head-v1",
        GdnCoreProfileV1::Fused128 =>
            "metal-w8-mlp-stack3-boundary-tail-head-gdn-core-fused-v1",
        GdnCoreProfileV1::QkStagedFourDispatch => "invalid-production-qk-staged-control",
    }
}

/// The name of the boundary and tail-head lane under a core profile.
pub fn qwen35_boundary_tail_head_mechanism_for_gdn_core_profile_v1(
    profile: GdnCoreProfileV1,
) -> (text: &'static str)
    ensures
        text == tail_head_mechanism(profile),
{
    match profile {
        GdnCoreProfileV1::LegacyFourDispatch => "metal-w8-mlp-stack3-boundary-tail-head-v1",
        GdnCoreProfileV1::Fused128 =>
            "metal-w8-mlp-stack3-boundary-tail-head-gdn-core-fused-v1",
        GdnCoreProfileV1::QkStagedFourDispatch => "invalid-production-qk-staged-control",
    }
}

/// The staged control is for diagnosis only.
pub open spec fn production_fault(profile: GdnCoreProfileV1) -> Fault {
    match profile {
        GdnCoreProfileV1::QkStagedFourDispatch => Some(Error::QkStagedProfile.text()),
        _ => None,
    }
}

/// Refuses the staged control, which is for diagnosis only.
pub fn validate_qwen35_production_gdn_core_profile_v1(profile: GdnCoreProfileV1) -> (r: Result<
    (),
    Error,
>)
    ensures
        answers(r, production_fault(profile)),
{
    match profile {
        GdnCoreProfileV1::LegacyFourDispatch | GdnCoreProfileV1::Fused128 => Ok(()),
        GdnCoreProfileV1::QkStagedFourDispatch => Err(Error::QkStagedProfile),
    }
}

/// The bits of the 32-bit float nearest to one millionth.
pub const FUSED_EPS_BITS: u32 = 0x3586_37bd;

/// The only shape that the fused core runs.
pub open spec fn has_fused_shape(config: Qwen35TextConfig) -> bool {
    &&& config.hidden_size == 1024
    &&& config.linear_num_key_heads == 16
    &&& config.linear_num_value_heads == 16
    &&& config.linear_key_head_dim == 128
    &&& config.linear_value_head_dim == 128
    &&& config.linear_conv_kernel_dim == 4
    &&& config.rms_norm_eps_bits == FUSED_EPS_BITS
}

/// Whether the model has the only shape that the fused core runs.
pub fn qwen35_matches_gdn_core_fused_v1_shape(config: &Qwen35TextConfig) -> (r: bool)
    ensures
        r == has_fused_shape(*config),
{
    config.hidden_size == 1024 && config.linear_num_key_heads == 16
        && config.linear_num_value_heads == 16 && config.linear_key_head_dim == 128
        && config.linear_value_head_dim == 128 && config.linear_conv_kernel_dim == 4
        && config.rms_norm_eps_bits == FUSED_EPS_BITS
}

/// The fused core was asked for with another shape.
pub open spec fn fused_shape_fault(config: Qwen35TextConfig) -> Fault {
    if has_fused_shape(config) {
        None
    } else {
        Some(
            Error::FusedShape {
                hidden: config.hidden_size,
                key_heads: config.linear_num_key_heads,
                value_heads: config.linear_num_value_heads,
                key_dim: config.linear_key_head_dim,
                value_dim: config.linear_value_head_dim,
                conv: config.linear_conv_kernel_dim,
                eps_bits: config.rms_norm_eps_bits,
            }.text(),
        )
    }
}

/// Refuses the fused core for every other shape than its own.
pub fn validate_qwen35_gdn_core_fused_v1_shape(config: &Qwen35TextConfig) -> (r: Result<(), Error>)
    ensures
        answers(r, fused_shape_fault(*config)),
{
    if !qwen35_matches_gdn_core_fused_v1_shape(config) {
        return Err(
            Error::FusedShape {
                hidden: config.hidden_size,
                key_heads: config.linear_num_key_heads,
                value_heads: config.linear_num_value_heads,
                key_dim: config.linear_key_head_dim,
                value_dim: config.linear_value_head_dim,
                conv: config.linear_conv_kernel_dim,
                eps_bits: config.rms_norm_eps_bits,
            },
        );
    }
    Ok(())
}

} // verus!
