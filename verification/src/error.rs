//! Errors of the model and their texts.

use vstd::prelude::*;
use vstd::string::*;

use crate::text::{
    bracketed, decimal, hexadecimal, push_decimal, push_hex, push_list, push_size,
};

verus! {

/// Everything that can go wrong, with the values that the message names.
#[derive(Debug, PartialEq, Eq)]
#[allow(inconsistent_fields)]
pub enum Error {
    /// What a backend, an accelerator or a reader reported, passed on unchanged.
    Reported { cause: String },
    /// A tensor was given a number of elements that its shape does not hold.
    ElementCount { elements: usize, shape: Vec<usize> },
    /// 32-bit float values were asked of a tensor of another element type.
    NotF32 { dtype: &'static str },
    /// One row of a fixed width was expected.
    RowShape { columns: usize, got: Vec<usize> },
    /// At least one row of a fixed width was expected.
    RowsShape { columns: usize, got: Vec<usize> },
    /// The embedding or the hidden row has the wrong number of elements for the rerank.
    RerankShape { vocab_size: usize, hidden_size: usize, embedding: usize, hidden: usize },
    /// A weight of a GDN block has the wrong shape.
    GdnWeightShape { label: &'static str, expected: Vec<usize>, got: Vec<usize> },
    /// A weight of a complete linear layer has the wrong shape.
    LinearLayerWeightShape { label: &'static str, expected: Vec<usize>, got: Vec<usize> },
    /// The norm of a boundary layer has the wrong shape.
    BoundaryNormShape { hidden_size: usize, got: Vec<usize> },
    /// A matrix does not hold the selected rows.
    TransposeRowsShape { row_start: usize, row_end: usize, expected_input: usize, got: Vec<usize> },
    /// A convolution weight does not hold the selected rows.
    ConvRowsShape { row_start: usize, row_end: usize, kernel_size: usize, got: Vec<usize> },
    /// The gated query projection has the wrong shape.
    GatedQueryShape { rows: usize, hidden_size: usize, got: Vec<usize> },
    /// A tensor to rotate has the wrong shape.
    RopeShape { sequence_length: usize, heads: usize, head_dim: usize, got: Vec<usize> },
    /// A checkpoint tensor lies on another device.
    NotOnCpuBeforePacking { label: &'static str },
    /// A checkpoint tensor lies on another device.
    NotOnCpu { label: &'static str },
    /// A weight has an element type that cannot be widened.
    UnsupportedDtype { label: &'static str, dtype: &'static str },
    /// The gated query width does not fit.
    GatedQueryOverflow,
    /// There are no tokens, or the merge size is zero.
    MropeEmpty,
    /// There are more image groups than grids.
    MropeMissingGrid,
    /// An image grid is empty or not divisible.
    MropeInvalidGrid { temporal: u32, height: u32, width: u32, merge: u32 },
    /// An image group has the wrong number of tokens.
    MropeGroupLength { tokens: usize, expected: usize, temporal: u32, height: u32, width: u32 },
    /// A modality is neither text nor image.
    MropeModality { modality: u8 },
    /// There are more grids than image groups.
    MropeLeftoverGrids { consumed: usize, grids: usize },
    /// No context was asked for.
    ZeroContext,
    /// A layer has no recurrent state.
    NoLinearState { layer_index: usize },
    /// A layer has no key/value cache.
    NoKvCache { layer_index: usize },
    /// A forward does not start where the caches end.
    StartPosition { start_pos: usize, position: usize },
    /// The key/value cache and the recurrent state disagree.
    KvPosition { kv_position: usize, position: usize },
    /// The end of the context does not fit.
    ContextOverflow,
    /// The context is longer than configured.
    ContextExceeded { end: usize, max_context: usize },
    /// Deepstack outputs were configured.
    VisionDeepstack,
    /// The checkpoint could not be read.
    VisionLoad { cause: String },
    /// The patch width does not fit.
    VisionPatchWidth,
    /// The patch count does not fit.
    VisionPatchCount,
    /// The pixel tensor has the wrong type, shape or place.
    VisionPixels {
        patch_count: usize,
        patch_width: usize,
        dtype: &'static str,
        got: Vec<usize>,
        device: String,
    },
    /// The encoder produced deepstack outputs.
    VisionUnexpectedDeepstack,
    /// The encoder output has the wrong type or shape.
    VisionPrimary {
        expected_rows: usize,
        out_hidden_size: usize,
        dtype: &'static str,
        got: Vec<usize>,
    },
    /// A text tensor is missing.
    CheckpointMissing { name: String },
    /// A text tensor has the wrong shape.
    CheckpointShape { name: String, expected: Vec<usize>, got: Vec<usize> },
    /// A text tensor is not of a floating type.
    CheckpointDtype { name: String, dtype: &'static str },
    /// A text tensor is not stored as configured.
    CheckpointExactDtype { name: String, expected: &'static str, got: &'static str },
    /// A tensor belongs to no known part of the model.
    CheckpointUnexpected { name: String },
    /// The configuration names an unknown element type.
    ConfiguredDtype { name: String },
    /// The configuration is not JSON.
    Qwen3VlJson { cause: String },
    /// The text section is missing.
    Qwen3VlTextConfig,
    /// The mRoPE section is missing.
    Qwen3VlMropeSection,
    /// The mRoPE section has the wrong length.
    Qwen3VlMropeLength { entries: usize },
    /// A named weight is missing.
    MissingWeight { name: String },
    /// A text weight to transpose is no matrix.
    TransposeRank { rank: usize },
    /// A text weight to transpose has an unsupported type.
    TransposeDtype { dtype: &'static str },
    /// A vision weight to transpose is no matrix.
    VisionTransposeRank { rank: usize },
    /// A vision weight to transpose has an unsupported type.
    VisionTransposeDtype { dtype: &'static str },
    /// A patch weight has the wrong number of elements.
    VisionReshapeCount { elements: usize, rows: usize, cols: usize },
    /// A patch weight has an unsupported type.
    VisionReshapeDtype { dtype: &'static str },
    /// The diagnostic GDN core control was asked for in production.
    QkStagedProfile,
    /// The fused GDN core was asked for with another shape.
    FusedShape {
        hidden: usize,
        key_heads: usize,
        value_heads: usize,
        key_dim: usize,
        value_dim: usize,
        conv: usize,
        eps_bits: u32,
    },
    /// A run of linear-attention layers is not three layers long.
    StackRunLength { route: &'static str, length: usize, run_start: usize },
    /// There is no stack, or no full-attention layer.
    StackRunsMissing { route: &'static str },
    /// The tail head was asked for with untied embeddings.
    TailHeadUntied,
    /// The configuration does not list a kind for each layer.
    ConfigLayers { got: usize, expected: usize },
    /// A width of the configuration is not a machine size.
    ConfigWidths,
    /// Another device than the CPU was asked for.
    CpuOnly,
    /// The number of weight layers is wrong.
    WeightLayers { got: usize, expected: usize },
    /// The accelerated head was asked for with untied embeddings.
    LmHeadUntied,
    /// The accelerated head could not be built.
    LmHeadBuild { cause: String },
    /// The Stack3 and head lane is terminal.
    Stack3HeadTerminal,
    /// A linear layer is terminal.
    LinearLayerTerminal { layer_index: usize },
    /// The packed reference is terminal.
    ReferenceTerminal { layer_index: usize },
    /// The lane of all linear layers is terminal.
    AllLinearTerminal,
    /// The lane of stacks is terminal.
    StacksTerminal,
    /// The boundary body is terminal.
    BoundaryBodyTerminal,
    /// The boundary and tail-head lane is terminal.
    TailHeadTerminal,
    /// The head failed after the body had advanced.
    Stack3HeadPostBody { stage: &'static str, cause: Box<Error> },
    /// The tail failed after the body had advanced.
    TailHeadPostBody { stage: &'static str, cause: Box<Error> },
    /// The tail transaction failed.
    TailTransaction { cause: String },
    /// The packed reference owns the decode state.
    ReferenceOwnsState { layer_index: usize },
    /// A linear layer owns the decode state.
    LinearLayerOwnsState { layer_index: usize },
    /// A layer of the lane of all linear layers owns the decode state.
    AllLinearOwnsState { layer_index: usize },
    /// A GDN block owns the decode state.
    GdnOwnsState { layer_index: usize },
    /// A Stack3 lane owns the decode state.
    Stack3OwnsState,
    /// Runtime weights and configuration disagree on a layer.
    LayerKindMismatch { layer_index: usize },
    /// A boundary layer lies outside the model.
    BoundaryOutsideBody { layer_index: usize },
    /// A boundary layer has no full-attention weights.
    BoundaryNotFull { layer_index: usize },
    /// A boundary layer is not configured as full attention.
    BoundaryScheduleChanged { layer_index: usize },
    /// There are no tokens to run.
    EmptyTokens,
    /// A token lies outside the vocabulary.
    TokenOutsideVocabulary { token: u32, vocab_size: usize },
    /// No transaction of the tail-head lane owns a layer.
    TailHeadNoOwner { layer_index: usize },
    /// No transaction of the boundary body owns a layer.
    BoundaryBodyNoOwner { layer_index: usize },
    /// The boundary body failed after advancing state.
    BoundaryBodyPartial { cause: Box<Error> },
    /// The tail-head lane failed after advancing state.
    TailHeadPartial { cause: Box<Error> },
    /// A lane failed after committing state.
    LanePartial { lane: &'static str, cause: Box<Error> },
    /// The accelerated head failed.
    HeadTopK { phase: &'static str, cause: String },
    /// The rerank of the accelerated head failed.
    HeadRerank { phase: &'static str, cause: Box<Error> },
    /// The accelerated head failed in the teacher gate.
    TeacherTopK { cause: String },
    /// The teacher gate needs the accelerated head.
    TeacherNeedsHead,
    /// The embedding size does not fit.
    RerankOverflow,
    /// A candidate lies outside the vocabulary.
    RerankOutside { index: usize, token: u32, vocab_size: usize },
    /// A candidate occurs twice.
    RerankDuplicate { token: u32 },
    /// A candidate has no finite score.
    RerankNonFinite { token: u32 },
    /// The model cannot be built from a flat configuration.
    NestedConfig,
    /// An image was handed to a text model.
    ImageInput,
    /// The requested context does not fit.
    BudgetOverflow,
    /// The requested context is longer than configured.
    BudgetExceeded { prompt_len: usize, max_new_tokens: usize, max_context: usize },
    /// A rotation table was asked for no tokens.
    RopeEmpty,
    /// The rotary width is zero, odd or too large.
    RopeDimension { rotary_dim: usize, head_dim: usize },
    /// The rotation base is not finite and positive.
    RopeTheta { theta: String },
    /// The rotation table does not fit.
    RopeOverflow,
    /// A selected GDN layer does not exist.
    GdnOutside { layer_index: usize, layers: usize },
    /// A selected GDN layer is not configured as linear attention.
    GdnNotLinear { layer_index: usize },
    /// A selected GDN layer has no linear-attention weights.
    GdnCheckpointNotLinear { layer_index: usize },
    /// The GDN input projection does not fit.
    GdnOverflow,
    /// A GDN block could not be packed.
    GdnPacking { layer_index: usize, cause: String },
    /// A GDN block could not be built.
    GdnConstruction { layer_index: usize, cause: String },
    /// A GDN block refused its state.
    GdnSeed { layer_index: usize, cause: String },
    /// A GDN block could not be cleared.
    GdnReset { layer_index: usize, cause: String },
    /// A GDN decode failed.
    GdnFailed { layer_index: usize, cause: String },
    /// The CPU prefill left no state.
    GdnStateMissing { label: &'static str },
    /// The CPU state cannot be handed over.
    GdnStateSeed { cause: String },
    /// A selected linear layer does not exist.
    LinearLayerOutside { layer_index: usize, layers: usize },
    /// A selected layer is not configured as linear attention.
    LinearLayerNotLinear { layer_index: usize },
    /// A selected layer has no linear-attention weights.
    LinearLayerCheckpointNotLinear { layer_index: usize },
    /// The input projection does not fit.
    LinearLayerOverflow,
    /// The GDN part could not be packed.
    LinearLayerGdnPacking { layer_index: usize, cause: String },
    /// The MLP part could not be packed.
    LinearLayerMlpPacking { layer_index: usize, cause: String },
    /// The parts could not be joined.
    LinearLayerAssembly { layer_index: usize, cause: String },
    /// The block could not be built.
    LinearLayerConstruction { layer_index: usize, cause: String },
    /// The quantization of a precision-v2 layer is unknown.
    PrecisionLedger { layer_index: usize, cause: String },
    /// A precision-v2 block could not be built.
    PrecisionConstruction { layer_index: usize, cause: String },
    /// A linear layer refused its state.
    LinearLayerSeed { layer_index: usize, cause: String },
    /// A linear layer could not be cleared.
    LinearLayerReset { layer_index: usize, cause: String },
    /// A linear layer was run before its state was seeded.
    LinearLayerNotSeeded { layer_index: usize },
    /// A linear layer failed.
    LinearLayerFailed { layer_index: usize, cause: String },
    /// A linear layer produced an invalid output.
    LinearLayerOutput { layer_index: usize, cause: Box<Error> },
    /// The number of weight layers is wrong.
    AllLinearLayers { got: usize, expected: usize },
    /// There is no linear-attention layer.
    AllLinearEmpty,
    /// The quantization of a stack is unknown.
    Stack3Ledger { cause: String },
    /// A stack could not be built.
    Stack3Construction { layer_indices: [usize; 3], profile: &'static str, cause: String },
    /// A stack was seeded out of turn.
    Stack3InvalidSeed { layer_indices: [usize; 3], slot: usize },
    /// A stack refused its states.
    Stack3Seed { layer_indices: [usize; 3], cause: String },
    /// A stack could not be cleared.
    Stack3Reset { layer_indices: [usize; 3], cause: String },
    /// A stack is terminal.
    Stack3Terminal { layer_indices: [usize; 3] },
    /// A stack was run before its states were seeded.
    Stack3NotSeeded { layer_indices: [usize; 3] },
    /// A stack failed.
    Stack3Failed { layer_indices: [usize; 3], cause: String },
    /// A stack produced an invalid output.
    Stack3Output { layer_indices: [usize; 3], cause: Box<Error> },
    /// A total of the Stack3 and head ledger does not fit.
    Stack3HeadLedgerOverflow { label: &'static str },
    /// No stack was selected, or the weights do not match.
    StacksSelection,
    /// A selected stack does not exist.
    StacksExceed { layer_indices: [usize; 3], layers: usize },
    /// A selected layer is not linear attention.
    StacksNotLinear { layer_index: usize },
    /// A layer was selected twice.
    StacksDuplicate { layer_index: usize },
    /// A layer belongs to no stack.
    StacksNotSelected { layer_index: usize },
    /// A boundary layer is not full attention.
    BoundaryRequiresFull { layer_index: usize },
    /// The quantization of a boundary is unknown.
    BoundaryLedger { cause: String },
    /// The parts of a boundary could not be joined.
    BoundaryAssembly { layer_index: usize, cause: String },
    /// A boundary could not be built.
    BoundaryConstruction { layer_index: usize, profile: &'static str, cause: String },
    /// A boundary was seeded out of turn.
    BoundaryInvalidSeed { layer_index: usize, slot: usize },
    /// A boundary refused its states.
    BoundarySeed { layer_index: usize, cause: String },
    /// A boundary could not be cleared.
    BoundaryReset { layer_index: usize, cause: String },
    /// A boundary is terminal.
    BoundaryTerminal { layer_index: usize },
    /// A boundary was run before its states were seeded.
    BoundaryNotSeeded { layer_index: usize },
    /// A boundary failed.
    BoundaryFailed { layer_index: usize, cause: String },
    /// A boundary produced an invalid output.
    BoundaryOutput { layer_index: usize, cause: Box<Error> },
    /// The number of weight layers is wrong.
    BoundaryWeightLayers { got: usize },
    /// The number of layers is wrong.
    BoundaryLayers { config: usize, layer_types: usize },
    /// A layer of the fixed schedule is of the wrong kind.
    BoundaryLayerKind { kind: &'static str, layer_index: usize },
    /// A layer belongs to no transaction of the boundary body.
    BoundaryNotOwned { layer_index: usize },
    /// The number of weight layers or the head is wrong.
    TailHeadLayers,
    /// A weight of the tail head has the wrong shape.
    TailHeadShape,
    /// The tied embedding could not be packed.
    TailHeadEmbedding { cause: String },
    /// The parts of the tail head could not be joined.
    TailHeadAssembly { cause: String },
    /// The tail head could not be built.
    TailHeadConstruction { cause: String },
    /// A layer belongs to no transaction of the tail-head lane.
    TailHeadNotOwned { layer_index: usize },
    /// The tail head could not be cleared.
    TailHeadReset { cause: String },
    /// A total of the tail-head ledger does not fit.
    TailHeadLedgerOverflow { label: &'static str },
    /// The ledgers of the tail-head lane disagree on the GDN core.
    TailHeadProfiles,
    /// The tail-head lane dispatches another number of kernels.
    TailHeadTopology {
        profile: &'static str,
        dispatches: usize,
        barriers: usize,
        expected_dispatches: usize,
        expected_barriers: usize,
    },
    /// The tail-head lane submits another number of transactions.
    TailHeadSubmissions { command_buffers: usize, encoders: usize, commits: usize, waits: usize },
    /// A total of the boundary ledger does not fit.
    BoundaryLedgerOverflow { label: &'static str },
    /// The quantization of the packed reference is unknown.
    ReferenceLedger { layer_index: usize, cause: String },
    /// The packed reference was run before its state was seeded.
    ReferenceNotSeeded { layer_index: usize },
    /// The packed reference failed.
    ReferenceFailed { layer_index: usize, cause: String },
    /// The packed reference produced an invalid output.
    ReferenceOutput { layer_index: usize, cause: Box<Error> },
    /// No body layer was selected.
    BodyEmpty,
    /// A selected body layer does not exist.
    BodyOutside { layer_index: usize, layers: usize },
    /// A body layer was selected twice.
    BodyDuplicate { layer_index: usize },
    /// A gate or up projection has the wrong shape.
    BodyShape { layer_index: usize, intermediate_size: usize, hidden_size: usize },
    /// The stacked projection does not fit.
    BodyOverflow,
    /// The stacked projection could not be packed.
    BodyPacking { layer_index: usize, cause: String },
    /// The stacked projection failed.
    BodyFailed { layer_index: usize, cause: String },
    /// The stacked projection has an odd or no width.
    BodyWidth { layer_index: usize, width: usize },
    /// No MLP block was selected.
    MlpEmpty,
    /// A selected MLP block does not exist.
    MlpOutside { layer_index: usize, layers: usize },
    /// An MLP block was selected twice.
    MlpDuplicate { layer_index: usize },
    /// An MLP projection has the wrong shape.
    MlpShape { layer_index: usize, intermediate_size: usize, hidden_size: usize },
    /// An MLP block could not be packed.
    MlpPacking { layer_index: usize, cause: String },
    /// An MLP block could not be built.
    MlpConstruction { layer_index: usize, cause: String },
    /// An MLP block failed.
    MlpFailed { layer_index: usize, cause: String },
    /// Checkpoint and configuration disagree on a layer.
    AttentionMismatch { layer_index: usize },
}

/// The message of [`Error::Reported`].
pub open spec fn reported_text(cause: Seq<char>) -> Seq<char> {
    cause
}

/// The message of [`Error::ElementCount`].
pub open spec fn element_count_text(elements: int, shape: Seq<usize>) -> Seq<char> {
    "tensor of shape "@ + bracketed(shape) + " was given "@ + decimal(elements as nat)
        + " elements"@
}

/// The message of [`Error::RowShape`].
pub open spec fn row_shape_text(columns: int, got: Seq<usize>) -> Seq<char> {
    "shape mismatch: expected [1, "@ + decimal(columns as nat) + "], got "@ + bracketed(got)
}

/// The message of [`Error::RowsShape`].
pub open spec fn rows_shape_text(columns: int, got: Seq<usize>) -> Seq<char> {
    "shape mismatch: expected [non-zero rows, "@ + decimal(columns as nat) + "], got "@
        + bracketed(got)
}

/// The message of [`Error::GdnWeightShape`].
pub open spec fn gdn_weight_shape_text(
    label: &'static str,
    expected: Seq<usize>,
    got: Seq<usize>,
) -> Seq<char> {
    "shape mismatch: expected Metal W8 GDN "@ + label@ + " "@ + bracketed(expected) + ", got "@
        + bracketed(got)
}

/// The message of [`Error::LinearLayerWeightShape`].
pub open spec fn linear_layer_weight_shape_text(
    label: &'static str,
    expected: Seq<usize>,
    got: Seq<usize>,
) -> Seq<char> {
    "shape mismatch: expected Metal W8 linear layer "@ + label@ + " "@ + bracketed(expected)
        + ", got "@ + bracketed(got)
}

/// The message of [`Error::BoundaryNormShape`].
pub open spec fn boundary_norm_shape_text(hidden_size: int, got: Seq<usize>) -> Seq<char> {
    "shape mismatch: expected Metal W8 MLP→Stack3 boundary v1 post-attention RMSNorm ["@
        + decimal(hidden_size as nat) + "], got "@ + bracketed(got)
}

/// The message of [`Error::TransposeRowsShape`].
pub open spec fn transpose_rows_shape_text(
    row_start: int,
    row_end: int,
    expected_input: int,
    got: Seq<usize>,
) -> Seq<char> {
    "shape mismatch: expected [at least "@ + decimal(row_end as nat) + ", "@
        + decimal(expected_input as nat) + "] with rows "@ + decimal(row_start as nat) + ".."@
        + decimal(row_end as nat) + ", got "@ + bracketed(got)
}

/// The message of [`Error::ConvRowsShape`].
pub open spec fn conv_rows_shape_text(
    row_start: int,
    row_end: int,
    kernel_size: int,
    got: Seq<usize>,
) -> Seq<char> {
    "shape mismatch: expected [at least "@ + decimal(row_end as nat) + ", 1, "@
        + decimal(kernel_size as nat) + "] with rows "@ + decimal(row_start as nat) + ".."@
        + decimal(row_end as nat) + ", got "@ + bracketed(got)
}

/// The message of [`Error::GatedQueryShape`].
pub open spec fn gated_query_shape_text(rows: int, hidden_size: int, got: Seq<usize>) -> Seq<char> {
    "shape mismatch: expected ["@ + decimal(rows as nat) + ", "@ + decimal(hidden_size as nat)
        + "], got "@ + bracketed(got)
}

/// The message of [`Error::RopeShape`].
pub open spec fn rope_shape_text(
    sequence_length: int,
    heads: int,
    head_dim: int,
    got: Seq<usize>,
) -> Seq<char> {
    "shape mismatch: expected ["@ + decimal(sequence_length as nat) + ", "@ + decimal(heads as nat)
        + ", "@ + decimal(head_dim as nat) + "], got qwen3.5 shared text RoPE input "@
        + bracketed(got)
}

/// The message of [`Error::VisionLoad`].
pub open spec fn vision_load_text(cause: Seq<char>) -> Seq<char> {
    "load Qwen3.5 vision tensors: "@ + cause
}

/// The message of [`Error::VisionPixels`].
pub open spec fn vision_pixels_text(
    patch_count: int,
    patch_width: int,
    dtype: &'static str,
    got: Seq<usize>,
    device: Seq<char>,
) -> Seq<char> {
    "Qwen3.5 pixel_values must be CPU BF16 ["@ + decimal(patch_count as nat) + ","@
        + decimal(patch_width as nat) + "], got "@ + dtype@ + " "@ + bracketed(got) + " on "@
        + device
}

/// The message of [`Error::VisionPrimary`].
pub open spec fn vision_primary_text(
    expected_rows: int,
    out_hidden_size: int,
    dtype: &'static str,
    got: Seq<usize>,
) -> Seq<char> {
    "Qwen3.5 vision primary must be BF16 ["@ + decimal(expected_rows as nat) + ","@
        + decimal(out_hidden_size as nat) + "], got "@ + dtype@ + " "@ + bracketed(got)
}

/// The message of [`Error::CheckpointMissing`].
pub open spec fn checkpoint_missing_text(name: Seq<char>) -> Seq<char> {
    "qwen3.5 checkpoint: missing "@ + name
}

/// The message of [`Error::CheckpointShape`].
pub open spec fn checkpoint_shape_text(
    name: Seq<char>,
    expected: Seq<usize>,
    got: Seq<usize>,
) -> Seq<char> {
    "qwen3.5 checkpoint "@ + name + ": expected shape "@ + bracketed(expected) + ", got "@
        + bracketed(got)
}

/// The message of [`Error::CheckpointDtype`].
pub open spec fn checkpoint_dtype_text(name: Seq<char>, dtype: &'static str) -> Seq<char> {
    "qwen3.5 checkpoint "@ + name + ": unsupported dtype "@ + dtype@
}

/// The message of [`Error::CheckpointExactDtype`].
pub open spec fn checkpoint_exact_dtype_text(
    name: Seq<char>,
    expected: &'static str,
    got: &'static str,
) -> Seq<char> {
    "qwen3.5 checkpoint "@ + name + ": expected checkpoint dtype "@ + expected@ + ", got "@ + got@
}

/// The message of [`Error::CheckpointUnexpected`].
pub open spec fn checkpoint_unexpected_text(name: Seq<char>) -> Seq<char> {
    "qwen3.5 checkpoint: unexpected tensor "@ + name
        + "; only model.visual.* and mtp.* are explicitly ignored by the text-only loader"@
}

/// The message of [`Error::ConfiguredDtype`].
pub open spec fn configured_dtype_text(name: Seq<char>) -> Seq<char> {
    "qwen3.5 checkpoint: unsupported configured dtype `"@ + name + "`"@
}

/// The message of [`Error::Qwen3VlJson`].
pub open spec fn qwen3_vl_json_text(cause: Seq<char>) -> Seq<char> {
    "qwen3vl config json: "@ + cause
}

/// The message of [`Error::MissingWeight`].
pub open spec fn missing_weight_text(name: Seq<char>) -> Seq<char> {
    "missing "@ + name
}

/// The message of [`Error::LmHeadBuild`].
pub open spec fn lm_head_build_text(cause: Seq<char>) -> Seq<char> {
    "qwen3.5 Metal W8 lm_head: "@ + cause
}

/// The message of [`Error::Stack3HeadPostBody`].
pub open spec fn stack3_head_post_body_text(stage: &'static str, cause: Seq<char>) -> Seq<char> {
    "qwen3.5 Metal W8 Stack3 + lm_head v2 "@ + stage@ + " failed after body state advancement: "@
        + cause + "; entire lane is terminal, reset required"@
}

/// The message of [`Error::TailHeadPostBody`].
pub open spec fn tail_head_post_body_text(stage: &'static str, cause: Seq<char>) -> Seq<char> {
    "qwen3.5 Metal W8 boundary + tail-head v1 "@ + stage@
        + " failed after body state advancement: "@ + cause
        + "; entire lane is terminal, reset required"@
}

/// The message of [`Error::TailTransaction`].
pub open spec fn tail_transaction_text(cause: Seq<char>) -> Seq<char> {
    "qwen3.5 Metal W8 tail-head v1 transaction failed: "@ + cause
}

/// The message of [`Error::BoundaryBodyPartial`].
pub open spec fn boundary_body_partial_text(cause: Seq<char>) -> Seq<char> {
    "qwen3.5 Metal W8 MLP→Stack3 boundary body v1 advanced partial CPU/KV or Metal state before a later body failure: "@
        + cause + "; entire lane is terminal, reset required"@
}

/// The message of [`Error::TailHeadPartial`].
pub open spec fn tail_head_partial_text(cause: Seq<char>) -> Seq<char> {
    "qwen3.5 Metal W8 boundary + tail-head v1 advanced partial CPU/KV or Metal state before a later body failure: "@
        + cause + "; entire lane is terminal, reset required"@
}

/// The message of [`Error::LanePartial`].
pub open spec fn lane_partial_text(lane: &'static str, cause: Seq<char>) -> Seq<char> {
    "qwen3.5 complete W8 "@ + lane@ + " lane committed decode state before a later body failure: "@
        + cause + "; lane is terminal, reset required"@
}

/// The message of [`Error::HeadTopK`].
pub open spec fn head_top_k_text(phase: &'static str, cause: Seq<char>) -> Seq<char> {
    "qwen3.5 Metal W8 top-4 "@ + phase@ + " failed after state advancement: "@ + cause
}

/// The message of [`Error::HeadRerank`].
pub open spec fn head_rerank_text(phase: &'static str, cause: Seq<char>) -> Seq<char> {
    "qwen3.5 Metal W8 F32 "@ + phase@ + " rerank failed after state advancement: "@ + cause
}

/// The message of [`Error::TeacherTopK`].
pub open spec fn teacher_top_k_text(cause: Seq<char>) -> Seq<char> {
    "qwen3.5 Metal W8 top-4 teacher gate failed after state advancement: "@ + cause
}

/// The message of [`Error::GdnPacking`].
pub open spec fn gdn_packing_text(layer_index: int, cause: Seq<char>) -> Seq<char> {
    "qwen3.5 Metal W8 GDN layer "@ + decimal(layer_index as nat) + " packing failed: "@ + cause
}

/// The message of [`Error::GdnConstruction`].
pub open spec fn gdn_construction_text(layer_index: int, cause: Seq<char>) -> Seq<char> {
    "qwen3.5 Metal W8 GDN layer "@ + decimal(layer_index as nat) + " construction failed: "@ + cause
}

/// The message of [`Error::GdnSeed`].
pub open spec fn gdn_seed_text(layer_index: int, cause: Seq<char>) -> Seq<char> {
    "qwen3.5 Metal W8 GDN layer "@ + decimal(layer_index as nat) + " prefill state seed failed: "@
        + cause
}

/// The message of [`Error::GdnReset`].
pub open spec fn gdn_reset_text(layer_index: int, cause: Seq<char>) -> Seq<char> {
    "qwen3.5 Metal W8 GDN layer "@ + decimal(layer_index as nat) + " reset failed: "@ + cause
}

/// The message of [`Error::GdnFailed`].
pub open spec fn gdn_failed_text(layer_index: int, cause: Seq<char>) -> Seq<char> {
    "qwen3.5 Metal W8 GDN layer "@ + decimal(layer_index as nat) + " failed terminally: "@ + cause
}

/// The message of [`Error::GdnStateSeed`].
pub open spec fn gdn_state_seed_text(cause: Seq<char>) -> Seq<char> {
    "qwen3.5 Metal W8 GDN state seed: "@ + cause
}

/// The message of [`Error::LinearLayerGdnPacking`].
pub open spec fn linear_layer_gdn_packing_text(layer_index: int, cause: Seq<char>) -> Seq<char> {
    "qwen3.5 Metal W8 linear layer "@ + decimal(layer_index as nat) + " GDN packing failed: "@
        + cause
}

/// The message of [`Error::LinearLayerMlpPacking`].
pub open spec fn linear_layer_mlp_packing_text(layer_index: int, cause: Seq<char>) -> Seq<char> {
    "qwen3.5 Metal W8 linear layer "@ + decimal(layer_index as nat) + " MLP packing failed: "@
        + cause
}

/// The message of [`Error::LinearLayerAssembly`].
pub open spec fn linear_layer_assembly_text(layer_index: int, cause: Seq<char>) -> Seq<char> {
    "qwen3.5 Metal W8 linear layer "@ + decimal(layer_index as nat) + " assembly failed: "@ + cause
}

/// The message of [`Error::LinearLayerConstruction`].
pub open spec fn linear_layer_construction_text(layer_index: int, cause: Seq<char>) -> Seq<char> {
    "qwen3.5 Metal W8 linear layer "@ + decimal(layer_index as nat) + " construction failed: "@
        + cause
}

/// The message of [`Error::PrecisionLedger`].
pub open spec fn precision_ledger_text(layer_index: int, cause: Seq<char>) -> Seq<char> {
    "qwen3.5 Metal W8 precision-v2 linear layer "@ + decimal(layer_index as nat)
        + " ledger failed: "@ + cause
}

/// The message of [`Error::PrecisionConstruction`].
pub open spec fn precision_construction_text(layer_index: int, cause: Seq<char>) -> Seq<char> {
    "qwen3.5 Metal W8 precision-v2 linear layer "@ + decimal(layer_index as nat)
        + " construction failed: "@ + cause
}

/// The message of [`Error::LinearLayerSeed`].
pub open spec fn linear_layer_seed_text(layer_index: int, cause: Seq<char>) -> Seq<char> {
    "qwen3.5 Metal W8 linear layer "@ + decimal(layer_index as nat)
        + " prefill state seed failed: "@ + cause
}

/// The message of [`Error::LinearLayerReset`].
pub open spec fn linear_layer_reset_text(layer_index: int, cause: Seq<char>) -> Seq<char> {
    "qwen3.5 Metal W8 linear layer "@ + decimal(layer_index as nat) + " reset failed: "@ + cause
}

/// The message of [`Error::LinearLayerFailed`].
pub open spec fn linear_layer_failed_text(layer_index: int, cause: Seq<char>) -> Seq<char> {
    "qwen3.5 Metal W8 linear layer "@ + decimal(layer_index as nat) + " failed terminally: "@
        + cause + "; reset required"@
}

/// The message of [`Error::LinearLayerOutput`].
pub open spec fn linear_layer_output_text(layer_index: int, cause: Seq<char>) -> Seq<char> {
    "qwen3.5 Metal W8 linear layer "@ + decimal(layer_index as nat)
        + " produced an invalid output terminally: "@ + cause + "; reset required"@
}

/// The message of [`Error::Stack3Ledger`].
pub open spec fn stack3_ledger_text(cause: Seq<char>) -> Seq<char> {
    "qwen3.5 Metal W8 stack3-v1 quantization ledger failed: "@ + cause
}

/// The message of [`Error::Stack3Construction`].
pub open spec fn stack3_construction_text(
    layer_indices: Seq<usize>,
    profile: &'static str,
    cause: Seq<char>,
) -> Seq<char> {
    "qwen3.5 Metal W8 stack3-v1 layers "@ + bracketed(layer_indices) + " profile "@ + profile@
        + " construction failed: "@ + cause
}

/// The message of [`Error::Stack3Seed`].
pub open spec fn stack3_seed_text(layer_indices: Seq<usize>, cause: Seq<char>) -> Seq<char> {
    "qwen3.5 Metal W8 stack3-v1 "@ + bracketed(layer_indices)
        + " prefill seed failed terminally: "@ + cause + "; reset required"@
}

/// The message of [`Error::Stack3Reset`].
pub open spec fn stack3_reset_text(layer_indices: Seq<usize>, cause: Seq<char>) -> Seq<char> {
    "qwen3.5 Metal W8 stack3-v1 "@ + bracketed(layer_indices) + " reset failed: "@ + cause
}

/// The message of [`Error::Stack3Failed`].
pub open spec fn stack3_failed_text(layer_indices: Seq<usize>, cause: Seq<char>) -> Seq<char> {
    "qwen3.5 Metal W8 stack3-v1 "@ + bracketed(layer_indices) + " failed terminally: "@ + cause
        + "; reset required"@
}

/// The message of [`Error::Stack3Output`].
pub open spec fn stack3_output_text(layer_indices: Seq<usize>, cause: Seq<char>) -> Seq<char> {
    "qwen3.5 Metal W8 stack3-v1 "@ + bracketed(layer_indices)
        + " produced an invalid final output terminally: "@ + cause + "; reset required"@
}

/// The message of [`Error::BoundaryLedger`].
pub open spec fn boundary_ledger_text(cause: Seq<char>) -> Seq<char> {
    "qwen3.5 Metal W8 MLP→Stack3 boundary v1 quantization ledger failed: "@ + cause
}

/// The message of [`Error::BoundaryAssembly`].
pub open spec fn boundary_assembly_text(layer_index: int, cause: Seq<char>) -> Seq<char> {
    "qwen3.5 Metal W8 MLP→Stack3 boundary v1 layer "@ + decimal(layer_index as nat)
        + " assembly failed: "@ + cause
}

/// The message of [`Error::BoundaryConstruction`].
pub open spec fn boundary_construction_text(
    layer_index: int,
    profile: &'static str,
    cause: Seq<char>,
) -> Seq<char> {
    "qwen3.5 Metal W8 MLP→Stack3 boundary v1 layer "@ + decimal(layer_index as nat) + " profile "@
        + profile@ + " construction failed: "@ + cause
}

/// The message of [`Error::BoundarySeed`].
pub open spec fn boundary_seed_text(layer_index: int, cause: Seq<char>) -> Seq<char> {
    "qwen3.5 Metal W8 MLP→Stack3 boundary v1 layer "@ + decimal(layer_index as nat)
        + " prefill seed failed terminally: "@ + cause + "; reset required"@
}

/// The message of [`Error::BoundaryReset`].
pub open spec fn boundary_reset_text(layer_index: int, cause: Seq<char>) -> Seq<char> {
    "qwen3.5 Metal W8 MLP→Stack3 boundary v1 layer "@ + decimal(layer_index as nat)
        + " reset failed: "@ + cause
}

/// The message of [`Error::BoundaryFailed`].
pub open spec fn boundary_failed_text(layer_index: int, cause: Seq<char>) -> Seq<char> {
    "qwen3.5 Metal W8 MLP→Stack3 boundary v1 layer "@ + decimal(layer_index as nat)
        + " failed terminally: "@ + cause + "; reset required"@
}

/// The message of [`Error::BoundaryOutput`].
pub open spec fn boundary_output_text(layer_index: int, cause: Seq<char>) -> Seq<char> {
    "qwen3.5 Metal W8 MLP→Stack3 boundary v1 layer "@ + decimal(layer_index as nat)
        + " produced an invalid final output terminally: "@ + cause + "; reset required"@
}

/// The message of [`Error::TailHeadEmbedding`].
pub open spec fn tail_head_embedding_text(cause: Seq<char>) -> Seq<char> {
    "qwen3.5 Metal W8 tail-head v1 tied embedding packing failed: "@ + cause
}

/// The message of [`Error::TailHeadAssembly`].
pub open spec fn tail_head_assembly_text(cause: Seq<char>) -> Seq<char> {
    "qwen3.5 Metal W8 tail-head v1 assembly failed: "@ + cause
}

/// The message of [`Error::TailHeadConstruction`].
pub open spec fn tail_head_construction_text(cause: Seq<char>) -> Seq<char> {
    "qwen3.5 Metal W8 tail-head v1 construction failed: "@ + cause
}

/// The message of [`Error::TailHeadReset`].
pub open spec fn tail_head_reset_text(cause: Seq<char>) -> Seq<char> {
    "qwen3.5 Metal W8 boundary + tail-head v1 reset failed: "@ + cause
}

/// The message of [`Error::ReferenceLedger`].
pub open spec fn reference_ledger_text(layer_index: int, cause: Seq<char>) -> Seq<char> {
    "qwen3.5 packed W8 linear layer "@ + decimal(layer_index as nat)
        + " precision ledger failed: "@ + cause
}

/// The message of [`Error::ReferenceFailed`].
pub open spec fn reference_failed_text(layer_index: int, cause: Seq<char>) -> Seq<char> {
    "qwen3.5 packed W8 linear-layer reference "@ + decimal(layer_index as nat)
        + " failed terminally: "@ + cause + "; reset required"@
}

/// The message of [`Error::ReferenceOutput`].
pub open spec fn reference_output_text(layer_index: int, cause: Seq<char>) -> Seq<char> {
    "qwen3.5 packed W8 linear-layer reference "@ + decimal(layer_index as nat)
        + " produced an invalid output terminally: "@ + cause + "; reset required"@
}

/// The message of [`Error::BodyPacking`].
pub open spec fn body_packing_text(layer_index: int, cause: Seq<char>) -> Seq<char> {
    "qwen3.5 Metal W8 body layer "@ + decimal(layer_index as nat) + " gate+up packing failed: "@
        + cause
}

/// The message of [`Error::BodyFailed`].
pub open spec fn body_failed_text(layer_index: int, cause: Seq<char>) -> Seq<char> {
    "qwen3.5 Metal W8 body layer "@ + decimal(layer_index as nat) + " gate+up failed: "@ + cause
}

/// The message of [`Error::MlpPacking`].
pub open spec fn mlp_packing_text(layer_index: int, cause: Seq<char>) -> Seq<char> {
    "qwen3.5 Metal W8 MLP block layer "@ + decimal(layer_index as nat) + " packing failed: "@
        + cause
}

/// The message of [`Error::MlpConstruction`].
pub open spec fn mlp_construction_text(layer_index: int, cause: Seq<char>) -> Seq<char> {
    "qwen3.5 Metal W8 MLP block layer "@ + decimal(layer_index as nat) + " construction failed: "@
        + cause
}

/// The message of [`Error::MlpFailed`].
pub open spec fn mlp_failed_text(layer_index: int, cause: Seq<char>) -> Seq<char> {
    "qwen3.5 Metal W8 MLP block layer "@ + decimal(layer_index as nat) + " failed: "@ + cause
}

impl Error {
    /// The characters of the message.
    pub open spec fn text(self) -> Seq<char>
        decreases self,
    {
        match self {
            Error::Reported { cause } => reported_text(cause@),
            Error::ElementCount { elements, shape } => element_count_text(elements as int, shape@),
            Error::NotF32 { dtype } => "tensor holds "@ + dtype@ + " values, not f32"@,
            Error::RowShape { columns, got } => row_shape_text(columns as int, got@),
            Error::RowsShape { columns, got } => rows_shape_text(columns as int, got@),
            Error::RerankShape { vocab_size, hidden_size, embedding, hidden } => "shape mismatch: expected embedding=["@
                + decimal(vocab_size as nat) + ", "@ + decimal(hidden_size as nat) + "], hidden=["@
                + decimal(hidden_size as nat) + "], got embedding elements="@
                + decimal(embedding as nat) + ", hidden elements="@ + decimal(hidden as nat),
            Error::GdnWeightShape { label, expected, got } => gdn_weight_shape_text(
                label,
                expected@,
                got@,
            ),
            Error::LinearLayerWeightShape {
                label,
                expected,
                got,
            } => linear_layer_weight_shape_text(label, expected@, got@),
            Error::BoundaryNormShape { hidden_size, got } => boundary_norm_shape_text(
                hidden_size as int,
                got@,
            ),
            Error::TransposeRowsShape {
                row_start,
                row_end,
                expected_input,
                got,
            } => transpose_rows_shape_text(row_start as int, row_end as int, expected_input as int, got@),
            Error::ConvRowsShape { row_start, row_end, kernel_size, got } => conv_rows_shape_text(
                row_start as int,
                row_end as int,
                kernel_size as int,
                got@,
            ),
            Error::GatedQueryShape { rows, hidden_size, got } => gated_query_shape_text(
                rows as int,
                hidden_size as int,
                got@,
            ),
            Error::RopeShape { sequence_length, heads, head_dim, got } => rope_shape_text(
                sequence_length as int,
                heads as int,
                head_dim as int,
                got@,
            ),
            Error::NotOnCpuBeforePacking { label } => "qwen3.5 "@ + label@
                + ": checkpoint tensor must be on CPU before packing"@,
            Error::NotOnCpu { label } => "qwen3.5 "@ + label@
                + ": checkpoint tensor must be on CPU"@,
            Error::UnsupportedDtype { label, dtype } => "qwen3.5 "@ + label@
                + ": unsupported dtype "@ + dtype@,
            Error::GatedQueryOverflow => "qwen3.5 q_proj dimensions overflow"@,
            Error::MropeEmpty => "Qwen3.5 mRoPE requires non-empty modality types and non-zero merge size"@,
            Error::MropeMissingGrid => "Qwen3.5 mRoPE image group has no matching grid"@,
            Error::MropeInvalidGrid { temporal, height, width, merge } => "Qwen3.5 mRoPE invalid image grid ["@
                + decimal(temporal as nat) + ", "@ + decimal(height as nat) + ", "@
                + decimal(width as nat) + "] for merge "@ + decimal(merge as nat),
            Error::MropeGroupLength { tokens, expected, temporal, height, width } => "Qwen3.5 mRoPE image group has "@
                + decimal(tokens as nat) + " tokens, expected "@ + decimal(expected as nat)
                + " from grid ["@ + decimal(temporal as nat) + ", "@ + decimal(height as nat)
                + ", "@ + decimal(width as nat) + "]"@,
            Error::MropeModality { modality } => "Qwen3.5 mRoPE modality "@
                + decimal(modality as nat)
                + " is unsupported; native v1 supports text and one image"@,
            Error::MropeLeftoverGrids { consumed, grids } => "Qwen3.5 mRoPE consumed "@
                + decimal(consumed as nat) + " image grids, got "@ + decimal(grids as nat),
            Error::ZeroContext => "qwen3.5: max context must be greater than zero"@,
            Error::NoLinearState { layer_index } => "qwen3.5: layer "@
                + decimal(layer_index as nat) + " has no linear-attention state"@,
            Error::NoKvCache { layer_index } => "qwen3.5: layer "@ + decimal(layer_index as nat)
                + " has no full-attention KV cache"@,
            Error::StartPosition { start_pos, position } => "qwen3.5: start_pos "@
                + decimal(start_pos as nat) + " does not match cached position "@
                + decimal(position as nat),
            Error::KvPosition { kv_position, position } => "qwen3.5: KV position "@
                + decimal(kv_position as nat) + " disagrees with hybrid position "@
                + decimal(position as nat),
            Error::ContextOverflow => "qwen3.5: context length overflow"@,
            Error::ContextExceeded { end, max_context } => "qwen3.5: context end "@
                + decimal(end as nat) + " exceeds configured maximum "@
                + decimal(max_context as nat),
            Error::VisionDeepstack => "Qwen3.5 vision encoder does not support deepstack outputs"@,
            Error::VisionLoad { cause } => vision_load_text(cause@),
            Error::VisionPatchWidth => "Qwen3.5 vision patch width overflow"@,
            Error::VisionPatchCount => "Qwen3.5 vision patch count overflow"@,
            Error::VisionPixels {
                patch_count,
                patch_width,
                dtype,
                got,
                device,
            } => vision_pixels_text(patch_count as int, patch_width as int, dtype, got@, device@),
            Error::VisionUnexpectedDeepstack => "Qwen3.5 vision encoder produced unexpected deepstack outputs"@,
            Error::VisionPrimary {
                expected_rows,
                out_hidden_size,
                dtype,
                got,
            } => vision_primary_text(expected_rows as int, out_hidden_size as int, dtype, got@),
            Error::CheckpointMissing { name } => checkpoint_missing_text(name@),
            Error::CheckpointShape { name, expected, got } => checkpoint_shape_text(
                name@,
                expected@,
                got@,
            ),
            Error::CheckpointDtype { name, dtype } => checkpoint_dtype_text(name@, dtype),
            Error::CheckpointExactDtype { name, expected, got } => checkpoint_exact_dtype_text(
                name@,
                expected,
                got,
            ),
            Error::CheckpointUnexpected { name } => checkpoint_unexpected_text(name@),
            Error::ConfiguredDtype { name } => configured_dtype_text(name@),
            Error::Qwen3VlJson { cause } => qwen3_vl_json_text(cause@),
            Error::Qwen3VlTextConfig => "qwen3vl config: missing text_config"@,
            Error::Qwen3VlMropeSection => "qwen3vl config: missing rope_scaling.mrope_section"@,
            Error::Qwen3VlMropeLength { entries } => "qwen3vl config: mrope_section must be [T,H,W] (3 entries), got "@
                + decimal(entries as nat),
            Error::MissingWeight { name } => missing_weight_text(name@),
            Error::TransposeRank { rank } => "transpose_2d expected 2D tensor, got "@
                + decimal(rank as nat) + "D"@,
            Error::TransposeDtype { dtype } => "Qwen3-VL weight transpose does not support "@
                + dtype@,
            Error::VisionTransposeRank { rank } => "transpose_2d expected 2D, got "@
                + decimal(rank as nat) + "D"@,
            Error::VisionTransposeDtype { dtype } => "Qwen3-VL vision transpose does not support "@
                + dtype@,
            Error::VisionReshapeCount { elements, rows, cols } => "reshape_5d_to_2d: "@
                + decimal(elements as nat) + " elements != "@ + decimal(rows as nat) + "x"@
                + decimal(cols as nat),
            Error::VisionReshapeDtype { dtype } => "Qwen3-VL vision reshape does not support "@
                + dtype@,
            Error::QkStagedProfile => "qwen3.5 Metal W8 production route rejects the diagnostic-only qk-staged GDN core control"@,
            Error::FusedShape { hidden, key_heads, value_heads, key_dim, value_dim, conv, eps_bits } => "qwen3.5 Metal W8 gdn-core-fused-v1 production route is fixed to H=1024/KH=16/VH=16/KD=128/VD=128/conv=4/eps=1e-6, got H="@
                + decimal(hidden as nat) + "/KH="@ + decimal(key_heads as nat) + "/VH="@
                + decimal(value_heads as nat) + "/KD="@ + decimal(key_dim as nat) + "/VD="@
                + decimal(value_dim as nat) + "/conv="@ + decimal(conv as nat) + "/eps_bits=0x"@
                + hexadecimal(eps_bits as nat, 8),
            Error::StackRunLength { route, length, run_start } => "qwen3.5 Metal W8 "@ + route@
                + " requires linear-attention runs of exactly three layers, got "@
                + decimal(length as nat) + " at "@ + decimal(run_start as nat),
            Error::StackRunsMissing { route } => "qwen3.5 Metal W8 "@ + route@
                + " requires both linear stacks and full-attention layers"@,
            Error::TailHeadUntied => "qwen3.5 Metal W8 boundary + tail-head v1 requires tied word embeddings"@,
            Error::ConfigLayers { got, expected } => "qwen3.5: configuration lists "@ + decimal(
                got as nat,
            ) + " layer types, expected "@ + decimal(expected as nat),
            Error::ConfigWidths => "qwen3.5: configuration widths exceed the machine size"@,
            Error::CpuOnly => "Qwen3.5 native runtime currently supports CPU only; Metal/Accelerate kernels are the next backend slice"@,
            Error::WeightLayers { got, expected } => "qwen3.5: received "@ + decimal(got as nat)
                + " weight layers, expected "@ + decimal(expected as nat),
            Error::LmHeadUntied => "qwen3.5 Metal W8 lm_head requires a checkpoint with tied word embeddings"@,
            Error::LmHeadBuild { cause } => lm_head_build_text(cause@),
            Error::Stack3HeadTerminal => "qwen3.5 Metal W8 Stack3 + lm_head v2 lane is terminal after a post-body error; reset required"@,
            Error::LinearLayerTerminal { layer_index } => "qwen3.5 Metal W8 linear layer "@
                + decimal(layer_index as nat)
                + " is terminal after a decode error; reset required"@,
            Error::ReferenceTerminal { layer_index } => "qwen3.5 packed W8 linear-layer reference "@
                + decimal(layer_index as nat)
                + " is terminal after a decode error; reset required"@,
            Error::AllLinearTerminal => "qwen3.5 Metal W8 all-linear-layers precision-v2 lane is terminal after a decode error; reset required"@,
            Error::StacksTerminal => "qwen3.5 Metal W8 stack3-v1 lane is terminal after a decode error; reset required"@,
            Error::BoundaryBodyTerminal => "qwen3.5 Metal W8 MLP→Stack3 boundary body v1 lane is terminal after an error; reset required"@,
            Error::TailHeadTerminal => "qwen3.5 Metal W8 boundary + tail-head v1 lane is terminal after an error; reset required"@,
            Error::Stack3HeadPostBody { stage, cause } => stack3_head_post_body_text(
                stage,
                cause.text(),
            ),
            Error::TailHeadPostBody { stage, cause } => tail_head_post_body_text(
                stage,
                cause.text(),
            ),
            Error::TailTransaction { cause } => tail_transaction_text(cause@),
            Error::ReferenceOwnsState { layer_index } => "qwen3.5 packed W8 linear-layer reference "@
                + decimal(layer_index as nat)
                + " owns decode state; only single-token decode is valid until reset"@,
            Error::LinearLayerOwnsState { layer_index } => "qwen3.5 Metal W8 linear layer "@
                + decimal(layer_index as nat)
                + " owns decode state; only single-token decode is valid until reset"@,
            Error::AllLinearOwnsState { layer_index } => "qwen3.5 Metal W8 all-linear precision-v2 layer "@
                + decimal(layer_index as nat)
                + " owns decode state; only single-token decode is valid until reset"@,
            Error::GdnOwnsState { layer_index } => "qwen3.5 Metal W8 GDN layer "@
                + decimal(layer_index as nat)
                + " owns decode state; only single-token decode is valid until reset"@,
            Error::Stack3OwnsState => "qwen3.5 Metal W8 Stack3 body owns decode state; only single-token decode is valid until reset"@,
            Error::LayerKindMismatch { layer_index } => "qwen3.5: runtime/checkpoint layer kind mismatch at layer "@
                + decimal(layer_index as nat),
            Error::BoundaryOutsideBody { layer_index } => "qwen3.5 Metal W8 MLP→Stack3 boundary body v1 layer "@
                + decimal(layer_index as nat) + " is outside the runtime body"@,
            Error::BoundaryNotFull { layer_index } => "qwen3.5 Metal W8 MLP→Stack3 boundary body v1 expected full attention at layer "@
                + decimal(layer_index as nat),
            Error::BoundaryScheduleChanged { layer_index } => "qwen3.5 Metal W8 MLP→Stack3 boundary body v1 schedule changed at full-attention layer "@
                + decimal(layer_index as nat),
            Error::EmptyTokens => "qwen3.5 forward: empty token_ids"@,
            Error::TokenOutsideVocabulary { token, vocab_size } => "qwen3.5: token id "@
                + decimal(token as nat) + " is outside vocabulary size "@
                + decimal(vocab_size as nat),
            Error::TailHeadNoOwner { layer_index } => "qwen3.5 Metal W8 boundary + tail-head v1 has no decode owner for layer "@
                + decimal(layer_index as nat),
            Error::BoundaryBodyNoOwner { layer_index } => "qwen3.5 Metal W8 MLP→Stack3 boundary body v1 has no decode owner for layer "@
                + decimal(layer_index as nat),
            Error::BoundaryBodyPartial { cause } => boundary_body_partial_text(cause.text()),
            Error::TailHeadPartial { cause } => tail_head_partial_text(cause.text()),
            Error::LanePartial { lane, cause } => lane_partial_text(lane, cause.text()),
            Error::HeadTopK { phase, cause } => head_top_k_text(phase, cause@),
            Error::HeadRerank { phase, cause } => head_rerank_text(phase, cause.text()),
            Error::TeacherTopK { cause } => teacher_top_k_text(cause@),
            Error::TeacherNeedsHead => "qwen3.5 teacher gate requires an enabled Metal W8 lm_head"@,
            Error::RerankOverflow => "qwen3.5 F32 rerank dimensions overflow"@,
            Error::RerankOutside { index, token, vocab_size } => "qwen3.5 F32 rerank candidate "@
                + decimal(index as nat) + " token "@ + decimal(token as nat)
                + " is outside vocabulary "@ + decimal(vocab_size as nat),
            Error::RerankDuplicate { token } => "qwen3.5 F32 rerank received duplicate candidate token "@
                + decimal(token as nat),
            Error::RerankNonFinite { token } => "qwen3.5 F32 rerank produced a non-finite score for token "@
                + decimal(token as nat),
            Error::NestedConfig => "GeneralQwen35 uses the nested qwen3_5 config; load it through AutoModel or GeneralQwen35::from_weights"@,
            Error::ImageInput => "this model does not support image input"@,
            Error::BudgetOverflow => "qwen3.5 generation: requested context length overflow"@,
            Error::BudgetExceeded { prompt_len, max_new_tokens, max_context } => "qwen3.5 generation: prompt length "@
                + decimal(prompt_len as nat) + " + generation budget "@
                + decimal(max_new_tokens as nat) + " exceeds configured maximum "@
                + decimal(max_context as nat),
            Error::RopeEmpty => "qwen3.5 shared text RoPE requires a non-empty sequence"@,
            Error::RopeDimension { rotary_dim, head_dim } => "qwen3.5 shared text RoPE requires a non-zero, even rotary_dim <= head_dim; got "@
                + decimal(rotary_dim as nat) + " and "@ + decimal(head_dim as nat),
            Error::RopeTheta { theta } => "qwen3.5 shared text RoPE requires finite positive theta; got "@
                + theta@,
            Error::RopeOverflow => "qwen3.5 shared text RoPE table length overflow"@,
            Error::GdnOutside { layer_index, layers } => "qwen3.5 Metal W8 GDN layer "@
                + decimal(layer_index as nat) + " is outside 0.."@ + decimal(layers as nat),
            Error::GdnNotLinear { layer_index } => "qwen3.5 Metal W8 GDN layer "@
                + decimal(layer_index as nat) + " is not linear attention"@,
            Error::GdnCheckpointNotLinear { layer_index } => "qwen3.5 Metal W8 GDN layer "@
                + decimal(layer_index as nat) + " checkpoint is not linear attention"@,
            Error::GdnOverflow => "qwen3.5 Metal W8 GDN dimensions overflow"@,
            Error::GdnPacking { layer_index, cause } => gdn_packing_text(
                layer_index as int,
                cause@,
            ),
            Error::GdnConstruction { layer_index, cause } => gdn_construction_text(
                layer_index as int,
                cause@,
            ),
            Error::GdnSeed { layer_index, cause } => gdn_seed_text(layer_index as int, cause@),
            Error::GdnReset { layer_index, cause } => gdn_reset_text(layer_index as int, cause@),
            Error::GdnFailed { layer_index, cause } => gdn_failed_text(layer_index as int, cause@),
            Error::GdnStateMissing { label } => "qwen3.5 Metal W8 GDN CPU prefill did not produce "@
                + label@ + " state"@,
            Error::GdnStateSeed { cause } => gdn_state_seed_text(cause@),
            Error::LinearLayerOutside { layer_index, layers } => "qwen3.5 Metal W8 linear layer "@
                + decimal(layer_index as nat) + " is outside 0.."@ + decimal(layers as nat),
            Error::LinearLayerNotLinear { layer_index } => "qwen3.5 Metal W8 linear layer "@
                + decimal(layer_index as nat) + " is not linear attention"@,
            Error::LinearLayerCheckpointNotLinear { layer_index } => "qwen3.5 Metal W8 linear layer "@
                + decimal(layer_index as nat) + " checkpoint is not linear attention"@,
            Error::LinearLayerOverflow => "qwen3.5 Metal W8 linear layer dimensions overflow"@,
            Error::LinearLayerGdnPacking { layer_index, cause } => linear_layer_gdn_packing_text(
                layer_index as int,
                cause@,
            ),
            Error::LinearLayerMlpPacking { layer_index, cause } => linear_layer_mlp_packing_text(
                layer_index as int,
                cause@,
            ),
            Error::LinearLayerAssembly { layer_index, cause } => linear_layer_assembly_text(
                layer_index as int,
                cause@,
            ),
            Error::LinearLayerConstruction { layer_index, cause } => linear_layer_construction_text(
                layer_index as int,
                cause@,
            ),
            Error::PrecisionLedger { layer_index, cause } => precision_ledger_text(
                layer_index as int,
                cause@,
            ),
            Error::PrecisionConstruction { layer_index, cause } => precision_construction_text(
                layer_index as int,
                cause@,
            ),
            Error::LinearLayerSeed { layer_index, cause } => linear_layer_seed_text(
                layer_index as int,
                cause@,
            ),
            Error::LinearLayerReset { layer_index, cause } => linear_layer_reset_text(
                layer_index as int,
                cause@,
            ),
            Error::LinearLayerNotSeeded { layer_index } => "qwen3.5 Metal W8 linear layer "@
                + decimal(layer_index as nat)
                + " decode state was not seeded by CPU prefill; reset required"@,
            Error::LinearLayerFailed { layer_index, cause } => linear_layer_failed_text(
                layer_index as int,
                cause@,
            ),
            Error::LinearLayerOutput { layer_index, cause } => linear_layer_output_text(
                layer_index as int,
                cause.text(),
            ),
            Error::AllLinearLayers { got, expected } => "qwen3.5 all-linear precision-v2 received "@
                + decimal(got as nat) + " weight layers for "@ + decimal(expected as nat)
                + " configured layer types"@,
            Error::AllLinearEmpty => "qwen3.5 all-linear precision-v2 requires at least one linear-attention layer"@,
            Error::Stack3Ledger { cause } => stack3_ledger_text(cause@),
            Error::Stack3Construction { layer_indices, profile, cause } => stack3_construction_text(
                layer_indices@,
                profile,
                cause@,
            ),
            Error::Stack3InvalidSeed { layer_indices, slot } => "qwen3.5 Metal W8 stack3-v1 "@
                + bracketed(layer_indices@)
                + " received an invalid or duplicate prefill seed for slot "@
                + decimal(slot as nat) + "; reset required"@,
            Error::Stack3Seed { layer_indices, cause } => stack3_seed_text(layer_indices@, cause@),
            Error::Stack3Reset { layer_indices, cause } => stack3_reset_text(
                layer_indices@,
                cause@,
            ),
            Error::Stack3Terminal { layer_indices } => "qwen3.5 Metal W8 stack3-v1 "@
                + bracketed(layer_indices@) + " is terminal after a decode error; reset required"@,
            Error::Stack3NotSeeded { layer_indices } => "qwen3.5 Metal W8 stack3-v1 "@
                + bracketed(layer_indices@)
                + " was not fully seeded by CPU prefill; reset required"@,
            Error::Stack3Failed { layer_indices, cause } => stack3_failed_text(
                layer_indices@,
                cause@,
            ),
            Error::Stack3Output { layer_indices, cause } => stack3_output_text(
                layer_indices@,
                cause.text(),
            ),
            Error::Stack3HeadLedgerOverflow { label } => "qwen3.5 Stack3 + lm_head v2 "@ + label@
                + " overflow"@,
            Error::StacksSelection => "qwen3.5 Metal W8 stack3-v1 requires matching weights and at least one stack"@,
            Error::StacksExceed { layer_indices, layers } => "qwen3.5 Metal W8 stack3-v1 layers "@
                + bracketed(layer_indices@) + " exceed 0.."@ + decimal(layers as nat),
            Error::StacksNotLinear { layer_index } => "qwen3.5 Metal W8 stack3-v1 layer "@
                + decimal(layer_index as nat) + " is not linear attention"@,
            Error::StacksDuplicate { layer_index } => "qwen3.5 Metal W8 stack3-v1 layer "@
                + decimal(layer_index as nat) + " was selected more than once"@,
            Error::StacksNotSelected { layer_index } => "qwen3.5 Metal W8 stack3-v1 layer "@
                + decimal(layer_index as nat) + " is not selected"@,
            Error::BoundaryRequiresFull { layer_index } => "qwen3.5 Metal W8 MLP→Stack3 boundary v1 requires full-attention layer at index "@
                + decimal(layer_index as nat),
            Error::BoundaryLedger { cause } => boundary_ledger_text(cause@),
            Error::BoundaryAssembly { layer_index, cause } => boundary_assembly_text(
                layer_index as int,
                cause@,
            ),
            Error::BoundaryConstruction {
                layer_index,
                profile,
                cause,
            } => boundary_construction_text(layer_index as int, profile, cause@),
            Error::BoundaryInvalidSeed { layer_index, slot } => "qwen3.5 Metal W8 MLP→Stack3 boundary v1 layer "@
                + decimal(layer_index as nat)
                + " received an invalid or duplicate prefill seed for slot "@
                + decimal(slot as nat) + "; reset required"@,
            Error::BoundarySeed { layer_index, cause } => boundary_seed_text(
                layer_index as int,
                cause@,
            ),
            Error::BoundaryReset { layer_index, cause } => boundary_reset_text(
                layer_index as int,
                cause@,
            ),
            Error::BoundaryTerminal { layer_index } => "qwen3.5 Metal W8 MLP→Stack3 boundary v1 layer "@
                + decimal(layer_index as nat)
                + " is terminal after a decode error; reset required"@,
            Error::BoundaryNotSeeded { layer_index } => "qwen3.5 Metal W8 MLP→Stack3 boundary v1 layer "@
                + decimal(layer_index as nat)
                + " was not fully seeded by CPU prefill; reset required"@,
            Error::BoundaryFailed { layer_index, cause } => boundary_failed_text(
                layer_index as int,
                cause@,
            ),
            Error::BoundaryOutput { layer_index, cause } => boundary_output_text(
                layer_index as int,
                cause.text(),
            ),
            Error::BoundaryWeightLayers { got } => "qwen3.5 Metal W8 MLP→Stack3 boundary body v1 requires exactly 24 weight layers, got "@
                + decimal(got as nat),
            Error::BoundaryLayers { config, layer_types } => "qwen3.5 Metal W8 MLP→Stack3 boundary body v1 requires exactly 24 layers, got config="@
                + decimal(config as nat) + " and layer_types="@ + decimal(layer_types as nat),
            Error::BoundaryLayerKind { kind, layer_index } => "qwen3.5 Metal W8 MLP→Stack3 boundary body v1 requires "@
                + kind@ + " layer at index "@ + decimal(layer_index as nat),
            Error::BoundaryNotOwned { layer_index } => "qwen3.5 Metal W8 MLP→Stack3 boundary body v1 layer "@
                + decimal(layer_index as nat) + " is not owned"@,
            Error::TailHeadLayers => "qwen3.5 Metal W8 boundary + tail-head v1 requires 24 layers and tied word embeddings"@,
            Error::TailHeadShape => "qwen3.5 Metal W8 tail-head v1 RMS or tied embedding shape changed"@,
            Error::TailHeadEmbedding { cause } => tail_head_embedding_text(cause@),
            Error::TailHeadAssembly { cause } => tail_head_assembly_text(cause@),
            Error::TailHeadConstruction { cause } => tail_head_construction_text(cause@),
            Error::TailHeadNotOwned { layer_index } => "qwen3.5 Metal W8 boundary + tail-head v1 layer "@
                + decimal(layer_index as nat) + " is not owned"@,
            Error::TailHeadReset { cause } => tail_head_reset_text(cause@),
            Error::TailHeadLedgerOverflow { label } => "qwen3.5 Metal W8 boundary + tail-head v1 "@
                + label@ + " overflow"@,
            Error::TailHeadProfiles => "qwen3.5 Metal W8 boundary + tail-head v1 requires one consistent production GDN core profile across the initial stack and all five boundaries"@,
            Error::TailHeadTopology { profile, dispatches, barriers, expected_dispatches, expected_barriers } => "qwen3.5 Metal W8 boundary + tail-head v1 profile "@
                + profile@ + " topology is "@ + decimal(dispatches as nat) + " dispatches/"@
                + decimal(barriers as nat) + " barriers, expected "@
                + decimal(expected_dispatches as nat) + "/"@ + decimal(expected_barriers as nat),
            Error::TailHeadSubmissions { command_buffers, encoders, commits, waits } => "qwen3.5 Metal W8 boundary + tail-head v1 submission topology is "@
                + decimal(command_buffers as nat) + " command buffers/"@ + decimal(encoders as nat)
                + " encoders/"@ + decimal(commits as nat) + " commits/"@ + decimal(waits as nat)
                + " waits, expected 7/24/7/7"@,
            Error::BoundaryLedgerOverflow { label } => "qwen3.5 Metal W8 MLP→Stack3 boundary body v1 "@
                + label@ + " overflow"@,
            Error::ReferenceLedger { layer_index, cause } => reference_ledger_text(
                layer_index as int,
                cause@,
            ),
            Error::ReferenceNotSeeded { layer_index } => "qwen3.5 packed W8 linear-layer reference "@
                + decimal(layer_index as nat) + " was not seeded by CPU prefill; reset required"@,
            Error::ReferenceFailed { layer_index, cause } => reference_failed_text(
                layer_index as int,
                cause@,
            ),
            Error::ReferenceOutput { layer_index, cause } => reference_output_text(
                layer_index as int,
                cause.text(),
            ),
            Error::BodyEmpty => "qwen3.5 Metal W8 body requires at least one selected layer"@,
            Error::BodyOutside { layer_index, layers } => "qwen3.5 Metal W8 body layer "@
                + decimal(layer_index as nat) + " is outside 0.."@ + decimal(layers as nat),
            Error::BodyDuplicate { layer_index } => "qwen3.5 Metal W8 body layer "@
                + decimal(layer_index as nat) + " was selected more than once"@,
            Error::BodyShape { layer_index, intermediate_size, hidden_size } => "qwen3.5 Metal W8 body layer "@
                + decimal(layer_index as nat) + " requires gate/up shape ["@
                + decimal(intermediate_size as nat) + ", "@ + decimal(hidden_size as nat) + "]"@,
            Error::BodyOverflow => "qwen3.5 Metal W8 gate+up dimensions overflow"@,
            Error::BodyPacking { layer_index, cause } => body_packing_text(
                layer_index as int,
                cause@,
            ),
            Error::BodyFailed { layer_index, cause } => body_failed_text(
                layer_index as int,
                cause@,
            ),
            Error::BodyWidth { layer_index, width } => "qwen3.5 Metal W8 body layer "@
                + decimal(layer_index as nat) + " returned invalid gate+up width "@
                + decimal(width as nat),
            Error::MlpEmpty => "qwen3.5 Metal W8 MLP block requires at least one selected layer"@,
            Error::MlpOutside { layer_index, layers } => "qwen3.5 Metal W8 MLP block layer "@
                + decimal(layer_index as nat) + " is outside 0.."@ + decimal(layers as nat),
            Error::MlpDuplicate { layer_index } => "qwen3.5 Metal W8 MLP block layer "@
                + decimal(layer_index as nat) + " was selected more than once"@,
            Error::MlpShape { layer_index, intermediate_size, hidden_size } => "qwen3.5 Metal W8 MLP block layer "@
                + decimal(layer_index as nat) + " requires gate/up ["@
                + decimal(intermediate_size as nat) + ", "@ + decimal(hidden_size as nat)
                + "] and down ["@ + decimal(hidden_size as nat) + ", "@
                + decimal(intermediate_size as nat) + "]"@,
            Error::MlpPacking { layer_index, cause } => mlp_packing_text(
                layer_index as int,
                cause@,
            ),
            Error::MlpConstruction { layer_index, cause } => mlp_construction_text(
                layer_index as int,
                cause@,
            ),
            Error::MlpFailed { layer_index, cause } => mlp_failed_text(layer_index as int, cause@),
            Error::AttentionMismatch { layer_index } => "qwen3.5: checkpoint/config attention mismatch at layer "@
                + decimal(layer_index as nat),
        }
    }

    /// Renders the message.
    pub fn message(&self) -> (out: String)
        ensures
            out@ == self.text(),
        decreases self,
    {
        match self {
            Error::Reported { cause } => cause.clone(),
            Error::ElementCount { elements, shape } => {
                let mut out = "tensor of shape ".to_owned();
                push_list(&mut out, shape.as_slice());
                out.append(" was given ");
                push_size(&mut out, *elements);
                out.append(" elements");
                out
            },
            Error::NotF32 { dtype } => {
                let mut out = "tensor holds ".to_owned();
                out.append(dtype);
                out.append(" values, not f32");
                out
            },
            Error::RowShape { columns, got } => {
                let mut out = "shape mismatch: expected [1, ".to_owned();
                push_size(&mut out, *columns);
                out.append("], got ");
                push_list(&mut out, got.as_slice());
                out
            },
            Error::RowsShape { columns, got } => {
                let mut out = "shape mismatch: expected [non-zero rows, ".to_owned();
                push_size(&mut out, *columns);
                out.append("], got ");
                push_list(&mut out, got.as_slice());
                out
            },
            Error::RerankShape { vocab_size, hidden_size, embedding, hidden } => {
                let mut out = "shape mismatch: expected embedding=[".to_owned();
                push_size(&mut out, *vocab_size);
                out.append(", ");
                push_size(&mut out, *hidden_size);
                out.append("], hidden=[");
                push_size(&mut out, *hidden_size);
                out.append("], got embedding elements=");
                push_size(&mut out, *embedding);
                out.append(", hidden elements=");
                push_size(&mut out, *hidden);
                out
            },
            Error::GdnWeightShape { label, expected, got } => {
                let mut out = "shape mismatch: expected Metal W8 GDN ".to_owned();
                out.append(label);
                out.append(" ");
                push_list(&mut out, expected.as_slice());
                out.append(", got ");
                push_list(&mut out, got.as_slice());
                out
            },
            Error::LinearLayerWeightShape { label, expected, got } => {
                let mut out = "shape mismatch: expected Metal W8 linear layer ".to_owned();
                out.append(label);
                out.append(" ");
                push_list(&mut out, expected.as_slice());
                out.append(", got ");
                push_list(&mut out, got.as_slice());
                out
            },
            Error::BoundaryNormShape { hidden_size, got } => {
                let mut out = "shape mismatch: expected Metal W8 MLP→Stack3 boundary v1 post-attention RMSNorm [".to_owned();
                push_size(&mut out, *hidden_size);
                out.append("], got ");
                push_list(&mut out, got.as_slice());
                out
            },
            Error::TransposeRowsShape { row_start, row_end, expected_input, got } => {
                let mut out = "shape mismatch: expected [at least ".to_owned();
                push_size(&mut out, *row_end);
                out.append(", ");
                push_size(&mut out, *expected_input);
                out.append("] with rows ");
                push_size(&mut out, *row_start);
                out.append("..");
                push_size(&mut out, *row_end);
                out.append(", got ");
                push_list(&mut out, got.as_slice());
                out
            },
            Error::ConvRowsShape { row_start, row_end, kernel_size, got } => {
                let mut out = "shape mismatch: expected [at least ".to_owned();
                push_size(&mut out, *row_end);
                out.append(", 1, ");
                push_size(&mut out, *kernel_size);
                out.append("] with rows ");
                push_size(&mut out, *row_start);
                out.append("..");
                push_size(&mut out, *row_end);
                out.append(", got ");
                push_list(&mut out, got.as_slice());
                out
            },
            Error::GatedQueryShape { rows, hidden_size, got } => {
                let mut out = "shape mismatch: expected [".to_owned();
                push_size(&mut out, *rows);
                out.append(", ");
                push_size(&mut out, *hidden_size);
                out.append("], got ");
                push_list(&mut out, got.as_slice());
                out
            },
            Error::RopeShape { sequence_length, heads, head_dim, got } => {
                let mut out = "shape mismatch: expected [".to_owned();
                push_size(&mut out, *sequence_length);
                out.append(", ");
                push_size(&mut out, *heads);
                out.append(", ");
                push_size(&mut out, *head_dim);
                out.append("], got qwen3.5 shared text RoPE input ");
                push_list(&mut out, got.as_slice());
                out
            },
            Error::NotOnCpuBeforePacking { label } => {
                let mut out = "qwen3.5 ".to_owned();
                out.append(label);
                out.append(": checkpoint tensor must be on CPU before packing");
                out
            },
            Error::NotOnCpu { label } => {
                let mut out = "qwen3.5 ".to_owned();
                out.append(label);
                out.append(": checkpoint tensor must be on CPU");
                out
            },
            Error::UnsupportedDtype { label, dtype } => {
                let mut out = "qwen3.5 ".to_owned();
                out.append(label);
                out.append(": unsupported dtype ");
                out.append(dtype);
                out
            },
            Error::GatedQueryOverflow => "qwen3.5 q_proj dimensions overflow".to_owned(),
            Error::MropeEmpty => "Qwen3.5 mRoPE requires non-empty modality types and non-zero merge size".to_owned(),
            Error::MropeMissingGrid => "Qwen3.5 mRoPE image group has no matching grid".to_owned(),
            Error::MropeInvalidGrid { temporal, height, width, merge } => {
                let mut out = "Qwen3.5 mRoPE invalid image grid [".to_owned();
                push_decimal(&mut out, *temporal as u64);
                out.append(", ");
                push_decimal(&mut out, *height as u64);
                out.append(", ");
                push_decimal(&mut out, *width as u64);
                out.append("] for merge ");
                push_decimal(&mut out, *merge as u64);
                out
            },
            Error::MropeGroupLength { tokens, expected, temporal, height, width } => {
                let mut out = "Qwen3.5 mRoPE image group has ".to_owned();
                push_size(&mut out, *tokens);
                out.append(" tokens, expected ");
                push_size(&mut out, *expected);
                out.append(" from grid [");
                push_decimal(&mut out, *temporal as u64);
                out.append(", ");
                push_decimal(&mut out, *height as u64);
                out.append(", ");
                push_decimal(&mut out, *width as u64);
                out.append("]");
                out
            },
            Error::MropeModality { modality } => {
                let mut out = "Qwen3.5 mRoPE modality ".to_owned();
                push_decimal(&mut out, *modality as u64);
                out.append(" is unsupported; native v1 supports text and one image");
                out
            },
            Error::MropeLeftoverGrids { consumed, grids } => {
                let mut out = "Qwen3.5 mRoPE consumed ".to_owned();
                push_size(&mut out, *consumed);
                out.append(" image grids, got ");
                push_size(&mut out, *grids);
                out
            },
            Error::ZeroContext => "qwen3.5: max context must be greater than zero".to_owned(),
            Error::NoLinearState { layer_index } => {
                let mut out = "qwen3.5: layer ".to_owned();
                push_size(&mut out, *layer_index);
                out.append(" has no linear-attention state");
                out
            },
            Error::NoKvCache { layer_index } => {
                let mut out = "qwen3.5: layer ".to_owned();
                push_size(&mut out, *layer_index);
                out.append(" has no full-attention KV cache");
                out
            },
            Error::StartPosition { start_pos, position } => {
                let mut out = "qwen3.5: start_pos ".to_owned();
                push_size(&mut out, *start_pos);
                out.append(" does not match cached position ");
                push_size(&mut out, *position);
                out
            },
            Error::KvPosition { kv_position, position } => {
                let mut out = "qwen3.5: KV position ".to_owned();
                push_size(&mut out, *kv_position);
                out.append(" disagrees with hybrid position ");
                push_size(&mut out, *position);
                out
            },
            Error::ContextOverflow => "qwen3.5: context length overflow".to_owned(),
            Error::ContextExceeded { end, max_context } => {
                let mut out = "qwen3.5: context end ".to_owned();
                push_size(&mut out, *end);
                out.append(" exceeds configured maximum ");
                push_size(&mut out, *max_context);
                out
            },
            Error::VisionDeepstack => "Qwen3.5 vision encoder does not support deepstack outputs".to_owned(),
            Error::VisionLoad { cause } => {
                let mut out = "load Qwen3.5 vision tensors: ".to_owned();
                out.append(cause.as_str());
                out
            },
            Error::VisionPatchWidth => "Qwen3.5 vision patch width overflow".to_owned(),
            Error::VisionPatchCount => "Qwen3.5 vision patch count overflow".to_owned(),
            Error::VisionPixels { patch_count, patch_width, dtype, got, device } => {
                let mut out = "Qwen3.5 pixel_values must be CPU BF16 [".to_owned();
                push_size(&mut out, *patch_count);
                out.append(",");
                push_size(&mut out, *patch_width);
                out.append("], got ");
                out.append(dtype);
                out.append(" ");
                push_list(&mut out, got.as_slice());
                out.append(" on ");
                out.append(device.as_str());
                out
            },
            Error::VisionUnexpectedDeepstack => "Qwen3.5 vision encoder produced unexpected deepstack outputs".to_owned(),
            Error::VisionPrimary { expected_rows, out_hidden_size, dtype, got } => {
                let mut out = "Qwen3.5 vision primary must be BF16 [".to_owned();
                push_size(&mut out, *expected_rows);
                out.append(",");
                push_size(&mut out, *out_hidden_size);
                out.append("], got ");
                out.append(dtype);
                out.append(" ");
                push_list(&mut out, got.as_slice());
                out
            },
            Error::CheckpointMissing { name } => {
                let mut out = "qwen3.5 checkpoint: missing ".to_owned();
                out.append(name.as_str());
                out
            },
            Error::CheckpointShape { name, expected, got } => {
                let mut out = "qwen3.5 checkpoint ".to_owned();
                out.append(name.as_str());
                out.append(": expected shape ");
                push_list(&mut out, expected.as_slice());
                out.append(", got ");
                push_list(&mut out, got.as_slice());
                out
            },
            Error::CheckpointDtype { name, dtype } => {
                let mut out = "qwen3.5 checkpoint ".to_owned();
                out.append(name.as_str());
                out.append(": unsupported dtype ");
                out.append(dtype);
                out
            },
            Error::CheckpointExactDtype { name, expected, got } => {
                let mut out = "qwen3.5 checkpoint ".to_owned();
                out.append(name.as_str());
                out.append(": expected checkpoint dtype ");
                out.append(expected);
                out.append(", got ");
                out.append(got);
                out
            },
            Error::CheckpointUnexpected { name } => {
                let mut out = "qwen3.5 checkpoint: unexpected tensor ".to_owned();
                out.append(name.as_str());
                out.append(
                    "; only model.visual.* and mtp.* are explicitly ignored by the text-only loader",
                );
                out
            },
            Error::ConfiguredDtype { name } => {
                let mut out = "qwen3.5 checkpoint: unsupported configured dtype `".to_owned();
                out.append(name.as_str());
                out.append("`");
                out
            },
            Error::Qwen3VlJson { cause } => {
                let mut out = "qwen3vl config json: ".to_owned();
                out.append(cause.as_str());
                out
            },
            Error::Qwen3VlTextConfig => "qwen3vl config: missing text_config".to_owned(),
            Error::Qwen3VlMropeSection => "qwen3vl config: missing rope_scaling.mrope_section".to_owned(),
            Error::Qwen3VlMropeLength { entries } => {
                let mut out = "qwen3vl config: mrope_section must be [T,H,W] (3 entries), got ".to_owned();
                push_size(&mut out, *entries);
                out
            },
            Error::MissingWeight { name } => {
                let mut out = "missing ".to_owned();
                out.append(name.as_str());
                out
            },
            Error::TransposeRank { rank } => {
                let mut out = "transpose_2d expected 2D tensor, got ".to_owned();
                push_size(&mut out, *rank);
                out.append("D");
                out
            },
            Error::TransposeDtype { dtype } => {
                let mut out = "Qwen3-VL weight transpose does not support ".to_owned();
                out.append(dtype);
                out
            },
            Error::VisionTransposeRank { rank } => {
                let mut out = "transpose_2d expected 2D, got ".to_owned();
                push_size(&mut out, *rank);
                out.append("D");
                out
            },
            Error::VisionTransposeDtype { dtype } => {
                let mut out = "Qwen3-VL vision transpose does not support ".to_owned();
                out.append(dtype);
                out
            },
            Error::VisionReshapeCount { elements, rows, cols } => {
                let mut out = "reshape_5d_to_2d: ".to_owned();
                push_size(&mut out, *elements);
                out.append(" elements != ");
                push_size(&mut out, *rows);
                out.append("x");
                push_size(&mut out, *cols);
                out
            },
            Error::VisionReshapeDtype { dtype } => {
                let mut out = "Qwen3-VL vision reshape does not support ".to_owned();
                out.append(dtype);
                out
            },
            Error::QkStagedProfile => "qwen3.5 Metal W8 production route rejects the diagnostic-only qk-staged GDN core control".to_owned(),
            Error::FusedShape {
                hidden,
                key_heads,
                value_heads,
                key_dim,
                value_dim,
                conv,
                eps_bits,
            } => {
                let mut out = "qwen3.5 Metal W8 gdn-core-fused-v1 production route is fixed to H=1024/KH=16/VH=16/KD=128/VD=128/conv=4/eps=1e-6, got H=".to_owned();
                push_size(&mut out, *hidden);
                out.append("/KH=");
                push_size(&mut out, *key_heads);
                out.append("/VH=");
                push_size(&mut out, *value_heads);
                out.append("/KD=");
                push_size(&mut out, *key_dim);
                out.append("/VD=");
                push_size(&mut out, *value_dim);
                out.append("/conv=");
                push_size(&mut out, *conv);
                out.append("/eps_bits=0x");
                push_hex(&mut out, *eps_bits);
                out
            },
            Error::StackRunLength { route, length, run_start } => {
                let mut out = "qwen3.5 Metal W8 ".to_owned();
                out.append(route);
                out.append(" requires linear-attention runs of exactly three layers, got ");
                push_size(&mut out, *length);
                out.append(" at ");
                push_size(&mut out, *run_start);
                out
            },
            Error::StackRunsMissing { route } => {
                let mut out = "qwen3.5 Metal W8 ".to_owned();
                out.append(route);
                out.append(" requires both linear stacks and full-attention layers");
                out
            },
            Error::TailHeadUntied => "qwen3.5 Metal W8 boundary + tail-head v1 requires tied word embeddings".to_owned(),
            Error::ConfigLayers { got, expected } => {
                let mut out = "qwen3.5: configuration lists ".to_owned();
                push_size(&mut out, *got);
                out.append(" layer types, expected ");
                push_size(&mut out, *expected);
                out
            },
            Error::ConfigWidths => "qwen3.5: configuration widths exceed the machine size".to_owned(),
            Error::CpuOnly => "Qwen3.5 native runtime currently supports CPU only; Metal/Accelerate kernels are the next backend slice".to_owned(),
            Error::WeightLayers { got, expected } => {
                let mut out = "qwen3.5: received ".to_owned();
                push_size(&mut out, *got);
                out.append(" weight layers, expected ");
                push_size(&mut out, *expected);
                out
            },
            Error::LmHeadUntied => "qwen3.5 Metal W8 lm_head requires a checkpoint with tied word embeddings".to_owned(),
            Error::LmHeadBuild { cause } => {
                let mut out = "qwen3.5 Metal W8 lm_head: ".to_owned();
                out.append(cause.as_str());
                out
            },
            Error::Stack3HeadTerminal => "qwen3.5 Metal W8 Stack3 + lm_head v2 lane is terminal after a post-body error; reset required".to_owned(),
            Error::LinearLayerTerminal { layer_index } => {
                let mut out = "qwen3.5 Metal W8 linear layer ".to_owned();
                push_size(&mut out, *layer_index);
                out.append(" is terminal after a decode error; reset required");
                out
            },
            Error::ReferenceTerminal { layer_index } => {
                let mut out = "qwen3.5 packed W8 linear-layer reference ".to_owned();
                push_size(&mut out, *layer_index);
                out.append(" is terminal after a decode error; reset required");
                out
            },
            Error::AllLinearTerminal => "qwen3.5 Metal W8 all-linear-layers precision-v2 lane is terminal after a decode error; reset required".to_owned(),
            Error::StacksTerminal => "qwen3.5 Metal W8 stack3-v1 lane is terminal after a decode error; reset required".to_owned(),
            Error::BoundaryBodyTerminal => "qwen3.5 Metal W8 MLP→Stack3 boundary body v1 lane is terminal after an error; reset required".to_owned(),
            Error::TailHeadTerminal => "qwen3.5 Metal W8 boundary + tail-head v1 lane is terminal after an error; reset required".to_owned(),
            Error::Stack3HeadPostBody { stage, cause } => {
                let mut out = "qwen3.5 Metal W8 Stack3 + lm_head v2 ".to_owned();
                out.append(stage);
                out.append(" failed after body state advancement: ");
                out.append(cause.message().as_str());
                out.append("; entire lane is terminal, reset required");
                out
            },
            Error::TailHeadPostBody { stage, cause } => {
                let mut out = "qwen3.5 Metal W8 boundary + tail-head v1 ".to_owned();
                out.append(stage);
                out.append(" failed after body state advancement: ");
                out.append(cause.message().as_str());
                out.append("; entire lane is terminal, reset required");
                out
            },
            Error::TailTransaction { cause } => {
                let mut out = "qwen3.5 Metal W8 tail-head v1 transaction failed: ".to_owned();
                out.append(cause.as_str());
                out
            },
            Error::ReferenceOwnsState { layer_index } => {
                let mut out = "qwen3.5 packed W8 linear-layer reference ".to_owned();
                push_size(&mut out, *layer_index);
                out.append(" owns decode state; only single-token decode is valid until reset");
                out
            },
            Error::LinearLayerOwnsState { layer_index } => {
                let mut out = "qwen3.5 Metal W8 linear layer ".to_owned();
                push_size(&mut out, *layer_index);
                out.append(" owns decode state; only single-token decode is valid until reset");
                out
            },
            Error::AllLinearOwnsState { layer_index } => {
                let mut out = "qwen3.5 Metal W8 all-linear precision-v2 layer ".to_owned();
                push_size(&mut out, *layer_index);
                out.append(" owns decode state; only single-token decode is valid until reset");
                out
            },
            Error::GdnOwnsState { layer_index } => {
                let mut out = "qwen3.5 Metal W8 GDN layer ".to_owned();
                push_size(&mut out, *layer_index);
                out.append(" owns decode state; only single-token decode is valid until reset");
                out
            },
            Error::Stack3OwnsState => "qwen3.5 Metal W8 Stack3 body owns decode state; only single-token decode is valid until reset".to_owned(),
            Error::LayerKindMismatch { layer_index } => {
                let mut out = "qwen3.5: runtime/checkpoint layer kind mismatch at layer ".to_owned();
                push_size(&mut out, *layer_index);
                out
            },
            Error::BoundaryOutsideBody { layer_index } => {
                let mut out = "qwen3.5 Metal W8 MLP→Stack3 boundary body v1 layer ".to_owned();
                push_size(&mut out, *layer_index);
                out.append(" is outside the runtime body");
                out
            },
            Error::BoundaryNotFull { layer_index } => {
                let mut out = "qwen3.5 Metal W8 MLP→Stack3 boundary body v1 expected full attention at layer ".to_owned();
                push_size(&mut out, *layer_index);
                out
            },
            Error::BoundaryScheduleChanged { layer_index } => {
                let mut out = "qwen3.5 Metal W8 MLP→Stack3 boundary body v1 schedule changed at full-attention layer ".to_owned();
                push_size(&mut out, *layer_index);
                out
            },
            Error::EmptyTokens => "qwen3.5 forward: empty token_ids".to_owned(),
            Error::TokenOutsideVocabulary { token, vocab_size } => {
                let mut out = "qwen3.5: token id ".to_owned();
                push_decimal(&mut out, *token as u64);
                out.append(" is outside vocabulary size ");
                push_size(&mut out, *vocab_size);
                out
            },
            Error::TailHeadNoOwner { layer_index } => {
                let mut out = "qwen3.5 Metal W8 boundary + tail-head v1 has no decode owner for layer ".to_owned();
                push_size(&mut out, *layer_index);
                out
            },
            Error::BoundaryBodyNoOwner { layer_index } => {
                let mut out = "qwen3.5 Metal W8 MLP→Stack3 boundary body v1 has no decode owner for layer ".to_owned();
                push_size(&mut out, *layer_index);
                out
            },
            Error::BoundaryBodyPartial { cause } => {
                let mut out = "qwen3.5 Metal W8 MLP→Stack3 boundary body v1 advanced partial CPU/KV or Metal state before a later body failure: ".to_owned();
                out.append(cause.message().as_str());
                out.append("; entire lane is terminal, reset required");
                out
            },
            Error::TailHeadPartial { cause } => {
                let mut out = "qwen3.5 Metal W8 boundary + tail-head v1 advanced partial CPU/KV or Metal state before a later body failure: ".to_owned();
                out.append(cause.message().as_str());
                out.append("; entire lane is terminal, reset required");
                out
            },
            Error::LanePartial { lane, cause } => {
                let mut out = "qwen3.5 complete W8 ".to_owned();
                out.append(lane);
                out.append(" lane committed decode state before a later body failure: ");
                out.append(cause.message().as_str());
                out.append("; lane is terminal, reset required");
                out
            },
            Error::HeadTopK { phase, cause } => {
                let mut out = "qwen3.5 Metal W8 top-4 ".to_owned();
                out.append(phase);
                out.append(" failed after state advancement: ");
                out.append(cause.as_str());
                out
            },
            Error::HeadRerank { phase, cause } => {
                let mut out = "qwen3.5 Metal W8 F32 ".to_owned();
                out.append(phase);
                out.append(" rerank failed after state advancement: ");
                out.append(cause.message().as_str());
                out
            },
            Error::TeacherTopK { cause } => {
                let mut out = "qwen3.5 Metal W8 top-4 teacher gate failed after state advancement: ".to_owned();
                out.append(cause.as_str());
                out
            },
            Error::TeacherNeedsHead => "qwen3.5 teacher gate requires an enabled Metal W8 lm_head".to_owned(),
            Error::RerankOverflow => "qwen3.5 F32 rerank dimensions overflow".to_owned(),
            Error::RerankOutside { index, token, vocab_size } => {
                let mut out = "qwen3.5 F32 rerank candidate ".to_owned();
                push_size(&mut out, *index);
                out.append(" token ");
                push_decimal(&mut out, *token as u64);
                out.append(" is outside vocabulary ");
                push_size(&mut out, *vocab_size);
                out
            },
            Error::RerankDuplicate { token } => {
                let mut out = "qwen3.5 F32 rerank received duplicate candidate token ".to_owned();
                push_decimal(&mut out, *token as u64);
                out
            },
            Error::RerankNonFinite { token } => {
                let mut out = "qwen3.5 F32 rerank produced a non-finite score for token ".to_owned();
                push_decimal(&mut out, *token as u64);
                out
            },
            Error::NestedConfig => "GeneralQwen35 uses the nested qwen3_5 config; load it through AutoModel or GeneralQwen35::from_weights".to_owned(),
            Error::ImageInput => "this model does not support image input".to_owned(),
            Error::BudgetOverflow => "qwen3.5 generation: requested context length overflow".to_owned(),
            Error::BudgetExceeded { prompt_len, max_new_tokens, max_context } => {
                let mut out = "qwen3.5 generation: prompt length ".to_owned();
                push_size(&mut out, *prompt_len);
                out.append(" + generation budget ");
                push_size(&mut out, *max_new_tokens);
                out.append(" exceeds configured maximum ");
                push_size(&mut out, *max_context);
                out
            },
            Error::RopeEmpty => "qwen3.5 shared text RoPE requires a non-empty sequence".to_owned(),
            Error::RopeDimension { rotary_dim, head_dim } => {
                let mut out = "qwen3.5 shared text RoPE requires a non-zero, even rotary_dim <= head_dim; got ".to_owned();
                push_size(&mut out, *rotary_dim);
                out.append(" and ");
                push_size(&mut out, *head_dim);
                out
            },
            Error::RopeTheta { theta } => {
                let mut out = "qwen3.5 shared text RoPE requires finite positive theta; got ".to_owned();
                out.append(theta.as_str());
                out
            },
            Error::RopeOverflow => "qwen3.5 shared text RoPE table length overflow".to_owned(),
            Error::GdnOutside { layer_index, layers } => {
                let mut out = "qwen3.5 Metal W8 GDN layer ".to_owned();
                push_size(&mut out, *layer_index);
                out.append(" is outside 0..");
                push_size(&mut out, *layers);
                out
            },
            Error::GdnNotLinear { layer_index } => {
                let mut out = "qwen3.5 Metal W8 GDN layer ".to_owned();
                push_size(&mut out, *layer_index);
                out.append(" is not linear attention");
                out
            },
            Error::GdnCheckpointNotLinear { layer_index } => {
                let mut out = "qwen3.5 Metal W8 GDN layer ".to_owned();
                push_size(&mut out, *layer_index);
                out.append(" checkpoint is not linear attention");
                out
            },
            Error::GdnOverflow => "qwen3.5 Metal W8 GDN dimensions overflow".to_owned(),
            Error::GdnPacking { layer_index, cause } => {
                let mut out = "qwen3.5 Metal W8 GDN layer ".to_owned();
                push_size(&mut out, *layer_index);
                out.append(" packing failed: ");
                out.append(cause.as_str());
                out
            },
            Error::GdnConstruction { layer_index, cause } => {
                let mut out = "qwen3.5 Metal W8 GDN layer ".to_owned();
                push_size(&mut out, *layer_index);
                out.append(" construction failed: ");
                out.append(cause.as_str());
                out
            },
            Error::GdnSeed { layer_index, cause } => {
                let mut out = "qwen3.5 Metal W8 GDN layer ".to_owned();
                push_size(&mut out, *layer_index);
                out.append(" prefill state seed failed: ");
                out.append(cause.as_str());
                out
            },
            Error::GdnReset { layer_index, cause } => {
                let mut out = "qwen3.5 Metal W8 GDN layer ".to_owned();
                push_size(&mut out, *layer_index);
                out.append(" reset failed: ");
                out.append(cause.as_str());
                out
            },
            Error::GdnFailed { layer_index, cause } => {
                let mut out = "qwen3.5 Metal W8 GDN layer ".to_owned();
                push_size(&mut out, *layer_index);
                out.append(" failed terminally: ");
                out.append(cause.as_str());
                out
            },
            Error::GdnStateMissing { label } => {
                let mut out = "qwen3.5 Metal W8 GDN CPU prefill did not produce ".to_owned();
                out.append(label);
                out.append(" state");
                out
            },
            Error::GdnStateSeed { cause } => {
                let mut out = "qwen3.5 Metal W8 GDN state seed: ".to_owned();
                out.append(cause.as_str());
                out
            },
            Error::LinearLayerOutside { layer_index, layers } => {
                let mut out = "qwen3.5 Metal W8 linear layer ".to_owned();
                push_size(&mut out, *layer_index);
                out.append(" is outside 0..");
                push_size(&mut out, *layers);
                out
            },
            Error::LinearLayerNotLinear { layer_index } => {
                let mut out = "qwen3.5 Metal W8 linear layer ".to_owned();
                push_size(&mut out, *layer_index);
                out.append(" is not linear attention");
                out
            },
            Error::LinearLayerCheckpointNotLinear { layer_index } => {
                let mut out = "qwen3.5 Metal W8 linear layer ".to_owned();
                push_size(&mut out, *layer_index);
                out.append(" checkpoint is not linear attention");
                out
            },
            Error::LinearLayerOverflow => "qwen3.5 Metal W8 linear layer dimensions overflow".to_owned(),
            Error::LinearLayerGdnPacking { layer_index, cause } => {
                let mut out = "qwen3.5 Metal W8 linear layer ".to_owned();
                push_size(&mut out, *layer_index);
                out.append(" GDN packing failed: ");
                out.append(cause.as_str());
                out
            },
            Error::LinearLayerMlpPacking { layer_index, cause } => {
                let mut out = "qwen3.5 Metal W8 linear layer ".to_owned();
                push_size(&mut out, *layer_index);
                out.append(" MLP packing failed: ");
                out.append(cause.as_str());
                out
            },
            Error::LinearLayerAssembly { layer_index, cause } => {
                let mut out = "qwen3.5 Metal W8 linear layer ".to_owned();
                push_size(&mut out, *layer_index);
                out.append(" assembly failed: ");
                out.append(cause.as_str());
                out
            },
            Error::LinearLayerConstruction { layer_index, cause } => {
                let mut out = "qwen3.5 Metal W8 linear layer ".to_owned();
                push_size(&mut out, *layer_index);
                out.append(" construction failed: ");
                out.append(cause.as_str());
                out
            },
            Error::PrecisionLedger { layer_index, cause } => {
                let mut out = "qwen3.5 Metal W8 precision-v2 linear layer ".to_owned();
                push_size(&mut out, *layer_index);
                out.append(" ledger failed: ");
                out.append(cause.as_str());
                out
            },
            Error::PrecisionConstruction { layer_index, cause } => {
                let mut out = "qwen3.5 Metal W8 precision-v2 linear layer ".to_owned();
                push_size(&mut out, *layer_index);
                out.append(" construction failed: ");
                out.append(cause.as_str());
                out
            },
            Error::LinearLayerSeed { layer_index, cause } => {
                let mut out = "qwen3.5 Metal W8 linear layer ".to_owned();
                push_size(&mut out, *layer_index);
                out.append(" prefill state seed failed: ");
                out.append(cause.as_str());
                out
            },
            Error::LinearLayerReset { layer_index, cause } => {
                let mut out = "qwen3.5 Metal W8 linear layer ".to_owned();
                push_size(&mut out, *layer_index);
                out.append(" reset failed: ");
                out.append(cause.as_str());
                out
            },
            Error::LinearLayerNotSeeded { layer_index } => {
                let mut out = "qwen3.5 Metal W8 linear layer ".to_owned();
                push_size(&mut out, *layer_index);
                out.append(" decode state was not seeded by CPU prefill; reset required");
                out
            },
            Error::LinearLayerFailed { layer_index, cause } => {
                let mut out = "qwen3.5 Metal W8 linear layer ".to_owned();
                push_size(&mut out, *layer_index);
                out.append(" failed terminally: ");
                out.append(cause.as_str());
                out.append("; reset required");
                out
            },
            Error::LinearLayerOutput { layer_index, cause } => {
                let mut out = "qwen3.5 Metal W8 linear layer ".to_owned();
                push_size(&mut out, *layer_index);
                out.append(" produced an invalid output terminally: ");
                out.append(cause.message().as_str());
                out.append("; reset required");
                out
            },
            Error::AllLinearLayers { got, expected } => {
                let mut out = "qwen3.5 all-linear precision-v2 received ".to_owned();
                push_size(&mut out, *got);
                out.append(" weight layers for ");
                push_size(&mut out, *expected);
                out.append(" configured layer types");
                out
            },
            Error::AllLinearEmpty => "qwen3.5 all-linear precision-v2 requires at least one linear-attention layer".to_owned(),
            Error::Stack3Ledger { cause } => {
                let mut out = "qwen3.5 Metal W8 stack3-v1 quantization ledger failed: ".to_owned();
                out.append(cause.as_str());
                out
            },
            Error::Stack3Construction { layer_indices, profile, cause } => {
                let mut out = "qwen3.5 Metal W8 stack3-v1 layers ".to_owned();
                push_list(&mut out, layer_indices.as_slice());
                out.append(" profile ");
                out.append(profile);
                out.append(" construction failed: ");
                out.append(cause.as_str());
                out
            },
            Error::Stack3InvalidSeed { layer_indices, slot } => {
                let mut out = "qwen3.5 Metal W8 stack3-v1 ".to_owned();
                push_list(&mut out, layer_indices.as_slice());
                out.append(" received an invalid or duplicate prefill seed for slot ");
                push_size(&mut out, *slot);
                out.append("; reset required");
                out
            },
            Error::Stack3Seed { layer_indices, cause } => {
                let mut out = "qwen3.5 Metal W8 stack3-v1 ".to_owned();
                push_list(&mut out, layer_indices.as_slice());
                out.append(" prefill seed failed terminally: ");
                out.append(cause.as_str());
                out.append("; reset required");
                out
            },
            Error::Stack3Reset { layer_indices, cause } => {
                let mut out = "qwen3.5 Metal W8 stack3-v1 ".to_owned();
                push_list(&mut out, layer_indices.as_slice());
                out.append(" reset failed: ");
                out.append(cause.as_str());
                out
            },
            Error::Stack3Terminal { layer_indices } => {
                let mut out = "qwen3.5 Metal W8 stack3-v1 ".to_owned();
                push_list(&mut out, layer_indices.as_slice());
                out.append(" is terminal after a decode error; reset required");
                out
            },
            Error::Stack3NotSeeded { layer_indices } => {
                let mut out = "qwen3.5 Metal W8 stack3-v1 ".to_owned();
                push_list(&mut out, layer_indices.as_slice());
                out.append(" was not fully seeded by CPU prefill; reset required");
                out
            },
            Error::Stack3Failed { layer_indices, cause } => {
                let mut out = "qwen3.5 Metal W8 stack3-v1 ".to_owned();
                push_list(&mut out, layer_indices.as_slice());
                out.append(" failed terminally: ");
                out.append(cause.as_str());
                out.append("; reset required");
                out
            },
            Error::Stack3Output { layer_indices, cause } => {
                let mut out = "qwen3.5 Metal W8 stack3-v1 ".to_owned();
                push_list(&mut out, layer_indices.as_slice());
                out.append(" produced an invalid final output terminally: ");
                out.append(cause.message().as_str());
                out.append("; reset required");
                out
            },
            Error::Stack3HeadLedgerOverflow { label } => {
                let mut out = "qwen3.5 Stack3 + lm_head v2 ".to_owned();
                out.append(label);
                out.append(" overflow");
                out
            },
            Error::StacksSelection => "qwen3.5 Metal W8 stack3-v1 requires matching weights and at least one stack".to_owned(),
            Error::StacksExceed { layer_indices, layers } => {
                let mut out = "qwen3.5 Metal W8 stack3-v1 layers ".to_owned();
                push_list(&mut out, layer_indices.as_slice());
                out.append(" exceed 0..");
                push_size(&mut out, *layers);
                out
            },
            Error::StacksNotLinear { layer_index } => {
                let mut out = "qwen3.5 Metal W8 stack3-v1 layer ".to_owned();
                push_size(&mut out, *layer_index);
                out.append(" is not linear attention");
                out
            },
            Error::StacksDuplicate { layer_index } => {
                let mut out = "qwen3.5 Metal W8 stack3-v1 layer ".to_owned();
                push_size(&mut out, *layer_index);
                out.append(" was selected more than once");
                out
            },
            Error::StacksNotSelected { layer_index } => {
                let mut out = "qwen3.5 Metal W8 stack3-v1 layer ".to_owned();
                push_size(&mut out, *layer_index);
                out.append(" is not selected");
                out
            },
            Error::BoundaryRequiresFull { layer_index } => {
                let mut out = "qwen3.5 Metal W8 MLP→Stack3 boundary v1 requires full-attention layer at index ".to_owned();
                push_size(&mut out, *layer_index);
                out
            },
            Error::BoundaryLedger { cause } => {
                let mut out = "qwen3.5 Metal W8 MLP→Stack3 boundary v1 quantization ledger failed: ".to_owned();
                out.append(cause.as_str());
                out
            },
            Error::BoundaryAssembly { layer_index, cause } => {
                let mut out = "qwen3.5 Metal W8 MLP→Stack3 boundary v1 layer ".to_owned();
                push_size(&mut out, *layer_index);
                out.append(" assembly failed: ");
                out.append(cause.as_str());
                out
            },
            Error::BoundaryConstruction { layer_index, profile, cause } => {
                let mut out = "qwen3.5 Metal W8 MLP→Stack3 boundary v1 layer ".to_owned();
                push_size(&mut out, *layer_index);
                out.append(" profile ");
                out.append(profile);
                out.append(" construction failed: ");
                out.append(cause.as_str());
                out
            },
            Error::BoundaryInvalidSeed { layer_index, slot } => {
                let mut out = "qwen3.5 Metal W8 MLP→Stack3 boundary v1 layer ".to_owned();
                push_size(&mut out, *layer_index);
                out.append(" received an invalid or duplicate prefill seed for slot ");
                push_size(&mut out, *slot);
                out.append("; reset required");
                out
            },
            Error::BoundarySeed { layer_index, cause } => {
                let mut out = "qwen3.5 Metal W8 MLP→Stack3 boundary v1 layer ".to_owned();
                push_size(&mut out, *layer_index);
                out.append(" prefill seed failed terminally: ");
                out.append(cause.as_str());
                out.append("; reset required");
                out
            },
            Error::BoundaryReset { layer_index, cause } => {
                let mut out = "qwen3.5 Metal W8 MLP→Stack3 boundary v1 layer ".to_owned();
                push_size(&mut out, *layer_index);
                out.append(" reset failed: ");
                out.append(cause.as_str());
                out
            },
            Error::BoundaryTerminal { layer_index } => {
                let mut out = "qwen3.5 Metal W8 MLP→Stack3 boundary v1 layer ".to_owned();
                push_size(&mut out, *layer_index);
                out.append(" is terminal after a decode error; reset required");
                out
            },
            Error::BoundaryNotSeeded { layer_index } => {
                let mut out = "qwen3.5 Metal W8 MLP→Stack3 boundary v1 layer ".to_owned();
                push_size(&mut out, *layer_index);
                out.append(" was not fully seeded by CPU prefill; reset required");
                out
            },
            Error::BoundaryFailed { layer_index, cause } => {
                let mut out = "qwen3.5 Metal W8 MLP→Stack3 boundary v1 layer ".to_owned();
                push_size(&mut out, *layer_index);
                out.append(" failed terminally: ");
                out.append(cause.as_str());
                out.append("; reset required");
                out
            },
            Error::BoundaryOutput { layer_index, cause } => {
                let mut out = "qwen3.5 Metal W8 MLP→Stack3 boundary v1 layer ".to_owned();
                push_size(&mut out, *layer_index);
                out.append(" produced an invalid final output terminally: ");
                out.append(cause.message().as_str());
                out.append("; reset required");
                out
            },
            Error::BoundaryWeightLayers { got } => {
                let mut out = "qwen3.5 Metal W8 MLP→Stack3 boundary body v1 requires exactly 24 weight layers, got ".to_owned();
                push_size(&mut out, *got);
                out
            },
            Error::BoundaryLayers { config, layer_types } => {
                let mut out = "qwen3.5 Metal W8 MLP→Stack3 boundary body v1 requires exactly 24 layers, got config=".to_owned();
                push_size(&mut out, *config);
                out.append(" and layer_types=");
                push_size(&mut out, *layer_types);
                out
            },
            Error::BoundaryLayerKind { kind, layer_index } => {
                let mut out = "qwen3.5 Metal W8 MLP→Stack3 boundary body v1 requires ".to_owned();
                out.append(kind);
                out.append(" layer at index ");
                push_size(&mut out, *layer_index);
                out
            },
            Error::BoundaryNotOwned { layer_index } => {
                let mut out = "qwen3.5 Metal W8 MLP→Stack3 boundary body v1 layer ".to_owned();
                push_size(&mut out, *layer_index);
                out.append(" is not owned");
                out
            },
            Error::TailHeadLayers => "qwen3.5 Metal W8 boundary + tail-head v1 requires 24 layers and tied word embeddings".to_owned(),
            Error::TailHeadShape => "qwen3.5 Metal W8 tail-head v1 RMS or tied embedding shape changed".to_owned(),
            Error::TailHeadEmbedding { cause } => {
                let mut out = "qwen3.5 Metal W8 tail-head v1 tied embedding packing failed: ".to_owned();
                out.append(cause.as_str());
                out
            },
            Error::TailHeadAssembly { cause } => {
                let mut out = "qwen3.5 Metal W8 tail-head v1 assembly failed: ".to_owned();
                out.append(cause.as_str());
                out
            },
            Error::TailHeadConstruction { cause } => {
                let mut out = "qwen3.5 Metal W8 tail-head v1 construction failed: ".to_owned();
                out.append(cause.as_str());
                out
            },
            Error::TailHeadNotOwned { layer_index } => {
                let mut out = "qwen3.5 Metal W8 boundary + tail-head v1 layer ".to_owned();
                push_size(&mut out, *layer_index);
                out.append(" is not owned");
                out
            },
            Error::TailHeadReset { cause } => {
                let mut out = "qwen3.5 Metal W8 boundary + tail-head v1 reset failed: ".to_owned();
                out.append(cause.as_str());
                out
            },
            Error::TailHeadLedgerOverflow { label } => {
                let mut out = "qwen3.5 Metal W8 boundary + tail-head v1 ".to_owned();
                out.append(label);
                out.append(" overflow");
                out
            },
            Error::TailHeadProfiles => "qwen3.5 Metal W8 boundary + tail-head v1 requires one consistent production GDN core profile across the initial stack and all five boundaries".to_owned(),
            Error::TailHeadTopology {
                profile,
                dispatches,
                barriers,
                expected_dispatches,
                expected_barriers,
            } => {
                let mut out = "qwen3.5 Metal W8 boundary + tail-head v1 profile ".to_owned();
                out.append(profile);
                out.append(" topology is ");
                push_size(&mut out, *dispatches);
                out.append(" dispatches/");
                push_size(&mut out, *barriers);
                out.append(" barriers, expected ");
                push_size(&mut out, *expected_dispatches);
                out.append("/");
                push_size(&mut out, *expected_barriers);
                out
            },
            Error::TailHeadSubmissions { command_buffers, encoders, commits, waits } => {
                let mut out = "qwen3.5 Metal W8 boundary + tail-head v1 submission topology is ".to_owned();
                push_size(&mut out, *command_buffers);
                out.append(" command buffers/");
                push_size(&mut out, *encoders);
                out.append(" encoders/");
                push_size(&mut out, *commits);
                out.append(" commits/");
                push_size(&mut out, *waits);
                out.append(" waits, expected 7/24/7/7");
                out
            },
            Error::BoundaryLedgerOverflow { label } => {
                let mut out = "qwen3.5 Metal W8 MLP→Stack3 boundary body v1 ".to_owned();
                out.append(label);
                out.append(" overflow");
                out
            },
            Error::ReferenceLedger { layer_index, cause } => {
                let mut out = "qwen3.5 packed W8 linear layer ".to_owned();
                push_size(&mut out, *layer_index);
                out.append(" precision ledger failed: ");
                out.append(cause.as_str());
                out
            },
            Error::ReferenceNotSeeded { layer_index } => {
                let mut out = "qwen3.5 packed W8 linear-layer reference ".to_owned();
                push_size(&mut out, *layer_index);
                out.append(" was not seeded by CPU prefill; reset required");
                out
            },
            Error::ReferenceFailed { layer_index, cause } => {
                let mut out = "qwen3.5 packed W8 linear-layer reference ".to_owned();
                push_size(&mut out, *layer_index);
                out.append(" failed terminally: ");
                out.append(cause.as_str());
                out.append("; reset required");
                out
            },
            Error::ReferenceOutput { layer_index, cause } => {
                let mut out = "qwen3.5 packed W8 linear-layer reference ".to_owned();
                push_size(&mut out, *layer_index);
                out.append(" produced an invalid output terminally: ");
                out.append(cause.message().as_str());
                out.append("; reset required");
                out
            },
            Error::BodyEmpty => "qwen3.5 Metal W8 body requires at least one selected layer".to_owned(),
            Error::BodyOutside { layer_index, layers } => {
                let mut out = "qwen3.5 Metal W8 body layer ".to_owned();
                push_size(&mut out, *layer_index);
                out.append(" is outside 0..");
                push_size(&mut out, *layers);
                out
            },
            Error::BodyDuplicate { layer_index } => {
                let mut out = "qwen3.5 Metal W8 body layer ".to_owned();
                push_size(&mut out, *layer_index);
                out.append(" was selected more than once");
                out
            },
            Error::BodyShape { layer_index, intermediate_size, hidden_size } => {
                let mut out = "qwen3.5 Metal W8 body layer ".to_owned();
                push_size(&mut out, *layer_index);
                out.append(" requires gate/up shape [");
                push_size(&mut out, *intermediate_size);
                out.append(", ");
                push_size(&mut out, *hidden_size);
                out.append("]");
                out
            },
            Error::BodyOverflow => "qwen3.5 Metal W8 gate+up dimensions overflow".to_owned(),
            Error::BodyPacking { layer_index, cause } => {
                let mut out = "qwen3.5 Metal W8 body layer ".to_owned();
                push_size(&mut out, *layer_index);
                out.append(" gate+up packing failed: ");
                out.append(cause.as_str());
                out
            },
            Error::BodyFailed { layer_index, cause } => {
                let mut out = "qwen3.5 Metal W8 body layer ".to_owned();
                push_size(&mut out, *layer_index);
                out.append(" gate+up failed: ");
                out.append(cause.as_str());
                out
            },
            Error::BodyWidth { layer_index, width } => {
                let mut out = "qwen3.5 Metal W8 body layer ".to_owned();
                push_size(&mut out, *layer_index);
                out.append(" returned invalid gate+up width ");
                push_size(&mut out, *width);
                out
            },
            Error::MlpEmpty => "qwen3.5 Metal W8 MLP block requires at least one selected layer".to_owned(),
            Error::MlpOutside { layer_index, layers } => {
                let mut out = "qwen3.5 Metal W8 MLP block layer ".to_owned();
                push_size(&mut out, *layer_index);
                out.append(" is outside 0..");
                push_size(&mut out, *layers);
                out
            },
            Error::MlpDuplicate { layer_index } => {
                let mut out = "qwen3.5 Metal W8 MLP block layer ".to_owned();
                push_size(&mut out, *layer_index);
                out.append(" was selected more than once");
                out
            },
            Error::MlpShape { layer_index, intermediate_size, hidden_size } => {
                let mut out = "qwen3.5 Metal W8 MLP block layer ".to_owned();
                push_size(&mut out, *layer_index);
                out.append(" requires gate/up [");
                push_size(&mut out, *intermediate_size);
                out.append(", ");
                push_size(&mut out, *hidden_size);
                out.append("] and down [");
                push_size(&mut out, *hidden_size);
                out.append(", ");
                push_size(&mut out, *intermediate_size);
                out.append("]");
                out
            },
            Error::MlpPacking { layer_index, cause } => {
                let mut out = "qwen3.5 Metal W8 MLP block layer ".to_owned();
                push_size(&mut out, *layer_index);
                out.append(" packing failed: ");
                out.append(cause.as_str());
                out
            },
            Error::MlpConstruction { layer_index, cause } => {
                let mut out = "qwen3.5 Metal W8 MLP block layer ".to_owned();
                push_size(&mut out, *layer_index);
                out.append(" construction failed: ");
                out.append(cause.as_str());
                out
            },
            Error::MlpFailed { layer_index, cause } => {
                let mut out = "qwen3.5 Metal W8 MLP block layer ".to_owned();
                push_size(&mut out, *layer_index);
                out.append(" failed: ");
                out.append(cause.as_str());
                out
            },
            Error::AttentionMismatch { layer_index } => {
                let mut out = "qwen3.5: checkpoint/config attention mismatch at layer ".to_owned();
                push_size(&mut out, *layer_index);
                out
            },
        }
    }
}

/// The message of what went wrong; `None` where nothing did.
pub type Fault = Option<Seq<char>>;

/// The first of two faults.
pub open spec fn either(first: Fault, second: Fault) -> Fault {
    if first is Some {
        first
    } else {
        second
    }
}

/// Faults in the order in which they are looked for.
pub trait FaultOrder {
    /// This fault, or the next one where there is none.
    spec fn or_fault(self, next: Fault) -> Fault;
}

impl FaultOrder for Option<Seq<char>> {
    open spec fn or_fault(self, next: Fault) -> Fault {
        either(self, next)
    }
}

/// The result is an error with the message of the fault, or a success where
/// there is no fault.
pub open spec fn answers<T>(r: Result<T, Error>, fault: Fault) -> bool {
    match fault {
        Some(text) => r matches Err(e) && e.text() == text,
        None => r is Ok,
    }
}

} // verus!
