//! The tensors of the text stack: which ones a checkpoint holds, under which
//! names and shapes, and how they are taken out of a loaded checkpoint.
//!
//! Tensors stay in their `[out, in]` checkpoint layout here.

use vstd::prelude::*;
use vstd::string::*;

use crate::error::Error;
use crate::names::{
    comes_before, is_before, one_more_item, order_is_transitive, texts_are_ordered, NameMap,
};
use crate::qwen35::config::{Qwen35Config, Qwen35LayerType, Qwen35TextConfig};
use crate::tensor::{copy_dims, same_dims, DType, Tensor};
use crate::text::{decimal, push_size, same_text, starts_with};

verus! {

/// The tensors that a layer can have.
#[derive(Clone, Copy, Debug, PartialEq, Eq, Structural)]
pub enum LayerPart {
    InputNorm,
    ALog,
    Conv1d,
    DtBias,
    InProjA,
    InProjB,
    InProjQkv,
    InProjZ,
    GdnNorm,
    OutProj,
    QProj,
    KProj,
    VProj,
    OProj,
    QNorm,
    KNorm,
    PostAttentionNorm,
    GateProj,
    UpProj,
    DownProj,
}

impl LayerPart {
    /// What follows the layer number in the name of the tensor.
    pub open spec fn suffix(self) -> &'static str {
        match self {
            LayerPart::InputNorm => ".input_layernorm.weight",
            LayerPart::ALog => ".linear_attn.A_log",
            LayerPart::Conv1d => ".linear_attn.conv1d.weight",
            LayerPart::DtBias => ".linear_attn.dt_bias",
            LayerPart::InProjA => ".linear_attn.in_proj_a.weight",
            LayerPart::InProjB => ".linear_attn.in_proj_b.weight",
            LayerPart::InProjQkv => ".linear_attn.in_proj_qkv.weight",
            LayerPart::InProjZ => ".linear_attn.in_proj_z.weight",
            LayerPart::GdnNorm => ".linear_attn.norm.weight",
            LayerPart::OutProj => ".linear_attn.out_proj.weight",
            LayerPart::QProj => ".self_attn.q_proj.weight",
            LayerPart::KProj => ".self_attn.k_proj.weight",
            LayerPart::VProj => ".self_attn.v_proj.weight",
            LayerPart::OProj => ".self_attn.o_proj.weight",
            LayerPart::QNorm => ".self_attn.q_norm.weight",
            LayerPart::KNorm => ".self_attn.k_norm.weight",
            LayerPart::PostAttentionNorm => ".post_attention_layernorm.weight",
            LayerPart::GateProj => ".mlp.gate_proj.weight",
            LayerPart::UpProj => ".mlp.up_proj.weight",
            LayerPart::DownProj => ".mlp.down_proj.weight",
        }
    }

    /// What follows the layer number in the name of the tensor.
    pub fn suffix_text(self) -> (text: &'static str)
        ensures
            text == self.suffix(),
    {
        match self {
            LayerPart::InputNorm => ".input_layernorm.weight",
            LayerPart::ALog => ".linear_attn.A_log",
            LayerPart::Conv1d => ".linear_attn.conv1d.weight",
            LayerPart::DtBias => ".linear_attn.dt_bias",
            LayerPart::InProjA => ".linear_attn.in_proj_a.weight",
            LayerPart::InProjB => ".linear_attn.in_proj_b.weight",
            LayerPart::InProjQkv => ".linear_attn.in_proj_qkv.weight",
            LayerPart::InProjZ => ".linear_attn.in_proj_z.weight",
            LayerPart::GdnNorm => ".linear_attn.norm.weight",
            LayerPart::OutProj => ".linear_attn.out_proj.weight",
            LayerPart::QProj => ".self_attn.q_proj.weight",
            LayerPart::KProj => ".self_attn.k_proj.weight",
            LayerPart::VProj => ".self_attn.v_proj.weight",
            LayerPart::OProj => ".self_attn.o_proj.weight",
            LayerPart::QNorm => ".self_attn.q_norm.weight",
            LayerPart::KNorm => ".self_attn.k_norm.weight",
            LayerPart::PostAttentionNorm => ".post_attention_layernorm.weight",
            LayerPart::GateProj => ".mlp.gate_proj.weight",
            LayerPart::UpProj => ".mlp.up_proj.weight",
            LayerPart::DownProj => ".mlp.down_proj.weight",
        }
    }

    /// The shape of the tensor.
    pub open spec fn shape(self, text: Qwen35TextConfig) -> Seq<usize> {
        let hidden = text.hidden_size;
        match self {
            LayerPart::InputNorm | LayerPart::PostAttentionNorm => seq![hidden],
            LayerPart::ALog | LayerPart::DtBias => seq![text.linear_num_value_heads],
            LayerPart::Conv1d => seq![
                text.qkv_width() as usize,
                1usize,
                text.linear_conv_kernel_dim,
            ],
            LayerPart::InProjA | LayerPart::InProjB => seq![text.linear_num_value_heads, hidden],
            LayerPart::InProjQkv => seq![text.qkv_width() as usize, hidden],
            LayerPart::InProjZ => seq![text.value_width() as usize, hidden],
            LayerPart::GdnNorm => seq![text.linear_value_head_dim],
            LayerPart::OutProj => seq![hidden, text.value_width() as usize],
            LayerPart::QProj => seq![text.query_projection_width() as usize, hidden],
            LayerPart::KProj | LayerPart::VProj => seq![text.kv_width() as usize, hidden],
            LayerPart::OProj => seq![hidden, text.query_width() as usize],
            LayerPart::QNorm | LayerPart::KNorm => seq![text.head_dim],
            LayerPart::GateProj | LayerPart::UpProj => seq![text.intermediate_size, hidden],
            LayerPart::DownProj => seq![hidden, text.intermediate_size],
        }
    }

    /// The tensor is stored with the element type of the recurrent state.
    pub open spec fn is_state(self) -> bool {
        self == LayerPart::ALog || self == LayerPart::GdnNorm
    }

    fn dims(self, text: &Qwen35TextConfig) -> (dims: Vec<usize>)
        requires
            text.widths_fit(),
        ensures
            dims@ == self.shape(*text),
    {
        let hidden: usize = text.hidden_size;
        let dims: Vec<usize> = match self {
            LayerPart::InputNorm | LayerPart::PostAttentionNorm => vec![hidden],
            LayerPart::ALog | LayerPart::DtBias => vec![text.linear_num_value_heads],
            LayerPart::Conv1d => vec![text.linear_qkv_width(), 1, text.linear_conv_kernel_dim],
            LayerPart::InProjA | LayerPart::InProjB => vec![text.linear_num_value_heads, hidden],
            LayerPart::InProjQkv => vec![text.linear_qkv_width(), hidden],
            LayerPart::InProjZ => vec![text.linear_value_width(), hidden],
            LayerPart::GdnNorm => vec![text.linear_value_head_dim],
            LayerPart::OutProj => vec![hidden, text.linear_value_width()],
            LayerPart::QProj => vec![text.full_q_projection_width(), hidden],
            LayerPart::KProj | LayerPart::VProj => vec![text.full_kv_width(), hidden],
            LayerPart::OProj => vec![hidden, text.full_query_width()],
            LayerPart::QNorm | LayerPart::KNorm => vec![text.head_dim],
            LayerPart::GateProj | LayerPart::UpProj => vec![text.intermediate_size, hidden],
            LayerPart::DownProj => vec![hidden, text.intermediate_size],
        };
        proof {
            assert(dims@ =~= self.shape(*text));
        }
        dims
    }
}

/// The tensors of a layer, in checkpoint order.
pub open spec fn layer_parts(kind: Qwen35LayerType) -> Seq<LayerPart> {
    match kind {
        Qwen35LayerType::LinearAttention => seq![
            LayerPart::InputNorm,
            LayerPart::ALog,
            LayerPart::Conv1d,
            LayerPart::DtBias,
            LayerPart::InProjA,
            LayerPart::InProjB,
            LayerPart::InProjQkv,
            LayerPart::InProjZ,
            LayerPart::GdnNorm,
            LayerPart::OutProj,
            LayerPart::PostAttentionNorm,
            LayerPart::GateProj,
            LayerPart::UpProj,
            LayerPart::DownProj,
        ],
        Qwen35LayerType::FullAttention => seq![
            LayerPart::InputNorm,
            LayerPart::QProj,
            LayerPart::KProj,
            LayerPart::VProj,
            LayerPart::OProj,
            LayerPart::QNorm,
            LayerPart::KNorm,
            LayerPart::PostAttentionNorm,
            LayerPart::GateProj,
            LayerPart::UpProj,
            LayerPart::DownProj,
        ],
    }
}

fn parts_of(kind: Qwen35LayerType) -> (parts: Vec<LayerPart>)
    ensures
        parts@ == layer_parts(kind),
{
    let parts: Vec<LayerPart> = match kind {
        Qwen35LayerType::LinearAttention => vec![
            LayerPart::InputNorm,
            LayerPart::ALog,
            LayerPart::Conv1d,
            LayerPart::DtBias,
            LayerPart::InProjA,
            LayerPart::InProjB,
            LayerPart::InProjQkv,
            LayerPart::InProjZ,
            LayerPart::GdnNorm,
            LayerPart::OutProj,
            LayerPart::PostAttentionNorm,
            LayerPart::GateProj,
            LayerPart::UpProj,
            LayerPart::DownProj,
        ],
        Qwen35LayerType::FullAttention => vec![
            LayerPart::InputNorm,
            LayerPart::QProj,
            LayerPart::KProj,
            LayerPart::VProj,
            LayerPart::OProj,
            LayerPart::QNorm,
            LayerPart::KNorm,
            LayerPart::PostAttentionNorm,
            LayerPart::GateProj,
            LayerPart::UpProj,
            LayerPart::DownProj,
        ],
    };
    proof {
        assert(parts@ =~= layer_parts(kind));
    }
    parts
}

/// The name of a tensor of a layer.
pub open spec fn part_name(layer_index: int, part: LayerPart) -> Seq<char> {
    "model.language_model.layers."@ + decimal(layer_index as nat) + part.suffix()@
}

/// The name of a tensor of a layer.
pub fn part_name_text(layer_index: usize, part: LayerPart) -> (name: String)
    ensures
        name@ == part_name(layer_index as int, part),
{
    let mut name = "model.language_model.layers.".to_owned();
    push_size(&mut name, layer_index);
    name.append(part.suffix_text());
    name
}

/// The name of the token embedding.
pub open spec fn embedding_name() -> Seq<char> {
    "model.language_model.embed_tokens.weight"@
}

/// The name of the final norm.
pub open spec fn output_norm_name() -> Seq<char> {
    "model.language_model.norm.weight"@
}

/// The name of an output projection of its own.
pub open spec fn lm_head_name() -> Seq<char> {
    "lm_head.weight"@
}

/// What is known of a stored tensor without its elements.
#[derive(Debug, PartialEq, Eq)]
pub struct Qwen35WeightMetadata {
    pub shape: Vec<usize>,
    pub dtype: DType,
}

impl Qwen35WeightMetadata {
    /// Puts a shape and an element type together.
    pub fn new(shape: Vec<usize>, dtype: DType) -> (r: Qwen35WeightMetadata)
        ensures
            r.shape == shape,
            r.dtype == dtype,
    {
        Qwen35WeightMetadata { shape, dtype }
    }
}

/// One tensor that a checkpoint must hold.
#[derive(Debug, PartialEq, Eq)]
pub struct Qwen35WeightSpec {
    pub name: String,
    pub shape: Vec<usize>,
    /// The element type of the unmodified checkpoint. Validation of a loaded
    /// checkpoint accepts every floating type, since a loader may widen.
    pub checkpoint_dtype: DType,
}

/// The content of a [`Qwen35WeightSpec`].
pub struct WeightSpecView {
    pub name: Seq<char>,
    pub shape: Seq<usize>,
    pub dtype: DType,
}

impl View for Qwen35WeightSpec {
    type V = WeightSpecView;

    open spec fn view(&self) -> WeightSpecView {
        WeightSpecView { name: self.name@, shape: self.shape@, dtype: self.checkpoint_dtype }
    }
}

/// The content of a list of specs.
pub open spec fn spec_views(specs: Seq<Qwen35WeightSpec>) -> Seq<WeightSpecView> {
    specs.map_values(|spec: Qwen35WeightSpec| spec@)
}

/// The names of a list of specs.
pub open spec fn spec_names(specs: Seq<WeightSpecView>) -> Seq<Seq<char>> {
    specs.map_values(|spec: WeightSpecView| spec.name)
}

/// The tensors of one layer.
pub open spec fn layer_specs(
    text: Qwen35TextConfig,
    layer_index: int,
    dtype: DType,
    state_dtype: DType,
) -> Seq<WeightSpecView> {
    layer_parts(text.layer_types@[layer_index]).map_values(
        |part: LayerPart|
            WeightSpecView {
                name: part_name(layer_index, part),
                shape: part.shape(text),
                dtype: if part.is_state() {
                    state_dtype
                } else {
                    dtype
                },
            },
    )
}

/// The tensors of the first `n` layers.
pub open spec fn layers_specs(
    text: Qwen35TextConfig,
    n: nat,
    dtype: DType,
    state_dtype: DType,
) -> Seq<WeightSpecView>
    decreases n,
{
    if n == 0 {
        Seq::empty()
    } else {
        layers_specs(text, (n - 1) as nat, dtype, state_dtype) + layer_specs(
            text,
            n - 1,
            dtype,
            state_dtype,
        )
    }
}

/// Every tensor of the text stack, in checkpoint order: the embedding, the
/// layers, the final norm and, where embeddings are not tied, the output
/// projection.
pub open spec fn text_specs(text: Qwen35TextConfig, dtype: DType, state_dtype: DType) -> Seq<
    WeightSpecView,
> {
    let embedding = WeightSpecView {
        name: embedding_name(),
        shape: seq![text.vocab_size, text.hidden_size],
        dtype,
    };
    let norm = WeightSpecView {
        name: output_norm_name(),
        shape: seq![text.hidden_size],
        dtype,
    };
    let head = WeightSpecView {
        name: lm_head_name(),
        shape: seq![text.vocab_size, text.hidden_size],
        dtype,
    };
    let body = seq![embedding] + layers_specs(text, text.layer_types@.len(), dtype, state_dtype)
        + seq![norm];
    if text.tie_word_embeddings {
        body
    } else {
        body + seq![head]
    }
}

/// The element type that a configuration names; `None` for an unknown name.
pub open spec fn named_dtype(name: Seq<char>) -> Option<DType> {
    if name == "float32"@ {
        Some(DType::F32)
    } else if name == "float16"@ {
        Some(DType::F16)
    } else if name == "bfloat16"@ {
        Some(DType::BF16)
    } else {
        None
    }
}

/// The tensors of a configuration whose element types are known.
pub open spec fn configured_specs(text: Qwen35TextConfig) -> Seq<WeightSpecView> {
    text_specs(
        text,
        named_dtype(text.dtype@)->Some_0,
        named_dtype(text.recurrent_state_dtype@)->Some_0,
    )
}

/// Both element types of the configuration are known.
pub open spec fn dtypes_known(text: Qwen35TextConfig) -> bool {
    named_dtype(text.dtype@) is Some && named_dtype(text.recurrent_state_dtype@) is Some
}

/// The error of a configuration with an unknown element type names it, the
/// type of the weights first.
pub open spec fn is_dtype_error(text: Qwen35TextConfig, e: Error) -> bool {
    e matches Error::ConfiguredDtype { name } && name@ == if named_dtype(text.dtype@) is None {
        text.dtype@
    } else {
        text.recurrent_state_dtype@
    }
}

fn checkpoint_dtype(name: &String) -> (r: Result<DType, Error>)
    ensures
        match r {
            Ok(dtype) => named_dtype(name@) == Some(dtype),
            Err(e) => named_dtype(name@) is None && (e matches Error::ConfiguredDtype { name: n }
                && n@ == name@),
        },
{
    proof {
        reveal_strlit("float32");
        reveal_strlit("float16");
        reveal_strlit("bfloat16");
    }
    if same_text(name.as_str(), "float32") {
        Ok(DType::F32)
    } else if same_text(name.as_str(), "float16") {
        Ok(DType::F16)
    } else if same_text(name.as_str(), "bfloat16") {
        Ok(DType::BF16)
    } else {
        Err(Error::ConfiguredDtype { name: name.clone() })
    }
}

fn push_spec(
    specs: &mut Vec<Qwen35WeightSpec>,
    name: String,
    shape: Vec<usize>,
    checkpoint_dtype: DType,
)
    ensures
        spec_views(final(specs)@) == spec_views(old(specs)@).push(
            WeightSpecView { name: name@, shape: shape@, dtype: checkpoint_dtype },
        ),
{
    let ghost before = specs@;
    let spec = Qwen35WeightSpec { name, shape, checkpoint_dtype };
    specs.push(spec);
    proof {
        assert(spec_views(specs@) =~= spec_views(before).push(spec@));
    }
}

/// How many tensors a valid checkpoint holds of each part of the model.
#[derive(Clone, Copy, Debug, PartialEq, Eq, Structural)]
pub struct Qwen35WeightValidation {
    pub text_tensors: usize,
    pub ignored_vision_tensors: usize,
    pub ignored_mtp_tensors: usize,
}

impl Default for Qwen35WeightValidation {
    fn default() -> (r: Qwen35WeightValidation)
        ensures
            r == (Qwen35WeightValidation {
                text_tensors: 0,
                ignored_vision_tensors: 0,
                ignored_mtp_tensors: 0,
            }),
    {
        Qwen35WeightValidation {
            text_tensors: 0,
            ignored_vision_tensors: 0,
            ignored_mtp_tensors: 0,
        }
    }
}

/// The shapes of the text stack.
#[derive(Debug)]
pub struct Qwen35WeightSchema {
    specs: Vec<Qwen35WeightSpec>,
}

/// A tensor of the vision tower.
pub open spec fn is_vision_name(name: Seq<char>) -> bool {
    "model.visual."@.is_prefix_of(name)
}

/// A tensor of the multi-token prediction head.
pub open spec fn is_mtp_name(name: Seq<char>) -> bool {
    "mtp."@.is_prefix_of(name)
}

/// A name that belongs to no known part of the model.
pub open spec fn is_unknown_name(specs: Seq<WeightSpecView>, name: Seq<char>) -> bool {
    !spec_names(specs).contains(name) && !is_vision_name(name) && !is_mtp_name(name)
}

/// What is wrong with one tensor of a checkpoint.
pub enum WeightProblem {
    Missing,
    Shape,
    Dtype,
    ExactDtype,
}

/// The first thing that is wrong with the tensor of a spec, if anything is.
pub open spec fn weight_problem(
    spec: WeightSpecView,
    metadata: Map<Seq<char>, Qwen35WeightMetadata>,
    exact: bool,
) -> Option<WeightProblem> {
    if !metadata.contains_key(spec.name) {
        Some(WeightProblem::Missing)
    } else if metadata[spec.name].shape@ != spec.shape {
        Some(WeightProblem::Shape)
    } else if !metadata[spec.name].dtype.is_float() {
        Some(WeightProblem::Dtype)
    } else if exact && metadata[spec.name].dtype != spec.dtype {
        Some(WeightProblem::ExactDtype)
    } else {
        None
    }
}

/// The error names the tensor of the spec and its problem.
pub open spec fn is_weight_error(
    e: Error,
    spec: WeightSpecView,
    metadata: Map<Seq<char>, Qwen35WeightMetadata>,
    problem: WeightProblem,
) -> bool {
    match problem {
        WeightProblem::Missing => e matches Error::CheckpointMissing { name } && name@ == spec.name,
        WeightProblem::Shape => e matches Error::CheckpointShape { name, expected, got } && name@
            == spec.name && expected@ == spec.shape && got@ == metadata[spec.name].shape@,
        WeightProblem::Dtype => e matches Error::CheckpointDtype { name, dtype } && name@
            == spec.name && dtype == metadata[spec.name].dtype.name(),
        WeightProblem::ExactDtype => e matches Error::CheckpointExactDtype { name, expected, got }
            && name@ == spec.name && expected == spec.dtype.name() && got
            == metadata[spec.name].dtype.name(),
    }
}

/// Every spec is met and every name belongs to a known part of the model.
pub open spec fn is_valid_checkpoint(
    specs: Seq<WeightSpecView>,
    metadata: Map<Seq<char>, Qwen35WeightMetadata>,
    exact: bool,
) -> bool {
    &&& forall|i: int|
        0 <= i < specs.len() ==> (#[trigger] weight_problem(specs[i], metadata, exact)) is None
    &&& forall|name: Seq<char>|
        #![trigger metadata.contains_key(name)]
        metadata.contains_key(name) ==> !is_unknown_name(specs, name)
}

/// The error tells of the first spec that is not met or, where all are met,
/// of the first unknown name in the order of names.
pub open spec fn is_checkpoint_error(
    specs: Seq<WeightSpecView>,
    metadata: Map<Seq<char>, Qwen35WeightMetadata>,
    exact: bool,
    e: Error,
) -> bool {
    ||| exists|i: int|
        {
            &&& 0 <= i < specs.len()
            &&& (#[trigger] weight_problem(specs[i], metadata, exact)) is Some
            &&& forall|j: int|
                0 <= j < i ==> (#[trigger] weight_problem(specs[j], metadata, exact)) is None
            &&& is_weight_error(
                e,
                specs[i],
                metadata,
                weight_problem(specs[i], metadata, exact)->Some_0,
            )
        }
    ||| {
        &&& forall|i: int|
            0 <= i < specs.len() ==> (#[trigger] weight_problem(specs[i], metadata, exact)) is None
        &&& e matches Error::CheckpointUnexpected { name }
        &&& metadata.contains_key(name@)
        &&& is_unknown_name(specs, name@)
        &&& forall|other: Seq<char>|
            #![trigger metadata.contains_key(other)]
            metadata.contains_key(other) && is_unknown_name(specs, other) ==> !comes_before(
                other,
                name@,
            )
    }
}

impl Qwen35WeightSchema {
    /// The tensors that the schema asks for.
    pub closed spec fn spec_list(self) -> Seq<WeightSpecView> {
        spec_views(self.specs@)
    }

    /// Lists the tensors of a configuration. Fails on an invalid configuration
    /// and on an unknown element type.
    pub fn new(config: &Qwen35Config) -> (r: Result<Qwen35WeightSchema, Error>)
        ensures
            match r {
                Ok(schema) => {
                    &&& config.text.is_valid()
                    &&& dtypes_known(config.text)
                    &&& schema.spec_list() == configured_specs(config.text)
                },
                Err(e) => if config.text.is_valid() {
                    !dtypes_known(config.text) && is_dtype_error(config.text, e)
                } else {
                    config.text.validity_fault() == Some(e.text())
                },
            },
    {
        if let Err(e) = config.text.validate() {
            return Err(e);
        }
        let text_dtype: DType = match checkpoint_dtype(&config.text.dtype) {
            Ok(dtype) => dtype,
            Err(e) => return Err(e),
        };
        let state_dtype: DType = match checkpoint_dtype(&config.text.recurrent_state_dtype) {
            Ok(dtype) => dtype,
            Err(e) => return Err(e),
        };
        let text = &config.text;
        let mut specs: Vec<Qwen35WeightSpec> = Vec::new();
        let embedding_shape: Vec<usize> = vec![text.vocab_size, text.hidden_size];
        push_spec(
            &mut specs,
            "model.language_model.embed_tokens.weight".to_owned(),
            embedding_shape,
            text_dtype,
        );
        let ghost embedding = WeightSpecView {
            name: embedding_name(),
            shape: seq![text.vocab_size, text.hidden_size],
            dtype: text_dtype,
        };
        proof {
            assert(embedding_shape@ =~= seq![text.vocab_size, text.hidden_size]);
            assert(spec_views(specs@) =~= seq![embedding] + layers_specs(
                *text,
                0,
                text_dtype,
                state_dtype,
            ));
        }
        let mut index: usize = 0;
        while index < text.layer_types.len()
            invariant
                index <= text.layer_types@.len(),
                text.widths_fit(),
                spec_views(specs@) == seq![embedding] + layers_specs(
                    *text,
                    index as nat,
                    text_dtype,
                    state_dtype,
                ),
            decreases text.layer_types@.len() - index,
        {
            push_layer(&mut specs, text, index, text_dtype, state_dtype);
            index = index + 1;
            proof {
                assert(spec_views(specs@) =~= seq![embedding] + layers_specs(
                    *text,
                    index as nat,
                    text_dtype,
                    state_dtype,
                ));
            }
        }
        let norm_shape: Vec<usize> = vec![text.hidden_size];
        push_spec(
            &mut specs,
            "model.language_model.norm.weight".to_owned(),
            norm_shape,
            text_dtype,
        );
        proof {
            assert(norm_shape@ =~= seq![text.hidden_size]);
        }
        if !text.tie_word_embeddings {
            let head_shape: Vec<usize> = vec![text.vocab_size, text.hidden_size];
            push_spec(&mut specs, "lm_head.weight".to_owned(), head_shape, text_dtype);
            proof {
                assert(head_shape@ =~= seq![text.vocab_size, text.hidden_size]);
            }
        }
        proof {
            assert(spec_views(specs@) =~= text_specs(*text, text_dtype, state_dtype));
        }
        Ok(Qwen35WeightSchema { specs })
    }

    /// The tensors that the schema asks for.
    pub fn specs(&self) -> (specs: &Vec<Qwen35WeightSpec>)
        ensures
            spec_views(specs@) == self.spec_list(),
    {
        &self.specs
    }

    /// Validates shapes and floating types, after any widening by a loader.
    pub fn validate_metadata(&self, metadata: &NameMap<Qwen35WeightMetadata>) -> (r: Result<
        Qwen35WeightValidation,
        Error,
    >)
        ensures
            validated(self.spec_list(), metadata@, false, r),
    {
        self.validate(metadata, false)
    }

    /// Validates the exact stored types, as the configuration declares them.
    pub fn validate_checkpoint_metadata(
        &self,
        metadata: &NameMap<Qwen35WeightMetadata>,
    ) -> (r: Result<Qwen35WeightValidation, Error>)
        ensures
            validated(self.spec_list(), metadata@, true, r),
    {
        self.validate(metadata, true)
    }

    fn validate(
        &self,
        metadata: &NameMap<Qwen35WeightMetadata>,
        exact_checkpoint_dtype: bool,
    ) -> (r: Result<Qwen35WeightValidation, Error>)
        ensures
            validated(self.spec_list(), metadata@, exact_checkpoint_dtype, r),
    {
        let ghost specs = self.spec_list();
        let mut i: usize = 0;
        while i < self.specs.len()
            invariant
                i <= self.specs@.len(),
                specs == self.spec_list(),
                forall|j: int|
                    0 <= j < i ==> (#[trigger] weight_problem(
                        specs[j],
                        metadata@,
                        exact_checkpoint_dtype,
                    )) is None,
            decreases self.specs@.len() - i,
        {
            if let Err(e) = self.check_spec(i, metadata, exact_checkpoint_dtype) {
                return Err(e);
            }
            i = i + 1;
        }
        proof {
            let names = metadata@.dom();
            assert(names.filter(|name: Seq<char>| is_vision_name(name)) =~= names.filter(
                |name: Seq<char>| "model.visual."@.is_prefix_of(name),
            ));
            assert(names.filter(|name: Seq<char>| is_mtp_name(name)) =~= names.filter(
                |name: Seq<char>| "mtp."@.is_prefix_of(name),
            ));
        }
        match self.first_unknown(metadata) {
            Some(name) => Err(Error::CheckpointUnexpected { name }),
            None => Ok(
                Qwen35WeightValidation {
                    text_tensors: self.specs.len(),
                    ignored_vision_tensors: count_prefixed(metadata, "model.visual."),
                    ignored_mtp_tensors: count_prefixed(metadata, "mtp."),
                },
            ),
        }
    }

    fn check_spec(
        &self,
        i: usize,
        metadata: &NameMap<Qwen35WeightMetadata>,
        exact: bool,
    ) -> (r: Result<(), Error>)
        requires
            i < self.spec_list().len(),
        ensures
            match r {
                Ok(_) => weight_problem(self.spec_list()[i as int], metadata@, exact) is None,
                Err(e) => {
                    &&& weight_problem(self.spec_list()[i as int], metadata@, exact) is Some
                    &&& is_weight_error(
                        e,
                        self.spec_list()[i as int],
                        metadata@,
                        weight_problem(self.spec_list()[i as int], metadata@, exact)->Some_0,
                    )
                },
            },
    {
        let spec = &self.specs[i];
        let actual = match metadata.get(spec.name.as_str()) {
            Some(actual) => actual,
            None => return Err(Error::CheckpointMissing { name: spec.name.clone() }),
        };
        if !same_dims(actual.shape.as_slice(), spec.shape.as_slice()) {
            return Err(
                Error::CheckpointShape {
                    name: spec.name.clone(),
                    expected: copy_dims(spec.shape.as_slice()),
                    got: copy_dims(actual.shape.as_slice()),
                },
            );
        }
        if actual.dtype == DType::I8 {
            return Err(
                Error::CheckpointDtype { name: spec.name.clone(), dtype: actual.dtype.as_str() },
            );
        }
        if exact && actual.dtype != spec.checkpoint_dtype {
            return Err(
                Error::CheckpointExactDtype {
                    name: spec.name.clone(),
                    expected: spec.checkpoint_dtype.as_str(),
                    got: actual.dtype.as_str(),
                },
            );
        }
        Ok(())
    }

    fn asks_for(&self, name: &str) -> (r: bool)
        ensures
            r == spec_names(self.spec_list()).contains(name@),
    {
        let mut i: usize = 0;
        while i < self.specs.len()
            invariant
                i <= self.specs@.len(),
                forall|j: int| 0 <= j < i ==> self.specs@[j].name@ != name@,
            decreases self.specs@.len() - i,
        {
            if same_text(self.specs[i].name.as_str(), name) {
                proof {
                    assert(spec_names(self.spec_list())[i as int] == name@);
                }
                return true;
            }
            i = i + 1;
        }
        false
    }

    fn first_unknown(&self, metadata: &NameMap<Qwen35WeightMetadata>) -> (r: Option<String>)
        ensures
            match r {
                Some(name) => {
                    &&& metadata@.contains_key(name@)
                    &&& is_unknown_name(self.spec_list(), name@)
                    &&& forall|other: Seq<char>|
                        #![trigger metadata@.contains_key(other)]
                        metadata@.contains_key(other) && is_unknown_name(self.spec_list(), other)
                            ==> !comes_before(other, name@)
                },
                None => forall|name: Seq<char>|
                    #![trigger metadata@.contains_key(name)]
                    metadata@.contains_key(name) ==> !is_unknown_name(self.spec_list(), name),
            },
    {
        let n = metadata.len();
        let ghost names = metadata.names();
        let mut first: Option<String> = None;
        let mut i: usize = 0;
        while i < n
            invariant
                i <= n,
                n == names.len(),
                names == metadata.names(),
                match first {
                    Some(name) => {
                        &&& metadata@.contains_key(name@)
                        &&& is_unknown_name(self.spec_list(), name@)
                        &&& forall|j: int|
                            0 <= j < i && is_unknown_name(self.spec_list(), names[j])
                                ==> !comes_before(#[trigger] names[j], name@)
                    },
                    None => forall|j: int|
                        0 <= j < i ==> !is_unknown_name(self.spec_list(), #[trigger] names[j]),
                },
            decreases n - i,
        {
            let (name, _) = metadata.entry(i);
            let unknown = !self.asks_for(name.as_str()) && !starts_with(
                name.as_str(),
                "model.visual.",
            ) && !starts_with(name.as_str(), "mtp.");
            if unknown {
                let better = match &first {
                    Some(best) => is_before(name.as_str(), best.as_str()),
                    None => true,
                };
                proof {
                    texts_are_ordered(name@, name@);
                    if first is Some {
                        let best = first->Some_0;
                        if better {
                            assert forall|j: int|
                                0 <= j < i && is_unknown_name(
                                    self.spec_list(),
                                    names[j],
                                ) implies !comes_before(#[trigger] names[j], name@) by {
                                if comes_before(names[j], name@) {
                                    order_is_transitive(names[j], name@, best@);
                                }
                            }
                        }
                    }
                }
                if better {
                    first = Some(name.clone());
                }
            }
            i = i + 1;
        }
        proof {
            assert forall|name: Seq<char>| #[trigger] metadata@.contains_key(name) implies exists|
                j: int,
            | 0 <= j < n && names[j] == name by {
                assert(names.to_set().contains(name));
            }
        }
        first
    }
}

/// What validation returns: the counts of a valid checkpoint, or the first
/// error.
pub open spec fn validated(
    specs: Seq<WeightSpecView>,
    metadata: Map<Seq<char>, Qwen35WeightMetadata>,
    exact: bool,
    r: Result<Qwen35WeightValidation, Error>,
) -> bool {
    match r {
        Ok(counts) => {
            &&& is_valid_checkpoint(specs, metadata, exact)
            &&& counts.text_tensors == specs.len()
            &&& counts.ignored_vision_tensors == metadata.dom().filter(
                |name: Seq<char>| is_vision_name(name),
            ).len()
            &&& counts.ignored_mtp_tensors == metadata.dom().filter(
                |name: Seq<char>| is_mtp_name(name),
            ).len()
        },
        Err(e) => !is_valid_checkpoint(specs, metadata, exact) && is_checkpoint_error(
            specs,
            metadata,
            exact,
            e,
        ),
    }
}

fn count_prefixed<V>(map: &NameMap<V>, prefix: &str) -> (count: usize)
    ensures
        count == map@.dom().filter(|name: Seq<char>| prefix@.is_prefix_of(name)).len(),
{
    let n = map.len();
    let ghost names = map.names();
    let ghost p = |name: Seq<char>| prefix@.is_prefix_of(name);
    let mut count: usize = 0;
    let mut i: usize = 0;
    proof {
        assert(names.take(0).to_set().filter(p) =~= Set::<Seq<char>>::empty());
    }
    while i < n
        invariant
            i <= n,
            n == names.len(),
            names == map.names(),
            names.no_duplicates(),
            count <= i,
            p == (|name: Seq<char>| prefix@.is_prefix_of(name)),
            names.take(i as int).to_set().filter(p).finite(),
            count == names.take(i as int).to_set().filter(p).len(),
        decreases n - i,
    {
        let (name, _) = map.entry(i);
        let ghost before = names.take(i as int).to_set();
        let ghost after = names.take(i + 1).to_set();
        proof {
            assert forall|x: Seq<char>| after.contains(x) == before.insert(name@).contains(x) by {
                one_more_item(names, i as int, x);
            }
            assert(after =~= before.insert(name@));
            if before.contains(name@) {
                let shorter = names.take(i as int);
                let k = choose|k: int| 0 <= k < shorter.len() && shorter[k] == name@;
                assert(names[k] == names[i as int]);
            }
        }
        if starts_with(name.as_str(), prefix) {
            count = count + 1;
            proof {
                assert(after.filter(p) =~= before.filter(p).insert(name@));
            }
        } else {
            proof {
                assert(after.filter(p) =~= before.filter(p));
            }
        }
        i = i + 1;
    }
    proof {
        assert(names.take(n as int) =~= names);
    }
    count
}

fn push_layer(
    specs: &mut Vec<Qwen35WeightSpec>,
    text: &Qwen35TextConfig,
    index: usize,
    dtype: DType,
    state_dtype: DType,
)
    requires
        text.widths_fit(),
        index < text.layer_types@.len(),
    ensures
        spec_views(final(specs)@) == spec_views(old(specs)@) + layer_specs(
            *text,
            index as int,
            dtype,
            state_dtype,
        ),
{
    let ghost before = spec_views(specs@);
    let ghost layer = layer_specs(*text, index as int, dtype, state_dtype);
    let parts = parts_of(text.layer_types[index]);
    let mut i: usize = 0;
    proof {
        assert(before =~= before + layer.take(0));
    }
    while i < parts.len()
        invariant
            i <= parts@.len(),
            text.widths_fit(),
            index < text.layer_types@.len(),
            parts@ == layer_parts(text.layer_types@[index as int]),
            layer == layer_specs(*text, index as int, dtype, state_dtype),
            spec_views(specs@) == before + layer.take(i as int),
        decreases parts@.len() - i,
    {
        let part: LayerPart = parts[i];
        let part_dtype: DType = if part == LayerPart::ALog || part == LayerPart::GdnNorm {
            state_dtype
        } else {
            dtype
        };
        push_spec(specs, part_name_text(index, part), part.dims(text), part_dtype);
        proof {
            assert(layer.take(i + 1) =~= layer.take(i as int).push(layer[i as int]));
            assert(spec_views(specs@) =~= before + layer.take(i + 1));
        }
        i = i + 1;
    }
    proof {
        assert(layer.take(i as int) =~= layer);
    }
}

/// The shapes and element types of loaded tensors.
pub open spec fn metadata_of(
    tensors: Map<Seq<char>, Tensor>,
    metadata: Map<Seq<char>, Qwen35WeightMetadata>,
) -> bool {
    &&& metadata.dom() == tensors.dom()
    &&& forall|name: Seq<char>| #[trigger]
        tensors.contains_key(name) ==> metadata[name].shape@ == tensors[name].dims()
            && metadata[name].dtype == tensors[name].element_type()
}

/// Describes loaded tensors without their elements.
pub fn metadata_from_tensors(tensors: &NameMap<Tensor>) -> (r: NameMap<Qwen35WeightMetadata>)
    ensures
        metadata_of(tensors@, r@),
{
    let n = tensors.len();
    let ghost names = tensors.names();
    let mut metadata: NameMap<Qwen35WeightMetadata> = NameMap::new();
    let mut i: usize = 0;
    while i < n
        invariant
            i <= n,
            n == names.len(),
            names == tensors.names(),
            names.to_set() == tensors@.dom(),
            forall|name: Seq<char>|
                #![trigger metadata@.contains_key(name)]
                metadata@.contains_key(name) <==> names.take(i as int).contains(name),
            forall|name: Seq<char>| #[trigger]
                metadata@.contains_key(name) ==> tensors@.contains_key(name)
                    && metadata@[name].shape@ == tensors@[name].dims() && metadata@[name].dtype
                    == tensors@[name].element_type(),
        decreases n - i,
    {
        let (name, tensor) = tensors.entry(i);
        let described = Qwen35WeightMetadata {
            shape: copy_dims(tensor.shape().as_slice()),
            dtype: tensor.dtype(),
        };
        let ghost before = metadata@;
        metadata.insert(name.clone(), described);
        proof {
            assert forall|x: Seq<char>| #[trigger]
                metadata@.contains_key(x) <==> names.take(i + 1).contains(x) by {
                one_more_item(names, i as int, x);
                assert(metadata@.contains_key(x) == (x == name@ || before.contains_key(x)));
            }
        }
        i = i + 1;
    }
    proof {
        assert(names.take(n as int) =~= names);
        assert forall|name: Seq<char>| #[trigger]
            tensors@.contains_key(name) == metadata@.contains_key(name) by {
            assert(tensors@.contains_key(name) == names.to_set().contains(name));
        }
        assert(metadata@.dom() =~= tensors@.dom());
    }
    metadata
}

} // verus!
