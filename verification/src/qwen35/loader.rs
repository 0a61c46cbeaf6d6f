//! Taking the text stack out of a loaded checkpoint.

use vstd::prelude::*;
use vstd::string::*;

use crate::error::Error;
use crate::names::{one_more_item, NameMap};
use crate::qwen35::config::{Qwen35Config, Qwen35LayerType, Qwen35TextConfig};
use crate::qwen35::weights::{
    configured_specs, dtypes_known, embedding_name, is_checkpoint_error, is_dtype_error,
    is_unknown_name, is_valid_checkpoint, layer_parts, layer_specs, layers_specs, lm_head_name,
    metadata_from_tensors, metadata_of, output_norm_name, part_name, spec_names, text_specs,
    weight_problem, LayerPart, Qwen35WeightMetadata, Qwen35WeightSchema, WeightSpecView,
};
use crate::tensor::{DType, Tensor};
use crate::text::{decimal, decimal_is_injective, decimal_is_not_empty, push_size};

verus! {

/// The weights of one recurrent linear-attention layer.
#[derive(Debug)]
pub struct Qwen35LinearAttentionWeights {
    pub a_log: Tensor,
    pub conv1d_weight: Tensor,
    pub dt_bias: Tensor,
    pub in_proj_a_weight: Tensor,
    pub in_proj_b_weight: Tensor,
    pub in_proj_qkv_weight: Tensor,
    pub in_proj_z_weight: Tensor,
    pub norm_weight: Tensor,
    pub out_proj_weight: Tensor,
}

/// The weights of one full-attention layer.
#[derive(Debug)]
pub struct Qwen35FullAttentionWeights {
    /// `[2 * heads * head_dim, hidden]` where attention has an output gate.
    pub q_proj_weight: Tensor,
    pub k_proj_weight: Tensor,
    pub v_proj_weight: Tensor,
    pub o_proj_weight: Tensor,
    pub q_norm_weight: Tensor,
    pub k_norm_weight: Tensor,
}

/// The attention weights of a layer.
#[derive(Debug)]
pub enum Qwen35AttentionWeights {
    Linear(Qwen35LinearAttentionWeights),
    Full(Qwen35FullAttentionWeights),
}

/// The weights of a gated feed-forward block.
#[derive(Debug)]
pub struct Qwen35MlpWeights {
    pub gate_proj_weight: Tensor,
    pub up_proj_weight: Tensor,
    pub down_proj_weight: Tensor,
}

/// The weights of one layer.
#[derive(Debug)]
pub struct Qwen35LayerWeights {
    pub input_norm_weight: Tensor,
    pub attention: Qwen35AttentionWeights,
    pub post_attention_norm_weight: Tensor,
    pub mlp: Qwen35MlpWeights,
}

/// The weights of the text stack, in checkpoint layout.
#[derive(Debug)]
pub struct Qwen35TextWeights {
    /// `[vocab_size, hidden_size]`; also the output weight of a tied model.
    pub token_embedding: Tensor,
    pub layers: Vec<Qwen35LayerWeights>,
    pub output_norm_weight: Tensor,
    /// Present only where embeddings are not tied.
    pub lm_head_weight: Option<Tensor>,
}

impl Qwen35AttentionWeights {
    /// The kind of layer that the weights belong to.
    pub open spec fn kind(self) -> Qwen35LayerType {
        match self {
            Qwen35AttentionWeights::Linear(_) => Qwen35LayerType::LinearAttention,
            Qwen35AttentionWeights::Full(_) => Qwen35LayerType::FullAttention,
        }
    }

    /// The kind of layer that the weights belong to.
    pub fn layer_type(&self) -> (kind: Qwen35LayerType)
        ensures
            kind == self.kind(),
    {
        match self {
            Qwen35AttentionWeights::Linear(_) => Qwen35LayerType::LinearAttention,
            Qwen35AttentionWeights::Full(_) => Qwen35LayerType::FullAttention,
        }
    }
}

/// The layer holds the tensors that the checkpoint has under its names.
pub open spec fn layer_loaded(
    tensors: Map<Seq<char>, Tensor>,
    kind: Qwen35LayerType,
    i: int,
    layer: Qwen35LayerWeights,
) -> bool {
    &&& layer.input_norm_weight == tensors[part_name(i, LayerPart::InputNorm)]
    &&& layer.post_attention_norm_weight == tensors[part_name(i, LayerPart::PostAttentionNorm)]
    &&& layer.mlp.gate_proj_weight == tensors[part_name(i, LayerPart::GateProj)]
    &&& layer.mlp.up_proj_weight == tensors[part_name(i, LayerPart::UpProj)]
    &&& layer.mlp.down_proj_weight == tensors[part_name(i, LayerPart::DownProj)]
    &&& match kind {
        Qwen35LayerType::LinearAttention => layer.attention matches Qwen35AttentionWeights::Linear(
            w,
        ) && w == (Qwen35LinearAttentionWeights {
            a_log: tensors[part_name(i, LayerPart::ALog)],
            conv1d_weight: tensors[part_name(i, LayerPart::Conv1d)],
            dt_bias: tensors[part_name(i, LayerPart::DtBias)],
            in_proj_a_weight: tensors[part_name(i, LayerPart::InProjA)],
            in_proj_b_weight: tensors[part_name(i, LayerPart::InProjB)],
            in_proj_qkv_weight: tensors[part_name(i, LayerPart::InProjQkv)],
            in_proj_z_weight: tensors[part_name(i, LayerPart::InProjZ)],
            norm_weight: tensors[part_name(i, LayerPart::GdnNorm)],
            out_proj_weight: tensors[part_name(i, LayerPart::OutProj)],
        }),
        Qwen35LayerType::FullAttention => layer.attention matches Qwen35AttentionWeights::Full(w)
            && w == (Qwen35FullAttentionWeights {
            q_proj_weight: tensors[part_name(i, LayerPart::QProj)],
            k_proj_weight: tensors[part_name(i, LayerPart::KProj)],
            v_proj_weight: tensors[part_name(i, LayerPart::VProj)],
            o_proj_weight: tensors[part_name(i, LayerPart::OProj)],
            q_norm_weight: tensors[part_name(i, LayerPart::QNorm)],
            k_norm_weight: tensors[part_name(i, LayerPart::KNorm)],
        }),
    }
}

/// The weights are the tensors that the checkpoint has under their names.
pub open spec fn text_loaded(
    tensors: Map<Seq<char>, Tensor>,
    text: Qwen35TextConfig,
    weights: Qwen35TextWeights,
) -> bool {
    &&& weights.token_embedding == tensors[embedding_name()]
    &&& weights.output_norm_weight == tensors[output_norm_name()]
    &&& weights.lm_head_weight == if text.tie_word_embeddings {
        None
    } else {
        Some(tensors[lm_head_name()])
    }
    &&& weights.layers@.len() == text.layer_types@.len()
    &&& forall|i: int|
        0 <= i < weights.layers@.len() ==> layer_loaded(
            tensors,
            text.layer_types@[i],
            i,
            #[trigger] weights.layers@[i],
        )
}

/// The loaded tensors meet the schema of the configuration.
pub open spec fn tensors_are_valid(
    text: Qwen35TextConfig,
    tensors: Map<Seq<char>, Tensor>,
) -> bool {
    let specs = configured_specs(text);
    &&& forall|i: int|
        0 <= i < specs.len() ==> {
            let name = (#[trigger] specs[i]).name;
            &&& tensors.contains_key(name)
            &&& tensors[name].dims() == specs[i].shape
            &&& tensors[name].element_type().is_float()
        }
    &&& forall|name: Seq<char>| #[trigger]
        tensors.contains_key(name) ==> !is_unknown_name(specs, name)
}

fn take(tensors: &mut NameMap<Tensor>, name: &str) -> (r: Result<Tensor, Error>)
    ensures
        match r {
            Ok(tensor) => {
                &&& old(tensors)@.contains_key(name@)
                &&& tensor == old(tensors)@[name@]
                &&& final(tensors)@ == old(tensors)@.remove(name@)
            },
            Err(e) => {
                &&& !old(tensors)@.contains_key(name@)
                &&& e matches Error::CheckpointMissing { name: n }
                &&& n@ == name@
            },
        },
{
    match tensors.remove(name) {
        Some(tensor) => Ok(tensor),
        None => Err(Error::CheckpointMissing { name: name.to_owned() }),
    }
}

/// What is left of a checkpoint after its first `k` names were taken.
spec fn left_after(
    all: Map<Seq<char>, Tensor>,
    names: Seq<Seq<char>>,
    k: int,
    left: Map<Seq<char>, Tensor>,
) -> bool {
    &&& forall|name: Seq<char>| #[trigger]
        left.contains_key(name) <==> all.contains_key(name) && !names.take(k).contains(name)
    &&& forall|name: Seq<char>| #[trigger] left.contains_key(name) ==> left[name] == all[name]
}

/// The names of a schema can be taken one after the other.
spec fn takeable(all: Map<Seq<char>, Tensor>, names: Seq<Seq<char>>) -> bool {
    &&& names.no_duplicates()
    &&& forall|i: int| 0 <= i < names.len() ==> all.contains_key(#[trigger] names[i])
}

fn take_at(
    tensors: &mut NameMap<Tensor>,
    name: &str,
    Ghost(all): Ghost<Map<Seq<char>, Tensor>>,
    Ghost(names): Ghost<Seq<Seq<char>>>,
    Ghost(k): Ghost<int>,
) -> (r: Result<Tensor, Error>)
    requires
        takeable(all, names),
        0 <= k < names.len(),
        names[k] == name@,
        left_after(all, names, k, old(tensors)@),
    ensures
        r == Ok::<Tensor, Error>(all[name@]),
        left_after(all, names, k + 1, final(tensors)@),
{
    proof {
        assert(tensors@.contains_key(name@)) by {
            if names.take(k).contains(name@) {
                let shorter = names.take(k);
                let j = choose|j: int| 0 <= j < shorter.len() && shorter[j] == name@;
                assert(names[j] == names[k]);
            }
        }
    }
    let ghost before = tensors@;
    let r = take(tensors, name);
    proof {
        assert forall|x: Seq<char>| #[trigger]
            tensors@.contains_key(x) <==> all.contains_key(x) && !names.take(k + 1).contains(x) by {
            one_more_item(names, k, x);
            assert(tensors@.contains_key(x) == (x != name@ && before.contains_key(x)));
        }
    }
    r
}

fn take_part(
    tensors: &mut NameMap<Tensor>,
    index: usize,
    part: LayerPart,
    Ghost(all): Ghost<Map<Seq<char>, Tensor>>,
    Ghost(names): Ghost<Seq<Seq<char>>>,
    Ghost(k): Ghost<int>,
) -> (r: Result<Tensor, Error>)
    requires
        takeable(all, names),
        0 <= k < names.len(),
        names[k] == part_name(index as int, part),
        left_after(all, names, k, old(tensors)@),
    ensures
        r == Ok::<Tensor, Error>(all[part_name(index as int, part)]),
        left_after(all, names, k + 1, final(tensors)@),
{
    let mut name = "model.language_model.layers.".to_owned();
    push_size(&mut name, index);
    name.append(part.suffix_text());
    take_at(tensors, name.as_str(), Ghost(all), Ghost(names), Ghost(k))
}

/// The names of the tensors of a layer.
spec fn layer_names(kind: Qwen35LayerType, i: int) -> Seq<Seq<char>> {
    layer_parts(kind).map_values(|part: LayerPart| part_name(i, part))
}

fn take_layer(
    tensors: &mut NameMap<Tensor>,
    kind: Qwen35LayerType,
    index: usize,
    Ghost(all): Ghost<Map<Seq<char>, Tensor>>,
    Ghost(names): Ghost<Seq<Seq<char>>>,
    Ghost(k): Ghost<int>,
) -> (r: Result<Qwen35LayerWeights, Error>)
    requires
        takeable(all, names),
        0 <= k,
        k + layer_parts(kind).len() <= names.len(),
        names.subrange(k, k + layer_parts(kind).len()) == layer_names(kind, index as int),
        left_after(all, names, k, old(tensors)@),
    ensures
        r matches Ok(layer) && layer_loaded(all, kind, index as int, layer),
        left_after(all, names, k + layer_parts(kind).len(), final(tensors)@),
{
    proof {
        let mine = names.subrange(k, k + layer_parts(kind).len());
        assert forall|j: int| 0 <= j < layer_parts(kind).len() implies #[trigger] names[k + j]
            == part_name(index as int, layer_parts(kind)[j]) by {
            assert(names[k + j] == mine[j]);
        }
        assert(names[k + 0] == names[k]);
    }
    let input_norm_weight = match take_part(
        tensors,
        index,
        LayerPart::InputNorm,
        Ghost(all),
        Ghost(names),
        Ghost(k),
    ) {
        Ok(tensor) => tensor,
        Err(e) => return Err(e),
    };
    let attention = match kind {
        Qwen35LayerType::LinearAttention => {
            proof {
                assert(names[k + 1] == part_name(index as int, LayerPart::ALog));
                assert(names[k + 2] == part_name(index as int, LayerPart::Conv1d));
                assert(names[k + 3] == part_name(index as int, LayerPart::DtBias));
                assert(names[k + 4] == part_name(index as int, LayerPart::InProjA));
                assert(names[k + 5] == part_name(index as int, LayerPart::InProjB));
                assert(names[k + 6] == part_name(index as int, LayerPart::InProjQkv));
                assert(names[k + 7] == part_name(index as int, LayerPart::InProjZ));
                assert(names[k + 8] == part_name(index as int, LayerPart::GdnNorm));
                assert(names[k + 9] == part_name(index as int, LayerPart::OutProj));
            }
            match take_linear(tensors, index, Ghost(all), Ghost(names), Ghost(k + 1)) {
                Ok(weights) => Qwen35AttentionWeights::Linear(weights),
                Err(e) => return Err(e),
            }
        },
        Qwen35LayerType::FullAttention => {
            proof {
                assert(names[k + 1] == part_name(index as int, LayerPart::QProj));
                assert(names[k + 2] == part_name(index as int, LayerPart::KProj));
                assert(names[k + 3] == part_name(index as int, LayerPart::VProj));
                assert(names[k + 4] == part_name(index as int, LayerPart::OProj));
                assert(names[k + 5] == part_name(index as int, LayerPart::QNorm));
                assert(names[k + 6] == part_name(index as int, LayerPart::KNorm));
            }
            match take_full(tensors, index, Ghost(all), Ghost(names), Ghost(k + 1)) {
                Ok(weights) => Qwen35AttentionWeights::Full(weights),
                Err(e) => return Err(e),
            }
        },
    };
    let ghost after: int = match kind {
        Qwen35LayerType::LinearAttention => k + 10,
        Qwen35LayerType::FullAttention => k + 7,
    };
    proof {
        let n = layer_parts(kind).len();
        assert(after == k + n - 4);
        assert(names[k + (n - 4)] == part_name(index as int, LayerPart::PostAttentionNorm));
        assert(names[k + (n - 3)] == part_name(index as int, LayerPart::GateProj));
        assert(names[k + (n - 2)] == part_name(index as int, LayerPart::UpProj));
        assert(names[k + (n - 1)] == part_name(index as int, LayerPart::DownProj));
    }
    let post_attention_norm_weight = match take_part(
        tensors,
        index,
        LayerPart::PostAttentionNorm,
        Ghost(all),
        Ghost(names),
        Ghost(after),
    ) {
        Ok(tensor) => tensor,
        Err(e) => return Err(e),
    };
    let gate_proj_weight = match take_part(
        tensors,
        index,
        LayerPart::GateProj,
        Ghost(all),
        Ghost(names),
        Ghost(after + 1),
    ) {
        Ok(tensor) => tensor,
        Err(e) => return Err(e),
    };
    let up_proj_weight = match take_part(
        tensors,
        index,
        LayerPart::UpProj,
        Ghost(all),
        Ghost(names),
        Ghost(after + 2),
    ) {
        Ok(tensor) => tensor,
        Err(e) => return Err(e),
    };
    let down_proj_weight = match take_part(
        tensors,
        index,
        LayerPart::DownProj,
        Ghost(all),
        Ghost(names),
        Ghost(after + 3),
    ) {
        Ok(tensor) => tensor,
        Err(e) => return Err(e),
    };
    Ok(
        Qwen35LayerWeights {
            input_norm_weight,
            attention,
            post_attention_norm_weight,
            mlp: Qwen35MlpWeights { gate_proj_weight, up_proj_weight, down_proj_weight },
        },
    )
}

fn take_linear(
    tensors: &mut NameMap<Tensor>,
    index: usize,
    Ghost(all): Ghost<Map<Seq<char>, Tensor>>,
    Ghost(names): Ghost<Seq<Seq<char>>>,
    Ghost(k): Ghost<int>,
) -> (r: Result<Qwen35LinearAttentionWeights, Error>)
    requires
        takeable(all, names),
        0 <= k,
        k + 9 <= names.len(),
        names[k + 0] == part_name(index as int, LayerPart::ALog),
        names[k + 1] == part_name(index as int, LayerPart::Conv1d),
        names[k + 2] == part_name(index as int, LayerPart::DtBias),
        names[k + 3] == part_name(index as int, LayerPart::InProjA),
        names[k + 4] == part_name(index as int, LayerPart::InProjB),
        names[k + 5] == part_name(index as int, LayerPart::InProjQkv),
        names[k + 6] == part_name(index as int, LayerPart::InProjZ),
        names[k + 7] == part_name(index as int, LayerPart::GdnNorm),
        names[k + 8] == part_name(index as int, LayerPart::OutProj),
        left_after(all, names, k, old(tensors)@),
    ensures
        r == Ok::<Qwen35LinearAttentionWeights, Error>(
            Qwen35LinearAttentionWeights {
                a_log: all[part_name(index as int, LayerPart::ALog)],
                conv1d_weight: all[part_name(index as int, LayerPart::Conv1d)],
                dt_bias: all[part_name(index as int, LayerPart::DtBias)],
                in_proj_a_weight: all[part_name(index as int, LayerPart::InProjA)],
                in_proj_b_weight: all[part_name(index as int, LayerPart::InProjB)],
                in_proj_qkv_weight: all[part_name(index as int, LayerPart::InProjQkv)],
                in_proj_z_weight: all[part_name(index as int, LayerPart::InProjZ)],
                norm_weight: all[part_name(index as int, LayerPart::GdnNorm)],
                out_proj_weight: all[part_name(index as int, LayerPart::OutProj)],
            },
        ),
        left_after(all, names, k + 9, final(tensors)@),
{
    let a_log = match take_part(
        tensors,
        index,
        LayerPart::ALog,
        Ghost(all),
        Ghost(names),
        Ghost(k + 0),
    ) {
        Ok(tensor) => tensor,
        Err(e) => return Err(e),
    };
    let conv1d_weight = match take_part(
        tensors,
        index,
        LayerPart::Conv1d,
        Ghost(all),
        Ghost(names),
        Ghost(k + 1),
    ) {
        Ok(tensor) => tensor,
        Err(e) => return Err(e),
    };
    let dt_bias = match take_part(
        tensors,
        index,
        LayerPart::DtBias,
        Ghost(all),
        Ghost(names),
        Ghost(k + 2),
    ) {
        Ok(tensor) => tensor,
        Err(e) => return Err(e),
    };
    let in_proj_a_weight = match take_part(
        tensors,
        index,
        LayerPart::InProjA,
        Ghost(all),
        Ghost(names),
        Ghost(k + 3),
    ) {
        Ok(tensor) => tensor,
        Err(e) => return Err(e),
    };
    let in_proj_b_weight = match take_part(
        tensors,
        index,
        LayerPart::InProjB,
        Ghost(all),
        Ghost(names),
        Ghost(k + 4),
    ) {
        Ok(tensor) => tensor,
        Err(e) => return Err(e),
    };
    let in_proj_qkv_weight = match take_part(
        tensors,
        index,
        LayerPart::InProjQkv,
        Ghost(all),
        Ghost(names),
        Ghost(k + 5),
    ) {
        Ok(tensor) => tensor,
        Err(e) => return Err(e),
    };
    let in_proj_z_weight = match take_part(
        tensors,
        index,
        LayerPart::InProjZ,
        Ghost(all),
        Ghost(names),
        Ghost(k + 6),
    ) {
        Ok(tensor) => tensor,
        Err(e) => return Err(e),
    };
    let norm_weight = match take_part(
        tensors,
        index,
        LayerPart::GdnNorm,
        Ghost(all),
        Ghost(names),
        Ghost(k + 7),
    ) {
        Ok(tensor) => tensor,
        Err(e) => return Err(e),
    };
    let out_proj_weight = match take_part(
        tensors,
        index,
        LayerPart::OutProj,
        Ghost(all),
        Ghost(names),
        Ghost(k + 8),
    ) {
        Ok(tensor) => tensor,
        Err(e) => return Err(e),
    };
    Ok(
        Qwen35LinearAttentionWeights {
            a_log,
            conv1d_weight,
            dt_bias,
            in_proj_a_weight,
            in_proj_b_weight,
            in_proj_qkv_weight,
            in_proj_z_weight,
            norm_weight,
            out_proj_weight,
        },
    )
}

fn take_full(
    tensors: &mut NameMap<Tensor>,
    index: usize,
    Ghost(all): Ghost<Map<Seq<char>, Tensor>>,
    Ghost(names): Ghost<Seq<Seq<char>>>,
    Ghost(k): Ghost<int>,
) -> (r: Result<Qwen35FullAttentionWeights, Error>)
    requires
        takeable(all, names),
        0 <= k,
        k + 6 <= names.len(),
        names[k + 0] == part_name(index as int, LayerPart::QProj),
        names[k + 1] == part_name(index as int, LayerPart::KProj),
        names[k + 2] == part_name(index as int, LayerPart::VProj),
        names[k + 3] == part_name(index as int, LayerPart::OProj),
        names[k + 4] == part_name(index as int, LayerPart::QNorm),
        names[k + 5] == part_name(index as int, LayerPart::KNorm),
        left_after(all, names, k, old(tensors)@),
    ensures
        r == Ok::<Qwen35FullAttentionWeights, Error>(
            Qwen35FullAttentionWeights {
                q_proj_weight: all[part_name(index as int, LayerPart::QProj)],
                k_proj_weight: all[part_name(index as int, LayerPart::KProj)],
                v_proj_weight: all[part_name(index as int, LayerPart::VProj)],
                o_proj_weight: all[part_name(index as int, LayerPart::OProj)],
                q_norm_weight: all[part_name(index as int, LayerPart::QNorm)],
                k_norm_weight: all[part_name(index as int, LayerPart::KNorm)],
            },
        ),
        left_after(all, names, k + 6, final(tensors)@),
{
    let q_proj_weight = match take_part(
        tensors,
        index,
        LayerPart::QProj,
        Ghost(all),
        Ghost(names),
        Ghost(k + 0),
    ) {
        Ok(tensor) => tensor,
        Err(e) => return Err(e),
    };
    let k_proj_weight = match take_part(
        tensors,
        index,
        LayerPart::KProj,
        Ghost(all),
        Ghost(names),
        Ghost(k + 1),
    ) {
        Ok(tensor) => tensor,
        Err(e) => return Err(e),
    };
    let v_proj_weight = match take_part(
        tensors,
        index,
        LayerPart::VProj,
        Ghost(all),
        Ghost(names),
        Ghost(k + 2),
    ) {
        Ok(tensor) => tensor,
        Err(e) => return Err(e),
    };
    let o_proj_weight = match take_part(
        tensors,
        index,
        LayerPart::OProj,
        Ghost(all),
        Ghost(names),
        Ghost(k + 3),
    ) {
        Ok(tensor) => tensor,
        Err(e) => return Err(e),
    };
    let q_norm_weight = match take_part(
        tensors,
        index,
        LayerPart::QNorm,
        Ghost(all),
        Ghost(names),
        Ghost(k + 4),
    ) {
        Ok(tensor) => tensor,
        Err(e) => return Err(e),
    };
    let k_norm_weight = match take_part(
        tensors,
        index,
        LayerPart::KNorm,
        Ghost(all),
        Ghost(names),
        Ghost(k + 5),
    ) {
        Ok(tensor) => tensor,
        Err(e) => return Err(e),
    };
    Ok(
        Qwen35FullAttentionWeights {
            q_proj_weight,
            k_proj_weight,
            v_proj_weight,
            o_proj_weight,
            q_norm_weight,
            k_norm_weight,
        },
    )
}

/// The tensor of a layer that a suffix stands for, as a number, told from its
/// length and a few of its characters.
spec fn suffix_number(s: Seq<char>) -> int {
    if s.len() == 23 {
        0
    } else if s.len() == 18 {
        1
    } else if s.len() == 26 {
        2
    } else if s.len() == 20 {
        3
    } else if s.len() == 29 {
        if s[21] == 'a' {
            4
        } else if s[21] == 'b' {
            5
        } else {
            7
        }
    } else if s.len() == 31 {
        6
    } else if s.len() == 24 {
        if s[1] == 'l' {
            8
        } else if s[13] == 'n' {
            if s[11] == 'q' {
                14
            } else {
                15
            }
        } else if s[11] == 'q' {
            10
        } else if s[11] == 'k' {
            11
        } else if s[11] == 'v' {
            12
        } else {
            13
        }
    } else if s.len() == 28 {
        9
    } else if s.len() == 32 {
        16
    } else if s.len() == 21 {
        if s[5] == 'g' {
            17
        } else {
            19
        }
    } else {
        18
    }
}

spec fn part_number(part: LayerPart) -> int {
    match part {
        LayerPart::InputNorm => 0,
        LayerPart::ALog => 1,
        LayerPart::Conv1d => 2,
        LayerPart::DtBias => 3,
        LayerPart::InProjA => 4,
        LayerPart::InProjB => 5,
        LayerPart::InProjQkv => 6,
        LayerPart::InProjZ => 7,
        LayerPart::GdnNorm => 8,
        LayerPart::OutProj => 9,
        LayerPart::QProj => 10,
        LayerPart::KProj => 11,
        LayerPart::VProj => 12,
        LayerPart::OProj => 13,
        LayerPart::QNorm => 14,
        LayerPart::KNorm => 15,
        LayerPart::PostAttentionNorm => 16,
        LayerPart::GateProj => 17,
        LayerPart::UpProj => 18,
        LayerPart::DownProj => 19,
    }
}

proof fn suffix_tells_part(part: LayerPart)
    ensures
        part.suffix()@.len() > 0,
        part.suffix()@[0] == '.',
        suffix_number(part.suffix()@) == part_number(part),
{
    match part {
        LayerPart::InputNorm => {
            reveal_strlit(".input_layernorm.weight");
        },
        LayerPart::ALog => {
            reveal_strlit(".linear_attn.A_log");
        },
        LayerPart::Conv1d => {
            reveal_strlit(".linear_attn.conv1d.weight");
        },
        LayerPart::DtBias => {
            reveal_strlit(".linear_attn.dt_bias");
        },
        LayerPart::InProjA => {
            reveal_strlit(".linear_attn.in_proj_a.weight");
        },
        LayerPart::InProjB => {
            reveal_strlit(".linear_attn.in_proj_b.weight");
        },
        LayerPart::InProjQkv => {
            reveal_strlit(".linear_attn.in_proj_qkv.weight");
        },
        LayerPart::InProjZ => {
            reveal_strlit(".linear_attn.in_proj_z.weight");
        },
        LayerPart::GdnNorm => {
            reveal_strlit(".linear_attn.norm.weight");
        },
        LayerPart::OutProj => {
            reveal_strlit(".linear_attn.out_proj.weight");
        },
        LayerPart::QProj => {
            reveal_strlit(".self_attn.q_proj.weight");
        },
        LayerPart::KProj => {
            reveal_strlit(".self_attn.k_proj.weight");
        },
        LayerPart::VProj => {
            reveal_strlit(".self_attn.v_proj.weight");
        },
        LayerPart::OProj => {
            reveal_strlit(".self_attn.o_proj.weight");
        },
        LayerPart::QNorm => {
            reveal_strlit(".self_attn.q_norm.weight");
        },
        LayerPart::KNorm => {
            reveal_strlit(".self_attn.k_norm.weight");
        },
        LayerPart::PostAttentionNorm => {
            reveal_strlit(".post_attention_layernorm.weight");
        },
        LayerPart::GateProj => {
            reveal_strlit(".mlp.gate_proj.weight");
        },
        LayerPart::UpProj => {
            reveal_strlit(".mlp.up_proj.weight");
        },
        LayerPart::DownProj => {
            reveal_strlit(".mlp.down_proj.weight");
        },
    }
}

/// The name of a tensor of a layer tells the layer and the tensor.
pub proof fn part_names_are_distinct(i: int, p: LayerPart, j: int, q: LayerPart)
    requires
        0 <= i,
        0 <= j,
        part_name(i, p) == part_name(j, q),
    ensures
        i == j,
        p == q,
{
    let prefix = "model.language_model.layers."@;
    let a = decimal(i as nat);
    let b = decimal(j as nat);
    let left = part_name(i, p);
    let right = part_name(j, q);
    suffix_tells_part(p);
    suffix_tells_part(q);
    decimal_is_not_empty(i as nat);
    decimal_is_not_empty(j as nat);
    if a.len() < b.len() {
        assert(left[(prefix.len() + a.len()) as int] == '.');
        assert(right[(prefix.len() + a.len()) as int] == b[a.len() as int]);
    } else if b.len() < a.len() {
        assert(right[(prefix.len() + b.len()) as int] == '.');
        assert(left[(prefix.len() + b.len()) as int] == a[b.len() as int]);
    }
    assert(a.len() == b.len());
    assert(a =~= left.subrange(prefix.len() as int, (prefix.len() + a.len()) as int));
    assert(b =~= right.subrange(prefix.len() as int, (prefix.len() + b.len()) as int));
    decimal_is_injective(i as nat, j as nat);
    assert(p.suffix()@ =~= left.skip((prefix.len() + a.len()) as int));
    assert(q.suffix()@ =~= right.skip((prefix.len() + b.len()) as int));
    assert(part_number(p) == part_number(q));
}

proof fn model_names_are_distinct(i: int, part: LayerPart)
    ensures
        part_name(i, part) != embedding_name(),
        part_name(i, part) != output_norm_name(),
        part_name(i, part) != lm_head_name(),
        embedding_name() != output_norm_name(),
        embedding_name() != lm_head_name(),
        output_norm_name() != lm_head_name(),
{
    reveal_strlit("model.language_model.layers.");
    reveal_strlit("model.language_model.embed_tokens.weight");
    reveal_strlit("model.language_model.norm.weight");
    reveal_strlit("lm_head.weight");
    assert(part_name(i, part)[21] == 'l');
    assert(part_name(i, part)[0] == 'm');
    assert(embedding_name()[21] == 'e');
    assert(output_norm_name()[21] == 'n');
    assert(lm_head_name()[0] == 'l');
}

proof fn layer_parts_are_distinct(kind: Qwen35LayerType)
    ensures
        layer_parts(kind).no_duplicates(),
{
    let parts = layer_parts(kind);
    assert forall|a: int, b: int| 0 <= a < b < parts.len() implies parts[a] != parts[b] by {
        assert(part_number(parts[a]) < part_number(parts[b]));
    }
}

/// The name is that of a tensor of one of the first `n` layers.
spec fn names_a_layer(name: Seq<char>, n: int) -> bool {
    exists|i: int, part: LayerPart| 0 <= i < n && name == #[trigger] part_name(i, part)
}

proof fn layers_names_are_distinct(
    text: Qwen35TextConfig,
    n: nat,
    dtype: DType,
    state_dtype: DType,
)
    requires
        n <= text.layer_types@.len(),
    ensures
        spec_names(layers_specs(text, n, dtype, state_dtype)).no_duplicates(),
        forall|k: int|
            0 <= k < layers_specs(text, n, dtype, state_dtype).len() ==> names_a_layer(
                (#[trigger] layers_specs(text, n, dtype, state_dtype)[k]).name,
                n as int,
            ),
    decreases n,
{
    if n > 0 {
        let m = (n - 1) as nat;
        layers_names_are_distinct(text, m, dtype, state_dtype);
        let before = layers_specs(text, m, dtype, state_dtype);
        let layer = layer_specs(text, m as int, dtype, state_dtype);
        let all = layers_specs(text, n, dtype, state_dtype);
        let parts = layer_parts(text.layer_types@[m as int]);
        layer_parts_are_distinct(text.layer_types@[m as int]);
        let names = spec_names(all);
        assert forall|k: int| 0 <= k < all.len() implies names_a_layer(
            (#[trigger] all[k]).name,
            n as int,
        ) by {
            if k < before.len() {
                assert(all[k] == before[k]);
                let (i, part) = choose|i: int, part: LayerPart|
                    0 <= i < m && before[k].name == #[trigger] part_name(i, part);
                assert(all[k].name == part_name(i, part));
            } else {
                assert(all[k] == layer[k - before.len()]);
                assert(all[k].name == part_name(m as int, parts[k - before.len()]));
            }
        }
        assert forall|a: int, b: int| 0 <= a < b < names.len() implies names[a] != names[b] by {
            if b < before.len() {
                assert(spec_names(before)[a] == names[a]);
                assert(spec_names(before)[b] == names[b]);
            } else {
                let pb = parts[b - before.len()];
                assert(all[b] == layer[b - before.len()]);
                assert(names[b] == part_name(m as int, pb));
                if a < before.len() {
                    assert(all[a] == before[a]);
                    let (i, part) = choose|i: int, part: LayerPart|
                        0 <= i < m && before[a].name == #[trigger] part_name(i, part);
                    if names[a] == names[b] {
                        part_names_are_distinct(i, part, m as int, pb);
                    }
                } else {
                    let pa = parts[a - before.len()];
                    assert(all[a] == layer[a - before.len()]);
                    assert(names[a] == part_name(m as int, pa));
                    if names[a] == names[b] {
                        part_names_are_distinct(m as int, pa, m as int, pb);
                    }
                }
            }
        }
    }
}

/// No two tensors of a schema have the same name.
pub proof fn schema_names_are_distinct(text: Qwen35TextConfig, dtype: DType, state_dtype: DType)
    ensures
        spec_names(text_specs(text, dtype, state_dtype)).no_duplicates(),
{
    let n = text.layer_types@.len();
    let layers = layers_specs(text, n, dtype, state_dtype);
    let all = text_specs(text, dtype, state_dtype);
    let names = spec_names(all);
    layers_names_are_distinct(text, n, dtype, state_dtype);
    model_names_are_distinct(0, LayerPart::InputNorm);
    assert forall|k: int| 0 <= k < layers.len() implies names[k + 1] == layers[k].name && layers[k].name
        != embedding_name() && layers[k].name != output_norm_name() && #[trigger] layers[k].name
        != lm_head_name() by {
        assert(names_a_layer(layers[k].name, n as int));
        let (i, part) = choose|i: int, part: LayerPart|
            0 <= i < n && layers[k].name == #[trigger] part_name(i, part);
        model_names_are_distinct(i, part);
        assert(all[k + 1] == layers[k]);
    }
    assert(names[0] == embedding_name());
    assert(names[layers.len() as int + 1] == output_norm_name());
    if !text.tie_word_embeddings {
        assert(names[layers.len() as int + 2] == lm_head_name());
    }
    assert forall|a: int, b: int| 0 <= a < b < names.len() implies names[a] != names[b] by {
        if 1 <= a && a <= layers.len() {
            assert(names[a] == layers[a - 1].name);
        }
        if 1 <= b && b <= layers.len() {
            assert(names[b] == layers[b - 1].name);
            if 1 <= a {
                assert(spec_names(layers)[a - 1] == names[a]);
                assert(spec_names(layers)[b - 1] == names[b]);
            }
        }
    }
}

/// Loaded tensors meet the schema exactly where their metadata does.
proof fn metadata_tells_validity(
    text: Qwen35TextConfig,
    tensors: Map<Seq<char>, Tensor>,
    metadata: Map<Seq<char>, Qwen35WeightMetadata>,
)
    requires
        metadata_of(tensors, metadata),
    ensures
        is_valid_checkpoint(configured_specs(text), metadata, false) == tensors_are_valid(
            text,
            tensors,
        ),
{
    let specs = configured_specs(text);
    assert forall|name: Seq<char>| #[trigger]
        metadata.contains_key(name) == tensors.contains_key(name) by {
        assert(metadata.dom().contains(name) == tensors.dom().contains(name));
    }
    if is_valid_checkpoint(specs, metadata, false) {
        assert forall|i: int| 0 <= i < specs.len() implies {
            let name = (#[trigger] specs[i]).name;
            &&& tensors.contains_key(name)
            &&& tensors[name].dims() == specs[i].shape
            &&& tensors[name].element_type().is_float()
        } by {
            assert(weight_problem(specs[i], metadata, false) is None);
            assert(metadata.contains_key(specs[i].name));
        }
        assert forall|name: Seq<char>| #[trigger]
            tensors.contains_key(name) implies !is_unknown_name(specs, name) by {
            assert(metadata.contains_key(name));
        }
    }
    if tensors_are_valid(text, tensors) {
        assert forall|i: int| 0 <= i < specs.len() implies (#[trigger] weight_problem(
            specs[i],
            metadata,
            false,
        )) is None by {
            assert(tensors.contains_key(specs[i].name));
            assert(metadata.contains_key(specs[i].name));
        }
    }
}

proof fn layer_positions(text: Qwen35TextConfig, i: nat, dtype: DType, state_dtype: DType)
    requires
        i < text.layer_types@.len(),
    ensures
        ({
            let names = spec_names(text_specs(text, dtype, state_dtype));
            let k = 1 + layers_specs(text, i, dtype, state_dtype).len();
            let n = layer_parts(text.layer_types@[i as int]).len();
            &&& k + n == 1 + layers_specs(text, i + 1, dtype, state_dtype).len()
            &&& k + n + 1 <= names.len()
            &&& names.subrange(k as int, (k + n) as int) == layer_names(
                text.layer_types@[i as int],
                i as int,
            )
        }),
{
    let all = layers_specs(text, text.layer_types@.len(), dtype, state_dtype);
    let upto = layers_specs(text, i + 1, dtype, state_dtype);
    let before = layers_specs(text, i, dtype, state_dtype);
    let layer = layer_specs(text, i as int, dtype, state_dtype);
    layers_are_prefixes(text, i + 1, text.layer_types@.len(), dtype, state_dtype);
    let names = spec_names(text_specs(text, dtype, state_dtype));
    let k = (1 + before.len()) as int;
    let n = layer.len() as int;
    let expected = layer_names(text.layer_types@[i as int], i as int);
    assert(upto == before + layer);
    assert forall|j: int| 0 <= j < n implies #[trigger] names.subrange(k, k + n)[j]
        == expected[j] by {
        assert(names[k + j] == text_specs(text, dtype, state_dtype)[k + j].name);
        assert(text_specs(text, dtype, state_dtype)[k + j] == all[k + j - 1]);
        assert(all[k + j - 1] == all.take(upto.len() as int)[k + j - 1]);
        assert(upto[k + j - 1] == layer[j]);
    }
    assert(names.subrange(k, k + n) =~= expected);
}

proof fn layers_are_prefixes(
    text: Qwen35TextConfig,
    m: nat,
    n: nat,
    dtype: DType,
    state_dtype: DType,
)
    requires
        m <= n,
    ensures
        layers_specs(text, m, dtype, state_dtype).len() <= layers_specs(
            text,
            n,
            dtype,
            state_dtype,
        ).len(),
        layers_specs(text, n, dtype, state_dtype).take(
            layers_specs(text, m, dtype, state_dtype).len() as int,
        ) == layers_specs(text, m, dtype, state_dtype),
    decreases n,
{
    let short = layers_specs(text, m, dtype, state_dtype);
    let long = layers_specs(text, n, dtype, state_dtype);
    if m < n {
        layers_are_prefixes(text, m, (n - 1) as nat, dtype, state_dtype);
        let middle = layers_specs(text, (n - 1) as nat, dtype, state_dtype);
        assert(long.take(short.len() as int) =~= middle.take(short.len() as int));
    } else {
        assert(long.take(short.len() as int) =~= short);
    }
}

/// What an error says of a checkpoint that was refused: the configuration is
/// invalid, an element type of it is not known, or the checkpoint does not meet
/// the schema.
pub open spec fn is_load_error(
    text: Qwen35TextConfig,
    tensors: Map<Seq<char>, Tensor>,
    e: Error,
) -> bool {
    ||| text.validity_fault() == Some(e.text())
    ||| text.is_valid() && !dtypes_known(text) && is_dtype_error(text, e)
    ||| {
        &&& text.is_valid()
        &&& dtypes_known(text)
        &&& !tensors_are_valid(text, tensors)
        &&& exists|metadata: Map<Seq<char>, Qwen35WeightMetadata>|
            {
                &&& #[trigger] metadata_of(tensors, metadata)
                &&& is_checkpoint_error(configured_specs(text), metadata, false, e)
            }
    }
}

impl Qwen35TextWeights {
    /// Takes the text stack out of a checkpoint. It succeeds exactly where the
    /// checkpoint meets the schema of a valid configuration; tensors of the vision
    /// tower and of the multi-token prediction head are dropped.
    pub fn from_map(config: &Qwen35Config, tensors: NameMap<Tensor>) -> (r: Result<
        Qwen35TextWeights,
        Error,
    >)
        ensures
            match r {
                Ok(weights) => {
                    &&& config.text.is_valid()
                    &&& dtypes_known(config.text)
                    &&& tensors_are_valid(config.text, tensors@)
                    &&& text_loaded(tensors@, config.text, weights)
                },
                Err(e) => is_load_error(config.text, tensors@, e),
            },
    {
        let mut tensors = tensors;
        let ghost all = tensors@;
        let text = &config.text;
        let schema = match Qwen35WeightSchema::new(config) {
            Ok(schema) => schema,
            Err(e) => return Err(e),
        };
        let metadata = metadata_from_tensors(&tensors);
        proof {
            metadata_tells_validity(*text, all, metadata@);
        }
        match schema.validate_metadata(&metadata) {
            Ok(_) => {},
            Err(e) => return Err(e),
        }
        let ghost dtype = crate::qwen35::weights::named_dtype(text.dtype@)->Some_0;
        let ghost state_dtype = crate::qwen35::weights::named_dtype(
            text.recurrent_state_dtype@,
        )->Some_0;
        let ghost specs = text_specs(*text, dtype, state_dtype);
        let ghost names = spec_names(specs);
        proof {
            schema_names_are_distinct(*text, dtype, state_dtype);
            assert forall|i: int| 0 <= i < names.len() implies all.contains_key(
                #[trigger] names[i],
            ) by {
                assert(names[i] == specs[i].name);
            }
            assert(names.take(0) =~= Seq::<Seq<char>>::empty());
            assert(names[0] == embedding_name());
            assert(layers_specs(*text, 0, dtype, state_dtype).len() == 0);
        }
        let token_embedding = match take_at(
            &mut tensors,
            "model.language_model.embed_tokens.weight",
            Ghost(all),
            Ghost(names),
            Ghost(0),
        ) {
            Ok(tensor) => tensor,
            Err(e) => return Err(e),
        };
        let mut layers: Vec<Qwen35LayerWeights> = Vec::new();
        let mut index: usize = 0;
        while index < text.layer_types.len()
            invariant
                index <= text.layer_types@.len(),
                takeable(all, names),
                names == spec_names(text_specs(*text, dtype, state_dtype)),
                left_after(
                    all,
                    names,
                    1 + layers_specs(*text, index as nat, dtype, state_dtype).len() as int,
                    tensors@,
                ),
                layers@.len() == index,
                forall|i: int|
                    0 <= i < index ==> layer_loaded(
                        all,
                        text.layer_types@[i],
                        i,
                        #[trigger] layers@[i],
                    ),
            decreases text.layer_types@.len() - index,
        {
            proof {
                layer_positions(*text, index as nat, dtype, state_dtype);
            }
            let layer = match take_layer(
                &mut tensors,
                text.layer_types[index],
                index,
                Ghost(all),
                Ghost(names),
                Ghost(1 + layers_specs(*text, index as nat, dtype, state_dtype).len() as int),
            ) {
                Ok(layer) => layer,
                Err(e) => return Err(e),
            };
            layers.push(layer);
            index = index + 1;
        }
        let ghost k = 1 + layers_specs(
            *text,
            text.layer_types@.len(),
            dtype,
            state_dtype,
        ).len() as int;
        proof {
            assert(specs[k].name == output_norm_name());
            assert(names[k] == output_norm_name());
            if !text.tie_word_embeddings {
                assert(specs[k + 1].name == lm_head_name());
                assert(names[k + 1] == lm_head_name());
            }
        }
        let output_norm_weight = match take_at(
            &mut tensors,
            "model.language_model.norm.weight",
            Ghost(all),
            Ghost(names),
            Ghost(k),
        ) {
            Ok(tensor) => tensor,
            Err(e) => return Err(e),
        };
        let lm_head_weight = if text.tie_word_embeddings {
            None
        } else {
            match take_at(
                &mut tensors,
                "lm_head.weight",
                Ghost(all),
                Ghost(names),
                Ghost(k + 1),
            ) {
                Ok(tensor) => Some(tensor),
                Err(e) => return Err(e),
            }
        };
        Ok(Qwen35TextWeights { token_embedding, layers, output_norm_weight, lm_head_weight })
    }
}

/// A checkpoint that is stored exactly as declared also loads at run time: the
/// exact validation implies the one that lets a loader widen.
pub proof fn exact_checkpoints_are_valid(
    specs: Seq<WeightSpecView>,
    metadata: Map<Seq<char>, Qwen35WeightMetadata>,
)
    requires
        is_valid_checkpoint(specs, metadata, true),
    ensures
        is_valid_checkpoint(specs, metadata, false),
{
    assert forall|i: int| 0 <= i < specs.len() implies (#[trigger] weight_problem(
        specs[i],
        metadata,
        false,
    )) is None by {
        assert(weight_problem(specs[i], metadata, true) is None);
    }
}

} // verus!
