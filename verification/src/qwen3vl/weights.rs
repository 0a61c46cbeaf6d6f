//! The weights of the text stack.

use vstd::prelude::*;

use crate::error::{answers, either, Error, Fault, FaultOrder};
use crate::names::NameMap;
use crate::qwen35::weights::{
    embedding_name, output_norm_name, part_name, part_name_text, LayerPart,
};
use crate::qwen3vl::config::Qwen3VLConfig;
use crate::qwen3vl::layout::{is_transpose, matrix, matrix_fault, plain, plain_fault, Tower};
use crate::tensor::Tensor;

verus! {

/// One layer, with its projections transposed for row-major products.
#[derive(Debug)]
pub struct Qwen3VLLayer {
    pub attn_norm_weight: Tensor,
    /// `[hidden, n_heads * head_dim]`
    pub wq: Tensor,
    /// `[hidden, n_kv_heads * head_dim]`
    pub wk: Tensor,
    /// `[hidden, n_kv_heads * head_dim]`
    pub wv: Tensor,
    /// `[n_heads * head_dim, hidden]`
    pub wo: Tensor,
    /// Applied to each query head.
    pub q_norm_weight: Tensor,
    /// Applied to each key head.
    pub k_norm_weight: Tensor,
    pub ffn_norm_weight: Tensor,
    /// `[hidden, intermediate]`
    pub w_gate: Tensor,
    /// `[hidden, intermediate]`
    pub w_up: Tensor,
    /// `[intermediate, hidden]`
    pub w_down: Tensor,
    /// The three attention projections side by side, once they are packed.
    pub qkv_packed: Option<Tensor>,
    /// The two feed-forward projections side by side, once they are packed.
    pub gate_up_packed: Option<Tensor>,
}

/// All weights of the text stack.
#[derive(Debug)]
pub struct Qwen3VLTextWeights {
    /// `[vocab_size, hidden_size]`; also the output projection.
    pub token_embedding: Tensor,
    pub layers: Vec<Qwen3VLLayer>,
    pub output_norm_weight: Tensor,
}

/// The layer holds the tensors under its names, transposed where they are
/// projections, and nothing packed.
pub open spec fn layer_loaded(
    tensors: Map<Seq<char>, Tensor>,
    i: int,
    layer: Qwen3VLLayer,
) -> bool {
    &&& layer.attn_norm_weight.same_as(tensors[part_name(i, LayerPart::InputNorm)])
    &&& is_transpose(layer.wq, tensors[part_name(i, LayerPart::QProj)])
    &&& is_transpose(layer.wk, tensors[part_name(i, LayerPart::KProj)])
    &&& is_transpose(layer.wv, tensors[part_name(i, LayerPart::VProj)])
    &&& is_transpose(layer.wo, tensors[part_name(i, LayerPart::OProj)])
    &&& layer.q_norm_weight.same_as(tensors[part_name(i, LayerPart::QNorm)])
    &&& layer.k_norm_weight.same_as(tensors[part_name(i, LayerPart::KNorm)])
    &&& layer.ffn_norm_weight.same_as(tensors[part_name(i, LayerPart::PostAttentionNorm)])
    &&& is_transpose(layer.w_gate, tensors[part_name(i, LayerPart::GateProj)])
    &&& is_transpose(layer.w_up, tensors[part_name(i, LayerPart::UpProj)])
    &&& is_transpose(layer.w_down, tensors[part_name(i, LayerPart::DownProj)])
    &&& layer.qkv_packed is None
    &&& layer.gate_up_packed is None
}

/// Why a layer cannot be loaded: the first of its weights, in their order, that
/// is missing or cannot be transposed.
pub open spec fn layer_fault(tensors: Map<Seq<char>, Tensor>, i: int) -> Fault {
    plain_fault(tensors, part_name(i, LayerPart::InputNorm))
        .or_fault(matrix_fault(tensors, part_name(i, LayerPart::QProj), Tower::Text))
        .or_fault(matrix_fault(tensors, part_name(i, LayerPart::KProj), Tower::Text))
        .or_fault(matrix_fault(tensors, part_name(i, LayerPart::VProj), Tower::Text))
        .or_fault(matrix_fault(tensors, part_name(i, LayerPart::OProj), Tower::Text))
        .or_fault(plain_fault(tensors, part_name(i, LayerPart::QNorm)))
        .or_fault(plain_fault(tensors, part_name(i, LayerPart::KNorm)))
        .or_fault(plain_fault(tensors, part_name(i, LayerPart::PostAttentionNorm)))
        .or_fault(matrix_fault(tensors, part_name(i, LayerPart::GateProj), Tower::Text))
        .or_fault(matrix_fault(tensors, part_name(i, LayerPart::UpProj), Tower::Text))
        .or_fault(matrix_fault(tensors, part_name(i, LayerPart::DownProj), Tower::Text))
}

/// Why the first `n` layers cannot be loaded.
pub open spec fn layers_fault(tensors: Map<Seq<char>, Tensor>, n: nat) -> Fault
    decreases n,
{
    if n == 0 {
        None
    } else {
        either(layers_fault(tensors, (n - 1) as nat), layer_fault(tensors, n - 1))
    }
}

proof fn first_fault_stays(tensors: Map<Seq<char>, Tensor>, i: nat, n: nat)
    requires
        i <= n,
        layers_fault(tensors, i) is Some,
    ensures
        layers_fault(tensors, n) == layers_fault(tensors, i),
    decreases n,
{
    if i < n {
        first_fault_stays(tensors, i, (n - 1) as nat);
    }
}

fn load_layer(tensors: &NameMap<Tensor>, i: usize) -> (r: Result<Qwen3VLLayer, Error>)
    ensures
        answers(r, layer_fault(tensors@, i as int)),
        r matches Ok(layer) ==> layer_loaded(tensors@, i as int, layer),
{
    let attn_norm_weight = match plain(tensors, part_name_text(i, LayerPart::InputNorm).as_str()) {
        Ok(tensor) => tensor,
        Err(e) => return Err(e),
    };
    let wq = match matrix(
        tensors,
        part_name_text(i, LayerPart::QProj).as_str(),
        Tower::Text,
    ) {
        Ok(tensor) => tensor,
        Err(e) => return Err(e),
    };
    let wk = match matrix(
        tensors,
        part_name_text(i, LayerPart::KProj).as_str(),
        Tower::Text,
    ) {
        Ok(tensor) => tensor,
        Err(e) => return Err(e),
    };
    let wv = match matrix(
        tensors,
        part_name_text(i, LayerPart::VProj).as_str(),
        Tower::Text,
    ) {
        Ok(tensor) => tensor,
        Err(e) => return Err(e),
    };
    let wo = match matrix(
        tensors,
        part_name_text(i, LayerPart::OProj).as_str(),
        Tower::Text,
    ) {
        Ok(tensor) => tensor,
        Err(e) => return Err(e),
    };
    let q_norm_weight = match plain(tensors, part_name_text(i, LayerPart::QNorm).as_str()) {
        Ok(tensor) => tensor,
        Err(e) => return Err(e),
    };
    let k_norm_weight = match plain(tensors, part_name_text(i, LayerPart::KNorm).as_str()) {
        Ok(tensor) => tensor,
        Err(e) => return Err(e),
    };
    let ffn_norm_weight = match plain(
        tensors,
        part_name_text(i, LayerPart::PostAttentionNorm).as_str(),
    ) {
        Ok(tensor) => tensor,
        Err(e) => return Err(e),
    };
    let w_gate = match matrix(
        tensors,
        part_name_text(i, LayerPart::GateProj).as_str(),
        Tower::Text,
    ) {
        Ok(tensor) => tensor,
        Err(e) => return Err(e),
    };
    let w_up = match matrix(
        tensors,
        part_name_text(i, LayerPart::UpProj).as_str(),
        Tower::Text,
    ) {
        Ok(tensor) => tensor,
        Err(e) => return Err(e),
    };
    let w_down = match matrix(
        tensors,
        part_name_text(i, LayerPart::DownProj).as_str(),
        Tower::Text,
    ) {
        Ok(tensor) => tensor,
        Err(e) => return Err(e),
    };
    Ok(
        Qwen3VLLayer {
            attn_norm_weight,
            wq,
            wk,
            wv,
            wo,
            q_norm_weight,
            k_norm_weight,
            ffn_norm_weight,
            w_gate,
            w_up,
            w_down,
            qkv_packed: None,
            gate_up_packed: None,
        },
    )
}

impl Qwen3VLTextWeights {
    /// Why the weights cannot be loaded.
    pub open spec fn load_fault(config: Qwen3VLConfig, tensors: Map<Seq<char>, Tensor>) -> Fault {
        either(
            layers_fault(tensors, config.text.n_layers as nat),
            either(
                plain_fault(tensors, embedding_name()),
                plain_fault(tensors, output_norm_name()),
            ),
        )
    }

    /// Takes the weights of the text stack out of a checkpoint. Other tensors are
    /// left aside.
    pub fn from_map(config: &Qwen3VLConfig, tensors: &NameMap<Tensor>) -> (r: Result<Self, Error>)
        ensures
            answers(r, Self::load_fault(*config, tensors@)),
            r matches Ok(weights) ==> {
                &&& weights.token_embedding.same_as(tensors@[embedding_name()])
                &&& weights.output_norm_weight.same_as(tensors@[output_norm_name()])
                &&& weights.layers@.len() == config.text.n_layers
                &&& forall|i: int|
                    0 <= i < weights.layers@.len() ==> layer_loaded(
                        tensors@,
                        i,
                        #[trigger] weights.layers@[i],
                    )
            },
    {
        let mut layers: Vec<Qwen3VLLayer> = Vec::new();
        let mut i: usize = 0;
        while i < config.text.n_layers
            invariant
                i <= config.text.n_layers,
                layers@.len() == i,
                layers_fault(tensors@, i as nat) is None,
                forall|k: int|
                    0 <= k < i ==> layer_loaded(tensors@, k, #[trigger] layers@[k]),
            decreases config.text.n_layers - i,
        {
            match load_layer(tensors, i) {
                Ok(layer) => layers.push(layer),
                Err(e) => {
                    proof {
                        first_fault_stays(tensors@, (i + 1) as nat, config.text.n_layers as nat);
                    }
                    return Err(e);
                },
            }
            i = i + 1;
        }
        let token_embedding = match plain(tensors, "model.language_model.embed_tokens.weight") {
            Ok(tensor) => tensor,
            Err(e) => return Err(e),
        };
        let output_norm_weight = match plain(tensors, "model.language_model.norm.weight") {
            Ok(tensor) => tensor,
            Err(e) => return Err(e),
        };
        Ok(Qwen3VLTextWeights { token_embedding, layers, output_norm_weight })
    }
}

} // verus!
