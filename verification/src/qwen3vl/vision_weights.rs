//! The weights of the vision tower.

use vstd::prelude::*;

use crate::error::{answers, either, missing_weight_text, Error, Fault, FaultOrder};
use crate::names::NameMap;
use crate::qwen35::packing::{gathers, row_range};
use crate::qwen3vl::config::Qwen3VLConfig;
use crate::qwen3vl::layout::{
    is_transpose, matrix, matrix_fault, plain, plain_fault, reshape_5d_to_2d, reshape_fault,
    transpose_2d, Tower,
};
use crate::tensor::{Device, Tensor};
use crate::text::{decimal, push_size};

verus! {

/// One block: two norms, the attention and the feed-forward projections. The
/// projections are transposed for row-major products.
#[derive(Debug)]
pub struct Qwen3VLVisionBlock {
    pub norm1_w: Tensor,
    pub norm1_b: Tensor,
    pub qkv_w: Tensor,
    pub qkv_b: Tensor,
    pub proj_w: Tensor,
    pub proj_b: Tensor,
    pub norm2_w: Tensor,
    pub norm2_b: Tensor,
    pub fc1_w: Tensor,
    pub fc1_b: Tensor,
    pub fc2_w: Tensor,
    pub fc2_b: Tensor,
}

/// A merger: a norm and two projections, transposed for row-major products.
#[derive(Debug)]
pub struct Qwen3VLMerger {
    pub norm_w: Tensor,
    pub norm_b: Tensor,
    pub fc1_w: Tensor,
    pub fc1_b: Tensor,
    pub fc2_w: Tensor,
    pub fc2_b: Tensor,
}

/// All weights of the vision tower.
#[derive(Debug)]
pub struct Qwen3VLVisionWeights {
    /// `[1536, 1024]`: the flattened patch projection, transposed.
    pub patch_embed_weight: Tensor,
    pub patch_embed_bias: Tensor,
    /// `[num_position_embeddings, hidden_size]`
    pub pos_embed: Tensor,
    pub blocks: Vec<Qwen3VLVisionBlock>,
    pub merger: Qwen3VLMerger,
    pub deepstack_mergers: Vec<Qwen3VLMerger>,
}

/// The number of output channels of the patch projection.
pub const PATCH_ROWS: usize = 1024;

/// The number of input values of a patch.
pub const PATCH_COLS: usize = 1536;

/// The number of deepstack mergers.
pub const DEEPSTACK_MERGERS: usize = 3;

/// What the names of the weights of a block start with.
pub open spec fn block_prefix(i: int) -> Seq<char> {
    "model.visual.blocks."@ + decimal(i as nat)
}

/// What the names of the weights of a deepstack merger start with.
pub open spec fn deepstack_prefix(i: int) -> Seq<char> {
    "model.visual.deepstack_merger_list."@ + decimal(i as nat)
}

fn numbered(start: &str, i: usize) -> (prefix: String)
    ensures
        prefix@ == start@ + decimal(i as nat),
{
    let mut prefix = start.to_owned();
    push_size(&mut prefix, i);
    prefix
}

fn joined(prefix: &str, suffix: &str) -> (name: String)
    ensures
        name@ == prefix@ + suffix@,
{
    let mut name = prefix.to_owned();
    name.append(suffix);
    name
}

/// The block holds the tensors under its names, transposed where they are
/// projections.
pub open spec fn block_loaded(
    tensors: Map<Seq<char>, Tensor>,
    prefix: Seq<char>,
    block: Qwen3VLVisionBlock,
) -> bool {
    &&& block.norm1_w.same_as(tensors[prefix + ".norm1.weight"@])
    &&& block.norm1_b.same_as(tensors[prefix + ".norm1.bias"@])
    &&& is_transpose(block.qkv_w, tensors[prefix + ".attn.qkv.weight"@])
    &&& block.qkv_b.same_as(tensors[prefix + ".attn.qkv.bias"@])
    &&& is_transpose(block.proj_w, tensors[prefix + ".attn.proj.weight"@])
    &&& block.proj_b.same_as(tensors[prefix + ".attn.proj.bias"@])
    &&& block.norm2_w.same_as(tensors[prefix + ".norm2.weight"@])
    &&& block.norm2_b.same_as(tensors[prefix + ".norm2.bias"@])
    &&& is_transpose(block.fc1_w, tensors[prefix + ".mlp.linear_fc1.weight"@])
    &&& block.fc1_b.same_as(tensors[prefix + ".mlp.linear_fc1.bias"@])
    &&& is_transpose(block.fc2_w, tensors[prefix + ".mlp.linear_fc2.weight"@])
    &&& block.fc2_b.same_as(tensors[prefix + ".mlp.linear_fc2.bias"@])
}

/// Why a block cannot be loaded: the first of its weights, in their order, that
/// is missing or cannot be transposed.
pub open spec fn block_fault(tensors: Map<Seq<char>, Tensor>, prefix: Seq<char>) -> Fault {
    plain_fault(tensors, prefix + ".norm1.weight"@)
        .or_fault(plain_fault(tensors, prefix + ".norm1.bias"@))
        .or_fault(matrix_fault(tensors, prefix + ".attn.qkv.weight"@, Tower::Vision))
        .or_fault(plain_fault(tensors, prefix + ".attn.qkv.bias"@))
        .or_fault(matrix_fault(tensors, prefix + ".attn.proj.weight"@, Tower::Vision))
        .or_fault(plain_fault(tensors, prefix + ".attn.proj.bias"@))
        .or_fault(plain_fault(tensors, prefix + ".norm2.weight"@))
        .or_fault(plain_fault(tensors, prefix + ".norm2.bias"@))
        .or_fault(matrix_fault(tensors, prefix + ".mlp.linear_fc1.weight"@, Tower::Vision))
        .or_fault(plain_fault(tensors, prefix + ".mlp.linear_fc1.bias"@))
        .or_fault(matrix_fault(tensors, prefix + ".mlp.linear_fc2.weight"@, Tower::Vision))
        .or_fault(plain_fault(tensors, prefix + ".mlp.linear_fc2.bias"@))
}

fn load_block(tensors: &NameMap<Tensor>, prefix: &str) -> (r: Result<Qwen3VLVisionBlock, Error>)
    ensures
        answers(r, block_fault(tensors@, prefix@)),
        r matches Ok(block) ==> block_loaded(tensors@, prefix@, block),
{
    let norm1_w = match plain(tensors, joined(prefix, ".norm1.weight").as_str()) {
        Ok(tensor) => tensor,
        Err(e) => return Err(e),
    };
    let norm1_b = match plain(tensors, joined(prefix, ".norm1.bias").as_str()) {
        Ok(tensor) => tensor,
        Err(e) => return Err(e),
    };
    let qkv_w = match matrix(tensors, joined(prefix, ".attn.qkv.weight").as_str(), Tower::Vision) {
        Ok(tensor) => tensor,
        Err(e) => return Err(e),
    };
    let qkv_b = match plain(tensors, joined(prefix, ".attn.qkv.bias").as_str()) {
        Ok(tensor) => tensor,
        Err(e) => return Err(e),
    };
    let proj_w = match matrix(
        tensors,
        joined(prefix, ".attn.proj.weight").as_str(),
        Tower::Vision,
    ) {
        Ok(tensor) => tensor,
        Err(e) => return Err(e),
    };
    let proj_b = match plain(tensors, joined(prefix, ".attn.proj.bias").as_str()) {
        Ok(tensor) => tensor,
        Err(e) => return Err(e),
    };
    let norm2_w = match plain(tensors, joined(prefix, ".norm2.weight").as_str()) {
        Ok(tensor) => tensor,
        Err(e) => return Err(e),
    };
    let norm2_b = match plain(tensors, joined(prefix, ".norm2.bias").as_str()) {
        Ok(tensor) => tensor,
        Err(e) => return Err(e),
    };
    let fc1_w = match matrix(
        tensors,
        joined(prefix, ".mlp.linear_fc1.weight").as_str(),
        Tower::Vision,
    ) {
        Ok(tensor) => tensor,
        Err(e) => return Err(e),
    };
    let fc1_b = match plain(tensors, joined(prefix, ".mlp.linear_fc1.bias").as_str()) {
        Ok(tensor) => tensor,
        Err(e) => return Err(e),
    };
    let fc2_w = match matrix(
        tensors,
        joined(prefix, ".mlp.linear_fc2.weight").as_str(),
        Tower::Vision,
    ) {
        Ok(tensor) => tensor,
        Err(e) => return Err(e),
    };
    let fc2_b = match plain(tensors, joined(prefix, ".mlp.linear_fc2.bias").as_str()) {
        Ok(tensor) => tensor,
        Err(e) => return Err(e),
    };
    Ok(
        Qwen3VLVisionBlock {
            norm1_w,
            norm1_b,
            qkv_w,
            qkv_b,
            proj_w,
            proj_b,
            norm2_w,
            norm2_b,
            fc1_w,
            fc1_b,
            fc2_w,
            fc2_b,
        },
    )
}

/// The merger holds the tensors under its names, transposed where they are
/// projections.
pub open spec fn merger_loaded(
    tensors: Map<Seq<char>, Tensor>,
    prefix: Seq<char>,
    merger: Qwen3VLMerger,
) -> bool {
    &&& merger.norm_w.same_as(tensors[prefix + ".norm.weight"@])
    &&& merger.norm_b.same_as(tensors[prefix + ".norm.bias"@])
    &&& is_transpose(merger.fc1_w, tensors[prefix + ".linear_fc1.weight"@])
    &&& merger.fc1_b.same_as(tensors[prefix + ".linear_fc1.bias"@])
    &&& is_transpose(merger.fc2_w, tensors[prefix + ".linear_fc2.weight"@])
    &&& merger.fc2_b.same_as(tensors[prefix + ".linear_fc2.bias"@])
}

/// Why a merger cannot be loaded: the first of its weights, in their order, that
/// is missing or cannot be transposed.
pub open spec fn merger_fault(tensors: Map<Seq<char>, Tensor>, prefix: Seq<char>) -> Fault {
    plain_fault(tensors, prefix + ".norm.weight"@)
        .or_fault(plain_fault(tensors, prefix + ".norm.bias"@))
        .or_fault(matrix_fault(tensors, prefix + ".linear_fc1.weight"@, Tower::Vision))
        .or_fault(plain_fault(tensors, prefix + ".linear_fc1.bias"@))
        .or_fault(matrix_fault(tensors, prefix + ".linear_fc2.weight"@, Tower::Vision))
        .or_fault(plain_fault(tensors, prefix + ".linear_fc2.bias"@))
}

fn load_merger(tensors: &NameMap<Tensor>, prefix: &str) -> (r: Result<Qwen3VLMerger, Error>)
    ensures
        answers(r, merger_fault(tensors@, prefix@)),
        r matches Ok(merger) ==> merger_loaded(tensors@, prefix@, merger),
{
    let norm_w = match plain(tensors, joined(prefix, ".norm.weight").as_str()) {
        Ok(tensor) => tensor,
        Err(e) => return Err(e),
    };
    let norm_b = match plain(tensors, joined(prefix, ".norm.bias").as_str()) {
        Ok(tensor) => tensor,
        Err(e) => return Err(e),
    };
    let fc1_w = match matrix(
        tensors,
        joined(prefix, ".linear_fc1.weight").as_str(),
        Tower::Vision,
    ) {
        Ok(tensor) => tensor,
        Err(e) => return Err(e),
    };
    let fc1_b = match plain(tensors, joined(prefix, ".linear_fc1.bias").as_str()) {
        Ok(tensor) => tensor,
        Err(e) => return Err(e),
    };
    let fc2_w = match matrix(
        tensors,
        joined(prefix, ".linear_fc2.weight").as_str(),
        Tower::Vision,
    ) {
        Ok(tensor) => tensor,
        Err(e) => return Err(e),
    };
    let fc2_b = match plain(tensors, joined(prefix, ".linear_fc2.bias").as_str()) {
        Ok(tensor) => tensor,
        Err(e) => return Err(e),
    };
    Ok(Qwen3VLMerger { norm_w, norm_b, fc1_w, fc1_b, fc2_w, fc2_b })
}

/// Why the first `n` blocks cannot be loaded.
pub open spec fn blocks_fault(tensors: Map<Seq<char>, Tensor>, n: nat) -> Fault
    decreases n,
{
    if n == 0 {
        None
    } else {
        either(
            blocks_fault(tensors, (n - 1) as nat),
            block_fault(tensors, block_prefix(n - 1)),
        )
    }
}

proof fn first_block_fault_stays(tensors: Map<Seq<char>, Tensor>, i: nat, n: nat)
    requires
        i <= n,
        blocks_fault(tensors, i) is Some,
    ensures
        blocks_fault(tensors, n) == blocks_fault(tensors, i),
    decreases n,
{
    if i < n {
        first_block_fault_stays(tensors, i, (n - 1) as nat);
    }
}

fn load_blocks(tensors: &NameMap<Tensor>, n: usize) -> (r: Result<Vec<Qwen3VLVisionBlock>, Error>)
    ensures
        answers(r, blocks_fault(tensors@, n as nat)),
        r matches Ok(blocks) ==> {
            &&& blocks@.len() == n
            &&& forall|i: int|
                0 <= i < n ==> block_loaded(tensors@, block_prefix(i), #[trigger] blocks@[i])
        },
{
    let mut blocks: Vec<Qwen3VLVisionBlock> = Vec::new();
    let mut i: usize = 0;
    while i < n
        invariant
            i <= n,
            blocks@.len() == i,
            blocks_fault(tensors@, i as nat) is None,
            forall|k: int|
                0 <= k < i ==> block_loaded(tensors@, block_prefix(k), #[trigger] blocks@[k]),
        decreases n - i,
    {
        match load_block(tensors, numbered("model.visual.blocks.", i).as_str()) {
            Ok(block) => blocks.push(block),
            Err(e) => {
                proof {
                    first_block_fault_stays(tensors@, (i + 1) as nat, n as nat);
                }
                return Err(e);
            },
        }
        i = i + 1;
    }
    Ok(blocks)
}

/// Why the first `n` mergers cannot be loaded.
pub open spec fn mergers_fault(tensors: Map<Seq<char>, Tensor>, n: nat) -> Fault
    decreases n,
{
    if n == 0 {
        None
    } else {
        either(
            mergers_fault(tensors, (n - 1) as nat),
            merger_fault(tensors, deepstack_prefix(n - 1)),
        )
    }
}

proof fn first_merger_fault_stays(tensors: Map<Seq<char>, Tensor>, i: nat, n: nat)
    requires
        i <= n,
        mergers_fault(tensors, i) is Some,
    ensures
        mergers_fault(tensors, n) == mergers_fault(tensors, i),
    decreases n,
{
    if i < n {
        first_merger_fault_stays(tensors, i, (n - 1) as nat);
    }
}

fn load_mergers(tensors: &NameMap<Tensor>, n: usize) -> (r: Result<Vec<Qwen3VLMerger>, Error>)
    ensures
        answers(r, mergers_fault(tensors@, n as nat)),
        r matches Ok(mergers) ==> {
            &&& mergers@.len() == n
            &&& forall|i: int|
                0 <= i < n ==> merger_loaded(tensors@, deepstack_prefix(i), #[trigger] mergers@[i])
        },
{
    let mut mergers: Vec<Qwen3VLMerger> = Vec::new();
    let mut i: usize = 0;
    while i < n
        invariant
            i <= n,
            mergers@.len() == i,
            mergers_fault(tensors@, i as nat) is None,
            forall|k: int|
                0 <= k < i ==> merger_loaded(tensors@, deepstack_prefix(k), #[trigger] mergers@[k]),
        decreases n - i,
    {
        match load_merger(tensors, numbered("model.visual.deepstack_merger_list.", i).as_str()) {
            Ok(merger) => mergers.push(merger),
            Err(e) => {
                proof {
                    first_merger_fault_stays(tensors@, (i + 1) as nat, n as nat);
                }
                return Err(e);
            },
        }
        i = i + 1;
    }
    Ok(mergers)
}

/// The name of the patch projection.
pub open spec fn patch_name() -> Seq<char> {
    "model.visual.patch_embed.proj.weight"@
}

/// Why the patch projection cannot be loaded.
pub open spec fn patch_fault(tensors: Map<Seq<char>, Tensor>) -> Fault {
    if !tensors.contains_key(patch_name()) {
        Some(missing_weight_text("patch_embed.proj.weight"@))
    } else {
        reshape_fault(tensors[patch_name()], PATCH_ROWS as int, PATCH_COLS as int)
    }
}

/// The tensor is the flattened patch projection, transposed.
pub open spec fn patch_loaded(tensors: Map<Seq<char>, Tensor>, out: Tensor) -> bool {
    &&& out.dims() == seq![PATCH_COLS, PATCH_ROWS]
    &&& out.element_type() == tensors[patch_name()].element_type()
    &&& out.place() == Device::Cpu
    &&& gathers(
        out.data(),
        tensors[patch_name()].data(),
        row_range(0, PATCH_ROWS as int),
        PATCH_COLS as int,
    )
}

fn load_patch(tensors: &NameMap<Tensor>) -> (r: Result<Tensor, Error>)
    ensures
        answers(r, patch_fault(tensors@)),
        r matches Ok(out) ==> patch_loaded(tensors@, out),
{
    match tensors.get("model.visual.patch_embed.proj.weight") {
        Some(tensor) => match reshape_5d_to_2d(tensor, PATCH_ROWS, PATCH_COLS) {
            Ok(flattened) => transpose_2d(&flattened, Tower::Vision),
            Err(e) => Err(e),
        },
        None => Err(Error::MissingWeight { name: "patch_embed.proj.weight".to_owned() }),
    }
}

/// Why a weight that messages name shortly cannot be taken.
pub open spec fn short_fault(
    tensors: Map<Seq<char>, Tensor>,
    name: Seq<char>,
    short: Seq<char>,
) -> Fault {
    if tensors.contains_key(name) {
        None
    } else {
        Some(missing_weight_text(short))
    }
}

fn plain_as(tensors: &NameMap<Tensor>, name: &str, short: &str) -> (r: Result<Tensor, Error>)
    ensures
        answers(r, short_fault(tensors@, name@, short@)),
        r matches Ok(out) ==> out.same_as(tensors@[name@]),
{
    match tensors.get(name) {
        Some(tensor) => Ok(tensor.copy()),
        None => Err(Error::MissingWeight { name: short.to_owned() }),
    }
}

impl Qwen3VLVisionWeights {
    /// Why the weights cannot be loaded.
    pub open spec fn load_fault(config: Qwen3VLConfig, tensors: Map<Seq<char>, Tensor>) -> Fault {
        let bias = short_fault(
            tensors,
            "model.visual.patch_embed.proj.bias"@,
            "patch_embed.proj.bias"@,
        );
        let positions = short_fault(
            tensors,
            "model.visual.pos_embed.weight"@,
            "pos_embed.weight"@,
        );
        blocks_fault(tensors, config.vision.depth as nat)
            .or_fault(patch_fault(tensors))
            .or_fault(bias)
            .or_fault(positions)
            .or_fault(merger_fault(tensors, "model.visual.merger"@))
            .or_fault(mergers_fault(tensors, DEEPSTACK_MERGERS as nat))
    }

    /// The weights are those of a checkpoint.
    pub open spec fn are_loaded(
        self,
        config: Qwen3VLConfig,
        tensors: Map<Seq<char>, Tensor>,
    ) -> bool {
        &&& patch_loaded(tensors, self.patch_embed_weight)
        &&& self.patch_embed_bias.same_as(tensors["model.visual.patch_embed.proj.bias"@])
        &&& self.pos_embed.same_as(tensors["model.visual.pos_embed.weight"@])
        &&& self.blocks@.len() == config.vision.depth
        &&& forall|i: int|
            0 <= i < self.blocks@.len() ==> block_loaded(
                tensors,
                block_prefix(i),
                #[trigger] self.blocks@[i],
            )
        &&& merger_loaded(tensors, "model.visual.merger"@, self.merger)
        &&& self.deepstack_mergers@.len() == DEEPSTACK_MERGERS
        &&& forall|i: int|
            0 <= i < self.deepstack_mergers@.len() ==> merger_loaded(
                tensors,
                deepstack_prefix(i),
                #[trigger] self.deepstack_mergers@[i],
            )
    }

    /// Takes the weights of the vision tower out of a checkpoint. Other tensors
    /// are left aside.
    pub fn from_map(config: &Qwen3VLConfig, tensors: &NameMap<Tensor>) -> (r: Result<Self, Error>)
        ensures
            answers(r, Self::load_fault(*config, tensors@)),
            r matches Ok(weights) ==> weights.are_loaded(*config, tensors@),
    {
        let blocks = match load_blocks(tensors, config.vision.depth) {
            Ok(blocks) => blocks,
            Err(e) => return Err(e),
        };
        let patch_embed_weight = match load_patch(tensors) {
            Ok(tensor) => tensor,
            Err(e) => return Err(e),
        };
        let patch_embed_bias = match plain_as(
            tensors,
            "model.visual.patch_embed.proj.bias",
            "patch_embed.proj.bias",
        ) {
            Ok(tensor) => tensor,
            Err(e) => return Err(e),
        };
        let pos_embed = match plain_as(
            tensors,
            "model.visual.pos_embed.weight",
            "pos_embed.weight",
        ) {
            Ok(tensor) => tensor,
            Err(e) => return Err(e),
        };
        let merger = match load_merger(tensors, "model.visual.merger") {
            Ok(merger) => merger,
            Err(e) => return Err(e),
        };
        let deepstack_mergers = match load_mergers(tensors, DEEPSTACK_MERGERS) {
            Ok(mergers) => mergers,
            Err(e) => return Err(e),
        };
        Ok(
            Qwen3VLVisionWeights {
                patch_embed_weight,
                patch_embed_bias,
                pos_embed,
                blocks,
                merger,
                deepstack_mergers,
            },
        )
    }
}

} // verus!
