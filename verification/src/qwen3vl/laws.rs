//! Every weight of the two towers keeps its role, and every setting its key.

use vstd::prelude::*;

use crate::float_bits::narrowed;
use crate::json::{behind, member_of, top, JsonLeaf};
use crate::qwen35::packing::{at, gathers, row_range};
use crate::qwen35::packing_laws::element;
use crate::qwen35::role_laws::layer_tensor;
use crate::qwen3vl::config::{
    config_fault, mrope_of, number_of, Qwen3VLConfig, Qwen3VLTextConfig, Qwen3VLVisionConfig,
};
use crate::qwen3vl::layout::is_transpose;
use crate::qwen3vl::vision_weights::{
    block_fault, block_loaded, blocks_fault, merger_loaded, Qwen3VLMerger, Qwen3VLVisionBlock, Qwen3VLVisionWeights,
};
use crate::qwen3vl::weights::{
    layer_fault, layer_loaded, layers_fault, Qwen3VLLayer, Qwen3VLTextWeights,
};
use crate::tensor::{DType, Tensor};
use crate::text::decimal;

verus! {

/// A weight is the stored one, as it is.
pub open spec fn is_kept(weight: Tensor, stored: Tensor) -> bool {
    &&& weight.dims() == stored.dims()
    &&& weight.element_type() == stored.element_type()
    &&& weight.data() == stored.data()
}

/// A weight is the stored matrix with rows and columns exchanged.
pub open spec fn is_turned(weight: Tensor, stored: Tensor) -> bool {
    let rows = stored.dims()[0] as int;
    let columns = stored.dims()[1] as int;
    &&& weight.dims() == seq![stored.dims()[1], stored.dims()[0]]
    &&& weight.element_type() == stored.element_type()
    &&& weight.data().len() == columns * rows
    &&& forall|r: int, c: int|
        0 <= r < rows && 0 <= c < columns ==> #[trigger] element(weight.data(), rows, c, r)
            == element(stored.data(), columns, r, c)
}

proof fn a_transpose_is_turned(weight: Tensor, stored: Tensor)
    requires
        is_transpose(weight, stored),
    ensures
        is_turned(weight, stored),
{
    gathered_rows_are_turned(
        weight.data(),
        stored.data(),
        stored.dims()[0] as int,
        stored.dims()[1] as int,
    );
}

proof fn gathered_rows_are_turned(out: Seq<u32>, stored: Seq<u32>, rows: int, columns: int)
    requires
        0 <= rows <= usize::MAX,
        gathers(out, stored, row_range(0, rows), columns),
    ensures
        out.len() == columns * rows,
        forall|r: int, c: int|
            0 <= r < rows && 0 <= c < columns ==> #[trigger] element(out, rows, c, r) == element(
                stored,
                columns,
                r,
                c,
            ),
{
    assert forall|r: int, c: int| 0 <= r < rows && 0 <= c < columns implies #[trigger] element(
        out,
        rows,
        c,
        r,
    ) == element(stored, columns, r, c) by {
        assert(at(out, rows, c, r) == at(stored, columns, r, c));
    }
}

/// Each field of a loaded text layer is the tensor under its own name; the
/// projections are turned, the norms are kept.
pub proof fn every_field_of_a_text_layer_has_its_tensor(
    tensors: Map<Seq<char>, Tensor>,
    i: int,
    layer: Qwen3VLLayer,
)
    requires
        layer_loaded(tensors, i, layer),
    ensures
        is_kept(layer.attn_norm_weight, tensors[layer_tensor(i, ".input_layernorm.weight"@)]),
        is_turned(layer.wq, tensors[layer_tensor(i, ".self_attn.q_proj.weight"@)]),
        is_turned(layer.wk, tensors[layer_tensor(i, ".self_attn.k_proj.weight"@)]),
        is_turned(layer.wv, tensors[layer_tensor(i, ".self_attn.v_proj.weight"@)]),
        is_turned(layer.wo, tensors[layer_tensor(i, ".self_attn.o_proj.weight"@)]),
        is_kept(layer.q_norm_weight, tensors[layer_tensor(i, ".self_attn.q_norm.weight"@)]),
        is_kept(layer.k_norm_weight, tensors[layer_tensor(i, ".self_attn.k_norm.weight"@)]),
        is_kept(
            layer.ffn_norm_weight,
            tensors[layer_tensor(i, ".post_attention_layernorm.weight"@)],
        ),
        is_turned(layer.w_gate, tensors[layer_tensor(i, ".mlp.gate_proj.weight"@)]),
        is_turned(layer.w_up, tensors[layer_tensor(i, ".mlp.up_proj.weight"@)]),
        is_turned(layer.w_down, tensors[layer_tensor(i, ".mlp.down_proj.weight"@)]),
        layer.qkv_packed is None,
        layer.gate_up_packed is None,
{
    a_transpose_is_turned(layer.wq, tensors[layer_tensor(i, ".self_attn.q_proj.weight"@)]);
    a_transpose_is_turned(layer.wk, tensors[layer_tensor(i, ".self_attn.k_proj.weight"@)]);
    a_transpose_is_turned(layer.wv, tensors[layer_tensor(i, ".self_attn.v_proj.weight"@)]);
    a_transpose_is_turned(layer.wo, tensors[layer_tensor(i, ".self_attn.o_proj.weight"@)]);
    a_transpose_is_turned(layer.w_gate, tensors[layer_tensor(i, ".mlp.gate_proj.weight"@)]);
    a_transpose_is_turned(layer.w_up, tensors[layer_tensor(i, ".mlp.up_proj.weight"@)]);
    a_transpose_is_turned(layer.w_down, tensors[layer_tensor(i, ".mlp.down_proj.weight"@)]);
}

proof fn every_field_of_a_block(
    tensors: Map<Seq<char>, Tensor>,
    prefix: Seq<char>,
    block: Qwen3VLVisionBlock,
)
    requires
        block_loaded(tensors, prefix, block),
    ensures
        is_kept(block.norm1_w, tensors[prefix + ".norm1.weight"@]),
        is_kept(block.norm1_b, tensors[prefix + ".norm1.bias"@]),
        is_turned(block.qkv_w, tensors[prefix + ".attn.qkv.weight"@]),
        is_kept(block.qkv_b, tensors[prefix + ".attn.qkv.bias"@]),
        is_turned(block.proj_w, tensors[prefix + ".attn.proj.weight"@]),
        is_kept(block.proj_b, tensors[prefix + ".attn.proj.bias"@]),
        is_kept(block.norm2_w, tensors[prefix + ".norm2.weight"@]),
        is_kept(block.norm2_b, tensors[prefix + ".norm2.bias"@]),
        is_turned(block.fc1_w, tensors[prefix + ".mlp.linear_fc1.weight"@]),
        is_kept(block.fc1_b, tensors[prefix + ".mlp.linear_fc1.bias"@]),
        is_turned(block.fc2_w, tensors[prefix + ".mlp.linear_fc2.weight"@]),
        is_kept(block.fc2_b, tensors[prefix + ".mlp.linear_fc2.bias"@]),
{
    a_transpose_is_turned(block.qkv_w, tensors[prefix + ".attn.qkv.weight"@]);
    a_transpose_is_turned(block.proj_w, tensors[prefix + ".attn.proj.weight"@]);
    a_transpose_is_turned(block.fc1_w, tensors[prefix + ".mlp.linear_fc1.weight"@]);
    a_transpose_is_turned(block.fc2_w, tensors[prefix + ".mlp.linear_fc2.weight"@]);
}

/// The field of a merger is the tensor under its own name.
pub open spec fn is_merger_of(
    tensors: Map<Seq<char>, Tensor>,
    prefix: Seq<char>,
    merger: Qwen3VLMerger,
) -> bool {
    &&& is_kept(merger.norm_w, tensors[prefix + ".norm.weight"@])
    &&& is_kept(merger.norm_b, tensors[prefix + ".norm.bias"@])
    &&& is_turned(merger.fc1_w, tensors[prefix + ".linear_fc1.weight"@])
    &&& is_kept(merger.fc1_b, tensors[prefix + ".linear_fc1.bias"@])
    &&& is_turned(merger.fc2_w, tensors[prefix + ".linear_fc2.weight"@])
    &&& is_kept(merger.fc2_b, tensors[prefix + ".linear_fc2.bias"@])
}

proof fn every_field_of_a_merger(
    tensors: Map<Seq<char>, Tensor>,
    prefix: Seq<char>,
    merger: Qwen3VLMerger,
)
    requires
        merger_loaded(tensors, prefix, merger),
    ensures
        is_merger_of(tensors, prefix, merger),
{
    a_transpose_is_turned(merger.fc1_w, tensors[prefix + ".linear_fc1.weight"@]);
    a_transpose_is_turned(merger.fc2_w, tensors[prefix + ".linear_fc2.weight"@]);
}

/// Each field of each block of a loaded vision tower is the tensor under its own
/// name.
pub proof fn every_field_of_a_vision_block_has_its_tensor(
    weights: Qwen3VLVisionWeights,
    config: Qwen3VLConfig,
    tensors: Map<Seq<char>, Tensor>,
    i: int,
)
    requires
        weights.are_loaded(config, tensors),
        0 <= i < config.vision.depth,
    ensures
        weights.blocks@.len() == config.vision.depth,
        ({
            let prefix = "model.visual.blocks."@ + decimal(i as nat);
            let block = weights.blocks@[i];
            &&& is_kept(block.norm1_w, tensors[prefix + ".norm1.weight"@])
            &&& is_kept(block.norm1_b, tensors[prefix + ".norm1.bias"@])
            &&& is_turned(block.qkv_w, tensors[prefix + ".attn.qkv.weight"@])
            &&& is_kept(block.qkv_b, tensors[prefix + ".attn.qkv.bias"@])
            &&& is_turned(block.proj_w, tensors[prefix + ".attn.proj.weight"@])
            &&& is_kept(block.proj_b, tensors[prefix + ".attn.proj.bias"@])
            &&& is_kept(block.norm2_w, tensors[prefix + ".norm2.weight"@])
            &&& is_kept(block.norm2_b, tensors[prefix + ".norm2.bias"@])
            &&& is_turned(block.fc1_w, tensors[prefix + ".mlp.linear_fc1.weight"@])
            &&& is_kept(block.fc1_b, tensors[prefix + ".mlp.linear_fc1.bias"@])
            &&& is_turned(block.fc2_w, tensors[prefix + ".mlp.linear_fc2.weight"@])
            &&& is_kept(block.fc2_b, tensors[prefix + ".mlp.linear_fc2.bias"@])
        }),
{
    let prefix = "model.visual.blocks."@ + decimal(i as nat);
    every_field_of_a_block(tensors, prefix, weights.blocks@[i]);
}

/// Beside its blocks a loaded vision tower has the patch projection, flattened to
/// one row per output channel and turned, the positions, the merger and three
/// deepstack mergers, each under its own name.
pub proof fn every_field_beside_the_blocks_has_its_tensor(
    weights: Qwen3VLVisionWeights,
    config: Qwen3VLConfig,
    tensors: Map<Seq<char>, Tensor>,
    i: int,
)
    requires
        weights.are_loaded(config, tensors),
        0 <= i < 3,
    ensures
        is_kept(weights.patch_embed_bias, tensors["model.visual.patch_embed.proj.bias"@]),
        is_kept(weights.pos_embed, tensors["model.visual.pos_embed.weight"@]),
        is_merger_of(tensors, "model.visual.merger"@, weights.merger),
        weights.deepstack_mergers@.len() == 3,
        is_merger_of(
            tensors,
            "model.visual.deepstack_merger_list."@ + decimal(i as nat),
            weights.deepstack_mergers@[i],
        ),
        ({
            let stored = tensors["model.visual.patch_embed.proj.weight"@];
            let patch = weights.patch_embed_weight;
            &&& patch.dims() == seq![1536usize, 1024usize]
            &&& patch.element_type() == stored.element_type()
            &&& forall|channel: int, value: int|
                0 <= channel < 1024 && 0 <= value < 1536 ==> #[trigger] element(
                    patch.data(),
                    1024,
                    value,
                    channel,
                ) == element(stored.data(), 1536, channel, value)
        }),
{
    every_field_of_a_merger(tensors, "model.visual.merger"@, weights.merger);
    every_field_of_a_merger(
        tensors,
        "model.visual.deepstack_merger_list."@ + decimal(i as nat),
        weights.deepstack_mergers@[i],
    );
    gathered_rows_are_turned(
        weights.patch_embed_weight.data(),
        tensors["model.visual.patch_embed.proj.weight"@].data(),
        1024,
        1536,
    );
}

/// What a document holds under a key of a section, where the section is an
/// object.
pub open spec fn setting(
    document: Map<Seq<Seq<char>>, JsonLeaf>,
    section: Seq<char>,
    key: Seq<char>,
) -> JsonLeaf {
    if document[Seq::empty()] is Object && document.contains_key(seq![section])
        && document[seq![section]] is Object && document.contains_key(seq![section, key]) {
        document[seq![section, key]]
    } else {
        JsonLeaf::Null
    }
}

/// The number under a key of a section, or the usual one where the document gives
/// none.
pub open spec fn number_or(
    document: Map<Seq<Seq<char>>, JsonLeaf>,
    section: Seq<char>,
    key: Seq<char>,
    usual: u64,
) -> u64 {
    match setting(document, section, key) {
        JsonLeaf::Number { whole: Some(number), .. } => number,
        _ => usual,
    }
}

proof fn a_member_is_behind_its_key(
    document: Map<Seq<Seq<char>>, JsonLeaf>,
    section: Seq<char>,
    key: Seq<char>,
)
    ensures
        top(member_of(member_of(document, section), key)) == setting(document, section, key),
{
    let nothing = Seq::<Seq<char>>::empty();
    assert(seq![section] + nothing =~= seq![section]);
    assert(seq![key] + nothing =~= seq![key]);
    assert(seq![section] + seq![key] =~= seq![section, key]);
    let inner = member_of(document, section);
    if document[nothing] is Object && document.contains_key(seq![section]) {
        assert(inner == behind(document, section));
        assert(inner.contains_key(nothing));
        assert(inner[nothing] == document[seq![section]]);
        assert(inner.contains_key(seq![key]) == document.contains_key(seq![section, key]));
        if document[seq![section]] is Object && document.contains_key(seq![section, key]) {
            let leaf = behind(inner, key);
            assert(leaf.contains_key(nothing));
            assert(leaf[nothing] == inner[seq![key]]);
            assert(inner[seq![key]] == document[seq![section, key]]);
        }
    } else {
        assert(inner[nothing] == JsonLeaf::Null);
    }
}

proof fn numbers_are_read_at_their_key(
    document: Map<Seq<Seq<char>>, JsonLeaf>,
    section: Seq<char>,
    key: Seq<char>,
    usual: u64,
)
    ensures
        number_of(member_of(document, section), key, usual) == number_or(
            document,
            section,
            key,
            usual,
        ),
{
    a_member_is_behind_its_key(document, section, key);
}

/// Each setting of the text stack is the number under its own key of the text
/// section, and the usual one where the document does not give it.
pub proof fn every_text_setting_has_its_key(
    config: Qwen3VLTextConfig,
    document: Map<Seq<Seq<char>>, JsonLeaf>,
)
    requires
        config.is_read_from(document),
    ensures
        config.hidden_size == number_or(document, "text_config"@, "hidden_size"@, 2048) as usize,
        config.intermediate_size == number_or(
            document,
            "text_config"@,
            "intermediate_size"@,
            6144,
        ) as usize,
        config.n_layers == number_or(document, "text_config"@, "num_hidden_layers"@, 28) as usize,
        config.n_heads == number_or(document, "text_config"@, "num_attention_heads"@, 16) as usize,
        config.n_kv_heads == number_or(
            document,
            "text_config"@,
            "num_key_value_heads"@,
            8,
        ) as usize,
        config.head_dim == number_or(document, "text_config"@, "head_dim"@, 128) as usize,
        config.vocab_size == number_or(document, "text_config"@, "vocab_size"@, 151936) as usize,
        config.max_position_embeddings == number_or(
            document,
            "text_config"@,
            "max_position_embeddings"@,
            262144,
        ) as usize,
        config.rms_norm_eps_bits == match setting(document, "text_config"@, "rms_norm_eps"@) {
            JsonLeaf::Number { double: Some(bits), .. } => narrowed(bits),
            _ => narrowed(0x3eb0_c6f7_a0b5_ed8d),
        },
        config.rope_theta_bits == match setting(document, "text_config"@, "rope_theta"@) {
            JsonLeaf::Number { double: Some(bits), .. } => narrowed(bits),
            _ => narrowed(0x4153_12d0_0000_0000),
        },
        config.tie_word_embeddings == match setting(
            document,
            "text_config"@,
            "tie_word_embeddings"@,
        ) {
            JsonLeaf::Bool(tied) => tied,
            _ => true,
        },
{
    let text = "text_config"@;
    numbers_are_read_at_their_key(document, text, "hidden_size"@, 2048);
    numbers_are_read_at_their_key(document, text, "intermediate_size"@, 6144);
    numbers_are_read_at_their_key(document, text, "num_hidden_layers"@, 28);
    numbers_are_read_at_their_key(document, text, "num_attention_heads"@, 16);
    numbers_are_read_at_their_key(document, text, "num_key_value_heads"@, 8);
    numbers_are_read_at_their_key(document, text, "head_dim"@, 128);
    numbers_are_read_at_their_key(document, text, "vocab_size"@, 151936);
    numbers_are_read_at_their_key(document, text, "max_position_embeddings"@, 262144);
    a_member_is_behind_its_key(document, text, "rms_norm_eps"@);
    a_member_is_behind_its_key(document, text, "rope_theta"@);
    a_member_is_behind_its_key(document, text, "tie_word_embeddings"@);
}

/// Each setting of the vision tower is the number under its own key of the vision
/// section, and the usual one where the document does not give it.
pub proof fn every_vision_setting_has_its_key(
    config: Qwen3VLVisionConfig,
    document: Map<Seq<Seq<char>>, JsonLeaf>,
)
    requires
        config.is_read_from(document),
    ensures
        config.depth == number_or(document, "vision_config"@, "depth"@, 24) as usize,
        config.hidden_size == number_or(document, "vision_config"@, "hidden_size"@, 1024) as usize,
        config.intermediate_size == number_or(
            document,
            "vision_config"@,
            "intermediate_size"@,
            4096,
        ) as usize,
        config.num_heads == number_or(document, "vision_config"@, "num_heads"@, 16) as usize,
        config.head_dim == number_or(document, "vision_config"@, "head_dim"@, 0) as usize,
        config.patch_size == number_or(document, "vision_config"@, "patch_size"@, 16) as usize,
        config.temporal_patch_size == number_or(
            document,
            "vision_config"@,
            "temporal_patch_size"@,
            2,
        ) as usize,
        config.in_channels == number_or(document, "vision_config"@, "in_channels"@, 3) as usize,
        config.spatial_merge_size == number_or(
            document,
            "vision_config"@,
            "spatial_merge_size"@,
            2,
        ) as usize,
        config.num_position_embeddings == number_or(
            document,
            "vision_config"@,
            "num_position_embeddings"@,
            2304,
        ) as usize,
        config.out_hidden_size == number_or(
            document,
            "vision_config"@,
            "out_hidden_size"@,
            2048,
        ) as usize,
        setting(document, "vision_config"@, "deepstack_visual_indexes"@) !is Array
            ==> config.deepstack_visual_indexes@ == seq![5usize, 11usize, 17usize],
{
    let vision = "vision_config"@;
    numbers_are_read_at_their_key(document, vision, "depth"@, 24);
    numbers_are_read_at_their_key(document, vision, "hidden_size"@, 1024);
    numbers_are_read_at_their_key(document, vision, "intermediate_size"@, 4096);
    numbers_are_read_at_their_key(document, vision, "num_heads"@, 16);
    numbers_are_read_at_their_key(document, vision, "head_dim"@, 0);
    numbers_are_read_at_their_key(document, vision, "patch_size"@, 16);
    numbers_are_read_at_their_key(document, vision, "temporal_patch_size"@, 2);
    numbers_are_read_at_their_key(document, vision, "in_channels"@, 3);
    numbers_are_read_at_their_key(document, vision, "spatial_merge_size"@, 2);
    numbers_are_read_at_their_key(document, vision, "num_position_embeddings"@, 2304);
    numbers_are_read_at_their_key(document, vision, "out_hidden_size"@, 2048);
    a_member_is_behind_its_key(document, vision, "deepstack_visual_indexes"@);
}

/// The special tokens are the numbers at the top of the document.
pub proof fn every_special_token_has_its_key(
    config: Qwen3VLConfig,
    document: Map<Seq<Seq<char>>, JsonLeaf>,
    number: u64,
    double: Option<u64>,
)
    requires
        config.is_read_from(document),
        document[Seq::empty()] is Object,
    ensures
        ({
            let leaf = JsonLeaf::Number { whole: Some(number), double };
            &&& document.contains_key(seq!["image_token_id"@]) && document[seq!["image_token_id"@]]
                == leaf ==> config.image_token_id == number as u32
            &&& document.contains_key(seq!["video_token_id"@]) && document[seq!["video_token_id"@]]
                == leaf ==> config.video_token_id == number as u32
            &&& document.contains_key(seq!["vision_start_token_id"@]) && document[seq![
                "vision_start_token_id"@,
            ]] == leaf ==> config.vision_start_token_id == number as u32
            &&& document.contains_key(seq!["vision_end_token_id"@]) && document[seq![
                "vision_end_token_id"@,
            ]] == leaf ==> config.vision_end_token_id == number as u32
        }),
        !document.contains_key(seq!["image_token_id"@]) ==> config.image_token_id == 151655,
        !document.contains_key(seq!["video_token_id"@]) ==> config.video_token_id == 151656,
        !document.contains_key(seq!["vision_start_token_id"@]) ==> config.vision_start_token_id
            == 151652,
        !document.contains_key(seq!["vision_end_token_id"@]) ==> config.vision_end_token_id
            == 151653,
{
    let nothing = Seq::<Seq<char>>::empty();
    assert(seq!["image_token_id"@] + nothing =~= seq!["image_token_id"@]);
    assert(seq!["video_token_id"@] + nothing =~= seq!["video_token_id"@]);
    assert(seq!["vision_start_token_id"@] + nothing =~= seq!["vision_start_token_id"@]);
    assert(seq!["vision_end_token_id"@] + nothing =~= seq!["vision_end_token_id"@]);
    let null = map![nothing => JsonLeaf::Null];
    assert(null[nothing] == JsonLeaf::Null);
}

proof fn what_is_behind_a_member(
    contents: Map<Seq<Seq<char>>, JsonLeaf>,
    key: Seq<char>,
    path: Seq<Seq<char>>,
)
    requires
        top(member_of(contents, key)) != JsonLeaf::Null,
    ensures
        contents[Seq::empty()] is Object,
        member_of(contents, key).contains_key(path) == contents.contains_key(seq![key] + path),
        contents.contains_key(seq![key] + path) ==> member_of(contents, key)[path]
            == contents[seq![key] + path],
{
    let nothing = Seq::<Seq<char>>::empty();
    let null = map![nothing => JsonLeaf::Null];
    assert(null[nothing] == JsonLeaf::Null);
}

/// The split of the frequency pairs over the three axes is read entry by entry,
/// in the order of the axes.
pub proof fn every_axis_has_its_entry(
    config: Qwen3VLTextConfig,
    document: Map<Seq<Seq<char>>, JsonLeaf>,
    axis: int,
    number: u64,
    double: Option<u64>,
)
    requires
        config.is_read_from(document),
        config_fault(document) is None,
        0 <= axis < 3,
        document.contains_key(
            seq![
                "text_config"@,
                "rope_scaling"@,
                "mrope_section"@,
                decimal(axis as nat),
            ],
        ),
        document[seq![
            "text_config"@,
            "rope_scaling"@,
            "mrope_section"@,
            decimal(axis as nat),
        ]] == (JsonLeaf::Number { whole: Some(number), double }),
    ensures
        config.mrope_section@[axis] == number as usize,
{
    let nothing = Seq::<Seq<char>>::empty();
    let text = member_of(document, "text_config"@);
    let scaling = member_of(text, "rope_scaling"@);
    let split = member_of(scaling, "mrope_section"@);
    let digit = decimal(axis as nat);
    let null = map![nothing => JsonLeaf::Null];
    assert(null[nothing] == JsonLeaf::Null);
    assert(top(split) is Array);
    assert(top(scaling) is Object);
    assert(top(text) is Object);
    let last = seq![digit];
    let inner = seq!["mrope_section"@] + last;
    let middle = seq!["rope_scaling"@] + inner;
    assert(seq!["text_config"@] + middle =~= seq![
        "text_config"@,
        "rope_scaling"@,
        "mrope_section"@,
        digit,
    ]);
    what_is_behind_a_member(document, "text_config"@, middle);
    what_is_behind_a_member(text, "rope_scaling"@, inner);
    what_is_behind_a_member(scaling, "mrope_section"@, last);
    assert(last + nothing =~= last);
    assert(mrope_of(document) == split);
    assert(top(behind(split, digit)) == split[last]);
}

/// A stored projection is a matrix of 32-bit floats or of brain floats.
pub open spec fn is_projection(tensors: Map<Seq<char>, Tensor>, name: Seq<char>) -> bool {
    &&& tensors.contains_key(name)
    &&& tensors[name].dims().len() == 2
    &&& tensors[name].element_type() == DType::F32 || tensors[name].element_type() == DType::BF16
}

proof fn every_text_layer_is_there(tensors: Map<Seq<char>, Tensor>, n: nat, i: int)
    requires
        layers_fault(tensors, n) is None,
        0 <= i < n,
    ensures
        layer_fault(tensors, i) is None,
    decreases n,
{
    if i < n - 1 {
        every_text_layer_is_there(tensors, (n - 1) as nat, i);
    }
}

/// The text weights are loaded only where every tensor of every layer is there,
/// the projections as matrices.
pub proof fn text_weights_need_every_tensor(
    config: Qwen3VLConfig,
    tensors: Map<Seq<char>, Tensor>,
    i: int,
)
    requires
        Qwen3VLTextWeights::load_fault(config, tensors) is None,
        0 <= i < config.text.n_layers,
    ensures
        tensors.contains_key("model.language_model.embed_tokens.weight"@),
        tensors.contains_key("model.language_model.norm.weight"@),
        tensors.contains_key(layer_tensor(i, ".input_layernorm.weight"@)),
        tensors.contains_key(layer_tensor(i, ".post_attention_layernorm.weight"@)),
        tensors.contains_key(layer_tensor(i, ".self_attn.q_norm.weight"@)),
        tensors.contains_key(layer_tensor(i, ".self_attn.k_norm.weight"@)),
        is_projection(tensors, layer_tensor(i, ".self_attn.q_proj.weight"@)),
        is_projection(tensors, layer_tensor(i, ".self_attn.k_proj.weight"@)),
        is_projection(tensors, layer_tensor(i, ".self_attn.v_proj.weight"@)),
        is_projection(tensors, layer_tensor(i, ".self_attn.o_proj.weight"@)),
        is_projection(tensors, layer_tensor(i, ".mlp.gate_proj.weight"@)),
        is_projection(tensors, layer_tensor(i, ".mlp.up_proj.weight"@)),
        is_projection(tensors, layer_tensor(i, ".mlp.down_proj.weight"@)),
{
    every_text_layer_is_there(tensors, config.text.n_layers as nat, i);
}

proof fn every_vision_block_is_there(tensors: Map<Seq<char>, Tensor>, n: nat, i: int)
    requires
        blocks_fault(tensors, n) is None,
        0 <= i < n,
    ensures
        block_fault(tensors, "model.visual.blocks."@ + decimal(i as nat)) is None,
    decreases n,
{
    if i < n - 1 {
        every_vision_block_is_there(tensors, (n - 1) as nat, i);
    }
}

/// The vision weights are loaded only where every tensor of every block is there,
/// the projections as matrices, with a patch projection of all its values.
pub proof fn vision_weights_need_every_tensor(
    config: Qwen3VLConfig,
    tensors: Map<Seq<char>, Tensor>,
    i: int,
)
    requires
        Qwen3VLVisionWeights::load_fault(config, tensors) is None,
        0 <= i < config.vision.depth,
    ensures
        tensors.contains_key("model.visual.patch_embed.proj.bias"@),
        tensors.contains_key("model.visual.pos_embed.weight"@),
        tensors.contains_key("model.visual.patch_embed.proj.weight"@),
        crate::tensor::product(tensors["model.visual.patch_embed.proj.weight"@].dims()) == 1024
            * 1536,
        is_projection(tensors, "model.visual.merger"@ + ".linear_fc1.weight"@),
        is_projection(tensors, "model.visual.merger"@ + ".linear_fc2.weight"@),
        ({
            let prefix = "model.visual.blocks."@ + decimal(i as nat);
            &&& tensors.contains_key(prefix + ".norm1.weight"@)
            &&& tensors.contains_key(prefix + ".norm1.bias"@)
            &&& tensors.contains_key(prefix + ".norm2.weight"@)
            &&& tensors.contains_key(prefix + ".norm2.bias"@)
            &&& is_projection(tensors, prefix + ".attn.qkv.weight"@)
            &&& is_projection(tensors, prefix + ".attn.proj.weight"@)
            &&& is_projection(tensors, prefix + ".mlp.linear_fc1.weight"@)
            &&& is_projection(tensors, prefix + ".mlp.linear_fc2.weight"@)
            &&& tensors.contains_key(prefix + ".attn.qkv.bias"@)
            &&& tensors.contains_key(prefix + ".attn.proj.bias"@)
            &&& tensors.contains_key(prefix + ".mlp.linear_fc1.bias"@)
            &&& tensors.contains_key(prefix + ".mlp.linear_fc2.bias"@)
        }),
{
    every_vision_block_is_there(tensors, config.vision.depth as nat, i);
}

} // verus!
