//! The configuration of the vision-language model, read from `config.json`.

use vstd::prelude::*;

use crate::error::{answers, qwen3_vl_json_text, Error, Fault};
use crate::float_bits::{narrow, narrowed};
use crate::json::{
    as_array, as_bool, as_double, as_u64, behind, bool_of, double_of, is_object, json_contents,
    json_document, member, member_of, parse, top, whole_of, JsonLeaf,
};
use crate::text::decimal;

verus! {

/// The text stack. Floats are held as bits.
#[derive(Debug, PartialEq, Eq)]
pub struct Qwen3VLTextConfig {
    pub hidden_size: usize,
    pub intermediate_size: usize,
    pub n_layers: usize,
    pub n_heads: usize,
    pub n_kv_heads: usize,
    pub head_dim: usize,
    pub vocab_size: usize,
    pub max_position_embeddings: usize,
    pub rms_norm_eps_bits: u32,
    pub rope_theta_bits: u32,
    /// How the frequency pairs are split over time, height and width.
    pub mrope_section: [usize; 3],
    pub mrope_interleaved: bool,
    pub tie_word_embeddings: bool,
}

/// The vision tower.
#[derive(Debug, PartialEq, Eq)]
pub struct Qwen3VLVisionConfig {
    pub depth: usize,
    pub hidden_size: usize,
    pub intermediate_size: usize,
    pub num_heads: usize,
    /// The width of a head; zero where it follows from the hidden size.
    pub head_dim: usize,
    pub patch_size: usize,
    pub temporal_patch_size: usize,
    pub in_channels: usize,
    pub spatial_merge_size: usize,
    pub num_position_embeddings: usize,
    pub out_hidden_size: usize,
    /// The blocks that feed the deepstack mergers.
    pub deepstack_visual_indexes: Vec<usize>,
}

impl Qwen3VLVisionConfig {
    /// The width of a head: the configured one, or the share of a head in the
    /// hidden size.
    pub fn head_dim(&self) -> (width: usize)
        requires
            self.head_dim != 0 || self.num_heads > 0,
        ensures
            width == if self.head_dim != 0 {
                self.head_dim as int
            } else {
                self.hidden_size as int / self.num_heads as int
            },
    {
        if self.head_dim != 0 {
            self.head_dim
        } else {
            self.hidden_size / self.num_heads
        }
    }
}

/// The whole model.
#[derive(Debug, PartialEq, Eq)]
pub struct Qwen3VLConfig {
    pub text: Qwen3VLTextConfig,
    pub vision: Qwen3VLVisionConfig,
    pub image_token_id: u32,
    pub video_token_id: u32,
    pub vision_start_token_id: u32,
    pub vision_end_token_id: u32,
}

/// A number of a section, or the usual one.
pub open spec fn number_of(
    section: Map<Seq<Seq<char>>, JsonLeaf>,
    key: Seq<char>,
    usual: u64,
) -> u64 {
    match whole_of(member_of(section, key)) {
        Some(number) => number,
        None => usual,
    }
}

fn number(section: &serde_json::Value, key: &str, usual: u64) -> (number: u64)
    ensures
        number == number_of(json_contents(*section), key@, usual),
{
    match as_u64(member(section, key)) {
        Some(number) => number,
        None => usual,
    }
}

/// A float of a section as the bits of a 32-bit one, or the usual one.
pub open spec fn float_of(
    section: Map<Seq<Seq<char>>, JsonLeaf>,
    key: Seq<char>,
    usual: u64,
) -> u32 {
    match double_of(member_of(section, key)) {
        Some(bits) => narrowed(bits),
        None => narrowed(usual),
    }
}

fn float(section: &serde_json::Value, key: &str, usual: u64) -> (bits: u32)
    ensures
        bits == float_of(json_contents(*section), key@, usual),
{
    match as_double(member(section, key)) {
        Some(bits) => narrow(bits),
        None => narrow(usual),
    }
}

/// A truth value of a section; true where there is none.
pub open spec fn flag_of(section: Map<Seq<Seq<char>>, JsonLeaf>, key: Seq<char>) -> bool {
    match bool_of(member_of(section, key)) {
        Some(flag) => flag,
        None => true,
    }
}

fn flag(section: &serde_json::Value, key: &str) -> (flag: bool)
    ensures
        flag == flag_of(json_contents(*section), key@),
{
    match as_bool(member(section, key)) {
        Some(flag) => flag,
        None => true,
    }
}

/// The bits of the 64-bit float one millionth.
pub const USUAL_EPS: u64 = 0x3eb0_c6f7_a0b5_ed8d;

/// The bits of the 64-bit float five million.
pub const USUAL_THETA: u64 = 0x4153_12d0_0000_0000;

/// An entry of the split, or the usual one.
pub open spec fn entry_of(section: Map<Seq<Seq<char>>, JsonLeaf>, i: nat, usual: u64) -> usize {
    match whole_of(behind(section, decimal(i))) {
        Some(number) => number as usize,
        None => usual as usize,
    }
}

/// The unsigned numbers among the first `n` items of an array, in their order.
pub open spec fn numbers_of(list: Map<Seq<Seq<char>>, JsonLeaf>, n: nat) -> Seq<usize>
    decreases n,
{
    if n == 0 {
        Seq::empty()
    } else {
        let before = numbers_of(list, (n - 1) as nat);
        match whole_of(behind(list, decimal((n - 1) as nat))) {
            Some(number) => before.push(number as usize),
            None => before,
        }
    }
}

/// The blocks that feed the deepstack mergers.
pub open spec fn deepstack_of(vision: Map<Seq<Seq<char>>, JsonLeaf>) -> Seq<usize> {
    let list = member_of(vision, "deepstack_visual_indexes"@);
    match top(list) {
        JsonLeaf::Array(n) => numbers_of(list, n),
        _ => seq![5usize, 11usize, 17usize],
    }
}

fn deepstack(vision: &serde_json::Value) -> (indexes: Vec<usize>)
    ensures
        indexes@ == deepstack_of(json_contents(*vision)),
{
    let list = member(vision, "deepstack_visual_indexes");
    match as_array(list) {
        Some(items) => {
            let mut indexes: Vec<usize> = Vec::new();
            let mut i: usize = 0;
            while i < items.len()
                invariant
                    i <= items@.len(),
                    forall|k: int|
                        0 <= k < items@.len() ==> json_contents(#[trigger] items@[k]) == behind(
                            json_contents(*list),
                            decimal(k as nat),
                        ),
                    indexes@ == numbers_of(json_contents(*list), i as nat),
                decreases items@.len() - i,
            {
                if let Some(number) = as_u64(&items[i]) {
                    indexes.push(number as usize);
                }
                i = i + 1;
            }
            indexes
        },
        None => {
            let indexes: Vec<usize> = vec![5, 11, 17];
            proof {
                assert(indexes@ =~= seq![5usize, 11usize, 17usize]);
            }
            indexes
        },
    }
}

/// The split of the frequency pairs.
pub open spec fn mrope_of(
    document: Map<Seq<Seq<char>>, JsonLeaf>,
) -> Map<Seq<Seq<char>>, JsonLeaf> {
    member_of(
        member_of(member_of(document, "text_config"@), "rope_scaling"@),
        "mrope_section"@,
    )
}

/// Why a document is no configuration.
pub open spec fn config_fault(document: Map<Seq<Seq<char>>, JsonLeaf>) -> Fault {
    if top(member_of(document, "text_config"@)) !is Object {
        Some(Error::Qwen3VlTextConfig.text())
    } else {
        match top(mrope_of(document)) {
            JsonLeaf::Array(n) => if n != 3 {
                Some(Error::Qwen3VlMropeLength { entries: n as usize }.text())
            } else {
                None
            },
            _ => Some(Error::Qwen3VlMropeSection.text()),
        }
    }
}

impl Qwen3VLTextConfig {
    /// The configuration holds what the document says of the text stack.
    pub open spec fn is_read_from(self, document: Map<Seq<Seq<char>>, JsonLeaf>) -> bool {
        let text = member_of(document, "text_config"@);
        &&& self.hidden_size == number_of(text, "hidden_size"@, 2048) as usize
        &&& self.intermediate_size == number_of(text, "intermediate_size"@, 6144) as usize
        &&& self.n_layers == number_of(text, "num_hidden_layers"@, 28) as usize
        &&& self.n_heads == number_of(text, "num_attention_heads"@, 16) as usize
        &&& self.n_kv_heads == number_of(text, "num_key_value_heads"@, 8) as usize
        &&& self.head_dim == number_of(text, "head_dim"@, 128) as usize
        &&& self.vocab_size == number_of(text, "vocab_size"@, 151936) as usize
        &&& self.max_position_embeddings == number_of(
            text,
            "max_position_embeddings"@,
            262144,
        ) as usize
        &&& self.rms_norm_eps_bits == float_of(text, "rms_norm_eps"@, USUAL_EPS)
        &&& self.rope_theta_bits == float_of(text, "rope_theta"@, USUAL_THETA)
        &&& self.mrope_section@ == seq![
            entry_of(mrope_of(document), 0, 24),
            entry_of(mrope_of(document), 1, 20),
            entry_of(mrope_of(document), 2, 20),
        ]
        &&& self.mrope_interleaved == flag_of(
            member_of(text, "rope_scaling"@),
            "mrope_interleaved"@,
        )
        &&& self.tie_word_embeddings == flag_of(text, "tie_word_embeddings"@)
    }
}

impl Qwen3VLVisionConfig {
    /// The configuration holds what the document says of the vision tower.
    pub open spec fn is_read_from(self, document: Map<Seq<Seq<char>>, JsonLeaf>) -> bool {
        let vision = member_of(document, "vision_config"@);
        &&& self.depth == number_of(vision, "depth"@, 24) as usize
        &&& self.hidden_size == number_of(vision, "hidden_size"@, 1024) as usize
        &&& self.intermediate_size == number_of(vision, "intermediate_size"@, 4096) as usize
        &&& self.num_heads == number_of(vision, "num_heads"@, 16) as usize
        &&& self.head_dim == number_of(vision, "head_dim"@, 0) as usize
        &&& self.patch_size == number_of(vision, "patch_size"@, 16) as usize
        &&& self.temporal_patch_size == number_of(vision, "temporal_patch_size"@, 2) as usize
        &&& self.in_channels == number_of(vision, "in_channels"@, 3) as usize
        &&& self.spatial_merge_size == number_of(vision, "spatial_merge_size"@, 2) as usize
        &&& self.num_position_embeddings == number_of(
            vision,
            "num_position_embeddings"@,
            2304,
        ) as usize
        &&& self.out_hidden_size == number_of(vision, "out_hidden_size"@, 2048) as usize
        &&& self.deepstack_visual_indexes@ == deepstack_of(vision)
    }

    fn from_json(document: &serde_json::Value) -> (config: Self)
        ensures
            config.is_read_from(json_contents(*document)),
    {
        let vision = member(document, "vision_config");
        Qwen3VLVisionConfig {
            depth: number(vision, "depth", 24) as usize,
            hidden_size: number(vision, "hidden_size", 1024) as usize,
            intermediate_size: number(vision, "intermediate_size", 4096) as usize,
            num_heads: number(vision, "num_heads", 16) as usize,
            head_dim: number(vision, "head_dim", 0) as usize,
            patch_size: number(vision, "patch_size", 16) as usize,
            temporal_patch_size: number(vision, "temporal_patch_size", 2) as usize,
            in_channels: number(vision, "in_channels", 3) as usize,
            spatial_merge_size: number(vision, "spatial_merge_size", 2) as usize,
            num_position_embeddings: number(vision, "num_position_embeddings", 2304) as usize,
            out_hidden_size: number(vision, "out_hidden_size", 2048) as usize,
            deepstack_visual_indexes: deepstack(vision),
        }
    }
}

impl Qwen3VLConfig {
    /// The configuration holds what the document says.
    pub open spec fn is_read_from(self, document: Map<Seq<Seq<char>>, JsonLeaf>) -> bool {
        &&& self.text.is_read_from(document)
        &&& self.vision.is_read_from(document)
        &&& self.image_token_id == number_of(document, "image_token_id"@, 151655) as u32
        &&& self.video_token_id == number_of(document, "video_token_id"@, 151656) as u32
        &&& self.vision_start_token_id == number_of(
            document,
            "vision_start_token_id"@,
            151652,
        ) as u32
        &&& self.vision_end_token_id == number_of(document, "vision_end_token_id"@, 151653) as u32
    }

    /// Reads the configuration out of a document.
    pub fn from_json_value(document: &serde_json::Value) -> (r: Result<Self, Error>)
        ensures
            answers(r, config_fault(json_contents(*document))),
            r matches Ok(config) ==> config.is_read_from(json_contents(*document)),
    {
        let text = member(document, "text_config");
        if !is_object(text) {
            return Err(Error::Qwen3VlTextConfig);
        }
        let rope_scaling = member(text, "rope_scaling");
        let section = match as_array(member(rope_scaling, "mrope_section")) {
            Some(section) => section,
            None => return Err(Error::Qwen3VlMropeSection),
        };
        if section.len() != 3 {
            return Err(Error::Qwen3VlMropeLength { entries: section.len() });
        }
        let mrope_section: [usize; 3] = [
            match as_u64(&section[0]) {
                Some(number) => number as usize,
                None => 24,
            },
            match as_u64(&section[1]) {
                Some(number) => number as usize,
                None => 20,
            },
            match as_u64(&section[2]) {
                Some(number) => number as usize,
                None => 20,
            },
        ];
        proof {
            assert(mrope_section@ =~= seq![
                entry_of(mrope_of(json_contents(*document)), 0, 24),
                entry_of(mrope_of(json_contents(*document)), 1, 20),
                entry_of(mrope_of(json_contents(*document)), 2, 20),
            ]);
        }
        let text = Qwen3VLTextConfig {
            hidden_size: number(text, "hidden_size", 2048) as usize,
            intermediate_size: number(text, "intermediate_size", 6144) as usize,
            n_layers: number(text, "num_hidden_layers", 28) as usize,
            n_heads: number(text, "num_attention_heads", 16) as usize,
            n_kv_heads: number(text, "num_key_value_heads", 8) as usize,
            head_dim: number(text, "head_dim", 128) as usize,
            vocab_size: number(text, "vocab_size", 151936) as usize,
            max_position_embeddings: number(text, "max_position_embeddings", 262144) as usize,
            rms_norm_eps_bits: float(text, "rms_norm_eps", USUAL_EPS),
            rope_theta_bits: float(text, "rope_theta", USUAL_THETA),
            mrope_section,
            mrope_interleaved: flag(rope_scaling, "mrope_interleaved"),
            tie_word_embeddings: flag(text, "tie_word_embeddings"),
        };
        Ok(
            Qwen3VLConfig {
                text,
                vision: Qwen3VLVisionConfig::from_json(document),
                image_token_id: number(document, "image_token_id", 151655) as u32,
                video_token_id: number(document, "video_token_id", 151656) as u32,
                vision_start_token_id: number(document, "vision_start_token_id", 151652) as u32,
                vision_end_token_id: number(document, "vision_end_token_id", 151653) as u32,
            },
        )
    }

    /// Reads the configuration out of the text of a document.
    pub fn from_json_str(text: &str) -> (r: Result<Self, Error>)
        ensures
            match json_document(text@) {
                Ok(document) => {
                    &&& answers(r, config_fault(document))
                    &&& r matches Ok(config) ==> config.is_read_from(document)
                },
                Err(cause) => answers(r, Some(qwen3_vl_json_text(cause))),
            },
    {
        match parse(text) {
            Ok(document) => Qwen3VLConfig::from_json_value(&document),
            Err(cause) => Err(Error::Qwen3VlJson { cause }),
        }
    }
}

} // verus!
