//! Configuration of the hybrid text stack and of the vision tower.
//!
//! Floating settings are held as the bits of 32-bit floats. One that a message
//! shows comes with its text, since the library does no floating point.

use vstd::prelude::*;

use crate::error::{answers, Error, Fault};

verus! {

/// The two kinds of layers of the hybrid stack.
#[derive(Clone, Copy, Debug, PartialEq, Eq, Structural)]
pub enum Qwen35LayerType {
    LinearAttention,
    FullAttention,
}

/// The text stack.
#[derive(Debug, PartialEq, Eq)]
pub struct Qwen35TextConfig {
    pub hidden_size: usize,
    pub intermediate_size: usize,
    pub n_layers: usize,
    pub n_attention_heads: usize,
    pub n_kv_heads: usize,
    pub head_dim: usize,
    /// The leading part of a head that is rotated by position.
    pub rotary_dim: usize,
    pub vocab_size: usize,
    pub max_position_embeddings: usize,
    pub rms_norm_eps_bits: u32,
    pub rope_theta_bits: u32,
    /// The base of the rotations as a message shows it: the decimal text that
    /// the host has for the float of the bits.
    pub rope_theta_text: String,
    pub mrope_section: [usize; 3],
    pub mrope_interleaved: bool,
    pub tie_word_embeddings: bool,
    pub attn_output_gate: bool,
    pub layer_types: Vec<Qwen35LayerType>,
    pub linear_num_key_heads: usize,
    pub linear_num_value_heads: usize,
    pub linear_key_head_dim: usize,
    pub linear_value_head_dim: usize,
    pub linear_conv_kernel_dim: usize,
    /// The element type of the stored weights, as the checkpoint names it.
    pub dtype: String,
    /// The element type of the stored recurrent parameters.
    pub recurrent_state_dtype: String,
}

impl Qwen35TextConfig {
    /// The width of the query or key channels of linear attention.
    pub open spec fn key_width(self) -> int {
        self.linear_num_key_heads * self.linear_key_head_dim
    }

    /// The width of the value channels of linear attention.
    pub open spec fn value_width(self) -> int {
        self.linear_num_value_heads * self.linear_value_head_dim
    }

    /// The width of the joined query, key and value channels.
    pub open spec fn qkv_width(self) -> int {
        2 * self.key_width() + self.value_width()
    }

    /// The width of the queries of full attention.
    pub open spec fn query_width(self) -> int {
        self.n_attention_heads * self.head_dim
    }

    /// The width of the query projection, which holds the output gate too.
    pub open spec fn query_projection_width(self) -> int {
        if self.attn_output_gate {
            2 * self.query_width()
        } else {
            self.query_width()
        }
    }

    /// The width of the keys or values of full attention.
    pub open spec fn kv_width(self) -> int {
        self.n_kv_heads * self.head_dim
    }

    /// Every width of the stack is a machine size.
    pub open spec fn widths_fit(self) -> bool {
        &&& self.qkv_width() <= usize::MAX
        &&& self.query_projection_width() <= usize::MAX
        &&& self.kv_width() <= usize::MAX
    }

    /// A kind is listed for each layer, and every width is a machine size.
    pub open spec fn is_valid(self) -> bool {
        &&& self.layer_types@.len() == self.n_layers
        &&& self.widths_fit()
    }

    /// What makes the configuration invalid.
    pub open spec fn validity_fault(self) -> Fault {
        if self.layer_types@.len() != self.n_layers {
            Some(
                Error::ConfigLayers {
                    got: self.layer_types@.len() as usize,
                    expected: self.n_layers,
                }.text(),
            )
        } else if !self.widths_fit() {
            Some(Error::ConfigWidths.text())
        } else {
            None
        }
    }

    /// The kind of a layer; `None` beyond the last one.
    pub open spec fn kind(self, layer_index: int) -> Option<Qwen35LayerType> {
        if 0 <= layer_index < self.layer_types@.len() {
            Some(self.layer_types@[layer_index])
        } else {
            None
        }
    }

    /// Tests that a kind is listed for each layer, and that every width is a
    /// machine size.
    pub fn validate(&self) -> (r: Result<(), Error>)
        ensures
            answers(r, self.validity_fault()),
            r is Ok == self.is_valid(),
    {
        let got: usize = self.layer_types.len();
        if got != self.n_layers {
            return Err(Error::ConfigLayers { got, expected: self.n_layers });
        }
        if !self.fits() {
            return Err(Error::ConfigWidths);
        }
        Ok(())
    }

    proof fn widths_are_natural(self)
        ensures
            0 <= self.key_width(),
            0 <= self.value_width(),
            0 <= self.query_width(),
            0 <= self.kv_width(),
    {
        assert(0 <= self.linear_num_key_heads * self.linear_key_head_dim) by (nonlinear_arith);
        assert(0 <= self.linear_num_value_heads * self.linear_value_head_dim) by (nonlinear_arith);
        assert(0 <= self.n_attention_heads * self.head_dim) by (nonlinear_arith);
        assert(0 <= self.n_kv_heads * self.head_dim) by (nonlinear_arith);
    }

    /// Whether every width of the stack is a machine size.
    pub fn fits(&self) -> (fits: bool)
        ensures
            fits == self.widths_fit(),
    {
        proof {
            self.widths_are_natural();
        }
        let key: usize = match self.linear_num_key_heads.checked_mul(self.linear_key_head_dim) {
            Some(width) => width,
            None => return false,
        };
        let value: usize = match self.linear_num_value_heads.checked_mul(
            self.linear_value_head_dim,
        ) {
            Some(width) => width,
            None => return false,
        };
        let query: usize = match self.n_attention_heads.checked_mul(self.head_dim) {
            Some(width) => width,
            None => return false,
        };
        let qkv_fits = match key.checked_mul(2) {
            Some(keys) => keys.checked_add(value).is_some(),
            None => false,
        };
        qkv_fits && (!self.attn_output_gate || query.checked_mul(2).is_some())
            && self.n_kv_heads.checked_mul(self.head_dim).is_some()
    }

    /// The width of the query or key channels of linear attention.
    pub fn linear_key_width(&self) -> (width: usize)
        requires
            self.widths_fit(),
        ensures
            width == self.key_width(),
    {
        proof {
            self.widths_are_natural();
        }
        self.linear_num_key_heads * self.linear_key_head_dim
    }

    /// The width of the value channels of linear attention.
    pub fn linear_value_width(&self) -> (width: usize)
        requires
            self.widths_fit(),
        ensures
            width == self.value_width(),
    {
        proof {
            self.widths_are_natural();
        }
        self.linear_num_value_heads * self.linear_value_head_dim
    }

    /// The width of the joined query, key and value channels.
    pub fn linear_qkv_width(&self) -> (width: usize)
        requires
            self.widths_fit(),
        ensures
            width == self.qkv_width(),
    {
        proof {
            self.widths_are_natural();
        }
        2 * self.linear_key_width() + self.linear_value_width()
    }

    /// The width of the queries of full attention.
    pub fn full_query_width(&self) -> (width: usize)
        requires
            self.widths_fit(),
        ensures
            width == self.query_width(),
    {
        proof {
            self.widths_are_natural();
        }
        self.n_attention_heads * self.head_dim
    }

    /// The width of the query projection.
    pub fn full_q_projection_width(&self) -> (width: usize)
        requires
            self.widths_fit(),
        ensures
            width == self.query_projection_width(),
    {
        proof {
            self.widths_are_natural();
        }
        if self.attn_output_gate {
            2 * self.full_query_width()
        } else {
            self.full_query_width()
        }
    }

    /// The width of the keys or values of full attention.
    pub fn full_kv_width(&self) -> (width: usize)
        requires
            self.widths_fit(),
        ensures
            width == self.kv_width(),
    {
        self.n_kv_heads * self.head_dim
    }

    /// The kind of a layer; `None` beyond the last one.
    pub fn layer_type(&self, layer_index: usize) -> (kind: Option<Qwen35LayerType>)
        ensures
            kind == self.kind(layer_index as int),
    {
        if layer_index < self.layer_types.len() {
            Some(self.layer_types[layer_index])
        } else {
            None
        }
    }
}

/// The vision tower.
#[derive(Debug, PartialEq, Eq)]
pub struct Qwen35VisionConfig {
    pub depth: usize,
    pub hidden_size: usize,
    pub intermediate_size: usize,
    pub num_heads: usize,
    pub patch_size: usize,
    pub temporal_patch_size: usize,
    pub in_channels: usize,
    pub spatial_merge_size: usize,
    pub num_position_embeddings: usize,
    pub out_hidden_size: usize,
    pub deepstack_visual_indexes: Vec<usize>,
}

/// The whole model.
#[derive(Debug, PartialEq, Eq)]
pub struct Qwen35Config {
    pub text: Qwen35TextConfig,
    pub vision: Qwen35VisionConfig,
    pub image_token_id: u32,
    pub video_token_id: u32,
    pub vision_start_token_id: u32,
    pub vision_end_token_id: u32,
}

} // verus!
