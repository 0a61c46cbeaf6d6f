//! The visual encoder: what it accepts, and what its tower has to give back.
//!
//! The language runtime alone places image tokens, positions and rotations; the
//! encoder turns the pixels of one image into rows for them.

use vstd::prelude::*;

use crate::error::{
    answers, either, reported_text, vision_load_text, vision_pixels_text, vision_primary_text,
    Error, Fault,
};
use crate::names::NameMap;
use crate::qwen35::config::Qwen35Config;
use crate::qwen3vl::config::{Qwen3VLConfig, Qwen3VLTextConfig, Qwen3VLVisionConfig};
use crate::qwen3vl::vision_weights::Qwen3VLVisionWeights;
use crate::tensor::{copy_dims, DType, Device, Tensor};

verus! {

/// The encoder's configuration and the weights of its tower.
#[derive(Debug)]
pub struct Qwen35VisionEncoder {
    pub config: Qwen3VLConfig,
    pub weights: Qwen3VLVisionWeights,
}

/// What the vision tower gave: its main rows, and how many deepstack outputs.
#[derive(Debug)]
pub struct VisionOutput {
    pub primary: Tensor,
    pub deepstack: usize,
}

/// The configuration is that of the tower of a model.
pub open spec fn is_tower_config(tower: Qwen3VLConfig, config: Qwen35Config) -> bool {
    let text = config.text;
    let vision = config.vision;
    &&& tower.text == (Qwen3VLTextConfig {
        hidden_size: text.hidden_size,
        intermediate_size: text.intermediate_size,
        n_layers: text.n_layers,
        n_heads: text.n_attention_heads,
        n_kv_heads: text.n_kv_heads,
        head_dim: text.head_dim,
        vocab_size: text.vocab_size,
        max_position_embeddings: text.max_position_embeddings,
        rms_norm_eps_bits: text.rms_norm_eps_bits,
        rope_theta_bits: text.rope_theta_bits,
        mrope_section: text.mrope_section,
        mrope_interleaved: text.mrope_interleaved,
        tie_word_embeddings: false,
    })
    &&& tower.vision.depth == vision.depth
    &&& tower.vision.hidden_size == vision.hidden_size
    &&& tower.vision.intermediate_size == vision.intermediate_size
    &&& tower.vision.num_heads == vision.num_heads
    &&& tower.vision.head_dim == vision.hidden_size as int / vision.num_heads as int
    &&& tower.vision.patch_size == vision.patch_size
    &&& tower.vision.temporal_patch_size == vision.temporal_patch_size
    &&& tower.vision.in_channels == vision.in_channels
    &&& tower.vision.spatial_merge_size == vision.spatial_merge_size
    &&& tower.vision.num_position_embeddings == vision.num_position_embeddings
    &&& tower.vision.out_hidden_size == vision.out_hidden_size
    &&& tower.vision.deepstack_visual_indexes@ == vision.deepstack_visual_indexes@
    &&& tower.image_token_id == config.image_token_id
    &&& tower.video_token_id == config.video_token_id
    &&& tower.vision_start_token_id == config.vision_start_token_id
    &&& tower.vision_end_token_id == config.vision_end_token_id
}

/// The configuration of the tower of a model.
pub fn qwen3vl_config(config: &Qwen35Config) -> (tower: Qwen3VLConfig)
    requires
        config.vision.num_heads > 0,
    ensures
        is_tower_config(tower, *config),
{
    let text = &config.text;
    let vision = &config.vision;
    Qwen3VLConfig {
        text: Qwen3VLTextConfig {
            hidden_size: text.hidden_size,
            intermediate_size: text.intermediate_size,
            n_layers: text.n_layers,
            n_heads: text.n_attention_heads,
            n_kv_heads: text.n_kv_heads,
            head_dim: text.head_dim,
            vocab_size: text.vocab_size,
            max_position_embeddings: text.max_position_embeddings,
            rms_norm_eps_bits: text.rms_norm_eps_bits,
            rope_theta_bits: text.rope_theta_bits,
            mrope_section: text.mrope_section,
            mrope_interleaved: text.mrope_interleaved,
            tie_word_embeddings: false,
        },
        vision: Qwen3VLVisionConfig {
            depth: vision.depth,
            hidden_size: vision.hidden_size,
            intermediate_size: vision.intermediate_size,
            num_heads: vision.num_heads,
            head_dim: vision.hidden_size / vision.num_heads,
            patch_size: vision.patch_size,
            temporal_patch_size: vision.temporal_patch_size,
            in_channels: vision.in_channels,
            spatial_merge_size: vision.spatial_merge_size,
            num_position_embeddings: vision.num_position_embeddings,
            out_hidden_size: vision.out_hidden_size,
            deepstack_visual_indexes: copy_dims(vision.deepstack_visual_indexes.as_slice()),
        },
        image_token_id: config.image_token_id,
        video_token_id: config.video_token_id,
        vision_start_token_id: config.vision_start_token_id,
        vision_end_token_id: config.vision_end_token_id,
    }
}

/// The number of values of a patch.
pub open spec fn patch_width(config: Qwen3VLConfig) -> int {
    config.vision.in_channels * config.vision.temporal_patch_size * config.vision.patch_size
        * config.vision.patch_size
}

/// The patch width cannot be told: one of its products, from the left, does not
/// fit.
pub open spec fn patch_width_overflows(config: Qwen3VLConfig) -> bool {
    let vision = config.vision;
    ||| vision.in_channels * vision.temporal_patch_size > usize::MAX
    ||| vision.in_channels * vision.temporal_patch_size * vision.patch_size > usize::MAX
    ||| patch_width(config) > usize::MAX
}

/// The number of patches of a grid.
pub open spec fn patch_count(grid_thw: [u32; 3]) -> int {
    grid_thw@[0] * grid_thw@[1] * grid_thw@[2]
}

/// The patch count cannot be told: one of its products, from the left, does not
/// fit.
pub open spec fn patch_count_overflows(grid_thw: [u32; 3]) -> bool {
    grid_thw@[0] * grid_thw@[1] > usize::MAX || patch_count(grid_thw) > usize::MAX
}

/// The rows that the tower owes: one for every merged square of patches.
pub open spec fn merged_rows(config: Qwen3VLConfig, grid_thw: [u32; 3]) -> int {
    patch_count(grid_thw) / (config.vision.spatial_merge_size
        * config.vision.spatial_merge_size)
}

impl Qwen35VisionEncoder {
    /// Why a model cannot have an encoder: deepstack outputs are configured.
    pub open spec fn config_fault(config: Qwen35Config) -> Fault {
        if config.vision.deepstack_visual_indexes@.len() > 0 {
            Some(Error::VisionDeepstack.text())
        } else {
            None
        }
    }

    /// Why an encoder cannot be built: the checkpoint could not be read, or a
    /// weight is missing or misshapen.
    pub open spec fn tensors_fault(
        tower: Qwen3VLConfig,
        tensors: Result<NameMap<Tensor>, String>,
    ) -> Fault {
        match tensors {
            Ok(tensors) => Qwen3VLVisionWeights::load_fault(tower, tensors@),
            Err(cause) => Some(vision_load_text(cause@)),
        }
    }

    /// Whether a model with this configuration can have an encoder. To be asked
    /// before its checkpoint is read.
    pub fn check_config(config: &Qwen35Config) -> (r: Result<(), Error>)
        ensures
            answers(r, Self::config_fault(*config)),
    {
        if config.vision.deepstack_visual_indexes.len() > 0 {
            Err(Error::VisionDeepstack)
        } else {
            Ok(())
        }
    }

    /// Builds the encoder from what reading its checkpoint gave.
    pub fn load(config: &Qwen35Config, tensors: Result<NameMap<Tensor>, String>) -> (r: Result<
        Self,
        Error,
    >)
        requires
            config.vision.deepstack_visual_indexes@.len() == 0 ==> config.vision.num_heads > 0,
        ensures
            Self::config_fault(*config) is Some ==> answers(r, Self::config_fault(*config)),
            Self::config_fault(*config) is None ==> exists|tower: Qwen3VLConfig|
                {
                    &&& #[trigger] is_tower_config(tower, *config)
                    &&& answers(r, Self::tensors_fault(tower, tensors))
                    &&& r matches Ok(encoder) ==> {
                        &&& encoder.config == tower
                        &&& encoder.weights.are_loaded(tower, tensors->Ok_0@)
                    }
                },
    {
        if let Err(e) = Self::check_config(config) {
            return Err(e);
        }
        let tower = qwen3vl_config(config);
        let ghost given = tower;
        proof {
            assert(is_tower_config(given, *config));
        }
        let tensors = match tensors {
            Ok(tensors) => tensors,
            Err(cause) => return Err(Error::VisionLoad { cause }),
        };
        match Qwen3VLVisionWeights::from_map(&tower, &tensors) {
            Ok(weights) => Ok(Qwen35VisionEncoder { config: tower, weights }),
            Err(e) => Err(e),
        }
    }

    /// Why pixels cannot be encoded.
    pub open spec fn pixels_fault(self, pixel_values: Tensor, grid_thw: [u32; 3]) -> Fault {
        if patch_width_overflows(self.config) {
            Some(Error::VisionPatchWidth.text())
        } else if patch_count_overflows(grid_thw) {
            Some(Error::VisionPatchCount.text())
        } else if pixel_values.place() != Device::Cpu || pixel_values.element_type() != DType::BF16
            || pixel_values.dims() != seq![
            patch_count(grid_thw) as usize,
            patch_width(self.config) as usize,
        ] {
            Some(
                vision_pixels_text(
                    patch_count(grid_thw),
                    patch_width(self.config),
                    pixel_values.element_type().name(),
                    pixel_values.dims(),
                    pixel_values.place().name(),
                ),
            )
        } else {
            None
        }
    }

    /// Checks the pixels of one image and counts its patches. To be asked before
    /// the pixels go to the tower.
    pub fn check_pixels(&self, pixel_values: &Tensor, grid_thw: [u32; 3]) -> (r: Result<
        usize,
        Error,
    >)
        ensures
            answers(r, self.pixels_fault(*pixel_values, grid_thw)),
            r matches Ok(patches) ==> patches == patch_count(grid_thw),
    {
        let vision = &self.config.vision;
        let frames: usize = match vision.in_channels.checked_mul(vision.temporal_patch_size) {
            Some(product) => product,
            None => return Err(Error::VisionPatchWidth),
        };
        let column: usize = match frames.checked_mul(vision.patch_size) {
            Some(product) => product,
            None => return Err(Error::VisionPatchWidth),
        };
        let width: usize = match column.checked_mul(vision.patch_size) {
            Some(product) => product,
            None => return Err(Error::VisionPatchWidth),
        };
        let temporal: usize = grid_thw[0] as usize;
        let height: usize = grid_thw[1] as usize;
        let plane: usize = match temporal.checked_mul(height) {
            Some(product) => product,
            None => return Err(Error::VisionPatchCount),
        };
        let patches: usize = match plane.checked_mul(grid_thw[2] as usize) {
            Some(product) => product,
            None => return Err(Error::VisionPatchCount),
        };
        let expected: [usize; 2] = [patches, width];
        proof {
            assert(expected@ =~= seq![patches, width]);
        }
        if pixel_values.device() != Device::Cpu || pixel_values.dtype() != DType::BF16
            || !pixel_values.has_shape(expected.as_slice()) {
            return Err(
                Error::VisionPixels {
                    patch_count: patches,
                    patch_width: width,
                    dtype: pixel_values.dtype().as_str(),
                    got: copy_dims(pixel_values.shape().as_slice()),
                    device: pixel_values.device().label(),
                },
            );
        }
        Ok(patches)
    }

    /// Why what the tower gave cannot be handed on.
    pub open spec fn output_fault(
        self,
        grid_thw: [u32; 3],
        output: Result<VisionOutput, String>,
    ) -> Fault {
        match output {
            Err(cause) => Some(reported_text(cause@)),
            Ok(output) => if output.deepstack > 0 {
                Some(Error::VisionUnexpectedDeepstack.text())
            } else if output.primary.element_type() != DType::BF16 || output.primary.dims() != seq![
                merged_rows(self.config, grid_thw) as usize,
                self.config.vision.out_hidden_size,
            ] {
                Some(
                    vision_primary_text(
                        merged_rows(self.config, grid_thw),
                        self.config.vision.out_hidden_size as int,
                        output.primary.element_type().name(),
                        output.primary.dims(),
                    ),
                )
            } else {
                None
            },
        }
    }

    /// Hands on the main rows that the tower gave for the pixels of one image. The
    /// merge size must be usable once there are main rows to count.
    pub fn encode_cpu(
        &self,
        pixel_values: &Tensor,
        grid_thw: [u32; 3],
        output: Result<VisionOutput, String>,
    ) -> (r: Result<Tensor, Error>)
        requires
            self.pixels_fault(*pixel_values, grid_thw) is None && output is Ok
                && output->Ok_0.deepstack == 0 ==> 0 < self.config.vision.spatial_merge_size
                * self.config.vision.spatial_merge_size <= usize::MAX,
        ensures
            answers(
                r,
                either(
                    self.pixels_fault(*pixel_values, grid_thw),
                    self.output_fault(grid_thw, output),
                ),
            ),
            r matches Ok(primary) ==> primary == output->Ok_0.primary,
    {
        let patches: usize = match self.check_pixels(pixel_values, grid_thw) {
            Ok(patches) => patches,
            Err(e) => return Err(e),
        };
        let output = match output {
            Ok(output) => output,
            Err(cause) => return Err(Error::Reported { cause }),
        };
        if output.deepstack > 0 {
            return Err(Error::VisionUnexpectedDeepstack);
        }
        let merge: usize = self.config.vision.spatial_merge_size;
        let expected_rows: usize = patches / (merge * merge);
        let out_hidden_size: usize = self.config.vision.out_hidden_size;
        let expected: [usize; 2] = [expected_rows, out_hidden_size];
        proof {
            assert(expected@ =~= seq![expected_rows, out_hidden_size]);
        }
        let primary = output.primary;
        if primary.dtype() != DType::BF16 || !primary.has_shape(expected.as_slice()) {
            return Err(
                Error::VisionPrimary {
                    expected_rows,
                    out_hidden_size,
                    dtype: primary.dtype().as_str(),
                    got: copy_dims(primary.shape().as_slice()),
                },
            );
        }
        Ok(primary)
    }
}

} // verus!
