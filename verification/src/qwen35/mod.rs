//! The Qwen3.5 hybrid text model.

pub mod answer_laws;
pub mod boundary_lane;
pub mod build_laws;
pub mod choice_laws;
pub mod config;
pub mod flow;
pub mod forward;
pub mod forward_laws;
pub mod head;
pub mod lane;
pub mod lane_laws;
pub mod laws;
pub mod layer_laws;
pub mod layers;
pub mod ledger;
pub mod ledger_laws;
pub mod linear_lane;
pub mod loader;
pub mod metal;
pub mod mlp_lane;
pub mod model;
pub mod mrope_laws;
pub mod multimodal;
pub mod one_shot;
pub mod packing;
pub mod packing_laws;
pub mod post_body;
pub mod post_laws;
pub mod profile;
pub mod receipt;
pub mod receipt_laws;
pub mod reset;
pub mod role_laws;
pub mod rope;
pub mod runtime;
pub mod schema_laws;
pub mod stack_lane;
pub mod stacks_lane;
pub mod state;
pub mod stats;
pub mod stats_laws;
pub mod step_laws;
pub mod steps;
pub mod tail_lane;
pub mod vision;
pub mod vision_laws;
pub mod w8_pack;
pub mod weights;
