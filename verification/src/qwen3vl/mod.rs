pub mod config;
pub mod laws;
pub mod layout;
pub mod vision_weights;
pub mod weights;
