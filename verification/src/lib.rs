pub mod data_laws;
pub mod error;
pub mod float_bits;
pub mod float_laws;
pub mod json;
pub mod names;
pub mod qwen35;
pub mod qwen3vl;
pub mod tensor;
pub mod text;
pub mod text_laws;
pub mod widening_laws;
