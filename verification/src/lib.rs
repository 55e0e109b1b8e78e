//! Configuration, model layout and generation control for a TinyLlama chat model.
//!
//! The tensors themselves are computed by a deep-learning backend; this crate holds the
//! decisions around them: which dimensions every part of the model is built with, which
//! checkpoint loader a path goes to, which tokens are fed to the model at each step of a
//! generation, when the generation stops, and what text is handed to the chat model.
pub mod chat;
pub mod generation;
pub mod llama;

pub use generation::{Generation, GenerationView, StepOutcome};
pub use llama::{
    CacheShape, CheckpointFormat, RopeShape, TinyLlamaConfig, TinyLlamaLayout,
    TinyLlamaModuleConfig, TinyLlamaModuleLayout, TransformerShape,
};
