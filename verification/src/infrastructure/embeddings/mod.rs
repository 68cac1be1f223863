//! Embedding engines.


pub mod fastembed_engine;
pub mod noop_engine;
pub mod simple_engine;

pub use noop_engine::NoOpEmbeddingEngine;
pub use simple_engine::SimpleEmbedEngine;
