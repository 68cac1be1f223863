//! Infrastructure layer: the logic of the concrete adapters.

pub mod embeddings;
pub mod http_client;
pub mod storage;

pub use embeddings::{NoOpEmbeddingEngine, SimpleEmbedEngine};
