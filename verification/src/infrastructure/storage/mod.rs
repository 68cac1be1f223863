//! The embedded engine: its retrieval logic and the store built on it.

pub mod engine;
pub mod sled_store;

pub use engine::{distinct_projects, recent_summaries, search_records};
pub use sled_store::SledVectorStore;
