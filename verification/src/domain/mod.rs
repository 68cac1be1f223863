//! Domain layer: the value types of the memory broker and their rules.

pub mod errors;
pub mod models;

pub use errors::{DomainError, ErrorKind, ErrorView};
pub use models::{
    ContextEmbedding, ContextKind, ContextRecord, ContextSummary, QueryFilters, RetrievalQuery,
    Timestamp,
};
