//! Application layer: the payloads of the front ends and the orchestrator.

pub mod dtos;
pub mod services;

pub use dtos::{
    EmbeddingBackendListResponse, EmbeddingBackendOption, HealthStatusResponse,
    IngestContextRequest, SearchRequest, SearchResponse, SearchResultDto, SummaryListResponse,
    UpdateEmbeddingBackendRequest,
};
pub use services::{ContextService, EmbeddingEngine, ServiceConfig, VectorStore};
