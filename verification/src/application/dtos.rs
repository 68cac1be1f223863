//! Payloads exchanged with the front ends.

use crate::domain::models::{
    ContextKind, ContextSummary, KindView, QueryFilters, RetrievalQuery, SummaryView,
    Timestamp,
};
use crate::text::{opt_text, texts};
use vstd::prelude::*;
use vstd::std_specs::convert::FromSpecImpl;

verus! {

/// Payload accepted when a new context item is persisted.
#[derive(Debug)]
pub struct IngestContextRequest {
    pub project: String,
    pub ide: String,
    pub file_path: Option<String>,
    pub language: Option<String>,
    pub summary: String,
    pub body: String,
    pub tags: Vec<String>,
    pub kind: ContextKind,
}

/// Mathematical model of an [`IngestContextRequest`].
pub struct IngestView {
    pub project: Seq<char>,
    pub ide: Seq<char>,
    pub file_path: Option<Seq<char>>,
    pub language: Option<Seq<char>>,
    pub summary: Seq<char>,
    pub body: Seq<char>,
    pub tags: Seq<Seq<char>>,
    pub kind: KindView,
}

impl View for IngestContextRequest {
    type V = IngestView;

    open spec fn view(&self) -> IngestView {
        IngestView {
            project: self.project@,
            ide: self.ide@,
            file_path: opt_text(self.file_path),
            language: opt_text(self.language),
            summary: self.summary@,
            body: self.body@,
            tags: texts(self.tags@),
            kind: self.kind@,
        }
    }
}

/// A search as the front ends submit it.
#[derive(Debug)]
pub struct SearchRequest {
    pub prompt: String,
    pub filters: QueryFilters,
    pub limit: usize,
}

impl From<SearchRequest> for RetrievalQuery {
    fn from(value: SearchRequest) -> (out: Self) {
        RetrievalQuery { prompt: value.prompt, filters: value.filters, limit: value.limit }
    }
}

impl FromSpecImpl<SearchRequest> for RetrievalQuery {
    open spec fn obeys_from_spec() -> bool {
        true
    }

    open spec fn from_spec(value: SearchRequest) -> Self {
        RetrievalQuery { prompt: value.prompt, filters: value.filters, limit: value.limit }
    }
}

/// Result row of a semantic retrieval. The score is the bit pattern of an
/// IEEE 754 single-precision number.
#[derive(Debug)]
pub struct SearchResultDto {
    pub id: u128,
    pub project: String,
    pub summary: String,
    pub body: String,
    pub tags: Vec<String>,
    pub kind: ContextKind,
    pub score: u32,
    pub created_at: Timestamp,
}

/// Mathematical model of a [`SearchResultDto`].
pub struct ResultView {
    pub id: u128,
    pub project: Seq<char>,
    pub summary: Seq<char>,
    pub body: Seq<char>,
    pub tags: Seq<Seq<char>>,
    pub kind: KindView,
    pub score: u32,
    pub created_at: Timestamp,
}

impl View for SearchResultDto {
    type V = ResultView;

    open spec fn view(&self) -> ResultView {
        ResultView {
            id: self.id,
            project: self.project@,
            summary: self.summary@,
            body: self.body@,
            tags: texts(self.tags@),
            kind: self.kind@,
            score: self.score,
            created_at: self.created_at,
        }
    }
}

impl DeepView for SearchResultDto {
    type V = ResultView;

    open spec fn deep_view(&self) -> ResultView {
        self@
    }
}

/// Response envelope of a search.
#[derive(Debug)]
pub struct SearchResponse {
    pub query: String,
    pub results: Vec<SearchResultDto>,
}

/// Mathematical model of a [`SearchResponse`].
pub struct ResponseView {
    pub query: Seq<char>,
    pub results: Seq<ResultView>,
}

impl View for SearchResponse {
    type V = ResponseView;

    open spec fn view(&self) -> ResponseView {
        ResponseView { query: self.query@, results: self.results.deep_view() }
    }
}

/// Envelope of a history listing.
#[derive(Debug)]
pub struct SummaryListResponse {
    pub items: Vec<ContextSummary>,
}

impl View for SummaryListResponse {
    type V = Seq<SummaryView>;

    open spec fn view(&self) -> Seq<SummaryView> {
        self.items.deep_view()
    }
}

/// Health report for diagnostics.
#[derive(Debug)]
pub struct HealthStatusResponse {
    pub ok: bool,
    pub message: String,
    pub details: Option<String>,
}

/// One selectable embedding backend, as shown to the operator.
#[derive(Debug)]
pub struct EmbeddingBackendOption {
    pub id: String,
    pub label: String,
    pub description: String,
    pub model: String,
    pub dimensions: Option<usize>,
    pub feature_gated: bool,
}

/// Mathematical model of an [`EmbeddingBackendOption`].
pub struct BackendOptionView {
    pub id: Seq<char>,
    pub label: Seq<char>,
    pub description: Seq<char>,
    pub model: Seq<char>,
    pub dimensions: Option<usize>,
    pub feature_gated: bool,
}

impl View for EmbeddingBackendOption {
    type V = BackendOptionView;

    open spec fn view(&self) -> BackendOptionView {
        BackendOptionView {
            id: self.id@,
            label: self.label@,
            description: self.description@,
            model: self.model@,
            dimensions: self.dimensions,
            feature_gated: self.feature_gated,
        }
    }
}

impl DeepView for EmbeddingBackendOption {
    type V = BackendOptionView;

    open spec fn deep_view(&self) -> BackendOptionView {
        self@
    }
}

/// The selectable backends and the identifier of the active one.
#[derive(Debug)]
pub struct EmbeddingBackendListResponse {
    pub active: String,
    pub options: Vec<EmbeddingBackendOption>,
}

/// Request to switch the embedding backend, optionally to another model.
#[derive(Debug)]
pub struct UpdateEmbeddingBackendRequest {
    pub backend_id: String,
    pub model_override: Option<String>,
}

/// Number of results a search returns when the caller names none.
pub fn default_limit() -> (limit: usize)
    ensures
        limit == 8,
{
    8
}

} // verus!
