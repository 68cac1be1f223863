//! Placeholder engine for proxy mode, where the owner process embeds.

use crate::application::services::EmbeddingEngine;
use crate::domain::errors::{error_of, DomainError, ErrorKind, ErrorView};
use vstd::prelude::*;

verus! {

/// An engine that embeds nothing: every call of `embed` is an error, since
/// in proxy mode the owner of the store does the embedding.
#[derive(Debug)]
pub struct NoOpEmbeddingEngine {
    model_name: String,
    dimensions: usize,
}

impl NoOpEmbeddingEngine {
    pub closed spec fn model_name(&self) -> Seq<char> {
        self.model_name@
    }

    pub closed spec fn dimensions(&self) -> usize {
        self.dimensions
    }

    /// A placeholder that declares the given model and dimensions.
    pub fn new(model_name: &str, dimensions: usize) -> (out: Self)
        ensures
            out.model_name() == model_name@,
            out.dimensions() == dimensions,
    {
        NoOpEmbeddingEngine { model_name: model_name.to_owned(), dimensions }
    }

    /// The placeholder with the parameters that proxy mode uses.
    pub fn for_remote_mode() -> (out: Self)
        ensures
            out.model_name() == "remote-proxy"@,
            out.dimensions() == 384,
    {
        NoOpEmbeddingEngine::new("remote-proxy", 384)
    }
}

impl Default for NoOpEmbeddingEngine {
    fn default() -> (out: Self)
        ensures
            out.model_name() == "remote-proxy"@,
            out.dimensions() == 384,
    {
        NoOpEmbeddingEngine::for_remote_mode()
    }
}

impl EmbeddingEngine for NoOpEmbeddingEngine {
    open spec fn embed_outcome(
        &self,
        model: Seq<char>,
        text: Seq<char>,
        outcome: Result<Seq<u32>, ErrorView>,
    ) -> bool {
        outcome == Err::<Seq<u32>, ErrorView>(
            error_of(
                ErrorKind::Embedding,
                "embedding operation called on no-op engine; this should be handled by remote service"@,
            ),
        )
    }

    open spec fn dims_outcome(&self, model: Seq<char>, outcome: Option<usize>) -> bool {
        outcome == Some(self.dimensions())
    }

    fn embed(&self, _model: &str, _text: &str) -> (r: Result<Vec<u32>, DomainError>) {
        Err(
            DomainError::embedding(
                "embedding operation called on no-op engine; this should be handled by remote service",
            ),
        )
    }

    fn dims(&self, _model: &str) -> (r: Option<usize>) {
        Some(self.dimensions)
    }
}

} // verus!
