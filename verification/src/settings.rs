//! The persisted configuration: which embedding backend is active.

use crate::text::same_text;
use vstd::prelude::*;
use vstd::std_specs::cmp::PartialEqSpecImpl;

verus! {

/// Name of the file that keeps the configuration within the data directory.
pub const CONFIG_FILENAME: &'static str = "config.json";

/// The embedding backends that can be selected.
#[derive(Debug)]
pub enum EmbeddingBackend {
    /// Lightweight deterministic hash embedder; needs no model files.
    Simple { model: String, dimensions: usize },
    /// Semantic embeddings from a neural model, where an engine for it is
    /// plugged in.
    FastEmbed { model: String },
}

/// Mathematical model of an [`EmbeddingBackend`].
pub enum BackendView {
    Simple { model: Seq<char>, dimensions: usize },
    FastEmbed { model: Seq<char> },
}

impl View for EmbeddingBackend {
    type V = BackendView;

    open spec fn view(&self) -> BackendView {
        match self {
            EmbeddingBackend::Simple { model, dimensions } => BackendView::Simple {
                model: model@,
                dimensions: *dimensions,
            },
            EmbeddingBackend::FastEmbed { model } => BackendView::FastEmbed { model: model@ },
        }
    }
}

impl DeepView for EmbeddingBackend {
    type V = BackendView;

    open spec fn deep_view(&self) -> BackendView {
        self@
    }
}

impl Clone for EmbeddingBackend {
    fn clone(&self) -> (out: Self)
        ensures
            out@ == self@,
    {
        match self {
            EmbeddingBackend::Simple { model, dimensions } => EmbeddingBackend::Simple {
                model: model.clone(),
                dimensions: *dimensions,
            },
            EmbeddingBackend::FastEmbed { model } => EmbeddingBackend::FastEmbed {
                model: model.clone(),
            },
        }
    }
}

impl PartialEq for EmbeddingBackend {
    fn eq(&self, other: &Self) -> (r: bool) {
        match (self, other) {
            (
                EmbeddingBackend::Simple { model: a, dimensions: m },
                EmbeddingBackend::Simple { model: b, dimensions: n },
            ) => *m == *n && same_text(a.as_str(), b.as_str()),
            (EmbeddingBackend::FastEmbed { model: a }, EmbeddingBackend::FastEmbed { model: b }) => {
                same_text(a.as_str(), b.as_str())
            },
            _ => false,
        }
    }
}

impl PartialEqSpecImpl for EmbeddingBackend {
    open spec fn obeys_eq_spec() -> bool {
        true
    }

    open spec fn eq_spec(&self, other: &Self) -> bool {
        self@ == other@
    }
}

impl Eq for EmbeddingBackend {

}

/// Identifier of the hash backend.
pub open spec fn simple_id() -> Seq<char> {
    "simple"@
}

/// Identifier of the neural backend.
pub open spec fn fastembed_id() -> Seq<char> {
    "fastembed"@
}

/// The backend that an identifier selects, with its default model.
pub open spec fn backend_for(id: Seq<char>) -> Option<BackendView> {
    if id == simple_id() {
        Some(BackendView::Simple { model: "ingat/simple-hash"@, dimensions: 256 })
    } else if id == fastembed_id() {
        Some(BackendView::FastEmbed { model: "BAAI/bge-small-en-v1.5"@ })
    } else {
        None
    }
}

/// The identifier of a backend.
pub open spec fn id_of(b: BackendView) -> Seq<char> {
    match b {
        BackendView::Simple { .. } => simple_id(),
        BackendView::FastEmbed { .. } => fastembed_id(),
    }
}

/// The model of a backend.
pub open spec fn model_of(b: BackendView) -> Seq<char> {
    match b {
        BackendView::Simple { model, .. } => model,
        BackendView::FastEmbed { model } => model,
    }
}

/// The dimensions that a backend fixes by configuration, if it does.
pub open spec fn dimensions_of(b: BackendView) -> Option<usize> {
    match b {
        BackendView::Simple { dimensions, .. } => Some(dimensions),
        BackendView::FastEmbed { .. } => None,
    }
}

impl EmbeddingBackend {
    /// The identifier by which the backend is selected.
    pub fn id(&self) -> (out: &'static str)
        ensures
            out@ == id_of(self@),
    {
        match self {
            EmbeddingBackend::Simple { .. } => "simple",
            EmbeddingBackend::FastEmbed { .. } => "fastembed",
        }
    }

    /// The name under which the backend is shown.
    pub fn label(&self) -> (out: &'static str)
        ensures
            out@ == match self@ {
                BackendView::Simple { .. } => "Deterministic Hash (offline)"@,
                BackendView::FastEmbed { .. } => "FastEmbed (semantic)"@,
            },
    {
        match self {
            EmbeddingBackend::Simple { .. } => "Deterministic Hash (offline)",
            EmbeddingBackend::FastEmbed { .. } => "FastEmbed (semantic)",
        }
    }

    /// What the backend is good for, in a sentence.
    pub fn description(&self) -> (out: &'static str)
        ensures
            out@ == match self@ {
                BackendView::Simple {
                    ..
                } => "Small, deterministic vectors suitable for quick local testing."@,
                BackendView::FastEmbed {
                    ..
                } => "High-quality semantic embeddings via fastembed/ONNX runtime."@,
            },
    {
        match self {
            EmbeddingBackend::Simple { .. } => {
                "Small, deterministic vectors suitable for quick local testing."
            },
            EmbeddingBackend::FastEmbed { .. } => {
                "High-quality semantic embeddings via fastembed/ONNX runtime."
            },
        }
    }

    /// Tells whether the backend needs an engine that is not always
    /// present.
    pub fn is_feature_gated(&self) -> (out: bool)
        ensures
            out == (self@ is FastEmbed),
    {
        match self {
            EmbeddingBackend::Simple { .. } => false,
            EmbeddingBackend::FastEmbed { .. } => true,
        }
    }

    /// The model that the backend runs.
    pub fn model_name(&self) -> (out: &str)
        ensures
            out@ == model_of(self@),
    {
        match self {
            EmbeddingBackend::Simple { model, .. } => model.as_str(),
            EmbeddingBackend::FastEmbed { model } => model.as_str(),
        }
    }

    /// The dimensions that the backend fixes by configuration, if it does.
    pub fn expected_dimensions(&self) -> (out: Option<usize>)
        ensures
            out == dimensions_of(self@),
    {
        match self {
            EmbeddingBackend::Simple { dimensions, .. } => Some(*dimensions),
            EmbeddingBackend::FastEmbed { .. } => None,
        }
    }

    /// The backend of the given identifier with its default model, if the
    /// identifier names one.
    pub fn with_default_model(id: &str) -> (out: Option<Self>)
        ensures
            match out {
                Some(b) => backend_for(id@) == Some(b@),
                None => backend_for(id@) is None,
            },
    {
        if same_text(id, "simple") {
            Some(
                EmbeddingBackend::Simple {
                    model: default_simple_model(),
                    dimensions: default_simple_dim(),
                },
            )
        } else if same_text(id, "fastembed") {
            Some(EmbeddingBackend::FastEmbed { model: default_fastembed_model() })
        } else {
            None
        }
    }
}

impl Default for EmbeddingBackend {
    fn default() -> (out: Self)
        ensures
            out@ == (BackendView::Simple { model: "ingat/simple-hash"@, dimensions: 256 }),
    {
        EmbeddingBackend::Simple { model: default_simple_model(), dimensions: default_simple_dim() }
    }
}

/// Complete persisted configuration.
#[derive(Debug)]
pub struct AppConfig {
    pub embedding: EmbeddingBackend,
}

impl Default for AppConfig {
    fn default() -> (out: Self)
        ensures
            out.embedding@ == (BackendView::Simple { model: "ingat/simple-hash"@, dimensions: 256 }),
    {
        AppConfig { embedding: EmbeddingBackend::default() }
    }
}

impl Clone for AppConfig {
    fn clone(&self) -> (out: Self)
        ensures
            out.embedding@ == self.embedding@,
    {
        AppConfig { embedding: self.embedding.clone() }
    }
}

/// Keeper of the configuration in force.
#[derive(Debug)]
pub struct ConfigManager {
    state: AppConfig,
}

impl ConfigManager {
    /// The backend in force.
    pub closed spec fn embedding(&self) -> BackendView {
        self.state.embedding@
    }

    /// A manager for what was found saved; the default configuration
    /// stands in where nothing was saved, or nothing that could be read.
    pub fn load(saved: Option<AppConfig>) -> (out: Self)
        ensures
            out.embedding() == match saved {
                Some(c) => c.embedding@,
                None => BackendView::Simple { model: "ingat/simple-hash"@, dimensions: 256 },
            },
    {
        match saved {
            Some(config) => ConfigManager { state: config },
            None => ConfigManager { state: AppConfig::default() },
        }
    }

    /// Snapshot of the configuration in force.
    pub fn current(&self) -> (out: AppConfig)
        ensures
            out.embedding@ == self.embedding(),
    {
        self.state.clone()
    }

    /// Makes `backend` the active embedding backend and returns the
    /// configuration that is then in force, for the caller to save.
    pub fn set_backend(&mut self, backend: EmbeddingBackend) -> (out: AppConfig)
        ensures
            final(self).embedding() == backend@,
            out.embedding@ == backend@,
    {
        self.state.embedding = backend;
        self.state.clone()
    }
}

/// The backends on offer: the neural one first, then the hash embedder,
/// each with its default model.
pub fn available_backends() -> (out: Vec<EmbeddingBackend>)
    ensures
        out.deep_view() == seq![
            BackendView::FastEmbed { model: "BAAI/bge-small-en-v1.5"@ },
            BackendView::Simple { model: "ingat/simple-hash"@, dimensions: 256 },
        ],
{
    let mut out: Vec<EmbeddingBackend> = Vec::new();
    out.push(EmbeddingBackend::FastEmbed { model: default_fastembed_model() });
    out.push(
        EmbeddingBackend::Simple { model: default_simple_model(), dimensions: default_simple_dim() },
    );
    assert(out.deep_view() =~= seq![
        BackendView::FastEmbed { model: "BAAI/bge-small-en-v1.5"@ },
        BackendView::Simple { model: "ingat/simple-hash"@, dimensions: 256 },
    ]);
    out
}

/// Dimensions of the hash backend when none are configured.
pub fn default_simple_dim() -> (out: usize)
    ensures
        out == 256,
{
    256
}

/// Model of the hash backend when none is configured.
pub fn default_simple_model() -> (out: String)
    ensures
        out@ == "ingat/simple-hash"@,
{
    "ingat/simple-hash".to_owned()
}

/// Model of the neural backend when none is configured.
pub fn default_fastembed_model() -> (out: String)
    ensures
        out@ == "BAAI/bge-small-en-v1.5"@,
{
    "BAAI/bge-small-en-v1.5".to_owned()
}

} // verus!
