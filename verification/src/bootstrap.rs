//! Decisions taken when a process comes up and when the operator changes
//! the embedding backend.

use crate::application::dtos::{
    BackendOptionView, EmbeddingBackendListResponse, EmbeddingBackendOption,
};
use crate::application::services::ServiceConfig;
use crate::domain::errors::{error_of, rendered, DomainError, ErrorKind, ErrorView};
use crate::infrastructure::embeddings::fastembed_engine::{
    resolve_model, resolved_model, EmbeddingModel,
};
use crate::infrastructure::embeddings::noop_engine::NoOpEmbeddingEngine;
use crate::infrastructure::embeddings::simple_engine::{
    SimpleEmbedEngine, MAX_DIMENSIONS, MIN_DIMENSIONS,
};
use crate::settings::{
    available_backends, dimensions_of, id_of, model_of, BackendView, EmbeddingBackend,
};
use crate::text::{blank, opt_text, parse_number, parsed_number, same_text, trim, trimmed};
use vstd::prelude::*;

verus! {

/// The role of a process, fixed when it comes up.
#[derive(Debug, Clone, Copy, PartialEq, Eq, Structural)]
pub enum Mode {
    /// The process forwards every storage call to the owner.
    Proxy,
    /// The process opens the storage engine itself.
    Owner,
}

/// Selects the role of a process from the answer of the health probe: a
/// process is a proxy if and only if an owner is reachable.
pub fn select_mode(owner_reachable: bool) -> (mode: Mode)
    ensures
        mode == if owner_reachable {
            Mode::Proxy
        } else {
            Mode::Owner
        },
{
    if owner_reachable {
        Mode::Proxy
    } else {
        Mode::Owner
    }
}

/// What a front end does about the owner when it comes up.
#[derive(Debug, Clone, Copy, PartialEq, Eq, Structural)]
pub enum StartupPlan {
    /// An owner is reachable: use it.
    UseRunningOwner,
    /// No owner is reachable: have the supervisor start one, and go on in
    /// owner mode if it cannot.
    StartOwner,
}

/// Time that a freshly started owner is given before the environment is
/// built, in milliseconds.
pub const STARTUP_SETTLE_MILLIS: u64 = 500;

/// Plans the startup of a front end from the answer of the health probe.
pub fn plan_startup(owner_reachable: bool) -> (plan: StartupPlan)
    ensures
        plan == if owner_reachable {
            StartupPlan::UseRunningOwner
        } else {
            StartupPlan::StartOwner
        },
{
    if owner_reachable {
        StartupPlan::UseRunningOwner
    } else {
        StartupPlan::StartOwner
    }
}

/// The backend that a request to switch selects: the backend of the given
/// identifier with its default model, under the model override if there is
/// one; an unknown identifier is a validation error.
pub open spec fn selected_backend(id: Seq<char>, model_override: Option<Seq<char>>) -> Result<
    BackendView,
    ErrorView,
> {
    match crate::settings::backend_for(id) {
        Some(b) => Ok(overridden(b, model_override)),
        None => Err(error_of(ErrorKind::Validation, "unknown backend '"@ + id + "'"@)),
    }
}

/// Selects the backend that a request to switch asks for.
pub fn select_backend(backend_id: &str, model_override: Option<String>) -> (r: Result<
    EmbeddingBackend,
    DomainError,
>)
    ensures
        match selected_backend(backend_id@, opt_text(model_override)) {
            Ok(b) => r is Ok && r->Ok_0@ == b,
            Err(e) => r is Err && r->Err_0@ == e,
        },
{
    match EmbeddingBackend::with_default_model(backend_id) {
        Some(base) => Ok(apply_model_override(base, model_override)),
        None => {
            let words = crate::text::join3("unknown backend '", backend_id, "'");
            Err(DomainError::validation(words.as_str()))
        },
    }
}

/// The status code under which an error of the given class travels over
/// HTTP: the caller's mistakes as client errors, everything else as a
/// server error.
pub fn http_status(kind: ErrorKind) -> (status: u16)
    ensures
        status == match kind {
            ErrorKind::Validation | ErrorKind::LimitExceeded => 400u16,
            ErrorKind::NotFound => 404u16,
            _ => 500u16,
        },
{
    match kind {
        ErrorKind::Validation => 400,
        ErrorKind::LimitExceeded => 400,
        ErrorKind::NotFound => 404,
        ErrorKind::Storage => 500,
        ErrorKind::Embedding => 500,
        ErrorKind::Other => 500,
    }
}

/// The operations of the REST surface that can fail.
#[derive(Debug, Clone, Copy, PartialEq, Eq, Structural)]
pub enum RestCall {
    /// Saving a context.
    Save,
    /// Listing contexts.
    List,
    /// Searching contexts.
    Search,
}

/// The code under which the failure of an operation is reported.
pub fn failure_code(call: RestCall) -> (code: &'static str)
    ensures
        code@ == match call {
            RestCall::Save => "SAVE_FAILED"@,
            RestCall::List => "LIST_FAILED"@,
            RestCall::Search => "SEARCH_FAILED"@,
        },
{
    match call {
        RestCall::Save => "SAVE_FAILED",
        RestCall::List => "LIST_FAILED",
        RestCall::Search => "SEARCH_FAILED",
    }
}

/// Most contexts that the statistics count.
pub const STATS_LIMIT: usize = 10_000;

/// Renders a domain error for a front end.
pub fn map_domain_error(err: DomainError) -> (text: String)
    ensures
        text@ == rendered(err@),
{
    err.to_string()
}

/// Reads the limit of a listing from its query parameter: the number that
/// the parameter writes, if there is a parameter and it writes one.
pub fn parse_limit(raw: Option<&str>) -> (limit: Option<usize>)
    ensures
        limit == match raw {
            Some(text) => match parsed_number(text@, usize::MAX as nat) {
                Some(n) => Some(n as usize),
                None => None,
            },
            None => None,
        },
{
    match raw {
        Some(text) => match parse_number(text, usize::MAX as u64) {
            Some(n) => Some(n as usize),
            None => None,
        },
        None => None,
    }
}

/// The engine that a backend calls for.
#[derive(Debug)]
pub enum EngineSetup {
    /// The hash embedder, ready to use.
    Simple(SimpleEmbedEngine),
    /// A neural engine for the model, under the trimmed label.
    FastEmbed { label: String, model: EmbeddingModel },
}

/// The model with the override applied: an override that is not blank
/// replaces the model, trimmed.
pub open spec fn overridden(backend: BackendView, model_override: Option<Seq<char>>)
    -> BackendView {
    match model_override {
        Some(m) => if blank(m) {
            backend
        } else {
            match backend {
                BackendView::Simple { model, dimensions } => BackendView::Simple {
                    model: trimmed(m),
                    dimensions,
                },
                BackendView::FastEmbed { model } => BackendView::FastEmbed { model: trimmed(m) },
            }
        },
        None => backend,
    }
}

/// Applies the operator's model override to a backend.
pub fn apply_model_override(backend: EmbeddingBackend, model_override: Option<String>) -> (out:
    EmbeddingBackend)
    ensures
        out@ == overridden(backend@, opt_text(model_override)),
{
    match model_override {
        Some(m) => {
            let model = trim(m.as_str());
            if model.as_str().is_empty() {
                backend
            } else {
                match backend {
                    EmbeddingBackend::Simple { model: _, dimensions } => EmbeddingBackend::Simple {
                        model,
                        dimensions,
                    },
                    EmbeddingBackend::FastEmbed { model: _ } => EmbeddingBackend::FastEmbed {
                        model,
                    },
                }
            }
        },
        None => backend,
    }
}

/// What setting the engine of a backend up gives: for the hash embedder
/// the engine with its dimensions held within the limits, or the refusal
/// of zero dimensions; for a neural backend the resolved label and model,
/// or the refusal of a blank or unknown model name. The service is
/// configured for the backend's model with the standard default limit.
pub open spec fn engine_set_up(
    backend: BackendView,
    r: Result<(EngineSetup, ServiceConfig), DomainError>,
) -> bool {
    match backend {
        BackendView::Simple { model, dimensions } => if dimensions == 0 {
            r is Err && r->Err_0@ == error_of(
                ErrorKind::Validation,
                "embedding dimensions must be greater than zero"@,
            )
        } else {
            &&& r matches Ok(pair)
            &&& pair.0 matches EngineSetup::Simple(engine)
            &&& engine.model_name() == model
            &&& engine.dimensions() == if dimensions < MIN_DIMENSIONS {
                MIN_DIMENSIONS
            } else if dimensions > MAX_DIMENSIONS {
                MAX_DIMENSIONS
            } else {
                dimensions
            }
            &&& pair.1.embedding_model@ == model
            &&& pair.1.default_limit == 8
        },
        BackendView::FastEmbed { model } => match resolved_model(model) {
            Ok((label, id)) => {
                &&& r matches Ok(pair)
                &&& pair.0 matches EngineSetup::FastEmbed { label: l, model: m }
                &&& l@ == label
                &&& m == id
                &&& pair.1.embedding_model@ == model
                &&& pair.1.default_limit == 8
            },
            Err(e) => r is Err && r->Err_0@ == e,
        },
    }
}

/// Sets up the engine and the service configuration for a backend. The
/// hash embedder refuses zero dimensions; a neural backend refuses a blank
/// model name and one that the catalogue does not know.
pub fn init_embedder(backend: &EmbeddingBackend) -> (r: Result<
    (EngineSetup, ServiceConfig),
    DomainError,
>)
    ensures
        engine_set_up(backend@, r),
{
    match backend {
        EmbeddingBackend::Simple { model, dimensions } => {
            match SimpleEmbedEngine::try_new(model.as_str(), *dimensions) {
                Ok(engine) => Ok(
                    (EngineSetup::Simple(engine), ServiceConfig::new(model.as_str(), 8)),
                ),
                Err(e) => Err(e),
            }
        },
        EmbeddingBackend::FastEmbed { model } => {
            match resolve_model(model.as_str()) {
                Ok((label, id)) => Ok(
                    (
                        EngineSetup::FastEmbed { label, model: id },
                        ServiceConfig::new(model.as_str(), 8),
                    ),
                ),
                Err(e) => Err(e),
            }
        },
    }
}

/// The embedding capability that a process runs.
#[derive(Debug)]
pub enum EmbedderPlan {
    /// The engine of the configured backend: the process owns the store
    /// and embeds what it stores and searches.
    Engine(EngineSetup),
    /// The placeholder: the process is a proxy and embeds nothing, since
    /// embedding is done by the process that owns the store.
    Placeholder(NoOpEmbeddingEngine),
}

/// What planning the embedder of a process gives. A proxy runs the
/// placeholder, whatever the backend, and its service is configured for
/// the backend's model. An owner runs the engine of the backend, set up as
/// [`engine_set_up`] says, and fails to come up where that is refused.
pub open spec fn embedder_planned(
    mode: Mode,
    backend: BackendView,
    r: Result<(EmbedderPlan, ServiceConfig), DomainError>,
) -> bool {
    match mode {
        Mode::Proxy => {
            &&& r matches Ok(pair)
            &&& pair.0 matches EmbedderPlan::Placeholder(engine)
            &&& engine.model_name() == "remote-proxy"@
            &&& engine.dimensions() == 384
            &&& pair.1.embedding_model@ == model_of(backend)
            &&& pair.1.default_limit == 8
        },
        Mode::Owner => match r {
            Ok(pair) => pair.0 matches EmbedderPlan::Engine(setup) && engine_set_up(
                backend,
                Ok::<(EngineSetup, ServiceConfig), DomainError>((setup, pair.1)),
            ),
            Err(e) => engine_set_up(
                backend,
                Err::<(EngineSetup, ServiceConfig), DomainError>(e),
            ),
        },
    }
}

/// Plans the embedding capability of a process from its role: the
/// placeholder for a proxy, the backend's engine for an owner.
pub fn plan_embedder(mode: Mode, backend: &EmbeddingBackend) -> (r: Result<
    (EmbedderPlan, ServiceConfig),
    DomainError,
>)
    ensures
        embedder_planned(mode, backend@, r),
{
    match mode {
        Mode::Proxy => Ok(
            (
                EmbedderPlan::Placeholder(NoOpEmbeddingEngine::for_remote_mode()),
                ServiceConfig::new(backend.model_name(), 8),
            ),
        ),
        Mode::Owner => match init_embedder(backend) {
            Ok((setup, config)) => Ok((EmbedderPlan::Engine(setup), config)),
            Err(e) => Err(e),
        },
    }
}

/// The option under which a backend is offered.
pub open spec fn option_of(b: BackendView) -> BackendOptionView {
    BackendOptionView {
        id: id_of(b),
        label: match b {
            BackendView::Simple { .. } => "Deterministic Hash (offline)"@,
            BackendView::FastEmbed { .. } => "FastEmbed (semantic)"@,
        },
        description: match b {
            BackendView::Simple {
                ..
            } => "Small, deterministic vectors suitable for quick local testing."@,
            BackendView::FastEmbed {
                ..
            } => "High-quality semantic embeddings via fastembed/ONNX runtime."@,
        },
        model: model_of(b),
        dimensions: dimensions_of(b),
        feature_gated: b is FastEmbed,
    }
}

/// Index of the first option with the given identifier, from `from` on.
pub open spec fn first_with_id(options: Seq<BackendOptionView>, id: Seq<char>, from: int)
    -> Option<int>
    decreases options.len() - from,
{
    if from < 0 || from >= options.len() {
        None
    } else if options[from].id == id {
        Some(from)
    } else {
        first_with_id(options, id, from + 1)
    }
}

/// The options on offer when `active` is the active backend: those of the
/// available backends, where the first one with the active backend's
/// identifier shows the active model and the dimensions in use (those of
/// the running service, else those that the backend fixes).
pub open spec fn offered_options(active: BackendView, service_dimensions: Option<usize>) -> Seq<
    BackendOptionView,
> {
    let options = seq![
        option_of(BackendView::FastEmbed { model: "BAAI/bge-small-en-v1.5"@ }),
        option_of(BackendView::Simple { model: "ingat/simple-hash"@, dimensions: 256 }),
    ];
    match first_with_id(options, id_of(active), 0) {
        Some(i) => options.update(
            i,
            BackendOptionView {
                model: model_of(active),
                dimensions: if service_dimensions is Some {
                    service_dimensions
                } else {
                    dimensions_of(active)
                },
                ..options[i]
            },
        ),
        None => options,
    }
}

/// Lists the backends on offer and names the active one.
pub fn build_backend_response(active: EmbeddingBackend, service_dimensions: Option<usize>) -> (out:
    EmbeddingBackendListResponse)
    ensures
        out.active@ == id_of(active@),
        out.options.deep_view() == offered_options(active@, service_dimensions),
{
    let backends = available_backends();
    proof {
        let offered = backends.deep_view();
        assert(offered.len() == 2);
        assert(backends@.len() == offered.len());
        assert(offered[0] == backends@[0].deep_view());
        assert(offered[1] == backends@[1].deep_view());
    }
    let mut options: Vec<EmbeddingBackendOption> = Vec::new();
    let mut i: usize = 0;
    while i < backends.len()
        invariant
            i <= backends.len(),
            options@.len() == i,
            backends@.len() == 2,
            backends@[0]@ == (BackendView::FastEmbed { model: "BAAI/bge-small-en-v1.5"@ }),
            backends@[1]@ == (BackendView::Simple { model: "ingat/simple-hash"@, dimensions: 256 }),
            forall|k: int| 0 <= k < i ==> (#[trigger] options@[k])@ == option_of(backends@[k]@),
        decreases backends.len() - i,
    {
        let backend = &backends[i];
        options.push(
            EmbeddingBackendOption {
                id: backend.id().to_owned(),
                label: backend.label().to_owned(),
                description: backend.description().to_owned(),
                model: backend.model_name().to_owned(),
                dimensions: backend.expected_dimensions(),
                feature_gated: backend.is_feature_gated(),
            },
        );
        i += 1;
    }
    let ghost plain = options.deep_view();
    proof {
        assert(plain[0] == options@[0]@);
        assert(plain[1] == options@[1]@);
        assert(plain =~= seq![
            option_of(BackendView::FastEmbed { model: "BAAI/bge-small-en-v1.5"@ }),
            option_of(BackendView::Simple { model: "ingat/simple-hash"@, dimensions: 256 }),
        ]);
    }
    let mut p: usize = 0;
    while p < options.len() && !same_text(options[p].id.as_str(), active.id())
        invariant
            p <= options@.len(),
            plain == options.deep_view(),
            first_with_id(plain, id_of(active@), 0) == first_with_id(
                plain,
                id_of(active@),
                p as int,
            ),
        decreases options@.len() - p,
    {
        assert(plain[p as int] == options@[p as int]@);
        p += 1;
    }
    if p < options.len() {
        assert(plain[p as int] == options@[p as int]@);
        let mut option = options.remove(p);
        option.model = active.model_name().to_owned();
        option.dimensions = match service_dimensions {
            Some(d) => Some(d),
            None => active.expected_dimensions(),
        };
        options.insert(p, option);
        assert(options.deep_view() =~= offered_options(active@, service_dimensions));
    }
    EmbeddingBackendListResponse { active: active.id().to_owned(), options }
}

} // verus!
