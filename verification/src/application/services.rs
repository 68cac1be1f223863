//! The retrieval orchestrator and the two capabilities it composes.
//!
//! The orchestrator validates input, obtains embeddings from an
//! [`EmbeddingEngine`] and delegates persistence and retrieval to a
//! [`VectorStore`]. What the two capabilities may answer is described by
//! relations (`*_outcome`), so that the orchestrator's contracts say exactly
//! how its result follows from theirs.

use crate::application::dtos::{
    HealthStatusResponse, IngestContextRequest, IngestView, ResponseView, ResultView,
    SearchRequest, SearchResponse, SearchResultDto, SummaryListResponse,
};
use crate::domain::errors::{error_of, rendered, DomainError, ErrorKind, ErrorView};
use crate::domain::models::{
    current_time, record_matches, record_of, score_key, summary_of, tags_in_normal_form,
    ContextEmbedding, ContextKind, ContextRecord, ContextSummary, EmbeddingView, FiltersView,
    KindView, QueryFilters, RecordView, RetrievalQuery, SummaryView, Timestamp, MAX_TAGS,
};
use crate::text::{blank, is_blank, join, join3, opt_text, texts, trim, trimmed};
use vstd::prelude::*;

verus! {

/// Longest body that is accepted, in characters.
pub const MAX_BODY_CHARS: usize = 16_000;

/// Longest summary that is accepted, in characters.
pub const MAX_SUMMARY_CHARS: usize = 640;

/// Most results that one search returns.
pub const MAX_SEARCH_LIMIT: usize = 32;

/// Most entries that one history listing returns.
pub const MAX_HISTORY_LIMIT: usize = 50;

/// Configuration shared by the orchestrator and its adapters.
#[derive(Debug)]
pub struct ServiceConfig {
    pub embedding_model: String,
    pub default_limit: usize,
}

impl Default for ServiceConfig {
    fn default() -> (out: Self)
        ensures
            out.embedding_model@ == "ingat/simple-hash"@,
            out.default_limit == 8,
    {
        ServiceConfig { embedding_model: "ingat/simple-hash".to_owned(), default_limit: 8 }
    }
}

impl ServiceConfig {
    /// A configuration for the given model. A default limit of zero is
    /// raised to one.
    pub fn new(embedding_model: &str, default_limit: usize) -> (out: Self)
        ensures
            out.embedding_model@ == embedding_model@,
            out.default_limit == if default_limit < 1 {
                1
            } else {
                default_limit
            },
    {
        ServiceConfig {
            embedding_model: embedding_model.to_owned(),
            default_limit: if default_limit < 1 {
                1
            } else {
                default_limit
            },
        }
    }

    /// A configuration for the given model with the standard default limit.
    pub fn with_model(embedding_model: &str) -> (out: Self)
        ensures
            out.embedding_model@ == embedding_model@,
            out.default_limit == 8,
    {
        ServiceConfig::new(embedding_model, 8)
    }

    /// The model under which texts are embedded.
    pub fn embedding_model(&self) -> (model: &str)
        ensures
            model@ == self.embedding_model@,
    {
        self.embedding_model.as_str()
    }
}

impl Clone for ServiceConfig {
    fn clone(&self) -> (out: Self)
        ensures
            out.embedding_model@ == self.embedding_model@,
            out.default_limit == self.default_limit,
    {
        ServiceConfig {
            embedding_model: self.embedding_model.clone(),
            default_limit: self.default_limit,
        }
    }
}

/// The model of what an embedding call returned.
pub open spec fn vector_outcome(r: Result<Vec<u32>, DomainError>) -> Result<Seq<u32>, ErrorView> {
    match r {
        Ok(v) => Ok(v@),
        Err(e) => Err(e@),
    }
}

/// The model of what a call without a value returned.
pub open spec fn unit_outcome(r: Result<(), DomainError>) -> Result<(), ErrorView> {
    match r {
        Ok(_) => Ok(()),
        Err(e) => Err(e@),
    }
}

/// The models of scored records, in order.
pub open spec fn scored_views(v: Seq<(ContextRecord, u32)>) -> Seq<(RecordView, u32)> {
    Seq::new(v.len(), |i: int| (v[i].0@, v[i].1))
}

/// The model of what a similarity search returned.
pub open spec fn matches_outcome(r: Result<Vec<(ContextRecord, u32)>, DomainError>) -> Result<
    Seq<(RecordView, u32)>,
    ErrorView,
> {
    match r {
        Ok(v) => Ok(scored_views(v@)),
        Err(e) => Err(e@),
    }
}

/// The model of what a listing of summaries returned.
pub open spec fn summaries_outcome(r: Result<Vec<ContextSummary>, DomainError>) -> Result<
    Seq<SummaryView>,
    ErrorView,
> {
    match r {
        Ok(v) => Ok(v.deep_view()),
        Err(e) => Err(e@),
    }
}

/// The model of what a listing of names returned.
pub open spec fn names_outcome(r: Result<Vec<String>, DomainError>) -> Result<
    Seq<Seq<char>>,
    ErrorView,
> {
    match r {
        Ok(v) => Ok(texts(v@)),
        Err(e) => Err(e@),
    }
}

/// Abstraction over any engine that turns text into a vector of fixed
/// length. The components are bit patterns of IEEE 754 single-precision
/// numbers.
pub trait EmbeddingEngine {
    /// Relates the arguments of [`EmbeddingEngine::embed`] to each answer
    /// that the engine may give to them.
    open spec fn embed_outcome(
        &self,
        model: Seq<char>,
        text: Seq<char>,
        outcome: Result<Seq<u32>, ErrorView>,
    ) -> bool {
        true
    }

    /// Relates a model to each answer that the engine may give when asked
    /// for the model's number of components.
    open spec fn dims_outcome(&self, model: Seq<char>, outcome: Option<usize>) -> bool {
        true
    }

    fn embed(&self, model: &str, text: &str) -> (r: Result<Vec<u32>, DomainError>)
        ensures
            self.embed_outcome(model@, text@, vector_outcome(r)),
    ;

    fn dims(&self, model: &str) -> (r: Option<usize>)
        ensures
            self.dims_outcome(model@, r),
    ;
}

/// Contract of the vector storage engine, whichever process owns it.
pub trait VectorStore {
    /// Relates a record to each answer that persisting it may give.
    open spec fn persist_outcome(&self, record: RecordView, outcome: Result<(), ErrorView>) -> bool {
        true
    }

    /// Relates the arguments of a similarity search to each answer that
    /// the store may give to them.
    open spec fn search_outcome(
        &self,
        embedding: EmbeddingView,
        limit: usize,
        filters: FiltersView,
        outcome: Result<Seq<(RecordView, u32)>, ErrorView>,
    ) -> bool {
        true
    }

    /// Relates the arguments of a listing to each answer that the store
    /// may give to them.
    open spec fn recent_outcome(
        &self,
        project: Option<Seq<char>>,
        limit: usize,
        outcome: Result<Seq<SummaryView>, ErrorView>,
    ) -> bool {
        true
    }

    /// The answers that the store may give when asked for its projects.
    open spec fn projects_outcome(&self, outcome: Result<Seq<Seq<char>>, ErrorView>) -> bool {
        true
    }

    /// The answers that the store may give to a liveness probe.
    open spec fn ping_outcome(&self, outcome: Result<(), ErrorView>) -> bool {
        true
    }

    fn persist(&self, record: &ContextRecord) -> (r: Result<(), DomainError>)
        ensures
            self.persist_outcome(record@, unit_outcome(r)),
    ;

    fn search(&self, embedding: &ContextEmbedding, limit: usize, filters: &QueryFilters) -> (r:
        Result<Vec<(ContextRecord, u32)>, DomainError>)
        ensures
            self.search_outcome(embedding@, limit, filters@, matches_outcome(r)),
    ;

    fn recent(&self, project: Option<&str>, limit: usize) -> (r: Result<
        Vec<ContextSummary>,
        DomainError,
    >)
        ensures
            self.recent_outcome(
                match project {
                    Some(p) => Some(p@),
                    None => None,
                },
                limit,
                summaries_outcome(r),
            ),
    ;

    fn projects(&self) -> (r: Result<Vec<String>, DomainError>)
        ensures
            self.projects_outcome(names_outcome(r)),
    ;

    fn ping(&self) -> (r: Result<(), DomainError>)
        ensures
            self.ping_outcome(unit_outcome(r)),
    ;
}

/// Why a custom kind is turned away, if it is: its label is blank.
pub open spec fn kind_rejection(kind: KindView) -> Option<ErrorView> {
    match kind {
        KindView::Other(label) => if blank(label) {
            Some(error_of(ErrorKind::Validation, "custom kind label cannot be empty"@))
        } else {
            None
        },
        _ => None,
    }
}

/// Why an ingest payload is turned away, if it is. The checks run in this
/// order and the first that fails decides.
pub open spec fn payload_rejection(p: IngestView) -> Option<ErrorView> {
    if blank(p.project) {
        Some(error_of(ErrorKind::Validation, "project is required"@))
    } else if blank(p.ide) {
        Some(error_of(ErrorKind::Validation, "ide is required"@))
    } else if blank(p.summary) {
        Some(error_of(ErrorKind::Validation, "summary is required"@))
    } else if p.summary.len() > MAX_SUMMARY_CHARS {
        Some(error_of(ErrorKind::LimitExceeded, "summary cannot exceed 640 characters"@))
    } else if blank(p.body) {
        Some(error_of(ErrorKind::Validation, "body is required"@))
    } else if p.body.len() > MAX_BODY_CHARS {
        Some(error_of(ErrorKind::LimitExceeded, "body cannot exceed 16000 characters"@))
    } else if p.tags.len() > MAX_TAGS {
        Some(error_of(ErrorKind::LimitExceeded, "tags cannot exceed 12 entries"@))
    } else {
        kind_rejection(p.kind)
    }
}

/// A rejection is always a validation or a limit error.
pub proof fn lemma_rejection_kinds(p: IngestView)
    ensures
        payload_rejection(p) is Some ==> payload_rejection(p)->0.kind == ErrorKind::Validation
            || payload_rejection(p)->0.kind == ErrorKind::LimitExceeded,
{
}

/// The text of an item that is embedded: its trimmed summary, a line feed,
/// its trimmed body.
pub open spec fn embedding_text(summary: Seq<char>, body: Seq<char>) -> Seq<char> {
    trimmed(summary).push('\n') + trimmed(body)
}

/// The record that ingesting a payload creates, under the given identity,
/// creation time and embedding.
pub open spec fn ingested_record(
    p: IngestView,
    id: u128,
    created_at: Timestamp,
    embedding: EmbeddingView,
) -> RecordView {
    record_of(
        id,
        created_at,
        p.project,
        p.ide,
        p.file_path,
        p.language,
        p.summary,
        p.body,
        p.tags,
        p.kind,
        embedding,
    )
}

/// A limit held within `1..=most`.
pub open spec fn clamped(limit: usize, most: usize) -> usize {
    if limit < 1 {
        1
    } else if limit > most {
        most
    } else {
        limit
    }
}

/// The number of entries that a history listing asks the store for.
pub open spec fn history_limit(limit: Option<usize>, default_limit: usize) -> usize {
    clamped(
        match limit {
            Some(n) => n,
            None => default_limit,
        },
        MAX_HISTORY_LIMIT,
    )
}

/// The result row for a scored record.
pub open spec fn row_of(r: RecordView, score: u32) -> ResultView {
    ResultView {
        id: r.id,
        project: r.project,
        summary: r.summary,
        body: r.body,
        tags: r.tags,
        kind: r.kind,
        score,
        created_at: r.created_at,
    }
}

/// The result rows for scored records, one for one and in order.
pub open spec fn rows_of(matches: Seq<(RecordView, u32)>) -> Seq<ResultView> {
    Seq::new(matches.len(), |i: int| row_of(matches[i].0, matches[i].1))
}

/// Holds a limit within `1..=most`.
pub fn clamp_limit(limit: usize, most: usize) -> (out: usize)
    ensures
        out == clamped(limit, most),
        most >= 1 ==> 1 <= out <= most,
{
    if limit < 1 {
        1
    } else if limit > most {
        most
    } else {
        limit
    }
}

/// Turns scored records into result rows, one for one and in order.
pub fn result_rows(matches: Vec<(ContextRecord, u32)>) -> (rows: Vec<SearchResultDto>)
    ensures
        rows.deep_view() == rows_of(scored_views(matches@)),
{
    let ghost all = scored_views(matches@);
    let mut rest = crate::ranking::reversed(matches);
    let mut rows: Vec<SearchResultDto> = Vec::new();
    while rest.len() > 0
        invariant
            rows@.len() + rest@.len() == all.len(),
            forall|k: int|
                0 <= k < rest@.len() ==> (#[trigger] rest@[k]).0@ == all[all.len() - 1 - k].0
                    && rest@[k].1 == all[all.len() - 1 - k].1,
            forall|k: int|
                0 <= k < rows@.len() ==> (#[trigger] rows@[k])@ == row_of(all[k].0, all[k].1),
        decreases rest.len(),
    {
        let (record, score) = rest.pop().unwrap();
        rows.push(
            SearchResultDto {
                id: record.id,
                project: record.project,
                summary: record.summary,
                body: record.body,
                tags: record.tags,
                kind: record.kind,
                score,
                created_at: record.created_at,
            },
        );
    }
    assert(rows.deep_view() =~= rows_of(all));
    rows
}

/// The orchestrator: validates, embeds and delegates to storage.
pub struct ContextService<E: EmbeddingEngine, S: VectorStore> {
    embedder: E,
    store: S,
    config: ServiceConfig,
}

impl<E: EmbeddingEngine, S: VectorStore> ContextService<E, S> {
    /// The embedding capability in use.
    pub closed spec fn embedder(&self) -> E {
        self.embedder
    }

    /// The storage contract in use.
    pub closed spec fn store(&self) -> S {
        self.store
    }

    /// The model under which every text is embedded.
    pub closed spec fn model(&self) -> Seq<char> {
        self.config.embedding_model@
    }

    /// The history length when the caller names none.
    pub closed spec fn default_limit(&self) -> usize {
        self.config.default_limit
    }

    /// An orchestrator over the given embedder and store. The two are held
    /// together and replaced only together, by replacing the orchestrator.
    pub fn new(embedder: E, store: S, config: ServiceConfig) -> (out: Self)
        ensures
            out.embedder() == embedder,
            out.store() == store,
            out.model() == config.embedding_model@,
            out.default_limit() == config.default_limit,
    {
        ContextService { embedder, store, config }
    }

    /// What [`ContextService::ingest`] answers to a payload: the rejection
    /// if there is one, else the embedder's error, else the store's error,
    /// else the summary of the record that was persisted.
    pub open spec fn ingest_outcome(
        &self,
        p: IngestView,
        r: Result<SummaryView, ErrorView>,
    ) -> bool {
        match payload_rejection(p) {
            Some(e) => r == Err::<SummaryView, ErrorView>(e),
            None => exists|embedded: Result<Seq<u32>, ErrorView>|
                {
                    &&& #[trigger] self.embedder().embed_outcome(
                        self.model(),
                        embedding_text(p.summary, p.body),
                        embedded,
                    )
                    &&& match embedded {
                        Err(e) => r == Err::<SummaryView, ErrorView>(e),
                        Ok(vector) => exists|
                            id: u128,
                            created_at: Timestamp,
                            persisted: Result<(), ErrorView>,
                        |
                            {
                                &&& #[trigger] self.store().persist_outcome(
                                    ingested_record(
                                        p,
                                        id,
                                        created_at,
                                        EmbeddingView { model: self.model(), vector },
                                    ),
                                    persisted,
                                )
                                &&& match persisted {
                                    Err(e) => r == Err::<SummaryView, ErrorView>(e),
                                    Ok(_) => r == Ok::<SummaryView, ErrorView>(
                                        summary_of(
                                            ingested_record(
                                                p,
                                                id,
                                                created_at,
                                                EmbeddingView { model: self.model(), vector },
                                            ),
                                        ),
                                    ),
                                }
                            },
                    }
                },
        }
    }

    /// Validates a payload, embeds its text, persists the record and
    /// returns the record's summary.
    pub fn ingest(&self, payload: IngestContextRequest) -> (r: Result<
        ContextSummary,
        DomainError,
    >)
        ensures
            self.ingest_outcome(
                payload@,
                match r {
                    Ok(s) => Ok(s@),
                    Err(e) => Err(e@),
                },
            ),
            r is Ok ==> tags_in_normal_form(r->Ok_0@.tags),
    {
        let ghost p = payload@;
        match validate_payload(&payload) {
            Err(e) => {
                return Err(e);
            },
            Ok(_) => {},
        }
        let mut text = trim(payload.summary.as_str());
        text.push('\n');
        let body = trim(payload.body.as_str());
        text.append(body.as_str());
        assert(text@ == embedding_text(p.summary, p.body));
        let embedded = self.embedder.embed(self.config.embedding_model.as_str(), text.as_str());
        let ghost embedded_view = vector_outcome(embedded);
        assert(self.embedder().embed_outcome(
            self.model(),
            embedding_text(p.summary, p.body),
            embedded_view,
        ));
        let vector = match embedded {
            Err(e) => {
                return Err(e);
            },
            Ok(vector) => vector,
        };
        let embedding = ContextEmbedding::new(self.config.embedding_model.as_str(), vector);
        let ghost embedding_view = embedding@;
        let record = ContextRecord::new(
            payload.project.as_str(),
            payload.ide.as_str(),
            payload.file_path,
            payload.language,
            payload.summary,
            payload.body,
            payload.tags,
            payload.kind,
            embedding,
        );
        assert(record@ == ingested_record(p, record.id, record.created_at, embedding_view));
        let persisted = self.store.persist(&record);
        let ghost persisted_view = unit_outcome(persisted);
        assert(self.store().persist_outcome(
            ingested_record(
                p,
                record.id,
                record.created_at,
                EmbeddingView { model: self.model(), vector: embedded_view->Ok_0 },
            ),
            persisted_view,
        ));
        match persisted {
            Err(e) => Err(e),
            Ok(_) => Ok(record.as_summary()),
        }
    }

    /// What a search by vector answers: the store's error, or the rows for
    /// what the store found when asked for `clamp(limit, 1, 32)` records
    /// near the vector, under the configured model.
    pub open spec fn vector_search_outcome(
        &self,
        query: Seq<char>,
        vector: Seq<u32>,
        filters: FiltersView,
        limit: usize,
        r: Result<ResponseView, ErrorView>,
    ) -> bool {
        exists|found: Result<Seq<(RecordView, u32)>, ErrorView>|
            {
                &&& #[trigger] self.store().search_outcome(
                    EmbeddingView { model: self.model(), vector },
                    clamped(limit, MAX_SEARCH_LIMIT),
                    filters,
                    found,
                )
                &&& match found {
                    Err(e) => r == Err::<ResponseView, ErrorView>(e),
                    Ok(matches) => r == Ok::<ResponseView, ErrorView>(
                        ResponseView { query, results: rows_of(matches) },
                    ),
                }
            }
    }

    /// What [`ContextService::search`] answers to a request: a validation
    /// error for a blank prompt, else the embedder's error, else what the
    /// search by the prompt's vector answers.
    pub open spec fn search_outcome(
        &self,
        prompt: Seq<char>,
        filters: FiltersView,
        limit: usize,
        r: Result<ResponseView, ErrorView>,
    ) -> bool {
        if blank(prompt) {
            r == Err::<ResponseView, ErrorView>(
                error_of(ErrorKind::Validation, "prompt cannot be empty"@),
            )
        } else {
            exists|embedded: Result<Seq<u32>, ErrorView>|
                {
                    &&& #[trigger] self.embedder().embed_outcome(
                        self.model(),
                        trimmed(prompt),
                        embedded,
                    )
                    &&& match embedded {
                        Err(e) => r == Err::<ResponseView, ErrorView>(e),
                        Ok(vector) => self.vector_search_outcome(prompt, vector, filters, limit, r),
                    }
                }
        }
    }

    /// Embeds the trimmed prompt and asks the store for the nearest
    /// records, at most `clamp(limit, 1, 32)` of them.
    pub fn search(&self, request: SearchRequest) -> (r: Result<SearchResponse, DomainError>)
        ensures
            self.search_outcome(
                request.prompt@,
                request.filters@,
                request.limit,
                match r {
                    Ok(s) => Ok(s@),
                    Err(e) => Err(e@),
                },
            ),
    {
        let ghost prompt_view = request.prompt@;
        if is_blank(request.prompt.as_str()) {
            return Err(DomainError::validation("prompt cannot be empty"));
        }
        let RetrievalQuery { prompt, filters, limit } = RetrievalQuery::from(request);
        let trimmed_prompt = trim(prompt.as_str());
        let embedded = self.embedder.embed(
            self.config.embedding_model.as_str(),
            trimmed_prompt.as_str(),
        );
        let ghost embedded_view = vector_outcome(embedded);
        assert(self.embedder().embed_outcome(self.model(), trimmed(prompt_view), embedded_view));
        match embedded {
            Err(e) => Err(e),
            Ok(vector) => self.search_by_vector(prompt, vector, filters, limit),
        }
    }

    /// Asks the store for the records nearest to a vector that was embedded
    /// under the configured model, at most `clamp(limit, 1, 32)` of them.
    /// `query` is the prompt that the vector stands for; it is repeated in
    /// the response and may be empty.
    pub fn search_by_vector(
        &self,
        query: String,
        vector: Vec<u32>,
        filters: QueryFilters,
        limit: usize,
    ) -> (r: Result<SearchResponse, DomainError>)
        ensures
            self.vector_search_outcome(
                query@,
                vector@,
                filters@,
                limit,
                match r {
                    Ok(s) => Ok(s@),
                    Err(e) => Err(e@),
                },
            ),
    {
        let effective_limit = clamp_limit(limit, MAX_SEARCH_LIMIT);
        let query_embedding = ContextEmbedding::new(self.config.embedding_model.as_str(), vector);
        let found = self.store.search(&query_embedding, effective_limit, &filters);
        let ghost found_view = matches_outcome(found);
        assert(self.store().search_outcome(
            EmbeddingView { model: self.model(), vector: vector@ },
            clamped(limit, MAX_SEARCH_LIMIT),
            filters@,
            found_view,
        ));
        match found {
            Err(e) => Err(e),
            Ok(matches) => Ok(SearchResponse { query, results: result_rows(matches) }),
        }
    }

    /// Lists the most recent summaries, of one project or of all: what the
    /// store answers when asked for `clamp(limit, 1, 50)` entries, the
    /// configured default standing in for a missing limit.
    pub fn history(&self, project: Option<String>, limit: Option<usize>) -> (r: Result<
        SummaryListResponse,
        DomainError,
    >)
        ensures
            self.store().recent_outcome(
                opt_text(project),
                history_limit(limit, self.default_limit()),
                match r {
                    Ok(list) => Ok(list@),
                    Err(e) => Err(e@),
                },
            ),
    {
        let wanted = match limit {
            Some(n) => n,
            None => self.config.default_limit,
        };
        let capped_limit = clamp_limit(wanted, MAX_HISTORY_LIMIT);
        let listed = match &project {
            Some(p) => self.store.recent(Some(p.as_str()), capped_limit),
            None => self.store.recent(None, capped_limit),
        };
        match listed {
            Err(e) => Err(e),
            Ok(summaries) => Ok(SummaryListResponse { items: summaries }),
        }
    }

    /// Lists the projects that the store knows.
    pub fn projects(&self) -> (r: Result<Vec<String>, DomainError>)
        ensures
            self.store().projects_outcome(names_outcome(r)),
    {
        self.store.projects()
    }

    /// The number of components that the embedder declares for the
    /// configured model.
    pub fn embedding_dimensions(&self) -> (r: Option<usize>)
        ensures
            self.embedder().dims_outcome(self.model(), r),
    {
        self.embedder.dims(self.config.embedding_model.as_str())
    }

    /// Probes the store and reports. A failed probe is reported as
    /// `ok == false` with the error in the details, never as an error.
    pub fn health(&self) -> (r: Result<HealthStatusResponse, DomainError>)
        ensures
            r is Ok,
            exists|probed: Result<(), ErrorView>| #[trigger]
                self.store().ping_outcome(probed) && health_report(
                    self.model(),
                    probed,
                    r->Ok_0.ok,
                    r->Ok_0.message@,
                    opt_text(r->Ok_0.details),
                ),
    {
        let probed = self.store.ping();
        let report = match probed {
            Ok(_) => {
                let stamp = match time_text(current_time()) {
                    Some(text) => text,
                    None => String::new(),
                };
                let head = join3("model: ", self.config.embedding_model.as_str(), ", checked_at: ");
                let details = join(head.as_str(), stamp.as_str());
                HealthStatusResponse { ok: true, message: "ready".to_owned(), details: Some(details) }
            },
            Err(e) => HealthStatusResponse {
                ok: false,
                message: "unavailable".to_owned(),
                details: Some(e.to_string()),
            },
        };
        assert(self.store().ping_outcome(unit_outcome(probed)));
        Ok(report)
    }
}

/// A store keeps the promise of a similarity search when each of its
/// answers holds no more records than asked for, in descending order of
/// score, each passing the filters.
pub open spec fn keeps_search_promise<S: VectorStore>(store: S) -> bool {
    forall|
        embedding: EmbeddingView,
        limit: usize,
        filters: FiltersView,
        found: Seq<(RecordView, u32)>,
    | #[trigger]
        store.search_outcome(
            embedding,
            limit,
            filters,
            Ok::<Seq<(RecordView, u32)>, ErrorView>(found),
        ) ==> {
            &&& found.len() <= limit
            &&& forall|i: int, j: int|
                0 <= i < j < found.len() ==> score_key(found[i].1) >= score_key(found[j].1)
            &&& forall|i: int| 0 <= i < found.len() ==> record_matches(found[i].0, filters)
        }
}

/// A store keeps the promise of a listing when each of its answers holds
/// no more summaries than asked for, latest first, and only summaries of
/// the project asked for.
pub open spec fn keeps_listing_promise<S: VectorStore>(store: S) -> bool {
    forall|project: Option<Seq<char>>, limit: usize, listed: Seq<SummaryView>| #[trigger]
        store.recent_outcome(project, limit, Ok::<Seq<SummaryView>, ErrorView>(listed)) ==> {
            &&& listed.len() <= limit
            &&& forall|i: int, j: int|
                0 <= i < j < listed.len() ==> listed[i].created_at.order_key()
                    >= listed[j].created_at.order_key()
            &&& forall|i: int|
                0 <= i < listed.len() && project is Some ==> listed[i].project == project->0
        }
}

/// A result row passes the filters as far as a row shows: by project,
/// kind and tag.
pub open spec fn row_passes(row: ResultView, filters: FiltersView) -> bool {
    &&& filters.project is Some ==> row.project == filters.project->0
    &&& filters.kind is Some ==> row.kind == filters.kind->0
    &&& filters.tag is Some ==> row.tags.contains(filters.tag->0)
}

/// Over a store that keeps the promise of a similarity search, every
/// successful search returns at most `clamp(limit, 1, 32)` rows, sorted by
/// descending score, none of which violates the filters.
pub proof fn lemma_search_results<E: EmbeddingEngine, S: VectorStore>(
    service: ContextService<E, S>,
    prompt: Seq<char>,
    filters: FiltersView,
    limit: usize,
    response: ResponseView,
)
    requires
        keeps_search_promise(service.store()),
        service.search_outcome(
            prompt,
            filters,
            limit,
            Ok::<ResponseView, ErrorView>(response),
        ),
    ensures
        !blank(prompt),
        response.query == prompt,
        response.results.len() <= clamped(limit, MAX_SEARCH_LIMIT) <= MAX_SEARCH_LIMIT,
        forall|i: int, j: int|
            0 <= i < j < response.results.len() ==> score_key(response.results[i].score)
                >= score_key(response.results[j].score),
        forall|i: int|
            0 <= i < response.results.len() ==> row_passes(#[trigger] response.results[i], filters),
{
    let embedded = choose|embedded: Result<Seq<u32>, ErrorView>|
        {
            &&& #[trigger] service.embedder().embed_outcome(
                service.model(),
                trimmed(prompt),
                embedded,
            )
            &&& match embedded {
                Err(e) => Ok::<ResponseView, ErrorView>(response) == Err::<ResponseView, ErrorView>(
                    e,
                ),
                Ok(vector) => service.vector_search_outcome(
                    prompt,
                    vector,
                    filters,
                    limit,
                    Ok::<ResponseView, ErrorView>(response),
                ),
            }
        };
    let vector = embedded->Ok_0;
    lemma_vector_search_results(service, prompt, vector, filters, limit, response);
}

/// Over a store that keeps the promise of a similarity search, every
/// successful search by vector returns at most `clamp(limit, 1, 32)` rows,
/// sorted by descending score, none of which violates the filters.
pub proof fn lemma_vector_search_results<E: EmbeddingEngine, S: VectorStore>(
    service: ContextService<E, S>,
    query: Seq<char>,
    vector: Seq<u32>,
    filters: FiltersView,
    limit: usize,
    response: ResponseView,
)
    requires
        keeps_search_promise(service.store()),
        service.vector_search_outcome(
            query,
            vector,
            filters,
            limit,
            Ok::<ResponseView, ErrorView>(response),
        ),
    ensures
        response.query == query,
        response.results.len() <= clamped(limit, MAX_SEARCH_LIMIT) <= MAX_SEARCH_LIMIT,
        forall|i: int, j: int|
            0 <= i < j < response.results.len() ==> score_key(response.results[i].score)
                >= score_key(response.results[j].score),
        forall|i: int|
            0 <= i < response.results.len() ==> row_passes(#[trigger] response.results[i], filters),
{
    let found = choose|found: Result<Seq<(RecordView, u32)>, ErrorView>|
        {
            &&& #[trigger] service.store().search_outcome(
                EmbeddingView { model: service.model(), vector },
                clamped(limit, MAX_SEARCH_LIMIT),
                filters,
                found,
            )
            &&& match found {
                Err(e) => Ok::<ResponseView, ErrorView>(response) == Err::<ResponseView, ErrorView>(
                    e,
                ),
                Ok(matches) => Ok::<ResponseView, ErrorView>(response) == Ok::<
                    ResponseView,
                    ErrorView,
                >(ResponseView { query, results: rows_of(matches) }),
            }
        };
    let matches = found->Ok_0;
    assert(response.results == rows_of(matches));
    assert forall|i: int| 0 <= i < response.results.len() implies row_passes(
        #[trigger] response.results[i],
        filters,
    ) by {
        assert(record_matches(matches[i].0, filters));
    }
}

/// Over a store that keeps the promise of a listing, a history never holds
/// more than `clamp(limit, 1, 50)` entries, is sorted by descending
/// creation time and, for a project, holds only that project's summaries.
pub proof fn lemma_history_results<E: EmbeddingEngine, S: VectorStore>(
    service: ContextService<E, S>,
    project: Option<Seq<char>>,
    limit: Option<usize>,
    listed: Seq<SummaryView>,
)
    requires
        keeps_listing_promise(service.store()),
        service.store().recent_outcome(
            project,
            history_limit(limit, service.default_limit()),
            Ok::<Seq<SummaryView>, ErrorView>(listed),
        ),
    ensures
        listed.len() <= history_limit(limit, service.default_limit()) <= MAX_HISTORY_LIMIT,
        limit is Some ==> listed.len() <= clamped(limit->0, MAX_HISTORY_LIMIT),
        forall|i: int, j: int|
            0 <= i < j < listed.len() ==> listed[i].created_at.order_key()
                >= listed[j].created_at.order_key(),
        forall|i: int| 0 <= i < listed.len() && project is Some ==> listed[i].project == project->0,
{
}

/// The health report that goes with the answer of a liveness probe: after
/// a success `ready`, with the model and the time of the check in the
/// details; after a failure `unavailable`, with the rendered error in them.
pub open spec fn health_report(
    model: Seq<char>,
    probed: Result<(), ErrorView>,
    ok: bool,
    message: Seq<char>,
    details: Option<Seq<char>>,
) -> bool {
    match probed {
        Ok(_) => {
            &&& ok
            &&& message == "ready"@
            &&& details is Some
            &&& exists|secs: i64, nanos: u32|
                details->0 == "model: "@ + model + ", checked_at: "@ + match #[trigger] instant_text(
                    secs,
                    nanos,
                ) {
                    Some(text) => text,
                    None => Seq::empty(),
                }
        },
        Err(e) => {
            &&& !ok
            &&& message == "unavailable"@
            &&& details == Some(rendered(e))
        },
    }
}

/// What the `Display` of `chrono::DateTime<Utc>` writes for the instant
/// that `DateTime::from_timestamp` makes of the seconds and nanoseconds:
/// its date, time of day and zone; nothing where there is no such instant.
pub uninterp spec fn instant_text(secs: i64, nanos: u32) -> Option<Seq<char>>;

/// `chrono::DateTime::from_timestamp` makes the instant and its `Display`
/// writes it. The result is named, not described.
#[verifier::external_body]
fn time_text(at: Timestamp) -> (out: Option<String>)
    ensures
        out is Some == instant_text(at.secs, at.nanos) is Some,
        out is Some ==> out->0@ == instant_text(at.secs, at.nanos)->0,
{
    match chrono::DateTime::<chrono::Utc>::from_timestamp(at.secs, at.nanos) {
        Some(instant) => Some(instant.to_string()),
        None => None,
    }
}

/// Turns a custom kind with a blank label away.
pub fn validate_kind(kind: &ContextKind) -> (r: Result<(), DomainError>)
    ensures
        match kind_rejection(kind@) {
            Some(e) => r is Err && r->Err_0@ == e,
            None => r is Ok,
        },
{
    match kind {
        ContextKind::Other(label) => {
            if is_blank(label.as_str()) {
                Err(DomainError::validation("custom kind label cannot be empty"))
            } else {
                Ok(())
            }
        },
        _ => Ok(()),
    }
}

/// Checks an ingest payload against the guard rails. The payload passes if
/// and only if no rejection applies; otherwise the first rejection that
/// applies is returned.
pub fn validate_payload(payload: &IngestContextRequest) -> (r: Result<(), DomainError>)
    ensures
        match payload_rejection(payload@) {
            Some(e) => r is Err && r->Err_0@ == e,
            None => r is Ok,
        },
{
    if is_blank(payload.project.as_str()) {
        return Err(DomainError::validation("project is required"));
    }
    if is_blank(payload.ide.as_str()) {
        return Err(DomainError::validation("ide is required"));
    }
    if is_blank(payload.summary.as_str()) {
        return Err(DomainError::validation("summary is required"));
    }
    if payload.summary.as_str().unicode_len() > MAX_SUMMARY_CHARS {
        return Err(DomainError::limit("summary cannot exceed 640 characters"));
    }
    if is_blank(payload.body.as_str()) {
        return Err(DomainError::validation("body is required"));
    }
    if payload.body.as_str().unicode_len() > MAX_BODY_CHARS {
        return Err(DomainError::limit("body cannot exceed 16000 characters"));
    }
    if payload.tags.len() > MAX_TAGS {
        return Err(DomainError::limit("tags cannot exceed 12 entries"));
    }
    validate_kind(&payload.kind)
}

} // verus!
