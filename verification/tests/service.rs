use std::cell::RefCell;

use ingat::application::dtos::{IngestContextRequest, SearchRequest};
use ingat::application::services::{
    clamp_limit, result_rows, validate_kind, validate_payload, ContextService, EmbeddingEngine,
    ServiceConfig, VectorStore, MAX_BODY_CHARS, MAX_HISTORY_LIMIT, MAX_SEARCH_LIMIT,
    MAX_SUMMARY_CHARS,
};
use ingat::domain::errors::{DomainError, ErrorKind};
use ingat::domain::models::{
    ContextEmbedding, ContextKind, ContextRecord, ContextSummary, QueryFilters, Timestamp,
};
use ingat::infrastructure::embeddings::{NoOpEmbeddingEngine, SimpleEmbedEngine};
use ingat::infrastructure::storage::engine::{
    distinct_projects, recent_summaries, search_records,
};

fn to_bits(v: Vec<f32>) -> Vec<u32> {
    v.into_iter().map(f32::to_bits).collect()
}

fn from_bits(v: &[u32]) -> Vec<f32> {
    v.iter().map(|b| f32::from_bits(*b)).collect()
}

fn cosine(q: &Vec<u32>, c: &Vec<u32>) -> Result<u32, DomainError> {
    let q = from_bits(q);
    let c = from_bits(c);
    let mut dot = 0.0f32;
    let mut q_norm = 0.0f32;
    let mut c_norm = 0.0f32;
    for (a, b) in q.iter().zip(c.iter()) {
        dot += a * b;
        q_norm += a * a;
        c_norm += b * b;
    }
    let denom = q_norm.sqrt() * c_norm.sqrt();
    if denom == 0.0 {
        return Err(DomainError::embedding("cannot compute cosine similarity with zero vector"));
    }
    Ok((dot / denom).clamp(-1.0, 1.0).to_bits())
}

struct HashEmbedder {
    core: SimpleEmbedEngine,
}

impl EmbeddingEngine for HashEmbedder {
    fn embed(&self, model: &str, text: &str) -> Result<Vec<u32>, DomainError> {
        let counts = self.core.token_counts(model, text)?;
        let mut vector: Vec<f32> = counts.iter().map(|c| *c as f32).collect();
        let norm = vector.iter().map(|v| v * v).sum::<f32>().sqrt();
        if norm > 0.0 {
            for value in &mut vector {
                *value /= norm;
            }
        }
        Ok(to_bits(vector))
    }

    fn dims(&self, _model: &str) -> Option<usize> {
        Some(self.core.dims())
    }
}

#[derive(Default)]
struct MemoryStore {
    records: RefCell<Vec<ContextRecord>>,
    fail: bool,
    limits: RefCell<Vec<usize>>,
}

impl VectorStore for MemoryStore {
    fn persist(&self, record: &ContextRecord) -> Result<(), DomainError> {
        if self.fail {
            return Err(DomainError::storage("disk full"));
        }
        self.records.borrow_mut().push(record.clone());
        Ok(())
    }

    fn search(
        &self,
        embedding: &ContextEmbedding,
        limit: usize,
        filters: &QueryFilters,
    ) -> Result<Vec<(ContextRecord, u32)>, DomainError> {
        self.limits.borrow_mut().push(limit);
        search_records(self.records.borrow().clone(), embedding, limit, filters, &cosine)
    }

    fn recent(
        &self,
        project: Option<&str>,
        limit: usize,
    ) -> Result<Vec<ContextSummary>, DomainError> {
        self.limits.borrow_mut().push(limit);
        Ok(recent_summaries(&self.records.borrow(), project, limit))
    }

    fn projects(&self) -> Result<Vec<String>, DomainError> {
        Ok(distinct_projects(&self.records.borrow()))
    }

    fn ping(&self) -> Result<(), DomainError> {
        if self.fail {
            Err(DomainError::storage("failed to flush db: disk full"))
        } else {
            Ok(())
        }
    }
}

fn service() -> ContextService<HashEmbedder, MemoryStore> {
    ContextService::new(
        HashEmbedder { core: SimpleEmbedEngine::default() },
        MemoryStore::default(),
        ServiceConfig::default(),
    )
}

fn payload() -> IngestContextRequest {
    IngestContextRequest {
        project: "demo".to_string(),
        ide: "zed".to_string(),
        file_path: Some("src/lib.rs".to_string()),
        language: Some("rust".to_string()),
        summary: "fix null check".to_string(),
        body: "added guard before deref".to_string(),
        tags: vec!["Bug Fix".to_string(), "bug fix".to_string(), "".to_string()],
        kind: ContextKind::FixHistory,
    }
}

fn search(prompt: &str, limit: usize) -> SearchRequest {
    SearchRequest { prompt: prompt.to_string(), filters: QueryFilters::default(), limit }
}

#[test]
fn ingested_record_is_found_again() {
    let service = service();
    let summary = service.ingest(payload()).unwrap();
    assert_eq!(summary.tags, vec!["bug-fix".to_string()]);
    assert_eq!(summary.project, "demo");
    assert_eq!(summary.summary, "fix null check");
    assert_eq!(summary.kind, ContextKind::FixHistory);

    let response = service.search(search("null check guard", 8)).unwrap();
    assert_eq!(response.query, "null check guard");
    assert_eq!(response.results.len(), 1);
    let top = &response.results[0];
    assert_eq!(top.id, summary.id);
    assert_eq!(top.body, "added guard before deref");
    assert_eq!(top.tags, vec!["bug-fix".to_string()]);
    assert!(f32::from_bits(top.score) > 0.0);
    assert!(f32::from_bits(top.score) <= 1.0);
}

#[test]
fn ingest_issues_distinct_ids_and_keeps_tags_in_normal_form() {
    let service = service();
    let mut request = payload();
    request.tags = vec![
        "  Rust ".to_string(),
        "rust".to_string(),
        "Error  Handling".to_string(),
        "a\tb".to_string(),
        "   ".to_string(),
    ];
    let first = service.ingest(request).unwrap();
    assert_eq!(first.tags, vec!["rust", "error-handling", "a-b"]);
    let second = service.ingest(payload()).unwrap();
    assert_ne!(first.id, second.id);
}

fn rejected(request: IngestContextRequest) -> DomainError {
    let service = service();
    let error = service.ingest(request).unwrap_err();
    assert!(service.history(None, None).unwrap().items.is_empty());
    error
}

#[test]
fn ingest_rejects_what_breaks_the_guard_rails() {
    let mut r = payload();
    r.project = "  ".to_string();
    let e = rejected(r);
    assert_eq!(e.kind(), ErrorKind::Validation);
    assert_eq!(e.to_string(), "validation error: project is required");

    let mut r = payload();
    r.ide = "".to_string();
    assert_eq!(rejected(r).to_string(), "validation error: ide is required");

    let mut r = payload();
    r.summary = "\n".to_string();
    assert_eq!(rejected(r).to_string(), "validation error: summary is required");

    let mut r = payload();
    r.summary = "s".repeat(MAX_SUMMARY_CHARS + 1);
    let e = rejected(r);
    assert_eq!(e.kind(), ErrorKind::LimitExceeded);
    assert_eq!(e.to_string(), "limit exceeded: summary cannot exceed 640 characters");

    let mut r = payload();
    r.body = " \t ".to_string();
    assert_eq!(rejected(r).to_string(), "validation error: body is required");

    let mut r = payload();
    r.body = "b".repeat(MAX_BODY_CHARS + 1);
    assert_eq!(rejected(r).to_string(), "limit exceeded: body cannot exceed 16000 characters");

    let mut r = payload();
    r.tags = (0..13).map(|i| format!("t{}", i)).collect();
    assert_eq!(rejected(r).to_string(), "limit exceeded: tags cannot exceed 12 entries");

    let mut r = payload();
    r.kind = ContextKind::Other("  ".to_string());
    assert_eq!(rejected(r).to_string(), "validation error: custom kind label cannot be empty");
}

#[test]
fn ingest_accepts_what_is_on_the_guard_rails() {
    let mut r = payload();
    r.summary = "é".repeat(MAX_SUMMARY_CHARS);
    r.body = "b".repeat(MAX_BODY_CHARS);
    r.tags = (0..12).map(|i| format!("t{}", i)).collect();
    r.kind = ContextKind::Other("note".to_string());
    assert!(validate_payload(&r).is_ok());
    assert!(validate_kind(&ContextKind::Other("x".to_string())).is_ok());
    assert!(validate_kind(&ContextKind::ToolLog).is_ok());
    let summary = service().ingest(r).unwrap();
    assert_eq!(summary.tags.len(), 12);
}

#[test]
fn first_failing_check_decides() {
    let mut r = payload();
    r.project = "".to_string();
    r.summary = "s".repeat(700);
    r.tags = (0..20).map(|i| format!("t{}", i)).collect();
    let e = validate_payload(&r).unwrap_err();
    assert_eq!(e.to_string(), "validation error: project is required");
}

#[test]
fn ingest_hands_on_the_errors_of_embedder_and_store() {
    let proxy = ContextService::new(
        NoOpEmbeddingEngine::for_remote_mode(),
        MemoryStore::default(),
        ServiceConfig::default(),
    );
    let e = proxy.ingest(payload()).unwrap_err();
    assert_eq!(e.kind(), ErrorKind::Embedding);
    assert_eq!(proxy.embedding_dimensions(), Some(384));

    let broken = ContextService::new(
        HashEmbedder { core: SimpleEmbedEngine::default() },
        MemoryStore { fail: true, ..MemoryStore::default() },
        ServiceConfig::default(),
    );
    let e = broken.ingest(payload()).unwrap_err();
    assert_eq!(e.to_string(), "storage failure: disk full");

    let other_model = ContextService::new(
        HashEmbedder { core: SimpleEmbedEngine::default() },
        MemoryStore::default(),
        ServiceConfig::with_model("other/model"),
    );
    let e = other_model.ingest(payload()).unwrap_err();
    assert_eq!(
        e.to_string(),
        "embedding mismatch: engine initialised for `ingat/simple-hash` but `other/model` requested"
    );
}

#[test]
fn search_rejects_a_blank_prompt() {
    let service = service();
    for prompt in ["", "   ", "\n\t"] {
        let e = service.search(search(prompt, 8)).unwrap_err();
        assert_eq!(e.to_string(), "validation error: prompt cannot be empty");
    }
}

#[test]
fn search_clamps_the_limit_and_sorts_by_score() {
    let service = ContextService::new(
        HashEmbedder { core: SimpleEmbedEngine::default() },
        MemoryStore::default(),
        ServiceConfig::default(),
    );
    for i in 0..40 {
        let mut r = payload();
        r.summary = format!("entry {}", i);
        r.body = if i % 2 == 0 { "null check guard".to_string() } else { "guard other words here".to_string() };
        service.ingest(r).unwrap();
    }
    let response = service.search(search("null check guard", 1000)).unwrap();
    assert_eq!(response.results.len(), MAX_SEARCH_LIMIT);
    for pair in response.results.windows(2) {
        assert!(f32::from_bits(pair[0].score) >= f32::from_bits(pair[1].score));
    }
    let response = service.search(search("  null check guard  ", 0)).unwrap();
    assert_eq!(response.results.len(), 1);
    assert_eq!(response.query, "  null check guard  ");
    assert_eq!(clamp_limit(0, 32), 1);
    assert_eq!(clamp_limit(7, 32), 7);
    assert_eq!(clamp_limit(33, 32), 32);
}

#[test]
fn search_by_vector_skips_the_embedder() {
    let service = service();
    let summary = service.ingest(payload()).unwrap();
    let stored = service.search(search("null check guard", 8)).unwrap();
    let embedder = HashEmbedder { core: SimpleEmbedEngine::default() };
    let vector = embedder.embed("ingat/simple-hash", "null check guard").unwrap();
    let found = service
        .search_by_vector(String::new(), vector, QueryFilters::default(), 0)
        .unwrap();
    assert_eq!(found.query, "");
    assert_eq!(found.results.len(), 1);
    assert_eq!(found.results[0].id, summary.id);
    assert_eq!(found.results[0].score, stored.results[0].score);
    let e = service
        .search_by_vector("q".to_string(), vec![0; 3], QueryFilters::default(), 5)
        .unwrap_err();
    assert_eq!(
        e.to_string(),
        "embedding mismatch: embedding dimension mismatch: query 3 vs candidate 256"
    );
}

#[test]
fn search_honours_the_filters() {
    let service = service();
    let mut other = payload();
    other.project = "else".to_string();
    other.kind = ContextKind::Discussion;
    service.ingest(payload()).unwrap();
    service.ingest(other).unwrap();
    let mut request = search("null check", 8);
    request.filters.project = Some("else".to_string());
    let response = service.search(request).unwrap();
    assert_eq!(response.results.len(), 1);
    assert_eq!(response.results[0].project, "else");
    let mut request = search("null check", 8);
    request.filters.kind = Some(ContextKind::FixHistory);
    request.filters.tag = Some("bug-fix".to_string());
    request.filters.ide = Some("zed".to_string());
    let response = service.search(request).unwrap();
    assert_eq!(response.results.len(), 1);
    assert_eq!(response.results[0].project, "demo");
}

#[test]
fn history_clamps_the_limit() {
    let service = service();
    for _ in 0..60 {
        service.ingest(payload()).unwrap();
    }
    assert_eq!(service.history(None, Some(1000)).unwrap().items.len(), MAX_HISTORY_LIMIT);
    assert_eq!(service.history(None, Some(0)).unwrap().items.len(), 1);
    assert_eq!(service.history(None, None).unwrap().items.len(), 8);
    assert_eq!(service.history(Some("nope".to_string()), None).unwrap().items.len(), 0);
    let listed = service.history(Some("demo".to_string()), Some(5)).unwrap().items;
    assert_eq!(listed.len(), 5);
    for pair in listed.windows(2) {
        let (a, b) = (pair[0].created_at, pair[1].created_at);
        assert!((a.secs, a.nanos) >= (b.secs, b.nanos));
    }
}

#[test]
fn projects_are_listed_once_each() {
    let service = service();
    for project in ["zeta", "alpha", "zeta", "mid/dle", "alpha"] {
        let mut r = payload();
        r.project = project.to_string();
        service.ingest(r).unwrap();
    }
    assert_eq!(service.projects().unwrap(), vec!["alpha", "mid-dle", "zeta"]);
}

#[test]
fn health_never_fails() {
    let service = service();
    let report = service.health().unwrap();
    assert!(report.ok);
    assert_eq!(report.message, "ready");
    let details = report.details.unwrap();
    assert!(details.starts_with("model: ingat/simple-hash, checked_at: 20"));
    assert!(details.ends_with(" UTC"));

    let broken = ContextService::new(
        NoOpEmbeddingEngine::for_remote_mode(),
        MemoryStore { fail: true, ..MemoryStore::default() },
        ServiceConfig::default(),
    );
    let report = broken.health().unwrap();
    assert!(!report.ok);
    assert_eq!(report.message, "unavailable");
    assert_eq!(report.details.unwrap(), "storage failure: failed to flush db: disk full");
}

#[test]
fn service_config_raises_a_zero_limit() {
    assert_eq!(ServiceConfig::new("m", 0).default_limit, 1);
    assert_eq!(ServiceConfig::new("m", 5).default_limit, 5);
    assert_eq!(ServiceConfig::with_model("m").default_limit, 8);
    assert_eq!(ServiceConfig::with_model("m").embedding_model(), "m");
    assert_eq!(ServiceConfig::default().embedding_model(), "ingat/simple-hash");
}

#[test]
fn rows_keep_order_and_fields() {
    let record = |name: &str| {
        ContextRecord::assemble(
            7,
            Timestamp { secs: 10, nanos: 5 },
            name,
            "ide",
            None,
            None,
            "s".to_string(),
            "b".to_string(),
            vec!["t".to_string()],
            ContextKind::ToolLog,
            ContextEmbedding::new("m", vec![]),
        )
    };
    let rows = result_rows(vec![(record("a"), 3), (record("b"), 2), (record("c"), 1)]);
    let names: Vec<&str> = rows.iter().map(|r| r.project.as_str()).collect();
    assert_eq!(names, vec!["a", "b", "c"]);
    assert_eq!(rows[0].score, 3);
    assert_eq!(rows[2].created_at, Timestamp { secs: 10, nanos: 5 });
    assert_eq!(rows[1].id, 7);
}
