use ingat::domain::errors::ErrorKind;
use ingat::domain::models::{
    ContextEmbedding, ContextKind, ContextRecord, QueryFilters, Timestamp,
};
use ingat::domain::models::ContextSummary;
use ingat::infrastructure::http_client::remote_store::{
    decode_hit, decode_hits, forward, read_hit, RawHit, RemoteAnswer, RemoteCall,
    RemoteVectorStore,
};
use ingat::infrastructure::http_client::{
    get_health_url, get_service_url, handle_http_error, is_healthy, ErrorResponse, HttpFailure,
    DEFAULT_HOST, DEFAULT_PORT,
};

#[test]
fn test_remote_store_creation() {
    let store = RemoteVectorStore::new("localhost", 3200);
    assert!(store.api_url("test").contains("localhost:3200"));
    assert_eq!(store.api_url("test"), "http://localhost:3200/api/test");
    assert_eq!(store.health_url(), "http://localhost:3200/health");
}

#[test]
fn service_addresses() {
    assert_eq!(get_service_url(DEFAULT_HOST, DEFAULT_PORT), "http://127.0.0.1:3200");
    assert_eq!(get_service_url("h", 0), "http://h:0");
    assert_eq!(get_service_url("h", 65535), "http://h:65535");
    assert_eq!(get_health_url("::1", 80), "http://::1:80/health");
}

#[test]
fn an_owner_is_healthy_only_if_it_says_so_with_success() {
    assert!(is_healthy(200, Some("healthy")));
    assert!(!is_healthy(200, Some("degraded")));
    assert!(!is_healthy(200, Some("Healthy")));
    assert!(!is_healthy(200, None));
    assert!(!is_healthy(204, Some("healthy")));
    assert!(!is_healthy(500, Some("healthy")));
}

#[test]
fn failures_are_put_into_words() {
    let body = ErrorResponse { error: "boom".to_string(), code: "SAVE_FAILED".to_string() };
    assert_eq!(
        handle_http_error(HttpFailure::Status { code: 500, body: Some(body) }),
        "HTTP 500 - SAVE_FAILED: boom"
    );
    assert_eq!(handle_http_error(HttpFailure::Status { code: 404, body: None }), "HTTP error: 404");
    assert_eq!(
        handle_http_error(HttpFailure::Transport("connection refused".to_string())),
        "Transport error: connection refused"
    );
}

#[test]
fn listings_are_asked_for_with_encoded_project_and_limit() {
    let store = RemoteVectorStore::new("127.0.0.1", 3200);
    assert_eq!(store.recent_url(None, 8), "http://127.0.0.1:3200/api/contexts?limit=8");
    assert_eq!(
        store.recent_url(Some("my project/α&b=c"), 50),
        "http://127.0.0.1:3200/api/contexts?project=my%20project%2F%CE%B1%26b%3Dc&limit=50"
    );
    assert_eq!(
        store.recent_url(Some("plain-Name_1.~"), 1),
        "http://127.0.0.1:3200/api/contexts?project=plain-Name_1.~&limit=1"
    );
}

fn raw() -> RawHit {
    RawHit {
        score: Some(0.75f32.to_bits()),
        id: Some("550e8400-e29b-41d4-a716-446655440000".to_string()),
        project: Some("demo".to_string()),
        ide: None,
        file_path: Some("src/a.rs".to_string()),
        language: None,
        summary: Some("s".to_string()),
        body: None,
        tags: Some(vec!["bug-fix".to_string()]),
        kind: Some(ContextKind::FixHistory),
        created_at: Some(Timestamp { secs: 1_700_000_000, nanos: 42 }),
    }
}

#[test]
fn hits_are_decoded_with_defaults() {
    let (record, score) = decode_hit(raw()).unwrap();
    assert_eq!(record.id, 0x550e8400_e29b_41d4_a716_446655440000);
    assert_eq!(score, 0.75f32.to_bits());
    assert_eq!(record.project, "demo");
    assert_eq!(record.ide, "");
    assert_eq!(record.file_path.as_deref(), Some("src/a.rs"));
    assert_eq!(record.language, None);
    assert_eq!(record.summary, "s");
    assert_eq!(record.body, "");
    assert_eq!(record.tags, vec!["bug-fix"]);
    assert_eq!(record.kind, ContextKind::FixHistory);
    assert_eq!(record.embedding.model, "remote");
    assert_eq!(record.embedding.dims(), 0);
    assert_eq!(record.created_at, Timestamp { secs: 1_700_000_000, nanos: 42 });

    let mut no_score = raw();
    no_score.score = None;
    no_score.tags = None;
    no_score.id = Some("550E8400E29B41D4A716446655440000".to_string());
    let (record, score) = decode_hit(no_score).unwrap();
    assert_eq!(score, 0);
    assert!(record.tags.is_empty());
    assert_eq!(record.id, 0x550e8400_e29b_41d4_a716_446655440000);
}

#[test]
fn hits_without_identity_kind_or_time_do_not_count() {
    let mut h = raw();
    h.id = None;
    assert!(decode_hit(h).is_none());
    let mut h = raw();
    h.id = Some("not-a-uuid".to_string());
    assert!(decode_hit(h).is_none());
    let mut h = raw();
    h.id = Some("".to_string());
    assert!(decode_hit(h).is_none());
    let mut h = raw();
    h.kind = None;
    assert!(decode_hit(h).is_none());
    let mut h = raw();
    h.created_at = None;
    assert!(decode_hit(h).is_none());

    let mut second = raw();
    second.id = Some("00000000-0000-0000-0000-000000000002".to_string());
    let mut broken = raw();
    broken.kind = None;
    let hits = decode_hits(vec![raw(), broken, second]);
    assert_eq!(hits.len(), 2);
    assert_eq!(hits[1].0.id, 2);
    assert!(decode_hits(vec![]).is_empty());
}

#[test]
fn payloads_repeat_the_record_and_the_query() {
    let store = RemoteVectorStore::new("h", 1);
    let record = ContextRecord::assemble(
        9,
        Timestamp { secs: 1, nanos: 2 },
        "demo",
        "zed",
        Some("f".to_string()),
        Some("rust".to_string()),
        "s".to_string(),
        "b".to_string(),
        vec!["t".to_string()],
        ContextKind::Other("x".to_string()),
        ContextEmbedding::new("m", vec![1, 2]),
    );
    let p = store.persist_payload(&record);
    assert_eq!((p.project.as_str(), p.ide.as_str(), p.summary.as_str(), p.body.as_str()), ("demo", "zed", "s", "b"));
    assert_eq!(p.file_path.as_deref(), Some("f"));
    assert_eq!(p.language.as_deref(), Some("rust"));
    assert_eq!(p.tags, vec!["t"]);
    assert_eq!(p.kind, ContextKind::Other("x".to_string()));

    let filters = QueryFilters {
        project: Some("demo".to_string()),
        kind: Some(ContextKind::ToolLog),
        tag: Some("t".to_string()),
        ide: Some("zed".to_string()),
    };
    let s = store.search_payload(&record.embedding, 5, &filters);
    assert_eq!(s.prompt, "");
    assert_eq!(s.embedding, vec![1, 2]);
    assert_eq!(s.limit, 5);
    assert_eq!(s.filters.project.as_deref(), Some("demo"));
    assert_eq!(s.filters.kind, Some(ContextKind::ToolLog));
    assert_eq!(s.filters.tag.as_deref(), Some("t"));
    assert_eq!(s.filters.ide.as_deref(), Some("zed"));
    assert_eq!(store.projects_url(), "http://h:1/api/projects");
}

#[test]
fn remote_failures_are_storage_errors() {
    let cases = [
        (RemoteCall::Persist, "storage failure: Failed to save context: x"),
        (RemoteCall::Search, "storage failure: Search failed: x"),
        (RemoteCall::ReadSearch, "storage failure: Failed to parse search response: x"),
        (RemoteCall::List, "storage failure: Failed to list contexts: x"),
        (RemoteCall::ReadList, "storage failure: Failed to parse list response: x"),
        (RemoteCall::Projects, "storage failure: Failed to list projects: x"),
        (RemoteCall::ReadProjects, "storage failure: Failed to parse projects response: x"),
        (RemoteCall::Ping, "storage failure: Health check failed: x"),
    ];
    for (call, text) in cases {
        let e = RemoteVectorStore::failure(call, "x");
        assert_eq!(e.kind(), ErrorKind::Storage);
        assert_eq!(e.to_string(), text);
    }
    assert_eq!(
        RemoteVectorStore::malformed_search_response().to_string(),
        "storage failure: Invalid search response format"
    );
    assert!(RemoteVectorStore::ping_result(200).is_ok());
    assert_eq!(
        RemoteVectorStore::ping_result(503).unwrap_err().to_string(),
        "storage failure: Remote service is not healthy"
    );
}

#[test]
fn hits_are_read_from_json() {
    let item: serde_json::Value = serde_json::from_str(
        r#"{"id":"00000000-0000-0000-0000-00000000002a","project":"demo","summary":"s",
            "body":7,"language":null,"score":0.5,"kind":"ToolLog","extra":"x"}"#,
    )
    .unwrap();
    let raw = read_hit(
        &item,
        Some(0.5f32.to_bits()),
        None,
        Some(ContextKind::ToolLog),
        Some(Timestamp { secs: 3, nanos: 4 }),
    );
    assert_eq!(raw.id.as_deref(), Some("00000000-0000-0000-0000-00000000002a"));
    assert_eq!(raw.project.as_deref(), Some("demo"));
    assert_eq!(raw.summary.as_deref(), Some("s"));
    assert_eq!(raw.body, None);
    assert_eq!(raw.language, None);
    assert_eq!(raw.ide, None);
    assert_eq!(raw.file_path, None);
    assert_eq!(raw.tags, None);
    let (record, score) = decode_hit(raw).unwrap();
    assert_eq!(record.id, 42);
    assert_eq!(record.body, "");
    assert_eq!(f32::from_bits(score), 0.5);
    assert_eq!(record.kind, ContextKind::ToolLog);
    let not_an_object = read_hit(&serde_json::Value::Null, None, None, None, None);
    assert_eq!(not_an_object.id, None);
    assert!(decode_hit(not_an_object).is_none());
}

#[test]
fn the_proxy_names_the_projects_that_the_owner_answers() {
    let store = RemoteVectorStore::new("127.0.0.1", 3200);
    assert_eq!(store.projects_url(), "http://127.0.0.1:3200/api/projects");
    let names = vec!["alpha".to_string(), "mid-dle".to_string(), "zeta".to_string()];
    assert_eq!(store.projects(RemoteAnswer::Read(names.clone())).unwrap(), names);
    assert!(store.projects(RemoteAnswer::Read(vec![])).unwrap().is_empty());
    let e = store.projects(RemoteAnswer::Failed("connection refused".to_string())).unwrap_err();
    assert_eq!(e.kind(), ErrorKind::Storage);
    assert_eq!(e.to_string(), "storage failure: Failed to list projects: connection refused");
    let e = store.projects(RemoteAnswer::Unreadable("expected a list".to_string())).unwrap_err();
    assert_eq!(e.kind(), ErrorKind::Storage);
    assert_eq!(
        e.to_string(),
        "storage failure: Failed to parse projects response: expected a list"
    );
}

#[test]
fn the_proxy_reads_the_answers_of_the_owner() {
    let store = RemoteVectorStore::new("h", 1);
    assert!(store.persist(Ok(())).is_ok());
    assert_eq!(
        store.persist(Err("status 500".to_string())).unwrap_err().to_string(),
        "storage failure: Failed to save context: status 500"
    );

    let mut second = raw();
    second.id = Some("00000000-0000-0000-0000-000000000002".to_string());
    let mut broken = raw();
    broken.created_at = None;
    let hits = store.search(RemoteAnswer::Read(Some(vec![raw(), broken, second]))).unwrap();
    assert_eq!(hits.len(), 2);
    assert_eq!(hits[0].0.id, 0x550e8400_e29b_41d4_a716_446655440000);
    assert_eq!(hits[1].0.id, 2);
    assert_eq!(hits[0].1, 0.75f32.to_bits());
    assert!(store.search(RemoteAnswer::Read(Some(vec![]))).unwrap().is_empty());
    assert_eq!(
        store.search(RemoteAnswer::Read(None)).unwrap_err().to_string(),
        "storage failure: Invalid search response format"
    );
    assert_eq!(
        store.search(RemoteAnswer::Failed("timeout".to_string())).unwrap_err().to_string(),
        "storage failure: Search failed: timeout"
    );
    assert_eq!(
        store.search(RemoteAnswer::Unreadable("eof".to_string())).unwrap_err().to_string(),
        "storage failure: Failed to parse search response: eof"
    );

    let summary = ContextSummary {
        id: 5,
        project: "demo".to_string(),
        summary: "s".to_string(),
        kind: ContextKind::Discussion,
        tags: vec!["t".to_string()],
        created_at: Timestamp { secs: 9, nanos: 1 },
    };
    let listed = store.recent(RemoteAnswer::Read(vec![summary.clone()])).unwrap();
    assert_eq!(format!("{:?}", listed), format!("{:?}", vec![summary]));
    assert_eq!(
        store.recent(RemoteAnswer::Failed("x".to_string())).unwrap_err().to_string(),
        "storage failure: Failed to list contexts: x"
    );
    assert_eq!(
        store.recent(RemoteAnswer::Unreadable("x".to_string())).unwrap_err().to_string(),
        "storage failure: Failed to parse list response: x"
    );

    assert!(store.ping(Ok(200)).is_ok());
    assert_eq!(
        store.ping(Ok(204)).unwrap_err().to_string(),
        "storage failure: Remote service is not healthy"
    );
    assert_eq!(
        store.ping(Err("refused".to_string())).unwrap_err().to_string(),
        "storage failure: Health check failed: refused"
    );
    let kept: Result<u8, _> = forward(RemoteCall::List, RemoteCall::ReadList, RemoteAnswer::Read(7u8));
    assert_eq!(kept.unwrap(), 7);
}
