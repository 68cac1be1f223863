use ingat::domain::errors::{DomainError, ErrorKind};
use ingat::domain::models::{
    score_order_key, ContextEmbedding, ContextKind, ContextRecord, QueryFilters, Timestamp,
};
use ingat::infrastructure::storage::engine::{
    check_dimensions, check_pair, distinct_projects, is_zero_vector, engine_failure, rank_scored, recent_summaries,
    score_candidates, search_records, select_matching, EngineStep, CACHE_CAPACITY, CONTEXTS_TREE,
};
use ingat::infrastructure::storage::sled_store::{Scan, SledVectorStore, StepFailure};
use ingat::ranking::{reversed, top_ranked};

fn record(id: u128, project: &str, secs: i64, vector: &[f32]) -> ContextRecord {
    ContextRecord::assemble(
        id,
        Timestamp { secs, nanos: 0 },
        project,
        "ide",
        None,
        None,
        format!("summary {}", id),
        "body".to_string(),
        vec![],
        ContextKind::CodeSnippet,
        ContextEmbedding::new("m", vector.iter().map(|v| v.to_bits()).collect()),
    )
}

fn first_component(_q: &Vec<u32>, c: &Vec<u32>) -> Result<u32, DomainError> {
    if f32::from_bits(c[0]) == 0.0 {
        return Err(DomainError::embedding("cannot compute cosine similarity with zero vector"));
    }
    Ok(c[0])
}

fn query() -> ContextEmbedding {
    ContextEmbedding::new("m", vec![1.0f32.to_bits(), 0.0f32.to_bits()])
}

fn ids(found: &[(ContextRecord, u32)]) -> Vec<u128> {
    found.iter().map(|(r, _)| r.id).collect()
}

#[test]
fn score_order_is_the_total_order_of_floats() {
    let values = [
        f32::NEG_INFINITY,
        -1.0,
        -0.5,
        -f32::MIN_POSITIVE,
        -0.0,
        0.0,
        f32::MIN_POSITIVE,
        0.25,
        0.999_999_9,
        1.0,
        f32::INFINITY,
        f32::NAN,
        -f32::NAN,
    ];
    for a in values {
        for b in values {
            assert_eq!(
                score_order_key(a.to_bits()).cmp(&score_order_key(b.to_bits())),
                a.total_cmp(&b),
                "{:?} {:?}",
                a,
                b
            );
        }
    }
    assert_eq!(score_order_key(0), 0);
    assert_eq!(score_order_key(0x8000_0000), -1);
    assert_eq!(score_order_key(0x7fff_ffff), 0x7fff_ffff);
    assert_eq!(score_order_key(0xffff_ffff), -0x8000_0000);
}

#[test]
fn search_ranks_by_descending_score_and_cuts() {
    let records = vec![
        record(1, "p", 1, &[0.2, 0.0]),
        record(2, "p", 2, &[0.9, 0.0]),
        record(3, "p", 3, &[-0.5, 0.0]),
        record(4, "p", 4, &[0.9, 0.0]),
        record(5, "p", 5, &[0.5, 0.0]),
    ];
    let all = search_records(records.clone(), &query(), 10, &QueryFilters::default(), &first_component).unwrap();
    assert_eq!(ids(&all), vec![2, 4, 5, 1, 3]);
    assert_eq!(f32::from_bits(all[0].1), 0.9);
    let top = search_records(records.clone(), &query(), 2, &QueryFilters::default(), &first_component).unwrap();
    assert_eq!(ids(&top), vec![2, 4]);
    let three = search_records(records.clone(), &query(), 3, &QueryFilters::default(), &first_component).unwrap();
    assert_eq!(ids(&three), vec![2, 4, 5]);
    let none = search_records(records, &query(), 0, &QueryFilters::default(), &first_component).unwrap();
    assert!(none.is_empty());
    let empty = search_records(vec![], &query(), 5, &QueryFilters::default(), &first_component).unwrap();
    assert!(empty.is_empty());
}

#[test]
fn search_scores_only_what_passes_the_filters() {
    let records = vec![
        record(1, "keep", 1, &[0.2, 0.0]),
        record(2, "drop", 2, &[0.0, 0.0]),
        record(3, "drop", 3, &[0.7]),
        record(4, "keep", 4, &[0.4, 0.0]),
    ];
    let filters = QueryFilters { project: Some("keep".to_string()), ..QueryFilters::default() };
    let found = search_records(records.clone(), &query(), 10, &filters, &first_component).unwrap();
    assert_eq!(ids(&found), vec![4, 1]);
    assert_eq!(ids(&select_matching(records.clone(), &filters).into_iter().map(|r| (r, 0)).collect::<Vec<_>>()), vec![1, 4]);

    let e = search_records(records.clone(), &query(), 10, &QueryFilters::default(), &first_component).unwrap_err();
    assert_eq!(e.to_string(), "embedding mismatch: cannot compute cosine similarity with zero vector");
    let only_short = QueryFilters { project: Some("drop".to_string()), ..QueryFilters::default() };
    let e = search_records(vec![records[2].clone()], &query(), 10, &only_short, &first_component).unwrap_err();
    assert_eq!(e.kind(), ErrorKind::Embedding);
    assert_eq!(e.to_string(), "embedding mismatch: embedding dimension mismatch: query 2 vs candidate 1");
}

#[test]
fn vectors_of_other_length_are_an_embedding_error() {
    assert!(check_dimensions(256, 256).is_ok());
    assert!(check_dimensions(0, 0).is_ok());
    let e = check_dimensions(384, 256).unwrap_err();
    assert_eq!(e.kind(), ErrorKind::Embedding);
    assert_eq!(e.message(), "embedding dimension mismatch: query 384 vs candidate 256");
    let scored = score_candidates(vec![record(1, "p", 1, &[0.5, 0.5])], &query(), &first_component).unwrap();
    assert_eq!(scored[0].1, 0.5f32.to_bits());
}

#[test]
fn zero_vectors_are_an_embedding_error() {
    let bits = |v: &[f32]| v.iter().map(|x| x.to_bits()).collect::<Vec<u32>>();
    assert!(is_zero_vector(&bits(&[0.0, -0.0, 0.0])));
    assert!(is_zero_vector(&vec![]));
    assert!(!is_zero_vector(&bits(&[0.0, 1e-30])));
    assert!(!is_zero_vector(&bits(&[f32::NAN])));
    assert!(check_pair(&bits(&[1.0, 0.0]), &bits(&[0.0, 1.0])).is_ok());
    for (q, c) in [(vec![0.0f32, 0.0], vec![1.0f32, 0.0]), (vec![1.0, 0.0], vec![-0.0, 0.0]), (vec![], vec![])] {
        let e = check_pair(&bits(&q), &bits(&c)).unwrap_err();
        assert_eq!(e.kind(), ErrorKind::Embedding);
        assert_eq!(e.message(), "cannot compute cosine similarity with zero vector");
    }
    let e = check_pair(&bits(&[0.0]), &bits(&[0.0, 0.0])).unwrap_err();
    assert_eq!(e.message(), "embedding dimension mismatch: query 1 vs candidate 2");

    let always = |_q: &Vec<u32>, c: &Vec<u32>| -> Result<u32, DomainError> { Ok(c[0]) };
    let records = vec![record(1, "p", 1, &[0.5, 0.0]), record(2, "p", 2, &[0.0, 0.0])];
    let e = search_records(records.clone(), &query(), 5, &QueryFilters::default(), &always).unwrap_err();
    assert_eq!(e.to_string(), "embedding mismatch: cannot compute cosine similarity with zero vector");
    let zero_query = ContextEmbedding::new("m", bits(&[0.0, 0.0]));
    let e = search_records(records, &zero_query, 5, &QueryFilters::default(), &always).unwrap_err();
    assert_eq!(e.kind(), ErrorKind::Embedding);
    let none = search_records(vec![], &zero_query, 5, &QueryFilters::default(), &always).unwrap();
    assert!(none.is_empty());
}

#[test]
fn ranking_is_stable_and_never_longer_than_the_limit() {
    let scored: Vec<(ContextRecord, u32)> = [0.5f32, 0.1, 0.5, 0.9, 0.1, 0.5, -0.0, 0.0]
        .iter()
        .enumerate()
        .map(|(i, s)| (record(i as u128, "p", 0, &[0.0]), s.to_bits()))
        .collect();
    for limit in 0..=10usize {
        let out = rank_scored(scored.clone(), limit);
        let mut expected = scored.clone();
        expected.sort_by(|a, b| f32::from_bits(b.1).total_cmp(&f32::from_bits(a.1)));
        expected.truncate(limit);
        assert_eq!(ids(&out), ids(&expected), "limit {}", limit);
    }
    assert_eq!(ids(&rank_scored(scored, 8)), vec![3, 0, 2, 5, 1, 4, 7, 6]);
}

#[test]
fn ranking_agrees_with_a_stable_sort_on_many_inputs() {
    let mut seed: u64 = 0x9e37_79b9_7f4a_7c15;
    for round in 0..200usize {
        let len = round % 23;
        let mut scored = Vec::new();
        for i in 0..len {
            seed = seed.wrapping_mul(6364136223846793005).wrapping_add(1442695040888963407);
            let bits = ((seed >> 33) as u32 % 7).wrapping_mul(0x2492_4925);
            scored.push((record(i as u128, "p", 0, &[0.0]), bits));
        }
        let limit = (seed >> 20) as usize % 12;
        let mut expected = scored.clone();
        expected.sort_by(|a, b| f32::from_bits(b.1).total_cmp(&f32::from_bits(a.1)));
        expected.truncate(limit);
        let out = top_ranked(scored, limit);
        assert_eq!(ids(&out), ids(&expected));
        assert_eq!(
            out.iter().map(|p| p.1).collect::<Vec<_>>(),
            expected.iter().map(|p| p.1).collect::<Vec<_>>()
        );
    }
    assert_eq!(reversed(vec![1, 2, 3]), vec![3, 2, 1]);
}

#[test]
fn recent_lists_latest_first() {
    let records = vec![
        record(1, "a", 10, &[0.0]),
        record(2, "b", 30, &[0.0]),
        record(3, "a", 20, &[0.0]),
        record(4, "a", 30, &[0.0]),
        record(5, "b", 5, &[0.0]),
    ];
    let all: Vec<u128> = recent_summaries(&records, None, 50).iter().map(|s| s.id).collect();
    assert_eq!(all, vec![2, 4, 3, 1, 5]);
    let a: Vec<u128> = recent_summaries(&records, Some("a"), 50).iter().map(|s| s.id).collect();
    assert_eq!(a, vec![4, 3, 1]);
    let a2: Vec<u128> = recent_summaries(&records, Some("a"), 2).iter().map(|s| s.id).collect();
    assert_eq!(a2, vec![4, 3]);
    assert!(recent_summaries(&records, Some("none"), 5).is_empty());
    assert!(recent_summaries(&records, None, 0).is_empty());
    let s = &recent_summaries(&records, Some("b"), 1)[0];
    assert_eq!(s.summary, "summary 2");
    assert_eq!(s.created_at, Timestamp { secs: 30, nanos: 0 });
}

#[test]
fn projects_are_distinct_and_ascending() {
    let records: Vec<ContextRecord> = ["zeta", "alpha", "Zeta", "zeta", "", "alpha", "é", "ab", "a"]
        .iter()
        .enumerate()
        .map(|(i, p)| record(i as u128, p, 0, &[0.0]))
        .collect();
    let expected: Vec<String> = records
        .iter()
        .map(|r| r.project.clone())
        .collect::<std::collections::BTreeSet<_>>()
        .into_iter()
        .collect();
    assert_eq!(distinct_projects(&records), expected);
    assert_eq!(distinct_projects(&records), vec!["", "Zeta", "a", "ab", "alpha", "zeta", "é"]);
    assert!(distinct_projects(&vec![]).is_empty());
}

#[test]
fn engine_failures_are_storage_errors() {
    let cases = [
        (EngineStep::CreateDirectory, "storage failure: failed to create data directory x"),
        (EngineStep::Open, "storage failure: failed to open sled db: x"),
        (EngineStep::OpenTree, "storage failure: failed to open contexts tree: x"),
        (EngineStep::Serialize, "storage failure: serialization error: x"),
        (EngineStep::Deserialize, "storage failure: deserialization error: x"),
        (EngineStep::Read, "storage failure: failed to read context record: x"),
        (EngineStep::Persist, "storage failure: failed to persist context: x"),
        (EngineStep::FlushTree, "storage failure: failed to flush contexts: x"),
        (EngineStep::FlushDatabase, "storage failure: failed to flush db: x"),
    ];
    for (step, text) in cases {
        let e = engine_failure(step, "x");
        assert_eq!(e.kind(), ErrorKind::Storage);
        assert_eq!(e.to_string(), text);
    }
    assert_eq!(CONTEXTS_TREE, "contexts");
    assert_eq!(CACHE_CAPACITY, 67_108_864);
}

fn store() -> SledVectorStore {
    SledVectorStore::open("/data/ingat", Ok(())).unwrap()
}

fn broken(step: EngineStep, detail: &str) -> Option<StepFailure> {
    Some(StepFailure { step, detail: detail.to_string() })
}

fn shelf() -> Vec<ContextRecord> {
    vec![
        record(1, "beta", 10, &[0.5, 0.0]),
        record(2, "alpha", 30, &[0.9, 0.0]),
        record(3, "beta", 20, &[0.5, 1.0]),
        record(4, "alpha", 30, &[0.7, 0.0]),
    ]
}

#[test]
fn the_store_opens_or_says_which_step_failed() {
    assert_eq!(store().directory(), "/data/ingat");
    let failures = [
        (EngineStep::CreateDirectory, "\"/x\": denied", "storage failure: failed to create data directory \"/x\": denied"),
        (EngineStep::Open, "locked", "storage failure: failed to open sled db: locked"),
        (EngineStep::OpenTree, "corrupt", "storage failure: failed to open contexts tree: corrupt"),
    ];
    for (step, detail, words) in failures {
        let failure = StepFailure { step, detail: detail.to_string() };
        assert_eq!(failure.to_error().to_string(), words);
        let e = SledVectorStore::open("/x", Err(failure)).unwrap_err();
        assert_eq!(e.kind(), ErrorKind::Storage);
        assert_eq!(e.to_string(), words);
    }
}

#[test]
fn the_store_searches_what_a_scan_read() {
    let found = store()
        .search(
            Scan { records: shelf(), failure: None },
            &query(),
            3,
            &QueryFilters::default(),
            &first_component,
        )
        .unwrap();
    assert_eq!(ids(&found), vec![2, 4, 1]);
    assert_eq!(found[0].1, 0.9f32.to_bits());
    let filters = QueryFilters { project: Some("beta".to_string()), ..QueryFilters::default() };
    let found = store()
        .search(Scan { records: shelf(), failure: None }, &query(), 10, &filters, &first_component)
        .unwrap();
    assert_eq!(ids(&found), vec![1, 3]);
    let found = store()
        .search(
            Scan { records: shelf(), failure: None },
            &query(),
            0,
            &QueryFilters::default(),
            &first_component,
        )
        .unwrap();
    assert!(found.is_empty());
}

#[test]
fn a_search_reports_the_failure_that_came_first() {
    let e = store()
        .search(
            Scan { records: shelf(), failure: broken(EngineStep::Read, "io") },
            &query(),
            3,
            &QueryFilters::default(),
            &first_component,
        )
        .unwrap_err();
    assert_eq!(e.to_string(), "storage failure: failed to read context record: io");
    let e = store()
        .search(
            Scan { records: vec![], failure: broken(EngineStep::Deserialize, "eof") },
            &query(),
            3,
            &QueryFilters::default(),
            &first_component,
        )
        .unwrap_err();
    assert_eq!(e.to_string(), "storage failure: deserialization error: eof");

    let mut records = shelf();
    records.push(record(5, "beta", 40, &[1.0]));
    let e = store()
        .search(
            Scan { records, failure: broken(EngineStep::Read, "io") },
            &query(),
            3,
            &QueryFilters::default(),
            &first_component,
        )
        .unwrap_err();
    assert_eq!(e.kind(), ErrorKind::Embedding);
    assert_eq!(e.to_string(), "embedding mismatch: embedding dimension mismatch: query 2 vs candidate 1");

    let mut records = shelf();
    records.push(record(5, "beta", 40, &[1.0]));
    let filters = QueryFilters { project: Some("alpha".to_string()), ..QueryFilters::default() };
    let e = store()
        .search(
            Scan { records, failure: broken(EngineStep::Read, "io") },
            &query(),
            3,
            &filters,
            &first_component,
        )
        .unwrap_err();
    assert_eq!(e.kind(), ErrorKind::Storage);
}

#[test]
fn the_store_lists_what_a_scan_read() {
    let listed = store().recent(Scan { records: shelf(), failure: None }, None, 3).unwrap();
    assert_eq!(listed.iter().map(|s| s.id).collect::<Vec<_>>(), vec![2, 4, 3]);
    let listed =
        store().recent(Scan { records: shelf(), failure: None }, Some("beta"), 10).unwrap();
    assert_eq!(listed.iter().map(|s| s.id).collect::<Vec<_>>(), vec![3, 1]);
    assert!(listed.iter().all(|s| s.project == "beta"));
    let e = store()
        .recent(Scan { records: shelf(), failure: broken(EngineStep::Read, "io") }, None, 3)
        .unwrap_err();
    assert_eq!(e.to_string(), "storage failure: failed to read context record: io");

    let names = store().projects(Scan { records: shelf(), failure: None }).unwrap();
    assert_eq!(names, vec!["alpha", "beta"]);
    assert!(store().projects(Scan { records: vec![], failure: None }).unwrap().is_empty());
    let e = store()
        .projects(Scan { records: shelf(), failure: broken(EngineStep::Deserialize, "eof") })
        .unwrap_err();
    assert_eq!(e.to_string(), "storage failure: deserialization error: eof");
}

#[test]
fn the_store_reports_writes_and_flushes() {
    assert!(store().persist(Ok(())).is_ok());
    let cases = [
        (EngineStep::Serialize, "storage failure: serialization error: x"),
        (EngineStep::Persist, "storage failure: failed to persist context: x"),
        (EngineStep::FlushTree, "storage failure: failed to flush contexts: x"),
    ];
    for (step, words) in cases {
        let e = store().persist(Err(StepFailure { step, detail: "x".to_string() })).unwrap_err();
        assert_eq!(e.to_string(), words);
    }
    assert!(store().ping(Ok(())).is_ok());
    assert_eq!(
        store().ping(Err("disk full".to_string())).unwrap_err().to_string(),
        "storage failure: failed to flush db: disk full"
    );
}
