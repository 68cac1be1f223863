use ingat::application::dtos::default_limit;
use ingat::bootstrap::{
    failure_code, http_status, parse_limit, plan_embedder, plan_startup, select_backend,
    EmbedderPlan, EngineSetup, Mode, RestCall, StartupPlan, STARTUP_SETTLE_MILLIS, STATS_LIMIT,
};
use ingat::domain::errors::{DomainError, ErrorKind};
use ingat::infrastructure::embeddings::fastembed_engine::{
    accept_vector, all_models, model_names, parse_model, resolve_model, EmbeddingModel,
    FastEmbedEngine, Inference, SetupStep,
};
use ingat::infrastructure::embeddings::simple_engine::{bucket_counts, check_request};
use ingat::infrastructure::embeddings::{NoOpEmbeddingEngine, SimpleEmbedEngine};
use ingat::application::services::EmbeddingEngine;
use ingat::settings::{
    available_backends, default_fastembed_model, default_simple_dim, default_simple_model,
    AppConfig, ConfigManager, EmbeddingBackend,
};
use ingat::{
    apply_model_override, build_backend_response, init_embedder, map_domain_error, select_mode,
};

fn simple(model: &str, dimensions: usize) -> EmbeddingBackend {
    EmbeddingBackend::Simple { model: model.to_string(), dimensions }
}

fn neural(model: &str) -> EmbeddingBackend {
    EmbeddingBackend::FastEmbed { model: model.to_string() }
}

#[test]
fn backends_describe_themselves() {
    let s = EmbeddingBackend::default();
    assert_eq!(s, simple("ingat/simple-hash", 256));
    assert_eq!(s.id(), "simple");
    assert_eq!(s.label(), "Deterministic Hash (offline)");
    assert_eq!(s.description(), "Small, deterministic vectors suitable for quick local testing.");
    assert!(!s.is_feature_gated());
    assert_eq!(s.model_name(), "ingat/simple-hash");
    assert_eq!(s.expected_dimensions(), Some(256));
    let f = neural("BAAI/bge-small-en-v1.5");
    assert_eq!(f.id(), "fastembed");
    assert_eq!(f.label(), "FastEmbed (semantic)");
    assert_eq!(f.description(), "High-quality semantic embeddings via fastembed/ONNX runtime.");
    assert!(f.is_feature_gated());
    assert_eq!(f.expected_dimensions(), None);
    assert_eq!(f.clone(), f);
    assert_ne!(f, s);
    assert_ne!(simple("m", 8), simple("m", 9));
}

#[test]
fn backends_are_selected_by_identifier() {
    assert_eq!(EmbeddingBackend::with_default_model("simple"), Some(EmbeddingBackend::default()));
    assert_eq!(
        EmbeddingBackend::with_default_model("fastembed"),
        Some(neural("BAAI/bge-small-en-v1.5"))
    );
    assert_eq!(EmbeddingBackend::with_default_model("Simple"), None);
    assert_eq!(EmbeddingBackend::with_default_model(""), None);
    assert_eq!(available_backends(), vec![neural("BAAI/bge-small-en-v1.5"), simple("ingat/simple-hash", 256)]);
    assert_eq!(default_simple_dim(), 256);
    assert_eq!(default_simple_model(), "ingat/simple-hash");
    assert_eq!(default_fastembed_model(), "BAAI/bge-small-en-v1.5");
    assert_eq!(default_limit(), 8);
}

#[test]
fn configuration_is_kept_and_changed() {
    let mut manager = ConfigManager::load(None);
    assert_eq!(manager.current().embedding, EmbeddingBackend::default());
    assert_eq!(AppConfig::default().embedding, EmbeddingBackend::default());
    let saved = manager.set_backend(neural("all-MiniLM-L6-v2"));
    assert_eq!(saved.embedding, neural("all-MiniLM-L6-v2"));
    assert_eq!(manager.current().embedding, neural("all-MiniLM-L6-v2"));
    let loaded = ConfigManager::load(Some(AppConfig { embedding: simple("x", 16) }));
    assert_eq!(loaded.current().embedding, simple("x", 16));
}

#[test]
fn overrides_replace_the_model_unless_blank() {
    assert_eq!(apply_model_override(simple("a", 8), None), simple("a", 8));
    assert_eq!(apply_model_override(simple("a", 8), Some("  ".to_string())), simple("a", 8));
    assert_eq!(apply_model_override(simple("a", 8), Some(" b ".to_string())), simple("b", 8));
    assert_eq!(apply_model_override(neural("a"), Some("nomic-embed-text-v1".to_string())), neural("nomic-embed-text-v1"));
}

#[test]
fn options_show_the_active_backend() {
    let response = build_backend_response(simple("custom/hash", 64), Some(64));
    assert_eq!(response.active, "simple");
    assert_eq!(response.options.len(), 2);
    let (f, s) = (&response.options[0], &response.options[1]);
    assert_eq!((f.id.as_str(), f.model.as_str(), f.dimensions, f.feature_gated), ("fastembed", "BAAI/bge-small-en-v1.5", None, true));
    assert_eq!(f.label, "FastEmbed (semantic)");
    assert_eq!((s.id.as_str(), s.model.as_str(), s.dimensions, s.feature_gated), ("simple", "custom/hash", Some(64), false));
    assert_eq!(s.description, "Small, deterministic vectors suitable for quick local testing.");

    let response = build_backend_response(simple("custom/hash", 64), None);
    assert_eq!(response.options[1].dimensions, Some(64));
    let response = build_backend_response(neural("bge-base-en-v1.5"), Some(768));
    assert_eq!(response.active, "fastembed");
    assert_eq!(response.options[0].model, "bge-base-en-v1.5");
    assert_eq!(response.options[0].dimensions, Some(768));
    assert_eq!(response.options[1].model, "ingat/simple-hash");
    let response = build_backend_response(neural("bge-base-en-v1.5"), None);
    assert_eq!(response.options[0].dimensions, None);
}

#[test]
fn engines_are_set_up_for_backends() {
    let (setup, config) = init_embedder(&simple("m", 100)).unwrap();
    match setup {
        EngineSetup::Simple(engine) => {
            assert_eq!(engine.model(), "m");
            assert_eq!(engine.dims(), 100);
        }
        other => panic!("unexpected setup {:?}", other),
    }
    assert_eq!(config.embedding_model, "m");
    assert_eq!(config.default_limit, 8);
    let e = init_embedder(&simple("m", 0)).unwrap_err();
    assert_eq!(e.to_string(), "validation error: embedding dimensions must be greater than zero");

    let (setup, config) = init_embedder(&neural(" bge-small-en-v1.5 ")).unwrap();
    match setup {
        EngineSetup::FastEmbed { label, model } => {
            assert_eq!(label, "bge-small-en-v1.5");
            assert_eq!(model, EmbeddingModel::BGESmallENV15);
        }
        other => panic!("unexpected setup {:?}", other),
    }
    assert_eq!(config.embedding_model, " bge-small-en-v1.5 ");
    assert_eq!(init_embedder(&neural("  ")).unwrap_err().to_string(), "validation error: fastembed model name cannot be empty");
    assert_eq!(init_embedder(&neural("gpt")).unwrap_err().to_string(), "unexpected error: Unknown embedding model: gpt");
}

#[test]
fn every_name_of_the_catalogue_is_known() {
    let models = all_models();
    assert_eq!(models.len(), 18);
    for m in models {
        let (a, b, c) = model_names(m);
        for name in [a, b, c] {
            assert_eq!(parse_model(name).unwrap(), m, "{}", name);
        }
        assert!(a.ends_with(b));
    }
    assert_eq!(parse_model("BAAI/bge-small-en-v1.5").unwrap(), EmbeddingModel::BGESmallENV15);
    assert_eq!(parse_model("ModernBERT-embed-large").unwrap(), EmbeddingModel::ModernBertEmbedLarge);
    assert_eq!(parse_model("GTELargeENV15").unwrap(), EmbeddingModel::GTELargeENV15);
    let e = parse_model("baai/bge-small-en-v1.5").unwrap_err();
    assert_eq!(e.kind(), ErrorKind::Other);
    assert_eq!(e.message(), "Unknown embedding model: baai/bge-small-en-v1.5");
    assert!(parse_model("").is_err());
    assert_eq!(resolve_model("\tall-MiniLM-L12-v2\n").unwrap(), ("all-MiniLM-L12-v2".to_string(), EmbeddingModel::AllMiniLML12V2));
}

#[test]
fn vectors_of_unexpected_length_are_refused() {
    assert_eq!(accept_vector(vec![1, 2, 3], 3).unwrap(), vec![1, 2, 3]);
    assert_eq!(accept_vector(vec![], 0).unwrap(), Vec::<u32>::new());
    let e = accept_vector(vec![1, 2, 3], 384).unwrap_err();
    assert_eq!(e.to_string(), "embedding mismatch: unexpected embedding dimension (expected 384, got 3)");
}

#[test]
fn requests_must_name_the_model_and_carry_text() {
    assert!(check_request("ingat/simple-hash", "INGAT/Simple-Hash", "x").is_ok());
    let neural_engine = FastEmbedEngine::try_new(" all-MiniLM-L6-v2 ", 384).unwrap();
    assert!(neural_engine.check("ALL-minilm-l6-V2", " x ").is_ok());
    let e = check_request("a", "b", "").unwrap_err();
    assert_eq!(e.to_string(), "embedding mismatch: engine initialised for `a` but `b` requested");
    let e = neural_engine.check("all-MiniLM-L6-v2", " \n").unwrap_err();
    assert_eq!(e.to_string(), "validation error: text payload cannot be empty");
    let e = neural_engine.check(" all-MiniLM-L6-v2 ", "x").unwrap_err();
    assert_eq!(
        e.to_string(),
        "embedding mismatch: engine initialised for `all-MiniLM-L6-v2` but ` all-MiniLM-L6-v2 ` requested"
    );
}

#[test]
fn a_neural_engine_checks_what_inference_returns() {
    let engine = FastEmbedEngine::try_new("bge-small-en-v1.5", 3).unwrap();
    assert_eq!(engine.dims(), 3);
    assert_eq!(engine.embedding_model(), EmbeddingModel::BGESmallENV15);
    assert_eq!(engine.accept(Inference::Vector(vec![7, 8, 9])).unwrap(), vec![7, 8, 9]);
    assert_eq!(
        engine.accept(Inference::Vector(vec![7])).unwrap_err().to_string(),
        "embedding mismatch: unexpected embedding dimension (expected 3, got 1)"
    );
    assert_eq!(
        engine.accept(Inference::Empty).unwrap_err().to_string(),
        "unexpected error: fastembed returned no embedding"
    );
    assert_eq!(
        engine.accept(Inference::Failed("out of memory".to_string())).unwrap_err().to_string(),
        "unexpected error: fastembed inference failed: out of memory"
    );
    assert_eq!(
        FastEmbedEngine::try_new("", 3).unwrap_err().to_string(),
        "validation error: fastembed model name cannot be empty"
    );
    assert_eq!(
        FastEmbedEngine::try_new("gpt", 3).unwrap_err().to_string(),
        "unexpected error: Unknown embedding model: gpt"
    );
    assert_eq!(
        FastEmbedEngine::setup_failure(SetupStep::Metadata, "m", "gone").to_string(),
        "unexpected error: unable to read metadata for fastembed model `m`: gone"
    );
    assert_eq!(
        FastEmbedEngine::setup_failure(SetupStep::Initialise, "m", "gone").to_string(),
        "unexpected error: failed to initialise fastembed model `m`: gone"
    );
}

#[test]
fn the_hash_engine_counts_tokens_per_bucket() {
    assert!(SimpleEmbedEngine::try_new("m", 0).is_err());
    assert_eq!(SimpleEmbedEngine::try_new("m", 1).unwrap().dims(), 8);
    assert_eq!(SimpleEmbedEngine::try_new("m", 8).unwrap().dims(), 8);
    assert_eq!(SimpleEmbedEngine::new("m", 4096).dims(), 4096);
    assert_eq!(SimpleEmbedEngine::new("m", 100_000).dims(), 4096);
    let engine = SimpleEmbedEngine::default();
    assert_eq!(engine.model(), "ingat/simple-hash");
    assert_eq!(engine.dims(), 256);
    assert_eq!(engine.tokenize("fix: null-check"), vec!["fix", "null", "check"]);

    let counts = engine.embed_counts("guard the guard, then guard again");
    assert_eq!(counts.len(), 256);
    assert_eq!(counts.iter().sum::<usize>(), 6);
    assert!(counts.iter().any(|c| *c >= 3));
    assert_eq!(engine.embed_counts("guard the guard, then guard again"), counts);
    assert_eq!(engine.embed_counts("... !!!").iter().sum::<usize>(), 0);
    let small = SimpleEmbedEngine::new("m", 8);
    let a = small.embed_counts("alpha");
    let b = small.embed_counts("alpha alpha");
    assert_eq!(a.iter().map(|c| c * 2).collect::<Vec<_>>(), b);

    assert_eq!(engine.token_counts("ingat/SIMPLE-hash", "a b").unwrap().iter().sum::<usize>(), 2);
    assert_eq!(engine.token_counts("other", "a b").unwrap_err().kind(), ErrorKind::Embedding);
    assert_eq!(engine.token_counts("ingat/simple-hash", "  ").unwrap_err().kind(), ErrorKind::Validation);
    assert_eq!(engine.token_counts("ingat/simple-hash", "...").unwrap(), vec![0; 256]);
}

#[test]
fn hashes_fall_into_buckets_by_remainder() {
    assert_eq!(bucket_counts(&vec![0, 8, 9, 17, 7, usize::MAX], 8), vec![2, 2, 0, 0, 0, 0, 0, 2]);
    assert_eq!(bucket_counts(&vec![], 3), vec![0, 0, 0]);
    assert_eq!(bucket_counts(&vec![5, 5, 5], 1), vec![3]);
}

#[test]
fn the_placeholder_engine_embeds_nothing() {
    let engine = NoOpEmbeddingEngine::for_remote_mode();
    let e = engine.embed("remote-proxy", "text").unwrap_err();
    assert_eq!(e.kind(), ErrorKind::Embedding);
    assert_eq!(
        e.message(),
        "embedding operation called on no-op engine; this should be handled by remote service"
    );
    assert_eq!(engine.dims("any"), Some(384));
    assert_eq!(NoOpEmbeddingEngine::new("m", 7).dims("m"), Some(7));
    assert_eq!(NoOpEmbeddingEngine::default().dims(""), Some(384));
}

#[test]
fn processes_come_up_as_proxy_or_owner() {
    assert_eq!(select_mode(true), Mode::Proxy);
    assert_eq!(select_mode(false), Mode::Owner);
    assert_eq!(map_domain_error(DomainError::storage("x")), "storage failure: x");
    assert_eq!(http_status(ErrorKind::Validation), 400);
    assert_eq!(http_status(ErrorKind::LimitExceeded), 400);
    assert_eq!(http_status(ErrorKind::NotFound), 404);
    assert_eq!(http_status(ErrorKind::Storage), 500);
    assert_eq!(http_status(ErrorKind::Embedding), 500);
    assert_eq!(http_status(ErrorKind::Other), 500);
    assert_eq!(parse_limit(Some("25")), Some(25));
    assert_eq!(parse_limit(Some("all")), None);
    assert_eq!(parse_limit(None), None);
}

#[test]
fn rest_failures_have_their_codes() {
    assert_eq!(failure_code(RestCall::Save), "SAVE_FAILED");
    assert_eq!(failure_code(RestCall::List), "LIST_FAILED");
    assert_eq!(failure_code(RestCall::Search), "SEARCH_FAILED");
    assert_eq!(STATS_LIMIT, 10_000);
}

#[test]
fn a_front_end_starts_an_owner_only_if_none_is_reachable() {
    assert_eq!(plan_startup(true), StartupPlan::UseRunningOwner);
    assert_eq!(plan_startup(false), StartupPlan::StartOwner);
    assert_eq!(STARTUP_SETTLE_MILLIS, 500);
}

#[test]
fn a_switch_selects_a_known_backend() {
    assert_eq!(select_backend("simple", None).unwrap(), EmbeddingBackend::default());
    assert_eq!(
        select_backend("simple", Some(" my/hash ".to_string())).unwrap(),
        simple("my/hash", 256)
    );
    assert_eq!(
        select_backend("fastembed", Some("".to_string())).unwrap(),
        neural("BAAI/bge-small-en-v1.5")
    );
    let e = select_backend("word2vec", None).unwrap_err();
    assert_eq!(e.kind(), ErrorKind::Validation);
    assert_eq!(e.message(), "unknown backend 'word2vec'");
}

#[test]
fn a_proxy_runs_the_placeholder_and_an_owner_the_engine() {
    for backend in [simple("m", 100), simple("m", 0), neural("gpt"), neural("bge-small-en-v1.5")] {
        let (plan, config) = plan_embedder(Mode::Proxy, &backend).unwrap();
        match plan {
            EmbedderPlan::Placeholder(engine) => {
                assert_eq!(engine.dims("any"), Some(384));
                assert_eq!(engine.embed("m", "text").unwrap_err().kind(), ErrorKind::Embedding);
            }
            other => panic!("unexpected plan {:?}", other),
        }
        assert_eq!(config.embedding_model, backend.model_name());
        assert_eq!(config.default_limit, 8);
    }
    let (plan, config) = plan_embedder(Mode::Owner, &simple("m", 100)).unwrap();
    match plan {
        EmbedderPlan::Engine(EngineSetup::Simple(engine)) => {
            assert_eq!(engine.model(), "m");
            assert_eq!(engine.dims(), 100);
        }
        other => panic!("unexpected plan {:?}", other),
    }
    assert_eq!(config.embedding_model, "m");
    let (plan, _) = plan_embedder(Mode::Owner, &neural("bge-small-en-v1.5")).unwrap();
    assert!(matches!(
        plan,
        EmbedderPlan::Engine(EngineSetup::FastEmbed { model: EmbeddingModel::BGESmallENV15, .. })
    ));
    assert_eq!(
        plan_embedder(Mode::Owner, &simple("m", 0)).unwrap_err().to_string(),
        "validation error: embedding dimensions must be greater than zero"
    );
    assert_eq!(
        plan_embedder(Mode::Owner, &neural("gpt")).unwrap_err().to_string(),
        "unexpected error: Unknown embedding model: gpt"
    );
}
