use worker_rs::config::{
    default_blpop_timeout, default_chunk_batch_size, default_embeddings_batch_size, default_embeddings_provider,
    default_failed_prefix, default_gemini_api_version, default_gemini_model, default_heartbeat_interval,
    default_http_port, default_llm_max_concurrency, default_llm_provider, default_llm_summary_max_tokens,
    default_llm_timeout_sec, default_log_level, default_max_retries, default_metrics_wait_log_interval,
    default_openai_model, default_preprocessing_examples, default_prometheus_port, default_queue_prefix,
    default_result_prefix, default_spike_history_ttl_sec, default_spike_prefix, RawSettings, Settings,
};
use worker_rs::embeddings::{build_embedding_adapter, EmbeddingBackend};
use worker_rs::llm::{build_llm_adapter, LlmBackend};
use worker_rs::logging::{parse_level, LogLevel};

fn defaults() -> RawSettings {
    RawSettings {
        redis_url: "redis://h".to_string(),
        worker_id: None,
        chunk_batch_size: default_chunk_batch_size(),
        http_port: default_http_port(),
        prometheus_port: default_prometheus_port(),
        log_level: default_log_level(),
        heartbeat_interval_sec: default_heartbeat_interval(),
        blpop_timeout_sec: default_blpop_timeout(),
        redis_queue_prefix: default_queue_prefix(),
        redis_result_prefix: default_result_prefix(),
        redis_failed_prefix: default_failed_prefix(),
        redis_spike_prefix: default_spike_prefix(),
        max_retries: default_max_retries(),
        metrics_wait_log_interval_sec: default_metrics_wait_log_interval(),
        preprocessing_examples: default_preprocessing_examples(),
        embeddings_provider: default_embeddings_provider(),
        llm_provider: default_llm_provider(),
        embedding_api_key: None,
        llm_api_key: None,
        gemini_api_key: None,
        openai_api_key: None,
        gemini_model: default_gemini_model(),
        gemini_api_version: default_gemini_api_version(),
        openai_model: default_openai_model(),
        llm_summary_max_tokens: default_llm_summary_max_tokens(),
        llm_timeout_sec: default_llm_timeout_sec(),
        embeddings_batch_size: default_embeddings_batch_size(),
        llm_max_concurrency: default_llm_max_concurrency(),
        spike_history_ttl_sec: default_spike_history_ttl_sec(),
    }
}

#[test]
fn default_values() {
    assert_eq!(default_chunk_batch_size(), 200);
    assert_eq!(default_http_port(), 8000);
    assert_eq!(default_prometheus_port(), 8001);
    assert_eq!(default_log_level(), "info");
    assert_eq!(default_heartbeat_interval(), 10);
    assert_eq!(default_blpop_timeout(), 5);
    assert_eq!(default_queue_prefix(), "queue:brand");
    assert_eq!(default_result_prefix(), "result:brand");
    assert_eq!(default_failed_prefix(), "failed:brand");
    assert_eq!(default_spike_prefix(), "spike:brand");
    assert_eq!(default_max_retries(), 3);
    assert_eq!(default_metrics_wait_log_interval(), 60);
    assert_eq!(default_preprocessing_examples(), 3);
    assert_eq!(default_embeddings_provider(), "local");
    assert_eq!(default_llm_provider(), "mock");
    assert_eq!(default_gemini_model(), "gemini-2.5-flash");
    assert_eq!(default_gemini_api_version(), "v1");
    assert_eq!(default_openai_model(), "gpt-4o-mini");
    assert_eq!(default_llm_summary_max_tokens(), 256);
    assert_eq!(default_llm_timeout_sec(), 30);
    assert_eq!(default_embeddings_batch_size(), 32);
    assert_eq!(default_llm_max_concurrency(), 4);
    assert_eq!(default_spike_history_ttl_sec(), 86_400);
}

#[test]
fn clamping_at_startup() {
    let mut raw = defaults();
    raw.chunk_batch_size = 0;
    raw.heartbeat_interval_sec = 0;
    raw.blpop_timeout_sec = 0;
    raw.metrics_wait_log_interval_sec = 0;
    raw.preprocessing_examples = 500;
    raw.llm_summary_max_tokens = 3;
    raw.llm_timeout_sec = 0;
    raw.embeddings_batch_size = 0;
    raw.llm_max_concurrency = 0;
    raw.spike_history_ttl_sec = 10;
    raw.log_level = "WARN".to_string();
    raw.embeddings_provider = "OpenAI".to_string();
    raw.llm_provider = "MOCK".to_string();
    let s = Settings::from_raw(raw, "gen");
    assert_eq!(s.chunk_batch_size, 1);
    assert_eq!(s.heartbeat_interval_secs, 1);
    assert_eq!(s.blpop_timeout_secs, 1);
    assert_eq!(s.metrics_wait_log_interval_secs, 1);
    assert_eq!(s.preprocessing_examples, 100);
    assert_eq!(s.llm_summary_max_tokens, 16);
    assert_eq!(s.llm_timeout_secs, 1);
    assert_eq!(s.embeddings_batch_size, 1);
    assert_eq!(s.llm_max_concurrency, 1);
    assert_eq!(s.spike_history_ttl_secs, 60);
    assert_eq!(s.log_level, "warn");
    assert_eq!(s.embeddings_provider, "openai");
    assert_eq!(s.llm_provider, "mock");
    let mut raw = defaults();
    raw.preprocessing_examples = 0;
    assert_eq!(Settings::from_raw(raw, "g").preprocessing_examples, 1);
}

#[test]
fn worker_id_choice() {
    let mut raw = defaults();
    raw.worker_id = Some("Worker-ABC".to_string());
    assert_eq!(Settings::from_raw(raw, "zzz").worker_id, "worker-abc");
    let mut raw = defaults();
    raw.worker_id = Some("   ".to_string());
    assert_eq!(Settings::from_raw(raw, "XYZ").worker_id, "worker-xyz");
    assert_eq!(Settings::from_raw(defaults(), "Q1").worker_id, "worker-q1");
    let random = Settings::from_raw_with_random_id(defaults());
    assert!(random.worker_id.starts_with("worker-"));
    assert_eq!(random.worker_id.len(), "worker-".len() + 36);
    let mut raw = defaults();
    raw.worker_id = Some("Fixed".to_string());
    assert_eq!(Settings::from_raw_with_random_id(raw).worker_id, "fixed");
    assert!(!Settings::from_raw(defaults(), "").worker_id.is_empty());
}

#[test]
fn blank_api_keys_are_absent() {
    let mut raw = defaults();
    raw.embedding_api_key = Some("  ".to_string());
    raw.llm_api_key = Some("SECRET-REDACTED".to_string());
    raw.gemini_api_key = Some(String::new());
    raw.openai_api_key = None;
    let s = Settings::from_raw(raw, "g");
    assert_eq!(s.embedding_api_key, None);
    assert_eq!(s.llm_api_key, Some("SECRET-REDACTED".to_string()));
    assert_eq!(s.gemini_api_key, None);
    assert_eq!(s.openai_api_key, None);
}

#[test]
fn backends_follow_the_providers() {
    let s = Settings::from_raw(defaults(), "g");
    assert!(matches!(build_embedding_adapter(&s), EmbeddingBackend::Local(_)));
    assert!(matches!(build_llm_adapter(&s), LlmBackend::Mock(_)));
    let mut raw = defaults();
    raw.embeddings_provider = "Gemini".to_string();
    raw.llm_provider = "openai".to_string();
    let s = Settings::from_raw(raw, "g");
    match build_embedding_adapter(&s) {
        EmbeddingBackend::Remote(a) => assert_eq!(a.provider, "gemini"),
        other => panic!("unexpected {other:?}"),
    }
    match build_llm_adapter(&s) {
        LlmBackend::Remote(a) => assert_eq!(a.provider, "openai"),
        other => panic!("unexpected {other:?}"),
    }
}

#[test]
fn log_level_names() {
    assert_eq!(parse_level("TRACE"), LogLevel::Trace);
    assert_eq!(parse_level("debug"), LogLevel::Debug);
    assert_eq!(parse_level("Info"), LogLevel::Info);
    assert_eq!(parse_level("warn"), LogLevel::Warn);
    assert_eq!(parse_level("WARNING"), LogLevel::Warn);
    assert_eq!(parse_level("error"), LogLevel::Error);
    assert_eq!(parse_level("verbose"), LogLevel::Info);
    assert_eq!(parse_level(""), LogLevel::Info);
}
