use worker_rs::config::{RawSettings, Settings};
use worker_rs::storage::{normalise_summary_text, ResultStorage};
use worker_rs::types::{ChunkMetrics, ChunkResult, ClusterResult, Sentiment};

fn strings(items: &[&str]) -> Vec<String> {
    items.iter().map(|s| s.to_string()).collect()
}

fn storage() -> ResultStorage {
    ResultStorage {
        result_prefix: "result:brand".to_string(),
        failed_prefix: "failed:brand".to_string(),
        worker_id: "w1".to_string(),
    }
}

fn cluster(id: i32, summary: Option<&str>, examples: &[&str], spike: bool, sentiment: Sentiment) -> ClusterResult {
    ClusterResult {
        cluster_id: id,
        count: examples.len() + 1,
        examples: strings(examples),
        summary: summary.map(|s| s.to_string()),
        spike,
        sentiment,
        topics: None,
    }
}

fn s(p: u64, n: u64, u: u64) -> Sentiment {
    Sentiment { positive: p, negative: n, neutral: u }
}

#[test]
fn label_prefers_trimmed_summary() {
    let ex = strings(&["  first example  "]);
    assert_eq!(normalise_summary_text(&Some("  A summary ".to_string()), &ex, None), Some("A summary".to_string()));
}

#[test]
fn label_rejects_serialized_sentiment() {
    let ex = strings(&["  first example  "]);
    let echoed = Some("{\"positive\": 0.5}".to_string());
    assert_eq!(normalise_summary_text(&echoed, &ex, None), Some("first example".to_string()));
    // braces without the word are a real summary
    let braces = Some("{curly}".to_string());
    assert_eq!(normalise_summary_text(&braces, &ex, None), Some("{curly}".to_string()));
}

#[test]
fn label_falls_back_to_cluster_name() {
    let none: Vec<String> = Vec::new();
    assert_eq!(normalise_summary_text(&None, &none, Some("Cluster 7".to_string())), Some("Cluster 7".to_string()));
    assert_eq!(normalise_summary_text(&Some("   ".to_string()), &none, None), Some(String::new()));
}

#[test]
fn keys_for_results_and_failures() {
    let st = storage();
    assert_eq!(st.result_key("acme"), "result:brand:acme:chunks");
    assert_eq!(st.failure_key("acme"), "failed:brand:acme");
}

#[test]
fn cluster_summaries_carry_label_and_score() {
    let st = storage();
    let clusters = vec![
        cluster(3, None, &[], true, s(600_000, 100_000, 300_000)),
        cluster(-1, Some("Topic"), &["x"], false, s(0, 1_000_000, 0)),
    ];
    let out = st.build_clusters(&clusters);
    assert_eq!(out.len(), 2);
    assert_eq!(out[0].id, "3");
    assert_eq!(out[0].label, "Cluster 3");
    assert_eq!(out[0].sentiment_score, 500_000);
    assert!(out[0].spike);
    assert_eq!(out[0].mention_count, 1);
    assert_eq!(out[1].id, "-1");
    assert_eq!(out[1].label, "Topic");
    assert_eq!(out[1].mentions, strings(&["x"]));
    assert_eq!(out[1].sentiment_score, -1_000_000);
}

#[test]
fn aggregate_sentiment_is_the_mean() {
    let st = storage();
    let clusters = vec![
        cluster(1, None, &[], false, s(600_000, 100_000, 300_000)),
        cluster(2, None, &[], false, s(200_000, 300_000, 500_000)),
    ];
    let agg = st.aggregate_sentiment(&clusters);
    assert_eq!(agg.positive, 400_000);
    assert_eq!(agg.negative, 200_000);
    assert_eq!(agg.neutral, 400_000);
    assert_eq!(agg.score, 200_000);
    let none = st.aggregate_sentiment(&Vec::new());
    assert_eq!((none.positive, none.negative, none.neutral, none.score), (0, 0, 0, 0));
}

#[test]
fn topics_are_capped_at_ten() {
    let st = storage();
    let clusters: Vec<ClusterResult> = (0..12)
        .map(|i| cluster(i, Some(&format!("t{i}")), &[], false, s(0, 0, 1_000_000)))
        .collect();
    let topics = st.extract_topics(&clusters);
    assert_eq!(topics.len(), 10);
    assert_eq!(topics[0], "t0");
    assert_eq!(topics[9], "t9");
}

#[test]
fn topics_fall_back_to_the_first_example() {
    let st = storage();
    let clusters = vec![
        cluster(1, None, &["  "], false, s(0, 0, 1_000_000)),
        cluster(2, Some("{positive}"), &["ex"], false, s(0, 0, 1_000_000)),
        cluster(3, None, &[], false, s(0, 0, 1_000_000)),
    ];
    assert_eq!(st.extract_topics(&clusters), strings(&["  ", "ex"]));
}

#[test]
fn summaries_join_with_spaces() {
    let st = storage();
    let clusters = vec![
        cluster(1, Some(" one "), &[], false, s(0, 0, 1_000_000)),
        cluster(2, None, &[], false, s(0, 0, 1_000_000)),
        cluster(3, Some("three"), &[], false, s(0, 0, 1_000_000)),
    ];
    assert_eq!(st.combine_summaries(&clusters), "one three");
    assert_eq!(st.combine_summaries(&Vec::new()), "");
}

#[test]
fn payload_for_the_orchestrator() {
    let st = storage();
    let result = ChunkResult {
        chunk_id: "c9".to_string(),
        brand: "acme".to_string(),
        timestamp: 5,
        clusters: vec![
            cluster(1, Some("alpha"), &["a1"], false, s(500_000, 0, 500_000)),
            cluster(2, None, &["b1", "b2"], true, s(0, 500_000, 500_000)),
        ],
        metrics: ChunkMetrics::completed(1, 1, 1, 1, 1, 1, 1),
    };
    let payload = st.format_for_orchestrator(&result, "2024-01-01T00:00:00+00:00".to_string());
    assert_eq!(payload.chunk_id, "c9");
    assert_eq!(payload.brand, "acme");
    assert_eq!(payload.processed_at, "2024-01-01T00:00:00+00:00");
    assert!(payload.spike_detected);
    assert_eq!(payload.mention_count, 2 + 3);
    assert_eq!(payload.topics, strings(&["alpha", "b1"]));
    assert_eq!(payload.summary, "alpha b1");
    assert_eq!(payload.clusters.len(), 2);
    assert_eq!(payload.sentiment.score, 0);
    assert_eq!(payload.metrics.total_task_time_us, 6);
}

#[test]
fn storage_takes_prefixes_from_settings() {
    let raw = RawSettings {
        redis_url: "u".to_string(),
        worker_id: None,
        chunk_batch_size: 1,
        http_port: 1,
        prometheus_port: 2,
        log_level: "info".to_string(),
        heartbeat_interval_sec: 1,
        blpop_timeout_sec: 1,
        redis_queue_prefix: "q".to_string(),
        redis_result_prefix: "r".to_string(),
        redis_failed_prefix: "f".to_string(),
        redis_spike_prefix: "s".to_string(),
        max_retries: 3,
        metrics_wait_log_interval_sec: 1,
        preprocessing_examples: 3,
        embeddings_provider: "local".to_string(),
        llm_provider: "mock".to_string(),
        embedding_api_key: None,
        llm_api_key: None,
        gemini_api_key: None,
        openai_api_key: None,
        gemini_model: "g".to_string(),
        gemini_api_version: "v".to_string(),
        openai_model: "o".to_string(),
        llm_summary_max_tokens: 16,
        llm_timeout_sec: 1,
        embeddings_batch_size: 1,
        llm_max_concurrency: 1,
        spike_history_ttl_sec: 60,
    };
    let settings = Settings::from_raw(raw, "ID");
    let st = ResultStorage::new(&settings);
    assert_eq!(st.result_key("b"), "r:b:chunks");
    assert_eq!(st.failure_key("b"), "f:b");
    assert_eq!(st.worker_id, "worker-id");
}

#[test]
fn topics_are_deduplicated_before_the_cap() {
    let st = storage();
    let mut clusters = vec![
        cluster(1, Some("same"), &[], false, s(0, 0, 1_000_000)),
        cluster(2, Some(" same "), &[], false, s(0, 0, 1_000_000)),
    ];
    for i in 3..15 {
        clusters.push(cluster(i, Some(&format!("t{i}")), &[], false, s(0, 0, 1_000_000)));
    }
    let topics = st.extract_topics(&clusters);
    assert_eq!(topics.len(), 10);
    assert_eq!(topics[0], "same");
    assert_eq!(topics[1], "t3");
    assert_eq!(topics[9], "t11");
}
