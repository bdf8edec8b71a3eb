//! Worker settings: defaults and the clamping applied at startup.

use vstd::prelude::*;
use crate::text::{ascii_lower, ascii_lowercase_text, concat3, is_blank, lowercase_text, lowercased, trim_text};

verus! {

pub fn default_chunk_batch_size() -> (r: usize) ensures r == 200, { 200 }

pub fn default_http_port() -> (r: u16) ensures r == 8000, { 8000 }

pub fn default_prometheus_port() -> (r: u16) ensures r == 8001, { 8001 }

pub fn default_log_level() -> (r: String) ensures r@ == "info"@, { String::from_str("info") }

pub fn default_heartbeat_interval() -> (r: u64) ensures r == 10, { 10 }

pub fn default_blpop_timeout() -> (r: u64) ensures r == 5, { 5 }

pub fn default_queue_prefix() -> (r: String) ensures r@ == "queue:brand"@, { String::from_str("queue:brand") }

pub fn default_result_prefix() -> (r: String) ensures r@ == "result:brand"@, { String::from_str("result:brand") }

pub fn default_failed_prefix() -> (r: String) ensures r@ == "failed:brand"@, { String::from_str("failed:brand") }

pub fn default_spike_prefix() -> (r: String) ensures r@ == "spike:brand"@, { String::from_str("spike:brand") }

pub fn default_max_retries() -> (r: u32) ensures r == 3, { 3 }

pub fn default_metrics_wait_log_interval() -> (r: u64) ensures r == 60, { 60 }

pub fn default_preprocessing_examples() -> (r: usize) ensures r == 3, { 3 }

pub fn default_embeddings_provider() -> (r: String) ensures r@ == "local"@, { String::from_str("local") }

pub fn default_llm_provider() -> (r: String) ensures r@ == "mock"@, { String::from_str("mock") }

pub fn default_gemini_model() -> (r: String) ensures r@ == "gemini-2.5-flash"@, { String::from_str("gemini-2.5-flash") }

pub fn default_gemini_api_version() -> (r: String) ensures r@ == "v1"@, { String::from_str("v1") }

pub fn default_openai_model() -> (r: String) ensures r@ == "gpt-4o-mini"@, { String::from_str("gpt-4o-mini") }

pub fn default_llm_summary_max_tokens() -> (r: u32) ensures r == 256, { 256 }

pub fn default_llm_timeout_sec() -> (r: u64) ensures r == 30, { 30 }

pub fn default_embeddings_batch_size() -> (r: usize) ensures r == 32, { 32 }

pub fn default_llm_max_concurrency() -> (r: usize) ensures r == 4, { 4 }

pub fn default_spike_history_ttl_sec() -> (r: u64) ensures r == 86_400, { 86_400 }

/// Settings as read from the environment, before clamping. Durations are in
/// whole seconds.
#[derive(Debug, Clone)]
pub struct RawSettings {
    pub redis_url: String,
    pub worker_id: Option<String>,
    pub chunk_batch_size: usize,
    pub http_port: u16,
    pub prometheus_port: u16,
    pub log_level: String,
    pub heartbeat_interval_sec: u64,
    pub blpop_timeout_sec: u64,
    pub redis_queue_prefix: String,
    pub redis_result_prefix: String,
    pub redis_failed_prefix: String,
    pub redis_spike_prefix: String,
    pub max_retries: u32,
    pub metrics_wait_log_interval_sec: u64,
    pub preprocessing_examples: usize,
    pub embeddings_provider: String,
    pub llm_provider: String,
    pub embedding_api_key: Option<String>,
    pub llm_api_key: Option<String>,
    pub gemini_api_key: Option<String>,
    pub openai_api_key: Option<String>,
    pub gemini_model: String,
    pub gemini_api_version: String,
    pub openai_model: String,
    pub llm_summary_max_tokens: u32,
    pub llm_timeout_sec: u64,
    pub embeddings_batch_size: usize,
    pub llm_max_concurrency: usize,
    pub spike_history_ttl_sec: u64,
}

/// Validated settings. Durations are in whole seconds.
#[derive(Debug, Clone)]
pub struct Settings {
    pub redis_url: String,
    pub worker_id: String,
    pub chunk_batch_size: usize,
    pub http_port: u16,
    pub prometheus_port: u16,
    pub log_level: String,
    pub heartbeat_interval_secs: u64,
    pub blpop_timeout_secs: u64,
    pub redis_queue_prefix: String,
    pub redis_result_prefix: String,
    pub redis_failed_prefix: String,
    pub redis_spike_prefix: String,
    pub max_retries: u32,
    pub metrics_wait_log_interval_secs: u64,
    pub preprocessing_examples: usize,
    pub embeddings_provider: String,
    pub llm_provider: String,
    pub embedding_api_key: Option<String>,
    pub llm_api_key: Option<String>,
    pub gemini_api_key: Option<String>,
    pub openai_api_key: Option<String>,
    pub gemini_model: String,
    pub gemini_api_version: String,
    pub openai_model: String,
    pub llm_summary_max_tokens: u32,
    pub llm_timeout_secs: u64,
    pub embeddings_batch_size: usize,
    pub llm_max_concurrency: usize,
    pub spike_history_ttl_secs: u64,
}

pub open spec fn at_least(v: int, lo: int) -> int {
    if v < lo { lo } else { v }
}

/// An optional text with blank values taken as absent.
pub open spec fn present(v: Option<String>) -> Option<Seq<char>> {
    match v {
        Some(s) => if is_blank(s@) { None } else { Some(s@) },
        None => None,
    }
}

pub open spec fn view_opt(v: Option<String>) -> Option<Seq<char>> {
    match v {
        Some(s) => Some(s@),
        None => None,
    }
}

/// Everything `from_raw` fixes, the worker id aside.
pub open spec fn clamped_from(s: Settings, raw: RawSettings) -> bool {
    &&& s.redis_url@ == raw.redis_url@
    &&& s.chunk_batch_size == at_least(raw.chunk_batch_size as int, 1)
    &&& s.http_port == raw.http_port
    &&& s.prometheus_port == raw.prometheus_port
    &&& s.log_level@ == ascii_lower(raw.log_level@)
    &&& s.heartbeat_interval_secs == at_least(raw.heartbeat_interval_sec as int, 1)
    &&& s.blpop_timeout_secs == at_least(raw.blpop_timeout_sec as int, 1)
    &&& s.redis_queue_prefix@ == raw.redis_queue_prefix@
    &&& s.redis_result_prefix@ == raw.redis_result_prefix@
    &&& s.redis_failed_prefix@ == raw.redis_failed_prefix@
    &&& s.redis_spike_prefix@ == raw.redis_spike_prefix@
    &&& s.max_retries == raw.max_retries
    &&& s.metrics_wait_log_interval_secs == at_least(raw.metrics_wait_log_interval_sec as int, 1)
    &&& s.preprocessing_examples == if raw.preprocessing_examples > 100 { 100 } else { at_least(raw.preprocessing_examples as int, 1) }
    &&& s.embeddings_provider@ == ascii_lower(raw.embeddings_provider@)
    &&& s.llm_provider@ == ascii_lower(raw.llm_provider@)
    &&& view_opt(s.embedding_api_key) == present(raw.embedding_api_key)
    &&& view_opt(s.llm_api_key) == present(raw.llm_api_key)
    &&& view_opt(s.gemini_api_key) == present(raw.gemini_api_key)
    &&& view_opt(s.openai_api_key) == present(raw.openai_api_key)
    &&& s.gemini_model@ == raw.gemini_model@
    &&& s.gemini_api_version@ == raw.gemini_api_version@
    &&& s.openai_model@ == raw.openai_model@
    &&& s.llm_summary_max_tokens == at_least(raw.llm_summary_max_tokens as int, 16)
    &&& s.llm_timeout_secs == at_least(raw.llm_timeout_sec as int, 1)
    &&& s.embeddings_batch_size == at_least(raw.embeddings_batch_size as int, 1)
    &&& s.llm_max_concurrency == at_least(raw.llm_max_concurrency as int, 1)
    &&& s.spike_history_ttl_secs == at_least(raw.spike_history_ttl_sec as int, 60)
}

/// Relies on `uuid::Uuid::new_v4` and its hyphenated `Display`: a random
/// identifier, of which nothing is promised here.
#[verifier::external_body]
fn random_uuid_text() -> (r: String) {
    uuid::Uuid::new_v4().to_string()
}

fn non_blank(v: Option<String>) -> (r: Option<String>)
    ensures
        view_opt(r) == present(v),
        r matches Some(x) ==> x@.len() > 0,
{
    match v {
        Some(s) => {
            let t = trim_text(s.as_str());
            if t.as_str().is_empty() { None } else { Some(s) }
        },
        None => None,
    }
}

fn max_u64(v: u64, lo: u64) -> (r: u64)
    ensures
        r == at_least(v as int, lo as int),
{
    if v < lo { lo } else { v }
}

fn max_usize(v: usize, lo: usize) -> (r: usize)
    ensures
        r == at_least(v as int, lo as int),
{
    if v < lo { lo } else { v }
}

impl Settings {
    /// Clamps raw settings. The worker id is the configured one when it is
    /// not blank, else `worker-` followed by `generated`; either way
    /// lower-cased.
    pub fn from_raw(raw: RawSettings, generated: &str) -> (r: Settings)
        ensures
            clamped_from(r, raw),
            r.worker_id@ == lowercased(match present(raw.worker_id) {
                Some(id) => id,
                None => "worker-"@ + generated@,
            }),
            r.worker_id@.len() > 0,
    {
        let ghost raw0 = raw;
        let chosen = match non_blank(raw.worker_id) {
            Some(id) => id,
            None => concat3("worker-", generated, ""),
        };
        proof {
            assert(("worker-"@ + generated@ + ""@) =~= ("worker-"@ + generated@)) by {
                reveal_strlit("");
            }
            reveal_strlit("worker-");
            assert(chosen@.len() > 0);
        }
        let worker_id = lowercase_text(chosen.as_str());
        let preprocessing_examples: usize = if raw.preprocessing_examples > 100 {
            100
        } else {
            max_usize(raw.preprocessing_examples, 1)
        };
        let r = Settings {
            redis_url: raw.redis_url,
            worker_id,
            chunk_batch_size: max_usize(raw.chunk_batch_size, 1),
            http_port: raw.http_port,
            prometheus_port: raw.prometheus_port,
            log_level: ascii_lowercase_text(raw.log_level.as_str()),
            heartbeat_interval_secs: max_u64(raw.heartbeat_interval_sec, 1),
            blpop_timeout_secs: max_u64(raw.blpop_timeout_sec, 1),
            redis_queue_prefix: raw.redis_queue_prefix,
            redis_result_prefix: raw.redis_result_prefix,
            redis_failed_prefix: raw.redis_failed_prefix,
            redis_spike_prefix: raw.redis_spike_prefix,
            max_retries: raw.max_retries,
            metrics_wait_log_interval_secs: max_u64(raw.metrics_wait_log_interval_sec, 1),
            preprocessing_examples,
            embeddings_provider: ascii_lowercase_text(raw.embeddings_provider.as_str()),
            llm_provider: ascii_lowercase_text(raw.llm_provider.as_str()),
            embedding_api_key: non_blank(raw.embedding_api_key),
            llm_api_key: non_blank(raw.llm_api_key),
            gemini_api_key: non_blank(raw.gemini_api_key),
            openai_api_key: non_blank(raw.openai_api_key),
            gemini_model: raw.gemini_model,
            gemini_api_version: raw.gemini_api_version,
            openai_model: raw.openai_model,
            llm_summary_max_tokens: if raw.llm_summary_max_tokens < 16 { 16 } else { raw.llm_summary_max_tokens },
            llm_timeout_secs: max_u64(raw.llm_timeout_sec, 1),
            embeddings_batch_size: max_usize(raw.embeddings_batch_size, 1),
            llm_max_concurrency: max_usize(raw.llm_max_concurrency, 1),
            spike_history_ttl_secs: max_u64(raw.spike_history_ttl_sec, 60),
        };
        r
    }

    /// Clamps raw settings, drawing a random worker id only when none is
    /// configured.
    pub fn from_raw_with_random_id(raw: RawSettings) -> (r: Settings)
        ensures
            clamped_from(r, raw),
            present(raw.worker_id) matches Some(id) ==> r.worker_id@ == lowercased(id),
            present(raw.worker_id) is None ==> exists|g: Seq<char>| r.worker_id@ == lowercased("worker-"@ + g),
            r.worker_id@.len() > 0,
    {
        let needs_id = match &raw.worker_id {
            Some(id) => trim_text(id.as_str()).as_str().is_empty(),
            None => true,
        };
        let generated = if needs_id { random_uuid_text() } else { String::new() };
        let r = Settings::from_raw(raw, generated.as_str());
        r
    }
}

} // verus!
