//! The records that flow through the worker.

use vstd::prelude::*;

verus! {

/// Shares are given in parts of this whole (parts per million).
pub const SENTIMENT_SCALE: u64 = 1_000_000;

/// A three-way sentiment distribution in parts of `SENTIMENT_SCALE`.
#[derive(Debug, Clone, Copy, PartialEq, Eq, Structural)]
pub struct Sentiment {
    pub positive: u64,
    pub negative: u64,
    pub neutral: u64,
}

impl Sentiment {
    /// The three shares make up the whole.
    pub open spec fn wf(&self) -> bool {
        self.positive + self.negative + self.neutral == SENTIMENT_SCALE
    }

    /// `positive - negative`, in parts of `SENTIMENT_SCALE`.
    pub fn score(&self) -> (r: i64)
        requires
            self.wf(),
        ensures
            r == self.positive - self.negative,
    {
        self.positive as i64 - self.negative as i64
    }
}

/// One piece of raw text from a source. `created_at` is in seconds since the
/// Unix epoch. `sentiment` is an optional precomputed score per label, in
/// parts of `SENTIMENT_SCALE`; `metadata` holds optional extra fields, each
/// value as its JSON text.
#[derive(Debug, Clone)]
pub struct Mention {
    pub id: String,
    pub source: String,
    pub text: String,
    pub created_at: i64,
    pub sentiment: Option<Vec<(String, i64)>>,
    pub metadata: Option<Vec<(String, String)>>,
}

/// Position of a chunk in a larger submission.
#[derive(Debug, Clone, Copy, PartialEq, Eq, Structural)]
pub struct ChunkMeta {
    pub chunk_index: Option<i32>,
    pub total_chunks: Option<i32>,
}

/// A batch of mentions for one tenant. `created_at` is in seconds since the
/// Unix epoch.
#[derive(Debug, Clone)]
pub struct Chunk {
    pub brand: String,
    pub chunk_id: String,
    pub created_at: i64,
    pub mentions: Vec<Mention>,
    pub meta: Option<ChunkMeta>,
}

/// Per-stage durations of one chunk, in microseconds.
#[derive(Debug, Clone, Copy, PartialEq, Eq, Structural)]
pub struct ChunkMetrics {
    pub preprocessing_time_us: u64,
    pub embedding_time_us: u64,
    pub clustering_time_us: u64,
    pub llm_time_us: u64,
    pub spike_detection_time_us: u64,
    pub io_time_us: u64,
    pub total_task_time_us: u64,
}

/// One enriched cluster of a chunk.
#[derive(Debug, Clone)]
pub struct ClusterResult {
    pub cluster_id: i32,
    pub count: usize,
    pub examples: Vec<String>,
    pub summary: Option<String>,
    pub spike: bool,
    pub sentiment: Sentiment,
    pub topics: Option<Vec<String>>,
}

/// The terminal success artifact of a chunk.
#[derive(Debug, Clone)]
pub struct ChunkResult {
    pub chunk_id: String,
    pub brand: String,
    pub timestamp: i64,
    pub clusters: Vec<ClusterResult>,
    pub metrics: ChunkMetrics,
}

/// The terminal failure artifact of a chunk.
#[derive(Debug, Clone)]
pub struct FailureRecord {
    pub worker_id: String,
    pub brand: String,
    pub chunk_id: String,
    pub reason: String,
    pub payload: String,
}

} // verus!

verus! {

impl ChunkMetrics {
    /// Stage times as given; the total is the larger of the wall-clock time
    /// and the sum of the stages, plus the fetch time, capped at `u64::MAX`.
    pub open spec fn completed_spec(
        preprocessing_us: u64,
        embedding_us: u64,
        clustering_us: u64,
        llm_us: u64,
        spike_us: u64,
        io_us: u64,
        elapsed_us: u64,
    ) -> ChunkMetrics {
        let stages = preprocessing_us + embedding_us + clustering_us + llm_us + spike_us;
        let wall = if elapsed_us >= stages { elapsed_us as int } else { stages };
        let total = if wall + io_us > u64::MAX { u64::MAX as int } else { wall + io_us };
        ChunkMetrics {
            preprocessing_time_us: preprocessing_us,
            embedding_time_us: embedding_us,
            clustering_time_us: clustering_us,
            llm_time_us: llm_us,
            spike_detection_time_us: spike_us,
            io_time_us: io_us,
            total_task_time_us: total as u64,
        }
    }

    pub fn completed(
        preprocessing_us: u64,
        embedding_us: u64,
        clustering_us: u64,
        llm_us: u64,
        spike_us: u64,
        io_us: u64,
        elapsed_us: u64,
    ) -> (r: ChunkMetrics)
        ensures
            r == ChunkMetrics::completed_spec(preprocessing_us, embedding_us, clustering_us, llm_us, spike_us, io_us, elapsed_us),
            r.total_task_time_us >= r.io_time_us,
    {
        let stages: u128 = preprocessing_us as u128 + embedding_us as u128 + clustering_us as u128 + llm_us as u128 + spike_us as u128;
        let wall: u128 = if elapsed_us as u128 >= stages { elapsed_us as u128 } else { stages };
        let sum: u128 = wall + io_us as u128;
        let total: u64 = if sum > u64::MAX as u128 { u64::MAX } else { sum as u64 };
        ChunkMetrics {
            preprocessing_time_us: preprocessing_us,
            embedding_time_us: embedding_us,
            clustering_time_us: clustering_us,
            llm_time_us: llm_us,
            spike_detection_time_us: spike_us,
            io_time_us: io_us,
            total_task_time_us: total,
        }
    }
}

} // verus!
