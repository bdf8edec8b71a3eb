//! The per-chunk pipeline: preprocessing, embedding, clustering and
//! per-cluster enrichment. Spike detection reads and writes the shared store,
//! so the caller runs it between `build_cluster_results` and `finish`.

use vstd::prelude::*;
use crate::clustering::{ClusterGroup, Clusterer};
use crate::config::Settings;
use crate::embeddings::EmbeddingAdapter;
use crate::llm::LlmAdapter;
use crate::preprocess::{cleaned_all, dedup_texts, distinct_nonempty, mention_texts, preprocess, texts_of};
use crate::spike::{SpikeDetectionResult, SpikeDetector};
use crate::text::{is_blank, trim_text};
use crate::types::{Chunk, ChunkMetrics, ChunkResult, ClusterResult, Sentiment};

verus! {

/// Most topics a cluster carries.
pub const TOPIC_LIMIT: usize = 10;

/// The chunk's own tenant unless it is blank, else the fallback.
pub open spec fn effective_brand(chunk_brand: Seq<char>, fallback: Seq<char>) -> Seq<char> {
    if is_blank(chunk_brand) { fallback } else { chunk_brand }
}

/// The texts at `idx` that lie inside `m`, in the order of `idx`.
pub open spec fn members_of(m: Seq<Seq<char>>, idx: Seq<usize>) -> Seq<Seq<char>>
    decreases idx.len(),
{
    if idx.len() == 0 {
        Seq::empty()
    } else {
        let p = members_of(m, idx.drop_last());
        if (idx.last() as int) < m.len() { p.push(m[idx.last() as int]) } else { p }
    }
}

/// The groups that have at least one member.
pub open spec fn kept_groups(m: Seq<Seq<char>>, g: Seq<ClusterGroup>) -> Seq<ClusterGroup>
    decreases g.len(),
{
    if g.len() == 0 {
        Seq::empty()
    } else {
        let p = kept_groups(m, g.drop_last());
        if members_of(m, g.last().indices@).len() > 0 { p.push(g.last()) } else { p }
    }
}

/// The first `k` entries (all of them when there are fewer).
pub open spec fn first_n(s: Seq<Seq<char>>, k: int) -> Seq<Seq<char>> {
    if s.len() <= k { s } else { s.take(k) }
}

pub open spec fn opt_texts(o: Option<Vec<String>>) -> Option<Seq<Seq<char>>> {
    match o {
        Some(v) => Some(texts_of(v@)),
        None => None,
    }
}

pub open spec fn opt_text(o: Option<String>) -> Option<Seq<char>> {
    match o {
        Some(v) => Some(v@),
        None => None,
    }
}

/// The neutral-leaning distribution of the fallback cluster.
pub open spec fn fallback_sentiment() -> Sentiment {
    Sentiment { positive: 330_000, negative: 330_000, neutral: 340_000 }
}

/// A cluster ready for spike detection, or one that needs none.
#[derive(Debug, Clone)]
pub struct ClusterPlan {
    pub result: ClusterResult,
    pub detect_spike: bool,
}

/// What enrichment makes of a group with `members`: its id and size, the
/// first `k` members as examples, the first `TOPIC_LIMIT` as topics, the
/// backend's summary and sentiment of the members (a whole), spike not yet
/// decided.
pub open spec fn enriched<L: LlmAdapter>(llm: L, p: ClusterPlan, g: ClusterGroup, members: Seq<Seq<char>>, k: int) -> bool {
    &&& p.result.cluster_id == g.cluster_id
    &&& p.result.count == members.len()
    &&& texts_of(p.result.examples@) == first_n(members, k)
    &&& opt_texts(p.result.topics) == Some(first_n(members, TOPIC_LIMIT as int))
    &&& opt_text(p.result.summary) == llm.summary_of(members)
    &&& p.result.sentiment == llm.sentiment_of(members)
    &&& p.result.sentiment.wf()
    &&& !p.result.spike
    &&& p.detect_spike
}

/// The single cluster that stands in when no group has a member: id 1 over
/// all mentions, the first example as summary, the default sentiment, no
/// backend calls and no spike.
pub open spec fn fallback_cluster(p: ClusterPlan, m: Seq<Seq<char>>, k: int) -> bool {
    &&& p.result.cluster_id == 1
    &&& p.result.count == m.len()
    &&& texts_of(p.result.examples@) == first_n(m, k)
    &&& opt_text(p.result.summary) == if first_n(m, k).len() > 0 { Some(first_n(m, k)[0]) } else { None }
    &&& p.result.sentiment == fallback_sentiment()
    &&& opt_texts(p.result.topics) == Some(first_n(m, k))
    &&& !p.result.spike
    &&& !p.detect_spike
}

/// A chunk after preprocessing.
#[derive(Debug, Clone)]
pub struct PreparedChunk {
    pub brand: String,
    pub chunk_id: String,
    pub timestamp: i64,
    pub mentions: Vec<String>,
}

fn collect_members(mentions: &Vec<String>, indices: &Vec<usize>) -> (r: Vec<String>)
    ensures
        texts_of(r@) == members_of(texts_of(mentions@), indices@),
{
    let ghost m = texts_of(mentions@);
    let mut out: Vec<String> = Vec::new();
    let mut i: usize = 0;
    while i < indices.len()
        invariant
            i <= indices.len(),
            m == texts_of(mentions@),
            texts_of(out@) == members_of(m, indices@.take(i as int)),
        decreases indices.len() - i,
    {
        proof {
            assert(indices@.take(i as int + 1).drop_last() =~= indices@.take(i as int));
        }
        let idx = indices[i];
        if idx < mentions.len() {
            out.push(mentions[idx].clone());
            proof {
                assert(texts_of(out@) =~= members_of(m, indices@.take(i as int)).push(m[idx as int]));
            }
        }
        i = i + 1;
    }
    proof {
        assert(indices@.take(indices.len() as int) =~= indices@);
    }
    out
}

fn take_first(v: &Vec<String>, k: usize) -> (r: Vec<String>)
    ensures
        texts_of(r@) == first_n(texts_of(v@), k as int),
{
    let n: usize = if v.len() <= k { v.len() } else { k };
    let mut out: Vec<String> = Vec::new();
    let mut i: usize = 0;
    while i < n
        invariant
            i <= n,
            n <= v.len(),
            out.len() == i,
            forall|j: int| 0 <= j < i ==> #[trigger] out@[j]@ == v@[j]@,
        decreases n - i,
    {
        out.push(v[i].clone());
        i = i + 1;
    }
    proof {
        assert(texts_of(out@) =~= texts_of(v@).take(n as int));
        assert(texts_of(out@) =~= first_n(texts_of(v@), k as int));
    }
    out
}

/// The chunk pipeline with its backends.
pub struct Processor<E, L> {
    pub preprocessing_examples: usize,
    pub embeddings: E,
    pub clusterer: Clusterer,
    pub llm: L,
    pub spike_detector: SpikeDetector,
}

impl<E: EmbeddingAdapter, L: LlmAdapter> Processor<E, L> {
    pub fn new(settings: &Settings, embeddings: E, clusterer: Clusterer, llm: L, spike_detector: SpikeDetector) -> (r: Self)
        ensures
            r.preprocessing_examples == settings.preprocessing_examples,
    {
        Processor { preprocessing_examples: settings.preprocessing_examples, embeddings, clusterer, llm, spike_detector }
    }

    /// Settles the tenant and cleans and deduplicates the mentions.
    pub fn prepare(&self, chunk: &Chunk, fallback_brand: &str) -> (r: PreparedChunk)
        ensures
            r.brand@ == effective_brand(chunk.brand@, fallback_brand@),
            r.chunk_id@ == chunk.chunk_id@,
            r.timestamp == chunk.created_at,
            texts_of(r.mentions@) == dedup_texts(cleaned_all(mention_texts(chunk.mentions@))),
            distinct_nonempty(texts_of(r.mentions@)),
    {
        let trimmed_brand = trim_text(chunk.brand.as_str());
        let brand = if trimmed_brand.as_str().is_empty() {
            String::from_str(fallback_brand)
        } else {
            chunk.brand.clone()
        };
        PreparedChunk {
            brand,
            chunk_id: chunk.chunk_id.clone(),
            timestamp: chunk.created_at,
            mentions: preprocess(&chunk.mentions),
        }
    }

    /// One vector per deduplicated mention, from the embedding backend.
    pub fn embed(&self, mentions: &Vec<String>) -> (r: Vec<Vec<u8>>)
        ensures
            r.len() == mentions.len(),
            forall|i: int| 0 <= i < mentions.len() ==> #[trigger] r@[i]@ == self.embeddings.embedding_of(mentions@[i]@),
    {
        self.embeddings.embed(mentions)
    }

    /// Groups the vectors.
    pub fn cluster(&self, embeddings: &Vec<Vec<u8>>) -> (r: Vec<ClusterGroup>)
        ensures
            r.len() == 1,
            r@[0].cluster_id == 1,
            r@[0].indices@ == crate::clustering::all_positions(embeddings.len() as nat),
    {
        self.clusterer.cluster(embeddings)
    }

    fn enrich(&self, group: &ClusterGroup, members: Vec<String>) -> (r: ClusterPlan)
        requires
            members.len() > 0,
        ensures
            enriched(self.llm, r, *group, texts_of(members@), self.preprocessing_examples as int),
    {
        let examples = take_first(&members, self.preprocessing_examples);
        let summary = self.llm.summarize(&members);
        let sentiment = self.llm.sentiment(&members);
        let topics = take_first(&members, TOPIC_LIMIT);
        ClusterPlan {
            result: ClusterResult {
                cluster_id: group.cluster_id,
                count: members.len(),
                examples,
                summary,
                spike: false,
                sentiment,
                topics: Some(topics),
            },
            detect_spike: true,
        }
    }

    fn fallback(&self, mentions: &Vec<String>) -> (r: ClusterPlan)
        ensures
            fallback_cluster(r, texts_of(mentions@), self.preprocessing_examples as int),
    {
        let examples = take_first(mentions, self.preprocessing_examples);
        let summary = if examples.len() > 0 { Some(examples[0].clone()) } else { None };
        proof {
            if examples.len() > 0 {
                assert(texts_of(examples@)[0] == examples@[0]@);
            }
        }
        let topics = examples.clone();
        proof {
            assert(texts_of(topics@) =~= texts_of(examples@));
        }
        ClusterPlan {
            result: ClusterResult {
                cluster_id: 1,
                count: mentions.len(),
                examples,
                summary,
                spike: false,
                sentiment: Sentiment { positive: 330_000, negative: 330_000, neutral: 340_000 },
                topics: Some(topics),
            },
            detect_spike: false,
        }
    }

    /// Enriches every group that has a member; when none has, one fallback
    /// cluster over all mentions.
    pub fn build_cluster_results(&self, mentions: &Vec<String>, groups: &Vec<ClusterGroup>) -> (r: Vec<ClusterPlan>)
        ensures
            ({
                let m = texts_of(mentions@);
                let kept = kept_groups(m, groups@);
                let k = self.preprocessing_examples as int;
                &&& kept.len() > 0 ==> r.len() == kept.len()
                &&& kept.len() > 0 ==> forall|i: int| 0 <= i < r.len()
                    ==> enriched(self.llm, #[trigger] r@[i], kept[i], members_of(m, kept[i].indices@), k)
                &&& kept.len() == 0 ==> r.len() == 1 && fallback_cluster(r@[0], m, k)
            }),
            forall|i: int| 0 <= i < r.len() ==> (#[trigger] r@[i]).result.sentiment.wf(),
    {
        let ghost m = texts_of(mentions@);
        let ghost k = self.preprocessing_examples as int;
        let mut out: Vec<ClusterPlan> = Vec::new();
        let mut i: usize = 0;
        while i < groups.len()
            invariant
                i <= groups.len(),
                m == texts_of(mentions@),
                k == self.preprocessing_examples as int,
                out.len() == kept_groups(m, groups@.take(i as int)).len(),
                forall|j: int| 0 <= j < out.len() ==> enriched(self.llm, #[trigger] out@[j],
                    kept_groups(m, groups@.take(i as int))[j],
                    members_of(m, kept_groups(m, groups@.take(i as int))[j].indices@), k),
            decreases groups.len() - i,
        {
            let ghost before = kept_groups(m, groups@.take(i as int));
            proof {
                assert(groups@.take(i as int + 1).drop_last() =~= groups@.take(i as int));
            }
            let members = collect_members(mentions, &groups[i].indices);
            if members.len() > 0 {
                let plan = self.enrich(&groups[i], members);
                out.push(plan);
                proof {
                    let after = kept_groups(m, groups@.take(i as int + 1));
                    assert(after == before.push(groups@[i as int]));
                    assert forall|j: int| 0 <= j < out.len() implies enriched(self.llm, #[trigger] out@[j], after[j],
                        members_of(m, after[j].indices@), k) by {
                        if j < before.len() {
                            assert(after[j] == before[j]);
                        }
                    }
                }
            }
            i = i + 1;
        }
        proof {
            assert(groups@.take(groups.len() as int) =~= groups@);
        }
        if out.len() == 0 {
            out.push(self.fallback(mentions));
        }
        out
    }

    /// The result of a chunk whose mentions all cleaned away: no cluster,
    /// only preprocessing and fetch time recorded.
    pub fn short_circuit(&self, prepared: PreparedChunk, preprocessing_us: u64, io_us: u64, elapsed_us: u64) -> (r: ChunkResult)
        ensures
            r.chunk_id@ == prepared.chunk_id@,
            r.brand@ == prepared.brand@,
            r.timestamp == prepared.timestamp,
            r.clusters.len() == 0,
            r.metrics == ChunkMetrics::completed_spec(preprocessing_us, 0, 0, 0, 0, io_us, elapsed_us),
    {
        let metrics = ChunkMetrics::completed(preprocessing_us, 0, 0, 0, 0, io_us, elapsed_us);
        ChunkResult {
            chunk_id: prepared.chunk_id,
            brand: prepared.brand,
            timestamp: prepared.timestamp,
            clusters: Vec::new(),
            metrics,
        }
    }
}

/// A detection that ran and found a spike.
pub open spec fn flagged(outcome: Option<SpikeDetectionResult>) -> bool {
    match outcome {
        Some(o) => o.is_spike,
        None => false,
    }
}

/// Marks a planned cluster as a spike or not: a failed detection (`None`)
/// leaves it a non-spike; a cluster that needs no detection stays as it is.
pub fn apply_spike(plan: &mut ClusterPlan, outcome: Option<SpikeDetectionResult>)
    ensures
        final(plan).result.spike == if old(plan).detect_spike { flagged(outcome) } else { old(plan).result.spike },
        final(plan).result.cluster_id == old(plan).result.cluster_id,
        final(plan).result.count == old(plan).result.count,
        final(plan).result.examples@ == old(plan).result.examples@,
        final(plan).result.summary == old(plan).result.summary,
        final(plan).result.sentiment == old(plan).result.sentiment,
        final(plan).result.topics == old(plan).result.topics,
        final(plan).detect_spike == old(plan).detect_spike,
{
    if plan.detect_spike {
        plan.result.spike = match outcome {
            Some(o) => o.is_spike,
            None => false,
        };
    }
}

/// Assembles the chunk's result from its clusters, in order.
pub fn finish(prepared: PreparedChunk, plans: Vec<ClusterPlan>, metrics: ChunkMetrics) -> (r: ChunkResult)
    ensures
        r.chunk_id@ == prepared.chunk_id@,
        r.brand@ == prepared.brand@,
        r.timestamp == prepared.timestamp,
        r.metrics == metrics,
        r.clusters.len() == plans.len(),
        forall|i: int| 0 <= i < plans.len() ==> #[trigger] r.clusters@[i] == plans@[i].result,
{
    let ghost all = plans@;
    let mut rest = plans;
    let mut clusters: Vec<ClusterResult> = Vec::new();
    while rest.len() > 0
        invariant
            clusters.len() + rest.len() == all.len(),
            rest@ == all.subrange(clusters.len() as int, all.len() as int),
            forall|j: int| 0 <= j < clusters.len() ==> #[trigger] clusters@[j] == all[j].result,
        decreases rest.len(),
    {
        let plan = rest.remove(0);
        clusters.push(plan.result);
        proof {
            assert(rest@ =~= all.subrange(clusters.len() as int, all.len() as int));
        }
    }
    ChunkResult {
        chunk_id: prepared.chunk_id,
        brand: prepared.brand,
        timestamp: prepared.timestamp,
        clusters,
        metrics,
    }
}

} // verus!
