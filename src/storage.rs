//! Shaping chunk results for the orchestrator, and the store keys that
//! results and failures go to.

use vstd::prelude::*;
use crate::config::Settings;
use crate::preprocess::texts_of;
use crate::processor::opt_text;
use crate::text::{concat3, contains_text, decimal_text, i32_text, occurs_in, trim_text, trimmed};
use crate::types::{ChunkMetrics, ChunkResult, ClusterResult, Sentiment};

verus! {

/// Most topics a published result lists.
pub const PUBLISHED_TOPIC_LIMIT: usize = 10;

/// A summary that is really a serialized sentiment object.
pub open spec fn looks_structured(t: Seq<char>) -> bool {
    &&& t.len() > 0
    &&& t[0] == '{'
    &&& t.last() == '}'
    &&& occurs_in("positive"@, t)
}

/// The label of a cluster: its trimmed summary unless that is empty or a
/// serialized sentiment object, else its first example trimmed, else the
/// fallback label if one is given.
pub open spec fn normalised(summary: Option<Seq<char>>, examples: Seq<Seq<char>>, fallback: Option<Seq<char>>) -> Seq<char> {
    let c0 = trimmed(match summary { Some(s) => s, None => Seq::empty() });
    let c1 = if looks_structured(c0) { Seq::empty() } else { c0 };
    let c2 = if c1.len() == 0 && examples.len() > 0 { trimmed(examples[0]) } else { c1 };
    if c2.len() == 0 && fallback is Some { fallback.unwrap() } else { c2 }
}

/// `Cluster <id>`.
pub open spec fn cluster_label(id: int) -> Seq<char> {
    "Cluster "@ + decimal_text(id)
}

/// A cluster as the orchestrator sees it. `sentiment_score` is
/// positive minus negative, in parts of the sentiment scale.
#[derive(Debug, Clone)]
pub struct ClusterSummary {
    pub id: String,
    pub label: String,
    pub mentions: Vec<String>,
    pub sentiment_score: i64,
    pub spike: bool,
    pub mention_count: usize,
}

/// Mean shares over the clusters, in parts of the sentiment scale, and
/// positive minus negative.
#[derive(Debug, Clone, Copy, PartialEq, Eq, Structural)]
pub struct SentimentSummary {
    pub positive: u64,
    pub neutral: u64,
    pub negative: u64,
    pub score: i64,
}

/// The outbound form of a chunk result.
#[derive(Debug, Clone)]
pub struct OrchestratorPayload {
    pub chunk_id: String,
    pub brand: String,
    pub processed_at: String,
    pub sentiment: SentimentSummary,
    pub clusters: Vec<ClusterSummary>,
    pub topics: Vec<String>,
    pub summary: String,
    pub spike_detected: bool,
    pub metrics: ChunkMetrics,
    pub mention_count: usize,
}

pub open spec fn all_wf(c: Seq<ClusterResult>) -> bool {
    forall|i: int| 0 <= i < c.len() ==> (#[trigger] c[i]).sentiment.wf()
}

/// 0 positive, 1 neutral, 2 negative.
pub open spec fn share(s: Sentiment, which: int) -> int {
    if which == 0 { s.positive as int } else if which == 1 { s.neutral as int } else { s.negative as int }
}

pub open spec fn share_total(c: Seq<ClusterResult>, which: int) -> int
    decreases c.len(),
{
    if c.len() == 0 { 0 } else { share_total(c.drop_last(), which) + share(c.last().sentiment, which) }
}

pub open spec fn mean_share(c: Seq<ClusterResult>, which: int) -> int {
    if c.len() == 0 { 0 } else { share_total(c, which) / c.len() as int }
}

pub open spec fn any_spike(c: Seq<ClusterResult>) -> bool {
    exists|i: int| 0 <= i < c.len() && (#[trigger] c[i]).spike
}

pub open spec fn count_total(c: Seq<ClusterResult>) -> int
    decreases c.len(),
{
    if c.len() == 0 { 0 } else { count_total(c.drop_last()) + c.last().count }
}

/// The topic a cluster contributes: its normalised summary, or when that is
/// empty its first example as it stands; none when it has neither.
pub open spec fn topic_of(c: ClusterResult) -> Seq<Seq<char>> {
    let n = normalised(opt_text(c.summary), texts_of(c.examples@), None);
    if n.len() > 0 { seq![n] } else if c.examples.len() > 0 { seq![c.examples@[0]@] } else { Seq::empty() }
}

pub open spec fn topics_of(c: Seq<ClusterResult>) -> Seq<Seq<char>>
    decreases c.len(),
{
    if c.len() == 0 { Seq::empty() } else { topics_of(c.drop_last()) + topic_of(c.last()) }
}

/// Each text once, at its first place.
pub open spec fn unique_texts(s: Seq<Seq<char>>) -> Seq<Seq<char>>
    decreases s.len(),
{
    if s.len() == 0 {
        Seq::empty()
    } else {
        let d = unique_texts(s.drop_last());
        if d.contains(s.last()) { d } else { d.push(s.last()) }
    }
}

proof fn lemma_unique_distinct(s: Seq<Seq<char>>)
    ensures
        forall|i: int, j: int| 0 <= i < j < unique_texts(s).len() ==> unique_texts(s)[i] != unique_texts(s)[j],
    decreases s.len(),
{
    if s.len() > 0 {
        let d = unique_texts(s.drop_last());
        lemma_unique_distinct(s.drop_last());
        if !d.contains(s.last()) {
            let u = d.push(s.last());
            assert forall|i: int, j: int| 0 <= i < j < u.len() implies u[i] != u[j] by {
                if j == d.len() {
                    assert(u[i] == d[i]);
                    if u[i] == u[j] {
                        assert(d.contains(s.last()));
                    }
                } else {
                    assert(u[i] == d[i] && u[j] == d[j]);
                }
            }
        }
    }
}

/// The non-empty normalised summaries of the clusters.
pub open spec fn summaries_of(c: Seq<ClusterResult>) -> Seq<Seq<char>>
    decreases c.len(),
{
    if c.len() == 0 {
        Seq::empty()
    } else {
        let n = normalised(opt_text(c.last().summary), texts_of(c.last().examples@), None);
        if n.len() > 0 { summaries_of(c.drop_last()).push(n) } else { summaries_of(c.drop_last()) }
    }
}

/// Texts joined by single spaces.
pub open spec fn joined(parts: Seq<Seq<char>>) -> Seq<char>
    decreases parts.len(),
{
    if parts.len() == 0 {
        Seq::empty()
    } else if parts.len() == 1 {
        parts[0]
    } else {
        joined(parts.drop_last()) + seq![' '] + parts.last()
    }
}

/// What the orchestrator receives for one cluster.
pub open spec fn summarised(s: ClusterSummary, c: ClusterResult) -> bool {
    &&& s.id@ == decimal_text(c.cluster_id as int)
    &&& s.label@ == normalised(opt_text(c.summary), texts_of(c.examples@), Some(cluster_label(c.cluster_id as int)))
    &&& texts_of(s.mentions@) == texts_of(c.examples@)
    &&& s.sentiment_score == c.sentiment.positive - c.sentiment.negative
    &&& s.spike == c.spike
    &&& s.mention_count == c.count
}

proof fn lemma_mean_bound(total: int, k: int)
    requires
        k > 0,
        0 <= total <= k * 1_000_000,
    ensures
        total / k <= 1_000_000,
{
    assert(total / k <= (k * 1_000_000) / k) by (nonlinear_arith)
        requires k > 0, 0 <= total <= k * 1_000_000;
    assert((k * 1_000_000) / k == 1_000_000) by (nonlinear_arith)
        requires k > 0;
}

fn is_structured(t: &str) -> (r: bool)
    ensures
        r == looks_structured(t@),
{
    let n = t.unicode_len();
    if n == 0 {
        return false;
    }
    t.get_char(0) == '{' && t.get_char(n - 1) == '}' && contains_text(t, "positive")
}

fn copy_texts(v: &Vec<String>) -> (r: Vec<String>)
    ensures
        texts_of(r@) == texts_of(v@),
{
    let mut out: Vec<String> = Vec::new();
    let mut i: usize = 0;
    while i < v.len()
        invariant
            i <= v.len(),
            out.len() == i,
            forall|j: int| 0 <= j < i ==> #[trigger] out@[j]@ == v@[j]@,
        decreases v.len() - i,
    {
        out.push(v[i].clone());
        i = i + 1;
    }
    proof {
        assert(texts_of(out@) =~= texts_of(v@));
    }
    out
}

/// Chooses the label of a cluster; always `Some`.
pub fn normalise_summary_text(summary: &Option<String>, examples: &Vec<String>, fallback_label: Option<String>) -> (r: Option<String>)
    ensures
        r matches Some(t) && t@ == normalised(opt_text(*summary), texts_of(examples@), opt_text(fallback_label)),
{
    proof {
        reveal_strlit("");
        assert(""@ =~= Seq::<char>::empty());
    }
    let mut candidate = match summary {
        Some(s) => trim_text(s.as_str()),
        None => trim_text(""),
    };
    if is_structured(candidate.as_str()) {
        candidate = String::new();
    }
    if candidate.as_str().is_empty() && examples.len() > 0 {
        candidate = trim_text(examples[0].as_str());
        proof {
            assert(texts_of(examples@)[0] == examples@[0]@);
        }
    }
    if candidate.as_str().is_empty() {
        match fallback_label {
            Some(f) => {
                candidate = f;
            },
            None => {},
        }
    }
    Some(candidate)
}

/// Where results and failures are written, and how results are shaped.
#[derive(Debug, Clone)]
pub struct ResultStorage {
    pub result_prefix: String,
    pub failed_prefix: String,
    pub worker_id: String,
}

impl ResultStorage {
    pub fn new(settings: &Settings) -> (r: Self)
        ensures
            r.result_prefix@ == settings.redis_result_prefix@,
            r.failed_prefix@ == settings.redis_failed_prefix@,
            r.worker_id@ == settings.worker_id@,
    {
        ResultStorage {
            result_prefix: settings.redis_result_prefix.clone(),
            failed_prefix: settings.redis_failed_prefix.clone(),
            worker_id: settings.worker_id.clone(),
        }
    }

    /// `result-prefix:tenant:chunks`.
    pub fn result_key(&self, brand: &str) -> (r: String)
        ensures
            r@ == self.result_prefix@ + ":"@ + brand@ + ":chunks"@,
    {
        let head = concat3(self.result_prefix.as_str(), ":", brand);
        let r = concat3(head.as_str(), ":chunks", "");
        proof {
            reveal_strlit("");
            assert(r@ =~= self.result_prefix@ + ":"@ + brand@ + ":chunks"@);
        }
        r
    }

    /// `failed-prefix:tenant`.
    pub fn failure_key(&self, brand: &str) -> (r: String)
        ensures
            r@ == self.failed_prefix@ + ":"@ + brand@,
    {
        concat3(self.failed_prefix.as_str(), ":", brand)
    }

    pub fn build_clusters(&self, clusters: &Vec<ClusterResult>) -> (r: Vec<ClusterSummary>)
        requires
            all_wf(clusters@),
        ensures
            r.len() == clusters.len(),
            forall|i: int| 0 <= i < r.len() ==> summarised(#[trigger] r@[i], clusters@[i]),
    {
        let mut out: Vec<ClusterSummary> = Vec::new();
        let mut i: usize = 0;
        while i < clusters.len()
            invariant
                i <= clusters.len(),
                all_wf(clusters@),
                out.len() == i,
                forall|j: int| 0 <= j < i ==> summarised(#[trigger] out@[j], clusters@[j]),
            decreases clusters.len() - i,
        {
            let c = &clusters[i];
            assert(c.sentiment.wf());
            let id = i32_text(c.cluster_id);
            let fallback = concat3("Cluster ", id.as_str(), "");
            proof {
                reveal_strlit("");
                assert(fallback@ =~= cluster_label(c.cluster_id as int));
            }
            let label = match normalise_summary_text(&c.summary, &c.examples, Some(fallback)) {
                Some(l) => l,
                None => String::new(),
            };
            out.push(ClusterSummary {
                id,
                label,
                mentions: copy_texts(&c.examples),
                sentiment_score: c.sentiment.score(),
                spike: c.spike,
                mention_count: c.count,
            });
            i = i + 1;
        }
        out
    }

    pub fn aggregate_sentiment(&self, clusters: &Vec<ClusterResult>) -> (r: SentimentSummary)
        requires
            all_wf(clusters@),
        ensures
            r.positive == mean_share(clusters@, 0),
            r.neutral == mean_share(clusters@, 1),
            r.negative == mean_share(clusters@, 2),
            r.score == r.positive - r.negative,
    {
        let ghost c = clusters@;
        let mut pos: u128 = 0;
        let mut neu: u128 = 0;
        let mut neg: u128 = 0;
        let mut i: usize = 0;
        while i < clusters.len()
            invariant
                i <= clusters.len(),
                c == clusters@,
                all_wf(c),
                pos == share_total(c.take(i as int), 0),
                neu == share_total(c.take(i as int), 1),
                neg == share_total(c.take(i as int), 2),
                pos <= i * 1_000_000,
                neu <= i * 1_000_000,
                neg <= i * 1_000_000,
            decreases clusters.len() - i,
        {
            proof {
                assert(c.take(i as int + 1).drop_last() =~= c.take(i as int));
                assert(c[i as int].sentiment.wf());
            }
            let s = clusters[i].sentiment;
            pos = pos + s.positive as u128;
            neu = neu + s.neutral as u128;
            neg = neg + s.negative as u128;
            i = i + 1;
        }
        proof {
            assert(c.take(clusters.len() as int) =~= c);
        }
        let k = clusters.len() as u128;
        let (p, u, n): (u64, u64, u64) = if k > 0 {
            proof {
                lemma_mean_bound(pos as int, k as int);
                lemma_mean_bound(neu as int, k as int);
                lemma_mean_bound(neg as int, k as int);
            }
            ((pos / k) as u64, (neu / k) as u64, (neg / k) as u64)
        } else {
            (0, 0, 0)
        };
        SentimentSummary { positive: p, neutral: u, negative: n, score: p as i64 - n as i64 }
    }
}

} // verus!

verus! {

impl ResultStorage {
    /// The clusters' topics, each once at its first place, at most
    /// `PUBLISHED_TOPIC_LIMIT`.
    pub fn extract_topics(&self, clusters: &Vec<ClusterResult>) -> (r: Vec<String>)
        ensures
            texts_of(r@) == crate::processor::first_n(unique_texts(topics_of(clusters@)), PUBLISHED_TOPIC_LIMIT as int),
            forall|i: int, j: int| 0 <= i < j < r.len() ==> r@[i]@ != r@[j]@,
    {
        let ghost c = clusters@;
        let mut topics: Vec<String> = Vec::new();
        let mut i: usize = 0;
        while i < clusters.len()
            invariant
                i <= clusters.len(),
                c == clusters@,
                texts_of(topics@) == unique_texts(topics_of(c.take(i as int))),
            decreases clusters.len() - i,
        {
            let ghost before = topics_of(c.take(i as int));
            proof {
                assert(c.take(i as int + 1).drop_last() =~= c.take(i as int));
                assert(topics_of(c.take(i as int + 1)) == before + topic_of(c[i as int]));
            }
            let cl = &clusters[i];
            let n = match normalise_summary_text(&cl.summary, &cl.examples, None) {
                Some(t) => t,
                None => String::new(),
            };
            let candidate: Option<String> = if !n.as_str().is_empty() {
                Some(n)
            } else if cl.examples.len() > 0 {
                Some(cl.examples[0].clone())
            } else {
                None
            };
            proof {
                assert(topic_of(c[i as int]) == match candidate { Some(t) => seq![t@], None => Seq::<Seq<char>>::empty() });
            }
            match candidate {
                Some(t) => {
                    proof {
                        assert((before + seq![t@]).drop_last() =~= before);
                    }
                    if !crate::preprocess::contains_string(&topics, &t) {
                        topics.push(t);
                        proof {
                            assert(texts_of(topics@) =~= unique_texts(before).push(t@));
                        }
                    }
                },
                None => {
                    proof {
                        assert(before + Seq::<Seq<char>>::empty() =~= before);
                    }
                },
            }
            i = i + 1;
        }
        proof {
            assert(c.take(clusters.len() as int) =~= c);
            lemma_unique_distinct(topics_of(c));
        }
        let ghost all = texts_of(topics@);
        if topics.len() > PUBLISHED_TOPIC_LIMIT {
            topics.truncate(PUBLISHED_TOPIC_LIMIT);
        }
        proof {
            assert(texts_of(topics@) =~= crate::processor::first_n(all, PUBLISHED_TOPIC_LIMIT as int));
            assert forall|i: int, j: int| 0 <= i < j < topics.len() implies topics@[i]@ != topics@[j]@ by {
                assert(texts_of(topics@)[i] == all[i]);
                assert(texts_of(topics@)[j] == all[j]);
            }
        }
        topics
    }

    /// The clusters' non-empty normalised summaries joined by spaces.
    pub fn combine_summaries(&self, clusters: &Vec<ClusterResult>) -> (r: String)
        ensures
            r@ == joined(summaries_of(clusters@)),
    {
        let ghost c = clusters@;
        let mut out = String::new();
        let mut any = false;
        let mut i: usize = 0;
        while i < clusters.len()
            invariant
                i <= clusters.len(),
                c == clusters@,
                out@ == joined(summaries_of(c.take(i as int))),
                any == (summaries_of(c.take(i as int)).len() > 0),
            decreases clusters.len() - i,
        {
            proof {
                assert(c.take(i as int + 1).drop_last() =~= c.take(i as int));
            }
            let cl = &clusters[i];
            let n = match normalise_summary_text(&cl.summary, &cl.examples, None) {
                Some(t) => t,
                None => String::new(),
            };
            if !n.as_str().is_empty() {
                let ghost before = summaries_of(c.take(i as int));
                if any {
                    out.append(" ");
                    proof {
                        reveal_strlit(" ");
                    }
                }
                out.append(n.as_str());
                any = true;
                proof {
                    let after = summaries_of(c.take(i as int + 1));
                    assert(after == before.push(n@));
                    assert(after.drop_last() =~= before);
                    if before.len() == 0 {
                        assert(out@ =~= joined(after));
                    } else {
                        assert(out@ =~= joined(after));
                    }
                }
            }
            i = i + 1;
        }
        proof {
            assert(c.take(clusters.len() as int) =~= c);
        }
        out
    }

    /// The outbound form of a result; `processed_at` is the publish time as
    /// an RFC 3339 text.
    pub fn format_for_orchestrator(&self, result: &ChunkResult, processed_at: String) -> (r: OrchestratorPayload)
        requires
            all_wf(result.clusters@),
        ensures
            r.chunk_id@ == result.chunk_id@,
            r.brand@ == result.brand@,
            r.processed_at@ == processed_at@,
            r.sentiment.positive == mean_share(result.clusters@, 0),
            r.sentiment.neutral == mean_share(result.clusters@, 1),
            r.sentiment.negative == mean_share(result.clusters@, 2),
            r.sentiment.score == r.sentiment.positive - r.sentiment.negative,
            r.clusters.len() == result.clusters.len(),
            forall|i: int| 0 <= i < r.clusters.len() ==> summarised(#[trigger] r.clusters@[i], result.clusters@[i]),
            texts_of(r.topics@) == crate::processor::first_n(unique_texts(topics_of(result.clusters@)), PUBLISHED_TOPIC_LIMIT as int),
            r.summary@ == joined(summaries_of(result.clusters@)),
            r.spike_detected == any_spike(result.clusters@),
            r.metrics == result.metrics,
            r.mention_count == if count_total(result.clusters@) > usize::MAX { usize::MAX as int } else { count_total(result.clusters@) },
    {
        let ghost c = result.clusters@;
        let mut spike = false;
        let mut count: usize = 0;
        let mut saturated = false;
        let mut i: usize = 0;
        while i < result.clusters.len()
            invariant
                i <= result.clusters.len(),
                c == result.clusters@,
                spike == any_spike(c.take(i as int)),
                saturated == (count_total(c.take(i as int)) > usize::MAX),
                !saturated ==> count == count_total(c.take(i as int)),
                saturated ==> count == usize::MAX,
                count_total(c.take(i as int)) >= 0,
            decreases result.clusters.len() - i,
        {
            proof {
                assert(c.take(i as int + 1).drop_last() =~= c.take(i as int));
                assert(c.take(i as int + 1)[i as int] == c[i as int]);
                if any_spike(c.take(i as int)) {
                    let k = choose|k: int| 0 <= k < i && (#[trigger] c.take(i as int)[k]).spike;
                    assert(c.take(i as int + 1)[k] == c.take(i as int)[k]);
                }
                if any_spike(c.take(i as int + 1)) && !c[i as int].spike {
                    let k = choose|k: int| 0 <= k < i + 1 && (#[trigger] c.take(i as int + 1)[k]).spike;
                    assert(c.take(i as int)[k] == c.take(i as int + 1)[k]);
                }
            }
            let cl = &result.clusters[i];
            if cl.spike {
                spike = true;
            }
            if !saturated {
                if count <= usize::MAX - cl.count {
                    count = count + cl.count;
                } else {
                    count = usize::MAX;
                    saturated = true;
                }
            }
            i = i + 1;
        }
        proof {
            assert(c.take(result.clusters.len() as int) =~= c);
        }
        OrchestratorPayload {
            chunk_id: result.chunk_id.clone(),
            brand: result.brand.clone(),
            processed_at,
            sentiment: self.aggregate_sentiment(&result.clusters),
            clusters: self.build_clusters(&result.clusters),
            topics: self.extract_topics(&result.clusters),
            summary: self.combine_summaries(&result.clusters),
            spike_detected: spike,
            metrics: result.metrics,
            mention_count: count,
        }
    }
}

} // verus!
