//! Language backends: a summary and a three-way sentiment per cluster.

use vstd::prelude::*;
use crate::text::{contains_text, lowercase_text, lowercased, occurs_in};
use crate::types::{Sentiment, SENTIMENT_SCALE};
use crate::preprocess::texts_of;
use crate::config::Settings;
use crate::processor::opt_text;

verus! {

/// A summarizing and sentiment-scoring backend.
pub trait LlmAdapter {
    /// The summary this backend gives of these texts.
    spec fn summary_of(&self, texts: Seq<Seq<char>>) -> Option<Seq<char>>;

    /// The distribution this backend gives of these texts.
    spec fn sentiment_of(&self, texts: Seq<Seq<char>>) -> Sentiment;

    /// A short summary of the texts, if the backend has one.
    fn summarize(&self, texts: &Vec<String>) -> (r: Option<String>)
        ensures
            opt_text(r) == self.summary_of(texts_of(texts@));

    /// The share of positive, negative and neutral texts; always a whole.
    fn sentiment(&self, texts: &Vec<String>) -> (r: Sentiment)
        ensures
            r == self.sentiment_of(texts_of(texts@)),
            r.wf();
}

/// The built-in summary: the first text, if any.
pub open spec fn first_text(texts: Seq<Seq<char>>) -> Option<Seq<char>> {
    if texts.len() == 0 { None } else { Some(texts[0]) }
}

fn first_of(texts: &Vec<String>) -> (r: Option<String>)
    ensures
        opt_text(r) == first_text(texts_of(texts@)),
{
    if texts.len() == 0 {
        None
    } else {
        proof {
            assert(texts_of(texts@)[0] == texts@[0]@);
        }
        Some(texts[0].clone())
    }
}

pub open spec fn positive_words() -> Seq<Seq<char>> {
    seq!["great"@, "good"@, "love"@, "awesome"@, "excellent"@, "improved"@, "success"@, "fast"@]
}

pub open spec fn negative_words() -> Seq<Seq<char>> {
    seq!["bad"@, "hate"@, "poor"@, "slow"@, "issue"@, "problem"@, "bug"@, "error"@]
}

/// How many of `words` occur in `text`.
pub open spec fn hits(words: Seq<Seq<char>>, text: Seq<char>) -> nat
    decreases words.len(),
{
    if words.len() == 0 {
        0
    } else {
        hits(words.drop_last(), text) + if occurs_in(words.last(), text) { 1nat } else { 0nat }
    }
}

/// Tone of one text: 1 positive, -1 negative, 0 neutral, by comparing how
/// many positive and negative words its lower-cased form holds.
pub open spec fn tone(text: Seq<char>) -> int {
    let l = lowercased(text);
    if hits(positive_words(), l) > hits(negative_words(), l) {
        1
    } else if hits(positive_words(), l) < hits(negative_words(), l) {
        -1
    } else {
        0
    }
}

/// How many of `texts` have tone `t`.
pub open spec fn tone_count(texts: Seq<Seq<char>>, t: int) -> nat
    decreases texts.len(),
{
    if texts.len() == 0 {
        0
    } else {
        tone_count(texts.drop_last(), t) + if tone(texts.last()) == t { 1nat } else { 0nat }
    }
}

/// The keyword heuristic's distribution: each tone's share of the texts,
/// rounded down to parts of the scale, neutral taking the remainder; all
/// neutral when there is no text.
pub open spec fn heuristic_sentiment(texts: Seq<Seq<char>>) -> Sentiment {
    if texts.len() == 0 {
        Sentiment { positive: 0, negative: 0, neutral: SENTIMENT_SCALE }
    } else {
        let p = ((tone_count(texts, 1) * SENTIMENT_SCALE) as int / texts.len() as int) as u64;
        let n = ((tone_count(texts, -1) * SENTIMENT_SCALE) as int / texts.len() as int) as u64;
        Sentiment { positive: p, negative: n, neutral: (SENTIMENT_SCALE - p - n) as u64 }
    }
}

fn count_hits(text: &str, words: &[&str]) -> (r: usize)
    ensures
        r == hits(words@.map_values(|w: &str| w@), text@),
{
    let ghost ws = words@.map_values(|w: &str| w@);
    let mut count: usize = 0;
    let mut i: usize = 0;
    while i < words.len()
        invariant
            i <= words.len(),
            ws == words@.map_values(|w: &str| w@),
            count == hits(ws.take(i as int), text@),
            count <= i,
        decreases words.len() - i,
    {
        proof {
            assert(ws.take(i as int + 1).drop_last() =~= ws.take(i as int));
        }
        if contains_text(text, words[i]) {
            count = count + 1;
        }
        i = i + 1;
    }
    proof {
        assert(ws.take(words.len() as int) =~= ws);
    }
    count
}

/// Tone of one text, as `tone` gives it.
fn text_tone(text: &str) -> (r: i8)
    ensures
        r as int == tone(text@),
{
    let lower = lowercase_text(text);
    let positive: [&str; 8] = ["great", "good", "love", "awesome", "excellent", "improved", "success", "fast"];
    let negative: [&str; 8] = ["bad", "hate", "poor", "slow", "issue", "problem", "bug", "error"];
    proof {
        assert(positive@.map_values(|w: &str| w@) =~= positive_words());
        assert(negative@.map_values(|w: &str| w@) =~= negative_words());
    }
    let pos = count_hits(lower.as_str(), positive.as_slice());
    let neg = count_hits(lower.as_str(), negative.as_slice());
    if pos > neg {
        1
    } else if pos < neg {
        -1
    } else {
        0
    }
}

/// Scores texts by counting positive and negative keywords in each.
pub fn simple_sentiment(texts: &Vec<String>) -> (r: Sentiment)
    ensures
        r == heuristic_sentiment(texts_of(texts@)),
        r.wf(),
{
    let ghost ts = texts_of(texts@);
    let mut positive: usize = 0;
    let mut negative: usize = 0;
    let mut i: usize = 0;
    while i < texts.len()
        invariant
            i <= texts.len(),
            ts == texts_of(texts@),
            positive == tone_count(ts.take(i as int), 1),
            negative == tone_count(ts.take(i as int), -1),
            positive + negative <= i,
        decreases texts.len() - i,
    {
        proof {
            assert(ts.take(i as int + 1).drop_last() =~= ts.take(i as int));
            assert(ts.take(i as int + 1).last() == texts@[i as int]@);
        }
        let t = text_tone(texts[i].as_str());
        if t == 1 {
            positive = positive + 1;
        } else if t == -1 {
            negative = negative + 1;
        }
        i = i + 1;
    }
    proof {
        assert(ts.take(texts.len() as int) =~= ts);
    }
    if texts.len() == 0 {
        return Sentiment { positive: 0, negative: 0, neutral: SENTIMENT_SCALE };
    }
    let total = texts.len() as u128;
    let p = (positive as u128 * SENTIMENT_SCALE as u128 / total) as u64;
    let n = (negative as u128 * SENTIMENT_SCALE as u128 / total) as u64;
    proof {
        let t = texts.len() as int;
        assert(positive * SENTIMENT_SCALE / t + negative * SENTIMENT_SCALE / t <= SENTIMENT_SCALE) by (nonlinear_arith)
            requires
                positive + negative <= t,
                t > 0,
        {
            assert(positive * SENTIMENT_SCALE / t + negative * SENTIMENT_SCALE / t <= (positive * SENTIMENT_SCALE + negative * SENTIMENT_SCALE) / t);
            assert(positive * SENTIMENT_SCALE + negative * SENTIMENT_SCALE <= t * SENTIMENT_SCALE);
        }
    }
    Sentiment { positive: p, negative: n, neutral: SENTIMENT_SCALE - p - n }
}

/// The built-in backend: the first text as summary, the keyword heuristic
/// as sentiment.
#[derive(Debug, Clone, Copy)]
pub struct MockLlmAdapter;

impl LlmAdapter for MockLlmAdapter {
    open spec fn summary_of(&self, texts: Seq<Seq<char>>) -> Option<Seq<char>> {
        first_text(texts)
    }

    open spec fn sentiment_of(&self, texts: Seq<Seq<char>>) -> Sentiment {
        heuristic_sentiment(texts)
    }

    fn summarize(&self, texts: &Vec<String>) -> (r: Option<String>) {
        first_of(texts)
    }

    fn sentiment(&self, texts: &Vec<String>) -> (r: Sentiment) {
        simple_sentiment(texts)
    }
}

/// A named remote provider; until one is wired in it answers as the
/// built-in backend does.
#[derive(Debug, Clone)]
pub struct RemoteLlmAdapter {
    pub provider: String,
}

impl LlmAdapter for RemoteLlmAdapter {
    open spec fn summary_of(&self, texts: Seq<Seq<char>>) -> Option<Seq<char>> {
        first_text(texts)
    }

    open spec fn sentiment_of(&self, texts: Seq<Seq<char>>) -> Sentiment {
        heuristic_sentiment(texts)
    }

    fn summarize(&self, texts: &Vec<String>) -> (r: Option<String>) {
        first_of(texts)
    }

    fn sentiment(&self, texts: &Vec<String>) -> (r: Sentiment) {
        simple_sentiment(texts)
    }
}

/// The backend chosen by configuration.
#[derive(Debug, Clone)]
pub enum LlmBackend {
    Mock(MockLlmAdapter),
    Remote(RemoteLlmAdapter),
}

impl LlmAdapter for LlmBackend {
    open spec fn summary_of(&self, texts: Seq<Seq<char>>) -> Option<Seq<char>> {
        match self {
            LlmBackend::Mock(a) => a.summary_of(texts),
            LlmBackend::Remote(a) => a.summary_of(texts),
        }
    }

    open spec fn sentiment_of(&self, texts: Seq<Seq<char>>) -> Sentiment {
        match self {
            LlmBackend::Mock(a) => a.sentiment_of(texts),
            LlmBackend::Remote(a) => a.sentiment_of(texts),
        }
    }

    fn summarize(&self, texts: &Vec<String>) -> (r: Option<String>) {
        match self {
            LlmBackend::Mock(a) => a.summarize(texts),
            LlmBackend::Remote(a) => a.summarize(texts),
        }
    }

    fn sentiment(&self, texts: &Vec<String>) -> (r: Sentiment) {
        match self {
            LlmBackend::Mock(a) => a.sentiment(texts),
            LlmBackend::Remote(a) => a.sentiment(texts),
        }
    }
}

/// `mock` selects the built-in backend, any other provider a remote one.
pub fn build_llm_adapter(settings: &Settings) -> (r: LlmBackend)
    ensures
        (r is Mock) == (settings.llm_provider@ == "mock"@),
        r matches LlmBackend::Remote(a) ==> a.provider@ == settings.llm_provider@,
{
    if crate::text::same_text(settings.llm_provider.as_str(), "mock") {
        LlmBackend::Mock(MockLlmAdapter)
    } else {
        LlmBackend::Remote(RemoteLlmAdapter { provider: settings.llm_provider.clone() })
    }
}

} // verus!
