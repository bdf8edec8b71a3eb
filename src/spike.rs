//! Rolling-window spike detection over a per-(tenant, cluster) history of
//! counts, kept most recent first.

use vstd::prelude::*;
use crate::text::{concat3, decimal_text, i32_text};

verus! {

/// Most entries a spike history keeps.
pub const HISTORY_WINDOW: usize = 100;

/// Sum of a history.
pub open spec fn sum_of(h: Seq<i64>) -> int
    decreases h.len(),
{
    if h.len() == 0 {
        0
    } else {
        sum_of(h.drop_last()) + h.last()
    }
}

/// The entries a detection looks at: at most the window's worth, most recent first.
pub open spec fn considered(h: Seq<i64>) -> Seq<i64> {
    if h.len() <= HISTORY_WINDOW { h } else { h.take(HISTORY_WINDOW as int) }
}

/// `current > max(threshold, 2 * average)`, the average being the mean of the
/// history (0 when it is empty), written without division.
pub open spec fn spike_rule(h: Seq<i64>, current: int, threshold: int) -> bool {
    &&& current > threshold
    &&& (h.len() == 0 || current * h.len() > 2 * sum_of(h))
}

/// A list after pushing `v` in front and keeping its first `keep` entries.
pub open spec fn pushed_and_trimmed(h: Seq<i64>, v: i64, keep: int) -> Seq<i64> {
    let n = seq![v] + h;
    if n.len() <= keep { n } else { n.take(keep) }
}

/// A history after one append: the new count in front, trimmed to the window.
pub open spec fn after_append(h: Seq<i64>, v: i64) -> Seq<i64> {
    pushed_and_trimmed(h, v, HISTORY_WINDOW as int)
}

/// A history after appending each of `vs`, in order.
pub open spec fn after_appends(h: Seq<i64>, vs: Seq<i64>) -> Seq<i64>
    decreases vs.len(),
{
    if vs.len() == 0 {
        h
    } else {
        after_append(after_appends(h, vs.drop_last()), vs.last())
    }
}

/// The store key of a history: `prefix:tenant:cluster`.
pub open spec fn history_key_text(prefix: Seq<char>, brand: Seq<char>, cluster_id: int) -> Seq<char> {
    prefix + seq![':'] + brand + seq![':'] + decimal_text(cluster_id)
}

/// Outcome of one detection. The historical average is
/// `history_total / history_len` (0 when the length is 0).
#[derive(Debug, Clone)]
pub struct SpikeDetectionResult {
    pub is_spike: bool,
    pub history_total: i128,
    pub history_len: usize,
    pub current_count: usize,
}

impl Default for SpikeDetectionResult {
    /// No spike, every figure zero: what a cluster gets when detection fails.
    fn default() -> (r: Self)
        ensures
            !r.is_spike,
            r.history_total == 0,
            r.history_len == 0,
            r.current_count == 0,
    {
        SpikeDetectionResult { is_spike: false, history_total: 0, history_len: 0, current_count: 0 }
    }
}

/// One atomic batch against the store: push `value` in front of the list at
/// `key`, keep its first `keep` entries, and let the key expire after `ttl_secs`.
#[derive(Debug, Clone)]
pub struct HistoryAppend {
    pub key: String,
    pub value: i64,
    pub keep: usize,
    pub ttl_secs: u64,
}

impl HistoryAppend {
    /// What the batch does to the list it is applied to.
    pub fn apply_to(&self, history: &mut Vec<i64>)
        ensures
            final(history)@ == pushed_and_trimmed(old(history)@, self.value, self.keep as int),
    {
        history.insert(0, self.value);
        if history.len() > self.keep {
            history.truncate(self.keep);
        }
        proof {
            let n = seq![self.value] + old(history)@;
            assert(history@ =~= pushed_and_trimmed(old(history)@, self.value, self.keep as int));
        }
    }
}

/// Flags clusters whose current volume stands out against their history.
#[derive(Debug, Clone)]
pub struct SpikeDetector {
    pub threshold: u32,
    pub key_prefix: String,
    pub history_ttl_secs: u64,
}

impl SpikeDetector {
    pub fn new(threshold: u32, key_prefix: String, history_ttl_secs: u64) -> (r: Self)
        ensures
            r.threshold == threshold,
            r.key_prefix@ == key_prefix@,
            r.history_ttl_secs == history_ttl_secs,
    {
        SpikeDetector { threshold, key_prefix, history_ttl_secs }
    }

    /// The store key of the history of `cluster_id` under `brand`.
    pub fn history_key(&self, brand: &str, cluster_id: i32) -> (r: String)
        ensures
            r@ == history_key_text(self.key_prefix@, brand@, cluster_id as int),
    {
        let head = concat3(self.key_prefix.as_str(), ":", brand);
        let id = i32_text(cluster_id);
        let r = concat3(head.as_str(), ":", id.as_str());
        proof {
            reveal_strlit(":");
            assert(r@ =~= history_key_text(self.key_prefix@, brand@, cluster_id as int));
        }
        r
    }

    /// Decides whether `current_count` is a spike against `history` (most
    /// recent first; only the first `HISTORY_WINDOW` entries count).
    pub fn evaluate(&self, history: &Vec<i64>, current_count: usize) -> (r: SpikeDetectionResult)
        ensures
            r.is_spike == spike_rule(considered(history@), current_count as int, self.threshold as int),
            r.history_total == sum_of(considered(history@)),
            r.history_len == considered(history@).len(),
            r.current_count == current_count,
    {
        let n: usize = if history.len() <= HISTORY_WINDOW { history.len() } else { HISTORY_WINDOW };
        let ghost h = considered(history@);
        let mut total: i128 = 0;
        let mut i: usize = 0;
        while i < n
            invariant
                n == h.len(),
                n <= HISTORY_WINDOW,
                i <= n,
                h == considered(history@),
                forall|j: int| 0 <= j < n ==> h[j] == history@[j],
                total == sum_of(h.take(i as int)),
                -(i as int) * 0x8000_0000_0000_0000 <= total <= (i as int) * 0x8000_0000_0000_0000,
            decreases n - i,
        {
            proof {
                assert(h.take(i as int + 1).drop_last() =~= h.take(i as int));
            }
            total = total + history[i] as i128;
            i = i + 1;
        }
        proof {
            assert(h.take(n as int) =~= h);
        }
        let current = current_count as i128;
        let len = n as i128;
        assert(0 <= current * len <= 0xffff_ffff_ffff_ffff * 100) by (nonlinear_arith)
            requires
                0 <= current <= 0xffff_ffff_ffff_ffff,
                0 <= len <= 100,
        ;
        let is_spike = current_count as u64 > self.threshold as u64 && (n == 0 || current * len > 2 * total);
        SpikeDetectionResult { is_spike, history_total: total, history_len: n, current_count }
    }

    /// The batch that records `current_count` in the history of `cluster_id`
    /// (counts beyond `i64::MAX` are recorded as `i64::MAX`).
    pub fn append_batch(&self, brand: &str, cluster_id: i32, current_count: usize) -> (r: HistoryAppend)
        ensures
            r.key@ == history_key_text(self.key_prefix@, brand@, cluster_id as int),
            r.value as int == if current_count as int <= i64::MAX { current_count as int } else { i64::MAX as int },
            r.keep == HISTORY_WINDOW,
            r.ttl_secs == self.history_ttl_secs,
    {
        let key = self.history_key(brand, cluster_id);
        let value: i64 = if current_count as u64 <= i64::MAX as u64 { current_count as i64 } else { i64::MAX };
        HistoryAppend { key, value, keep: HISTORY_WINDOW, ttl_secs: self.history_ttl_secs }
    }
}

/// After appending `vs` to any history, the newest entries come first: the
/// appended counts, latest first, then what the history held before, as far
/// as the window reaches.
pub proof fn lemma_history_order(h: Seq<i64>, vs: Seq<i64>)
    ensures
        forall|i: int| 0 <= i < after_appends(h, vs).len() ==> #[trigger] after_appends(h, vs)[i]
            == if i < vs.len() { vs[vs.len() - 1 - i] } else { h[i - vs.len()] },
        after_appends(h, vs).len() <= h.len() + vs.len(),
    decreases vs.len(),
{
    if vs.len() > 0 {
        let prev = vs.drop_last();
        lemma_history_order(h, prev);
        let p = after_appends(h, prev);
        let r = after_appends(h, vs);
        assert(r == after_append(p, vs.last()));
        assert forall|i: int| 0 <= i < r.len() implies #[trigger] r[i]
            == if i < vs.len() { vs[vs.len() - 1 - i] } else { h[i - vs.len()] } by {
            if i > 0 {
                assert(r[i] == p[i - 1]);
            }
        }
    }
}

/// Appending counts one at a time keeps `min(N, HISTORY_WINDOW)` entries of
/// a fresh history, and they are the most recent ones, newest first: no
/// append is lost and the oldest leave first.
pub proof fn lemma_history_keeps_most_recent(vs: Seq<i64>)
    ensures
        after_appends(Seq::empty(), vs).len() == if vs.len() <= HISTORY_WINDOW { vs.len() } else { HISTORY_WINDOW as nat },
        forall|i: int| 0 <= i < after_appends(Seq::empty(), vs).len()
            ==> #[trigger] after_appends(Seq::empty(), vs)[i] == vs[vs.len() - 1 - i],
    decreases vs.len(),
{
    if vs.len() > 0 {
        let prev = vs.drop_last();
        lemma_history_keeps_most_recent(prev);
        let h = after_appends(Seq::empty(), prev);
        let r = after_appends(Seq::empty(), vs);
        assert(r == after_append(h, vs.last()));
        assert forall|i: int| 0 <= i < r.len() implies #[trigger] r[i] == vs[vs.len() - 1 - i] by {
            if i > 0 {
                assert(r[i] == h[i - 1]);
                assert(h[i - 1] == prev[prev.len() - 1 - (i - 1)]);
            }
        }
    }
}

/// Appending to any history never loses a new count: each of the last
/// `HISTORY_WINDOW` appended counts is there, latest first.
pub proof fn lemma_appends_never_lost(h: Seq<i64>, vs: Seq<i64>)
    ensures
        forall|i: int| 0 <= i < vs.len() && i < HISTORY_WINDOW ==> i < after_appends(h, vs).len()
            && #[trigger] after_appends(h, vs)[i] == vs[vs.len() - 1 - i],
{
    lemma_history_order(h, vs);
    lemma_history_length(h, vs);
}

/// Appending to any history never loses an entry while the window has room,
/// and never holds more than the window.
pub proof fn lemma_history_length(h: Seq<i64>, vs: Seq<i64>)
    ensures
        after_appends(h, vs).len() == if h.len() + vs.len() <= HISTORY_WINDOW {
            h.len() + vs.len()
        } else if h.len() <= HISTORY_WINDOW {
            HISTORY_WINDOW as nat
        } else if vs.len() == 0 {
            h.len()
        } else {
            HISTORY_WINDOW as nat
        },
    decreases vs.len(),
{
    if vs.len() > 0 {
        lemma_history_length(h, vs.drop_last());
    }
}

} // verus!

verus! {

pub open spec fn is_digit(c: char) -> bool {
    '0' <= c && c <= '9'
}

/// Value of a run of decimal digits.
pub open spec fn digits_value(s: Seq<char>) -> int
    decreases s.len(),
{
    if s.len() == 0 {
        0
    } else {
        digits_value(s.drop_last()) * 10 + (s.last() as int - '0' as int)
    }
}

/// An `i64` written as an optional sign and one or more decimal digits,
/// nothing else; `None` when the text is not one or the value does not fit.
pub open spec fn decimal_i64(s: Seq<char>) -> Option<i64> {
    let signed = s.len() > 0 && (s[0] == '-' || s[0] == '+');
    let body = if signed { s.drop_first() } else { s };
    let v = if s.len() > 0 && s[0] == '-' { -digits_value(body) } else { digits_value(body) };
    if body.len() == 0 || exists|i: int| 0 <= i < body.len() && !is_digit(#[trigger] body[i]) {
        None
    } else if i64::MIN <= v <= i64::MAX {
        Some(v as i64)
    } else {
        None
    }
}

/// The entries that read as integers, in order.
pub open spec fn readable_counts(s: Seq<Seq<char>>) -> Seq<i64>
    decreases s.len(),
{
    if s.len() == 0 {
        Seq::empty()
    } else {
        match decimal_i64(s.last()) {
            Some(v) => readable_counts(s.drop_last()).push(v),
            None => readable_counts(s.drop_last()),
        }
    }
}

/// Relies on `str::parse::<i64>`: an optional `+` or `-` followed by digits
/// only, in range.
#[verifier::external_body]
fn parse_i64(s: &str) -> (r: Option<i64>)
    ensures
        r == decimal_i64(s@),
{
    s.parse::<i64>().ok()
}

/// The counts of a history as the store holds it, as text; entries that do
/// not read as integers are skipped.
pub fn history_from_entries(entries: &Vec<String>) -> (r: Vec<i64>)
    ensures
        r@ == readable_counts(crate::preprocess::texts_of(entries@)),
{
    let ghost t = crate::preprocess::texts_of(entries@);
    let mut out: Vec<i64> = Vec::new();
    let mut i: usize = 0;
    while i < entries.len()
        invariant
            i <= entries.len(),
            t == crate::preprocess::texts_of(entries@),
            out@ == readable_counts(t.take(i as int)),
        decreases entries.len() - i,
    {
        proof {
            assert(t.take(i as int + 1).drop_last() =~= t.take(i as int));
            assert(t.take(i as int + 1).last() == entries@[i as int]@);
        }
        match parse_i64(entries[i].as_str()) {
            Some(v) => out.push(v),
            None => {},
        }
        i = i + 1;
    }
    proof {
        assert(t.take(entries.len() as int) =~= t);
    }
    out
}

} // verus!
