//! Worker decisions: queue-key parsing, the per-payload outcome machine,
//! idle tracking and liveness keys. The caller performs the store and
//! network work each decision asks for.

use vstd::prelude::*;
use crate::text::{concat3, owned, trim_text};
use crate::types::FailureRecord;
use crate::processor::effective_brand;

verus! {

/// Why a chunk failed, as counted and recorded.
#[derive(Debug, Clone, Copy, PartialEq, Eq, Structural)]
pub enum FailureReason {
    JsonDecode,
    Processing,
}

pub open spec fn label_of(r: FailureReason) -> Seq<char> {
    match r {
        FailureReason::JsonDecode => "json_decode"@,
        FailureReason::Processing => "processing"@,
    }
}

pub open spec fn message_of(r: FailureReason) -> Seq<char> {
    match r {
        FailureReason::JsonDecode => "Invalid JSON"@,
        FailureReason::Processing => "Processing failed"@,
    }
}

impl FailureReason {
    /// The machine-readable reason that failure counters are tagged with.
    pub fn label(self) -> (r: &'static str)
        ensures
            r@ == label_of(self),
    {
        match self {
            FailureReason::JsonDecode => "json_decode",
            FailureReason::Processing => "processing",
        }
    }

    /// The reason written into a failure record.
    pub fn message(self) -> (r: &'static str)
        ensures
            r@ == message_of(self),
    {
        match self {
            FailureReason::JsonDecode => "Invalid JSON",
            FailureReason::Processing => "Processing failed",
        }
    }
}

/// The text up to the first `:` (all of it when there is none).
pub open spec fn first_field(s: Seq<char>) -> Seq<char>
    decreases s.len(),
{
    if s.len() == 0 {
        s
    } else if s[0] == ':' {
        Seq::empty()
    } else {
        seq![s[0]] + first_field(s.drop_first())
    }
}

/// The text after the first `:`, if there is one.
pub open spec fn after_colon(s: Seq<char>) -> Option<Seq<char>>
    decreases s.len(),
{
    if s.len() == 0 {
        None
    } else if s[0] == ':' {
        Some(s.drop_first())
    } else {
        after_colon(s.drop_first())
    }
}

/// The `k`-th `:`-separated field, counting from 0.
pub open spec fn nth_field(s: Seq<char>, k: nat) -> Option<Seq<char>>
    decreases k,
{
    if k == 0 {
        Some(first_field(s))
    } else {
        match after_colon(s) {
            Some(rest) => nth_field(rest, (k - 1) as nat),
            None => None,
        }
    }
}

/// The tenant named by a queue key: the field after `prefix:` when the key
/// starts with it, else the key's third field, else `unknown`.
pub open spec fn brand_of_queue(key: Seq<char>, prefix: Seq<char>) -> Seq<char> {
    let p = prefix.push(':');
    if p.len() <= key.len() && key.take(p.len() as int) == p {
        first_field(key.skip(p.len() as int))
    } else {
        match nth_field(key, 2) {
            Some(f) => f,
            None => "unknown"@,
        }
    }
}

proof fn lemma_field_scan(s: Seq<char>, start: int, end: int)
    requires
        0 <= start <= end <= s.len(),
        forall|i: int| start <= i < end ==> s[i] != ':',
        end == s.len() || s[end] == ':',
    ensures
        first_field(s.skip(start)) == s.subrange(start, end),
        after_colon(s.skip(start)) == if end < s.len() { Some(s.skip(end + 1)) } else { None },
    decreases end - start,
{
    let t = s.skip(start);
    if start == end {
        if end < s.len() {
            assert(t[0] == ':');
            assert(t.drop_first() =~= s.skip(end + 1));
        } else {
            assert(t.len() == 0);
        }
        assert(s.subrange(start, end) =~= Seq::<char>::empty());
    } else {
        lemma_field_scan(s, start + 1, end);
        assert(t.drop_first() =~= s.skip(start + 1));
        assert(t[0] == s[start]);
        assert(s.subrange(start, end) =~= seq![s[start]] + s.subrange(start + 1, end));
    }
}

/// The first position at or after `start` that holds `:`, or the length.
fn next_colon(s: &str, n: usize, start: usize) -> (r: usize)
    requires
        n == s@.len(),
        start <= n,
    ensures
        start <= r <= n,
        forall|i: int| start <= i < r ==> s@[i] != ':',
        r == n || s@[r as int] == ':',
{
    let mut j = start;
    while j < n && s.get_char(j) != ':'
        invariant
            start <= j <= n,
            n == s@.len(),
            forall|i: int| start <= i < j ==> s@[i] != ':',
        decreases n - j,
    {
        j = j + 1;
    }
    j
}

fn has_prefix_then_colon(key: &str, n: usize, prefix: &str) -> (r: bool)
    requires
        n == key@.len(),
    ensures
        r == (prefix@.push(':').len() <= key@.len() && key@.take(prefix@.len() as int + 1) == prefix@.push(':')),
{
    let p = prefix.unicode_len();
    if p >= n {
        proof {
            assert(prefix@.push(':').len() > key@.len());
        }
        return false;
    }
    let mut i: usize = 0;
    while i < p
        invariant
            i <= p,
            p == prefix@.len(),
            p < n,
            n == key@.len(),
            forall|j: int| 0 <= j < i ==> key@[j] == prefix@[j],
        decreases p - i,
    {
        if key.get_char(i) != prefix.get_char(i) {
            proof {
                assert(key@.take(p as int + 1)[i as int] != prefix@.push(':')[i as int]);
            }
            return false;
        }
        i = i + 1;
    }
    let r = key.get_char(p) == ':';
    proof {
        if r {
            assert(key@.take(p as int + 1) =~= prefix@.push(':'));
        } else {
            assert(key@.take(p as int + 1)[p as int] != prefix@.push(':')[p as int]);
        }
    }
    r
}

/// The tenant a queue key belongs to.
pub fn extract_brand_from_queue(queue_key: &str, prefix: &str) -> (r: String)
    ensures
        r@ == brand_of_queue(queue_key@, prefix@),
{
    let n = queue_key.unicode_len();
    if has_prefix_then_colon(queue_key, n, prefix) {
        let start = prefix.unicode_len() + 1;
        let end = next_colon(queue_key, n, start);
        proof {
            lemma_field_scan(queue_key@, start as int, end as int);
        }
        return owned(queue_key.substring_char(start, end));
    }
    let c1 = next_colon(queue_key, n, 0);
    proof {
        lemma_field_scan(queue_key@, 0, c1 as int);
        assert(queue_key@.skip(0) =~= queue_key@);
    }
    if c1 == n {
        proof {
            reveal_strlit("unknown");
        }
        return owned("unknown");
    }
    let c2 = next_colon(queue_key, n, c1 + 1);
    proof {
        lemma_field_scan(queue_key@, c1 + 1, c2 as int);
        assert(nth_field(queue_key@, 2) == nth_field(queue_key@.skip(c1 + 1), 1));
    }
    if c2 == n {
        proof {
            reveal_strlit("unknown");
            assert(nth_field(queue_key@.skip(c1 + 1), 1) == None::<Seq<char>>);
        }
        return owned("unknown");
    }
    let c3 = next_colon(queue_key, n, c2 + 1);
    proof {
        lemma_field_scan(queue_key@, c2 + 1, c3 as int);
        assert(nth_field(queue_key@.skip(c1 + 1), 1) == nth_field(queue_key@.skip(c2 + 1), 0));
    }
    owned(queue_key.substring_char(c2 + 1, c3))
}

/// The key pattern of every tenant's queue: `prefix:*:chunks`.
pub fn queue_pattern(prefix: &str) -> (r: String)
    ensures
        r@ == prefix@ + ":*:chunks"@,
{
    let r = concat3(prefix, ":*:chunks", "");
    proof {
        reveal_strlit("");
        assert(r@ =~= prefix@ + ":*:chunks"@);
    }
    r
}

} // verus!

verus! {

/// The failure record of a chunk.
pub fn failure_record(worker_id: &str, brand: &str, reason: FailureReason, payload: &str, chunk_id: &str) -> (r: FailureRecord)
    ensures
        r.worker_id@ == worker_id@,
        r.brand@ == brand@,
        r.chunk_id@ == chunk_id@,
        r.reason@ == message_of(reason),
        r.payload@ == payload@,
{
    FailureRecord {
        worker_id: owned(worker_id),
        brand: owned(brand),
        chunk_id: owned(chunk_id),
        reason: owned(reason.message()),
        payload: owned(payload),
    }
}

/// Where the handling of one payload stands.
#[derive(Debug, Clone, Copy, PartialEq, Eq, Structural)]
pub enum HandlerStage {
    Decoding,
    Processing,
    Publishing,
    RecordingFailure,
    Done,
}

/// What the caller observed after doing what the last action asked.
#[derive(Debug, Clone)]
pub enum PayloadEvent {
    /// The payload is not a chunk.
    DecodeFailed,
    /// The payload is a chunk with this tenant and id.
    Decoded { brand: String, chunk_id: String },
    /// The pipeline gave up on the chunk.
    ProcessingFailed,
    /// The pipeline produced a result for this tenant.
    Processed { brand: String },
    /// The result could not be written.
    PublishFailed,
    /// The result was written.
    Published,
    /// The failure record was written.
    FailureRecorded,
    /// The failure record could not be written.
    FailureRecordFailed,
}

/// How handling ended.
#[derive(Debug, Clone, Copy, PartialEq, Eq, Structural)]
pub enum PayloadOutcome {
    /// The result was published.
    Succeeded,
    /// A failure record was published.
    Failed(FailureReason),
    /// A failure record was due but could not be written.
    Dropped(FailureReason),
}

/// What the caller is to do next.
#[derive(Debug, Clone)]
pub enum PayloadAction {
    /// Run the pipeline on the decoded chunk.
    Process,
    /// Write the result under this tenant.
    PublishResult { brand: String },
    /// Write this failure record under this tenant and count it by reason.
    RecordFailure { brand: String, record: FailureRecord, reason: FailureReason },
    /// Handling is over.
    Finish { outcome: PayloadOutcome },
    /// The event does not fit the stage; nothing changes.
    Ignored,
}

/// Drives one fetched payload to exactly one terminal artifact: a published
/// result or one failure record.
#[derive(Debug, Clone)]
pub struct PayloadHandler {
    pub worker_id: String,
    pub brand_hint: String,
    pub payload: String,
    pub stage: HandlerStage,
    pub brand: String,
    pub chunk_id: String,
    pub pending: FailureReason,
    pub result_published: bool,
    pub failures_emitted: u8,
}

/// The failure record of the handler's chunk is asked for, with `reason`.
pub open spec fn records_failure(h: PayloadHandler, n: PayloadHandler, r: PayloadAction, reason: FailureReason) -> bool {
    &&& n.stage == HandlerStage::RecordingFailure
    &&& n.pending == reason
    &&& n.failures_emitted == 1
    &&& n.brand == h.brand
    &&& n.chunk_id == h.chunk_id
    &&& n.result_published == h.result_published
    &&& match r {
        PayloadAction::RecordFailure { brand, record, reason: why } => {
            &&& why == reason
            &&& brand@ == h.brand@
            &&& record.worker_id@ == h.worker_id@
            &&& record.brand@ == h.brand@
            &&& record.chunk_id@ == h.chunk_id@
            &&& record.reason@ == message_of(reason)
            &&& record.payload@ == h.payload@
        },
        _ => false,
    }
}

/// Handling ends with `outcome`.
pub open spec fn finishes(h: PayloadHandler, n: PayloadHandler, r: PayloadAction, outcome: PayloadOutcome) -> bool {
    &&& n.stage == HandlerStage::Done
    &&& n.brand == h.brand
    &&& n.chunk_id == h.chunk_id
    &&& n.pending == h.pending
    &&& n.failures_emitted == h.failures_emitted
    &&& match r {
        PayloadAction::Finish { outcome: o } => o == outcome,
        _ => false,
    }
}

/// The event does not fit the stage: nothing changes.
pub open spec fn ignores(h: PayloadHandler, n: PayloadHandler, r: PayloadAction) -> bool {
    &&& r is Ignored
    &&& n == h
}

/// What one event does to a handler `h`, giving `n` and the action `r`.
pub open spec fn stepped(h: PayloadHandler, e: PayloadEvent, n: PayloadHandler, r: PayloadAction) -> bool {
    &&& n.worker_id == h.worker_id
    &&& n.brand_hint == h.brand_hint
    &&& n.payload == h.payload
    &&& if h.stage == HandlerStage::Decoding {
        match e {
            PayloadEvent::DecodeFailed => records_failure(h, n, r, FailureReason::JsonDecode),
            PayloadEvent::Decoded { brand, chunk_id } => {
                &&& r is Process
                &&& n.stage == HandlerStage::Processing
                &&& n.chunk_id@ == chunk_id@
                &&& n.brand@ == effective_brand(brand@, h.brand_hint@)
                &&& n.failures_emitted == 0
                &&& !n.result_published
            },
            _ => ignores(h, n, r),
        }
    } else if h.stage == HandlerStage::Processing {
        match e {
            PayloadEvent::ProcessingFailed => records_failure(h, n, r, FailureReason::Processing),
            PayloadEvent::Processed { brand } => {
                &&& (match r {
                    PayloadAction::PublishResult { brand: b } => b@ == brand@,
                    _ => false,
                })
                &&& n.stage == HandlerStage::Publishing
                &&& n.brand@ == brand@
                &&& n.chunk_id == h.chunk_id
                &&& n.failures_emitted == 0
                &&& !n.result_published
            },
            _ => ignores(h, n, r),
        }
    } else if h.stage == HandlerStage::Publishing {
        match e {
            PayloadEvent::PublishFailed => records_failure(h, n, r, FailureReason::Processing),
            PayloadEvent::Published => finishes(h, n, r, PayloadOutcome::Succeeded) && n.result_published,
            _ => ignores(h, n, r),
        }
    } else if h.stage == HandlerStage::RecordingFailure {
        match e {
            PayloadEvent::FailureRecorded => finishes(h, n, r, PayloadOutcome::Failed(h.pending))
                && n.result_published == h.result_published,
            PayloadEvent::FailureRecordFailed => finishes(h, n, r, PayloadOutcome::Dropped(h.pending))
                && n.result_published == h.result_published,
            _ => ignores(h, n, r),
        }
    } else {
        ignores(h, n, r)
    }
}

impl PayloadHandler {
    /// Nothing is published before the end, and at the end exactly one of a
    /// result and a failure record is.
    pub open spec fn wf(&self) -> bool {
        &&& self.failures_emitted <= 1
        &&& self.stage == HandlerStage::Decoding ==> self.brand@ == self.brand_hint@ && self.chunk_id@ == "unknown"@
        &&& (self.stage == HandlerStage::Decoding || self.stage == HandlerStage::Processing
            || self.stage == HandlerStage::Publishing) ==> !self.result_published && self.failures_emitted == 0
        &&& self.stage == HandlerStage::RecordingFailure ==> !self.result_published && self.failures_emitted == 1
        &&& self.stage == HandlerStage::Done ==> (self.result_published && self.failures_emitted == 0)
            || (!self.result_published && self.failures_emitted == 1)
    }

    pub fn new(worker_id: &str, brand_hint: &str, payload: String) -> (r: Self)
        ensures
            r.wf(),
            r.stage == HandlerStage::Decoding,
            r.worker_id@ == worker_id@,
            r.brand_hint@ == brand_hint@,
            r.payload@ == payload@,
            r.brand@ == brand_hint@,
            r.chunk_id@ == "unknown"@,
    {
        PayloadHandler {
            worker_id: owned(worker_id),
            brand_hint: owned(brand_hint),
            payload,
            stage: HandlerStage::Decoding,
            brand: owned(brand_hint),
            chunk_id: owned("unknown"),
            pending: FailureReason::Processing,
            result_published: false,
            failures_emitted: 0,
        }
    }

    fn fail(&mut self, reason: FailureReason) -> (r: PayloadAction)
        requires
            old(self).wf(),
            old(self).stage != HandlerStage::Done,
            old(self).stage != HandlerStage::RecordingFailure,
        ensures
            final(self).wf(),
            final(self).stage == HandlerStage::RecordingFailure,
            final(self).failures_emitted == 1,
            final(self).pending == reason,
            final(self).brand == old(self).brand,
            final(self).chunk_id == old(self).chunk_id,
            final(self).worker_id == old(self).worker_id,
            final(self).brand_hint == old(self).brand_hint,
            final(self).payload == old(self).payload,
            final(self).result_published == old(self).result_published,
            r matches PayloadAction::RecordFailure { brand, record, reason: why } && {
                &&& why == reason
                &&& brand@ == old(self).brand@
                &&& record.worker_id@ == old(self).worker_id@
                &&& record.brand@ == old(self).brand@
                &&& record.chunk_id@ == old(self).chunk_id@
                &&& record.reason@ == message_of(reason)
                &&& record.payload@ == old(self).payload@
            },
    {
        let record = failure_record(self.worker_id.as_str(), self.brand.as_str(), reason, self.payload.as_str(), self.chunk_id.as_str());
        self.stage = HandlerStage::RecordingFailure;
        self.pending = reason;
        self.failures_emitted = 1;
        PayloadAction::RecordFailure { brand: self.brand.clone(), record, reason }
    }

    /// Takes the next event and says what to do.
    pub fn step(&mut self, event: PayloadEvent) -> (r: PayloadAction)
        requires
            old(self).wf(),
        ensures
            final(self).wf(),
            stepped(*old(self), event, *final(self), r),
            r is Finish ==> final(self).stage == HandlerStage::Done,
            // a failure record is asked for once at most, never after a result went out
            (r is RecordFailure) == (old(self).failures_emitted == 0 && final(self).failures_emitted == 1),
            old(self).failures_emitted == 1 ==> final(self).failures_emitted == 1,
            old(self).result_published ==> final(self).result_published,
    {
        match (self.stage, event) {
            (HandlerStage::Decoding, PayloadEvent::DecodeFailed) => {
                self.fail(FailureReason::JsonDecode)
            },
            (HandlerStage::Decoding, PayloadEvent::Decoded { brand, chunk_id }) => {
                let trimmed = trim_text(brand.as_str());
                if !trimmed.as_str().is_empty() {
                    self.brand = brand;
                }
                self.chunk_id = chunk_id;
                self.stage = HandlerStage::Processing;
                PayloadAction::Process
            },
            (HandlerStage::Processing, PayloadEvent::ProcessingFailed) => {
                self.fail(FailureReason::Processing)
            },
            (HandlerStage::Processing, PayloadEvent::Processed { brand }) => {
                self.brand = brand.clone();
                self.stage = HandlerStage::Publishing;
                PayloadAction::PublishResult { brand }
            },
            (HandlerStage::Publishing, PayloadEvent::PublishFailed) => {
                self.fail(FailureReason::Processing)
            },
            (HandlerStage::Publishing, PayloadEvent::Published) => {
                self.result_published = true;
                self.stage = HandlerStage::Done;
                PayloadAction::Finish { outcome: PayloadOutcome::Succeeded }
            },
            (HandlerStage::RecordingFailure, PayloadEvent::FailureRecorded) => {
                self.stage = HandlerStage::Done;
                PayloadAction::Finish { outcome: PayloadOutcome::Failed(self.pending) }
            },
            (HandlerStage::RecordingFailure, PayloadEvent::FailureRecordFailed) => {
                self.stage = HandlerStage::Done;
                PayloadAction::Finish { outcome: PayloadOutcome::Dropped(self.pending) }
            },
            _ => PayloadAction::Ignored,
        }
    }
}

} // verus!

verus! {

/// Once handling of a payload is over, exactly one terminal artifact went
/// out: either the result was published, or one failure record was.
pub proof fn lemma_one_terminal_artifact(h: PayloadHandler)
    requires
        h.wf(),
        h.stage == HandlerStage::Done,
    ensures
        h.result_published <==> h.failures_emitted == 0,
        !h.result_published <==> h.failures_emitted == 1,
{
}

/// What an idle iteration reports: how long the worker has waited, and
/// whether to log about it now.
#[derive(Debug, Clone, Copy, PartialEq, Eq, Structural)]
pub struct IdleReport {
    pub waiting_ms: u64,
    pub should_log: bool,
}

/// Tracks since when the worker has had nothing to do, and when it last
/// said so. Times are milliseconds on a monotonic clock.
#[derive(Debug, Clone, Copy, PartialEq, Eq, Structural)]
pub struct IdleTracker {
    pub waiting_since_ms: Option<u64>,
    pub last_log_ms: Option<u64>,
}

pub open spec fn since(now: u64, start: u64) -> u64 {
    if now >= start { (now - start) as u64 } else { 0 }
}

impl IdleTracker {
    pub fn new() -> (r: Self)
        ensures
            r.waiting_since_ms is None,
            r.last_log_ms is None,
    {
        IdleTracker { waiting_since_ms: None, last_log_ms: None }
    }

    /// An iteration found no work at `now_ms`: the idle period starts if it
    /// has not, and a log line is due when none was written within
    /// `log_interval_ms`.
    pub fn update_waiting(&mut self, now_ms: u64, log_interval_ms: u64) -> (r: IdleReport)
        ensures
            final(self).waiting_since_ms == Some(match old(self).waiting_since_ms {
                Some(s) => s,
                None => now_ms,
            }),
            r.waiting_ms == since(now_ms, final(self).waiting_since_ms.unwrap()),
            r.should_log == match old(self).last_log_ms {
                Some(l) => since(now_ms, l) >= log_interval_ms,
                None => true,
            },
            final(self).last_log_ms == if r.should_log { Some(now_ms) } else { old(self).last_log_ms },
    {
        let start = match self.waiting_since_ms {
            Some(s) => s,
            None => now_ms,
        };
        self.waiting_since_ms = Some(start);
        let waiting_ms = if now_ms >= start { now_ms - start } else { 0 };
        let should_log = match self.last_log_ms {
            Some(l) => (if now_ms >= l { now_ms - l } else { 0 }) >= log_interval_ms,
            None => true,
        };
        if should_log {
            self.last_log_ms = Some(now_ms);
        }
        IdleReport { waiting_ms, should_log }
    }

    /// Work arrived: the idle period ends; the log timer is kept.
    pub fn clear_waiting(&mut self)
        ensures
            final(self).waiting_since_ms is None,
            final(self).last_log_ms == old(self).last_log_ms,
    {
        self.waiting_since_ms = None;
    }
}

/// The liveness key of a worker: `workers:heartbeat:<id>`.
pub fn heartbeat_key(worker_id: &str) -> (r: String)
    ensures
        r@ == "workers:heartbeat:"@ + worker_id@,
{
    let r = concat3("workers:heartbeat:", worker_id, "");
    proof {
        reveal_strlit("");
        assert(r@ =~= "workers:heartbeat:"@ + worker_id@);
    }
    r
}

/// Expiry of the liveness key: the larger of twice the interval and the
/// interval plus five seconds, capped at `u64::MAX`.
pub fn heartbeat_ttl_secs(interval_secs: u64) -> (r: u64)
    ensures
        r as int == {
            let a = if 2 * interval_secs > u64::MAX { u64::MAX as int } else { 2 * interval_secs };
            let b = if interval_secs + 5 > u64::MAX { u64::MAX as int } else { interval_secs + 5 };
            if a >= b { a } else { b }
        },
{
    let a: u64 = if interval_secs <= u64::MAX / 2 { interval_secs * 2 } else { u64::MAX };
    let b: u64 = if interval_secs <= u64::MAX - 5 { interval_secs + 5 } else { u64::MAX };
    if a >= b { a } else { b }
}

} // verus!
