use worker_rs::service::{
    extract_brand_from_queue, failure_record, heartbeat_key, heartbeat_ttl_secs, queue_pattern, FailureReason,
    HandlerStage, IdleTracker, PayloadAction, PayloadEvent, PayloadHandler, PayloadOutcome,
};

#[test]
fn reason_labels_and_messages() {
    assert_eq!(FailureReason::JsonDecode.label(), "json_decode");
    assert_eq!(FailureReason::Processing.label(), "processing");
    assert_eq!(FailureReason::JsonDecode.message(), "Invalid JSON");
    assert_eq!(FailureReason::Processing.message(), "Processing failed");
}

#[test]
fn brand_from_queue_key() {
    assert_eq!(extract_brand_from_queue("queue:brand:acme:chunks", "queue:brand"), "acme");
    assert_eq!(extract_brand_from_queue("queue:brand:acme", "queue:brand"), "acme");
    assert_eq!(extract_brand_from_queue("other:x:beta:chunks", "queue:brand"), "beta");
    assert_eq!(extract_brand_from_queue("other:x:gamma", "queue:brand"), "gamma");
    assert_eq!(extract_brand_from_queue("a:b", "queue:brand"), "unknown");
    assert_eq!(extract_brand_from_queue("plain", "queue:brand"), "unknown");
    assert_eq!(extract_brand_from_queue("queue:brand:", "queue:brand"), "");
}

#[test]
fn queue_and_heartbeat_keys() {
    assert_eq!(queue_pattern("queue:brand"), "queue:brand:*:chunks");
    assert_eq!(heartbeat_key("w1"), "workers:heartbeat:w1");
    assert_eq!(heartbeat_ttl_secs(10), 20);
    assert_eq!(heartbeat_ttl_secs(1), 6);
    assert_eq!(heartbeat_ttl_secs(5), 10);
    assert_eq!(heartbeat_ttl_secs(u64::MAX), u64::MAX);
}

#[test]
fn failure_record_fields() {
    let r = failure_record("w", "acme", FailureReason::Processing, "{raw}", "c1");
    assert_eq!(r.worker_id, "w");
    assert_eq!(r.brand, "acme");
    assert_eq!(r.chunk_id, "c1");
    assert_eq!(r.reason, "Processing failed");
    assert_eq!(r.payload, "{raw}");
}

#[test]
fn malformed_payload_gives_one_json_decode_record() {
    let payload = "{not json".to_string();
    let mut h = PayloadHandler::new("w1", "acme", payload.clone());
    match h.step(PayloadEvent::DecodeFailed) {
        PayloadAction::RecordFailure { brand, record, reason } => {
            assert_eq!(reason, FailureReason::JsonDecode);
            assert_eq!(reason.label(), "json_decode");
            assert_eq!(brand, "acme");
            assert_eq!(record.payload, payload);
            assert_eq!(record.chunk_id, "unknown");
            assert_eq!(record.reason, "Invalid JSON");
            assert_eq!(record.worker_id, "w1");
        }
        other => panic!("unexpected {other:?}"),
    }
    assert_eq!(h.failures_emitted, 1);
    match h.step(PayloadEvent::FailureRecorded) {
        PayloadAction::Finish { outcome } => assert_eq!(outcome, PayloadOutcome::Failed(FailureReason::JsonDecode)),
        other => panic!("unexpected {other:?}"),
    }
    assert!(matches!(h.step(PayloadEvent::FailureRecorded), PayloadAction::Ignored));
    assert_eq!(h.failures_emitted, 1);
    assert!(!h.result_published);
}

#[test]
fn successful_chunk_publishes_only_the_result() {
    let mut h = PayloadHandler::new("w1", "hint", "{}".to_string());
    let a = h.step(PayloadEvent::Decoded { brand: "  ".to_string(), chunk_id: "c1".to_string() });
    assert!(matches!(a, PayloadAction::Process));
    match h.step(PayloadEvent::Processed { brand: "hint".to_string() }) {
        PayloadAction::PublishResult { brand } => assert_eq!(brand, "hint"),
        other => panic!("unexpected {other:?}"),
    }
    match h.step(PayloadEvent::Published) {
        PayloadAction::Finish { outcome } => assert_eq!(outcome, PayloadOutcome::Succeeded),
        other => panic!("unexpected {other:?}"),
    }
    assert_eq!(h.stage, HandlerStage::Done);
    assert!(h.result_published);
    assert_eq!(h.failures_emitted, 0);
}

#[test]
fn processing_failure_is_recorded_under_the_chunk_tenant() {
    let mut h = PayloadHandler::new("w1", "hint", "{p}".to_string());
    h.step(PayloadEvent::Decoded { brand: "acme".to_string(), chunk_id: "c7".to_string() });
    match h.step(PayloadEvent::ProcessingFailed) {
        PayloadAction::RecordFailure { brand, record, reason } => {
            assert_eq!(brand, "acme");
            assert_eq!(record.chunk_id, "c7");
            assert_eq!(reason, FailureReason::Processing);
            assert_eq!(record.payload, "{p}");
        }
        other => panic!("unexpected {other:?}"),
    }
    match h.step(PayloadEvent::FailureRecordFailed) {
        PayloadAction::Finish { outcome } => assert_eq!(outcome, PayloadOutcome::Dropped(FailureReason::Processing)),
        other => panic!("unexpected {other:?}"),
    }
}

#[test]
fn publish_failure_turns_into_one_failure_record() {
    let mut h = PayloadHandler::new("w1", "hint", "{p}".to_string());
    h.step(PayloadEvent::Decoded { brand: "acme".to_string(), chunk_id: "c7".to_string() });
    h.step(PayloadEvent::Processed { brand: "acme".to_string() });
    assert!(matches!(h.step(PayloadEvent::PublishFailed), PayloadAction::RecordFailure { .. }));
    assert!(matches!(h.step(PayloadEvent::PublishFailed), PayloadAction::Ignored));
    assert!(matches!(h.step(PayloadEvent::FailureRecorded), PayloadAction::Finish { .. }));
    assert_eq!(h.failures_emitted, 1);
    assert!(!h.result_published);
}

#[test]
fn idle_tracking_and_rate_limited_logging() {
    let mut t = IdleTracker::new();
    let r = t.update_waiting(1_000, 60_000);
    assert_eq!(r.waiting_ms, 0);
    assert!(r.should_log);
    let r = t.update_waiting(31_000, 60_000);
    assert_eq!(r.waiting_ms, 30_000);
    assert!(!r.should_log);
    let r = t.update_waiting(61_000, 60_000);
    assert_eq!(r.waiting_ms, 60_000);
    assert!(r.should_log);
    t.clear_waiting();
    assert_eq!(t.waiting_since_ms, None);
    let r = t.update_waiting(70_000, 60_000);
    assert_eq!(r.waiting_ms, 0);
    assert!(!r.should_log);
}
