use deping::types::metrics::ProbeOutcome;
use deping::types::pb::ProbeResult;

#[test]
fn success_outcome_has_no_error() {
    let o = ProbeOutcome::success(
        "job".into(), "batch".into(), "node".into(), "https://t/".into(), 200, 10, 20, 30, 40, 100,
        "nonce".into(), vec![1, 2, 3], 999,
    );
    assert!(o.success);
    assert_eq!(o.status_code, 200);
    assert_eq!((o.dns_us, o.tcp_us, o.tls_us, o.ttfb_us, o.total_us), (10, 20, 30, 40, 100));
    assert_eq!(o.error_kind, "");
    assert_eq!(o.error_msg, "");
    assert_eq!(o.signature, vec![1, 2, 3]);
    assert_eq!(o.timestamp_ms, 999);
}

#[test]
fn wire_record_carries_every_field() {
    let o = ProbeOutcome::success(
        "job".into(), "batch".into(), "node".into(), "https://t/".into(), 201, 1, 2, 3, 4, 5,
        "nonce".into(), vec![7], 8,
    );
    let r: ProbeResult = o.into();
    assert_eq!(r.job_id, "job");
    assert_eq!(r.batch_id, "batch");
    assert_eq!(r.node_id, "node");
    assert_eq!(r.target_url, "https://t/");
    assert!(r.success);
    assert_eq!(r.status_code, 201);
    assert_eq!((r.dns_us, r.tcp_us, r.tls_us, r.ttfb_us, r.total_us), (1, 2, 3, 4, 5));
    assert_eq!(r.task_nonce, "nonce");
    assert_eq!(r.signature, vec![7]);
    assert_eq!(r.timestamp_ms, 8);
    assert_eq!(r.error_kind, "");
}
