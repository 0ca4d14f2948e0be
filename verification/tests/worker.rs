use deping::engine::worker::{
    resolve_target, resolver_address_of, split_network_time, PhasedProbe, ProbeAction, ProbeEvent, ProbeStage,
    UptimeWorker,
};
use deping::error::MinerError;
use deping::identity::Identity;
use deping::types::pb::{Job, ProbeResult};
use deping::types::telemetry::telemetry_message;
use ed25519_dalek::Verifier;

fn job(url: &str) -> Job {
    Job {
        job_id: "job-7".to_string(),
        target_url: url.to_string(),
        task_nonce: "n0nce".to_string(),
        timeout_ms: 1500,
    }
}

fn worker() -> UptimeWorker {
    UptimeWorker::new("node-1".to_string(), Identity::from_secret(&[7u8; 32]))
}

fn address_of(url: &str) -> Result<String, String> {
    match resolve_target(url) {
        Ok(t) => Ok(resolver_address_of(&t)),
        Err(e) => Err(e.message()),
    }
}

#[test]
fn targets_take_the_url_port_or_the_scheme_default() {
    assert_eq!(address_of("https://example.com/health"), Ok("example.com:443".to_string()));
    assert_eq!(address_of("http://example.com/"), Ok("example.com:80".to_string()));
    assert_eq!(address_of("http://example.com:8080/x"), Ok("example.com:8080".to_string()));
    assert_eq!(address_of("https://example.com:443/"), Ok("example.com:443".to_string()));
    assert_eq!(address_of("ftp://files.example.com/"), Ok("files.example.com:21".to_string()));
    assert_eq!(address_of("gopher://old.example.com/"), Ok("old.example.com:80".to_string()));
    assert_eq!(address_of("https://10.0.0.1:9/"), Ok("10.0.0.1:9".to_string()));
}

#[test]
fn https_is_read_from_the_scheme() {
    assert!(resolve_target("https://a.example/").unwrap().https);
    assert!(resolve_target("HTTPS://a.example/").unwrap().https);
    assert!(!resolve_target("http://a.example/").unwrap().https);
    assert!(!resolve_target("wss://a.example/").unwrap().https);
}

#[test]
fn bad_urls_are_invalid_hosts() {
    assert_eq!(
        address_of("not a url"),
        Err("Invalid host configuration or target URL: relative URL without a base".to_string())
    );
    assert_eq!(
        address_of("data:text/plain,hello"),
        Err("Invalid host configuration or target URL: Missing host".to_string())
    );
}

#[test]
fn network_time_splits_by_scheme() {
    let t = split_network_time(true, 1000);
    assert_eq!((t.tcp_us, t.tls_us, t.ttfb_us), (400, 400, 200));
    let t = split_network_time(false, 1000);
    assert_eq!((t.tcp_us, t.tls_us, t.ttfb_us), (600, 0, 400));
    let t = split_network_time(true, 7);
    assert_eq!((t.tcp_us, t.tls_us, t.ttfb_us), (2, 2, 3));
    let t = split_network_time(false, 1);
    assert_eq!((t.tcp_us, t.tls_us, t.ttfb_us), (0, 0, 1));
}

#[test]
fn phases_add_up_to_network_time() {
    for n in [0u64, 1, 2, 3, 99, 101, 12345, 999_999, u64::MAX / 60] {
        for https in [true, false] {
            let t = split_network_time(https, n);
            assert_eq!(t.tcp_us + t.tls_us + t.ttfb_us, n);
            if https {
                assert_eq!(t.tcp_us, t.tls_us);
            } else {
                assert_eq!(t.tls_us, 0);
            }
        }
    }
}

fn encode_text(out: &mut Vec<u8>, s: &str) {
    out.extend_from_slice(&(s.len() as u64).to_be_bytes());
    out.extend_from_slice(s.as_bytes());
}

/// The covered bytes, written independently of the library.
fn expected_bytes(r: &ProbeResult) -> Vec<u8> {
    let mut out = Vec::new();
    for s in [&r.job_id, &r.task_nonce, &r.batch_id, &r.node_id, &r.target_url] {
        encode_text(&mut out, s);
    }
    out.push(r.success as u8);
    for n in [r.status_code as u64, r.dns_us, r.tcp_us, r.tls_us, r.ttfb_us, r.total_us] {
        out.extend_from_slice(&n.to_be_bytes());
    }
    encode_text(&mut out, &r.error_kind);
    encode_text(&mut out, &r.error_msg);
    out.extend_from_slice(&r.timestamp_ms.to_be_bytes());
    out
}

fn signed(w: &UptimeWorker, r: &ProbeResult) -> Vec<u8> {
    w.identity.sign(&expected_bytes(r)).unwrap()
}

#[test]
fn successful_probe_records_phases_and_signature() {
    let w = worker();
    let p = w.execute_probe("batch-1".to_string(), &job("https://example.com/"), 1_700_000_000_000);
    assert_eq!(p.result.job_id, "job-7");
    assert_eq!(p.result.node_id, "node-1");
    assert!(matches!(p.next_action(), ProbeAction::Resolve { ref address } if address == "example.com:443"));
    let p = w.perform_phased_probe(p, ProbeEvent::Resolved { elapsed_us: 1200 });
    assert_eq!(p.result.dns_us, 1200);
    assert!(matches!(p.next_action(), ProbeAction::Fetch { ref url } if url == "https://example.com/"));
    let p = w.perform_phased_probe(p, ProbeEvent::Responded { status: 204, elapsed_us: 5000 });
    assert!(matches!(p.next_action(), ProbeAction::Finish));
    let r = w.finish_probe(p, false, 9000);
    assert!(r.success);
    assert_eq!(r.status_code, 204);
    assert_eq!((r.dns_us, r.tcp_us, r.tls_us, r.ttfb_us, r.total_us), (1200, 2000, 2000, 1000, 9000));
    assert_eq!(r.error_kind, "");
    assert_eq!(r.error_msg, "");
    assert_eq!(r.batch_id, "batch-1");
    assert_eq!(r.task_nonce, "n0nce");
    assert_eq!(r.timestamp_ms, 1_700_000_000_000);
    assert_eq!(r.signature, signed(&w, &r));
}

#[test]
fn error_status_is_not_success() {
    let w = worker();
    let p = w.execute_probe("b".to_string(), &job("http://example.com/"), 1);
    let p = w.perform_phased_probe(p, ProbeEvent::Resolved { elapsed_us: 1 });
    let p = w.perform_phased_probe(p, ProbeEvent::Responded { status: 503, elapsed_us: 100 });
    let r = w.finish_probe(p, false, 200);
    assert!(!r.success);
    assert_eq!(r.status_code, 503);
    assert_eq!((r.tcp_us, r.tls_us, r.ttfb_us), (60, 0, 40));
    assert_eq!(r.error_kind, "");
}

#[test]
fn dns_failure_is_an_invalid_host() {
    let w = worker();
    let p = w.execute_probe("b".to_string(), &job("https://nowhere.invalid/"), 1);
    let p = w.perform_phased_probe(p, ProbeEvent::ResolveFailed { reason: "no such host".to_string() });
    assert!(matches!(p.next_action(), ProbeAction::Finish));
    let r = w.finish_probe(p, false, 50);
    assert!(!r.success);
    assert_eq!(r.status_code, 0);
    assert_eq!(r.dns_us, 0);
    assert_eq!(r.error_kind, "InvalidHost(\"DNS Failure: no such host\")");
    assert_eq!(r.error_msg, "Invalid host configuration or target URL: DNS Failure: no such host");
    assert_eq!(r.signature, signed(&w, &r));
}

#[test]
fn send_failures_are_classified() {
    let w = worker();
    for (timed_out, kind, msg) in [
        (true, "ConnectionTimeout", "Connection timeout executing network job"),
        (false, "ExecutionDropped", "Execution dropped due to runtime constraint"),
    ] {
        let p = w.execute_probe("b".to_string(), &job("https://example.com/"), 1);
        let p = w.perform_phased_probe(p, ProbeEvent::Resolved { elapsed_us: 3 });
        let p = w.perform_phased_probe(p, ProbeEvent::SendFailed { timed_out });
        let r = w.finish_probe(p, false, 10);
        assert_eq!(r.error_kind, kind);
        assert_eq!(r.error_msg, msg);
        assert_eq!(r.dns_us, 3);
        assert!(!r.success);
    }
}

#[test]
fn bad_url_fails_at_once() {
    let w = worker();
    let p = w.execute_probe("b".to_string(), &job("::::"), 1);
    assert!(matches!(p.stage, ProbeStage::Failed { error: MinerError::InvalidHost(_) }));
    assert!(matches!(p.next_action(), ProbeAction::Finish));
    let r = w.finish_probe(p, false, 5);
    assert!(r.error_kind.starts_with("InvalidHost("));
}

#[test]
fn deadline_gives_a_timeout_record() {
    let w = worker();
    let p = w.execute_probe("b".to_string(), &job("https://slow.example/"), 1);
    let p = w.perform_phased_probe(p, ProbeEvent::Resolved { elapsed_us: 77 });
    let r = w.finish_probe(p, true, 1_500_100);
    assert!(!r.success);
    assert_eq!(r.status_code, 0);
    assert_eq!(r.dns_us, 77);
    assert_eq!(r.error_kind, "ConnectionTimeout");
    assert_eq!(r.error_msg, "Exceeded 1500ms");
    assert_eq!(r.total_us, 1_500_100);
    assert_eq!(r.signature, signed(&w, &r));
}

#[test]
fn events_out_of_turn_change_nothing() {
    let w = worker();
    let p = w.execute_probe("b".to_string(), &job("https://example.com/"), 1);
    let p: PhasedProbe = w.perform_phased_probe(p, ProbeEvent::Responded { status: 200, elapsed_us: 10 });
    assert!(matches!(p.stage, ProbeStage::Resolving { .. }));
    assert_eq!(p.result.tcp_us, 0);
}

#[test]
fn unsignable_identity_leaves_signature_empty() {
    let w = UptimeWorker::new(
        "node".to_string(),
        Identity { public_key: "p".to_string(), private_key: "not base58 0".to_string() },
    );
    let p = w.execute_probe("b".to_string(), &job("::"), 1);
    let r = w.finish_probe(p, false, 1);
    assert!(r.signature.is_empty());
}

#[test]
fn telemetry_encoding_is_fixed() {
    let w = worker();
    let p = w.execute_probe("b".to_string(), &job("https://example.com/"), 5);
    let p = w.perform_phased_probe(p, ProbeEvent::Resolved { elapsed_us: 2 });
    let p = w.perform_phased_probe(p, ProbeEvent::Responded { status: 200, elapsed_us: 10 });
    let r = w.finish_probe(p, false, 20);
    let m = telemetry_message(&r);
    assert_eq!(m, expected_bytes(&r));
    assert_eq!(&m[..8], &[0, 0, 0, 0, 0, 0, 0, 5]);
    assert_eq!(&m[8..13], b"job-7");
}

#[test]
fn signature_binds_the_reported_telemetry() {
    let w = worker();
    let run = |status: u16| {
        let p = w.execute_probe("b".to_string(), &job("https://example.com/"), 5);
        let p = w.perform_phased_probe(p, ProbeEvent::Resolved { elapsed_us: 2 });
        let p = w.perform_phased_probe(p, ProbeEvent::Responded { status, elapsed_us: 10 });
        w.finish_probe(p, false, 20)
    };
    let ok = run(200);
    let failed = run(500);
    assert_ne!(ok.signature, failed.signature);
    let public = bs58::decode(&w.identity.public_key).into_vec().unwrap();
    let key = ed25519_dalek::VerifyingKey::from_bytes(&public.try_into().unwrap()).unwrap();
    let sig = ed25519_dalek::Signature::from_bytes(&ok.signature.clone().try_into().unwrap());
    assert!(key.verify(&expected_bytes(&ok), &sig).is_ok());
    assert!(key.verify(&expected_bytes(&failed), &sig).is_err());
}

#[test]
fn phases_fit_in_total_and_unanswered_records_have_none() {
    let w = worker();
    let p = w.execute_probe("b".to_string(), &job("https://example.com/"), 5);
    let p = w.perform_phased_probe(p, ProbeEvent::Resolved { elapsed_us: 30 });
    let p = w.perform_phased_probe(p, ProbeEvent::SendFailed { timed_out: false });
    let r = w.finish_probe(p, false, 31);
    assert_eq!(r.status_code, 0);
    assert_eq!((r.tcp_us, r.tls_us, r.ttfb_us), (0, 0, 0));
    assert!(r.dns_us + r.tcp_us + r.tls_us + r.ttfb_us <= r.total_us);
}

#[test]
fn forbidden_and_rate_limited_answers_are_ddos_protection() {
    let w = worker();
    for status in [403u16, 429u16] {
        let p = w.execute_probe("b".to_string(), &job("https://example.com/"), 1);
        let p = w.perform_phased_probe(p, ProbeEvent::Resolved { elapsed_us: 3 });
        let p = w.perform_phased_probe(p, ProbeEvent::Responded { status, elapsed_us: 100 });
        assert!(matches!(p.stage, ProbeStage::Failed { .. }));
        assert!(matches!(p.next_action(), ProbeAction::Finish));
        let r = w.finish_probe(p, false, 200);
        assert!(!r.success);
        assert_eq!(r.status_code, 0);
        assert_eq!((r.dns_us, r.tcp_us, r.tls_us, r.ttfb_us, r.total_us), (3, 0, 0, 0, 200));
        assert_eq!(r.error_kind, "TargetDdosProtectionTriggered");
        assert_eq!(r.error_msg, "Target DDOS protection triggered (HTTP 429/403)");
        assert_eq!(r.signature, signed(&w, &r));
    }
}

#[test]
fn other_client_errors_are_answers() {
    let w = worker();
    let p = w.execute_probe("b".to_string(), &job("http://example.com/"), 1);
    let p = w.perform_phased_probe(p, ProbeEvent::Resolved { elapsed_us: 1 });
    let p = w.perform_phased_probe(p, ProbeEvent::Responded { status: 404, elapsed_us: 100 });
    let r = w.finish_probe(p, false, 200);
    assert_eq!(r.status_code, 404);
    assert_eq!(r.error_kind, "");
}
