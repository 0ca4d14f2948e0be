use deping::config::AppConfig;
use deping::identity::Identity;
use deping::network::stream::{backoff_delay_ms, SessionReaction, StreamEngine};
use deping::engine::scheduler::TaskScheduler;
use deping::engine::worker::{ProbeEvent, UptimeWorker};
use deping::types::pb::{AuthChallenge, Job, JobBatch, MinerMessage, MinerPayload, Pong, ServerMessage, ServerPayload};

fn engine() -> StreamEngine {
    StreamEngine::new(AppConfig {
        node_id: "node-9".to_string(),
        server_url: "http://127.0.0.1:50051".to_string(),
        max_concurrent_jobs: 10,
        heartbeat_interval_secs: 30,
        connect_timeout_secs: 5,
    })
}

#[test]
fn backoff_doubles_from_one_second_up_to_thirty() {
    let expected = [1000, 1000, 2000, 4000, 8000, 16000, 30000, 30000, 30000];
    for (attempts, ms) in expected.iter().enumerate() {
        assert_eq!(backoff_delay_ms(attempts as u32, 0), *ms);
    }
    assert_eq!(backoff_delay_ms(32, 499), 30499);
    assert_eq!(backoff_delay_ms(33, 0), 30000);
    assert_eq!(backoff_delay_ms(u32::MAX, 7), 30007);
    assert_eq!(backoff_delay_ms(3, 123), 4123);
}

#[test]
fn calculated_delay_adds_bounded_jitter() {
    let e = engine();
    for attempts in [0u32, 1, 2, 5, 6, 32, 33, 1000, u32::MAX] {
        let d = e.calculate_delay(attempts);
        let base = backoff_delay_ms(attempts, 0);
        assert!(base <= d && d < base + 500);
    }
}

#[test]
fn failures_count_up_and_connecting_resets() {
    let mut e = engine();
    let d1 = e.on_disconnected();
    assert_eq!(e.attempts, 1);
    assert!((1000..1500).contains(&d1));
    let d2 = e.on_disconnected();
    assert_eq!(e.attempts, 2);
    assert!((2000..2500).contains(&d2));
    let mut worn = engine();
    worn.attempts = u32::MAX;
    let d = worn.on_disconnected();
    assert_eq!(worn.attempts, u32::MAX);
    assert!((30000..30500).contains(&d));
    let m = e.on_connected("0.1.0".to_string(), 42);
    assert_eq!(e.attempts, 0);
    match m.payload {
        Some(MinerPayload::Register(r)) => {
            assert_eq!(r.node_id, "node-9");
            assert_eq!(r.version, "0.1.0");
            assert_eq!(r.timestamp_ms, 42);
        }
        _ => panic!("expected a registration"),
    }
}

#[test]
fn heartbeat_names_the_node() {
    match StreamEngine::heartbeat("node-9".to_string(), 77).payload {
        Some(MinerPayload::Ping(p)) => {
            assert_eq!(p.node_id, "node-9");
            assert_eq!(p.timestamp_ms, 77);
        }
        _ => panic!("expected a ping"),
    }
}

#[test]
fn challenge_is_answered_with_signature_of_nonce() {
    let id = Identity::from_secret(&[3u8; 32]);
    let msg = ServerMessage {
        payload: Some(ServerPayload::AuthChallenge(AuthChallenge { nonce: "abc".to_string() })),
    };
    match engine().on_server_message(&id, msg, 0) {
        SessionReaction::Reply(m) => match m.payload {
            Some(MinerPayload::AuthResponse(a)) => assert_eq!(Some(a.signature), id.sign(b"abc")),
            _ => panic!("expected an auth response"),
        },
        _ => panic!("expected a reply"),
    }
}

#[test]
fn batches_pongs_and_others() {
    let id = Identity::from_secret(&[3u8; 32]);
    let batch = ServerMessage {
        payload: Some(ServerPayload::JobBatch(JobBatch { batch_id: "b1".to_string(), jobs: vec![] })),
    };
    assert!(matches!(engine().on_server_message(&id, batch, 0), SessionReaction::Dispatch(b) if b.batch_id == "b1"));
    let pong = ServerMessage { payload: Some(ServerPayload::Pong(Pong { timestamp_ms: 1000 })) };
    assert!(matches!(engine().on_server_message(&id, pong, 1250), SessionReaction::HealthCheck { latency_ms: 250 }));
    let early = ServerMessage { payload: Some(ServerPayload::Pong(Pong { timestamp_ms: 2000 })) };
    assert!(matches!(engine().on_server_message(&id, early, 1500), SessionReaction::HealthCheck { latency_ms: 0 }));
    let other = ServerMessage { payload: Some(ServerPayload::Unrecognized) };
    assert!(matches!(engine().on_server_message(&id, other, 0), SessionReaction::Ignore));
    let empty = ServerMessage { payload: None };
    assert!(matches!(engine().on_server_message(&id, empty, 0), SessionReaction::Ignore));
}

fn carried(m: &MinerMessage) -> (Vec<String>, Vec<Vec<u8>>) {
    match &m.payload {
        Some(MinerPayload::Register(r)) => (vec![r.node_id.clone(), r.version.clone()], vec![]),
        Some(MinerPayload::AuthResponse(a)) => (vec![], vec![a.signature.clone()]),
        Some(MinerPayload::Ping(p)) => (vec![p.node_id.clone()], vec![]),
        Some(MinerPayload::Result(r)) => (
            vec![
                r.job_id.clone(),
                r.batch_id.clone(),
                r.node_id.clone(),
                r.target_url.clone(),
                r.error_kind.clone(),
                r.error_msg.clone(),
                r.task_nonce.clone(),
            ],
            vec![r.signature.clone()],
        ),
        None => (vec![], vec![]),
    }
}

#[test]
fn a_session_never_sends_the_private_key() {
    let id = Identity::from_secret(&[9u8; 32]);
    let secret = bs58::decode(&id.private_key).into_vec().unwrap();
    let mut e = StreamEngine::new(AppConfig {
        node_id: id.public_key.clone(),
        server_url: "http://127.0.0.1:50051".to_string(),
        max_concurrent_jobs: 10,
        heartbeat_interval_secs: 30,
        connect_timeout_secs: 5,
    });
    let mut sent = vec![e.on_connected("0.1.0".to_string(), 1), StreamEngine::heartbeat(id.public_key.clone(), 2)];
    let challenge = ServerMessage {
        payload: Some(ServerPayload::AuthChallenge(AuthChallenge { nonce: "n-1".to_string() })),
    };
    match e.on_server_message(&id, challenge, 3) {
        SessionReaction::Reply(m) => sent.push(m),
        _ => panic!("expected a reply"),
    }
    let worker = UptimeWorker::new(
        id.public_key.clone(),
        Identity { public_key: id.public_key.clone(), private_key: id.private_key.clone() },
    );
    let job = Job {
        job_id: "j".to_string(),
        target_url: "https://example.com/".to_string(),
        task_nonce: "t".to_string(),
        timeout_ms: 1000,
    };
    let p = worker.execute_probe("b".to_string(), &job, 4);
    let p = worker.perform_phased_probe(p, ProbeEvent::Resolved { elapsed_us: 1 });
    let p = worker.perform_phased_probe(p, ProbeEvent::Responded { status: 200, elapsed_us: 10 });
    let r = worker.finish_probe(p, false, 20);
    sent.push(TaskScheduler::result_message(Some(r)).unwrap());
    for m in &sent {
        let (texts, bytes) = carried(m);
        assert!(texts.iter().all(|t| *t != id.private_key));
        assert!(bytes.iter().all(|b| b.len() == 64 && *b != secret));
    }
}
