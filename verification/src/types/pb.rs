//! The messages exchanged with the DePing backend over the job stream.

use vstd::prelude::*;

verus! {

/// One monitoring task.
#[derive(Debug)]
pub struct Job {
    pub job_id: String,
    pub target_url: String,
    pub task_nonce: String,
    pub timeout_ms: u32,
}

/// A batch of tasks sent by the backend.
#[derive(Debug)]
pub struct JobBatch {
    pub batch_id: String,
    pub jobs: Vec<Job>,
}

/// The telemetry of one probe, as sent to the backend.
#[derive(Debug)]
pub struct ProbeResult {
    pub job_id: String,
    pub batch_id: String,
    pub node_id: String,
    pub target_url: String,
    pub success: bool,
    pub status_code: u32,
    pub dns_us: u64,
    pub tcp_us: u64,
    pub tls_us: u64,
    pub ttfb_us: u64,
    pub total_us: u64,
    pub error_kind: String,
    pub error_msg: String,
    pub timestamp_ms: u64,
    pub task_nonce: String,
    pub signature: Vec<u8>,
}

/// The first message of a session: who the miner is.
#[derive(Debug)]
pub struct MinerRegister {
    pub node_id: String,
    pub version: String,
    pub timestamp_ms: u64,
}

/// The answer to an authentication challenge.
#[derive(Debug)]
pub struct AuthResponse {
    pub signature: Vec<u8>,
}

/// A heartbeat.
#[derive(Debug)]
pub struct Ping {
    pub timestamp_ms: u64,
    pub node_id: String,
}

/// What a miner message carries.
#[derive(Debug)]
pub enum MinerPayload {
    Register(MinerRegister),
    AuthResponse(AuthResponse),
    Ping(Ping),
    Result(ProbeResult),
}

/// A message from the miner to the backend.
#[derive(Debug)]
pub struct MinerMessage {
    pub payload: Option<MinerPayload>,
}

/// The backend's authentication challenge.
#[derive(Debug)]
pub struct AuthChallenge {
    pub nonce: String,
}

/// The backend's answer to a heartbeat.
#[derive(Debug)]
pub struct Pong {
    pub timestamp_ms: u64,
}

/// What a server message carries; `Unrecognized` stands for any other kind.
#[derive(Debug)]
pub enum ServerPayload {
    AuthChallenge(AuthChallenge),
    JobBatch(JobBatch),
    Pong(Pong),
    Unrecognized,
}

/// A message from the backend to the miner.
#[derive(Debug)]
pub struct ServerMessage {
    pub payload: Option<ServerPayload>,
}

} // verus!
