//! The stream session's decisions: the reconnect back-off, the registration
//! and heartbeat messages, and the answer to each message from the backend.

use vstd::prelude::*;
use vstd::utf8::encode_utf8;
use rand::Rng;
use crate::config::AppConfig;
use crate::codec::base58_bytes;
use crate::identity::{signature_by, Identity, IdentityKeys};
use crate::types::pb::{
    AuthResponse, JobBatch, MinerMessage, MinerPayload, MinerRegister, Ping, ProbeResult, ServerMessage,
    ServerPayload,
};

verus! {

/// The first back-off, in milliseconds.
pub const BASE_DELAY_MS: u64 = 1000;

/// The longest back-off before jitter, in milliseconds.
pub const MAX_DELAY_MS: u64 = 30000;

/// The jitter added to a back-off lies below this many milliseconds.
pub const JITTER_SPAN_MS: u64 = 500;

/// Two to the power of `n`.
pub open spec fn pow2(n: nat) -> nat
    decreases n,
{
    if n == 0 { 1 } else { 2 * pow2((n - 1) as nat) }
}

/// The back-off before jitter after `attempts` consecutive failures: one second
/// doubled for each failure after the first, at most thirty seconds.
pub open spec fn backoff_base_ms(attempts: nat) -> nat {
    let exponent: nat = if attempts == 0 { 0 } else { (attempts - 1) as nat };
    let d: nat = (BASE_DELAY_MS * pow2(exponent)) as nat;
    if d < MAX_DELAY_MS { d } else { MAX_DELAY_MS as nat }
}

proof fn lemma_pow2_monotone(a: nat, b: nat)
    requires
        a <= b,
    ensures
        pow2(a) <= pow2(b),
        pow2(a) >= 1,
    decreases b,
{
    if b > 0 {
        if a < b {
            lemma_pow2_monotone(a, (b - 1) as nat);
        }
    }
    if a > 0 {
        lemma_pow2_monotone((a - 1) as nat, (a - 1) as nat);
    }
}

/// Law: the back-off never shrinks as failures accumulate, starts at one second
/// and never exceeds thirty seconds, which it reaches from the sixth failure on.
pub proof fn backoff_grows_to_cap(a: nat, b: nat)
    requires
        a <= b,
    ensures
        backoff_base_ms(a) <= backoff_base_ms(b),
        backoff_base_ms(b) <= MAX_DELAY_MS,
        backoff_base_ms(0) == BASE_DELAY_MS,
        backoff_base_ms(1) == BASE_DELAY_MS,
        b >= 6 ==> backoff_base_ms(b) == MAX_DELAY_MS,
{
    let ea: nat = if a == 0 { 0 } else { (a - 1) as nat };
    let eb: nat = if b == 0 { 0 } else { (b - 1) as nat };
    lemma_pow2_monotone(ea, eb);
    assert(pow2(0) == 1);
    if b >= 6 {
        lemma_pow2_monotone(5, eb);
        assert(pow2(5) == 32) by {
            reveal_with_fuel(pow2, 6);
        }
    }
    assert(BASE_DELAY_MS * pow2(ea) <= BASE_DELAY_MS * pow2(eb)) by (nonlinear_arith)
        requires pow2(ea) <= pow2(eb);
}

/// The back-off after `attempts` consecutive failures with `jitter_ms` added,
/// for any number of failures.
pub fn backoff_delay_ms(attempts: u32, jitter_ms: u64) -> (r: u64)
    requires
        jitter_ms < JITTER_SPAN_MS,
    ensures
        r == backoff_base_ms(attempts as nat) + jitter_ms,
{
    let exponent: u32 = attempts.saturating_sub(1);
    let capped: u64 = if exponent >= 5 {
        proof {
            lemma_pow2_monotone(5, exponent as nat);
            assert(pow2(5) == 32) by {
                reveal_with_fuel(pow2, 6);
            }
            assert(BASE_DELAY_MS * pow2(exponent as nat) >= BASE_DELAY_MS * 32) by (nonlinear_arith)
                requires pow2(exponent as nat) >= 32;
        }
        MAX_DELAY_MS
    } else {
        let mut factor: u64 = 1;
        let mut i: u32 = 0;
        while i < exponent
            invariant
                i <= exponent,
                exponent <= 4,
                factor == pow2(i as nat),
                factor <= 16,
            decreases exponent - i,
        {
            proof {
                lemma_pow2_monotone((i + 1) as nat, 4);
                assert(pow2(4) == 16) by {
                    reveal_with_fuel(pow2, 5);
                }
            }
            factor = factor * 2;
            i = i + 1;
        }
        let d = BASE_DELAY_MS * factor;
        if d < MAX_DELAY_MS { d } else { MAX_DELAY_MS }
    };
    capped + jitter_ms
}

/// `rand::thread_rng().gen_range(0..500)`: a random jitter below half a second.
/// Only the range is claimed.
#[verifier::external_body]
fn jitter_ms() -> (r: u64)
    ensures
        r < JITTER_SPAN_MS,
{
    rand::thread_rng().gen_range(0..JITTER_SPAN_MS)
}

/// What the session does with a message from the backend.
pub enum SessionReaction {
    /// Send this message back.
    Reply(MinerMessage),
    /// Hand this batch to the scheduler.
    Dispatch(JobBatch),
    /// A heartbeat came back after `latency_ms`.
    HealthCheck { latency_ms: u64 },
    /// Nothing to do.
    Ignore,
}

/// Whether a message carries the identity's private key: its text, or the
/// 32-byte secret it decodes to.
pub open spec fn discloses_key(m: MinerMessage, k: IdentityKeys) -> bool {
    let is_key_text = |t: Seq<char>| t == k.private_key;
    let is_secret = |b: Seq<u8>| b.len() == 32 && base58_bytes(k.private_key) == Some(b);
    match m.payload {
        Some(MinerPayload::Register(r)) => is_key_text(r.node_id@) || is_key_text(r.version@),
        Some(MinerPayload::AuthResponse(a)) => is_secret(a.signature@),
        Some(MinerPayload::Ping(p)) => is_key_text(p.node_id@),
        Some(MinerPayload::Result(r)) => is_key_text(r.job_id@) || is_key_text(r.batch_id@)
            || is_key_text(r.node_id@) || is_key_text(r.target_url@) || is_key_text(r.error_kind@)
            || is_key_text(r.error_msg@) || is_key_text(r.task_nonce@) || is_secret(r.signature@),
        None => false,
    }
}

/// Law: a probe result whose texts differ from the private key and whose
/// signature is a signature (64 bytes) or absent does not carry the private key;
/// `finish_probe` gives such signatures, and the texts come from the job, the
/// settings and the error texts.
pub proof fn signed_result_keeps_key_private(m: MinerMessage, k: IdentityKeys)
    requires
        m.payload matches Some(MinerPayload::Result(r)) && {
            &&& r.job_id@ != k.private_key && r.batch_id@ != k.private_key
            &&& r.node_id@ != k.private_key && r.target_url@ != k.private_key
            &&& r.error_kind@ != k.private_key && r.error_msg@ != k.private_key
            &&& r.task_nonce@ != k.private_key
            &&& (r.signature@.len() == 0 || r.signature@.len() == 64)
        },
    ensures
        !discloses_key(m, k),
{
}

/// The texts that a message carries.
pub open spec fn message_texts(m: MinerMessage) -> Set<Seq<char>> {
    match m.payload {
        Some(MinerPayload::Register(r)) => set![r.node_id@, r.version@],
        Some(MinerPayload::AuthResponse(a)) => Set::empty(),
        Some(MinerPayload::Ping(p)) => set![p.node_id@],
        Some(MinerPayload::Result(r)) => result_texts(r),
        None => Set::empty(),
    }
}

/// The texts of a probe result.
pub open spec fn result_texts(r: ProbeResult) -> Set<Seq<char>> {
    set![r.job_id@, r.batch_id@, r.node_id@, r.target_url@, r.error_kind@, r.error_msg@, r.task_nonce@]
}

/// Whether a byte field holds a signature (64 bytes) or nothing.
pub open spec fn signature_or_empty(b: Seq<u8>) -> bool {
    b.len() == 0 || b.len() == 64
}

/// Whether every byte field of a message is a signature or empty.
pub open spec fn signatures_only(m: MinerMessage) -> bool {
    match m.payload {
        Some(MinerPayload::AuthResponse(a)) => signature_or_empty(a.signature@),
        Some(MinerPayload::Result(r)) => signature_or_empty(r.signature@),
        _ => true,
    }
}

/// Law: over a whole session, no message that the miner sends carries its
/// private key, neither as text nor as the secret it decodes to, where each
/// message's byte fields are signatures or empty and none of its texts is the
/// private key. The session's messages meet this: registration and heartbeats
/// carry the node id and version, replies carry only a signature, and a probe
/// result carries the job's texts, the node id, error texts and its signature.
pub proof fn session_keeps_key_private(sent: Seq<MinerMessage>, k: IdentityKeys)
    requires
        forall|i: int| 0 <= i < sent.len() ==> #[trigger] signatures_only(sent[i])
            && !message_texts(sent[i]).contains(k.private_key),
    ensures
        forall|i: int| 0 <= i < sent.len() ==> !#[trigger] discloses_key(sent[i], k),
{
    assert forall|i: int| 0 <= i < sent.len() implies !#[trigger] discloses_key(sent[i], k) by {
        assert(signatures_only(sent[i]));
        let m = sent[i];
        match m.payload {
            Some(MinerPayload::Register(r)) => {
                assert(message_texts(m).contains(r.node_id@));
                assert(message_texts(m).contains(r.version@));
            },
            Some(MinerPayload::Ping(p)) => {
                assert(message_texts(m).contains(p.node_id@));
            },
            Some(MinerPayload::Result(r)) => {
                assert(result_texts(r).contains(r.job_id@));
                assert(result_texts(r).contains(r.batch_id@));
                assert(result_texts(r).contains(r.node_id@));
                assert(result_texts(r).contains(r.target_url@));
                assert(result_texts(r).contains(r.error_kind@));
                assert(result_texts(r).contains(r.error_msg@));
                assert(result_texts(r).contains(r.task_nonce@));
            },
            _ => {},
        }
    }
}

/// The connection to the backend: the settings and the number of consecutive
/// failed attempts.
pub struct StreamEngine {
    pub config: AppConfig,
    pub attempts: u32,
}

impl StreamEngine {
    /// A session with the settings `config` and no failed attempts yet.
    pub fn new(config: AppConfig) -> (r: StreamEngine)
        ensures
            r.config == config,
            r.attempts == 0,
    {
        StreamEngine { config, attempts: 0 }
    }

    /// The back-off after `attempts` consecutive failures: the exact delay plus a
    /// random jitter below half a second.
    pub fn calculate_delay(&self, attempts: u32) -> (r: u64)
        ensures
            backoff_base_ms(attempts as nat) <= r < backoff_base_ms(attempts as nat) + JITTER_SPAN_MS,
    {
        let j = jitter_ms();
        backoff_delay_ms(attempts, j)
    }

    /// The connection came up: the failures are forgotten and the session opens
    /// with the registration of this node.
    pub fn on_connected(&mut self, version: String, timestamp_ms: u64) -> (r: MinerMessage)
        ensures
            final(self).attempts == 0,
            final(self).config == old(self).config,
            forall|k: IdentityKeys| old(self).config.node_id@ != k.private_key && version@ != k.private_key
                ==> !#[trigger] discloses_key(r, k),
            r.payload matches Some(MinerPayload::Register(reg)) && reg.node_id == old(self).config.node_id
                && reg.version == version && reg.timestamp_ms == timestamp_ms,
            message_texts(r) == set![old(self).config.node_id@, version@],
            signatures_only(r),
    {
        self.attempts = 0;
        MinerMessage {
            payload: Some(MinerPayload::Register(MinerRegister {
                node_id: self.config.node_id.clone(),
                version,
                timestamp_ms,
            })),
        }
    }

    /// The connection failed or the stream ended: one more failed attempt (the
    /// count stops at `u32::MAX`), and the back-off to wait before the next one.
    pub fn on_disconnected(&mut self) -> (r: u64)
        ensures
            final(self).attempts == (if old(self).attempts < u32::MAX { old(self).attempts + 1 } else { u32::MAX as int }),
            final(self).config == old(self).config,
            backoff_base_ms(final(self).attempts as nat) <= r,
            r < backoff_base_ms(final(self).attempts as nat) + JITTER_SPAN_MS,
    {
        self.attempts = self.attempts.saturating_add(1);
        self.calculate_delay(self.attempts)
    }

    /// The heartbeat that the node `node_id` sends at `timestamp_ms`.
    pub fn heartbeat(node_id: String, timestamp_ms: u64) -> (r: MinerMessage)
        ensures
            forall|k: IdentityKeys| node_id@ != k.private_key ==> !#[trigger] discloses_key(r, k),
            r.payload matches Some(MinerPayload::Ping(p)) && p.node_id == node_id
                && p.timestamp_ms == timestamp_ms,
            message_texts(r) == set![node_id@],
            signatures_only(r),
    {
        MinerMessage { payload: Some(MinerPayload::Ping(Ping { timestamp_ms, node_id })) }
    }

    /// The answer to a message from the backend at `now_ms`: a challenge is
    /// answered with this identity's signature of its nonce (empty where the
    /// identity cannot sign), a batch goes to the scheduler, a heartbeat answer
    /// gives the round-trip latency (zero for an answer stamped later than
    /// `now_ms`), and anything else is ignored. A reply never carries the
    /// private key.
    pub fn on_server_message(&self, identity: &Identity, msg: ServerMessage, now_ms: u64) -> (r: SessionReaction)
        ensures
            r matches SessionReaction::Reply(m) ==> !discloses_key(m, identity@)
                && message_texts(m) == Set::<Seq<char>>::empty() && signatures_only(m),
            match msg.payload {
                Some(ServerPayload::AuthChallenge(ch)) => r matches SessionReaction::Reply(m)
                    && m.payload matches Some(MinerPayload::AuthResponse(resp))
                    && match signature_by(identity@, encode_utf8(ch.nonce@)) {
                        Some(sig) => resp.signature@ == sig,
                        None => resp.signature@ == Seq::<u8>::empty(),
                    },
                Some(ServerPayload::JobBatch(b)) => r == SessionReaction::Dispatch(b),
                Some(ServerPayload::Pong(p)) => r == (SessionReaction::HealthCheck {
                    latency_ms: if p.timestamp_ms <= now_ms { (now_ms - p.timestamp_ms) as u64 } else { 0 },
                }),
                _ => r is Ignore,
            },
    {
        match msg.payload {
            Some(ServerPayload::AuthChallenge(ch)) => {
                let signature = match identity.sign(ch.nonce.as_str().as_bytes()) {
                    Some(sig) => sig,
                    None => Vec::new(),
                };
                SessionReaction::Reply(MinerMessage {
                    payload: Some(MinerPayload::AuthResponse(AuthResponse { signature })),
                })
            },
            Some(ServerPayload::JobBatch(b)) => SessionReaction::Dispatch(b),
            Some(ServerPayload::Pong(p)) => SessionReaction::HealthCheck { latency_ms: now_ms.saturating_sub(p.timestamp_ms) },
            _ => SessionReaction::Ignore,
        }
    }
}

} // verus!
