//! The probe of one job: the target read from its URL, the DNS and HTTP phases
//! as a step function driven by the caller's network work, the latency split,
//! and the signed result.

use vstd::prelude::*;
use crate::codec::{parse_url, url_reading};
use crate::error::{debug_text, debug_text_nonempty, message_text, ErrorView, MinerError};
use crate::identity::{consistent_identity_signs, keys_consistent, signature_by, Identity};
use crate::text::{decimal, decimal_text, joined, same_text};
use crate::types::pb::{Job, ProbeResult};
use crate::types::telemetry::{telemetry_bytes, telemetry_message};

verus! {

/// Where a probe connects: whether it speaks HTTPS, the host and the port.
pub struct ProbeTarget {
    pub https: bool,
    pub host: String,
    pub port: u16,
}

/// The target of a probe of `url`, or the error that ends it: a URL that does
/// not parse or has no host is an invalid host; the port is the URL's, else the
/// scheme's known default, else 443 for `https` and 80 otherwise.
pub open spec fn probe_target(url: Seq<char>) -> Result<(bool, Seq<char>, u16), ErrorView> {
    match url_reading(url) {
        Err(e) => Err(ErrorView::InvalidHost(e)),
        Ok((scheme, host, port)) => match host {
            None => Err(ErrorView::InvalidHost("Missing host"@)),
            Some(h) => {
                let https = scheme == "https"@;
                Ok((https, h, match port {
                    Some(p) => p,
                    None => if https { 443u16 } else { 80u16 },
                }))
            },
        },
    }
}

/// Law: a URL with a host is probed at that host, over HTTPS exactly when its
/// scheme is `https` (whatever the port), and at the URL's port where it has
/// one.
pub proof fn target_follows_url(url: Seq<char>)
    requires
        url_reading(url) is Ok,
        url_reading(url)->Ok_0.1 is Some,
    ensures
        probe_target(url) is Ok,
        probe_target(url)->Ok_0.0 == (url_reading(url)->Ok_0.0 == "https"@),
        probe_target(url)->Ok_0.1 == url_reading(url)->Ok_0.1->Some_0,
        url_reading(url)->Ok_0.2 is Some ==> probe_target(url)->Ok_0.2 == url_reading(url)->Ok_0.2->Some_0,
{
}

/// Law: a URL that does not parse, or has no host, names no target.
pub proof fn hostless_url_names_no_target(url: Seq<char>)
    requires
        url_reading(url) is Err || url_reading(url)->Ok_0.1 is None,
    ensures
        probe_target(url) is Err,
{
}

/// The address handed to the resolver: `host:port`.
pub open spec fn resolver_address(host: Seq<char>, port: u16) -> Seq<char> {
    host + ":"@ + decimal(port as nat)
}

/// How the network time of a probe is split into TCP, TLS and time to first
/// byte: 40% / 40% / the rest over HTTPS, 60% / none / the rest otherwise
/// (percentages rounded down).
pub open spec fn phase_split(https: bool, network_us: nat) -> (nat, nat, nat) {
    if https {
        let a = network_us * 40 / 100;
        (a, a, (network_us - 2 * a) as nat)
    } else {
        let a = network_us * 60 / 100;
        (a, 0, (network_us - a) as nat)
    }
}

/// The network times that `phase_split` can take without overflow.
pub open spec fn splittable(https: bool, network_us: nat) -> bool {
    if https { network_us * 40 <= u64::MAX } else { network_us * 60 <= u64::MAX }
}

/// Law: the three phases add up to the network time, the two first phases are
/// equal over HTTPS, and there is no TLS phase otherwise.
pub proof fn phases_cover_network_time(https: bool, network_us: nat)
    ensures
        phase_split(https, network_us).0 + phase_split(https, network_us).1
            + phase_split(https, network_us).2 == network_us,
        https ==> phase_split(https, network_us).0 == phase_split(https, network_us).1,
        !https ==> phase_split(https, network_us).1 == 0,
{
    let t = network_us;
    if https {
        assert(2 * (t * 40 / 100) <= t) by (nonlinear_arith);
    } else {
        assert(t * 60 / 100 <= t) by (nonlinear_arith);
    }
}

/// The latencies of the connection phases, in microseconds.
pub struct PhaseTimes {
    pub tcp_us: u64,
    pub tls_us: u64,
    pub ttfb_us: u64,
}

/// Splits the network time of a probe into its phases.
pub fn split_network_time(https: bool, network_us: u64) -> (r: PhaseTimes)
    requires
        splittable(https, network_us as nat),
    ensures
        (r.tcp_us as nat, r.tls_us as nat, r.ttfb_us as nat) == phase_split(https, network_us as nat),
{
    proof {
        phases_cover_network_time(https, network_us as nat);
    }
    if https {
        let a = (network_us * 40) / 100;
        PhaseTimes { tcp_us: a, tls_us: a, ttfb_us: network_us - (a + a) }
    } else {
        let a = (network_us * 60) / 100;
        PhaseTimes { tcp_us: a, tls_us: 0, ttfb_us: network_us - a }
    }
}

fn speaks_https(scheme: &str) -> (r: bool)
    ensures
        r == (scheme@ == "https"@),
{
    same_text(scheme, "https")
}

/// Reads the target of a probe from its URL.
pub fn resolve_target(url: &str) -> (r: Result<ProbeTarget, MinerError>)
    ensures
        match r {
            Ok(t) => probe_target(url@) == Ok::<(bool, Seq<char>, u16), ErrorView>((t.https, t.host@, t.port)),
            Err(e) => probe_target(url@) == Err::<(bool, Seq<char>, u16), ErrorView>(e@),
        },
{
    proof {
        reveal_strlit("Missing host");
    }
    match parse_url(url) {
        Err(e) => Err(MinerError::InvalidHost(e)),
        Ok(parts) => match parts.host {
            None => Err(MinerError::InvalidHost(String::from_str("Missing host"))),
            Some(host) => {
                let https = speaks_https(parts.scheme.as_str());
                let port: u16 = match parts.port {
                    Some(p) => p,
                    None => if https { 443 } else { 80 },
                };
                Ok(ProbeTarget { https, host, port })
            },
        },
    }
}

/// The address of a target for the resolver, `host:port`.
pub fn resolver_address_of(target: &ProbeTarget) -> (r: String)
    ensures
        r@ == resolver_address(target.host@, target.port),
{
    let mut r = joined(target.host.as_str(), ":");
    let port = decimal_text(target.port as u64);
    r.append(port.as_str());
    r
}

/// Where a probe stands.
pub enum ProbeStage {
    /// Waiting for the resolver to answer for `address`.
    Resolving { https: bool, address: String },
    /// Waiting for the HTTP response.
    Fetching { https: bool },
    /// The target answered with `status`.
    Answered { status: u16 },
    /// The probe failed with `error`.
    Failed { error: MinerError },
}

/// A probe in progress: the record so far, the job's time limit and the stage.
pub struct PhasedProbe {
    pub result: ProbeResult,
    pub timeout_ms: u32,
    pub stage: ProbeStage,
}

/// The network work a probe asks for next.
pub enum ProbeAction {
    /// Resolve `address` and report `Resolved` or `ResolveFailed`.
    Resolve { address: String },
    /// Send a GET request to `url` and report `Responded` or `SendFailed`.
    Fetch { url: String },
    /// Nothing more: the probe has settled.
    Finish,
}

/// What the network work reported.
pub enum ProbeEvent {
    /// The resolver answered, after `elapsed_us`.
    Resolved { elapsed_us: u64 },
    /// The resolver failed with `reason`.
    ResolveFailed { reason: String },
    /// The target answered with `status`, `elapsed_us` after the request began.
    Responded { status: u16, elapsed_us: u64 },
    /// The request failed; `timed_out` where the client's time limit ran out.
    SendFailed { timed_out: bool },
}

/// The HTTP statuses with which a target's DDoS protection turns a probe
/// away: 403 and 429.
pub open spec fn blocked_status(status: u16) -> bool {
    status == 403 || status == 429
}

/// Law: exactly the statuses 403 and 429 count as the target's DDoS protection
/// turning a probe away; every other status is an answer.
pub proof fn blocked_statuses_are_403_and_429(status: u16)
    ensures
        blocked_status(status) <==> (status == 403 || status == 429),
{
}

/// Whether a probe has settled: answered or failed.
pub open spec fn settled(stage: ProbeStage) -> bool {
    stage is Answered || stage is Failed
}

/// Whether the event can be handled at this stage: an HTTP status lies in
/// 100..=999 and the network time splits without overflow.
pub open spec fn event_fits(stage: ProbeStage, event: ProbeEvent) -> bool {
    match (stage, event) {
        (ProbeStage::Fetching { https }, ProbeEvent::Responded { status, elapsed_us }) =>
            splittable(https, elapsed_us as nat) && 100 <= status && status <= 999,
        _ => true,
    }
}

/// The record at the start of a probe: the job's and worker's identifiers, the
/// time, and everything else zero or empty.
pub open spec fn fresh_record(r: ProbeResult, worker: UptimeWorker, batch_id: String, job: Job, timestamp_ms: u64) -> bool {
    &&& r.job_id == job.job_id
    &&& r.batch_id == batch_id
    &&& r.node_id == worker.node_id
    &&& r.target_url == job.target_url
    &&& r.task_nonce == job.task_nonce
    &&& !r.success
    &&& r.status_code == 0
    &&& r.dns_us == 0 && r.tcp_us == 0 && r.tls_us == 0 && r.ttfb_us == 0 && r.total_us == 0
    &&& r.error_kind@ == Seq::<char>::empty()
    &&& r.error_msg@ == Seq::<char>::empty()
    &&& r.timestamp_ms == timestamp_ms
    &&& r.signature@ == Seq::<u8>::empty()
}

/// A record that no probe outcome has been written to yet: not successful, no
/// status and no error.
pub open spec fn unsettled_record(r: ProbeResult) -> bool {
    &&& !r.success
    &&& r.status_code == 0
    &&& r.error_kind@.len() == 0
    &&& r.error_msg@.len() == 0
}

/// A probe whose record agrees with its stage: no outcome written yet, phase
/// latencies only once answered, and an answer carries an HTTP status.
pub open spec fn probe_consistent(p: PhasedProbe) -> bool {
    &&& unsettled_record(p.result)
    &&& !(p.stage is Answered) ==> p.result.tcp_us == 0 && p.result.tls_us == 0 && p.result.ttfb_us == 0
    &&& p.stage is Answered ==> 100 <= p.stage->status
}

impl PhasedProbe {
    /// The network work that the probe asks for at its stage.
    pub fn next_action(&self) -> (r: ProbeAction)
        ensures
            match self.stage {
                ProbeStage::Resolving { https, address } => r matches ProbeAction::Resolve { address: a } && a == address,
                ProbeStage::Fetching { https } => r matches ProbeAction::Fetch { url } && url == self.result.target_url,
                _ => r is Finish,
            },
    {
        match &self.stage {
            ProbeStage::Resolving { https, address } => ProbeAction::Resolve { address: address.clone() },
            ProbeStage::Fetching { https } => ProbeAction::Fetch { url: self.result.target_url.clone() },
            _ => ProbeAction::Finish,
        }
    }
}

/// The worker that probes targets on behalf of a node.
pub struct UptimeWorker {
    pub node_id: String,
    pub identity: Identity,
}

impl UptimeWorker {
    /// A worker for the node `node_id`, signing with `identity`.
    pub fn new(node_id: String, identity: Identity) -> (r: UptimeWorker)
        ensures
            r.node_id == node_id,
            r.identity == identity,
    {
        UptimeWorker { node_id, identity }
    }

    /// One step of the phased probe: an event of the resolver at the resolving
    /// stage, or of the HTTP request at the fetching stage. A resolved name
    /// records the DNS latency; a response records the phase latencies, except
    /// that HTTP 403 or 429 means the target's DDoS protection turned the probe
    /// away and ends it with that error; a failure ends the probe with its
    /// error. An event that does not belong to
    /// the stage changes nothing.
    pub fn perform_phased_probe(&self, probe: PhasedProbe, event: ProbeEvent) -> (r: PhasedProbe)
        requires
            event_fits(probe.stage, event),
        ensures
            r.timeout_ms == probe.timeout_ms,
            unsettled_record(probe.result) ==> unsettled_record(r.result),
            probe_consistent(probe) ==> probe_consistent(r),
            match (probe.stage, event) {
                (ProbeStage::Resolving { https, address }, ProbeEvent::Resolved { elapsed_us }) =>
                    r.stage == (ProbeStage::Fetching { https })
                    && r.result == (ProbeResult { dns_us: elapsed_us, ..probe.result }),
                (ProbeStage::Resolving { https, address }, ProbeEvent::ResolveFailed { reason }) =>
                    (r.stage matches ProbeStage::Failed { error }
                        && error@ == ErrorView::InvalidHost("DNS Failure: "@ + reason@))
                    && r.result == probe.result,
                (ProbeStage::Fetching { https }, ProbeEvent::Responded { status, elapsed_us }) =>
                    if status == 403 || status == 429 {
                        (r.stage matches ProbeStage::Failed { error }
                            && error@ == ErrorView::TargetDdosProtectionTriggered)
                        && r.result == probe.result
                    } else {
                        r.stage == (ProbeStage::Answered { status })
                        && r.result == (ProbeResult {
                            tcp_us: phase_split(https, elapsed_us as nat).0 as u64,
                            tls_us: phase_split(https, elapsed_us as nat).1 as u64,
                            ttfb_us: phase_split(https, elapsed_us as nat).2 as u64,
                            ..probe.result
                        })
                    },
                (ProbeStage::Fetching { https }, ProbeEvent::SendFailed { timed_out }) =>
                    (r.stage matches ProbeStage::Failed { error }
                        && error@ == (if timed_out { ErrorView::ConnectionTimeout } else { ErrorView::ExecutionDropped }))
                    && r.result == probe.result,
                _ => r == probe,
            },
    {
        proof {
            reveal_strlit("DNS Failure: ");
        }
        let PhasedProbe { result, timeout_ms, stage } = probe;
        match (stage, event) {
            (ProbeStage::Resolving { https, address }, ProbeEvent::Resolved { elapsed_us }) => {
                let mut result = result;
                result.dns_us = elapsed_us;
                PhasedProbe { result, timeout_ms, stage: ProbeStage::Fetching { https } }
            },
            (ProbeStage::Resolving { https, address }, ProbeEvent::ResolveFailed { reason }) => {
                let error = MinerError::InvalidHost(joined("DNS Failure: ", reason.as_str()));
                PhasedProbe { result, timeout_ms, stage: ProbeStage::Failed { error } }
            },
            (ProbeStage::Fetching { https }, ProbeEvent::Responded { status, elapsed_us }) => {
                if status == 403 || status == 429 {
                    let error = MinerError::TargetDdosProtectionTriggered;
                    return PhasedProbe { result, timeout_ms, stage: ProbeStage::Failed { error } };
                }
                let times = split_network_time(https, elapsed_us);
                let mut result = result;
                result.tcp_us = times.tcp_us;
                result.tls_us = times.tls_us;
                result.ttfb_us = times.ttfb_us;
                PhasedProbe { result, timeout_ms, stage: ProbeStage::Answered { status } }
            },
            (ProbeStage::Fetching { https }, ProbeEvent::SendFailed { timed_out }) => {
                let error = if timed_out { MinerError::ConnectionTimeout } else { MinerError::ExecutionDropped };
                PhasedProbe { result, timeout_ms, stage: ProbeStage::Failed { error } }
            },
            (stage, _) => PhasedProbe { result, timeout_ms, stage },
        }
    }

    /// Starts the probe of `job` for the batch `batch_id` at `timestamp_ms`: the
    /// fresh record, and the resolving stage for the job's target, or the failed
    /// stage where its URL names no target.
    pub fn execute_probe(&self, batch_id: String, job: &Job, timestamp_ms: u64) -> (r: PhasedProbe)
        ensures
            fresh_record(r.result, *self, batch_id, *job, timestamp_ms),
            unsettled_record(r.result),
            probe_consistent(r),
            r.timeout_ms == job.timeout_ms,
            match probe_target(job.target_url@) {
                Ok((https, host, port)) => r.stage matches ProbeStage::Resolving { https: h, address }
                    && h == https && address@ == resolver_address(host, port),
                Err(e) => r.stage matches ProbeStage::Failed { error } && error@ == e,
            },
    {
        let result = ProbeResult {
            job_id: job.job_id.clone(),
            batch_id,
            node_id: self.node_id.clone(),
            target_url: job.target_url.clone(),
            success: false,
            status_code: 0,
            dns_us: 0,
            tcp_us: 0,
            tls_us: 0,
            ttfb_us: 0,
            total_us: 0,
            error_kind: String::new(),
            error_msg: String::new(),
            timestamp_ms,
            task_nonce: job.task_nonce.clone(),
            signature: Vec::new(),
        };
        let stage = match resolve_target(job.target_url.as_str()) {
            Ok(target) => {
                let address = resolver_address_of(&target);
                ProbeStage::Resolving { https: target.https, address }
            },
            Err(error) => ProbeStage::Failed { error },
        };
        PhasedProbe { result, timeout_ms: job.timeout_ms, stage }
    }

    /// Ends a probe. Where the job's time limit ran out first the probe is a
    /// timeout; otherwise an answer sets the status (success for 2xx) and a
    /// failure sets the error's debug spelling and message. The record gets the
    /// total time and the worker's signature over all its reported fields in the
    /// fixed encoding of `telemetry_bytes` (empty where the identity cannot
    /// sign). The time limit counts only while the probe has not settled, and the
    /// total time covers the measured phases.
    pub fn finish_probe(&self, probe: PhasedProbe, deadline_passed: bool, total_us: u64) -> (r: ProbeResult)
        requires
            deadline_passed == !settled(probe.stage),
            probe.result.dns_us + probe.result.tcp_us + probe.result.tls_us + probe.result.ttfb_us <= total_us,
        ensures
            r.job_id == probe.result.job_id,
            r.batch_id == probe.result.batch_id,
            r.node_id == probe.result.node_id,
            r.target_url == probe.result.target_url,
            r.task_nonce == probe.result.task_nonce,
            r.timestamp_ms == probe.result.timestamp_ms,
            r.dns_us == probe.result.dns_us,
            r.tcp_us == probe.result.tcp_us,
            r.tls_us == probe.result.tls_us,
            r.ttfb_us == probe.result.ttfb_us,
            r.total_us == total_us,
            deadline_passed ==> {
                &&& r.success == probe.result.success
                &&& r.status_code == probe.result.status_code
                &&& r.error_kind@ == "ConnectionTimeout"@
                &&& r.error_msg@ == "Exceeded "@ + decimal(probe.timeout_ms as nat) + "ms"@
            },
            !deadline_passed ==> match probe.stage {
                ProbeStage::Answered { status } => {
                    &&& r.success == (200 <= status && status < 300)
                    &&& r.status_code == status as u32
                    &&& r.error_kind == probe.result.error_kind
                    &&& r.error_msg == probe.result.error_msg
                },
                ProbeStage::Failed { error } => {
                    &&& r.success == probe.result.success
                    &&& r.status_code == probe.result.status_code
                    &&& r.error_kind@ == debug_text(error@)
                    &&& r.error_msg@ == message_text(error@)
                },
                _ => false,
            },
            unsettled_record(probe.result) ==> (r.success ==> 200 <= r.status_code < 300
                && r.error_kind@.len() == 0 && r.error_msg@.len() == 0),
            unsettled_record(probe.result) ==> (r.error_kind@.len() == 0 <==> (!deadline_passed
                && probe.stage is Answered)),
            r.dns_us + r.tcp_us + r.tls_us + r.ttfb_us <= r.total_us,
            probe_consistent(probe) ==> (r.status_code == 0 ==> r.tcp_us == 0 && r.tls_us == 0 && r.ttfb_us == 0),
            match signature_by(self.identity@, telemetry_bytes(r)) {
                Some(sig) => r.signature@ == sig,
                None => r.signature@ == Seq::<u8>::empty(),
            },
            keys_consistent(self.identity@) ==> r.signature@.len() == 64,
            r.signature@.len() == 0 || r.signature@.len() == 64,
    {
        proof {
            reveal_strlit("ConnectionTimeout");
            reveal_strlit("Exceeded ");
            reveal_strlit("ms");
        }
        let PhasedProbe { result, timeout_ms, stage } = probe;
        proof {
            if stage is Failed {
                debug_text_nonempty(stage->error@);
            }
        }
        let mut result = result;
        if deadline_passed {
            result.error_kind = String::from_str("ConnectionTimeout");
            let limit = decimal_text(timeout_ms as u64);
            let mut msg = joined("Exceeded ", limit.as_str());
            msg.append("ms");
            result.error_msg = msg;
        } else {
            match stage {
                ProbeStage::Answered { status } => {
                    result.success = 200 <= status && status < 300;
                    result.status_code = status as u32;
                },
                ProbeStage::Failed { error } => {
                    result.error_kind = error.debug_spelling();
                    result.error_msg = error.message();
                },
                _ => {},
            }
        }
        result.total_us = total_us;
        let message = telemetry_message(&result);
        proof {
            if keys_consistent(self.identity@) {
                consistent_identity_signs(self.identity@, telemetry_bytes(result));
            }
        }
        result.signature = match self.identity.sign(message.as_slice()) {
            Some(sig) => sig,
            None => Vec::new(),
        };
        result
    }
}

} // verus!
