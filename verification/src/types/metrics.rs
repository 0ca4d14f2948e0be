//! The outcome of one probe, and its conversion to the wire record.

use vstd::prelude::*;
use vstd::std_specs::convert::FromSpecImpl;
use crate::types::pb::ProbeResult;

verus! {

/// The outcome of one probe: latencies in microseconds, the signed task nonce
/// and, where the probe failed, the error.
pub struct ProbeOutcome {
    pub job_id: String,
    pub batch_id: String,
    pub node_id: String,
    pub target_url: String,
    pub success: bool,
    pub status_code: u32,
    pub dns_us: u64,
    pub tcp_us: u64,
    pub tls_us: u64,
    pub ttfb_us: u64,
    pub total_us: u64,
    pub task_nonce: String,
    pub signature: Vec<u8>,
    pub error_kind: String,
    pub error_msg: String,
    pub timestamp_ms: u64,
}

impl ProbeOutcome {
    /// The outcome of a probe that succeeded: `success` set, no error.
    #[allow(clippy::too_many_arguments)]
    pub fn success(
        job_id: String,
        batch_id: String,
        node_id: String,
        target_url: String,
        status_code: u32,
        dns_us: u64,
        tcp_us: u64,
        tls_us: u64,
        ttfb_us: u64,
        total_us: u64,
        task_nonce: String,
        signature: Vec<u8>,
        timestamp_ms: u64,
    ) -> (r: ProbeOutcome)
        ensures
            r.job_id == job_id,
            r.batch_id == batch_id,
            r.node_id == node_id,
            r.target_url == target_url,
            r.success,
            r.status_code == status_code,
            r.dns_us == dns_us,
            r.tcp_us == tcp_us,
            r.tls_us == tls_us,
            r.ttfb_us == ttfb_us,
            r.total_us == total_us,
            r.task_nonce == task_nonce,
            r.signature == signature,
            r.error_kind@ == Seq::<char>::empty(),
            r.error_msg@ == Seq::<char>::empty(),
            r.timestamp_ms == timestamp_ms,
    {
        ProbeOutcome {
            job_id,
            batch_id,
            node_id,
            target_url,
            success: true,
            status_code,
            dns_us,
            tcp_us,
            tls_us,
            ttfb_us,
            total_us,
            task_nonce,
            signature,
            error_kind: String::new(),
            error_msg: String::new(),
            timestamp_ms,
        }
    }
}

/// The wire record of an outcome: every field carried over unchanged.
pub open spec fn wire_record(o: ProbeOutcome) -> ProbeResult {
    ProbeResult {
        job_id: o.job_id,
        batch_id: o.batch_id,
        node_id: o.node_id,
        target_url: o.target_url,
        success: o.success,
        status_code: o.status_code,
        dns_us: o.dns_us,
        tcp_us: o.tcp_us,
        tls_us: o.tls_us,
        ttfb_us: o.ttfb_us,
        total_us: o.total_us,
        error_kind: o.error_kind,
        error_msg: o.error_msg,
        timestamp_ms: o.timestamp_ms,
        task_nonce: o.task_nonce,
        signature: o.signature,
    }
}

/// Law: the wire record carries every field of the outcome unchanged, the
/// status code and the error texts included, whether or not the probe
/// succeeded.
pub proof fn wire_record_keeps_fields(o: ProbeOutcome)
    ensures
        wire_record(o).job_id == o.job_id,
        wire_record(o).batch_id == o.batch_id,
        wire_record(o).node_id == o.node_id,
        wire_record(o).target_url == o.target_url,
        wire_record(o).success == o.success,
        wire_record(o).status_code == o.status_code,
        wire_record(o).dns_us == o.dns_us,
        wire_record(o).tcp_us == o.tcp_us,
        wire_record(o).tls_us == o.tls_us,
        wire_record(o).ttfb_us == o.ttfb_us,
        wire_record(o).total_us == o.total_us,
        wire_record(o).error_kind == o.error_kind,
        wire_record(o).error_msg == o.error_msg,
        wire_record(o).timestamp_ms == o.timestamp_ms,
        wire_record(o).task_nonce == o.task_nonce,
        wire_record(o).signature == o.signature,
{
}

impl From<ProbeOutcome> for ProbeResult {
    fn from(o: ProbeOutcome) -> (r: ProbeResult)
        ensures
            r.job_id == o.job_id,
            r.batch_id == o.batch_id,
            r.node_id == o.node_id,
            r.target_url == o.target_url,
            r.success == o.success,
            r.status_code == o.status_code,
            r.dns_us == o.dns_us,
            r.tcp_us == o.tcp_us,
            r.tls_us == o.tls_us,
            r.ttfb_us == o.ttfb_us,
            r.total_us == o.total_us,
            r.error_kind == o.error_kind,
            r.error_msg == o.error_msg,
            r.timestamp_ms == o.timestamp_ms,
            r.task_nonce == o.task_nonce,
            r.signature == o.signature,
    {
        ProbeResult {
            job_id: o.job_id,
            batch_id: o.batch_id,
            node_id: o.node_id,
            target_url: o.target_url,
            success: o.success,
            status_code: o.status_code,
            dns_us: o.dns_us,
            tcp_us: o.tcp_us,
            tls_us: o.tls_us,
            ttfb_us: o.ttfb_us,
            total_us: o.total_us,
            error_kind: o.error_kind,
            error_msg: o.error_msg,
            timestamp_ms: o.timestamp_ms,
            task_nonce: o.task_nonce,
            signature: o.signature,
        }
    }
}

impl FromSpecImpl<ProbeOutcome> for ProbeResult {
    open spec fn obeys_from_spec() -> bool {
        true
    }

    open spec fn from_spec(o: ProbeOutcome) -> ProbeResult {
        wire_record(o)
    }
}

} // verus!
