//! The fixed byte encoding of a probe record that its signature covers.
//!
//! Each text is written as its UTF-8 length in eight big-endian bytes followed
//! by its UTF-8 bytes; each number as eight big-endian bytes; the success flag
//! as one byte, 1 or 0. The fields come in this order: job id, task nonce,
//! batch id, node id, target URL, success, status code, DNS, TCP, TLS and
//! time-to-first-byte latencies, total time, error kind, error message and
//! timestamp. The signature itself is not covered.

use vstd::prelude::*;
use vstd::utf8::{encode_utf8, encode_utf8_decode_utf8};
use crate::types::pb::ProbeResult;

verus! {

/// A number as eight big-endian bytes.
pub open spec fn be64(n: u64) -> Seq<u8> {
    seq![
        (n >> 56u64) as u8,
        (n >> 48u64) as u8,
        (n >> 40u64) as u8,
        (n >> 32u64) as u8,
        (n >> 24u64) as u8,
        (n >> 16u64) as u8,
        (n >> 8u64) as u8,
        n as u8,
    ]
}

/// A text as its UTF-8 length (eight big-endian bytes) and its UTF-8 bytes.
pub open spec fn text_field(s: Seq<char>) -> Seq<u8> {
    be64(encode_utf8(s).len() as u64) + encode_utf8(s)
}

/// The success flag as one byte.
pub open spec fn flag_byte(b: bool) -> Seq<u8> {
    seq![if b { 1u8 } else { 0u8 }]
}

/// The bytes of a record that its signature covers: every reported field but
/// the signature, in the fixed encoding above.
pub open spec fn telemetry_bytes(r: ProbeResult) -> Seq<u8> {
    text_field(r.job_id@) + (text_field(r.task_nonce@) + (text_field(r.batch_id@) + (
    text_field(r.node_id@) + (text_field(r.target_url@) + (flag_byte(r.success) + (
    be64(r.status_code as u64) + (be64(r.dns_us) + (be64(r.tcp_us) + (be64(r.tls_us) + (
    be64(r.ttfb_us) + (be64(r.total_us) + (text_field(r.error_kind@) + (
    text_field(r.error_msg@) + be64(r.timestamp_ms))))))))))))))
}

/// Every text of the record has a UTF-8 length that fits in eight bytes.
pub open spec fn encodable(r: ProbeResult) -> bool {
    &&& encode_utf8(r.job_id@).len() <= u64::MAX
    &&& encode_utf8(r.task_nonce@).len() <= u64::MAX
    &&& encode_utf8(r.batch_id@).len() <= u64::MAX
    &&& encode_utf8(r.node_id@).len() <= u64::MAX
    &&& encode_utf8(r.target_url@).len() <= u64::MAX
    &&& encode_utf8(r.error_kind@).len() <= u64::MAX
    &&& encode_utf8(r.error_msg@).len() <= u64::MAX
}

/// The reported fields of two records agree.
pub open spec fn same_telemetry(a: ProbeResult, b: ProbeResult) -> bool {
    &&& a.job_id@ == b.job_id@
    &&& a.task_nonce@ == b.task_nonce@
    &&& a.batch_id@ == b.batch_id@
    &&& a.node_id@ == b.node_id@
    &&& a.target_url@ == b.target_url@
    &&& a.success == b.success
    &&& a.status_code == b.status_code
    &&& a.dns_us == b.dns_us
    &&& a.tcp_us == b.tcp_us
    &&& a.tls_us == b.tls_us
    &&& a.ttfb_us == b.ttfb_us
    &&& a.total_us == b.total_us
    &&& a.error_kind@ == b.error_kind@
    &&& a.error_msg@ == b.error_msg@
    &&& a.timestamp_ms == b.timestamp_ms
}

proof fn lemma_be64_prefix(a: u64, b: u64, r1: Seq<u8>, r2: Seq<u8>)
    requires
        be64(a) + r1 == be64(b) + r2,
    ensures
        a == b,
        r1 == r2,
{
    let x = be64(a) + r1;
    let y = be64(b) + r2;
    assert(x[0] == y[0] && x[1] == y[1] && x[2] == y[2] && x[3] == y[3]);
    assert(x[4] == y[4] && x[5] == y[5] && x[6] == y[6] && x[7] == y[7]);
    assert(a == b) by (bit_vector)
        requires
            (a >> 56u64) as u8 == (b >> 56u64) as u8,
            (a >> 48u64) as u8 == (b >> 48u64) as u8,
            (a >> 40u64) as u8 == (b >> 40u64) as u8,
            (a >> 32u64) as u8 == (b >> 32u64) as u8,
            (a >> 24u64) as u8 == (b >> 24u64) as u8,
            (a >> 16u64) as u8 == (b >> 16u64) as u8,
            (a >> 8u64) as u8 == (b >> 8u64) as u8,
            a as u8 == b as u8,
    ;
    assert(r1 =~= x.skip(8));
    assert(r2 =~= y.skip(8));
}

proof fn lemma_text_prefix(s1: Seq<char>, s2: Seq<char>, r1: Seq<u8>, r2: Seq<u8>)
    requires
        encode_utf8(s1).len() <= u64::MAX,
        encode_utf8(s2).len() <= u64::MAX,
        text_field(s1) + r1 == text_field(s2) + r2,
    ensures
        s1 == s2,
        r1 == r2,
{
    let e1 = encode_utf8(s1);
    let e2 = encode_utf8(s2);
    assert(text_field(s1) + r1 =~= be64(e1.len() as u64) + (e1 + r1));
    assert(text_field(s2) + r2 =~= be64(e2.len() as u64) + (e2 + r2));
    lemma_be64_prefix(e1.len() as u64, e2.len() as u64, e1 + r1, e2 + r2);
    assert(e1.len() == e2.len());
    assert(e1 =~= (e1 + r1).take(e1.len() as int));
    assert(e2 =~= (e2 + r2).take(e2.len() as int));
    assert(r1 =~= (e1 + r1).skip(e1.len() as int));
    assert(r2 =~= (e2 + r2).skip(e2.len() as int));
    encode_utf8_decode_utf8(s1);
    encode_utf8_decode_utf8(s2);
}

proof fn lemma_flag_prefix(a: bool, b: bool, r1: Seq<u8>, r2: Seq<u8>)
    requires
        flag_byte(a) + r1 == flag_byte(b) + r2,
    ensures
        a == b,
        r1 == r2,
{
    let x = flag_byte(a) + r1;
    let y = flag_byte(b) + r2;
    assert(x[0] == y[0]);
    assert(r1 =~= x.skip(1));
    assert(r2 =~= y.skip(1));
}

/// Law: the encoding is one to one. Two records with the same covered bytes
/// report the same telemetry, so a signature over the bytes binds every
/// reported field.
pub proof fn telemetry_bytes_identify_record(a: ProbeResult, b: ProbeResult)
    requires
        encodable(a),
        encodable(b),
        telemetry_bytes(a) == telemetry_bytes(b),
    ensures
        same_telemetry(a, b),
{
    let t15a = be64(a.timestamp_ms);
    let t15b = be64(b.timestamp_ms);
    let t14a = text_field(a.error_msg@) + t15a;
    let t14b = text_field(b.error_msg@) + t15b;
    let t13a = text_field(a.error_kind@) + t14a;
    let t13b = text_field(b.error_kind@) + t14b;
    let t12a = be64(a.total_us) + t13a;
    let t12b = be64(b.total_us) + t13b;
    let t11a = be64(a.ttfb_us) + t12a;
    let t11b = be64(b.ttfb_us) + t12b;
    let t10a = be64(a.tls_us) + t11a;
    let t10b = be64(b.tls_us) + t11b;
    let t9a = be64(a.tcp_us) + t10a;
    let t9b = be64(b.tcp_us) + t10b;
    let t8a = be64(a.dns_us) + t9a;
    let t8b = be64(b.dns_us) + t9b;
    let t7a = be64(a.status_code as u64) + t8a;
    let t7b = be64(b.status_code as u64) + t8b;
    let t6a = flag_byte(a.success) + t7a;
    let t6b = flag_byte(b.success) + t7b;
    let t5a = text_field(a.target_url@) + t6a;
    let t5b = text_field(b.target_url@) + t6b;
    let t4a = text_field(a.node_id@) + t5a;
    let t4b = text_field(b.node_id@) + t5b;
    let t3a = text_field(a.batch_id@) + t4a;
    let t3b = text_field(b.batch_id@) + t4b;
    let t2a = text_field(a.task_nonce@) + t3a;
    let t2b = text_field(b.task_nonce@) + t3b;
    lemma_text_prefix(a.job_id@, b.job_id@, t2a, t2b);
    lemma_text_prefix(a.task_nonce@, b.task_nonce@, t3a, t3b);
    lemma_text_prefix(a.batch_id@, b.batch_id@, t4a, t4b);
    lemma_text_prefix(a.node_id@, b.node_id@, t5a, t5b);
    lemma_text_prefix(a.target_url@, b.target_url@, t6a, t6b);
    lemma_flag_prefix(a.success, b.success, t7a, t7b);
    lemma_be64_prefix(a.status_code as u64, b.status_code as u64, t8a, t8b);
    lemma_be64_prefix(a.dns_us, b.dns_us, t9a, t9b);
    lemma_be64_prefix(a.tcp_us, b.tcp_us, t10a, t10b);
    lemma_be64_prefix(a.tls_us, b.tls_us, t11a, t11b);
    lemma_be64_prefix(a.ttfb_us, b.ttfb_us, t12a, t12b);
    lemma_be64_prefix(a.total_us, b.total_us, t13a, t13b);
    lemma_text_prefix(a.error_kind@, b.error_kind@, t14a, t14b);
    assert(text_field(a.error_msg@) + t15a == text_field(b.error_msg@) + t15b);
    lemma_text_prefix(a.error_msg@, b.error_msg@, t15a, t15b);
    lemma_be64_prefix(a.timestamp_ms, b.timestamp_ms, Seq::empty(), Seq::empty());
}

fn be64_bytes(n: u64) -> (r: Vec<u8>)
    ensures
        r@ == be64(n),
{
    let mut out: Vec<u8> = Vec::new();
    out.push((n >> 56u64) as u8);
    out.push((n >> 48u64) as u8);
    out.push((n >> 40u64) as u8);
    out.push((n >> 32u64) as u8);
    out.push((n >> 24u64) as u8);
    out.push((n >> 16u64) as u8);
    out.push((n >> 8u64) as u8);
    out.push(n as u8);
    assert(out@ =~= be64(n));
    out
}

fn text_bytes(s: &str) -> (r: Vec<u8>)
    ensures
        r@ == text_field(s@),
{
    let bytes = s.as_bytes();
    let len = bytes.len();
    let mut out = be64_bytes(len as u64);
    let ghost head = out@;
    let mut i: usize = 0;
    while i < len
        invariant
            len == bytes@.len(),
            bytes@ == encode_utf8(s@),
            i <= len,
            out@ == head + bytes@.take(i as int),
        decreases len - i,
    {
        out.push(bytes[i]);
        assert(bytes@.take(i + 1) =~= bytes@.take(i as int).push(bytes@[i as int]));
        i = i + 1;
    }
    assert(bytes@.take(len as int) =~= bytes@);
    out
}

fn prepend(head: Vec<u8>, tail: Vec<u8>) -> (r: Vec<u8>)
    ensures
        r@ == head@ + tail@,
{
    let mut head = head;
    let mut tail = tail;
    head.append(&mut tail);
    head
}

/// The bytes of `r` that its signature covers.
pub fn telemetry_message(r: &ProbeResult) -> (m: Vec<u8>)
    ensures
        m@ == telemetry_bytes(*r),
{
    let mut flag: Vec<u8> = Vec::new();
    flag.push(if r.success { 1u8 } else { 0u8 });
    assert(flag@ =~= flag_byte(r.success));
    let t = be64_bytes(r.timestamp_ms);
    let t = prepend(text_bytes(r.error_msg.as_str()), t);
    let t = prepend(text_bytes(r.error_kind.as_str()), t);
    let t = prepend(be64_bytes(r.total_us), t);
    let t = prepend(be64_bytes(r.ttfb_us), t);
    let t = prepend(be64_bytes(r.tls_us), t);
    let t = prepend(be64_bytes(r.tcp_us), t);
    let t = prepend(be64_bytes(r.dns_us), t);
    let t = prepend(be64_bytes(r.status_code as u64), t);
    let t = prepend(flag, t);
    let t = prepend(text_bytes(r.target_url.as_str()), t);
    let t = prepend(text_bytes(r.node_id.as_str()), t);
    let t = prepend(text_bytes(r.batch_id.as_str()), t);
    let t = prepend(text_bytes(r.task_nonce.as_str()), t);
    prepend(text_bytes(r.job_id.as_str()), t)
}

} // verus!
