//! The scheduler's bookkeeping: which work a batch hands out, and what reaches
//! the stream once a probe is over.

use vstd::prelude::*;
use crate::engine::worker::UptimeWorker;
use crate::network::stream::{message_texts, result_texts, signature_or_empty, signatures_only};
use crate::types::pb::{Job, JobBatch, MinerMessage, MinerPayload, ProbeResult};

verus! {

/// The hard limit on one probe, in milliseconds, after which its result is
/// dropped.
pub const PROBE_HARD_LIMIT_MS: u64 = 30000;

/// One job handed out, with the batch it came in.
pub struct Assignment {
    pub batch_id: String,
    pub job: Job,
}

/// Runs the probes of job batches, at most `max_concurrency` at a time.
pub struct TaskScheduler {
    pub worker: UptimeWorker,
    pub max_concurrency: usize,
}

impl TaskScheduler {
    /// A scheduler that runs `worker`'s probes, at most `max_concurrency` at once.
    pub fn new(worker: UptimeWorker, max_concurrency: usize) -> (r: TaskScheduler)
        ensures
            r.worker == worker,
            r.max_concurrency == max_concurrency,
    {
        TaskScheduler { worker, max_concurrency }
    }

    /// The work a batch hands out: each of its jobs, in order, tagged with the
    /// batch's id.
    pub fn dispatch_batch(&self, batch: JobBatch) -> (r: Vec<Assignment>)
        ensures
            r@.len() == batch.jobs@.len(),
            forall|i: int| 0 <= i < r@.len() ==> #[trigger] r@[i].batch_id == batch.batch_id
                && r@[i].job == batch.jobs@[i],
    {
        let JobBatch { batch_id, jobs } = batch;
        let mut out: Vec<Assignment> = Vec::new();
        let mut rest = jobs;
        let ghost all = rest@;
        let mut taken: usize = 0;
        let n = rest.len();
        while taken < n
            invariant
                n == all.len(),
                taken <= n,
                rest@ == all.skip(taken as int),
                out@.len() == taken,
                forall|i: int| 0 <= i < taken ==> #[trigger] out@[i].batch_id == batch_id && out@[i].job == all[i],
            decreases n - taken,
        {
            let job = rest.remove(0);
            assert(job == all[taken as int]);
            out.push(Assignment { batch_id: batch_id.clone(), job });
            taken = taken + 1;
            assert(rest@ =~= all.skip(taken as int));
        }
        out
    }

    /// The message a probe sends to the stream: its result, or nothing where
    /// the hard limit ran out before the probe ended.
    pub fn result_message(outcome: Option<ProbeResult>) -> (r: Option<MinerMessage>)
        ensures
            match outcome {
                Some(res) => r matches Some(m) && m.payload == Some(MinerPayload::Result(res))
                    && message_texts(m) == result_texts(res)
                    && (signatures_only(m) <==> signature_or_empty(res.signature@)),
                None => r is None,
            },
    {
        match outcome {
            Some(res) => Some(MinerMessage { payload: Some(MinerPayload::Result(res)) }),
            None => None,
        }
    }
}

} // verus!
