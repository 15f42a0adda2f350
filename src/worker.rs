use vstd::prelude::*;
use crate::chain::now_millis;
use crate::config::WorkerConfig;
use crate::error::{AppError, AppResult};
use crate::ledger::JobStatus;
use crate::model::Transaction;
use crate::processor::{phase_result, process_cases, process_model, TransactionProcessorService};

verus! {

pub const MILLIS_PER_HOUR: i64 = 3600000;

/// `v` held within the range of `i64`.
pub open spec fn clamp_i64(v: int) -> i64 {
    if v < i64::MIN {
        i64::MIN
    } else if v > i64::MAX {
        i64::MAX
    } else {
        v as i64
    }
}

/// The first cursor: `lookback_hours` before `now`, held within range.
pub open spec fn initial_cursor(now: i64, lookback_hours: i64) -> i64 {
    clamp_i64(now - lookback_hours * MILLIS_PER_HOUR)
}

/// The cursor after a poll cycle: the time the cycle ended if its fetch
/// succeeded, else unchanged so that the same window is fetched again.
pub open spec fn next_cursor(cursor: i64, fetched: bool, now: i64) -> i64 {
    if fetched { now } else { cursor }
}

/// The ledger after processing a batch in order, each record with its gateway answer.
pub open spec fn batch_model(
    m: Map<i64, JobStatus>,
    txs: Seq<Transaction>,
    answers: Seq<AppResult<[u8; 32]>>,
) -> Map<i64, JobStatus>
    decreases txs.len(),
{
    if txs.len() == 0 {
        m
    } else {
        process_model(batch_model(m, txs.drop_last(), answers.drop_last()), txs.last(), answers.last()).0
    }
}

/// Polls for new records and drives the processor over each of them.
pub struct PollingWorker {
    config: WorkerConfig,
    last_checked: i64,
    running: bool,
}

/// A service that can be started and asked to stop.
pub trait AppService {
    spec fn active(&self) -> bool;

    fn start(&mut self) -> (r: AppResult<()>)
        ensures
            final(self).active(),
            r is Ok;

    fn stop(&mut self) -> (r: AppResult<()>)
        ensures
            !final(self).active(),
            r is Ok;
}

impl PollingWorker {
    pub closed spec fn settings(&self) -> WorkerConfig {
        self.config
    }

    pub closed spec fn cursor_spec(&self) -> i64 {
        self.last_checked
    }

    pub closed spec fn running_spec(&self) -> bool {
        self.running
    }

    /// A stopped worker whose cursor lies the configured lookback before `now`.
    pub fn starting_at(config: WorkerConfig, now: i64) -> (r: Self)
        ensures
            r.settings() == config,
            r.cursor_spec() == initial_cursor(now, config.lookback_hours),
            !r.running_spec(),
    {
        let hours = config.lookback_hours;
        proof {
            assert(hours as int * 3600000 <= i64::MAX as int * 3600000) by (nonlinear_arith)
                requires hours <= i64::MAX;
            assert(hours as int * 3600000 >= i64::MIN as int * 3600000) by (nonlinear_arith)
                requires hours >= i64::MIN;
        }
        let back: i128 = hours as i128 * MILLIS_PER_HOUR as i128;
        let start: i128 = now as i128 - back;
        let cursor: i64 = if start < i64::MIN as i128 {
            i64::MIN
        } else if start > i64::MAX as i128 {
            i64::MAX
        } else {
            start as i64
        };
        PollingWorker { config, last_checked: cursor, running: false }
    }

    /// A stopped worker whose cursor lies the configured lookback before the current time.
    pub fn new(config: WorkerConfig) -> (r: Self)
        ensures
            r.settings() == config,
            !r.running_spec(),
            exists|t: i64| r.cursor_spec() == #[trigger] initial_cursor(t, config.lookback_hours),
    {
        let now = now_millis();
        let r = Self::starting_at(config, now);
        assert(r.cursor_spec() == initial_cursor(now, config.lookback_hours));
        r
    }

    /// The settings the worker was made with.
    pub fn config(&self) -> (r: WorkerConfig)
        ensures
            r == self.settings(),
    {
        self.config
    }

    /// The watermark: records created strictly after it are new.
    pub fn cursor(&self) -> (r: i64)
        ensures
            r == self.cursor_spec(),
    {
        self.last_checked
    }

    pub fn is_running(&self) -> (r: bool)
        ensures
            r == self.running_spec(),
    {
        self.running
    }

    /// Ends a poll cycle at time `now`: the cursor moves to `now` when the fetch
    /// succeeded and stays where it was when it failed.
    pub fn finish_cycle(&mut self, fetched: bool, now: i64)
        ensures
            final(self).cursor_spec() == next_cursor(old(self).cursor_spec(), fetched, now),
            final(self).running_spec() == old(self).running_spec(),
            final(self).settings() == old(self).settings(),
    {
        if fetched {
            self.last_checked = now;
        }
    }

    /// One poll cycle over what the fetch returned. On a failed fetch nothing
    /// is processed and the error is returned. Otherwise every record is
    /// processed in order, with `answers[i]` as the gateway's answer for
    /// `txs[i]`, a failure of one never stopping the next, and the cursor moves
    /// to `now`. The per-record results are returned in order.
    pub fn poll_once(
        &mut self,
        processor: &mut TransactionProcessorService,
        fetched: AppResult<Vec<Transaction>>,
        answers: &Vec<AppResult<[u8; 32]>>,
        now: i64,
    ) -> (r: AppResult<Vec<AppResult<()>>>)
        requires
            old(processor).processed_jobs_tracker.wf(),
            fetched matches Ok(txs) ==> txs@.len() == answers@.len(),
        ensures
            final(processor).processed_jobs_tracker.wf(),
            final(self).settings() == old(self).settings(),
            final(self).running_spec() == old(self).running_spec(),
            final(self).cursor_spec() == next_cursor(old(self).cursor_spec(), fetched is Ok, now),
            fetched matches Err(e) ==> r == Err::<Vec<AppResult<()>>, AppError>(e)
                && final(processor).processed_jobs_tracker.statuses()
                == old(processor).processed_jobs_tracker.statuses(),
            fetched matches Ok(txs) ==> r matches Ok(results) && results@.len() == txs@.len()
                && final(processor).processed_jobs_tracker.statuses()
                == batch_model(old(processor).processed_jobs_tracker.statuses(), txs@, answers@)
                && forall|i: int| 0 <= i < txs@.len() ==> #[trigger] results@[i] == phase_result(
                    process_model(
                        batch_model(old(processor).processed_jobs_tracker.statuses(),
                            txs@.take(i), answers@.take(i)),
                        txs@[i], answers@[i]).2),
    {
        let txs = match fetched {
            Err(e) => {
                self.finish_cycle(false, now);
                return Err(e);
            },
            Ok(txs) => txs,
        };
        let ghost m0 = processor.processed_jobs_tracker.statuses();
        let mut results: Vec<AppResult<()>> = Vec::new();
        let mut i: usize = 0;
        while i < txs.len()
            invariant
                i <= txs@.len(),
                txs@.len() == answers@.len(),
                processor.processed_jobs_tracker.wf(),
                m0 == old(processor).processed_jobs_tracker.statuses(),
                results@.len() == i,
                processor.processed_jobs_tracker.statuses()
                    == batch_model(m0, txs@.take(i as int), answers@.take(i as int)),
                forall|k: int| 0 <= k < i ==> #[trigger] results@[k] == phase_result(
                    process_model(batch_model(m0, txs@.take(k), answers@.take(k)), txs@[k], answers@[k]).2),
            decreases txs@.len() - i,
        {
            let ghost before = processor.processed_jobs_tracker.statuses();
            let (res, _) = processor.process_transaction(&txs[i], answers[i], now);
            results.push(res);
            proof {
                let t1 = txs@.take(i + 1);
                let a1 = answers@.take(i + 1);
                assert(t1.drop_last() =~= txs@.take(i as int));
                assert(a1.drop_last() =~= answers@.take(i as int));
                assert(t1.last() == txs@[i as int]);
                assert(a1.last() == answers@[i as int]);
            }
            i = i + 1;
        }
        proof {
            assert(txs@.take(txs@.len() as int) =~= txs@);
            assert(answers@.take(answers@.len() as int) =~= answers@);
        }
        self.finish_cycle(true, now);
        Ok(results)
    }
}

impl AppService for PollingWorker {
    open spec fn active(&self) -> bool {
        self.running_spec()
    }

    /// Marks the worker running; the caller drives the cycles while it stays so.
    fn start(&mut self) -> (r: AppResult<()>)
        ensures
            final(self).cursor_spec() == old(self).cursor_spec(),
            final(self).settings() == old(self).settings(),
    {
        self.running = true;
        Ok(())
    }

    /// Asks the worker to stop after the current cycle.
    fn stop(&mut self) -> (r: AppResult<()>)
        ensures
            final(self).cursor_spec() == old(self).cursor_spec(),
            final(self).settings() == old(self).settings(),
    {
        self.running = false;
        Ok(())
    }
}

/// The cursor never moves back across a cycle that ends no earlier than it,
/// and a cycle whose fetch failed leaves it exactly where it was.
pub proof fn cursor_is_monotone(cursor: i64, fetched: bool, now: i64)
    requires
        now >= cursor,
    ensures
        next_cursor(cursor, fetched, now) >= cursor,
        !fetched ==> next_cursor(cursor, fetched, now) == cursor,
{
}

/// A failure on one record never keeps the others of its batch from being
/// processed: after the batch every one of its records holds a ledger entry,
/// whatever the gateway answered, and no entry that existed is lost.
pub proof fn batch_processes_every_record(
    m: Map<i64, JobStatus>,
    txs: Seq<Transaction>,
    answers: Seq<AppResult<[u8; 32]>>,
)
    requires
        txs.len() == answers.len(),
    ensures
        forall|i: int| 0 <= i < txs.len() ==> batch_model(m, txs, answers).contains_key(#[trigger] txs[i].key()),
        forall|k: i64| m.contains_key(k) ==> batch_model(m, txs, answers).contains_key(k),
    decreases txs.len(),
{
    if txs.len() > 0 {
        let prev = batch_model(m, txs.drop_last(), answers.drop_last());
        batch_processes_every_record(m, txs.drop_last(), answers.drop_last());
        process_cases(prev, txs.last(), answers.last());
        let after = batch_model(m, txs, answers);
        assert forall|i: int| 0 <= i < txs.len() implies after.contains_key(#[trigger] txs[i].key()) by {
            if i < txs.len() - 1 {
                assert(txs.drop_last()[i] == txs[i]);
            }
        }
    }
}

} // verus!
