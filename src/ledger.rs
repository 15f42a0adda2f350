use vstd::prelude::*;
use std::collections::HashMap;

verus! {

broadcast use vstd::std_specs::hash::group_hash_axioms;

/// Where a claimed record stands. `Sent` and `Failed` are terminal.
#[derive(Debug, Clone, Copy, PartialEq, Eq, Structural)]
pub enum JobStatus {
    Pending,
    Sent,
    Failed,
}

impl JobStatus {
    pub open spec fn is_terminal(self) -> bool {
        self is Sent || self is Failed
    }
}

/// A record is claimed as soon as the ledger holds an entry for it, whatever its status.
pub open spec fn claimed(m: Map<i64, JobStatus>, id: i64) -> bool {
    m.contains_key(id)
}

/// Claiming inserts a pending entry unless one exists already.
pub open spec fn after_claim(m: Map<i64, JobStatus>, id: i64) -> Map<i64, JobStatus> {
    if m.contains_key(id) {
        m
    } else {
        m.insert(id, JobStatus::Pending)
    }
}

/// Marking moves a pending entry to a terminal status; anything else is left alone.
pub open spec fn after_mark(m: Map<i64, JobStatus>, id: i64, s: JobStatus) -> Map<i64, JobStatus> {
    if m.contains_key(id) && m[id] == JobStatus::Pending {
        m.insert(id, s)
    } else {
        m
    }
}

/// An in-memory idempotency ledger, keyed by record identifier.
pub struct ProcessedJobsTracker {
    jobs: HashMap<i64, JobStatus>,
    receipts: HashMap<i64, String>,
    updated: HashMap<i64, i64>,
}

impl ProcessedJobsTracker {
    /// Status of each claimed record.
    pub closed spec fn statuses(&self) -> Map<i64, JobStatus> {
        self.jobs@
    }

    /// The receipt recorded for a record, if any.
    pub closed spec fn receipt(&self, id: i64) -> Option<Seq<char>> {
        if self.receipts@.contains_key(id) {
            Some(self.receipts@[id]@)
        } else {
            None
        }
    }

    /// When a record's entry last changed, if it has one.
    pub closed spec fn updated_at(&self, id: i64) -> Option<i64> {
        if self.updated@.contains_key(id) {
            Some(self.updated@[id])
        } else {
            None
        }
    }

    pub closed spec fn wf(&self) -> bool {
        forall|id: i64| #[trigger] self.receipts@.contains_key(id)
            ==> self.jobs@.contains_key(id) && self.jobs@[id] == JobStatus::Sent
    }

    /// An empty ledger.
    pub fn new() -> (r: Self)
        ensures
            r.wf(),
            r.statuses() == Map::<i64, JobStatus>::empty(),
            forall|id: i64| r.receipt(id) is None,
            forall|id: i64| r.updated_at(id) is None,
    {
        ProcessedJobsTracker { jobs: HashMap::new(), receipts: HashMap::new(), updated: HashMap::new() }
    }

    /// When a record's entry last changed.
    pub fn updated_at_of(&self, record_id: i64) -> (r: Option<i64>)
        ensures
            r == self.updated_at(record_id),
    {
        match self.updated.get(&record_id) {
            Some(t) => Some(*t),
            None => None,
        }
    }

    /// True iff an entry exists for the record, whatever its status.
    pub fn is_processed(&self, record_id: i64) -> (r: bool)
        ensures
            r == claimed(self.statuses(), record_id),
    {
        self.jobs.contains_key(&record_id)
    }

    /// Current status of a record's entry.
    pub fn status_of(&self, record_id: i64) -> (r: Option<JobStatus>)
        ensures
            r == (if self.statuses().contains_key(record_id) {
                Some(self.statuses()[record_id])
            } else {
                None::<JobStatus>
            }),
    {
        match self.jobs.get(&record_id) {
            Some(s) => Some(*s),
            None => None,
        }
    }

    /// The receipt recorded for a record, if it was sent.
    pub fn receipt_of(&self, record_id: i64) -> (r: Option<String>)
        ensures
            r matches Some(s) ==> self.receipt(record_id) == Some(s@),
            r is None ==> self.receipt(record_id) is None,
    {
        match self.receipts.get(&record_id) {
            Some(s) => Some(s.clone()),
            None => None,
        }
    }

    /// Inserts a pending entry if none exists; otherwise does nothing. Returns
    /// whether this call made the entry.
    pub fn mark_pending(&mut self, record_id: i64, now: i64) -> (r: bool)
        requires
            old(self).wf(),
        ensures
            r == !claimed(old(self).statuses(), record_id),
            final(self).wf(),
            final(self).statuses() == after_claim(old(self).statuses(), record_id),
            forall|id: i64| final(self).receipt(id) == old(self).receipt(id),
            forall|id: i64| id != record_id || !r ==> final(self).updated_at(id) == old(self).updated_at(id),
            r ==> final(self).updated_at(record_id) == Some(now),
    {
        if !self.jobs.contains_key(&record_id) {
            self.jobs.insert(record_id, JobStatus::Pending);
            self.updated.insert(record_id, now);
            true
        } else {
            false
        }
    }

    /// A receipt is stored only for an entry that was sent.
    pub proof fn receipt_implies_sent(&self, id: i64)
        requires
            self.wf(),
        ensures
            self.receipt(id) is Some ==> self.statuses().contains_key(id)
                && self.statuses()[id] == JobStatus::Sent,
    {
    }

    /// Moves a pending entry to sent and records its receipt; otherwise does nothing.
    pub fn mark_sent(&mut self, record_id: i64, tx_hash: &str, now: i64)
        requires
            old(self).wf(),
        ensures
            final(self).wf(),
            final(self).statuses() == after_mark(old(self).statuses(), record_id, JobStatus::Sent),
            forall|id: i64| id != record_id ==> final(self).receipt(id) == old(self).receipt(id),
            old(self).statuses().contains_key(record_id)
                && old(self).statuses()[record_id] == JobStatus::Pending
                ==> final(self).receipt(record_id) == Some(tx_hash@),
            !(old(self).statuses().contains_key(record_id)
                && old(self).statuses()[record_id] == JobStatus::Pending)
                ==> final(self).receipt(record_id) == old(self).receipt(record_id)
                && final(self).updated_at(record_id) == old(self).updated_at(record_id),
            old(self).statuses().contains_key(record_id)
                && old(self).statuses()[record_id] == JobStatus::Pending
                ==> final(self).updated_at(record_id) == Some(now),
            forall|id: i64| id != record_id ==> final(self).updated_at(id) == old(self).updated_at(id),
    {
        let pending = match self.jobs.get(&record_id) {
            Some(s) => *s == JobStatus::Pending,
            None => false,
        };
        if pending {
            self.jobs.insert(record_id, JobStatus::Sent);
            self.receipts.insert(record_id, tx_hash.to_owned());
            self.updated.insert(record_id, now);
        }
    }

    /// Moves a pending entry to failed; otherwise does nothing.
    pub fn mark_failed(&mut self, record_id: i64, now: i64)
        requires
            old(self).wf(),
        ensures
            final(self).wf(),
            final(self).statuses() == after_mark(old(self).statuses(), record_id, JobStatus::Failed),
            forall|id: i64| final(self).receipt(id) == old(self).receipt(id),
            forall|id: i64| id != record_id ==> final(self).updated_at(id) == old(self).updated_at(id),
            old(self).statuses().contains_key(record_id)
                && old(self).statuses()[record_id] == JobStatus::Pending
                ==> final(self).updated_at(record_id) == Some(now),
            !(old(self).statuses().contains_key(record_id)
                && old(self).statuses()[record_id] == JobStatus::Pending)
                ==> final(self).updated_at(record_id) == old(self).updated_at(record_id),
    {
        let pending = match self.jobs.get(&record_id) {
            Some(s) => *s == JobStatus::Pending,
            None => false,
        };
        if pending {
            self.jobs.insert(record_id, JobStatus::Failed);
            self.updated.insert(record_id, now);
        }
    }
}

/// Claiming twice leaves exactly the entry that claiming once creates: one
/// pending entry for the identifier, and the second claim changes nothing.
pub proof fn claim_is_exclusive(m: Map<i64, JobStatus>, id: i64)
    ensures
        after_claim(after_claim(m, id), id) == after_claim(m, id),
        claimed(after_claim(m, id), id),
        !claimed(m, id) ==> after_claim(m, id)[id] == JobStatus::Pending,
        claimed(m, id) ==> after_claim(m, id) == m,
        after_claim(m, id).dom() == m.dom().insert(id),
{
    assert(after_claim(m, id).dom() =~= m.dom().insert(id));
}

/// Terminal statuses are never left: marking a terminal entry changes nothing.
pub proof fn terminal_is_final(m: Map<i64, JobStatus>, id: i64, s: JobStatus)
    requires
        m.contains_key(id),
        m[id].is_terminal(),
    ensures
        after_mark(m, id, s) == m,
        after_claim(m, id) == m,
{
}

} // verus!
