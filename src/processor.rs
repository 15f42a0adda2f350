use vstd::prelude::*;
use crate::chain::{
    address_bytes, decimal_value, is_amount_text, limbs_value, format_receipt, is_address_text, parse_amount, parse_destination,
    receipt_text,
};
use crate::error::{AppError, AppResult};
use crate::ledger::{after_claim, after_mark, claimed, JobStatus, ProcessedJobsTracker};
use crate::model::{Transaction, TransactionPayload};

verus! {

/// Why a payload cannot be relayed, checked in order: shape, destination, amount.
pub open spec fn validation_error(p: Option<TransactionPayload>) -> Option<AppError> {
    match p {
        None => Some(AppError::InvalidPayload),
        Some(p) => if !is_address_text(p.to@) {
            Some(AppError::InvalidAddress)
        } else if !is_amount_text(p.amount@) {
            Some(AppError::InvalidAmount)
        } else {
            None
        },
    }
}

/// Parses the destination and amount of a payload: the address bytes that
/// `to` spells and the value of `amount`, as little-endian limbs.
pub fn validate_payload(payload: &Option<TransactionPayload>) -> (r: AppResult<([u8; 20], [u64; 4])>)
    ensures
        r.is_ok() == validation_error(*payload).is_none(),
        r matches Err(e) ==> validation_error(*payload) == Some(e),
        r matches Ok((to, value)) ==> payload matches Some(p)
            && to@ == address_bytes(p.to@) && limbs_value(value@) == decimal_value(p.amount@),
{
    match payload {
        None => Err(AppError::InvalidPayload),
        Some(p) => match parse_destination(&p.to) {
            None => Err(AppError::InvalidAddress),
            Some(to) => match parse_amount(&p.amount) {
                None => Err(AppError::InvalidAmount),
                Some(value) => Ok((to, value)),
            },
        },
    }
}

/// Where the processing of one record stands between two outside steps.
#[derive(Debug, Clone, Copy, PartialEq, Eq, Structural)]
pub enum Phase {
    Start,
    AwaitClaimCheck,
    AwaitClaim,
    AwaitSubmit,
    AwaitMarkSent,
    AwaitMarkFailed { cause: AppError },
    /// Processing is over; `error` is what is reported to the worker.
    Finished { error: Option<AppError> },
}

/// What the outside world answered to the last action.
#[derive(Debug, Clone, Copy)]
pub enum Event {
    Begin,
    ClaimChecked { claimed: bool },
    /// The claim went through; `inserted` says whether this caller's insert made the entry.
    Claimed { inserted: bool },
    Submitted { tx_hash: [u8; 32] },
    SubmitFailed,
    Recorded,
    StoreFailed,
}

/// The next outside step to perform.
#[derive(Debug)]
pub enum Action {
    IsProcessed { record_id: i64 },
    MarkPending { record_id: i64 },
    Submit { to: [u8; 20], value: [u64; 4] },
    MarkSent { record_id: i64, tx_hash: String },
    MarkFailed { record_id: i64 },
}

/// An action as the contracts see it: a submission shows the destination's
/// bytes and the amount as a number.
pub enum ActionView {
    IsProcessed { record_id: i64 },
    MarkPending { record_id: i64 },
    Submit { to: Seq<u8>, value: nat },
    MarkSent { record_id: i64, tx_hash: Seq<char> },
    MarkFailed { record_id: i64 },
}

impl Action {
    pub open spec fn view(&self) -> ActionView {
        match self {
            Action::IsProcessed { record_id } => ActionView::IsProcessed { record_id: *record_id },
            Action::MarkPending { record_id } => ActionView::MarkPending { record_id: *record_id },
            Action::Submit { to, value } => ActionView::Submit { to: to@, value: limbs_value(value@) },
            Action::MarkSent { record_id, tx_hash } => ActionView::MarkSent {
                record_id: *record_id,
                tx_hash: tx_hash@,
            },
            Action::MarkFailed { record_id } => ActionView::MarkFailed { record_id: *record_id },
        }
    }
}

pub open spec fn action_view(a: Option<Action>) -> Option<ActionView> {
    match a {
        Some(a) => Some(a.view()),
        None => None,
    }
}

/// The phase that follows `ph` when `ev` arrives. An event that the phase does
/// not wait for leaves it unchanged.
pub open spec fn next_phase(ph: Phase, tx: Transaction, ev: Event) -> Phase {
    match (ph, ev) {
        (Phase::Start, Event::Begin) => Phase::AwaitClaimCheck,
        (Phase::AwaitClaimCheck, Event::ClaimChecked { claimed }) => if claimed {
            Phase::Finished { error: None }
        } else {
            Phase::AwaitClaim
        },
        (Phase::AwaitClaim, Event::Claimed { inserted }) => if !inserted {
            Phase::Finished { error: None }
        } else {
            match validation_error(tx.payload) {
                Some(e) => Phase::AwaitMarkFailed { cause: e },
                None => Phase::AwaitSubmit,
            }
        },
        (Phase::AwaitSubmit, Event::Submitted { .. }) => Phase::AwaitMarkSent,
        (Phase::AwaitSubmit, Event::SubmitFailed) => Phase::AwaitMarkFailed {
            cause: AppError::Submission,
        },
        (Phase::AwaitMarkSent, Event::Recorded) => Phase::Finished { error: None },
        (Phase::AwaitMarkFailed { cause }, Event::Recorded) => Phase::Finished { error: Some(cause) },
        (Phase::AwaitClaimCheck, Event::StoreFailed) => Phase::Finished {
            error: Some(AppError::StoreUnavailable),
        },
        (Phase::AwaitClaim, Event::StoreFailed) => Phase::Finished {
            error: Some(AppError::StoreUnavailable),
        },
        (Phase::AwaitMarkSent, Event::StoreFailed) => Phase::Finished {
            error: Some(AppError::StoreUnavailable),
        },
        (Phase::AwaitMarkFailed { .. }, Event::StoreFailed) => Phase::Finished {
            error: Some(AppError::StoreUnavailable),
        },
        _ => ph,
    }
}

/// The action issued on entering the phase that `ev` leads to, if the event was awaited.
pub open spec fn next_action(ph: Phase, tx: Transaction, ev: Event) -> Option<ActionView> {
    let id = tx.key();
    match (ph, ev) {
        (Phase::Start, Event::Begin) => Some(ActionView::IsProcessed { record_id: id }),
        (Phase::AwaitClaimCheck, Event::ClaimChecked { claimed }) => if claimed {
            None
        } else {
            Some(ActionView::MarkPending { record_id: id })
        },
        (Phase::AwaitClaim, Event::Claimed { inserted }) => if !inserted {
            None
        } else {
            match tx.payload {
                None => Some(ActionView::MarkFailed { record_id: id }),
                Some(p) => if validation_error(tx.payload) is Some {
                    Some(ActionView::MarkFailed { record_id: id })
                } else {
                    Some(ActionView::Submit { to: address_bytes(p.to@), value: decimal_value(p.amount@) })
                },
            }
        },
        (Phase::AwaitSubmit, Event::Submitted { tx_hash }) => Some(
            ActionView::MarkSent { record_id: id, tx_hash: receipt_text(tx_hash@) },
        ),
        (Phase::AwaitSubmit, Event::SubmitFailed) => Some(ActionView::MarkFailed { record_id: id }),
        _ => None,
    }
}

/// One decision of the processor: given where it stands and what the last
/// action returned, the next phase and the next outside step, if any.
pub fn step(ph: Phase, tx: &Transaction, ev: Event) -> (r: (Phase, Option<Action>))
    ensures
        r.0 == next_phase(ph, *tx, ev),
        action_view(r.1) == next_action(ph, *tx, ev),
{
    let id = tx.id as i64;
    match (ph, ev) {
        (Phase::Start, Event::Begin) => (
            Phase::AwaitClaimCheck,
            Some(Action::IsProcessed { record_id: id }),
        ),
        (Phase::AwaitClaimCheck, Event::ClaimChecked { claimed }) => if claimed {
            (Phase::Finished { error: None }, None)
        } else {
            (Phase::AwaitClaim, Some(Action::MarkPending { record_id: id }))
        },
        (Phase::AwaitClaim, Event::Claimed { inserted }) => if !inserted {
            (Phase::Finished { error: None }, None)
        } else {
            match validate_payload(&tx.payload) {
                Err(e) => (Phase::AwaitMarkFailed { cause: e }, Some(Action::MarkFailed { record_id: id })),
                Ok((to, value)) => (Phase::AwaitSubmit, Some(Action::Submit { to, value })),
            }
        },
        (Phase::AwaitSubmit, Event::Submitted { tx_hash }) => (
            Phase::AwaitMarkSent,
            Some(Action::MarkSent { record_id: id, tx_hash: format_receipt(&tx_hash) }),
        ),
        (Phase::AwaitSubmit, Event::SubmitFailed) => (
            Phase::AwaitMarkFailed { cause: AppError::Submission },
            Some(Action::MarkFailed { record_id: id }),
        ),
        (Phase::AwaitMarkSent, Event::Recorded) => (Phase::Finished { error: None }, None),
        (Phase::AwaitMarkFailed { cause }, Event::Recorded) => (Phase::Finished { error: Some(cause) }, None),
        (Phase::AwaitClaimCheck, Event::StoreFailed)
        | (Phase::AwaitClaim, Event::StoreFailed)
        | (Phase::AwaitMarkSent, Event::StoreFailed)
        | (Phase::AwaitMarkFailed { .. }, Event::StoreFailed) => (
            Phase::Finished { error: Some(AppError::StoreUnavailable) },
            None,
        ),
        _ => (ph, None),
    }
}

/// How a ledger that keeps its contract answers an action, and what it becomes;
/// `gateway` is what the gateway answers to a submission.
pub open spec fn respond(m: Map<i64, JobStatus>, a: ActionView, gateway: AppResult<[u8; 32]>) -> (Map<i64, JobStatus>, Event) {
    match a {
        ActionView::IsProcessed { record_id } => (m, Event::ClaimChecked { claimed: claimed(m, record_id) }),
        ActionView::MarkPending { record_id } => (
            after_claim(m, record_id),
            Event::Claimed { inserted: !claimed(m, record_id) },
        ),
        ActionView::Submit { .. } => (m, match gateway {
            Ok(h) => Event::Submitted { tx_hash: h },
            Err(_) => Event::SubmitFailed,
        }),
        ActionView::MarkSent { record_id, .. } => (after_mark(m, record_id, JobStatus::Sent), Event::Recorded),
        ActionView::MarkFailed { record_id } => (after_mark(m, record_id, JobStatus::Failed), Event::Recorded),
    }
}

/// Drives the processor for at most `fuel` actions from phase `ph` and event
/// `ev`: the ledger that results, the number of submissions made, and the last phase.
pub open spec fn run(
    m: Map<i64, JobStatus>,
    ph: Phase,
    tx: Transaction,
    ev: Event,
    gateway: AppResult<[u8; 32]>,
    fuel: nat,
) -> (Map<i64, JobStatus>, nat, Phase)
    decreases fuel,
{
    match next_action(ph, tx, ev) {
        None => (m, 0, next_phase(ph, tx, ev)),
        Some(a) => if fuel == 0 {
            (m, 0, next_phase(ph, tx, ev))
        } else {
            let (m2, ev2) = respond(m, a, gateway);
            let rest = run(m2, next_phase(ph, tx, ev), tx, ev2, gateway, (fuel - 1) as nat);
            (rest.0, rest.1 + if a is Submit { 1nat } else { 0nat }, rest.2)
        },
    }
}

/// A bound on the actions one record takes (four at most).
pub const MAX_ACTIONS: usize = 5;

/// One whole processing of `tx` against ledger `m`.
pub open spec fn process_model(m: Map<i64, JobStatus>, tx: Transaction, gateway: AppResult<[u8; 32]>) -> (Map<i64, JobStatus>, nat, Phase) {
    run(m, Phase::Start, tx, Event::Begin, gateway, MAX_ACTIONS as nat)
}

/// What a finished phase reports.
pub open spec fn phase_result(ph: Phase) -> AppResult<()> {
    match ph {
        Phase::Finished { error: None } => Ok(()),
        Phase::Finished { error: Some(e) } => Err(e),
        _ => Err(AppError::StoreUnavailable),
    }
}

impl Phase {
    /// What this phase reports to the worker: success or the error it ended
    /// with; a phase that has not finished reports the store as unavailable.
    pub fn result(&self) -> (r: AppResult<()>)
        ensures
            r == phase_result(*self),
    {
        match self {
            Phase::Finished { error: None } => Ok(()),
            Phase::Finished { error: Some(e) } => Err(*e),
            _ => Err(AppError::StoreUnavailable),
        }
    }
}

/// Processing one record, case by case: a claimed record is skipped with no
/// effect; otherwise it is claimed, and then an invalid payload ends failed
/// without a submission, and a valid one is submitted once and ends sent or
/// failed according to the gateway's answer.
pub proof fn process_cases(m: Map<i64, JobStatus>, tx: Transaction, gateway: AppResult<[u8; 32]>)
    ensures
        ({
            let (m2, n, ph) = process_model(m, tx, gateway);
            let id = tx.key();
            let c = after_claim(m, id);
            if claimed(m, id) {
                m2 == m && n == 0 && ph == (Phase::Finished { error: None })
            } else if validation_error(tx.payload) is Some {
                m2 == after_mark(c, id, JobStatus::Failed) && n == 0
                    && ph == (Phase::Finished { error: validation_error(tx.payload) })
            } else if gateway is Ok {
                m2 == after_mark(c, id, JobStatus::Sent) && n == 1
                    && ph == (Phase::Finished { error: None })
            } else {
                m2 == after_mark(c, id, JobStatus::Failed) && n == 1
                    && ph == (Phase::Finished { error: Some(AppError::Submission) })
            }
        }),
{
    reveal_with_fuel(run, 6);
}

/// Processing a record twice, with any gateway answers, submits it at most
/// once; if it was unclaimed before, it ends with exactly one entry in a
/// terminal status and the second processing changes nothing.
pub proof fn process_is_idempotent(
    m: Map<i64, JobStatus>,
    tx: Transaction,
    first: AppResult<[u8; 32]>,
    second: AppResult<[u8; 32]>,
)
    ensures
        ({
            let (m1, n1, _) = process_model(m, tx, first);
            let (m2, n2, ph2) = process_model(m1, tx, second);
            &&& n1 + n2 <= 1
            &&& m2 == m1
            &&& n2 == 0
            &&& ph2 == (Phase::Finished { error: None })
            &&& !claimed(m, tx.key()) ==> m2.contains_key(tx.key()) && m2[tx.key()].is_terminal()
            &&& m2.dom() == m.dom().insert(tx.key())
        }),
{
    process_cases(m, tx, first);
    let (m1, n1, _) = process_model(m, tx, first);
    process_cases(m1, tx, second);
    let id = tx.key();
    assert(after_claim(m, id).dom() =~= m.dom().insert(id));
}

/// A record whose payload fails validation is never submitted and, when it
/// was unclaimed, ends failed; no step of the processor submits it.
pub proof fn validation_precedes_dispatch(
    m: Map<i64, JobStatus>,
    tx: Transaction,
    gateway: AppResult<[u8; 32]>,
    ph: Phase,
    ev: Event,
)
    requires
        validation_error(tx.payload) is Some,
    ensures
        process_model(m, tx, gateway).1 == 0,
        !claimed(m, tx.key()) ==> process_model(m, tx, gateway).0[tx.key()] == JobStatus::Failed,
        !(next_action(ph, tx, ev) matches Some(ActionView::Submit { .. })),
{
    process_cases(m, tx, gateway);
}

/// Runs the processor against an in-memory ledger and a gateway whose answer is given.
pub struct TransactionProcessorService {
    pub processed_jobs_tracker: ProcessedJobsTracker,
}

impl TransactionProcessorService {
    pub fn new(processed_jobs_tracker: ProcessedJobsTracker) -> (r: Self)
        ensures
            r.processed_jobs_tracker == processed_jobs_tracker,
    {
        TransactionProcessorService { processed_jobs_tracker }
    }

    /// Processes one record to the end. `gateway` is what the gateway answers
    /// if it is asked; the second result is what was submitted to it, if anything:
    /// the destination's bytes and the amount's limbs.
    /// Ledger writes are stamped with `now`.
    pub fn process_transaction(&mut self, tx: &Transaction, gateway: AppResult<[u8; 32]>, now: i64) -> (r: (AppResult<()>, Option<([u8; 20], [u64; 4])>))
        requires
            old(self).processed_jobs_tracker.wf(),
        ensures
            final(self).processed_jobs_tracker.wf(),
            final(self).processed_jobs_tracker.statuses()
                == process_model(old(self).processed_jobs_tracker.statuses(), *tx, gateway).0,
            r.0 == phase_result(process_model(old(self).processed_jobs_tracker.statuses(), *tx, gateway).2),
            r.1 is Some == (process_model(old(self).processed_jobs_tracker.statuses(), *tx, gateway).1 > 0),
            r.1 matches Some((to, value)) ==> tx.payload matches Some(p)
                && to@ == address_bytes(p.to@) && limbs_value(value@) == decimal_value(p.amount@),
            forall|id: i64| id != tx.key() ==> final(self).processed_jobs_tracker.receipt(id)
                == old(self).processed_jobs_tracker.receipt(id),
            forall|id: i64| id != tx.key() ==> final(self).processed_jobs_tracker.updated_at(id)
                == old(self).processed_jobs_tracker.updated_at(id),
            claimed(old(self).processed_jobs_tracker.statuses(), tx.key())
                ==> final(self).processed_jobs_tracker.updated_at(tx.key())
                == old(self).processed_jobs_tracker.updated_at(tx.key()),
            !claimed(old(self).processed_jobs_tracker.statuses(), tx.key())
                ==> final(self).processed_jobs_tracker.updated_at(tx.key()) == Some(now),
            claimed(old(self).processed_jobs_tracker.statuses(), tx.key()) ==> r == (Ok::<(), AppError>(()), None::<([u8; 20], [u64; 4])>)
                && final(self).processed_jobs_tracker.statuses() == old(self).processed_jobs_tracker.statuses(),
            !claimed(old(self).processed_jobs_tracker.statuses(), tx.key()) ==> ({
                let claimed_now = after_claim(old(self).processed_jobs_tracker.statuses(), tx.key());
                match validation_error(tx.payload) {
                    Some(e) => r == (Err::<(), AppError>(e), None::<([u8; 20], [u64; 4])>)
                        && final(self).processed_jobs_tracker.statuses()
                        == after_mark(claimed_now, tx.key(), JobStatus::Failed),
                    None => match gateway {
                        Ok(_) => r.0 == Ok::<(), AppError>(()) && r.1 is Some
                            && final(self).processed_jobs_tracker.statuses()
                            == after_mark(claimed_now, tx.key(), JobStatus::Sent),
                        Err(_) => r.0 == Err::<(), AppError>(AppError::Submission) && r.1 is Some
                            && final(self).processed_jobs_tracker.statuses()
                            == after_mark(claimed_now, tx.key(), JobStatus::Failed),
                    },
                }
            }),
            claimed(old(self).processed_jobs_tracker.statuses(), tx.key())
                || validation_error(tx.payload) is Some || gateway is Err
                ==> final(self).processed_jobs_tracker.receipt(tx.key())
                == old(self).processed_jobs_tracker.receipt(tx.key()),
            !claimed(old(self).processed_jobs_tracker.statuses(), tx.key())
                && (validation_error(tx.payload) is Some || gateway is Err)
                ==> final(self).processed_jobs_tracker.receipt(tx.key()) is None,
            gateway is Ok && !claimed(old(self).processed_jobs_tracker.statuses(), tx.key())
                && validation_error(tx.payload) is None
                ==> final(self).processed_jobs_tracker.receipt(tx.key()) == Some(receipt_text(gateway->Ok_0@)),
    {
        proof {
            self.processed_jobs_tracker.receipt_implies_sent(tx.key());
        }
        let ghost m0 = self.processed_jobs_tracker.statuses();
        let ghost total = process_model(m0, *tx, gateway);
        let ghost fresh = !claimed(m0, tx.key());
        let ghost valid = validation_error(tx.payload) is None;
        proof {
            process_cases(m0, *tx, gateway);
        }
        let mut ph = Phase::Start;
        let mut ev = Event::Begin;
        let mut last = Phase::Start;
        let mut fuel: usize = MAX_ACTIONS;
        let mut submitted: Option<([u8; 20], [u64; 4])> = None;
        let ghost mut count: nat = 0;
        loop
            invariant_except_break
                self.processed_jobs_tracker.wf(),
                m0 == old(self).processed_jobs_tracker.statuses(),
                total == process_model(m0, *tx, gateway),
                fresh == !claimed(m0, tx.key()),
                valid == (validation_error(tx.payload) is None),
                ({
                    let rest = run(self.processed_jobs_tracker.statuses(), ph, *tx, ev, gateway, fuel as nat);
                    rest.0 == total.0 && rest.2 == total.2 && count + rest.1 == total.1
                }),
                submitted is Some == (count > 0),
                submitted matches Some((to, value)) ==> tx.payload matches Some(p)
                    && to@ == address_bytes(p.to@) && limbs_value(value@) == decimal_value(p.amount@),
                forall|id: i64| id != tx.key() ==> self.processed_jobs_tracker.receipt(id)
                    == old(self).processed_jobs_tracker.receipt(id),
                !(ph is Finished),
                forall|id: i64| id != tx.key() ==> self.processed_jobs_tracker.updated_at(id)
                    == old(self).processed_jobs_tracker.updated_at(id),
                !fresh ==> self.processed_jobs_tracker.updated_at(tx.key())
                    == old(self).processed_jobs_tracker.updated_at(tx.key()),
                fresh && !(ph is Start || ph is AwaitClaimCheck)
                    ==> self.processed_jobs_tracker.updated_at(tx.key()) == Some(now),
                ph is Start ==> fuel == MAX_ACTIONS,
                ph is AwaitClaimCheck ==> fuel == MAX_ACTIONS - 1,
                ph is Start ==> self.processed_jobs_tracker.statuses() == m0 && ev is Begin,
                fresh && ph is AwaitClaimCheck ==> self.processed_jobs_tracker.statuses() == m0
                    && ev == (Event::ClaimChecked { claimed: false }),
                fresh && (ph is AwaitClaim || ph is AwaitSubmit)
                    ==> self.processed_jobs_tracker.statuses().contains_key(tx.key())
                    && self.processed_jobs_tracker.statuses()[tx.key()] == JobStatus::Pending,
                ph is AwaitSubmit ==> ev == (match gateway {
                    Ok(h) => Event::Submitted { tx_hash: h },
                    Err(_) => Event::SubmitFailed,
                }),
                ph is AwaitClaim ==> ev is Claimed,
                fresh && ph is AwaitClaim ==> ev == (Event::Claimed { inserted: true }),
                ph is AwaitSubmit || ph is AwaitMarkSent ==> valid,
                !fresh ==> ph is Start || ph is AwaitClaimCheck,
                !fresh && ph is AwaitClaimCheck ==> ev == (Event::ClaimChecked { claimed: true }),
                !(fresh && valid && gateway is Ok) ==> self.processed_jobs_tracker.receipt(tx.key())
                    == old(self).processed_jobs_tracker.receipt(tx.key()),
                ph is AwaitMarkSent ==> ev is Recorded,
                fresh && valid && gateway is Ok ==> !(ph is AwaitMarkFailed),
                fresh && valid && gateway is Ok ==> total.2 == (Phase::Finished { error: None }),
                fresh && ph is AwaitMarkSent ==> gateway is Ok
                    && self.processed_jobs_tracker.receipt(tx.key()) == Some(receipt_text(gateway->Ok_0@)),
            ensures
                self.processed_jobs_tracker.wf(),
                self.processed_jobs_tracker.statuses() == total.0,
                last == total.2,
                submitted is Some == (total.1 > 0),
                submitted matches Some((to, value)) ==> tx.payload matches Some(p)
                    && to@ == address_bytes(p.to@) && limbs_value(value@) == decimal_value(p.amount@),
                forall|id: i64| id != tx.key() ==> self.processed_jobs_tracker.receipt(id)
                    == old(self).processed_jobs_tracker.receipt(id),
                fresh && valid && gateway is Ok
                    ==> self.processed_jobs_tracker.receipt(tx.key()) == Some(receipt_text(gateway->Ok_0@)),
                !(fresh && valid && gateway is Ok) ==> self.processed_jobs_tracker.receipt(tx.key())
                    == old(self).processed_jobs_tracker.receipt(tx.key()),
                forall|id: i64| id != tx.key() ==> self.processed_jobs_tracker.updated_at(id)
                    == old(self).processed_jobs_tracker.updated_at(id),
                !fresh ==> self.processed_jobs_tracker.updated_at(tx.key())
                    == old(self).processed_jobs_tracker.updated_at(tx.key()),
                fresh ==> self.processed_jobs_tracker.updated_at(tx.key()) == Some(now),
            decreases fuel,
        {
            let (next, action) = step(ph, tx, ev);
            match action {
                None => {
                    last = next;
                    break;
                },
                Some(a) => {
                    if fuel == 0 {
                        last = next;
                        break;
                    }
                    proof {
                        if a.view() is Submit {
                            count = count + 1;
                        }
                    }
                    let reply = match a {
                        Action::IsProcessed { record_id } => {
                            Event::ClaimChecked { claimed: self.processed_jobs_tracker.is_processed(record_id) }
                        },
                        Action::MarkPending { record_id } => {
                            let inserted = self.processed_jobs_tracker.mark_pending(record_id, now);
                            Event::Claimed { inserted }
                        },
                        Action::Submit { to, value } => {
                            submitted = Some((to, value));
                            match gateway {
                                Ok(h) => Event::Submitted { tx_hash: h },
                                Err(_) => Event::SubmitFailed,
                            }
                        },
                        Action::MarkSent { record_id, tx_hash } => {
                            self.processed_jobs_tracker.mark_sent(record_id, tx_hash.as_str(), now);
                            Event::Recorded
                        },
                        Action::MarkFailed { record_id } => {
                            self.processed_jobs_tracker.mark_failed(record_id, now);
                            Event::Recorded
                        },
                    };
                    ph = next;
                    ev = reply;
                    fuel = fuel - 1;
                },
            }
        }
        (last.result(), submitted)
    }
}

/// A submission is only ever issued right after this caller's own claim
/// inserted the ledger entry, and only for a valid payload. Since the store's
/// conditional insert makes the entry at most once per identifier, at most one
/// caller, in any number of racing processes, submits a record.
pub proof fn submit_only_after_own_claim(ph: Phase, tx: Transaction, ev: Event)
    ensures
        next_action(ph, tx, ev) matches Some(ActionView::Submit { .. }) ==> ph == Phase::AwaitClaim
            && ev == (Event::Claimed { inserted: true }) && validation_error(tx.payload) is None,
        ph == Phase::AwaitClaim && ev == (Event::Claimed { inserted: false })
            ==> next_action(ph, tx, ev) is None && next_phase(ph, tx, ev) == (Phase::Finished { error: None }),
{
}

} // verus!
