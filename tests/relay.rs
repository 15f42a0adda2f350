use rust_polling::chain::{format_receipt, parse_amount, parse_destination};
use rust_polling::processor::{step, validate_payload};
use rust_polling::{
    Action, AppError, AppService, BlockchainClient, Event, JobStatus, Phase, PollingWorker,
    ProcessedJobsTracker, Transaction, TransactionPayload, TransactionProcessorService, WorkerConfig,
};

const GOOD_ADDRESS: &str = "0x742d35Cc6634C0532925a3b844Bc454e4438f44e";

fn payload(to: &str, amount: &str) -> Option<TransactionPayload> {
    Some(TransactionPayload {
        amount: amount.to_string(),
        from: "0x0000000000000000000000000000000000000001".to_string(),
        to: to.to_string(),
    })
}

fn record(id: i32, to: &str, amount: &str) -> Transaction {
    Transaction {
        id,
        created_at: 1_700_000_000_000,
        payload: payload(to, amount),
        status: "pending".to_string(),
    }
}

fn receipt(byte: u8) -> [u8; 32] {
    [byte; 32]
}

fn service() -> TransactionProcessorService {
    TransactionProcessorService::new(ProcessedJobsTracker::new())
}

fn worker_config() -> WorkerConfig {
    WorkerConfig { poll_interval_seconds: 5, lookback_hours: 1 }
}

#[test]
fn first_sight_is_claimed_submitted_and_sent() {
    let mut svc = service();
    let tx = record(1, GOOD_ADDRESS, "100");
    let (result, submitted) = svc.process_transaction(&tx, Ok(receipt(0xab)), 1_000);
    assert_eq!(result, Ok(()));
    assert!(submitted.is_some());
    assert_eq!(svc.processed_jobs_tracker.status_of(1), Some(JobStatus::Sent));
    let expected = format!("0x{}", "ab".repeat(32));
    assert_eq!(svc.processed_jobs_tracker.receipt_of(1), Some(expected));
}

#[test]
fn redelivered_record_is_suppressed() {
    let mut svc = service();
    let tx = record(1, GOOD_ADDRESS, "100");
    let _ = svc.process_transaction(&tx, Ok(receipt(1)), 1_000);
    let (result, submitted) = svc.process_transaction(&tx, Ok(receipt(2)), 1_000);
    assert_eq!(result, Ok(()));
    assert!(submitted.is_none());
    assert_eq!(svc.processed_jobs_tracker.status_of(1), Some(JobStatus::Sent));
    assert_eq!(svc.processed_jobs_tracker.receipt_of(1), Some(format!("0x{}", "01".repeat(32))));
}

#[test]
fn invalid_address_fails_without_submission() {
    let mut svc = service();
    let tx = record(2, "not-an-address", "5");
    let (result, submitted) = svc.process_transaction(&tx, Ok(receipt(9)), 1_000);
    assert_eq!(result, Err(AppError::InvalidAddress));
    assert!(submitted.is_none());
    assert_eq!(svc.processed_jobs_tracker.status_of(2), Some(JobStatus::Failed));
    assert_eq!(svc.processed_jobs_tracker.receipt_of(2), None);
}

#[test]
fn gateway_error_fails_and_refetch_is_suppressed() {
    let mut svc = service();
    let tx = record(3, GOOD_ADDRESS, "7");
    let (result, submitted) = svc.process_transaction(&tx, Err(AppError::Submission), 1_000);
    assert_eq!(result, Err(AppError::Submission));
    assert!(submitted.is_some());
    assert_eq!(svc.processed_jobs_tracker.status_of(3), Some(JobStatus::Failed));
    assert_eq!(svc.processed_jobs_tracker.receipt_of(3), None);
    let (again, submitted_again) = svc.process_transaction(&tx, Ok(receipt(4)), 1_000);
    assert_eq!(again, Ok(()));
    assert!(submitted_again.is_none());
    assert_eq!(svc.processed_jobs_tracker.status_of(3), Some(JobStatus::Failed));
}

#[test]
fn failed_fetch_leaves_cursor_unchanged() {
    let mut worker = PollingWorker::starting_at(worker_config(), 10_000_000);
    let mut svc = service();
    let before = worker.cursor();
    let r = worker.poll_once(&mut svc, Err(AppError::StoreUnavailable), &Vec::new(), 20_000_000);
    assert_eq!(r, Err(AppError::StoreUnavailable));
    assert_eq!(worker.cursor(), before);
    let r2 = worker.poll_once(&mut svc, Err(AppError::StoreUnavailable), &Vec::new(), 30_000_000);
    assert_eq!(r2, Err(AppError::StoreUnavailable));
    assert_eq!(worker.cursor(), before);
}

#[test]
fn successful_cycles_move_cursor_forward() {
    let mut worker = PollingWorker::starting_at(worker_config(), 10_000_000);
    let mut svc = service();
    let r = worker.poll_once(&mut svc, Ok(Vec::new()), &Vec::new(), 20_000_000);
    assert_eq!(r, Ok(Vec::new()));
    assert_eq!(worker.cursor(), 20_000_000);
    worker.finish_cycle(false, 25_000_000);
    assert_eq!(worker.cursor(), 20_000_000);
    worker.finish_cycle(true, 30_000_000);
    assert_eq!(worker.cursor(), 30_000_000);
}

#[test]
fn claiming_twice_leaves_one_pending_entry() {
    let mut tracker = ProcessedJobsTracker::new();
    assert!(!tracker.is_processed(5));
    assert!(tracker.mark_pending(5, 1_000));
    assert!(!tracker.mark_pending(5, 1_000));
    assert!(tracker.is_processed(5));
    assert_eq!(tracker.status_of(5), Some(JobStatus::Pending));
    assert_eq!(tracker.status_of(6), None);
}

#[test]
fn terminal_status_is_never_left() {
    let mut tracker = ProcessedJobsTracker::new();
    tracker.mark_pending(8, 1_000);
    tracker.mark_failed(8, 2_000);
    tracker.mark_sent(8, "0xff", 3_000);
    assert_eq!(tracker.status_of(8), Some(JobStatus::Failed));
    assert_eq!(tracker.receipt_of(8), None);
    tracker.mark_pending(8, 1_000);
    assert_eq!(tracker.status_of(8), Some(JobStatus::Failed));
}

#[test]
fn marking_without_entry_does_nothing() {
    let mut tracker = ProcessedJobsTracker::new();
    tracker.mark_sent(11, "0x00", 3_000);
    tracker.mark_failed(12, 2_000);
    assert!(!tracker.is_processed(11));
    assert!(!tracker.is_processed(12));
    assert_eq!(tracker.receipt_of(11), None);
}

#[test]
fn one_failure_does_not_stop_the_batch() {
    let mut worker = PollingWorker::starting_at(worker_config(), 10_000_000);
    let mut svc = service();
    let batch = vec![
        record(21, GOOD_ADDRESS, "1"),
        record(22, "bad", "1"),
        record(23, GOOD_ADDRESS, "oops"),
        record(24, GOOD_ADDRESS, "3"),
    ];
    let answers = vec![Ok(receipt(1)), Ok(receipt(2)), Ok(receipt(3)), Err(AppError::Submission)];
    let r = worker.poll_once(&mut svc, Ok(batch), &answers, 50_000_000);
    assert_eq!(
        r,
        Ok(vec![
            Ok(()),
            Err(AppError::InvalidAddress),
            Err(AppError::InvalidAmount),
            Err(AppError::Submission),
        ])
    );
    assert_eq!(svc.processed_jobs_tracker.status_of(21), Some(JobStatus::Sent));
    assert_eq!(svc.processed_jobs_tracker.status_of(22), Some(JobStatus::Failed));
    assert_eq!(svc.processed_jobs_tracker.status_of(23), Some(JobStatus::Failed));
    assert_eq!(svc.processed_jobs_tracker.status_of(24), Some(JobStatus::Failed));
    assert_eq!(worker.cursor(), 50_000_000);
}

#[test]
fn duplicate_in_one_batch_is_submitted_once() {
    let mut worker = PollingWorker::starting_at(worker_config(), 0);
    let mut svc = service();
    let batch = vec![record(30, GOOD_ADDRESS, "9"), record(30, GOOD_ADDRESS, "9")];
    let answers = vec![Err(AppError::Submission), Ok(receipt(5))];
    let r = worker.poll_once(&mut svc, Ok(batch), &answers, 1);
    assert_eq!(r, Ok(vec![Err(AppError::Submission), Ok(())]));
    assert_eq!(svc.processed_jobs_tracker.status_of(30), Some(JobStatus::Failed));
}

#[test]
fn missing_payload_is_a_validation_failure() {
    let mut svc = service();
    let tx = Transaction { id: 40, created_at: 0, payload: None, status: "pending".to_string() };
    let (result, submitted) = svc.process_transaction(&tx, Ok(receipt(0)), 1_000);
    assert_eq!(result, Err(AppError::InvalidPayload));
    assert!(submitted.is_none());
    assert_eq!(svc.processed_jobs_tracker.status_of(40), Some(JobStatus::Failed));
}

#[test]
fn amount_validation() {
    assert!(validate_payload(&payload(GOOD_ADDRESS, "0")).is_ok());
    assert!(validate_payload(&payload(GOOD_ADDRESS, "115792089237316195423570985008687907853269984665640564039457584007913129639935")).is_ok());
    assert!(matches!(
        validate_payload(&payload(GOOD_ADDRESS, "115792089237316195423570985008687907853269984665640564039457584007913129639936")),
        Err(AppError::InvalidAmount)
    ));
    assert!(matches!(validate_payload(&payload(GOOD_ADDRESS, "-1")), Err(AppError::InvalidAmount)));
    assert!(matches!(validate_payload(&payload(GOOD_ADDRESS, "12a")), Err(AppError::InvalidAmount)));
    assert!(matches!(validate_payload(&None), Err(AppError::InvalidPayload)));
}

#[test]
fn address_forms() {
    assert!(parse_destination(&GOOD_ADDRESS.to_string()).is_some());
    assert!(parse_destination(&"742d35Cc6634C0532925a3b844Bc454e4438f44e".to_string()).is_some());
    assert!(parse_destination(&"0X742d35Cc6634C0532925a3b844Bc454e4438f44e".to_string()).is_some());
    assert!(parse_destination(&"0x742d35Cc6634C0532925a3b844Bc454e4438f4".to_string()).is_none());
    assert!(parse_destination(&"0x742d35Cc6634C0532925a3b844Bc454e4438f44g".to_string()).is_none());
    assert!(parse_destination(&"".to_string()).is_none());
    assert!(parse_amount(&"100".to_string()).is_some());
}

#[test]
fn receipt_text_is_prefixed_lowercase_hex() {
    let mut h = [0u8; 32];
    h[0] = 0xAB;
    h[31] = 0x0f;
    let text = format_receipt(&h);
    assert_eq!(text.len(), 66);
    assert!(text.starts_with("0xab00"));
    assert!(text.ends_with("000f"));
    assert_eq!(format_receipt(&[0u8; 32]), format!("0x{}", "0".repeat(64)));
}

#[test]
fn step_machine_walks_the_algorithm() {
    let tx = record(50, GOOD_ADDRESS, "10");
    let (ph, a) = step(Phase::Start, &tx, Event::Begin);
    assert_eq!(ph, Phase::AwaitClaimCheck);
    assert!(matches!(a, Some(Action::IsProcessed { record_id: 50 })));
    let (ph, a) = step(ph, &tx, Event::ClaimChecked { claimed: false });
    assert_eq!(ph, Phase::AwaitClaim);
    assert!(matches!(a, Some(Action::MarkPending { record_id: 50 })));
    let (ph, a) = step(ph, &tx, Event::Claimed { inserted: true });
    assert_eq!(ph, Phase::AwaitSubmit);
    assert!(matches!(a, Some(Action::Submit { .. })));
    let (ph, a) = step(ph, &tx, Event::Submitted { tx_hash: [0x11; 32] });
    assert_eq!(ph, Phase::AwaitMarkSent);
    match a {
        Some(Action::MarkSent { record_id, tx_hash }) => {
            assert_eq!(record_id, 50);
            assert_eq!(tx_hash, format!("0x{}", "11".repeat(32)));
        }
        other => panic!("unexpected action {:?}", other),
    }
    let (ph, a) = step(ph, &tx, Event::Recorded);
    assert_eq!(ph, Phase::Finished { error: None });
    assert!(a.is_none());
}

#[test]
fn step_machine_skips_claimed_and_reports_store_failures() {
    let tx = record(51, GOOD_ADDRESS, "10");
    let (ph, a) = step(Phase::AwaitClaimCheck, &tx, Event::ClaimChecked { claimed: true });
    assert_eq!(ph, Phase::Finished { error: None });
    assert!(a.is_none());
    let (ph, a) = step(Phase::AwaitClaim, &tx, Event::StoreFailed);
    assert_eq!(ph, Phase::Finished { error: Some(AppError::StoreUnavailable) });
    assert!(a.is_none());
    let (ph, a) = step(Phase::AwaitSubmit, &tx, Event::SubmitFailed);
    assert_eq!(ph, Phase::AwaitMarkFailed { cause: AppError::Submission });
    assert!(matches!(a, Some(Action::MarkFailed { record_id: 51 })));
    let (ph, a) = step(ph, &tx, Event::Recorded);
    assert_eq!(ph, Phase::Finished { error: Some(AppError::Submission) });
    assert!(a.is_none());
    let (ph, a) = step(Phase::AwaitMarkSent, &tx, Event::Begin);
    assert_eq!(ph, Phase::AwaitMarkSent);
    assert!(a.is_none());
}

#[test]
fn invalid_payload_never_reaches_submit_step() {
    let tx = record(52, GOOD_ADDRESS, "ten");
    let (ph, a) = step(Phase::AwaitClaim, &tx, Event::Claimed { inserted: true });
    assert_eq!(ph, Phase::AwaitMarkFailed { cause: AppError::InvalidAmount });
    assert!(matches!(a, Some(Action::MarkFailed { record_id: 52 })));
}

#[test]
fn initial_cursor_applies_lookback() {
    let w = PollingWorker::starting_at(WorkerConfig { poll_interval_seconds: 5, lookback_hours: 2 }, 10_000_000);
    assert_eq!(w.cursor(), 10_000_000 - 7_200_000);
    assert!(!w.is_running());
    assert_eq!(w.config().lookback_hours, 2);
    let low = PollingWorker::starting_at(WorkerConfig { poll_interval_seconds: 5, lookback_hours: i64::MAX }, 0);
    assert_eq!(low.cursor(), i64::MIN);
    let high = PollingWorker::starting_at(WorkerConfig { poll_interval_seconds: 5, lookback_hours: -1 }, i64::MAX);
    assert_eq!(high.cursor(), i64::MAX);
}

#[test]
fn worker_starts_and_stops() {
    let mut w = PollingWorker::new(worker_config());
    assert!(!w.is_running());
    assert_eq!(w.start(), Ok(()));
    assert!(w.is_running());
    assert_eq!(w.stop(), Ok(()));
    assert!(!w.is_running());
}

#[test]
fn stand_in_gateway_answers_zero_receipt() {
    let client = BlockchainClient::new("http://localhost:8545", "SECRET-REDACTED").unwrap();
    let to = parse_destination(&GOOD_ADDRESS.to_string()).unwrap();
    let value = parse_amount(&"100".to_string()).unwrap();
    assert_eq!(client.send_transaction(&to, &value), Ok([0u8; 32]));
}

#[test]
fn new_transaction_is_pending() {
    let tx = Transaction::new(60, payload(GOOD_ADDRESS, "1"));
    assert_eq!(tx.id, 60);
    assert_eq!(tx.status, "pending");
    assert!(tx.created_at > 0);
}

#[test]
fn amount_text_skips_underscores_and_accepts_empty() {
    assert!(parse_amount(&"1_000".to_string()).is_some());
    assert!(parse_amount(&"_".to_string()).is_some());
    assert!(parse_amount(&"".to_string()).is_some());
    assert!(parse_amount(&" 1".to_string()).is_none());
    assert!(parse_amount(&"1.5".to_string()).is_none());
    assert!(parse_amount(&"٣".to_string()).is_none());
}

#[test]
fn submission_carries_payload_destination_and_amount() {
    let mut svc = service();
    let tx = record(70, GOOD_ADDRESS, "100");
    let (result, submitted) = svc.process_transaction(&tx, Ok(receipt(3)), 1_000);
    assert_eq!(result, Ok(()));
    let (to, value) = submitted.unwrap();
    assert_eq!(to[0], 0x74);
    assert_eq!(to[1], 0x2d);
    assert_eq!(to[19], 0x4e);
    assert_eq!(value, [100, 0, 0, 0]);
}

#[test]
fn address_bytes_and_amount_limbs() {
    let b = parse_destination(&"0x00000000000000000000000000000000000000Ff".to_string()).unwrap();
    assert_eq!(b[19], 0xff);
    assert_eq!(b[0], 0);
    let two_64 = parse_amount(&"18446744073709551616".to_string()).unwrap();
    assert_eq!(two_64, [0, 1, 0, 0]);
    assert_eq!(parse_amount(&"1_000".to_string()).unwrap(), [1000, 0, 0, 0]);
}

#[test]
fn lost_claim_race_finishes_without_submitting() {
    let tx = record(71, GOOD_ADDRESS, "1");
    let (ph, a) = step(Phase::AwaitClaim, &tx, Event::Claimed { inserted: false });
    assert_eq!(ph, Phase::Finished { error: None });
    assert!(a.is_none());
}

#[test]
fn already_claimed_record_keeps_its_receipt() {
    let mut svc = service();
    let tx = record(72, GOOD_ADDRESS, "1");
    let _ = svc.process_transaction(&tx, Ok(receipt(0x0c)), 1_000);
    let before = svc.processed_jobs_tracker.receipt_of(72);
    let (result, submitted) = svc.process_transaction(&tx, Err(AppError::Submission), 1_000);
    assert_eq!(result, Ok(()));
    assert!(submitted.is_none());
    assert_eq!(svc.processed_jobs_tracker.receipt_of(72), before);
    assert_eq!(svc.processed_jobs_tracker.status_of(72), Some(JobStatus::Sent));
}

#[test]
fn ledger_writes_stamp_the_time() {
    let mut tracker = ProcessedJobsTracker::new();
    assert_eq!(tracker.updated_at_of(80), None);
    tracker.mark_pending(80, 10);
    assert_eq!(tracker.updated_at_of(80), Some(10));
    tracker.mark_pending(80, 20);
    assert_eq!(tracker.updated_at_of(80), Some(10));
    tracker.mark_sent(80, "0x01", 30);
    assert_eq!(tracker.updated_at_of(80), Some(30));
    tracker.mark_failed(80, 40);
    assert_eq!(tracker.updated_at_of(80), Some(30));
    let mut svc = service();
    let tx = record(81, "bad", "1");
    let _ = svc.process_transaction(&tx, Ok(receipt(0)), 55);
    assert_eq!(svc.processed_jobs_tracker.updated_at_of(81), Some(55));
    let _ = svc.process_transaction(&tx, Ok(receipt(0)), 66);
    assert_eq!(svc.processed_jobs_tracker.updated_at_of(81), Some(55));
}

#[test]
fn start_and_stop_keep_the_cursor() {
    let mut w = PollingWorker::starting_at(worker_config(), 10_000_000);
    let c = w.cursor();
    assert_eq!(w.start(), Ok(()));
    assert_eq!(w.cursor(), c);
    let mut svc = service();
    let r = w.poll_once(&mut svc, Err(AppError::StoreUnavailable), &Vec::new(), 20_000_000);
    assert_eq!(r, Err(AppError::StoreUnavailable));
    assert_eq!(w.cursor(), c);
    assert_eq!(w.stop(), Ok(()));
    assert_eq!(w.cursor(), c);
    assert_eq!(w.config().lookback_hours, 1);
}
