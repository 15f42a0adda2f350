//! Relay of pending records to a settlement gateway, with an idempotency
//! ledger that keeps any record from being submitted twice.
use vstd::prelude::*;

pub mod error;
pub mod chain;
pub mod config;
pub mod model;
pub mod ledger;
pub mod processor;
pub mod worker;

pub use chain::BlockchainClient;
pub use config::{BlockchainConfig, Config, DatabaseConfig, RedisConfig, ServerConfig, WorkerConfig};
pub use error::{AppError, AppResult};
pub use ledger::{JobStatus, ProcessedJobsTracker};
pub use model::{Transaction, TransactionPayload};
pub use processor::{TransactionProcessorService, Action, Event, Phase};
pub use worker::{AppService, PollingWorker};

verus! {

} // verus!
