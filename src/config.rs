use vstd::prelude::*;

verus! {

#[derive(Debug, Clone)]
pub struct DatabaseConfig {
    pub url: String,
    pub max_connections: u32,
}

#[derive(Debug, Clone)]
pub struct RedisConfig {
    pub url: String,
}

#[derive(Debug, Clone)]
pub struct BlockchainConfig {
    pub rpc_url: String,
    pub private_key: String,
    pub chain_id: u64,
}

#[derive(Debug, Clone)]
pub struct ServerConfig {
    pub host: String,
    pub port: u16,
}

#[derive(Debug, Clone, Copy)]
pub struct WorkerConfig {
    pub poll_interval_seconds: u64,
    pub lookback_hours: i64,
}

/// Everything the service reads from its environment at startup.
#[derive(Debug, Clone)]
pub struct Config {
    pub database: DatabaseConfig,
    pub redis: RedisConfig,
    pub blockchain: BlockchainConfig,
    pub server: ServerConfig,
    pub worker: WorkerConfig,
}

} // verus!
