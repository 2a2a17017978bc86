//! Decision logic of the miner-node comparison backend: request validation,
//! API-key admission and rate limiting, node and price-history bookkeeping
//! rules, and the planning side of cloud price fetching.
pub mod db;
pub mod error;
pub mod middleware;
pub mod models;
pub mod rate_limit;
pub mod services;
pub mod text;
pub mod validation;
