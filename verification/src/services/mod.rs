//! Background services: cloud price fetching and its schedule.
pub mod price_fetcher;
pub mod scheduler;
