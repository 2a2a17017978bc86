//! The rules of the service's stored data: what each storage operation
//! decides from what the store reports back.
pub mod api_keys;
pub mod nodes;
pub mod price_history;
