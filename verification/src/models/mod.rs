//! The data the service stores and the request bodies it accepts.
pub mod api_key;
pub mod node;
pub mod price_history;
