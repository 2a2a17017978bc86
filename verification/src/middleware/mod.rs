//! Request admission in front of the routes.
pub mod api_key;
