//! What each route of the gateway decides.

pub mod completions;
pub mod health_check;
