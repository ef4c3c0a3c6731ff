//! Guest-side binding for a ledger host: request framing, typed response
//! records, the ledger facade and the buffer ownership registry.
pub mod request;
pub mod types;
pub mod api;
pub mod contract;
pub mod buffer;
