//! Chain adapter core for a Cosmos chain inside a cross-chain relayer.
//!
//! The crate holds the decisions of the adapter: which queries may be sent,
//! how raw chain events become protocol events, when a submitted transaction
//! counts as included, and when a new header may become the trust anchor of
//! the light client. Network traffic is left to the caller, who hands the
//! results in as plain values.

pub mod error;
pub mod text;
pub mod height;
pub mod timestamp;
pub mod identifier;
pub mod path;
pub mod query;
pub mod event;
pub mod subscription;
pub mod tracker;
pub mod light_client;
pub mod client_state;
pub mod finality;
pub mod client;
