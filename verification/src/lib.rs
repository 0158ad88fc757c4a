//! The state machine of an on-chain registry of anchors: attestors and their
//! attestations, KYC reviews, sessions with an audit trail, quotes, routing, and
//! caches of what anchors publish.
//!
//! Every entry point is a function of [`contract::AnchorKitContract`] that takes
//! the environment of the call, [`env::Env`]: the ledger, the host's answers, and
//! the contract's state. A call is refused with an [`types::ErrorCode`] and then
//! changes nothing, or it succeeds. For each there are two spec functions on the
//! content of the environment: why the call is refused, and the state that it
//! leads to.
//!
//! [`calls`] gathers the calls in one type, [`consistency`] states what holds in
//! every state that they can reach, and [`history`] what they never undo. The
//! other laws stand beside what they are about.

pub mod admin;
pub mod attestations;
pub mod attestors;
pub mod caches;
pub mod calls;
pub mod clusters;
pub mod compliance;
pub mod consistency;
pub mod contract;
pub mod data;
pub mod digest;
pub mod discovery;
pub mod env;
pub mod events;
pub mod history;
pub mod quotes;
pub mod ranking;
pub mod routing;
pub mod services;
pub mod sessions;
pub mod stores;
pub mod table;
pub mod tracing;
pub mod transactions;
pub mod types;
