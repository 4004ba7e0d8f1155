//! Verified core of a federated-training network on NEAR: the on-chain
//! registry of training requests, workers and governance proposals, and the
//! decision logic of the off-chain node that watches the chain for requests
//! addressed to it.

pub mod account;
pub mod account_set;
pub mod state;
pub mod contract;
pub mod node_types;
pub mod indexer;
pub mod block_scan;
