//! Verified core of the ConduitOp OP Stack execution node.
//!
//! - [`receipt`]: the deposit-nonce and L1-fee accessors that the trace RPC
//!   extension reads from OP transaction receipts.
//! - [`eth_api_builder`]: the settings of the eth API builder and the plan it
//!   derives from them when the API is built.
//! - [`node`]: what the node hands its component and add-on builders, and the
//!   payload attribute overrides used in dev mode.

pub mod eth_api_builder;
pub mod node;
pub mod receipt;
