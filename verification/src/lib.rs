//! Native Rust and C-facing logic for embedding a Fiber payment-channel node
//! with a CKB backend: option validation, readiness of the CKB index, wallet
//! history selection, the embedded Light Client's configuration and RPC
//! gateway rules, and the lifecycle of a prepared backend.
use vstd::prelude::*;

pub mod balance;
pub mod ckb_encoding;
pub mod cli;
pub mod events;
pub mod ckb_script;
pub mod ffi_params;
pub mod ffi_types;
pub mod funding_identity;
pub mod light_client;
pub mod native;
pub mod prepare_state;
pub mod readiness;
pub mod text;
pub mod wallet_history;

verus! {

} // verus!
