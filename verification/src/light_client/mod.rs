//! The embedded CKB Light Client: its configuration, startup rules and the
//! local RPC gateway that serves Fiber from verified Light Client data.
pub mod config;
pub mod epoch;
pub mod gateway;
pub mod pagination;
pub mod reservations;
pub mod rpc_rules;
pub mod runtime_rules;
pub mod script_registry;
