//! A deterministic fungible-token ledger: balances, delegated spending
//! allowances and a one-shot, owner-gated evolution pointer, written as a
//! pure function from (state, caller, action) to (new state | response | error).

pub mod action;
pub mod allowances;
pub mod assoc;
pub mod balance;
pub mod contract;
pub mod error;
pub mod evolve;
pub mod evolve_state;
pub mod handler_result;
pub mod kv_operations;
pub mod laws;
pub mod state;
pub mod toy_contract;
pub mod transfers;
