//! The action vocabulary and query responses of the ledger.

use vstd::prelude::*;
use crate::error::ContractError;
use crate::handler_result::HandlerResult;
use crate::state::State;

verus! {

/// One incoming interaction, already parsed and authenticated by the host
/// bridge; the caller identity is supplied separately at dispatch time and
/// is never taken from the payload.
#[derive(Debug)]
pub enum Action {
    Transfer { to: String, amount: u64 },
    TransferFrom { from: String, to: String, amount: u64 },
    BalanceOf { target: String },
    TotalSupply {},
    Approve { spender: String, amount: u64 },
    Allowance { owner: String, spender: String },
    Evolve { value: String },
}

/// A read-only projection of the state.
#[derive(Debug)]
pub enum QueryResponseMsg {
    Balance { ticker: String, target: String, balance: u64 },
    Allowance { ticker: String, owner: String, spender: String, allowance: u64 },
    TotalSupply { value: u64 },
}

/// Every operation returns a replacement state, a query response, or a
/// typed rejection; it never partially mutates.
pub type ActionResult = Result<HandlerResult<State, QueryResponseMsg>, ContractError>;

} // verus!
