//! The dispatcher: one tagged action in, one operation out.

use vstd::prelude::*;
use crate::action::{Action, ActionResult};
use crate::allowances::{allowance, allowance_query_post, approve, approve_post};
use crate::balance::{balance_of, balance_query_post, total_supply, total_supply_post};
use crate::evolve::{evolve, evolve_post};
use crate::state::State;
use crate::transfers::{transfer, transfer_from, transfer_from_post, transfer_post};

verus! {

/// The dispatcher's contract is the union of the operations' contracts,
/// selected by the action's tag.
pub open spec fn handle_post(pre: State, caller: Seq<char>, action: Action, r: ActionResult) -> bool {
    match action {
        Action::Transfer { to, amount } => transfer_post(pre, caller, to@, amount, r),
        Action::TransferFrom { from, to, amount } => transfer_from_post(
            pre,
            caller,
            from@,
            to@,
            amount,
            r,
        ),
        Action::BalanceOf { target } => balance_query_post(pre, target@, r),
        Action::TotalSupply {  } => total_supply_post(pre, r),
        Action::Approve { spender, amount } => approve_post(pre, caller, spender@, amount, r),
        Action::Allowance { owner, spender } => allowance_query_post(pre, owner@, spender@, r),
        Action::Evolve { value } => evolve_post(pre, caller, value@, r),
    }
}

/// Route one action to its operation.  The caller identity comes from the
/// host environment at dispatch time, never from the action payload.
pub fn handle(current_state: State, caller: String, action: Action) -> (r: ActionResult)
    requires
        current_state.wf(),
    ensures
        handle_post(current_state, caller@, action, r),
{
    match action {
        Action::Transfer { to, amount } => transfer(current_state, caller, to, amount),
        Action::TransferFrom { from, to, amount } => transfer_from(
            current_state,
            caller,
            from,
            to,
            amount,
        ),
        Action::BalanceOf { target } => balance_of(current_state, target),
        Action::TotalSupply {  } => total_supply(current_state),
        Action::Approve { spender, amount } => approve(current_state, caller, spender, amount),
        Action::Allowance { owner, spender } => allowance(current_state, owner, spender),
        Action::Evolve { value } => evolve(current_state, caller, value),
    }
}

} // verus!
