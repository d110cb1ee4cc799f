//! The one-shot, owner-gated evolution pointer.

use vstd::prelude::*;
use crate::action::ActionResult;
use crate::error::ContractError;
use crate::handler_result::HandlerResult;
use crate::state::State;

verus! {

/// What an evolve call returns.  Unless `can_evolve` is `Some(true)` the
/// call is rejected with `EvolveNotAllowed`; with permission granted,
/// only the governance owner may record the pointer, anyone else is
/// rejected with `OnlyOwnerCanEvolve`.  On success only `evolve` changes;
/// `can_evolve` itself is never touched.
pub open spec fn evolve_post(
    pre: State,
    caller: Seq<char>,
    value: Seq<char>,
    r: ActionResult,
) -> bool {
    if pre.can_evolve != Some(true) {
        r matches Err(ContractError::EvolveNotAllowed)
    } else if caller != pre.owner@ {
        r matches Err(ContractError::OnlyOwnerCanEvolve)
    } else {
        match r {
            Ok(HandlerResult::NewState(ns)) => {
                &&& ns.evolve matches Some(v) && v@ == value
                &&& ns.symbol == pre.symbol
                &&& ns.name == pre.name
                &&& ns.decimals == pre.decimals
                &&& ns.total_supply == pre.total_supply
                &&& ns.balances == pre.balances
                &&& ns.allowances == pre.allowances
                &&& ns.owner == pre.owner
                &&& ns.can_evolve == pre.can_evolve
                &&& (pre.wf() ==> ns.wf())
            },
            _ => false,
        }
    }
}

/// Record the evolution pointer, if permitted and called by the owner.
pub fn evolve(state: State, caller: String, value: String) -> (r: ActionResult)
    ensures
        evolve_post(state, caller@, value@, r),
{
    match state.can_evolve {
        Some(true) => {
            if caller == state.owner {
                let mut state = state;
                state.evolve = Some(value);
                Ok(HandlerResult::NewState(state))
            } else {
                Err(ContractError::OnlyOwnerCanEvolve)
            }
        },
        _ => Err(ContractError::EvolveNotAllowed),
    }
}

} // verus!
