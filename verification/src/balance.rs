//! The balance-of and total-supply queries.

use vstd::prelude::*;
use crate::action::{ActionResult, QueryResponseMsg};
use crate::assoc::get_value;
use crate::handler_result::HandlerResult;
use crate::state::State;

verus! {

/// What the balance query answers: the token symbol, the queried address,
/// and its stored balance (0 when absent).  The state is consumed, never
/// changed, and the response is a pure function of it.
pub open spec fn balance_query_post(pre: State, target: Seq<char>, r: ActionResult) -> bool {
    match r {
        Ok(
            HandlerResult::QueryResponse(QueryResponseMsg::Balance { ticker, target: t, balance }),
        ) => {
            &&& ticker@ == pre.symbol@
            &&& t@ == target
            &&& balance == pre.balance_of_spec(target)
        },
        _ => false,
    }
}

/// Read-only balance query; never errors on missing entries.
pub fn balance_of(state: State, target: String) -> (r: ActionResult)
    ensures
        balance_query_post(state, target@, r),
{
    let b = get_value(&state.balances, &target);
    Ok(
        HandlerResult::QueryResponse(
            QueryResponseMsg::Balance { balance: b, ticker: state.symbol, target },
        ),
    )
}

/// What the supply query answers: the stored `total_supply` field — not a
/// recomputation from the balances; the `wf` invariant keeps the two in
/// sync across every mutating operation.
pub open spec fn total_supply_post(pre: State, r: ActionResult) -> bool {
    match r {
        Ok(HandlerResult::QueryResponse(QueryResponseMsg::TotalSupply { value })) => value
            == pre.total_supply,
        _ => false,
    }
}

/// Read-only supply query.
pub fn total_supply(state: State) -> (r: ActionResult)
    ensures
        total_supply_post(state, r),
{
    Ok(
        HandlerResult::QueryResponse(QueryResponseMsg::TotalSupply { value: state.total_supply }),
    )
}

} // verus!
