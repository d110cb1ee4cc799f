//! The ledger's laws, stated once over the operations' contracts.

use vstd::prelude::*;
use crate::action::{Action, ActionResult, QueryResponseMsg};
use crate::allowances::{allowance_query_post, approve_post};
use crate::assoc::sum_values;
use crate::balance::{balance_query_post, total_supply_post};
use crate::contract::handle_post;
use crate::error::ContractError;
use crate::handler_result::HandlerResult;
use crate::state::State;
use crate::transfers::{transfer_from_post, transfer_post};

verus! {

/// The ledger accepted one balance-moving action: some caller made a
/// direct transfer, or some spender a delegated one, and `post` is the
/// state it produced.
pub open spec fn successful_transfer_step(pre: State, post: State) -> bool {
    ||| exists|caller: Seq<char>, to: Seq<char>, amount: u64|
        #![auto]
        transfer_post(pre, caller, to, amount, Ok(HandlerResult::NewState(post)))
    ||| exists|caller: Seq<char>, from: Seq<char>, to: Seq<char>, amount: u64|
        #![auto]
        transfer_from_post(pre, caller, from, to, amount, Ok(HandlerResult::NewState(post)))
}

/// Conservation, one step: a successful transfer or delegated transfer
/// neither creates nor destroys tokens.
pub proof fn lemma_transfer_step_conserves(pre: State, post: State)
    requires
        successful_transfer_step(pre, post),
    ensures
        sum_values(post.balances@) == sum_values(pre.balances@),
{
}

/// Conservation, any run: across a chain of states each produced from
/// the last by a successful transfer or delegated transfer, the sum of
/// all balances at the end equals the sum at the start.
pub proof fn lemma_transfer_chain_conserves(states: Seq<State>)
    requires
        states.len() > 0,
        forall|i: int|
            0 <= i < states.len() - 1 ==> #[trigger] successful_transfer_step(
                states[i],
                states[i + 1],
            ),
    ensures
        sum_values(states.last().balances@) == sum_values(states.first().balances@),
    decreases states.len(),
{
    if states.len() > 1 {
        assert(successful_transfer_step(states[0int], states[0int + 1]));
        lemma_transfer_step_conserves(states[0], states[1]);
        let rest = states.drop_first();
        assert forall|i: int| 0 <= i < rest.len() - 1 implies #[trigger] successful_transfer_step(
            rest[i],
            rest[i + 1],
        ) by {
            assert(rest[i] == states[i + 1]);
            assert(rest[i + 1] == states[i + 2]);
            assert(successful_transfer_step(states[i + 1], states[i + 2]));
        }
        lemma_transfer_chain_conserves(rest);
        assert(rest.first() == states[1]);
        assert(rest.last() == states.last());
    }
}

/// Delegated-transfer atomicity: when the allowance covers the amount but
/// the balance does not, the call is rejected with the balance error and
/// no state is produced — the caller keeps the prior state, so the
/// logically computed allowance decrement does not survive the failure.
pub proof fn lemma_transfer_from_failed_balance_is_atomic(
    pre: State,
    caller: Seq<char>,
    from: Seq<char>,
    to: Seq<char>,
    amount: u64,
    r: ActionResult,
)
    requires
        transfer_from_post(pre, caller, from, to, amount, r),
        pre.allowance_spec(from, caller) >= amount,
        pre.balance_of_spec(from) < amount,
    ensures
        (r matches Err(ContractError::CallerBalanceNotEnough(b)) && b == pre.balance_of_spec(
            from,
        )),
{
}

/// The ledger accepted one action of any kind, from some caller, and
/// `post` is the state it produced.
pub open spec fn successful_step(pre: State, post: State) -> bool {
    exists|caller: Seq<char>, action: Action|
        #![auto]
        handle_post(pre, caller, action, Ok(HandlerResult::NewState(post)))
}

/// One accepted action carries well-formedness forward.
pub proof fn lemma_step_wf(pre: State, post: State)
    requires
        pre.wf(),
        successful_step(pre, post),
    ensures
        post.wf(),
{
    let (caller, action) = choose|caller: Seq<char>, action: Action|
        #![auto]
        handle_post(pre, caller, action, Ok(HandlerResult::NewState(post)));
    lemma_step_preserves_wf(pre, caller, action, Ok(HandlerResult::NewState(post)));
}

/// Every state reachable from a well-formed state through accepted
/// actions is well formed: distinct keys at every level, a sparse
/// allowance table, and a total supply equal to the sum of all balances.
pub proof fn lemma_chain_preserves_wf(states: Seq<State>)
    requires
        states.len() > 0,
        states[0].wf(),
        forall|i: int|
            0 <= i < states.len() - 1 ==> #[trigger] successful_step(states[i], states[i + 1]),
    ensures
        forall|i: int| 0 <= i < states.len() ==> #[trigger] states[i].wf(),
    decreases states.len(),
{
    if states.len() > 1 {
        assert(successful_step(states[0int], states[0int + 1]));
        lemma_step_wf(states[0], states[1]);
        let rest = states.drop_first();
        assert forall|i: int| 0 <= i < rest.len() - 1 implies #[trigger] successful_step(
            rest[i],
            rest[i + 1],
        ) by {
            assert(rest[i] == states[i + 1]);
            assert(rest[i + 1] == states[i + 2]);
            assert(successful_step(states[i + 1], states[i + 2]));
        }
        lemma_chain_preserves_wf(rest);
        assert forall|i: int| 0 <= i < states.len() implies #[trigger] states[i].wf() by {
            if i > 0 {
                assert(rest[i - 1] == states[i]);
                assert(rest[i - 1].wf());
            }
        }
    }
}

/// Approve overwrites: whatever allowance stood before, after a
/// successful approval the stored allowance is exactly the approved
/// amount — never the sum of old and new.
pub proof fn lemma_approve_overwrites(
    pre: State,
    caller: Seq<char>,
    spender: Seq<char>,
    amount: u64,
    r: ActionResult,
)
    requires
        approve_post(pre, caller, spender, amount, r),
    ensures
        (r matches Ok(HandlerResult::NewState(ns)) && ns.allowance_spec(caller, spender)
            == amount),
{
}

/// Every accepted action yields a well-formed state: distinct keys at
/// every level, a sparse allowance table, and a total supply that still
/// equals the sum of all balances.
pub proof fn lemma_step_preserves_wf(pre: State, caller: Seq<char>, action: Action, r: ActionResult)
    requires
        pre.wf(),
        handle_post(pre, caller, action, r),
    ensures
        r matches Ok(HandlerResult::NewState(ns)) ==> ns.wf(),
{
}

/// Balance sparsity: an accepted action keeps the balance table free of
/// zero entries, except for a transfer of amount 0 to an address without
/// a balance entry, which records the zero the update rule creates.
pub proof fn lemma_step_preserves_sparsity(
    pre: State,
    caller: Seq<char>,
    action: Action,
    r: ActionResult,
)
    requires
        pre.wf(),
        pre.balances_sparse(),
        handle_post(pre, caller, action, r),
        match action {
            Action::Transfer { to, amount } => amount > 0 || pre.balance_of_spec(to@) > 0,
            Action::TransferFrom { from: _, to, amount } => amount > 0 || pre.balance_of_spec(to@)
                > 0,
            _ => true,
        },
    ensures
        r matches Ok(HandlerResult::NewState(ns)) ==> ns.balances_sparse(),
{
}

/// Idempotent queries: two balance queries of one state answer alike.
pub proof fn lemma_balance_query_deterministic(
    pre: State,
    target: Seq<char>,
    r1: ActionResult,
    r2: ActionResult,
)
    requires
        balance_query_post(pre, target, r1),
        balance_query_post(pre, target, r2),
    ensures
        (r1 matches Ok(
            HandlerResult::QueryResponse(
                QueryResponseMsg::Balance { ticker: t1, target: g1, balance: b1 },
            ),
        ) && r2 matches Ok(
            HandlerResult::QueryResponse(
                QueryResponseMsg::Balance { ticker: t2, target: g2, balance: b2 },
            ),
        ) && t1@ == t2@ && g1@ == g2@ && b1 == b2),
{
}

/// Idempotent queries: two allowance queries of one state answer alike.
pub proof fn lemma_allowance_query_deterministic(
    pre: State,
    owner: Seq<char>,
    spender: Seq<char>,
    r1: ActionResult,
    r2: ActionResult,
)
    requires
        allowance_query_post(pre, owner, spender, r1),
        allowance_query_post(pre, owner, spender, r2),
    ensures
        (r1 matches Ok(
            HandlerResult::QueryResponse(
                QueryResponseMsg::Allowance { ticker: t1, owner: o1, spender: s1, allowance: a1 },
            ),
        ) && r2 matches Ok(
            HandlerResult::QueryResponse(
                QueryResponseMsg::Allowance { ticker: t2, owner: o2, spender: s2, allowance: a2 },
            ),
        ) && t1@ == t2@ && o1@ == o2@ && s1@ == s2@ && a1 == a2),
{
}

/// Idempotent queries: two supply queries of one state answer alike.
pub proof fn lemma_supply_query_deterministic(pre: State, r1: ActionResult, r2: ActionResult)
    requires
        total_supply_post(pre, r1),
        total_supply_post(pre, r2),
    ensures
        (r1 matches Ok(HandlerResult::QueryResponse(QueryResponseMsg::TotalSupply { value: v1 }))
            && r2 matches Ok(
            HandlerResult::QueryResponse(QueryResponseMsg::TotalSupply { value: v2 }),
        ) && v1 == v2),
{
}

} // verus!
