//! The transfer and transfer-from operations.

use vstd::prelude::*;
use crate::action::ActionResult;
use crate::allowances::{__get_allowance, __set_allowance};
use crate::assoc::{
    get_value, lemma_value_le_sum, remove_value, set_value, sum_values, value_of,
};
use crate::error::ContractError;
use crate::handler_result::HandlerResult;
use crate::state::State;

verus! {

/// The balance table moved `amount` from `from` to `to`: the two balances
/// shifted by `amount` (a self-transfer is numerically a no-op), every
/// other balance is untouched, and the sum of all balances is conserved.
pub open spec fn balances_moved(
    pre: Seq<(String, u64)>,
    post: Seq<(String, u64)>,
    from: Seq<char>,
    to: Seq<char>,
    amount: u64,
) -> bool {
    &&& from != to ==> value_of(post, from) == value_of(pre, from) - amount
    &&& from != to ==> value_of(post, to) == value_of(pre, to) + amount
    &&& from == to ==> value_of(post, from) == value_of(pre, from)
    &&& forall|a: Seq<char>| a != from && a != to ==> value_of(post, a) == value_of(pre, a)
    &&& sum_values(post) == sum_values(pre)
}

/// What a transfer returns: rejection carrying the available balance when
/// it does not cover `amount`, else a new state whose balances moved
/// `amount` from the sender to `to` and whose allowances and metadata are
/// untouched.  Sparsity is kept except when an amount of 0 is sent to an
/// address without a balance entry, which records a zero entry.
pub open spec fn transfer_post(
    pre: State,
    from: Seq<char>,
    to: Seq<char>,
    amount: u64,
    r: ActionResult,
) -> bool {
    if pre.balance_of_spec(from) < amount {
        r matches Err(ContractError::CallerBalanceNotEnough(b)) && b == pre.balance_of_spec(from)
    } else {
        match r {
            Ok(HandlerResult::NewState(ns)) => {
                &&& ns.wf()
                &&& pre.same_metadata(ns)
                &&& ns.allowances == pre.allowances
                &&& ns.total_supply == pre.total_supply
                &&& balances_moved(pre.balances@, ns.balances@, from, to, amount)
                &&& (pre.balances_sparse() && (amount > 0 || pre.balance_of_spec(to) > 0)
                    ==> ns.balances_sparse())
            },
            _ => false,
        }
    }
}

/// What a delegated transfer returns.  The allowance of the caller for
/// `from` is checked first and its rejection takes precedence; then the
/// balance check of the shared transfer step applies.  On either
/// rejection no state is produced: the prior state stays authoritative,
/// so no partial allowance decrement ever survives.  On success the
/// allowance is reduced by `amount` and the balances move as in a direct
/// transfer.
pub open spec fn transfer_from_post(
    pre: State,
    caller: Seq<char>,
    from: Seq<char>,
    to: Seq<char>,
    amount: u64,
    r: ActionResult,
) -> bool {
    let al = pre.allowance_spec(from, caller);
    if al < amount {
        r matches Err(ContractError::CallerAllowanceNotEnough(a)) && a == al
    } else if pre.balance_of_spec(from) < amount {
        r matches Err(ContractError::CallerBalanceNotEnough(b)) && b == pre.balance_of_spec(from)
    } else {
        match r {
            Ok(HandlerResult::NewState(ns)) => {
                &&& ns.wf()
                &&& pre.same_metadata(ns)
                &&& ns.total_supply == pre.total_supply
                &&& balances_moved(pre.balances@, ns.balances@, from, to, amount)
                &&& ns.allowance_spec(from, caller) == al - amount
                &&& forall|o: Seq<char>, s: Seq<char>|
                    !(o == from && s == caller) ==> ns.allowance_spec(o, s)
                        == pre.allowance_spec(o, s)
                &&& (pre.balances_sparse() && (amount > 0 || pre.balance_of_spec(to) > 0)
                    ==> ns.balances_sparse())
            },
            _ => false,
        }
    }
}

/// Move `amount` from the caller's balance to `to`.
pub fn transfer(state: State, caller: String, to: String, amount: u64) -> (r: ActionResult)
    requires
        state.wf(),
    ensures
        transfer_post(state, caller@, to@, amount, r),
{
    _transfer(state, caller, to, amount)
}

/// Spend the caller's allowance on `from`'s balance: decrement the
/// allowance, then move `amount` from `from` to `to` exactly as a direct
/// transfer would.
pub fn transfer_from(
    state: State,
    caller: String,
    from: String,
    to: String,
    amount: u64,
) -> (r: ActionResult)
    requires
        state.wf(),
    ensures
        transfer_from_post(state, caller@, from@, to@, amount, r),
{
    let allowance = __get_allowance(&state.allowances, &from, &caller);
    if allowance < amount {
        return Err(ContractError::CallerAllowanceNotEnough(allowance));
    }
    let mut state = state;
    let from_key = from.clone();
    __set_allowance(&mut state.allowances, from_key, caller, allowance - amount);
    _transfer(state, from, to, amount)
}

/// The shared balance-movement step: check the source balance, subtract
/// (removing an entry that reaches 0), then add to the target entry,
/// creating it — with a default of 0 — when absent.
fn _transfer(state: State, from: String, to: String, amount: u64) -> (r: ActionResult)
    requires
        state.wf(),
    ensures
        transfer_post(state, from@, to@, amount, r),
{
    let from_balance = get_value(&state.balances, &from);
    if from_balance < amount {
        return Err(ContractError::CallerBalanceNotEnough(from_balance));
    }
    let mut state = state;
    let ghost pre_b = state.balances@;
    if from_balance - amount == 0 {
        remove_value(&mut state.balances, &from);
    } else {
        set_value(&mut state.balances, &from, from_balance - amount);
    }
    let ghost mid_b = state.balances@;
    proof {
        assert(sum_values(mid_b) == sum_values(pre_b) - amount);
        assert(value_of(mid_b, from@) == from_balance - amount);
    }
    let to_balance = get_value(&state.balances, &to);
    proof {
        lemma_value_le_sum(mid_b, to@);
        assert(to_balance + amount <= state.total_supply);
    }
    set_value(&mut state.balances, &to, to_balance + amount);
    proof {
        let post_b = state.balances@;
        assert(sum_values(post_b) == sum_values(pre_b));
        if from@ == to@ {
            assert(value_of(post_b, from@) == from_balance);
        } else {
            assert(value_of(mid_b, to@) == value_of(pre_b, to@));
            assert(value_of(post_b, to@) == value_of(pre_b, to@) + amount);
            assert(value_of(post_b, from@) == from_balance - amount);
        }
        assert(balances_moved(pre_b, post_b, from@, to@, amount));
    }
    Ok(HandlerResult::NewState(state))
}

} // verus!
