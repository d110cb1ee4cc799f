use wrc20::action::{Action, QueryResponseMsg};
use wrc20::allowances::{allowance, approve, __get_allowance, __set_allowance};
use wrc20::balance::{balance_of, total_supply};
use wrc20::contract::handle;
use wrc20::error::ContractError;
use wrc20::evolve::evolve;
use wrc20::handler_result::HandlerResult;
use wrc20::state::State;
use wrc20::transfers::{transfer, transfer_from};

fn genesis(balances: Vec<(&str, u64)>, owner: &str, can_evolve: Option<bool>) -> State {
    let total: u64 = balances.iter().map(|e| e.1).sum();
    State {
        symbol: "PTK".to_string(),
        name: Some("Proof Token".to_string()),
        decimals: 2,
        total_supply: total,
        balances: balances.into_iter().map(|(a, v)| (a.to_string(), v)).collect(),
        allowances: Vec::new(),
        owner: owner.to_string(),
        evolve: None,
        can_evolve,
    }
}

fn new_state(r: Result<HandlerResult<State, QueryResponseMsg>, ContractError>) -> State {
    match r {
        Ok(HandlerResult::NewState(s)) => s,
        other => panic!("expected a new state, got {:?}", other),
    }
}

fn bal(state: &State, who: &str) -> u64 {
    match balance_of(state.clone(), who.to_string()) {
        Ok(HandlerResult::QueryResponse(QueryResponseMsg::Balance { balance, .. })) => balance,
        other => panic!("expected a balance response, got {:?}", other),
    }
}

fn alw(state: &State, owner: &str, spender: &str) -> u64 {
    match allowance(state.clone(), owner.to_string(), spender.to_string()) {
        Ok(HandlerResult::QueryResponse(QueryResponseMsg::Allowance { allowance, .. })) => {
            allowance
        }
        other => panic!("expected an allowance response, got {:?}", other),
    }
}

fn supply(state: &State) -> u64 {
    match total_supply(state.clone()) {
        Ok(HandlerResult::QueryResponse(QueryResponseMsg::TotalSupply { value })) => value,
        other => panic!("expected a supply response, got {:?}", other),
    }
}

fn balance_sum(state: &State) -> u64 {
    state.balances.iter().map(|e| e.1).sum()
}

#[test]
fn transfer_moves_amount() {
    let s = genesis(vec![("A", 100)], "A", None);
    let s = new_state(transfer(s, "A".to_string(), "B".to_string(), 30));
    assert_eq!(bal(&s, "A"), 70);
    assert_eq!(bal(&s, "B"), 30);
    assert_eq!(supply(&s), 100);
}

#[test]
fn transfer_rejects_insufficient_balance() {
    let s = genesis(vec![("A", 10)], "A", None);
    let r = transfer(s, "A".to_string(), "B".to_string(), 11);
    assert_eq!(r.unwrap_err(), ContractError::CallerBalanceNotEnough(10));
}

#[test]
fn transfer_from_unknown_sender_reports_zero() {
    let s = genesis(vec![("A", 10)], "A", None);
    let r = transfer(s, "X".to_string(), "B".to_string(), 1);
    assert_eq!(r.unwrap_err(), ContractError::CallerBalanceNotEnough(0));
}

#[test]
fn transfer_prunes_emptied_entry() {
    let s = genesis(vec![("A", 25), ("B", 5)], "A", None);
    let s = new_state(transfer(s, "A".to_string(), "B".to_string(), 25));
    assert_eq!(bal(&s, "A"), 0);
    assert_eq!(bal(&s, "B"), 30);
    assert!(s.balances.iter().all(|e| e.0 != "A"), "emptied entry must be removed");
    assert!(s.balances.iter().all(|e| e.1 > 0));
}

#[test]
fn self_transfer_is_numerically_a_no_op() {
    let s = genesis(vec![("A", 40)], "A", None);
    let s = new_state(transfer(s, "A".to_string(), "A".to_string(), 40));
    assert_eq!(bal(&s, "A"), 40);
    assert_eq!(supply(&s), 40);
}

#[test]
fn zero_transfer_to_absent_address_records_zero_entry() {
    // The update rule creates the target entry with a default of 0 before
    // adding the amount, so a zero transfer leaves a zero entry behind.
    let s = genesis(vec![("A", 10)], "A", None);
    let s = new_state(transfer(s, "A".to_string(), "B".to_string(), 0));
    assert_eq!(bal(&s, "B"), 0);
    assert!(s.balances.iter().any(|e| e.0 == "B" && e.1 == 0));
    assert_eq!(supply(&s), 10);
    assert_eq!(balance_sum(&s), 10);
}

#[test]
fn conservation_across_transfer_sequence() {
    let mut s = genesis(vec![("A", 60), ("B", 40)], "A", None);
    let before = balance_sum(&s);
    s = new_state(transfer(s, "A".to_string(), "C".to_string(), 15));
    s = new_state(transfer(s, "B".to_string(), "A".to_string(), 40));
    s = new_state(approve(s, "A".to_string(), "D".to_string(), 50));
    s = new_state(transfer_from(
        s,
        "D".to_string(),
        "A".to_string(),
        "B".to_string(),
        20,
    ));
    assert_eq!(balance_sum(&s), before);
    assert_eq!(supply(&s), before);
}

#[test]
fn approve_overwrites_prior_allowance() {
    let s = genesis(vec![("A", 100)], "A", None);
    let s = new_state(approve(s, "A".to_string(), "B".to_string(), 40));
    assert_eq!(alw(&s, "A", "B"), 40);
    let s = new_state(approve(s, "A".to_string(), "B".to_string(), 10));
    assert_eq!(alw(&s, "A", "B"), 10, "approve overwrites, never adds");
}

#[test]
fn approve_zero_prunes_both_levels() {
    let s = genesis(vec![("A", 100)], "A", None);
    let s = new_state(approve(s, "A".to_string(), "B".to_string(), 40));
    assert_eq!(s.allowances.len(), 1);
    let s = new_state(approve(s, "A".to_string(), "B".to_string(), 0));
    assert_eq!(alw(&s, "A", "B"), 0);
    assert!(s.allowances.is_empty(), "emptied owner entry must be removed");
}

#[test]
fn approve_zero_keeps_other_spenders() {
    let s = genesis(vec![("A", 100)], "A", None);
    let s = new_state(approve(s, "A".to_string(), "B".to_string(), 40));
    let s = new_state(approve(s, "A".to_string(), "C".to_string(), 7));
    let s = new_state(approve(s, "A".to_string(), "B".to_string(), 0));
    assert_eq!(alw(&s, "A", "B"), 0);
    assert_eq!(alw(&s, "A", "C"), 7);
    assert_eq!(s.allowances.len(), 1);
    assert_eq!(s.allowances[0].1.len(), 1);
}

#[test]
fn wire_scenario_approve_then_delegated_transfers() {
    // Genesis {A: 100}; approve(A->B, 40); transferFrom(B: A->C, 25);
    // then transferFrom(B: A->C, 20) must fail with the remaining 15.
    let s = genesis(vec![("A", 100)], "A", None);
    let s = new_state(approve(s, "A".to_string(), "B".to_string(), 40));
    assert_eq!(alw(&s, "A", "B"), 40);
    let s = new_state(transfer_from(
        s,
        "B".to_string(),
        "A".to_string(),
        "C".to_string(),
        25,
    ));
    assert_eq!(bal(&s, "A"), 75);
    assert_eq!(bal(&s, "C"), 25);
    assert_eq!(alw(&s, "A", "B"), 15);
    let r = transfer_from(
        s.clone(),
        "B".to_string(),
        "A".to_string(),
        "C".to_string(),
        20,
    );
    assert_eq!(r.unwrap_err(), ContractError::CallerAllowanceNotEnough(15));
    // The rejected call produced no state; the prior one is untouched.
    assert_eq!(bal(&s, "A"), 75);
    assert_eq!(alw(&s, "A", "B"), 15);
}

#[test]
fn failed_balance_check_leaves_allowance_intact() {
    // Allowance suffices, balance does not: the error is the balance one,
    // and no partial allowance decrement survives.
    let s = genesis(vec![("Z", 5)], "A", None);
    let s = new_state(approve(s, "A".to_string(), "B".to_string(), 50));
    let r = transfer_from(
        s.clone(),
        "B".to_string(),
        "A".to_string(),
        "C".to_string(),
        30,
    );
    assert_eq!(r.unwrap_err(), ContractError::CallerBalanceNotEnough(0));
    assert_eq!(alw(&s, "A", "B"), 50);
    assert_eq!(bal(&s, "C"), 0);
}

#[test]
fn allowance_error_takes_precedence_over_balance_error() {
    let s = genesis(vec![("A", 100)], "A", None);
    let r = transfer_from(s, "B".to_string(), "A".to_string(), "C".to_string(), 30);
    assert_eq!(r.unwrap_err(), ContractError::CallerAllowanceNotEnough(0));
}

#[test]
fn evolve_permitted_for_owner_only() {
    let s = genesis(vec![("A", 1)], "O", Some(true));
    let s2 = new_state(evolve(s.clone(), "O".to_string(), "v2".to_string()));
    assert_eq!(s2.evolve, Some("v2".to_string()));
    assert_eq!(s2.can_evolve, Some(true));
    let r = evolve(s, "X".to_string(), "v3".to_string());
    assert_eq!(r.unwrap_err(), ContractError::OnlyOwnerCanEvolve);
}

#[test]
fn evolve_disallowed_without_permission() {
    let none = genesis(vec![("A", 1)], "O", None);
    let r = evolve(none, "O".to_string(), "v2".to_string());
    assert_eq!(r.unwrap_err(), ContractError::EvolveNotAllowed);
    let off = genesis(vec![("A", 1)], "O", Some(false));
    let r = evolve(off, "O".to_string(), "v2".to_string());
    assert_eq!(r.unwrap_err(), ContractError::EvolveNotAllowed);
}

#[test]
fn queries_are_idempotent() {
    let s = genesis(vec![("A", 100)], "A", None);
    let s = new_state(approve(s, "A".to_string(), "B".to_string(), 9));
    assert_eq!(bal(&s, "A"), bal(&s, "A"));
    assert_eq!(alw(&s, "A", "B"), alw(&s, "A", "B"));
    assert_eq!(supply(&s), supply(&s));
    assert_eq!(bal(&s, "A"), 100);
    assert_eq!(alw(&s, "A", "B"), 9);
    assert_eq!(supply(&s), 100);
}

#[test]
fn query_responses_carry_ticker_and_addresses() {
    let s = genesis(vec![("A", 100)], "A", None);
    match balance_of(s.clone(), "A".to_string()) {
        Ok(HandlerResult::QueryResponse(QueryResponseMsg::Balance { ticker, target, balance })) => {
            assert_eq!(ticker, "PTK");
            assert_eq!(target, "A");
            assert_eq!(balance, 100);
        }
        other => panic!("expected a balance response, got {:?}", other),
    }
    match allowance(s, "A".to_string(), "B".to_string()) {
        Ok(HandlerResult::QueryResponse(QueryResponseMsg::Allowance {
            ticker,
            owner,
            spender,
            allowance,
        })) => {
            assert_eq!(ticker, "PTK");
            assert_eq!(owner, "A");
            assert_eq!(spender, "B");
            assert_eq!(allowance, 0);
        }
        other => panic!("expected an allowance response, got {:?}", other),
    }
}

#[test]
fn dispatcher_routes_every_action() {
    let s = genesis(vec![("A", 100)], "O", Some(true));
    let s = new_state(handle(
        s,
        "A".to_string(),
        Action::Approve { spender: "B".to_string(), amount: 40 },
    ));
    let s = new_state(handle(
        s,
        "B".to_string(),
        Action::TransferFrom { from: "A".to_string(), to: "C".to_string(), amount: 25 },
    ));
    let s = new_state(handle(
        s,
        "A".to_string(),
        Action::Transfer { to: "C".to_string(), amount: 5 },
    ));
    match handle(s.clone(), "X".to_string(), Action::BalanceOf { target: "C".to_string() }) {
        Ok(HandlerResult::QueryResponse(QueryResponseMsg::Balance { balance, .. })) => {
            assert_eq!(balance, 30)
        }
        other => panic!("expected a balance response, got {:?}", other),
    }
    match handle(
        s.clone(),
        "X".to_string(),
        Action::Allowance { owner: "A".to_string(), spender: "B".to_string() },
    ) {
        Ok(HandlerResult::QueryResponse(QueryResponseMsg::Allowance { allowance, .. })) => {
            assert_eq!(allowance, 15)
        }
        other => panic!("expected an allowance response, got {:?}", other),
    }
    match handle(s.clone(), "X".to_string(), Action::TotalSupply {}) {
        Ok(HandlerResult::QueryResponse(QueryResponseMsg::TotalSupply { value })) => {
            assert_eq!(value, 100)
        }
        other => panic!("expected a supply response, got {:?}", other),
    }
    let s = new_state(handle(
        s,
        "O".to_string(),
        Action::Evolve { value: "next".to_string() },
    ));
    assert_eq!(s.evolve, Some("next".to_string()));
}

#[test]
fn allowance_helpers_prune_and_read() {
    let mut allowances: Vec<(String, Vec<(String, u64)>)> = Vec::new();
    __set_allowance(&mut allowances, "A".to_string(), "B".to_string(), 3);
    __set_allowance(&mut allowances, "A".to_string(), "C".to_string(), 4);
    assert_eq!(__get_allowance(&allowances, &"A".to_string(), &"B".to_string()), 3);
    assert_eq!(__get_allowance(&allowances, &"A".to_string(), &"C".to_string()), 4);
    assert_eq!(__get_allowance(&allowances, &"A".to_string(), &"Z".to_string()), 0);
    assert_eq!(__get_allowance(&allowances, &"Z".to_string(), &"B".to_string()), 0);
    __set_allowance(&mut allowances, "A".to_string(), "B".to_string(), 0);
    assert_eq!(__get_allowance(&allowances, &"A".to_string(), &"B".to_string()), 0);
    assert_eq!(allowances.len(), 1);
    __set_allowance(&mut allowances, "A".to_string(), "C".to_string(), 0);
    assert!(allowances.is_empty());
}
