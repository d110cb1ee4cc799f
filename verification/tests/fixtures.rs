use wrc20::evolve_state::EvolveState;
use wrc20::handler_result::{ViewResult, WriteResult};
use wrc20::kv_operations::{kv_get, KvError};
use wrc20::toy_contract::{handle, view, Action, State};

#[test]
fn toy_handle_overwrites_state() {
    let s = State { x: 3 };
    match handle(s, Action { x: 9 }) {
        WriteResult::Success(ns) => assert_eq!(ns.x, 9),
        other => panic!("expected success, got {:?}", other),
    }
}

#[test]
fn toy_view_projects_state() {
    let s = State { x: 7 };
    match view(&s, Action { x: 0 }) {
        ViewResult::Success(v) => assert_eq!(v.x, 7),
        other => panic!("expected success, got {:?}", other),
    }
}

#[test]
fn ledger_state_default_is_empty() {
    let s = wrc20::state::State::default();
    assert_eq!(s.symbol, "");
    assert_eq!(s.name, None);
    assert_eq!(s.decimals, 0);
    assert_eq!(s.total_supply, 0);
    assert!(s.balances.is_empty());
    assert!(s.allowances.is_empty());
    assert_eq!(s.owner, "");
    assert_eq!(s.evolve, None);
    assert_eq!(s.can_evolve, None);
}

#[test]
fn evolve_state_default_permits_evolution() {
    let e = EvolveState::default();
    assert!(e.can_evolve);
    assert_eq!(e.source_transaction_id, None);
}

#[test]
fn kv_get_classifies_outcomes() {
    match kv_get::<u64>(Ok(Some(5))) {
        ViewResult::Success(v) => assert_eq!(v, 5),
        other => panic!("expected success, got {:?}", other),
    }
    match kv_get::<u64>(Ok(None)) {
        ViewResult::ContractError(e) => assert_eq!(e, KvError::NotFound),
        other => panic!("expected the contract error, got {:?}", other),
    }
    match kv_get::<u64>(Err("bridge down".to_string())) {
        ViewResult::RuntimeError(msg) => assert_eq!(msg, "bridge down"),
        other => panic!("expected the runtime error, got {:?}", other),
    }
}
