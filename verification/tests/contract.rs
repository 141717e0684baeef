use contribute::contract::{
    contract_name, execute, execute_deposit, execute_withdraw, instantiate, migrate,
};
use contribute::error::ContractError;
use contribute::msg::{Action, Coin, ExecuteMsg};
use contribute::state::State;
use contribute::util::{execute_update_enabled, execute_update_owner};

fn coins(denom: &str, amount: u128) -> Vec<Coin> {
    vec![Coin { denom: denom.to_string(), amount }]
}

fn fresh_state() -> State {
    instantiate("alice".to_string(), &coins("uatom", 1))
}

#[test]
fn instantiate_sets_initial_state() {
    let state = fresh_state();
    assert_eq!(state.config.owner, "alice".to_string());
    assert_eq!(state.config.denom, "uatom".to_string());
    assert!(state.config.enabled);
    assert_eq!(state.config.amount, 0);
    assert!(state.history.get(&"alice".to_string()).is_none());
}

#[test]
fn deposit_records_first_amount() {
    let mut state = fresh_state();
    let r = execute_deposit(&mut state, "bob".to_string(), &coins("uatom", 100));
    let resp = r.unwrap();
    assert_eq!(state.config.amount, 100);
    assert_eq!(state.history.get(&"bob".to_string()), Some(100));
    assert!(resp.messages.is_empty());
    assert_eq!(resp.events.len(), 1);
    assert_eq!(resp.events[0].action, Action::Deposit);
    assert_eq!(resp.events[0].address, "bob".to_string());
    assert_eq!(resp.events[0].amount, 100);
}

#[test]
fn deposit_accumulates_per_depositor() {
    let mut state = fresh_state();
    execute_deposit(&mut state, "bob".to_string(), &coins("uatom", 100)).unwrap();
    execute_deposit(&mut state, "bob".to_string(), &coins("uatom", 40)).unwrap();
    execute_deposit(&mut state, "carol".to_string(), &coins("uatom", 7)).unwrap();
    assert_eq!(state.history.get(&"bob".to_string()), Some(140));
    assert_eq!(state.history.get(&"carol".to_string()), Some(7));
    assert_eq!(state.config.amount, 147);
}

#[test]
fn deposit_disabled_fails_unchanged() {
    let mut state = fresh_state();
    execute_update_enabled(&mut state, "alice".to_string(), false).unwrap();
    let r = execute_deposit(&mut state, "bob".to_string(), &coins("uatom", 100));
    assert!(matches!(r, Err(ContractError::ContractDisabled)));
    assert_eq!(state.config.owner, "alice".to_string());
    assert_eq!(state.config.denom, "uatom".to_string());
    assert!(!state.config.enabled);
    assert_eq!(state.config.amount, 0);
    assert!(state.history.get(&"bob".to_string()).is_none());
}

#[test]
fn deposit_foreign_denom_records_zero() {
    // The traced behavior: a bundle without the configured denomination is
    // accepted and recorded as a zero-amount deposit.
    let mut state = fresh_state();
    let r = execute_deposit(&mut state, "bob".to_string(), &coins("uosmo", 500));
    let resp = r.unwrap();
    assert_eq!(state.config.amount, 0);
    assert_eq!(state.history.get(&"bob".to_string()), Some(0));
    assert_eq!(resp.events[0].amount, 0);
}

#[test]
fn deposit_picks_first_matching_entry() {
    let mut state = fresh_state();
    let funds = vec![
        Coin { denom: "uosmo".to_string(), amount: 5 },
        Coin { denom: "uatom".to_string(), amount: 30 },
        Coin { denom: "uatom".to_string(), amount: 11 },
    ];
    execute_deposit(&mut state, "bob".to_string(), &funds).unwrap();
    assert_eq!(state.config.amount, 30);
    assert_eq!(state.history.get(&"bob".to_string()), Some(30));
}

#[test]
fn deposit_empty_bundle_records_zero() {
    let mut state = fresh_state();
    let r = execute_deposit(&mut state, "bob".to_string(), &Vec::new());
    assert!(r.is_ok());
    assert_eq!(state.config.amount, 0);
    assert_eq!(state.history.get(&"bob".to_string()), Some(0));
}

#[test]
fn withdraw_by_stranger_fails_unchanged() {
    let mut state = fresh_state();
    execute_deposit(&mut state, "bob".to_string(), &coins("uatom", 100)).unwrap();
    let r = execute_withdraw(&state, "bob".to_string(), 100);
    assert!(matches!(r, Err(ContractError::Unauthorized)));
    assert_eq!(state.config.amount, 100);
    assert_eq!(state.history.get(&"bob".to_string()), Some(100));
}

#[test]
fn withdraw_sweeps_full_live_balance() {
    let mut state = fresh_state();
    execute_deposit(&mut state, "bob".to_string(), &coins("uatom", 150)).unwrap();
    let resp = execute_withdraw(&state, "alice".to_string(), 150).unwrap();
    assert_eq!(resp.messages.len(), 1);
    assert_eq!(resp.messages[0].denom, "uatom".to_string());
    assert_eq!(resp.messages[0].amount, 150);
    assert_eq!(resp.messages[0].recipient, "alice".to_string());
    assert_eq!(resp.events.len(), 1);
    assert_eq!(resp.events[0].action, Action::Withdraw);
    assert_eq!(resp.events[0].address, "alice".to_string());
    assert_eq!(resp.events[0].amount, 150);
    // The cumulative counter is a lifetime total and is never reduced.
    assert_eq!(state.config.amount, 150);
}

#[test]
fn withdraw_ignores_disabled_gate() {
    let mut state = fresh_state();
    execute_update_enabled(&mut state, "alice".to_string(), false).unwrap();
    let resp = execute_withdraw(&state, "alice".to_string(), 9).unwrap();
    assert_eq!(resp.messages[0].amount, 9);
}

#[test]
fn update_owner_requires_owner() {
    let mut state = fresh_state();
    let r = execute_update_owner(&mut state, "bob".to_string(), "carol".to_string());
    assert!(matches!(r, Err(ContractError::Unauthorized)));
    assert_eq!(state.config.owner, "alice".to_string());
}

#[test]
fn update_owner_shifts_authority() {
    let mut state = fresh_state();
    execute_update_owner(&mut state, "alice".to_string(), "carol".to_string()).unwrap();
    assert_eq!(state.config.owner, "carol".to_string());
    // The previous owner lost its rights; the new owner holds them.
    let r = execute_update_enabled(&mut state, "alice".to_string(), false);
    assert!(matches!(r, Err(ContractError::Unauthorized)));
    execute_update_enabled(&mut state, "carol".to_string(), false).unwrap();
    assert!(!state.config.enabled);
}

#[test]
fn update_owner_rejects_malformed_identity() {
    let mut state = fresh_state();
    let r = execute_update_owner(&mut state, "alice".to_string(), "Not An Address!".to_string());
    assert!(matches!(r, Err(ContractError::InvalidIdentity)));
    assert_eq!(state.config.owner, "alice".to_string());
}

#[test]
fn update_owner_to_self_succeeds() {
    let mut state = fresh_state();
    execute_update_owner(&mut state, "alice".to_string(), "alice".to_string()).unwrap();
    assert_eq!(state.config.owner, "alice".to_string());
}

#[test]
fn update_enabled_requires_owner() {
    let mut state = fresh_state();
    let r = execute_update_enabled(&mut state, "bob".to_string(), false);
    assert!(matches!(r, Err(ContractError::Unauthorized)));
    assert!(state.config.enabled);
    execute_update_enabled(&mut state, "alice".to_string(), false).unwrap();
    assert!(!state.config.enabled);
    execute_update_enabled(&mut state, "alice".to_string(), true).unwrap();
    assert!(state.config.enabled);
}

#[test]
fn execute_dispatches_each_request() {
    let mut state = fresh_state();
    let funds = coins("uatom", 25);
    let resp = execute(&mut state, "bob".to_string(), &funds, 0, ExecuteMsg::Deposit).unwrap();
    assert_eq!(resp.events[0].amount, 25);
    assert_eq!(state.config.amount, 25);

    let none: Vec<Coin> = Vec::new();
    let resp = execute(&mut state, "alice".to_string(), &none, 25, ExecuteMsg::Withdraw).unwrap();
    assert_eq!(resp.messages[0].amount, 25);

    execute(
        &mut state,
        "alice".to_string(),
        &none,
        0,
        ExecuteMsg::UpdateEnabled { enabled: false },
    )
    .unwrap();
    assert!(!state.config.enabled);

    execute(
        &mut state,
        "alice".to_string(),
        &none,
        0,
        ExecuteMsg::UpdateOwner { owner: "carol".to_string() },
    )
    .unwrap();
    assert_eq!(state.config.owner, "carol".to_string());
}

#[test]
fn migrate_matching_name_is_noop() {
    let resp = migrate(&contract_name()).unwrap();
    assert!(resp.messages.is_empty());
    assert!(resp.events.is_empty());
    assert_eq!(contract_name(), "contribute".to_string());
}

#[test]
fn migrate_mismatch_fails() {
    let r = migrate(&"somethingelse".to_string());
    match r {
        Err(ContractError::CannotMigrate { previous_contract }) => {
            assert_eq!(previous_contract, "somethingelse".to_string());
        }
        _ => panic!("expected CannotMigrate"),
    }
}

#[test]
fn scenario_two_depositors_then_sweep() {
    let mut state = fresh_state();
    execute_deposit(&mut state, "alice2".to_string(), &coins("uatom", 100)).unwrap();
    assert_eq!(state.history.get(&"alice2".to_string()), Some(100));
    assert_eq!(state.config.amount, 100);

    execute_deposit(&mut state, "bob".to_string(), &coins("uatom", 50)).unwrap();
    assert_eq!(state.history.get(&"bob".to_string()), Some(50));
    assert_eq!(state.config.amount, 150);

    let resp = execute_withdraw(&state, "alice".to_string(), 150).unwrap();
    assert_eq!(resp.messages.len(), 1);
    assert_eq!(resp.messages[0].amount, 150);
    assert_eq!(resp.messages[0].recipient, "alice".to_string());
    // After the sweep the live balance is the host's business; the stored
    // counter and the history keep their lifetime totals.
    assert_eq!(state.config.amount, 150);
    assert_eq!(state.history.get(&"alice2".to_string()), Some(100));
}
