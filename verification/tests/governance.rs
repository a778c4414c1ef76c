use marketplace::error::ContractError;
use marketplace::execute::{instantiate, InstantiateMsg};
use marketplace::helpers::{ExpiryRange, ExpiryRangeError};
use marketplace::state::MarketState;
use marketplace::sudo::{
    sudo_add_ask_hook, sudo_add_bid_hook, sudo_add_operator, sudo_add_sale_hook,
    sudo_remove_ask_hook, sudo_remove_bid_hook, sudo_remove_operator, sudo_remove_sale_hook,
    sudo_update_params, ParamInfo,
};

fn fresh_market() -> MarketState {
    instantiate(InstantiateMsg {
        trading_fee_bps: 0,
        ask_expiry: ExpiryRange::new(100, 10000),
        bid_expiry: ExpiryRange::new(100, 10000),
        operators: vec!["operator2".to_string(), "operator1".to_string(), "operator2".to_string()],
        sale_hook: Some("genesis-hook".to_string()),
        min_price: 10,
        listing_fee: 5,
    })
    .unwrap()
}

#[test]
fn instantiate_sorts_operators_and_registers_hook() {
    let state = fresh_market();
    assert_eq!(
        state.params.operators,
        vec!["operator1".to_string(), "operator2".to_string()]
    );
    assert_eq!(state.sale_hooks, vec!["genesis-hook".to_string()]);
    assert!(state.ask_hooks.is_empty());
    assert!(state.bid_hooks.is_empty());
    assert_eq!(state.params.min_price, 10);
    assert_eq!(state.params.listing_fee, 5);
}

#[test]
fn update_params_is_partial() {
    let mut state = fresh_market();
    sudo_update_params(
        &mut state,
        ParamInfo {
            ask_expiry: Some(ExpiryRange::new(200, 20000)),
            bid_expiry: None,
            operators: None,
            min_price: Some(25),
            listing_fee: None,
        },
    )
    .unwrap();
    assert_eq!(state.params.ask_expiry, ExpiryRange::new(200, 20000));
    assert_eq!(state.params.bid_expiry, ExpiryRange::new(100, 10000));
    assert_eq!(state.params.min_price, 25);
    assert_eq!(state.params.listing_fee, 5);
}

#[test]
fn update_params_rejects_inverted_range() {
    let mut state = fresh_market();
    let r = sudo_update_params(
        &mut state,
        ParamInfo {
            ask_expiry: Some(ExpiryRange::new(9, 3)),
            bid_expiry: None,
            operators: None,
            min_price: None,
            listing_fee: None,
        },
    );
    assert!(matches!(r, Err(ContractError::Expiry(ExpiryRangeError::InvalidExpiry))));
    assert_eq!(state.params.ask_expiry, ExpiryRange::new(100, 10000));
}

#[test]
fn operator_registry() {
    let mut state = fresh_market();
    sudo_add_operator(&mut state, "operator3".to_string()).unwrap();
    assert_eq!(state.params.operators.len(), 3);
    let dup = sudo_add_operator(&mut state, "operator3".to_string());
    assert!(matches!(dup, Err(ContractError::OperatorAlreadyRegistered)));
    sudo_remove_operator(&mut state, &"operator3".to_string()).unwrap();
    assert_eq!(state.params.operators.len(), 2);
    let gone = sudo_remove_operator(&mut state, &"operator3".to_string());
    assert!(matches!(gone, Err(ContractError::OperatorNotRegistered)));
}

#[test]
fn hook_registries_reject_duplicates_and_unknowns() {
    let mut state = fresh_market();
    sudo_add_ask_hook(&mut state, "a1".to_string()).unwrap();
    sudo_add_bid_hook(&mut state, "b1".to_string()).unwrap();
    sudo_add_sale_hook(&mut state, "s1".to_string()).unwrap();
    assert!(matches!(
        sudo_add_ask_hook(&mut state, "a1".to_string()),
        Err(ContractError::HookAlreadyRegistered)
    ));
    assert!(matches!(
        sudo_add_sale_hook(&mut state, "genesis-hook".to_string()),
        Err(ContractError::HookAlreadyRegistered)
    ));
    sudo_remove_ask_hook(&mut state, &"a1".to_string()).unwrap();
    sudo_remove_bid_hook(&mut state, &"b1".to_string()).unwrap();
    sudo_remove_sale_hook(&mut state, &"s1".to_string()).unwrap();
    assert!(matches!(
        sudo_remove_ask_hook(&mut state, &"a1".to_string()),
        Err(ContractError::HookNotRegistered)
    ));
    assert_eq!(state.sale_hooks, vec!["genesis-hook".to_string()]);
}

#[test]
fn only_operator_checks_allow_list() {
    let state = fresh_market();
    let ok = marketplace::execute::only_operator(
        &state,
        &marketplace::state::MessageInfo { sender: "operator1".to_string(), funds: vec![] },
    );
    assert_eq!(ok.unwrap(), "operator1".to_string());
    let bad = marketplace::execute::only_operator(
        &state,
        &marketplace::state::MessageInfo { sender: "mallory".to_string(), funds: vec![] },
    );
    assert!(matches!(bad, Err(ContractError::UnauthorizedOperator)));
}
