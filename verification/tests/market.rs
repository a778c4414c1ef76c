use marketplace::error::{ContractError, PaymentError};
use marketplace::execute::{
    execute, execute_accept_bid, execute_remove_ask, execute_set_ask, execute_set_bid,
    execute_update_ask_price, instantiate, may_pay, must_pay, nonpayable, payout, AskInfo, BidInfo,
    InstantiateMsg, OutMsg, Response, RoyaltyInfo, RATE_DENOM,
};
use marketplace::helpers::{map_validate, ExpiryRange, ExpiryRangeError};
use marketplace::msg::ExecuteMsg;
use marketplace::state::{Coin, EnvInfo, MarketState, MessageInfo, SaleType};

const DENOM: &str = "uheart";

fn coin(amount: u128) -> Coin {
    Coin { denom: DENOM.to_string(), amount }
}

fn info(sender: &str, funds: Vec<Coin>) -> MessageInfo {
    MessageInfo { sender: sender.to_string(), funds }
}

fn env_at(time: u64) -> EnvInfo {
    EnvInfo { time, contract: "market".to_string() }
}

fn fresh_market() -> MarketState {
    instantiate(InstantiateMsg {
        trading_fee_bps: 0,
        ask_expiry: ExpiryRange::new(100, 10000),
        bid_expiry: ExpiryRange::new(100, 10000),
        operators: vec!["operator1".to_string()],
        sale_hook: None,
        min_price: 10,
        listing_fee: 5,
    })
    .unwrap()
}

fn fixed_ask_info(collection: &str, token: &str, price: u128) -> AskInfo {
    AskInfo {
        sale_type: SaleType::FixedPrice,
        collection: collection.to_string(),
        token_id: token.to_string(),
        price: coin(price),
        funds_recipient: None,
        expires: 3600,
    }
}

fn auction_ask_info(collection: &str, token: &str, price: u128) -> AskInfo {
    AskInfo { sale_type: SaleType::Auction, ..fixed_ask_info(collection, token, price) }
}

fn list_fixed(state: &mut MarketState, collection: &str, token: &str, price: u128) -> Response {
    execute_set_ask(
        state,
        &env_at(1000),
        &info("collection", vec![coin(5)]),
        &"seller".to_string(),
        &token.to_string(),
        fixed_ask_info(collection, token, price),
    )
    .unwrap()
}

fn list_auction(state: &mut MarketState, collection: &str, token: &str, price: u128) -> Response {
    execute_set_ask(
        state,
        &env_at(1000),
        &info("collection", vec![coin(5)]),
        &"seller".to_string(),
        &token.to_string(),
        auction_ask_info(collection, token, price),
    )
    .unwrap()
}

#[test]
fn test_map_validate() {
    let addresses = map_validate(&vec![
        "operator1".to_string(),
        "operator2".to_string(),
        "operator3".to_string(),
    ]);
    assert_eq!(3, addresses.len());

    let addresses = map_validate(&vec![
        "operator1".to_string(),
        "operator2".to_string(),
        "operator3".to_string(),
        "operator3".to_string(),
        "operator1".to_string(),
    ]);
    assert_eq!(
        addresses,
        vec!["operator1".to_string(), "operator2".to_string(), "operator3".to_string()]
    )
}

#[test]
fn expiry_range_validation() {
    let range = ExpiryRange::new(100, 10000);
    assert_eq!(range.min, 100);
    assert_eq!(range.max, 10000);
    assert_eq!(range.is_valid(3600), Ok(()));
    assert_eq!(range.is_valid(100), Err(ExpiryRangeError::InvalidExpirationRange));
    assert_eq!(range.is_valid(10001), Err(ExpiryRangeError::InvalidExpirationRange));
    assert_eq!(range.validate(), Ok(()));
    assert_eq!(ExpiryRange::new(7, 3).validate(), Err(ExpiryRangeError::InvalidExpiry));
}

#[test]
fn instantiate_rejects_inverted_range() {
    let r = instantiate(InstantiateMsg {
        trading_fee_bps: 0,
        ask_expiry: ExpiryRange::new(10, 1),
        bid_expiry: ExpiryRange::new(100, 10000),
        operators: vec![],
        sale_hook: None,
        min_price: 10,
        listing_fee: 5,
    });
    assert!(matches!(r, Err(ContractError::Expiry(ExpiryRangeError::InvalidExpiry))));
}

#[test]
fn list_fixed_price_initializes_sentinel() {
    // Floor 10, listing fee 5 paid exactly: the ask is created with the
    // sentinel bidder (the market itself) and the floor as its high bid.
    let mut state = fresh_market();
    list_fixed(&mut state, "coll", "a", 100);
    let ask = state
        .may_load_ask(&"coll".to_string(), &"a".to_string())
        .expect("ask stored");
    assert_eq!(ask.price, 100);
    assert_eq!(ask.seller, "seller".to_string());
    assert_eq!(ask.max_bidder, Some("market".to_string()));
    assert_eq!(ask.max_bid, Some(10));
    assert_eq!(ask.expires_at, 1000 + 3600);
    assert_eq!(state.ask_count().count, 1);
}

#[test]
fn listing_fee_must_match_exactly() {
    let mut state = fresh_market();
    let r = execute_set_ask(
        &mut state,
        &env_at(1000),
        &info("collection", vec![coin(4)]),
        &"seller".to_string(),
        &"a".to_string(),
        fixed_ask_info("coll", "a", 100),
    );
    assert_eq!(r.unwrap_err(), ContractError::InvalidListingFee(4));
    assert_eq!(state.ask_count().count, 0);
}

#[test]
fn listing_rejects_token_mismatch() {
    let mut state = fresh_market();
    let r = execute_set_ask(
        &mut state,
        &env_at(1000),
        &info("collection", vec![coin(5)]),
        &"seller".to_string(),
        &"other".to_string(),
        fixed_ask_info("coll", "a", 100),
    );
    assert_eq!(r.unwrap_err(), ContractError::IdMismatch);
}

#[test]
fn listing_rejects_bad_price() {
    let mut state = fresh_market();
    let zero = execute_set_ask(
        &mut state,
        &env_at(1000),
        &info("collection", vec![coin(5)]),
        &"seller".to_string(),
        &"a".to_string(),
        fixed_ask_info("coll", "a", 0),
    );
    assert_eq!(zero.unwrap_err(), ContractError::InvalidPrice);

    let mut wrong_denom = fixed_ask_info("coll", "a", 100);
    wrong_denom.price = Coin { denom: "uother".to_string(), amount: 100 };
    let r = execute_set_ask(
        &mut state,
        &env_at(1000),
        &info("collection", vec![coin(5)]),
        &"seller".to_string(),
        &"a".to_string(),
        wrong_denom,
    );
    assert_eq!(r.unwrap_err(), ContractError::InvalidPrice);

    let below_floor = execute_set_ask(
        &mut state,
        &env_at(1000),
        &info("collection", vec![coin(5)]),
        &"seller".to_string(),
        &"a".to_string(),
        fixed_ask_info("coll", "a", 9),
    );
    assert_eq!(below_floor.unwrap_err(), ContractError::PriceTooSmall(9));
}

#[test]
fn listing_rejects_out_of_range_expiry() {
    let mut state = fresh_market();
    let mut ask_info = fixed_ask_info("coll", "a", 100);
    ask_info.expires = 50;
    let r = execute_set_ask(
        &mut state,
        &env_at(1000),
        &info("collection", vec![coin(5)]),
        &"seller".to_string(),
        &"a".to_string(),
        ask_info,
    );
    assert_eq!(
        r.unwrap_err(),
        ContractError::Expiry(ExpiryRangeError::InvalidExpirationRange)
    );
}

#[test]
fn listing_rejects_duplicate_key() {
    let mut state = fresh_market();
    list_fixed(&mut state, "coll", "a", 100);
    let r = execute_set_ask(
        &mut state,
        &env_at(1000),
        &info("collection", vec![coin(5)]),
        &"seller".to_string(),
        &"a".to_string(),
        fixed_ask_info("coll", "a", 120),
    );
    assert_eq!(r.unwrap_err(), ContractError::AskAlreadyExists);
    let ask = state.may_load_ask(&"coll".to_string(), &"a".to_string()).unwrap();
    assert_eq!(ask.price, 100);
}

#[test]
fn fixed_price_sale_settles_in_one_step() {
    // A payment exactly matching the price settles at once: seller paid in
    // full (no royalty), asset transferred to the buyer, ask removed, and no
    // bid record written.
    let mut state = fresh_market();
    list_fixed(&mut state, "coll", "a", 100);
    let res = execute_set_bid(
        &mut state,
        &env_at(1000),
        &info("buyer", vec![coin(100)]),
        BidInfo { collection: "coll".to_string(), token_id: "a".to_string() },
        &None,
    )
    .unwrap();
    assert!(state.may_load_ask(&"coll".to_string(), &"a".to_string()).is_none());
    assert!(state
        .may_load_bid(&"coll".to_string(), &"a".to_string(), &"buyer".to_string())
        .is_none());
    assert_eq!(res.messages.len(), 2);
    match &res.messages[0] {
        OutMsg::BankSend { to_address, amount } => {
            assert_eq!(to_address, "seller");
            assert_eq!(*amount, 100);
        },
        other => panic!("expected payout, got {:?}", other),
    }
    match &res.messages[1] {
        OutMsg::TransferNft { collection, token_id, recipient } => {
            assert_eq!(collection, "coll");
            assert_eq!(token_id, "a");
            assert_eq!(recipient, "buyer");
        },
        other => panic!("expected transfer, got {:?}", other),
    }
    assert_eq!(res.sales.len(), 1);
    assert_eq!(res.sales[0].price, 100);
    assert_eq!(res.sales[0].buyer, "buyer".to_string());
    assert_eq!(res.sales[0].seller, "seller".to_string());
}

#[test]
fn fixed_price_rejects_wrong_amount() {
    let mut state = fresh_market();
    list_fixed(&mut state, "coll", "a", 100);
    let r = execute_set_bid(
        &mut state,
        &env_at(1000),
        &info("buyer", vec![coin(99)]),
        BidInfo { collection: "coll".to_string(), token_id: "a".to_string() },
        &None,
    );
    assert_eq!(r.unwrap_err(), ContractError::InvalidPrice);
    assert!(state.may_load_ask(&"coll".to_string(), &"a".to_string()).is_some());
}

#[test]
fn auction_bidding_round() {
    // Bid 50 accepted; bid 40 rejected as not strictly greater; bid 80
    // accepted with a 50 refund to the first bidder.
    let mut state = fresh_market();
    list_auction(&mut state, "coll", "b", 10);

    let res1 = execute_set_bid(
        &mut state,
        &env_at(1000),
        &info("bidder1", vec![coin(50)]),
        BidInfo { collection: "coll".to_string(), token_id: "b".to_string() },
        &None,
    )
    .unwrap();
    // The sentinel held the previous high bid, so nothing is refunded; the
    // only messages are bid-hook notifications (none registered).
    assert_eq!(res1.messages.len(), 0);
    let ask = state.may_load_ask(&"coll".to_string(), &"b".to_string()).unwrap();
    assert_eq!(ask.max_bid, Some(50));
    assert_eq!(ask.max_bidder, Some("bidder1".to_string()));

    let res2 = execute_set_bid(
        &mut state,
        &env_at(1000),
        &info("bidder2", vec![coin(40)]),
        BidInfo { collection: "coll".to_string(), token_id: "b".to_string() },
        &None,
    );
    assert_eq!(res2.unwrap_err(), ContractError::InsufficientFundsSend);

    let res3 = execute_set_bid(
        &mut state,
        &env_at(1000),
        &info("bidder3", vec![coin(80)]),
        BidInfo { collection: "coll".to_string(), token_id: "b".to_string() },
        &None,
    )
    .unwrap();
    assert_eq!(res3.messages.len(), 1);
    match &res3.messages[0] {
        OutMsg::BankSend { to_address, amount } => {
            assert_eq!(to_address, "bidder1");
            assert_eq!(*amount, 50);
        },
        other => panic!("expected refund, got {:?}", other),
    }
    let ask = state.may_load_ask(&"coll".to_string(), &"b".to_string()).unwrap();
    assert_eq!(ask.max_bid, Some(80));
    assert_eq!(ask.max_bidder, Some("bidder3".to_string()));
    // The audit bid record of the winning bidder is stored.
    let bid = state
        .may_load_bid(&"coll".to_string(), &"b".to_string(), &"bidder3".to_string())
        .unwrap();
    assert_eq!(bid.price, 80);
}

#[test]
fn repeated_invalid_bid_fails_identically() {
    // Idempotent rejection: the same too-low bid fails twice with the same
    // error and the ask is untouched both times.
    let mut state = fresh_market();
    list_auction(&mut state, "coll", "b", 10);
    execute_set_bid(
        &mut state,
        &env_at(1000),
        &info("bidder1", vec![coin(50)]),
        BidInfo { collection: "coll".to_string(), token_id: "b".to_string() },
        &None,
    )
    .unwrap();
    for _ in 0..2 {
        let r = execute_set_bid(
            &mut state,
            &env_at(1000),
            &info("bidder2", vec![coin(50)]),
            BidInfo { collection: "coll".to_string(), token_id: "b".to_string() },
            &None,
        );
        assert_eq!(r.unwrap_err(), ContractError::InsufficientFundsSend);
        let ask = state.may_load_ask(&"coll".to_string(), &"b".to_string()).unwrap();
        assert_eq!(ask.max_bid, Some(50));
        assert_eq!(ask.max_bidder, Some("bidder1".to_string()));
    }
}

#[test]
fn bid_on_missing_or_expired_ask() {
    let mut state = fresh_market();
    let missing = execute_set_bid(
        &mut state,
        &env_at(1000),
        &info("buyer", vec![coin(100)]),
        BidInfo { collection: "coll".to_string(), token_id: "nope".to_string() },
        &None,
    );
    assert_eq!(missing.unwrap_err(), ContractError::AskNotFound);

    list_fixed(&mut state, "coll", "a", 100);
    let expired = execute_set_bid(
        &mut state,
        &env_at(1000 + 3600),
        &info("buyer", vec![coin(100)]),
        BidInfo { collection: "coll".to_string(), token_id: "a".to_string() },
        &None,
    );
    assert_eq!(expired.unwrap_err(), ContractError::AskExpired);
}

#[test]
fn bid_payment_validation() {
    let mut state = fresh_market();
    list_auction(&mut state, "coll", "b", 10);
    let none = execute_set_bid(
        &mut state,
        &env_at(1000),
        &info("buyer", vec![]),
        BidInfo { collection: "coll".to_string(), token_id: "b".to_string() },
        &None,
    );
    assert_eq!(none.unwrap_err(), ContractError::Payment(PaymentError::NoFunds));

    let below_floor = execute_set_bid(
        &mut state,
        &env_at(1000),
        &info("buyer", vec![coin(9)]),
        BidInfo { collection: "coll".to_string(), token_id: "b".to_string() },
        &None,
    );
    assert_eq!(below_floor.unwrap_err(), ContractError::PriceTooSmall(9));

    let below_reserve = execute_set_bid(
        &mut state,
        &env_at(1000),
        &info("buyer", vec![Coin { denom: DENOM.to_string(), amount: 10 }]),
        BidInfo { collection: "coll".to_string(), token_id: "b".to_string() },
        &None,
    );
    // Reserve is 10 and the sentinel bid is the floor 10: a bid of 10 is not
    // strictly greater than the standing high bid.
    assert_eq!(below_reserve.unwrap_err(), ContractError::InsufficientFundsSend);
}

#[test]
fn accept_before_expiry_is_rejected() {
    let mut state = fresh_market();
    list_auction(&mut state, "coll", "b", 10);
    let r = execute_accept_bid(
        &mut state,
        &env_at(2000),
        &info("seller", vec![]),
        &"coll".to_string(),
        &"b".to_string(),
        &None,
    );
    assert_eq!(r.unwrap_err(), ContractError::AuctionNotEnded);
}

#[test]
fn accept_after_expiry_splits_royalty() {
    // Payout 80 at a 10% royalty: 8 to the royalty recipient, 72 to the
    // seller, asset to the winning bidder, ask removed.
    let mut state = fresh_market();
    list_auction(&mut state, "coll", "b", 10);
    execute_set_bid(
        &mut state,
        &env_at(1000),
        &info("bidder3", vec![coin(80)]),
        BidInfo { collection: "coll".to_string(), token_id: "b".to_string() },
        &None,
    )
    .unwrap();
    let royalty = Some(RoyaltyInfo { address: "royalty".to_string(), rate: RATE_DENOM / 10 });
    let res = execute_accept_bid(
        &mut state,
        &env_at(1000 + 3600),
        &info("seller", vec![]),
        &"coll".to_string(),
        &"b".to_string(),
        &royalty,
    )
    .unwrap();
    assert!(state.may_load_ask(&"coll".to_string(), &"b".to_string()).is_none());
    assert_eq!(res.messages.len(), 3);
    match &res.messages[0] {
        OutMsg::BankSend { to_address, amount } => {
            assert_eq!(to_address, "royalty");
            assert_eq!(*amount, 8);
        },
        other => panic!("expected royalty payout, got {:?}", other),
    }
    match &res.messages[1] {
        OutMsg::BankSend { to_address, amount } => {
            assert_eq!(to_address, "seller");
            assert_eq!(*amount, 72);
        },
        other => panic!("expected seller payout, got {:?}", other),
    }
    match &res.messages[2] {
        OutMsg::TransferNft { recipient, .. } => {
            assert_eq!(recipient, "bidder3");
        },
        other => panic!("expected transfer, got {:?}", other),
    }
    assert_eq!(res.sales.len(), 1);
    assert_eq!(res.sales[0].price, 80);
}

#[test]
fn accept_without_real_bid_returns_asset() {
    let mut state = fresh_market();
    list_auction(&mut state, "coll", "b", 10);
    let res = execute_accept_bid(
        &mut state,
        &env_at(1000 + 3600),
        &info("seller", vec![]),
        &"coll".to_string(),
        &"b".to_string(),
        &None,
    )
    .unwrap();
    assert!(state.may_load_ask(&"coll".to_string(), &"b".to_string()).is_none());
    assert_eq!(res.messages.len(), 1);
    match &res.messages[0] {
        OutMsg::TransferNft { recipient, .. } => {
            assert_eq!(recipient, "seller");
        },
        other => panic!("expected transfer back to seller, got {:?}", other),
    }
    assert!(res.sales.is_empty());
}

#[test]
fn accept_requires_seller_and_no_funds() {
    let mut state = fresh_market();
    list_auction(&mut state, "coll", "b", 10);
    let wrong_caller = execute_accept_bid(
        &mut state,
        &env_at(1000 + 3600),
        &info("mallory", vec![]),
        &"coll".to_string(),
        &"b".to_string(),
        &None,
    );
    assert_eq!(wrong_caller.unwrap_err(), ContractError::UnauthorizedOwner);

    let with_funds = execute_accept_bid(
        &mut state,
        &env_at(1000 + 3600),
        &info("seller", vec![coin(1)]),
        &"coll".to_string(),
        &"b".to_string(),
        &None,
    );
    assert_eq!(with_funds.unwrap_err(), ContractError::Payment(PaymentError::NonPayable));
}

#[test]
fn remove_ask_returns_asset_to_seller() {
    let mut state = fresh_market();
    list_fixed(&mut state, "coll", "a", 100);
    let res = execute_remove_ask(
        &mut state,
        &info("seller", vec![]),
        &"coll".to_string(),
        &"a".to_string(),
    )
    .unwrap();
    assert!(state.may_load_ask(&"coll".to_string(), &"a".to_string()).is_none());
    assert_eq!(res.messages.len(), 1);
    match &res.messages[0] {
        OutMsg::TransferNft { recipient, .. } => assert_eq!(recipient, "seller"),
        other => panic!("expected transfer, got {:?}", other),
    }
}

#[test]
fn auction_ask_cannot_be_removed() {
    // Rejected unconditionally, before and after bids.
    let mut state = fresh_market();
    list_auction(&mut state, "coll", "b", 10);
    let r = execute_remove_ask(
        &mut state,
        &info("seller", vec![]),
        &"coll".to_string(),
        &"b".to_string(),
    );
    assert_eq!(r.unwrap_err(), ContractError::AuctionNotRemove);

    execute_set_bid(
        &mut state,
        &env_at(1000),
        &info("bidder1", vec![coin(50)]),
        BidInfo { collection: "coll".to_string(), token_id: "b".to_string() },
        &None,
    )
    .unwrap();
    let r = execute_remove_ask(
        &mut state,
        &info("seller", vec![]),
        &"coll".to_string(),
        &"b".to_string(),
    );
    assert_eq!(r.unwrap_err(), ContractError::AuctionNotRemove);
}

#[test]
fn remove_ask_authorization() {
    let mut state = fresh_market();
    list_fixed(&mut state, "coll", "a", 100);
    let r = execute_remove_ask(
        &mut state,
        &info("mallory", vec![]),
        &"coll".to_string(),
        &"a".to_string(),
    );
    assert_eq!(r.unwrap_err(), ContractError::UnauthorizedOwner);
    let missing = execute_remove_ask(
        &mut state,
        &info("seller", vec![]),
        &"coll".to_string(),
        &"nope".to_string(),
    );
    assert_eq!(missing.unwrap_err(), ContractError::AskNotFound);
}

#[test]
fn update_price_works_for_both_sale_types() {
    let mut state = fresh_market();
    list_fixed(&mut state, "coll", "a", 100);
    list_auction(&mut state, "coll", "b", 10);
    execute_update_ask_price(
        &mut state,
        &env_at(1000),
        &info("seller", vec![]),
        &"coll".to_string(),
        &"a".to_string(),
        &coin(150),
    )
    .unwrap();
    assert_eq!(
        state.may_load_ask(&"coll".to_string(), &"a".to_string()).unwrap().price,
        150
    );
    // The update path is not restricted to fixed-price asks.
    execute_update_ask_price(
        &mut state,
        &env_at(1000),
        &info("seller", vec![]),
        &"coll".to_string(),
        &"b".to_string(),
        &coin(20),
    )
    .unwrap();
    assert_eq!(
        state.may_load_ask(&"coll".to_string(), &"b".to_string()).unwrap().price,
        20
    );
}

#[test]
fn update_price_rejections() {
    let mut state = fresh_market();
    list_fixed(&mut state, "coll", "a", 100);
    let expired = execute_update_ask_price(
        &mut state,
        &env_at(1000 + 3600),
        &info("seller", vec![]),
        &"coll".to_string(),
        &"a".to_string(),
        &coin(150),
    );
    assert_eq!(expired.unwrap_err(), ContractError::AskExpired);

    let paid = execute_update_ask_price(
        &mut state,
        &env_at(1000),
        &info("seller", vec![coin(1)]),
        &"coll".to_string(),
        &"a".to_string(),
        &coin(150),
    );
    assert_eq!(paid.unwrap_err(), ContractError::Payment(PaymentError::NonPayable));
}

#[test]
fn payment_helpers() {
    let denom = DENOM.to_string();
    assert_eq!(may_pay(&info("x", vec![]), &denom), Ok(0));
    assert_eq!(may_pay(&info("x", vec![coin(5)]), &denom), Ok(5));
    assert_eq!(
        may_pay(&info("x", vec![Coin { denom: "uother".to_string(), amount: 5 }]), &denom),
        Err(PaymentError::ExtraDenom)
    );
    assert_eq!(must_pay(&info("x", vec![]), &denom), Err(PaymentError::NoFunds));
    assert_eq!(
        must_pay(&info("x", vec![coin(0)]), &denom),
        Err(PaymentError::NoFunds)
    );
    assert_eq!(
        must_pay(&info("x", vec![coin(1), coin(2)]), &denom),
        Err(PaymentError::MultipleDenoms)
    );
    assert_eq!(
        must_pay(&info("x", vec![Coin { denom: "uother".to_string(), amount: 5 }]), &denom),
        Err(PaymentError::MissingDenom)
    );
    assert_eq!(must_pay(&info("x", vec![coin(7)]), &denom), Ok(7));
    assert_eq!(nonpayable(&info("x", vec![])), Ok(()));
    assert_eq!(nonpayable(&info("x", vec![coin(1)])), Err(PaymentError::NonPayable));
}

#[test]
fn payout_floors_royalty_and_routes_remainder_to_seller() {
    // 5 * 0.99 floors to 4; the truncation remainder goes to the seller, so
    // the two payouts always sum to the payment.
    let mut res = Response::new();
    let royalty = Some(RoyaltyInfo {
        address: "royalty".to_string(),
        rate: RATE_DENOM / 100 * 99,
    });
    payout(5, &"seller".to_string(), &royalty, &mut res).unwrap();
    assert_eq!(res.messages.len(), 2);
    match (&res.messages[0], &res.messages[1]) {
        (
            OutMsg::BankSend { to_address: r1, amount: a1 },
            OutMsg::BankSend { to_address: r2, amount: a2 },
        ) => {
            assert_eq!(r1, "royalty");
            assert_eq!(*a1, 4);
            assert_eq!(r2, "seller");
            assert_eq!(*a2, 1);
            assert_eq!(a1 + a2, 5);
        },
        other => panic!("expected two payouts, got {:?}", other),
    }
}

#[test]
fn payout_rejects_rate_above_one() {
    let mut res = Response::new();
    let royalty = Some(RoyaltyInfo { address: "royalty".to_string(), rate: 2 * RATE_DENOM });
    let r = payout(80, &"seller".to_string(), &royalty, &mut res);
    assert_eq!(r.unwrap_err(), ContractError::FeesExceedPayment);
    assert!(res.messages.is_empty());
}

#[test]
fn sale_hook_subscribers_are_notified_in_order() {
    let mut state = fresh_market();
    marketplace::sudo::sudo_add_sale_hook(&mut state, "hook1".to_string()).unwrap();
    marketplace::sudo::sudo_add_sale_hook(&mut state, "hook2".to_string()).unwrap();
    list_fixed(&mut state, "coll", "a", 100);
    let res = execute_set_bid(
        &mut state,
        &env_at(1000),
        &info("buyer", vec![coin(100)]),
        BidInfo { collection: "coll".to_string(), token_id: "a".to_string() },
        &None,
    )
    .unwrap();
    // payout, transfer, then one sale hook per subscriber in order.
    assert_eq!(res.messages.len(), 4);
    match &res.messages[2] {
        OutMsg::SaleHook { target, price, buyer, .. } => {
            assert_eq!(target, "hook1");
            assert_eq!(*price, 100);
            assert_eq!(buyer, "buyer");
        },
        other => panic!("expected sale hook, got {:?}", other),
    }
    match &res.messages[3] {
        OutMsg::SaleHook { target, .. } => assert_eq!(target, "hook2"),
        other => panic!("expected sale hook, got {:?}", other),
    }
}

#[test]
fn ask_hooks_fire_on_create() {
    let mut state = fresh_market();
    marketplace::sudo::sudo_add_ask_hook(&mut state, "watcher".to_string()).unwrap();
    let res = list_fixed(&mut state, "coll", "a", 100);
    assert_eq!(res.messages.len(), 1);
    match &res.messages[0] {
        OutMsg::AskHook { target, ask, .. } => {
            assert_eq!(target, "watcher");
            assert_eq!(ask.price, 100);
        },
        other => panic!("expected ask hook, got {:?}", other),
    }
}

#[test]
fn funds_recipient_overrides_payee() {
    let mut state = fresh_market();
    let mut ask_info = fixed_ask_info("coll", "a", 100);
    ask_info.funds_recipient = Some("treasury".to_string());
    execute_set_ask(
        &mut state,
        &env_at(1000),
        &info("collection", vec![coin(5)]),
        &"seller".to_string(),
        &"a".to_string(),
        ask_info,
    )
    .unwrap();
    let res = execute_set_bid(
        &mut state,
        &env_at(1000),
        &info("buyer", vec![coin(100)]),
        BidInfo { collection: "coll".to_string(), token_id: "a".to_string() },
        &None,
    )
    .unwrap();
    match &res.messages[0] {
        OutMsg::BankSend { to_address, amount } => {
            assert_eq!(to_address, "treasury");
            assert_eq!(*amount, 100);
        },
        other => panic!("expected payout to the override, got {:?}", other),
    }
}

#[test]
fn bid_hooks_fire_on_accepted_bid() {
    let mut state = fresh_market();
    marketplace::sudo::sudo_add_bid_hook(&mut state, "watcher".to_string()).unwrap();
    list_auction(&mut state, "coll", "b", 10);
    let res = execute_set_bid(
        &mut state,
        &env_at(1000),
        &info("bidder1", vec![coin(50)]),
        BidInfo { collection: "coll".to_string(), token_id: "b".to_string() },
        &None,
    )
    .unwrap();
    assert_eq!(res.messages.len(), 1);
    match &res.messages[0] {
        OutMsg::BidHook { target, bid, .. } => {
            assert_eq!(target, "watcher");
            assert_eq!(bid.price, 50);
            assert_eq!(bid.bidder, "bidder1".to_string());
        },
        other => panic!("expected bid hook, got {:?}", other),
    }
}

#[test]
fn dispatcher_routes_operations() {
    let mut state = fresh_market();
    execute(
        &mut state,
        &env_at(1000),
        &info("collection", vec![coin(5)]),
        ExecuteMsg::ReceiveNft {
            sender: "seller".to_string(),
            token_id: "a".to_string(),
            ask: fixed_ask_info("coll", "a", 100),
        },
        &None,
    )
    .unwrap();
    assert_eq!(state.ask_count().count, 1);
    execute(
        &mut state,
        &env_at(1000),
        &info("buyer", vec![coin(100)]),
        ExecuteMsg::SetBid { collection: "coll".to_string(), token_id: "a".to_string() },
        &None,
    )
    .unwrap();
    assert_eq!(state.ask_count().count, 0);
}
