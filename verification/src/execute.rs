//! The operation handlers: listing, withdrawal, price update, bidding, and
//! post-expiry auction settlement.
//!
//! Every handler takes the market state together with plain values describing
//! the inbound message, validates, mutates the state, and returns the
//! outbound instructions the host must execute atomically and in order. Any
//! error is raised before the first mutation, so a rejected operation leaves
//! no trace.

use vstd::prelude::*;
use cosmwasm_std::Uint128;
use crate::error::{ContractError, PaymentError};
use crate::helpers::{ExpiryRange, ExpiryRangeError};
use crate::msg::{ExecuteMsg, HookAction};
use crate::state::{
    Ask, AskV, Bid, BidV, Coin, CoinV, EnvInfo, EnvV, InfoV, MarketState, MessageInfo, ParamsV,
    SaleType, StateV, TokenId,
};

verus! {

/// The single denomination every price, fee and bid is paid in.
pub open spec fn spec_native_denom() -> Seq<char> {
    "uheart"@
}

/// The single accepted denomination, as an owned string.
pub fn native_denom() -> (r: String)
    ensures
        r@ == spec_native_denom(),
{
    "uheart".to_owned()
}

/// Royalty rates are fixed-point fractions with this denominator.
pub const RATE_DENOM: u128 = 1_000_000_000_000_000_000;

/// Royalty terms of a collection, as reported by the asset contract:
/// the recipient address and the rate, a fraction of [`RATE_DENOM`].
#[derive(Debug)]
pub struct RoyaltyInfo {
    pub address: String,
    pub rate: u128,
}

/// Mathematical value of a [`RoyaltyInfo`].
pub ghost struct RoyaltyV {
    pub address: Seq<char>,
    pub rate: u128,
}

impl View for RoyaltyInfo {
    type V = RoyaltyV;

    open spec fn view(&self) -> RoyaltyV {
        RoyaltyV { address: self.address@, rate: self.rate }
    }
}

/// The listing terms decoded from an asset-deposit notification.
#[derive(Debug)]
pub struct AskInfo {
    pub sale_type: SaleType,
    pub collection: String,
    pub token_id: TokenId,
    pub price: Coin,
    pub funds_recipient: Option<String>,
    pub expires: u64,
}

/// Mathematical value of an [`AskInfo`].
pub ghost struct AskInfoV {
    pub sale_type: SaleType,
    pub collection: Seq<char>,
    pub token_id: Seq<char>,
    pub price: CoinV,
    pub funds_recipient: Option<Seq<char>>,
    pub expires: u64,
}

impl View for AskInfo {
    type V = AskInfoV;

    open spec fn view(&self) -> AskInfoV {
        AskInfoV {
            sale_type: self.sale_type,
            collection: self.collection@,
            token_id: self.token_id@,
            price: self.price@,
            funds_recipient: match self.funds_recipient {
                Some(ref r) => Some(r@),
                None => None,
            },
            expires: self.expires,
        }
    }
}

/// The key named by a bid message.
#[derive(Debug)]
pub struct BidInfo {
    pub collection: String,
    pub token_id: TokenId,
}

/// The canonical record of one finalized sale.
#[derive(Debug)]
pub struct SaleRecord {
    pub collection: String,
    pub token_id: TokenId,
    pub seller: String,
    pub buyer: String,
    pub price: u128,
}

/// Mathematical value of a [`SaleRecord`].
pub ghost struct SaleRecordV {
    pub collection: Seq<char>,
    pub token_id: Seq<char>,
    pub seller: Seq<char>,
    pub buyer: Seq<char>,
    pub price: u128,
}

impl View for SaleRecord {
    type V = SaleRecordV;

    open spec fn view(&self) -> SaleRecordV {
        SaleRecordV {
            collection: self.collection@,
            token_id: self.token_id@,
            seller: self.seller@,
            buyer: self.buyer@,
            price: self.price,
        }
    }
}

/// One outbound instruction queued for the host. The host executes the queue
/// in append order; a failing `BankSend` or `TransferNft` aborts the whole
/// operation, while the hook calls are dispatched so that a failure is
/// reported without reverting anything.
#[derive(Debug)]
pub enum OutMsg {
    /// Pay `amount` of the native denomination to `to_address`.
    BankSend { to_address: String, amount: u128 },
    /// Move the asset out of escrow to `recipient`.
    TransferNft { collection: String, token_id: TokenId, recipient: String },
    /// Best-effort notification to an ask-hook subscriber.
    AskHook { target: String, action: HookAction, ask: Ask },
    /// Best-effort notification to a bid-hook subscriber.
    BidHook { target: String, action: HookAction, bid: Bid },
    /// Best-effort notification to a sale-hook subscriber.
    SaleHook {
        target: String,
        collection: String,
        token_id: TokenId,
        price: u128,
        seller: String,
        buyer: String,
    },
}

/// Mathematical value of an [`OutMsg`].
pub ghost enum OutMsgV {
    BankSend { to_address: Seq<char>, amount: u128 },
    TransferNft { collection: Seq<char>, token_id: Seq<char>, recipient: Seq<char> },
    AskHook { target: Seq<char>, action: HookAction, ask: AskV },
    BidHook { target: Seq<char>, action: HookAction, bid: BidV },
    SaleHook {
        target: Seq<char>,
        collection: Seq<char>,
        token_id: Seq<char>,
        price: u128,
        seller: Seq<char>,
        buyer: Seq<char>,
    },
}

impl View for OutMsg {
    type V = OutMsgV;

    open spec fn view(&self) -> OutMsgV {
        match self {
            OutMsg::BankSend { to_address, amount } => OutMsgV::BankSend {
                to_address: to_address@,
                amount: *amount,
            },
            OutMsg::TransferNft { collection, token_id, recipient } => OutMsgV::TransferNft {
                collection: collection@,
                token_id: token_id@,
                recipient: recipient@,
            },
            OutMsg::AskHook { target, action, ask } => OutMsgV::AskHook {
                target: target@,
                action: *action,
                ask: ask@,
            },
            OutMsg::BidHook { target, action, bid } => OutMsgV::BidHook {
                target: target@,
                action: *action,
                bid: bid@,
            },
            OutMsg::SaleHook { target, collection, token_id, price, seller, buyer } => (
            OutMsgV::SaleHook {
                target: target@,
                collection: collection@,
                token_id: token_id@,
                price: *price,
                seller: seller@,
                buyer: buyer@,
            }),
        }
    }
}

/// The outcome of one operation: the ordered instruction queue and the
/// canonical records of any sale it finalized.
#[derive(Debug)]
pub struct Response {
    pub messages: Vec<OutMsg>,
    pub sales: Vec<SaleRecord>,
}

/// Mathematical value of a [`Response`].
pub ghost struct ResponseV {
    pub messages: Seq<OutMsgV>,
    pub sales: Seq<SaleRecordV>,
}

impl View for Response {
    type V = ResponseV;

    open spec fn view(&self) -> ResponseV {
        ResponseV {
            messages: self.messages@.map_values(|m: OutMsg| m@),
            sales: self.sales@.map_values(|s: SaleRecord| s@),
        }
    }
}

impl Response {
    /// An empty outcome.
    pub fn new() -> (r: Response)
        ensures
            r@.messages == Seq::<OutMsgV>::empty(),
            r@.sales == Seq::<SaleRecordV>::empty(),
    {
        let r = Response { messages: Vec::new(), sales: Vec::new() };
        proof {
            assert(r@.messages =~= Seq::<OutMsgV>::empty());
            assert(r@.sales =~= Seq::<SaleRecordV>::empty());
        }
        r
    }
}

// ---------------------------------------------------------------------------
// Attached-payment introspection
// ---------------------------------------------------------------------------

/// What inspecting an optional attached payment yields: the amount of `denom`
/// attached, zero when nothing was attached.
pub open spec fn spec_may_pay(funds: Seq<CoinV>, denom: Seq<char>) -> Result<u128, PaymentError> {
    if funds.len() == 0 {
        Ok(0)
    } else if funds.len() == 1 && funds[0].denom == denom {
        Ok(funds[0].amount)
    } else {
        Err(PaymentError::ExtraDenom)
    }
}

/// `spec_may_pay` is only defined where some attached coin differs in
/// denomination whenever more than one coin is attached.
pub open spec fn may_pay_defined(funds: Seq<CoinV>, denom: Seq<char>) -> bool {
    funds.len() >= 2 ==> exists|i: int| 0 <= i < funds.len() && (#[trigger] funds[i]).denom != denom
}

/// Returns the amount of `denom` attached to the message, zero when no
/// payment is attached; rejects any other attachment.
pub fn may_pay(info: &MessageInfo, denom: &String) -> (r: Result<u128, PaymentError>)
    requires
        may_pay_defined(info@.funds, denom@),
    ensures
        r == spec_may_pay(info@.funds, denom@),
{
    if info.funds.is_empty() {
        Ok(0)
    } else if info.funds.len() == 1 && info.funds[0].denom == *denom {
        assert(info@.funds[0] == info.funds@[0]@);
        Ok(info.funds[0].amount)
    } else {
        assert(info@.funds.len() == info.funds@.len());
        if info.funds.len() == 1 {
            assert(info@.funds[0] == info.funds@[0]@);
        }
        Err(PaymentError::ExtraDenom)
    }
}

/// What inspecting a mandatory attached payment yields.
pub open spec fn spec_must_pay(funds: Seq<CoinV>, denom: Seq<char>) -> Result<u128, PaymentError> {
    if funds.len() == 0 {
        Err(PaymentError::NoFunds)
    } else if funds.len() > 1 {
        Err(PaymentError::MultipleDenoms)
    } else if funds[0].amount == 0 {
        Err(PaymentError::NoFunds)
    } else if funds[0].denom != denom {
        Err(PaymentError::MissingDenom)
    } else {
        Ok(funds[0].amount)
    }
}

/// Returns the positive amount of `denom` that must be attached as exactly
/// one coin; rejects every other attachment.
pub fn must_pay(info: &MessageInfo, denom: &String) -> (r: Result<u128, PaymentError>)
    ensures
        r == spec_must_pay(info@.funds, denom@),
{
    if info.funds.is_empty() {
        Err(PaymentError::NoFunds)
    } else if info.funds.len() > 1 {
        Err(PaymentError::MultipleDenoms)
    } else {
        assert(info@.funds[0] == info.funds@[0]@);
        if info.funds[0].amount == 0 {
            Err(PaymentError::NoFunds)
        } else if !(info.funds[0].denom == *denom) {
            Err(PaymentError::MissingDenom)
        } else {
            Ok(info.funds[0].amount)
        }
    }
}

/// Whether a message with no payment attached passes.
pub open spec fn spec_nonpayable(funds: Seq<CoinV>) -> Result<(), PaymentError> {
    if funds.len() == 0 {
        Ok(())
    } else {
        Err(PaymentError::NonPayable)
    }
}

/// Rejects any attached payment.
pub fn nonpayable(info: &MessageInfo) -> (r: Result<(), PaymentError>)
    ensures
        r == spec_nonpayable(info@.funds),
{
    if info.funds.is_empty() {
        Ok(())
    } else {
        Err(PaymentError::NonPayable)
    }
}

// ---------------------------------------------------------------------------
// Price validation and authorization
// ---------------------------------------------------------------------------

/// The error a proposed price is rejected with, if any: it must be a strictly
/// positive amount of the native denomination, at or above the floor.
pub open spec fn spec_price_validate(params: ParamsV, price: CoinV) -> Option<ContractError> {
    if price.amount == 0 || price.denom != spec_native_denom() {
        Some(ContractError::InvalidPrice)
    } else if price.amount < params.min_price {
        Some(ContractError::PriceTooSmall(price.amount))
    } else {
        None
    }
}

/// Validates a proposed listing price against the configured floor.
pub fn price_validate(state: &MarketState, price: &Coin) -> (r: Result<(), ContractError>)
    ensures
        r == (match spec_price_validate(state@.params, price@) {
            Some(e) => Err::<(), ContractError>(e),
            None => Ok::<(), ContractError>(()),
        }),
{
    let nd = native_denom();
    if price.amount == 0 || !(price.denom == nd) {
        return Err(ContractError::InvalidPrice);
    }
    if price.amount < state.params.min_price {
        return Err(ContractError::PriceTooSmall(price.amount));
    }
    Ok(())
}

/// Only the owner (seller) of a record may operate on it.
pub fn only_owner_nft(info: &MessageInfo, owner: &String) -> (r: Result<(), ContractError>)
    ensures
        r == (if owner@ == info@.sender {
            Ok::<(), ContractError>(())
        } else {
            Err::<(), ContractError>(ContractError::UnauthorizedOwner)
        }),
{
    if !(*owner == info.sender) {
        return Err(ContractError::UnauthorizedOwner);
    }
    Ok(())
}

/// Whether the sender is on the configured operator allow-list.
pub open spec fn spec_is_operator(params: ParamsV, sender: Seq<char>) -> bool {
    exists|i: int| 0 <= i < params.operators.len() && params.operators[i] == sender
}

/// Admits only configured operators; returns the caller's address.
pub fn only_operator(state: &MarketState, info: &MessageInfo) -> (r: Result<String, ContractError>)
    ensures
        match r {
            Ok(s) => spec_is_operator(state@.params, info@.sender) && s@ == info@.sender,
            Err(e) => !spec_is_operator(state@.params, info@.sender) && e
                == ContractError::UnauthorizedOperator,
        },
{
    let n = state.params.operators.len();
    let mut j: usize = 0;
    while j < n
        invariant
            j <= n,
            n == state.params.operators.len(),
            state@.params.operators.len() == n,
            forall|i: int| 0 <= i < j ==> #[trigger] state@.params.operators[i] != info@.sender,
        decreases n - j,
    {
        if state.params.operators[j] == info.sender {
            assert(state@.params.operators[j as int] == state.params.operators@[j as int]@);
            return Ok(info.sender.clone());
        }
        assert(state@.params.operators[j as int] == state.params.operators@[j as int]@);
        j += 1;
    }
    Err(ContractError::UnauthorizedOperator)
}

// ---------------------------------------------------------------------------
// The royalty split
// ---------------------------------------------------------------------------

/// The royalty owed on `payment` at `rate` (a fraction of `RATE_DENOM`),
/// floored; as an unbounded integer, since a misconfigured rate can price it
/// beyond any machine bound.
pub open spec fn spec_royalty_amount(payment: u128, rate: u128) -> int {
    (payment * rate) / (RATE_DENOM as int)
}

/// Relies on `cosmwasm_std::Uint128::checked_multiply_ratio`: the result is
/// `amount * numerator / denominator`, computed at full width and floored,
/// or an error exactly when the floored quotient exceeds `u128::MAX`.
#[verifier::external_body]
fn mul_ratio(amount: u128, numerator: u128, denominator: u128) -> (r: Option<u128>)
    requires
        denominator != 0,
    ensures
        r == (if (amount * numerator) / (denominator as int) <= u128::MAX {
            Some(((amount * numerator) / (denominator as int)) as u128)
        } else {
            None::<u128>
        }),
{
    match Uint128::new(amount).checked_multiply_ratio(numerator, denominator) {
        Ok(v) => Some(v.u128()),
        Err(_) => None,
    }
}

/// The error the payout step is rejected with, if any: a computed royalty
/// above the payment itself is a fatal configuration error.
pub open spec fn spec_payout_err(payment: u128, royalty: Option<RoyaltyV>) -> Option<ContractError> {
    match royalty {
        Some(roy) => if spec_royalty_amount(payment, roy.rate) > payment {
            Some(ContractError::FeesExceedPayment)
        } else {
            None
        },
        None => None,
    }
}

/// The payment instructions a successful payout appends: the royalty share
/// to the royalty recipient, and all the rest to the payment recipient. The
/// two amounts always sum to the payment exactly; without a royalty the
/// recipient is paid in full.
pub open spec fn spec_payout_msgs(
    payment: u128,
    recipient: Seq<char>,
    royalty: Option<RoyaltyV>,
) -> Seq<OutMsgV> {
    match royalty {
        Some(roy) => seq![
            OutMsgV::BankSend {
                to_address: roy.address,
                amount: spec_royalty_amount(payment, roy.rate) as u128,
            },
            OutMsgV::BankSend {
                to_address: recipient,
                amount: (payment - spec_royalty_amount(payment, roy.rate)) as u128,
            },
        ],
        None => seq![OutMsgV::BankSend { to_address: recipient, amount: payment }],
    }
}

/// Pays out a completed sale: the royalty share, if configured, to the
/// royalty recipient, and the remainder (including any truncation remainder)
/// to the payment recipient.
pub fn payout(
    payment: u128,
    payment_recipient: &String,
    royalty: &Option<RoyaltyInfo>,
    res: &mut Response,
) -> (r: Result<(), ContractError>)
    ensures
        match spec_payout_err(payment, royalty_view_ref(royalty)) {
            Some(e) => r == Err::<(), ContractError>(e) && *final(res) == *old(res),
            None => {
                &&& r == Ok::<(), ContractError>(())
                &&& final(res)@.messages == old(res)@.messages + spec_payout_msgs(
                    payment,
                    payment_recipient@,
                    royalty_view_ref(royalty),
                )
                &&& final(res)@.sales == old(res)@.sales
            },
        },
{
    match royalty {
        Some(roy) => {
            let amount = mul_ratio(payment, roy.rate, RATE_DENOM);
            match amount {
                Some(a) => {
                    if a > payment {
                        return Err(ContractError::FeesExceedPayment);
                    }
                    let m1 = OutMsg::BankSend { to_address: roy.address.clone(), amount: a };
                    let m2 = OutMsg::BankSend {
                        to_address: payment_recipient.clone(),
                        amount: payment - a,
                    };
                    let ghost pre = res.messages@;
                    res.messages.push(m1);
                    res.messages.push(m2);
                    proof {
                        assert(res.messages@.map_values(|m: OutMsg| m@) =~= pre.map_values(
                            |m: OutMsg| m@,
                        ) + spec_payout_msgs(payment, payment_recipient@, royalty_view_ref(royalty)));
                    }
                    Ok(())
                },
                None => {
                    // The floored quotient exceeds every representable amount,
                    // so it certainly exceeds the payment.
                    Err(ContractError::FeesExceedPayment)
                },
            }
        },
        None => {
            let m = OutMsg::BankSend { to_address: payment_recipient.clone(), amount: payment };
            let ghost pre = res.messages@;
            res.messages.push(m);
            proof {
                assert(res.messages@.map_values(|m: OutMsg| m@) =~= pre.map_values(|m: OutMsg| m@)
                    + spec_payout_msgs(payment, payment_recipient@, royalty_view_ref(royalty)));
            }
            Ok(())
        },
    }
}

/// The view of an optional royalty configuration, taken by reference.
pub open spec fn royalty_view_ref(r: &Option<RoyaltyInfo>) -> Option<RoyaltyV> {
    match r {
        Some(ref roy) => Some(roy@),
        None => None,
    }
}

/// Payout conservation: the amounts a successful payout pays sum to the
/// payment exactly; without a royalty the single transfer pays it in full.
pub proof fn lemma_payout_conservation(payment: u128, recipient: Seq<char>, royalty: Option<RoyaltyV>)
    requires
        spec_payout_err(payment, royalty) is None,
    ensures
        payout_total(spec_payout_msgs(payment, recipient, royalty)) == payment,
        royalty is None ==> spec_payout_msgs(payment, recipient, royalty) =~= seq![
            OutMsgV::BankSend { to_address: recipient, amount: payment },
        ],
{
    let msgs = spec_payout_msgs(payment, recipient, royalty);
    match royalty {
        Some(roy) => {
            assert(payout_total(msgs) == payout_total(msgs.drop_last()) + (payment
                - spec_royalty_amount(payment, roy.rate)));
            assert(payout_total(msgs.drop_last()) == payout_total(msgs.drop_last().drop_last())
                + spec_royalty_amount(payment, roy.rate));
            assert(msgs.drop_last().drop_last() =~= Seq::<OutMsgV>::empty());
        },
        None => {
            assert(payout_total(msgs) == payout_total(msgs.drop_last()) + payment);
            assert(msgs.drop_last() =~= Seq::<OutMsgV>::empty());
        },
    }
}

/// Total amount paid by the `BankSend` instructions of a queue.
pub open spec fn payout_total(msgs: Seq<OutMsgV>) -> int
    decreases msgs.len(),
{
    if msgs.len() == 0 {
        0
    } else {
        payout_total(msgs.drop_last()) + (match msgs.last() {
            OutMsgV::BankSend { amount, .. } => amount as int,
            _ => 0,
        })
    }
}

// ---------------------------------------------------------------------------
// Hook fan-out
// ---------------------------------------------------------------------------

/// One ask-hook notification per subscriber, in subscriber order.
pub open spec fn spec_ask_hook_msgs(hooks: Seq<Seq<char>>, ask: AskV, action: HookAction) -> Seq<
    OutMsgV,
> {
    hooks.map_values(|h: Seq<char>| OutMsgV::AskHook { target: h, action, ask })
}

/// Builds the ask-hook notifications for every subscriber.
pub fn prepare_ask_hook(hooks: &Vec<String>, ask: &Ask, action: HookAction) -> (r: Vec<OutMsg>)
    ensures
        r@.map_values(|m: OutMsg| m@) == spec_ask_hook_msgs(
            hooks@.map_values(|s: String| s@),
            ask@,
            action,
        ),
{
    let ghost target_seq = spec_ask_hook_msgs(hooks@.map_values(|s: String| s@), ask@, action);
    let mut out: Vec<OutMsg> = Vec::new();
    let n = hooks.len();
    let mut j: usize = 0;
    while j < n
        invariant
            j <= n,
            n == hooks.len(),
            out@.len() == j,
            target_seq == spec_ask_hook_msgs(hooks@.map_values(|s: String| s@), ask@, action),
            target_seq.len() == n,
            forall|i: int| 0 <= i < j ==> (#[trigger] out@[i])@ == target_seq[i],
        decreases n - j,
    {
        out.push(OutMsg::AskHook { target: hooks[j].clone(), action, ask: ask.clone() });
        j += 1;
    }
    proof {
        assert(out@.map_values(|m: OutMsg| m@) =~= target_seq);
    }
    out
}

/// One bid-hook notification per subscriber, in subscriber order.
pub open spec fn spec_bid_hook_msgs(hooks: Seq<Seq<char>>, bid: BidV, action: HookAction) -> Seq<
    OutMsgV,
> {
    hooks.map_values(|h: Seq<char>| OutMsgV::BidHook { target: h, action, bid })
}

/// Builds the bid-hook notifications for every subscriber.
pub fn prepare_bid_hook(hooks: &Vec<String>, bid: &Bid, action: HookAction) -> (r: Vec<OutMsg>)
    ensures
        r@.map_values(|m: OutMsg| m@) == spec_bid_hook_msgs(
            hooks@.map_values(|s: String| s@),
            bid@,
            action,
        ),
{
    let ghost target_seq = spec_bid_hook_msgs(hooks@.map_values(|s: String| s@), bid@, action);
    let mut out: Vec<OutMsg> = Vec::new();
    let n = hooks.len();
    let mut j: usize = 0;
    while j < n
        invariant
            j <= n,
            n == hooks.len(),
            out@.len() == j,
            target_seq == spec_bid_hook_msgs(hooks@.map_values(|s: String| s@), bid@, action),
            target_seq.len() == n,
            forall|i: int| 0 <= i < j ==> (#[trigger] out@[i])@ == target_seq[i],
        decreases n - j,
    {
        out.push(OutMsg::BidHook { target: hooks[j].clone(), action, bid: bid.clone() });
        j += 1;
    }
    proof {
        assert(out@.map_values(|m: OutMsg| m@) =~= target_seq);
    }
    out
}

/// One sale-hook notification per subscriber, in subscriber order. The hook
/// reports the ask's list price; the canonical sale record carries the
/// amount actually paid.
pub open spec fn spec_sale_hook_msgs(hooks: Seq<Seq<char>>, ask: AskV, buyer: Seq<char>) -> Seq<
    OutMsgV,
> {
    hooks.map_values(
        |h: Seq<char>| OutMsgV::SaleHook {
            target: h,
            collection: ask.collection,
            token_id: ask.token_id,
            price: ask.price,
            seller: ask.seller,
            buyer,
        },
    )
}

/// Builds the sale-hook notifications for every subscriber.
pub fn prepare_sale_hook(hooks: &Vec<String>, ask: &Ask, buyer: &String) -> (r: Vec<OutMsg>)
    ensures
        r@.map_values(|m: OutMsg| m@) == spec_sale_hook_msgs(
            hooks@.map_values(|s: String| s@),
            ask@,
            buyer@,
        ),
{
    let ghost target_seq = spec_sale_hook_msgs(hooks@.map_values(|s: String| s@), ask@, buyer@);
    let mut out: Vec<OutMsg> = Vec::new();
    let n = hooks.len();
    let mut j: usize = 0;
    while j < n
        invariant
            j <= n,
            n == hooks.len(),
            out@.len() == j,
            target_seq == spec_sale_hook_msgs(hooks@.map_values(|s: String| s@), ask@, buyer@),
            target_seq.len() == n,
            forall|i: int| 0 <= i < j ==> (#[trigger] out@[i])@ == target_seq[i],
        decreases n - j,
    {
        out.push(
            OutMsg::SaleHook {
                target: hooks[j].clone(),
                collection: ask.collection.clone(),
                token_id: ask.token_id.clone(),
                price: ask.price,
                seller: ask.seller.clone(),
                buyer: buyer.clone(),
            },
        );
        j += 1;
    }
    proof {
        assert(out@.map_values(|m: OutMsg| m@) =~= target_seq);
    }
    out
}

// ---------------------------------------------------------------------------
// Settlement
// ---------------------------------------------------------------------------

/// Whom the sale proceeds go to: the configured override, else the seller.
pub open spec fn spec_recipient(ask: AskV) -> Seq<char> {
    match ask.funds_recipient {
        Some(r) => r,
        None => ask.seller,
    }
}

/// The instructions a successful settlement appends, in order: the payout
/// split, the asset transfer to the buyer, then the sale-hook fan-out.
pub open spec fn spec_finalize_msgs(
    hooks: Seq<Seq<char>>,
    ask: AskV,
    price: u128,
    buyer: Seq<char>,
    royalty: Option<RoyaltyV>,
) -> Seq<OutMsgV> {
    spec_payout_msgs(price, spec_recipient(ask), royalty) + seq![
        OutMsgV::TransferNft {
            collection: ask.collection,
            token_id: ask.token_id,
            recipient: buyer,
        },
    ] + spec_sale_hook_msgs(hooks, ask, buyer)
}

/// The canonical record of the sale a settlement concludes.
pub open spec fn spec_sale_record(ask: AskV, price: u128, buyer: Seq<char>) -> SaleRecordV {
    SaleRecordV {
        collection: ask.collection,
        token_id: ask.token_id,
        seller: ask.seller,
        buyer,
        price,
    }
}

/// Settles a sale at `price` to `buyer`: pays out the proceeds (royalty
/// split included), transfers the asset, notifies every sale subscriber, and
/// emits the canonical sale record.
pub fn finalize_sale(
    sale_hooks: &Vec<String>,
    ask: &Ask,
    price: u128,
    buyer: &String,
    royalty: &Option<RoyaltyInfo>,
    res: &mut Response,
) -> (r: Result<(), ContractError>)
    ensures
        match spec_payout_err(price, royalty_view_ref(royalty)) {
            Some(e) => r == Err::<(), ContractError>(e) && *final(res) == *old(res),
            None => {
                &&& r == Ok::<(), ContractError>(())
                &&& final(res)@.messages == old(res)@.messages + spec_finalize_msgs(
                    sale_hooks@.map_values(|s: String| s@),
                    ask@,
                    price,
                    buyer@,
                    royalty_view_ref(royalty),
                )
                &&& final(res)@.sales == old(res)@.sales + seq![
                    spec_sale_record(ask@, price, buyer@),
                ]
            },
        },
{
    let recipient = match &ask.funds_recipient {
        Some(r) => r.clone(),
        None => ask.seller.clone(),
    };
    match payout(price, &recipient, royalty, res) {
        Err(e) => {
            return Err(e);
        },
        Ok(()) => {},
    }
    let ghost mid = res.messages@;
    let transfer = OutMsg::TransferNft {
        collection: ask.collection.clone(),
        token_id: ask.token_id.clone(),
        recipient: buyer.clone(),
    };
    proof {
        crate::store::lemma_map_values_push(mid, |m: OutMsg| m@, transfer);
    }
    res.messages.push(transfer);
    let ghost mid2 = res.messages@;
    let mut hook_msgs = prepare_sale_hook(sale_hooks, ask, buyer);
    let ghost hook_exec_views = hook_msgs@;
    res.messages.append(&mut hook_msgs);
    proof {
        crate::store::lemma_map_values_concat(mid2, hook_exec_views, |m: OutMsg| m@);
        assert(res.messages@.map_values(|m: OutMsg| m@) =~= old(res)@.messages
            + spec_finalize_msgs(
            sale_hooks@.map_values(|s: String| s@),
            ask@,
            price,
            buyer@,
            royalty_view_ref(royalty),
        ));
    }
    let ghost pre_sales = res.sales@;
    let record = SaleRecord {
        collection: ask.collection.clone(),
        token_id: ask.token_id.clone(),
        seller: ask.seller.clone(),
        buyer: buyer.clone(),
        price,
    };
    proof {
        crate::store::lemma_map_values_push(pre_sales, |s: SaleRecord| s@, record);
    }
    res.sales.push(record);
    proof {
        assert(res.sales@.map_values(|s: SaleRecord| s@) =~= old(res)@.sales + seq![
            spec_sale_record(ask@, price, buyer@),
        ]);
    }
    Ok(())
}

// ---------------------------------------------------------------------------
// Handlers
// ---------------------------------------------------------------------------

/// The ask stored under the given key, if any.
pub open spec fn spec_ask_of(s: StateV, collection: Seq<char>, token_id: Seq<char>) -> Option<
    AskV,
> {
    if s.asks_map().contains_key((collection, token_id)) {
        Some(s.asks_map()[(collection, token_id)])
    } else {
        None
    }
}

/// The ask a successful listing stores: the given terms, with the high-bid
/// bookkeeping initialized to the sentinel "no bid yet" pair — the market's
/// own address and the configured floor.
pub open spec fn spec_new_ask(s: StateV, env: EnvV, seller: Seq<char>, info: AskInfoV) -> AskV {
    AskV {
        sale_type: info.sale_type,
        collection: info.collection,
        token_id: info.token_id,
        seller,
        price: info.price.amount,
        funds_recipient: info.funds_recipient,
        expires_at: (env.time + info.expires) as u64,
        max_bid: Some(s.params.min_price),
        max_bidder: Some(env.contract),
    }
}

/// The error a listing request is rejected with, if any, in check order:
/// token mismatch, bad price, expiry outside the window, bad or wrong
/// listing fee, and a duplicate key.
pub open spec fn spec_set_ask_err(
    s: StateV,
    env: EnvV,
    info: InfoV,
    rcv_token_id: Seq<char>,
    ask_info: AskInfoV,
) -> Option<ContractError> {
    if rcv_token_id != ask_info.token_id {
        Some(ContractError::IdMismatch)
    } else if spec_price_validate(s.params, ask_info.price) is Some {
        spec_price_validate(s.params, ask_info.price)
    } else if !s.params.ask_expiry.spec_is_valid(ask_info.expires) {
        Some(ContractError::Expiry(ExpiryRangeError::InvalidExpirationRange))
    } else {
        match spec_may_pay(info.funds, spec_native_denom()) {
            Err(pe) => Some(ContractError::Payment(pe)),
            Ok(fee) => if fee != s.params.listing_fee {
                Some(ContractError::InvalidListingFee(fee))
            } else if s.asks_map().contains_key((ask_info.collection, ask_info.token_id)) {
                Some(ContractError::AskAlreadyExists)
            } else {
                None
            },
        }
    }
}

/// Full contract of [`execute_set_ask`]: the state transition and result,
/// determined by the pre-state and the message alone.
pub open spec fn set_ask_post(
    pre: StateV,
    post: StateV,
    env: EnvV,
    info: InfoV,
    rcv_sender: Seq<char>,
    rcv_token_id: Seq<char>,
    ask_info: AskInfoV,
    r: Result<Response, ContractError>,
) -> bool {
    match spec_set_ask_err(pre, env, info, rcv_token_id, ask_info) {
        Some(e) => r == Err::<Response, ContractError>(e) && post == pre,
        None => ({
            let ask = spec_new_ask(pre, env, rcv_sender, ask_info);
            &&& post.asks_map() == pre.asks_map().insert(
                (ask_info.collection, ask_info.token_id),
                ask,
            )
            &&& post.only_asks_changed(pre)
            &&& r matches Ok(resp) && resp@.messages == spec_ask_hook_msgs(
                pre.ask_hooks,
                ask,
                HookAction::Create,
            ) && resp@.sales == Seq::<SaleRecordV>::empty()
        }),
    }
}

/// Lists a deposited asset: validates the terms and the attached listing
/// fee, stores the new ask under its key, and queues one ask-created
/// notification per subscriber.
pub fn execute_set_ask(
    state: &mut MarketState,
    env: &EnvInfo,
    info: &MessageInfo,
    rcv_sender: &String,
    rcv_token_id: &TokenId,
    ask_info: AskInfo,
) -> (r: Result<Response, ContractError>)
    requires
        old(state).wf(),
        may_pay_defined(info@.funds, spec_native_denom()),
        env@.time + ask_info@.expires <= u64::MAX,
    ensures
        final(state).wf(),
        set_ask_post(
            old(state)@,
            final(state)@,
            env@,
            info@,
            rcv_sender@,
            rcv_token_id@,
            ask_info@,
            r,
        ),
{
    if !(*rcv_token_id == ask_info.token_id) {
        return Err(ContractError::IdMismatch);
    }
    match price_validate(state, &ask_info.price) {
        Err(e) => {
            return Err(e);
        },
        Ok(()) => {},
    }
    match state.params.ask_expiry.is_valid(ask_info.expires) {
        Err(e) => {
            return Err(ContractError::Expiry(e));
        },
        Ok(()) => {},
    }
    let nd = native_denom();
    let listing_fee = match may_pay(info, &nd) {
        Err(pe) => {
            return Err(ContractError::Payment(pe));
        },
        Ok(v) => v,
    };
    if listing_fee != state.params.listing_fee {
        return Err(ContractError::InvalidListingFee(listing_fee));
    }
    match state.may_load_ask(&ask_info.collection, &ask_info.token_id) {
        Some(_) => {
            return Err(ContractError::AskAlreadyExists);
        },
        None => {},
    }
    let ask = Ask {
        sale_type: ask_info.sale_type,
        collection: ask_info.collection,
        token_id: ask_info.token_id,
        seller: rcv_sender.clone(),
        price: ask_info.price.amount,
        funds_recipient: ask_info.funds_recipient,
        expires_at: env.time + ask_info.expires,
        max_bid: Some(state.params.min_price),
        max_bidder: Some(env.contract.clone()),
    };
    assert(ask@ == spec_new_ask(old(state)@, env@, rcv_sender@, ask_info@));
    state.save_ask(&ask);
    let hook = prepare_ask_hook(&state.ask_hooks, &ask, HookAction::Create);
    let mut res = Response::new();
    res.messages = hook;
    Ok(res)
}

/// The error a withdrawal request is rejected with, if any, in check order:
/// an attached payment, a missing ask, a caller other than the seller, and
/// an auction listing (which cannot be withdrawn).
pub open spec fn spec_remove_ask_err(
    s: StateV,
    info: InfoV,
    collection: Seq<char>,
    token_id: Seq<char>,
) -> Option<ContractError> {
    match spec_nonpayable(info.funds) {
        Err(pe) => Some(ContractError::Payment(pe)),
        Ok(()) => match spec_ask_of(s, collection, token_id) {
            None => Some(ContractError::AskNotFound),
            Some(ask) => if ask.seller != info.sender {
                Some(ContractError::UnauthorizedOwner)
            } else if ask.sale_type == SaleType::Auction {
                Some(ContractError::AuctionNotRemove)
            } else {
                None
            },
        },
    }
}

/// Full contract of [`execute_remove_ask`]: the state transition and result,
/// determined by the pre-state and the message alone.
pub open spec fn remove_ask_post(
    pre: StateV,
    post: StateV,
    info: InfoV,
    collection: Seq<char>,
    token_id: Seq<char>,
    r: Result<Response, ContractError>,
) -> bool {
    match spec_remove_ask_err(pre, info, collection, token_id) {
        Some(e) => r == Err::<Response, ContractError>(e) && post == pre,
        None => ({
            let ask = spec_ask_of(pre, collection, token_id)->Some_0;
            &&& post.asks_map() == pre.asks_map().remove((collection, token_id))
            &&& post.only_asks_changed(pre)
            &&& r matches Ok(resp) && resp@.messages == seq![
                OutMsgV::TransferNft {
                    collection: ask.collection,
                    token_id: ask.token_id,
                    recipient: ask.seller,
                },
            ] + spec_ask_hook_msgs(pre.ask_hooks, ask, HookAction::Delete) && resp@.sales == Seq::<
                SaleRecordV,
            >::empty()
        }),
    }
}

/// Withdraws a fixed-price listing: deletes the ask, returns the asset to
/// the seller, and queues one ask-deleted notification per subscriber.
pub fn execute_remove_ask(
    state: &mut MarketState,
    info: &MessageInfo,
    collection: &String,
    token_id: &TokenId,
) -> (r: Result<Response, ContractError>)
    requires
        old(state).wf(),
    ensures
        final(state).wf(),
        remove_ask_post(old(state)@, final(state)@, info@, collection@, token_id@, r),
{
    match nonpayable(info) {
        Err(pe) => {
            return Err(ContractError::Payment(pe));
        },
        Ok(()) => {},
    }
    let ask = match state.may_load_ask(collection, token_id) {
        None => {
            return Err(ContractError::AskNotFound);
        },
        Some(a) => a,
    };
    match only_owner_nft(info, &ask.seller) {
        Err(e) => {
            return Err(e);
        },
        Ok(()) => {},
    }
    if matches!(ask.sale_type, SaleType::Auction) {
        return Err(ContractError::AuctionNotRemove);
    }
    state.remove_ask(collection, token_id);
    let mut res = Response::new();
    let ghost pre = res.messages@;
    let transfer = OutMsg::TransferNft {
        collection: ask.collection.clone(),
        token_id: ask.token_id.clone(),
        recipient: ask.seller.clone(),
    };
    proof {
        crate::store::lemma_map_values_push(pre, |m: OutMsg| m@, transfer);
    }
    res.messages.push(transfer);
    let ghost mid = res.messages@;
    let mut hook = prepare_ask_hook(&state.ask_hooks, &ask, HookAction::Delete);
    let ghost hook_views = hook@;
    res.messages.append(&mut hook);
    proof {
        crate::store::lemma_map_values_concat(mid, hook_views, |m: OutMsg| m@);
        assert(res.messages@.map_values(|m: OutMsg| m@) =~= seq![
            OutMsgV::TransferNft {
                collection: ask@.collection,
                token_id: ask@.token_id,
                recipient: ask@.seller,
            },
        ] + spec_ask_hook_msgs(old(state)@.ask_hooks, ask@, HookAction::Delete));
    }
    Ok(res)
}

/// The error a price update is rejected with, if any, in check order: an
/// attached payment, a bad price, a missing ask, a caller other than the
/// seller, and an expired ask.
pub open spec fn spec_update_ask_price_err(
    s: StateV,
    env: EnvV,
    info: InfoV,
    collection: Seq<char>,
    token_id: Seq<char>,
    price: CoinV,
) -> Option<ContractError> {
    match spec_nonpayable(info.funds) {
        Err(pe) => Some(ContractError::Payment(pe)),
        Ok(()) => if spec_price_validate(s.params, price) is Some {
            spec_price_validate(s.params, price)
        } else {
            match spec_ask_of(s, collection, token_id) {
                None => Some(ContractError::AskNotFound),
                Some(ask) => if ask.seller != info.sender {
                    Some(ContractError::UnauthorizedOwner)
                } else if ask.spec_is_expired(env.time) {
                    Some(ContractError::AskExpired)
                } else {
                    None
                },
            }
        },
    }
}

/// The stored ask with its list price replaced.
pub open spec fn spec_repriced_ask(ask: AskV, amount: u128) -> AskV {
    AskV { price: amount, ..ask }
}

/// Full contract of [`execute_update_ask_price`]: the state transition and
/// result, determined by the pre-state and the message alone.
pub open spec fn update_ask_price_post(
    pre: StateV,
    post: StateV,
    env: EnvV,
    info: InfoV,
    collection: Seq<char>,
    token_id: Seq<char>,
    price: CoinV,
    r: Result<Response, ContractError>,
) -> bool {
    match spec_update_ask_price_err(pre, env, info, collection, token_id, price) {
        Some(e) => r == Err::<Response, ContractError>(e) && post == pre,
        None => ({
            let ask = spec_repriced_ask(spec_ask_of(pre, collection, token_id)->Some_0, price.amount);
            &&& post.asks_map() == pre.asks_map().insert((collection, token_id), ask)
            &&& post.only_asks_changed(pre)
            &&& r matches Ok(resp) && resp@.messages == spec_ask_hook_msgs(
                pre.ask_hooks,
                ask,
                HookAction::Update,
            ) && resp@.sales == Seq::<SaleRecordV>::empty()
        }),
    }
}

/// Updates the list price of an unexpired ask (either sale type) and queues
/// one ask-updated notification per subscriber. Expiry and bid state are
/// untouched.
pub fn execute_update_ask_price(
    state: &mut MarketState,
    env: &EnvInfo,
    info: &MessageInfo,
    collection: &String,
    token_id: &TokenId,
    price: &Coin,
) -> (r: Result<Response, ContractError>)
    requires
        old(state).wf(),
    ensures
        final(state).wf(),
        update_ask_price_post(
            old(state)@,
            final(state)@,
            env@,
            info@,
            collection@,
            token_id@,
            price@,
            r,
        ),
{
    match nonpayable(info) {
        Err(pe) => {
            return Err(ContractError::Payment(pe));
        },
        Ok(()) => {},
    }
    match price_validate(state, price) {
        Err(e) => {
            return Err(e);
        },
        Ok(()) => {},
    }
    let mut ask = match state.may_load_ask(collection, token_id) {
        None => {
            return Err(ContractError::AskNotFound);
        },
        Some(a) => a,
    };
    match only_owner_nft(info, &ask.seller) {
        Err(e) => {
            return Err(e);
        },
        Ok(()) => {},
    }
    if ask.is_expired(env.time) {
        return Err(ContractError::AskExpired);
    }
    ask.price = price.amount;
    assert(ask@.collection == collection@ && ask@.token_id == token_id@);
    state.save_ask(&ask);
    let hook = prepare_ask_hook(&state.ask_hooks, &ask, HookAction::Update);
    let mut res = Response::new();
    res.messages = hook;
    Ok(res)
}

/// The stored ask with its high bid overwritten by the new bidder and amount.
pub open spec fn spec_rebid_ask(ask: AskV, bidder: Seq<char>, amount: u128) -> AskV {
    AskV { max_bid: Some(amount), max_bidder: Some(bidder), ..ask }
}

/// The refund owed to the outbid party: the previously escrowed amount goes
/// back to the previous high bidder, unless that is the sentinel (the
/// market's own address), in which case nothing was escrowed.
pub open spec fn spec_refund_msgs(ask: AskV, contract: Seq<char>) -> Seq<OutMsgV> {
    if ask.max_bidder->Some_0 != contract {
        seq![
            OutMsgV::BankSend { to_address: ask.max_bidder->Some_0, amount: ask.max_bid->Some_0 },
        ]
    } else {
        Seq::empty()
    }
}

/// The error a payment (bid or purchase) is rejected with, if any, in check
/// order: bad attachment, below the floor, no ask, expired ask, below the
/// reserve, then per sale type: a fixed-price mismatch or the payout guard,
/// or a broken record or a bid not strictly above the current high bid.
pub open spec fn spec_set_bid_err(
    s: StateV,
    env: EnvV,
    info: InfoV,
    collection: Seq<char>,
    token_id: Seq<char>,
    royalty: Option<RoyaltyV>,
) -> Option<ContractError> {
    match spec_must_pay(info.funds, spec_native_denom()) {
        Err(pe) => Some(ContractError::Payment(pe)),
        Ok(bid_price) => if bid_price < s.params.min_price {
            Some(ContractError::PriceTooSmall(bid_price))
        } else {
            match spec_ask_of(s, collection, token_id) {
                None => Some(ContractError::AskNotFound),
                Some(ask) => if ask.spec_is_expired(env.time) {
                    Some(ContractError::AskExpired)
                } else if ask.sale_type == SaleType::Auction && ask.price > bid_price {
                    Some(ContractError::PriceTooSmall(bid_price))
                } else {
                    match ask.sale_type {
                        SaleType::FixedPrice => if ask.price != bid_price {
                            Some(ContractError::InvalidPrice)
                        } else {
                            spec_payout_err(bid_price, royalty)
                        },
                        SaleType::Auction => if !(ask.max_bid is Some) || !(ask.max_bidder
                            is Some) {
                            Some(ContractError::WrongAskInfo)
                        } else if bid_price <= ask.max_bid->Some_0 {
                            Some(ContractError::InsufficientFundsSend)
                        } else {
                            None
                        },
                    }
                },
            }
        },
    }
}

/// Full contract of [`execute_set_bid`]: the state transition and result,
/// determined by the pre-state, the message, and the royalty terms alone.
pub open spec fn set_bid_post(
    pre: StateV,
    post: StateV,
    env: EnvV,
    info: InfoV,
    collection: Seq<char>,
    token_id: Seq<char>,
    royalty: Option<RoyaltyV>,
    r: Result<Response, ContractError>,
) -> bool {
    match spec_set_bid_err(pre, env, info, collection, token_id, royalty) {
        Some(e) => r == Err::<Response, ContractError>(e) && post == pre,
        None => ({
            let bid_price = spec_must_pay(info.funds, spec_native_denom())->Ok_0;
            let ask = spec_ask_of(pre, collection, token_id)->Some_0;
            match ask.sale_type {
                SaleType::FixedPrice => {
                    &&& post.asks_map() == pre.asks_map().remove((collection, token_id))
                    &&& post.only_asks_changed(pre)
                    &&& r matches Ok(resp) && resp@.messages == spec_finalize_msgs(
                        pre.sale_hooks,
                        ask,
                        bid_price,
                        info.sender,
                        royalty,
                    ) && resp@.sales == seq![spec_sale_record(ask, bid_price, info.sender)]
                },
                SaleType::Auction => ({
                    let ask2 = spec_rebid_ask(ask, info.sender, bid_price);
                    let bid = BidV { collection, token_id, bidder: info.sender, price: bid_price };
                    &&& post.asks_map() == pre.asks_map().insert((collection, token_id), ask2)
                    &&& post.bids_map() == pre.bids_map().insert(
                        (collection, token_id, info.sender),
                        bid,
                    )
                    &&& post.only_records_changed(pre)
                    &&& r matches Ok(resp) && resp@.messages == spec_refund_msgs(ask, env.contract)
                        + spec_bid_hook_msgs(pre.bid_hooks, bid, HookAction::Create) && resp@.sales
                        == Seq::<SaleRecordV>::empty()
                }),
            }
        }),
    }
}

/// Places the attached payment on an ask.
///
/// On a fixed-price ask a payment equal to the list price settles at once:
/// the sale is finalized and the ask deleted, with no bid record. On an
/// auction ask a payment strictly above the current high bid is accepted:
/// the outbid party is refunded, the ask's high bid is overwritten, the
/// audit bid record is written, and one bid-created notification is queued
/// per subscriber.
pub fn execute_set_bid(
    state: &mut MarketState,
    env: &EnvInfo,
    info: &MessageInfo,
    bid_info: BidInfo,
    royalty: &Option<RoyaltyInfo>,
) -> (r: Result<Response, ContractError>)
    requires
        old(state).wf(),
    ensures
        final(state).wf(),
        set_bid_post(
            old(state)@,
            final(state)@,
            env@,
            info@,
            bid_info.collection@,
            bid_info.token_id@,
            royalty_view_ref(royalty),
            r,
        ),
{
    let collection = bid_info.collection;
    let token_id = bid_info.token_id;
    let nd = native_denom();
    let bid_price = match must_pay(info, &nd) {
        Err(pe) => {
            return Err(ContractError::Payment(pe));
        },
        Ok(v) => v,
    };
    if bid_price < state.params.min_price {
        return Err(ContractError::PriceTooSmall(bid_price));
    }
    let mut ask = match state.may_load_ask(&collection, &token_id) {
        None => {
            return Err(ContractError::AskNotFound);
        },
        Some(a) => a,
    };
    let ghost ask0 = ask@;
    if ask.is_expired(env.time) {
        return Err(ContractError::AskExpired);
    }
    if matches!(ask.sale_type, SaleType::Auction) && ask.price > bid_price {
        return Err(ContractError::PriceTooSmall(bid_price));
    }
    match ask.sale_type {
        SaleType::FixedPrice => {
            if ask.price != bid_price {
                return Err(ContractError::InvalidPrice);
            }
            let mut res = Response::new();
            match finalize_sale(&state.sale_hooks, &ask, bid_price, &info.sender, royalty, &mut res)
                {
                Err(e) => {
                    return Err(e);
                },
                Ok(()) => {},
            }
            state.remove_ask(&collection, &token_id);
            Ok(res)
        },
        SaleType::Auction => {
            if ask.max_bid.is_none() || ask.max_bidder.is_none() {
                return Err(ContractError::WrongAskInfo);
            }
            let max_bid = ask.max_bid.unwrap();
            if bid_price <= max_bid {
                return Err(ContractError::InsufficientFundsSend);
            }
            let prev_bidder = match &ask.max_bidder {
                Some(p) => p.clone(),
                None => {
                    assert(false);
                    return Err(ContractError::WrongAskInfo);
                },
            };
            let mut res = Response::new();
            if !(prev_bidder == env.contract) {
                let refund = OutMsg::BankSend { to_address: prev_bidder, amount: max_bid };
                proof {
                    crate::store::lemma_map_values_push(res.messages@, |m: OutMsg| m@, refund);
                }
                res.messages.push(refund);
            }
            assert(res@.messages =~= spec_refund_msgs(ask0, env@.contract));
            ask.max_bid = Some(bid_price);
            ask.max_bidder = Some(info.sender.clone());
            assert(ask@ == spec_rebid_ask(ask0, info@.sender, bid_price));
            state.save_ask(&ask);
            let bid = Bid::new(
                collection.clone(),
                token_id.clone(),
                info.sender.clone(),
                bid_price,
            );
            state.save_bid(&bid);
            let ghost mid = res.messages@;
            let mut hook = prepare_bid_hook(&state.bid_hooks, &bid, HookAction::Create);
            let ghost hook_views = hook@;
            res.messages.append(&mut hook);
            proof {
                crate::store::lemma_map_values_concat(mid, hook_views, |m: OutMsg| m@);
                assert(res.messages@.map_values(|m: OutMsg| m@) =~= spec_refund_msgs(
                    ask0,
                    env@.contract,
                ) + spec_bid_hook_msgs(old(state)@.bid_hooks, bid@, HookAction::Create));
            }
            Ok(res)
        },
    }
}

/// The error a settlement request is rejected with, if any, in check order:
/// an attached payment, a missing ask, a caller other than the seller, an
/// auction still running, and the payout guard when a real bid is settled.
pub open spec fn spec_accept_bid_err(
    s: StateV,
    env: EnvV,
    info: InfoV,
    collection: Seq<char>,
    token_id: Seq<char>,
    royalty: Option<RoyaltyV>,
) -> Option<ContractError> {
    match spec_nonpayable(info.funds) {
        Err(pe) => Some(ContractError::Payment(pe)),
        Ok(()) => match spec_ask_of(s, collection, token_id) {
            None => Some(ContractError::AskNotFound),
            Some(ask) => if ask.seller != info.sender {
                Some(ContractError::UnauthorizedOwner)
            } else if !ask.spec_is_expired(env.time) {
                Some(ContractError::AuctionNotEnded)
            } else if ask.max_bidder->Some_0 != env.contract {
                spec_payout_err(ask.max_bid->Some_0, royalty)
            } else {
                None
            },
        },
    }
}

/// Full contract of [`execute_accept_bid`]: the state transition and result,
/// determined by the pre-state, the message, and the royalty terms alone.
pub open spec fn accept_bid_post(
    pre: StateV,
    post: StateV,
    env: EnvV,
    info: InfoV,
    collection: Seq<char>,
    token_id: Seq<char>,
    royalty: Option<RoyaltyV>,
    r: Result<Response, ContractError>,
) -> bool {
    match spec_accept_bid_err(pre, env, info, collection, token_id, royalty) {
        Some(e) => r == Err::<Response, ContractError>(e) && post == pre,
        None => ({
            let ask = spec_ask_of(pre, collection, token_id)->Some_0;
            &&& post.asks_map() == pre.asks_map().remove((collection, token_id))
            &&& post.only_asks_changed(pre)
            &&& (if ask.max_bidder->Some_0 != env.contract {
                r matches Ok(resp) && resp@.messages == spec_finalize_msgs(
                    pre.sale_hooks,
                    ask,
                    ask.max_bid->Some_0,
                    ask.max_bidder->Some_0,
                    royalty,
                ) && resp@.sales == seq![
                    spec_sale_record(ask, ask.max_bid->Some_0, ask.max_bidder->Some_0),
                ]
            } else {
                r matches Ok(resp) && resp@.messages == seq![
                    OutMsgV::TransferNft {
                        collection: ask.collection,
                        token_id: ask.token_id,
                        recipient: ask.seller,
                    },
                ] && resp@.sales == Seq::<SaleRecordV>::empty()
            })
        }),
    }
}

/// Settles an expired ask, the sole terminal transition of an auction.
///
/// If a real high bid stands, the sale is finalized at that bid to that
/// bidder; if the sentinel still stands (no real bid ever arrived), the
/// asset is returned to the seller with no payment movement. Either way the
/// ask is deleted.
pub fn execute_accept_bid(
    state: &mut MarketState,
    env: &EnvInfo,
    info: &MessageInfo,
    collection: &String,
    token_id: &TokenId,
    royalty: &Option<RoyaltyInfo>,
) -> (r: Result<Response, ContractError>)
    requires
        old(state).wf(),
    ensures
        final(state).wf(),
        accept_bid_post(
            old(state)@,
            final(state)@,
            env@,
            info@,
            collection@,
            token_id@,
            royalty_view_ref(royalty),
            r,
        ),
{
    match nonpayable(info) {
        Err(pe) => {
            return Err(ContractError::Payment(pe));
        },
        Ok(()) => {},
    }
    let ask = match state.may_load_ask(collection, token_id) {
        None => {
            return Err(ContractError::AskNotFound);
        },
        Some(a) => a,
    };
    match only_owner_nft(info, &ask.seller) {
        Err(e) => {
            return Err(e);
        },
        Ok(()) => {},
    }
    if !ask.is_expired(env.time) {
        return Err(ContractError::AuctionNotEnded);
    }
    let max_bid = match ask.max_bid {
        Some(b) => b,
        None => {
            assert(false);
            return Err(ContractError::WrongAskInfo);
        },
    };
    let prev_bidder = match &ask.max_bidder {
        Some(p) => p.clone(),
        None => {
            assert(false);
            return Err(ContractError::WrongAskInfo);
        },
    };
    let mut res = Response::new();
    if !(prev_bidder == env.contract) {
        match finalize_sale(&state.sale_hooks, &ask, max_bid, &prev_bidder, royalty, &mut res) {
            Err(e) => {
                return Err(e);
            },
            Ok(()) => {},
        }
    } else {
        let transfer = OutMsg::TransferNft {
            collection: ask.collection.clone(),
            token_id: ask.token_id.clone(),
            recipient: ask.seller.clone(),
        };
        proof {
            crate::store::lemma_map_values_push(res.messages@, |m: OutMsg| m@, transfer);
        }
        res.messages.push(transfer);
        assert(res@.messages =~= seq![
            OutMsgV::TransferNft {
                collection: ask@.collection,
                token_id: ask@.token_id,
                recipient: ask@.seller,
            },
        ]);
    }
    state.remove_ask(collection, token_id);
    Ok(res)
}

/// Routes a decoded inbound operation to its handler. The host validates
/// addresses and decodes the deposit payload before calling; for payment
/// operations it also queries the collection's royalty terms and passes them
/// through.
pub fn execute(
    state: &mut MarketState,
    env: &EnvInfo,
    info: &MessageInfo,
    msg: ExecuteMsg,
    royalty: &Option<RoyaltyInfo>,
) -> (r: Result<Response, ContractError>)
    requires
        old(state).wf(),
        msg matches ExecuteMsg::ReceiveNft { ask, .. } ==> may_pay_defined(
            info@.funds,
            spec_native_denom(),
        ) && env@.time + ask@.expires <= u64::MAX,
    ensures
        final(state).wf(),
        match msg {
            ExecuteMsg::ReceiveNft { sender, token_id, ask } => set_ask_post(
                old(state)@,
                final(state)@,
                env@,
                info@,
                sender@,
                token_id@,
                ask@,
                r,
            ),
            ExecuteMsg::RemoveAsk { collection, token_id } => remove_ask_post(
                old(state)@,
                final(state)@,
                info@,
                collection@,
                token_id@,
                r,
            ),
            ExecuteMsg::UpdateAskPrice { collection, token_id, price } => update_ask_price_post(
                old(state)@,
                final(state)@,
                env@,
                info@,
                collection@,
                token_id@,
                price@,
                r,
            ),
            ExecuteMsg::SetBid { collection, token_id } => set_bid_post(
                old(state)@,
                final(state)@,
                env@,
                info@,
                collection@,
                token_id@,
                royalty_view_ref(royalty),
                r,
            ),
            ExecuteMsg::AcceptBid { collection, token_id } => accept_bid_post(
                old(state)@,
                final(state)@,
                env@,
                info@,
                collection@,
                token_id@,
                royalty_view_ref(royalty),
                r,
            ),
        },
{
    match msg {
        ExecuteMsg::ReceiveNft { sender, token_id, ask } => execute_set_ask(
            state,
            env,
            info,
            &sender,
            &token_id,
            ask,
        ),
        ExecuteMsg::RemoveAsk { collection, token_id } => execute_remove_ask(
            state,
            info,
            &collection,
            &token_id,
        ),
        ExecuteMsg::UpdateAskPrice { collection, token_id, price } => execute_update_ask_price(
            state,
            env,
            info,
            &collection,
            &token_id,
            &price,
        ),
        ExecuteMsg::SetBid { collection, token_id } => execute_set_bid(
            state,
            env,
            info,
            BidInfo { collection, token_id },
            royalty,
        ),
        ExecuteMsg::AcceptBid { collection, token_id } => execute_accept_bid(
            state,
            env,
            info,
            &collection,
            &token_id,
            royalty,
        ),
    }
}

/// The initial configuration handed over when the market is set up.
#[derive(Debug)]
pub struct InstantiateMsg {
    /// Reserved for a network trading fee; not consumed by the core.
    pub trading_fee_bps: u64,
    /// Valid (min, max) window, in seconds, for ask expiry.
    pub ask_expiry: ExpiryRange,
    /// Valid (min, max) window, in seconds, for bid expiry.
    pub bid_expiry: ExpiryRange,
    /// Operators maintaining the active state of asks.
    pub operators: Vec<String>,
    /// An optional sale-hook subscriber registered at setup.
    pub sale_hook: Option<String>,
    /// Floor for every price and bid.
    pub min_price: u128,
    /// Fee charged on listing, to reduce spam.
    pub listing_fee: u128,
}

/// Mathematical value of an [`InstantiateMsg`].
pub ghost struct InstantiateMsgV {
    pub trading_fee_bps: u64,
    pub ask_expiry: ExpiryRange,
    pub bid_expiry: ExpiryRange,
    pub operators: Seq<Seq<char>>,
    pub sale_hook: Option<Seq<char>>,
    pub min_price: u128,
    pub listing_fee: u128,
}

impl View for InstantiateMsg {
    type V = InstantiateMsgV;

    open spec fn view(&self) -> InstantiateMsgV {
        InstantiateMsgV {
            trading_fee_bps: self.trading_fee_bps,
            ask_expiry: self.ask_expiry,
            bid_expiry: self.bid_expiry,
            operators: self.operators@.map_values(|s: String| s@),
            sale_hook: match self.sale_hook {
                Some(ref h) => Some(h@),
                None => None,
            },
            min_price: self.min_price,
            listing_fee: self.listing_fee,
        }
    }
}

/// The error setup is rejected with, if any: an inverted expiry window.
pub open spec fn spec_instantiate_err(m: InstantiateMsgV) -> Option<ContractError> {
    if !m.ask_expiry.spec_valid_range() {
        Some(ContractError::Expiry(ExpiryRangeError::InvalidExpiry))
    } else if !m.bid_expiry.spec_valid_range() {
        Some(ContractError::Expiry(ExpiryRangeError::InvalidExpiry))
    } else {
        None
    }
}

/// Sets the market up: validates both expiry windows, de-duplicates the
/// operator list, and starts with empty registries and, at most, the one
/// sale-hook subscriber named in the message.
pub fn instantiate(msg: InstantiateMsg) -> (r: Result<MarketState, ContractError>)
    ensures
        match spec_instantiate_err(msg@) {
            Some(e) => r matches Err(e2) && e2 == e,
            None => ({
                &&& r matches Ok(st) && st.wf()
                &&& r matches Ok(st) && st@.params.ask_expiry == msg@.ask_expiry
                    && st@.params.bid_expiry == msg@.bid_expiry && st@.params.min_price
                    == msg@.min_price && st@.params.listing_fee == msg@.listing_fee
                &&& r matches Ok(st) && crate::helpers::sorted_strs(st@.params.operators) && (
                forall|x: Seq<char>|
                    st@.params.operators.contains(x) <==> msg@.operators.contains(x))
                &&& r matches Ok(st) && st@.asks == Seq::<AskV>::empty() && st@.bids == Seq::<
                    BidV,
                >::empty() && st@.ask_hooks == Seq::<Seq<char>>::empty() && st@.bid_hooks == Seq::<
                    Seq<char>,
                >::empty() && st@.sale_hooks == (match msg@.sale_hook {
                    Some(h) => seq![h],
                    None => Seq::<Seq<char>>::empty(),
                })
            }),
        },
{
    match msg.ask_expiry.validate() {
        Err(e) => {
            return Err(ContractError::Expiry(e));
        },
        Ok(()) => {},
    }
    match msg.bid_expiry.validate() {
        Err(e) => {
            return Err(ContractError::Expiry(e));
        },
        Ok(()) => {},
    }
    let operators = crate::helpers::map_validate(&msg.operators);
    let mut sale_hooks: Vec<String> = Vec::new();
    match msg.sale_hook {
        Some(h) => {
            sale_hooks.push(h);
        },
        None => {},
    }
    let state = MarketState {
        params: crate::state::SudoParams {
            ask_expiry: msg.ask_expiry,
            bid_expiry: msg.bid_expiry,
            operators,
            min_price: msg.min_price,
            listing_fee: msg.listing_fee,
        },
        asks: Vec::new(),
        bids: Vec::new(),
        ask_hooks: Vec::new(),
        bid_hooks: Vec::new(),
        sale_hooks,
    };
    proof {
        assert(state@.asks =~= Seq::<AskV>::empty());
        assert(state@.bids =~= Seq::<BidV>::empty());
        assert(state@.ask_hooks =~= Seq::<Seq<char>>::empty());
        assert(state@.bid_hooks =~= Seq::<Seq<char>>::empty());
        match msg@.sale_hook {
            Some(h) => {
                assert(state@.sale_hooks =~= seq![h]);
            },
            None => {
                assert(state@.sale_hooks =~= Seq::<Seq<char>>::empty());
            },
        }
        assert(state.wf());
    }
    Ok(state)
}

} // verus!
