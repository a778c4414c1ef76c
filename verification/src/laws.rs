//! The library-wide laws, stated and proved over the operation contracts.

use vstd::prelude::*;
use crate::error::ContractError;
use crate::execute::{
    payout_total, set_bid_post, spec_ask_of, spec_must_pay, spec_native_denom, spec_payout_err,
    spec_rebid_ask, spec_refund_msgs, spec_set_bid_err, Response, RoyaltyV,
};
use crate::state::{ask_key_of, AskV, EnvV, InfoV, SaleType, StateV};

verus! {

/// Uniqueness: a well-formed market holds at most one ask for any
/// (collection, token) pair — two distinct stored records always differ in
/// their key. Every operation of the library preserves well-formedness.
pub proof fn lemma_ask_uniqueness(s: StateV, i: int, j: int)
    requires
        s.wf(),
        0 <= i < s.asks.len(),
        0 <= j < s.asks.len(),
        i != j,
    ensures
        ask_key_of(s.asks[i]) != ask_key_of(s.asks[j]),
{
}

/// The amount the market holds in escrow for an ask: the standing high bid,
/// unless the sentinel (the market's own address) still stands, in which
/// case nothing has been escrowed.
pub open spec fn spec_escrow(ask: AskV, contract: Seq<char>) -> int {
    if ask.max_bidder == Some(contract) {
        0
    } else {
        match ask.max_bid {
            Some(b) => b as int,
            None => 0,
        }
    }
}

/// One accepted auction bid, as the contract of the bid operation admits
/// it: the bookkeeping fields stand, the amount strictly exceeds the
/// standing high bid, and the ask is overwritten with the new pair.
pub open spec fn accepted_bid_step(pre: AskV, bidder: Seq<char>, amount: u128, post: AskV) -> bool {
    &&& pre.max_bid is Some
    &&& pre.max_bidder is Some
    &&& amount > pre.max_bid->Some_0
    &&& post == spec_rebid_ask(pre, bidder, amount)
}

/// A successful bid on an auction ask is exactly one `accepted_bid_step`
/// from the stored ask to the stored ask after the call, at the attached
/// amount, and its refund instructions are exactly `spec_refund_msgs`.
pub proof fn lemma_set_bid_auction_step(
    pre: StateV,
    post: StateV,
    env: EnvV,
    info: InfoV,
    collection: Seq<char>,
    token_id: Seq<char>,
    royalty: Option<RoyaltyV>,
    r: Result<Response, ContractError>,
)
    requires
        set_bid_post(pre, post, env, info, collection, token_id, royalty, r),
        spec_set_bid_err(pre, env, info, collection, token_id, royalty) is None,
        spec_ask_of(pre, collection, token_id)->Some_0.sale_type == SaleType::Auction,
    ensures
        ({
            let ask = spec_ask_of(pre, collection, token_id)->Some_0;
            let amount = spec_must_pay(info.funds, spec_native_denom())->Ok_0;
            &&& post.asks_map().contains_key((collection, token_id))
            &&& accepted_bid_step(ask, info.sender, amount, post.asks_map()[(collection, token_id)])
            &&& r matches Ok(resp) && resp@.messages.take(
                spec_refund_msgs(ask, env.contract).len() as int,
            ) == spec_refund_msgs(ask, env.contract)
        }),
{
    let ask = spec_ask_of(pre, collection, token_id)->Some_0;
    let amount = spec_must_pay(info.funds, spec_native_denom())->Ok_0;
    let ask2 = spec_rebid_ask(ask, info.sender, amount);
    assert(post.asks_map() == pre.asks_map().insert((collection, token_id), ask2));
    assert(post.asks_map()[(collection, token_id)] == ask2);
    let refunds = spec_refund_msgs(ask, env.contract);
    let r_ok = r->Ok_0;
    assert(r_ok@.messages.take(refunds.len() as int) =~= refunds);
}

/// Escrow conservation, one step: an accepted higher bid refunds exactly
/// what was escrowed before (nothing when the sentinel stood), so what was
/// escrowed plus the payment equals the refund plus what is escrowed after.
pub proof fn lemma_escrow_conservation(
    pre: AskV,
    bidder: Seq<char>,
    amount: u128,
    post: AskV,
    contract: Seq<char>,
)
    requires
        accepted_bid_step(pre, bidder, amount, post),
        bidder != contract,
    ensures
        spec_escrow(pre, contract) + amount == payout_total(spec_refund_msgs(pre, contract))
            + spec_escrow(post, contract),
{
    let refunds = spec_refund_msgs(pre, contract);
    if pre.max_bidder->Some_0 != contract {
        assert(refunds.len() == 1);
        assert(refunds.last() == (crate::execute::OutMsgV::BankSend {
            to_address: pre.max_bidder->Some_0,
            amount: pre.max_bid->Some_0,
        }));
        assert(refunds.drop_last() =~= Seq::<crate::execute::OutMsgV>::empty());
        assert(payout_total(refunds.drop_last()) == 0);
        assert(payout_total(refunds) == pre.max_bid->Some_0 as int);
    } else {
        assert(payout_total(refunds) == 0);
    }
}

/// Total of the accepted amounts of the first `n` steps.
pub open spec fn sum_amounts_upto(amounts: Seq<u128>, n: int) -> int
    decreases n,
{
    if n <= 0 {
        0
    } else {
        sum_amounts_upto(amounts, n - 1) + amounts[n - 1]
    }
}

/// Total refunded over the first `n` steps of a bid trace.
pub open spec fn total_refunded_upto(asks: Seq<AskV>, n: int, contract: Seq<char>) -> int
    decreases n,
{
    if n <= 0 {
        0
    } else {
        total_refunded_upto(asks, n - 1, contract) + payout_total(
            spec_refund_msgs(asks[n - 1], contract),
        )
    }
}

/// A sequence of accepted bids on one ask: `asks[i]` is the record before
/// step `i`, which bidder `bidders[i]` wins at `amounts[i]`.
pub open spec fn spec_bid_trace(
    asks: Seq<AskV>,
    bidders: Seq<Seq<char>>,
    amounts: Seq<u128>,
) -> bool {
    &&& asks.len() == amounts.len() + 1
    &&& bidders.len() == amounts.len()
    &&& forall|i: int|
        0 <= i < amounts.len() ==> #[trigger] accepted_bid_step(
            asks[i],
            bidders[i],
            amounts[i],
            asks[i + 1],
        )
}

/// Escrow conservation over a whole trace: everything paid in is either
/// refunded to an outbid party or still escrowed as the standing high bid —
/// no funds are ever unaccounted for.
pub proof fn lemma_escrow_sequence(
    asks: Seq<AskV>,
    bidders: Seq<Seq<char>>,
    amounts: Seq<u128>,
    contract: Seq<char>,
    n: int,
)
    requires
        spec_bid_trace(asks, bidders, amounts),
        forall|i: int| 0 <= i < bidders.len() ==> #[trigger] bidders[i] != contract,
        0 <= n <= amounts.len(),
    ensures
        spec_escrow(asks[0], contract) + sum_amounts_upto(amounts, n) == total_refunded_upto(
            asks,
            n,
            contract,
        ) + spec_escrow(asks[n], contract),
    decreases n,
{
    if n > 0 {
        lemma_escrow_sequence(asks, bidders, amounts, contract, n - 1);
        assert(accepted_bid_step(asks[n - 1], bidders[n - 1], amounts[n - 1], asks[(n - 1) + 1]));
        assert(asks[(n - 1) + 1] == asks[n]);
        lemma_escrow_conservation(asks[n - 1], bidders[n - 1], amounts[n - 1], asks[n], contract);
    }
}

/// Auction monotonicity: along any sequence of accepted bids on one ask,
/// the accepted amounts are strictly increasing.
pub proof fn lemma_bid_monotonicity(
    asks: Seq<AskV>,
    bidders: Seq<Seq<char>>,
    amounts: Seq<u128>,
    i: int,
    j: int,
)
    requires
        spec_bid_trace(asks, bidders, amounts),
        0 <= i < j < amounts.len(),
    ensures
        amounts[i] < amounts[j],
    decreases j - i,
{
    if j == i + 1 {
        assert(accepted_bid_step(asks[i], bidders[i], amounts[i], asks[i + 1]));
        assert(accepted_bid_step(asks[j], bidders[j], amounts[j], asks[j + 1]));
        assert(asks[j].max_bid == Some(amounts[i]));
    } else {
        lemma_bid_monotonicity(asks, bidders, amounts, i, j - 1);
        lemma_bid_monotonicity(asks, bidders, amounts, j - 1, j);
    }
}

/// Idempotent rejection: an invalid bid leaves the state exactly as it was
/// and fails deterministically — two attempts from the same state with the
/// same message fail with the same error. The same holds of every operation
/// through its contract predicate.
pub proof fn lemma_idempotent_rejection_set_bid(
    pre: StateV,
    s1: StateV,
    s2: StateV,
    env: EnvV,
    info: InfoV,
    collection: Seq<char>,
    token_id: Seq<char>,
    royalty: Option<RoyaltyV>,
    r1: Result<Response, ContractError>,
    r2: Result<Response, ContractError>,
    e: ContractError,
)
    requires
        set_bid_post(pre, s1, env, info, collection, token_id, royalty, r1),
        set_bid_post(pre, s2, env, info, collection, token_id, royalty, r2),
        spec_set_bid_err(pre, env, info, collection, token_id, royalty) == Some(e),
    ensures
        s1 == pre,
        s2 == pre,
        r1 == Err::<Response, ContractError>(e),
        r1 == r2,
{
}

/// Idempotent rejection for listing: as `lemma_idempotent_rejection_set_bid`.
pub proof fn lemma_idempotent_rejection_set_ask(
    pre: StateV,
    s1: StateV,
    s2: StateV,
    env: EnvV,
    info: InfoV,
    rcv_sender: Seq<char>,
    rcv_token_id: Seq<char>,
    ask_info: crate::execute::AskInfoV,
    r1: Result<Response, ContractError>,
    r2: Result<Response, ContractError>,
    e: ContractError,
)
    requires
        crate::execute::set_ask_post(pre, s1, env, info, rcv_sender, rcv_token_id, ask_info, r1),
        crate::execute::set_ask_post(pre, s2, env, info, rcv_sender, rcv_token_id, ask_info, r2),
        crate::execute::spec_set_ask_err(pre, env, info, rcv_token_id, ask_info) == Some(e),
    ensures
        s1 == pre,
        s2 == pre,
        r1 == Err::<Response, ContractError>(e),
        r1 == r2,
{
}

/// Idempotent rejection for withdrawal: as `lemma_idempotent_rejection_set_bid`.
pub proof fn lemma_idempotent_rejection_remove_ask(
    pre: StateV,
    s1: StateV,
    s2: StateV,
    info: InfoV,
    collection: Seq<char>,
    token_id: Seq<char>,
    r1: Result<Response, ContractError>,
    r2: Result<Response, ContractError>,
    e: ContractError,
)
    requires
        crate::execute::remove_ask_post(pre, s1, info, collection, token_id, r1),
        crate::execute::remove_ask_post(pre, s2, info, collection, token_id, r2),
        crate::execute::spec_remove_ask_err(pre, info, collection, token_id) == Some(e),
    ensures
        s1 == pre,
        s2 == pre,
        r1 == Err::<Response, ContractError>(e),
        r1 == r2,
{
}

/// Idempotent rejection for price updates: as `lemma_idempotent_rejection_set_bid`.
pub proof fn lemma_idempotent_rejection_update_ask_price(
    pre: StateV,
    s1: StateV,
    s2: StateV,
    env: EnvV,
    info: InfoV,
    collection: Seq<char>,
    token_id: Seq<char>,
    price: crate::state::CoinV,
    r1: Result<Response, ContractError>,
    r2: Result<Response, ContractError>,
    e: ContractError,
)
    requires
        crate::execute::update_ask_price_post(pre, s1, env, info, collection, token_id, price, r1),
        crate::execute::update_ask_price_post(pre, s2, env, info, collection, token_id, price, r2),
        crate::execute::spec_update_ask_price_err(pre, env, info, collection, token_id, price)
            == Some(e),
    ensures
        s1 == pre,
        s2 == pre,
        r1 == Err::<Response, ContractError>(e),
        r1 == r2,
{
}

/// Idempotent rejection for settlement: as `lemma_idempotent_rejection_set_bid`.
pub proof fn lemma_idempotent_rejection_accept_bid(
    pre: StateV,
    s1: StateV,
    s2: StateV,
    env: EnvV,
    info: InfoV,
    collection: Seq<char>,
    token_id: Seq<char>,
    royalty: Option<RoyaltyV>,
    r1: Result<Response, ContractError>,
    r2: Result<Response, ContractError>,
    e: ContractError,
)
    requires
        crate::execute::accept_bid_post(pre, s1, env, info, collection, token_id, royalty, r1),
        crate::execute::accept_bid_post(pre, s2, env, info, collection, token_id, royalty, r2),
        crate::execute::spec_accept_bid_err(pre, env, info, collection, token_id, royalty) == Some(
            e,
        ),
    ensures
        s1 == pre,
        s2 == pre,
        r1 == Err::<Response, ContractError>(e),
        r1 == r2,
{
}

/// Fixed-price atomicity: a payment exactly matching the list price of an
/// unexpired fixed-price ask always settles in one step — success is owed,
/// the ask is removed, payout and asset transfer are queued in order, the
/// canonical sale record is emitted, and no bid record is created.
pub proof fn lemma_fixed_price_atomicity(
    pre: StateV,
    post: StateV,
    env: EnvV,
    info: InfoV,
    collection: Seq<char>,
    token_id: Seq<char>,
    royalty: Option<RoyaltyV>,
    r: Result<Response, ContractError>,
)
    requires
        set_bid_post(pre, post, env, info, collection, token_id, royalty, r),
        spec_must_pay(info.funds, spec_native_denom()) matches Ok(p),
        spec_must_pay(info.funds, spec_native_denom())->Ok_0 >= pre.params.min_price,
        spec_ask_of(pre, collection, token_id) matches Some(ask) && ask.sale_type
            == SaleType::FixedPrice && !ask.spec_is_expired(env.time) && ask.price == spec_must_pay(
            info.funds,
            spec_native_denom(),
        )->Ok_0,
        spec_payout_err(
            spec_must_pay(info.funds, spec_native_denom())->Ok_0,
            royalty,
        ) is None,
    ensures
        spec_set_bid_err(pre, env, info, collection, token_id, royalty) is None,
        post.asks_map() == pre.asks_map().remove((collection, token_id)),
        post.bids == pre.bids,
        ({
            let ask = spec_ask_of(pre, collection, token_id)->Some_0;
            let p = spec_must_pay(info.funds, spec_native_denom())->Ok_0;
            r matches Ok(resp) && resp@.messages == crate::execute::spec_finalize_msgs(
                pre.sale_hooks,
                ask,
                p,
                info.sender,
                royalty,
            ) && resp@.sales == seq![crate::execute::spec_sale_record(ask, p, info.sender)]
        }),
{
}

} // verus!
