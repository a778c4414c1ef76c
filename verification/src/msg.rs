//! Plain-value message types exchanged with the host and with hook
//! subscribers.

use vstd::prelude::*;

verus! {

/// The event class a hook notification reports on a record.
#[derive(Clone, Copy, Debug, PartialEq, Eq, Structural)]
pub enum HookAction {
    Create,
    Update,
    Delete,
}

/// Offset for paginating listings of one seller across collections.
#[derive(Clone, Debug)]
pub struct CollectionOffset {
    pub collection: String,
    pub token_id: String,
}

impl CollectionOffset {
    pub fn new(collection: String, token_id: String) -> (r: Self)
        ensures
            r.collection@ == collection@,
            r.token_id@ == token_id@,
    {
        CollectionOffset { collection, token_id }
    }
}

/// Number of asks currently held by the registry.
#[derive(Clone, Copy, Debug, PartialEq, Eq, Structural)]
pub struct AskCountResponse {
    pub count: u32,
}

/// An inbound operation, decoded and address-validated by the host.
#[derive(Debug)]
pub enum ExecuteMsg {
    /// An asset deposit carrying listing terms: list the asset for sale.
    ReceiveNft { sender: String, token_id: String, ask: crate::execute::AskInfo },
    /// Withdraw a fixed-price listing.
    RemoveAsk { collection: String, token_id: String },
    /// Update the list price of an unexpired listing.
    UpdateAskPrice { collection: String, token_id: String, price: crate::state::Coin },
    /// Place the attached payment on a listing.
    SetBid { collection: String, token_id: String },
    /// Settle an expired listing.
    AcceptBid { collection: String, token_id: String },
}

/// A governance operation, decoded and address-validated by the host.
#[derive(Debug)]
pub enum SudoMsg {
    /// Update the configuration singleton.
    UpdateParams {
        ask_expiry: Option<crate::helpers::ExpiryRange>,
        bid_expiry: Option<crate::helpers::ExpiryRange>,
        operators: Option<Vec<String>>,
        min_price: Option<u128>,
        listing_fee: Option<u128>,
    },
    /// Add an operator to the allow-list.
    AddOperator { operator: String },
    /// Remove an operator from the allow-list.
    RemoveOperator { operator: String },
    /// Register an ask-hook subscriber.
    AddAskHook { hook: String },
    /// Register a bid-hook subscriber.
    AddBidHook { hook: String },
    /// Deregister an ask-hook subscriber.
    RemoveAskHook { hook: String },
    /// Deregister a bid-hook subscriber.
    RemoveBidHook { hook: String },
    /// Register a sale-hook subscriber.
    AddSaleHook { hook: String },
    /// Deregister a sale-hook subscriber.
    RemoveSaleHook { hook: String },
}

} // verus!
