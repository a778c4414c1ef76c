//! The market state: configuration parameters, the ask and bid registries,
//! and the per-event-class hook subscriber lists.

use vstd::prelude::*;
use crate::helpers::ExpiryRange;
use crate::store::{
    keyed_map, keys_unique, lemma_keyed_map_contains, lemma_keyed_map_index, lemma_keyed_map_len,
    lemma_keyed_map_push, lemma_keyed_map_remove, lemma_keyed_map_update, lemma_map_values_push,
    lemma_map_values_remove, lemma_map_values_update,
};
use crate::msg::AskCountResponse;

verus! {

/// Identifier of one asset inside a collection.
pub type TokenId = String;

/// Whether an ask sells at a fixed price or by auction.
#[derive(Clone, Copy, Debug, PartialEq, Eq, Structural)]
pub enum SaleType {
    FixedPrice,
    Auction,
}

/// A payment amount of one denomination.
#[derive(Debug)]
pub struct Coin {
    pub denom: String,
    pub amount: u128,
}

/// Mathematical value of a [`Coin`].
pub ghost struct CoinV {
    pub denom: Seq<char>,
    pub amount: u128,
}

impl View for Coin {
    type V = CoinV;

    open spec fn view(&self) -> CoinV {
        CoinV { denom: self.denom@, amount: self.amount }
    }
}

impl Clone for Coin {
    fn clone(&self) -> (r: Self)
        ensures
            r == *self,
    {
        Coin { denom: self.denom.clone(), amount: self.amount }
    }
}

/// The sender of the inbound message and the payment attached to it.
#[derive(Debug)]
pub struct MessageInfo {
    pub sender: String,
    pub funds: Vec<Coin>,
}

/// Mathematical value of a [`MessageInfo`].
pub ghost struct InfoV {
    pub sender: Seq<char>,
    pub funds: Seq<CoinV>,
}

impl View for MessageInfo {
    type V = InfoV;

    open spec fn view(&self) -> InfoV {
        InfoV { sender: self.sender@, funds: self.funds@.map_values(|c: Coin| c@) }
    }
}

/// The host context an operation runs in: the current time and the
/// market's own address (used as the sentinel "no bid yet" bidder).
#[derive(Debug)]
pub struct EnvInfo {
    pub time: u64,
    pub contract: String,
}

/// Mathematical value of an [`EnvInfo`].
pub ghost struct EnvV {
    pub time: u64,
    pub contract: Seq<char>,
}

impl View for EnvInfo {
    type V = EnvV;

    open spec fn view(&self) -> EnvV {
        EnvV { time: self.time, contract: self.contract@ }
    }
}

/// One listing of one asset for sale.
#[derive(Debug)]
pub struct Ask {
    pub sale_type: SaleType,
    pub collection: String,
    pub token_id: TokenId,
    pub seller: String,
    pub price: u128,
    pub funds_recipient: Option<String>,
    pub expires_at: u64,
    pub max_bid: Option<u128>,
    pub max_bidder: Option<String>,
}

/// Mathematical value of an [`Ask`].
pub ghost struct AskV {
    pub sale_type: SaleType,
    pub collection: Seq<char>,
    pub token_id: Seq<char>,
    pub seller: Seq<char>,
    pub price: u128,
    pub funds_recipient: Option<Seq<char>>,
    pub expires_at: u64,
    pub max_bid: Option<u128>,
    pub max_bidder: Option<Seq<char>>,
}

impl View for Ask {
    type V = AskV;

    open spec fn view(&self) -> AskV {
        AskV {
            sale_type: self.sale_type,
            collection: self.collection@,
            token_id: self.token_id@,
            seller: self.seller@,
            price: self.price,
            funds_recipient: match self.funds_recipient {
                Some(ref r) => Some(r@),
                None => None,
            },
            expires_at: self.expires_at,
            max_bid: self.max_bid,
            max_bidder: match self.max_bidder {
                Some(ref b) => Some(b@),
                None => None,
            },
        }
    }
}

impl Clone for Ask {
    fn clone(&self) -> (r: Self)
        ensures
            r@ == self@,
    {
        Ask {
            sale_type: self.sale_type,
            collection: self.collection.clone(),
            token_id: self.token_id.clone(),
            seller: self.seller.clone(),
            price: self.price,
            funds_recipient: match self.funds_recipient {
                Some(ref v) => Some(v.clone()),
                None => None,
            },
            expires_at: self.expires_at,
            max_bid: self.max_bid,
            max_bidder: match self.max_bidder {
                Some(ref v) => Some(v.clone()),
                None => None,
            },
        }
    }
}

impl AskV {
    /// Invariant of every stored ask: a strictly positive price and the
    /// high-bid bookkeeping fields always present (inert for fixed price).
    pub open spec fn valid(self) -> bool {
        &&& self.price > 0
        &&& self.max_bid is Some
        &&& self.max_bidder is Some
    }

    /// An ask is expired once the current time has reached its expiry.
    pub open spec fn spec_is_expired(self, time: u64) -> bool {
        self.expires_at <= time
    }
}

impl Ask {
    /// Whether the ask is expired at the given time.
    pub fn is_expired(&self, time: u64) -> (r: bool)
        ensures
            r == self@.spec_is_expired(time),
    {
        self.expires_at <= time
    }
}

/// Primary key of an ask, as a mathematical value.
pub type AskKeyV = (Seq<char>, Seq<char>);

/// The key under which an ask is stored.
pub open spec fn ask_key_of(a: AskV) -> AskKeyV {
    (a.collection, a.token_id)
}

/// The ask key function, named so every use denotes the same function value.
pub open spec fn ask_key_fn() -> spec_fn(AskV) -> AskKeyV {
    |a: AskV| ask_key_of(a)
}

/// Builds the primary key for an ask: (collection, token).
pub fn ask_key(collection: &String, token_id: &TokenId) -> (r: (String, TokenId))
    ensures
        r.0@ == collection@,
        r.1@ == token_id@,
{
    (collection.clone(), token_id.clone())
}

/// The record of the currently winning offer on one auction ask.
#[derive(Debug)]
pub struct Bid {
    pub collection: String,
    pub token_id: TokenId,
    pub bidder: String,
    pub price: u128,
}

/// Mathematical value of a [`Bid`].
pub ghost struct BidV {
    pub collection: Seq<char>,
    pub token_id: Seq<char>,
    pub bidder: Seq<char>,
    pub price: u128,
}

impl View for Bid {
    type V = BidV;

    open spec fn view(&self) -> BidV {
        BidV {
            collection: self.collection@,
            token_id: self.token_id@,
            bidder: self.bidder@,
            price: self.price,
        }
    }
}

impl Clone for Bid {
    fn clone(&self) -> (r: Self)
        ensures
            r@ == self@,
    {
        Bid {
            collection: self.collection.clone(),
            token_id: self.token_id.clone(),
            bidder: self.bidder.clone(),
            price: self.price,
        }
    }
}

impl Bid {
    pub fn new(collection: String, token_id: TokenId, bidder: String, price: u128) -> (r: Self)
        ensures
            r@ == (BidV { collection: collection@, token_id: token_id@, bidder: bidder@, price }),
    {
        Bid { collection, token_id, bidder, price }
    }
}

/// Primary key of a bid, as a mathematical value.
pub type BidKeyV = (Seq<char>, Seq<char>, Seq<char>);

/// The key under which a bid is stored.
pub open spec fn bid_key_of(b: BidV) -> BidKeyV {
    (b.collection, b.token_id, b.bidder)
}

/// The bid key function, named so every use denotes the same function value.
pub open spec fn bid_key_fn() -> spec_fn(BidV) -> BidKeyV {
    |b: BidV| bid_key_of(b)
}

/// Builds the primary key for a bid: (collection, token, bidder).
pub fn bid_key(collection: &String, token_id: &TokenId, bidder: &String) -> (r: (
    String,
    TokenId,
    String,
))
    ensures
        r.0@ == collection@,
        r.1@ == token_id@,
        r.2@ == bidder@,
{
    (collection.clone(), token_id.clone(), bidder.clone())
}

/// The global configuration singleton, written only by governance.
#[derive(Debug)]
pub struct SudoParams {
    /// Valid (min, max) window, in seconds, for ask expiry.
    pub ask_expiry: ExpiryRange,
    /// Valid (min, max) window, in seconds, for bid expiry.
    pub bid_expiry: ExpiryRange,
    /// Operators maintaining the active state of asks.
    pub operators: Vec<String>,
    /// Floor for every price and bid.
    pub min_price: u128,
    /// Fee charged on listing, to reduce spam.
    pub listing_fee: u128,
}

/// Mathematical value of [`SudoParams`].
pub ghost struct ParamsV {
    pub ask_expiry: ExpiryRange,
    pub bid_expiry: ExpiryRange,
    pub operators: Seq<Seq<char>>,
    pub min_price: u128,
    pub listing_fee: u128,
}

impl View for SudoParams {
    type V = ParamsV;

    open spec fn view(&self) -> ParamsV {
        ParamsV {
            ask_expiry: self.ask_expiry,
            bid_expiry: self.bid_expiry,
            operators: self.operators@.map_values(|s: String| s@),
            min_price: self.min_price,
            listing_fee: self.listing_fee,
        }
    }
}

/// The views of a list of addresses.
pub open spec fn strs(v: Seq<String>) -> Seq<Seq<char>> {
    v.map_values(|s: String| s@)
}

/// Pairwise-distinct sequence of addresses.
pub open spec fn addrs_unique(s: Seq<Seq<char>>) -> bool {
    forall|i: int, j: int| 0 <= i < j < s.len() ==> s[i] != s[j]
}

/// The whole state owned by the market: parameters, both registries, and the
/// three hook subscriber lists.
#[derive(Debug)]
pub struct MarketState {
    pub params: SudoParams,
    pub asks: Vec<Ask>,
    pub bids: Vec<Bid>,
    pub ask_hooks: Vec<String>,
    pub bid_hooks: Vec<String>,
    pub sale_hooks: Vec<String>,
}

/// Mathematical value of the [`MarketState`].
pub ghost struct StateV {
    pub params: ParamsV,
    pub asks: Seq<AskV>,
    pub bids: Seq<BidV>,
    pub ask_hooks: Seq<Seq<char>>,
    pub bid_hooks: Seq<Seq<char>>,
    pub sale_hooks: Seq<Seq<char>>,
}

impl View for MarketState {
    type V = StateV;

    open spec fn view(&self) -> StateV {
        StateV {
            params: self.params@,
            asks: self.asks@.map_values(|a: Ask| a@),
            bids: self.bids@.map_values(|b: Bid| b@),
            ask_hooks: self.ask_hooks@.map_values(|s: String| s@),
            bid_hooks: self.bid_hooks@.map_values(|s: String| s@),
            sale_hooks: self.sale_hooks@.map_values(|s: String| s@),
        }
    }
}

impl StateV {
    /// The ask registry as a map from primary key to record.
    pub open spec fn asks_map(self) -> Map<AskKeyV, AskV> {
        keyed_map(self.asks, ask_key_fn())
    }

    /// The bid registry as a map from primary key to record.
    pub open spec fn bids_map(self) -> Map<BidKeyV, BidV> {
        keyed_map(self.bids, bid_key_fn())
    }

    /// Well-formedness: at most one ask per (collection, token), at most one
    /// bid per (collection, token, bidder), every stored ask valid, distinct
    /// hook subscribers and operators, and non-inverted expiry windows.
    pub open spec fn wf(self) -> bool {
        &&& keys_unique(self.asks, ask_key_fn())
        &&& keys_unique(self.bids, bid_key_fn())
        &&& forall|i: int| 0 <= i < self.asks.len() ==> (#[trigger] self.asks[i]).valid()
        &&& addrs_unique(self.ask_hooks)
        &&& addrs_unique(self.bid_hooks)
        &&& addrs_unique(self.sale_hooks)
        &&& addrs_unique(self.params.operators)
        &&& self.params.ask_expiry.spec_valid_range()
        &&& self.params.bid_expiry.spec_valid_range()
    }

    /// Everything but the ask registry is unchanged.
    pub open spec fn only_asks_changed(self, other: StateV) -> bool {
        &&& self.params == other.params
        &&& self.bids == other.bids
        &&& self.ask_hooks == other.ask_hooks
        &&& self.bid_hooks == other.bid_hooks
        &&& self.sale_hooks == other.sale_hooks
    }

    /// Everything but the two registries is unchanged.
    pub open spec fn only_records_changed(self, other: StateV) -> bool {
        &&& self.params == other.params
        &&& self.ask_hooks == other.ask_hooks
        &&& self.bid_hooks == other.bid_hooks
        &&& self.sale_hooks == other.sale_hooks
    }
}

impl MarketState {
    /// Well-formedness of the underlying mathematical state.
    pub open spec fn wf(self) -> bool {
        self@.wf()
    }

    /// Index of the ask stored under the given key, if any.
    fn find_ask_idx(&self, collection: &String, token_id: &TokenId) -> (r: Option<usize>)
        ensures
            match r {
                Some(i) => i < self@.asks.len() && ask_key_of(self@.asks[i as int]) == (
                    collection@,
                    token_id@,
                ),
                None => forall|i: int|
                    0 <= i < self@.asks.len() ==> ask_key_of(#[trigger] self@.asks[i]) != (
                        collection@,
                        token_id@,
                    ),
            },
    {
        let n = self.asks.len();
        let mut j: usize = 0;
        while j < n
            invariant
                j <= n,
                n == self.asks.len(),
                self@.asks.len() == n,
                forall|i: int|
                    0 <= i < j ==> ask_key_of(#[trigger] self@.asks[i]) != (collection@, token_id@),
            decreases n - j,
        {
            let a = &self.asks[j];
            if a.collection == *collection && a.token_id == *token_id {
                assert(self@.asks[j as int] == a@);
                return Some(j);
            }
            assert(ask_key_of(self@.asks[j as int]) != (collection@, token_id@));
            j += 1;
        }
        None
    }

    /// Point lookup of the ask stored under (collection, token).
    pub fn may_load_ask(&self, collection: &String, token_id: &TokenId) -> (r: Option<Ask>)
        requires
            self.wf(),
        ensures
            match r {
                Some(a) => self@.asks_map().contains_key((collection@, token_id@)) && a@
                    == self@.asks_map()[(collection@, token_id@)] && ask_key_of(a@) == (
                    collection@,
                    token_id@,
                ) && a@.valid(),
                None => !self@.asks_map().contains_key((collection@, token_id@)),
            },
    {
        let idx = self.find_ask_idx(collection, token_id);
        proof {
            lemma_keyed_map_contains(self@.asks, ask_key_fn(), (collection@, token_id@));
        }
        match idx {
            Some(i) => {
                proof {
                    lemma_keyed_map_index(self@.asks, ask_key_fn(), i as int);
                }
                Some(self.asks[i].clone())
            },
            None => None,
        }
    }

    /// Stores an ask under its key, overwriting any record already there.
    pub fn save_ask(&mut self, ask: &Ask)
        requires
            old(self).wf(),
            ask@.valid(),
        ensures
            final(self).wf(),
            final(self)@.asks_map() == old(self)@.asks_map().insert(ask_key_of(ask@), ask@),
            final(self)@.only_asks_changed(old(self)@),
    {
        let idx = self.find_ask_idx(&ask.collection, &ask.token_id);
        let record = ask.clone();
        match idx {
            Some(i) => {
                proof {
                    lemma_map_values_update(self.asks@, |a: Ask| a@, i as int, record);
                    lemma_keyed_map_update(self@.asks, ask_key_fn(), i as int, record@);
                }
                self.asks[i] = record;
            },
            None => {
                proof {
                    lemma_map_values_push(self.asks@, |a: Ask| a@, record);
                    lemma_keyed_map_push(self@.asks, ask_key_fn(), record@);
                    lemma_keyed_map_contains(self@.asks, ask_key_fn(), ask_key_of(record@));
                }
                self.asks.push(record);
            },
        }
    }

    /// Deletes the ask stored under (collection, token), if any.
    pub fn remove_ask(&mut self, collection: &String, token_id: &TokenId)
        requires
            old(self).wf(),
        ensures
            final(self).wf(),
            final(self)@.asks_map() == old(self)@.asks_map().remove((collection@, token_id@)),
            final(self)@.only_asks_changed(old(self)@),
    {
        let idx = self.find_ask_idx(collection, token_id);
        match idx {
            Some(i) => {
                proof {
                    lemma_map_values_remove(self.asks@, |a: Ask| a@, i as int);
                    lemma_keyed_map_remove(self@.asks, ask_key_fn(), i as int);
                }
                self.asks.remove(i);
            },
            None => {
                proof {
                    lemma_keyed_map_contains(self@.asks, ask_key_fn(), (collection@, token_id@));
                    assert(self@.asks_map().remove((collection@, token_id@))
                        =~= self@.asks_map());
                }
            },
        }
    }

    /// Index of the bid stored under the given key, if any.
    fn find_bid_idx(&self, collection: &String, token_id: &TokenId, bidder: &String) -> (r: Option<
        usize,
    >)
        ensures
            match r {
                Some(i) => i < self@.bids.len() && bid_key_of(self@.bids[i as int]) == (
                    collection@,
                    token_id@,
                    bidder@,
                ),
                None => forall|i: int|
                    0 <= i < self@.bids.len() ==> bid_key_of(#[trigger] self@.bids[i]) != (
                        collection@,
                        token_id@,
                        bidder@,
                    ),
            },
    {
        let n = self.bids.len();
        let mut j: usize = 0;
        while j < n
            invariant
                j <= n,
                n == self.bids.len(),
                self@.bids.len() == n,
                forall|i: int|
                    0 <= i < j ==> bid_key_of(#[trigger] self@.bids[i]) != (
                        collection@,
                        token_id@,
                        bidder@,
                    ),
            decreases n - j,
        {
            let b = &self.bids[j];
            if b.collection == *collection && b.token_id == *token_id && b.bidder == *bidder {
                assert(self@.bids[j as int] == b@);
                return Some(j);
            }
            assert(bid_key_of(self@.bids[j as int]) != (collection@, token_id@, bidder@));
            j += 1;
        }
        None
    }

    /// Point lookup of the bid stored under (collection, token, bidder).
    pub fn may_load_bid(&self, collection: &String, token_id: &TokenId, bidder: &String) -> (r:
        Option<Bid>)
        requires
            self.wf(),
        ensures
            match r {
                Some(b) => self@.bids_map().contains_key((collection@, token_id@, bidder@)) && b@
                    == self@.bids_map()[(collection@, token_id@, bidder@)] && bid_key_of(b@) == (
                    collection@,
                    token_id@,
                    bidder@,
                ),
                None => !self@.bids_map().contains_key((collection@, token_id@, bidder@)),
            },
    {
        let idx = self.find_bid_idx(collection, token_id, bidder);
        proof {
            lemma_keyed_map_contains(self@.bids, bid_key_fn(), (collection@, token_id@, bidder@));
        }
        match idx {
            Some(i) => {
                proof {
                    lemma_keyed_map_index(self@.bids, bid_key_fn(), i as int);
                }
                Some(self.bids[i].clone())
            },
            None => None,
        }
    }

    /// Stores a bid under its key, overwriting any record already there.
    pub fn save_bid(&mut self, bid: &Bid)
        requires
            old(self).wf(),
        ensures
            final(self).wf(),
            final(self)@.bids_map() == old(self)@.bids_map().insert(bid_key_of(bid@), bid@),
            final(self)@.asks == old(self)@.asks,
            final(self)@.only_records_changed(old(self)@),
    {
        let idx = self.find_bid_idx(&bid.collection, &bid.token_id, &bid.bidder);
        let record = bid.clone();
        match idx {
            Some(i) => {
                proof {
                    lemma_map_values_update(self.bids@, |b: Bid| b@, i as int, record);
                    lemma_keyed_map_update(self@.bids, bid_key_fn(), i as int, record@);
                }
                self.bids[i] = record;
            },
            None => {
                proof {
                    lemma_map_values_push(self.bids@, |b: Bid| b@, record);
                    lemma_keyed_map_push(self@.bids, bid_key_fn(), record@);
                    lemma_keyed_map_contains(self@.bids, bid_key_fn(), bid_key_of(record@));
                }
                self.bids.push(record);
            },
        }
    }

    /// Number of asks currently stored; one per listed asset.
    pub fn ask_count(&self) -> (r: AskCountResponse)
        requires
            self.wf(),
            self@.asks.len() <= u32::MAX,
        ensures
            r.count == self@.asks_map().dom().len(),
    {
        proof {
            lemma_keyed_map_len(self@.asks, ask_key_fn());
        }
        AskCountResponse { count: self.asks.len() as u32 }
    }
}

} // verus!
