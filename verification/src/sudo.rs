//! Governance operations: parameter updates, the operator allow-list, and
//! the hook subscriber registries. Only the host's governance path may call
//! these; the core itself never does.

use vstd::prelude::*;
use crate::error::ContractError;
use crate::execute::Response;
use crate::helpers::ExpiryRange;
use crate::state::{addrs_unique, MarketState, ParamsV};

verus! {

/// A partial update of the configuration singleton: absent fields keep
/// their current value.
#[derive(Debug)]
pub struct ParamInfo {
    pub ask_expiry: Option<ExpiryRange>,
    pub bid_expiry: Option<ExpiryRange>,
    pub operators: Option<Vec<String>>,
    pub min_price: Option<u128>,
    pub listing_fee: Option<u128>,
}

/// Mathematical value of a [`ParamInfo`].
pub ghost struct ParamInfoV {
    pub ask_expiry: Option<ExpiryRange>,
    pub bid_expiry: Option<ExpiryRange>,
    pub operators: Option<Seq<Seq<char>>>,
    pub min_price: Option<u128>,
    pub listing_fee: Option<u128>,
}

impl View for ParamInfo {
    type V = ParamInfoV;

    open spec fn view(&self) -> ParamInfoV {
        ParamInfoV {
            ask_expiry: self.ask_expiry,
            bid_expiry: self.bid_expiry,
            operators: match self.operators {
                Some(ref v) => Some(v@.map_values(|s: String| s@)),
                None => None,
            },
            min_price: self.min_price,
            listing_fee: self.listing_fee,
        }
    }
}

/// The provided value, or the default where none was provided.
pub open spec fn opt_or<T>(o: Option<T>, d: T) -> T {
    match o {
        Some(v) => v,
        None => d,
    }
}

/// The error a parameter update is rejected with, if any: an inverted
/// expiry window among the provided fields.
pub open spec fn spec_update_params_err(p: ParamInfoV) -> Option<ContractError> {
    if p.ask_expiry matches Some(r) && !r.spec_valid_range() {
        Some(ContractError::Expiry(crate::helpers::ExpiryRangeError::InvalidExpiry))
    } else if p.bid_expiry matches Some(r) && !r.spec_valid_range() {
        Some(ContractError::Expiry(crate::helpers::ExpiryRangeError::InvalidExpiry))
    } else {
        None
    }
}

/// Updates the configuration singleton field by field; fields not provided
/// keep their value. The operator list is not updated on this path (it has
/// its own add/remove operations).
pub fn sudo_update_params(state: &mut MarketState, param_info: ParamInfo) -> (r: Result<
    Response,
    ContractError,
>)
    requires
        old(state).wf(),
    ensures
        final(state).wf(),
        match spec_update_params_err(param_info@) {
            Some(e) => r matches Err(e2) && e2 == e && final(state)@ == old(state)@,
            None => {
                &&& r matches Ok(resp) && resp@.messages == Seq::<crate::execute::OutMsgV>::empty()
                    && resp@.sales == Seq::<crate::execute::SaleRecordV>::empty()
                &&& final(state)@.params == (ParamsV {
                    ask_expiry: opt_or(param_info@.ask_expiry, old(state)@.params.ask_expiry),
                    bid_expiry: opt_or(param_info@.bid_expiry, old(state)@.params.bid_expiry),
                    operators: old(state)@.params.operators,
                    min_price: opt_or(param_info@.min_price, old(state)@.params.min_price),
                    listing_fee: opt_or(param_info@.listing_fee, old(state)@.params.listing_fee),
                })
                &&& final(state)@.asks == old(state)@.asks
                &&& final(state)@.bids == old(state)@.bids
                &&& final(state)@.ask_hooks == old(state)@.ask_hooks
                &&& final(state)@.bid_hooks == old(state)@.bid_hooks
                &&& final(state)@.sale_hooks == old(state)@.sale_hooks
            },
        },
{
    match &param_info.ask_expiry {
        Some(range) => {
            match range.validate() {
                Err(e) => {
                    return Err(ContractError::Expiry(e));
                },
                Ok(()) => {},
            }
        },
        None => {},
    }
    match &param_info.bid_expiry {
        Some(range) => {
            match range.validate() {
                Err(e) => {
                    return Err(ContractError::Expiry(e));
                },
                Ok(()) => {},
            }
        },
        None => {},
    }
    match param_info.ask_expiry {
        Some(range) => {
            state.params.ask_expiry = range;
        },
        None => {},
    }
    match param_info.bid_expiry {
        Some(range) => {
            state.params.bid_expiry = range;
        },
        None => {},
    }
    match param_info.min_price {
        Some(v) => {
            state.params.min_price = v;
        },
        None => {},
    }
    match param_info.listing_fee {
        Some(v) => {
            state.params.listing_fee = v;
        },
        None => {},
    }
    Ok(Response::new())
}

/// Appending a fresh address keeps the list pairwise distinct.
proof fn lemma_addrs_unique_push(s: Seq<Seq<char>>, x: Seq<char>)
    requires
        addrs_unique(s),
        !s.contains(x),
    ensures
        addrs_unique(s.push(x)),
{
    assert forall|i: int, j: int| 0 <= i < j < s.push(x).len() implies s.push(x)[i] != s.push(x)[j]
        by {
        if j == s.len() {
            assert(s.push(x)[j] == x);
            assert(s.push(x)[i] == s[i]);
            assert(!s.contains(x));
        } else {
            assert(s.push(x)[i] == s[i] && s.push(x)[j] == s[j]);
        }
    }
}

/// Removing an element keeps the list pairwise distinct.
proof fn lemma_addrs_unique_remove(s: Seq<Seq<char>>, k: int)
    requires
        addrs_unique(s),
        0 <= k < s.len(),
    ensures
        addrs_unique(s.remove(k)),
{
    let t = s.remove(k);
    assert forall|i: int, j: int| 0 <= i < j < t.len() implies t[i] != t[j] by {
        let i0 = if i < k {
            i
        } else {
            i + 1
        };
        let j0 = if j < k {
            j
        } else {
            j + 1
        };
        assert(t[i] == s[i0] && t[j] == s[j0]);
    }
}

/// Index of the first occurrence of an address, if any.
fn find_address_idx(v: &Vec<String>, x: &String) -> (r: Option<usize>)
    ensures
        match r {
            Some(i) => i < v@.len() && v@[i as int]@ == x@,
            None => forall|i: int| 0 <= i < v@.len() ==> (#[trigger] v@[i])@ != x@,
        },
{
    let n = v.len();
    let mut j: usize = 0;
    while j < n
        invariant
            j <= n,
            n == v.len(),
            forall|i: int| 0 <= i < j ==> (#[trigger] v@[i])@ != x@,
        decreases n - j,
    {
        if v[j] == *x {
            return Some(j);
        }
        j += 1;
    }
    None
}

/// Registers a subscriber on one list; rejects a duplicate registration.
fn hook_add(hooks: &mut Vec<String>, hook: String) -> (r: Result<(), ContractError>)
    requires
        addrs_unique(old(hooks)@.map_values(|s: String| s@)),
    ensures
        ({
            let pre = old(hooks)@.map_values(|s: String| s@);
            let post = final(hooks)@.map_values(|s: String| s@);
            match r {
                Ok(()) => !pre.contains(hook@) && post == pre.push(hook@) && addrs_unique(post),
                Err(e) => e == ContractError::HookAlreadyRegistered && pre.contains(hook@)
                    && *final(hooks) == *old(hooks),
            }
        }),
{
    if crate::helpers::contains_address(hooks, &hook) {
        return Err(ContractError::HookAlreadyRegistered);
    }
    proof {
        crate::store::lemma_map_values_push(hooks@, |s: String| s@, hook);
        lemma_addrs_unique_push(hooks@.map_values(|s: String| s@), hook@);
    }
    hooks.push(hook);
    Ok(())
}

/// Deregisters a subscriber from one list; rejects an unknown subscriber.
fn hook_remove(hooks: &mut Vec<String>, hook: &String) -> (r: Result<(), ContractError>)
    requires
        addrs_unique(old(hooks)@.map_values(|s: String| s@)),
    ensures
        ({
            let pre = old(hooks)@.map_values(|s: String| s@);
            let post = final(hooks)@.map_values(|s: String| s@);
            match r {
                Ok(()) => (exists|i: int|
                    0 <= i < pre.len() && #[trigger] pre[i] == hook@ && post == pre.remove(i))
                    && addrs_unique(post),
                Err(e) => e == ContractError::HookNotRegistered && !pre.contains(hook@)
                    && *final(hooks) == *old(hooks),
            }
        }),
{
    match find_address_idx(hooks, hook) {
        Some(i) => {
            proof {
                crate::store::lemma_map_values_remove(hooks@, |s: String| s@, i as int);
                lemma_addrs_unique_remove(hooks@.map_values(|s: String| s@), i as int);
            }
            hooks.remove(i);
            proof {
                let pre = old(hooks)@.map_values(|s: String| s@);
                let post = hooks@.map_values(|s: String| s@);
                let k = i as int;
                assert(pre[k] == hook@);
                assert(post =~= pre.remove(k));
                assert(0 <= k < pre.len() && pre[k] == hook@ && post == pre.remove(k));
            }
            Ok(())
        },
        None => {
            proof {
                let mapped = old(hooks)@.map_values(|s: String| s@);
                assert(!mapped.contains(hook@)) by {
                    assert(forall|i: int|
                        0 <= i < mapped.len() ==> mapped[i] == (#[trigger] old(hooks)@[i])@);
                }
            }
            Err(ContractError::HookNotRegistered)
        },
    }
}

/// Adds an operator to the allow-list; rejects a duplicate.
pub fn sudo_add_operator(state: &mut MarketState, operator: String) -> (r: Result<
    Response,
    ContractError,
>)
    requires
        old(state).wf(),
    ensures
        final(state).wf(),
        ({
            let pre = old(state)@;
            let post = final(state)@;
            match r {
                Ok(resp) => {
                    &&& !pre.params.operators.contains(operator@)
                    &&& post.params == (ParamsV {
                        operators: pre.params.operators.push(operator@),
                        ..pre.params
                    })
                    &&& post.asks == pre.asks
                    &&& post.bids == pre.bids
                    &&& post.ask_hooks == pre.ask_hooks
                    &&& post.bid_hooks == pre.bid_hooks
                    &&& post.sale_hooks == pre.sale_hooks
                    &&& resp@.messages == Seq::<crate::execute::OutMsgV>::empty()
                    &&& resp@.sales == Seq::<crate::execute::SaleRecordV>::empty()
                },
                Err(e) => e == ContractError::OperatorAlreadyRegistered
                    && pre.params.operators.contains(operator@) && post == pre,
            }
        }),
{
    if crate::helpers::contains_address(&state.params.operators, &operator) {
        return Err(ContractError::OperatorAlreadyRegistered);
    }
    proof {
        crate::store::lemma_map_values_push(state.params.operators@, |s: String| s@, operator);
        lemma_addrs_unique_push(state@.params.operators, operator@);
    }
    state.params.operators.push(operator);
    Ok(Response::new())
}

/// Removes an operator from the allow-list; rejects an unknown operator.
pub fn sudo_remove_operator(state: &mut MarketState, operator: &String) -> (r: Result<
    Response,
    ContractError,
>)
    requires
        old(state).wf(),
    ensures
        final(state).wf(),
        ({
            let pre = old(state)@;
            let post = final(state)@;
            match r {
                Ok(resp) => {
                    &&& (exists|i: int|
                        0 <= i < pre.params.operators.len() && #[trigger] pre.params.operators[i]
                            == operator@ && post.params.operators == pre.params.operators.remove(i))
                    &&& post.params.ask_expiry == pre.params.ask_expiry
                    &&& post.params.bid_expiry == pre.params.bid_expiry
                    &&& post.params.min_price == pre.params.min_price
                    &&& post.params.listing_fee == pre.params.listing_fee
                    &&& post.asks == pre.asks
                    &&& post.bids == pre.bids
                    &&& post.ask_hooks == pre.ask_hooks
                    &&& post.bid_hooks == pre.bid_hooks
                    &&& post.sale_hooks == pre.sale_hooks
                    &&& resp@.messages == Seq::<crate::execute::OutMsgV>::empty()
                    &&& resp@.sales == Seq::<crate::execute::SaleRecordV>::empty()
                },
                Err(e) => e == ContractError::OperatorNotRegistered
                    && !pre.params.operators.contains(operator@) && post == pre,
            }
        }),
{
    match find_address_idx(&state.params.operators, operator) {
        Some(i) => {
            proof {
                crate::store::lemma_map_values_remove(
                    state.params.operators@,
                    |s: String| s@,
                    i as int,
                );
                lemma_addrs_unique_remove(state@.params.operators, i as int);
            }
            state.params.operators.remove(i);
            proof {
                let pre = old(state)@.params.operators;
                let post = state@.params.operators;
                let k = i as int;
                assert(pre[k] == operator@);
                assert(post =~= pre.remove(k));
                assert(0 <= k < pre.len() && pre[k] == operator@ && post == pre.remove(k));
            }
            Ok(Response::new())
        },
        None => {
            proof {
                let mapped = old(state)@.params.operators;
                assert(!mapped.contains(operator@)) by {
                    assert(forall|i: int|
                        0 <= i < mapped.len() ==> mapped[i] == (
                        #[trigger] old(state).params.operators@[i])@);
                }
            }
            Err(ContractError::OperatorNotRegistered)
        },
    }
}


/// Registers a sale-hook subscriber; rejects a duplicate registration.
pub fn sudo_add_sale_hook(state: &mut MarketState, hook: String) -> (r: Result<
    Response,
    ContractError,
>)
    requires
        old(state).wf(),
    ensures
        final(state).wf(),
        ({
            let pre = old(state)@;
            let post = final(state)@;
            match r {
                Ok(resp) => {
                    &&& !pre.sale_hooks.contains(hook@)
                    &&& post.sale_hooks == pre.sale_hooks.push(hook@)
                    &&& post.params == pre.params
                    &&& post.asks == pre.asks
                    &&& post.bids == pre.bids
                    &&& post.ask_hooks == pre.ask_hooks
                    &&& post.bid_hooks == pre.bid_hooks
                    &&& resp@.messages == Seq::<crate::execute::OutMsgV>::empty()
                    &&& resp@.sales == Seq::<crate::execute::SaleRecordV>::empty()
                },
                Err(e) => e == ContractError::HookAlreadyRegistered && pre.sale_hooks.contains(hook@)
                    && post == pre,
            }
        }),
{
    match hook_add(&mut state.sale_hooks, hook) {
        Err(e) => Err(e),
        Ok(()) => Ok(Response::new()),
    }
}

/// Registers a ask-hook subscriber; rejects a duplicate registration.
pub fn sudo_add_ask_hook(state: &mut MarketState, hook: String) -> (r: Result<
    Response,
    ContractError,
>)
    requires
        old(state).wf(),
    ensures
        final(state).wf(),
        ({
            let pre = old(state)@;
            let post = final(state)@;
            match r {
                Ok(resp) => {
                    &&& !pre.ask_hooks.contains(hook@)
                    &&& post.ask_hooks == pre.ask_hooks.push(hook@)
                    &&& post.params == pre.params
                    &&& post.asks == pre.asks
                    &&& post.bids == pre.bids
                    &&& post.bid_hooks == pre.bid_hooks
                    &&& post.sale_hooks == pre.sale_hooks
                    &&& resp@.messages == Seq::<crate::execute::OutMsgV>::empty()
                    &&& resp@.sales == Seq::<crate::execute::SaleRecordV>::empty()
                },
                Err(e) => e == ContractError::HookAlreadyRegistered && pre.ask_hooks.contains(hook@)
                    && post == pre,
            }
        }),
{
    match hook_add(&mut state.ask_hooks, hook) {
        Err(e) => Err(e),
        Ok(()) => Ok(Response::new()),
    }
}

/// Registers a bid-hook subscriber; rejects a duplicate registration.
pub fn sudo_add_bid_hook(state: &mut MarketState, hook: String) -> (r: Result<
    Response,
    ContractError,
>)
    requires
        old(state).wf(),
    ensures
        final(state).wf(),
        ({
            let pre = old(state)@;
            let post = final(state)@;
            match r {
                Ok(resp) => {
                    &&& !pre.bid_hooks.contains(hook@)
                    &&& post.bid_hooks == pre.bid_hooks.push(hook@)
                    &&& post.params == pre.params
                    &&& post.asks == pre.asks
                    &&& post.bids == pre.bids
                    &&& post.ask_hooks == pre.ask_hooks
                    &&& post.sale_hooks == pre.sale_hooks
                    &&& resp@.messages == Seq::<crate::execute::OutMsgV>::empty()
                    &&& resp@.sales == Seq::<crate::execute::SaleRecordV>::empty()
                },
                Err(e) => e == ContractError::HookAlreadyRegistered && pre.bid_hooks.contains(hook@)
                    && post == pre,
            }
        }),
{
    match hook_add(&mut state.bid_hooks, hook) {
        Err(e) => Err(e),
        Ok(()) => Ok(Response::new()),
    }
}

/// Deregisters a sale-hook subscriber; rejects an unknown subscriber.
pub fn sudo_remove_sale_hook(state: &mut MarketState, hook: &String) -> (r: Result<
    Response,
    ContractError,
>)
    requires
        old(state).wf(),
    ensures
        final(state).wf(),
        ({
            let pre = old(state)@;
            let post = final(state)@;
            match r {
                Ok(resp) => {
                    &&& (exists|i: int|
                        0 <= i < pre.sale_hooks.len() && #[trigger] pre.sale_hooks[i] == hook@
                            && post.sale_hooks == pre.sale_hooks.remove(i))
                    &&& post.params == pre.params
                    &&& post.asks == pre.asks
                    &&& post.bids == pre.bids
                    &&& post.ask_hooks == pre.ask_hooks
                    &&& post.bid_hooks == pre.bid_hooks
                    &&& resp@.messages == Seq::<crate::execute::OutMsgV>::empty()
                    &&& resp@.sales == Seq::<crate::execute::SaleRecordV>::empty()
                },
                Err(e) => e == ContractError::HookNotRegistered && !pre.sale_hooks.contains(hook@)
                    && post == pre,
            }
        }),
{
    match hook_remove(&mut state.sale_hooks, hook) {
        Err(e) => Err(e),
        Ok(()) => Ok(Response::new()),
    }
}

/// Deregisters a ask-hook subscriber; rejects an unknown subscriber.
pub fn sudo_remove_ask_hook(state: &mut MarketState, hook: &String) -> (r: Result<
    Response,
    ContractError,
>)
    requires
        old(state).wf(),
    ensures
        final(state).wf(),
        ({
            let pre = old(state)@;
            let post = final(state)@;
            match r {
                Ok(resp) => {
                    &&& (exists|i: int|
                        0 <= i < pre.ask_hooks.len() && #[trigger] pre.ask_hooks[i] == hook@
                            && post.ask_hooks == pre.ask_hooks.remove(i))
                    &&& post.params == pre.params
                    &&& post.asks == pre.asks
                    &&& post.bids == pre.bids
                    &&& post.bid_hooks == pre.bid_hooks
                    &&& post.sale_hooks == pre.sale_hooks
                    &&& resp@.messages == Seq::<crate::execute::OutMsgV>::empty()
                    &&& resp@.sales == Seq::<crate::execute::SaleRecordV>::empty()
                },
                Err(e) => e == ContractError::HookNotRegistered && !pre.ask_hooks.contains(hook@)
                    && post == pre,
            }
        }),
{
    match hook_remove(&mut state.ask_hooks, hook) {
        Err(e) => Err(e),
        Ok(()) => Ok(Response::new()),
    }
}

/// Deregisters a bid-hook subscriber; rejects an unknown subscriber.
pub fn sudo_remove_bid_hook(state: &mut MarketState, hook: &String) -> (r: Result<
    Response,
    ContractError,
>)
    requires
        old(state).wf(),
    ensures
        final(state).wf(),
        ({
            let pre = old(state)@;
            let post = final(state)@;
            match r {
                Ok(resp) => {
                    &&& (exists|i: int|
                        0 <= i < pre.bid_hooks.len() && #[trigger] pre.bid_hooks[i] == hook@
                            && post.bid_hooks == pre.bid_hooks.remove(i))
                    &&& post.params == pre.params
                    &&& post.asks == pre.asks
                    &&& post.bids == pre.bids
                    &&& post.ask_hooks == pre.ask_hooks
                    &&& post.sale_hooks == pre.sale_hooks
                    &&& resp@.messages == Seq::<crate::execute::OutMsgV>::empty()
                    &&& resp@.sales == Seq::<crate::execute::SaleRecordV>::empty()
                },
                Err(e) => e == ContractError::HookNotRegistered && !pre.bid_hooks.contains(hook@)
                    && post == pre,
            }
        }),
{
    match hook_remove(&mut state.bid_hooks, hook) {
        Err(e) => Err(e),
        Ok(()) => Ok(Response::new()),
    }
}

} // verus!
