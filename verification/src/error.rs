//! Error taxonomy of the marketplace core.
//!
//! Every error is raised before any state mutation: an operation that returns
//! an error leaves the market state exactly as it found it.

use vstd::prelude::*;
use crate::helpers::ExpiryRangeError;

verus! {

/// Errors raised while inspecting the payment attached to a message.
#[derive(Clone, Copy, Debug, PartialEq, Eq, Structural)]
pub enum PaymentError {
    /// No payment (or a zero amount) was attached where one is required.
    NoFunds,
    /// More than one coin was attached.
    MultipleDenoms,
    /// The single attached coin is of the wrong denomination.
    MissingDenom,
    /// A coin of an unsupported denomination was attached.
    ExtraDenom,
    /// A payment was attached to an operation that takes none.
    NonPayable,
}

/// Everything an operation of the core can reject.
#[derive(Clone, Copy, Debug, PartialEq, Eq, Structural)]
pub enum ContractError {
    /// The token named in the deposit notification differs from the listed one.
    IdMismatch,
    /// The attached listing fee does not equal the configured fee exactly.
    InvalidListingFee(u128),
    /// The ask is past its expiry and can no longer be bid on or updated.
    AskExpired,
    /// No ask exists at the given (collection, token) key.
    AskNotFound,
    /// An ask already exists at the given (collection, token) key.
    AskAlreadyExists,
    /// Auction listings cannot be withdrawn; they must run to expiry.
    AuctionNotRemove,
    /// The auction cannot be settled before its expiry.
    AuctionNotEnded,
    /// The caller is not the seller of the ask.
    UnauthorizedOwner,
    /// The caller is not a configured operator.
    UnauthorizedOperator,
    /// The price is zero, of the wrong denomination, or does not match.
    InvalidPrice,
    /// The amount is below the configured floor or below the reserve.
    PriceTooSmall(u128),
    /// The bid does not strictly exceed the current high bid.
    InsufficientFundsSend,
    /// The ask record lacks its high-bid bookkeeping fields.
    WrongAskInfo,
    /// The computed royalty exceeds the payment: a fatal configuration error.
    FeesExceedPayment,
    /// The operator is already on the allow-list.
    OperatorAlreadyRegistered,
    /// The operator is not on the allow-list.
    OperatorNotRegistered,
    /// The subscriber is already registered for this event class.
    HookAlreadyRegistered,
    /// The subscriber is not registered for this event class.
    HookNotRegistered,
    /// An expiry range or expiry delta failed validation.
    Expiry(ExpiryRangeError),
    /// The attached payment failed validation.
    Payment(PaymentError),
}

} // verus!
