//! The marketplace's decisions, each as a function of plain values: what a
//! lookup in the store or in the registry amounts to, and what a request is
//! answered with.

use vstd::prelude::*;
use cosmwasm_std::StdError;
use crate::error::ContractError;
use crate::host::{fits_key, key_fits, key_too_long};
use crate::market::crosses;
use crate::msg::{Receipt, ReceiptView};
use crate::state::Coin;

verus! {

/// Whether a bid of `bid` crosses an ask of `ask`.
pub fn bid_crosses(bid: &Coin, ask: &Coin) -> (crossing: bool)
    ensures
        crossing == crosses(bid@, ask@),
{
    bid.amount > ask.amount && bid.denom == ask.denom
}

/// A bid has to offer something: a bid of nothing is an `InvalidBidAmount`.
pub fn check_bid_amount(amount: &Coin) -> (checked: Result<(), ContractError>)
    ensures
        amount@.amount > 0 ==> checked is Ok,
        amount@.amount == 0 ==> (checked matches Err(ContractError::InvalidBidAmount {})),
{
    if amount.is_zero() {
        Err(ContractError::InvalidBidAmount {})
    } else {
        Ok(())
    }
}

/// A text that is to lead a composite key has to fit: one that does not is
/// refused as a malformed identity.
pub fn check_key(text: &str) -> (checked: Result<(), ContractError>)
    ensures
        fits_key(text@) ==> checked is Ok,
        !fits_key(text@) ==> (checked matches Err(ContractError::Std(_))),
{
    if key_fits(text) {
        Ok(())
    } else {
        Err(ContractError::Std(key_too_long()))
    }
}

/// What a call on the host amounts to: what the host returned, or the
/// host's failure.
pub fn from_host<T>(returned: Result<T, StdError>) -> (outcome: Result<T, ContractError>)
    ensures
        match returned {
            Ok(value) => outcome matches Ok(same) && same == value,
            Err(failure) => outcome matches Err(ContractError::Std(error)) && error == failure,
        },
{
    match returned {
        Ok(value) => Ok(value),
        Err(failure) => Err(ContractError::Std(failure)),
    }
}

/// What the registry's answer to its setting up amounts to: the receipt of a
/// registry that is set up, or the failure that the registry met.
pub fn set_up(answer: Result<(), StdError>) -> (started: Result<Receipt, StdError>)
    ensures
        match answer {
            Ok(()) => started matches Ok(receipt) && receipt@ == ReceiptView::Instantiated,
            Err(failure) => started matches Err(error) && error == failure,
        },
{
    match answer {
        Ok(()) => Ok(Receipt::Instantiated),
        Err(failure) => Err(failure),
    }
}

/// What a lookup in the store or in the registry amounts to: what was
/// found, `NotFound` where nothing is kept under the key, or the store's
/// failure.
pub fn found<T>(lookup: Result<Option<T>, StdError>) -> (kept: Result<T, ContractError>)
    ensures
        match lookup {
            Ok(Some(value)) => kept matches Ok(same) && same == value,
            Ok(None) => kept matches Err(ContractError::NotFound {}),
            Err(failure) => kept matches Err(ContractError::Std(error)) && error == failure,
        },
{
    match lookup {
        Ok(Some(value)) => Ok(value),
        Ok(None) => Err(ContractError::NotFound {}),
        Err(failure) => Err(ContractError::Std(failure)),
    }
}

/// Only the owner may dispose of an asset: anyone else is `Unauthorized`.
pub fn authorize(sender: &str, owner: &str) -> (allowed: Result<(), ContractError>)
    ensures
        sender@ == owner@ ==> allowed is Ok,
        sender@ != owner@ ==> (allowed matches Err(ContractError::Unauthorized {})),
{
    if sender.to_owned() == owner.to_owned() {
        Ok(())
    } else {
        Err(ContractError::Unauthorized {})
    }
}

/// What a lookup of a standing bid amounts to when the bid is to be
/// accepted: the bid's amount and recipient, `InvalidBidAmount` where there
/// is no bid or the bid offers nothing, or the store's failure.
pub fn acceptable_bid(lookup: Result<Option<(Coin, String)>, StdError>) -> (bid: Result<
    (Coin, String),
    ContractError,
>)
    ensures
        match lookup {
            Ok(Some(stored)) => if stored.0@.amount > 0 {
                bid matches Ok(same) && same == stored
            } else {
                bid matches Err(ContractError::InvalidBidAmount {})
            },
            Ok(None) => bid matches Err(ContractError::InvalidBidAmount {}),
            Err(failure) => bid matches Err(ContractError::Std(error)) && error == failure,
        },
{
    match lookup {
        Ok(Some(stored)) => {
            if stored.0.is_zero() {
                Err(ContractError::InvalidBidAmount {})
            } else {
                Ok(stored)
            }
        },
        Ok(None) => Err(ContractError::InvalidBidAmount {}),
        Err(failure) => Err(ContractError::Std(failure)),
    }
}

/// Whether a registry that counts `count` assets can count one more.
pub fn can_mint(count: u64) -> (room: bool)
    ensures
        room == (count < u64::MAX),
{
    count < u64::MAX
}

} // verus!
