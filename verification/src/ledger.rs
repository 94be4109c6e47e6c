//! The escrow ledger: the map of asks by asset and the map of standing bids
//! by asset and bidder, kept in the host's store through `cw_storage_plus`.

use vstd::prelude::*;
use cosmwasm_std::{Addr, Deps, DepsMut, StdError};
use cw_storage_plus::Map as StoredMap;
use crate::host::{asks, bids, fits_key, market_of};
use crate::market::Offer;
use crate::state::Coin;

verus! {

/// `cw_storage_plus::Map::may_load` on the map of asks. It returns the ask
/// that the asset's entry decodes to, nothing where the asset has no entry,
/// and an error where the entry does not decode.
#[verifier::external_body]
pub(crate) fn ask_load(deps: Deps<'_>, token_id: &str) -> (found: Result<Option<Coin>, StdError>)
    ensures
        match found {
            Ok(Some(price)) => asks(deps).contains_key(token_id@) && asks(deps)[token_id@]
                == Some(price@),
            Ok(None) => !asks(deps).contains_key(token_id@),
            Err(_) => asks(deps).contains_key(token_id@) && asks(deps)[token_id@] is None,
        },
{
    let map = StoredMap::<&str, cosmwasm_std::Coin>::new("token asks");
    match map.may_load(deps.storage, token_id) {
        Ok(Some(price)) => Ok(Some(Coin { denom: price.denom, amount: price.amount.u128() })),
        Ok(None) => Ok(None),
        Err(error) => Err(error),
    }
}

/// `cw_storage_plus::Map::save` on the map of asks. A coin always encodes,
/// so the save succeeds: the asset's ask is `price`, and no other ask, no
/// bid and nothing of the registry has changed.
#[verifier::external_body]
pub(crate) fn ask_save(deps: &mut DepsMut<'_>, token_id: &str, price: &Coin) -> (saved: Result<
    (),
    StdError,
>)
    ensures
        saved is Ok,
        market_of(*final(deps)) == market_of(*old(deps)).list(token_id@, price@),
{
    let stored = cosmwasm_std::Coin::new(price.amount, price.denom.clone());
    let map = StoredMap::<&str, cosmwasm_std::Coin>::new("token asks");
    map.save(deps.storage, token_id, &stored)
}

/// `cw_storage_plus::Map::may_load` on the map of bids. It returns the amount
/// and the recipient that the pair's entry decodes to, nothing where the pair
/// has no entry, and an error where the entry does not decode. The asset's
/// text leads the key, so it has to fit.
#[verifier::external_body]
pub(crate) fn bid_load(deps: Deps<'_>, token_id: &str, bidder: &str) -> (found: Result<
    Option<(Coin, String)>,
    StdError,
>)
    requires
        fits_key(token_id@),
    ensures
        match found {
            Ok(Some(bid)) => bids(deps).contains_key((token_id@, bidder@)) && bids(deps)[(
                token_id@,
                bidder@,
            )] == Some(Offer { amount: bid.0@, recipient: bid.1@ }),
            Ok(None) => !bids(deps).contains_key((token_id@, bidder@)),
            Err(_) => bids(deps).contains_key((token_id@, bidder@)) && bids(deps)[(
                token_id@,
                bidder@,
            )] is None,
        },
{
    let who = Addr::unchecked(bidder);
    let map = StoredMap::<(&str, &Addr), (cosmwasm_std::Coin, Addr)>::new("token_bidders");
    match map.may_load(deps.storage, (token_id, &who)) {
        Ok(Some((amount, recipient))) => Ok(
            Some(
                (
                    Coin { denom: amount.denom, amount: amount.amount.u128() },
                    recipient.into_string(),
                ),
            ),
        ),
        Ok(None) => Ok(None),
        Err(error) => Err(error),
    }
}

/// `cw_storage_plus::Map::save` on the map of bids. A coin and an address
/// always encode, so the save succeeds: the pair's standing bid is the one
/// handed in, and no other bid, no ask and nothing of the registry has
/// changed. The asset's text leads the key, so it has to fit.
#[verifier::external_body]
pub(crate) fn bid_save(
    deps: &mut DepsMut<'_>,
    token_id: &str,
    bidder: &str,
    amount: &Coin,
    recipient: &str,
) -> (saved: Result<(), StdError>)
    requires
        fits_key(token_id@),
    ensures
        saved is Ok,
        market_of(*final(deps)) == market_of(*old(deps)).record(
            token_id@,
            bidder@,
            Offer { amount: amount@, recipient: recipient@ },
        ),
{
    let who = Addr::unchecked(bidder);
    let offered = cosmwasm_std::Coin::new(amount.amount, amount.denom.clone());
    let stored = (offered, Addr::unchecked(recipient));
    let map = StoredMap::<(&str, &Addr), (cosmwasm_std::Coin, Addr)>::new("token_bidders");
    map.save(deps.storage, (token_id, &who), &stored)
}

/// `cw_storage_plus::Map::remove` on the map of bids. Afterwards the pair
/// has no standing bid and no other bid, no ask and no owner has changed.
/// The asset's text leads the key, so it has to fit.
#[verifier::external_body]
pub(crate) fn bid_remove(deps: &mut DepsMut<'_>, token_id: &str, bidder: &str)
    requires
        fits_key(token_id@),
    ensures
        market_of(*final(deps)) == market_of(*old(deps)).withdraw(token_id@, bidder@),
{
    let who = Addr::unchecked(bidder);
    let map = StoredMap::<(&str, &Addr), (cosmwasm_std::Coin, Addr)>::new("token_bidders");
    map.remove(deps.storage, (token_id, &who))
}

} // verus!
