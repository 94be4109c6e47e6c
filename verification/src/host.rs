//! The handles through which the marketplace reaches its host: the store,
//! the validation of addresses and the block that a call runs in. The
//! store's bytes are out of sight here; what the marketplace and the registry
//! keep in it is named by three maps, a count and the minter, and what the
//! host takes for an address by a set.

use vstd::prelude::*;
use vstd::utf8::encode_utf8;
use cosmwasm_std::{Deps, DepsMut, Env, StdError};
use crate::market::{Market, Offer};
use crate::state::CoinView;

verus! {

/// `cosmwasm_std::DepsMut`: the host's store, address validation and
/// querier, with leave to write. Nothing of its inside is visible to the
/// verifier.
#[verifier::external_type_specification]
#[verifier::external_body]
pub struct ExDepsMut<'a>(DepsMut<'a>);

/// `cosmwasm_std::Deps`: the same three, read-only.
#[verifier::external_type_specification]
#[verifier::external_body]
pub struct ExDeps<'a>(Deps<'a>);

/// `cosmwasm_std::Env`: the block and contract that a call runs in.
#[verifier::external_type_specification]
#[verifier::external_body]
pub struct ExEnv(Env);

/// `cosmwasm_std::StdError`: the host library's own error, carried through
/// unread.
#[verifier::external_type_specification]
#[verifier::external_body]
pub struct ExStdError(StdError);

/// The asks in the store: for each asset that has an entry in the map of
/// asks, the ask price that the entry decodes to, or `None` where it does
/// not decode.
pub uninterp spec fn asks(deps: Deps) -> Map<Seq<char>, Option<CoinView>>;

/// The standing bids in the store: for each (asset, bidder) pair that has an
/// entry in the map of bids, what the entry decodes to, or `None` where it
/// does not decode.
pub uninterp spec fn bids(deps: Deps) -> Map<(Seq<char>, Seq<char>), Option<Offer>>;

/// The registry's ownership record: for each asset that has a token record,
/// the owner in the record, or `None` where the record does not decode.
pub uninterp spec fn owners(deps: Deps) -> Map<Seq<char>, Option<Seq<char>>>;

/// The number of assets that the registry counts as minted: what its
/// counter holds, zero where it has none, and `None` where the counter does
/// not decode.
pub uninterp spec fn minted(deps: Deps) -> Option<nat>;

/// The party that the registry lets mint: the minter that it holds, where
/// it holds one that decodes.
pub uninterp spec fn minter(deps: Deps) -> Option<Seq<char>>;

/// The texts that the host's address validation accepts. The host answers
/// alike whenever it is asked about the same text.
pub uninterp spec fn identities(deps: Deps) -> Set<Seq<char>>;

/// The asks in the store behind a mutable handle, as `asks` names them.
pub uninterp spec fn asks_of(deps: DepsMut) -> Map<Seq<char>, Option<CoinView>>;

/// The standing bids in the store behind a mutable handle, as `bids` names
/// them.
pub uninterp spec fn bids_of(deps: DepsMut) -> Map<(Seq<char>, Seq<char>), Option<Offer>>;

/// The registry's ownership record behind a mutable handle, as `owners`
/// names it.
pub uninterp spec fn owners_of(deps: DepsMut) -> Map<Seq<char>, Option<Seq<char>>>;

/// The number of assets that the registry counts as minted, behind a
/// mutable handle, as `minted` names it.
pub uninterp spec fn minted_of(deps: DepsMut) -> Option<nat>;

/// The party that the registry lets mint, behind a mutable handle, as
/// `minter` names it.
pub uninterp spec fn minter_of(deps: DepsMut) -> Option<Seq<char>>;

/// The texts that the host's address validation accepts, behind a mutable
/// handle, as `identities` names them.
pub uninterp spec fn identities_of(deps: DepsMut) -> Set<Seq<char>>;

/// The marketplace state seen through a read-only handle.
pub open spec fn market_in(deps: Deps) -> Market {
    Market {
        asks: asks(deps),
        bids: bids(deps),
        owners: owners(deps),
        minter: minter(deps),
        minted: minted(deps),
        identities: identities(deps),
    }
}

/// The marketplace state behind a mutable handle.
pub open spec fn market_of(deps: DepsMut) -> Market {
    Market {
        asks: asks_of(deps),
        bids: bids_of(deps),
        owners: owners_of(deps),
        minter: minter_of(deps),
        minted: minted_of(deps),
        identities: identities_of(deps),
    }
}

/// The longest text, in bytes, that the store can frame as a leading part of
/// a composite key.
pub const MAX_KEY_PART: usize = 0xFFFF;

/// The text is short enough to lead a composite key.
pub open spec fn fits_key(text: Seq<char>) -> bool {
    encode_utf8(text).len() <= MAX_KEY_PART
}

/// Whether the text is short enough to lead a composite key.
pub fn key_fits(text: &str) -> (fits: bool)
    ensures
        fits == fits_key(text@),
{
    text.as_bytes().len() <= MAX_KEY_PART
}

/// `cosmwasm_std::DepsMut::as_ref`. The read-only handle that it returns
/// shows the store that is behind the mutable one.
#[verifier::external_body]
pub(crate) fn as_deps<'a>(deps: &'a DepsMut<'_>) -> (view: Deps<'a>)
    ensures
        asks(view) == asks_of(*deps),
        bids(view) == bids_of(*deps),
        owners(view) == owners_of(*deps),
        minted(view) == minted_of(*deps),
        minter(view) == minter_of(*deps),
        identities(view) == identities_of(*deps),
{
    deps.as_ref()
}

/// `cosmwasm_std::Api::addr_validate` of the host. Which texts it accepts is
/// the host's affair, and the same for every call; an accepted address has
/// the text that was handed in.
#[verifier::external_body]
pub(crate) fn api_validate(deps: Deps<'_>, input: &str) -> (checked: Result<String, StdError>)
    ensures
        match checked {
            Ok(address) => identities(deps).contains(input@) && address@ == input@,
            Err(_) => !identities(deps).contains(input@),
        },
{
    match deps.api.addr_validate(input) {
        Ok(address) => Ok(address.into_string()),
        Err(error) => Err(error),
    }
}

/// `cosmwasm_std::StdError::generic_err`, with the message for a text that is
/// too long to lead a key.
#[verifier::external_body]
pub(crate) fn key_too_long() -> StdError {
    StdError::generic_err("identifier is longer than 65535 bytes")
}

} // verus!
