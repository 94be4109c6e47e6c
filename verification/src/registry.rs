//! The asset registry, as `cw721_base` keeps it in the host's store: who owns
//! which asset, and the transfer and mint primitives.

use vstd::prelude::*;
use cosmwasm_std::{Addr, Deps, DepsMut, Env, MessageInfo, StdError};
use cw721_base::ContractError as RegistryError;
use cw721_base::msg::InstantiateMsg;
use cw721_base::msg::MintMsg as RegistryMint;
use crate::error::ErrorKind;
use crate::host::{fits_key, identities_of, market_of, minted, minter, owners};
use crate::market::Market;
use crate::msg::Cw721MintMsg;

verus! {

/// `cw721_base::ContractError`: the ways in which the registry refuses. The
/// verifier reads its variants from the crate.
#[verifier::external_type_specification]
pub struct ExRegistryError(RegistryError);

/// `cw721_base::msg::InstantiateMsg`: the registry's name, symbol and minter.
/// The verifier reads its fields from the crate.
#[verifier::external_type_specification]
pub struct ExInstantiateMsg(InstantiateMsg);

/// What stands in the way of the registration of `token` for `owner` by
/// `sender`, if anything does: the kind of refusal that the registry answers
/// with before it writes anything. The registry has to name a minter, and
/// `sender` has to be it. Then the host has to take the owner for an address.
/// Then the asset must not be registered yet.
pub open spec fn mint_obstacle(
    market: Market,
    sender: Seq<char>,
    token: Seq<char>,
    owner: Seq<char>,
) -> Option<ErrorKind> {
    match market.minter {
        None => Some(ErrorKind::Std),
        Some(minter) => if minter != sender {
            Some(ErrorKind::Unauthorized)
        } else if !market.identities.contains(owner) {
            Some(ErrorKind::Std)
        } else if !market.owners.contains_key(token) {
            None
        } else if market.owners[token] is Some {
            Some(ErrorKind::Claimed)
        } else {
            Some(ErrorKind::Std)
        },
    }
}

/// The kind of a refusal of the registry.
pub open spec fn refusal_kind(refusal: RegistryError) -> ErrorKind {
    match refusal {
        RegistryError::Std(_) => ErrorKind::Std,
        RegistryError::Unauthorized {} => ErrorKind::Unauthorized,
        RegistryError::Claimed {} => ErrorKind::Claimed,
        RegistryError::Expired {} => ErrorKind::Expired,
    }
}

/// `cw_storage_plus::IndexedMap::may_load` on `cw721_base::state::tokens()`.
/// It returns the owner in the asset's record, nothing where the asset has no
/// record, and an error where the record does not decode.
#[verifier::external_body]
pub(crate) fn owner_load(deps: Deps<'_>, token_id: &str) -> (found: Result<
    Option<String>,
    StdError,
>)
    ensures
        match found {
            Ok(Some(owner)) => owners(deps).contains_key(token_id@) && owners(deps)[token_id@]
                == Some(owner@),
            Ok(None) => !owners(deps).contains_key(token_id@),
            Err(_) => owners(deps).contains_key(token_id@) && owners(deps)[token_id@] is None,
        },
{
    match cw721_base::state::tokens().may_load(deps.storage, token_id) {
        Ok(Some(token)) => Ok(Some(token.owner.into_string())),
        Ok(None) => Ok(None),
        Err(error) => Err(error),
    }
}

/// `cw_storage_plus::Item::may_load` on `cw721_base::state::MINTER`. It
/// returns the minter that the registry holds, and nothing or an error where
/// it holds none that decodes.
#[verifier::external_body]
pub(crate) fn minter_load(deps: Deps<'_>) -> (found: Result<Option<String>, StdError>)
    ensures
        match found {
            Ok(Some(name)) => minter(deps) == Some(name@),
            Ok(None) | Err(_) => minter(deps) is None,
        },
{
    match cw721_base::state::MINTER.may_load(deps.storage) {
        Ok(Some(name)) => Ok(Some(name.into_string())),
        Ok(None) => Ok(None),
        Err(error) => Err(error),
    }
}

/// `cw721_base::state::num_tokens`. It returns the count of minted assets,
/// and an error where the counter does not decode.
#[verifier::external_body]
pub(crate) fn minted_load(deps: Deps<'_>) -> (count: Result<u64, StdError>)
    ensures
        match count {
            Ok(n) => minted(deps) == Some(n as nat),
            Err(_) => minted(deps) is None,
        },
{
    cw721_base::state::num_tokens(deps.storage)
}

/// `cw721_base::contract::_transfer_nft`, called in the name of `from`, which
/// has to be the owner in the asset's record if the record decodes. The
/// registry then has no ground to refuse the sender, and the record that it
/// writes always encodes: the transfer succeeds exactly where the asset has
/// a record that decodes and the host takes `to` for an address. On success
/// `to` owns the asset; on failure, which is one of the store or of the
/// host, nothing has changed. Asks and bids are not touched either way. The
/// texts of `from` and `to` lead index keys, so they have to fit.
#[verifier::external_body]
pub(crate) fn registry_transfer(
    deps: &mut DepsMut<'_>,
    env: &Env,
    from: &str,
    to: &str,
    token_id: &str,
) -> (moved: Result<(), RegistryError>)
    requires
        market_of(*old(deps)).owner(token_id@) matches Some(owner) ==> owner == from@,
        fits_key(from@),
        fits_key(to@),
    ensures
        moved is Ok <==> market_of(*old(deps)).owner(token_id@) is Some && identities_of(
            *old(deps),
        ).contains(to@),
        moved is Ok ==> market_of(*final(deps)) == market_of(*old(deps)).assign(token_id@, to@),
        moved is Err ==> market_of(*final(deps)) == market_of(*old(deps)),
        moved matches Err(refusal) ==> refusal is Std,
{
    let info = MessageInfo { sender: Addr::unchecked(from), funds: Vec::new() };
    match cw721_base::contract::_transfer_nft(deps.branch(), env, &info, to, token_id) {
        Ok(_) => Ok(()),
        Err(refusal) => Err(refusal),
    }
}

/// `cw721_base::contract::execute_mint`, called in the name of `sender`. The
/// registry refuses as `mint_obstacle` says, and has written nothing then.
/// Where nothing stands in the way it succeeds: the asset is registered to
/// the owner that the message names, and counted. Asks, bids and the minter
/// are not touched either way. Only where nothing stands in the way does the
/// registry frame an index key with the owner's text, which has to fit then,
/// and count, for which its counter must have room.
#[verifier::external_body]
pub(crate) fn registry_mint(
    deps: &mut DepsMut<'_>,
    env: &Env,
    sender: &str,
    msg: &Cw721MintMsg,
) -> (minting: Result<(), RegistryError>)
    requires
        mint_obstacle(market_of(*old(deps)), sender@, msg.token_id@, msg.owner@) is None
            ==> fits_key(msg.owner@) && market_of(*old(deps)).has_room(),
    ensures
        match mint_obstacle(market_of(*old(deps)), sender@, msg.token_id@, msg.owner@) {
            Some(kind) => minting matches Err(refusal) && refusal_kind(refusal) == kind
                && market_of(*final(deps)) == market_of(*old(deps)),
            None => minting is Ok && market_of(*final(deps)) == market_of(*old(deps)).register(
                msg.token_id@,
                msg.owner@,
            ),
        },
{
    let info = MessageInfo { sender: Addr::unchecked(sender), funds: Vec::new() };
    let base = RegistryMint {
        token_id: msg.token_id.clone(),
        owner: msg.owner.clone(),
        name: msg.name.clone(),
        description: msg.description.clone(),
        image: msg.image.clone(),
    };
    match cw721_base::contract::execute_mint(deps.branch(), env.clone(), info, base) {
        Ok(_) => Ok(()),
        Err(refusal) => Err(refusal),
    }
}

/// `cw721_base::contract::instantiate`, called in the name of `sender`. What
/// it writes always encodes, so it succeeds exactly with a minter that the
/// host takes for an address, and then names that minter. It leaves assets,
/// asks and bids alone, and on failure the minter too.
#[verifier::external_body]
pub(crate) fn registry_instantiate(
    deps: &mut DepsMut<'_>,
    env: &Env,
    sender: &str,
    msg: InstantiateMsg,
) -> (started: Result<(), StdError>)
    ensures
        started is Ok <==> identities_of(*old(deps)).contains(msg.minter@),
        started is Ok ==> market_of(*final(deps)) == market_of(*old(deps)).appoint(msg.minter@),
        started is Err ==> market_of(*final(deps)) == market_of(*old(deps)),
{
    let info = MessageInfo { sender: Addr::unchecked(sender), funds: Vec::new() };
    match cw721_base::contract::instantiate(deps.branch(), env.clone(), info, msg) {
        Ok(_) => Ok(()),
        Err(error) => Err(error),
    }
}

} // verus!
