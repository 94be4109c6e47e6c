//! The marketplace operations on the host's store.
//!
//! Each operation reads what it needs, decides, and then writes. What can
//! stand in the way of a request is found before anything is written, so
//! that a request either fails and has written nothing, or succeeds. Each
//! operation's contract is a predicate over the markets on both sides of
//! the call; `laws` draws the consequences.

use vstd::prelude::*;
use cosmwasm_std::{Deps, DepsMut, Env, StdError};
use cw721_base::msg::InstantiateMsg;
use crate::error::{ContractError, ErrorKind};
use crate::host::{
    api_validate, as_deps, asks, bids, fits_key, identities, key_fits, market_in, market_of,
    owners,
};
use crate::ledger::{ask_load, ask_save, bid_load, bid_remove, bid_save};
use crate::market::{crosses, Market, Offer};
use crate::msg::{
    BidForTokenBidderResponse, CurrentAskForTokenResponse, ExecuteMsg, MintMsg, QueryMsg,
    QueryResponse, Receipt, ReceiptView, Settlement, SettlementView,
};
use crate::registry::{
    mint_obstacle, minted_load, minter_load, owner_load, registry_instantiate, registry_mint,
    registry_transfer,
};
use crate::rules::{
    acceptable_bid, authorize, bid_crosses, can_mint, check_bid_amount, check_key, found, from_host,
    set_up,
};
use crate::state::{Ask, AskView, Bid, BidView, Coin, CoinView};

verus! {

/// The party that gets the asset if the bid wins: the one that the bid
/// names, or the bidder.
pub open spec fn bid_recipient(recipient: Option<String>, bidder: Seq<char>) -> Seq<char> {
    match recipient {
        Some(named) => named@,
        None => bidder,
    }
}

/// What stands in the way of a bid of `amount` by `bidder` for `token`
/// in favour of `recipient`, if anything does: the kind of failure that the
/// request meets before anything is written. A bid of nothing is refused
/// first. Then the asset's name has to fit a key and the host has to take
/// bidder and recipient for addresses. Then the asset has to be listed. A
/// bid that crosses the ask needs the asset's owner, and texts of owner and
/// recipient that fit a key.
pub open spec fn bid_obstacle(
    market: Market,
    token: Seq<char>,
    amount: CoinView,
    bidder: Seq<char>,
    recipient: Seq<char>,
) -> Option<ErrorKind> {
    if amount.amount == 0 {
        Some(ErrorKind::InvalidBidAmount)
    } else if !fits_key(token) || !market.identities.contains(bidder)
        || !market.identities.contains(recipient) {
        Some(ErrorKind::Std)
    } else if !market.asks.contains_key(token) {
        Some(ErrorKind::NotFound)
    } else {
        match market.asks[token] {
            None => Some(ErrorKind::Std),
            Some(price) => if !crosses(amount, price) {
                None
            } else if !market.owners.contains_key(token) {
                Some(ErrorKind::NotFound)
            } else {
                match market.owners[token] {
                    None => Some(ErrorKind::Std),
                    Some(seller) => if fits_key(seller) && fits_key(recipient) {
                        None
                    } else {
                        Some(ErrorKind::Std)
                    },
                }
            },
        }
    }
}

/// What holds once `bidder` has asked to place a bid of `amount` for `token`
/// in favour of `recipient`, where `before` and `after` are the markets on
/// both sides of the call and `placed` is its result.
pub open spec fn bid_placed(
    before: Market,
    after: Market,
    token: Seq<char>,
    amount: CoinView,
    bidder: Seq<char>,
    recipient: Seq<char>,
    placed: Result<Receipt, ContractError>,
) -> bool {
    match bid_obstacle(before, token, amount, bidder, recipient) {
        // A request that meets an obstacle fails with it and changes nothing.
        Some(kind) => placed matches Err(error) && error.failure() == kind && after == before,
        // A bid that meets none succeeds: it either crosses the ask and is
        // settled, or is recorded as the bidder's standing bid.
        None => {
            let price = before.asks[token]->0;
            &&& placed matches Ok(receipt)
            &&& after == before.place_bid(token, bidder, Offer { amount, recipient }, price)
            &&& receipt@ == if crosses(amount, price) {
                ReceiptView::BidSettled(
                    SettlementView {
                        token_id: token,
                        seller: before.owners[token]->0,
                        bidder,
                        recipient,
                        price: amount,
                    },
                )
            } else {
                ReceiptView::BidRecorded
            }
        },
    }
}

/// What stands in the way of `sender`'s acceptance of the standing bid of
/// `bidder` for `token`, if anything does: the kind of failure that the
/// request meets before anything is written. The asset has to be registered
/// and `sender` has to be its owner, before anything else is looked at. Then
/// the asset's name has to fit a key and the host has to take the bidder for
/// an address. Then there has to be a standing bid that offers something,
/// the texts of owner and recipient have to fit a key, and the host has to
/// take the recipient for an address.
pub open spec fn acceptance_obstacle(
    market: Market,
    sender: Seq<char>,
    token: Seq<char>,
    bidder: Seq<char>,
) -> Option<ErrorKind> {
    if !market.owners.contains_key(token) {
        Some(ErrorKind::NotFound)
    } else {
        match market.owners[token] {
            None => Some(ErrorKind::Std),
            Some(owner) => if owner != sender {
                Some(ErrorKind::Unauthorized)
            } else if !fits_key(token) || !market.identities.contains(bidder) {
                Some(ErrorKind::Std)
            } else if !market.bids.contains_key((token, bidder)) {
                Some(ErrorKind::InvalidBidAmount)
            } else {
                match market.bids[(token, bidder)] {
                    None => Some(ErrorKind::Std),
                    Some(offer) => if offer.amount.amount == 0 {
                        Some(ErrorKind::InvalidBidAmount)
                    } else if fits_key(owner) && fits_key(offer.recipient)
                        && market.identities.contains(offer.recipient) {
                        None
                    } else {
                        Some(ErrorKind::Std)
                    },
                }
            },
        }
    }
}

/// What holds once `sender` has asked to accept the standing bid of `bidder`
/// for `token`, where `before` and `after` are the markets on both sides of
/// the call and `accepted` is its result.
pub open spec fn bid_accepted(
    before: Market,
    after: Market,
    sender: Seq<char>,
    token: Seq<char>,
    bidder: Seq<char>,
    accepted: Result<Receipt, ContractError>,
) -> bool {
    match acceptance_obstacle(before, sender, token, bidder) {
        // A request that meets an obstacle fails with it and changes nothing.
        Some(kind) => accepted matches Err(error) && error.failure() == kind && after == before,
        // One that meets none succeeds: the owner's acceptance settles the
        // bid, whatever the ask is.
        None => {
            let offer = before.bids[(token, bidder)]->0;
            &&& accepted matches Ok(receipt)
            &&& after == before.accept_bid(token, bidder, offer)
            &&& receipt@ == ReceiptView::BidAccepted(
                SettlementView {
                    token_id: token,
                    seller: sender,
                    bidder,
                    recipient: offer.recipient,
                    price: offer.amount,
                },
            )
        },
    }
}

/// What stands in the way of the registration of `token` for `owner`,
/// listed at a price, by `sender`, if anything does. The registry's own
/// refusals come first. Then the owner's text has to fit a key and the
/// registry's counter has to decode.
pub open spec fn publication_obstacle(
    market: Market,
    sender: Seq<char>,
    token: Seq<char>,
    owner: Seq<char>,
) -> Option<ErrorKind> {
    match mint_obstacle(market, sender, token, owner) {
        Some(kind) => Some(kind),
        None => if fits_key(owner) && market.minted is Some {
            None
        } else {
            Some(ErrorKind::Std)
        },
    }
}

/// The registry's counter is full, and nothing else stands in the way of
/// the registration of `token` for `owner` by `sender`.
pub open spec fn counter_in_the_way(
    market: Market,
    sender: Seq<char>,
    token: Seq<char>,
    owner: Seq<char>,
) -> bool {
    publication_obstacle(market, sender, token, owner) is None && market.minted == Some(
        u64::MAX as nat,
    )
}

/// What holds once `sender` has asked for the registration of `token` for
/// `owner`, listed at `price`, where `before` and `after` are the markets on
/// both sides of the call and `published` is its result.
pub open spec fn ask_published(
    before: Market,
    after: Market,
    sender: Seq<char>,
    token: Seq<char>,
    owner: Seq<char>,
    price: CoinView,
    published: Result<Receipt, ContractError>,
) -> bool {
    match publication_obstacle(before, sender, token, owner) {
        // A request that meets an obstacle fails with it and changes nothing.
        Some(kind) => published matches Err(error) && error.failure() == kind && after == before,
        // One that meets none succeeds: the asset is registered, counted and
        // listed.
        None => published matches Ok(receipt) && receipt@ == ReceiptView::AskPublished && after
            == before.publish(token, owner, price),
    }
}

/// The message mints, the registry's counter is full, and nothing else
/// stands in the way of the mint.
pub open spec fn full_for(market: Market, sender: Seq<char>, msg: ExecuteMsg) -> bool {
    msg matches ExecuteMsg::Mint(mint) && counter_in_the_way(
        market,
        sender,
        mint.base.token_id@,
        mint.base.owner@,
    )
}

/// What holds once `sender` has sent `msg`: what holds of the operation that
/// `msg` asks for.
pub open spec fn executed(
    before: Market,
    after: Market,
    sender: Seq<char>,
    msg: ExecuteMsg,
    outcome: Result<Receipt, ContractError>,
) -> bool {
    match msg {
        ExecuteMsg::Mint(mint) => ask_published(
            before,
            after,
            sender,
            mint.base.token_id@,
            mint.base.owner@,
            mint.ask_amount@,
            outcome,
        ),
        ExecuteMsg::SetBid { token_id, amount, bidder, recipient } => bid_placed(
            before,
            after,
            token_id@,
            amount@,
            bidder@,
            bid_recipient(recipient, bidder@),
            outcome,
        ),
        ExecuteMsg::AcceptBid { token_id, bidder } => bid_accepted(
            before,
            after,
            sender,
            token_id@,
            bidder@,
            outcome,
        ),
    }
}

/// What holds of the answer to the question for an asset's ask: the ask is
/// found where the asset is listed, `NotFound` says that it is not, and the
/// store fails where the listing does not decode.
pub open spec fn ask_answered(deps: Deps, token: Seq<char>, answer: Result<
    CurrentAskForTokenResponse,
    ContractError,
>) -> bool {
    if !asks(deps).contains_key(token) {
        answer matches Err(ContractError::NotFound {})
    } else {
        match asks(deps)[token] {
            None => answer matches Err(ContractError::Std(_)),
            Some(price) => answer matches Ok(response) && response.ask@ == (AskView {
                amount: price,
            }),
        }
    }
}

/// What holds of the answer to the question for a bidder's standing bid. The
/// asset's name has to fit a key and the host has to take the bidder for an
/// address. Then the bid is found where there is one, `NotFound` says that
/// there is none, and the store fails where the bid does not decode.
pub open spec fn bid_answered(deps: Deps, token: Seq<char>, bidder: Seq<char>, answer: Result<
    BidForTokenBidderResponse,
    ContractError,
>) -> bool {
    if !fits_key(token) || !identities(deps).contains(bidder) {
        answer matches Err(ContractError::Std(_))
    } else if !bids(deps).contains_key((token, bidder)) {
        answer matches Err(ContractError::NotFound {})
    } else {
        match bids(deps)[(token, bidder)] {
            None => answer matches Err(ContractError::Std(_)),
            Some(offer) => answer matches Ok(response) && response.bid@ == (BidView {
                amount: offer.amount,
                bidder,
                recipient: offer.recipient,
            }),
        }
    }
}

/// What holds of the answer to the question for an asset's owner: the owner
/// is found where the asset is registered, `NotFound` says that it is not,
/// and the store fails where the record does not decode.
pub open spec fn owner_answered(deps: Deps, token: Seq<char>, answer: Result<
    String,
    ContractError,
>) -> bool {
    if !owners(deps).contains_key(token) {
        answer matches Err(ContractError::NotFound {})
    } else {
        match owners(deps)[token] {
            None => answer matches Err(ContractError::Std(_)),
            Some(owner) => answer matches Ok(name) && name@ == owner,
        }
    }
}

/// What holds of the answer to `question`: what holds of the answer to the
/// question that it asks.
pub open spec fn answered(deps: Deps, question: QueryMsg, answer: Result<
    QueryResponse,
    ContractError,
>) -> bool {
    match question {
        QueryMsg::CurrentAskForToken { token_id } => match answer {
            Ok(QueryResponse::CurrentAsk(response)) => ask_answered(deps, token_id@, Ok(response)),
            Ok(_) => false,
            Err(error) => ask_answered(deps, token_id@, Err(error)),
        },
        QueryMsg::BidForTokenBidder { token_id, bidder } => match answer {
            Ok(QueryResponse::Bid(response)) => bid_answered(
                deps,
                token_id@,
                bidder@,
                Ok(response),
            ),
            Ok(_) => false,
            Err(error) => bid_answered(deps, token_id@, bidder@, Err(error)),
        },
        QueryMsg::OwnerOf { token_id } => match answer {
            Ok(QueryResponse::Owner(owner)) => owner_answered(deps, token_id@, Ok(owner)),
            Ok(_) => false,
            Err(error) => owner_answered(deps, token_id@, Err(error)),
        },
    }
}

/// Hands the asset from `seller`, its owner, to `recipient` and consumes the
/// bidder's standing bid for it. It succeeds exactly where the texts of
/// seller and recipient fit a key and the host takes the recipient for an
/// address. The registry transfer is the one write that can fail, and it
/// comes first: a failure leaves everything as it was.
fn transfer_nft(
    deps: &mut DepsMut<'_>,
    env: &Env,
    seller: &str,
    recipient: &str,
    token_id: &str,
    bidder: &str,
) -> (done: Result<(), ContractError>)
    requires
        fits_key(token_id@),
        market_of(*old(deps)).owner(token_id@) == Some(seller@),
    ensures
        done is Ok <==> fits_key(seller@) && fits_key(recipient@) && market_of(
            *old(deps),
        ).identities.contains(recipient@),
        done is Ok ==> market_of(*final(deps)) == market_of(*old(deps)).settle(
            token_id@,
            bidder@,
            recipient@,
        ),
        done matches Err(error) ==> error is Std && market_of(*final(deps)) == market_of(
            *old(deps),
        ),
{
    check_key(seller)?;
    check_key(recipient)?;
    if let Err(refusal) = registry_transfer(deps, env, seller, recipient, token_id) {
        return Err(ContractError::from(refusal));
    }
    bid_remove(deps, token_id, bidder);
    Ok(())
}

/// Places a bid of `amount` by `bidder` for the asset. A bid that crosses the
/// asset's ask is settled at once: the asset goes to the recipient (the
/// bidder, where none is named), the bidder's standing bid is consumed and
/// the receipt tells the seller's payout. Any other bid becomes the bidder's
/// standing bid in place of an earlier one. A bid of nothing is rejected
/// before anything else is looked at, and a failure changes nothing.
pub fn execute_set_bid(
    deps: &mut DepsMut<'_>,
    env: &Env,
    token_id: String,
    amount: Coin,
    bidder: String,
    recipient: Option<String>,
) -> (placed: Result<Receipt, ContractError>)
    ensures
        bid_placed(
            market_of(*old(deps)),
            market_of(*final(deps)),
            token_id@,
            amount@,
            bidder@,
            bid_recipient(recipient, bidder@),
            placed,
        ),
{
    check_bid_amount(&amount)?;
    check_key(token_id.as_str())?;
    let bidder = from_host(api_validate(as_deps(deps), bidder.as_str()))?;
    let recipient = match recipient {
        Some(named) => from_host(api_validate(as_deps(deps), named.as_str()))?,
        None => bidder.clone(),
    };
    let ask = found(ask_load(as_deps(deps), token_id.as_str()))?;
    if bid_crosses(&amount, &ask) {
        let seller = found(owner_load(as_deps(deps), token_id.as_str()))?;
        transfer_nft(
            deps,
            env,
            seller.as_str(),
            recipient.as_str(),
            token_id.as_str(),
            bidder.as_str(),
        )?;
        Ok(Receipt::BidSettled(Settlement { token_id, seller, bidder, recipient, price: amount }))
    } else {
        from_host(
            bid_save(deps, token_id.as_str(), bidder.as_str(), &amount, recipient.as_str()),
        )?;
        Ok(Receipt::BidRecorded)
    }
}

/// Accepts the standing bid of `bidder` for the asset, in the name of
/// `sender`. Only the asset's owner may accept: anyone else is turned away
/// with `Unauthorized`, whatever else is wrong with the request. The bid is
/// settled whether or not it reaches the ask: the asset goes to the bid's
/// recipient, the bid is consumed and the receipt tells the seller's payout.
/// A failure changes nothing.
pub fn execute_accept_bid(
    deps: &mut DepsMut<'_>,
    env: &Env,
    sender: &str,
    token_id: String,
    bidder: String,
) -> (accepted: Result<Receipt, ContractError>)
    ensures
        bid_accepted(
            market_of(*old(deps)),
            market_of(*final(deps)),
            sender@,
            token_id@,
            bidder@,
            accepted,
        ),
{
    let seller = found(owner_load(as_deps(deps), token_id.as_str()))?;
    authorize(sender, seller.as_str())?;
    check_key(token_id.as_str())?;
    let bidder = from_host(api_validate(as_deps(deps), bidder.as_str()))?;
    let (price, recipient) = acceptable_bid(
        bid_load(as_deps(deps), token_id.as_str(), bidder.as_str()),
    )?;
    transfer_nft(
        deps,
        env,
        seller.as_str(),
        recipient.as_str(),
        token_id.as_str(),
        bidder.as_str(),
    )?;
    Ok(Receipt::BidAccepted(Settlement { token_id, seller, bidder, recipient, price }))
}

/// Whether nothing stands in the way of the registry when `sender` asks it
/// to register `token_id` for `owner`.
fn registry_admits(deps: Deps<'_>, sender: &str, token_id: &str, owner: &str) -> (clear: bool)
    ensures
        clear == (mint_obstacle(market_in(deps), sender@, token_id@, owner@) is None),
{
    match minter_load(deps) {
        Ok(Some(minter)) => {
            if minter != sender.to_owned() {
                false
            } else if api_validate(deps, owner).is_err() {
                false
            } else {
                match owner_load(deps, token_id) {
                    Ok(None) => true,
                    _ => false,
                }
            }
        },
        _ => false,
    }
}

/// Registers the asset that `msg` describes, in the name of `sender`, and
/// lists it at the ask price of `msg`. The registry's refusals come first,
/// and are handed on as they are. Where nothing else stands in the way of
/// the request, the registry's counter must not be full; `execute_checked`
/// finds that out.
pub fn execute_mint(deps: &mut DepsMut<'_>, env: &Env, sender: &str, msg: MintMsg) -> (published:
    Result<Receipt, ContractError>)
    requires
        !counter_in_the_way(
            market_of(*old(deps)),
            sender@,
            msg.base.token_id@,
            msg.base.owner@,
        ),
    ensures
        ask_published(
            market_of(*old(deps)),
            market_of(*final(deps)),
            sender@,
            msg.base.token_id@,
            msg.base.owner@,
            msg.ask_amount@,
            published,
        ),
{
    if registry_admits(
        as_deps(deps),
        sender,
        msg.base.token_id.as_str(),
        msg.base.owner.as_str(),
    ) {
        check_key(msg.base.owner.as_str())?;
        from_host(minted_load(as_deps(deps)))?;
    }
    if let Err(refusal) = registry_mint(deps, env, sender, &msg.base) {
        return Err(ContractError::from(refusal));
    }
    from_host(ask_save(deps, msg.base.token_id.as_str(), &msg.ask_amount))?;
    Ok(Receipt::AskPublished)
}

/// Sets the registry up, in the name of `sender`, with the minter that
/// `msg` names. It succeeds exactly with a minter that the host takes for
/// an address, and the registry names that minter then. Assets, asks and
/// bids are as they were, whether or not it succeeds, and a failure leaves
/// the minter as it was too.
pub fn instantiate(deps: &mut DepsMut<'_>, env: &Env, sender: &str, msg: InstantiateMsg) -> (started:
    Result<Receipt, StdError>)
    ensures
        started is Ok <==> market_of(*old(deps)).identities.contains(msg.minter@),
        match started {
            Ok(receipt) => receipt@ == ReceiptView::Instantiated && market_of(*final(deps))
                == market_of(*old(deps)).appoint(msg.minter@),
            Err(_) => market_of(*final(deps)) == market_of(*old(deps)),
        },
{
    set_up(registry_instantiate(deps, env, sender, msg))
}

/// Carries out what `msg` asks for, in the name of `sender`. Where `msg`
/// mints and nothing else stands in the way, the registry's counter must not
/// be full; `execute_checked` finds that out.
pub fn execute(deps: &mut DepsMut<'_>, env: &Env, sender: &str, msg: ExecuteMsg) -> (outcome: Result<
    Receipt,
    ContractError,
>)
    requires
        !full_for(market_of(*old(deps)), sender@, msg),
    ensures
        executed(market_of(*old(deps)), market_of(*final(deps)), sender@, msg, outcome),
{
    match msg {
        ExecuteMsg::Mint(msg) => execute_mint(deps, env, sender, msg),
        ExecuteMsg::SetBid { token_id, amount, bidder, recipient } => execute_set_bid(
            deps,
            env,
            token_id,
            amount,
            bidder,
            recipient,
        ),
        ExecuteMsg::AcceptBid { token_id, bidder } => execute_accept_bid(
            deps,
            env,
            sender,
            token_id,
            bidder,
        ),
    }
}

/// `execute` for a caller that does not know how many assets the registry
/// counts. A mint that only the full counter stands in the way of is not
/// carried out: the answer is `None` then, and nothing has changed. Any
/// other request is carried out as `execute` does.
pub fn execute_checked(deps: &mut DepsMut<'_>, env: &Env, sender: &str, msg: ExecuteMsg) -> (outcome:
    Option<Result<Receipt, ContractError>>)
    ensures
        match outcome {
            Some(result) => executed(
                market_of(*old(deps)),
                market_of(*final(deps)),
                sender@,
                msg,
                result,
            ),
            None => market_of(*final(deps)) == market_of(*old(deps)),
        },
        outcome is None <==> full_for(market_of(*old(deps)), sender@, msg),
{
    if let ExecuteMsg::Mint(mint) = &msg {
        if let Ok(count) = minted_load(as_deps(deps)) {
            if !can_mint(count) && key_fits(mint.base.owner.as_str()) && registry_admits(
                as_deps(deps),
                sender,
                mint.base.token_id.as_str(),
                mint.base.owner.as_str(),
            ) {
                return None;
            }
        }
    }
    Some(execute(deps, env, sender, msg))
}

/// The asset's current ask.
pub fn query_current_ask_for_token(deps: Deps<'_>, token_id: String) -> (answer: Result<
    CurrentAskForTokenResponse,
    ContractError,
>)
    ensures
        ask_answered(deps, token_id@, answer),
{
    match found(ask_load(deps, token_id.as_str())) {
        Ok(price) => Ok(CurrentAskForTokenResponse { ask: Ask { amount: price } }),
        Err(error) => Err(error),
    }
}

/// The standing bid of `bidder` for the asset.
pub fn query_bid_for_token_bidder(deps: Deps<'_>, token_id: String, bidder: String) -> (answer:
    Result<BidForTokenBidderResponse, ContractError>)
    ensures
        bid_answered(deps, token_id@, bidder@, answer),
{
    check_key(token_id.as_str())?;
    let bidder = from_host(api_validate(deps, bidder.as_str()))?;
    match found(bid_load(deps, token_id.as_str(), bidder.as_str())) {
        Ok((amount, recipient)) => Ok(
            BidForTokenBidderResponse { bid: Bid { amount, bidder, recipient } },
        ),
        Err(error) => Err(error),
    }
}

/// The asset's owner.
pub fn query_owner_of(deps: Deps<'_>, token_id: String) -> (answer: Result<String, ContractError>)
    ensures
        owner_answered(deps, token_id@, answer),
{
    found(owner_load(deps, token_id.as_str()))
}

/// Answers `msg` from the store.
pub fn query(deps: Deps<'_>, msg: QueryMsg) -> (answer: Result<QueryResponse, ContractError>)
    ensures
        answered(deps, msg, answer),
{
    match msg {
        QueryMsg::CurrentAskForToken { token_id } => {
            match query_current_ask_for_token(deps, token_id) {
                Ok(response) => Ok(QueryResponse::CurrentAsk(response)),
                Err(error) => Err(error),
            }
        },
        QueryMsg::BidForTokenBidder { token_id, bidder } => {
            match query_bid_for_token_bidder(deps, token_id, bidder) {
                Ok(response) => Ok(QueryResponse::Bid(response)),
                Err(error) => Err(error),
            }
        },
        QueryMsg::OwnerOf { token_id } => {
            match query_owner_of(deps, token_id) {
                Ok(owner) => Ok(QueryResponse::Owner(owner)),
                Err(error) => Err(error),
            }
        },
    }
}

} // verus!
