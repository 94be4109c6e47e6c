//! What follows from the operations' contracts. Each law speaks of any call
//! that meets the contract of its operation: `before` and `after` are the
//! markets on both sides of the call.

use vstd::prelude::*;
use cosmwasm_std::Deps;
use crate::contract::{answered, ask_published, bid_accepted, bid_placed, executed};
use crate::contract::publication_obstacle;
use crate::error::ContractError;
use crate::host::{fits_key, market_in};
use crate::market::{crosses, Market, Offer};
use crate::msg::{ExecuteMsg, PayoutView, QueryMsg, QueryResponse, Receipt};
use crate::state::{BidView, CoinView};

verus! {

/// A bid is well put where the asset's name fits a key and the host takes
/// bidder and recipient for addresses.
pub open spec fn well_put(
    market: Market,
    token: Seq<char>,
    bidder: Seq<char>,
    recipient: Seq<char>,
) -> bool {
    fits_key(token) && market.identities.contains(bidder) && market.identities.contains(recipient)
}

/// A well put bid that offers more than the ask, in the ask's denomination,
/// succeeds: it hands the asset to the bid's recipient, leaves no record of
/// the bid, leaves the ask, and releases what it offers to the seller, once.
/// The texts of seller and recipient have to fit a key.
pub proof fn law_crossing_bid_settles(
    before: Market,
    after: Market,
    token: Seq<char>,
    amount: CoinView,
    bidder: Seq<char>,
    recipient: Seq<char>,
    placed: Result<Receipt, ContractError>,
    price: CoinView,
    seller: Seq<char>,
)
    requires
        bid_placed(before, after, token, amount, bidder, recipient, placed),
        well_put(before, token, bidder, recipient),
        before.ask(token) == Some(price),
        amount.amount > price.amount,
        amount.denom == price.denom,
        before.owner(token) == Some(seller),
        fits_key(seller),
        fits_key(recipient),
    ensures
        placed is Ok,
        after.owner(token) == Some(recipient),
        !after.bids.contains_key((token, bidder)),
        after.asks == before.asks,
        placed->Ok_0@.messages() == seq![PayoutView { to: seller, amount }],
{
}

/// A well put bid that offers something, but no more than the ask or in
/// another denomination, succeeds: it leaves ownership alone, stands as the
/// bidder's bid and releases no funds.
pub proof fn law_resting_bid_stands(
    before: Market,
    after: Market,
    token: Seq<char>,
    amount: CoinView,
    bidder: Seq<char>,
    recipient: Seq<char>,
    placed: Result<Receipt, ContractError>,
    price: CoinView,
)
    requires
        bid_placed(before, after, token, amount, bidder, recipient, placed),
        well_put(before, token, bidder, recipient),
        before.ask(token) == Some(price),
        amount.amount > 0,
        amount.amount <= price.amount || amount.denom != price.denom,
    ensures
        placed is Ok,
        after.owners == before.owners,
        after.bid(token, bidder) == Some(Offer { amount, recipient }),
        after.asks == before.asks,
        placed->Ok_0@.messages() == Seq::<PayoutView>::empty(),
{
}

/// A bid succeeds only on an asset that is listed, and only where it offers
/// something.
pub proof fn law_bid_needs_an_ask(
    before: Market,
    after: Market,
    token: Seq<char>,
    amount: CoinView,
    bidder: Seq<char>,
    recipient: Seq<char>,
    placed: Result<Receipt, ContractError>,
)
    requires
        bid_placed(before, after, token, amount, bidder, recipient, placed),
        placed is Ok,
    ensures
        before.ask(token) is Some,
        amount.amount > 0,
{
}

/// The owner's acceptance of a standing bid that offers something succeeds,
/// however the bid compares with the ask: the asset goes to the bid's
/// recipient, the bid is consumed, the ask stays, and what the bid offers is
/// released to the owner, once. The asset's name and the texts of owner and
/// recipient have to fit a key, and the host has to take bidder and
/// recipient for addresses.
pub proof fn law_acceptance_overrides_ask(
    before: Market,
    after: Market,
    sender: Seq<char>,
    token: Seq<char>,
    bidder: Seq<char>,
    accepted: Result<Receipt, ContractError>,
    offer: Offer,
)
    requires
        bid_accepted(before, after, sender, token, bidder, accepted),
        before.owner(token) == Some(sender),
        before.bid(token, bidder) == Some(offer),
        offer.amount.amount > 0,
        well_put(before, token, bidder, offer.recipient),
        fits_key(sender),
        fits_key(offer.recipient),
    ensures
        accepted is Ok,
        after.owner(token) == Some(offer.recipient),
        !after.bids.contains_key((token, bidder)),
        after.asks == before.asks,
        accepted->Ok_0@.messages() == seq![PayoutView { to: sender, amount: offer.amount }],
{
}

/// An acceptance settles the bid that it names and no other: every other
/// standing bid is as it was, whatever the outcome.
pub proof fn law_acceptance_keeps_other_bids(
    before: Market,
    after: Market,
    sender: Seq<char>,
    token: Seq<char>,
    bidder: Seq<char>,
    accepted: Result<Receipt, ContractError>,
    other: (Seq<char>, Seq<char>),
)
    requires
        bid_accepted(before, after, sender, token, bidder, accepted),
        other != (token, bidder),
    ensures
        after.bids.contains_key(other) == before.bids.contains_key(other),
        after.bids[other] == before.bids[other],
{
}

/// An acceptance by anyone but the owner fails with `Unauthorized` and
/// changes nothing.
pub proof fn law_only_owner_accepts(
    before: Market,
    after: Market,
    sender: Seq<char>,
    token: Seq<char>,
    bidder: Seq<char>,
    accepted: Result<Receipt, ContractError>,
    owner: Seq<char>,
)
    requires
        bid_accepted(before, after, sender, token, bidder, accepted),
        before.owner(token) == Some(owner),
        owner != sender,
    ensures
        accepted matches Err(ContractError::Unauthorized {}),
        after == before,
{
}

/// A second bid of one bidder on one asset replaces the first: where the
/// second is well put, offers something and does not cross the ask, it
/// succeeds and alone stands afterwards, whatever the bidder's bid was
/// before, and asking for the bidder's bid gives it and nothing of the
/// first.
pub proof fn law_latest_bid_replaces(
    start: Market,
    between: Market,
    after: Market,
    token: Seq<char>,
    bidder: Seq<char>,
    first: Offer,
    second: Offer,
    first_placed: Result<Receipt, ContractError>,
    second_placed: Result<Receipt, ContractError>,
    price: CoinView,
    deps: Deps,
    question: QueryMsg,
    answer: Result<QueryResponse, ContractError>,
)
    requires
        bid_placed(start, between, token, first.amount, bidder, first.recipient, first_placed),
        bid_placed(between, after, token, second.amount, bidder, second.recipient, second_placed),
        well_put(between, token, bidder, second.recipient),
        between.ask(token) == Some(price),
        second.amount.amount > 0,
        !crosses(second.amount, price),
        market_in(deps) == after,
        question matches QueryMsg::BidForTokenBidder { token_id, bidder: asked } && token_id@
            == token && asked@ == bidder,
        answered(deps, question, answer),
    ensures
        second_placed is Ok,
        after.bid(token, bidder) == Some(second),
        forall|other: (Seq<char>, Seq<char>)|
            other != (token, bidder) ==> after.bids.contains_key(other)
                == between.bids.contains_key(other) && after.bids[other] == between.bids[other],
        answer matches Ok(QueryResponse::Bid(response)) && response.bid@ == (BidView {
            amount: second.amount,
            bidder,
            recipient: second.recipient,
        }),
{
}

/// A request that fails, for whatever reason, leaves asks, bids, ownership
/// and the registry exactly as they were.
pub proof fn law_failure_changes_nothing(
    before: Market,
    after: Market,
    sender: Seq<char>,
    msg: ExecuteMsg,
    outcome: Result<Receipt, ContractError>,
)
    requires
        executed(before, after, sender, msg, outcome),
        outcome is Err,
    ensures
        after == before,
{
}

/// A bid of nothing always fails with `InvalidBidAmount` and never reaches
/// the ledger.
pub proof fn law_empty_bid_is_rejected(
    before: Market,
    after: Market,
    token: Seq<char>,
    amount: CoinView,
    bidder: Seq<char>,
    recipient: Seq<char>,
    placed: Result<Receipt, ContractError>,
)
    requires
        bid_placed(before, after, token, amount, bidder, recipient, placed),
        amount.amount == 0,
    ensures
        placed matches Err(ContractError::InvalidBidAmount {}),
        after == before,
{
}

/// A mint that nothing stands in the way of succeeds: the asset belongs to
/// the owner that was named, is listed at the price that was named, and is
/// counted. Every bid and every other ask and owner is as it was.
pub proof fn law_admitted_mint_lists(
    before: Market,
    after: Market,
    sender: Seq<char>,
    token: Seq<char>,
    owner: Seq<char>,
    price: CoinView,
    published: Result<Receipt, ContractError>,
)
    requires
        ask_published(before, after, sender, token, owner, price, published),
        publication_obstacle(before, sender, token, owner) is None,
    ensures
        published is Ok,
        after.owner(token) == Some(owner),
        after.ask(token) == Some(price),
        after.minted == Some(before.minted->0 + 1),
        after.bids == before.bids,
        forall|other: Seq<char>|
            other != token ==> after.owner(other) == before.owner(other) && after.ask(other)
                == before.ask(other),
{
}

/// A settlement consumes the winning bid and no other: every other standing
/// bid, and every ask, is as it was.
pub proof fn law_settlement_keeps_other_bids(
    before: Market,
    token: Seq<char>,
    bidder: Seq<char>,
    recipient: Seq<char>,
    other: (Seq<char>, Seq<char>),
)
    requires
        other != (token, bidder),
    ensures
        before.settle(token, bidder, recipient).asks == before.asks,
        before.settle(token, bidder, recipient).bids.contains_key(other)
            == before.bids.contains_key(other),
        before.settle(token, bidder, recipient).bids[other] == before.bids[other],
{
}

/// A market that is well formed stays so, whatever is asked of it and
/// however the request ends.
pub proof fn law_market_stays_well_formed(
    before: Market,
    after: Market,
    sender: Seq<char>,
    msg: ExecuteMsg,
    outcome: Result<Receipt, ContractError>,
)
    requires
        executed(before, after, sender, msg, outcome),
        before.well_formed(),
    ensures
        after.well_formed(),
{
}

} // verus!
