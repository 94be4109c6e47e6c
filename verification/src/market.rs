//! The marketplace as a mathematical state machine: the asks, the standing
//! bids and the ownership record, and how each operation changes them.

use vstd::prelude::*;
use crate::state::CoinView;

verus! {

/// What the ledger keeps of one standing bid: the funds offered and the
/// party that gets the asset if the bid wins.
pub struct Offer {
    pub amount: CoinView,
    pub recipient: Seq<char>,
}

/// The state that the operations read and change. Assets and parties are
/// identified by their text. Each map has an entry for each key under which
/// the store holds something: what the stored bytes decode to, or `None`
/// where they do not decode.
#[verifier::ext_equal]
pub struct Market {
    /// The ask price of each listed asset.
    pub asks: Map<Seq<char>, Option<CoinView>>,
    /// The standing bid of each (asset, bidder) pair that has one.
    pub bids: Map<(Seq<char>, Seq<char>), Option<Offer>>,
    /// The owner of each registered asset.
    pub owners: Map<Seq<char>, Option<Seq<char>>>,
    /// The party that may register assets, where the registry names one.
    pub minter: Option<Seq<char>>,
    /// The number of assets that the registry has counted, or `None` where
    /// its counter does not decode.
    pub minted: Option<nat>,
    /// The texts that the host takes for the address of a party. No
    /// operation changes them.
    pub identities: Set<Seq<char>>,
}

/// A bid crosses an ask when it offers strictly more than the ask, in the
/// ask's own denomination. Amounts of different denominations never cross.
pub open spec fn crosses(bid: CoinView, ask: CoinView) -> bool {
    bid.amount > ask.amount && bid.denom == ask.denom
}

impl Market {
    /// The price at which the asset is listed, where it is listed and the
    /// listing can be read.
    pub open spec fn ask(self, token: Seq<char>) -> Option<CoinView> {
        if self.asks.contains_key(token) {
            self.asks[token]
        } else {
            None
        }
    }

    /// The standing bid of the bidder for the asset, where there is one and
    /// it can be read.
    pub open spec fn bid(self, token: Seq<char>, bidder: Seq<char>) -> Option<Offer> {
        if self.bids.contains_key((token, bidder)) {
            self.bids[(token, bidder)]
        } else {
            None
        }
    }

    /// The owner of the asset, where the asset is registered and its record
    /// can be read.
    pub open spec fn owner(self, token: Seq<char>) -> Option<Seq<char>> {
        if self.owners.contains_key(token) {
            self.owners[token]
        } else {
            None
        }
    }

    /// The market is as the operations leave it: every entry can be read,
    /// every standing bid offers a positive amount, its bidder and its
    /// recipient are parties that the host takes for addresses, and so is
    /// every owner.
    pub open spec fn well_formed(self) -> bool {
        &&& forall|token: Seq<char>| #[trigger]
            self.asks.contains_key(token) ==> self.asks[token] is Some
        &&& forall|key: (Seq<char>, Seq<char>)| #[trigger]
            self.bids.contains_key(key) ==> {
                &&& self.bids[key] matches Some(offer)
                &&& offer.amount.amount > 0
                &&& self.identities.contains(key.1)
                &&& self.identities.contains(offer.recipient)
            }
        &&& forall|token: Seq<char>| #[trigger]
            self.owners.contains_key(token) ==> {
                &&& self.owners[token] matches Some(owner)
                &&& self.identities.contains(owner)
            }
    }

    /// The registry names `minter` as the party that may register assets.
    pub open spec fn appoint(self, minter: Seq<char>) -> Market {
        Market { minter: Some(minter), ..self }
    }

    /// The asset is listed at `price`, in place of any earlier ask.
    pub open spec fn list(self, token: Seq<char>, price: CoinView) -> Market {
        Market { asks: self.asks.insert(token, Some(price)), ..self }
    }

    /// The asset belongs to `owner`, whoever held it before.
    pub open spec fn assign(self, token: Seq<char>, owner: Seq<char>) -> Market {
        Market { owners: self.owners.insert(token, Some(owner)), ..self }
    }

    /// The bidder's standing bid for the asset becomes `offer`, whatever it
    /// was before.
    pub open spec fn record(self, token: Seq<char>, bidder: Seq<char>, offer: Offer) -> Market {
        Market { bids: self.bids.insert((token, bidder), Some(offer)), ..self }
    }

    /// The bidder has no standing bid for the asset any more.
    pub open spec fn withdraw(self, token: Seq<char>, bidder: Seq<char>) -> Market {
        Market { bids: self.bids.remove((token, bidder)), ..self }
    }

    /// The registry can count one more asset: its counter can be read and is
    /// not at its limit.
    pub open spec fn has_room(self) -> bool {
        self.minted matches Some(count) && count < u64::MAX
    }

    /// A new asset is registered to `owner` and counted.
    pub open spec fn register(self, token: Seq<char>, owner: Seq<char>) -> Market
        recommends
            self.minted is Some,
    {
        Market { minted: Some(self.minted->0 + 1), ..self.assign(token, owner) }
    }

    /// A new asset is registered to `owner` and listed at `price`.
    pub open spec fn publish(self, token: Seq<char>, owner: Seq<char>, price: CoinView) -> Market {
        self.register(token, owner).list(token, price)
    }

    /// The asset goes to `recipient` and the bidder's bid for it is consumed.
    /// The ask and every other bid stay as they are.
    pub open spec fn settle(self, token: Seq<char>, bidder: Seq<char>, recipient: Seq<char>) -> Market {
        self.assign(token, recipient).withdraw(token, bidder)
    }

    /// Placing a bid on an asset that is listed at `price`: a bid that
    /// crosses the ask is settled at once, any other bid is recorded.
    pub open spec fn place_bid(
        self,
        token: Seq<char>,
        bidder: Seq<char>,
        offer: Offer,
        price: CoinView,
    ) -> Market {
        if crosses(offer.amount, price) {
            self.settle(token, bidder, offer.recipient)
        } else {
            self.record(token, bidder, offer)
        }
    }

    /// Accepting the standing bid `offer` settles it, whatever the ask is.
    pub open spec fn accept_bid(self, token: Seq<char>, bidder: Seq<char>, offer: Offer) -> Market {
        self.settle(token, bidder, offer.recipient)
    }
}

} // verus!
