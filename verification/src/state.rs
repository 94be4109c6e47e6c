//! The values the marketplace stores and hands out: coins, asks and bids.

use vstd::prelude::*;

verus! {

/// An amount of one denomination of currency.
#[derive(Clone, Debug, PartialEq)]
pub struct Coin {
    pub denom: String,
    pub amount: u128,
}

/// What a `Coin` stands for: a natural number of units of a named currency.
pub struct CoinView {
    pub denom: Seq<char>,
    pub amount: nat,
}

impl View for Coin {
    type V = CoinView;

    open spec fn view(&self) -> CoinView {
        CoinView { denom: self.denom@, amount: self.amount as nat }
    }
}

impl Coin {
    /// `amount` units of the currency `denom`.
    pub fn new(amount: u128, denom: &str) -> (coin: Coin)
        ensures
            coin@ == (CoinView { denom: denom@, amount: amount as nat }),
    {
        Coin { denom: denom.to_owned(), amount }
    }

    /// Whether the coin is an amount of nothing.
    pub fn is_zero(&self) -> (zero: bool)
        ensures
            zero == (self@.amount == 0),
    {
        self.amount == 0
    }
}

/// The price at which the owner of an asset offers it.
#[derive(Clone, Debug, PartialEq)]
pub struct Ask {
    pub amount: Coin,
}

pub struct AskView {
    pub amount: CoinView,
}

impl View for Ask {
    type V = AskView;

    open spec fn view(&self) -> AskView {
        AskView { amount: self.amount@ }
    }
}

/// A bidder's standing offer for an asset. The asset goes to `recipient`
/// when the bid wins.
#[derive(Clone, Debug, PartialEq)]
pub struct Bid {
    pub amount: Coin,
    pub bidder: String,
    pub recipient: String,
}

pub struct BidView {
    pub amount: CoinView,
    pub bidder: Seq<char>,
    pub recipient: Seq<char>,
}

impl View for Bid {
    type V = BidView;

    open spec fn view(&self) -> BidView {
        BidView { amount: self.amount@, bidder: self.bidder@, recipient: self.recipient@ }
    }
}

} // verus!
