//! The requests that the marketplace takes and the answers it gives.

use vstd::prelude::*;
use crate::state::{Ask, Bid, Coin, CoinView};

verus! {

/// What the registry needs to create an asset.
#[derive(Clone, Debug, PartialEq)]
pub struct Cw721MintMsg {
    /// The asset's name in the registry.
    pub token_id: String,
    /// The party that the new asset belongs to.
    pub owner: String,
    /// What the asset is called.
    pub name: String,
    /// What the asset is, in words.
    pub description: Option<String>,
    /// Where a picture of the asset is found.
    pub image: Option<String>,
}

/// Registers a new asset and lists it at an ask price.
#[derive(Clone, Debug, PartialEq)]
pub struct MintMsg {
    pub base: Cw721MintMsg,
    pub ask_amount: Coin,
}

#[derive(Clone, Debug, PartialEq)]
pub enum ExecuteMsg {
    Mint(MintMsg),
    /// Places `bidder`'s bid for the asset. The asset goes to `recipient` if
    /// the bid wins, and to the bidder where no recipient is named.
    SetBid { token_id: String, amount: Coin, bidder: String, recipient: Option<String> },
    /// Accepts the standing bid of `bidder` for the asset.
    AcceptBid { token_id: String, bidder: String },
}

#[derive(Clone, Debug, PartialEq)]
pub enum QueryMsg {
    CurrentAskForToken { token_id: String },
    BidForTokenBidder { token_id: String, bidder: String },
    OwnerOf { token_id: String },
}

#[derive(Clone, Debug, PartialEq)]
pub struct CurrentAskForTokenResponse {
    pub ask: Ask,
}

#[derive(Clone, Debug, PartialEq)]
pub struct BidForTokenBidderResponse {
    pub bid: Bid,
}

/// The answer to a `QueryMsg`, one variant for each question.
#[derive(Clone, Debug, PartialEq)]
pub enum QueryResponse {
    CurrentAsk(CurrentAskForTokenResponse),
    Bid(BidForTokenBidderResponse),
    Owner(String),
}

/// A completed sale: the asset went from `seller` to `recipient`, the
/// bidder's bid was consumed, and `price` is to be released to the seller.
#[derive(Clone, Debug, PartialEq)]
pub struct Settlement {
    pub token_id: String,
    pub seller: String,
    pub bidder: String,
    pub recipient: String,
    pub price: Coin,
}

pub struct SettlementView {
    pub token_id: Seq<char>,
    pub seller: Seq<char>,
    pub bidder: Seq<char>,
    pub recipient: Seq<char>,
    pub price: CoinView,
}

impl View for Settlement {
    type V = SettlementView;

    open spec fn view(&self) -> SettlementView {
        SettlementView {
            token_id: self.token_id@,
            seller: self.seller@,
            bidder: self.bidder@,
            recipient: self.recipient@,
            price: self.price@,
        }
    }
}

/// An instruction to the custodian of the bidders' funds: release `amount`
/// to `to`.
#[derive(Clone, Debug, PartialEq)]
pub struct Payout {
    pub to: String,
    pub amount: Coin,
}

pub struct PayoutView {
    pub to: Seq<char>,
    pub amount: CoinView,
}

impl View for Payout {
    type V = PayoutView;

    open spec fn view(&self) -> PayoutView {
        PayoutView { to: self.to@, amount: self.amount@ }
    }
}

/// What a successful operation did.
#[derive(Clone, Debug, PartialEq)]
pub enum Receipt {
    /// The registry was set up.
    Instantiated,
    /// An asset was registered and listed.
    AskPublished,
    /// A bid was recorded as the bidder's standing bid.
    BidRecorded,
    /// A bid crossed the ask and was settled at once.
    BidSettled(Settlement),
    /// The owner accepted a standing bid, which was settled.
    BidAccepted(Settlement),
}

pub enum ReceiptView {
    Instantiated,
    AskPublished,
    BidRecorded,
    BidSettled(SettlementView),
    BidAccepted(SettlementView),
}

impl View for Receipt {
    type V = ReceiptView;

    open spec fn view(&self) -> ReceiptView {
        match self {
            Receipt::Instantiated => ReceiptView::Instantiated,
            Receipt::AskPublished => ReceiptView::AskPublished,
            Receipt::BidRecorded => ReceiptView::BidRecorded,
            Receipt::BidSettled(sale) => ReceiptView::BidSettled(sale@),
            Receipt::BidAccepted(sale) => ReceiptView::BidAccepted(sale@),
        }
    }
}

impl ReceiptView {
    /// The name under which the operation is reported.
    pub open spec fn action(self) -> Seq<char> {
        match self {
            ReceiptView::Instantiated => "instantiate"@,
            ReceiptView::AskPublished => "mint"@,
            ReceiptView::BidRecorded => "set_bid"@,
            ReceiptView::BidSettled(_) => "set_bid_settled"@,
            ReceiptView::BidAccepted(_) => "accept_bid"@,
        }
    }

    /// The sale that the operation completed, if it completed one.
    pub open spec fn settlement(self) -> Option<SettlementView> {
        match self {
            ReceiptView::BidSettled(sale) => Some(sale),
            ReceiptView::BidAccepted(sale) => Some(sale),
            _ => None,
        }
    }

    /// What the operation leaves the custodian to do: a sale releases its
    /// price to the seller, and nothing else moves funds.
    pub open spec fn messages(self) -> Seq<PayoutView> {
        match self.settlement() {
            Some(sale) => seq![PayoutView { to: sale.seller, amount: sale.price }],
            None => seq![],
        }
    }
}

impl Receipt {
    /// The name under which the operation is reported to the host.
    pub fn action(&self) -> (name: &'static str)
        ensures
            name@ == self@.action(),
    {
        match self {
            Receipt::Instantiated => "instantiate",
            Receipt::AskPublished => "mint",
            Receipt::BidRecorded => "set_bid",
            Receipt::BidSettled(_) => "set_bid_settled",
            Receipt::BidAccepted(_) => "accept_bid",
        }
    }

    /// The sale that the operation completed, if it completed one. Its price
    /// is what the custodian owes the seller.
    pub fn settlement(&self) -> (sale: Option<&Settlement>)
        ensures
            match sale {
                Some(sale) => self@.settlement() == Some(sale@),
                None => self@.settlement() is None,
            },
    {
        match self {
            Receipt::BidSettled(sale) => Some(sale),
            Receipt::BidAccepted(sale) => Some(sale),
            _ => None,
        }
    }

    /// The instructions that the operation leaves for the custodian of the
    /// bidders' funds: for a sale, the release of its price to the seller.
    pub fn messages(&self) -> (orders: Vec<Payout>)
        ensures
            orders@.len() == self@.messages().len(),
            forall|i: int| 0 <= i < orders@.len() ==> orders@[i]@ == self@.messages()[i],
    {
        let mut orders: Vec<Payout> = Vec::new();
        if let Some(sale) = self.settlement() {
            let amount = Coin { denom: sale.price.denom.clone(), amount: sale.price.amount };
            orders.push(Payout { to: sale.seller.clone(), amount });
        }
        orders
    }
}

} // verus!
