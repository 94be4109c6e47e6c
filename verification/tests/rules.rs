use cosmwasm_std::StdError;
use nft_marketplace::error::{ContractError, ErrorKind};
use nft_marketplace::host::{key_fits, MAX_KEY_PART};
use nft_marketplace::msg::{Payout, Receipt, Settlement};
use nft_marketplace::rules::{
    acceptable_bid, authorize, bid_crosses, can_mint, check_bid_amount, check_key, found, set_up,
};
use nft_marketplace::state::Coin;

fn fault() -> StdError {
    StdError::generic_err("store fault")
}

fn sale() -> Settlement {
    Settlement {
        token_id: "123".into(),
        seller: "alice".into(),
        bidder: "bob".into(),
        recipient: "carol".into(),
        price: Coin::new(6, "token"),
    }
}

#[test]
fn coin_is_built_and_tested() {
    let coin = Coin::new(5, "token");
    assert_eq!(coin, Coin { denom: "token".into(), amount: 5 });
    assert!(!coin.is_zero());
    assert!(Coin::new(0, "token").is_zero());
}

#[test]
fn bid_crosses_only_above_the_ask_in_its_denomination() {
    let ask = Coin::new(5, "token");
    assert!(bid_crosses(&Coin::new(6, "token"), &ask));
    assert!(!bid_crosses(&Coin::new(5, "token"), &ask));
    assert!(!bid_crosses(&Coin::new(4, "token"), &ask));
    assert!(!bid_crosses(&Coin::new(6, "Token"), &ask));
    assert!(!bid_crosses(&Coin::new(u128::MAX, "other"), &ask));
    assert!(bid_crosses(&Coin::new(1, "token"), &Coin::new(0, "token")));
    assert!(!bid_crosses(&Coin::new(0, "token"), &Coin::new(0, "token")));
}

#[test]
fn bid_amount_must_be_positive() {
    assert_eq!(check_bid_amount(&Coin::new(0, "token")), Err(ContractError::InvalidBidAmount {}));
    assert_eq!(check_bid_amount(&Coin::new(1, "token")), Ok(()));
    assert_eq!(check_bid_amount(&Coin::new(u128::MAX, "")), Ok(()));
}

#[test]
fn key_part_is_measured_in_bytes() {
    assert_eq!(MAX_KEY_PART, 65535);
    assert!(key_fits(""));
    assert!(key_fits(&"a".repeat(65535)));
    assert!(!key_fits(&"a".repeat(65536)));
    assert!(key_fits(&"\u{e9}".repeat(32767)));
    assert!(!key_fits(&"\u{e9}".repeat(32768)));
    assert_eq!(check_key("123"), Ok(()));
    assert!(matches!(check_key(&"a".repeat(65536)), Err(ContractError::Std(_))));
}

#[test]
fn lookup_is_found_missing_or_failed() {
    assert_eq!(found(Ok(Some(7u8))), Ok(7u8));
    assert_eq!(found::<u8>(Ok(None)), Err(ContractError::NotFound {}));
    assert_eq!(found::<u8>(Err(fault())), Err(ContractError::Std(fault())));
}

#[test]
fn registry_answer_becomes_a_receipt_or_stays_a_failure() {
    assert_eq!(set_up(Ok(())), Ok(Receipt::Instantiated));
    assert_eq!(set_up(Err(fault())), Err(fault()));
}

#[test]
fn only_a_positive_bid_can_be_accepted() {
    let bid = (Coin::new(3, "token"), String::from("bob"));
    assert_eq!(acceptable_bid(Ok(Some(bid.clone()))), Ok(bid));
    let empty = (Coin::new(0, "token"), String::from("bob"));
    assert_eq!(acceptable_bid(Ok(Some(empty))), Err(ContractError::InvalidBidAmount {}));
    assert_eq!(acceptable_bid(Ok(None)), Err(ContractError::InvalidBidAmount {}));
    assert_eq!(acceptable_bid(Err(fault())), Err(ContractError::Std(fault())));
}

#[test]
fn only_the_owner_is_authorized() {
    assert_eq!(authorize("alice", "alice"), Ok(()));
    assert_eq!(authorize("carol", "alice"), Err(ContractError::Unauthorized {}));
    assert_eq!(authorize("Alice", "alice"), Err(ContractError::Unauthorized {}));
    assert_eq!(authorize("", "alice"), Err(ContractError::Unauthorized {}));
}

#[test]
fn registry_counter_has_room_below_its_limit() {
    assert!(can_mint(0));
    assert!(can_mint(u64::MAX - 1));
    assert!(!can_mint(u64::MAX));
}

#[test]
fn registry_refusals_are_carried_over() {
    assert_eq!(
        ContractError::from(cw721_base::ContractError::Unauthorized {}),
        ContractError::Unauthorized {}
    );
    assert_eq!(
        ContractError::from(cw721_base::ContractError::Claimed {}),
        ContractError::Claimed {}
    );
    assert_eq!(
        ContractError::from(cw721_base::ContractError::Expired {}),
        ContractError::Expired {}
    );
    assert_eq!(
        ContractError::from(cw721_base::ContractError::Std(fault())),
        ContractError::Std(fault())
    );
    assert_eq!(ContractError::from(fault()), ContractError::Std(fault()));
}

#[test]
fn kind_of_failure_has_its_text() {
    assert_eq!(ErrorKind::Std.message(), "Std");
    assert_eq!(ErrorKind::Unauthorized.message(), "Unauthorized");
    assert_eq!(ErrorKind::InvalidBidAmount.message(), "InvalidBidAmount");
    assert_eq!(ErrorKind::Claimed.message(), "Claimed");
    assert_eq!(ErrorKind::Expired.message(), "Expired");
    assert_eq!(ErrorKind::NotFound.message(), "NotFound");
    assert_eq!(ContractError::Claimed {}.kind().message(), "Claimed");
}

#[test]
fn receipt_reports_its_action_and_its_sale() {
    assert_eq!(Receipt::Instantiated.action(), "instantiate");
    assert_eq!(Receipt::AskPublished.action(), "mint");
    assert_eq!(Receipt::BidRecorded.action(), "set_bid");
    assert_eq!(Receipt::BidSettled(sale()).action(), "set_bid_settled");
    assert_eq!(Receipt::BidAccepted(sale()).action(), "accept_bid");
    assert_eq!(Receipt::AskPublished.settlement(), None);
    assert_eq!(Receipt::BidRecorded.settlement(), None);
    assert_eq!(Receipt::BidSettled(sale()).settlement(), Some(&sale()));
    assert_eq!(Receipt::BidAccepted(sale()).settlement(), Some(&sale()));
}

#[test]
fn only_a_sale_leaves_a_payout_to_the_seller() {
    let payout = Payout { to: "alice".into(), amount: Coin::new(6, "token") };
    assert_eq!(Receipt::Instantiated.messages(), vec![]);
    assert_eq!(Receipt::AskPublished.messages(), vec![]);
    assert_eq!(Receipt::BidRecorded.messages(), vec![]);
    assert_eq!(Receipt::BidSettled(sale()).messages(), vec![payout.clone()]);
    assert_eq!(Receipt::BidAccepted(sale()).messages(), vec![payout]);
}
