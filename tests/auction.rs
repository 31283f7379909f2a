use nft_marketplace::auction::{Action, Auction, AuctionError, AuctionStatus, Bid, ItemBucket};
use nft_marketplace::ids::{ComponentId, NftAddress, NftId, ResourceId};

fn c(n: u8) -> ComponentId {
    ComponentId { key: [n; 32] }
}

fn pay() -> ResourceId {
    ResourceId { key: [0xaa; 32] }
}

fn badge() -> ResourceId {
    ResourceId { key: [0xbb; 32] }
}

fn open(min_price: Option<u128>, buy_price: Option<u128>) -> Auction {
    let bucket = ItemBucket {
        resource: ResourceId { key: [0x10; 32] },
        non_fungible: true,
        amount: 1,
        ids: vec![NftId::U32(8)],
    };
    Auction::new(bucket, c(1), true, min_price, buy_price, 10, 100, pay(), badge()).unwrap()
}

#[test]
fn new_auction_holds_the_item() {
    let a = open(Some(3), Some(9));
    assert_eq!(a.item, NftAddress { resource: ResourceId { key: [0x10; 32] }, id: NftId::U32(8) });
    assert_eq!(a.ending_epoch, 110);
    assert_eq!(a.status, AuctionStatus::Active);
    assert!(a.is_active());
    assert_eq!(a.highest_bid, None);
    assert_eq!((a.min_price, a.buy_price), (Some(3), Some(9)));
    assert_eq!(a.seller, c(1));
    assert_eq!(a.badge_resource, badge());
}

#[test]
fn check_order_of_a_bid() {
    let mut a = open(Some(50), Some(80));
    // expired comes before the currency
    let other = ResourceId { key: [1; 32] };
    assert_eq!(a.bid(c(2), false, &other, 1, 110), Err(AuctionError::Expired));
    // the currency comes before the account
    assert_eq!(a.bid(c(2), false, &other, 1, 0), Err(AuctionError::InvalidPaymentResource));
    // the account comes before the minimum
    assert_eq!(a.bid(c(2), false, &pay(), 1, 0), Err(AuctionError::NotAnAccount));
    assert_eq!(a.bid(c(2), true, &pay(), 49, 0), Err(AuctionError::BelowMinimum));
    assert_eq!(a.bid(c(2), true, &pay(), 81, 0), Err(AuctionError::AboveBuyPrice));
    assert_eq!(a.bid(c(2), true, &pay(), 50, 0), Ok(vec![Action::EscrowPayment { amount: 50 }]));
    assert_eq!(a.bid(c(3), true, &pay(), 50, 0), Err(AuctionError::NotHigherThanCurrent));
    assert_eq!(a.highest_bid, Some(Bid { bidder: c(2), amount: 50 }));
}

#[test]
fn buy_price_bid_settles_in_the_same_call() {
    let mut a = open(None, Some(80));
    a.bid(c(2), true, &pay(), 60, 0).unwrap();
    let actions = a.bid(c(3), true, &pay(), 80, 1).unwrap();
    assert_eq!(
        actions,
        vec![
            Action::ReleaseBid { to: c(2), amount: 60 },
            Action::EscrowPayment { amount: 80 },
            Action::ReleaseItem { to: c(3) },
            Action::ReleaseBid { to: c(1), amount: 80 },
        ]
    );
    assert_eq!(a.status, AuctionStatus::Sold { buyer: c(3), price: 80 });
    assert_eq!(a.highest_bid, None);
    assert_eq!(a.bid(c(4), true, &pay(), 80, 2), Err(AuctionError::Settled));
    assert_eq!(a.finish(200), Err(AuctionError::Settled));
    assert_eq!(a.cancel(&badge(), 2), Err(AuctionError::Settled));
}

#[test]
fn cancel_refunds_and_burns() {
    let mut a = open(None, None);
    assert_eq!(a.cancel(&pay(), 1), Err(AuctionError::InvalidBadge));
    a.bid(c(2), true, &pay(), 5, 0).unwrap();
    assert_eq!(a.cancel(&badge(), 110), Err(AuctionError::Ended));
    let actions = a.cancel(&badge(), 109).unwrap();
    assert_eq!(
        actions,
        vec![
            Action::ReleaseBid { to: c(2), amount: 5 },
            Action::BurnBadge,
            Action::ReleaseItem { to: c(1) },
        ]
    );
    assert_eq!(a.status, AuctionStatus::Cancelled);
    assert_eq!(a.cancel(&badge(), 109), Err(AuctionError::Settled));
    assert_eq!(a.finish(110), Err(AuctionError::Settled));
}

#[test]
fn zero_bid_is_a_bid_when_no_minimum() {
    let mut a = open(None, None);
    assert_eq!(a.bid(c(2), true, &pay(), 0, 0), Ok(vec![Action::EscrowPayment { amount: 0 }]));
    assert_eq!(a.bid(c(3), true, &pay(), 0, 0), Err(AuctionError::NotHigherThanCurrent));
    assert!(a.bid(c(3), true, &pay(), 1, 0).is_ok());
}

#[test]
fn largest_amounts_are_accepted() {
    let mut a = open(None, Some(u128::MAX));
    a.bid(c(2), true, &pay(), u128::MAX - 1, 0).unwrap();
    let actions = a.bid(c(3), true, &pay(), u128::MAX, 0).unwrap();
    assert_eq!(actions[3], Action::ReleaseBid { to: c(1), amount: u128::MAX });
}

#[test]
fn copy_keeps_every_field() {
    let mut a = open(Some(1), None);
    a.bid(c(2), true, &pay(), 7, 0).unwrap();
    let b = a.copy();
    assert_eq!(b.item, a.item);
    assert_eq!(b.highest_bid, a.highest_bid);
    assert_eq!(b.ending_epoch, a.ending_epoch);
    assert_eq!(b.status, a.status);
}
