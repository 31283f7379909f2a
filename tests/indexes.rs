use nft_marketplace::ids::{ComponentId, ResourceId, TemplateId};
use nft_marketplace::index::{AuctionIndex, IndexError};
use nft_marketplace::tariswap::{PoolEntry, TariswapIndex};

fn r(n: u8) -> ResourceId {
    ResourceId { key: [n; 32] }
}

fn c(n: u8) -> ComponentId {
    ComponentId { key: [n; 32] }
}

#[test]
fn it_detects_existing_pools() {
    let fee = 50;
    let mut index = TariswapIndex::new(TemplateId { key: [9; 32] }, fee);
    let a_resource = r(2);
    let b_resource = r(1);
    index.create_pool(a_resource, b_resource, c(10)).unwrap();

    let e = index.create_pool(a_resource, b_resource, c(11)).unwrap_err();
    assert_eq!(e.message(), "A pool already exists for the input resources");
    let e = index.create_pool(b_resource, a_resource, c(11)).unwrap_err();
    assert_eq!(e, IndexError::PoolExists);

    let c_resource = r(3);
    assert!(index.create_pool(a_resource, c_resource, c(12)).is_ok());
    assert_eq!(index.get_pools().len(), 2);
    assert_eq!(index.market_fee, 50);
}

#[test]
fn pool_keys_are_ordered() {
    let mut lo = [5u8; 32];
    let mut hi = [5u8; 32];
    lo[31] = 1;
    hi[0] = 6;
    let (a, b) = TariswapIndex::build_pool_key(r(0).clone(), r(0));
    assert_eq!((a, b), (r(0), r(0)));
    let key = TariswapIndex::build_pool_key(ResourceId { key: hi }, ResourceId { key: lo });
    assert_eq!(key, (ResourceId { key: lo }, ResourceId { key: hi }));
    let key = TariswapIndex::build_pool_key(ResourceId { key: lo }, ResourceId { key: hi });
    assert_eq!(key, (ResourceId { key: lo }, ResourceId { key: hi }));

    let mut index = TariswapIndex::new(TemplateId { key: [9; 32] }, 3);
    index.create_pool(ResourceId { key: hi }, ResourceId { key: lo }, c(4)).unwrap();
    assert_eq!(
        index.get_pools(),
        vec![PoolEntry { first: ResourceId { key: lo }, second: ResourceId { key: hi }, pool: c(4) }]
    );
    assert!(index.has_pool(ResourceId { key: lo }, ResourceId { key: hi }));
    assert!(!index.has_pool(ResourceId { key: lo }, r(5)));
}

#[test]
fn auctions_are_grouped_by_ending_epoch() {
    let mut index = AuctionIndex::new(TemplateId { key: [8; 32] });
    index.create_auction(c(1), 10, 5).unwrap();
    index.create_auction(c(2), 3, 12).unwrap();
    index.create_auction(c(3), 1, 2).unwrap();
    let groups = index.get_auctions();
    assert_eq!(groups.len(), 2);
    assert_eq!(groups[0].ending_epoch, 15);
    assert_eq!(groups[0].auctions, vec![c(1), c(2)]);
    assert_eq!(groups[1].ending_epoch, 3);
    assert_eq!(groups[1].auctions, vec![c(3)]);
}

#[test]
fn auction_index_refuses_epoch_overflow() {
    let mut index = AuctionIndex::new(TemplateId { key: [8; 32] });
    let e = index.create_auction(c(1), 2, u64::MAX).unwrap_err();
    assert_eq!(e, IndexError::EpochOverflow);
    assert_eq!(e.message(), "Auction period ends past the last epoch");
    assert!(index.get_auctions().is_empty());
    assert!(index.create_auction(c(1), 0, u64::MAX).is_ok());
}
