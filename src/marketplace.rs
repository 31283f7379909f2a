//! A registry of many auctions, keyed by the item under sale, that share one
//! badge resource: each badge names its item in its payload, and only the
//! badge handed out for an auction, known by its token id, may cancel it.
//!
//! Entries are never removed: a settled auction stays in the registry, marked
//! by its status, until its item is put up for sale again.
use vstd::prelude::*;

use crate::auction::{
    after_bid, bid_actions, bid_error, cancel_actions, cancel_error, cancelled, create_error,
    finish_error, opened, settled, settlement, Action, Auction, AuctionError, ItemBucket,
};
use crate::badge::{badge_payload, item_of_badge, names_item, Badge, BadgePayload};
use crate::ids::{ComponentId, NftAddress, NftAddressView, NftId, ResourceId};

verus! {

/// The position of the auction of `key` in `auctions`, if there is one.
pub open spec fn lookup(auctions: Seq<Auction>, key: NftAddressView) -> Option<int> {
    if exists|i: int| 0 <= i < auctions.len() && (#[trigger] auctions[i]).item@ == key {
        Some(choose|i: int| 0 <= i < auctions.len() && (#[trigger] auctions[i]).item@ == key)
    } else {
        None
    }
}

/// A registry of auctions that share one badge resource and one currency.
#[derive(Debug)]
pub struct NftMarketplace {
    /// The auctions, at most one for each item.
    pub auctions: Vec<Auction>,
    /// The token id of the badge handed out for each auction, at the same
    /// position: only that badge may cancel it.
    pub badge_ids: Vec<NftId>,
    /// The resource of every cancellation badge that this registry hands out.
    pub seller_badge_resource: ResourceId,
    /// The one currency that bids may be paid in.
    pub payment_resource: ResourceId,
}

impl NftMarketplace {
    /// Each auction is well formed and runs on the registry's badge resource
    /// and currency, and no two auctions are of the same item.
    pub open spec fn wf(&self) -> bool {
        &&& self.badge_ids@.len() == self.auctions@.len()
        &&& forall|i: int| 0 <= i < self.auctions@.len() ==> {
            let a = #[trigger] self.auctions@[i];
            &&& a.wf()
            &&& a.badge_resource == self.seller_badge_resource
            &&& a.payment_resource == self.payment_resource
        }
        &&& forall|i: int, j: int|
            0 <= i < self.auctions@.len() && 0 <= j < self.auctions@.len() && i != j
                ==> (#[trigger] self.auctions@[i]).item@ != (#[trigger] self.auctions@[j]).item@
    }

    /// An empty registry. The badge resource is minted by this registry only.
    pub fn new(seller_badge_resource: ResourceId, payment_resource: ResourceId) -> (r: Self)
        ensures
            r.wf(),
            r.auctions@.len() == 0,
            r.badge_ids@.len() == 0,
            r.seller_badge_resource == seller_badge_resource,
            r.payment_resource == payment_resource,
    {
        NftMarketplace {
            auctions: Vec::new(),
            badge_ids: Vec::new(),
            seller_badge_resource,
            payment_resource,
        }
    }

    /// The position of the auction of `key`.
    fn find(&self, key: &NftAddress) -> (r: Option<usize>)
        requires
            self.wf(),
        ensures
            r matches Some(i) ==> lookup(self.auctions@, key@) == Some(i as int),
            r is None ==> lookup(self.auctions@, key@) is None,
    {
        let mut i: usize = 0;
        while i < self.auctions.len()
            invariant
                self.wf(),
                0 <= i <= self.auctions@.len(),
                forall|j: int| 0 <= j < i ==> (#[trigger] self.auctions@[j]).item@ != key@,
            decreases self.auctions@.len() - i,
        {
            if self.auctions[i].item.same(key) {
                proof {
                    assert(self.auctions@[i as int].item@ == key@);
                    let k = choose|j: int|
                        0 <= j < self.auctions@.len() && (#[trigger] self.auctions@[j]).item@
                            == key@;
                    if k != i as int {
                        assert(self.auctions@[k].item@ != self.auctions@[i as int].item@);
                    }
                }
                return Some(i);
            }
            i = i + 1;
        }
        None
    }

    /// Opens an auction of the item in `nft_bucket` (see [`Auction::new`]) and
    /// returns the payload of the seller's cancellation badge, which names the
    /// item; the badge is to be minted under `badge_id`. An earlier, settled
    /// auction of the same item gives way to the new one, and its badge no
    /// longer cancels anything; an active one makes the call fail.
    pub fn start_auction(
        &mut self,
        nft_bucket: ItemBucket,
        seller_address: ComponentId,
        seller_is_account: bool,
        min_price: Option<u128>,
        buy_price: Option<u128>,
        epoch_period: u64,
        current_epoch: u64,
        badge_id: NftId,
    ) -> (r: Result<BadgePayload, AuctionError>)
        requires
            old(self).wf(),
            nft_bucket.wf(),
        ensures
            final(self).wf(),
            final(self).seller_badge_resource == old(self).seller_badge_resource,
            final(self).payment_resource == old(self).payment_resource,
            match create_error(nft_bucket, seller_is_account, epoch_period, current_epoch) {
                Some(e) => r == Err::<BadgePayload, AuctionError>(e) && *final(self) == *old(self),
                None => {
                    let key = NftAddressView {
                        resource: nft_bucket.resource.key@,
                        id: nft_bucket.ids@[0]@,
                    };
                    let opened_here = |a: Auction|
                        opened(
                            a,
                            nft_bucket,
                            seller_address,
                            min_price,
                            buy_price,
                            epoch_period,
                            current_epoch,
                            old(self).payment_resource,
                            old(self).seller_badge_resource,
                        );
                    match lookup(old(self).auctions@, key) {
                        Some(i) => if old(self).auctions@[i].status is Active {
                            r == Err::<BadgePayload, AuctionError>(AuctionError::AlreadyListed)
                                && *final(self) == *old(self)
                        } else {
                            &&& r matches Ok(p) && names_item(p, key)
                            &&& final(self).auctions@ == old(self).auctions@.update(
                                i,
                                final(self).auctions@[i],
                            )
                            &&& opened_here(final(self).auctions@[i])
                            &&& final(self).badge_ids@ == old(self).badge_ids@.update(
                                i,
                                final(self).badge_ids@[i],
                            )
                            &&& final(self).badge_ids@[i]@ == badge_id@
                        },
                        None => {
                            &&& r matches Ok(p) && names_item(p, key)
                            &&& final(self).auctions@ == old(self).auctions@.push(
                                final(self).auctions@.last(),
                            )
                            &&& opened_here(final(self).auctions@.last())
                            &&& final(self).badge_ids@ == old(self).badge_ids@.push(
                                final(self).badge_ids@.last(),
                            )
                            &&& final(self).badge_ids@.last()@ == badge_id@
                        },
                    }
                },
            },
    {
        let a = match Auction::new(
            nft_bucket,
            seller_address,
            seller_is_account,
            min_price,
            buy_price,
            epoch_period,
            current_epoch,
            self.payment_resource,
            self.seller_badge_resource,
        ) {
            Ok(a) => a,
            Err(e) => {
                return Err(e);
            },
        };
        match self.find(&a.item) {
            Some(i) => {
                if self.auctions[i].is_active() {
                    return Err(AuctionError::AlreadyListed);
                }
                let payload = badge_payload(&a.item);
                self.auctions.set(i, a);
                self.badge_ids.set(i, badge_id);
                proof {
                    assert forall|j: int, k: int|
                        0 <= j < self.auctions@.len() && 0 <= k < self.auctions@.len() && j != k
                            implies (#[trigger] self.auctions@[j]).item@
                            != (#[trigger] self.auctions@[k]).item@ by {
                        if j != i as int && k != i as int {
                            assert(old(self).auctions@[j].item@ != old(self).auctions@[k].item@);
                        } else if j == i as int {
                            assert(old(self).auctions@[i as int].item@ != old(
                                self,
                            ).auctions@[k].item@);
                        } else {
                            assert(old(self).auctions@[i as int].item@ != old(
                                self,
                            ).auctions@[j].item@);
                        }
                    }
                }
                Ok(payload)
            },
            None => {
                let payload = badge_payload(&a.item);
                self.auctions.push(a);
                self.badge_ids.push(badge_id);
                proof {
                    assert forall|j: int| 0 <= j < old(self).auctions@.len() implies (
                    #[trigger] old(self).auctions@[j]).item@ != a.item@ by {
                        if old(self).auctions@[j].item@ == a.item@ {
                            assert(lookup(old(self).auctions@, a.item@) is Some);
                        }
                    }
                }
                Ok(payload)
            },
        }
    }

    /// Places a bid on the auction of `nft_address` (see [`Auction::bid`]).
    pub fn bid(
        &mut self,
        bidder_address: ComponentId,
        bidder_is_account: bool,
        nft_address: &NftAddress,
        payment_resource: &ResourceId,
        amount: u128,
        current_epoch: u64,
    ) -> (r: Result<Vec<Action>, AuctionError>)
        requires
            old(self).wf(),
        ensures
            final(self).wf(),
            final(self).seller_badge_resource == old(self).seller_badge_resource,
            final(self).payment_resource == old(self).payment_resource,
            final(self).badge_ids@ == old(self).badge_ids@,
            match lookup(old(self).auctions@, nft_address@) {
                None => r == Err::<Vec<Action>, AuctionError>(AuctionError::NotFound)
                    && final(self).auctions@ == old(self).auctions@,
                Some(i) => {
                    let a = old(self).auctions@[i];
                    match bid_error(
                        a,
                        bidder_is_account,
                        payment_resource.key@,
                        amount,
                        current_epoch,
                    ) {
                        Some(e) => r == Err::<Vec<Action>, AuctionError>(e)
                            && final(self).auctions@ == old(self).auctions@,
                        None => r matches Ok(acts) && acts@ == bid_actions(a, bidder_address, amount)
                            && final(self).auctions@ == old(self).auctions@.update(
                            i,
                            after_bid(a, bidder_address, amount),
                        ),
                    }
                },
            },
    {
        let i = match self.find(nft_address) {
            Some(i) => i,
            None => {
                return Err(AuctionError::NotFound);
            },
        };
        let mut a = self.auctions.remove(i);
        let r = a.bid(bidder_address, bidder_is_account, payment_resource, amount, current_epoch);
        self.auctions.insert(i, a);
        proof {
            if r is Err {
                assert(self.auctions@ =~= old(self).auctions@);
            } else {
                assert(self.auctions@ =~= old(self).auctions@.update(i as int, a));
            }
            self.lemma_wf_after_update(*old(self), i as int);
        }
        r
    }

    /// Settles the auction of `nft_address` once its ending epoch has come
    /// (see [`Auction::finish`]).
    pub fn finish_auction(&mut self, nft_address: &NftAddress, current_epoch: u64) -> (r: Result<
        Vec<Action>,
        AuctionError,
    >)
        requires
            old(self).wf(),
        ensures
            final(self).wf(),
            final(self).seller_badge_resource == old(self).seller_badge_resource,
            final(self).payment_resource == old(self).payment_resource,
            final(self).badge_ids@ == old(self).badge_ids@,
            match lookup(old(self).auctions@, nft_address@) {
                None => r == Err::<Vec<Action>, AuctionError>(AuctionError::NotFound)
                    && final(self).auctions@ == old(self).auctions@,
                Some(i) => {
                    let a = old(self).auctions@[i];
                    match finish_error(a, current_epoch) {
                        Some(e) => r == Err::<Vec<Action>, AuctionError>(e)
                            && final(self).auctions@ == old(self).auctions@,
                        None => r matches Ok(acts) && acts@ == settlement(a)
                            && final(self).auctions@ == old(self).auctions@.update(i, settled(a)),
                    }
                },
            },
    {
        let i = match self.find(nft_address) {
            Some(i) => i,
            None => {
                return Err(AuctionError::NotFound);
            },
        };
        let mut a = self.auctions.remove(i);
        let r = a.finish(current_epoch);
        self.auctions.insert(i, a);
        proof {
            if r is Err {
                assert(self.auctions@ =~= old(self).auctions@);
            } else {
                assert(self.auctions@ =~= old(self).auctions@.update(i as int, a));
            }
            self.lemma_wf_after_update(*old(self), i as int);
        }
        r
    }

    /// Cancels the auction of `nft_address` on presentation of the badge
    /// `badge_id` of `badge_resource` (see [`Auction::cancel`]).
    pub fn cancel_auction_of(
        &mut self,
        badge_resource: &ResourceId,
        badge_id: &NftId,
        nft_address: &NftAddress,
        current_epoch: u64,
    ) -> (r: Result<Vec<Action>, AuctionError>)
        requires
            old(self).wf(),
        ensures
            final(self).wf(),
            final(self).seller_badge_resource == old(self).seller_badge_resource,
            final(self).payment_resource == old(self).payment_resource,
            final(self).badge_ids@ == old(self).badge_ids@,
            badge_resource.key@ != old(self).seller_badge_resource.key@ ==> r
                == Err::<Vec<Action>, AuctionError>(AuctionError::InvalidBadge)
                && final(self).auctions@ == old(self).auctions@,
            badge_resource.key@ == old(self).seller_badge_resource.key@ ==> match lookup(
                old(self).auctions@,
                nft_address@,
            ) {
                None => r == Err::<Vec<Action>, AuctionError>(AuctionError::NotFound)
                    && final(self).auctions@ == old(self).auctions@,
                Some(i) => if badge_id@ != old(self).badge_ids@[i]@ {
                    r == Err::<Vec<Action>, AuctionError>(AuctionError::InvalidBadge)
                        && final(self).auctions@ == old(self).auctions@
                } else {
                    let a = old(self).auctions@[i];
                    match cancel_error(a, badge_resource.key@, current_epoch) {
                        Some(e) => r == Err::<Vec<Action>, AuctionError>(e)
                            && final(self).auctions@ == old(self).auctions@,
                        None => r matches Ok(acts) && acts@ == cancel_actions(a)
                            && final(self).auctions@ == old(self).auctions@.update(i, cancelled(a)),
                    }
                },
            },
    {
        if !badge_resource.same(&self.seller_badge_resource) {
            return Err(AuctionError::InvalidBadge);
        }
        let i = match self.find(nft_address) {
            Some(i) => i,
            None => {
                return Err(AuctionError::NotFound);
            },
        };
        if !badge_id.same(&self.badge_ids[i]) {
            return Err(AuctionError::InvalidBadge);
        }
        let mut a = self.auctions.remove(i);
        let r = a.cancel(badge_resource, current_epoch);
        self.auctions.insert(i, a);
        proof {
            if r is Err {
                assert(self.auctions@ =~= old(self).auctions@);
            } else {
                assert(self.auctions@ =~= old(self).auctions@.update(i as int, a));
            }
            self.lemma_wf_after_update(*old(self), i as int);
        }
        r
    }

    /// Cancels the auction of the item that the presented badge names in its
    /// payload. A badge that [`NftMarketplace::start_auction`] handed out
    /// names its item exactly, so it reaches that item's auction.
    pub fn cancel_auction(&mut self, seller_badge: &Badge, current_epoch: u64) -> (r: Result<
        Vec<Action>,
        AuctionError,
    >)
        requires
            old(self).wf(),
        ensures
            final(self).wf(),
            final(self).seller_badge_resource == old(self).seller_badge_resource,
            final(self).payment_resource == old(self).payment_resource,
            final(self).badge_ids@ == old(self).badge_ids@,
            r is Err ==> final(self).auctions@ == old(self).auctions@,
            seller_badge.resource.key@ != old(self).seller_badge_resource.key@ ==> r
                == Err::<Vec<Action>, AuctionError>(AuctionError::InvalidBadge),
            forall|item: NftAddress|
                #![trigger names_item(seller_badge.payload, item@)]
                item.wf() && names_item(seller_badge.payload, item@)
                    && seller_badge.resource.key@ == old(self).seller_badge_resource.key@
                    ==> match lookup(old(self).auctions@, item@) {
                    None => r == Err::<Vec<Action>, AuctionError>(AuctionError::NotFound),
                    Some(i) => if seller_badge.id@ != old(self).badge_ids@[i]@ {
                        r == Err::<Vec<Action>, AuctionError>(AuctionError::InvalidBadge)
                    } else {
                        let a = old(self).auctions@[i];
                        match cancel_error(a, seller_badge.resource.key@, current_epoch) {
                            Some(e) => r == Err::<Vec<Action>, AuctionError>(e),
                            None => r matches Ok(acts) && acts@ == cancel_actions(a)
                                && final(self).auctions@ == old(self).auctions@.update(
                                i,
                                cancelled(a),
                            ),
                        }
                    },
                },
    {
        if !seller_badge.resource.same(&self.seller_badge_resource) {
            return Err(AuctionError::InvalidBadge);
        }
        let nft_address = match item_of_badge(&seller_badge.payload) {
            Some(a) => a,
            None => {
                return Err(AuctionError::InvalidBadgePayload);
            },
        };
        self.cancel_auction_of(&seller_badge.resource, &seller_badge.id, &nft_address, current_epoch)
    }

    /// The registry stays well formed when one auction changes in place,
    /// keeping its item, badge resource and currency.
    proof fn lemma_wf_after_update(&self, before: NftMarketplace, i: int)
        requires
            before.wf(),
            0 <= i < before.auctions@.len(),
            self.auctions@.len() == before.auctions@.len(),
            self.badge_ids@.len() == before.badge_ids@.len(),
            self.seller_badge_resource == before.seller_badge_resource,
            self.payment_resource == before.payment_resource,
            forall|j: int| 0 <= j < self.auctions@.len() && j != i ==> self.auctions@[j]
                == before.auctions@[j],
            self.auctions@[i].wf(),
            self.auctions@[i].item@ == before.auctions@[i].item@,
            self.auctions@[i].badge_resource == before.auctions@[i].badge_resource,
            self.auctions@[i].payment_resource == before.auctions@[i].payment_resource,
        ensures
            self.wf(),
    {
        assert forall|j: int, k: int|
            0 <= j < self.auctions@.len() && 0 <= k < self.auctions@.len() && j != k implies (
            #[trigger] self.auctions@[j]).item@ != (#[trigger] self.auctions@[k]).item@ by {
            assert(before.auctions@[j].item@ != before.auctions@[k].item@);
        }
        assert forall|j: int| 0 <= j < self.auctions@.len() implies {
            let a = #[trigger] self.auctions@[j];
            &&& a.wf()
            &&& a.badge_resource == self.seller_badge_resource
            &&& a.payment_resource == self.payment_resource
        } by {
            let _ = before.auctions@[j];
        }
    }

    /// A copy of the auction of `nft_address`, if there is one.
    pub fn get_auction(&self, nft_address: &NftAddress) -> (r: Option<Auction>)
        requires
            self.wf(),
        ensures
            match lookup(self.auctions@, nft_address@) {
                Some(i) => r matches Some(a) && a.item@ == self.auctions@[i].item@ && a == (
                Auction { item: a.item, ..self.auctions@[i] }),
                None => r is None,
            },
    {
        match self.find(nft_address) {
            Some(i) => Some(self.auctions[i].copy()),
            None => None,
        }
    }

    /// Copies of all auctions, in the order in which they were first opened.
    pub fn get_auctions(&self) -> (r: Vec<Auction>)
        ensures
            r@.len() == self.auctions@.len(),
            forall|i: int|
                0 <= i < r@.len() ==> (#[trigger] r@[i]).item@ == self.auctions@[i].item@ && r@[i]
                    == (Auction { item: r@[i].item, ..self.auctions@[i] }),
    {
        let mut r: Vec<Auction> = Vec::new();
        let mut i: usize = 0;
        while i < self.auctions.len()
            invariant
                0 <= i <= self.auctions@.len(),
                r@.len() == i,
                forall|j: int|
                    0 <= j < i ==> (#[trigger] r@[j]).item@ == self.auctions@[j].item@ && r@[j]
                        == (Auction { item: r@[j].item, ..self.auctions@[j] }),
            decreases self.auctions@.len() - i,
        {
            r.push(self.auctions[i].copy());
            i = i + 1;
        }
        r
    }
}

} // verus!
