//! One auction of one non-fungible item, from creation to settlement.
//!
//! An [`Auction`] keeps the bookkeeping of two vaults that the ledger holds on
//! its behalf: the item vault, which holds the item while the auction is
//! active, and the bid vault, which holds the payment of the highest bid. Each
//! operation either fails with no change at all, or changes the auction and
//! returns the custody moves ([`Action`]s) that bring the ledger's vaults and
//! accounts into line with it, in the order in which they must happen.
use vstd::prelude::*;

use crate::ids::{ComponentId, NftAddress, NftAddressView, NftId, ResourceId};

verus! {

/// The escrowed highest bid: who placed it, and the amount that the bid vault
/// holds for it.
#[derive(Clone, Copy, Debug, PartialEq, Eq)]
pub struct Bid {
    pub bidder: ComponentId,
    pub amount: u128,
}

/// Where an auction stands. Every status but `Active` is terminal.
#[derive(Clone, Copy, Debug, PartialEq, Eq)]
pub enum AuctionStatus {
    /// The item is in custody and bids may come in.
    Active,
    /// The item went to `buyer`, and `price` went to the seller.
    Sold { buyer: ComponentId, price: u128 },
    /// The auction ended with no bid, and the item went back to the seller.
    ReturnedToSeller,
    /// The seller cancelled before the end; the item went back to the seller.
    Cancelled,
}

/// A move of custody that the ledger must carry out.
#[derive(Clone, Copy, Debug, PartialEq, Eq)]
pub enum Action {
    /// Withdraw everything from the bid vault, which holds `amount`, and
    /// deposit it into the account `to`.
    ReleaseBid { to: ComponentId, amount: u128 },
    /// Deposit the incoming payment, of `amount`, into the bid vault.
    EscrowPayment { amount: u128 },
    /// Withdraw the item from the item vault and deposit it into the account `to`.
    ReleaseItem { to: ComponentId },
    /// Burn the cancellation badge that was presented.
    BurnBadge,
}

/// Why an operation was refused. A refused operation changes nothing.
#[derive(Clone, Copy, Debug, PartialEq, Eq)]
pub enum AuctionError {
    /// The submitted resource is not non-fungible.
    NotNonFungible,
    /// The submitted bucket does not hold exactly one token.
    NotSingleItem,
    /// The auction period is zero.
    InvalidPeriod,
    /// The auction would end after the last representable epoch.
    EpochOverflow,
    /// An address that must receive funds or items is not an account.
    NotAnAccount,
    /// A bid came at or after the ending epoch.
    Expired,
    /// The payment is not in the accepted currency.
    InvalidPaymentResource,
    /// The bid is under the minimum price.
    BelowMinimum,
    /// The bid is not strictly above the current highest bid.
    NotHigherThanCurrent,
    /// The bid is above the buy price.
    AboveBuyPrice,
    /// `finish` came before the ending epoch.
    StillInProgress,
    /// The presented badge is not this auction's badge.
    InvalidBadge,
    /// `cancel` came at or after the ending epoch.
    Ended,
    /// The auction was already settled: its item has left custody.
    Settled,
    /// No auction is registered for the item.
    NotFound,
    /// The badge payload does not name an item.
    InvalidBadgePayload,
    /// The item is already under an active auction.
    AlreadyListed,
}

impl AuctionError {
    /// A short reason for the refusal.
    pub fn message(&self) -> &'static str {
        match self {
            AuctionError::NotNonFungible => "The resource is not a NFT",
            AuctionError::NotSingleItem => "Can only start an auction of a single NFT",
            AuctionError::InvalidPeriod => "Invalid auction period",
            AuctionError::EpochOverflow => "Auction period ends past the last epoch",
            AuctionError::NotAnAccount => "Invalid bidder account",
            AuctionError::Expired => "Auction has expired",
            AuctionError::InvalidPaymentResource => "Invalid payment resource",
            AuctionError::BelowMinimum => "Minimum price not met",
            AuctionError::NotHigherThanCurrent => "There is a higher bid placed",
            AuctionError::AboveBuyPrice => "Payment exceeds the buying price",
            AuctionError::StillInProgress => "Auction is still in progress",
            AuctionError::InvalidBadge => "Invalid seller badge",
            AuctionError::Ended => "Auction has ended",
            AuctionError::Settled => "Auction is already settled",
            AuctionError::NotFound => "Auction does not exist",
            AuctionError::InvalidBadgePayload => "Invalid seller badge data",
            AuctionError::AlreadyListed => "The NFT is already being auctioned",
        }
    }
}

/// What a caller submits for sale: a bucket of the ledger, as the auction
/// sees it.
#[derive(Debug)]
pub struct ItemBucket {
    /// The resource of the bucket.
    pub resource: ResourceId,
    /// Whether that resource is non-fungible.
    pub non_fungible: bool,
    /// How much the bucket holds.
    pub amount: u128,
    /// The ids of the tokens in the bucket, for a non-fungible resource.
    pub ids: Vec<NftId>,
}

impl ItemBucket {
    /// Every id in the bucket is one that the ledger accepts.
    pub open spec fn wf(&self) -> bool {
        forall|i: int| 0 <= i < self.ids@.len() ==> #[trigger] self.ids@[i].wf()
    }
}

/// An English auction of one non-fungible item.
#[derive(Debug)]
pub struct Auction {
    /// The item under sale.
    pub item: NftAddress,
    /// The account that receives the payment, or the item back.
    pub seller: ComponentId,
    /// The one currency that bids may be paid in.
    pub payment_resource: ResourceId,
    /// The resource of this auction's cancellation badge.
    pub badge_resource: ResourceId,
    /// The least amount that a bid may offer.
    pub min_price: Option<u128>,
    /// The amount at which a bid wins at once.
    pub buy_price: Option<u128>,
    /// The highest bid, while its payment is in escrow.
    pub highest_bid: Option<Bid>,
    /// The epoch from which bids are refused and settlement is allowed.
    pub ending_epoch: u64,
    /// Where the auction stands.
    pub status: AuctionStatus,
}

/// The first check that `new` fails, if any.
pub open spec fn create_error(
    bucket: ItemBucket,
    seller_is_account: bool,
    epoch_period: u64,
    current_epoch: u64,
) -> Option<AuctionError> {
    if !bucket.non_fungible {
        Some(AuctionError::NotNonFungible)
    } else if bucket.amount != 1 || bucket.ids@.len() != 1 {
        Some(AuctionError::NotSingleItem)
    } else if epoch_period == 0 {
        Some(AuctionError::InvalidPeriod)
    } else if !seller_is_account {
        Some(AuctionError::NotAnAccount)
    } else if current_epoch + epoch_period > u64::MAX {
        Some(AuctionError::EpochOverflow)
    } else {
        None
    }
}

/// Whether `a` is the auction that opens on the item of `bucket`, with these terms.
pub open spec fn opened(
    a: Auction,
    bucket: ItemBucket,
    seller: ComponentId,
    min_price: Option<u128>,
    buy_price: Option<u128>,
    epoch_period: u64,
    current_epoch: u64,
    payment_resource: ResourceId,
    badge_resource: ResourceId,
) -> bool {
    &&& a.wf()
    &&& a.item@ == (NftAddressView { resource: bucket.resource.key@, id: bucket.ids@[0]@ })
    &&& a.seller == seller
    &&& a.payment_resource == payment_resource
    &&& a.badge_resource == badge_resource
    &&& a.min_price == min_price
    &&& a.buy_price == buy_price
    &&& a.highest_bid is None
    &&& a.ending_epoch == current_epoch + epoch_period
    &&& a.status is Active
}

/// Whether `amount` is under the minimum price of `a`.
pub open spec fn below_minimum(a: Auction, amount: u128) -> bool {
    match a.min_price {
        Some(m) => amount < m,
        None => false,
    }
}

/// Whether `amount` fails to beat the standing bid of `a`.
pub open spec fn not_above_highest(a: Auction, amount: u128) -> bool {
    match a.highest_bid {
        Some(b) => amount <= b.amount,
        None => false,
    }
}

/// Whether `amount` is over the buy price of `a`.
pub open spec fn above_buy_price(a: Auction, amount: u128) -> bool {
    match a.buy_price {
        Some(p) => amount > p,
        None => false,
    }
}

/// The first check that a bid fails, if any, in the order in which they are made.
pub open spec fn bid_error(
    a: Auction,
    bidder_is_account: bool,
    payment_resource: Seq<u8>,
    amount: u128,
    current_epoch: u64,
) -> Option<AuctionError> {
    if !(a.status is Active) {
        Some(AuctionError::Settled)
    } else if current_epoch >= a.ending_epoch {
        Some(AuctionError::Expired)
    } else if payment_resource != a.payment_resource.key@ {
        Some(AuctionError::InvalidPaymentResource)
    } else if !bidder_is_account {
        Some(AuctionError::NotAnAccount)
    } else if below_minimum(a, amount) {
        Some(AuctionError::BelowMinimum)
    } else if not_above_highest(a, amount) {
        Some(AuctionError::NotHigherThanCurrent)
    } else if above_buy_price(a, amount) {
        Some(AuctionError::AboveBuyPrice)
    } else {
        None
    }
}

/// The refund of the standing bid of `a`, if there is one.
pub open spec fn refund(a: Auction) -> Seq<Action> {
    match a.highest_bid {
        Some(b) => seq![Action::ReleaseBid { to: b.bidder, amount: b.amount }],
        None => seq![],
    }
}

/// `a` after settlement: the item goes to the highest bidder and the payment
/// to the seller, or, with no bid, the item goes back to the seller.
pub open spec fn settled(a: Auction) -> Auction {
    match a.highest_bid {
        Some(b) => Auction {
            highest_bid: None,
            status: AuctionStatus::Sold { buyer: b.bidder, price: b.amount },
            ..a
        },
        None => Auction { status: AuctionStatus::ReturnedToSeller, ..a },
    }
}

/// The custody moves of settling `a`.
pub open spec fn settlement(a: Auction) -> Seq<Action> {
    match a.highest_bid {
        Some(b) => seq![
            Action::ReleaseItem { to: b.bidder },
            Action::ReleaseBid { to: a.seller, amount: b.amount },
        ],
        None => seq![Action::ReleaseItem { to: a.seller }],
    }
}

/// `a` with the bid of `amount` by `bidder` in escrow, in place of any earlier one.
pub open spec fn with_bid(a: Auction, bidder: ComponentId, amount: u128) -> Auction {
    Auction { highest_bid: Some(Bid { bidder, amount }), ..a }
}

/// Whether a bid of `amount` meets the buy price of `a` exactly.
pub open spec fn meets_buy_price(a: Auction, amount: u128) -> bool {
    a.buy_price == Some(amount)
}

/// `a` after an accepted bid.
pub open spec fn after_bid(a: Auction, bidder: ComponentId, amount: u128) -> Auction {
    if meets_buy_price(a, amount) {
        settled(with_bid(a, bidder, amount))
    } else {
        with_bid(a, bidder, amount)
    }
}

/// The custody moves of an accepted bid: the refund of the bid it replaces,
/// the escrow of its payment, and the settlement if it meets the buy price.
pub open spec fn bid_actions(a: Auction, bidder: ComponentId, amount: u128) -> Seq<Action> {
    let placed = refund(a).push(Action::EscrowPayment { amount });
    if meets_buy_price(a, amount) {
        placed + settlement(with_bid(a, bidder, amount))
    } else {
        placed
    }
}

/// The first check that `finish` fails, if any.
pub open spec fn finish_error(a: Auction, current_epoch: u64) -> Option<AuctionError> {
    if current_epoch < a.ending_epoch {
        Some(AuctionError::StillInProgress)
    } else if !(a.status is Active) {
        Some(AuctionError::Settled)
    } else {
        None
    }
}

/// The first check that `cancel` fails, if any.
pub open spec fn cancel_error(a: Auction, badge_resource: Seq<u8>, current_epoch: u64) -> Option<
    AuctionError,
> {
    if badge_resource != a.badge_resource.key@ {
        Some(AuctionError::InvalidBadge)
    } else if current_epoch >= a.ending_epoch {
        Some(AuctionError::Ended)
    } else if !(a.status is Active) {
        Some(AuctionError::Settled)
    } else {
        None
    }
}

/// `a` after a cancellation.
pub open spec fn cancelled(a: Auction) -> Auction {
    Auction { highest_bid: None, status: AuctionStatus::Cancelled, ..a }
}

/// The custody moves of a cancellation: the refund of any standing bid, the
/// burning of the badge, and the return of the item to the seller.
pub open spec fn cancel_actions(a: Auction) -> Seq<Action> {
    refund(a) + seq![Action::BurnBadge, Action::ReleaseItem { to: a.seller }]
}

impl Auction {
    /// The bookkeeping agrees with the vaults: the item is in custody exactly
    /// while the auction is active, and payment is escrowed only then.
    pub open spec fn wf(&self) -> bool {
        &&& self.item.wf()
        &&& !(self.status is Active) ==> self.highest_bid is None
        &&& self.highest_bid matches Some(b) ==> !above_buy_price(*self, b.amount)
            && !meets_buy_price(*self, b.amount)
    }

    /// Whether the item is still in custody.
    pub open spec fn holds_item(&self) -> bool {
        self.status is Active
    }

    /// What the bid vault holds.
    pub open spec fn escrowed(&self) -> nat {
        match self.highest_bid {
            Some(b) => b.amount as nat,
            None => 0,
        }
    }
}

impl Auction {
    /// Opens an auction of the item in `bucket`, to end `epoch_period` epochs
    /// after `current_epoch`. `seller_is_account` tells whether `seller` is an
    /// account, which must hold for the seller to be paid. On success the
    /// caller moves the bucket into the item vault.
    pub fn new(
        bucket: ItemBucket,
        seller: ComponentId,
        seller_is_account: bool,
        min_price: Option<u128>,
        buy_price: Option<u128>,
        epoch_period: u64,
        current_epoch: u64,
        payment_resource: ResourceId,
        badge_resource: ResourceId,
    ) -> (r: Result<Auction, AuctionError>)
        requires
            bucket.wf(),
        ensures
            match create_error(bucket, seller_is_account, epoch_period, current_epoch) {
                Some(e) => r == Err::<Auction, AuctionError>(e),
                None => r matches Ok(a) && opened(
                    a,
                    bucket,
                    seller,
                    min_price,
                    buy_price,
                    epoch_period,
                    current_epoch,
                    payment_resource,
                    badge_resource,
                ),
            },
    {
        if !bucket.non_fungible {
            return Err(AuctionError::NotNonFungible);
        }
        if bucket.amount != 1 || bucket.ids.len() != 1 {
            return Err(AuctionError::NotSingleItem);
        }
        if epoch_period == 0 {
            return Err(AuctionError::InvalidPeriod);
        }
        if !seller_is_account {
            return Err(AuctionError::NotAnAccount);
        }
        let ending_epoch = match current_epoch.checked_add(epoch_period) {
            Some(e) => e,
            None => {
                return Err(AuctionError::EpochOverflow);
            },
        };
        let mut ids = bucket.ids;
        assert(ids@[0].wf());
        let id = ids.remove(0);
        Ok(Auction {
            item: NftAddress { resource: bucket.resource, id },
            seller,
            payment_resource,
            badge_resource,
            min_price,
            buy_price,
            highest_bid: None,
            ending_epoch,
            status: AuctionStatus::Active,
        })
    }

    /// A copy of this auction.
    pub fn copy(&self) -> (r: Auction)
        ensures
            r.item@ == self.item@,
            r.item.wf() == self.item.wf(),
            r == (Auction { item: r.item, ..*self }),
    {
        Auction {
            item: self.item.copy(),
            seller: self.seller,
            payment_resource: self.payment_resource,
            badge_resource: self.badge_resource,
            min_price: self.min_price,
            buy_price: self.buy_price,
            highest_bid: self.highest_bid,
            ending_epoch: self.ending_epoch,
            status: self.status,
        }
    }

    /// Whether the item is still in custody.
    pub fn is_active(&self) -> (r: bool)
        ensures
            r == (self.status is Active),
    {
        match self.status {
            AuctionStatus::Active => true,
            _ => false,
        }
    }

    /// Settles the auction: appends the custody moves to `actions`.
    fn process_payments(&mut self, actions: &mut Vec<Action>)
        requires
            old(self).item.wf(),
            old(self).status is Active,
        ensures
            *final(self) == settled(*old(self)),
            final(actions)@ == old(actions)@ + settlement(*old(self)),
    {
        match self.highest_bid {
            Some(b) => {
                actions.push(Action::ReleaseItem { to: b.bidder });
                actions.push(Action::ReleaseBid { to: self.seller, amount: b.amount });
                self.highest_bid = None;
                self.status = AuctionStatus::Sold { buyer: b.bidder, price: b.amount };
            },
            None => {
                actions.push(Action::ReleaseItem { to: self.seller });
                self.status = AuctionStatus::ReturnedToSeller;
            },
        }
    }

    /// Places a bid of `amount`, paid in `payment_resource`, by `bidder`, at
    /// `current_epoch`. `bidder_is_account` tells whether `bidder` is an
    /// account, which must hold for a refund to reach it. An accepted bid
    /// refunds the bid it replaces, escrows its own payment, and, if it meets
    /// the buy price, settles the auction at once.
    pub fn bid(
        &mut self,
        bidder: ComponentId,
        bidder_is_account: bool,
        payment_resource: &ResourceId,
        amount: u128,
        current_epoch: u64,
    ) -> (r: Result<Vec<Action>, AuctionError>)
        requires
            old(self).wf(),
        ensures
            final(self).wf(),
            match bid_error(*old(self), bidder_is_account, payment_resource.key@, amount, current_epoch) {
                Some(e) => r == Err::<Vec<Action>, AuctionError>(e) && *final(self) == *old(self),
                None => r matches Ok(acts) && acts@ == bid_actions(*old(self), bidder, amount)
                    && *final(self) == after_bid(*old(self), bidder, amount),
            },
    {
        if !self.is_active() {
            return Err(AuctionError::Settled);
        }
        if current_epoch >= self.ending_epoch {
            return Err(AuctionError::Expired);
        }
        if !payment_resource.same(&self.payment_resource) {
            return Err(AuctionError::InvalidPaymentResource);
        }
        if !bidder_is_account {
            return Err(AuctionError::NotAnAccount);
        }
        if let Some(m) = self.min_price {
            if amount < m {
                return Err(AuctionError::BelowMinimum);
            }
        }
        if let Some(b) = self.highest_bid {
            if amount <= b.amount {
                return Err(AuctionError::NotHigherThanCurrent);
            }
        }
        if let Some(p) = self.buy_price {
            if amount > p {
                return Err(AuctionError::AboveBuyPrice);
            }
        }
        let mut actions: Vec<Action> = Vec::new();
        if let Some(b) = self.highest_bid {
            actions.push(Action::ReleaseBid { to: b.bidder, amount: b.amount });
        }
        assert(actions@ == refund(*old(self)));
        actions.push(Action::EscrowPayment { amount });
        self.highest_bid = Some(Bid { bidder, amount });
        if let Some(p) = self.buy_price {
            if amount == p {
                self.process_payments(&mut actions);
            }
        }
        Ok(actions)
    }

    /// Settles the auction once its ending epoch has come: the item goes to
    /// the highest bidder and the escrowed payment to the seller, or, with no
    /// bid, the item goes back to the seller.
    pub fn finish(&mut self, current_epoch: u64) -> (r: Result<Vec<Action>, AuctionError>)
        requires
            old(self).wf(),
        ensures
            final(self).wf(),
            match finish_error(*old(self), current_epoch) {
                Some(e) => r == Err::<Vec<Action>, AuctionError>(e) && *final(self) == *old(self),
                None => r matches Ok(acts) && acts@ == settlement(*old(self))
                    && *final(self) == settled(*old(self)),
            },
    {
        if current_epoch < self.ending_epoch {
            return Err(AuctionError::StillInProgress);
        }
        if !self.is_active() {
            return Err(AuctionError::Settled);
        }
        let mut actions: Vec<Action> = Vec::new();
        self.process_payments(&mut actions);
        Ok(actions)
    }

    /// Cancels the auction before its ending epoch, on presentation of a badge
    /// of `badge_resource`: any standing bid is refunded, the badge is burnt
    /// and the item goes back to the seller.
    pub fn cancel(&mut self, badge_resource: &ResourceId, current_epoch: u64) -> (r: Result<
        Vec<Action>,
        AuctionError,
    >)
        requires
            old(self).wf(),
        ensures
            final(self).wf(),
            match cancel_error(*old(self), badge_resource.key@, current_epoch) {
                Some(e) => r == Err::<Vec<Action>, AuctionError>(e) && *final(self) == *old(self),
                None => r matches Ok(acts) && acts@ == cancel_actions(*old(self))
                    && *final(self) == cancelled(*old(self)),
            },
    {
        if !badge_resource.same(&self.badge_resource) {
            return Err(AuctionError::InvalidBadge);
        }
        if current_epoch >= self.ending_epoch {
            return Err(AuctionError::Ended);
        }
        if !self.is_active() {
            return Err(AuctionError::Settled);
        }
        let mut actions: Vec<Action> = Vec::new();
        if let Some(b) = self.highest_bid {
            actions.push(Action::ReleaseBid { to: b.bidder, amount: b.amount });
        }
        actions.push(Action::BurnBadge);
        actions.push(Action::ReleaseItem { to: self.seller });
        self.highest_bid = None;
        self.status = AuctionStatus::Cancelled;
        assert(actions@ == cancel_actions(*old(self)));
        Ok(actions)
    }
}

} // verus!
