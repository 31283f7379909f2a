//! Laws of the auction state machine, stated over the transitions that the
//! operations of [`Auction`] are proved to follow.
use vstd::prelude::*;

use crate::auction::{
    above_buy_price, after_bid, below_minimum, bid_actions, bid_error, cancel_actions,
    cancel_error, cancelled, finish_error, meets_buy_price, refund, settled, settlement, with_bid,
    Action,
    Auction, AuctionError, AuctionStatus, Bid,
};
use crate::ids::ComponentId;

verus! {

/// `a` after the bids of `bids`, in order, each accepted.
pub open spec fn after_bids(a: Auction, bids: Seq<Bid>) -> Auction
    decreases bids.len(),
{
    if bids.len() == 0 {
        a
    } else {
        let last = bids.last();
        after_bid(after_bids(a, bids.drop_last()), last.bidder, last.amount)
    }
}

/// Whether `bids` rise strictly, each meets the minimum price of `a`, and
/// each stays under its buy price.
pub open spec fn rising_below_buy_price(a: Auction, bids: Seq<Bid>) -> bool {
    &&& forall|i: int, j: int| 0 <= i < j < bids.len() ==> bids[i].amount < bids[j].amount
    &&& forall|i: int| 0 <= i < bids.len() ==> !below_minimum(a, #[trigger] bids[i].amount)
    &&& forall|i: int| 0 <= i < bids.len() ==> match a.buy_price {
        Some(p) => #[trigger] bids[i].amount < p,
        None => true,
    }
}

proof fn lemma_after_rising_bids(a: Auction, bids: Seq<Bid>, n: int)
    requires
        a.wf(),
        a.status is Active,
        a.highest_bid is None,
        rising_below_buy_price(a, bids),
        0 <= n <= bids.len(),
    ensures
        after_bids(a, bids.take(n)) == if n == 0 {
            a
        } else {
            with_bid(a, bids[n - 1].bidder, bids[n - 1].amount)
        },
    decreases n,
{
    if n > 0 {
        assert(bids.take(n).drop_last() =~= bids.take(n - 1));
        lemma_after_rising_bids(a, bids, n - 1);
    }
}

/// A run of strictly rising bids, each meeting the minimum price and under the
/// buy price, placed by accounts in the accepted currency before the end, is
/// accepted bid by bid. Each bid refunds exactly the previous bid to its
/// bidder, if there was one, and escrows its own payment; the bid vault then
/// holds exactly the latest bid.
pub proof fn lemma_rising_bids_refund_previous(a: Auction, bids: Seq<Bid>, current_epoch: u64)
    requires
        a.wf(),
        a.status is Active,
        a.highest_bid is None,
        current_epoch < a.ending_epoch,
        rising_below_buy_price(a, bids),
    ensures
        forall|i: int|
            0 <= i < bids.len() ==> {
                let before = #[trigger] after_bids(a, bids.take(i));
                &&& bid_error(before, true, a.payment_resource.key@, bids[i].amount, current_epoch)
                    is None
                &&& bid_actions(before, bids[i].bidder, bids[i].amount) == if i == 0 {
                    seq![Action::EscrowPayment { amount: bids[i].amount }]
                } else {
                    seq![
                        Action::ReleaseBid { to: bids[i - 1].bidder, amount: bids[i - 1].amount },
                        Action::EscrowPayment { amount: bids[i].amount },
                    ]
                }
                &&& after_bids(a, bids.take(i + 1)).highest_bid == Some(bids[i])
                &&& after_bids(a, bids.take(i + 1)).escrowed() == bids[i].amount
            },
{
    assert forall|i: int| 0 <= i < bids.len() implies {
        let before = #[trigger] after_bids(a, bids.take(i));
        &&& bid_error(before, true, a.payment_resource.key@, bids[i].amount, current_epoch)
            is None
        &&& bid_actions(before, bids[i].bidder, bids[i].amount) == if i == 0 {
            seq![Action::EscrowPayment { amount: bids[i].amount }]
        } else {
            seq![
                Action::ReleaseBid { to: bids[i - 1].bidder, amount: bids[i - 1].amount },
                Action::EscrowPayment { amount: bids[i].amount },
            ]
        }
        &&& after_bids(a, bids.take(i + 1)).highest_bid == Some(bids[i])
        &&& after_bids(a, bids.take(i + 1)).escrowed() == bids[i].amount
    } by {
        lemma_after_rising_bids(a, bids, i);
        lemma_after_rising_bids(a, bids, i + 1);
        if i > 0 {
            assert(bids[i - 1].amount < bids[i].amount);
        }
        let before = after_bids(a, bids.take(i));
        assert(!meets_buy_price(before, bids[i].amount));
        assert(refund(before).push(Action::EscrowPayment { amount: bids[i].amount })
            =~= bid_actions(before, bids[i].bidder, bids[i].amount));
    }
}

/// A bid at or under the standing bid is refused, whatever else holds; a
/// refused bid changes nothing (see [`Auction::bid`]).
pub proof fn lemma_low_bid_refused(
    a: Auction,
    bidder_is_account: bool,
    payment_resource: Seq<u8>,
    amount: u128,
    current_epoch: u64,
)
    requires
        a.highest_bid matches Some(b) && amount <= b.amount,
    ensures
        bid_error(a, bidder_is_account, payment_resource, amount, current_epoch) is Some,
{
}

/// A bid that meets the buy price exactly, and passes the other checks, is
/// accepted and settles the auction in the same call, however many epochs
/// remain: the item goes to the bidder and the payment to the seller.
pub proof fn lemma_buy_price_settles_at_once(
    a: Auction,
    bidder: ComponentId,
    amount: u128,
    current_epoch: u64,
)
    requires
        a.wf(),
        a.status is Active,
        current_epoch < a.ending_epoch,
        a.buy_price == Some(amount),
        !below_minimum(a, amount),
    ensures
        bid_error(a, true, a.payment_resource.key@, amount, current_epoch) is None,
        after_bid(a, bidder, amount).status == (AuctionStatus::Sold { buyer: bidder, price: amount }),
        !after_bid(a, bidder, amount).holds_item(),
        after_bid(a, bidder, amount).escrowed() == 0,
        bid_actions(a, bidder, amount) == refund(a) + seq![
            Action::EscrowPayment { amount },
            Action::ReleaseItem { to: bidder },
            Action::ReleaseBid { to: a.seller, amount },
        ],
{
    assert(bid_actions(a, bidder, amount) =~= refund(a) + seq![
        Action::EscrowPayment { amount },
        Action::ReleaseItem { to: bidder },
        Action::ReleaseBid { to: a.seller, amount },
    ]);
}

/// `finish` before the ending epoch always fails as still in progress.
pub proof fn lemma_finish_early_fails(a: Auction, current_epoch: u64)
    requires
        current_epoch < a.ending_epoch,
    ensures
        finish_error(a, current_epoch) == Some(AuctionError::StillInProgress),
{
}

/// `finish` at or after the ending epoch succeeds on an active auction and
/// leaves both vaults empty; it then fails at every later call.
pub proof fn lemma_finish_settles_once(a: Auction, current_epoch: u64, later_epoch: u64)
    requires
        a.wf(),
        a.status is Active,
        current_epoch >= a.ending_epoch,
    ensures
        finish_error(a, current_epoch) is None,
        !settled(a).holds_item(),
        settled(a).escrowed() == 0,
        finish_error(settled(a), later_epoch) is Some,
{
}

/// `cancel` with a badge of another resource fails; with the auction's own
/// badge before the end it refunds any standing bid, burns the badge and
/// returns the item to the seller, after which the badge cancels nothing more;
/// at or after the end it fails.
pub proof fn lemma_cancel_rules(
    a: Auction,
    badge_resource: Seq<u8>,
    current_epoch: u64,
    later_epoch: u64,
)
    requires
        a.wf(),
    ensures
        badge_resource != a.badge_resource.key@ ==> cancel_error(a, badge_resource, current_epoch)
            == Some(AuctionError::InvalidBadge),
        current_epoch >= a.ending_epoch ==> cancel_error(a, badge_resource, current_epoch) is Some,
        badge_resource == a.badge_resource.key@ && current_epoch < a.ending_epoch && a.status
            is Active ==> {
            &&& cancel_error(a, badge_resource, current_epoch) is None
            &&& cancel_actions(a) == refund(a) + seq![
                Action::BurnBadge,
                Action::ReleaseItem { to: a.seller },
            ]
            &&& !cancelled(a).holds_item()
            &&& cancelled(a).escrowed() == 0
            &&& cancel_error(cancelled(a), badge_resource, later_epoch) is Some
        },
{
}

/// The bid vault's balance after `actions`, starting from `balance`; `None`
/// if a release does not take exactly what the vault holds.
pub open spec fn bid_vault_after(balance: nat, actions: Seq<Action>) -> Option<nat>
    decreases actions.len(),
{
    if actions.len() == 0 {
        Some(balance)
    } else {
        match actions[0] {
            Action::ReleaseBid { amount, .. } => if amount as nat == balance {
                bid_vault_after(0, actions.drop_first())
            } else {
                None
            },
            Action::EscrowPayment { amount } => bid_vault_after(
                balance + amount as nat,
                actions.drop_first(),
            ),
            _ => bid_vault_after(balance, actions.drop_first()),
        }
    }
}

/// The units in the item vault after `actions`, starting from `units`;
/// `None` if a release finds the vault empty.
pub open spec fn item_vault_after(units: nat, actions: Seq<Action>) -> Option<nat>
    decreases actions.len(),
{
    if actions.len() == 0 {
        Some(units)
    } else {
        match actions[0] {
            Action::ReleaseItem { .. } => if units == 1 {
                item_vault_after(0, actions.drop_first())
            } else {
                None
            },
            _ => item_vault_after(units, actions.drop_first()),
        }
    }
}

/// The units that the item vault of `a` holds: one while it is active.
pub open spec fn item_units(a: Auction) -> nat {
    if a.holds_item() {
        1
    } else {
        0
    }
}

/// Whether carrying out `actions` takes the vaults of `before` to those of
/// `after`, each release taking exactly what its vault holds.
pub open spec fn moves_custody(before: Auction, actions: Seq<Action>, after: Auction) -> bool {
    &&& bid_vault_after(before.escrowed(), actions) == Some(after.escrowed())
    &&& item_vault_after(item_units(before), actions) == Some(item_units(after))
}

proof fn lemma_bid_moves_custody(a: Auction, bidder: ComponentId, amount: u128)
    requires
        a.wf(),
        a.status is Active,
        !above_buy_price(a, amount),
        a.highest_bid matches Some(h) ==> h.amount < amount,
    ensures
        moves_custody(a, bid_actions(a, bidder, amount), after_bid(a, bidder, amount)),
{
    reveal_with_fuel(bid_vault_after, 5);
    reveal_with_fuel(item_vault_after, 5);
    let acts = bid_actions(a, bidder, amount);
    let placed = refund(a).push(Action::EscrowPayment { amount });
    let b = with_bid(a, bidder, amount);
    if meets_buy_price(a, amount) {
        assert(settlement(b) == seq![
            Action::ReleaseItem { to: bidder },
            Action::ReleaseBid { to: a.seller, amount },
        ]);
        assert(after_bid(a, bidder, amount).escrowed() == 0);
        assert(!after_bid(a, bidder, amount).holds_item());
    } else {
        assert(after_bid(a, bidder, amount) == b);
        assert(b.escrowed() == amount as nat);
    }
    match a.highest_bid {
        Some(h) => {
            assert(placed =~= seq![
                Action::ReleaseBid { to: h.bidder, amount: h.amount },
                Action::EscrowPayment { amount },
            ]);
        },
        None => {
            assert(placed =~= seq![Action::EscrowPayment { amount }]);
        },
    }
    assert(acts =~= if meets_buy_price(a, amount) {
        placed + settlement(b)
    } else {
        placed
    });
}

proof fn lemma_cancel_moves_custody(a: Auction)
    requires
        a.wf(),
        a.status is Active,
    ensures
        moves_custody(a, cancel_actions(a), cancelled(a)),
{
    reveal_with_fuel(bid_vault_after, 4);
    reveal_with_fuel(item_vault_after, 4);
    match a.highest_bid {
        Some(h) => {
            assert(cancel_actions(a) =~= seq![
                Action::ReleaseBid { to: h.bidder, amount: h.amount },
                Action::BurnBadge,
                Action::ReleaseItem { to: a.seller },
            ]);
        },
        None => {
            assert(cancel_actions(a) =~= seq![
                Action::BurnBadge,
                Action::ReleaseItem { to: a.seller },
            ]);
        },
    }
}

proof fn lemma_finish_moves_custody(a: Auction)
    requires
        a.wf(),
        a.status is Active,
    ensures
        moves_custody(a, settlement(a), settled(a)),
{
    reveal_with_fuel(bid_vault_after, 3);
    reveal_with_fuel(item_vault_after, 3);
}

/// Every accepted operation keeps custody consistent: its moves, carried out
/// in order, release exactly what each vault holds (a refund takes the whole
/// escrow before a new payment comes in) and leave the item vault and the
/// bid vault holding what the auction's new state records.
pub proof fn lemma_operations_move_custody(
    a: Auction,
    bidder: ComponentId,
    bidder_is_account: bool,
    payment_resource: Seq<u8>,
    amount: u128,
    badge_resource: Seq<u8>,
    current_epoch: u64,
)
    requires
        a.wf(),
    ensures
        bid_error(a, bidder_is_account, payment_resource, amount, current_epoch) is None
            ==> moves_custody(a, bid_actions(a, bidder, amount), after_bid(a, bidder, amount)),
        finish_error(a, current_epoch) is None ==> moves_custody(a, settlement(a), settled(a)),
        cancel_error(a, badge_resource, current_epoch) is None ==> moves_custody(
            a,
            cancel_actions(a),
            cancelled(a),
        ),
{
    if bid_error(a, bidder_is_account, payment_resource, amount, current_epoch) is None {
        lemma_bid_moves_custody(a, bidder, amount);
    }
    if finish_error(a, current_epoch) is None {
        lemma_finish_moves_custody(a);
    }
    if cancel_error(a, badge_resource, current_epoch) is None {
        lemma_cancel_moves_custody(a);
    }
}

} // verus!
