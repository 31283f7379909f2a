//! A discovery index of auction components, grouped by the epoch at which
//! they end.
use vstd::prelude::*;

use crate::ids::{ComponentId, TemplateId};

verus! {

/// Why an index refused to record something. A refused call changes nothing.
#[derive(Clone, Copy, Debug, PartialEq, Eq)]
pub enum IndexError {
    /// The auction would end after the last representable epoch.
    EpochOverflow,
    /// The resource pair already has a pool.
    PoolExists,
}

impl IndexError {
    /// A short reason for the refusal.
    pub fn message(&self) -> &'static str {
        match self {
            IndexError::EpochOverflow => "Auction period ends past the last epoch",
            IndexError::PoolExists => "A pool already exists for the input resources",
        }
    }
}

/// The auctions that end at one epoch, in the order in which they were created.
#[derive(Debug, PartialEq, Eq)]
pub struct EpochAuctions {
    pub ending_epoch: u64,
    pub auctions: Vec<ComponentId>,
}

/// The auctions listed under `epoch` in `groups`.
pub open spec fn listed(groups: Seq<EpochAuctions>, epoch: u64) -> Seq<ComponentId> {
    if exists|i: int| 0 <= i < groups.len() && (#[trigger] groups[i]).ending_epoch == epoch {
        groups[choose|i: int|
            0 <= i < groups.len() && (#[trigger] groups[i]).ending_epoch == epoch].auctions@
    } else {
        seq![]
    }
}

/// A copy of a list of components.
fn copy_components(v: &Vec<ComponentId>) -> (r: Vec<ComponentId>)
    ensures
        r@ == v@,
{
    let mut r: Vec<ComponentId> = Vec::new();
    let mut i: usize = 0;
    while i < v.len()
        invariant
            0 <= i <= v@.len(),
            r@ == v@.subrange(0, i as int),
        decreases v@.len() - i,
    {
        r.push(v[i]);
        i = i + 1;
        assert(r@ =~= v@.subrange(0, i as int));
    }
    assert(r@ =~= v@);
    r
}

/// An index of the auction components instantiated from one template.
#[derive(Debug)]
pub struct AuctionIndex {
    /// The template that the indexed auctions are instantiated from.
    pub auction_template: TemplateId,
    /// The auctions, grouped by ending epoch, one group for each epoch.
    pub auctions: Vec<EpochAuctions>,
}

impl AuctionIndex {
    /// No two groups are for the same epoch.
    pub open spec fn wf(&self) -> bool {
        forall|i: int, j: int|
            0 <= i < self.auctions@.len() && 0 <= j < self.auctions@.len() && i != j
                ==> (#[trigger] self.auctions@[i]).ending_epoch != (#[trigger] self.auctions@[
                j]).ending_epoch
    }

    /// The auctions listed under `epoch`.
    pub open spec fn listed_at(&self, epoch: u64) -> Seq<ComponentId> {
        listed(self.auctions@, epoch)
    }

    /// An empty index of auctions of `auction_template`.
    pub fn new(auction_template: TemplateId) -> (r: Self)
        ensures
            r.wf(),
            r.auction_template == auction_template,
            forall|e: u64| r.listed_at(e) == Seq::<ComponentId>::empty(),
    {
        AuctionIndex { auction_template, auctions: Vec::new() }
    }

    /// Copies of the groups of auctions, one for each epoch.
    pub fn get_auctions(&self) -> (r: Vec<EpochAuctions>)
        ensures
            r@.len() == self.auctions@.len(),
            forall|i: int|
                0 <= i < r@.len() ==> (#[trigger] r@[i]).ending_epoch == self.auctions@[i].ending_epoch
                    && r@[i].auctions@ == self.auctions@[i].auctions@,
    {
        let mut r: Vec<EpochAuctions> = Vec::new();
        let mut i: usize = 0;
        while i < self.auctions.len()
            invariant
                0 <= i <= self.auctions@.len(),
                r@.len() == i,
                forall|j: int|
                    0 <= j < i ==> (#[trigger] r@[j]).ending_epoch
                        == self.auctions@[j].ending_epoch && r@[j].auctions@
                        == self.auctions@[j].auctions@,
            decreases self.auctions@.len() - i,
        {
            let g = &self.auctions[i];
            r.push(
                EpochAuctions {
                    ending_epoch: g.ending_epoch,
                    auctions: copy_components(&g.auctions),
                },
            );
            i = i + 1;
        }
        r
    }

    /// The position of the group of `epoch`.
    fn find(&self, epoch: u64) -> (r: Option<usize>)
        requires
            self.wf(),
        ensures
            r matches Some(i) ==> i < self.auctions@.len() && self.auctions@[i as int].ending_epoch
                == epoch && self.listed_at(epoch) == self.auctions@[i as int].auctions@,
            r is None ==> forall|i: int|
                0 <= i < self.auctions@.len() ==> (#[trigger] self.auctions@[i]).ending_epoch
                    != epoch,
    {
        let mut i: usize = 0;
        while i < self.auctions.len()
            invariant
                self.wf(),
                0 <= i <= self.auctions@.len(),
                forall|j: int| 0 <= j < i ==> (#[trigger] self.auctions@[j]).ending_epoch != epoch,
            decreases self.auctions@.len() - i,
        {
            if self.auctions[i].ending_epoch == epoch {
                proof {
                    assert(self.auctions@[i as int].ending_epoch == epoch);
                    let k = choose|j: int|
                        0 <= j < self.auctions@.len() && (#[trigger] self.auctions@[j]).ending_epoch
                            == epoch;
                    if k != i as int {
                        assert(self.auctions@[k].ending_epoch != self.auctions@[i as int].ending_epoch);
                    }
                }
                return Some(i);
            }
            i = i + 1;
        }
        None
    }

    /// Records `auction_component`, an auction just instantiated at
    /// `current_epoch` to run for `epoch_period` epochs, under the epoch at
    /// which it ends.
    pub fn create_auction(
        &mut self,
        auction_component: ComponentId,
        epoch_period: u64,
        current_epoch: u64,
    ) -> (r: Result<(), IndexError>)
        requires
            old(self).wf(),
        ensures
            final(self).wf(),
            final(self).auction_template == old(self).auction_template,
            current_epoch + epoch_period > u64::MAX ==> r == Err::<(), IndexError>(
                IndexError::EpochOverflow,
            ) && final(self).auctions@ == old(self).auctions@,
            current_epoch + epoch_period <= u64::MAX ==> r is Ok && forall|e: u64|
                #[trigger] final(self).listed_at(e) == if e == current_epoch + epoch_period {
                    old(self).listed_at(e).push(auction_component)
                } else {
                    old(self).listed_at(e)
                },
    {
        let ending_epoch = match current_epoch.checked_add(epoch_period) {
            Some(e) => e,
            None => {
                return Err(IndexError::EpochOverflow);
            },
        };
        match self.find(ending_epoch) {
            Some(i) => {
                let mut g = self.auctions.remove(i);
                g.auctions.push(auction_component);
                self.auctions.insert(i, g);
                proof {
                    assert(self.auctions@ =~= old(self).auctions@.update(i as int, g));
                    assert forall|j: int, k: int|
                        0 <= j < self.auctions@.len() && 0 <= k < self.auctions@.len() && j != k
                            implies (#[trigger] self.auctions@[j]).ending_epoch
                            != (#[trigger] self.auctions@[k]).ending_epoch by {
                        assert(old(self).auctions@[j].ending_epoch
                            != old(self).auctions@[k].ending_epoch);
                    }
                    assert forall|e: u64|
                        #[trigger] self.listed_at(e) == if e == ending_epoch {
                            old(self).listed_at(e).push(auction_component)
                        } else {
                            old(self).listed_at(e)
                        } by {
                        Self::lemma_listed_at(*old(self), e);
                        Self::lemma_listed_at(*self, e);
                        if e == ending_epoch {
                            assert(self.auctions@[i as int].ending_epoch == e);
                            assert(old(self).auctions@[i as int].ending_epoch == e);
                        } else if exists|j: int|
                            0 <= j < old(self).auctions@.len()
                                && (#[trigger] old(self).auctions@[j]).ending_epoch == e {
                            let j = choose|j: int|
                                0 <= j < old(self).auctions@.len()
                                    && (#[trigger] old(self).auctions@[j]).ending_epoch == e;
                            assert(self.auctions@[j] == old(self).auctions@[j]);
                        } else {
                            assert forall|j: int| 0 <= j < self.auctions@.len() implies (
                            #[trigger] self.auctions@[j]).ending_epoch != e by {
                                assert(old(self).auctions@[j].ending_epoch != e);
                            }
                        }
                    }
                }
            },
            None => {
                let mut v: Vec<ComponentId> = Vec::new();
                v.push(auction_component);
                let g = EpochAuctions { ending_epoch, auctions: v };
                self.auctions.push(g);
                proof {
                    let n = old(self).auctions@.len() as int;
                    assert forall|j: int, k: int|
                        0 <= j < self.auctions@.len() && 0 <= k < self.auctions@.len() && j != k
                            implies (#[trigger] self.auctions@[j]).ending_epoch
                            != (#[trigger] self.auctions@[k]).ending_epoch by {
                        if j < n && k < n {
                            assert(old(self).auctions@[j].ending_epoch
                                != old(self).auctions@[k].ending_epoch);
                        } else if j < n {
                            assert(old(self).auctions@[j].ending_epoch != ending_epoch);
                        } else {
                            assert(old(self).auctions@[k].ending_epoch != ending_epoch);
                        }
                    }
                    assert forall|e: u64|
                        #[trigger] self.listed_at(e) == if e == ending_epoch {
                            old(self).listed_at(e).push(auction_component)
                        } else {
                            old(self).listed_at(e)
                        } by {
                        Self::lemma_listed_at(*old(self), e);
                        Self::lemma_listed_at(*self, e);
                        if e == ending_epoch {
                            assert(self.auctions@[n].ending_epoch == e);
                            assert(seq![auction_component] =~= Seq::<ComponentId>::empty().push(
                                auction_component,
                            ));
                        } else if exists|j: int|
                            0 <= j < old(self).auctions@.len()
                                && (#[trigger] old(self).auctions@[j]).ending_epoch == e {
                            let j = choose|j: int|
                                0 <= j < old(self).auctions@.len()
                                    && (#[trigger] old(self).auctions@[j]).ending_epoch == e;
                            assert(self.auctions@[j] == old(self).auctions@[j]);
                        } else {
                            assert forall|j: int| 0 <= j < self.auctions@.len() implies (
                            #[trigger] self.auctions@[j]).ending_epoch != e by {
                                if j < n {
                                    assert(old(self).auctions@[j].ending_epoch != e);
                                }
                            }
                        }
                    }
                }
            },
        }
        Ok(())
    }

    /// In a well-formed index the group of `epoch`, if any, is the one listed.
    proof fn lemma_listed_at(idx: AuctionIndex, epoch: u64)
        requires
            idx.wf(),
        ensures
            forall|i: int|
                0 <= i < idx.auctions@.len() && (#[trigger] idx.auctions@[i]).ending_epoch == epoch
                    ==> idx.listed_at(epoch) == idx.auctions@[i].auctions@,
            (forall|i: int|
                0 <= i < idx.auctions@.len() ==> (#[trigger] idx.auctions@[i]).ending_epoch
                    != epoch) ==> idx.listed_at(epoch) == Seq::<ComponentId>::empty(),
    {
        assert forall|i: int|
            0 <= i < idx.auctions@.len() && (#[trigger] idx.auctions@[i]).ending_epoch
                == epoch implies idx.listed_at(epoch) == idx.auctions@[i].auctions@ by {
            let k = choose|j: int|
                0 <= j < idx.auctions@.len() && (#[trigger] idx.auctions@[j]).ending_epoch == epoch;
            if k != i {
                assert(idx.auctions@[k].ending_epoch != idx.auctions@[i].ending_epoch);
            }
        }
    }
}

} // verus!
