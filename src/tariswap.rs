//! A discovery index of swap pools, one for each unordered pair of resources.
use vstd::prelude::*;

use crate::ids::{ComponentId, ResourceId, TemplateId};
use crate::index::IndexError;

verus! {

/// Whether key `a` comes before key `b` in byte-wise lexicographic order.
pub open spec fn key_lt(a: Seq<u8>, b: Seq<u8>) -> bool {
    exists|k: int|
        0 <= k < a.len() && k < b.len() && a.subrange(0, k) == b.subrange(0, k) && #[trigger] a[k]
            < #[trigger] b[k]
}

/// Whether key `a` comes before key `b`.
fn key_less(a: &[u8; 32], b: &[u8; 32]) -> (r: bool)
    ensures
        r == key_lt(a@, b@),
{
    let mut i: usize = 0;
    while i < 32
        invariant
            0 <= i <= 32,
            a@.len() == 32,
            b@.len() == 32,
            a@.subrange(0, i as int) == b@.subrange(0, i as int),
        decreases 32 - i,
    {
        if a[i] != b[i] {
            if a[i] < b[i] {
                assert(a@[i as int] < b@[i as int]);
                return true;
            } else {
                assert forall|k: int|
                    0 <= k < a@.len() && k < b@.len() && a@.subrange(0, k) == b@.subrange(0, k)
                        implies !(#[trigger] a@[k] < #[trigger] b@[k]) by {
                    if k < i {
                        assert(a@.subrange(0, i as int)[k] == b@.subrange(0, i as int)[k]);
                    } else if k > i {
                        assert(a@.subrange(0, k)[i as int] == b@.subrange(0, k)[i as int]);
                    }
                }
                return false;
            }
        }
        assert(a@.subrange(0, i + 1) =~= a@.subrange(0, i as int).push(a@[i as int]));
        assert(b@.subrange(0, i + 1) =~= b@.subrange(0, i as int).push(b@[i as int]));
        i = i + 1;
    }
    assert(a@ =~= a@.subrange(0, 32));
    assert(b@ =~= b@.subrange(0, 32));
    assert forall|k: int|
        0 <= k < a@.len() && k < b@.len() && a@.subrange(0, k) == b@.subrange(0, k) implies !(
        #[trigger] a@[k] < #[trigger] b@[k]) by {
        assert(a@[k] == b@[k]);
    }
    false
}

/// Two distinct keys of one length are ordered one way or the other, and
/// never both ways.
proof fn lemma_key_lt_total(a: Seq<u8>, b: Seq<u8>)
    requires
        a.len() == b.len(),
    ensures
        !(key_lt(a, b) && key_lt(b, a)),
        a != b ==> key_lt(a, b) || key_lt(b, a),
{
    if key_lt(a, b) && key_lt(b, a) {
        let k1 = choose|k: int|
            0 <= k < a.len() && k < b.len() && a.subrange(0, k) == b.subrange(0, k)
                && #[trigger] a[k] < #[trigger] b[k];
        let k2 = choose|k: int|
            0 <= k < b.len() && k < a.len() && b.subrange(0, k) == a.subrange(0, k)
                && #[trigger] b[k] < #[trigger] a[k];
        if k1 < k2 {
            assert(a.subrange(0, k2)[k1] == b.subrange(0, k2)[k1]);
        } else if k2 < k1 {
            assert(a.subrange(0, k1)[k2] == b.subrange(0, k1)[k2]);
        }
    }
    if a != b {
        assert(a.subrange(0, 0) =~= b.subrange(0, 0));
        lemma_first_difference(a, b, 0);
    }
}

proof fn lemma_first_difference(a: Seq<u8>, b: Seq<u8>, i: int)
    requires
        a.len() == b.len(),
        a != b,
        0 <= i <= a.len(),
        a.subrange(0, i) == b.subrange(0, i),
    ensures
        key_lt(a, b) || key_lt(b, a),
    decreases a.len() - i,
{
    if i == a.len() {
        assert(a =~= a.subrange(0, i));
        assert(b =~= b.subrange(0, i));
    } else if a[i] < b[i] {
        assert(key_lt(a, b));
    } else if b[i] < a[i] {
        assert(key_lt(b, a));
    } else {
        assert(a.subrange(0, i + 1) =~= a.subrange(0, i).push(a[i]));
        assert(b.subrange(0, i + 1) =~= b.subrange(0, i).push(b[i]));
        lemma_first_difference(a, b, i + 1);
    }
}

/// The pool key of a pair of resources: the two in ascending order of key.
pub open spec fn pool_key(a: ResourceId, b: ResourceId) -> (ResourceId, ResourceId) {
    if key_lt(b.key@, a.key@) {
        (b, a)
    } else {
        (a, b)
    }
}

/// A pair of resources names the same pool in either order.
pub proof fn lemma_pool_key_symmetric(a: ResourceId, b: ResourceId)
    ensures
        pool_key(a, b).0.key@ == pool_key(b, a).0.key@,
        pool_key(a, b).1.key@ == pool_key(b, a).1.key@,
{
    lemma_key_lt_total(a.key@, b.key@);
}

/// One pool of the index: the pair of resources it swaps, in ascending order
/// of key, and the pool component.
#[derive(Clone, Copy, Debug, PartialEq, Eq)]
pub struct PoolEntry {
    pub first: ResourceId,
    pub second: ResourceId,
    pub pool: ComponentId,
}

/// Whether `pools` has a pool for the ordered pair `key`.
pub open spec fn has_pair(pools: Seq<PoolEntry>, key: (ResourceId, ResourceId)) -> bool {
    exists|i: int|
        0 <= i < pools.len() && (#[trigger] pools[i]).first.key@ == key.0.key@
            && pools[i].second.key@ == key.1.key@
}

/// An index of the swap pools instantiated from one template, all with one
/// market fee.
#[derive(Debug)]
pub struct TariswapIndex {
    /// The template that the pools are instantiated from.
    pub pool_template: TemplateId,
    /// The pools, in the order in which they were created.
    pub pools: Vec<PoolEntry>,
    /// The swap fee of every pool, in thousandths.
    pub market_fee: u16,
}

impl TariswapIndex {
    /// Each pool's pair is in order, and no two pools share a pair.
    pub open spec fn wf(&self) -> bool {
        &&& forall|i: int|
            0 <= i < self.pools@.len() ==> !key_lt(
                (#[trigger] self.pools@[i]).second.key@,
                self.pools@[i].first.key@,
            )
        &&& forall|i: int, j: int|
            0 <= i < self.pools@.len() && 0 <= j < self.pools@.len() && i != j ==> !((
            #[trigger] self.pools@[i]).first.key@ == (#[trigger] self.pools@[j]).first.key@
                && self.pools@[i].second.key@ == self.pools@[j].second.key@)
    }

    /// An empty index of pools of `pool_template`, each to charge `market_fee`.
    pub fn new(pool_template: TemplateId, market_fee: u16) -> (r: Self)
        ensures
            r.wf(),
            r.pool_template == pool_template,
            r.market_fee == market_fee,
            r.pools@.len() == 0,
    {
        TariswapIndex { pool_template, pools: Vec::new(), market_fee }
    }

    /// A copy of the pools.
    pub fn get_pools(&self) -> (r: Vec<PoolEntry>)
        ensures
            r@ == self.pools@,
    {
        let mut r: Vec<PoolEntry> = Vec::new();
        let mut i: usize = 0;
        while i < self.pools.len()
            invariant
                0 <= i <= self.pools@.len(),
                r@ == self.pools@.subrange(0, i as int),
            decreases self.pools@.len() - i,
        {
            r.push(self.pools[i]);
            i = i + 1;
            assert(r@ =~= self.pools@.subrange(0, i as int));
        }
        assert(r@ =~= self.pools@);
        r
    }

    /// The pool key of `a_addr` and `b_addr`: the two in ascending order.
    pub fn build_pool_key(a_addr: ResourceId, b_addr: ResourceId) -> (r: (ResourceId, ResourceId))
        ensures
            r == pool_key(a_addr, b_addr),
    {
        if key_less(&b_addr.key, &a_addr.key) {
            (b_addr, a_addr)
        } else {
            (a_addr, b_addr)
        }
    }

    /// Whether the index has a pool for `a_addr` and `b_addr`, in either order.
    pub fn has_pool(&self, a_addr: ResourceId, b_addr: ResourceId) -> (r: bool)
        ensures
            r == has_pair(self.pools@, pool_key(a_addr, b_addr)),
    {
        let key = Self::build_pool_key(a_addr, b_addr);
        let mut i: usize = 0;
        while i < self.pools.len()
            invariant
                key == pool_key(a_addr, b_addr),
                0 <= i <= self.pools@.len(),
                forall|j: int|
                    0 <= j < i ==> !((#[trigger] self.pools@[j]).first.key@ == key.0.key@
                        && self.pools@[j].second.key@ == key.1.key@),
            decreases self.pools@.len() - i,
        {
            if self.pools[i].first.same(&key.0) && self.pools[i].second.same(&key.1) {
                assert(self.pools@[i as int].first.key@ == key.0.key@);
                return true;
            }
            i = i + 1;
        }
        false
    }

    /// Records `pool_component`, a pool just instantiated for `a_addr` and
    /// `b_addr` (in the order of [`TariswapIndex::build_pool_key`]), unless
    /// the pair already has a pool.
    pub fn create_pool(
        &mut self,
        a_addr: ResourceId,
        b_addr: ResourceId,
        pool_component: ComponentId,
    ) -> (r: Result<(), IndexError>)
        requires
            old(self).wf(),
        ensures
            final(self).wf(),
            final(self).pool_template == old(self).pool_template,
            final(self).market_fee == old(self).market_fee,
            has_pair(old(self).pools@, pool_key(a_addr, b_addr)) ==> r == Err::<(), IndexError>(
                IndexError::PoolExists,
            ) && final(self).pools@ == old(self).pools@,
            !has_pair(old(self).pools@, pool_key(a_addr, b_addr)) ==> r is Ok && final(self).pools@
                == old(self).pools@.push(
                (PoolEntry {
                    first: pool_key(a_addr, b_addr).0,
                    second: pool_key(a_addr, b_addr).1,
                    pool: pool_component,
                }),
            ),
    {
        if self.has_pool(a_addr, b_addr) {
            return Err(IndexError::PoolExists);
        }
        let key = Self::build_pool_key(a_addr, b_addr);
        proof {
            lemma_key_lt_total(a_addr.key@, b_addr.key@);
        }
        self.pools.push(PoolEntry { first: key.0, second: key.1, pool: pool_component });
        proof {
            let n = old(self).pools@.len() as int;
            assert forall|i: int, j: int|
                0 <= i < self.pools@.len() && 0 <= j < self.pools@.len() && i != j implies !((
                #[trigger] self.pools@[i]).first.key@ == (#[trigger] self.pools@[j]).first.key@
                    && self.pools@[i].second.key@ == self.pools@[j].second.key@) by {
                if i < n && j < n {
                    assert(old(self).pools@[i] == self.pools@[i]);
                    assert(old(self).pools@[j] == self.pools@[j]);
                } else if i < n {
                    assert(old(self).pools@[i] == self.pools@[i]);
                } else {
                    assert(old(self).pools@[j] == self.pools@[j]);
                }
            }
        }
        Ok(())
    }
}

} // verus!
