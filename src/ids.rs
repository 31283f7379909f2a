//! Identities of ledger objects, held as plain bytes and numbers.
use vstd::prelude::*;

verus! {

/// The 32-byte key of a resource (a token type).
#[derive(Clone, Copy, Debug, PartialEq, Eq)]
pub struct ResourceId {
    pub key: [u8; 32],
}

/// The 32-byte key of a component (an account, an auction, a pool).
#[derive(Clone, Copy, Debug, PartialEq, Eq)]
pub struct ComponentId {
    pub key: [u8; 32],
}

/// The 32-byte key of a template that components are instantiated from.
#[derive(Clone, Copy, Debug, PartialEq, Eq)]
pub struct TemplateId {
    pub key: [u8; 32],
}

/// Whether two 32-byte keys hold the same bytes.
pub fn keys_equal(a: &[u8; 32], b: &[u8; 32]) -> (r: bool)
    ensures
        r == (a@ == b@),
{
    let mut i: usize = 0;
    while i < 32
        invariant
            0 <= i <= 32,
            a@.len() == 32,
            b@.len() == 32,
            forall|j: int| 0 <= j < i ==> a@[j] == b@[j],
        decreases 32 - i,
    {
        if a[i] != b[i] {
            return false;
        }
        i = i + 1;
    }
    assert(a@ =~= b@);
    true
}

impl ResourceId {
    /// Whether both name the same resource.
    pub fn same(&self, other: &ResourceId) -> (r: bool)
        ensures
            r == (self.key@ == other.key@),
    {
        keys_equal(&self.key, &other.key)
    }
}

impl ComponentId {
    /// Whether both name the same component.
    pub fn same(&self, other: &ComponentId) -> (r: bool)
        ensures
            r == (self.key@ == other.key@),
    {
        keys_equal(&self.key, &other.key)
    }
}

/// The id of one non-fungible token within its resource.
#[derive(Debug, PartialEq, Eq)]
pub enum NftId {
    /// A 256-bit id, such as a freshly generated unique one.
    Uuid([u8; 32]),
    /// A text id of 1 to 64 bytes of UTF-8.
    Text(String),
    U32(u32),
    U64(u64),
}

/// The mathematical value of an [`NftId`].
pub enum NftIdView {
    Uuid(Seq<u8>),
    Text(Seq<char>),
    U32(u32),
    U64(u64),
}

/// Whether a text may serve as a text id: 1 to 64 bytes once encoded as UTF-8.
pub open spec fn text_id_ok(s: Seq<char>) -> bool {
    1 <= vstd::utf8::encode_utf8(s).len() <= 64
}

impl View for NftId {
    type V = NftIdView;

    open spec fn view(&self) -> NftIdView {
        match self {
            NftId::Uuid(k) => NftIdView::Uuid(k@),
            NftId::Text(s) => NftIdView::Text(s@),
            NftId::U32(n) => NftIdView::U32(*n),
            NftId::U64(n) => NftIdView::U64(*n),
        }
    }
}

impl NftId {
    /// Every id that the ledger accepts: a text id has 1 to 64 bytes.
    pub open spec fn wf(&self) -> bool {
        match self {
            NftId::Text(s) => text_id_ok(s@),
            _ => true,
        }
    }

    /// A text id, if `s` has the accepted length.
    pub fn text(s: String) -> (r: Option<NftId>)
        ensures
            r is Some <==> text_id_ok(s@),
            r matches Some(id) ==> id@ == NftIdView::Text(s@) && id.wf(),
    {
        let n = s.as_str().as_bytes().len();
        if 1 <= n && n <= 64 {
            Some(NftId::Text(s))
        } else {
            None
        }
    }

    /// Whether both are the same id.
    pub fn same(&self, other: &NftId) -> (r: bool)
        ensures
            r == (self@ == other@),
    {
        match (self, other) {
            (NftId::Uuid(a), NftId::Uuid(b)) => {
                let r = keys_equal(a, b);
                proof {
                    if r {
                        assert(self@ == other@);
                    }
                }
                r
            },
            (NftId::Text(a), NftId::Text(b)) => *a == *b,
            (NftId::U32(a), NftId::U32(b)) => *a == *b,
            (NftId::U64(a), NftId::U64(b)) => *a == *b,
            _ => false,
        }
    }

    /// A copy of this id.
    pub fn copy(&self) -> (r: NftId)
        ensures
            r@ == self@,
            r.wf() == self.wf(),
    {
        match self {
            NftId::Uuid(k) => NftId::Uuid(*k),
            NftId::Text(s) => NftId::Text(s.clone()),
            NftId::U32(n) => NftId::U32(*n),
            NftId::U64(n) => NftId::U64(*n),
        }
    }
}

/// The address of one non-fungible token: its resource and its id there.
#[derive(Debug, PartialEq, Eq)]
pub struct NftAddress {
    pub resource: ResourceId,
    pub id: NftId,
}

/// The mathematical value of an [`NftAddress`].
pub struct NftAddressView {
    pub resource: Seq<u8>,
    pub id: NftIdView,
}

impl View for NftAddress {
    type V = NftAddressView;

    open spec fn view(&self) -> NftAddressView {
        NftAddressView { resource: self.resource.key@, id: self.id@ }
    }
}

impl NftAddress {
    pub open spec fn wf(&self) -> bool {
        self.id.wf()
    }

    /// Whether both address the same token.
    pub fn same(&self, other: &NftAddress) -> (r: bool)
        ensures
            r == (self@ == other@),
    {
        self.resource.same(&other.resource) && self.id.same(&other.id)
    }

    /// A copy of this address.
    pub fn copy(&self) -> (r: NftAddress)
        ensures
            r@ == self@,
            r.wf() == self.wf(),
    {
        NftAddress { resource: self.resource, id: self.id.copy() }
    }
}

} // verus!
