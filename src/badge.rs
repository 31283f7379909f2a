//! The payload of a cancellation badge: the only pointer from a badge back to
//! the item whose auction it may cancel.
//!
//! Both fields are written in the ledger's canonical text forms, which read
//! back to exactly the values that were written.
use std::str::FromStr;
use tari_template_lib::types::{NonFungibleId, ObjectKey, ResourceAddress};
use vstd::prelude::*;

use crate::ids::{NftAddress, NftId, NftIdView, ResourceId};

verus! {

/// The badge metadata field that holds the item's resource.
pub const SELLER_BADGE_RESOURCE_FIELD: &'static str = "resource";

/// The badge metadata field that holds the item's id within its resource.
pub const SELLER_BADGE_ID_FIELD: &'static str = "id";

/// The ledger's text form of a resource key.
pub uninterp spec fn resource_text(key: Seq<u8>) -> Seq<char>;

/// The ledger's canonical text form of a token id.
pub uninterp spec fn nft_id_text(id: NftIdView) -> Seq<char>;

/// Relies on `Display` of tari's `ResourceAddress`, which writes the key as
/// `resource_` and its bytes in hex.
#[verifier::external_body]
fn format_resource(r: &ResourceId) -> (s: String)
    ensures
        s@ == resource_text(r.key@),
{
    ResourceAddress::new(ObjectKey::from_array(r.key)).to_string()
}

/// Relies on `FromStr` of tari's `ResourceAddress`, which strips `resource_`
/// and reads 32 bytes of hex back: what `Display` wrote reads back as the
/// same key.
#[verifier::external_body]
fn parse_resource(s: &String) -> (r: Option<ResourceId>)
    ensures
        forall|k: ResourceId| #[trigger] resource_text(k.key@) == s@
            ==> (r is Some && r->0.key@ == k.key@),
{
    match ResourceAddress::from_str(s) {
        Ok(a) => Some(ResourceId { key: a.as_object_key().into_array() }),
        Err(_) => None,
    }
}

/// Relies on tari's `NonFungibleId::to_canonical_string`, which writes the
/// kind of the id (`uuid`, `str`, `u32`, `u64`), `_`, and its value. A text id
/// of 1 to 64 bytes is accepted by `NonFungibleId::from_string`.
#[verifier::external_body]
fn format_nft_id(id: &NftId) -> (s: String)
    requires
        id.wf(),
    ensures
        s@ == nft_id_text(id@),
{
    let id = match id {
        NftId::Uuid(k) => NonFungibleId::from_u256(*k),
        NftId::Text(t) => NonFungibleId::from_string(t.clone()),
        NftId::U32(n) => NonFungibleId::from_u32(*n),
        NftId::U64(n) => NonFungibleId::from_u64(*n),
    };
    id.to_canonical_string()
}

/// Relies on tari's `NonFungibleId::try_from_canonical_string`, which reads
/// back what `to_canonical_string` wrote, and accepts a text id only of 1 to
/// 64 bytes.
#[verifier::external_body]
fn parse_nft_id(s: &String) -> (r: Option<NftId>)
    ensures
        r matches Some(x) ==> x.wf(),
        forall|id: NftIdView| #[trigger] nft_id_text(id) == s@ && nft_id_view_wf(id)
            ==> (r is Some && r->0@ == id),
{
    match NonFungibleId::try_from_canonical_string(s) {
        Ok(NonFungibleId::U256(k)) => Some(NftId::Uuid(k)),
        Ok(NonFungibleId::String(t)) => Some(NftId::Text(t.into_string())),
        Ok(NonFungibleId::Uint32(n)) => Some(NftId::U32(n)),
        Ok(NonFungibleId::Uint64(n)) => Some(NftId::U64(n)),
        Err(_) => None,
    }
}

/// The ids that the ledger accepts, on their mathematical values.
pub open spec fn nft_id_view_wf(id: NftIdView) -> bool {
    match id {
        NftIdView::Uuid(k) => k.len() == 32,
        NftIdView::Text(s) => crate::ids::text_id_ok(s),
        _ => true,
    }
}

/// The immutable data of a cancellation badge: the item's resource and id,
/// each in the ledger's canonical text form.
#[derive(Debug)]
pub struct BadgePayload {
    pub resource: String,
    pub id: String,
}

/// A cancellation badge as presented: its resource, its own token id, and
/// its immutable payload.
#[derive(Debug)]
pub struct Badge {
    pub resource: ResourceId,
    pub id: NftId,
    pub payload: BadgePayload,
}

/// Whether `p` is the payload that names the item `item`.
pub open spec fn names_item(p: BadgePayload, item: crate::ids::NftAddressView) -> bool {
    &&& p.resource@ == resource_text(item.resource)
    &&& p.id@ == nft_id_text(item.id)
}

/// The payload of the badge that may cancel the auction of `item`.
pub fn badge_payload(item: &NftAddress) -> (p: BadgePayload)
    requires
        item.wf(),
    ensures
        names_item(p, item@),
{
    BadgePayload { resource: format_resource(&item.resource), id: format_nft_id(&item.id) }
}

/// The item that a badge payload names, if it is well formed. A payload made
/// by [`badge_payload`] always reads back as the item it was made from.
pub fn item_of_badge(p: &BadgePayload) -> (r: Option<NftAddress>)
    ensures
        r matches Some(x) ==> x.wf(),
        forall|item: NftAddress| item.wf() && #[trigger] names_item(*p, item@)
            ==> (r matches Some(x) && x@ == item@),
{
    let resource = parse_resource(&p.resource);
    let id = parse_nft_id(&p.id);
    proof {
        assert forall|item: NftAddress| item.wf() && #[trigger] names_item(*p, item@)
            implies (resource matches Some(x) && x.key@ == item.resource.key@) by {
            assert(resource_text(item.resource.key@) == p.resource@);
        }
        assert forall|item: NftAddress| item.wf() && #[trigger] names_item(*p, item@)
            implies (id matches Some(x) && x@ == item.id@) by {
            assert(nft_id_text(item.id@) == p.id@);
            assert(nft_id_view_wf(item.id@));
        }
    }
    match (resource, id) {
        (Some(resource), Some(id)) => Some(NftAddress { resource, id }),
        _ => None,
    }
}

} // verus!
