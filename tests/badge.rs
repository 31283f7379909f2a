use std::str::FromStr;

use nft_marketplace::badge::{badge_payload, item_of_badge, BadgePayload};
use nft_marketplace::ids::{NftAddress, NftId, ResourceId};
use tari_template_lib::types::{NonFungibleId, ObjectKey, ResourceAddress};

fn resource() -> ResourceId {
    let mut key = [0u8; 32];
    for (i, b) in key.iter_mut().enumerate() {
        *b = i as u8 * 7;
    }
    ResourceId { key }
}

#[test]
fn payload_uses_the_canonical_text_forms() {
    let item = NftAddress { resource: resource(), id: NftId::U32(1234) };
    let p = badge_payload(&item);
    let expected = ResourceAddress::new(ObjectKey::from_array(resource().key)).to_string();
    assert_eq!(p.resource, expected);
    assert!(p.resource.starts_with("resource_"));
    assert_eq!(p.id, "u32_1234");

    let item = NftAddress { resource: resource(), id: NftId::Uuid([0xab; 32]) };
    assert_eq!(badge_payload(&item).id, format!("uuid_{}", "ab".repeat(32)));

    let item = NftAddress { resource: resource(), id: NftId::text("my_nft".to_string()).unwrap() };
    assert_eq!(badge_payload(&item).id, "str_my_nft");

    let item = NftAddress { resource: resource(), id: NftId::U64(u64::MAX) };
    assert_eq!(badge_payload(&item).id, format!("u64_{}", u64::MAX));
}

#[test]
fn payload_reads_back_as_its_item() {
    let ids = vec![
        NftId::Uuid([3; 32]),
        NftId::text("a_b_c".to_string()).unwrap(),
        NftId::text("é".repeat(32)).unwrap(),
        NftId::U32(0),
        NftId::U64(99),
    ];
    for id in ids {
        let item = NftAddress { resource: resource(), id };
        let back = item_of_badge(&badge_payload(&item)).unwrap();
        assert_eq!(back, item);
    }
}

#[test]
fn payload_agrees_with_the_ledger_parsers() {
    let item = NftAddress { resource: resource(), id: NftId::U64(5) };
    let p = badge_payload(&item);
    let r = ResourceAddress::from_str(&p.resource).unwrap();
    assert_eq!(r.as_object_key().into_array(), resource().key);
    assert_eq!(
        NonFungibleId::try_from_canonical_string(&p.id).unwrap(),
        NonFungibleId::from_u64(5)
    );
}

#[test]
fn malformed_payloads_name_no_item() {
    let good = badge_payload(&NftAddress { resource: resource(), id: NftId::U32(1) });
    let bad_resource = BadgePayload { resource: "resource_zz".to_string(), id: good.id.clone() };
    assert_eq!(item_of_badge(&bad_resource), None);
    let bad_id = BadgePayload { resource: good.resource.clone(), id: "1".to_string() };
    assert_eq!(item_of_badge(&bad_id), None);
    let bad_kind = BadgePayload { resource: good.resource.clone(), id: "i8_1".to_string() };
    assert_eq!(item_of_badge(&bad_kind), None);
    let empty_text = BadgePayload { resource: good.resource.clone(), id: "str_".to_string() };
    assert_eq!(item_of_badge(&empty_text), None);
}

#[test]
fn text_ids_hold_one_to_sixty_four_bytes() {
    assert!(NftId::text(String::new()).is_none());
    assert!(NftId::text("x".to_string()).is_some());
    assert!(NftId::text("x".repeat(64)).is_some());
    assert!(NftId::text("x".repeat(65)).is_none());
    // 33 two-byte characters are 66 bytes
    assert!(NftId::text("é".repeat(33)).is_none());
}

#[test]
fn ids_compare_by_value() {
    let a = NftAddress { resource: resource(), id: NftId::U32(1) };
    let b = NftAddress { resource: resource(), id: NftId::U64(1) };
    assert!(!a.same(&b));
    assert!(a.same(&a.copy()));
    let t1 = NftId::text("same".to_string()).unwrap();
    let t2 = NftId::text("same".to_string()).unwrap();
    assert!(t1.same(&t2));
    let other = ResourceId { key: [1; 32] };
    assert!(!resource().same(&other));
}
