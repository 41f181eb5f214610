use tf2_gc::request::{
    request_info, MSG_CRAFT, MSG_CRAFT_RESPONSE, MSG_REMOVE_GIFTED_BY,
    MSG_REMOVE_GIFTED_BY_RESPONSE, MSG_REMOVE_ITEM_NAME, MSG_REMOVE_KILL_STREAK,
};
use tf2_gc::{
    CraftResponse, DecodeError, EnvelopeKind, GCBytesMessage, ItemCustomization, Operation,
};

#[test]
fn craft_reply_decodes() {
    let mut payload = vec![0xfe, 0xff, 9, 9, 9, 9, 2, 0];
    payload.extend_from_slice(&77u64.to_le_bytes());
    payload.extend_from_slice(&u64::MAX.to_le_bytes());
    let r = CraftResponse::from_payload(&payload).unwrap();
    assert_eq!(r.blueprint, -2);
    assert_eq!(r.assetids, vec![77, u64::MAX]);
}

#[test]
fn craft_reply_ignores_trailing_bytes() {
    let mut payload = vec![3, 0, 0, 0, 0, 0, 1, 0];
    payload.extend_from_slice(&5u64.to_le_bytes());
    payload.push(0xaa);
    let r = <CraftResponse as GCBytesMessage>::from_payload(&payload).unwrap();
    assert_eq!(r.blueprint, 3);
    assert_eq!(r.assetids, vec![5]);
}

#[test]
fn craft_reply_with_no_items() {
    let r = CraftResponse::from_payload(&[1, 0, 0, 0, 0, 0, 0, 0]).unwrap();
    assert_eq!(r.blueprint, 1);
    assert!(r.assetids.is_empty());
}

#[test]
fn craft_reply_too_short() {
    assert_eq!(
        CraftResponse::from_payload(&[1, 0, 0, 0, 0, 0, 0]).unwrap_err(),
        DecodeError::UnexpectedEof
    );
    let mut payload = vec![1, 0, 0, 0, 0, 0, 2, 0];
    payload.extend_from_slice(&5u64.to_le_bytes());
    assert_eq!(CraftResponse::from_payload(&payload).unwrap_err(), DecodeError::UnexpectedEof);
}

#[test]
fn request_table_entries() {
    let craft = request_info(Operation::Craft);
    assert_eq!(craft.kind, EnvelopeKind::RawBinary);
    assert_eq!(craft.msg_type, MSG_CRAFT);
    assert_eq!(craft.response, Some(MSG_CRAFT_RESPONSE));
    let gifted = request_info(Operation::RemoveCustomization(ItemCustomization::GiftedBy));
    assert_eq!(gifted.kind, EnvelopeKind::ProtobufWrapped);
    assert_eq!(gifted.msg_type, MSG_REMOVE_GIFTED_BY);
    assert_eq!(gifted.response, Some(MSG_REMOVE_GIFTED_BY_RESPONSE));
    let ks = request_info(Operation::RemoveCustomization(ItemCustomization::Killstreak));
    assert_eq!(ks.msg_type, MSG_REMOVE_KILL_STREAK);
    assert_eq!(ks.response, None);
    let desc = request_info(Operation::RemoveItemDescription);
    assert_eq!(desc.msg_type, MSG_REMOVE_ITEM_NAME);
    assert_eq!(desc.kind, EnvelopeKind::RawBinary);
    assert_eq!(request_info(Operation::SetPositions).kind, EnvelopeKind::ProtobufWrapped);
}
