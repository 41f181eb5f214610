//! The protobuf messages this library sends, serialized by the protobuf
//! library from the game's and Steam's generated message types.
use crate::envelope::{proto_envelope, proto_tag};
use crate::request::{RecipeComponent, SetItemPosition};
use crate::wire::{lemma_u64_round_trip, u32_le, u64_from_le, u64_le};
use protobuf::Message;
use steam_vent_proto::tf2::base_gcmessages::{
    cmsg_set_item_positions::ItemPosition, CMsgFulfillDynamicRecipeComponent,
    CMsgGCRemoveCustomizationAttributeSimple, CMsgRecipeComponent, CMsgSetItemPositions,
    CMsgUseItem,
};
use steam_vent_proto_steam::steammessages_base::CMsgProtoBufHeader;
use vstd::prelude::*;

verus! {

#[verifier::external_type_specification]
#[verifier::external_body]
pub struct ExProtobufError(protobuf::Error);

/// The protobuf varint of `v`: seven bits per byte, least significant
/// first, the high bit set on every byte but the last.
pub open spec fn varint(v: u64) -> Seq<u8>
    decreases v,
{
    if v < 0x80 {
        seq![v as u8]
    } else {
        seq![((v % 0x80) + 0x80) as u8] + varint(v / 0x80)
    }
}

/// The serialized protobuf header that carries only the source job id:
/// field 10 as fixed64, that is the key byte `0x51` and eight little-endian bytes.
pub open spec fn proto_header_bytes(source_job_id: u64) -> Seq<u8> {
    seq![0x51u8] + u64_le(source_job_id)
}

/// A message whose only field is field 1 as uint64: the key byte `0x08` and
/// the varint of `v`.
pub open spec fn uint64_field_one(v: u64) -> Seq<u8> {
    seq![0x08u8] + varint(v)
}

/// The serialized message that strips a customization from `item_id`.
pub open spec fn remove_customization_body(item_id: u64) -> Seq<u8> {
    uint64_field_one(item_id)
}

/// The serialized message that uses `item_id`.
pub open spec fn use_item_body(item_id: u64) -> Seq<u8> {
    uint64_field_one(item_id)
}

/// The serialized message that fulfills a dynamic recipe on the tool
/// `tool_item_id` with the (subject item, attribute index) pairs `components`.
pub uninterp spec fn fulfill_recipe_body(tool_item_id: u64, components: Seq<(u64, u64)>) -> Seq<u8>;

/// The serialized message that moves each item to its (item, position) pair.
pub uninterp spec fn set_positions_body(positions: Seq<(u64, u32)>) -> Seq<u8>;

/// The (subject item, attribute index) pairs of a list of recipe components.
pub open spec fn component_pairs(components: Seq<RecipeComponent>) -> Seq<(u64, u64)> {
    components.map_values(|c: RecipeComponent| (c.subject_item_id, c.attribute_index))
}

/// The (item, position) pairs of a list of position changes.
pub open spec fn position_pairs(positions: Seq<SetItemPosition>) -> Seq<(u64, u32)> {
    positions.map_values(|p: SetItemPosition| (p.item_id, p.position))
}

/// Relies on Steam's `CMsgProtoBufHeader` with only `jobid_source` (fixed64,
/// field 10) set, serialized by `protobuf::Message::write_to_bytes`, which
/// succeeds for a message with no required field.
#[verifier::external_body]
pub(crate) fn encode_proto_header(source_job_id: u64) -> (r: Result<Vec<u8>, protobuf::Error>)
    ensures
        r is Ok,
        r->Ok_0@ == proto_header_bytes(source_job_id),
{
    let mut header = CMsgProtoBufHeader::new();
    header.set_jobid_source(source_job_id);
    header.write_to_bytes()
}

/// Relies on the game's `CMsgGCRemoveCustomizationAttributeSimple` with
/// `item_id` (uint64, field 1) set, serialized by
/// `protobuf::Message::write_to_bytes`, which succeeds for it.
#[verifier::external_body]
pub(crate) fn encode_remove_customization(item_id: u64) -> (r: Result<Vec<u8>, protobuf::Error>)
    ensures
        r is Ok,
        r->Ok_0@ == remove_customization_body(item_id),
{
    let mut message = CMsgGCRemoveCustomizationAttributeSimple::new();
    message.set_item_id(item_id);
    message.write_to_bytes()
}

/// Relies on the game's `CMsgUseItem` with only `item_id` (uint64, field 1)
/// set, serialized by `protobuf::Message::write_to_bytes`, which succeeds for it.
#[verifier::external_body]
pub(crate) fn encode_use_item(item_id: u64) -> (r: Result<Vec<u8>, protobuf::Error>)
    ensures
        r is Ok,
        r->Ok_0@ == use_item_body(item_id),
{
    let mut message = CMsgUseItem::new();
    message.set_item_id(item_id);
    message.write_to_bytes()
}

/// Relies on the game's `CMsgFulfillDynamicRecipeComponent` with the tool and
/// one `CMsgRecipeComponent` per component, in order, serialized by
/// `protobuf::Message::write_to_bytes`, which succeeds for it: neither message
/// has a required field.
#[verifier::external_body]
pub(crate) fn encode_fulfill_recipe(tool_item_id: u64, components: &[RecipeComponent]) -> (r:
    Result<Vec<u8>, protobuf::Error>)
    ensures
        r is Ok,
        r->Ok_0@ == fulfill_recipe_body(tool_item_id, component_pairs(components@)),
{
    let mut message = CMsgFulfillDynamicRecipeComponent::new();
    message.set_tool_item_id(tool_item_id);
    message.consumption_components = components.iter().map(|c| CMsgRecipeComponent {
        subject_item_id: Some(c.subject_item_id),
        attribute_index: Some(c.attribute_index),
        ..Default::default()
    }).collect();
    message.write_to_bytes()
}

/// Relies on the game's `CMsgSetItemPositions` with one `ItemPosition` per
/// entry, in order, serialized by `protobuf::Message::write_to_bytes`, which
/// succeeds for it: neither message has a required field.
#[verifier::external_body]
pub(crate) fn encode_set_positions(positions: &[SetItemPosition]) -> (r: Result<Vec<u8>, protobuf::Error>)
    ensures
        r is Ok,
        r->Ok_0@ == set_positions_body(position_pairs(positions@)),
{
    let mut message = CMsgSetItemPositions::new();
    message.item_positions = positions.iter().map(|p| ItemPosition {
        item_id: Some(p.item_id),
        position: Some(p.position),
        ..Default::default()
    }).collect();
    message.write_to_bytes()
}

/// The protobuf envelopes of one message tag and body sent as two job ids
/// have the same length and differ only in the job id, bytes 9 to 16.
pub proof fn lemma_proto_envelopes_differ_only_in_source(
    msg_type: u32,
    first: u64,
    second: u64,
    body: Seq<u8>,
)
    ensures
        proto_envelope(msg_type, proto_header_bytes(first), body).len() == 17 + body.len(),
        proto_envelope(msg_type, proto_header_bytes(second), body).len() == 17 + body.len(),
        forall|i: int|
            0 <= i < 17 + body.len() && !(9 <= i < 17) ==> proto_envelope(
                msg_type,
                proto_header_bytes(first),
                body,
            )[i] == #[trigger] proto_envelope(msg_type, proto_header_bytes(second), body)[i],
        u64_from_le(proto_envelope(msg_type, proto_header_bytes(first), body).subrange(9, 17))
            == first,
        u64_from_le(proto_envelope(msg_type, proto_header_bytes(second), body).subrange(9, 17))
            == second,
{
    let front = u32_le(proto_tag(msg_type)) + u32_le(9u32) + seq![0x51u8];
    let a = proto_envelope(msg_type, proto_header_bytes(first), body);
    let b = proto_envelope(msg_type, proto_header_bytes(second), body);
    assert(a =~= front + u64_le(first) + body);
    assert(b =~= front + u64_le(second) + body);
    lemma_u64_round_trip(first);
    lemma_u64_round_trip(second);
    assert(a.subrange(9, 17) =~= u64_le(first));
    assert(b.subrange(9, 17) =~= u64_le(second));
    assert forall|i: int| 0 <= i < 17 + body.len() && !(9 <= i < 17) implies a[i] == #[trigger] b[i] by {
        if i < 9 {
            assert(a[i] == front[i]);
            assert(b[i] == front[i]);
        } else {
            assert(a[i] == body[i - 17]);
            assert(b[i] == body[i - 17]);
        }
    }
}

} // verus!
