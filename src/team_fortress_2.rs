//! A session with the game coordinator: it hands out job ids and turns each
//! item operation into the message that goes on the wire.
use crate::envelope::{
    encode_proto, encode_raw, lemma_proto_tag_recovered, proto_envelope, raw_envelope,
    EncodeError, JOBID_NONE, PROTO_FLAG,
};
use crate::proto::{
    component_pairs, encode_fulfill_recipe, encode_proto_header, encode_remove_customization,
    encode_set_positions, encode_use_item, fulfill_recipe_body, position_pairs,
    proto_header_bytes, remove_customization_body, set_positions_body, use_item_body,
};
use crate::request::{
    request_info, spec_request_info, EnvelopeKind, ItemCustomization, Operation,
    RecipeComponent, SetItemPosition, APPID,
};
use crate::wire::{
    i16_le, push_i16_le, push_u32_le, push_u64_le, u32_from_le, u32_le, u64_le,
};
use vstd::prelude::*;

verus! {

/// The recipe number that asks the coordinator for any recipe that matches.
pub const ANY_RECIPE: i16 = -2;

/// A message ready for the transport: where it goes, how it is framed, the
/// job id it was sent as, and its bytes.
#[derive(Debug)]
pub struct GCRequest {
    pub app_id: u32,
    pub msg_type: u32,
    pub is_protobuf: bool,
    pub job_id: u64,
    pub payload: Vec<u8>,
}

/// One session with the game coordinator.
#[derive(Debug)]
pub struct TeamFortress2 {
    source_job_id: u64,
}

/// The eight-byte encodings of `items`, one after another.
pub open spec fn item_ids_le(items: Seq<u64>) -> Seq<u8>
    decreases items.len(),
{
    if items.len() == 0 {
        seq![]
    } else {
        item_ids_le(items.drop_last()) + u64_le(items.last())
    }
}

/// The body that strips a name (`flag` 0) or a description (`flag` 1).
pub open spec fn item_flag_body(item_id: u64, flag: u32) -> Seq<u8> {
    u64_le(item_id) + u32_le(flag)
}

/// The body of a delete request.
pub open spec fn delete_body(item_id: u64) -> Seq<u8> {
    u64_le(item_id)
}

/// The body of a style change.
pub open spec fn set_style_body(item_id: u64, style: u32) -> Seq<u8> {
    u64_le(item_id) + u32_le(style)
}

/// The body that moves one item.
pub open spec fn set_position_body(item_id: u64, position: u64) -> Seq<u8> {
    u64_le(item_id) + u64_le(position)
}

/// The largest number of items one craft can name: its count field is an `i16`.
pub const MAX_CRAFT_ITEMS: usize = 0x7fff;

/// The body of a craft with `recipe`: the recipe, the item count, then each
/// item id.
pub open spec fn craft_recipe_body(recipe: i16, items: Seq<u64>) -> Seq<u8>
    recommends
        items.len() <= MAX_CRAFT_ITEMS,
{
    i16_le(recipe) + i16_le(items.len() as i16) + item_ids_le(items)
}

/// The body of a craft with whatever recipe matches.
pub open spec fn craft_body(items: Seq<u64>) -> Seq<u8>
    recommends
        items.len() <= MAX_CRAFT_ITEMS,
{
    craft_recipe_body(ANY_RECIPE, items)
}

/// `m` is the raw request `msg_type` with `body`, sent as job `job_id`.
pub open spec fn is_raw_request(m: GCRequest, msg_type: u32, job_id: u64, body: Seq<u8>) -> bool {
    &&& m.app_id == APPID
    &&& m.msg_type == msg_type
    &&& !m.is_protobuf
    &&& m.job_id == job_id
    &&& m.payload@ == raw_envelope(job_id, body)
}

/// `m` is the protobuf request `msg_type` with `body`, sent as job `job_id`.
pub open spec fn is_proto_request(m: GCRequest, msg_type: u32, job_id: u64, body: Seq<u8>) -> bool {
    &&& m.app_id == APPID
    &&& m.msg_type == msg_type
    &&& m.is_protobuf
    &&& m.job_id == job_id
    &&& m.payload@ == proto_envelope(msg_type, proto_header_bytes(job_id), body)
}

/// `m` is the request for `op` with `body`, sent as job `job_id`, framed and
/// tagged as the request table says.
pub open spec fn is_request_for(m: GCRequest, op: Operation, job_id: u64, body: Seq<u8>) -> bool {
    match spec_request_info(op).kind {
        EnvelopeKind::RawBinary => is_raw_request(m, spec_request_info(op).msg_type, job_id, body),
        EnvelopeKind::ProtobufWrapped => is_proto_request(
            m,
            spec_request_info(op).msg_type,
            job_id,
            body,
        ),
    }
}

/// Going from `before` to `after` handed out the job id `id`, the next one.
pub open spec fn issues(before: TeamFortress2, after: TeamFortress2, id: u64) -> bool {
    &&& after.job_id() == before.job_id() + 1
    &&& id == after.job_id()
}

impl TeamFortress2 {
    /// The last job id handed out; 0 before the first.
    pub closed spec fn job_id(&self) -> u64 {
        self.source_job_id
    }

    /// Another job id can be handed out without reaching `JOBID_NONE`.
    pub open spec fn can_issue(&self) -> bool {
        self.job_id() + 1 < JOBID_NONE
    }

    /// A fresh session, which has handed out no job id yet.
    pub fn new() -> (r: Self)
        ensures
            r.job_id() == 0,
    {
        TeamFortress2 { source_job_id: 0 }
    }

    /// The last job id handed out; 0 before the first.
    pub fn last_job_id(&self) -> (r: u64)
        ensures
            r == self.job_id(),
    {
        self.source_job_id
    }

    /// Whether another job id can be handed out.
    pub fn has_job_ids_left(&self) -> (r: bool)
        ensures
            r == self.can_issue(),
    {
        self.source_job_id < JOBID_NONE - 1
    }

    /// Hands out the next job id.
    pub fn next_jobid(&mut self) -> (r: u64)
        requires
            old(self).can_issue(),
        ensures
            issues(*old(self), *final(self), r),
    {
        self.source_job_id = self.source_job_id + 1;
        self.source_job_id
    }

    /// Hands out the next job id and wraps `body` in a raw envelope sent as it.
    fn payload(&mut self, body: &[u8]) -> (r: (u64, Vec<u8>))
        requires
            old(self).can_issue(),
        ensures
            issues(*old(self), *final(self), r.0),
            r.1@ == raw_envelope(r.0, body@),
    {
        let job_id = self.next_jobid();
        (job_id, encode_raw(job_id, body))
    }

    /// Hands out the next job id and wraps the protobuf `body` behind a header
    /// that carries it.
    fn proto_payload(&mut self, msg_type: u32, body: &[u8]) -> (r: Result<(u64, Vec<u8>), EncodeError>)
        requires
            old(self).can_issue(),
        ensures
            r is Ok,
            issues(*old(self), *final(self), r->Ok_0.0),
            r->Ok_0.1@ == proto_envelope(msg_type, proto_header_bytes(r->Ok_0.0), body@),
    {
        let job_id = self.source_job_id + 1;
        let header = match encode_proto_header(job_id) {
            Ok(h) => h,
            Err(_) => return Err(EncodeError::Message),
        };
        let bytes = match encode_proto(msg_type, header.as_slice(), body) {
            Ok(v) => v,
            Err(e) => return Err(e),
        };
        let issued = self.next_jobid();
        Ok((issued, bytes))
    }

    /// Builds the raw request for `op` with `body` under the next job id.
    fn raw_request(&mut self, op: Operation, body: &[u8]) -> (r: GCRequest)
        requires
            old(self).can_issue(),
            spec_request_info(op).kind == EnvelopeKind::RawBinary,
        ensures
            issues(*old(self), *final(self), r.job_id),
            is_request_for(r, op, r.job_id, body@),
    {
        let msg_type = request_info(op).msg_type;
        let (job_id, payload) = self.payload(body);
        GCRequest { app_id: APPID, msg_type, is_protobuf: false, job_id, payload }
    }

    /// Builds the protobuf request for `op` with the encoded message `body`
    /// under the next job id, or hands out nothing where it cannot.
    fn proto_request(&mut self, op: Operation, body: Result<Vec<u8>, protobuf::Error>) -> (r:
        Result<GCRequest, EncodeError>)
        requires
            old(self).can_issue(),
            spec_request_info(op).kind == EnvelopeKind::ProtobufWrapped,
        ensures
            body is Err ==> r == Err::<GCRequest, EncodeError>(EncodeError::Message)
                && *final(self) == *old(self),
            body is Ok ==> r is Ok && issues(*old(self), *final(self), r->Ok_0.job_id)
                && is_request_for(r->Ok_0, op, r->Ok_0.job_id, body->Ok_0@),
    {
        let msg_type = request_info(op).msg_type;
        let body = match body {
            Ok(b) => b,
            Err(_) => return Err(EncodeError::Message),
        };
        match self.proto_payload(msg_type, body.as_slice()) {
            Ok((job_id, payload)) => Ok(
                GCRequest { app_id: APPID, msg_type, is_protobuf: true, job_id, payload },
            ),
            Err(e) => Err(e),
        }
    }

    /// Asks for the custom name of `item_id` to be removed.
    pub fn remove_item_name(&mut self, item_id: u64) -> (r: GCRequest)
        requires
            old(self).can_issue(),
        ensures
            issues(*old(self), *final(self), r.job_id),
            is_request_for(r, Operation::RemoveItemName, r.job_id, item_flag_body(item_id, 0)),
    {
        let mut body: Vec<u8> = Vec::new();
        push_u64_le(&mut body, item_id);
        push_u32_le(&mut body, 0);
        self.raw_request(Operation::RemoveItemName, body.as_slice())
    }

    /// Asks for the custom description of `item_id` to be removed.
    pub fn remove_item_description(&mut self, item_id: u64) -> (r: GCRequest)
        requires
            old(self).can_issue(),
        ensures
            issues(*old(self), *final(self), r.job_id),
            is_request_for(r, Operation::RemoveItemDescription, r.job_id, item_flag_body(item_id, 1)),
    {
        let mut body: Vec<u8> = Vec::new();
        push_u64_le(&mut body, item_id);
        push_u32_le(&mut body, 1);
        self.raw_request(Operation::RemoveItemDescription, body.as_slice())
    }

    /// Asks for `item_id` to be deleted.
    pub fn delete_item(&mut self, item_id: u64) -> (r: GCRequest)
        requires
            old(self).can_issue(),
        ensures
            issues(*old(self), *final(self), r.job_id),
            is_request_for(r, Operation::DeleteItem, r.job_id, delete_body(item_id)),
    {
        let mut body: Vec<u8> = Vec::new();
        push_u64_le(&mut body, item_id);
        self.raw_request(Operation::DeleteItem, body.as_slice())
    }

    /// Asks for `item_id` to take the style `style`.
    pub fn set_style(&mut self, item_id: u64, style: u32) -> (r: GCRequest)
        requires
            old(self).can_issue(),
        ensures
            issues(*old(self), *final(self), r.job_id),
            is_request_for(r, Operation::SetStyle, r.job_id, set_style_body(item_id, style)),
    {
        let mut body: Vec<u8> = Vec::new();
        push_u64_le(&mut body, item_id);
        push_u32_le(&mut body, style);
        self.raw_request(Operation::SetStyle, body.as_slice())
    }

    /// Asks for `item_id` to be moved to `position`.
    pub fn set_position(&mut self, item_id: u64, position: u64) -> (r: GCRequest)
        requires
            old(self).can_issue(),
        ensures
            issues(*old(self), *final(self), r.job_id),
            is_request_for(
                r,
                Operation::SetPosition,
                r.job_id,
                set_position_body(item_id, position),
            ),
    {
        let mut body: Vec<u8> = Vec::new();
        push_u64_le(&mut body, item_id);
        push_u64_le(&mut body, position);
        self.raw_request(Operation::SetPosition, body.as_slice())
    }

    /// Asks for `item_ids` to be crafted with `recipe`.
    pub fn craft_recipe(&mut self, recipe: i16, item_ids: &[u64]) -> (r: GCRequest)
        requires
            old(self).can_issue(),
            item_ids@.len() <= MAX_CRAFT_ITEMS,
        ensures
            issues(*old(self), *final(self), r.job_id),
            is_request_for(r, Operation::Craft, r.job_id, craft_recipe_body(recipe, item_ids@)),
    {
        let mut body: Vec<u8> = Vec::new();
        push_i16_le(&mut body, recipe);
        push_i16_le(&mut body, item_ids.len() as i16);
        let ghost head = body@;
        let mut i: usize = 0;
        while i < item_ids.len()
            invariant
                i <= item_ids@.len(),
                body@ == head + item_ids_le(item_ids@.subrange(0, i as int)),
            decreases item_ids@.len() - i,
        {
            push_u64_le(&mut body, item_ids[i]);
            assert(item_ids@.subrange(0, i + 1).drop_last() =~= item_ids@.subrange(0, i as int));
            i = i + 1;
        }
        assert(item_ids@.subrange(0, i as int) =~= item_ids@);
        self.raw_request(Operation::Craft, body.as_slice())
    }

    /// Asks for `item_ids` to be crafted with whatever recipe matches.
    pub fn craft(&mut self, item_ids: &[u64]) -> (r: GCRequest)
        requires
            old(self).can_issue(),
            item_ids@.len() <= MAX_CRAFT_ITEMS,
        ensures
            issues(*old(self), *final(self), r.job_id),
            is_request_for(r, Operation::Craft, r.job_id, craft_body(item_ids@)),
    {
        self.craft_recipe(ANY_RECIPE, item_ids)
    }

    /// Asks for `customization` to be stripped from `item_id`.
    pub fn remove_customization(&mut self, item_id: u64, customization: &ItemCustomization) -> (r:
        Result<GCRequest, EncodeError>)
        requires
            old(self).can_issue(),
        ensures
            r is Ok,
            issues(*old(self), *final(self), r->Ok_0.job_id),
            is_request_for(
                r->Ok_0,
                Operation::RemoveCustomization(*customization),
                r->Ok_0.job_id,
                remove_customization_body(item_id),
            ),
    {
        self.proto_request(
            Operation::RemoveCustomization(*customization),
            encode_remove_customization(item_id),
        )
    }

    /// Asks for `item_id` to be used.
    pub fn use_item(&mut self, item_id: u64) -> (r: Result<GCRequest, EncodeError>)
        requires
            old(self).can_issue(),
        ensures
            r is Ok,
            issues(*old(self), *final(self), r->Ok_0.job_id),
            is_request_for(
                r->Ok_0,
                Operation::UseItem,
                r->Ok_0.job_id,
                use_item_body(item_id),
            ),
    {
        self.proto_request(Operation::UseItem, encode_use_item(item_id))
    }

    /// Asks for the dynamic recipe on the tool `item_id` to be fulfilled with
    /// `components`.
    pub fn fulfill_recipe(&mut self, item_id: u64, components: Vec<RecipeComponent>) -> (r:
        Result<GCRequest, EncodeError>)
        requires
            old(self).can_issue(),
        ensures
            r is Ok,
            issues(*old(self), *final(self), r->Ok_0.job_id),
            is_request_for(
                r->Ok_0,
                Operation::FulfillRecipe,
                r->Ok_0.job_id,
                fulfill_recipe_body(item_id, component_pairs(components@)),
            ),
    {
        self.proto_request(
            Operation::FulfillRecipe,
            encode_fulfill_recipe(item_id, components.as_slice()),
        )
    }

    /// Asks for each listed item to be moved to its position.
    pub fn set_positions(&mut self, set_item_positions: Vec<SetItemPosition>) -> (r:
        Result<GCRequest, EncodeError>)
        requires
            old(self).can_issue(),
        ensures
            r is Ok,
            issues(*old(self), *final(self), r->Ok_0.job_id),
            is_request_for(
                r->Ok_0,
                Operation::SetPositions,
                r->Ok_0.job_id,
                set_positions_body(position_pairs(set_item_positions@)),
            ),
    {
        self.proto_request(
            Operation::SetPositions,
            encode_set_positions(set_item_positions.as_slice()),
        )
    }
}

} // verus!

verus! {

/// On a fresh session, a run of requests that each hand out a job id hands
/// out exactly 1, 2, ..., n, in order, with no gap and no repeat.
pub proof fn lemma_job_ids_consecutive(sessions: Seq<TeamFortress2>, ids: Seq<u64>)
    requires
        sessions.len() == ids.len() + 1,
        sessions[0].job_id() == 0,
        forall|k: int| 0 <= k < ids.len() ==> issues(sessions[k], sessions[k + 1], #[trigger] ids[k]),
    ensures
        forall|k: int| 0 <= k < ids.len() ==> #[trigger] ids[k] == k + 1,
{
    assert forall|k: int| 0 <= k < ids.len() implies #[trigger] ids[k] == k + 1 by {
        lemma_job_id_after(sessions, ids, k + 1);
    }
}

/// After the first `i` requests of such a run, the session's last job id is `i`.
proof fn lemma_job_id_after(sessions: Seq<TeamFortress2>, ids: Seq<u64>, i: int)
    requires
        sessions.len() == ids.len() + 1,
        sessions[0].job_id() == 0,
        forall|k: int| 0 <= k < ids.len() ==> issues(sessions[k], sessions[k + 1], #[trigger] ids[k]),
        0 <= i <= ids.len(),
    ensures
        sessions[i].job_id() == i,
    decreases i,
{
    if i > 0 {
        lemma_job_id_after(sessions, ids, i - 1);
        assert(issues(sessions[i - 1], sessions[i], ids[i - 1]));
    }
}

/// Crafting with any recipe lays out the same body as crafting with the
/// recipe -2, whose two bytes are `fe ff`.
pub proof fn lemma_craft_is_any_recipe(items: Seq<u64>)
    ensures
        craft_body(items) == craft_recipe_body(-2i16, items),
        craft_body(items).subrange(0, 2) == seq![0xfeu8, 0xffu8],
{
    assert(craft_body(items).subrange(0, 2) =~= seq![0xfeu8, 0xffu8]) by {
        assert(#[verifier::truncate] ((-2i16) as u16) == 0xfffeu16) by (bit_vector);
        assert((0xfffeu16 & 0xff) as u8 == 0xfeu8) by (bit_vector);
        assert(((0xfffeu16 >> 8u16) & 0xff) as u8 == 0xffu8) by (bit_vector);
    }
}

/// Every message tag in the request table leaves the protobuf flag clear, so
/// masking the flag out of the first four bytes of any operation's protobuf
/// envelope gives back that operation's tag.
pub proof fn lemma_request_tag_recovered(op: Operation, header: Seq<u8>, body: Seq<u8>)
    requires
        header.len() <= u32::MAX,
    ensures
        u32_from_le(proto_envelope(spec_request_info(op).msg_type, header, body).subrange(0, 4))
            & !PROTO_FLAG == spec_request_info(op).msg_type,
{
    let t = spec_request_info(op).msg_type;
    assert(t < 0x8000_0000u32);
    assert(t & 0x8000_0000u32 == 0) by (bit_vector)
        requires
            t < 0x8000_0000u32,
    ;
    lemma_proto_tag_recovered(t, header, body);
}

} // verus!
