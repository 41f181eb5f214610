//! The operations that can be sent to the item coordinator, their inputs, and
//! the fixed table that gives each one its envelope kind and message tag.
use vstd::prelude::*;

verus! {

/// A customization that can be stripped from an item.
#[derive(Debug, Clone, Copy, PartialEq, Eq, Structural)]
pub enum ItemCustomization {
    GiftedBy,
    CraftedBy,
    Decal,
    Killstreak,
    Paint,
    Festivizer,
}

/// One component handed over when fulfilling a dynamic recipe.
#[derive(Debug, Clone, Copy, PartialEq, Eq, Structural)]
pub struct RecipeComponent {
    pub subject_item_id: u64,
    pub attribute_index: u64,
}

/// The new position of one item in the backpack.
#[derive(Debug, Clone, Copy, PartialEq, Eq, Structural)]
pub struct SetItemPosition {
    pub item_id: u64,
    pub position: u32,
}

/// How the body of a request is framed on the wire.
#[derive(Debug, Clone, Copy, PartialEq, Eq, Structural)]
pub enum EnvelopeKind {
    /// A fixed-layout binary record behind an 18-byte header.
    RawBinary,
    /// A protobuf message behind a protobuf header.
    ProtobufWrapped,
}

/// Every request this library can encode.
#[derive(Debug, Clone, Copy, PartialEq, Eq, Structural)]
pub enum Operation {
    RemoveItemName,
    RemoveItemDescription,
    RemoveCustomization(ItemCustomization),
    UseItem,
    FulfillRecipe,
    DeleteItem,
    SetStyle,
    SetPosition,
    SetPositions,
    Craft,
}

/// The entry of the request table for one operation.
#[derive(Debug, Clone, Copy, PartialEq, Eq, Structural)]
pub struct RequestInfo {
    pub kind: EnvelopeKind,
    pub msg_type: u32,
    /// The message tag of the coordinator's reply, where it sends one.
    pub response: Option<u32>,
}

/// The application id of the game whose coordinator these requests go to.
pub const APPID: u32 = 440;

pub const MSG_SET_SINGLE_ITEM_POSITION: u32 = 1001;
pub const MSG_CRAFT: u32 = 1002;
pub const MSG_CRAFT_RESPONSE: u32 = 1003;
pub const MSG_DELETE: u32 = 1004;
pub const MSG_USE_ITEM_REQUEST: u32 = 1025;
pub const MSG_REMOVE_ITEM_NAME: u32 = 1030;
pub const MSG_REMOVE_ITEM_PAINT: u32 = 1031;
pub const MSG_SET_ITEM_STYLE: u32 = 1039;
pub const MSG_REMOVE_CUSTOM_TEXTURE: u32 = 1051;
pub const MSG_REMOVE_MAKERS_MARK: u32 = 1053;
pub const MSG_FULFILL_DYNAMIC_RECIPE_COMPONENT: u32 = 1085;
pub const MSG_REMOVE_KILL_STREAK: u32 = 1094;
pub const MSG_SET_ITEM_POSITIONS: u32 = 1100;
pub const MSG_REMOVE_GIFTED_BY: u32 = 2570;
pub const MSG_REMOVE_GIFTED_BY_RESPONSE: u32 = 2571;
pub const MSG_REMOVE_FESTIVIZER: u32 = 2572;

/// The message tag that strips customization `c`.
pub open spec fn customization_msg_type(c: ItemCustomization) -> u32 {
    match c {
        ItemCustomization::GiftedBy => MSG_REMOVE_GIFTED_BY,
        ItemCustomization::CraftedBy => MSG_REMOVE_MAKERS_MARK,
        ItemCustomization::Decal => MSG_REMOVE_CUSTOM_TEXTURE,
        ItemCustomization::Killstreak => MSG_REMOVE_KILL_STREAK,
        ItemCustomization::Paint => MSG_REMOVE_ITEM_PAINT,
        ItemCustomization::Festivizer => MSG_REMOVE_FESTIVIZER,
    }
}

/// The request table: envelope kind, message tag and reply tag of each operation.
pub open spec fn spec_request_info(op: Operation) -> RequestInfo {
    match op {
        Operation::RemoveItemName => RequestInfo {
            kind: EnvelopeKind::RawBinary,
            msg_type: MSG_REMOVE_ITEM_NAME,
            response: None,
        },
        Operation::RemoveItemDescription => RequestInfo {
            kind: EnvelopeKind::RawBinary,
            msg_type: MSG_REMOVE_ITEM_NAME,
            response: None,
        },
        Operation::RemoveCustomization(c) => RequestInfo {
            kind: EnvelopeKind::ProtobufWrapped,
            msg_type: customization_msg_type(c),
            response: if c == ItemCustomization::GiftedBy {
                Some(MSG_REMOVE_GIFTED_BY_RESPONSE)
            } else {
                None
            },
        },
        Operation::UseItem => RequestInfo {
            kind: EnvelopeKind::ProtobufWrapped,
            msg_type: MSG_USE_ITEM_REQUEST,
            response: None,
        },
        Operation::FulfillRecipe => RequestInfo {
            kind: EnvelopeKind::ProtobufWrapped,
            msg_type: MSG_FULFILL_DYNAMIC_RECIPE_COMPONENT,
            response: None,
        },
        Operation::DeleteItem => RequestInfo {
            kind: EnvelopeKind::RawBinary,
            msg_type: MSG_DELETE,
            response: None,
        },
        Operation::SetStyle => RequestInfo {
            kind: EnvelopeKind::RawBinary,
            msg_type: MSG_SET_ITEM_STYLE,
            response: None,
        },
        Operation::SetPosition => RequestInfo {
            kind: EnvelopeKind::RawBinary,
            msg_type: MSG_SET_SINGLE_ITEM_POSITION,
            response: None,
        },
        Operation::SetPositions => RequestInfo {
            kind: EnvelopeKind::ProtobufWrapped,
            msg_type: MSG_SET_ITEM_POSITIONS,
            response: None,
        },
        Operation::Craft => RequestInfo {
            kind: EnvelopeKind::RawBinary,
            msg_type: MSG_CRAFT,
            response: Some(MSG_CRAFT_RESPONSE),
        },
    }
}

/// The message tag that strips customization `c`.
pub fn customization_msg_type_of(c: ItemCustomization) -> (r: u32)
    ensures
        r == customization_msg_type(c),
{
    match c {
        ItemCustomization::GiftedBy => MSG_REMOVE_GIFTED_BY,
        ItemCustomization::CraftedBy => MSG_REMOVE_MAKERS_MARK,
        ItemCustomization::Decal => MSG_REMOVE_CUSTOM_TEXTURE,
        ItemCustomization::Killstreak => MSG_REMOVE_KILL_STREAK,
        ItemCustomization::Paint => MSG_REMOVE_ITEM_PAINT,
        ItemCustomization::Festivizer => MSG_REMOVE_FESTIVIZER,
    }
}

/// Looks up `op` in the request table.
pub fn request_info(op: Operation) -> (r: RequestInfo)
    ensures
        r == spec_request_info(op),
{
    match op {
        Operation::RemoveItemName | Operation::RemoveItemDescription => RequestInfo {
            kind: EnvelopeKind::RawBinary,
            msg_type: MSG_REMOVE_ITEM_NAME,
            response: None,
        },
        Operation::RemoveCustomization(c) => RequestInfo {
            kind: EnvelopeKind::ProtobufWrapped,
            msg_type: customization_msg_type_of(c),
            response: match c {
                ItemCustomization::GiftedBy => Some(MSG_REMOVE_GIFTED_BY_RESPONSE),
                _ => None,
            },
        },
        Operation::UseItem => RequestInfo {
            kind: EnvelopeKind::ProtobufWrapped,
            msg_type: MSG_USE_ITEM_REQUEST,
            response: None,
        },
        Operation::FulfillRecipe => RequestInfo {
            kind: EnvelopeKind::ProtobufWrapped,
            msg_type: MSG_FULFILL_DYNAMIC_RECIPE_COMPONENT,
            response: None,
        },
        Operation::DeleteItem => RequestInfo {
            kind: EnvelopeKind::RawBinary,
            msg_type: MSG_DELETE,
            response: None,
        },
        Operation::SetStyle => RequestInfo {
            kind: EnvelopeKind::RawBinary,
            msg_type: MSG_SET_ITEM_STYLE,
            response: None,
        },
        Operation::SetPosition => RequestInfo {
            kind: EnvelopeKind::RawBinary,
            msg_type: MSG_SET_SINGLE_ITEM_POSITION,
            response: None,
        },
        Operation::SetPositions => RequestInfo {
            kind: EnvelopeKind::ProtobufWrapped,
            msg_type: MSG_SET_ITEM_POSITIONS,
            response: None,
        },
        Operation::Craft => RequestInfo {
            kind: EnvelopeKind::RawBinary,
            msg_type: MSG_CRAFT,
            response: Some(MSG_CRAFT_RESPONSE),
        },
    }
}

} // verus!
