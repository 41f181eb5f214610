//! Encoding of item requests to the Team Fortress 2 game coordinator.
//!
//! A [`TeamFortress2`] session hands out job ids and turns each item
//! operation into a [`GCRequest`]: its message tag, whether it is framed as
//! a protobuf message, the job id it was sent as, and the exact bytes to
//! hand to the transport.
pub mod envelope;
pub mod proto;
pub mod request;
pub mod bytes_message;
pub mod team_fortress_2;
pub mod wire;

pub use envelope::{EncodeError, JOBID_NONE, PROTO_FLAG};
pub use request::{EnvelopeKind, ItemCustomization, Operation, RecipeComponent, RequestInfo, SetItemPosition};
pub use bytes_message::{CraftResponse, DecodeError, GCBytesMessage};
pub use team_fortress_2::{GCRequest, TeamFortress2, ANY_RECIPE};
