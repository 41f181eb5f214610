//! Decoding of the coordinator's fixed-layout replies.
use crate::wire::{i16_from_le, u16_from_le, u64_from_le};
use vstd::prelude::*;

verus! {

/// Why a reply could not be decoded.
#[derive(Debug, Clone, Copy, PartialEq, Eq, Structural)]
pub enum DecodeError {
    /// The payload ends before the fields it announces.
    UnexpectedEof,
}

/// A reply that can be read from its payload.
pub trait GCBytesMessage: Sized {
    fn from_payload(payload: &[u8]) -> Result<Self, DecodeError>;
}

/// The coordinator's reply to a craft: the recipe it used and the new items.
#[derive(Debug)]
pub struct CraftResponse {
    pub blueprint: i16,
    pub assetids: Vec<u64>,
}

/// The number of item ids a craft reply announces in bytes 6 and 7.
pub open spec fn craft_response_count(payload: Seq<u8>) -> nat {
    u16_from_le(payload.subrange(6, 8)) as nat
}

/// The `k`-th item id of a craft reply.
pub open spec fn craft_response_asset(payload: Seq<u8>, k: int) -> u64 {
    u64_from_le(payload.subrange(8 + 8 * k, 16 + 8 * k))
}

/// A craft reply is complete: its fixed part and every announced id are there.
pub open spec fn craft_response_complete(payload: Seq<u8>) -> bool {
    payload.len() >= 8 && payload.len() >= 8 + 8 * craft_response_count(payload)
}

/// Reads two little-endian bytes of `b` at `at`.
fn read_u16_le(b: &[u8], at: usize) -> (r: u16)
    requires
        at + 2 <= b@.len(),
    ensures
        r == u16_from_le(b@.subrange(at as int, at + 2)),
{
    (b[at] as u16) | ((b[at + 1] as u16) << 8u16)
}

/// Reads eight little-endian bytes of `b` at `at`.
fn read_u64_le(b: &[u8], at: usize) -> (r: u64)
    requires
        at + 8 <= b@.len(),
    ensures
        r == u64_from_le(b@.subrange(at as int, at + 8)),
{
    (b[at] as u64) | ((b[at + 1] as u64) << 8u64) | ((b[at + 2] as u64) << 16u64) | ((b[at
        + 3] as u64) << 24u64) | ((b[at + 4] as u64) << 32u64) | ((b[at + 5] as u64) << 40u64)
        | ((b[at + 6] as u64) << 48u64) | ((b[at + 7] as u64) << 56u64)
}

impl CraftResponse {
    /// Decodes a craft reply: the recipe as two bytes, four bytes that carry
    /// nothing used here, the item count as two bytes, then each item id as
    /// eight bytes. Bytes after the last announced id are ignored.
    pub fn from_payload(payload: &[u8]) -> (r: Result<CraftResponse, DecodeError>)
        ensures
            r is Ok <==> craft_response_complete(payload@),
            r matches Ok(c) ==> {
                &&& c.blueprint == i16_from_le(payload@.subrange(0, 2))
                &&& c.assetids@.len() == craft_response_count(payload@)
                &&& forall|k: int|
                    0 <= k < c.assetids@.len() ==> #[trigger] c.assetids@[k]
                        == craft_response_asset(payload@, k)
            },
            r matches Err(e) ==> e == DecodeError::UnexpectedEof,
    {
        if payload.len() < 8 {
            return Err(DecodeError::UnexpectedEof);
        }
        let blueprint = read_u16_le(payload, 0) as i16;
        let count = read_u16_le(payload, 6) as usize;
        if (payload.len() - 8) / 8 < count {
            return Err(DecodeError::UnexpectedEof);
        }
        let mut assetids: Vec<u64> = Vec::with_capacity(count);
        let mut i: usize = 0;
        while i < count
            invariant
                count == craft_response_count(payload@),
                8 + 8 * count <= payload@.len(),
                i <= count,
                assetids@.len() == i,
                forall|k: int| 0 <= k < i ==> #[trigger] assetids@[k] == craft_response_asset(payload@, k),
            decreases count - i,
        {
            let id = read_u64_le(payload, 8 + 8 * i);
            assetids.push(id);
            i = i + 1;
        }
        Ok(CraftResponse { blueprint, assetids })
    }
}

impl GCBytesMessage for CraftResponse {
    fn from_payload(payload: &[u8]) -> Result<Self, DecodeError> {
        CraftResponse::from_payload(payload)
    }
}

} // verus!
